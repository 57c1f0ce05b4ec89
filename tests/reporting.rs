use cargo_darwin::analyze::get_mutations_for_file;
use cargo_darwin::cli::help;
use cargo_darwin::diff::{color_diff, UnifiedColorDiff};
use cargo_darwin::error::DarwinError;
use cargo_darwin::mutation::{Mutation, MutationChunk};
use cargo_darwin::report::{MutationReport, MutationStatus};
use cargo_darwin::reporting::{generate_summary, report_file, summary_from};
use cargo_darwin::workspace::{
    assign_sequence_ids, workspace_path, workspace_plan, ProjectEntry, WorkspaceAction,
};

fn report(status: MutationStatus) -> MutationReport {
    MutationReport::new("out".to_string(), "err".to_string(), status)
}

fn sample() -> Vec<Mutation> {
    let source = "fn sub(x: i8, y: i8) -> i8 {\n    x - y\n}\n".to_string();
    get_mutations_for_file(&source, &"/project/src/a/toto.rs".to_string()).unwrap()
}

#[test]
fn simple_tags() {
    assert_eq!(report(MutationStatus::Success).simple(), "[Missing]");
    assert_eq!(report(MutationStatus::Fail).simple(), "[OK]");
    assert_eq!(report(MutationStatus::Timeout).simple(), "[Timeout]");
    assert_eq!(report(MutationStatus::CompilationFailed).simple(), "[Killed]");
}

#[test]
fn pretty_tags_without_colors() {
    colored::control::set_override(false);
    assert_eq!(report(MutationStatus::Fail).pretty(), "[OK]     ");
    assert_eq!(report(MutationStatus::CompilationFailed).pretty(), "[Killed] ");
}

#[test]
fn status_descriptions() {
    assert_eq!(
        MutationStatus::Success.description(),
        "Missing test, code base vulnerable to mutation"
    );
    assert_eq!(
        MutationStatus::CompilationFailed.description(),
        "Mutation killed, unsustainable"
    );
}

#[test]
fn sequence_ids_name_workspaces() {
    let mut mutants = sample();
    assign_sequence_ids(&mut mutants, &"/tmp/out".to_string());
    for (i, m) in mutants.iter().enumerate() {
        assert_eq!(m.get_mutation_id(), i);
        assert_eq!(m.get_mutation_project_path().unwrap(), &format!("/tmp/out/{i}"));
    }
    assert_eq!(workspace_path(&"/tmp/out/".to_string(), 12), "/tmp/out/12");
}

#[test]
fn summary_lists_mutants_in_order() {
    let mut mutants = sample();
    assign_sequence_ids(&mut mutants, &"/tmp/out".to_string());
    mutants[0].set_report(report(MutationStatus::Fail));
    mutants[1].set_report(report(MutationStatus::Fail));
    mutants[2].set_report(report(MutationStatus::CompilationFailed));
    let summary = generate_summary(&mutants, &"/project".to_string()).unwrap();
    assert_eq!(
        summary,
        "[OK] : Mutation #0 replace - by + in function \"sub\" of file src/a/toto.rs at line 2:7\n\
         [OK] : Mutation #1 replace - by * in function \"sub\" of file src/a/toto.rs at line 2:7\n\
         [Killed] : Mutation #2 replace - by && in function \"sub\" of file src/a/toto.rs at line 2:7\n"
    );
}

#[test]
fn summary_needs_reports() {
    let mutants = sample();
    assert_eq!(
        generate_summary(&mutants, &"/project".to_string()),
        Err(DarwinError::MissingReport)
    );
    let paths = vec!["a.rs".to_string(), "a.rs".to_string(), "a.rs".to_string()];
    assert_eq!(summary_from(&mutants, &paths), Err(DarwinError::MissingReport));
}

#[test]
fn details_outside_project_fail() {
    let mutants = sample();
    assert_eq!(
        mutants[0].get_details(&"/elsewhere".to_string()),
        Err(DarwinError::OutsideProject)
    );
    assert_eq!(
        mutants[0].get_details(&"/project".to_string()).unwrap(),
        "Mutation #0 replace - by + in function \"sub\" of file src/a/toto.rs at line 2:7"
    );
}

#[test]
fn report_file_names() {
    let mut mutants = sample();
    mutants[1].set_mutation_id(13);
    assert_eq!(report_file(&mutants[1]), "mutation_13.log");
}

#[test]
fn workspace_copies_all_but_target() {
    let entries = vec![
        ProjectEntry { relative_path: "Cargo.toml".to_string(), is_dir: false },
        ProjectEntry { relative_path: "src".to_string(), is_dir: true },
        ProjectEntry { relative_path: "src/lib.rs".to_string(), is_dir: false },
        ProjectEntry { relative_path: "src/main.rs".to_string(), is_dir: false },
    ];
    let plan = workspace_plan(&entries, &"src/lib.rs".to_string());
    assert_eq!(
        plan,
        vec![
            WorkspaceAction::CopyFile("Cargo.toml".to_string()),
            WorkspaceAction::CreateDir("src".to_string()),
            WorkspaceAction::WriteMutated("src/lib.rs".to_string()),
            WorkspaceAction::CopyFile("src/main.rs".to_string()),
        ]
    );
}

#[test]
fn display_without_report() {
    let mutants = sample();
    let original = "fn sub(x: i8, y: i8) -> i8 {\n    x - y\n}\n".to_string();
    let text = mutants[0].display(&original, false).unwrap();
    assert!(text.starts_with(
        "Mutation of file /project/src/a/toto.rs\nMutation reason: replace - by +\n\nMutation diff:\n"
    ));
    assert!(text.contains("-    x - y\n"));
    assert!(text.contains("+    x + y\n"));
}

#[test]
fn display_with_report() {
    let mut mutants = sample();
    mutants[1].set_report(report(MutationStatus::Fail));
    let original = "fn sub(x: i8, y: i8) -> i8 {\n    x - y\n}\n".to_string();
    let text = mutants[1].display(&original, false).unwrap();
    assert!(text.contains(
        "Mutation status : Mutation caught, code base robust to mutation\nMutation diff:\n"
    ));
    assert!(text.ends_with("stderr:\nerr\nstdout:\nout--\n"));
}

#[test]
fn display_needs_file_and_content() {
    let mutation = Mutation::new("+", MutationChunk::new_chunk(0..1));
    assert_eq!(
        mutation.display(&String::new(), false),
        Err(DarwinError::MissingFilePath)
    );
    let mut mutation = mutation;
    mutation.set_file_path(&"/p/a.rs".to_string());
    assert_eq!(
        mutation.display(&String::new(), true),
        Err(DarwinError::MissingMutatedFile)
    );
}

#[test]
fn color_diff_without_colors() {
    colored::control::set_override(false);
    let diff = color_diff("a\nb\nc\n", "a\nx\nc\n").unwrap();
    assert_eq!(diff, "@@ -1,3 +1,3 @@\n a\n-b\n+x\n c\n");
}

#[test]
fn color_diff_splits_far_changes_into_hunks() {
    colored::control::set_override(false);
    let before = "1\n2\n3\n4\n5\n6\n7\n8\n9\n10\n11\n12\n";
    let after = "x\n2\n3\n4\n5\n6\n7\n8\n9\n10\n11\ny\n";
    let diff = color_diff(before, after).unwrap();
    assert!(diff.starts_with("@@ -1,4 +1,4 @@\n"));
    assert!(diff.contains("@@ -9,4 +9,4 @@\n"));
}

#[test]
fn color_sink_ignores_change_out_of_range() {
    colored::control::set_override(false);
    let mut sink = UnifiedColorDiff::new("a\n", "b\n");
    sink.process_change(5..9, 0..1);
    assert_eq!(sink.finish(), "");
}

#[test]
fn help_lists_the_tags() {
    colored::control::set_override(false);
    let text = help();
    assert!(text.starts_with("\n[Missing] : Tests pass"));
    assert!(text.contains("[OK]      : Tests failed, the mutation has been caught\n"));
    assert!(text.contains("[Killed]  : Mutation introduces non buildable modification\n"));
}

#[test]
fn pretty_tags_with_colors() {
    colored::control::set_override(true);
    assert_eq!(report(MutationStatus::Fail).pretty(), "\u{1b}[32m[OK]     \u{1b}[0m");
    assert_eq!(report(MutationStatus::Success).pretty(), "\u{1b}[33m[Missing]\u{1b}[0m");
    colored::control::set_override(false);
}

#[test]
fn color_diff_shows_pure_insertion() {
    colored::control::set_override(false);
    let diff = color_diff("a\nb\n", "a\nx\nb\n").unwrap();
    assert_eq!(diff, "@@ -1,2 +1,3 @@\n a\n+x\n b\n");
}

#[test]
fn color_diff_shows_pure_removal() {
    colored::control::set_override(false);
    let diff = color_diff("a\nx\nb\n", "a\nb\n").unwrap();
    assert_eq!(diff, "@@ -1,3 +1,2 @@\n a\n-x\n b\n");
}

#[test]
fn summary_of_nothing_is_empty() {
    assert_eq!(generate_summary(&Vec::new(), &"/project".to_string()), Ok(String::new()));
}
