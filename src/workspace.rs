use crate::mutation::Mutation;
use crate::text::{append_decimal, decimal_chars, push_char};
use vstd::prelude::*;
use vstd::string::*;

verus! {

/// `root` joined with the name `name` by a `/`, unless `root` already ends
/// with one.
pub open spec fn joined_path(root: Seq<char>, name: Seq<char>) -> Seq<char> {
    if root.len() > 0 && root.last() == '/' {
        root + name
    } else {
        root + seq!['/'] + name
    }
}

/// The directory of the workspace of mutant `id` under the output root.
pub open spec fn workspace_dir(root: Seq<char>, id: nat) -> Seq<char> {
    joined_path(root, decimal_chars(id))
}

/// The path of the workspace of mutant `id` under the output root.
pub fn workspace_path(mutation_root: &String, id: usize) -> (r: String)
    ensures
        r@ == workspace_dir(mutation_root@, id as nat),
{
    let mut path = mutation_root.clone();
    let n = path.as_str().unicode_len();
    let ends_with_slash = n > 0 && path.as_str().get_char(n - 1) == '/';
    if !ends_with_slash {
        push_char(&mut path, '/');
    }
    append_decimal(&mut path, id as u128);
    proof {
        if ends_with_slash {
            assert(mutation_root@.last() == '/');
        }
    }
    path
}

/// Numbers the mutants in order from 0 and gives each its workspace under
/// `mutation_root`, named by its number; nothing else changes.
pub fn assign_sequence_ids(mutants: &mut Vec<Mutation>, mutation_root: &String)
    ensures
        final(mutants)@.len() == old(mutants)@.len(),
        forall|i: int|
            0 <= i < final(mutants)@.len() ==> {
                let m = #[trigger] final(mutants)@[i];
                let o = old(mutants)@[i];
                &&& m.id == i
                &&& m.mutation_project_path matches Some(p) && p@ == workspace_dir(
                    mutation_root@,
                    i as nat,
                )
                &&& m.mutation == o.mutation
                &&& m.chunk == o.chunk
                &&& m.reason == o.reason
                &&& m.function_name == o.function_name
                &&& m.mutated_file == o.mutated_file
                &&& m.file_path == o.file_path
                &&& m.report == o.report
            },
{
    let ghost start = mutants@;
    let mut mutation_id: usize = 0;
    while mutation_id < mutants.len()
        invariant
            mutants@.len() == start.len(),
            mutation_id <= mutants@.len(),
            forall|j: int| mutation_id <= j < mutants@.len() ==> mutants@[j] == start[j],
            forall|i: int|
                0 <= i < mutation_id ==> {
                    let m = #[trigger] mutants@[i];
                    let o = start[i];
                    &&& m.id == i
                    &&& m.mutation_project_path matches Some(p) && p@ == workspace_dir(
                        mutation_root@,
                        i as nat,
                    )
                    &&& m.mutation == o.mutation
                    &&& m.chunk == o.chunk
                    &&& m.reason == o.reason
                    &&& m.function_name == o.function_name
                    &&& m.mutated_file == o.mutated_file
                    &&& m.file_path == o.file_path
                    &&& m.report == o.report
                },
        decreases mutants@.len() - mutation_id,
    {
        let mutation_path = workspace_path(mutation_root, mutation_id);
        mutants[mutation_id].set_mutation_project_path(&mutation_path);
        mutants[mutation_id].set_mutation_id(mutation_id);
        mutation_id = mutation_id + 1;
    }
}

/// A file or directory of the project, by its path relative to the root.
pub struct ProjectEntry {
    pub relative_path: String,
    pub is_dir: bool,
}

/// One step of building a mutant's workspace, by relative path.
#[derive(Debug, PartialEq)]
pub enum WorkspaceAction {
    /// Create the directory.
    CreateDir(String),
    /// Copy the file verbatim from the project.
    CopyFile(String),
    /// Write the mutated content in place of the file.
    WriteMutated(String),
}

/// The step that builds an entry of the project in a mutant's workspace:
/// directories are created, the targeted source file is written with the
/// mutated content, every other file is copied verbatim.
pub open spec fn entry_action_fits(a: WorkspaceAction, e: ProjectEntry, target: Seq<char>) -> bool {
    if e.is_dir {
        a matches WorkspaceAction::CreateDir(p) && p@ == e.relative_path@
    } else if e.relative_path@ == target {
        a matches WorkspaceAction::WriteMutated(p) && p@ == e.relative_path@
    } else {
        a matches WorkspaceAction::CopyFile(p) && p@ == e.relative_path@
    }
}

/// The steps that build one mutant's workspace from the project's entries,
/// one per entry and in the same order; `target` is the relative path of the
/// source file that the mutant changes.
pub fn workspace_plan(entries: &Vec<ProjectEntry>, target: &String) -> (r: Vec<WorkspaceAction>)
    ensures
        r@.len() == entries@.len(),
        forall|i: int|
            0 <= i < entries@.len() ==> entry_action_fits(
                #[trigger] r@[i],
                entries@[i],
                target@,
            ),
{
    let mut actions: Vec<WorkspaceAction> = Vec::new();
    let mut i: usize = 0;
    while i < entries.len()
        invariant
            i <= entries@.len(),
            actions@.len() == i,
            forall|j: int|
                0 <= j < i ==> entry_action_fits(#[trigger] actions@[j], entries@[j], target@),
        decreases entries@.len() - i,
    {
        let entry = &entries[i];
        let path = entry.relative_path.clone();
        let action = if entry.is_dir {
            WorkspaceAction::CreateDir(path)
        } else if entry.relative_path == *target {
            WorkspaceAction::WriteMutated(path)
        } else {
            WorkspaceAction::CopyFile(path)
        };
        actions.push(action);
        i = i + 1;
    }
    actions
}

/// In every mutant's workspace, each file of the project but the targeted
/// one is copied verbatim, and the targeted one alone is written with the
/// mutated content; directories are created as they are.
pub proof fn lemma_workspace_isolation(
    entries: Seq<ProjectEntry>,
    target: Seq<char>,
    plan: Seq<WorkspaceAction>,
)
    requires
        plan.len() == entries.len(),
        forall|i: int|
            0 <= i < entries.len() ==> entry_action_fits(#[trigger] plan[i], entries[i], target),
    ensures
        forall|i: int|
            0 <= i < entries.len() && !entries[i].is_dir && entries[i].relative_path@ != target
                ==> (#[trigger] plan[i] matches WorkspaceAction::CopyFile(p) && p@
                == entries[i].relative_path@),
        forall|i: int|
            0 <= i < entries.len() ==> ((#[trigger] plan[i] is WriteMutated) <==> (
            !entries[i].is_dir && entries[i].relative_path@ == target)),
{
    assert forall|i: int| 0 <= i < entries.len() implies ((#[trigger] plan[i] is WriteMutated) <==> (
    !entries[i].is_dir && entries[i].relative_path@ == target)) by {
        assert(entry_action_fits(plan[i], entries[i], target));
    }
    assert forall|i: int|
        0 <= i < entries.len() && !entries[i].is_dir && entries[i].relative_path@
            != target implies (#[trigger] plan[i] matches WorkspaceAction::CopyFile(p) && p@
        == entries[i].relative_path@) by {
        assert(entry_action_fits(plan[i], entries[i], target));
    }
}

} // verus!
