use cargo_darwin::report::MutationStatus;
use cargo_darwin::verify::{
    build_command, next_action, test_command, RunnerAction, RunnerEvent, FAILURE_EXIT_CODE,
    TEST_TIMEOUT_SECS,
};

fn finished(action: RunnerAction) -> (MutationStatus, String, String) {
    match action {
        RunnerAction::Finish(r) => (r.status, r.stdout, r.stderr),
        _ => panic!("expected a finished verification"),
    }
}

#[test]
fn failed_build_is_compilation_failed() {
    let (status, stdout, stderr) = finished(next_action(RunnerEvent::BuildExited {
        code: Some(101),
        stdout: "out".to_string(),
        stderr: "error[E0308]".to_string(),
    }, FAILURE_EXIT_CODE));
    assert_eq!(status, MutationStatus::CompilationFailed);
    assert_eq!(stdout, "out");
    assert_eq!(stderr, "error[E0308]");
}

#[test]
fn built_mutant_goes_on_to_tests() {
    let action = next_action(RunnerEvent::BuildExited {
        code: Some(0),
        stdout: String::new(),
        stderr: String::new(),
    }, FAILURE_EXIT_CODE);
    assert!(matches!(action, RunnerAction::RunTests));
}

#[test]
fn passing_tests_are_success() {
    let (status, stdout, _) = finished(next_action(RunnerEvent::TestsExited {
        code: Some(0),
        stdout: "test result: ok".to_string(),
        stderr: String::new(),
    }, FAILURE_EXIT_CODE));
    assert_eq!(status, MutationStatus::Success);
    assert_eq!(stdout, "test result: ok");
}

#[test]
fn failing_tests_are_fail() {
    let (status, _, stderr) = finished(next_action(RunnerEvent::TestsExited {
        code: Some(FAILURE_EXIT_CODE),
        stdout: String::new(),
        stderr: "test failed".to_string(),
    }, FAILURE_EXIT_CODE));
    assert_eq!(status, MutationStatus::Fail);
    assert_eq!(stderr, "test failed");
}

#[test]
fn timed_out_tests_are_killed() {
    match next_action(RunnerEvent::TestsTimedOut, FAILURE_EXIT_CODE) {
        RunnerAction::KillAndFinish(r) => {
            assert_eq!(r.status, MutationStatus::Timeout);
            assert_eq!(r.stdout, "");
            assert_eq!(r.stderr, "Timeout!");
        }
        _ => panic!("expected the tests to be killed"),
    }
}

#[test]
fn unexpected_exit_code_aborts() {
    let action = next_action(RunnerEvent::TestsExited {
        code: Some(2),
        stdout: String::new(),
        stderr: String::new(),
    }, FAILURE_EXIT_CODE);
    assert!(matches!(action, RunnerAction::Abort { code: Some(2) }));
    let action = next_action(RunnerEvent::TestsExited {
        code: None,
        stdout: String::new(),
        stderr: String::new(),
    }, FAILURE_EXIT_CODE);
    assert!(matches!(action, RunnerAction::Abort { code: None }));
}

#[test]
fn commands_silence_warnings() {
    let build = build_command();
    assert_eq!(build.program, "cargo");
    assert_eq!(build.args, vec!["build".to_string()]);
    assert_eq!(build.env, vec![("RUSTFLAGS".to_string(), "-Awarnings".to_string())]);
    let test = test_command();
    assert_eq!(test.args, vec!["test".to_string()]);
    assert_eq!(test.env[1], ("RUST_BACKTRACE".to_string(), "0".to_string()));
    assert_eq!(TEST_TIMEOUT_SECS, 60);
}

#[test]
fn failure_code_is_configurable() {
    let (status, _, _) = finished(next_action(
        RunnerEvent::TestsExited { code: Some(1), stdout: String::new(), stderr: String::new() },
        1,
    ));
    assert_eq!(status, MutationStatus::Fail);
    let action = next_action(
        RunnerEvent::BuildExited { code: Some(101), stdout: String::new(), stderr: String::new() },
        1,
    );
    assert!(matches!(action, RunnerAction::RunTests));
}
