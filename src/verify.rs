use crate::report::{MutationReport, MutationStatus};
use vstd::prelude::*;
use vstd::string::*;

verus! {

/// The exit code by which cargo reports a failed build or failed tests.
pub const FAILURE_EXIT_CODE: i32 = 101;

/// How long the tests of one mutant may run, in seconds.
pub const TEST_TIMEOUT_SECS: u64 = 60;

/// A command to run in a mutant's workspace, with the environment it gets.
pub struct CommandLine {
    pub program: String,
    pub args: Vec<String>,
    pub env: Vec<(String, String)>,
}

/// The build command: `cargo build`, warnings silenced.
pub fn build_command() -> (r: CommandLine)
    ensures
        r.program@ == "cargo"@,
        r.args@.len() == 1 && r.args@[0]@ == "build"@,
        r.env@.len() == 1,
        r.env@[0].0@ == "RUSTFLAGS"@ && r.env@[0].1@ == "-Awarnings"@,
{
    let mut args = Vec::new();
    args.push(String::from_str("build"));
    let mut env = Vec::new();
    env.push((String::from_str("RUSTFLAGS"), String::from_str("-Awarnings")));
    CommandLine { program: String::from_str("cargo"), args, env }
}

/// The test command: `cargo test`, warnings and backtraces silenced.
pub fn test_command() -> (r: CommandLine)
    ensures
        r.program@ == "cargo"@,
        r.args@.len() == 1 && r.args@[0]@ == "test"@,
        r.env@.len() == 2,
        r.env@[0].0@ == "RUSTFLAGS"@ && r.env@[0].1@ == "-Awarnings"@,
        r.env@[1].0@ == "RUST_BACKTRACE"@ && r.env@[1].1@ == "0"@,
{
    let mut args = Vec::new();
    args.push(String::from_str("test"));
    let mut env = Vec::new();
    env.push((String::from_str("RUSTFLAGS"), String::from_str("-Awarnings")));
    env.push((String::from_str("RUST_BACKTRACE"), String::from_str("0")));
    CommandLine { program: String::from_str("cargo"), args, env }
}

/// What the runner saw happen to the command it last started.
pub enum RunnerEvent {
    /// The build command exited, with this code (none if a signal ended it).
    BuildExited { code: Option<i32>, stdout: String, stderr: String },
    /// The test command exited within the time limit.
    TestsExited { code: Option<i32>, stdout: String, stderr: String },
    /// The test command was still running when the time limit passed.
    TestsTimedOut,
}

/// What the runner must do next.
pub enum RunnerAction {
    /// Start the test command, bounded by [`TEST_TIMEOUT_SECS`].
    RunTests,
    /// Kill the test command, then record the report.
    KillAndFinish(MutationReport),
    /// Record the report: verification of this mutant is over.
    Finish(MutationReport),
    /// The tests exited with a code that is neither success nor failure: an
    /// internal error that must stop the run.
    Abort { code: Option<i32> },
}

/// The report of a mutant whose tests ran out of time.
pub open spec fn is_timeout_report(r: MutationReport) -> bool {
    &&& r.status == MutationStatus::Timeout
    &&& r.stdout@ == Seq::<char>::empty()
    &&& r.stderr@ == "Timeout!"@
}

/// Decides the next step of verifying one mutant from what just happened,
/// given the exit code by which the toolchain reports failure (for cargo,
/// [`FAILURE_EXIT_CODE`]): a build that failed with it ends as `CompilationFailed`
/// with its output, any other build goes on to the tests; tests that exit
/// with 0 end as `Success`, with the failure code as `Fail`, with their
/// output; tests that ran out of time are killed and end as `Timeout`; any
/// other exit code of the tests aborts.
pub fn next_action(event: RunnerEvent, failure_code: i32) -> (r: RunnerAction)
    ensures
        match event {
            RunnerEvent::BuildExited { code, stdout, stderr } => if code == Some(failure_code) {
                r matches RunnerAction::Finish(rep) && rep.status == MutationStatus::CompilationFailed
                    && rep.stdout == stdout && rep.stderr == stderr
            } else {
                r is RunTests
            },
            RunnerEvent::TestsExited { code, stdout, stderr } => if code == Some(0i32) {
                r matches RunnerAction::Finish(rep) && rep.status == MutationStatus::Success
                    && rep.stdout == stdout && rep.stderr == stderr
            } else if code == Some(failure_code) {
                r matches RunnerAction::Finish(rep) && rep.status == MutationStatus::Fail
                    && rep.stdout == stdout && rep.stderr == stderr
            } else {
                r == (RunnerAction::Abort { code })
            },
            RunnerEvent::TestsTimedOut => r matches RunnerAction::KillAndFinish(rep)
                && is_timeout_report(rep),
        },
{
    match event {
        RunnerEvent::BuildExited { code, stdout, stderr } => {
            if code == Some(failure_code) {
                RunnerAction::Finish(
                    MutationReport::new(stdout, stderr, MutationStatus::CompilationFailed),
                )
            } else {
                RunnerAction::RunTests
            }
        },
        RunnerEvent::TestsExited { code, stdout, stderr } => {
            if code == Some(0i32) {
                RunnerAction::Finish(MutationReport::new(stdout, stderr, MutationStatus::Success))
            } else if code == Some(failure_code) {
                RunnerAction::Finish(MutationReport::new(stdout, stderr, MutationStatus::Fail))
            } else {
                RunnerAction::Abort { code }
            }
        },
        RunnerEvent::TestsTimedOut => RunnerAction::KillAndFinish(
            MutationReport::new(
                String::new(),
                String::from_str("Timeout!"),
                MutationStatus::Timeout,
            ),
        ),
    }
}

} // verus!
