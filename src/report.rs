use crate::color::{paint, painted, Paint};
use vstd::prelude::*;
use vstd::string::*;

verus! {

/// How the project's tests reacted to a mutant.
#[derive(Debug, Clone, Copy, PartialEq, Eq, Structural)]
pub enum MutationStatus {
    /// The tests passed: nothing caught the mutation.
    Success,
    /// The tests failed: the mutation was caught.
    Fail,
    /// The tests ran past the time limit.
    Timeout,
    /// The mutant does not build.
    CompilationFailed,
}

/// The tag that a summary line starts with.
pub open spec fn status_tag(s: MutationStatus) -> Seq<char> {
    match s {
        MutationStatus::Success => "[Missing]"@,
        MutationStatus::Fail => "[OK]"@,
        MutationStatus::Timeout => "[Timeout]"@,
        MutationStatus::CompilationFailed => "[Killed]"@,
    }
}

/// The tag as a terminal shows it, padded to one width.
pub open spec fn padded_status_tag(s: MutationStatus) -> Seq<char> {
    match s {
        MutationStatus::Success => "[Missing]"@,
        MutationStatus::Fail => "[OK]     "@,
        MutationStatus::Timeout => "[Timeout]"@,
        MutationStatus::CompilationFailed => "[Killed] "@,
    }
}

/// The color of a status on a terminal.
pub open spec fn status_paint(s: MutationStatus) -> Paint {
    match s {
        MutationStatus::Success => Paint::Yellow,
        MutationStatus::Fail => Paint::Green,
        _ => Paint::White,
    }
}

/// What a status means, in words.
pub open spec fn status_description(s: MutationStatus) -> Seq<char> {
    match s {
        MutationStatus::Success => "Missing test, code base vulnerable to mutation"@,
        MutationStatus::Fail => "Mutation caught, code base robust to mutation"@,
        MutationStatus::Timeout => "Mutation causes an infinite loop, inconclusive"@,
        MutationStatus::CompilationFailed => "Mutation killed, unsustainable"@,
    }
}

impl MutationStatus {
    /// What the status means, in words.
    pub fn description(&self) -> (r: String)
        ensures
            r@ == status_description(*self),
    {
        match self {
            MutationStatus::Success => String::from_str(
                "Missing test, code base vulnerable to mutation",
            ),
            MutationStatus::Fail => String::from_str("Mutation caught, code base robust to mutation"),
            MutationStatus::Timeout => String::from_str(
                "Mutation causes an infinite loop, inconclusive",
            ),
            MutationStatus::CompilationFailed => String::from_str("Mutation killed, unsustainable"),
        }
    }
}

/// The outcome of verifying one mutant: what the build or the tests printed,
/// and the status drawn from it.
#[derive(Debug, PartialEq)]
pub struct MutationReport {
    pub stdout: String,
    pub stderr: String,
    pub status: MutationStatus,
}

impl MutationReport {
    pub fn new(stdout: String, stderr: String, status: MutationStatus) -> (r: Self)
        ensures
            r.stdout == stdout,
            r.stderr == stderr,
            r.status == status,
    {
        MutationReport { stdout, stderr, status }
    }

    /// The status tag, colored for a terminal.
    pub fn pretty(&self) -> (r: String)
        ensures
            painted(r@, padded_status_tag(self.status), status_paint(self.status)),
    {
        match self.status {
            MutationStatus::Success => paint("[Missing]", Paint::Yellow),
            MutationStatus::Fail => paint("[OK]     ", Paint::Green),
            MutationStatus::Timeout => paint("[Timeout]", Paint::White),
            MutationStatus::CompilationFailed => paint("[Killed] ", Paint::White),
        }
    }

    /// The plain status tag.
    pub fn simple(&self) -> (r: String)
        ensures
            r@ == status_tag(self.status),
    {
        match self.status {
            MutationStatus::Success => String::from_str("[Missing]"),
            MutationStatus::Fail => String::from_str("[OK]"),
            MutationStatus::Timeout => String::from_str("[Timeout]"),
            MutationStatus::CompilationFailed => String::from_str("[Killed]"),
        }
    }
}

} // verus!
