use crate::color::{paint, painted, Paint};
use vstd::prelude::*;
use vstd::string::*;

verus! {

/// The command line: `cargo darwin [options] [PROJECT PATH]`.
pub enum Cli {
    Darwin(Darwin),
}

/// What a run is asked to do.
pub struct Darwin {
    /// The project to mutate.
    pub root_path: String,
    /// Where the mutants, their reports and the summary go.
    pub mutation_path: String,
    /// Only list the mutations, build and test nothing.
    pub dry_run: bool,
}

/// The legend of the status tags, each tag colored.
pub open spec fn help_text(missing: Seq<char>, ok: Seq<char>, timeout: Seq<char>, killed: Seq<char>) -> Seq<char> {
    "\n"@ + missing + " : Tests pass, the mutation hasn't been caught, suspicion of missing test\n"@
        + ok + "      : Tests failed, the mutation has been caught\n"@ + timeout
        + " : Mutation introduces infinite loop, inconclusive\n"@ + killed
        + "  : Mutation introduces non buildable modification\n    "@
}

/// The legend of the status tags, shown before verification starts.
pub fn help() -> (r: String)
    ensures
        exists|missing: Seq<char>, ok: Seq<char>, timeout: Seq<char>, killed: Seq<char>|
            #![trigger help_text(missing, ok, timeout, killed)]
            painted(missing, "[Missing]"@, Paint::Yellow) && painted(ok, "[OK]"@, Paint::Green)
                && painted(timeout, "[Timeout]"@, Paint::White) && painted(
                killed,
                "[Killed]"@,
                Paint::White,
            ) && r@ == help_text(missing, ok, timeout, killed),
{
    let missing = paint("[Missing]", Paint::Yellow);
    let ok = paint("[OK]", Paint::Green);
    let timeout = paint("[Timeout]", Paint::White);
    let killed = paint("[Killed]", Paint::White);
    let mut r = String::from_str("\n");
    r.append(missing.as_str());
    r.append(" : Tests pass, the mutation hasn't been caught, suspicion of missing test\n");
    r.append(ok.as_str());
    r.append("      : Tests failed, the mutation has been caught\n");
    r.append(timeout.as_str());
    r.append(" : Mutation introduces infinite loop, inconclusive\n");
    r.append(killed.as_str());
    r.append("  : Mutation introduces non buildable modification\n    ");
    assert(r@ =~= help_text(missing@, ok@, timeout@, killed@));
    r
}

} // verus!
