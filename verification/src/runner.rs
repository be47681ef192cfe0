use vstd::prelude::*;

verus! {

/// What one external command came to: whether it exited successfully, and
/// its captured output streams, decoded permissively by the caller.
#[derive(Debug, PartialEq)]
pub struct CmdResult {
    pub succeeded: bool,
    pub stdout: String,
    pub stderr: String,
}

/// What the run does with a command's result: keep the captured standard
/// output and go on, or stop the whole run at once, reporting the captured
/// standard error.
#[derive(Debug, PartialEq)]
pub enum CmdOutcome {
    Output(String),
    Abort(String),
}

/// The classification rule: success keeps the standard output, failure
/// aborts with the standard error.
pub open spec fn classify_spec(res: CmdResult) -> CmdOutcome {
    if res.succeeded {
        CmdOutcome::Output(res.stdout)
    } else {
        CmdOutcome::Abort(res.stderr)
    }
}

/// Classifies one command result, exactly as [`classify_spec`] states. A
/// command that exits non-zero is a hard stop for the whole scaffolding
/// run, never a recoverable error.
pub fn classify_cmd_result(res: CmdResult) -> (o: CmdOutcome)
    ensures
        o == classify_spec(res),
{
    if res.succeeded {
        CmdOutcome::Output(res.stdout)
    } else {
        CmdOutcome::Abort(res.stderr)
    }
}

} // verus!
