//! Classification of a finished (or failed) subprocess attempt.

use vstd::prelude::*;

verus! {

/// What became of the external command.
///
/// `Success` is reserved for a clean exit with code 0.  Any other exit code is
/// `ExitCode(code)`: not an error of the engine, merely a command that
/// declined, and its code is propagated as the tool's own exit status.
/// Termination by a signal carries the signal number when the platform
/// reports one.  `SpawnFailed` means the command never ran at all.
#[derive(Clone, Copy, Debug, PartialEq, Eq)]
pub enum Outcome {
    Success,
    ExitCode(i32),
    Signaled(Option<i32>),
    SpawnFailed,
}

/// The outcome that a wait on the child yields, given the exit code the
/// operating system reported (`None` when the child did not exit normally)
/// and the signal number, if any, that terminated it.
pub open spec fn spec_classify(code: Option<i32>, signal: Option<i32>) -> Outcome {
    match code {
        Some(c) => if c == 0 {
            Outcome::Success
        } else {
            Outcome::ExitCode(c)
        },
        None => Outcome::Signaled(signal),
    }
}

/// Classify a completed wait: exit code 0 is the only success, any other exit
/// code is reported as `ExitCode`, and the absence of an exit code means the
/// child was terminated by a signal.
pub fn classify_exit(code: Option<i32>, signal: Option<i32>) -> (r: Outcome)
    ensures
        r == spec_classify(code, signal),
{
    match code {
        Some(c) => if c == 0 {
            Outcome::Success
        } else {
            Outcome::ExitCode(c)
        },
        None => Outcome::Signaled(signal),
    }
}

} // verus!
