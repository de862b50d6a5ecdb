//! The closed set of failures a rewrite run can end with, and the mapping
//! from a finished run to the tool's process exit code.

use vstd::prelude::*;

verus! {

/// Every way a run can fail.  Each variant belongs to exactly one transition
/// of the coordinator's state machine; none is ever retried.
///
/// `PermissionRestoreFailure` is special: when it is reported the target's
/// content has already been replaced — only the reapplication of the original
/// permission bits failed — so it is surfaced separately rather than rolled
/// back.
#[derive(Clone, Copy, Debug, PartialEq, Eq)]
pub enum ErrorKind {
    /// The target file could not be opened for reading and writing.
    OpenFailure,
    /// The target's permission metadata could not be captured.
    PermissionQueryFailure,
    /// The scratch file could not be created in the chosen directory.
    ScratchCreateFailure,
    /// The scratch file's handle could not be duplicated for the child.
    DuplicateHandleFailure,
    /// Privilege drop was requested but the invoking user is unknown.
    NoSudoUser,
    /// The command could not be spawned at all.
    SpawnFailure,
    /// The command was terminated by a signal instead of exiting.
    ChildSignaled(Option<i32>),
    /// The atomic rename of the scratch file onto the target failed.
    CommitFailure,
    /// The content was committed but the permission bits were not restored.
    PermissionRestoreFailure,
}

/// How a run ended: either cleanly, carrying the exit code to propagate
/// (0 for a committed rewrite or a no-op run, the command's own code when it
/// declined with a nonzero exit), or with one of the engine's failures.
#[derive(Clone, Copy, Debug, PartialEq, Eq)]
pub enum RunEnd {
    Clean(i32),
    Failed(ErrorKind),
}

/// The process exit code a finished run calls for: a clean end propagates its
/// code unchanged, and every engine failure exits with 1.
pub open spec fn spec_exit_code(end: RunEnd) -> i32 {
    match end {
        RunEnd::Clean(code) => code,
        RunEnd::Failed(_) => 1,
    }
}

/// Map a finished run to the tool's own exit code: a nonzero command exit is
/// propagated as-is, success exits 0, and every internal failure exits 1.
pub fn exit_code_of(end: &RunEnd) -> (code: i32)
    ensures
        code == spec_exit_code(*end),
{
    match end {
        RunEnd::Clean(code) => *code,
        RunEnd::Failed(_) => 1,
    }
}

} // verus!
