//! The guarantees of the rewrite engine, stated over the coordinator's model
//! and proved from its well-formedness.
//!
//! The bridge between the machine and the filesystem is
//! [`final_target_bytes`]: the driver replaces the target's bytes exactly
//! when it performs a successful commit (the atomic rename), so after a run
//! the target holds the command's output when the model records a commit and
//! its original bytes otherwise.

use vstd::prelude::*;

use crate::coordinator::Action;
use crate::coordinator::Event;
use crate::coordinator::Model;
use crate::coordinator::Phase;
use crate::coordinator::accepts;
use crate::coordinator::spec_step;
use crate::coordinator::wf;
use crate::errors::ErrorKind;
use crate::errors::RunEnd;
use crate::errors::spec_exit_code;
use crate::outcome::Outcome;

verus! {

/// The target's bytes once a run is over, given its bytes before the run and
/// the command's captured output: the commit — and nothing else — replaces
/// them.
pub open spec fn final_target_bytes(m: Model, before: Seq<u8>, output: Seq<u8>) -> Seq<u8> {
    if m.committed {
        output
    } else {
        before
    }
}

/// A finished run never leaks the scratch file: if one was created, it was
/// either consumed by the commit or deleted.  This is the single invariant
/// the whole machine exists to protect.
pub proof fn lemma_no_scratch_leak(m: Model)
    requires
        wf(m),
        m.phase is Done,
    ensures
        m.scratch_created ==> m.committed || m.abandoned,
{
}

/// The target is only ever replaced after the command succeeded, and never
/// in no-op mode.
pub proof fn lemma_commit_only_on_success(m: Model)
    requires
        wf(m),
    ensures
        m.committed ==> m.outcome == Some(Outcome::Success) && !m.no_op,
{
}

/// A run that ends cleanly with exit code 0 outside no-op mode has committed
/// the scratch file: the target holds exactly the command's captured output.
/// The permission bits were captured before the command ran, and the clean
/// end certifies that they were reapplied to the replacement file.
pub proof fn lemma_success_replaces_target(m: Model, before: Seq<u8>, output: Seq<u8>)
    requires
        wf(m),
        m.phase == Phase::Done(RunEnd::Clean(0i32)),
        !m.no_op,
    ensures
        m.committed,
        m.outcome == Some(Outcome::Success),
        final_target_bytes(m, before, output) == output,
{
}

/// A command that exits nonzero leaves the target byte-for-byte unchanged,
/// has its scratch file removed, and its exit code — not a remapped one — is
/// what the run propagates.
pub proof fn lemma_nonzero_exit_leaves_target(m: Model, code: i32, before: Seq<u8>, output: Seq<u8>)
    requires
        wf(m),
        m.phase is Done,
        m.outcome == Some(Outcome::ExitCode(code)),
    ensures
        m.phase == Phase::Done(RunEnd::Clean(code)),
        !m.committed,
        m.abandoned,
        final_target_bytes(m, before, output) == before,
        spec_exit_code(RunEnd::Clean(code)) == code,
{
}

/// A command terminated by a signal, or one that could not be spawned at
/// all, leaves the target untouched and no scratch file behind.
pub proof fn lemma_hard_failure_leaves_target(m: Model, before: Seq<u8>, output: Seq<u8>)
    requires
        wf(m),
        m.phase is Done,
        m.outcome matches Some(outcome) && (outcome is Signaled || outcome is SpawnFailed),
    ensures
        !m.committed,
        m.abandoned,
        final_target_bytes(m, before, output) == before,
{
}

/// In no-op mode the target is never modified, whatever the command did;
/// and when the run ends cleanly the scratch file was still created — so the
/// command's side effects, including its writes to the scratch file, did
/// happen — and then removed.
pub proof fn lemma_no_op_leaves_target(m: Model, before: Seq<u8>, output: Seq<u8>)
    requires
        wf(m),
        m.no_op,
    ensures
        !m.committed,
        final_target_bytes(m, before, output) == before,
        m.phase == Phase::Done(RunEnd::Clean(0i32)) ==> m.scratch_created && m.abandoned,
{
}

/// Every run that ends in one of the engine's failures leaves the target
/// byte-for-byte unchanged — except the separately surfaced
/// permission-restore failure, whose content replacement had already
/// happened and is correct.
pub proof fn lemma_failure_leaves_target(m: Model, kind: ErrorKind, before: Seq<u8>, output: Seq<u8>)
    requires
        wf(m),
        m.phase == Phase::Done(RunEnd::Failed(kind)),
        kind != ErrorKind::PermissionRestoreFailure,
    ensures
        !m.committed,
        final_target_bytes(m, before, output) == before,
        m.scratch_created ==> m.abandoned,
{
}

/// The machine asks for the commit only on the transition that observes a
/// successful command outside no-op mode, and only while an uncommitted
/// scratch file is live.
pub proof fn lemma_commit_action_guarded(m: Model, e: Event)
    requires
        wf(m),
        accepts(m, e),
        spec_step(m, e).1 == Action::CommitScratch,
    ensures
        m.scratch_created,
        !m.committed,
        !m.abandoned,
        !m.no_op,
        e == Event::RunResult(Outcome::Success),
{
}

/// The machine asks to abandon the scratch file only while an uncommitted
/// one is live — so deletion is asked for at most once per run, and never
/// after the commit consumed the file.
pub proof fn lemma_abandon_action_guarded(m: Model, e: Event)
    requires
        wf(m),
        accepts(m, e),
        spec_step(m, e).1 == Action::AbandonScratch,
    ensures
        m.scratch_created,
        !m.committed,
        !m.abandoned,
{
}

/// A finished run accepts no further events: `Done` is terminal.
pub proof fn lemma_done_is_terminal(m: Model, e: Event)
    requires
        m.phase is Done,
    ensures
        !accepts(m, e),
{
}

/// Running the tool twice with a command that is itself an idempotent filter
/// leaves the target as a single run does: if both runs end cleanly with
/// exit code 0 outside no-op mode, the bytes after the second run equal the
/// bytes after the first.
pub proof fn lemma_idempotent_rerun(
    first: Model,
    second: Model,
    before: Seq<u8>,
    filter: spec_fn(Seq<u8>) -> Seq<u8>,
)
    requires
        forall|bytes: Seq<u8>| #[trigger] filter(filter(bytes)) == filter(bytes),
        wf(first),
        first.phase == Phase::Done(RunEnd::Clean(0i32)),
        !first.no_op,
        wf(second),
        second.phase == Phase::Done(RunEnd::Clean(0i32)),
        !second.no_op,
    ensures
        ({
            let once = final_target_bytes(first, before, filter(before));
            let twice = final_target_bytes(second, once, filter(once));
            twice == once
        }),
{
    let once = final_target_bytes(first, before, filter(before));
    assert(once == filter(before));
    assert(filter(once) == filter(filter(before)));
}

} // verus!
