//! The rewrite coordinator: a state machine that makes every decision of a
//! run, while an unverified driver performs the filesystem and process work
//! it asks for.
//!
//! The driver calls [`Coordinator::first_action`] once and then alternates:
//! perform the returned [`Action`], report what happened as an [`Event`],
//! and receive the next [`Action`] from [`Coordinator::step`].  The machine
//! guarantees the invariant the whole engine exists to protect: on every
//! path, a scratch file that was created is either committed onto the target
//! by the atomic rename or abandoned (deleted) — never leaked — and the
//! commit happens only for a successful command outside no-op mode.

use vstd::prelude::*;

use crate::errors::ErrorKind;
use crate::errors::RunEnd;
use crate::outcome::Outcome;

verus! {

/// Where a run currently stands.  The phases mirror the stages of a run:
/// open the target, capture its permissions, create the scratch file,
/// duplicate its handle for the child, build the execution plan, run the
/// command, then either commit and restore permissions or discard the
/// scratch.  `Discarding` remembers how the run will end once the scratch
/// file has been abandoned.
#[derive(Clone, Copy, Debug, PartialEq, Eq)]
pub enum Phase {
    Opening,
    CapturingPermissions,
    StagingScratch,
    Duplicating,
    Planning,
    Running,
    Committing,
    RestoringPermissions,
    Discarding(RunEnd),
    Done(RunEnd),
}

/// What the driver reports back after performing an action.  Each boolean
/// says whether the corresponding piece of outside work succeeded;
/// `RunResult` carries the classified outcome of the spawned command.
#[derive(Clone, Copy, Debug, PartialEq, Eq)]
pub enum Event {
    OpenResult(bool),
    CaptureResult(bool),
    StageResult(bool),
    DupResult(bool),
    PlanResult(bool),
    RunResult(Outcome),
    CommitResult(bool),
    RestoreResult(bool),
    AbandonDone,
}

/// What the driver must do next.  `Exit` is terminal: report the end on
/// standard error if it is a failure, then exit with
/// [`crate::errors::exit_code_of`] of the carried end.
#[derive(Clone, Copy, Debug, PartialEq, Eq)]
pub enum Action {
    /// Open the target file for reading and writing.
    OpenTarget,
    /// Snapshot the target's permission metadata.
    CapturePermissions,
    /// Create the uniquely named scratch file in the chosen directory.
    CreateScratch,
    /// Duplicate the scratch file's handle for the child's standard output.
    DuplicateHandle,
    /// Resolve the execution plan (command tokens and environment bindings).
    BuildPlan,
    /// Spawn the command, wait for it, and classify the outcome.
    RunCommand,
    /// Atomically rename the scratch file onto the target's path.
    CommitScratch,
    /// Reapply the captured permission bits to the replacement file.
    RestorePermissions,
    /// Delete the uncommitted scratch file.
    AbandonScratch,
    /// The run is over; exit with the code this end calls for.
    Exit(RunEnd),
}

/// The abstract state of a run: the phase together with the history the
/// safety statements speak of — whether a scratch file was ever created,
/// whether it was committed onto the target, whether it was abandoned, and
/// the command outcome once one was observed.
pub struct Model {
    pub phase: Phase,
    pub no_op: bool,
    pub scratch_created: bool,
    pub committed: bool,
    pub abandoned: bool,
    pub outcome: Option<Outcome>,
}

/// The model a fresh coordinator starts in.
pub open spec fn init_model(no_op: bool) -> Model {
    Model {
        phase: Phase::Opening,
        no_op: no_op,
        scratch_created: false,
        committed: false,
        abandoned: false,
        outcome: None,
    }
}

/// Which events a model accepts: exactly the report that answers the action
/// its phase is waiting on.  A `RunResult` carrying `ExitCode(0)` is never
/// accepted, since classification reserves exit code 0 for `Success`.
pub open spec fn accepts(m: Model, e: Event) -> bool {
    match (m.phase, e) {
        (Phase::Opening, Event::OpenResult(_)) => true,
        (Phase::CapturingPermissions, Event::CaptureResult(_)) => true,
        (Phase::StagingScratch, Event::StageResult(_)) => true,
        (Phase::Duplicating, Event::DupResult(_)) => true,
        (Phase::Planning, Event::PlanResult(_)) => true,
        (Phase::Running, Event::RunResult(outcome)) => match outcome {
            Outcome::ExitCode(code) => code != 0,
            _ => true,
        },
        (Phase::Committing, Event::CommitResult(_)) => true,
        (Phase::RestoringPermissions, Event::RestoreResult(_)) => true,
        (Phase::Discarding(_), Event::AbandonDone) => true,
        _ => false,
    }
}

/// The transition function: from a model and an accepted event to the next
/// model and the action the driver must perform.  This is the single place
/// the run's branching is decided; the executable [`Coordinator::step`] is
/// proved to follow it exactly.
pub open spec fn spec_step(m: Model, e: Event) -> (Model, Action) {
    match (m.phase, e) {
        (Phase::Opening, Event::OpenResult(ok)) => if ok {
            (Model { phase: Phase::CapturingPermissions, ..m }, Action::CapturePermissions)
        } else {
            let end = RunEnd::Failed(ErrorKind::OpenFailure);
            (Model { phase: Phase::Done(end), ..m }, Action::Exit(end))
        },
        (Phase::CapturingPermissions, Event::CaptureResult(ok)) => if ok {
            (Model { phase: Phase::StagingScratch, ..m }, Action::CreateScratch)
        } else {
            let end = RunEnd::Failed(ErrorKind::PermissionQueryFailure);
            (Model { phase: Phase::Done(end), ..m }, Action::Exit(end))
        },
        (Phase::StagingScratch, Event::StageResult(ok)) => if ok {
            (
                Model { phase: Phase::Duplicating, scratch_created: true, ..m },
                Action::DuplicateHandle,
            )
        } else {
            let end = RunEnd::Failed(ErrorKind::ScratchCreateFailure);
            (Model { phase: Phase::Done(end), ..m }, Action::Exit(end))
        },
        (Phase::Duplicating, Event::DupResult(ok)) => if ok {
            (Model { phase: Phase::Planning, ..m }, Action::BuildPlan)
        } else {
            let end = RunEnd::Failed(ErrorKind::DuplicateHandleFailure);
            (Model { phase: Phase::Discarding(end), ..m }, Action::AbandonScratch)
        },
        (Phase::Planning, Event::PlanResult(ok)) => if ok {
            (Model { phase: Phase::Running, ..m }, Action::RunCommand)
        } else {
            let end = RunEnd::Failed(ErrorKind::NoSudoUser);
            (Model { phase: Phase::Discarding(end), ..m }, Action::AbandonScratch)
        },
        (Phase::Running, Event::RunResult(outcome)) => {
            let observed = Model { outcome: Some(outcome), ..m };
            match outcome {
                Outcome::Success => if m.no_op {
                    let end = RunEnd::Clean(0);
                    (
                        Model { phase: Phase::Discarding(end), ..observed },
                        Action::AbandonScratch,
                    )
                } else {
                    (Model { phase: Phase::Committing, ..observed }, Action::CommitScratch)
                },
                Outcome::ExitCode(code) => {
                    let end = RunEnd::Clean(code);
                    (
                        Model { phase: Phase::Discarding(end), ..observed },
                        Action::AbandonScratch,
                    )
                },
                Outcome::Signaled(signal) => {
                    let end = RunEnd::Failed(ErrorKind::ChildSignaled(signal));
                    (
                        Model { phase: Phase::Discarding(end), ..observed },
                        Action::AbandonScratch,
                    )
                },
                Outcome::SpawnFailed => {
                    let end = RunEnd::Failed(ErrorKind::SpawnFailure);
                    (
                        Model { phase: Phase::Discarding(end), ..observed },
                        Action::AbandonScratch,
                    )
                },
            }
        },
        (Phase::Committing, Event::CommitResult(ok)) => if ok {
            (
                Model { phase: Phase::RestoringPermissions, committed: true, ..m },
                Action::RestorePermissions,
            )
        } else {
            let end = RunEnd::Failed(ErrorKind::CommitFailure);
            (Model { phase: Phase::Discarding(end), ..m }, Action::AbandonScratch)
        },
        (Phase::RestoringPermissions, Event::RestoreResult(ok)) => if ok {
            let end = RunEnd::Clean(0);
            (Model { phase: Phase::Done(end), ..m }, Action::Exit(end))
        } else {
            let end = RunEnd::Failed(ErrorKind::PermissionRestoreFailure);
            (Model { phase: Phase::Done(end), ..m }, Action::Exit(end))
        },
        (Phase::Discarding(end), Event::AbandonDone) => (
            Model { phase: Phase::Done(end), abandoned: true, ..m },
            Action::Exit(end),
        ),
        _ => (m, Action::Exit(RunEnd::Clean(0))),
    }
}

/// What a pending end must say about the history while the scratch file is
/// being discarded: the end's reason matches the outcome (or its absence)
/// that led there.
pub open spec fn discard_consistent(m: Model, end: RunEnd) -> bool {
    match end {
        RunEnd::Clean(code) => if code == 0 {
            m.outcome == Some(Outcome::Success) && m.no_op
        } else {
            m.outcome == Some(Outcome::ExitCode(code))
        },
        RunEnd::Failed(kind) => match kind {
            ErrorKind::DuplicateHandleFailure => m.outcome is None,
            ErrorKind::NoSudoUser => m.outcome is None,
            ErrorKind::ChildSignaled(signal) => m.outcome == Some(Outcome::Signaled(signal)),
            ErrorKind::SpawnFailure => m.outcome == Some(Outcome::SpawnFailed),
            ErrorKind::CommitFailure => m.outcome == Some(Outcome::Success) && !m.no_op,
            _ => false,
        },
    }
}

/// What a finished run's end says about its history.  This clause carries
/// the engine's guarantees: a clean success was committed (unless no-op, in
/// which case the scratch was abandoned instead), a propagated nonzero exit
/// or any failure after staging left the target alone and abandoned the
/// scratch, and the only end with a committed target besides clean success
/// is the separately surfaced permission-restore failure.
pub open spec fn done_consistent(m: Model, end: RunEnd) -> bool {
    match end {
        RunEnd::Clean(code) => if code == 0 {
            &&& m.outcome == Some(Outcome::Success)
            &&& m.scratch_created
            &&& if m.no_op {
                !m.committed && m.abandoned
            } else {
                m.committed && !m.abandoned
            }
        } else {
            &&& m.outcome == Some(Outcome::ExitCode(code))
            &&& m.scratch_created
            &&& !m.committed
            &&& m.abandoned
        },
        RunEnd::Failed(kind) => match kind {
            ErrorKind::OpenFailure | ErrorKind::PermissionQueryFailure
                | ErrorKind::ScratchCreateFailure => {
                &&& !m.scratch_created
                &&& !m.committed
                &&& !m.abandoned
                &&& m.outcome is None
            },
            ErrorKind::DuplicateHandleFailure | ErrorKind::NoSudoUser => {
                &&& m.scratch_created
                &&& !m.committed
                &&& m.abandoned
                &&& m.outcome is None
            },
            ErrorKind::ChildSignaled(signal) => {
                &&& m.scratch_created
                &&& !m.committed
                &&& m.abandoned
                &&& m.outcome == Some(Outcome::Signaled(signal))
            },
            ErrorKind::SpawnFailure => {
                &&& m.scratch_created
                &&& !m.committed
                &&& m.abandoned
                &&& m.outcome == Some(Outcome::SpawnFailed)
            },
            ErrorKind::CommitFailure => {
                &&& m.scratch_created
                &&& !m.committed
                &&& m.abandoned
                &&& m.outcome == Some(Outcome::Success)
                &&& !m.no_op
            },
            ErrorKind::PermissionRestoreFailure => {
                &&& m.scratch_created
                &&& m.committed
                &&& !m.abandoned
                &&& m.outcome == Some(Outcome::Success)
                &&& !m.no_op
            },
        },
    }
}

/// Well-formedness of a model: the history is exactly what the phase
/// implies.  Established by [`Coordinator::new`] and preserved by every
/// [`Coordinator::step`], so it holds of every state a correctly driven run
/// can reach.
pub open spec fn wf(m: Model) -> bool {
    match m.phase {
        Phase::Opening | Phase::CapturingPermissions | Phase::StagingScratch => {
            &&& !m.scratch_created
            &&& !m.committed
            &&& !m.abandoned
            &&& m.outcome is None
        },
        Phase::Duplicating | Phase::Planning | Phase::Running => {
            &&& m.scratch_created
            &&& !m.committed
            &&& !m.abandoned
            &&& m.outcome is None
        },
        Phase::Committing => {
            &&& m.scratch_created
            &&& !m.committed
            &&& !m.abandoned
            &&& m.outcome == Some(Outcome::Success)
            &&& !m.no_op
        },
        Phase::RestoringPermissions => {
            &&& m.scratch_created
            &&& m.committed
            &&& !m.abandoned
            &&& m.outcome == Some(Outcome::Success)
            &&& !m.no_op
        },
        Phase::Discarding(end) => {
            &&& m.scratch_created
            &&& !m.committed
            &&& !m.abandoned
            &&& discard_consistent(m, end)
        },
        Phase::Done(end) => done_consistent(m, end),
    }
}

/// Accepted events keep a well-formed model well-formed.
pub proof fn lemma_step_preserves_wf(m: Model, e: Event)
    requires
        wf(m),
        accepts(m, e),
    ensures
        wf(spec_step(m, e).0),
        spec_step(m, e).0.no_op == m.no_op,
{
}

/// The run's ghost history, kept alongside the executable phase.
pub struct History {
    pub scratch_created: bool,
    pub committed: bool,
    pub abandoned: bool,
    pub outcome: Option<Outcome>,
}

/// The rewrite coordinator.  Construct it with [`Coordinator::new`], obtain
/// the opening action from [`Coordinator::first_action`], and then feed each
/// action's report to [`Coordinator::step`] until it returns
/// [`Action::Exit`].
pub struct Coordinator {
    phase: Phase,
    no_op: bool,
    history: Ghost<History>,
}

impl View for Coordinator {
    type V = Model;

    closed spec fn view(&self) -> Model {
        Model {
            phase: self.phase,
            no_op: self.no_op,
            scratch_created: self.history@.scratch_created,
            committed: self.history@.committed,
            abandoned: self.history@.abandoned,
            outcome: self.history@.outcome,
        }
    }
}

impl Coordinator {
    /// A coordinator for one run.  `no_op` suppresses the commit: the
    /// command still runs with the scratch file as its output, but the
    /// target is never replaced.
    pub fn new(no_op: bool) -> (c: Coordinator)
        ensures
            c@ == init_model(no_op),
            wf(c@),
    {
        Coordinator {
            phase: Phase::Opening,
            no_op: no_op,
            history: Ghost(
                History {
                    scratch_created: false,
                    committed: false,
                    abandoned: false,
                    outcome: None,
                },
            ),
        }
    }

    /// The action that begins every run: open the target file.
    pub fn first_action(&self) -> (a: Action)
        requires
            self@.phase == Phase::Opening,
        ensures
            a == Action::OpenTarget,
    {
        Action::OpenTarget
    }

    /// Whether the run is over.
    pub fn is_done(&self) -> (done: bool)
        ensures
            done == (self@.phase is Done),
    {
        match self.phase {
            Phase::Done(_) => true,
            _ => false,
        }
    }

    /// Advance the machine by one report from the driver.  The returned
    /// action is the next piece of outside work; the transition is exactly
    /// [`spec_step`], and well-formedness is preserved.
    pub fn step(&mut self, e: Event) -> (a: Action)
        requires
            wf(old(self)@),
            accepts(old(self)@, e),
        ensures
            final(self)@ == spec_step(old(self)@, e).0,
            a == spec_step(old(self)@, e).1,
            wf(final(self)@),
    {
        let ghost pre = self@;
        match (self.phase, e) {
            (Phase::Opening, Event::OpenResult(ok)) => if ok {
                self.phase = Phase::CapturingPermissions;
                Action::CapturePermissions
            } else {
                let end = RunEnd::Failed(ErrorKind::OpenFailure);
                self.phase = Phase::Done(end);
                Action::Exit(end)
            },
            (Phase::CapturingPermissions, Event::CaptureResult(ok)) => if ok {
                self.phase = Phase::StagingScratch;
                Action::CreateScratch
            } else {
                let end = RunEnd::Failed(ErrorKind::PermissionQueryFailure);
                self.phase = Phase::Done(end);
                Action::Exit(end)
            },
            (Phase::StagingScratch, Event::StageResult(ok)) => if ok {
                self.phase = Phase::Duplicating;
                self.history = Ghost(History { scratch_created: true, ..self.history@ });
                Action::DuplicateHandle
            } else {
                let end = RunEnd::Failed(ErrorKind::ScratchCreateFailure);
                self.phase = Phase::Done(end);
                Action::Exit(end)
            },
            (Phase::Duplicating, Event::DupResult(ok)) => if ok {
                self.phase = Phase::Planning;
                Action::BuildPlan
            } else {
                let end = RunEnd::Failed(ErrorKind::DuplicateHandleFailure);
                self.phase = Phase::Discarding(end);
                Action::AbandonScratch
            },
            (Phase::Planning, Event::PlanResult(ok)) => if ok {
                self.phase = Phase::Running;
                Action::RunCommand
            } else {
                let end = RunEnd::Failed(ErrorKind::NoSudoUser);
                self.phase = Phase::Discarding(end);
                Action::AbandonScratch
            },
            (Phase::Running, Event::RunResult(outcome)) => {
                self.history = Ghost(History { outcome: Some(outcome), ..self.history@ });
                match outcome {
                    Outcome::Success => if self.no_op {
                        let end = RunEnd::Clean(0);
                        self.phase = Phase::Discarding(end);
                        Action::AbandonScratch
                    } else {
                        self.phase = Phase::Committing;
                        Action::CommitScratch
                    },
                    Outcome::ExitCode(code) => {
                        let end = RunEnd::Clean(code);
                        self.phase = Phase::Discarding(end);
                        Action::AbandonScratch
                    },
                    Outcome::Signaled(signal) => {
                        let end = RunEnd::Failed(ErrorKind::ChildSignaled(signal));
                        self.phase = Phase::Discarding(end);
                        Action::AbandonScratch
                    },
                    Outcome::SpawnFailed => {
                        let end = RunEnd::Failed(ErrorKind::SpawnFailure);
                        self.phase = Phase::Discarding(end);
                        Action::AbandonScratch
                    },
                }
            },
            (Phase::Committing, Event::CommitResult(ok)) => if ok {
                self.phase = Phase::RestoringPermissions;
                self.history = Ghost(History { committed: true, ..self.history@ });
                Action::RestorePermissions
            } else {
                let end = RunEnd::Failed(ErrorKind::CommitFailure);
                self.phase = Phase::Discarding(end);
                Action::AbandonScratch
            },
            (Phase::RestoringPermissions, Event::RestoreResult(ok)) => if ok {
                let end = RunEnd::Clean(0);
                self.phase = Phase::Done(end);
                Action::Exit(end)
            } else {
                let end = RunEnd::Failed(ErrorKind::PermissionRestoreFailure);
                self.phase = Phase::Done(end);
                Action::Exit(end)
            },
            (Phase::Discarding(end), Event::AbandonDone) => {
                self.phase = Phase::Done(end);
                self.history = Ghost(History { abandoned: true, ..self.history@ });
                Action::Exit(end)
            },
            _ => {
                proof {
                    assert(!accepts(pre, e));
                }
                vstd::pervasive::unreached()
            },
        }
    }
}

} // verus!
