//! Whole-run tests: the coordinator is driven exactly as the real driver
//! drives it, against an in-memory stand-in for the filesystem, and the
//! target's bytes, the scratch file's lifecycle and the exit code are
//! checked after every kind of run.

use rewrite::Action;
use rewrite::Coordinator;
use rewrite::Event;
use rewrite::Outcome;
use rewrite::exit_code_of;

/// The filesystem as the driver sees it: the target's bytes and permission
/// bits, and the scratch file when one exists.
struct FakeFs {
    target: Vec<u8>,
    target_mode: u32,
    scratch: Option<Vec<u8>>,
    scratch_ever_created: bool,
}

impl FakeFs {
    fn with_target(bytes: &[u8], mode: u32) -> FakeFs {
        FakeFs {
            target: bytes.to_vec(),
            target_mode: mode,
            scratch: None,
            scratch_ever_created: false,
        }
    }
}

/// What each piece of outside work will report during a scripted run.
struct Script {
    open_ok: bool,
    capture_ok: bool,
    stage_ok: bool,
    dup_ok: bool,
    plan_ok: bool,
    outcome: Outcome,
    output: Vec<u8>,
    commit_ok: bool,
    restore_ok: bool,
}

impl Script {
    fn smooth(outcome: Outcome, output: Vec<u8>) -> Script {
        Script {
            open_ok: true,
            capture_ok: true,
            stage_ok: true,
            dup_ok: true,
            plan_ok: true,
            outcome,
            output,
            commit_ok: true,
            restore_ok: true,
        }
    }
}

/// Drive one run to completion, mirroring the real driver: perform each
/// action against the fake filesystem, report the scripted result, and
/// return the process exit code the machine calls for.
fn drive(no_op: bool, script: &Script, fs: &mut FakeFs) -> i32 {
    let mut machine = Coordinator::new(no_op);
    let mut action = machine.first_action();
    loop {
        action = match action {
            Action::OpenTarget => machine.step(Event::OpenResult(script.open_ok)),
            Action::CapturePermissions => machine.step(Event::CaptureResult(script.capture_ok)),
            Action::CreateScratch => {
                if script.stage_ok {
                    fs.scratch = Some(Vec::new());
                    fs.scratch_ever_created = true;
                }
                machine.step(Event::StageResult(script.stage_ok))
            }
            Action::DuplicateHandle => machine.step(Event::DupResult(script.dup_ok)),
            Action::BuildPlan => machine.step(Event::PlanResult(script.plan_ok)),
            Action::RunCommand => {
                // The child's standard output is wired straight to the
                // scratch file, so whatever it emits lands there.
                if let Some(scratch) = fs.scratch.as_mut() {
                    scratch.clear();
                    scratch.extend_from_slice(&script.output);
                }
                machine.step(Event::RunResult(script.outcome))
            }
            Action::CommitScratch => {
                if script.commit_ok {
                    // The atomic rename: the scratch becomes the target in
                    // one step and no scratch file remains.
                    fs.target = fs.scratch.take().expect("commit without a scratch file");
                }
                machine.step(Event::CommitResult(script.commit_ok))
            }
            Action::RestorePermissions => machine.step(Event::RestoreResult(script.restore_ok)),
            Action::AbandonScratch => {
                fs.scratch = None;
                machine.step(Event::AbandonDone)
            }
            Action::Exit(end) => {
                assert!(machine.is_done());
                return exit_code_of(&end);
            }
        };
    }
}

#[test]
fn successful_run_replaces_target_and_keeps_mode() {
    let mut fs = FakeFs::with_target(b"old content", 0o640);
    let script = Script::smooth(Outcome::Success, b"new content".to_vec());
    let code = drive(false, &script, &mut fs);
    assert_eq!(code, 0);
    assert_eq!(fs.target, b"new content".to_vec());
    assert_eq!(fs.target_mode, 0o640);
    assert!(fs.scratch.is_none());
}

#[test]
fn identity_filter_keeps_hello() {
    let mut fs = FakeFs::with_target(b"hello\n", 0o644);
    let script = Script::smooth(Outcome::Success, b"hello\n".to_vec());
    let code = drive(false, &script, &mut fs);
    assert_eq!(code, 0);
    assert_eq!(fs.target, b"hello\n".to_vec());
}

#[test]
fn nonzero_exit_keeps_target_and_propagates_code() {
    let mut fs = FakeFs::with_target(b"abc", 0o600);
    // The command `false`: exits 1 and emits nothing.
    let script = Script::smooth(Outcome::ExitCode(1), Vec::new());
    let code = drive(false, &script, &mut fs);
    assert_eq!(code, 1);
    assert_eq!(fs.target, b"abc".to_vec());
    assert_eq!(fs.target_mode, 0o600);
    assert!(fs.scratch.is_none());
}

#[test]
fn nonzero_exit_code_is_not_remapped() {
    let mut fs = FakeFs::with_target(b"abc", 0o600);
    let script = Script::smooth(Outcome::ExitCode(42), b"partial".to_vec());
    let code = drive(false, &script, &mut fs);
    assert_eq!(code, 42);
    assert_eq!(fs.target, b"abc".to_vec());
    assert!(fs.scratch.is_none());
}

#[test]
fn signaled_child_keeps_target() {
    let mut fs = FakeFs::with_target(b"payload", 0o644);
    let script = Script::smooth(Outcome::Signaled(Some(9)), b"half-written".to_vec());
    let code = drive(false, &script, &mut fs);
    assert_eq!(code, 1);
    assert_eq!(fs.target, b"payload".to_vec());
    assert!(fs.scratch.is_none());
}

#[test]
fn spawn_failure_keeps_target() {
    let mut fs = FakeFs::with_target(b"payload", 0o644);
    let script = Script::smooth(Outcome::SpawnFailed, Vec::new());
    let code = drive(false, &script, &mut fs);
    assert_eq!(code, 1);
    assert_eq!(fs.target, b"payload".to_vec());
    assert!(fs.scratch.is_none());
}

#[test]
fn no_op_run_keeps_target_but_still_stages_scratch() {
    let mut fs = FakeFs::with_target(b"keep me", 0o644);
    let script = Script::smooth(Outcome::Success, b"would-be content".to_vec());
    let code = drive(true, &script, &mut fs);
    assert_eq!(code, 0);
    assert_eq!(fs.target, b"keep me".to_vec());
    assert!(fs.scratch_ever_created);
    assert!(fs.scratch.is_none());
}

#[test]
fn no_op_run_still_propagates_nonzero_exit() {
    let mut fs = FakeFs::with_target(b"keep me", 0o644);
    let script = Script::smooth(Outcome::ExitCode(5), Vec::new());
    let code = drive(true, &script, &mut fs);
    assert_eq!(code, 5);
    assert_eq!(fs.target, b"keep me".to_vec());
    assert!(fs.scratch.is_none());
}

#[test]
fn scratch_creation_failure_keeps_target() {
    // A read-only directory: the scratch file cannot be created.
    let mut fs = FakeFs::with_target(b"untouched", 0o444);
    let mut script = Script::smooth(Outcome::Success, b"never written".to_vec());
    script.stage_ok = false;
    let code = drive(false, &script, &mut fs);
    assert_eq!(code, 1);
    assert_eq!(fs.target, b"untouched".to_vec());
    assert!(!fs.scratch_ever_created);
    assert!(fs.scratch.is_none());
}

#[test]
fn open_failure_exits_before_any_scratch() {
    let mut fs = FakeFs::with_target(b"whatever", 0o644);
    let mut script = Script::smooth(Outcome::Success, Vec::new());
    script.open_ok = false;
    let code = drive(false, &script, &mut fs);
    assert_eq!(code, 1);
    assert!(!fs.scratch_ever_created);
}

#[test]
fn permission_query_failure_exits_before_any_scratch() {
    let mut fs = FakeFs::with_target(b"whatever", 0o644);
    let mut script = Script::smooth(Outcome::Success, Vec::new());
    script.capture_ok = false;
    let code = drive(false, &script, &mut fs);
    assert_eq!(code, 1);
    assert!(!fs.scratch_ever_created);
}

#[test]
fn duplicate_handle_failure_cleans_scratch() {
    let mut fs = FakeFs::with_target(b"whatever", 0o644);
    let mut script = Script::smooth(Outcome::Success, Vec::new());
    script.dup_ok = false;
    let code = drive(false, &script, &mut fs);
    assert_eq!(code, 1);
    assert_eq!(fs.target, b"whatever".to_vec());
    assert!(fs.scratch_ever_created);
    assert!(fs.scratch.is_none());
}

#[test]
fn plan_failure_cleans_scratch() {
    let mut fs = FakeFs::with_target(b"whatever", 0o644);
    let mut script = Script::smooth(Outcome::Success, Vec::new());
    script.plan_ok = false;
    let code = drive(false, &script, &mut fs);
    assert_eq!(code, 1);
    assert_eq!(fs.target, b"whatever".to_vec());
    assert!(fs.scratch.is_none());
}

#[test]
fn commit_failure_keeps_target_and_cleans_scratch() {
    let mut fs = FakeFs::with_target(b"original", 0o644);
    let mut script = Script::smooth(Outcome::Success, b"lost output".to_vec());
    script.commit_ok = false;
    let code = drive(false, &script, &mut fs);
    assert_eq!(code, 1);
    assert_eq!(fs.target, b"original".to_vec());
    assert!(fs.scratch.is_none());
}

#[test]
fn restore_failure_reports_error_but_content_is_replaced() {
    let mut fs = FakeFs::with_target(b"original", 0o644);
    let mut script = Script::smooth(Outcome::Success, b"replacement".to_vec());
    script.restore_ok = false;
    let code = drive(false, &script, &mut fs);
    assert_eq!(code, 1);
    assert_eq!(fs.target, b"replacement".to_vec());
    assert!(fs.scratch.is_none());
}

/// An idempotent filter for the rerun test: every lowercase letter is
/// raised, so applying it twice gives what one application gives.
fn raise(bytes: &[u8]) -> Vec<u8> {
    bytes.iter().map(|b| b.to_ascii_uppercase()).collect()
}

#[test]
fn rerunning_with_idempotent_filter_changes_nothing() {
    let mut fs = FakeFs::with_target(b"mixed Case input", 0o644);
    let once = {
        let output = raise(&fs.target);
        let code = drive(false, &Script::smooth(Outcome::Success, output), &mut fs);
        assert_eq!(code, 0);
        fs.target.clone()
    };
    let output = raise(&fs.target);
    let code = drive(false, &Script::smooth(Outcome::Success, output), &mut fs);
    assert_eq!(code, 0);
    assert_eq!(fs.target, once);
}

#[test]
fn large_output_lands_whole() {
    // Far more than any plausible in-memory buffer: the full output must
    // land in the target without truncation.
    let mut fs = FakeFs::with_target(b"small", 0o644);
    let big: Vec<u8> = vec![0xabu8; 8 * 1024 * 1024];
    let code = drive(false, &Script::smooth(Outcome::Success, big.clone()), &mut fs);
    assert_eq!(code, 0);
    assert_eq!(fs.target.len(), big.len());
    assert_eq!(fs.target, big);
}
