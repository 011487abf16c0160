use switcheroo::engine::{ChainPhase, ChainWorker, WorkerAction};
use switcheroo::outcome::{
    gs_missing, spawn_failure, wait_outcome, Failure, FailureKind, JobOutcome, ProcessExit,
};

fn exit(success: bool, stdout: &str, stderr: &str) -> Option<ProcessExit> {
    Some(ProcessExit { success, stdout: stdout.to_string(), stderr: stderr.to_string() })
}

#[test]
fn a_process_that_ended_well_is_a_success() {
    assert_eq!(wait_outcome(exit(true, "noise", "warnings")), JobOutcome::Success);
}

#[test]
fn a_process_that_failed_tells_all_it_wrote() {
    assert_eq!(
        wait_outcome(exit(false, "out;", "err")),
        JobOutcome::Failure(Failure {
            kind: FailureKind::ToolFailure,
            message: "out;err".to_string()
        })
    );
}

#[test]
fn a_process_that_could_not_be_waited_for() {
    assert_eq!(
        wait_outcome(None),
        JobOutcome::Failure(Failure {
            kind: FailureKind::IoFailure,
            message: "Unknown IO error happened".to_string()
        })
    );
}

#[test]
fn a_renderer_that_is_not_found_is_a_missing_tool() {
    let f = spawn_failure("gs", true, "No such file or directory (os error 2)");
    assert_eq!(f.kind, FailureKind::ToolMissing);
    assert_eq!(f.message, gs_missing());
    assert!(f.is_tool_missing());
}

#[test]
fn other_failures_to_start_name_the_program() {
    let f = spawn_failure("magick", true, "No such file or directory (os error 2)");
    assert_eq!(f.kind, FailureKind::IoFailure);
    assert_eq!(f.message, "magick: No such file or directory (os error 2)");
    let g = spawn_failure("gs", false, "Permission denied (os error 13)");
    assert_eq!(g.kind, FailureKind::IoFailure);
    assert_eq!(g.message, "gs: Permission denied (os error 13)");
    assert!(!g.is_tool_missing());
}

#[test]
fn a_worker_runs_its_steps_one_after_the_other() {
    let mut w = ChainWorker::new(2);
    assert_eq!(w.next_action(false), WorkerAction::Spawn(0));
    assert_eq!(w.phase(), ChainPhase::Busy);
    let r = w.exited(exit(true, "", ""), false);
    assert_eq!(r.outcome, Some(JobOutcome::Success));
    assert!(!r.cancel);
    assert_eq!(w.done(), 1);
    assert_eq!(w.next_action(false), WorkerAction::Spawn(1));
    let r = w.exited(exit(true, "", ""), false);
    assert_eq!(r.outcome, Some(JobOutcome::Success));
    assert_eq!(w.done(), 2);
    assert_eq!(w.next_action(false), WorkerAction::Finish);
    assert_eq!(w.phase(), ChainPhase::Stopped);
}

#[test]
fn a_worker_does_not_start_a_second_step_while_one_runs() {
    let mut w = ChainWorker::new(3);
    assert_eq!(w.next_action(false), WorkerAction::Spawn(0));
    assert_eq!(w.next_action(false), WorkerAction::Finish);
    assert_eq!(w.phase(), ChainPhase::Busy);
    assert_eq!(w.done(), 0);
}

#[test]
fn a_worker_starts_nothing_once_the_token_is_set() {
    let mut w = ChainWorker::new(3);
    assert_eq!(w.next_action(true), WorkerAction::Finish);
    assert_eq!(w.phase(), ChainPhase::Stopped);
    assert_eq!(w.next_action(false), WorkerAction::Finish);
    let mut v = ChainWorker::new(3);
    assert_eq!(v.next_action(false), WorkerAction::Spawn(0));
    v.exited(exit(true, "", ""), false);
    assert_eq!(v.next_action(true), WorkerAction::Finish);
    assert_eq!(v.done(), 1);
}

#[test]
fn a_step_that_ends_after_cancellation_is_not_reported() {
    let mut w = ChainWorker::new(2);
    assert_eq!(w.next_action(false), WorkerAction::Spawn(0));
    let r = w.exited(exit(false, "killed", ""), true);
    assert_eq!(r.outcome, None);
    assert!(!r.cancel);
    assert_eq!(w.phase(), ChainPhase::Stopped);
    assert_eq!(w.next_action(false), WorkerAction::Finish);
    let mut v = ChainWorker::new(2);
    v.next_action(false);
    let r = v.exited(exit(true, "", ""), true);
    assert_eq!(r.outcome, None);
    assert_eq!(v.done(), 0);
}

#[test]
fn a_failed_step_stops_the_chain_and_sets_the_token() {
    let mut w = ChainWorker::new(2);
    w.next_action(false);
    let r = w.exited(exit(false, "", "bad file"), false);
    assert!(r.cancel);
    assert_eq!(
        r.outcome,
        Some(JobOutcome::Failure(Failure {
            kind: FailureKind::ToolFailure,
            message: "bad file".to_string()
        }))
    );
    assert_eq!(w.phase(), ChainPhase::Stopped);
    assert_eq!(w.next_action(false), WorkerAction::Finish);
}

#[test]
fn a_step_that_cannot_be_started_stops_the_chain() {
    let mut w = ChainWorker::new(2);
    w.next_action(false);
    let r = w.spawn_failed("gs", true, "not found");
    assert!(r.cancel);
    match r.outcome {
        Some(JobOutcome::Failure(f)) => {
            assert!(f.is_tool_missing());
            assert_eq!(f.message, gs_missing());
        }
        other => panic!("{other:?}"),
    }
    assert_eq!(w.phase(), ChainPhase::Stopped);
    assert_eq!(w.done(), 0);
    assert_eq!(w.next_action(false), WorkerAction::Finish);
}

#[test]
fn a_worker_that_waits_for_nothing_reports_nothing() {
    let mut w = ChainWorker::new(1);
    let r = w.exited(exit(true, "", ""), false);
    assert_eq!(r.outcome, None);
    assert!(!r.cancel);
    assert_eq!(w, ChainWorker::new(1));
}

#[test]
fn an_empty_chain_is_done_at_once() {
    let mut w = ChainWorker::new(0);
    assert_eq!(w.next_action(false), WorkerAction::Finish);
    assert_eq!(w.phase(), ChainPhase::Stopped);
}
