use switcheroo::coordinator::{progress_text, Coordinator, Reaction, RunEvent, RunState};
use switcheroo::outcome::{Failure, FailureKind, JobOutcome, RunResult};

fn quiet() -> Reaction {
    Reaction { kill: Vec::new(), progress: None, finalize: false, cleanup: false, result: None }
}

fn failure(kind: FailureKind, message: &str) -> RunEvent {
    RunEvent::Outcome(JobOutcome::Failure(Failure { kind, message: message.to_string() }))
}

fn done() -> RunEvent {
    RunEvent::Outcome(JobOutcome::Success)
}

#[test]
fn a_new_run_is_idle() {
    let c = Coordinator::new();
    assert_eq!(c.state(), RunState::Idle);
    assert_eq!(c.progress(), (0, 0));
    assert!(!c.is_cancelled());
    assert!(!c.is_running());
    assert!(c.handles().is_empty());
    assert!(!c.state().is_terminal());
}

#[test]
fn a_run_is_started_once() {
    let mut c = Coordinator::new();
    assert!(!c.start(3, "/dest"));
    assert_eq!(c.state(), RunState::Running);
    assert_eq!(c.progress(), (0, 3));
    assert!(c.is_running());
    assert!(!c.start(7, "/elsewhere"));
    assert_eq!(c.progress(), (0, 3));
}

#[test]
fn a_run_without_steps_delivers_at_once() {
    let mut c = Coordinator::new();
    assert!(c.start(0, "/dest"));
    assert_eq!(c.state(), RunState::Running);
    let r = c.on_event(done());
    assert_eq!(r.result, Some(RunResult::Success("/dest".to_string())));
    assert_eq!(c.state(), RunState::Succeeded);
}

#[test]
fn progress_follows_the_outcomes_and_not_the_spawns() {
    let mut c = Coordinator::new();
    c.start(2, "/dest");
    assert_eq!(c.on_event(RunEvent::Spawned(10)), quiet());
    assert_eq!(c.on_event(RunEvent::Spawned(11)), quiet());
    assert_eq!(c.progress(), (0, 2));
    assert_eq!(c.handles(), vec![10, 11]);
    let r = c.on_event(done());
    assert_eq!(r, Reaction { progress: Some((1, 2)), ..quiet() });
    assert_eq!(c.progress(), (1, 2));
    let r = c.on_event(done());
    assert_eq!(r, Reaction { progress: Some((2, 2)), finalize: true, ..quiet() });
    assert_eq!(c.progress(), (2, 2));
    assert_eq!(c.state(), RunState::Running);
}

#[test]
fn the_run_succeeds_when_the_delivery_has_ended_well() {
    let mut c = Coordinator::new();
    c.start(1, "/home/me/a.jpg");
    c.on_event(RunEvent::Spawned(1));
    assert!(c.on_event(done()).finalize);
    c.on_event(RunEvent::Spawned(2));
    let r = c.on_event(done());
    assert_eq!(
        r,
        Reaction {
            cleanup: true,
            result: Some(RunResult::Success("/home/me/a.jpg".to_string())),
            ..quiet()
        }
    );
    assert_eq!(c.state(), RunState::Succeeded);
    assert_eq!(c.progress(), (1, 1));
    assert!(c.is_cancelled());
    assert!(c.handles().is_empty());
    assert!(c.state().is_terminal());
}

#[test]
fn the_first_failure_ends_the_run_and_kills_the_rest() {
    let mut c = Coordinator::new();
    c.start(5, "/dest");
    c.on_event(RunEvent::Spawned(1));
    c.on_event(RunEvent::Spawned(2));
    c.on_event(done());
    c.on_event(RunEvent::Spawned(3));
    let r = c.on_event(failure(FailureKind::ToolFailure, "magick: bad image"));
    assert_eq!(
        r,
        Reaction {
            kill: vec![1, 2, 3],
            cleanup: true,
            result: Some(RunResult::Failure("magick: bad image".to_string(), false)),
            ..quiet()
        }
    );
    assert_eq!(c.state(), RunState::Failed);
    assert_eq!(c.progress(), (1, 5));
    assert!(c.is_cancelled());
    assert!(c.handles().is_empty());
}

#[test]
fn a_missing_tool_is_told_as_such() {
    let mut c = Coordinator::new();
    c.start(1, "/dest");
    let r = c.on_event(failure(FailureKind::ToolMissing, "install it"));
    assert_eq!(r.result, Some(RunResult::Failure("install it".to_string(), true)));
    assert_eq!(c.state(), RunState::Failed);
}

#[test]
fn a_failed_delivery_fails_the_run() {
    let mut c = Coordinator::new();
    c.start(1, "/dest");
    assert!(c.on_event(done()).finalize);
    c.on_event(RunEvent::Spawned(9));
    let r = c.on_event(failure(FailureKind::ToolFailure, "mv: no space"));
    assert_eq!(r.kill, vec![9]);
    assert!(r.cleanup);
    assert_eq!(r.result, Some(RunResult::Failure("mv: no space".to_string(), false)));
    assert_eq!(c.state(), RunState::Failed);
    assert_eq!(c.progress(), (1, 1));
}

#[test]
fn cancelling_kills_what_runs_and_says_nothing() {
    let mut c = Coordinator::new();
    c.start(4, "/dest");
    c.on_event(RunEvent::Spawned(7));
    c.on_event(RunEvent::Spawned(8));
    let r = c.on_event(RunEvent::Cancel);
    assert_eq!(r, Reaction { kill: vec![7, 8], cleanup: true, ..quiet() });
    assert_eq!(c.state(), RunState::Cancelled);
    assert!(c.is_cancelled());
    assert!(!c.is_running());
    assert!(c.handles().is_empty());
}

#[test]
fn a_run_that_is_over_takes_no_more_events() {
    for last in [RunEvent::Cancel, failure(FailureKind::IoFailure, "x")] {
        let mut c = Coordinator::new();
        c.start(3, "/dest");
        c.on_event(done());
        c.on_event(last);
        let state = c.state();
        let progress = c.progress();
        assert_eq!(c.on_event(done()), quiet());
        assert_eq!(c.on_event(failure(FailureKind::ToolFailure, "late")), quiet());
        assert_eq!(c.on_event(RunEvent::Cancel), quiet());
        assert_eq!(c.on_event(RunEvent::Spawned(5)), Reaction { kill: vec![5], ..quiet() });
        assert_eq!(c.state(), state);
        assert_eq!(c.progress(), progress);
        assert!(c.handles().is_empty());
        assert!(c.is_cancelled());
    }
}

#[test]
fn an_idle_run_ignores_events() {
    let mut c = Coordinator::new();
    assert_eq!(c.on_event(done()), quiet());
    assert_eq!(c.on_event(RunEvent::Cancel), quiet());
    assert_eq!(c.on_event(RunEvent::Spawned(1)), Reaction { kill: vec![1], ..quiet() });
    assert_eq!(c.state(), RunState::Idle);
    assert!(!c.is_cancelled());
}

#[test]
fn the_workspace_is_cleaned_exactly_once() {
    let endings: Vec<Vec<RunEvent>> = vec![
        vec![done(), done(), done()],
        vec![done(), RunEvent::Cancel, done(), RunEvent::Cancel],
        vec![failure(FailureKind::ToolFailure, "a"), failure(FailureKind::ToolFailure, "b")],
        vec![done(), done(), failure(FailureKind::ToolFailure, "a"), done()],
    ];
    for events in endings {
        let mut c = Coordinator::new();
        c.start(2, "/dest");
        let mut cleanups = 0;
        let mut results = 0;
        for e in events {
            let r = c.on_event(e);
            if r.cleanup {
                cleanups += 1;
            }
            if r.result.is_some() {
                results += 1;
            }
        }
        assert!(c.state().is_terminal());
        assert_eq!(cleanups, 1);
        assert!(results <= 1);
    }
}

#[test]
fn completed_never_falls_and_is_all_only_after_the_last_step() {
    let mut c = Coordinator::new();
    c.start(3, "/dest");
    let events = vec![
        RunEvent::Spawned(1),
        done(),
        RunEvent::Spawned(2),
        RunEvent::Spawned(3),
        done(),
        done(),
        RunEvent::Spawned(4),
        done(),
        done(),
    ];
    let mut before = 0;
    for e in events {
        c.on_event(e);
        let (completed, total) = c.progress();
        assert!(completed >= before);
        assert!(completed <= total);
        assert_eq!(total, 3);
        if c.state() == RunState::Succeeded {
            assert_eq!(completed, total);
        }
        before = completed;
    }
    assert_eq!(c.state(), RunState::Succeeded);
    assert_eq!(c.progress(), (3, 3));
}

#[test]
fn progress_in_words() {
    assert_eq!(progress_text(0, 0), "0/0");
    assert_eq!(progress_text(3, 12), "3/12");
    assert_eq!(progress_text(120, 120), "120/120");
}
