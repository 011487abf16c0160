//! The course of a run: its progress, its cancellation and its end.
//!
//! The coordinator is told what happens, one event after the other, and
//! answers each with what is to be done. It starts, kills and waits for
//! nothing itself.

use vstd::prelude::*;
use crate::outcome::{FailureKind, JobOutcome, JobOutcomeView, RunResult};
use crate::text::{concat, decimal, decimal_string};

verus! {

/// The states of a run.
#[derive(Debug, Clone, Copy, PartialEq, Eq, Hash, Structural)]
pub enum RunState {
    Idle,
    Running,
    Succeeded,
    Failed,
    Cancelled,
}

impl RunState {
    /// Whether the run is over.
    pub open spec fn spec_is_terminal(self) -> bool {
        self == RunState::Succeeded || self == RunState::Failed || self == RunState::Cancelled
    }

    /// Whether the run is over.
    pub fn is_terminal(&self) -> (r: bool)
        ensures
            r == self.spec_is_terminal(),
    {
        matches!(self, RunState::Succeeded | RunState::Failed | RunState::Cancelled)
    }
}

/// What happens in a run.
#[derive(Debug, Clone, PartialEq, Eq)]
pub enum RunEvent {
    /// A process was started; the number stands for its handle.
    Spawned(usize),
    /// A step, or the delivery of the results, has ended.
    Outcome(JobOutcome),
    /// The user asks for the run to stop.
    Cancel,
}

/// What an event holds, as plain values.
pub enum RunEventView {
    Spawned(usize),
    Outcome(JobOutcomeView),
    Cancel,
}

impl View for RunEvent {
    type V = RunEventView;

    open spec fn view(&self) -> RunEventView {
        match self {
            RunEvent::Spawned(h) => RunEventView::Spawned(*h),
            RunEvent::Outcome(o) => RunEventView::Outcome(o@),
            RunEvent::Cancel => RunEventView::Cancel,
        }
    }
}

/// How a run ended, as plain values.
pub enum RunResultView {
    Success(Seq<char>),
    Failure(Seq<char>, bool),
}

/// The view of a result that may not be there.
pub open spec fn result_view(r: Option<RunResult>) -> Option<RunResultView> {
    match r {
        Some(RunResult::Success(path)) => Some(RunResultView::Success(path@)),
        Some(RunResult::Failure(message, missing)) => Some(
            RunResultView::Failure(message@, missing),
        ),
        None => None,
    }
}

/// What is to be done after an event.
#[derive(Debug, Clone, PartialEq, Eq)]
pub struct Reaction {
    /// The handles of the processes to kill. A process that cannot be
    /// killed has ended or is about to: it is waited for instead.
    pub kill: Vec<usize>,
    /// The progress to show: the steps that have ended well, and all.
    pub progress: Option<(usize, usize)>,
    /// Whether the results are to be delivered now.
    pub finalize: bool,
    /// Whether the workspace is to be deleted now.
    pub cleanup: bool,
    /// The end of the run, where it is to be told. A cancelled run ends
    /// without a word.
    pub result: Option<RunResult>,
}

/// What a [`Reaction`] holds, as plain values.
pub struct ReactionView {
    pub kill: Seq<usize>,
    pub progress: Option<(usize, usize)>,
    pub finalize: bool,
    pub cleanup: bool,
    pub result: Option<RunResultView>,
}

impl View for Reaction {
    type V = ReactionView;

    open spec fn view(&self) -> ReactionView {
        ReactionView {
            kill: self.kill@,
            progress: self.progress,
            finalize: self.finalize,
            cleanup: self.cleanup,
            result: result_view(self.result),
        }
    }
}

/// The reaction that asks for nothing.
pub open spec fn no_reaction() -> ReactionView {
    ReactionView {
        kill: Seq::empty(),
        progress: None,
        finalize: false,
        cleanup: false,
        result: None,
    }
}

/// The coordinator of one run.
#[derive(Debug)]
pub struct Coordinator {
    state: RunState,
    completed: usize,
    total: usize,
    finalizing: bool,
    cancelled: bool,
    handles: Vec<usize>,
    cleanups: usize,
    destination: String,
}

/// What a [`Coordinator`] holds, as plain values.
pub struct RunView {
    /// The state of the run.
    pub state: RunState,
    /// The steps that have ended well.
    pub completed: nat,
    /// The steps of the plan.
    pub total: nat,
    /// Whether the delivery of the results has been asked for.
    pub finalizing: bool,
    /// The cancellation token.
    pub cancelled: bool,
    /// The handles of the processes that were started and not killed.
    pub handles: Seq<usize>,
    /// How often the workspace was asked to be deleted.
    pub cleanups: nat,
    /// Where the results are to go.
    pub destination: Seq<char>,
}

impl View for Coordinator {
    type V = RunView;

    closed spec fn view(&self) -> RunView {
        RunView {
            state: self.state,
            completed: self.completed as nat,
            total: self.total as nat,
            finalizing: self.finalizing,
            cancelled: self.cancelled,
            handles: self.handles@,
            cleanups: self.cleanups as nat,
            destination: self.destination@,
        }
    }
}

impl RunView {
    /// What holds of a run at any time.
    ///
    /// Before the run nothing has happened. While it runs the token is not
    /// set and the workspace stands, and the delivery has been asked for
    /// just when every step has ended well. Once it is over the token is
    /// set, no process is followed, and the workspace was deleted once. A
    /// run succeeds only after its delivery.
    pub open spec fn wf(self) -> bool {
        &&& self.completed <= self.total
        &&& self.total <= usize::MAX
        &&& self.finalizing ==> self.completed == self.total
        &&& match self.state {
            RunState::Idle => {
                &&& self.completed == 0
                &&& !self.finalizing
                &&& !self.cancelled
                &&& self.cleanups == 0
                &&& self.handles.len() == 0
            },
            RunState::Running => {
                &&& !self.cancelled
                &&& self.cleanups == 0
                &&& self.finalizing == (self.completed == self.total)
            },
            RunState::Succeeded => {
                &&& self.finalizing
                &&& self.cancelled
                &&& self.cleanups == 1
                &&& self.handles.len() == 0
            },
            _ => {
                &&& self.cancelled
                &&& self.cleanups == 1
                &&& self.handles.len() == 0
                &&& self.finalizing == (self.completed == self.total)
            },
        }
    }

    /// The run after it was started with `total` steps and `destination`:
    /// only a run that has not begun can be started.
    pub open spec fn started(self, total: nat, destination: Seq<char>) -> RunView {
        if self.state == RunState::Idle {
            RunView {
                state: RunState::Running,
                completed: 0,
                total,
                finalizing: total == 0,
                destination,
                ..self
            }
        } else {
            self
        }
    }

    /// The run after it has come to the end `state`: the token is set, no
    /// process is handles any more, the workspace was deleted.
    pub open spec fn ended(self, state: RunState) -> RunView {
        RunView {
            state,
            cancelled: true,
            handles: Seq::empty(),
            cleanups: self.cleanups + 1,
            ..self
        }
    }

    /// The run after an event.
    ///
    /// Only a running run changes. It follows the process that was started.
    /// A step that ended well counts; the end of the delivery ends the run
    /// with success. Any failure and the user's wish to stop end it too.
    pub open spec fn after(self, event: RunEventView) -> RunView {
        if self.state != RunState::Running {
            self
        } else {
            match event {
                RunEventView::Spawned(h) => RunView { handles: self.handles.push(h), ..self },
                RunEventView::Outcome(JobOutcomeView::Success) => if self.finalizing {
                    self.ended(RunState::Succeeded)
                } else {
                    RunView {
                        completed: self.completed + 1,
                        finalizing: self.completed + 1 == self.total,
                        ..self
                    }
                },
                RunEventView::Outcome(JobOutcomeView::Failure(_)) => self.ended(RunState::Failed),
                RunEventView::Cancel => self.ended(RunState::Cancelled),
            }
        }
    }

    /// What is to be done after an event.
    ///
    /// A process that was started while no run is under way is killed.
    /// A step that ended well is shown as progress, and with the last one
    /// the delivery is asked for. Where the run ends, the workspace is
    /// deleted; where it ends before its time, every process that is followed is
    /// killed. Success and failure are told, cancellation is not.
    pub open spec fn reaction(self, event: RunEventView) -> ReactionView {
        if self.state != RunState::Running {
            match event {
                RunEventView::Spawned(h) => ReactionView { kill: seq![h], ..no_reaction() },
                _ => no_reaction(),
            }
        } else {
            match event {
                RunEventView::Spawned(h) => no_reaction(),
                RunEventView::Outcome(JobOutcomeView::Success) => if self.finalizing {
                    ReactionView {
                        cleanup: true,
                        result: Some(RunResultView::Success(self.destination)),
                        ..no_reaction()
                    }
                } else {
                    ReactionView {
                        progress: Some(((self.completed + 1) as usize, self.total as usize)),
                        finalize: self.completed + 1 == self.total,
                        ..no_reaction()
                    }
                },
                RunEventView::Outcome(JobOutcomeView::Failure(f)) => ReactionView {
                    kill: self.handles,
                    cleanup: true,
                    result: Some(
                        RunResultView::Failure(f.message, f.kind == FailureKind::ToolMissing),
                    ),
                    ..no_reaction()
                },
                RunEventView::Cancel => ReactionView {
                    kill: self.handles,
                    cleanup: true,
                    ..no_reaction()
                },
            }
        }
    }
}

fn nothing() -> (r: Reaction)
    ensures
        r@ == no_reaction(),
{
    Reaction { kill: Vec::new(), progress: None, finalize: false, cleanup: false, result: None }
}

impl Coordinator {
    #[verifier::type_invariant]
    spec fn sound(&self) -> bool {
        self@.wf()
    }

    /// The coordinator of a run that has not begun.
    pub fn new() -> (c: Self)
        ensures
            c@.wf(),
            c@ == (RunView {
                state: RunState::Idle,
                completed: 0,
                total: 0,
                finalizing: false,
                cancelled: false,
                handles: Seq::empty(),
                cleanups: 0,
                destination: Seq::empty(),
            }),
    {
        Coordinator {
            state: RunState::Idle,
            completed: 0,
            total: 0,
            finalizing: false,
            cancelled: false,
            handles: Vec::new(),
            cleanups: 0,
            destination: String::new(),
        }
    }

    /// Starts the run: `total` is the number of steps in the plan, and
    /// `destination` is where the results are to go. Answers whether the
    /// results are to be delivered at once, which is so where the plan has
    /// no step. A run that was started before stays as it is.
    pub fn start(&mut self, total: usize, destination: &str) -> (finalize: bool)
        ensures
            old(self)@.wf(),
            final(self)@.wf(),
            final(self)@ == old(self)@.started(total as nat, destination@),
            finalize == (old(self)@.state == RunState::Idle && total == 0),
    {
        proof {
            use_type_invariant(&*self);
        }
        if matches!(self.state, RunState::Idle) {
            *self = Coordinator {
                state: RunState::Running,
                completed: 0,
                total,
                finalizing: total == 0,
                cancelled: false,
                handles: Vec::new(),
                cleanups: 0,
                destination: String::from_str(destination),
            };
            assert(self@.handles =~= old(self)@.handles);
            total == 0
        } else {
            false
        }
    }

    /// Takes an event and answers with what is to be done.
    pub fn on_event(&mut self, event: RunEvent) -> (r: Reaction)
        ensures
            old(self)@.wf(),
            final(self)@.wf(),
            final(self)@ == old(self)@.after(event@),
            r@ == old(self)@.reaction(event@),
    {
        proof {
            use_type_invariant(&*self);
        }
        if !matches!(self.state, RunState::Running) {
            return match event {
                RunEvent::Spawned(h) => {
                    let mut r: Reaction = nothing();
                    r.kill.push(h);
                    assert(r@.kill =~= seq![h]);
                    r
                },
                _ => nothing(),
            };
        }
        let mut r: Reaction = nothing();
        match event {
            RunEvent::Spawned(h) => {
                let mut handles: Vec<usize> = self.handles.clone();
                handles.push(h);
                *self = Coordinator {
                    state: RunState::Running,
                    completed: self.completed,
                    total: self.total,
                    finalizing: self.finalizing,
                    cancelled: false,
                    handles,
                    cleanups: 0,
                    destination: self.destination.clone(),
                };
            },
            RunEvent::Outcome(JobOutcome::Success) => {
                if self.finalizing {
                    r.cleanup = true;
                    r.result = Some(RunResult::Success(self.destination.clone()));
                    *self = self.ended(RunState::Succeeded);
                } else {
                    let completed: usize = self.completed + 1;
                    r.progress = Some((completed, self.total));
                    r.finalize = completed == self.total;
                    *self = Coordinator {
                        state: RunState::Running,
                        completed,
                        total: self.total,
                        finalizing: completed == self.total,
                        cancelled: false,
                        handles: self.handles.clone(),
                        cleanups: 0,
                        destination: self.destination.clone(),
                    };
                }
            },
            RunEvent::Outcome(JobOutcome::Failure(f)) => {
                r.kill = self.handles.clone();
                r.cleanup = true;
                let missing: bool = f.is_tool_missing();
                r.result = Some(RunResult::Failure(f.message, missing));
                *self = self.ended(RunState::Failed);
            },
            RunEvent::Cancel => {
                r.kill = self.handles.clone();
                r.cleanup = true;
                *self = self.ended(RunState::Cancelled);
            },
        }
        r
    }

    fn ended(&self, state: RunState) -> (c: Coordinator)
        requires
            self@.state == RunState::Running,
            state.spec_is_terminal(),
            state == RunState::Succeeded ==> self@.finalizing,
        ensures
            c@ == self@.ended(state),
            c@.wf(),
    {
        proof {
            use_type_invariant(self);
        }
        Coordinator {
            state,
            completed: self.completed,
            total: self.total,
            finalizing: self.finalizing,
            cancelled: true,
            handles: Vec::new(),
            cleanups: 1,
            destination: self.destination.clone(),
        }
    }

    /// The state of the run.
    pub fn state(&self) -> (s: RunState)
        ensures
            s == self@.state,
    {
        self.state
    }

    /// The progress of the run: the steps that have ended well, and all.
    pub fn progress(&self) -> (p: (usize, usize))
        ensures
            p.0 == self@.completed,
            p.1 == self@.total,
            p.0 <= p.1,
    {
        proof {
            use_type_invariant(self);
        }
        (self.completed, self.total)
    }

    /// The cancellation token: whether no process may be started any more.
    pub fn is_cancelled(&self) -> (r: bool)
        ensures
            r == self@.cancelled,
    {
        self.cancelled
    }

    /// Whether a run is under way, so that closing would lose its work.
    pub fn is_running(&self) -> (r: bool)
        ensures
            r == (self@.state == RunState::Running),
    {
        matches!(self.state, RunState::Running)
    }

    /// The handles of the processes that are followed.
    pub fn handles(&self) -> (r: Vec<usize>)
        ensures
            r@ == self@.handles,
    {
        self.handles.clone()
    }
}

/// The run after a sequence of events, taken one after the other.
pub open spec fn run_after(run: RunView, events: Seq<RunEventView>) -> RunView
    decreases events.len(),
{
    if events.len() == 0 {
        run
    } else {
        run_after(run, events.drop_last()).after(events.last())
    }
}

/// An event keeps what holds of a run at any time, never lowers the number
/// of steps that have ended well, leaves the number of all steps as it is,
/// and never clears the token.
pub proof fn lemma_event_keeps_order(run: RunView, event: RunEventView)
    requires
        run.wf(),
    ensures
        run.after(event).wf(),
        run.after(event).completed >= run.completed,
        run.after(event).total == run.total,
        run.cancelled ==> run.after(event).cancelled,
{
}

/// Whatever happens in a run, in whatever order: what holds of a run at
/// any time keeps holding, the number of steps that have ended well never
/// falls, and a token that is set stays set.
pub proof fn lemma_progress_never_falls(run: RunView, events: Seq<RunEventView>)
    requires
        run.wf(),
    ensures
        run_after(run, events).wf(),
        run_after(run, events).completed >= run.completed,
        run_after(run, events).total == run.total,
        run.cancelled ==> run_after(run, events).cancelled,
    decreases events.len(),
{
    if events.len() > 0 {
        lemma_progress_never_falls(run, events.drop_last());
        lemma_event_keeps_order(run_after(run, events.drop_last()), events.last());
    }
}

/// A run that has succeeded has seen every step end well. A run that is
/// over and whose delivery was never asked for has not; so of the runs
/// that did not come to their end during the delivery, exactly those that
/// succeeded have seen every step end well.
pub proof fn lemma_complete_iff_succeeded(run: RunView)
    requires
        run.wf(),
        run.state.spec_is_terminal(),
    ensures
        run.state == RunState::Succeeded ==> run.completed == run.total,
        !run.finalizing ==> run.completed < run.total && run.state != RunState::Succeeded,
        (run.state != RunState::Succeeded ==> !run.finalizing) ==> (run.completed == run.total
            <==> run.state == RunState::Succeeded),
{
}

/// A run that is over stays as it is, whatever is told to it later. The
/// only thing that is still done is to kill a process that turns out to
/// have been started.
pub proof fn lemma_end_is_final(run: RunView, event: RunEventView)
    requires
        run.wf(),
        run.state.spec_is_terminal(),
    ensures
        run.after(event) == run,
        run.reaction(event).progress is None,
        !run.reaction(event).finalize,
        !run.reaction(event).cleanup,
        run.reaction(event).result is None,
        run.reaction(event).kill == match event {
            RunEventView::Spawned(h) => seq![h],
            _ => Seq::empty(),
        },
{
}

/// Once the user has asked for the run to stop, it is over, and no event
/// that arrives later changes anything.
pub proof fn lemma_cancel_ends_the_run(run: RunView, later: Seq<RunEventView>)
    requires
        run.wf(),
        run.state == RunState::Running,
    ensures
        run.after(RunEventView::Cancel).state == RunState::Cancelled,
        run.after(RunEventView::Cancel).cancelled,
        run.reaction(RunEventView::Cancel).kill == run.handles,
        run.reaction(RunEventView::Cancel).result is None,
        run_after(run.after(RunEventView::Cancel), later) == run.after(RunEventView::Cancel),
    decreases later.len(),
{
    let ended = run.after(RunEventView::Cancel);
    if later.len() > 0 {
        lemma_cancel_ends_the_run(run, later.drop_last());
        lemma_end_is_final(ended, later.last());
    }
}

/// The workspace is deleted when the run comes to its end, and at no other
/// time: an event asks for it just when it takes a running run to an end.
pub proof fn lemma_cleanup_once(run: RunView, event: RunEventView)
    requires
        run.wf(),
    ensures
        run.reaction(event).cleanup == (run.state == RunState::Running && run.after(
            event,
        ).state.spec_is_terminal()),
        run.after(event).cleanups == run.cleanups + if run.reaction(event).cleanup {
            1nat
        } else {
            0nat
        },
        run.after(event).state.spec_is_terminal() ==> run.after(event).cleanups == 1,
        !run.after(event).state.spec_is_terminal() ==> run.after(event).cleanups == 0,
{
}

/// The progress in words: the steps that have ended well, a stroke, and
/// the steps in all.
pub open spec fn progress_words(done: nat, total: nat) -> Seq<char> {
    decimal(done) + seq!['/'] + decimal(total)
}

/// Puts the progress into words.
pub fn progress_text(done: usize, total: usize) -> (s: String)
    ensures
        s@ == progress_words(done as nat, total as nat),
{
    proof {
        reveal_strlit("/");
    }
    let mut s: String = concat(decimal_string(done).as_str(), "/");
    s.append(decimal_string(total).as_str());
    assert(s@ =~= progress_words(done as nat, total as nat));
    s
}

} // verus!
