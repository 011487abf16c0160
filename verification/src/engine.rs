//! The decisions of a worker that runs one chain of steps.
//!
//! A worker starts no process itself. It is asked what to do next, is told
//! what came of it, and answers with what is to be published. Whoever
//! drives it starts the processes and waits for them.

use vstd::prelude::*;
use crate::outcome::{
    ended_well, exit_view, failure_of_spawn, outcome_of_exit, spawn_failure, wait_outcome,
    JobOutcome, JobOutcomeView, ProcessExit,
};

verus! {

/// Where a worker stands in its chain.
#[derive(Debug, Clone, Copy, PartialEq, Eq, Structural)]
pub enum ChainPhase {
    /// The next step can be started.
    Ready,
    /// A step was asked to be started and has not ended yet.
    Busy,
    /// The worker has stopped: the chain is done, failed or abandoned.
    Stopped,
}

/// The worker of one chain: how many steps the chain has, how many of them
/// ended well, and where it stands.
#[derive(Debug, PartialEq, Eq)]
pub struct ChainWorker {
    steps: usize,
    done: usize,
    phase: ChainPhase,
}

/// What a [`ChainWorker`] holds, as plain values.
pub struct WorkerView {
    /// The steps of the chain.
    pub steps: nat,
    /// The steps that ended well.
    pub done: nat,
    /// Where the worker stands.
    pub phase: ChainPhase,
}

impl View for ChainWorker {
    type V = WorkerView;

    closed spec fn view(&self) -> WorkerView {
        WorkerView { steps: self.steps as nat, done: self.done as nat, phase: self.phase }
    }
}

/// What a worker does next.
#[derive(Debug, Clone, Copy, PartialEq, Eq, Structural)]
pub enum WorkerAction {
    /// Start the step at this place of the chain, publish its handle, and
    /// wait for it.
    Spawn(usize),
    /// Stop: there is nothing left to do.
    Finish,
}

/// What a worker publishes when a step of its chain has ended.
#[derive(Debug, Clone, PartialEq, Eq)]
pub struct WorkerReport {
    /// The outcome to publish, if any. Nothing is published of a step that
    /// ended after the run was cancelled.
    pub outcome: Option<JobOutcome>,
    /// Whether the token is to be set at once, so that no other worker
    /// starts a process: so after any failure.
    pub cancel: bool,
}

impl WorkerView {
    /// What holds of a worker at any time: no more steps ended well than
    /// the chain has, and a worker that waits for a step has one left.
    pub open spec fn wf(self) -> bool {
        &&& self.done <= self.steps
        &&& self.steps <= usize::MAX
        &&& self.phase == ChainPhase::Busy ==> self.done < self.steps
    }

    /// What a worker does next, given the token: the next step where it is
    /// ready, the token is not set and a step is left; else nothing more.
    pub open spec fn next_action(self, cancelled: bool) -> WorkerAction {
        if self.phase == ChainPhase::Ready && !cancelled && self.done < self.steps {
            WorkerAction::Spawn(self.done as usize)
        } else {
            WorkerAction::Finish
        }
    }

    /// The worker after it was asked what to do next: busy where it starts
    /// a step; as it was where it waits for one; else stopped.
    pub open spec fn after_next_action(self, cancelled: bool) -> WorkerView {
        match self.next_action(cancelled) {
            WorkerAction::Spawn(_) => WorkerView { phase: ChainPhase::Busy, ..self },
            WorkerAction::Finish => if self.phase == ChainPhase::Busy {
                self
            } else {
                WorkerView { phase: ChainPhase::Stopped, ..self }
            },
        }
    }

    /// The worker after the step that it waited for has ended: stopped
    /// after cancellation or a failure, else ready for the next step.
    pub open spec fn after_exit(self, ended_well: bool, cancelled: bool) -> WorkerView {
        if self.phase != ChainPhase::Busy {
            self
        } else if cancelled || !ended_well {
            WorkerView { phase: ChainPhase::Stopped, ..self }
        } else {
            WorkerView { done: self.done + 1, phase: ChainPhase::Ready, ..self }
        }
    }
}

impl ChainWorker {
    #[verifier::type_invariant]
    spec fn sound(&self) -> bool {
        self@.wf()
    }

    /// A worker for a chain of `steps` steps, of which none has run.
    pub fn new(steps: usize) -> (w: Self)
        ensures
            w@ == (WorkerView { steps: steps as nat, done: 0, phase: ChainPhase::Ready }),
            w@.wf(),
    {
        ChainWorker { steps, done: 0, phase: ChainPhase::Ready }
    }

    /// The steps of the chain.
    pub fn steps(&self) -> (r: usize)
        ensures
            r == self@.steps,
    {
        self.steps
    }

    /// The steps that ended well.
    pub fn done(&self) -> (r: usize)
        ensures
            r == self@.done,
            r <= self@.steps,
    {
        proof {
            use_type_invariant(self);
        }
        self.done
    }

    /// Where the worker stands.
    pub fn phase(&self) -> (r: ChainPhase)
        ensures
            r == self@.phase,
    {
        self.phase
    }

    /// Decides what the worker does next. `cancelled` is the token as it
    /// is read now, before anything is started. With the token set no step
    /// is ever started, and the steps that are left are given up.
    pub fn next_action(&mut self, cancelled: bool) -> (action: WorkerAction)
        ensures
            old(self)@.wf(),
            final(self)@.wf(),
            action == old(self)@.next_action(cancelled),
            final(self)@ == old(self)@.after_next_action(cancelled),
            cancelled ==> action == WorkerAction::Finish,
            action is Spawn ==> action->Spawn_0 < old(self)@.steps,
    {
        proof {
            use_type_invariant(&*self);
        }
        if matches!(self.phase, ChainPhase::Ready) && !cancelled && self.done < self.steps {
            self.phase = ChainPhase::Busy;
            WorkerAction::Spawn(self.done)
        } else {
            if !matches!(self.phase, ChainPhase::Busy) {
                self.phase = ChainPhase::Stopped;
            }
            WorkerAction::Finish
        }
    }

    /// The worker is told that the step could not be started. It stops,
    /// and the failure is to be published and the token set.
    pub fn spawn_failed(&mut self, program: &str, not_found: bool, reason: &str) -> (r:
        WorkerReport)
        ensures
            final(self)@.wf(),
            final(self)@ == (WorkerView { phase: ChainPhase::Stopped, ..old(self)@ }),
            r.cancel,
            r.outcome is Some,
            r.outcome->0@ == JobOutcomeView::Failure(
                failure_of_spawn(program@, not_found, reason@),
            ),
    {
        proof {
            use_type_invariant(&*self);
        }
        self.phase = ChainPhase::Stopped;
        WorkerReport {
            outcome: Some(JobOutcome::Failure(spawn_failure(program, not_found, reason))),
            cancel: true,
        }
    }

    /// The worker is told how the step that it waited for has ended:
    /// `exit` holds how, or nothing where waiting failed; `cancelled` is the
    /// token as it is read now.
    ///
    /// Of a step that ended after the run was cancelled nothing is
    /// published. Else its outcome is, and after a failure the token is to
    /// be set. A worker that waits for no step publishes nothing.
    pub fn exited(&mut self, exit: Option<ProcessExit>, cancelled: bool) -> (r: WorkerReport)
        ensures
            final(self)@.wf(),
            final(self)@ == old(self)@.after_exit(ended_well(exit_view(exit)), cancelled),
            (old(self)@.phase != ChainPhase::Busy || cancelled) ==> r.outcome is None && !r.cancel,
            (old(self)@.phase == ChainPhase::Busy && !cancelled) ==> {
                &&& r.outcome is Some
                &&& r.outcome->0@ == outcome_of_exit(exit_view(exit))
                &&& r.cancel == !ended_well(exit_view(exit))
            },
    {
        proof {
            use_type_invariant(&*self);
        }
        if !matches!(self.phase, ChainPhase::Busy) {
            return WorkerReport { outcome: None, cancel: false };
        }
        if cancelled {
            self.phase = ChainPhase::Stopped;
            return WorkerReport { outcome: None, cancel: false };
        }
        let outcome: JobOutcome = wait_outcome(exit);
        match outcome {
            JobOutcome::Success => {
                *self = ChainWorker {
                    steps: self.steps,
                    done: self.done + 1,
                    phase: ChainPhase::Ready,
                };
                WorkerReport { outcome: Some(outcome), cancel: false }
            },
            JobOutcome::Failure(_) => {
                self.phase = ChainPhase::Stopped;
                WorkerReport { outcome: Some(outcome), cancel: true }
            },
        }
    }
}

} // verus!
