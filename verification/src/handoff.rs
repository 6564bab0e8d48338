//! The handoff of one result from the context that runs a work item to the
//! caller that waits for it.

use vstd::prelude::*;
use crate::content::{Response, ResponseView};
use crate::error::DispatchError;

verus! {

/// Where a dispatched item stands.
#[derive(Debug)]
pub enum Stage {
    /// Handed over, not started.
    Pending,
    /// Occupying the thread that runs it.
    Running,
    /// Done, with its payload. Final until the caller has seen it.
    Completed(Response),
    /// Ended without a payload. Final until the caller has seen it.
    Failed(DispatchError),
    /// The caller has seen the outcome. Nothing follows.
    Delivered,
}

/// A [`Stage`] as a mathematical value.
pub ghost enum StageView {
    Pending,
    Running,
    Completed(ResponseView),
    Failed(DispatchError),
    Delivered,
}

impl View for Stage {
    type V = StageView;

    open spec fn view(&self) -> StageView {
        match self {
            Stage::Pending => StageView::Pending,
            Stage::Running => StageView::Running,
            Stage::Completed(response) => StageView::Completed(response@),
            Stage::Failed(error) => StageView::Failed(*error),
            Stage::Delivered => StageView::Delivered,
        }
    }
}

/// What the waiting caller gets to see: a payload or the reason why there is
/// none.
pub type Outcome = Result<Response, DispatchError>;

/// An [`Outcome`] as a mathematical value.
pub type OutcomeView = Result<ResponseView, DispatchError>;

/// The view of an outcome.
pub open spec fn outcome_view(outcome: Outcome) -> OutcomeView {
    match outcome {
        Ok(response) => Ok(response@),
        Err(error) => Err(error),
    }
}

/// The view of an outcome that may not be there yet.
pub open spec fn observation_view(observed: Option<Outcome>) -> Option<OutcomeView> {
    match observed {
        Some(outcome) => Some(outcome_view(outcome)),
        None => None,
    }
}

/// One thing that happens to a handoff. The first four come from the context
/// that runs the item, the last one from the caller that waits.
pub ghost enum Step {
    /// The item begins to run.
    Start,
    /// The item returns its payload.
    Finish(ResponseView),
    /// The thread or task of the item ends abnormally.
    Abort,
    /// The executor turns the item away for want of capacity.
    Refuse,
    /// The caller looks for the outcome.
    Poll,
}

impl StageView {
    /// Whether an outcome is there and waits for the caller.
    pub open spec fn settled(self) -> bool {
        self is Completed || self is Failed
    }

    /// The outcome that waits for the caller, if there is one.
    pub open spec fn outcome(self) -> Option<OutcomeView> {
        match self {
            StageView::Completed(response) => Some(Ok(response)),
            StageView::Failed(error) => Some(Err(error)),
            _ => None,
        }
    }

    /// The stage after `step`. A step that does not fit the stage changes
    /// nothing: a payload is written once, by an item that runs; an outcome
    /// is final; and it leaves only when the caller polls.
    pub open spec fn next(self, step: Step) -> StageView {
        match (self, step) {
            (StageView::Pending, Step::Start) => StageView::Running,
            (StageView::Pending, Step::Refuse) => StageView::Failed(
                DispatchError::CapacityExhaustion,
            ),
            (StageView::Pending, Step::Abort) => StageView::Failed(DispatchError::JoinFailure),
            (StageView::Running, Step::Finish(response)) => StageView::Completed(response),
            (StageView::Running, Step::Abort) => StageView::Failed(DispatchError::JoinFailure),
            (StageView::Completed(_), Step::Poll) => StageView::Delivered,
            (StageView::Failed(_), Step::Poll) => StageView::Delivered,
            _ => self,
        }
    }

    /// What `step` shows to the caller: the outcome, if the step is a poll
    /// and an outcome waits.
    pub open spec fn observed(self, step: Step) -> Option<OutcomeView> {
        if step is Poll {
            self.outcome()
        } else {
            None
        }
    }

    /// The stage after all of `steps`, in order.
    pub open spec fn run(self, steps: Seq<Step>) -> StageView
        decreases steps.len(),
    {
        if steps.len() == 0 {
            self
        } else {
            self.run(steps.drop_last()).next(steps.last())
        }
    }

    /// How many of `steps` show an outcome to the caller.
    pub open spec fn deliveries(self, steps: Seq<Step>) -> nat
        decreases steps.len(),
    {
        if steps.len() == 0 {
            0
        } else {
            let before = self.run(steps.drop_last());
            let seen: nat = if before.observed(steps.last()) is Some {
                1
            } else {
                0
            };
            self.deliveries(steps.drop_last()) + seen
        }
    }
}

/// A handoff of exactly one outcome, with one writer and one reader.
pub struct PendingResult {
    stage: Stage,
}

impl View for PendingResult {
    type V = StageView;

    closed spec fn view(&self) -> StageView {
        self.stage@
    }
}

impl PendingResult {
    /// A handoff for an item that has not started.
    pub fn new() -> (pending: PendingResult)
        ensures
            pending@ == StageView::Pending,
    {
        PendingResult { stage: Stage::Pending }
    }

    /// Records that the item begins to run. Returns whether the step fitted.
    pub fn start(&mut self) -> (fitted: bool)
        ensures
            final(self)@ == old(self)@.next(Step::Start),
            fitted == (old(self)@ is Pending),
    {
        match self.stage {
            Stage::Pending => {
                self.stage = Stage::Running;
                true
            },
            _ => false,
        }
    }

    /// Records the payload of the item. Returns whether the step fitted; if
    /// it did not, the payload is dropped and the handoff is unchanged.
    pub fn finish(&mut self, response: Response) -> (fitted: bool)
        ensures
            final(self)@ == old(self)@.next(Step::Finish(response@)),
            fitted == (old(self)@ is Running),
    {
        match self.stage {
            Stage::Running => {
                self.stage = Stage::Completed(response);
                true
            },
            _ => false,
        }
    }

    /// Records that the thread or task of the item ended abnormally. Returns
    /// whether the step fitted.
    pub fn abort(&mut self) -> (fitted: bool)
        ensures
            final(self)@ == old(self)@.next(Step::Abort),
            fitted == (old(self)@ is Pending || old(self)@ is Running),
    {
        match self.stage {
            Stage::Pending | Stage::Running => {
                self.stage = Stage::Failed(DispatchError::JoinFailure);
                true
            },
            _ => false,
        }
    }

    /// Records that the executor turned the item away. Returns whether the
    /// step fitted.
    pub fn refuse(&mut self) -> (fitted: bool)
        ensures
            final(self)@ == old(self)@.next(Step::Refuse),
            fitted == (old(self)@ is Pending),
    {
        match self.stage {
            Stage::Pending => {
                self.stage = Stage::Failed(DispatchError::CapacityExhaustion);
                true
            },
            _ => false,
        }
    }

    /// Whether an outcome waits for the caller.
    pub fn is_settled(&self) -> (settled: bool)
        ensures
            settled == self@.settled(),
    {
        match self.stage {
            Stage::Completed(_) | Stage::Failed(_) => true,
            _ => false,
        }
    }

    /// Whether the caller has seen the outcome.
    pub fn is_delivered(&self) -> (delivered: bool)
        ensures
            delivered == (self@ is Delivered),
    {
        match self.stage {
            Stage::Delivered => true,
            _ => false,
        }
    }

    /// Whether the item runs.
    pub fn is_running(&self) -> (running: bool)
        ensures
            running == (self@ is Running),
    {
        match self.stage {
            Stage::Running => true,
            _ => false,
        }
    }

    /// Looks for the outcome. While none is there, returns `None` and changes
    /// nothing. The first poll that finds one takes it out; every poll after
    /// that returns `None`.
    pub fn poll(&mut self) -> (observed: Option<Outcome>)
        ensures
            final(self)@ == old(self)@.next(Step::Poll),
            observation_view(observed) == old(self)@.observed(Step::Poll),
    {
        if !self.is_settled() {
            return None;
        }
        let mut taken = Stage::Delivered;
        core::mem::swap(&mut self.stage, &mut taken);
        match taken {
            Stage::Completed(response) => Some(Ok(response)),
            Stage::Failed(error) => Some(Err(error)),
            _ => None,
        }
    }
}

} // verus!
