//! The dispatcher: where the work of a request runs, and how its result
//! comes back to the request.

use vstd::prelude::*;
use crate::content::{Response, ResponseView, StaticContent, StaticContentView};
use crate::error::DispatchError;
use crate::handoff::{
    observation_view, outcome_view, Outcome, OutcomeView, PendingResult, StageView, Step,
};
use crate::policy::DispatchPolicy;
use crate::runtime::{placed, CooperativeScheduler, Task, TaskView};
use crate::scheduler::{Admission, SchedulerView};
use crate::work::{spec_execute, WorkItem};

verus! {

/// What the context that ran a work item has to say when it is done with it.
#[derive(Debug)]
pub enum Report {
    /// The item ran and returned this payload.
    Returned(Response),
    /// The thread or task of the item ended abnormally.
    Aborted,
    /// The blocking executor turned the item away.
    Refused,
}

/// A [`Report`] as a mathematical value.
pub ghost enum ReportView {
    Returned(ResponseView),
    Aborted,
    Refused,
}

impl View for Report {
    type V = ReportView;

    open spec fn view(&self) -> ReportView {
        match self {
            Report::Returned(response) => ReportView::Returned(response@),
            Report::Aborted => ReportView::Aborted,
            Report::Refused => ReportView::Refused,
        }
    }
}

impl ReportView {
    /// The steps on the handoff that the report stands for.
    pub open spec fn steps(self) -> Seq<Step> {
        match self {
            ReportView::Returned(response) => seq![Step::Start, Step::Finish(response)],
            ReportView::Aborted => seq![Step::Start, Step::Abort],
            ReportView::Refused => seq![Step::Refuse],
        }
    }

    /// What the caller of the item gets to see: the payload as it was
    /// returned, or the kind of failure. A failure is never dressed up as a
    /// payload.
    pub open spec fn outcome(self) -> OutcomeView {
        match self {
            ReportView::Returned(response) => Ok(response),
            ReportView::Aborted => Err(DispatchError::JoinFailure),
            ReportView::Refused => Err(DispatchError::CapacityExhaustion),
        }
    }
}

/// A report leads the handoff of its item to the outcome that it names.
pub proof fn lemma_report_settles(report: ReportView)
    ensures
        StageView::Pending.run(report.steps()).outcome() == Some(report.outcome()),
        StageView::Pending.deliveries(report.steps().push(Step::Poll)) == 1,
{
    let empty = Seq::<Step>::empty();
    assert(StageView::Pending.run(empty) == StageView::Pending);
    match report {
        ReportView::Returned(response) => {
            crate::delivery::lemma_run_push(StageView::Pending, empty, Step::Start);
            crate::delivery::lemma_run_push(
                StageView::Pending,
                empty.push(Step::Start),
                Step::Finish(response),
            );
            assert(report.steps() =~= empty.push(Step::Start).push(Step::Finish(response)));
        },
        ReportView::Aborted => {
            crate::delivery::lemma_run_push(StageView::Pending, empty, Step::Start);
            crate::delivery::lemma_run_push(
                StageView::Pending,
                empty.push(Step::Start),
                Step::Abort,
            );
            assert(report.steps() =~= empty.push(Step::Start).push(Step::Abort));
        },
        ReportView::Refused => {
            crate::delivery::lemma_run_push(StageView::Pending, empty, Step::Refuse);
            assert(report.steps() =~= empty.push(Step::Refuse));
        },
    }
    crate::delivery::lemma_poll_delivers(report.steps());
}

/// Takes the report on one item through the handoff and hands the caller
/// what it finds there.
pub fn conclude(report: Report) -> (outcome: Outcome)
    ensures
        outcome_view(outcome) == report@.outcome(),
        StageView::Pending.run(report@.steps()).outcome() == Some(outcome_view(outcome)),
{
    proof {
        lemma_report_settles(report@);
    }
    let mut pending = PendingResult::new();
    match report {
        Report::Returned(response) => {
            pending.start();
            pending.finish(response);
        },
        Report::Aborted => {
            pending.start();
            pending.abort();
        },
        Report::Refused => {
            pending.refuse();
        },
    }
    match pending.poll() {
        Some(outcome) => outcome,
        None => vstd::pervasive::unreached(),
    }
}

/// The state of a [`Dispatcher`] as a mathematical value.
pub ghost struct DispatcherView {
    pub pools: SchedulerView,
    pub content: StaticContentView,
}

/// The dispatcher of a service: the scheduler on which its requests run and
/// the payloads that they hand out.
pub struct Dispatcher {
    scheduler: CooperativeScheduler,
    content: StaticContent,
}

impl View for Dispatcher {
    type V = DispatcherView;

    closed spec fn view(&self) -> DispatcherView {
        DispatcherView { pools: self.scheduler@, content: self.content@ }
    }
}

impl DispatcherView {
    /// What one request gets when its item goes through its whole life with
    /// nothing else in between: the response of the item if it is admitted,
    /// the lack of capacity if it is refused, and nothing while every driver
    /// thread is held.
    pub open spec fn served(self, policy: DispatchPolicy, item: crate::work::WorkItemView) -> Option<
        OutcomeView,
    > {
        match self.pools.admission(policy) {
            Admission::Admitted(_) => Some(Ok(spec_execute(item.kind, self.content))),
            Admission::Refused => Some(Err(DispatchError::CapacityExhaustion)),
            Admission::Starved => None,
        }
    }
}

impl Dispatcher {
    /// The invariant of the type: that of its scheduler.
    pub closed spec fn wf(&self) -> bool {
        self.scheduler.wf()
    }

    /// A dispatcher over `scheduler` that hands out `content`.
    pub fn new(scheduler: CooperativeScheduler, content: StaticContent) -> (dispatcher: Dispatcher)
        requires
            scheduler.wf(),
        ensures
            dispatcher.wf(),
            dispatcher@ == (DispatcherView { pools: scheduler@, content: content@ }),
    {
        Dispatcher { scheduler, content }
    }

    /// The scheduler of the dispatcher.
    pub fn scheduler(&self) -> (scheduler: &CooperativeScheduler)
        ensures
            scheduler@ == self@.pools,
            self.wf() ==> scheduler.wf(),
    {
        &self.scheduler
    }

    /// The payloads of the dispatcher.
    pub fn content(&self) -> (content: &StaticContent)
        ensures
            content@ == self@.content,
    {
        &self.content
    }

    /// Dispatches `item` under `policy`, as a request that has just arrived.
    ///
    /// While a driver thread is free the request is taken up. Under `Inline`
    /// and under `RescheduledTask` the item then holds a driver thread until
    /// it ends; under `PooledBlocking` it holds a worker thread, or fails at
    /// once if the blocking executor has none left. While no driver thread is
    /// free, the task waits, whatever its policy.
    pub fn dispatch(&mut self, policy: DispatchPolicy, item: WorkItem) -> (task: Task)
        requires
            old(self).wf(),
        ensures
            final(self).wf(),
            final(self)@.content == old(self)@.content,
            final(self)@.pools == old(self)@.pools.arrive(policy),
            task@ == (TaskView {
                item: item@,
                policy,
                stage: placed(old(self)@.pools.admission(policy)),
            }),
    {
        let mut task = Task::new(policy, item);
        self.scheduler.take_up(&mut task);
        task
    }

    /// Tries again to take up a task that waits. A task that does not wait
    /// is left as it is.
    pub fn resume(&mut self, task: &mut Task) -> (admission: Option<Admission>)
        requires
            old(self).wf(),
        ensures
            final(self).wf(),
            final(self)@.content == old(self)@.content,
            final(task)@.item == old(task)@.item,
            final(task)@.policy == old(task)@.policy,
            !(old(task)@.stage is Pending) ==> admission is None && final(task)@ == old(task)@
                && final(self)@ == old(self)@,
            old(task)@.stage is Pending ==> admission == Some(
                old(self)@.pools.admission(old(task)@.policy),
            ) && final(self)@.pools == old(self)@.pools.arrive(old(task)@.policy)
                && final(task)@.stage == placed(old(self)@.pools.admission(old(task)@.policy)),
    {
        self.scheduler.take_up(task)
    }

    /// Runs a task that holds a thread to its end and frees the thread. The
    /// caller of the task finds the response of its item. Returns whether the
    /// task was running; if it was not, nothing changes.
    pub fn complete(&mut self, task: &mut Task) -> (done: bool)
        requires
            old(self).wf(),
        ensures
            final(self).wf(),
            final(self)@.content == old(self)@.content,
            done == (old(task)@.stage is Running),
            final(task)@.item == old(task)@.item,
            final(task)@.policy == old(task)@.policy,
            done ==> final(task)@.stage == StageView::Completed(
                spec_execute(old(task)@.item.kind, old(self)@.content),
            ) && final(self)@.pools == old(self)@.pools.release(old(task)@.policy.spec_site()),
            !done ==> final(task)@ == old(task)@ && final(self)@ == old(self)@,
    {
        self.scheduler.complete(task, &self.content)
    }

    /// Records that the thread or task behind `task` ended abnormally. Only
    /// the caller of `task` sees the failure. Returns whether `task` was
    /// still open.
    pub fn crash(&mut self, task: &mut Task) -> (was_open: bool)
        requires
            old(self).wf(),
        ensures
            final(self).wf(),
            final(self)@.content == old(self)@.content,
            was_open == (old(task)@.stage is Pending || old(task)@.stage is Running),
            final(task)@.item == old(task)@.item,
            final(task)@.policy == old(task)@.policy,
            final(task)@.stage == old(task)@.stage.next(Step::Abort),
            old(task)@.stage is Running ==> final(self)@.pools == old(self)@.pools.release(
                old(task)@.policy.spec_site(),
            ),
            !(old(task)@.stage is Running) ==> final(self)@.pools == old(self)@.pools,
    {
        self.scheduler.crash(task)
    }

    /// Withdraws a task that waits, where its policy allows that. A task
    /// that runs cannot be stopped and keeps its thread. Returns whether the
    /// task was withdrawn; if not, nothing changes.
    pub fn cancel(&mut self, task: &mut Task) -> (withdrawn: bool)
        requires
            old(self).wf(),
        ensures
            final(self).wf(),
            final(self)@ == old(self)@,
            withdrawn == (old(task)@.stage is Pending
                && old(task)@.policy.spec_can_cancel_before_start()),
            withdrawn ==> final(task)@ == (TaskView {
                stage: StageView::Failed(DispatchError::JoinFailure),
                ..old(task)@
            }),
            !withdrawn ==> final(task)@ == old(task)@,
    {
        self.scheduler.cancel(task)
    }

    /// Takes `item` through its whole life under `policy`: dispatches it,
    /// runs it to its end and hands over what its caller sees. Every thread
    /// that the item held is free again afterwards.
    pub fn serve(&mut self, policy: DispatchPolicy, item: WorkItem) -> (observed: Option<Outcome>)
        requires
            old(self).wf(),
        ensures
            final(self).wf(),
            final(self)@ == old(self)@,
            observation_view(observed) == old(self)@.served(policy, item@),
    {
        let mut task = self.dispatch(policy, item);
        self.complete(&mut task);
        task.poll()
    }
}

} // verus!
