//! The two executing contexts and the tasks that they run: the blocking
//! executor with its worker threads, and the cooperative scheduler with its
//! fixed driver threads.
//!
//! Nothing here starts a thread. The types keep the books of a runtime: which
//! items were handed over, which threads they hold, and what became of them.
//! Whoever embeds the library reports what happened; the types answer with
//! the state that follows.

use vstd::prelude::*;
use crate::content::StaticContent;
use crate::error::DispatchError;
use crate::handoff::{observation_view, Outcome, PendingResult, StageView, Step};
use crate::policy::{DispatchPolicy, ExecutionSite};
use crate::scheduler::{Admission, SchedulerView};
use crate::work::{execute, spec_execute, WorkItem, WorkItemView};

verus! {

/// A work item on its way: the item, the policy under which it was
/// dispatched, and the handoff of its result.
pub struct Task {
    item: WorkItem,
    policy: DispatchPolicy,
    result: PendingResult,
}

/// A [`Task`] as a mathematical value.
pub ghost struct TaskView {
    pub item: WorkItemView,
    pub policy: DispatchPolicy,
    pub stage: StageView,
}

impl View for Task {
    type V = TaskView;

    closed spec fn view(&self) -> TaskView {
        TaskView { item: self.item@, policy: self.policy, stage: self.result@ }
    }
}

impl Task {
    /// A task for `item` under `policy` that has not started.
    pub fn new(policy: DispatchPolicy, item: WorkItem) -> (task: Task)
        ensures
            task@ == (TaskView { item: item@, policy, stage: StageView::Pending }),
    {
        Task { item, policy, result: PendingResult::new() }
    }

    /// The item of the task.
    pub fn item(&self) -> (item: &WorkItem)
        ensures
            item@ == self@.item,
    {
        &self.item
    }

    /// The policy under which the task was dispatched.
    pub fn policy(&self) -> (policy: DispatchPolicy)
        ensures
            policy == self@.policy,
    {
        self.policy
    }

    /// Whether the task waits to be taken up.
    pub fn is_pending(&self) -> (pending: bool)
        ensures
            pending == (self@.stage is Pending),
    {
        !self.result.is_running() && !self.result.is_settled() && !self.result.is_delivered()
    }

    /// Whether the task holds a thread.
    pub fn is_running(&self) -> (running: bool)
        ensures
            running == (self@.stage is Running),
    {
        self.result.is_running()
    }

    /// Whether an outcome waits for the caller.
    pub fn is_settled(&self) -> (settled: bool)
        ensures
            settled == self@.stage.settled(),
    {
        self.result.is_settled()
    }

    /// Looks for the outcome of the task, as the caller that waits for it.
    /// The first poll that finds one takes it; no later poll finds one.
    pub fn poll(&mut self) -> (observed: Option<Outcome>)
        ensures
            final(self)@ == (TaskView { stage: old(self)@.stage.next(Step::Poll), ..old(self)@ }),
            observation_view(observed) == old(self)@.stage.observed(Step::Poll),
    {
        self.result.poll()
    }
}

/// The state of a [`BlockingExecutor`] as mathematical values.
pub ghost struct ExecutorView {
    pub limit: nat,
    pub busy: nat,
}

/// A pool of worker threads for work that blocks. It is sized apart from the
/// driver threads and takes items until `limit` of its threads are held.
pub struct BlockingExecutor {
    limit: usize,
    busy: usize,
}

impl View for BlockingExecutor {
    type V = ExecutorView;

    closed spec fn view(&self) -> ExecutorView {
        ExecutorView { limit: self.limit as nat, busy: self.busy as nat }
    }
}

impl BlockingExecutor {
    /// The invariant of the type: no more threads are held than there are.
    pub open spec fn wf(&self) -> bool {
        self@.busy <= self@.limit
    }

    /// An executor that runs at most `limit` items at a time, with every
    /// thread free.
    pub fn new(limit: usize) -> (executor: BlockingExecutor)
        ensures
            executor.wf(),
            executor@ == (ExecutorView { limit: limit as nat, busy: 0 }),
    {
        BlockingExecutor { limit, busy: 0 }
    }

    /// The number of worker threads that are held.
    pub fn busy(&self) -> (count: usize)
        ensures
            count == self@.busy,
    {
        self.busy
    }

    /// The most items that the executor runs at a time.
    pub fn limit(&self) -> (count: usize)
        ensures
            count == self@.limit,
    {
        self.limit
    }

    /// Takes `item`. With a thread left, the item runs on it at once and
    /// holds it until the task ends. Without one, the task fails for want of
    /// capacity: it is never dropped in silence.
    pub fn submit(&mut self, item: WorkItem) -> (task: Task)
        requires
            old(self).wf(),
        ensures
            final(self).wf(),
            final(self)@.limit == old(self)@.limit,
            task@.item == item@,
            task@.policy == DispatchPolicy::PooledBlocking,
            old(self)@.busy < old(self)@.limit ==> final(self)@.busy == old(self)@.busy + 1
                && task@.stage == StageView::Running,
            old(self)@.busy >= old(self)@.limit ==> final(self)@.busy == old(self)@.busy
                && task@.stage == StageView::Failed(DispatchError::CapacityExhaustion),
    {
        let mut task = Task::new(DispatchPolicy::PooledBlocking, item);
        if self.occupy() {
            task.result.start();
        } else {
            task.result.refuse();
        }
        task
    }

    /// Takes a thread, if one is left. Returns whether it did.
    fn occupy(&mut self) -> (taken: bool)
        requires
            old(self).wf(),
        ensures
            final(self).wf(),
            final(self)@.limit == old(self)@.limit,
            taken == (old(self)@.busy < old(self)@.limit),
            final(self)@.busy == (if taken {
                old(self)@.busy + 1
            } else {
                old(self)@.busy
            }),
    {
        if self.busy < self.limit {
            self.busy = self.busy + 1;
            true
        } else {
            false
        }
    }

    /// Frees the thread of an item that is done, if one is held.
    fn release(&mut self)
        requires
            old(self).wf(),
        ensures
            final(self).wf(),
            final(self)@ == old(self)@.released(),
    {
        if self.busy > 0 {
            self.busy = self.busy - 1;
        }
    }

    /// Runs a task that holds a worker thread to its end: computes its
    /// response, writes it to the handoff and frees the thread. Returns
    /// whether the task was running on a worker thread; if it was not,
    /// nothing changes.
    pub fn complete(&mut self, task: &mut Task, content: &StaticContent) -> (done: bool)
        requires
            old(self).wf(),
        ensures
            final(self).wf(),
            done == (old(task)@.stage is Running && !old(task)@.policy.spec_holds_driver()),
            done ==> final(task)@ == (TaskView {
                stage: StageView::Completed(spec_execute(old(task)@.item.kind, content@)),
                ..old(task)@
            }) && final(self)@ == old(self)@.released(),
            !done ==> final(task)@ == old(task)@ && final(self)@ == old(self)@,
    {
        if !task.is_running() || task.policy.holds_driver() {
            return false;
        }
        let response = execute(&task.item, content);
        task.result.finish(response);
        self.release();
        true
    }

    /// Records that the worker thread of `task` ended abnormally in the
    /// middle of the work. The caller of `task` will see a join failure, and
    /// the thread counts as free again. Returns whether the task was running
    /// on a worker thread; if it was not, nothing changes.
    pub fn crash(&mut self, task: &mut Task) -> (was_running: bool)
        requires
            old(self).wf(),
        ensures
            final(self).wf(),
            was_running == (old(task)@.stage is Running && !old(task)@.policy.spec_holds_driver()),
            was_running ==> final(task)@ == (TaskView {
                stage: StageView::Failed(DispatchError::JoinFailure),
                ..old(task)@
            }) && final(self)@ == old(self)@.released(),
            !was_running ==> final(task)@ == old(task)@ && final(self)@ == old(self)@,
    {
        if !task.is_running() || task.policy.holds_driver() {
            return false;
        }
        task.result.abort();
        self.release();
        true
    }
}

impl ExecutorView {
    /// The state after one held thread, if there is one, has been freed.
    pub open spec fn released(self) -> ExecutorView {
        if self.busy > 0 {
            ExecutorView { busy: (self.busy - 1) as nat, ..self }
        } else {
            self
        }
    }
}

/// The cooperative scheduler: a fixed number of driver threads that run many
/// tasks in turn, and the blocking executor beside them.
///
/// A task that blocks holds its driver thread for as long as it runs, and no
/// other task bound to that thread makes progress meanwhile.
pub struct CooperativeScheduler {
    drivers: usize,
    held: usize,
    executor: BlockingExecutor,
}

impl View for CooperativeScheduler {
    type V = SchedulerView;

    closed spec fn view(&self) -> SchedulerView {
        SchedulerView {
            drivers: self.drivers as nat,
            held: self.held as nat,
            worker_limit: self.executor@.limit,
            working: self.executor@.busy,
        }
    }
}

impl CooperativeScheduler {
    /// The invariant of the type: there is a driver thread, and no pool
    /// holds more threads than it has.
    pub open spec fn wf(&self) -> bool {
        self@.wf()
    }

    /// A scheduler with `drivers` driver threads, all free, beside
    /// `executor`. There is no scheduler without a driver thread.
    pub fn new(drivers: usize, executor: BlockingExecutor) -> (made: Option<
        CooperativeScheduler,
    >)
        requires
            executor.wf(),
        ensures
            made is Some <==> drivers >= 1,
            made matches Some(scheduler) ==> scheduler.wf() && scheduler@ == (SchedulerView {
                drivers: drivers as nat,
                held: 0,
                worker_limit: executor@.limit,
                working: executor@.busy,
            }),
    {
        if drivers == 0 {
            None
        } else {
            Some(CooperativeScheduler { drivers, held: 0, executor })
        }
    }

    /// The number of driver threads.
    pub fn drivers(&self) -> (count: usize)
        ensures
            count == self@.drivers,
    {
        self.drivers
    }

    /// The number of driver threads that are held.
    pub fn held_drivers(&self) -> (count: usize)
        ensures
            count == self@.held,
    {
        self.held
    }

    /// The number of worker threads that are held.
    pub fn busy_workers(&self) -> (count: usize)
        ensures
            count == self@.working,
    {
        self.executor.busy()
    }

    /// The most worker threads that the blocking executor holds at a time.
    pub fn worker_limit(&self) -> (count: usize)
        ensures
            count == self@.worker_limit,
    {
        self.executor.limit()
    }

    /// Whether a driver thread is free to take a request up.
    pub fn has_free_driver(&self) -> (free: bool)
        ensures
            free == self@.has_free_driver(),
    {
        self.held < self.drivers
    }

    /// Hands `item` to the scheduler as a task of its own. With a driver
    /// thread free, the task runs on it and holds it until it ends. Without
    /// one, the task waits.
    pub fn spawn(&mut self, item: WorkItem) -> (task: Task)
        requires
            old(self).wf(),
        ensures
            final(self).wf(),
            final(self)@ == old(self)@.occupy_driver(),
            task@.item == item@,
            task@.policy == DispatchPolicy::RescheduledTask,
            task@.stage == (if old(self)@.has_free_driver() {
                StageView::Running
            } else {
                StageView::Pending
            }),
    {
        let mut task = Task::new(DispatchPolicy::RescheduledTask, item);
        if self.held < self.drivers {
            self.held = self.held + 1;
            task.result.start();
        }
        task
    }

    /// Hands `item` to the blocking executor. The task looks like any other
    /// task of the scheduler, and no driver thread is held for it.
    pub fn spawn_blocking(&mut self, item: WorkItem) -> (task: Task)
        requires
            old(self).wf(),
        ensures
            final(self).wf(),
            final(self)@ == old(self)@.occupy_worker(),
            task@.item == item@,
            task@.policy == DispatchPolicy::PooledBlocking,
            task@.stage == (if old(self)@.working < old(self)@.worker_limit {
                StageView::Running
            } else {
                StageView::Failed(DispatchError::CapacityExhaustion)
            }),
    {
        self.executor.submit(item)
    }

    /// Tries to take up a task that has not started, as its policy says.
    /// Says what became of it; a task that has started already is left as it
    /// is, and so are the pools.
    pub fn take_up(&mut self, task: &mut Task) -> (admission: Option<Admission>)
        requires
            old(self).wf(),
        ensures
            final(self).wf(),
            final(task)@.item == old(task)@.item,
            final(task)@.policy == old(task)@.policy,
            !(old(task)@.stage is Pending) ==> admission is None && final(task)@ == old(task)@
                && final(self)@ == old(self)@,
            old(task)@.stage is Pending ==> admission == Some(
                old(self)@.admission(old(task)@.policy),
            ) && final(self)@ == old(self)@.arrive(old(task)@.policy) && final(task)@.stage
                == placed(old(self)@.admission(old(task)@.policy)),
    {
        if !task.is_pending() {
            return None;
        }
        if self.held >= self.drivers {
            Some(Admission::Starved)
        } else if task.policy.holds_driver() {
            self.held = self.held + 1;
            task.result.start();
            Some(Admission::Admitted(ExecutionSite::DriverThread))
        } else if self.executor.occupy() {
            task.result.start();
            Some(Admission::Admitted(ExecutionSite::WorkerThread))
        } else {
            task.result.refuse();
            Some(Admission::Refused)
        }
    }

    /// Withdraws a task that has not started, where its policy allows that:
    /// the task ends as a join failure and has never held a thread. Work
    /// that holds a thread cannot be preempted: a task that runs is left as
    /// it is, and so is one under a policy that runs work on driver threads.
    /// Returns whether the task was withdrawn.
    pub fn cancel(&mut self, task: &mut Task) -> (withdrawn: bool)
        requires
            old(self).wf(),
        ensures
            final(self).wf(),
            final(self)@ == old(self)@,
            withdrawn == (old(task)@.stage is Pending
                && old(task)@.policy.spec_can_cancel_before_start()),
            withdrawn ==> final(task)@ == (TaskView {
                stage: StageView::Failed(DispatchError::JoinFailure),
                ..old(task)@
            }),
            !withdrawn ==> final(task)@ == old(task)@,
    {
        if task.is_pending() && task.policy.can_cancel_before_start() {
            task.result.abort();
            true
        } else {
            false
        }
    }

    /// Frees the thread that a task under `policy` held.
    fn release(&mut self, policy: DispatchPolicy)
        requires
            old(self).wf(),
        ensures
            final(self).wf(),
            final(self)@ == old(self)@.release(policy.spec_site()),
    {
        if policy.holds_driver() {
            if self.held > 0 {
                self.held = self.held - 1;
            }
        } else {
            self.executor.release();
        }
    }

    /// Runs a task that holds a thread to its end: computes its response,
    /// writes it to the handoff and frees the thread. Returns whether the
    /// task was running; if it was not, nothing changes.
    pub fn complete(&mut self, task: &mut Task, content: &StaticContent) -> (done: bool)
        requires
            old(self).wf(),
        ensures
            final(self).wf(),
            done == (old(task)@.stage is Running),
            final(task)@.item == old(task)@.item,
            final(task)@.policy == old(task)@.policy,
            done ==> final(task)@.stage == StageView::Completed(
                spec_execute(old(task)@.item.kind, content@),
            ) && final(self)@ == old(self)@.release(old(task)@.policy.spec_site()),
            !done ==> final(task)@ == old(task)@ && final(self)@ == old(self)@,
    {
        if !task.is_running() {
            return false;
        }
        let response = execute(&task.item, content);
        task.result.finish(response);
        self.release(task.policy);
        true
    }

    /// Records that the thread or task behind `task` ended abnormally. The
    /// caller of `task`, and nobody else, will see a join failure; a thread
    /// that `task` held is free again. Returns whether `task` was still open.
    pub fn crash(&mut self, task: &mut Task) -> (was_open: bool)
        requires
            old(self).wf(),
        ensures
            final(self).wf(),
            was_open == (old(task)@.stage is Pending || old(task)@.stage is Running),
            final(task)@.item == old(task)@.item,
            final(task)@.policy == old(task)@.policy,
            final(task)@.stage == old(task)@.stage.next(Step::Abort),
            old(task)@.stage is Running ==> final(self)@ == old(self)@.release(
                old(task)@.policy.spec_site(),
            ),
            !(old(task)@.stage is Running) ==> final(self)@ == old(self)@,
    {
        let held_thread = task.is_running();
        let was_open = task.result.abort();
        if held_thread {
            self.release(task.policy);
        }
        was_open
    }
}

/// The stage of a task after an attempt to take it up.
pub open spec fn placed(admission: Admission) -> StageView {
    match admission {
        Admission::Admitted(_) => StageView::Running,
        Admission::Starved => StageView::Pending,
        Admission::Refused => StageView::Failed(DispatchError::CapacityExhaustion),
    }
}

} // verus!
