//! Dispatch policies: where the work of a request runs.

use vstd::prelude::*;

verus! {

/// Where a work item runs and how its caller waits for it. A policy is chosen
/// for each route when the service is built and never changes afterwards.
#[derive(Clone, Copy, Debug, PartialEq, Eq, Structural)]
pub enum DispatchPolicy {
    /// Run the item on the calling thread. Nothing else that is bound to that
    /// thread makes progress until the item is done.
    Inline,
    /// Hand the item to the blocking executor and suspend the calling task
    /// until the result is there. The calling thread stays free.
    PooledBlocking,
    /// Hand the item to the cooperative scheduler as a task of its own and
    /// suspend the calling task. The new task still runs the item on a driver
    /// thread, so the hazard of `Inline` moves to that thread and stays.
    RescheduledTask,
}

/// The kind of thread that runs a work item.
#[derive(Clone, Copy, Debug, PartialEq, Eq, Structural)]
pub enum ExecutionSite {
    /// One of the fixed driver threads of the cooperative scheduler.
    DriverThread,
    /// A worker thread of the blocking executor.
    WorkerThread,
}

impl DispatchPolicy {
    /// The kind of thread on which the policy runs an item.
    pub open spec fn spec_site(self) -> ExecutionSite {
        match self {
            DispatchPolicy::Inline => ExecutionSite::DriverThread,
            DispatchPolicy::PooledBlocking => ExecutionSite::WorkerThread,
            DispatchPolicy::RescheduledTask => ExecutionSite::DriverThread,
        }
    }

    #[verifier::when_used_as_spec(spec_site)]
    pub fn site(self) -> (site: ExecutionSite)
        ensures
            site == self.spec_site(),
    {
        match self {
            DispatchPolicy::Inline => ExecutionSite::DriverThread,
            DispatchPolicy::PooledBlocking => ExecutionSite::WorkerThread,
            DispatchPolicy::RescheduledTask => ExecutionSite::DriverThread,
        }
    }

    /// Whether the calling task suspends while the item runs. Under `Inline`
    /// there is no suspension point.
    pub open spec fn spec_suspends_caller(self) -> bool {
        self != DispatchPolicy::Inline
    }

    #[verifier::when_used_as_spec(spec_suspends_caller)]
    pub fn suspends_caller(self) -> (suspends: bool)
        ensures
            suspends == self.spec_suspends_caller(),
    {
        match self {
            DispatchPolicy::Inline => false,
            _ => true,
        }
    }

    /// Whether an item holds a driver thread for as long as it runs.
    pub open spec fn spec_holds_driver(self) -> bool {
        self.spec_site() == ExecutionSite::DriverThread
    }

    #[verifier::when_used_as_spec(spec_holds_driver)]
    pub fn holds_driver(self) -> (holds: bool)
        ensures
            holds == self.spec_holds_driver(),
    {
        match self {
            DispatchPolicy::PooledBlocking => false,
            _ => true,
        }
    }

    /// Whether blocking work under this policy leaves every driver thread
    /// free. Only `PooledBlocking` does; `RescheduledTask` does not.
    pub open spec fn spec_is_starvation_free(self) -> bool {
        self == DispatchPolicy::PooledBlocking
    }

    #[verifier::when_used_as_spec(spec_is_starvation_free)]
    pub fn is_starvation_free(self) -> (free: bool)
        ensures
            free == self.spec_is_starvation_free(),
    {
        match self {
            DispatchPolicy::PooledBlocking => true,
            _ => false,
        }
    }

    /// Whether an item that has been submitted and has not started yet can
    /// still be withdrawn. Work that already holds a driver thread cannot be
    /// preempted, so neither `Inline` nor `RescheduledTask` offers this.
    pub open spec fn spec_can_cancel_before_start(self) -> bool {
        self == DispatchPolicy::PooledBlocking
    }

    #[verifier::when_used_as_spec(spec_can_cancel_before_start)]
    pub fn can_cancel_before_start(self) -> (can: bool)
        ensures
            can == self.spec_can_cancel_before_start(),
    {
        match self {
            DispatchPolicy::PooledBlocking => true,
            _ => false,
        }
    }
}

/// A policy is free of starvation exactly when it keeps blocking work off the
/// driver threads.
pub proof fn lemma_starvation_free_iff_off_driver(policy: DispatchPolicy)
    ensures
        policy.spec_is_starvation_free() <==> !policy.spec_holds_driver(),
        policy.spec_is_starvation_free() <==> policy.spec_site() == ExecutionSite::WorkerThread,
{
}

} // verus!
