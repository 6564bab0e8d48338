//! A model of the two pools of threads: the fixed driver threads of the
//! cooperative scheduler and the worker threads of the blocking executor.
//!
//! The model counts which threads are held by work that does not yield. A
//! request can be taken up only while a driver thread is free, so the count
//! of held driver threads says whether the service still makes progress.

use vstd::prelude::*;
use crate::policy::{DispatchPolicy, ExecutionSite};

verus! {

/// What became of the attempt to run one work item.
#[derive(Clone, Copy, Debug, PartialEq, Eq, Structural)]
pub enum Admission {
    /// The item runs on a thread of the given kind and holds it until it is
    /// released.
    Admitted(ExecutionSite),
    /// Every driver thread is held by work that does not yield: nothing takes
    /// the request up until one of them is released.
    Starved,
    /// The blocking executor is at its limit and turned the item away.
    Refused,
}

/// The state of both pools: how many driver threads there are and how many
/// of them are held, how many worker threads the blocking executor may run
/// and how many of them are held.
pub ghost struct SchedulerView {
    pub drivers: nat,
    pub held: nat,
    pub worker_limit: nat,
    pub working: nat,
}

/// One thing that happens to the pools.
pub ghost enum Move {
    /// A request arrives and its item is dispatched under the given policy.
    Arrive(DispatchPolicy),
    /// An item that ran on a thread of the given kind is done.
    Release(ExecutionSite),
}

impl SchedulerView {
    /// There is a driver thread, and no pool holds more than it has.
    pub open spec fn wf(self) -> bool {
        &&& self.drivers >= 1
        &&& self.held <= self.drivers
        &&& self.working <= self.worker_limit
    }

    /// Whether a driver thread is free to take a request up.
    pub open spec fn has_free_driver(self) -> bool {
        self.held < self.drivers
    }

    /// What becomes of an item dispatched under `policy`.
    pub open spec fn admission(self, policy: DispatchPolicy) -> Admission {
        if !self.has_free_driver() {
            Admission::Starved
        } else if policy.spec_holds_driver() {
            Admission::Admitted(ExecutionSite::DriverThread)
        } else if self.working < self.worker_limit {
            Admission::Admitted(ExecutionSite::WorkerThread)
        } else {
            Admission::Refused
        }
    }

    /// The counts after a task has taken a driver thread, if one was free.
    pub open spec fn occupy_driver(self) -> SchedulerView {
        if self.held < self.drivers {
            SchedulerView { held: self.held + 1, ..self }
        } else {
            self
        }
    }

    /// The counts after the blocking executor has taken an item, if it had a
    /// thread left.
    pub open spec fn occupy_worker(self) -> SchedulerView {
        if self.working < self.worker_limit {
            SchedulerView { working: self.working + 1, ..self }
        } else {
            self
        }
    }

    /// The counts after an item was dispatched under `policy`. An item that
    /// is not admitted leaves them as they are.
    pub open spec fn arrive(self, policy: DispatchPolicy) -> SchedulerView {
        match self.admission(policy) {
            Admission::Admitted(ExecutionSite::DriverThread) => SchedulerView {
                held: self.held + 1,
                ..self
            },
            Admission::Admitted(ExecutionSite::WorkerThread) => SchedulerView {
                working: self.working + 1,
                ..self
            },
            _ => self,
        }
    }

    /// The counts after an item on a thread of kind `site` is done. Where no
    /// thread of that kind is held, nothing changes.
    pub open spec fn release(self, site: ExecutionSite) -> SchedulerView {
        match site {
            ExecutionSite::DriverThread => if self.held > 0 {
                SchedulerView { held: (self.held - 1) as nat, ..self }
            } else {
                self
            },
            ExecutionSite::WorkerThread => if self.working > 0 {
                SchedulerView { working: (self.working - 1) as nat, ..self }
            } else {
                self
            },
        }
    }

    /// The counts after `m`.
    pub open spec fn next(self, m: Move) -> SchedulerView {
        match m {
            Move::Arrive(policy) => self.arrive(policy),
            Move::Release(site) => self.release(site),
        }
    }

    /// The counts after all of `moves`, in order.
    pub open spec fn run(self, moves: Seq<Move>) -> SchedulerView
        decreases moves.len(),
    {
        if moves.len() == 0 {
            self
        } else {
            self.run(moves.drop_last()).next(moves.last())
        }
    }
}

} // verus!
