//! Which policies keep the service alive under blocking work, and which do
//! not: what holds of every sequence of arrivals and releases.

use vstd::prelude::*;
use crate::policy::DispatchPolicy;
use crate::scheduler::{Admission, Move, SchedulerView};

verus! {

/// Every arrival among `moves` is dispatched under a policy that keeps its
/// work off the driver threads.
pub open spec fn all_offloaded(moves: Seq<Move>) -> bool {
    forall|i: int|
        0 <= i < moves.len() ==> (#[trigger] moves[i] matches Move::Arrive(policy)
            ==> policy.spec_is_starvation_free())
}

/// `count` arrivals under `policy`, none of them released.
pub open spec fn in_flight(policy: DispatchPolicy, count: nat) -> Seq<Move> {
    Seq::new(count, |i: int| Move::Arrive(policy))
}

/// The smaller of two numbers.
pub open spec fn smaller(a: nat, b: nat) -> nat {
    if a <= b {
        a
    } else {
        b
    }
}

/// No sequence of moves breaks the invariant of the pools or changes their
/// sizes.
pub proof fn lemma_run_keeps_wf(start: SchedulerView, moves: Seq<Move>)
    requires
        start.wf(),
    ensures
        start.run(moves).wf(),
        start.run(moves).drivers == start.drivers,
        start.run(moves).worker_limit == start.worker_limit,
    decreases moves.len(),
{
    if moves.len() > 0 {
        lemma_run_keeps_wf(start, moves.drop_last());
    }
}

/// An arrival that is not admitted leaves the pools as they were, and the
/// answer says why: the item is not dropped in silence.
pub proof fn lemma_turned_away_changes_nothing(pools: SchedulerView, policy: DispatchPolicy)
    requires
        pools.wf(),
    ensures
        !(pools.admission(policy) is Admitted) ==> pools.arrive(policy) == pools,
        pools.admission(policy) is Refused <==> !policy.spec_holds_driver()
            && pools.has_free_driver() && pools.working == pools.worker_limit,
        pools.admission(policy) is Starved <==> pools.held == pools.drivers,
{
}

/// Work that is handed to the blocking executor never takes a driver thread:
/// however many such items arrive, and in whatever order they arrive and
/// end, no more driver threads are held afterwards than before.
pub proof fn lemma_offloaded_work_holds_no_driver(start: SchedulerView, moves: Seq<Move>)
    requires
        start.wf(),
        all_offloaded(moves),
    ensures
        start.run(moves).held <= start.held,
    decreases moves.len(),
{
    if moves.len() > 0 {
        let earlier = moves.drop_last();
        assert forall|i: int| 0 <= i < earlier.len() implies (#[trigger] earlier[i] matches Move::Arrive(
            policy,
        ) ==> policy.spec_is_starvation_free()) by {
            assert(earlier[i] == moves[i]);
        }
        lemma_offloaded_work_holds_no_driver(start, earlier);
        lemma_run_keeps_wf(start, earlier);
        assert(moves.last() == moves[moves.len() - 1]);
    }
}

/// A service that dispatches all of its work to the blocking executor never
/// starves: after any sequence of arrivals and releases, of any length, a
/// driver thread is free, and the next request is taken up at once, whatever
/// its policy.
pub proof fn lemma_offloading_never_starves(
    start: SchedulerView,
    moves: Seq<Move>,
    next: DispatchPolicy,
)
    requires
        start.wf(),
        start.held == 0,
        all_offloaded(moves),
    ensures
        start.run(moves).held == 0,
        start.run(moves).has_free_driver(),
        !(start.run(moves).admission(next) is Starved),
{
    lemma_offloaded_work_holds_no_driver(start, moves);
    lemma_run_keeps_wf(start, moves);
}

/// With `count` items in flight under `policy` and none released, the pools
/// hold as many threads as the policy takes, up to what there is: driver
/// threads for a policy that runs work on them, worker threads otherwise.
pub proof fn lemma_in_flight_counts(start: SchedulerView, policy: DispatchPolicy, count: nat)
    requires
        start.wf(),
        start.held == 0,
        start.working == 0,
    ensures
        policy.spec_holds_driver() ==> start.run(in_flight(policy, count)).held == smaller(
            count,
            start.drivers,
        ) && start.run(in_flight(policy, count)).working == 0,
        !policy.spec_holds_driver() ==> start.run(in_flight(policy, count)).held == 0
            && start.run(in_flight(policy, count)).working == smaller(count, start.worker_limit),
    decreases count,
{
    if count > 0 {
        let fewer = (count - 1) as nat;
        lemma_in_flight_counts(start, policy, fewer);
        lemma_run_keeps_wf(start, in_flight(policy, fewer));
        assert(in_flight(policy, count).drop_last() =~= in_flight(policy, fewer));
        assert(in_flight(policy, count).last() == Move::Arrive(policy));
    }
}

/// The hazard of running blocking work on driver threads, under `Inline` and
/// under `RescheduledTask` alike: each item in flight takes one driver thread
/// away, and once as many are in flight as there are driver threads, no
/// request is taken up, not even a cheap one, until an item ends.
pub proof fn lemma_driver_bound_work_starves(
    start: SchedulerView,
    policy: DispatchPolicy,
    count: nat,
    next: DispatchPolicy,
)
    requires
        start.wf(),
        start.held == 0,
        start.working == 0,
        policy.spec_holds_driver(),
    ensures
        start.run(in_flight(policy, count)).drivers - start.run(in_flight(policy, count)).held
            == start.drivers - smaller(count, start.drivers),
        count >= start.drivers ==> start.run(in_flight(policy, count)).admission(next)
            is Starved,
        count < start.drivers ==> !(start.run(in_flight(policy, count)).admission(next)
            is Starved),
{
    lemma_in_flight_counts(start, policy, count);
    lemma_run_keeps_wf(start, in_flight(policy, count));
}

/// Under `PooledBlocking` the same load leaves every driver thread free: a
/// request is taken up at once however many slow items are in flight, and it
/// is admitted as long as the blocking executor has a thread left.
pub proof fn lemma_pooled_work_leaves_drivers_free(
    start: SchedulerView,
    count: nat,
    next: DispatchPolicy,
)
    requires
        start.wf(),
        start.held == 0,
        start.working == 0,
    ensures
        start.run(in_flight(DispatchPolicy::PooledBlocking, count)).held == 0,
        !(start.run(in_flight(DispatchPolicy::PooledBlocking, count)).admission(next)
            is Starved),
        next.spec_holds_driver() || count < start.worker_limit ==> start.run(
            in_flight(DispatchPolicy::PooledBlocking, count),
        ).admission(next) is Admitted,
{
    lemma_in_flight_counts(start, DispatchPolicy::PooledBlocking, count);
    lemma_run_keeps_wf(start, in_flight(DispatchPolicy::PooledBlocking, count));
}

/// When an item ends, the thread that it held is free again: an arrival
/// followed by the release of its thread leaves the pools as they were.
pub proof fn lemma_release_undoes_arrival(pools: SchedulerView, policy: DispatchPolicy)
    requires
        pools.wf(),
    ensures
        pools.admission(policy) matches Admission::Admitted(site) ==> pools.arrive(policy).release(
            site,
        ) == pools && site == policy.spec_site(),
{
}

} // verus!
