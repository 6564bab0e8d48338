//! When requests start and end, in whole seconds of a logical clock.
//!
//! Each driver thread has a time from which it is free. A request is taken
//! up by the driver thread that is free first. Work that runs on a driver
//! thread holds it until the work ends; work that is handed to the blocking
//! executor gives the driver thread back at once.

use vstd::prelude::*;
use crate::policy::DispatchPolicy;
use crate::work::WorkKind;

verus! {

/// The place of the first of the smallest among the first `upto` times.
pub open spec fn first_free(free_at: Seq<u64>, upto: int) -> int
    decreases upto,
{
    if upto <= 1 {
        0
    } else {
        let before = first_free(free_at, upto - 1);
        if free_at[upto - 1] < free_at[before] {
            upto - 1
        } else {
            before
        }
    }
}

/// The time from which a driver thread is free.
pub open spec fn earliest(free_at: Seq<u64>) -> int {
    free_at[first_free(free_at, free_at.len() as int)] as int
}

/// When a request that arrives at `now` is taken up: at once if a driver
/// thread is free, else as soon as the first one is.
pub open spec fn spec_started(free_at: Seq<u64>, now: u64) -> int {
    if earliest(free_at) <= now {
        now as int
    } else {
        earliest(free_at)
    }
}

/// When the work of a request that arrives at `now` ends.
pub open spec fn spec_finished(free_at: Seq<u64>, now: u64, kind: WorkKind) -> int {
    spec_started(free_at, now) + kind.spec_blocking_secs()
}

/// The times after a request has arrived at `now`. Work on a driver thread
/// holds the thread that took the request up until the work ends. A request
/// whose end the clock cannot hold is not taken up.
pub open spec fn spec_arrive(
    free_at: Seq<u64>,
    now: u64,
    policy: DispatchPolicy,
    kind: WorkKind,
) -> Seq<u64> {
    if spec_finished(free_at, now, kind) > u64::MAX {
        free_at
    } else if policy.spec_holds_driver() {
        free_at.update(
            first_free(free_at, free_at.len() as int),
            spec_finished(free_at, now, kind) as u64,
        )
    } else {
        free_at
    }
}

/// `count` requests of kind `kind` that all arrive at `now` under `policy`.
pub open spec fn spec_burst(
    free_at: Seq<u64>,
    now: u64,
    policy: DispatchPolicy,
    kind: WorkKind,
    count: nat,
) -> Seq<u64>
    decreases count,
{
    if count == 0 {
        free_at
    } else {
        spec_arrive(spec_burst(free_at, now, policy, kind, (count - 1) as nat), now, policy, kind)
    }
}

/// How many of the times lie after `now`: how many driver threads are held
/// at `now`.
pub open spec fn held_at(free_at: Seq<u64>, now: u64) -> nat
    decreases free_at.len(),
{
    if free_at.len() == 0 {
        0
    } else {
        let last: nat = if free_at.last() > now {
            1
        } else {
            0
        };
        held_at(free_at.drop_last(), now) + last
    }
}

/// The first of the smallest times is a place among the first `upto`, and
/// no time among them is smaller.
pub proof fn lemma_first_free(free_at: Seq<u64>, upto: int)
    requires
        1 <= upto <= free_at.len(),
    ensures
        0 <= first_free(free_at, upto) < upto,
        forall|j: int| 0 <= j < upto ==> free_at[first_free(free_at, upto)] <= #[trigger] free_at[j],
    decreases upto,
{
    if upto > 1 {
        lemma_first_free(free_at, upto - 1);
    }
}

/// No more driver threads are held than there are; and when all are held,
/// each time lies after `now`.
pub proof fn lemma_held_at_bounds(free_at: Seq<u64>, now: u64)
    ensures
        held_at(free_at, now) <= free_at.len(),
        held_at(free_at, now) == free_at.len() ==> forall|i: int|
            0 <= i < free_at.len() ==> #[trigger] free_at[i] > now,
    decreases free_at.len(),
{
    if free_at.len() > 0 {
        lemma_held_at_bounds(free_at.drop_last(), now);
        if held_at(free_at, now) == free_at.len() {
            assert forall|i: int| 0 <= i < free_at.len() implies #[trigger] free_at[i] > now by {
                if i < free_at.len() - 1 {
                    assert(free_at.drop_last()[i] == free_at[i]);
                }
            }
        }
    }
}

/// Moving one time changes the count of held driver threads by that one.
pub proof fn lemma_held_at_update(free_at: Seq<u64>, at: int, time: u64, now: u64)
    requires
        0 <= at < free_at.len(),
    ensures
        held_at(free_at.update(at, time), now) + (if free_at[at] > now {
            1nat
        } else {
            0nat
        }) == held_at(free_at, now) + (if time > now {
            1nat
        } else {
            0nat
        }),
    decreases free_at.len(),
{
    if at == free_at.len() - 1 {
        assert(free_at.update(at, time).drop_last() =~= free_at.drop_last());
    } else {
        assert(free_at.update(at, time).drop_last() =~= free_at.drop_last().update(at, time));
        lemma_held_at_update(free_at.drop_last(), at, time, now);
    }
}

/// No request ends before its work is done: from its arrival to its end at
/// least the blocking time of its kind goes by, five seconds for slow work.
pub proof fn lemma_latency_at_least_the_delay(free_at: Seq<u64>, now: u64, kind: WorkKind)
    ensures
        spec_started(free_at, now) >= now,
        spec_finished(free_at, now, kind) - now >= kind.spec_blocking_secs(),
        kind == WorkKind::Slow ==> spec_finished(free_at, now, kind) - now >= 5,
{
}

/// While a driver thread is free, a request is taken up the moment it
/// arrives.
pub proof fn lemma_free_driver_means_no_wait(free_at: Seq<u64>, now: u64, free: int)
    requires
        0 <= free < free_at.len(),
        free_at[free] <= now,
    ensures
        spec_started(free_at, now) == now,
{
    lemma_first_free(free_at, free_at.len() as int);
}

/// While every driver thread is held until `until`, a request that arrives
/// before then waits until then at least.
pub proof fn lemma_held_drivers_mean_waiting(free_at: Seq<u64>, now: u64, until: u64)
    requires
        free_at.len() >= 1,
        forall|i: int| 0 <= i < free_at.len() ==> #[trigger] free_at[i] >= until,
    ensures
        spec_started(free_at, now) >= until,
        spec_started(free_at, now) - now >= until - now,
{
    lemma_first_free(free_at, free_at.len() as int);
}

/// Work that is handed to the blocking executor never delays a request:
/// however many such requests arrive, no driver thread is held any longer
/// than before.
pub proof fn lemma_offloaded_burst_changes_nothing(
    free_at: Seq<u64>,
    now: u64,
    policy: DispatchPolicy,
    kind: WorkKind,
    count: nat,
)
    requires
        !policy.spec_holds_driver(),
    ensures
        spec_burst(free_at, now, policy, kind, count) == free_at,
    decreases count,
{
    if count > 0 {
        lemma_offloaded_burst_changes_nothing(free_at, now, policy, kind, (count - 1) as nat);
    }
}

/// Under `PooledBlocking`, a request for the page is taken up the moment it
/// arrives, however many slow requests are in flight.
pub proof fn lemma_pooled_load_does_not_delay(
    free_at: Seq<u64>,
    began: u64,
    in_flight: nat,
    now: u64,
    free: int,
)
    requires
        0 <= free < free_at.len(),
        free_at[free] <= now,
    ensures
        spec_started(
            spec_burst(free_at, began, DispatchPolicy::PooledBlocking, WorkKind::Slow, in_flight),
            now,
        ) == now,
        spec_finished(
            spec_burst(free_at, began, DispatchPolicy::PooledBlocking, WorkKind::Slow, in_flight),
            now,
            WorkKind::Static,
        ) == now,
{
    lemma_offloaded_burst_changes_nothing(
        free_at,
        began,
        DispatchPolicy::PooledBlocking,
        WorkKind::Slow,
        in_flight,
    );
    lemma_free_driver_means_no_wait(free_at, now, free);
}

/// Slow work on driver threads takes them away one by one. After `count`
/// slow requests have arrived at `began` on idle driver threads, under a
/// policy that runs them there, `count` driver threads are held until the
/// work ends, and the others are as they were.
pub proof fn lemma_driver_bound_burst_holds_drivers(
    free_at: Seq<u64>,
    began: u64,
    policy: DispatchPolicy,
    count: nat,
)
    requires
        policy.spec_holds_driver(),
        began + 5 <= u64::MAX,
        count <= free_at.len(),
        forall|i: int| 0 <= i < free_at.len() ==> #[trigger] free_at[i] <= began,
    ensures
        spec_burst(free_at, began, policy, WorkKind::Slow, count).len() == free_at.len(),
        held_at(spec_burst(free_at, began, policy, WorkKind::Slow, count), began) == count,
        forall|i: int|
            0 <= i < free_at.len() ==> {
                let time = #[trigger] spec_burst(free_at, began, policy, WorkKind::Slow, count)[i];
                time == free_at[i] || time == began + 5
            },
    decreases count,
{
    if count == 0 {
        lemma_idle_holds_nothing(free_at, began);
    } else {
        let before = spec_burst(free_at, began, policy, WorkKind::Slow, (count - 1) as nat);
        lemma_driver_bound_burst_holds_drivers(free_at, began, policy, (count - 1) as nat);
        lemma_first_free(before, before.len() as int);
        lemma_held_at_bounds(before, began);
        let first = first_free(before, before.len() as int);
        assert(before[first] <= began) by {
            if before[first] > began {
                assert forall|j: int| 0 <= j < before.len() implies #[trigger] before[j]
                    > began by {}
                lemma_all_held(before, began);
            }
        }
        lemma_held_at_update(before, first, (began + 5) as u64, began);
    }
}

/// Where no time lies after `now`, no driver thread is held.
pub proof fn lemma_idle_holds_nothing(free_at: Seq<u64>, now: u64)
    requires
        forall|i: int| 0 <= i < free_at.len() ==> #[trigger] free_at[i] <= now,
    ensures
        held_at(free_at, now) == 0,
    decreases free_at.len(),
{
    if free_at.len() > 0 {
        assert(free_at.last() == free_at[free_at.len() - 1]);
        assert forall|i: int| 0 <= i < free_at.drop_last().len() implies #[trigger] free_at.drop_last()[i]
            <= now by {
            assert(free_at.drop_last()[i] == free_at[i]);
        }
        lemma_idle_holds_nothing(free_at.drop_last(), now);
    }
}

/// Where every time lies after `now`, every driver thread is held.
pub proof fn lemma_all_held(free_at: Seq<u64>, now: u64)
    requires
        forall|i: int| 0 <= i < free_at.len() ==> #[trigger] free_at[i] > now,
    ensures
        held_at(free_at, now) == free_at.len(),
    decreases free_at.len(),
{
    if free_at.len() > 0 {
        assert(free_at.last() == free_at[free_at.len() - 1]);
        assert forall|i: int| 0 <= i < free_at.drop_last().len() implies #[trigger] free_at.drop_last()[i]
            > now by {
            assert(free_at.drop_last()[i] == free_at[i]);
        }
        lemma_all_held(free_at.drop_last(), now);
    }
}

/// Under `Inline` and under `RescheduledTask` alike, slow requests delay the
/// page: once as many of them have arrived as there are driver threads, a
/// request that arrives while they run is not taken up before they end,
/// five seconds after they began.
pub proof fn lemma_driver_bound_load_delays(
    free_at: Seq<u64>,
    began: u64,
    policy: DispatchPolicy,
    now: u64,
)
    requires
        policy.spec_holds_driver(),
        free_at.len() >= 1,
        began + 5 <= u64::MAX,
        forall|i: int| 0 <= i < free_at.len() ==> #[trigger] free_at[i] <= began,
        began <= now <= began + 5,
    ensures
        spec_started(spec_burst(free_at, began, policy, WorkKind::Slow, free_at.len()), now)
            == began + 5,
        spec_finished(
            spec_burst(free_at, began, policy, WorkKind::Slow, free_at.len()),
            now,
            WorkKind::Static,
        ) - now == began + 5 - now,
{
    let after = spec_burst(free_at, began, policy, WorkKind::Slow, free_at.len());
    lemma_driver_bound_burst_holds_drivers(free_at, began, policy, free_at.len());
    lemma_held_at_bounds(after, began);
    lemma_first_free(after, after.len() as int);
    let first = first_free(after, after.len() as int);
    assert(after[first] > began);
    assert(after[first] == began + 5);
}

/// An arrival never frees a driver thread: no time moves back.
pub proof fn lemma_arrival_never_frees(
    free_at: Seq<u64>,
    now: u64,
    policy: DispatchPolicy,
    kind: WorkKind,
)
    requires
        free_at.len() >= 1,
    ensures
        spec_arrive(free_at, now, policy, kind).len() == free_at.len(),
        forall|i: int|
            0 <= i < free_at.len() ==> #[trigger] spec_arrive(free_at, now, policy, kind)[i]
                >= free_at[i],
{
    lemma_first_free(free_at, free_at.len() as int);
}

/// The delay grows with the load and never shrinks: with at least as many
/// slow requests in flight as there are driver threads, under a policy that
/// runs them there, a request that arrives while the first of them run is
/// not taken up before they end. With more of them in flight it may wait
/// longer, and never less.
pub proof fn lemma_more_load_delays_no_less(
    free_at: Seq<u64>,
    began: u64,
    policy: DispatchPolicy,
    count: nat,
    now: u64,
)
    requires
        policy.spec_holds_driver(),
        free_at.len() >= 1,
        began + 5 <= u64::MAX,
        forall|i: int| 0 <= i < free_at.len() ==> #[trigger] free_at[i] <= began,
        count >= free_at.len(),
    ensures
        spec_burst(free_at, began, policy, WorkKind::Slow, count).len() == free_at.len(),
        forall|i: int|
            0 <= i < free_at.len() ==> #[trigger] spec_burst(
                free_at,
                began,
                policy,
                WorkKind::Slow,
                count,
            )[i] >= began + 5,
        spec_started(spec_burst(free_at, began, policy, WorkKind::Slow, count), now) >= began + 5,
    decreases count,
{
    let after = spec_burst(free_at, began, policy, WorkKind::Slow, count);
    if count == free_at.len() {
        lemma_driver_bound_burst_holds_drivers(free_at, began, policy, count);
        lemma_held_at_bounds(after, began);
    } else {
        let before = spec_burst(free_at, began, policy, WorkKind::Slow, (count - 1) as nat);
        lemma_more_load_delays_no_less(free_at, began, policy, (count - 1) as nat, now);
        lemma_arrival_never_frees(before, began, policy, WorkKind::Slow);
    }
    lemma_held_drivers_mean_waiting(after, now, (began + 5) as u64);
}

/// When one request was taken up and when its work ended.
#[derive(Clone, Copy, Debug, PartialEq, Eq, Structural)]
pub struct Served {
    pub started: u64,
    pub finished: u64,
}

/// The driver threads on the logical clock: for each, the time from which
/// it is free.
pub struct Timeline {
    free_at: Vec<u64>,
}

impl View for Timeline {
    type V = Seq<u64>;

    closed spec fn view(&self) -> Seq<u64> {
        self.free_at@
    }
}

impl Timeline {
    /// The invariant of the type: there is a driver thread.
    pub open spec fn wf(&self) -> bool {
        self@.len() >= 1
    }

    /// `drivers` driver threads, all free from time zero on. There is no
    /// timeline without a driver thread.
    pub fn new(drivers: usize) -> (made: Option<Timeline>)
        ensures
            made is Some <==> drivers >= 1,
            made matches Some(timeline) ==> timeline.wf() && timeline@ == Seq::new(
                drivers as nat,
                |i: int| 0u64,
            ),
    {
        if drivers == 0 {
            return None;
        }
        let mut free_at: Vec<u64> = Vec::new();
        let mut i: usize = 0;
        while i < drivers
            invariant
                i <= drivers,
                free_at@ == Seq::new(i as nat, |j: int| 0u64),
            decreases drivers - i,
        {
            free_at.push(0);
            i += 1;
            assert(free_at@ =~= Seq::new(i as nat, |j: int| 0u64));
        }
        Some(Timeline { free_at })
    }

    /// The number of driver threads.
    pub fn drivers(&self) -> (count: usize)
        ensures
            count == self@.len(),
    {
        self.free_at.len()
    }

    /// The place of the driver thread that is free first.
    fn first_free(&self) -> (first: usize)
        requires
            self.wf(),
        ensures
            first == first_free(self@, self@.len() as int),
            first < self@.len(),
    {
        let mut first: usize = 0;
        let mut i: usize = 1;
        while i < self.free_at.len()
            invariant
                1 <= i <= self.free_at.len(),
                first == first_free(self.free_at@, i as int),
                first < i,
            decreases self.free_at.len() - i,
        {
            if self.free_at[i] < self.free_at[first] {
                first = i;
            }
            i += 1;
        }
        first
    }

    /// The time from which a driver thread is free.
    pub fn earliest(&self) -> (time: u64)
        requires
            self.wf(),
        ensures
            time == earliest(self@),
    {
        let first: usize = self.first_free();
        self.free_at[first]
    }

    /// Takes a request of kind `kind` that arrives at `now` under `policy`,
    /// and says when it was taken up and when its work ended. The answer is
    /// `None`, and nothing changes, only if the end lies beyond what the
    /// clock can hold.
    pub fn arrive(&mut self, now: u64, policy: DispatchPolicy, kind: WorkKind) -> (served: Option<
        Served,
    >)
        requires
            old(self).wf(),
        ensures
            final(self).wf(),
            final(self)@ == spec_arrive(old(self)@, now, policy, kind),
            served is Some <==> spec_finished(old(self)@, now, kind) <= u64::MAX,
            served matches Some(times) ==> times.started == spec_started(old(self)@, now)
                && times.finished == spec_finished(old(self)@, now, kind),
    {
        let first: usize = self.first_free();
        let free: u64 = self.free_at[first];
        let started: u64 = if free <= now {
            now
        } else {
            free
        };
        match started.checked_add(kind.blocking_secs()) {
            None => None,
            Some(finished) => {
                if policy.holds_driver() {
                    self.free_at.set(first, finished);
                }
                Some(Served { started, finished })
            },
        }
    }
}

} // verus!
