use slow_axum::error::{DispatchError, Reach, ServiceError};
use slow_axum::policy::DispatchPolicy;
use slow_axum::timeline::{Served, Timeline};
use slow_axum::work::WorkKind;

#[test]
fn there_is_no_timeline_without_a_driver_thread() {
    assert!(Timeline::new(0).is_none());
    let timeline = Timeline::new(3).expect("a driver thread");
    assert_eq!(timeline.drivers(), 3);
    assert_eq!(timeline.earliest(), 0);
}

#[test]
fn slow_work_takes_five_seconds_under_every_policy() {
    for policy in [
        DispatchPolicy::Inline,
        DispatchPolicy::PooledBlocking,
        DispatchPolicy::RescheduledTask,
    ] {
        let mut timeline = Timeline::new(1).expect("a driver thread");
        assert_eq!(
            timeline.arrive(7, policy, WorkKind::Slow),
            Some(Served { started: 7, finished: 12 })
        );
    }
}

#[test]
fn cheap_work_ends_when_it_starts() {
    let mut timeline = Timeline::new(1).expect("a driver thread");
    assert_eq!(
        timeline.arrive(3, DispatchPolicy::Inline, WorkKind::Static),
        Some(Served { started: 3, finished: 3 })
    );
    assert_eq!(timeline.earliest(), 3);
}

#[test]
fn inline_work_delays_the_page_until_a_driver_is_free() {
    let mut timeline = Timeline::new(2).expect("a driver thread");
    assert_eq!(
        timeline.arrive(0, DispatchPolicy::Inline, WorkKind::Slow),
        Some(Served { started: 0, finished: 5 })
    );
    assert_eq!(
        timeline.arrive(1, DispatchPolicy::Inline, WorkKind::Static),
        Some(Served { started: 1, finished: 1 })
    );
    assert_eq!(
        timeline.arrive(1, DispatchPolicy::Inline, WorkKind::Slow),
        Some(Served { started: 1, finished: 6 })
    );
    assert_eq!(timeline.earliest(), 5);
    assert_eq!(
        timeline.arrive(2, DispatchPolicy::Inline, WorkKind::Static),
        Some(Served { started: 5, finished: 5 })
    );
}

#[test]
fn the_delay_grows_with_the_contention_for_drivers() {
    let mut timeline = Timeline::new(2).expect("a driver thread");
    let mut finished = Vec::new();
    for _ in 0..4 {
        let served = timeline.arrive(0, DispatchPolicy::RescheduledTask, WorkKind::Slow);
        finished.push(served.expect("within the clock").finished);
    }
    assert_eq!(finished, vec![5, 5, 10, 10]);
    assert_eq!(
        timeline.arrive(0, DispatchPolicy::RescheduledTask, WorkKind::Static),
        Some(Served { started: 10, finished: 10 })
    );
}

#[test]
fn pooled_work_never_delays_the_page() {
    let mut timeline = Timeline::new(2).expect("a driver thread");
    for in_flight in 0..1000u64 {
        assert_eq!(
            timeline.arrive(in_flight / 100, DispatchPolicy::PooledBlocking, WorkKind::Slow),
            Some(Served { started: in_flight / 100, finished: in_flight / 100 + 5 })
        );
        assert_eq!(
            timeline.arrive(in_flight / 100, DispatchPolicy::PooledBlocking, WorkKind::Static),
            Some(Served { started: in_flight / 100, finished: in_flight / 100 })
        );
    }
    assert_eq!(timeline.earliest(), 0);
}

#[test]
fn a_pooled_request_still_waits_for_a_driver_that_inline_work_holds() {
    let mut timeline = Timeline::new(1).expect("a driver thread");
    timeline.arrive(0, DispatchPolicy::Inline, WorkKind::Slow);
    assert_eq!(
        timeline.arrive(2, DispatchPolicy::PooledBlocking, WorkKind::Slow),
        Some(Served { started: 5, finished: 10 })
    );
    assert_eq!(
        timeline.arrive(2, DispatchPolicy::PooledBlocking, WorkKind::Static),
        Some(Served { started: 5, finished: 5 })
    );
}

#[test]
fn work_beyond_the_end_of_the_clock_is_not_taken_up() {
    let mut timeline = Timeline::new(1).expect("a driver thread");
    assert_eq!(timeline.arrive(u64::MAX - 4, DispatchPolicy::Inline, WorkKind::Slow), None);
    assert_eq!(timeline.earliest(), 0);
    assert_eq!(
        timeline.arrive(u64::MAX - 5, DispatchPolicy::Inline, WorkKind::Slow),
        Some(Served { started: u64::MAX - 5, finished: u64::MAX })
    );
    assert_eq!(timeline.arrive(0, DispatchPolicy::Inline, WorkKind::Slow), None);
    assert_eq!(
        timeline.arrive(0, DispatchPolicy::Inline, WorkKind::Static),
        Some(Served { started: u64::MAX, finished: u64::MAX })
    );
}

#[test]
fn only_a_failed_bind_ends_the_process() {
    assert_eq!(ServiceError::BindFailure.reach(), Reach::Process);
    assert_eq!(ServiceError::Dispatch(DispatchError::JoinFailure).reach(), Reach::Request);
    assert_eq!(ServiceError::Dispatch(DispatchError::CapacityExhaustion).reach(), Reach::Request);
}
