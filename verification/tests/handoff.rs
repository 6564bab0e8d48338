use slow_axum::content::{serve_main, serve_sleepy, StaticContent};
use slow_axum::dispatch::{conclude, Report};
use slow_axum::error::DispatchError;
use slow_axum::handoff::PendingResult;

fn sample() -> StaticContent {
    StaticContent::new(b"page".to_vec(), b"image".to_vec())
}

#[test]
fn a_payload_is_delivered_exactly_once() {
    let mut pending = PendingResult::new();
    assert!(pending.poll().is_none());
    assert!(pending.start());
    assert!(pending.is_running());
    assert!(pending.poll().is_none());
    assert!(pending.finish(serve_main(&sample())));
    assert!(pending.is_settled());
    let seen = pending.poll().expect("an outcome waits").expect("a payload");
    assert_eq!(seen.body, b"page".to_vec());
    assert!(pending.is_delivered());
    assert!(pending.poll().is_none());
    assert!(pending.poll().is_none());
}

#[test]
fn an_abnormal_end_is_a_join_failure() {
    let mut pending = PendingResult::new();
    assert!(pending.start());
    assert!(pending.abort());
    assert_eq!(pending.poll().expect("an outcome waits").unwrap_err(), DispatchError::JoinFailure);
    assert!(pending.poll().is_none());
}

#[test]
fn an_end_before_the_start_is_a_join_failure() {
    let mut pending = PendingResult::new();
    assert!(pending.abort());
    assert_eq!(pending.poll().expect("an outcome waits").unwrap_err(), DispatchError::JoinFailure);
}

#[test]
fn a_refusal_is_a_lack_of_capacity() {
    let mut pending = PendingResult::new();
    assert!(pending.refuse());
    assert_eq!(
        pending.poll().expect("an outcome waits").unwrap_err(),
        DispatchError::CapacityExhaustion
    );
    assert!(pending.poll().is_none());
}

#[test]
fn a_payload_cannot_come_from_an_item_that_never_ran() {
    let mut pending = PendingResult::new();
    assert!(!pending.finish(serve_main(&sample())));
    assert!(!pending.is_settled());
    assert!(pending.poll().is_none());
}

#[test]
fn a_running_item_cannot_be_refused_or_started_again() {
    let mut pending = PendingResult::new();
    assert!(pending.start());
    assert!(!pending.start());
    assert!(!pending.refuse());
    assert!(pending.is_running());
}

#[test]
fn the_first_outcome_is_final() {
    let content = sample();
    let mut pending = PendingResult::new();
    assert!(pending.start());
    assert!(pending.finish(serve_main(&content)));
    assert!(!pending.finish(serve_sleepy(&content)));
    assert!(!pending.abort());
    assert!(!pending.refuse());
    assert!(!pending.start());
    let seen = pending.poll().expect("an outcome waits").expect("the first payload");
    assert_eq!(seen.content_type, "text/html; charset=utf-8");
    assert_eq!(seen.body, b"page".to_vec());
}

#[test]
fn a_failure_is_not_replaced_by_a_late_payload() {
    let mut pending = PendingResult::new();
    assert!(pending.start());
    assert!(pending.abort());
    assert!(!pending.finish(serve_main(&sample())));
    assert_eq!(pending.poll().expect("an outcome waits").unwrap_err(), DispatchError::JoinFailure);
}

#[test]
fn nothing_follows_the_delivery() {
    let mut pending = PendingResult::new();
    assert!(pending.start());
    assert!(pending.finish(serve_main(&sample())));
    assert!(pending.poll().is_some());
    assert!(!pending.start());
    assert!(!pending.finish(serve_main(&sample())));
    assert!(!pending.abort());
    assert!(!pending.refuse());
    assert!(pending.is_delivered());
    assert!(!pending.is_settled());
    assert!(pending.poll().is_none());
}

#[test]
fn a_returned_payload_is_concluded_as_it_is() {
    let outcome = conclude(Report::Returned(serve_sleepy(&sample())));
    let response = outcome.expect("a payload");
    assert_eq!(response.status, 200);
    assert_eq!(response.content_type, "image/png");
    assert_eq!(response.body, b"image".to_vec());
}

#[test]
fn an_aborted_item_is_concluded_as_a_join_failure() {
    assert_eq!(conclude(Report::Aborted).unwrap_err(), DispatchError::JoinFailure);
}

#[test]
fn a_refused_item_is_concluded_as_a_lack_of_capacity() {
    assert_eq!(conclude(Report::Refused).unwrap_err(), DispatchError::CapacityExhaustion);
}

#[test]
fn both_errors_are_faults_of_the_server() {
    assert_eq!(DispatchError::JoinFailure.status(), 500);
    assert_eq!(DispatchError::CapacityExhaustion.status(), 500);
    assert_ne!(DispatchError::JoinFailure, DispatchError::CapacityExhaustion);
}
