use std::sync::Arc;
use std::time::{Duration, Instant};

use slow_axum::content::{serve_main, Response, StaticContent};
use slow_axum::dispatch::{conclude, Report};
use slow_axum::error::DispatchError;
use slow_axum::handoff::Outcome;
use slow_axum::join::join_report;
use slow_axum::policy::DispatchPolicy;
use slow_axum::router::Method;
use slow_axum::service::{serve_blocking, serve_nonblocking, serve_spawning, Resolution, Service};
use slow_axum::work::{execute, WorkItem};
use tokio::runtime::{Builder, Handle, Runtime};

fn sample() -> StaticContent {
    StaticContent::new(b"page".to_vec(), b"image".to_vec())
}

fn runtime() -> Runtime {
    Builder::new_current_thread().build().expect("a runtime")
}

/// Holds the calling thread for `secs` seconds without yielding.
fn block_for(secs: u64) {
    let until = Instant::now() + Duration::from_secs(secs);
    while Instant::now() < until {
        std::hint::spin_loop();
    }
}

fn run(item: &WorkItem, content: &StaticContent) -> Response {
    block_for(item.kind.blocking_secs());
    execute(item, content)
}

/// Serves one request as the service says, on the runtime behind `handle`.
async fn answer(
    handle: Handle,
    service: Arc<Service>,
    content: Arc<StaticContent>,
    path: &'static [u8],
) -> Outcome {
    match service.resolve(Method::Get, path) {
        Resolution::Dispatch(policy, item) => {
            let report = match policy {
                DispatchPolicy::Inline => Report::Returned(run(&item, &content)),
                DispatchPolicy::PooledBlocking => {
                    join_report(handle.spawn_blocking(move || run(&item, &content)).await)
                }
                DispatchPolicy::RescheduledTask => {
                    join_report(handle.spawn(async move { run(&item, &content) }).await)
                }
            };
            conclude(report)
        }
        other => panic!("{:?}", other),
    }
}

/// Issues a slow request and then a request for the page, and returns how
/// long each took.
fn latencies(service: Service) -> (Duration, Duration) {
    let runtime = runtime();
    let handle = runtime.handle().clone();
    let service = Arc::new(service);
    let content = Arc::new(sample());
    runtime.block_on(async move {
        let began = Instant::now();
        let slow = tokio::spawn(answer(
            handle.clone(),
            service.clone(),
            content.clone(),
            b"/stateless/slow",
        ));
        let quick = tokio::spawn(answer(handle.clone(), service.clone(), content.clone(), b"/"));
        let page = quick.await.expect("joined").expect("a payload");
        let quick_latency = began.elapsed();
        assert_eq!(page.status, 200);
        assert_eq!(page.content_type, "text/html; charset=utf-8");
        assert_eq!(page.body, b"page".to_vec());
        let image = slow.await.expect("joined").expect("a payload");
        let slow_latency = began.elapsed();
        assert_eq!(image.status, 200);
        assert_eq!(image.content_type, "image/png");
        assert_eq!(image.body, b"image".to_vec());
        (quick_latency, slow_latency)
    })
}

#[test]
fn a_joined_payload_is_reported_as_returned() {
    let runtime = runtime();
    let content = sample();
    let joined = runtime.block_on(runtime.spawn_blocking(move || serve_main(&content)));
    match join_report(joined) {
        Report::Returned(response) => assert_eq!(response.body, b"page".to_vec()),
        other => panic!("{:?}", other),
    }
}

#[test]
fn a_panicked_worker_is_a_join_failure() {
    let runtime = runtime();
    let joined = runtime.block_on(runtime.spawn_blocking(|| -> Response { panic!("worker died") }));
    assert!(joined.as_ref().unwrap_err().is_panic());
    let report = join_report(joined);
    assert!(matches!(report, Report::Aborted));
    assert_eq!(conclude(report).unwrap_err(), DispatchError::JoinFailure);
}

#[test]
fn a_panicked_task_is_a_join_failure() {
    let runtime = runtime();
    let task = runtime.spawn(async {
        if true {
            panic!("task died");
        }
        serve_main(&sample())
    });
    let joined = runtime.block_on(task);
    assert_eq!(conclude(join_report(joined)).unwrap_err(), DispatchError::JoinFailure);
}

#[test]
fn a_cancelled_task_is_a_join_failure() {
    let runtime = runtime();
    let task = runtime.spawn(async {
        std::future::pending::<()>().await;
        serve_main(&sample())
    });
    task.abort();
    let joined = runtime.block_on(task);
    assert!(joined.as_ref().unwrap_err().is_cancelled());
    assert_eq!(conclude(join_report(joined)).unwrap_err(), DispatchError::JoinFailure);
}

#[test]
fn a_panicked_worker_fails_its_own_request_only() {
    let runtime = runtime();
    let content = Arc::new(sample());
    let healthy_content = content.clone();
    let (doomed, healthy) = runtime.block_on(async {
        let doomed = tokio::task::spawn_blocking(|| -> Response { panic!("worker died") });
        let healthy = tokio::task::spawn_blocking(move || serve_main(&healthy_content));
        (doomed.await, healthy.await)
    });
    assert_eq!(conclude(join_report(doomed)).unwrap_err(), DispatchError::JoinFailure);
    let page = conclude(join_report(healthy)).expect("a payload");
    assert_eq!(page.body, *content.page());
}

#[test]
fn the_pooled_service_answers_the_page_while_slow_work_is_in_flight() {
    let (quick, slow) = latencies(serve_nonblocking());
    assert!(quick < Duration::from_secs(1), "{:?}", quick);
    assert!(slow >= Duration::from_secs(5), "{:?}", slow);
}

#[test]
fn the_inline_service_delays_the_page_behind_slow_work() {
    let (quick, slow) = latencies(serve_blocking());
    assert!(quick >= Duration::from_secs(5), "{:?}", quick);
    assert!(slow >= Duration::from_secs(5), "{:?}", slow);
}

#[test]
fn the_spawning_service_delays_the_page_just_the_same() {
    let (quick, slow) = latencies(serve_spawning());
    assert!(quick >= Duration::from_secs(5), "{:?}", quick);
    assert!(slow >= Duration::from_secs(5), "{:?}", slow);
}
