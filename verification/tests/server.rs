use slow_axum::content::StaticContent;
use slow_axum::error::DispatchError;
use slow_axum::policy::{DispatchPolicy, ExecutionSite};
use slow_axum::router::Method;
use slow_axum::runtime::{BlockingExecutor, CooperativeScheduler};
use slow_axum::scheduler::Admission;
use slow_axum::server::{Accepted, Reply, Server};
use slow_axum::service::{serve_blocking, serve_nonblocking, serve_spawning, Service};
use slow_axum::work::WorkItem;
use slow_axum::work::WorkKind;

fn server(service: Service, drivers: usize, workers: usize) -> Server {
    let scheduler =
        CooperativeScheduler::new(drivers, BlockingExecutor::new(workers)).expect("a driver thread");
    Server::new(service, scheduler, StaticContent::new(b"page".to_vec(), b"image".to_vec()))
        .expect("an idle scheduler")
}

fn ticket(accepted: Accepted) -> usize {
    match accepted {
        Accepted::Ticket(ticket) => ticket,
        other => panic!("{:?}", other),
    }
}

#[test]
fn a_server_wants_an_idle_scheduler() {
    let mut scheduler = CooperativeScheduler::new(2, BlockingExecutor::new(2)).expect("a driver thread");
    let _task = scheduler.spawn(WorkItem::new(WorkKind::Slow));
    let content = StaticContent::new(Vec::new(), Vec::new());
    assert!(Server::new(serve_blocking(), scheduler, content).is_none());
}

#[test]
fn tickets_are_given_in_order_of_arrival() {
    let mut server = server(serve_nonblocking(), 2, 8);
    assert_eq!(server.accepted(), 0);
    assert_eq!(server.accept(Method::Get, b"/"), Accepted::Ticket(0));
    assert_eq!(server.accept(Method::Get, b"/stateless/a"), Accepted::Ticket(1));
    assert_eq!(server.accept(Method::Get, b"/nowhere"), Accepted::NotFound);
    assert_eq!(server.accept(Method::Other, b"/"), Accepted::MethodNotAllowed);
    assert_eq!(server.accept(Method::Head, b"/stateful/b"), Accepted::Ticket(2));
    assert_eq!(server.accepted(), 3);
    assert_eq!(server.busy_workers(), 3);
    assert_eq!(server.held_drivers(), 0);
}

#[test]
fn each_request_gets_its_own_answer_once() {
    let mut server = server(serve_nonblocking(), 2, 8);
    let page = ticket(server.accept(Method::Get, b"/"));
    let image = ticket(server.accept(Method::Get, b"/stateless/x"));
    assert!(server.respond(page).is_none());
    assert!(server.finish(image));
    assert!(server.respond(page).is_none());
    let got = server.respond(image).expect("an outcome waits").expect("a payload");
    assert_eq!(got.status, 200);
    assert_eq!(got.content_type, "image/png");
    assert_eq!(got.body, b"image".to_vec());
    assert!(server.respond(image).is_none());
    assert!(server.finish(page));
    assert!(!server.finish(page));
    let got = server.respond(page).expect("an outcome waits").expect("a payload");
    assert_eq!(got.content_type, "text/html; charset=utf-8");
    assert_eq!(got.body, b"page".to_vec());
    assert!(server.respond(page).is_none());
    assert_eq!(server.busy_workers(), 0);
}

#[test]
fn a_crash_fails_one_request_and_no_other() {
    let mut server = server(serve_nonblocking(), 2, 8);
    let doomed = ticket(server.accept(Method::Get, b"/stateless/a"));
    let healthy = ticket(server.accept(Method::Get, b"/stateless/b"));
    assert!(server.crash(doomed));
    assert!(!server.crash(doomed));
    assert_eq!(server.busy_workers(), 1);
    assert!(server.finish(healthy));
    assert_eq!(
        server.respond(doomed).expect("an outcome waits").unwrap_err(),
        DispatchError::JoinFailure
    );
    assert_eq!(
        server.respond(healthy).expect("an outcome waits").expect("a payload").body,
        b"image".to_vec()
    );
    let after = ticket(server.accept(Method::Get, b"/"));
    assert!(server.finish(after));
    assert_eq!(server.respond(after).expect("an outcome waits").expect("a payload").status, 200);
}

#[test]
fn unknown_tickets_change_nothing() {
    let mut server = server(serve_blocking(), 1, 1);
    assert!(!server.finish(0));
    assert!(!server.crash(7));
    assert!(server.respond(3).is_none());
    assert_eq!(server.retry(0), None);
    assert_eq!(server.accepted(), 0);
    assert!(server.has_free_driver());
}

#[test]
fn the_pooled_server_answers_the_page_under_any_load() {
    let mut server = server(serve_nonblocking(), 2, 512);
    for in_flight in 1..=200 {
        ticket(server.accept(Method::Get, b"/stateless/slow"));
        assert_eq!(server.held_drivers(), 0);
        assert_eq!(server.busy_workers(), in_flight);
        assert!(server.has_free_driver());
        match server.handle(Method::Get, b"/") {
            Reply::Answered(Ok(page)) => {
                assert_eq!(page.status, 200);
                assert_eq!(page.content_type, "text/html; charset=utf-8");
                assert_eq!(page.cache_control, "no-cache");
                assert_eq!(page.body, b"page".to_vec());
            }
            other => panic!("{:?}", other),
        }
    }
}

#[test]
fn the_inline_server_starves_once_its_drivers_are_held() {
    let mut server = server(serve_blocking(), 2, 512);
    let first = ticket(server.accept(Method::Get, b"/stateless/slow"));
    assert!(matches!(server.handle(Method::Get, b"/"), Reply::Answered(Ok(_))));
    let _second = ticket(server.accept(Method::Get, b"/stateful/slow"));
    assert_eq!(server.held_drivers(), 2);
    assert!(!server.has_free_driver());
    let waiting = match server.handle(Method::Get, b"/") {
        Reply::Waiting(ticket) => ticket,
        other => panic!("{:?}", other),
    };
    assert_eq!(server.retry(waiting), Some(Admission::Starved));
    assert!(server.finish(first));
    assert_eq!(server.retry(waiting), Some(Admission::Admitted(ExecutionSite::DriverThread)));
    assert!(server.finish(waiting));
    let page = server.respond(waiting).expect("an outcome waits").expect("a payload");
    assert_eq!(page.body, b"page".to_vec());
}

#[test]
fn the_spawning_server_starves_like_the_inline_one() {
    let mut server = server(serve_spawning(), 1, 512);
    ticket(server.accept(Method::Get, b"/stateless/slow"));
    assert_eq!(server.held_drivers(), 1);
    assert_eq!(server.busy_workers(), 0);
    assert!(matches!(server.handle(Method::Get, b"/"), Reply::Waiting(1)));
    assert!(matches!(server.handle(Method::Get, b"/stateful/x"), Reply::Waiting(2)));
}

#[test]
fn a_full_pool_is_reported_and_not_dropped() {
    let mut server = server(serve_nonblocking(), 1, 2);
    ticket(server.accept(Method::Get, b"/stateless/a"));
    ticket(server.accept(Method::Get, b"/stateless/b"));
    match server.handle(Method::Get, b"/") {
        Reply::Answered(Err(error)) => {
            assert_eq!(error, DispatchError::CapacityExhaustion);
            assert_eq!(error.status(), 500);
        }
        other => panic!("{:?}", other),
    }
    assert_eq!(server.accepted(), 3);
    assert_eq!(server.busy_workers(), 2);
}

#[test]
fn handle_answers_unknown_requests_without_a_ticket() {
    let mut server = server(serve_nonblocking(), 1, 1);
    assert!(matches!(server.handle(Method::Get, b"/stateless/"), Reply::NotFound));
    assert!(matches!(server.handle(Method::Other, b"/stateful/a"), Reply::MethodNotAllowed));
    assert_eq!(server.accepted(), 0);
}

#[test]
fn a_mixed_service_holds_a_driver_only_for_its_inline_route() {
    let service = Service::new(
        DispatchPolicy::Inline,
        DispatchPolicy::PooledBlocking,
        DispatchPolicy::PooledBlocking,
    );
    let mut server = server(service, 1, 8);
    ticket(server.accept(Method::Get, b"/stateless/a"));
    assert_eq!((server.held_drivers(), server.busy_workers()), (0, 1));
    ticket(server.accept(Method::Get, b"/"));
    assert_eq!((server.held_drivers(), server.busy_workers()), (1, 1));
    assert!(matches!(server.handle(Method::Get, b"/stateful/b"), Reply::Waiting(2)));
}

#[test]
fn a_waiting_pooled_request_can_be_withdrawn() {
    let service = Service::new(
        DispatchPolicy::Inline,
        DispatchPolicy::PooledBlocking,
        DispatchPolicy::Inline,
    );
    let mut server = server(service, 1, 8);
    let holder = ticket(server.accept(Method::Get, b"/stateful/a"));
    let pooled = ticket(server.accept(Method::Get, b"/stateless/b"));
    let inline = ticket(server.accept(Method::Get, b"/"));
    assert!(!server.cancel(holder));
    assert!(!server.cancel(inline));
    assert!(server.cancel(pooled));
    assert!(!server.cancel(pooled));
    assert!(!server.cancel(99));
    assert_eq!(
        server.respond(pooled).expect("an outcome waits").unwrap_err(),
        DispatchError::JoinFailure
    );
    assert_eq!((server.held_drivers(), server.busy_workers()), (1, 0));
    assert!(server.finish(holder));
    assert_eq!(server.retry(inline), Some(Admission::Admitted(ExecutionSite::DriverThread)));
}
