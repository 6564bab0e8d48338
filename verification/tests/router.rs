use slow_axum::policy::DispatchPolicy;
use slow_axum::router::{match_path, segment_after, Method, Route, SHARED_STATE, SLASH};
use slow_axum::router::{STATEFUL_PREFIX, STATELESS_PREFIX};
use slow_axum::service::{serve_blocking, serve_nonblocking, serve_spawning, Resolution, Service};
use slow_axum::work::WorkKind;

#[test]
fn the_constants_spell_the_paths() {
    assert_eq!(SLASH, b'/');
    assert_eq!(&STATELESS_PREFIX[..], b"/stateless/");
    assert_eq!(&STATEFUL_PREFIX[..], b"/stateful/");
    assert_eq!(&SHARED_STATE[..], b"nothing");
}

#[test]
fn the_root_is_the_main_route() {
    let matched = match_path(b"/").expect("a route");
    assert_eq!(matched.route, Route::Main);
    assert_eq!(matched.parameter, None);
}

#[test]
fn a_segment_under_stateless_matches() {
    let matched = match_path(b"/stateless/cat.png").expect("a route");
    assert_eq!(matched.route, Route::Stateless);
    assert_eq!(matched.parameter, Some(b"cat.png".to_vec()));
}

#[test]
fn a_segment_under_stateful_matches() {
    let matched = match_path(b"/stateful/7").expect("a route");
    assert_eq!(matched.route, Route::Stateful);
    assert_eq!(matched.parameter, Some(b"7".to_vec()));
}

#[test]
fn the_segment_is_taken_as_it_stands() {
    let matched = match_path(b"/stateless/a%2Fb%FF").expect("a route");
    assert_eq!(matched.parameter, Some(b"a%2Fb%FF".to_vec()));
    let matched = match_path(&[47, 115, 116, 97, 116, 101, 102, 117, 108, 47, 0xff, 0]).expect("a route");
    assert_eq!(matched.route, Route::Stateful);
    assert_eq!(matched.parameter, Some(vec![0xff, 0]));
}

#[test]
fn other_paths_have_no_route() {
    let paths: [&[u8]; 14] = [
        b"",
        b"//",
        b"/index.html",
        b"/stateless",
        b"/stateless/",
        b"/stateless/a/",
        b"/stateless/a/b",
        b"/stateless//",
        b"/stateful",
        b"/stateful/",
        b"/stateful/a/b",
        b"/Stateless/a",
        b"stateless/a",
        b"/statefull/a",
    ];
    for path in paths {
        assert!(match_path(path).is_none(), "{:?}", path);
    }
}

#[test]
fn segment_after_wants_exactly_one_segment() {
    assert_eq!(segment_after(b"/a/b", b"/a/"), Some(b"b".to_vec()));
    assert_eq!(segment_after(b"/a/", b"/a/"), None);
    assert_eq!(segment_after(b"/a", b"/a/"), None);
    assert_eq!(segment_after(b"/a/b/c", b"/a/"), None);
    assert_eq!(segment_after(b"/x/b", b"/a/"), None);
    assert_eq!(segment_after(b"b", b""), Some(b"b".to_vec()));
    assert_eq!(segment_after(b"", b""), None);
}

#[test]
fn the_three_services_differ_in_policy_only() {
    let services = [
        (serve_blocking(), DispatchPolicy::Inline),
        (serve_spawning(), DispatchPolicy::RescheduledTask),
        (serve_nonblocking(), DispatchPolicy::PooledBlocking),
    ];
    for (service, policy) in services {
        assert_eq!(service.policy_of(Route::Main), policy);
        assert_eq!(service.policy_of(Route::Stateless), policy);
        assert_eq!(service.policy_of(Route::Stateful), policy);
        assert_eq!(service.state(), &b"nothing".to_vec());
    }
}

#[test]
fn a_service_may_mix_policies() {
    let service = Service::new(
        DispatchPolicy::Inline,
        DispatchPolicy::PooledBlocking,
        DispatchPolicy::RescheduledTask,
    );
    assert_eq!(service.policy_of(Route::Main), DispatchPolicy::Inline);
    assert_eq!(service.policy_of(Route::Stateless), DispatchPolicy::PooledBlocking);
    assert_eq!(service.policy_of(Route::Stateful), DispatchPolicy::RescheduledTask);
}

#[test]
fn the_root_resolves_to_cheap_work() {
    match serve_nonblocking().resolve(Method::Get, b"/") {
        Resolution::Dispatch(policy, item) => {
            assert_eq!(policy, DispatchPolicy::PooledBlocking);
            assert_eq!(item.kind, WorkKind::Static);
            assert_eq!(item.context, None);
            assert_eq!(item.shared, None);
        }
        other => panic!("{:?}", other),
    }
}

#[test]
fn the_stateless_route_resolves_to_slow_work_without_state() {
    match serve_blocking().resolve(Method::Get, b"/stateless/abc") {
        Resolution::Dispatch(policy, item) => {
            assert_eq!(policy, DispatchPolicy::Inline);
            assert_eq!(item.kind, WorkKind::Slow);
            assert_eq!(item.context, Some(b"abc".to_vec()));
            assert_eq!(item.shared, None);
        }
        other => panic!("{:?}", other),
    }
}

#[test]
fn the_stateful_route_threads_the_shared_state() {
    match serve_spawning().resolve(Method::Get, b"/stateful/abc") {
        Resolution::Dispatch(policy, item) => {
            assert_eq!(policy, DispatchPolicy::RescheduledTask);
            assert_eq!(item.kind, WorkKind::Slow);
            assert_eq!(item.context, Some(b"abc".to_vec()));
            assert_eq!(item.shared, Some(b"nothing".to_vec()));
        }
        other => panic!("{:?}", other),
    }
}

#[test]
fn head_is_served_like_get() {
    assert!(matches!(
        serve_nonblocking().resolve(Method::Head, b"/"),
        Resolution::Dispatch(DispatchPolicy::PooledBlocking, _)
    ));
}

#[test]
fn other_methods_are_not_allowed_on_a_route() {
    let service = serve_nonblocking();
    assert!(matches!(service.resolve(Method::Other, b"/"), Resolution::MethodNotAllowed));
    assert!(matches!(
        service.resolve(Method::Other, b"/stateless/a"),
        Resolution::MethodNotAllowed
    ));
}

#[test]
fn an_unknown_path_is_not_found_whatever_the_method() {
    let service = serve_nonblocking();
    assert!(matches!(service.resolve(Method::Get, b"/nowhere"), Resolution::NotFound));
    assert!(matches!(service.resolve(Method::Other, b"/nowhere"), Resolution::NotFound));
    assert!(matches!(service.resolve(Method::Head, b"/stateless/"), Resolution::NotFound));
}
