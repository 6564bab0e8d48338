use slow_axum::content::{serve_main, serve_sleepy, StaticContent};

fn sample() -> StaticContent {
    StaticContent::new(b"<html>hello</html>".to_vec(), vec![0x89, b'P', b'N', b'G', 1, 2, 3])
}

#[test]
fn page_response_is_exact() {
    let response = serve_main(&sample());
    assert_eq!(response.status, 200);
    assert_eq!(response.content_type, "text/html; charset=utf-8");
    assert_eq!(response.cache_control, "no-cache");
    assert_eq!(response.body, b"<html>hello</html>".to_vec());
}

#[test]
fn image_response_is_exact() {
    let response = serve_sleepy(&sample());
    assert_eq!(response.status, 200);
    assert_eq!(response.content_type, "image/png");
    assert_eq!(response.cache_control, "no-cache");
    assert_eq!(response.body, vec![0x89, b'P', b'N', b'G', 1, 2, 3]);
}

#[test]
fn repeated_page_requests_are_byte_identical() {
    let content = sample();
    let first = serve_main(&content);
    let second = serve_main(&content);
    assert_eq!(first.body, second.body);
    assert_eq!(first.body, *content.page());
}

#[test]
fn empty_payloads_are_served_as_they_are() {
    let content = StaticContent::new(Vec::new(), Vec::new());
    assert_eq!(serve_main(&content).body, Vec::<u8>::new());
    assert_eq!(serve_sleepy(&content).body, Vec::<u8>::new());
    assert_eq!(content.image().len(), 0);
}
