use apierr::catch::{catch, stop, transparent_stop};
use apierr::response::{default_response, transparent, Response};
use apierr::status::{resolve, Status};

#[test]
fn stop_hides_the_failure() {
    let r = stop(500).apply("bad");
    assert_eq!(r.status.code(), 500);
    assert_eq!(r.body, "500 Internal Server Error");
    assert!(r.headers.is_empty());
}

#[test]
fn stop_ignores_failure_content() {
    let a = stop(404).apply("one failure");
    let b = stop(404).apply(12345u64);
    assert_eq!(a, b);
    assert_eq!(a, default_response(resolve(404)));
}

#[test]
fn transparent_stop_shows_the_failure() {
    let r = transparent_stop(400).apply("bad".to_string());
    assert_eq!(r.status.code(), 400);
    assert_eq!(r.body, "bad");
    assert!(r.headers.is_empty());
}

#[test]
fn transparent_stop_keeps_empty_text() {
    let r = transparent_stop(503).apply(String::new());
    assert_eq!(r.status.code(), 503);
    assert_eq!(r.body, "");
}

#[test]
fn catch_falls_back_when_handler_declines() {
    let r = catch(400, |_c: Status, _e: &str| None, default_response).apply("bad");
    assert_eq!(r, default_response(resolve(400)));
    assert_eq!(r.body, "400 Bad Request");
}

#[test]
fn catch_keeps_custom_status() {
    let handle = |_c: Status, _e: &str| Some(Response::new(resolve(422), "custom".to_string()));
    let r = catch(400, handle, default_response).apply("bad");
    assert_eq!(r.status.code(), 422);
    assert_eq!(r.body, "custom");
}

#[test]
fn catch_hands_resolved_code_to_handler() {
    let handle = |c: Status, e: u32| Some(Response::new(c, format!("{} {}", c.code(), e)));
    let r = catch(409, handle, default_response).apply(7);
    assert_eq!(r.status.code(), 409);
    assert_eq!(r.body, "409 7");
}

#[test]
fn catch_uses_given_default_renderer() {
    let render = |c: Status| Response::new(c, "fallback".to_string());
    let r = catch(503, |_c: Status, _e: ()| None, render).apply(());
    assert_eq!(r.status.code(), 503);
    assert_eq!(r.body, "fallback");
}

#[test]
fn catch_with_transparent_handler() {
    let r = catch(400, transparent, default_response).apply("shown".to_string());
    assert_eq!(r.status.code(), 400);
    assert_eq!(r.body, "shown");
}

#[test]
fn default_response_is_deterministic() {
    let a = default_response(resolve(503));
    let b = default_response(resolve(503));
    assert_eq!(a, b);
    assert_eq!(a.body.as_bytes(), b"503 Service Unavailable");
}

#[test]
fn default_response_unknown_reason() {
    let r = default_response(resolve(799));
    assert_eq!(r.body, "799 <unknown status code>");
}

#[test]
fn transparent_never_declines() {
    let r = transparent(resolve(418), "text".to_string()).expect("a response");
    assert_eq!(r.status.code(), 418);
    assert_eq!(r.body, "text");
}

#[test]
fn headers_keep_order_and_duplicates() {
    let r = Response::new(resolve(200), "ok".to_string())
        .with_header("b".to_string(), "1".to_string())
        .with_header("a".to_string(), "2".to_string())
        .with_header("b".to_string(), "3".to_string());
    assert_eq!(
        r.headers,
        vec![
            ("b".to_string(), "1".to_string()),
            ("a".to_string(), "2".to_string()),
            ("b".to_string(), "3".to_string()),
        ]
    );
    assert_eq!(r.body, "ok");
    assert_eq!(r.status.code(), 200);
}
