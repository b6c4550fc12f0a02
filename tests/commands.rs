use meowdown::greeting::greet;
use meowdown::http::{
    classify, get_request, http_result, post_request, HttpFailure, HttpMethod, HttpOutcome,
};

#[test]
fn greet_frames_name() {
    assert_eq!(greet("Tauri"), "Hello, Tauri! You've been greeted from Rust!");
}

#[test]
fn greet_keeps_name_verbatim() {
    let name = "<b>\"Zoë\" & {x}</b>";
    let g = greet(name);
    assert!(g.contains(name));
    assert!(g.starts_with("Hello, "));
    assert!(g.ends_with("! You've been greeted from Rust!"));
}

#[test]
fn greet_empty_name() {
    assert_eq!(greet(""), "Hello, ! You've been greeted from Rust!");
}

#[test]
fn get_request_has_no_header_or_body() {
    let r = get_request("http://localhost:8000/api".to_string());
    assert_eq!(r.method, HttpMethod::Get);
    assert_eq!(r.url, "http://localhost:8000/api");
    assert_eq!(r.content_type, None);
    assert_eq!(r.body, None);
}

#[test]
fn post_request_sends_body_unmodified_as_json() {
    let body = "{ \"a\": [1, 2], \"not json\" ".to_string();
    let r = post_request("http://localhost:8000/save".to_string(), body.clone());
    assert_eq!(r.method, HttpMethod::Post);
    assert_eq!(r.url, "http://localhost:8000/save");
    assert_eq!(r.content_type, Some("application/json".to_string()));
    assert_eq!(r.body, Some(body));
}

#[test]
fn readable_body_is_returned_whatever_the_status() {
    for status in [200u16, 404, 500] {
        let out = HttpOutcome::BodyRead { status, text: "payload".to_string() };
        assert_eq!(http_result(out), Ok("payload".to_string()));
    }
}

#[test]
fn empty_body_is_a_success() {
    let out = HttpOutcome::BodyRead { status: 204, text: String::new() };
    assert_eq!(http_result(out), Ok(String::new()));
}

#[test]
fn unsent_request_is_an_error() {
    let out = HttpOutcome::SendFailed { reason: "connection refused".to_string() };
    assert_eq!(
        http_result(out),
        Err("HTTP request failed: connection refused".to_string())
    );
}

#[test]
fn unsent_request_with_empty_reason_is_still_an_error() {
    let out = HttpOutcome::SendFailed { reason: String::new() };
    let r = http_result(out);
    assert_eq!(r, Err("HTTP request failed: ".to_string()));
}

#[test]
fn unreadable_body_is_an_error() {
    let out = HttpOutcome::BodyUnreadable { status: 200, reason: "invalid utf-8".to_string() };
    assert_eq!(
        http_result(out),
        Err("Failed to read response body: invalid utf-8".to_string())
    );
}

#[test]
fn classify_sorts_failures() {
    let a = classify(HttpOutcome::SendFailed { reason: "dns".to_string() });
    assert!(matches!(a, Err(HttpFailure::Request { ref reason }) if reason == "dns"));
    let b = classify(HttpOutcome::BodyUnreadable { status: 502, reason: "eof".to_string() });
    assert!(matches!(b, Err(HttpFailure::Body { ref reason }) if reason == "eof"));
    let c = classify(HttpOutcome::BodyRead { status: 500, text: "oops".to_string() });
    assert!(matches!(c, Ok(ref t) if t == "oops"));
}

#[test]
fn failure_messages() {
    let f = HttpFailure::Request { reason: "timed out".to_string() };
    assert_eq!(f.message(), "HTTP request failed: timed out");
    let g = HttpFailure::Body { reason: "bad".to_string() };
    assert_eq!(g.message(), "Failed to read response body: bad");
}
