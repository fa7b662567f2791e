use opbridge::delivery::PollQueue;
use opbridge::http::{
    build_http_request, normalize_headers, poll_http, validate_http_request, HttpPoll,
    HttpRequestFields, DEFAULT_HTTP_TIMEOUT_SECS,
};
use opbridge::outcome::{HttpResponseRec, HttpVersion};

fn fields(url: &str) -> HttpRequestFields {
    HttpRequestFields {
        method: None,
        url: Some(url.to_string()),
        body: None,
        headers: Vec::new(),
        timeout: None,
        proxy: None,
    }
}

#[test]
fn absent_fields_take_the_documented_defaults() {
    let d = build_http_request(fields("http://example.com/"));
    assert_eq!(d.method, "GET");
    assert_eq!(d.timeout, DEFAULT_HTTP_TIMEOUT_SECS);
    assert_eq!(d.timeout, 5);
    assert_eq!(d.body, "");
    assert_eq!(d.proxy, "");
}

#[test]
fn a_well_formed_request_passes_validation() {
    let mut f = fields("http://example.com/");
    f.headers.push(("Content-Type".to_string(), "text/plain".to_string()));
    f.method = Some("POST".to_string());
    let d = build_http_request(f);
    assert!(validate_http_request(&d).is_ok());
}

#[test]
fn a_malformed_header_name_is_rejected_synchronously() {
    let mut f = fields("http://example.com/");
    f.headers.push(("bad header".to_string(), "v".to_string()));
    let d = build_http_request(f);
    assert!(validate_http_request(&d).is_err());
}

#[test]
fn a_malformed_header_value_is_rejected_synchronously() {
    let mut f = fields("http://example.com/");
    f.headers.push(("x-ok".to_string(), "bad\nvalue".to_string()));
    let d = build_http_request(f);
    assert!(validate_http_request(&d).is_err());
}

#[test]
fn a_malformed_method_is_rejected_synchronously() {
    let mut f = fields("http://example.com/");
    f.method = Some("B@D".to_string());
    let d = build_http_request(f);
    assert!(validate_http_request(&d).is_err());
}

#[test]
fn an_empty_url_is_rejected_with_its_message() {
    let d = build_http_request(fields(""));
    assert_eq!(validate_http_request(&d), Err("url is empty".to_string()));
}

#[test]
fn header_names_are_folded_to_lower_case() {
    let headers = vec![
        ("Content-Type".to_string(), "text/HTML".to_string()),
        ("X-Custom".to_string(), "Value".to_string()),
    ];
    let n = normalize_headers(&headers);
    assert_eq!(n[0], ("content-type".to_string(), "text/HTML".to_string()));
    assert_eq!(n[1], ("x-custom".to_string(), "Value".to_string()));
}

#[test]
fn scenario_a_successful_exchange_polls_back_with_status_and_version() {
    // The wire exchange is the host's; what the bridge owes is the shape:
    // a dispatched GET with timeout 5 and no proxy that completes with a
    // 2xx status polls back as a ready outcome with that status and a
    // non-empty version label.
    let mut q: PollQueue<Result<HttpResponseRec, String>> = PollQueue::new();
    let response = HttpResponseRec {
        version: HttpVersion::V11,
        status_code: 200,
        headers: vec![("Server".to_string(), "demo".to_string())],
        body: b"ok".to_vec(),
    };
    q.push(41, Ok(response));
    match poll_http(&mut q) {
        HttpPoll::Ready { session, response } => {
            assert_eq!(session, 41);
            assert!((200..300).contains(&response.status_code));
            assert!(!opbridge::outcome::version_label(response.version).is_empty());
            assert_eq!(response.headers[0].0, "server");
        }
        other => panic!("expected a ready outcome, got {:?}", other),
    }
}

#[test]
fn a_failed_exchange_polls_back_with_status_minus_one() {
    let mut q: PollQueue<Result<HttpResponseRec, String>> = PollQueue::new();
    q.push(42, Err("connection refused".to_string()));
    assert_eq!(
        poll_http(&mut q),
        HttpPoll::Failed {
            session: 42,
            status_code: -1,
            message: "connection refused".to_string()
        }
    );
}

#[test]
fn polling_distinguishes_empty_from_closed() {
    let mut q: PollQueue<Result<HttpResponseRec, String>> = PollQueue::new();
    assert_eq!(poll_http(&mut q), HttpPoll::Again);
    q.close();
    assert_eq!(poll_http(&mut q), HttpPoll::Closed);
}
