use opbridge::context::{SharedContext, DEFAULT_DB_CONNECT_TIMEOUT_MS};
use opbridge::http::{build_http_request, HttpRequestFields};
use opbridge::registry::ActorRegistry;
use opbridge::storage::StorageOp;

fn plain_request() -> opbridge::http::HttpRequestDesc {
    build_http_request(HttpRequestFields {
        method: None,
        url: Some("http://example.com/".to_string()),
        body: None,
        headers: Vec::new(),
        timeout: None,
        proxy: None,
    })
}

#[test]
fn http_dispatches_allocate_fresh_sessions() {
    let mut ctx = SharedContext::new(true);
    let d = plain_request();
    assert_eq!(ctx.dispatch_http(&d, None), Ok(1));
    assert_eq!(ctx.dispatch_http(&d, None), Ok(2));
}

#[test]
fn an_explicit_session_is_used_as_given() {
    let mut ctx = SharedContext::new(true);
    let d = plain_request();
    assert_eq!(ctx.dispatch_http(&d, Some(77)), Ok(77));
    // 0 is the explicit fire-and-forget correlation.
    assert_eq!(ctx.dispatch_http(&d, Some(0)), Ok(0));
    // The allocator was never consulted.
    assert_eq!(ctx.dispatch_http(&d, None), Ok(1));
}

#[test]
fn an_invalid_descriptor_never_reaches_the_executor() {
    let mut ctx = SharedContext::new(true);
    let mut d = plain_request();
    d.url = "".to_string();
    assert_eq!(ctx.dispatch_http(&d, None), Err("url is empty".to_string()));
    // No session was consumed by the refused dispatch.
    assert_eq!(ctx.dispatch_http(&plain_request(), None), Ok(1));
}

#[test]
fn without_a_runtime_every_dispatch_fails_fast() {
    let mut ctx = SharedContext::new(false);
    let d = plain_request();
    assert_eq!(ctx.dispatch_http(&d, Some(5)), Err("No tokio runtime".to_string()));
    assert_eq!(
        ctx.dispatch_storage("read", &"a/b".to_string(), None, None, 9),
        Err("No tokio runtime".to_string())
    );
    assert_eq!(
        ctx.dispatch_db_connect(None, 3),
        Err("No tokio runtime".to_string())
    );
}

#[test]
fn storage_dispatches_carry_their_session_and_plan() {
    let mut ctx = SharedContext::new(true);
    assert_eq!(
        ctx.dispatch_storage("read", &"a/b".to_string(), None, None, 9),
        Ok((9, StorageOp::Read))
    );
    assert_eq!(
        ctx.dispatch_storage("copy", &"a/b".to_string(), None, None, 9),
        Err("Invalid operator name".to_string())
    );
}

#[test]
fn db_connects_default_their_timeout() {
    let mut ctx = SharedContext::new(true);
    assert_eq!(ctx.dispatch_db_connect(None, 4), Ok((4, DEFAULT_DB_CONNECT_TIMEOUT_MS)));
    assert_eq!(ctx.dispatch_db_connect(Some(250), 4), Ok((4, 250)));
}

#[test]
fn the_registry_finds_what_was_registered() {
    let mut reg = ActorRegistry::new();
    assert_eq!(reg.find(&"main".to_string()), None);
    reg.register("main".to_string(), 1);
    reg.register("cache".to_string(), 2);
    assert_eq!(reg.find(&"main".to_string()), Some(1));
    assert_eq!(reg.find(&"cache".to_string()), Some(2));
    // A later connect under the same name replaces the entry.
    reg.register("main".to_string(), 3);
    assert_eq!(reg.find(&"main".to_string()), Some(3));
}
