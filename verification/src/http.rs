//! The HTTP dispatcher: request descriptors, their defaults, and the
//! synchronous validation that runs before any task is spawned.
//!
//! A malformed descriptor — unparsable method, unparsable header name or
//! value, empty URL — is rejected immediately with a descriptive error;
//! no async work is ever scheduled for an invalid request. The wire
//! exchange itself is the embedding host's, performed with the pooled
//! client against this contract.

use vstd::prelude::*;
use crate::delivery::{Poll, PollQueue};
use crate::outcome::HttpResponseRec;
use crate::text::{lower_of, lowercase};

verus! {

/// The default per-request timeout, in seconds, when the caller names
/// none.
pub const DEFAULT_HTTP_TIMEOUT_SECS: u64 = 5;

/// The request fields as the embedding host hands them over; absent
/// optional fields take the documented defaults.
pub struct HttpRequestFields {
    pub method: Option<String>,
    pub url: Option<String>,
    pub body: Option<String>,
    pub headers: Vec<(String, String)>,
    pub timeout: Option<u64>,
    pub proxy: Option<String>,
}

/// A complete HTTP request descriptor, defaults applied.
#[derive(Clone, Debug, PartialEq, Eq)]
pub struct HttpRequestDesc {
    pub method: String,
    pub url: String,
    pub body: String,
    pub headers: Vec<(String, String)>,
    pub timeout: u64,
    pub proxy: String,
}

/// Whether `reqwest::Method` parses this method name.
pub uninterp spec fn method_ok(s: Seq<char>) -> bool;

/// Relies on `reqwest::Method`'s `FromStr` impl (through `str::parse`):
/// a method name parses exactly when it is a well-formed token, a
/// function of the text alone; on refusal the error text describes it.
#[verifier::external_body]
fn method_error(s: &String) -> (r: Option<String>)
    ensures
        r is None <==> method_ok(s@),
{
    match s.as_str().parse::<reqwest::Method>() {
        Ok(_) => None,
        Err(e) => Some(e.to_string()),
    }
}

/// Whether `reqwest::header::HeaderName` parses this header name.
pub uninterp spec fn header_name_ok(s: Seq<char>) -> bool;

/// Relies on `reqwest::header::HeaderName`'s `FromStr` impl (through
/// `str::parse`): a header name parses exactly when it is well formed, a
/// function of the text alone; on refusal the error text describes it.
#[verifier::external_body]
fn header_name_error(s: &String) -> (r: Option<String>)
    ensures
        r is None <==> header_name_ok(s@),
{
    match s.as_str().parse::<reqwest::header::HeaderName>() {
        Ok(_) => None,
        Err(e) => Some(e.to_string()),
    }
}

/// Whether `reqwest::header::HeaderValue` parses this header value.
pub uninterp spec fn header_value_ok(s: Seq<char>) -> bool;

/// Relies on `reqwest::header::HeaderValue`'s `FromStr` impl (through
/// `str::parse`): a header value parses exactly when it is well formed, a
/// function of the text alone; on refusal the error text describes it.
#[verifier::external_body]
fn header_value_error(s: &String) -> (r: Option<String>)
    ensures
        r is None <==> header_value_ok(s@),
{
    match s.as_str().parse::<reqwest::header::HeaderValue>() {
        Ok(_) => None,
        Err(e) => Some(e.to_string()),
    }
}

/// Every header pair parses: well-formed name and well-formed value.
pub open spec fn headers_ok(hs: Seq<(String, String)>) -> bool {
    forall|i: int|
        0 <= i < hs.len() ==> header_name_ok((#[trigger] hs[i]).0@) && header_value_ok(hs[i].1@)
}

/// A descriptor the dispatcher accepts: parsable headers, parsable
/// method, and a non-empty URL.
pub open spec fn desc_valid(d: HttpRequestDesc) -> bool {
    headers_ok(d.headers@) && method_ok(d.method@) && d.url@.len() > 0
}

/// Fills a descriptor from the caller's fields: the method defaults to
/// `GET`, the timeout to the documented default, everything else to
/// empty.
pub fn build_http_request(f: HttpRequestFields) -> (d: HttpRequestDesc)
    ensures
        d.method@ == match f.method {
            Some(m) => m@,
            None => "GET"@,
        },
        d.url@ == match f.url {
            Some(u) => u@,
            None => Seq::<char>::empty(),
        },
        d.body@ == match f.body {
            Some(b) => b@,
            None => Seq::<char>::empty(),
        },
        d.headers == f.headers,
        d.timeout == match f.timeout {
            Some(t) => t,
            None => DEFAULT_HTTP_TIMEOUT_SECS,
        },
        d.proxy@ == match f.proxy {
            Some(p) => p@,
            None => Seq::<char>::empty(),
        },
{
    let method = match f.method {
        Some(m) => m,
        None => String::from_str("GET"),
    };
    let url = match f.url {
        Some(u) => u,
        None => String::new(),
    };
    let body = match f.body {
        Some(b) => b,
        None => String::new(),
    };
    let timeout = match f.timeout {
        Some(t) => t,
        None => DEFAULT_HTTP_TIMEOUT_SECS,
    };
    let proxy = match f.proxy {
        Some(p) => p,
        None => String::new(),
    };
    HttpRequestDesc { method, url, body, headers: f.headers, timeout, proxy }
}

/// Validates a descriptor synchronously: accepts exactly the valid ones.
///
/// Checked in order — every header pair, then the method, then the URL —
/// and the first refusal is reported: the parse error text for a header
/// or method, `"url is empty"` for a missing URL.
pub fn validate_http_request(d: &HttpRequestDesc) -> (r: Result<(), String>)
    ensures
        r is Ok <==> desc_valid(*d),
        headers_ok(d.headers@) && method_ok(d.method@) && d.url@.len() == 0 ==> (r matches Err(m)
            && m@ == "url is empty"@),
{
    let n = d.headers.len();
    let mut i: usize = 0;
    while i < n
        invariant
            n == d.headers@.len(),
            i <= n,
            forall|k: int|
                0 <= k < i ==> header_name_ok((#[trigger] d.headers@[k]).0@) && header_value_ok(
                    d.headers@[k].1@,
                ),
        decreases n - i,
    {
        let pair = &d.headers[i];
        if let Some(e) = header_name_error(&pair.0) {
            return Err(e);
        }
        if let Some(e) = header_value_error(&pair.1) {
            return Err(e);
        }
        i = i + 1;
    }
    if let Some(e) = method_error(&d.method) {
        return Err(e);
    }
    if d.url.as_str().unicode_len() == 0 {
        return Err(String::from_str("url is empty"));
    }
    Ok(())
}

/// The host-facing result of one poll of the HTTP delivery queue.
#[derive(Clone, Debug, PartialEq, Eq)]
pub enum HttpPoll {
    /// A completed exchange: its session and the shaped response, header
    /// names folded to lower case.
    Ready { session: i64, response: HttpResponseRec },
    /// A failed exchange: its session, status `-1`, and the error text.
    Failed { session: i64, status_code: i32, message: String },
    /// Nothing yet — poll again later.
    Again,
    /// All producers are gone; no more results will arrive.
    Closed,
}

/// Folds every header name of the response to lower case, keeping the
/// values and the order.
pub fn normalize_headers(headers: &Vec<(String, String)>) -> (r: Vec<(String, String)>)
    ensures
        r@.len() == headers@.len(),
        forall|i: int|
            0 <= i < r@.len() ==> (#[trigger] r@[i]).0@ == lower_of(headers@[i].0@) && r@[i].1@
                == headers@[i].1@,
{
    let mut out: Vec<(String, String)> = Vec::new();
    let n = headers.len();
    let mut i: usize = 0;
    while i < n
        invariant
            n == headers@.len(),
            i <= n,
            out@.len() == i,
            forall|k: int|
                0 <= k < i ==> (#[trigger] out@[k]).0@ == lower_of(headers@[k].0@) && out@[k].1@
                    == headers@[k].1@,
        decreases n - i,
    {
        let pair = &headers[i];
        out.push((lowercase(pair.0.as_str()), pair.1.clone()));
        i = i + 1;
    }
    out
}

/// Polls the HTTP delivery queue once, without blocking, and shapes the
/// oldest ready outcome for the host: a success becomes a response record
/// with lower-cased header names, a failure becomes a record with status
/// `-1` carrying the error text; otherwise the distinct "try again" or
/// "closed" signal.
pub fn poll_http(q: &mut PollQueue<Result<HttpResponseRec, String>>) -> (r: HttpPoll)
    requires
        old(q).wf(),
    ensures
        final(q).wf(),
        final(q).pushed() == old(q).pushed(),
        final(q).is_closed() == old(q).is_closed(),
        old(q).waiting().len() > 0 ==> {
            &&& final(q).received() == old(q).received().push(old(q).waiting()[0])
            &&& final(q).waiting() == old(q).waiting().drop_first()
            &&& match old(q).waiting()[0].1 {
                Ok(resp) => {
                    &&& r matches HttpPoll::Ready { session, response }
                    &&& session == old(q).waiting()[0].0
                    &&& response.version == resp.version
                    &&& response.status_code == resp.status_code
                    &&& response.body == resp.body
                    &&& response.headers@.len() == resp.headers@.len()
                    &&& forall|i: int|
                        0 <= i < resp.headers@.len() ==> (#[trigger] response.headers@[i]).0@
                            == lower_of(resp.headers@[i].0@) && response.headers@[i].1@
                            == resp.headers@[i].1@
                },
                Err(msg) => r == (HttpPoll::Failed {
                    session: old(q).waiting()[0].0,
                    status_code: -1i32,
                    message: msg,
                }),
            }
        },
        old(q).waiting().len() == 0 && !old(q).is_closed() ==> r == HttpPoll::Again && *final(q)
            == *old(q),
        old(q).waiting().len() == 0 && old(q).is_closed() ==> r == HttpPoll::Closed && *final(q)
            == *old(q),
{
    match q.try_receive() {
        Poll::Ready(session, outcome) => match outcome {
            Ok(resp) => {
                let headers = normalize_headers(&resp.headers);
                HttpPoll::Ready {
                    session,
                    response: HttpResponseRec {
                        version: resp.version,
                        status_code: resp.status_code,
                        headers,
                        body: resp.body,
                    },
                }
            },
            Err(msg) => HttpPoll::Failed { session, status_code: -1, message: msg },
        },
        Poll::Empty => HttpPoll::Again,
        Poll::Closed => HttpPoll::Closed,
    }
}

} // verus!
