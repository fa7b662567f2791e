//! The client pool: expensive HTTP client handles cached by a
//! configuration fingerprint and reused across calls.
//!
//! The pool is the concurrent map of the `dashmap` crate, holding
//! `reqwest` clients; both are reached only through the trusted items
//! below. A fingerprint is derived from the connection-relevant
//! configuration — the per-request timeout and the proxy URL. Entries are
//! immutable once published (replace-on-insert only) and live until
//! process exit.

use vstd::prelude::*;
use crate::text::{dec_digits, u64_to_decimal};

verus! {

#[verifier::external_type_specification]
#[verifier::external_body]
pub struct ExClient(reqwest::Client);

#[verifier::external_type_specification]
#[verifier::external_body]
pub struct ExProxy(reqwest::Proxy);

#[verifier::external_type_specification]
#[verifier::external_body]
#[verifier::reject_recursive_types(K)]
#[verifier::reject_recursive_types(V)]
#[verifier::reject_recursive_types(S)]
pub struct ExDashMap<K, V, S>(dashmap::DashMap<K, V, S>);

/// The set of fingerprints that have a cached client.
pub uninterp spec fn cache_keys(m: dashmap::DashMap<String, reqwest::Client>) -> Set<Seq<char>>;

/// Relies on `dashmap::DashMap::new`: a fresh map holds no entry.
#[verifier::external_body]
fn cache_new() -> (m: dashmap::DashMap<String, reqwest::Client>)
    ensures
        cache_keys(m) == Set::<Seq<char>>::empty(),
{
    dashmap::DashMap::new()
}

/// Relies on `dashmap::DashMap::get` and `reqwest::Client::clone`: an
/// entry is found exactly when the key is present, and a client is a
/// cheaply cloneable shared handle.
#[verifier::external_body]
fn cache_get(m: &dashmap::DashMap<String, reqwest::Client>, key: &String) -> (r: Option<
    reqwest::Client,
>)
    ensures
        r is Some <==> cache_keys(*m).contains(key@),
{
    m.get(key).map(|entry| entry.value().clone())
}

/// Relies on `dashmap::DashMap::insert`: after the call the key is
/// present; an existing entry under the same key is replaced, never
/// mutated in place.
#[verifier::external_body]
fn cache_insert(
    m: &mut dashmap::DashMap<String, reqwest::Client>,
    key: String,
    value: reqwest::Client,
)
    ensures
        cache_keys(*final(m)) == cache_keys(*old(m)).insert(key@),
{
    m.insert(key, value);
}

/// Relies on `dashmap::DashMap::len`: the number of entries, one per key.
#[verifier::external_body]
fn cache_len(m: &dashmap::DashMap<String, reqwest::Client>) -> (n: usize)
    ensures
        n == cache_keys(*m).len(),
{
    m.len()
}

/// Whether `reqwest::Proxy::all` accepts this proxy URL.
pub uninterp spec fn proxy_ok(s: Seq<char>) -> bool;

/// Relies on `reqwest::Proxy::all`: parsing a proxy URL succeeds exactly
/// when the URL is well formed, a function of the text alone.
#[verifier::external_body]
fn parse_proxy(proxy: &String) -> (r: Option<reqwest::Proxy>)
    ensures
        r is Some <==> proxy_ok(proxy@),
{
    reqwest::Proxy::all(proxy.as_str()).ok()
}

/// Relies on `reqwest::ClientBuilder` (`timeout`, `use_rustls_tls`,
/// `tcp_nodelay`, `proxy`, `build`): builds a client with the given
/// per-request timeout and optional proxy; if the builder fails, the
/// default unconfigured client stands in, so a client always comes back.
#[verifier::external_body]
fn build_client(timeout_secs: u64, proxy: Option<reqwest::Proxy>) -> (c: reqwest::Client) {
    let builder = reqwest::ClientBuilder::new().timeout(
        core::time::Duration::from_secs(timeout_secs),
    ).use_rustls_tls().tcp_nodelay(true);
    let builder = match proxy {
        Some(p) => builder.proxy(p),
        None => builder,
    };
    builder.build().unwrap_or_default()
}

/// Relies on `reqwest::Client::clone`: a client is a shareable handle,
/// cloned cheaply, all clones driving the same pooled connections.
#[verifier::external_body]
fn clone_client(c: &reqwest::Client) -> (r: reqwest::Client) {
    c.clone()
}

/// The fingerprint under which a `(timeout, proxy)` configuration is
/// cached: the decimal timeout, an underscore, and the proxy URL.
pub open spec fn fingerprint_spec(timeout_secs: nat, proxy: Seq<char>) -> Seq<char> {
    dec_digits(timeout_secs) + "_"@ + proxy
}

/// Renders the cache fingerprint of a configuration.
pub fn fingerprint(timeout_secs: u64, proxy: &String) -> (s: String)
    ensures
        s@ == fingerprint_spec(timeout_secs as nat, proxy@),
{
    let mut s = u64_to_decimal(timeout_secs);
    s.append("_");
    s.append(proxy.as_str());
    s
}

/// The pool of cached HTTP clients, keyed by configuration fingerprint.
pub struct ClientPool {
    map: dashmap::DashMap<String, reqwest::Client>,
}

impl ClientPool {
    /// The fingerprints that currently have a cached client.
    pub closed spec fn keys(self) -> Set<Seq<char>> {
        cache_keys(self.map)
    }

    pub fn new() -> (p: ClientPool)
        ensures
            p.keys() == Set::<Seq<char>>::empty(),
    {
        ClientPool { map: cache_new() }
    }

    /// How many configurations have a cached client.
    pub fn len(&self) -> (n: usize)
        ensures
            n == self.keys().len(),
    {
        cache_len(&self.map)
    }

    /// Whether a configuration already has a cached client.
    pub fn contains(&self, timeout_secs: u64, proxy: &String) -> (b: bool)
        ensures
            b == self.keys().contains(fingerprint_spec(timeout_secs as nat, proxy@)),
    {
        let key = fingerprint(timeout_secs, proxy);
        match cache_get(&self.map, &key) {
            Some(_) => true,
            None => false,
        }
    }

    /// Returns the cached client for this configuration, building and
    /// publishing one first if the fingerprint is new.
    ///
    /// A usable client always comes back: an empty proxy means none is
    /// configured, and a malformed proxy URL degrades to a client without
    /// the proxy rather than failing the operation. After the call the
    /// fingerprint is present, and no cached entry ever disappears —
    /// concurrent first-time lookups converge on a published entry.
    pub fn get_or_create(&mut self, timeout_secs: u64, proxy: &String) -> (c: reqwest::Client)
        ensures
            final(self).keys() == old(self).keys().insert(
                fingerprint_spec(timeout_secs as nat, proxy@),
            ),
            final(self).keys().contains(fingerprint_spec(timeout_secs as nat, proxy@)),
            forall|k: Seq<char>|
                old(self).keys().contains(k) ==> final(self).keys().contains(k),
    {
        let key = fingerprint(timeout_secs, proxy);
        match cache_get(&self.map, &key) {
            Some(client) => {
                proof {
                    assert(cache_keys(self.map) =~= cache_keys(self.map).insert(key@));
                }
                client
            },
            None => {
                let client = if proxy.as_str().unicode_len() == 0 {
                    build_client(timeout_secs, None)
                } else {
                    build_client(timeout_secs, parse_proxy(proxy))
                };
                cache_insert(&mut self.map, key, clone_client(&client));
                client
            },
        }
    }
}

/// Distinct configurations never share a pool entry: the fingerprint
/// determines the timeout and the proxy. The timeout's digits carry no
/// underscore, so the first underscore of a fingerprint separates the
/// two unambiguously.
pub proof fn lemma_fingerprint_injective(t1: nat, p1: Seq<char>, t2: nat, p2: Seq<char>)
    requires
        fingerprint_spec(t1, p1) == fingerprint_spec(t2, p2),
    ensures
        t1 == t2,
        p1 == p2,
{
    reveal_strlit("_");
    let d1 = crate::text::dec_digits(t1);
    let d2 = crate::text::dec_digits(t2);
    let s = fingerprint_spec(t1, p1);
    crate::text::lemma_dec_digits_are_digits(t1);
    crate::text::lemma_dec_digits_are_digits(t2);
    crate::text::lemma_dec_digits_nonempty(t1);
    crate::text::lemma_dec_digits_nonempty(t2);
    assert(s[d1.len() as int] == '_');
    assert(s[d2.len() as int] == '_');
    if d1.len() < d2.len() {
        assert(s[d1.len() as int] == d2[d1.len() as int]);
        assert(48 <= d2[d1.len() as int] as u8 <= 57);
        assert('_' as u8 == 95);
        assert(false);
    }
    if d2.len() < d1.len() {
        assert(s[d2.len() as int] == d1[d2.len() as int]);
        assert(48 <= d1[d2.len() as int] as u8 <= 57);
        assert('_' as u8 == 95);
        assert(false);
    }
    assert(forall|i: int| 0 <= i < d1.len() ==> s[i] == d1[i]);
    assert(forall|i: int| 0 <= i < d2.len() ==> s[i] == d2[i]);
    assert(d1 =~= d2);
    crate::text::lemma_dec_digits_injective(t1, t2);
    assert(s.len() == d1.len() + 1 + p1.len());
    assert(s.len() == d2.len() + 1 + p2.len());
    assert(forall|i: int| 0 <= i < p1.len() ==> s[d1.len() + 1 + i] == p1[i]);
    assert(forall|i: int| 0 <= i < p2.len() ==> s[d2.len() + 1 + i] == p2[i]);
    assert(p1 =~= p2);
}

/// Pool convergence: publishing a fingerprint is idempotent and loses
/// nothing — however many concurrent first-time lookups race to create
/// the entry, the pool ends with that one fingerprint published, every
/// earlier entry still present, and every caller holding a usable
/// client (`get_or_create` always returns one).
pub proof fn lemma_pool_convergence(keys: Set<Seq<char>>, fp: Seq<char>)
    ensures
        keys.insert(fp).contains(fp),
        keys.insert(fp).insert(fp) == keys.insert(fp),
        forall|k: Seq<char>| keys.contains(k) ==> keys.insert(fp).contains(k),
{
    assert(keys.insert(fp).insert(fp) =~= keys.insert(fp));
}

} // verus!
