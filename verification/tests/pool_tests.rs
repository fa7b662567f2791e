use opbridge::pool::{fingerprint, ClientPool};

#[test]
fn a_fingerprint_joins_timeout_and_proxy() {
    assert_eq!(fingerprint(5, &"".to_string()), "5_");
    assert_eq!(
        fingerprint(30, &"http://proxy:8080".to_string()),
        "30_http://proxy:8080"
    );
    assert_eq!(fingerprint(0, &"p".to_string()), "0_p");
}

#[test]
fn scenario_same_fingerprint_converges_to_one_entry() {
    let mut pool = ClientPool::new();
    assert_eq!(pool.len(), 0);
    // Two dispatches with the same (timeout, proxy) fingerprint against
    // an empty pool: both get a usable client, and the pool ends with
    // exactly one entry for that fingerprint.
    let _c1 = pool.get_or_create(5, &"".to_string());
    let _c2 = pool.get_or_create(5, &"".to_string());
    assert_eq!(pool.len(), 1);
    assert!(pool.contains(5, &"".to_string()));
}

#[test]
fn different_configurations_get_their_own_entries() {
    let mut pool = ClientPool::new();
    let _ = pool.get_or_create(5, &"".to_string());
    let _ = pool.get_or_create(30, &"".to_string());
    assert_eq!(pool.len(), 2);
    assert!(pool.contains(5, &"".to_string()));
    assert!(pool.contains(30, &"".to_string()));
    assert!(!pool.contains(60, &"".to_string()));
}

#[test]
fn a_malformed_proxy_degrades_to_a_client_without_it() {
    let mut pool = ClientPool::new();
    // The fallback policy: the operation still proceeds with a client,
    // possibly without the requested proxy, and the entry is published.
    let _c = pool.get_or_create(5, &"not a proxy url".to_string());
    assert_eq!(pool.len(), 1);
    assert!(pool.contains(5, &"not a proxy url".to_string()));
}

#[test]
fn a_well_formed_proxy_is_accepted() {
    let mut pool = ClientPool::new();
    let _c = pool.get_or_create(5, &"http://127.0.0.1:8080".to_string());
    assert_eq!(pool.len(), 1);
}
