use shortener::cache::Cache;
use shortener::models::Link;
use shortener::resolver::{check_cache, on_store_reply, refill_cache, Next, ResolveError, StoreError};

fn link(id: &str, dest: &str) -> Link {
    Link { id: id.to_string(), dest_url: dest.to_string(), count: 0 }
}

#[test]
fn miss_goes_to_store() {
    let c = Cache::new();
    assert!(matches!(check_cache(&c, "abc"), Next::QueryStore));
}

#[test]
fn hit_redirects_without_store() {
    let mut c = Cache::new();
    c.insert(link("abc", "https://example.com"));
    match check_cache(&c, "abc") {
        Next::Redirect(d) => assert_eq!(d, "https://example.com"),
        other => panic!("expected a redirect, got {:?}", other),
    }
}

#[test]
fn found_record_refills_cache_and_redirects() {
    let mut c = Cache::new();
    assert!(matches!(check_cache(&c, "abc"), Next::QueryStore));
    let record = match on_store_reply(Ok(link("abc", "https://example.com"))) {
        Next::RefillCache(r) => r,
        other => panic!("expected a refill, got {:?}", other),
    };
    match refill_cache(&mut c, record) {
        Next::Redirect(d) => assert_eq!(d, "https://example.com"),
        other => panic!("expected a redirect, got {:?}", other),
    }
    assert_eq!(c.get("abc").expect("hit").dest_url, "https://example.com");
    match check_cache(&c, "abc") {
        Next::Redirect(d) => assert_eq!(d, "https://example.com"),
        other => panic!("expected a redirect, got {:?}", other),
    }
}

#[test]
fn unknown_key_fails_with_not_found_and_cache_unchanged() {
    let c = Cache::new();
    assert!(matches!(check_cache(&c, "nope"), Next::QueryStore));
    match on_store_reply(Err(StoreError::NotFound)) {
        Next::Fail(e) => assert_eq!(e, ResolveError::NotFound),
        other => panic!("expected a failure, got {:?}", other),
    }
    assert!(c.get("nope").is_none());
    assert!(matches!(check_cache(&c, "nope"), Next::QueryStore));
}

#[test]
fn unavailable_store_fails() {
    match on_store_reply(Err(StoreError::Unavailable)) {
        Next::Fail(e) => assert_eq!(e, ResolveError::StoreUnavailable),
        other => panic!("expected a failure, got {:?}", other),
    }
}

#[test]
fn empty_key_goes_to_store_and_fails_when_absent() {
    let c = Cache::new();
    assert!(matches!(check_cache(&c, ""), Next::QueryStore));
    match on_store_reply(Err(StoreError::NotFound)) {
        Next::Fail(e) => assert_eq!(e, ResolveError::NotFound),
        other => panic!("expected a failure, got {:?}", other),
    }
    assert!(c.get("").is_none());
}
