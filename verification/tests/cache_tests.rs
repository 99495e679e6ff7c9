use runner::cache::{CacheDecision, MemoCache, CACHE_TTL_MILLIS};
use runner::domain::{ExecuteCodeRequest, RuntimesKey};

fn key(code: &str, input: Option<&str>) -> ExecuteCodeRequest {
    ExecuteCodeRequest {
        code: code.to_string(),
        language: "python".to_string(),
        version: None,
        input: input.map(|s| s.to_string()),
    }
}

#[test]
fn cached_success_is_served_within_ttl() {
    let mut cache: MemoCache<ExecuteCodeRequest, u64> = MemoCache::new(CACHE_TTL_MILLIS);
    cache.begin_flight(key("a", None));
    cache.finish_flight(key("a", None), 7, 1000);
    assert_eq!(cache.lookup(&key("a", None), 1000), Some(&7));
    assert_eq!(cache.lookup(&key("a", None), 1000 + CACHE_TTL_MILLIS - 1), Some(&7));
}

#[test]
fn entry_expires_after_ttl() {
    let mut cache: MemoCache<ExecuteCodeRequest, u64> = MemoCache::new(CACHE_TTL_MILLIS);
    cache.begin_flight(key("a", None));
    cache.finish_flight(key("a", None), 7, 1000);
    assert_eq!(cache.lookup(&key("a", None), 1000 + CACHE_TTL_MILLIS), None);
    assert_eq!(cache.probe(&key("a", None), 1000 + CACHE_TTL_MILLIS), CacheDecision::Lead);
}

#[test]
fn structurally_equal_requests_share_the_entry() {
    let mut cache: MemoCache<ExecuteCodeRequest, u64> = MemoCache::new(CACHE_TTL_MILLIS);
    cache.begin_flight(key("sum", Some("1\n2")));
    cache.finish_flight(key("sum", Some("1\n2")), 3, 50);
    // A fresh, structurally equal value hits the same entry; all callers
    // observe the same result.
    assert_eq!(cache.lookup(&key("sum", Some("1\n2")), 60), Some(&3));
    assert_eq!(cache.probe(&key("sum", Some("1\n2")), 60), CacheDecision::Hit);
}

#[test]
fn failures_are_never_cached() {
    let mut cache: MemoCache<ExecuteCodeRequest, u64> = MemoCache::new(CACHE_TTL_MILLIS);
    assert_eq!(cache.probe(&key("a", None), 10), CacheDecision::Lead);
    cache.begin_flight(key("a", None));
    // The underlying call failed: the flight is cancelled, nothing stored.
    cache.cancel_flight(&key("a", None));
    assert_eq!(cache.lookup(&key("a", None), 11), None);
    // The next identical request recomputes.
    assert_eq!(cache.probe(&key("a", None), 11), CacheDecision::Lead);
}

#[test]
fn second_caller_follows_the_flight_in_progress() {
    let mut cache: MemoCache<ExecuteCodeRequest, u64> = MemoCache::new(CACHE_TTL_MILLIS);
    assert_eq!(cache.probe(&key("a", None), 10), CacheDecision::Lead);
    cache.begin_flight(key("a", None));
    // While the call is underway, an equal request must not start a second
    // one.
    assert_eq!(cache.probe(&key("a", None), 12), CacheDecision::Follow);
    cache.finish_flight(key("a", None), 9, 20);
    assert_eq!(cache.probe(&key("a", None), 21), CacheDecision::Hit);
}

#[test]
fn distinct_keys_do_not_contend() {
    let mut cache: MemoCache<ExecuteCodeRequest, u64> = MemoCache::new(CACHE_TTL_MILLIS);
    cache.begin_flight(key("a", None));
    // A different key proceeds independently of the flight for "a".
    assert_eq!(cache.probe(&key("b", None), 10), CacheDecision::Lead);
    assert_eq!(cache.probe(&key("a", Some("x")), 10), CacheDecision::Lead);
}

#[test]
fn newer_success_replaces_the_entry() {
    let mut cache: MemoCache<ExecuteCodeRequest, u64> = MemoCache::new(CACHE_TTL_MILLIS);
    cache.finish_flight(key("a", None), 1, 100);
    cache.finish_flight(key("a", None), 2, 200);
    assert_eq!(cache.lookup(&key("a", None), 250), Some(&2));
}

#[test]
fn runtime_listing_shares_one_key() {
    let mut cache: MemoCache<RuntimesKey, u64> = MemoCache::new(CACHE_TTL_MILLIS);
    cache.begin_flight(RuntimesKey);
    cache.finish_flight(RuntimesKey, 4, 0);
    assert_eq!(cache.lookup(&RuntimesKey, CACHE_TTL_MILLIS - 1), Some(&4));
    assert_eq!(cache.lookup(&RuntimesKey, CACHE_TTL_MILLIS), None);
}
