use cache_proxy::config::{Args, Mode};
use cache_proxy::error::ProxyError;
use cache_proxy::handler::{
    after_fetch, after_lookup, begin, CacheStatus, Reply, Step, STATUS_BAD_GATEWAY,
    STATUS_BAD_REQUEST, STATUS_OK,
};
use cache_proxy::key::cache_key;
use cache_proxy::memory::{finish_with_memory, start_with_memory};
use cache_proxy::store::MemoryStore;

const ORIGIN: &str = "http://example.com";

/// Runs one request against the store, handing the origin's answer in only
/// when the handler asks for it. Returns the reply and whether the origin was
/// asked.
fn run(store: &mut MemoryStore, origin: &str, now_ms: u64, fetched: Result<String, ProxyError>) -> (Reply, bool) {
    match start_with_memory(store, origin, now_ms) {
        Step::Respond { reply } => (reply, false),
        Step::FetchOrigin { key } => (finish_with_memory(store, key, fetched, now_ms), true),
        other => panic!("unexpected step {:?}", other),
    }
}

#[test]
fn cache_key_normalizes_the_url() {
    let key = cache_key(ORIGIN).unwrap();
    assert_eq!(key, "http://example.com/");
    assert_eq!(cache_key("HTTP://Example.COM/a/../b?q=1").unwrap(), "http://example.com/b?q=1");
}

#[test]
fn cache_key_is_deterministic() {
    let a = cache_key("https://example.org:443/path").unwrap();
    let b = cache_key("https://example.org:443/path").unwrap();
    assert_eq!(a, b);
    assert_eq!(a, "https://example.org/path");
}

#[test]
fn cache_key_rejects_a_malformed_origin() {
    assert_eq!(cache_key("not a url"), Err(ProxyError::InvalidOriginUrl));
    assert_eq!(cache_key(""), Err(ProxyError::InvalidOriginUrl));
}

#[test]
fn invalid_origin_is_a_bad_request_without_store_or_upstream() {
    let mut store = MemoryStore::new(60);
    let (reply, asked) = run(&mut store, "not a url", 0, Ok("body".to_string()));
    assert_eq!(reply.status, STATUS_BAD_REQUEST);
    assert_eq!(reply.status, 400);
    assert_eq!(reply.cache, None);
    assert!(!asked);
    let key = "not a url".to_string();
    assert_eq!(store.get(&key, 0), None);
}

#[test]
fn first_request_is_a_miss_and_fills_the_store() {
    let mut store = MemoryStore::new(60);
    let (reply, asked) = run(&mut store, ORIGIN, 1_000, Ok("<p>hi</p>".to_string()));
    assert!(asked);
    assert_eq!(reply.status, STATUS_OK);
    assert_eq!(reply.cache, Some(CacheStatus::Miss));
    assert_eq!(reply.body, "<p>hi</p>");
    let key = cache_key(ORIGIN).unwrap();
    assert_eq!(store.get(&key, 1_000), Some("<p>hi</p>".to_string()));
}

#[test]
fn second_request_within_ttl_is_a_hit() {
    let mut store = MemoryStore::new(60);
    let (first, _) = run(&mut store, ORIGIN, 1_000, Ok("<p>hi</p>".to_string()));
    let (second, asked) = run(&mut store, ORIGIN, 60_999, Ok("other".to_string()));
    assert!(!asked);
    assert_eq!(second.status, 200);
    assert_eq!(second.cache, Some(CacheStatus::Hit));
    assert_eq!(second.body, first.body);
}

#[test]
fn request_after_ttl_is_a_miss_again() {
    let mut store = MemoryStore::new(60);
    run(&mut store, ORIGIN, 1_000, Ok("old".to_string()));
    let (reply, asked) = run(&mut store, ORIGIN, 61_000, Ok("new".to_string()));
    assert!(asked);
    assert_eq!(reply.cache, Some(CacheStatus::Miss));
    assert_eq!(reply.body, "new");
    let key = cache_key(ORIGIN).unwrap();
    assert_eq!(store.get(&key, 120_999), Some("new".to_string()));
    assert_eq!(store.get(&key, 121_000), None);
}

#[test]
fn racing_misses_leave_the_last_write() {
    let mut store = MemoryStore::new(60);
    let a = start_with_memory(&store, ORIGIN, 10);
    let b = start_with_memory(&store, ORIGIN, 20);
    let (ka, kb) = match (a, b) {
        (Step::FetchOrigin { key: ka }, Step::FetchOrigin { key: kb }) => (ka, kb),
        other => panic!("expected two misses, got {:?}", other),
    };
    finish_with_memory(&mut store, ka, Ok("first".to_string()), 10);
    finish_with_memory(&mut store, kb, Ok("second".to_string()), 20);
    let key = cache_key(ORIGIN).unwrap();
    assert_eq!(store.get(&key, 30), Some("second".to_string()));
}

#[test]
fn flush_turns_a_hit_into_a_miss() {
    let mut store = MemoryStore::new(60);
    run(&mut store, ORIGIN, 0, Ok("cached".to_string()));
    let (hit, _) = run(&mut store, ORIGIN, 5, Ok("unused".to_string()));
    assert_eq!(hit.cache, Some(CacheStatus::Hit));
    store.clear_all();
    let (after, asked) = run(&mut store, ORIGIN, 6, Ok("fresh".to_string()));
    assert!(asked);
    assert_eq!(after.cache, Some(CacheStatus::Miss));
    assert_eq!(after.body, "fresh");
}

#[test]
fn upstream_failure_is_a_bad_gateway_and_keeps_the_entry() {
    let mut store = MemoryStore::new(1);
    run(&mut store, ORIGIN, 0, Ok("kept".to_string()));
    let (reply, asked) = run(&mut store, ORIGIN, 5_000, Err(ProxyError::UpstreamUnreachable));
    assert!(asked);
    assert_eq!(reply.status, STATUS_BAD_GATEWAY);
    assert_eq!(reply.status, 502);
    assert_eq!(reply.cache, None);
    // the expired entry is still there with its value and stamp
    let key = cache_key(ORIGIN).unwrap();
    assert_eq!(store.get(&key, 5_000), None);
    assert_eq!(store.get(&key, 999), Some("kept".to_string()));
    let (err, _) = run(&mut store, ORIGIN, 5_000, Err(ProxyError::UpstreamError));
    assert_eq!(err.status, 502);
    assert_eq!(store.get(&key, 999), Some("kept".to_string()));
}

#[test]
fn zero_ttl_never_hits() {
    let mut store = MemoryStore::new(0);
    let key = "k".to_string();
    store.set(key.clone(), "v".to_string(), 100);
    assert_eq!(store.get(&key, 100), None);
    assert_eq!(store.ttl_seconds(), 0);
}

#[test]
fn clock_going_backwards_counts_as_no_age() {
    let mut store = MemoryStore::new(1);
    let key = "k".to_string();
    store.set(key.clone(), "v".to_string(), 5_000);
    assert_eq!(store.get(&key, 10), Some("v".to_string()));
    assert_eq!(store.get(&key, 5_999), Some("v".to_string()));
    assert_eq!(store.get(&key, 6_000), None);
}

#[test]
fn set_overwrites_and_keys_are_independent() {
    let mut store = MemoryStore::new(60);
    let a = "a".to_string();
    let b = "b".to_string();
    store.set(a.clone(), "1".to_string(), 0);
    store.set(b.clone(), "2".to_string(), 0);
    store.set(a.clone(), "3".to_string(), 0);
    assert_eq!(store.get(&a, 0), Some("3".to_string()));
    assert_eq!(store.get(&b, 0), Some("2".to_string()));
    assert_eq!(store.get(&"c".to_string(), 0), None);
}

#[test]
fn steps_of_a_request() {
    match begin(ORIGIN) {
        Step::ReadStore { key } => assert_eq!(key, "http://example.com/"),
        other => panic!("unexpected {:?}", other),
    }
    match begin("not a url") {
        Step::Respond { reply } => {
            assert_eq!(reply.status, 400);
            assert_eq!(reply.body, "");
        }
        other => panic!("unexpected {:?}", other),
    }
    match after_lookup("k".to_string(), Ok(Some("v".to_string()))) {
        Step::Respond { reply } => {
            assert_eq!(reply.cache, Some(CacheStatus::Hit));
            assert_eq!(reply.body, "v");
        }
        other => panic!("unexpected {:?}", other),
    }
    match after_lookup("k".to_string(), Err(ProxyError::StoreUnavailable)) {
        Step::FetchOrigin { key } => assert_eq!(key, "k"),
        other => panic!("unexpected {:?}", other),
    }
    match after_lookup("k".to_string(), Ok(None)) {
        Step::FetchOrigin { key } => assert_eq!(key, "k"),
        other => panic!("unexpected {:?}", other),
    }
    match after_fetch("k".to_string(), Ok("b".to_string()), 60) {
        Step::WriteThenRespond { key, value, ttl_seconds, reply } => {
            assert_eq!(key, "k");
            assert_eq!(value, "b");
            assert_eq!(ttl_seconds, 60);
            assert_eq!(reply.status, 200);
            assert_eq!(reply.cache, Some(CacheStatus::Miss));
            assert_eq!(reply.body, "b");
        }
        other => panic!("unexpected {:?}", other),
    }
}

#[test]
fn header_values() {
    assert_eq!(CacheStatus::Hit.header_value(), "HIT");
    assert_eq!(CacheStatus::Miss.header_value(), "MISS");
}

#[test]
fn default_args_and_mode() {
    let args = Args::default();
    assert_eq!(args.port, 3000);
    assert_eq!(args.origin, "http://localhost");
    assert_eq!(args.cache_ttl, 60);
    assert_eq!(args.redis_url, "redis://127.0.0.1/");
    assert!(!args.clear_cache);
    assert_eq!(args.mode(), Mode::Serve);
    let flush = Args { clear_cache: true, ..Args::default() };
    assert_eq!(flush.mode(), Mode::FlushAll);
}
