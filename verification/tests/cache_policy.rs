use keyword_finder::cache::Cache;
use keyword_finder::cache::make_key;
use keyword_finder::cache::sentinel_bytes;
use keyword_finder::fetch::FetchError;
use keyword_finder::fetch::FetchStep;
use keyword_finder::fetch::fetch_begin;
use keyword_finder::fetch::fetch_finish;
use keyword_finder::fetch::fetch_result;
use keyword_finder::fetch::resolve_entry;
use keyword_finder::fetch::stored_value;

#[test]
fn sentinel_is_the_failed_marker() {
    assert_eq!(sentinel_bytes(), b"failed".to_vec());
}

#[test]
fn keys_carry_the_fetch_prefix() {
    assert_eq!(make_key("http://a.test"), "fetch:http://a.test".to_string());
    assert_eq!(make_key(""), "fetch:".to_string());
}

#[test]
fn cache_put_then_get() {
    let mut cache = Cache::new();
    assert_eq!(cache.get("fetch:http://a.test"), None);
    cache.put("fetch:http://a.test".to_string(), b"body".to_vec());
    assert_eq!(cache.get("fetch:http://a.test"), Some(b"body".to_vec()));
    assert_eq!(cache.get("fetch:http://b.test"), None);
}

#[test]
fn cache_overwrite_wins() {
    let mut cache = Cache::new();
    cache.put("k".to_string(), b"one".to_vec());
    cache.put("k".to_string(), b"two".to_vec());
    assert_eq!(cache.get("k"), Some(b"two".to_vec()));
}

#[test]
fn fetch_twice_without_retry_uses_cache() {
    let mut cache = Cache::new();
    let url = "http://a.test";
    assert_eq!(fetch_begin(&cache, url, false), FetchStep::NeedFetch);
    let first = fetch_finish(&mut cache, url, Some(b"hello world".to_vec()));
    assert_eq!(first, Ok(b"hello world".to_vec()));
    match fetch_begin(&cache, url, false) {
        FetchStep::Resolved(second) => assert_eq!(second, Ok(b"hello world".to_vec())),
        FetchStep::NeedFetch => panic!("a cached success must not be fetched again"),
    }
}

#[test]
fn cached_success_survives_retry() {
    let mut cache = Cache::new();
    let url = "http://a.test";
    fetch_finish(&mut cache, url, Some(b"content".to_vec()));
    match fetch_begin(&cache, url, true) {
        FetchStep::Resolved(r) => assert_eq!(r, Ok(b"content".to_vec())),
        FetchStep::NeedFetch => panic!("a cached success must not be re-fetched, even on retry"),
    }
}

#[test]
fn failed_fetch_is_memoized() {
    let mut cache = Cache::new();
    let url = "http://down.test";
    assert_eq!(fetch_begin(&cache, url, false), FetchStep::NeedFetch);
    let first = fetch_finish(&mut cache, url, None);
    assert_eq!(first, Err(FetchError::Transport));
    assert_eq!(
        fetch_begin(&cache, url, false),
        FetchStep::Resolved(Err(FetchError::CachedFailure))
    );
}

#[test]
fn retry_overrides_a_cached_failure() {
    let mut cache = Cache::new();
    let url = "http://flaky.test";
    fetch_finish(&mut cache, url, None);
    assert_eq!(fetch_begin(&cache, url, true), FetchStep::NeedFetch);
    let second = fetch_finish(&mut cache, url, Some(b"recovered".to_vec()));
    assert_eq!(second, Ok(b"recovered".to_vec()));
    match fetch_begin(&cache, url, false) {
        FetchStep::Resolved(r) => assert_eq!(r, Ok(b"recovered".to_vec())),
        FetchStep::NeedFetch => panic!("the new success must be cached"),
    }
    match fetch_begin(&cache, url, true) {
        FetchStep::Resolved(r) => assert_eq!(r, Ok(b"recovered".to_vec())),
        FetchStep::NeedFetch => panic!("the new success must hold with retry too"),
    }
}

#[test]
fn resolve_entry_follows_the_policy() {
    assert_eq!(resolve_entry(None, false), FetchStep::NeedFetch);
    assert_eq!(resolve_entry(None, true), FetchStep::NeedFetch);
    assert_eq!(
        resolve_entry(Some(b"failed".to_vec()), false),
        FetchStep::Resolved(Err(FetchError::CachedFailure))
    );
    assert_eq!(resolve_entry(Some(b"failed".to_vec()), true), FetchStep::NeedFetch);
    assert_eq!(
        resolve_entry(Some(b"page".to_vec()), false),
        FetchStep::Resolved(Ok(b"page".to_vec()))
    );
    assert_eq!(
        resolve_entry(Some(b"page".to_vec()), true),
        FetchStep::Resolved(Ok(b"page".to_vec()))
    );
}

#[test]
fn stored_values_and_results() {
    assert_eq!(stored_value(&Some(b"abc".to_vec())), b"abc".to_vec());
    assert_eq!(stored_value(&None), b"failed".to_vec());
    assert_eq!(fetch_result(Some(b"abc".to_vec())), Ok(b"abc".to_vec()));
    assert_eq!(fetch_result(None), Err(FetchError::Transport));
}
