use reddit_rss::cache::{CacheLookup, ScoreCache, SCORE_CACHE_CAPACITY, SCORE_CACHE_TTL_MS};

fn url(s: &str) -> String {
    String::from(s)
}

#[test]
fn single_flight_per_key() {
    // Two callers ask for the same uncached URL: the first fetches, the
    // second waits — one upstream fetch.
    let mut cache = ScoreCache::new(SCORE_CACHE_CAPACITY, SCORE_CACHE_TTL_MS);
    let key = url("r/rust/comments/1/");
    let mut upstream_fetches = 0;
    match cache.begin_get(&key, 0) {
        CacheLookup::Fetch => upstream_fetches += 1,
        other => panic!("unexpected lookup {:?}", other),
    }
    assert_eq!(cache.begin_get(&key, 0), CacheLookup::Wait);
    assert_eq!(cache.begin_get(&key, 5), CacheLookup::Wait);
    assert_eq!(upstream_fetches, 1);

    // A different key is not held up by that fetch.
    assert_eq!(cache.begin_get(&url("r/rust/comments/2/"), 0), CacheLookup::Fetch);
}

#[test]
fn hit_within_ttl_and_refresh_after() {
    let mut cache = ScoreCache::new(10, 1000);
    let key = url("a");
    assert_eq!(cache.begin_get(&key, 0), CacheLookup::Fetch);
    cache.complete_fetch(&key, Some(7), 0);
    assert_eq!(cache.begin_get(&key, 999), CacheLookup::Hit { score: 7 });
    // The time-to-live has elapsed: the entry is refreshed upstream.
    assert_eq!(cache.begin_get(&key, 1000), CacheLookup::Fetch);
    cache.complete_fetch(&key, Some(9), 1000);
    assert_eq!(cache.begin_get(&key, 1500), CacheLookup::Hit { score: 9 });
}

#[test]
fn failed_fetch_is_not_cached() {
    let mut cache = ScoreCache::new(10, 1000);
    let key = url("a");
    assert_eq!(cache.begin_get(&key, 0), CacheLookup::Fetch);
    cache.complete_fetch(&key, None, 0);
    // The next call retries upstream rather than waiting or hitting.
    assert_eq!(cache.begin_get(&key, 1), CacheLookup::Fetch);
}

#[test]
fn capacity_evicts_the_front_entry() {
    let mut cache = ScoreCache::new(1, 1000);
    let a = url("a");
    let b = url("b");
    assert_eq!(cache.begin_get(&a, 0), CacheLookup::Fetch);
    cache.complete_fetch(&a, Some(1), 0);
    assert_eq!(cache.begin_get(&b, 0), CacheLookup::Fetch);
    cache.complete_fetch(&b, Some(2), 0);
    assert_eq!(cache.begin_get(&b, 1), CacheLookup::Hit { score: 2 });
    assert_eq!(cache.begin_get(&a, 1), CacheLookup::Fetch);
}

#[test]
fn same_key_is_replaced_not_duplicated() {
    let mut cache = ScoreCache::new(2, 10);
    let a = url("a");
    assert_eq!(cache.begin_get(&a, 0), CacheLookup::Fetch);
    cache.complete_fetch(&a, Some(1), 0);
    // Stale at 50: refreshed, replacing the old entry.
    assert_eq!(cache.begin_get(&a, 50), CacheLookup::Fetch);
    cache.complete_fetch(&a, Some(3), 50);
    assert_eq!(cache.begin_get(&a, 55), CacheLookup::Hit { score: 3 });
    assert_eq!(cache.entries.len(), 1);
}
