use jellyfin_rpc::cache::{CacheLookup, ImageUrl, UrlCache};

const HOUR: i64 = 3600;

#[test]
fn cache_round_trip_returns_cached_url() {
    let mut cache = UrlCache::empty();
    cache.put(ImageUrl::new("abc".to_string(), "http://x".to_string(), None));
    match cache.lookup("abc", 0) {
        CacheLookup::Fresh(url) => assert_eq!(url, "http://x"),
        _ => panic!("expected a fresh cache hit"),
    }
}

#[test]
fn cache_miss_reports_missing() {
    let cache = UrlCache::empty();
    assert!(matches!(cache.lookup("abc", 0), CacheLookup::Missing));
}

#[test]
fn entries_without_timestamp_never_expire() {
    let mut cache = UrlCache::empty();
    cache.put(ImageUrl::new("abc".to_string(), "http://x".to_string(), None));
    match cache.lookup("abc", 1_000_000 * HOUR) {
        CacheLookup::Fresh(url) => assert_eq!(url, "http://x"),
        _ => panic!("timestamp-free entries must never expire"),
    }
}

#[test]
fn stale_entry_is_not_returned_and_is_replaced_once() {
    let uploaded = 1_000_000;
    let now = uploaded + 73 * HOUR;
    let mut cache = UrlCache::empty();
    cache.put(ImageUrl::new("abc".to_string(), "http://old".to_string(), Some(uploaded)));

    // The stale entry is not returned as-is.
    assert!(matches!(cache.lookup("abc", now), CacheLookup::Expired));

    // The resolver removes it, uploads once, and stores the fresh link.
    let mut uploads = 0;
    cache.remove_entry("abc");
    uploads += 1;
    cache.put(ImageUrl::new("abc".to_string(), "http://new".to_string(), Some(now)));
    assert_eq!(uploads, 1);

    match cache.lookup("abc", now) {
        CacheLookup::Fresh(url) => assert_eq!(url, "http://new"),
        _ => panic!("the replacement entry must be fresh"),
    }
    assert_eq!(cache.entries.len(), 1);
}

#[test]
fn entry_below_72_hours_is_fresh() {
    let uploaded = 1_000_000;
    let mut cache = UrlCache::empty();
    cache.put(ImageUrl::new("abc".to_string(), "http://x".to_string(), Some(uploaded)));
    match cache.lookup("abc", uploaded + 71 * HOUR) {
        CacheLookup::Fresh(url) => assert_eq!(url, "http://x"),
        _ => panic!("a 71-hour-old entry is still fresh"),
    }
    assert!(matches!(
        cache.lookup("abc", uploaded + 72 * HOUR),
        CacheLookup::Expired
    ));
}

#[test]
fn lookup_keys_on_the_given_id_only() {
    let mut cache = UrlCache::from_entries(vec![
        ImageUrl::new("one".to_string(), "http://1".to_string(), None),
        ImageUrl::new("two".to_string(), "http://2".to_string(), None),
    ]);
    match cache.lookup("two", 0) {
        CacheLookup::Fresh(url) => assert_eq!(url, "http://2"),
        _ => panic!("expected the second entry"),
    }
    cache.remove_entry("one");
    assert!(matches!(cache.lookup("one", 0), CacheLookup::Missing));
    assert!(matches!(cache.lookup("two", 0), CacheLookup::Fresh(_)));
}
