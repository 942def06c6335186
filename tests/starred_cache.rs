use trotd::{StarredCache, StarredEntry, DEFAULT_TTL_SECS};

fn strings(v: &[&str]) -> Vec<String> {
    v.iter().map(|s| s.to_string()).collect()
}

#[test]
fn test_starred_cache_roundtrip() {
    let mut cache = StarredCache::new(None);
    assert_eq!(cache.ttl_secs(), 3600);

    // Initially no starred repos
    assert!(cache.get_starred().is_none());

    // Save some starred repos
    let starred = strings(&["owner1/repo1", "owner2/repo2"]);
    cache.save_starred(starred.clone());

    // Should retrieve from cache
    let cached = cache.get_starred().unwrap();
    assert_eq!(cached.len(), 2);
    assert!(cached.contains(&"owner1/repo1".to_string()));
    assert!(cached.contains(&"owner2/repo2".to_string()));

    // Check is_starred
    assert!(cache.is_starred("owner1/repo1"));
    assert!(!cache.is_starred("owner3/repo3"));

    cache.clear();
    assert!(cache.get_starred().is_none());
}

#[test]
fn test_starred_cache_expiry() {
    let mut cache = StarredCache::with_ttl(0, None); // Immediate expiry

    // Save some starred repos
    cache.save_starred(strings(&["owner1/repo1"]));

    // Wait for expiry
    let rt = tokio::runtime::Runtime::new().unwrap();
    rt.block_on(async { tokio::time::sleep(std::time::Duration::from_millis(1100)).await });

    // Should be expired
    assert!(cache.get_starred().is_none());
}

#[test]
fn saved_list_is_read_back_until_ttl() {
    let mut cache = StarredCache::with_ttl(DEFAULT_TTL_SECS, None);
    cache.save_starred_at(strings(&["a/b", "c/d"]), 1000);
    assert_eq!(cache.get_starred_at(1000), Some(strings(&["a/b", "c/d"])));
    assert_eq!(cache.get_starred_at(4600), Some(strings(&["a/b", "c/d"])));
    assert_eq!(cache.get_starred_at(4601), None);
    // a clock that went back counts as age 0
    assert_eq!(cache.get_starred_at(10), Some(strings(&["a/b", "c/d"])));
}

#[test]
fn loaded_entry_expires_by_its_timestamp() {
    let cache = StarredCache::new(Some(StarredEntry::from_parts(500, strings(&["x/y"]))));
    assert!(cache.is_starred_at("x/y", 600));
    assert!(!cache.is_starred_at("x/z", 600));
    assert!(!cache.is_starred_at("x/y", 500 + 3601));
}

#[test]
fn save_overwrites_whole_list() {
    let mut cache = StarredCache::with_ttl(10, None);
    cache.save_starred_at(strings(&["a/b"]), 100);
    cache.save_starred_at(strings(&["c/d"]), 200);
    assert_eq!(cache.get_starred_at(205), Some(strings(&["c/d"])));
    let stored = cache.stored().as_ref().unwrap();
    assert_eq!(stored.timestamp(), 200);
}

#[test]
fn clock_reads_after_epoch() {
    let now = StarredCache::now();
    assert!(now > 1_600_000_000);
    let mut cache = StarredCache::with_ttl(60, None);
    cache.save_starred(strings(&["a/b"]));
    let stamp = cache.stored().as_ref().unwrap().timestamp();
    assert!(stamp >= now && stamp <= now + 60);
}

#[test]
fn repeated_names_are_kept_once() {
    let mut cache = StarredCache::with_ttl(60, None);
    cache.save_starred_at(strings(&["a/b", "c/d", "a/b"]), 10);
    assert_eq!(cache.get_starred_at(20), Some(strings(&["a/b", "c/d"])));
    let loaded = StarredCache::new(Some(StarredEntry::from_parts(10, strings(&["x/y", "x/y"]))));
    assert_eq!(loaded.stored().as_ref().unwrap().starred_repos(), &strings(&["x/y"]));
}
