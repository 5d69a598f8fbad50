use zarumet::cover_cache::{
    find_current_index, get_prefetch_targets, CoverArtCache, CoverLoad, MAX_CACHE_ENTRIES,
};
use zarumet::song::SongInfo;

fn song(path: &str) -> SongInfo {
    SongInfo {
        title: String::new(),
        artist: String::new(),
        album: String::new(),
        file_path: path.to_string(),
        format: None,
        play_state: None,
        elapsed_ms: None,
        duration_ms: None,
        disc_number: 0,
        track_number: 0,
    }
}

#[test]
fn test_cache_insert_and_get() {
    let mut cache = CoverArtCache::new();
    let path = "/music/song.mp3".to_string();

    cache.insert(path.clone(), Some(vec![1, 2, 3]));

    let cached = cache.get(&path);
    assert!(cached.is_some());
    assert_eq!(cached.unwrap().data, Some(vec![1, 2, 3]));
}

#[test]
fn test_cache_lru_eviction() {
    let mut cache = CoverArtCache::new();

    // Fill cache beyond capacity
    for i in 0..(MAX_CACHE_ENTRIES + 5) {
        let path = format!("/music/song{}.mp3", i);
        cache.insert(path, Some(vec![i as u8]));
    }

    // Should have evicted oldest entries
    assert_eq!(cache.stats().2, MAX_CACHE_ENTRIES);

    // First entries should be evicted
    assert!(!cache.contains("/music/song0.mp3"));
    assert!(!cache.contains("/music/song4.mp3"));

    // Last entries should still be present
    let last_idx = MAX_CACHE_ENTRIES + 4;
    assert!(cache.contains(&format!("/music/song{}.mp3", last_idx)));
}

#[test]
fn test_cache_none_data() {
    let mut cache = CoverArtCache::new();
    let path = "/music/no_cover.mp3".to_string();

    // Should be able to cache "no cover" result
    cache.insert(path.clone(), None);

    let cached = cache.get(&path);
    assert!(cached.is_some());
    assert_eq!(cached.unwrap().data, None);
}

#[test]
fn test_pending_tracking() {
    let mut cache = CoverArtCache::new();
    let path = "/music/song.mp3".to_string();

    assert!(!cache.is_pending(&path));
    cache.mark_pending(path.clone());
    assert!(cache.is_pending(&path));

    // Insert clears pending
    cache.insert(path.clone(), Some(vec![]));
    assert!(!cache.is_pending(&path));
}

#[test]
fn cover_cache_get_refreshes_recency() {
    let mut cache = CoverArtCache::new();
    for i in 0..MAX_CACHE_ENTRIES {
        cache.insert(format!("p{}", i), None);
    }
    // Touch the oldest so that p1 becomes the least recently used.
    assert!(cache.get("p0").is_some());
    cache.insert("new".to_string(), Some(vec![9]));
    assert!(cache.contains("p0"));
    assert!(!cache.contains("p1"));
    assert!(cache.contains("new"));
    assert_eq!(cache.stats(), (1, 0, MAX_CACHE_ENTRIES));
}

#[test]
fn cover_cache_reinsert_updates_without_eviction() {
    let mut cache = CoverArtCache::new();
    for i in 0..MAX_CACHE_ENTRIES {
        cache.insert(format!("p{}", i), None);
    }
    cache.insert("p0".to_string(), Some(vec![1]));
    assert_eq!(cache.stats().2, MAX_CACHE_ENTRIES);
    assert!(cache.contains("p1"));
    assert_eq!(cache.get("p0").unwrap().data, Some(vec![1]));
    assert!(cache.get("missing").is_none());
    assert_eq!(cache.stats(), (1, 1, MAX_CACHE_ENTRIES));
    cache.clear();
    assert_eq!(cache.stats(), (1, 1, 0));
    assert!(!cache.contains("p0"));
}

#[test]
fn cover_cache_load_decisions() {
    let mut cache = CoverArtCache::new();
    assert!(matches!(cache.begin_load("a"), CoverLoad::Fetch));
    assert!(cache.is_pending("a"));
    assert!(matches!(cache.begin_load("a"), CoverLoad::AlreadyPending));
    cache.insert("a".to_string(), Some(vec![7]));
    match cache.begin_load("a") {
        CoverLoad::Cached(d) => assert_eq!(d, Some(vec![7])),
        _ => panic!("expected a cached cover"),
    }
    assert!(!cache.begin_prefetch("a"));
    assert!(cache.begin_prefetch("b"));
    assert!(!cache.begin_prefetch("b"));
}

#[test]
fn cover_cache_prefetch_targets() {
    let queue: Vec<SongInfo> = (0..6).map(|i| song(&format!("s{}", i))).collect();
    assert_eq!(get_prefetch_targets(&queue, None), Vec::<String>::new());
    assert_eq!(get_prefetch_targets(&queue, Some(0)), vec!["s1", "s2", "s3"]);
    assert_eq!(get_prefetch_targets(&queue, Some(2)), vec!["s3", "s4", "s5", "s1"]);
    assert_eq!(get_prefetch_targets(&queue, Some(4)), vec!["s5", "s3"]);
    assert_eq!(get_prefetch_targets(&queue, Some(6)), vec!["s5"]);
}

#[test]
fn cover_cache_current_index() {
    let queue = vec![song("a"), song("b"), song("b")];
    assert_eq!(find_current_index(&queue, &None), None);
    assert_eq!(find_current_index(&queue, &Some(song("b"))), Some(1));
    assert_eq!(find_current_index(&queue, &Some(song("z"))), None);
}
