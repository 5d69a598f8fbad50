use zarumet::render_cache::{
    DurationCache, FileTypeCache, FillerCache, QueuePositionCache, RenderCache, VolumeBarCache,
};

#[test]
fn test_filler_cache() {
    let cache = FillerCache::new();

    assert_eq!(cache.spaces(0), "");
    assert_eq!(cache.spaces(1), " ");
    assert_eq!(cache.spaces(5), "     ");

    assert_eq!(cache.dashes(0), "");
    assert_eq!(cache.dashes(3), "───");

    assert_eq!(cache.progress_chars(2), "━━");
}

#[test]
fn test_duration_cache() {
    let mut cache = DurationCache::new();

    assert_eq!(cache.format_short(0), "0:00");
    assert_eq!(cache.format_short(65), "1:05");
    assert_eq!(cache.format_short(3661), "61:01");

    assert_eq!(cache.format_long(65), "1:05");
    assert_eq!(cache.format_long(3661), "1:1:01");
    assert_eq!(cache.format_long(7322), "2:2:02");

    assert_eq!(cache.format_prefixed(65), "  1:05");
}

#[test]
fn test_volume_bar_cache() {
    let mut cache = VolumeBarCache::new();

    assert_eq!(cache.filled(50), "█████");
    assert_eq!(cache.empty(50), "█████");
    assert_eq!(cache.percent(50), " 50%");

    assert_eq!(cache.filled(100), "██████████");
    assert_eq!(cache.empty(100), "");
    assert_eq!(cache.percent(100), " 100%");
}

#[test]
fn test_queue_position_cache() {
    let cache = QueuePositionCache::new();

    assert_eq!(cache.get(0), "1. ");
    assert_eq!(cache.get(1), "2. ");
    assert_eq!(cache.get(9), "10. ");
    assert_eq!(cache.get(99), "100. ");
    assert_eq!(cache.get(999), "1000. ");

    // Beyond the kept positions the fallback is returned
    assert_eq!(cache.get(10000), "?. ");
}

#[test]
fn test_file_type_cache() {
    let mut cache = FileTypeCache::new();

    // Common extensions are pre-populated
    assert_eq!(cache.get_uppercase("flac"), "FLAC");
    assert_eq!(cache.get_uppercase("mp3"), "MP3");
    assert_eq!(cache.get_uppercase("opus"), "OPUS");

    // Case-insensitive lookup
    assert_eq!(cache.get_uppercase("FLAC"), "FLAC");
    assert_eq!(cache.get_uppercase("Flac"), "FLAC");

    // Unknown extension gets cached on first access
    assert_eq!(cache.get_uppercase("xyz"), "XYZ");
    assert!(cache.is_cached("xyz"));
}

#[test]
fn test_cache_reuse() {
    let mut cache = DurationCache::new();

    // First access computes
    let _ = cache.format_short(120);
    assert_eq!(cache.short_len(), 1);

    // Second access should reuse
    let _ = cache.format_short(120);
    assert_eq!(cache.short_len(), 1);

    // Different value adds to cache
    let _ = cache.format_short(180);
    assert_eq!(cache.short_len(), 2);
}

#[test]
fn render_cache_fillers_beyond_limit_are_empty() {
    let cache = FillerCache::new();
    assert_eq!(cache.spaces(256).chars().count(), 256);
    assert_eq!(cache.spaces(257), "");
    assert_eq!(cache.dashes(300), "");
    assert_eq!(cache.progress_chars(257), "");
}

#[test]
fn render_cache_duration_counts() {
    let mut cache = DurationCache::new();
    assert!(cache.is_empty());
    let _ = cache.format_short(5);
    let _ = cache.format_long(5);
    let _ = cache.format_long(5);
    let _ = cache.format_prefixed(9);
    assert_eq!(cache.len(), 3);
    assert!(!cache.is_empty());
    assert_eq!(cache.format_long(3600), "1:0:00");
    assert_eq!(cache.format_short(599), "9:59");
    assert_eq!(cache.format_prefixed(0), "  0:00");
}

#[test]
fn render_cache_volume_edges() {
    let mut cache = VolumeBarCache::new();
    assert_eq!(cache.filled(0), "");
    assert_eq!(cache.empty(0), "██████████");
    assert_eq!(cache.percent(0), " 0%");
    assert_eq!(cache.filled(255), "█████████████████████████");
    assert_eq!(cache.empty(255), "");
    assert_eq!(cache.filled(9), "");
}

#[test]
fn render_cache_new_combines_caches() {
    let mut cache = RenderCache::new();
    assert_eq!(cache.fillers.spaces(2), "  ");
    assert_eq!(cache.queue_positions.get(41), "42. ");
    assert_eq!(cache.durations.format_short(61), "1:01");
    assert_eq!(cache.volume_bars.percent(7), " 7%");
    assert_eq!(cache.file_types.get_uppercase("wv"), "WV");
    assert_eq!(cache.file_types.get_uppercase("Dsf"), "DSF");
}
