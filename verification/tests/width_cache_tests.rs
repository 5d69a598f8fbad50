use zarumet::layout::{
    center_image, ellipsize, format_duration, left_align, left_align_cached, truncate_by_width,
    truncate_by_width_cached, Rect,
};
use zarumet::width_cache::WidthCache;

#[test]
fn test_basic_caching() {
    let mut cache = WidthCache::new();

    let width = cache.get_width("hello");
    assert_eq!(width, 5);
    assert_eq!(cache.misses(), 1);
    assert_eq!(cache.hits(), 0);

    let width = cache.get_width("hello");
    assert_eq!(width, 5);
    assert_eq!(cache.misses(), 1);
    assert_eq!(cache.hits(), 1);
}

#[test]
fn test_unicode_width() {
    let mut cache = WidthCache::new();

    assert_eq!(cache.get_width("hello"), 5);
    assert_eq!(cache.get_width("中文"), 4);

    let mixed = "Hello 世界";
    let width = cache.get_width(mixed);
    assert_eq!(width, 10);
}

#[test]
fn test_peek_width() {
    let mut cache = WidthCache::new();

    assert_eq!(cache.peek_width("test"), None);

    cache.get_width("test");

    assert_eq!(cache.peek_width("test"), Some(4));
}

#[test]
fn test_empty_string() {
    let mut cache = WidthCache::new();
    assert_eq!(cache.get_width(""), 0);
}

#[test]
fn counters_track_accesses() {
    let mut cache = WidthCache::new();
    assert!(cache.is_empty());
    assert_eq!(cache.total_accesses(), 0);
    cache.get_width("a");
    cache.get_width("a");
    cache.get_width("bb");
    assert_eq!(cache.hits(), 1);
    assert_eq!(cache.misses(), 2);
    assert_eq!(cache.total_accesses(), 3);
    assert_eq!(cache.len(), 2);
    assert!(cache.contains("bb"));
    assert!(!cache.contains("ccc"));
    cache.clear();
    assert!(cache.is_empty());
    assert_eq!(cache.hits(), 0);
    assert_eq!(cache.misses(), 0);
    assert_eq!(cache.peek_width("a"), None);
}

#[test]
fn truncation_pads_and_cuts() {
    assert_eq!(truncate_by_width("hello", 8), "hello   ");
    assert_eq!(truncate_by_width("hello world", 5), "hello");
    assert_eq!(truncate_by_width("中文字", 5), "中文 ");
    assert_eq!(truncate_by_width("", 3), "   ");
    assert_eq!(truncate_by_width("abc", 0), "");
}

#[test]
fn cached_truncation_matches_plain_truncation() {
    let mut cache = WidthCache::new();
    let long = "A fairly long artist name";
    assert_eq!(truncate_by_width_cached(&mut cache, long, 10), truncate_by_width(long, 10));
    cache.get_width(long);
    assert_eq!(
        truncate_by_width_cached(&mut cache, long, 30),
        format!("{}{}", long, " ".repeat(5))
    );
    assert_eq!(truncate_by_width_cached(&mut cache, "short", 7), "short  ");
}

#[test]
fn alignment_pads_or_truncates() {
    let mut cache = WidthCache::new();
    assert_eq!(left_align_cached(&mut cache, "abc", 6), "abc   ");
    assert!(cache.contains("abc"));
    assert_eq!(left_align_cached(&mut cache, "abcdef", 4), "abcd");
    assert_eq!(left_align("abc", 5), "abc  ");
    assert_eq!(left_align("abcdef", 3), "abc");
    assert_eq!(left_align("abc", 3), "abc");
}

#[test]
fn durations_are_minutes_and_seconds() {
    assert_eq!(format_duration(0), "00:00");
    assert_eq!(format_duration(65), "01:05");
    assert_eq!(format_duration(3599), "59:59");
    assert_eq!(format_duration(6000), "100:00");
}

#[test]
fn ellipsis_only_when_too_wide() {
    assert_eq!(ellipsize("short", 10), "short");
    assert_eq!(ellipsize("a long line of text", 10), "a long ...");
}

#[test]
fn image_is_centered() {
    let image = Rect { x: 0, y: 0, width: 10, height: 4 };
    let area = Rect { x: 5, y: 2, width: 20, height: 10 };
    let r = center_image(image, area);
    assert_eq!(r, Rect { x: 10, y: 5, width: 10, height: 4 });
}

#[test]
fn bench_truncation_performance() {
    let test_strings = vec![
        "This is a very long string that will need truncation",
        "Short",
        "Mixed Unicode: Hello 世界 🌍 with emoji",
        "Artist Name - Very Long Album Title (Special Edition)",
    ];
    let max_width = 20;
    let mut cache = WidthCache::new();
    for _ in 0..5 {
        for s in &test_strings {
            assert_eq!(truncate_by_width_cached(&mut cache, s, max_width), truncate_by_width(s, max_width));
        }
    }
    // Cached widths give the same text too.
    for s in &test_strings {
        cache.get_width(s);
        assert_eq!(truncate_by_width_cached(&mut cache, s, max_width), truncate_by_width(s, max_width));
        assert_eq!(truncate_by_width_cached(&mut cache, s, 80), truncate_by_width(s, 80));
        assert_eq!(left_align_cached(&mut cache, s, 30), left_align(s, 30));
    }
}

#[test]
fn new_and_cleared_caches_hold_nothing() {
    let mut cache = WidthCache::new();
    assert_eq!(cache.peek_width("test"), None);
    assert!(!cache.contains("test"));
    assert_eq!(cache.get_width("test"), 4);
    assert_eq!((cache.hits(), cache.misses()), (0, 1));
    assert_eq!(cache.peek_width("test"), Some(4));
    cache.clear();
    assert!(cache.is_empty());
    assert!(!cache.contains("test"));
    assert_eq!(cache.peek_width("test"), None);
    assert_eq!(cache.total_accesses(), 0);
}

#[test]
fn lookup_counts_hits_and_misses_exactly() {
    let mut cache = WidthCache::new();
    assert_eq!(cache.lookup_width("中文"), 4);
    assert_eq!((cache.hits(), cache.misses(), cache.len()), (0, 1, 1));
    assert_eq!(cache.lookup_width("中文"), 4);
    assert_eq!((cache.hits(), cache.misses(), cache.len()), (1, 1, 1));
}

#[test]
fn cache_never_holds_more_than_its_limit() {
    let mut cache = WidthCache::new();
    for i in 0..1100 {
        cache.get_width(&format!("entry number {}", i));
        assert!(cache.len() <= 1000);
    }
}
