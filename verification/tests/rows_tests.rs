use zarumet::layout::Rect;
use zarumet::render_cache::RenderCache;
use zarumet::rows::{
    album_entry_text, album_row_text, play_state_icon, progress_layout, queue_number_width,
    queue_rows, song_row_texts, track_row_texts, volume_icon, warnings_popup,
};
use zarumet::session::MessageType;
use zarumet::song::{PlayState, SongInfo};
use zarumet::status_line::{is_message_expired, status_text_at};
use zarumet::width_cache::WidthCache;

fn song(title: &str, artist: &str, album: &str, ms: Option<u64>) -> SongInfo {
    SongInfo {
        title: title.to_string(),
        artist: artist.to_string(),
        album: album.to_string(),
        file_path: format!("{}.flac", title),
        format: None,
        play_state: None,
        elapsed_ms: None,
        duration_ms: ms,
        disc_number: 1,
        track_number: 1,
    }
}

#[test]
fn album_entries_of_the_albums_view() {
    assert_eq!(album_entry_text("Blue", "Joni", 30), "Blue - Joni");
    assert_eq!(album_entry_text("Blue", "Joni", 10), "Blue -");
}

#[test]
fn track_rows_of_the_albums_view() {
    let (title, dur) = track_row_texts("Song", Some(125_000), 24);
    assert_eq!(dur, "  2:05");
    // 20 columns inside, 6 for the duration, 3 for the indent: 11 for the title.
    assert_eq!(title, "   Song       ");
    let (title, dur) = track_row_texts("A very long title", None, 24);
    assert_eq!(dur, "  --:--");
    assert_eq!(title, "   A very lon");
}

#[test]
fn album_rows_of_the_artists_view() {
    let mut wc = WidthCache::new();
    let mut rc = RenderCache::new();
    // 26 columns inside; "1:2:03" takes 6 and 4 more: 16 for the name.
    assert_eq!(
        album_row_text(&mut wc, &mut rc, "Album", Some(3723), 30),
        format!(" Album{}   1:2:03", "─".repeat(11))
    );
    // "--:--" takes 5: 17 for the name, which is cut.
    assert_eq!(
        album_row_text(&mut wc, &mut rc, "A long album name here", None, 30),
        " A long album name   --:--"
    );
}

#[test]
fn song_rows_of_the_artists_view() {
    let mut wc = WidthCache::new();
    let mut rc = RenderCache::new();
    let (title, dur) = song_row_texts(&mut wc, &mut rc, "Song", Some(61_000), 24);
    assert_eq!(dur, "  1:01");
    assert_eq!(title, "   Song       ");
}

#[test]
fn queue_layout() {
    assert_eq!(queue_number_width(0), 3);
    assert_eq!(queue_number_width(9), 3);
    assert_eq!(queue_number_width(10), 4);
    assert_eq!(queue_number_width(5000), 6);

    let mut wc = WidthCache::new();
    let mut rc = RenderCache::new();
    let queue = vec![song("One", "Artist", "Album", Some(61_000)), song("Two", "B", "C", None)];
    let current = Some(queue[1].clone());
    let rows = queue_rows(&mut wc, &mut rc, &queue, Some(0), &current, 50);
    assert_eq!(rows.len(), 2);
    // 46 inside; 3 + 10 taken: 33 left, 11 for each field.
    assert_eq!(rows[0].number, "1. ");
    assert_eq!(rows[0].title, "One        ");
    assert_eq!(rows[0].artist, "Artist     ");
    assert_eq!(rows[0].duration, "1:01");
    assert!(rows[0].selected);
    assert!(!rows[0].playing);
    // "1. " + 3 fields of 11 + 2 separators of 3 + "1:01" = 46 columns; 4 more to the edge.
    assert_eq!(rows[0].padding, Some("    ".to_string()));
    assert_eq!(rows[1].duration, " (--:--)");
    assert!(rows[1].playing);
    assert!(!rows[1].selected);
    assert_eq!(rows[1].padding, None);
}

#[test]
fn progress_bar_layout() {
    let mut rc = RenderCache::new();
    let p = progress_layout(&mut rc, 40, 50, Some(65), Some(200));
    assert_eq!(p.times, vec![" ", "1:05", "/", "3:20", " "]);
    // 40 columns, 5 for the icon and spaces, 11 for the time: a bar of 24.
    assert_eq!(p.filled, "━".repeat(12));
    assert_eq!(p.empty, "━".repeat(12));
    let q = progress_layout(&mut rc, 10, 100, None, None);
    assert_eq!(q.times, vec![" --:--/--:-- "]);
    assert!(q.filled.is_empty());
    assert!(q.empty.is_empty());
}

#[test]
fn icons() {
    assert_eq!(play_state_icon(Some(PlayState::Playing)), "⏸");
    assert_eq!(play_state_icon(Some(PlayState::Paused)), "▶");
    assert_eq!(play_state_icon(None), "⏹");
    assert_eq!(volume_icon(0), "󰝟");
    assert_eq!(volume_icon(32), "󰕿");
    assert_eq!(volume_icon(33), "󰖀");
    assert_eq!(volume_icon(66), "󰕾");
}

#[test]
fn status_texts() {
    assert_eq!(status_text_at(MessageType::InProgress, 0, ""), "Updating.  ");
    assert_eq!(status_text_at(MessageType::InProgress, 700, ""), "Updating.. ");
    assert_eq!(status_text_at(MessageType::InProgress, 1200, ""), "Updating...");
    assert_eq!(status_text_at(MessageType::InProgress, 1500, ""), "Updating.  ");
    assert_eq!(status_text_at(MessageType::Success, 0, "x"), "Updated!  ");
    assert_eq!(status_text_at(MessageType::Error, 0, "broken"), "broken");
}

#[test]
fn warnings_popup_placement() {
    let screen = Rect { x: 0, y: 0, width: 80, height: 24 };
    let (r, text) = warnings_popup(screen, &vec!["short".to_string()]);
    // The title (24 columns) is the widest line: 30 columns, 6 lines.
    assert_eq!(r, Rect { x: 25, y: 9, width: 30, height: 6 });
    assert_eq!(text, 26);
    let long = "x".repeat(100);
    let (r, text) = warnings_popup(screen, &vec![long]);
    assert_eq!(r.width, 76);
    assert_eq!(r.x, 2);
    assert_eq!(text, 72);
}

#[test]
fn finished_messages_expire_after_three_seconds() {
    assert!(!is_message_expired(MessageType::InProgress, 10_000));
    assert!(!is_message_expired(MessageType::Success, 3000));
    assert!(is_message_expired(MessageType::Success, 3001));
    assert!(is_message_expired(MessageType::Error, 5000));
    assert!(!is_message_expired(MessageType::Error, 0));
}
