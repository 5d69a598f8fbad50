use zarumet::actions::MPDAction;
use zarumet::library::LazyLibrary;
use zarumet::navigation::NavState;
use zarumet::session::{
    apply_status, plan_key_action, refresh_for, reload_message, selected_artist_name,
    selection_after_external_reload, selection_after_requested_reload, song_change, startup_rate,
    toggle_bit_perfect, artist_position, KeyRoute, MessageType, RateAction, RateTracker, Refresh,
    ReloadKind, ReloadSelection, ReloadTracker, Subsystem, SyncState, UpdatePlan,
};
use zarumet::song::{PlayState, SongInfo};

fn song(title: &str, file: &str, format: Option<&str>) -> SongInfo {
    SongInfo {
        title: title.to_string(),
        artist: "Artist".to_string(),
        album: "Album".to_string(),
        file_path: file.to_string(),
        format: format.map(|f| f.to_string()),
        play_state: None,
        elapsed_ms: None,
        duration_ms: Some(180_000),
        disc_number: 1,
        track_number: 1,
    }
}

fn library(names: &[&str]) -> LazyLibrary {
    LazyLibrary::from_artist_names(names.iter().map(|n| n.to_string()).collect())
}

#[test]
fn refresh_follows_the_subsystem() {
    assert_eq!(refresh_for(Subsystem::Player), Refresh::StatusAndSong);
    assert_eq!(refresh_for(Subsystem::Mixer), Refresh::StatusOnly);
    assert_eq!(refresh_for(Subsystem::Options), Refresh::StatusOnly);
    assert_eq!(refresh_for(Subsystem::Queue), Refresh::Full);
    assert_eq!(refresh_for(Subsystem::StoredPlaylist), Refresh::Full);
    assert_eq!(refresh_for(Subsystem::Update), Refresh::Library);
    assert_eq!(refresh_for(Subsystem::Database), Refresh::Nothing);
    assert_eq!(refresh_for(Subsystem::Output), Refresh::Nothing);
    assert_eq!(refresh_for(Subsystem::Other), Refresh::Nothing);
    assert_eq!(refresh_for(Subsystem::Unknown), Refresh::Full);
}

#[test]
fn first_update_fetches_everything_then_settles() {
    let mut s = SyncState::new();
    let p = s.plan(true, true, 7, Some(3));
    assert_eq!(p, UpdatePlan { fetch_queue: true, fetch_song: true });
    s.queue_fetched(7);
    s.song_fetched(Some(3));
    let q = s.plan(true, true, 7, Some(3));
    assert_eq!(q, UpdatePlan { fetch_queue: false, fetch_song: false });
    // A new queue version and another song are fetched again.
    let r = s.plan(true, true, 8, Some(4));
    assert_eq!(r, UpdatePlan { fetch_queue: true, fetch_song: true });
    // What is not needed is not fetched, changed or not.
    let t = s.plan(false, true, 8, Some(3));
    assert_eq!(t, UpdatePlan { fetch_queue: false, fetch_song: false });
}

#[test]
fn queue_selection_stays_in_the_queue() {
    let mut nav = NavState::new();
    nav.update_queue_selection(3);
    assert_eq!(nav.queue_selected, Some(0));
    assert_eq!(nav.selected_queue_index, Some(0));
    nav.queue_selected = Some(5);
    nav.update_queue_selection(3);
    assert_eq!(nav.queue_selected, Some(2));
    nav.update_queue_selection(0);
    assert_eq!(nav.queue_selected, None);
    assert_eq!(nav.selected_queue_index, None);
    nav.queue_selected = Some(1);
    nav.update_queue_selection(4);
    assert_eq!(nav.queue_selected, Some(1));
}

#[test]
fn requested_reload_is_announced_and_cleared() {
    let mut t = ReloadTracker::new();
    assert!(t.begin_refresh());
    assert!(t.user_initiated_reload);
    let m = t.refresh_started(Some("Beta".to_string()));
    assert_eq!(m, MessageType::InProgress);
    match t.on_database_updated() {
        ReloadKind::Requested { announce, previous_artist } => {
            assert!(announce);
            assert_eq!(previous_artist, Some("Beta".to_string()));
        }
        ReloadKind::External => panic!("expected a requested reload"),
    }
    assert!(!t.library_reload_pending);
    assert!(!t.user_initiated_reload);
    assert_eq!(t.pending_artist, None);
    // The next announcement is someone else's update.
    assert!(matches!(t.on_database_updated(), ReloadKind::External));
}

#[test]
fn refresh_is_dropped_while_an_update_runs() {
    let mut t = ReloadTracker::new();
    t.update_in_progress = true;
    assert!(!t.begin_refresh());
    assert!(!t.user_initiated_reload);
}

#[test]
fn reload_messages() {
    assert_eq!(reload_message(true, true), Some(MessageType::Success));
    assert_eq!(reload_message(true, false), Some(MessageType::Error));
    assert_eq!(reload_message(false, true), None);
    assert_eq!(reload_message(false, false), None);
}

#[test]
fn artist_found_again_by_name() {
    let lib = library(&["alpha", "Beta", "gamma"]);
    assert_eq!(artist_position(&lib, "Beta"), Some(1));
    assert_eq!(artist_position(&lib, "beta"), None);
    assert_eq!(
        selected_artist_name(&Some(library(&["alpha", "Beta"])), Some(1)),
        Some("Beta".to_string())
    );
    assert_eq!(selected_artist_name(&Some(library(&["alpha"])), Some(4)), None);
    assert_eq!(selected_artist_name(&None, Some(0)), None);

    let kept = selection_after_requested_reload(&lib, &Some("gamma".to_string()));
    assert_eq!(
        kept,
        ReloadSelection { select_artist: Some(2), load_artist: Some(2), clear_albums: true }
    );
    let gone = selection_after_requested_reload(&lib, &Some("delta".to_string()));
    assert_eq!(
        gone,
        ReloadSelection { select_artist: Some(0), load_artist: Some(0), clear_albums: true }
    );
    let empty = selection_after_requested_reload(&library(&[]), &Some("delta".to_string()));
    assert_eq!(
        empty,
        ReloadSelection { select_artist: None, load_artist: None, clear_albums: true }
    );
}

#[test]
fn external_reload_keeps_what_it_can() {
    let lib = library(&["alpha", "Beta", "gamma"]);
    assert_eq!(
        selection_after_external_reload(&lib, &Some("Beta".to_string())),
        ReloadSelection { select_artist: Some(1), load_artist: None, clear_albums: false }
    );
    assert_eq!(
        selection_after_external_reload(&lib, &Some("omega".to_string())),
        ReloadSelection { select_artist: Some(0), load_artist: None, clear_albums: true }
    );
    assert_eq!(
        selection_after_external_reload(&lib, &None),
        ReloadSelection { select_artist: Some(0), load_artist: Some(0), clear_albums: false }
    );
    assert_eq!(
        selection_after_external_reload(&library(&[]), &None),
        ReloadSelection { select_artist: None, load_artist: None, clear_albums: false }
    );
}

#[test]
fn sample_rate_follows_playback() {
    let rates = Some(vec![44100, 48000, 96000]);
    let mut t = RateTracker::new();
    // Inactive: nothing happens, nothing is remembered.
    assert_eq!(t.on_player_change(false, Some(PlayState::Playing), Some(96000), &rates), RateAction::Nothing);
    assert_eq!(t.last_play_state, None);
    // Playback starts: the song's rate is forced.
    assert_eq!(
        t.on_player_change(true, Some(PlayState::Playing), Some(96000), &rates),
        RateAction::SetRate(96000)
    );
    // The same state again asks nothing.
    assert_eq!(t.on_player_change(true, Some(PlayState::Playing), Some(96000), &rates), RateAction::Nothing);
    // A song of another rate: the best supported rate for it.
    assert_eq!(
        t.on_player_change(true, Some(PlayState::Playing), Some(88200), &rates),
        RateAction::SetRate(44100)
    );
    // Pausing after playback lets the server choose again.
    assert_eq!(t.on_player_change(true, Some(PlayState::Paused), Some(88200), &rates), RateAction::Reset);
    // Stopping after a pause asks nothing.
    assert_eq!(t.on_player_change(true, Some(PlayState::Stopped), Some(88200), &rates), RateAction::Nothing);
    // Unknown supported rates: nothing to force.
    assert_eq!(t.on_player_change(true, Some(PlayState::Playing), Some(48000), &None), RateAction::Nothing);
}

#[test]
fn unknown_state_resets_the_rate() {
    let mut t = RateTracker::new();
    assert_eq!(t.on_player_change(true, None, None, &None), RateAction::Reset);
}

#[test]
fn bit_perfect_toggles() {
    let rates = Some(vec![44100, 48000]);
    assert_eq!(
        toggle_bit_perfect(false, true, Some(PlayState::Playing), Some(96000), &rates),
        (true, RateAction::SetRate(48000))
    );
    assert_eq!(
        toggle_bit_perfect(true, true, Some(PlayState::Playing), Some(96000), &rates),
        (false, RateAction::Reset)
    );
    assert_eq!(
        toggle_bit_perfect(false, false, Some(PlayState::Playing), Some(96000), &rates),
        (false, RateAction::Nothing)
    );
    assert_eq!(
        toggle_bit_perfect(false, true, Some(PlayState::Paused), Some(96000), &rates),
        (true, RateAction::Nothing)
    );
    // Twice gives back the mode.
    let (on, _) = toggle_bit_perfect(false, true, None, None, &rates);
    let (off, last) = toggle_bit_perfect(on, true, None, None, &rates);
    assert!(!off);
    assert_eq!(last, RateAction::Reset);
    assert_eq!(
        startup_rate(true, Some(PlayState::Playing), Some(44100), &rates),
        RateAction::SetRate(44100)
    );
    assert_eq!(startup_rate(false, Some(PlayState::Playing), Some(44100), &rates), RateAction::Nothing);
}

#[test]
fn key_actions_are_routed() {
    let p = plan_key_action(MPDAction::Quit, 3);
    assert_eq!(p.route, KeyRoute::Quit);
    assert!(!p.force_update);
    assert_eq!(plan_key_action(MPDAction::ToggleBitPerfect, 3).route, KeyRoute::ToggleBitPerfect);
    let n = plan_key_action(MPDAction::Next, 0);
    assert_eq!(n.route, KeyRoute::Ignore);
    assert!(n.force_update);
    assert_eq!(plan_key_action(MPDAction::Previous, 2).route, KeyRoute::Navigate(MPDAction::Previous));
    let s = plan_key_action(MPDAction::ScrollDown, 0);
    assert_eq!(s.route, KeyRoute::Navigate(MPDAction::ScrollDown));
    assert!(!s.force_update);
    assert!(plan_key_action(MPDAction::VolumeUp, 0).force_update);
}

#[test]
fn song_changes_are_noticed() {
    let a = Some(song("A", "a.flac", None));
    let c = song_change(&Some("a.flac".to_string()), &a);
    assert!(!c.changed);
    let d = song_change(&Some("b.flac".to_string()), &a);
    assert!(d.changed);
    assert!(!d.clear_image);
    let e = song_change(&Some("b.flac".to_string()), &None);
    assert!(e.changed);
    assert!(e.clear_image);
    assert!(!song_change(&None, &None).changed);
    assert!(song_change(&None, &a).changed);
}

#[test]
fn status_is_applied_to_the_current_song() {
    let mut cur = Some(song("A", "a.flac", Some("44100:16:2")));
    apply_status(&mut cur, PlayState::Paused, Some(1500), Some(180_000));
    let s = cur.unwrap();
    assert_eq!(s.play_state, Some(PlayState::Paused));
    assert_eq!(s.elapsed_ms, Some(1500));
    assert_eq!(s.title, "A");
    let mut none: Option<SongInfo> = None;
    apply_status(&mut none, PlayState::Playing, None, None);
    assert!(none.is_none());
}
