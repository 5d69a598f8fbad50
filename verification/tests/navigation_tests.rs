use zarumet::actions::MPDAction;
use zarumet::menu::{MenuMode, PanelFocus};
use zarumet::navigation::{
    album_index_at, scroll_down_index, scroll_up_index, wrap_down_index, wrap_up_index,
    ListSizes, NavEffect, NavState,
};

fn sizes(queue_len: usize) -> ListSizes {
    ListSizes {
        queue_len,
        artists_len: Some(3),
        artist_rows: Some(vec![true, false, false, true]),
        artist_album_count: Some(2),
        all_albums_len: Some(4),
        album_tracks_len: Some(2),
    }
}

#[test]
fn wrapping_moves() {
    assert_eq!(wrap_down_index(Some(2), 3), 0);
    assert_eq!(wrap_up_index(Some(0), 3), 2);
    assert_eq!(wrap_up_index(wrap_down_index(Some(1), 3).into(), 3), 1);
    assert_eq!(wrap_down_index(None, 3), 1);
    assert_eq!(scroll_down_index(Some(0), 40), 15);
    assert_eq!(scroll_down_index(Some(30), 40), 39);
    assert_eq!(scroll_down_index(Some(39), 40), 0);
    assert_eq!(scroll_up_index(Some(20), 40), 5);
    assert_eq!(scroll_up_index(Some(0), 40), 39);
}

#[test]
fn album_rows_map_to_albums() {
    let rows = vec![true, false, false, true];
    assert_eq!(album_index_at(&rows, 0, None), Some(0));
    assert_eq!(album_index_at(&rows, 3, None), Some(1));
    assert_eq!(album_index_at(&rows, 1, Some(0)), Some(0));
}

#[test]
fn queue_navigation() {
    let mut nav = NavState::new();
    let s = sizes(3);
    assert_eq!(nav.handle_navigation_action(MPDAction::QueueDown, &s), NavEffect::Nothing);
    assert_eq!(nav.queue_selected, Some(1));
    nav.handle_navigation_action(MPDAction::QueueUp, &s);
    nav.handle_navigation_action(MPDAction::QueueUp, &s);
    assert_eq!(nav.queue_selected, Some(2));
    assert_eq!(
        nav.handle_navigation_action(MPDAction::PlaySelected, &s),
        NavEffect::PlayQueuePosition(2)
    );
    assert_eq!(
        nav.handle_navigation_action(MPDAction::MoveUpInQueue, &s),
        NavEffect::MoveInQueue(2, 1)
    );
    assert_eq!(nav.handle_navigation_action(MPDAction::MoveDownInQueue, &s), NavEffect::Nothing);
    assert_eq!(
        nav.handle_navigation_action(MPDAction::RemoveFromQueue, &s),
        NavEffect::DeleteFromQueue(2)
    );
    nav.after_queue_delete(2, 2);
    assert_eq!(nav.queue_selected, Some(1));
    nav.after_queue_move(0);
    assert_eq!(nav.queue_selected, Some(0));
    assert_eq!(nav.handle_navigation_action(MPDAction::Refresh, &s), NavEffect::UpdateDatabase);
    assert_eq!(
        nav.handle_navigation_action(MPDAction::TogglePlayPause, &s),
        NavEffect::Execute(MPDAction::TogglePlayPause)
    );
}

#[test]
fn views_and_panels() {
    let mut nav = NavState::new();
    let s = sizes(0);
    nav.handle_navigation_action(MPDAction::SwitchToArtists, &s);
    assert_eq!(nav.menu_mode, MenuMode::Artists);
    assert_eq!(nav.panel_focus, PanelFocus::Artists);
    nav.handle_navigation_action(MPDAction::SwitchPanelRight, &s);
    assert_eq!(nav.panel_focus, PanelFocus::Albums);
    assert_eq!(
        nav.handle_navigation_action(MPDAction::SwitchToAlbums, &s),
        NavEffect::PreloadAlbums
    );
    assert_eq!(nav.menu_mode, MenuMode::Albums);
    assert_eq!(nav.panel_focus, PanelFocus::AlbumList);
    nav.after_albums_preload(Some(4));
    assert_eq!(nav.all_albums_selected, Some(0));
    // Back to the artists view: its panel is as it was left.
    nav.handle_navigation_action(MPDAction::CycleModeLeft, &s);
    assert_eq!(nav.menu_mode, MenuMode::Artists);
    assert_eq!(nav.panel_focus, PanelFocus::Albums);
    nav.handle_navigation_action(MPDAction::CycleModeRight, &s);
    nav.handle_navigation_action(MPDAction::CycleModeRight, &s);
    assert_eq!(nav.menu_mode, MenuMode::Queue);
}

#[test]
fn jumps_in_the_albums_view() {
    let mut nav = NavState::new();
    let s = sizes(0);
    nav.handle_navigation_action(MPDAction::SwitchToAlbums, &s);
    nav.handle_navigation_action(MPDAction::GoToBottom, &s);
    assert_eq!(nav.all_albums_selected, Some(3));
    nav.handle_navigation_action(MPDAction::GoToTop, &s);
    assert_eq!(nav.all_albums_selected, Some(0));
    assert_eq!(
        nav.handle_navigation_action(MPDAction::AddSongToQueue, &s),
        NavEffect::AddAlbumInAlbumView
    );
}

#[test]
fn album_list_wraps_keeping_the_album_on_the_way_down() {
    let mut nav = NavState::new();
    let s = sizes(0);
    nav.menu_mode = MenuMode::Artists;
    nav.panel_focus = PanelFocus::Albums;
    nav.artist_selected = Some(0);
    nav.album_display_selected = Some(3);
    nav.album_selected = Some(1);
    // Down from the last row wraps to the first; the album stays.
    nav.handle_navigation_action(MPDAction::NavigateDown, &s);
    assert_eq!(nav.album_display_selected, Some(0));
    assert_eq!(nav.album_selected, Some(1));
    // Up from the first row wraps to the last, an album.
    nav.handle_navigation_action(MPDAction::NavigateUp, &s);
    assert_eq!(nav.album_display_selected, Some(3));
    assert_eq!(nav.album_selected, Some(1));
    nav.album_display_selected = Some(2);
    nav.handle_navigation_action(MPDAction::NavigateDown, &s);
    assert_eq!(nav.album_display_selected, Some(3));
    assert_eq!(nav.album_selected, Some(1));
    // Onto a song row: the album selection stays.
    nav.album_selected = Some(0);
    nav.album_display_selected = Some(0);
    nav.handle_navigation_action(MPDAction::NavigateDown, &s);
    assert_eq!(nav.album_display_selected, Some(1));
    assert_eq!(nav.album_selected, Some(0));
}

#[test]
fn first_album_is_selected_when_the_albums_panel_is_focused() {
    let mut nav = NavState::new();
    nav.menu_mode = MenuMode::Artists;
    nav.panel_focus = PanelFocus::Artists;
    nav.select_first_album_if_focused(2);
    assert_eq!(nav.album_selected, None);
    nav.panel_focus = PanelFocus::Albums;
    nav.select_first_album_if_focused(0);
    assert_eq!(nav.album_selected, None);
    nav.select_first_album_if_focused(2);
    assert_eq!(nav.album_selected, Some(0));
    nav.album_selected = Some(1);
    nav.select_first_album_if_focused(2);
    assert_eq!(nav.album_selected, Some(1));
}
