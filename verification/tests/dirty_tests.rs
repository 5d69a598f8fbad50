use zarumet::dirty::DirtyFlags;

#[test]
fn test_new_all_dirty() {
    let flags = DirtyFlags::new();
    assert!(flags.any_dirty());
    assert!(flags.needs_full_redraw());
    assert!(flags.is_queue_dirty());
    assert!(flags.is_progress_dirty());
}

#[test]
fn test_clear_all() {
    let mut flags = DirtyFlags::new();
    flags.clear_all();
    assert!(!flags.any_dirty());
    assert!(!flags.needs_full_redraw());
}

#[test]
fn test_individual_marks() {
    let mut flags = DirtyFlags::new();
    flags.clear_all();

    flags.mark_queue();
    assert!(flags.is_queue_dirty());
    assert!(!flags.is_progress_dirty());

    flags.clear_all();
    flags.mark_progress();
    assert!(flags.is_progress_dirty());
    assert!(!flags.is_queue_dirty());
}

#[test]
fn test_terminal_size_change() {
    let mut flags = DirtyFlags::new();
    flags.clear_all();

    // Same size - no dirty
    flags.check_terminal_size(80, 24);
    flags.clear_all();
    flags.check_terminal_size(80, 24);
    assert!(!flags.needs_full_redraw());

    // Size changed - dirty
    flags.check_terminal_size(100, 30);
    assert!(flags.needs_full_redraw());
}

#[test]
fn test_force_full_affects_all() {
    let mut flags = DirtyFlags::new();
    flags.clear_all();

    flags.mark_full_redraw();
    assert!(flags.is_queue_dirty());
    assert!(flags.is_progress_dirty());
    assert!(flags.is_status_dirty());
    assert!(flags.is_cover_art_dirty());
}

#[test]
fn dirty_force_full_dirties_every_region() {
    let mut flags = DirtyFlags::new();
    flags.clear_all();
    flags.mark_full_redraw();
    assert!(flags.is_queue_selection_dirty());
    assert!(flags.is_current_song_dirty());
    assert!(flags.is_library_dirty());
    assert!(flags.any_dirty());
    assert!(flags.needs_full_redraw());
}

#[test]
fn dirty_status_and_menu_marks() {
    let mut flags = DirtyFlags::new();
    flags.clear_all();
    flags.mark_status();
    assert!(flags.is_status_dirty());
    assert!(flags.is_progress_dirty());
    assert!(!flags.is_queue_dirty());
    flags.clear_all();
    flags.mark_menu_mode();
    assert!(flags.needs_full_redraw());
    assert!(flags.is_status_dirty());
    flags.clear_all();
    flags.mark_panel_focus();
    assert!(flags.is_library_dirty());
    assert!(!flags.needs_full_redraw());
    flags.clear_all();
    flags.mark_queue_selection();
    assert!(flags.is_queue_selection_dirty());
    assert!(!flags.is_queue_dirty());
    flags.clear_all();
    flags.mark_current_song();
    flags.mark_cover_art();
    flags.mark_library();
    assert!(flags.is_current_song_dirty());
    assert!(flags.is_cover_art_dirty());
    assert!(flags.is_library_dirty());
}

#[test]
fn dirty_clear_progress_only() {
    let mut flags = DirtyFlags::new();
    flags.clear_all();
    flags.mark_progress();
    flags.mark_queue();
    flags.clear_progress();
    assert!(!flags.is_progress_dirty());
    assert!(flags.is_queue_dirty());
}

#[test]
fn marks_stay_until_cleared() {
    let mut flags = DirtyFlags::new();
    flags.clear_all();
    flags.mark_menu_mode();
    flags.clear_progress();
    flags.mark_progress();
    flags.check_terminal_size(80, 24);
    flags.clear_progress();
    assert!(flags.any_dirty());
    assert!(flags.needs_full_redraw());
    flags.clear_all();
    flags.mark_panel_focus();
    flags.mark_queue();
    flags.clear_progress();
    assert!(flags.is_library_dirty());
    assert!(flags.any_dirty());
    flags.clear_all();
    flags.mark_progress();
    flags.clear_progress();
    assert!(!flags.any_dirty());
}
