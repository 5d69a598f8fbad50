use zarumet::actions::{
    plan_command, CommandPlan, MPDAction, MpdCommand, PlayerStatus, SingleMode,
};
use zarumet::keybinds::KeyBinds;
use zarumet::keymap::{mods_none, BindsConfig, KeyCode, KeyMods, KeyPress};
use zarumet::menu::{MenuMode, PanelFocus};
use zarumet::song::PlayState;
use zarumet::status_line::{get_key_sequence_text, sequence_text};

fn plain(c: char) -> KeyPress {
    (mods_none(), KeyCode::Char(c))
}

fn with(shift: bool, control: bool, alt: bool, code: KeyCode) -> KeyPress {
    (KeyMods { shift, control, alt, sup: false, hyper: false, meta: false }, code)
}

fn default_binds() -> KeyBinds {
    let maps = BindsConfig::default().build_enhanced_key_maps();
    KeyBinds::new_with_sequential(
        maps.global_map,
        maps.queue_map,
        maps.artists_map,
        maps.albums_map,
        maps.sequential_bindings,
    )
}

#[test]
fn key_names() {
    let b = BindsConfig::default();
    assert_eq!(b.parse_keybinding("q"), Some(plain('q')));
    assert_eq!(b.parse_keybinding("space"), Some(plain(' ')));
    assert_eq!(b.parse_keybinding("-"), Some(plain('-')));
    assert_eq!(b.parse_keybinding("ctrl-k"), Some(with(false, true, false, KeyCode::Char('k'))));
    assert_eq!(b.parse_keybinding("Shift-J"), Some(with(true, false, false, KeyCode::Char('J'))));
    assert_eq!(b.parse_keybinding("shift-down"), Some(with(true, false, false, KeyCode::Down)));
    assert_eq!(b.parse_keybinding("alt-ctrl-f5"), Some(with(false, true, true, KeyCode::F(5))));
    assert_eq!(b.parse_keybinding("ESC"), Some((mods_none(), KeyCode::Esc)));
    assert_eq!(b.parse_keybinding("hyper-x"), None);
    assert_eq!(b.parse_keybinding("nokey"), None);
    assert_eq!(b.parse_binding_string("g g"), vec![plain('g'), plain('g')]);
    assert_eq!(b.parse_binding_string("g bogus g"), vec![plain('g'), plain('g')]);
}

#[test]
fn single_keys_follow_the_view() {
    let mut kb = default_binds();
    assert_eq!(
        kb.handle_key_at(plain('q'), MenuMode::Queue, PanelFocus::Artists, false),
        Some(MPDAction::Quit)
    );
    assert_eq!(
        kb.handle_key_at(plain('j'), MenuMode::Queue, PanelFocus::Artists, false),
        Some(MPDAction::QueueDown)
    );
    assert_eq!(
        kb.handle_key_at(plain('j'), MenuMode::Artists, PanelFocus::Artists, false),
        Some(MPDAction::NavigateDown)
    );
    assert_eq!(
        kb.handle_key_at(plain('y'), MenuMode::Queue, PanelFocus::Artists, false),
        None
    );
    assert!(!kb.is_awaiting_input());
}

#[test]
fn sequences_complete_or_are_dropped() {
    let mut kb = default_binds();
    assert_eq!(kb.handle_key_at(plain('g'), MenuMode::Queue, PanelFocus::Artists, false), None);
    assert!(kb.is_awaiting_input());
    assert_eq!(kb.get_current_sequence(), vec![plain('g')]);
    assert_eq!(get_key_sequence_text(&kb), Some("g".to_string()));
    assert_eq!(
        kb.handle_key_at(plain('g'), MenuMode::Queue, PanelFocus::Artists, false),
        Some(MPDAction::GoToTop)
    );
    assert!(!kb.is_awaiting_input());
    assert_eq!(get_key_sequence_text(&kb), None);

    // A key that continues no binding drops the sequence.
    kb.handle_key_at(plain('g'), MenuMode::Queue, PanelFocus::Artists, false);
    assert_eq!(kb.handle_key_at(plain('y'), MenuMode::Queue, PanelFocus::Artists, false), None);
    assert!(!kb.is_awaiting_input());

    // A sequence that timed out: the key counts on its own.
    kb.handle_key_at(plain('g'), MenuMode::Queue, PanelFocus::Artists, false);
    assert_eq!(
        kb.handle_key_at(plain('q'), MenuMode::Queue, PanelFocus::Artists, true),
        Some(MPDAction::Quit)
    );
    assert!(!kb.is_awaiting_input());
}

#[test]
fn sequence_texts() {
    assert_eq!(sequence_text(&vec![]), "");
    assert_eq!(
        sequence_text(&vec![
            with(true, false, false, KeyCode::Char('Z')),
            with(false, true, true, KeyCode::Up),
            (mods_none(), KeyCode::F(12)),
        ]),
        "Shift+Z → Ctrl+Alt+↑ → F12"
    );
}

#[test]
fn action_names_and_kinds() {
    assert_eq!(MPDAction::TogglePlayPause.name(), "TogglePlayPause");
    assert_eq!(MPDAction::ToggleBitPerfect.name(), "ToggleBitPerfect");
    assert!(MPDAction::Next.is_mpd_command());
    assert!(!MPDAction::ScrollDown.is_mpd_command());
    assert!(MPDAction::ClearQueue.needs_update());
    assert!(!MPDAction::Quit.needs_update());
}

fn status(volume: u8) -> PlayerStatus {
    PlayerStatus {
        volume,
        state: PlayState::Playing,
        repeat: false,
        random: true,
        consume: false,
        single: SingleMode::Oneshot,
    }
}

#[test]
fn commands_sent_for_actions() {
    assert_eq!(plan_command(MPDAction::Next, 5, 1, None), CommandPlan::Send(MpdCommand::Next));
    assert_eq!(
        plan_command(MPDAction::SeekForward, 5, 1, None),
        CommandPlan::Send(MpdCommand::SeekForward(5))
    );
    assert_eq!(plan_command(MPDAction::VolumeUp, 5, 1, None), CommandPlan::NeedStatus);
    assert_eq!(
        plan_command(MPDAction::VolumeUp, 5, 1, Some(status(97))),
        CommandPlan::Send(MpdCommand::SetVolume(100))
    );
    assert_eq!(
        plan_command(MPDAction::VolumeDownFine, 5, 1, Some(status(40))),
        CommandPlan::Send(MpdCommand::SetVolume(39))
    );
    assert_eq!(
        plan_command(MPDAction::VolumeDown, 5, 1, Some(status(3))),
        CommandPlan::Send(MpdCommand::SetVolume(0))
    );
    assert_eq!(
        plan_command(MPDAction::ToggleMute, 5, 1, Some(status(0))),
        CommandPlan::Send(MpdCommand::SetVolume(50))
    );
    assert_eq!(
        plan_command(MPDAction::TogglePlayPause, 5, 1, Some(status(10))),
        CommandPlan::Send(MpdCommand::SetPause(true))
    );
    assert_eq!(
        plan_command(MPDAction::Random, 5, 1, Some(status(10))),
        CommandPlan::Send(MpdCommand::SetRandom(false))
    );
    assert_eq!(
        plan_command(MPDAction::Single, 5, 1, Some(status(10))),
        CommandPlan::Send(MpdCommand::SetSingle(SingleMode::Enabled))
    );
    assert_eq!(plan_command(MPDAction::ScrollUp, 5, 1, Some(status(10))), CommandPlan::Nothing);
}

#[test]
fn default_bindings_follow_the_documented_configuration() {
    let d = BindsConfig::default();
    assert_eq!(d.clear_queue, vec!["d".to_string()]);
    assert_eq!(d.remove_from_queue, vec!["x".to_string(), "backspace".to_string()]);
    assert_eq!(d.quit, vec!["esc".to_string(), "q".to_string(), "ctrl-c".to_string()]);
    assert_eq!(d.toggle_play_pause, vec![" ".to_string(), "p".to_string()]);
    let mut kb = default_binds();
    assert_eq!(
        kb.handle_key_at(plain('d'), MenuMode::Queue, PanelFocus::Artists, false),
        Some(MPDAction::ClearQueue)
    );
    assert_eq!(
        kb.handle_key_at(plain('p'), MenuMode::Queue, PanelFocus::Artists, false),
        Some(MPDAction::TogglePlayPause)
    );
}
