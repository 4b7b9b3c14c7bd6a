use opal_player::input::{Action, KeyCode, KeyEvent, KeyEventKind, KeyModifiers, KeyPattern, Keybindings};

fn press(code: KeyCode, modifiers: KeyModifiers) -> KeyEvent {
    KeyEvent { code, modifiers, kind: KeyEventKind::Press }
}

fn key(c: char) -> KeyEvent {
    press(KeyCode::Char(c), KeyModifiers::none())
}

#[test]
fn default_keys_follow_the_readme() {
    let kb = Keybindings::default();
    assert_eq!(kb.resolve(&key('q')), Some(Action::Quit));
    assert_eq!(kb.resolve(&press(KeyCode::Esc, KeyModifiers::none())), Some(Action::Quit));
    assert_eq!(kb.resolve(&key(' ')), Some(Action::PlayPause));
    assert_eq!(kb.resolve(&press(KeyCode::Enter, KeyModifiers::none())), Some(Action::PlaySelected));
    assert_eq!(kb.resolve(&key('n')), Some(Action::NextTrack));
    assert_eq!(kb.resolve(&key('p')), Some(Action::PrevTrack));
    assert_eq!(kb.resolve(&press(KeyCode::Left, KeyModifiers::none())), Some(Action::SeekBackward));
    assert_eq!(kb.resolve(&press(KeyCode::Right, KeyModifiers::none())), Some(Action::SeekForward));
    assert_eq!(kb.resolve(&press(KeyCode::Up, KeyModifiers::none())), Some(Action::MoveUp));
    assert_eq!(kb.resolve(&press(KeyCode::Down, KeyModifiers::none())), Some(Action::MoveDown));
    assert_eq!(kb.resolve(&key('+')), Some(Action::VolumeUp));
    assert_eq!(kb.resolve(&key('=')), Some(Action::VolumeUp));
    assert_eq!(kb.resolve(&key('-')), Some(Action::VolumeDown));
    assert_eq!(kb.resolve(&key('m')), Some(Action::Mute));
    assert_eq!(kb.resolve(&key('s')), Some(Action::ToggleShuffle));
    assert_eq!(kb.resolve(&key('r')), Some(Action::ToggleRepeat));
    assert_eq!(kb.resolve(&key('a')), Some(Action::AddToQueue));
    assert_eq!(kb.resolve(&key('d')), Some(Action::RemoveFromQueue));
    assert_eq!(kb.resolve(&key('x')), Some(Action::ClearQueue));
    assert_eq!(kb.resolve(&key('A')), Some(Action::AddToPlaylist));
    assert_eq!(kb.resolve(&key('N')), Some(Action::CreatePlaylist));
    assert_eq!(kb.resolve(&key('/')), Some(Action::FocusSearch));
    assert_eq!(kb.resolve(&press(KeyCode::Tab, KeyModifiers::none())), Some(Action::SwitchPanel));
    assert_eq!(kb.resolve(&press(KeyCode::BackTab, KeyModifiers::shift_only())), Some(Action::SwitchPanel));
    assert_eq!(kb.resolve(&key('1')), Some(Action::SelectTab1));
    assert_eq!(kb.resolve(&key('4')), Some(Action::SelectTab4));
    assert_eq!(kb.resolve(&key('?')), Some(Action::ToggleHelp));
    assert_eq!(kb.resolve(&key('z')), None);
}

#[test]
fn ctrl_c_always_quits() {
    let kb = Keybindings::new();
    assert_eq!(kb.resolve(&press(KeyCode::Char('c'), KeyModifiers::control_only())), Some(Action::Quit));
    assert_eq!(kb.resolve(&press(KeyCode::Char('C'), KeyModifiers::control_only())), Some(Action::Quit));
    assert_eq!(kb.resolve(&key('c')), None);
}

#[test]
fn binding_replaces_previous_action() {
    let mut kb = Keybindings::new();
    let p = KeyPattern { code: KeyCode::Char('k'), modifiers: KeyModifiers::none() };
    kb.bind(p, Action::Stop);
    assert_eq!(kb.lookup_pattern(&p), Some(Action::Stop));
    kb.bind(p, Action::Mute);
    assert_eq!(kb.lookup_pattern(&p), Some(Action::Mute));
    assert_eq!(kb.bindings.len(), 1);
}

#[test]
fn descriptions() {
    assert_eq!(Action::Quit.description(), "Quit");
    assert_eq!(Action::PlayPause.description(), "Play/Pause");
    assert_eq!(Action::SeekForward.description(), "Seek forward 5s");
    assert_eq!(Action::ToggleRepeat.description(), "Toggle repeat mode");
}

#[test]
fn key_patterns_as_text() {
    let ctrl_c = KeyPattern { code: KeyCode::Char('c'), modifiers: KeyModifiers::control_only() };
    assert_eq!(ctrl_c.to_display_string(), "Ctrl+c");
    let left = KeyPattern { code: KeyCode::Left, modifiers: KeyModifiers::none() };
    assert_eq!(left.to_display_string(), "←");
    let f5 = KeyPattern { code: KeyCode::F(5), modifiers: KeyModifiers::none() };
    assert_eq!(f5.to_display_string(), "F5");
    let pg = KeyPattern { code: KeyCode::PageDown, modifiers: KeyModifiers::none() };
    assert_eq!(pg.to_display_string(), "PgDn");
    let backtab = KeyPattern { code: KeyCode::BackTab, modifiers: KeyModifiers::shift_only() };
    assert_eq!(backtab.to_display_string(), "Shift+Shift+Tab");
}

#[test]
fn key_for_an_action() {
    let kb = Keybindings::default();
    assert_eq!(kb.key_for_action(Action::PlayPause), " ");
    assert_eq!(kb.key_for_action(Action::NextTrack), "n");
    assert_eq!(kb.key_for_action(Action::LoadPlaylist), "?");
}

#[test]
fn help_lists_each_bound_action_once_sorted() {
    let kb = Keybindings::default();
    let entries = kb.help_entries();
    assert_eq!(entries.len(), 31);
    for w in entries.windows(2) {
        assert!(w[0].1 <= w[1].1);
    }
    assert!(entries.iter().any(|(k, d)| k == "Ctrl+C" && *d == "Quit"));
    assert!(entries.iter().any(|(_, d)| *d == "Seek backward 5s"));
    assert!(!entries.iter().any(|(_, d)| *d == "Move left"));
}

#[test]
fn shifted_capitals_reach_the_playlist_keys() {
    let kb = Keybindings::default();
    assert_eq!(kb.resolve(&press(KeyCode::Char('A'), KeyModifiers::shift_only())), Some(Action::AddToPlaylist));
    assert_eq!(kb.resolve(&press(KeyCode::Char('N'), KeyModifiers::shift_only())), Some(Action::CreatePlaylist));
    assert_eq!(kb.resolve(&key('A')), Some(Action::AddToPlaylist));
    assert_eq!(kb.resolve(&key('N')), Some(Action::CreatePlaylist));
    assert_eq!(kb.resolve(&press(KeyCode::Char('B'), KeyModifiers::shift_only())), None);
}

#[test]
fn descriptions_are_distinct_and_non_empty() {
    let all = vec![
        Action::Quit,
        Action::PlayPause,
        Action::PlaySelected,
        Action::Stop,
        Action::NextTrack,
        Action::PrevTrack,
        Action::SeekForward,
        Action::SeekBackward,
        Action::VolumeUp,
        Action::VolumeDown,
        Action::Mute,
        Action::FocusSearch,
        Action::ToggleShuffle,
        Action::ToggleRepeat,
        Action::AddToQueue,
        Action::RemoveFromQueue,
        Action::AddToPlaylist,
        Action::CreatePlaylist,
        Action::SavePlaylist,
        Action::LoadPlaylist,
        Action::ClearQueue,
        Action::SwitchPanel,
        Action::ToggleHelp,
        Action::MoveUp,
        Action::MoveDown,
        Action::MoveLeft,
        Action::MoveRight,
        Action::PageUp,
        Action::PageDown,
        Action::Home,
        Action::End,
        Action::ExpandDir,
        Action::CollapseDir,
        Action::RefreshLibrary,
        Action::SelectTab1,
        Action::SelectTab2,
        Action::SelectTab3,
        Action::SelectTab4,
    ];
    for (i, a) in all.iter().enumerate() {
        assert!(!a.description().is_empty());
        for b in &all[i + 1..] {
            assert_ne!(a.description(), b.description());
        }
    }
}
