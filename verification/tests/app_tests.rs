use opal_player::app::{App, Effect, FocusedPanel, TabView};
use opal_player::config::{Config, RepeatModeConfig};
use opal_player::error::AppError;
use opal_player::input::{Action, KeyCode, KeyEvent, KeyEventKind, KeyModifiers};
use opal_player::library::TrackInfo;
use opal_player::lyrics::Lyrics;
use opal_player::player::{PlayState, RepeatMode, SinkCommand};
use opal_player::playlist::{Playlist, PlaylistEntry};

fn track(path: &str, title: &str, artist: &str) -> TrackInfo {
    TrackInfo {
        path: path.to_string(),
        title: title.to_string(),
        artist: artist.to_string(),
        album: String::new(),
        duration_ms: Some(60_000),
        track_number: None,
        genre: None,
    }
}

fn app() -> App {
    let mut a = App::new(Config::with_music_dir(None), None);
    a.library.add_tracks(vec![
        track("/m/one.mp3", "One", "A"),
        track("/m/two.mp3", "Two", "B"),
        track("/m/three.mp3", "Three", "C"),
    ]);
    a
}

fn key(c: char) -> KeyEvent {
    KeyEvent { code: KeyCode::Char(c), modifiers: KeyModifiers::none(), kind: KeyEventKind::Press }
}

fn play_path(e: &Effect) -> Option<&str> {
    match e {
        Effect::Play(t, _) => Some(t.path.as_str()),
        _ => None,
    }
}

#[test]
fn fresh_app() {
    let a = App::new(Config::with_music_dir(None), None);
    assert!(a.running);
    assert_eq!(a.player.volume, 80);
    assert_eq!(a.focused_panel, FocusedPanel::Library);
    assert_eq!(a.active_tab, TabView::Library);
    assert!(!a.search_active);
    assert!(a.search_cursor_visible);
    assert!(a.status_msg.is_empty());
    assert!(a.is_library_focused());
}

#[test]
fn app_takes_volume_from_settings() {
    let mut c = Config::with_music_dir(None);
    c.volume = 400;
    let a = App::new(c, None);
    assert_eq!(a.player.volume, 150);
}

#[test]
fn play_selected_hands_out_the_track() {
    let mut a = app();
    a.library.select_index(1);
    let e = a.execute_action(Action::PlaySelected, 0, 0);
    assert_eq!(play_path(&e), Some("/m/two.mp3"));
    assert!(matches!(e, Effect::Play(_, true)));
}

#[test]
fn loaded_track_plays_and_is_announced() {
    let mut a = app();
    a.track_loaded(track("/m/one.mp3", "One", "A"), Some(Lyrics::parse("[00:01]hi")), Ok(Some(1_000)), 500, true);
    assert_eq!(a.player.state, PlayState::Playing);
    assert_eq!(a.player.total_duration_ms, Some(1_000));
    assert_eq!(a.status_msg, "Now playing: A - One");
    assert_eq!(a.status_timer, 120);
    assert!(a.lyrics.is_some());
}

#[test]
fn failed_load_is_reported_only_when_asked() {
    let mut a = app();
    a.track_loaded(track("/m/one.mp3", "One", "A"), None, Err(AppError::Decode("bad".to_string())), 0, true);
    assert_eq!(a.status_msg, "Error: Decode error: bad");
    assert_eq!(a.player.state, PlayState::Stopped);
    let mut b = app();
    b.track_loaded(track("/m/one.mp3", "One", "A"), None, Err(AppError::Decode("bad".to_string())), 0, false);
    assert!(b.status_msg.is_empty());
}

#[test]
fn next_and_previous_walk_the_library() {
    let mut a = app();
    let e = a.execute_action(Action::NextTrack, 0, 0);
    assert_eq!(play_path(&e), Some("/m/two.mp3"));
    assert_eq!(a.library.selected_index, 1);
    a.track_loaded(track("/m/two.mp3", "Two", "B"), None, Ok(None), 0, true);
    let e = a.execute_action(Action::NextTrack, 0, 0);
    assert_eq!(play_path(&e), Some("/m/three.mp3"));
    a.track_loaded(track("/m/three.mp3", "Three", "C"), None, Ok(None), 0, true);
    let e = a.execute_action(Action::PrevTrack, 0, 0);
    assert_eq!(play_path(&e), Some("/m/two.mp3"));
    assert_eq!(a.library.selected_index, 1);
}

#[test]
fn end_of_list_depends_on_repeat_mode() {
    let mut a = app();
    a.library.select_index(2);
    a.track_loaded(track("/m/three.mp3", "Three", "C"), None, Ok(None), 0, true);
    let e = a.execute_action(Action::NextTrack, 0, 0);
    assert!(matches!(e, Effect::StopOutput));
    assert_eq!(a.player.state, PlayState::Stopped);

    let mut b = app();
    b.track_loaded(track("/m/three.mp3", "Three", "C"), None, Ok(None), 0, true);
    b.execute_action(Action::ToggleRepeat, 0, 0);
    assert_eq!(b.player.repeat_mode, RepeatMode::Playlist);
    let e = b.execute_action(Action::NextTrack, 0, 0);
    assert_eq!(play_path(&e), Some("/m/one.mp3"));

    let mut c = app();
    c.track_loaded(track("/m/three.mp3", "Three", "C"), None, Ok(None), 0, true);
    c.execute_action(Action::ToggleRepeat, 0, 0);
    c.execute_action(Action::ToggleRepeat, 0, 0);
    assert_eq!(c.player.repeat_mode, RepeatMode::Track);
    let e = c.execute_action(Action::NextTrack, 0, 0);
    assert_eq!(play_path(&e), Some("/m/three.mp3"));
}

#[test]
fn shuffle_never_repeats_the_current_entry() {
    let mut a = app();
    a.execute_action(Action::ToggleShuffle, 0, 0);
    assert!(a.player.shuffle);
    let e = a.execute_action(Action::NextTrack, 0, 0);
    assert_eq!(play_path(&e), Some("/m/two.mp3"));
    let mut b = app();
    b.execute_action(Action::ToggleShuffle, 0, 0);
    let e = b.execute_action(Action::NextTrack, 5, 0);
    assert_eq!(play_path(&e), Some("/m/three.mp3"));
}

#[test]
fn queue_comes_first() {
    let mut a = app();
    a.library.select_index(2);
    a.execute_action(Action::AddToQueue, 0, 0);
    assert_eq!(a.status_msg, "Added: C - Three");
    assert_eq!(a.playlist_manager.queue.len(), 1);
    let e = a.execute_action(Action::NextTrack, 0, 0);
    match e {
        Effect::PlayQueued(entry, true) => assert_eq!(entry.path, "/m/three.mp3"),
        other => panic!("unexpected {:?}", other),
    }
    assert!(a.playlist_manager.queue.is_empty());
    assert_eq!(a.library.selected_index, 2);
}

#[test]
fn playing_the_queue_front_consumes_it() {
    let mut a = app();
    a.execute_action(Action::AddToQueue, 0, 0);
    let e = a.execute_action(Action::PlaySelected, 0, 0);
    assert_eq!(play_path(&e), Some("/m/one.mp3"));
    assert!(a.playlist_manager.queue.is_empty());
}

#[test]
fn queued_track_falls_back_to_the_entry() {
    let entry = PlaylistEntry { path: "/q.mp3".to_string(), title: "Q".to_string(), artist: "R".to_string(), duration_ms: Some(9) };
    let t = App::queued_track(entry, Err(AppError::Decode("tags".to_string())));
    assert_eq!(t.path, "/q.mp3");
    assert_eq!(t.title, "Q");
    assert_eq!(t.artist, "R");
    assert_eq!(t.album, "");
    assert_eq!(t.duration_ms, Some(9));
    let entry2 = PlaylistEntry { path: "/q.mp3".to_string(), title: String::new(), artist: String::new(), duration_ms: None };
    let t2 = App::queued_track(entry2, Ok(track("/q.mp3", "Tagged", "X")));
    assert_eq!(t2.title, "Tagged");
}

#[test]
fn queue_edits_and_messages() {
    let mut a = app();
    a.execute_action(Action::RemoveFromQueue, 0, 0);
    assert!(a.status_msg.is_empty());
    a.execute_action(Action::AddToQueue, 0, 0);
    a.execute_action(Action::RemoveFromQueue, 0, 0);
    assert_eq!(a.status_msg, "Removed from queue");
    a.execute_action(Action::AddToQueue, 0, 0);
    a.execute_action(Action::ClearQueue, 0, 0);
    assert_eq!(a.status_msg, "Queue cleared");
    assert!(a.playlist_manager.queue.is_empty());
}

#[test]
fn playlist_actions_and_messages() {
    let mut a = app();
    a.execute_action(Action::AddToPlaylist, 0, 0);
    assert_eq!(a.status_msg, "No playlist selected. Press 'N' to create one.");
    a.execute_action(Action::SavePlaylist, 0, 0);
    assert_eq!(a.status_msg, "Playlist saved");
    a.execute_action(Action::CreatePlaylist, 0, 0);
    assert_eq!(a.status_msg, "New playlist created");
    assert_eq!(a.playlist_manager.playlists[0].name, "New Playlist");
    a.execute_action(Action::AddToPlaylist, 0, 0);
    assert_eq!(a.status_msg, "Added to playlist: A - One");
    assert_eq!(a.playlist_manager.playlists[0].tracks.len(), 1);
    let e = a.execute_action(Action::SavePlaylist, 0, 0);
    assert!(matches!(e, Effect::Nothing));
    assert_eq!(a.status_msg, "Save failed: Playlist error: no save path");
    a.execute_action(Action::LoadPlaylist, 0, 0);
    assert_eq!(a.status_msg, "Use .m3u file to load");
}

#[test]
fn saving_a_playlist_with_a_file() {
    let mut a = app();
    a.playlist_manager.load_playlist(Playlist::parse_m3u("/z.mp3\n", "/lists/Z.m3u"));
    let e = a.execute_action(Action::SavePlaylist, 0, 0);
    match e {
        Effect::WritePlaylist(path, text) => {
            assert_eq!(path, "/lists/Z.m3u");
            assert_eq!(text, "#EXTM3U\n#PLAYLIST:Z\n/z.mp3\n");
        }
        other => panic!("unexpected {:?}", other),
    }
    a.playlist_written(Ok(()));
    assert_eq!(a.status_msg, "Playlist saved");
    a.playlist_written(Err(AppError::Io("disk full".to_string())));
    assert_eq!(a.status_msg, "Save failed: IO error: disk full");
}

#[test]
fn transport_keys() {
    let mut a = app();
    assert!(matches!(a.execute_action(Action::PlayPause, 0, 0), Effect::Output(SinkCommand::Nothing)));
    assert!(matches!(a.execute_action(Action::SeekForward, 0, 0), Effect::Nothing));
    a.track_loaded(track("/m/one.mp3", "One", "A"), None, Ok(Some(60_000)), 1_000, true);
    match a.execute_action(Action::SeekForward, 0, 3_000) {
        Effect::SeekTo(p) => assert_eq!(p, 7_000),
        other => panic!("unexpected {:?}", other),
    }
    match a.execute_action(Action::SeekBackward, 0, 3_000) {
        Effect::SeekTo(p) => assert_eq!(p, 0),
        other => panic!("unexpected {:?}", other),
    }
    assert!(matches!(a.execute_action(Action::PlayPause, 0, 4_000), Effect::Output(SinkCommand::Pause)));
    assert_eq!(a.player.state, PlayState::Paused);
    assert!(matches!(a.execute_action(Action::PlayPause, 0, 5_000), Effect::Output(SinkCommand::Play)));
    assert!(matches!(a.execute_action(Action::Stop, 0, 6_000), Effect::StopOutput));
    assert_eq!(a.player.state, PlayState::Stopped);
    assert!(a.lyrics.is_none());
}

#[test]
fn volume_keys() {
    let mut a = app();
    assert!(matches!(a.execute_action(Action::VolumeUp, 0, 0), Effect::Volume(85)));
    assert!(matches!(a.execute_action(Action::VolumeDown, 0, 0), Effect::Volume(80)));
    assert!(matches!(a.execute_action(Action::Mute, 0, 0), Effect::Volume(0)));
    assert!(matches!(a.execute_action(Action::VolumeUp, 0, 0), Effect::Nothing));
    assert!(matches!(a.execute_action(Action::Mute, 0, 0), Effect::Volume(85)));
}

#[test]
fn seek_outcomes() {
    let mut a = app();
    a.track_loaded(track("/m/one.mp3", "One", "A"), None, Ok(Some(60_000)), 0, true);
    a.seek_loaded(30_000, Ok(()), 1_000);
    assert_eq!(a.player.get_elapsed(2_000), 31_000);
    a.seek_loaded(40_000, Err(AppError::Decode("bad".to_string())), 3_000);
    assert_eq!(a.status_msg, "Error: Decode error: bad");
    assert!(!a.player.seeking);
    assert!(a.player.is_finished(true, 4_000));
}

#[test]
fn view_keys() {
    let mut a = app();
    a.execute_action(Action::SwitchPanel, 0, 0);
    assert_eq!(a.focused_panel, FocusedPanel::NowPlaying);
    a.execute_action(Action::SwitchPanel, 0, 0);
    assert_eq!(a.focused_panel, FocusedPanel::Queue);
    a.execute_action(Action::SwitchPanel, 0, 0);
    assert_eq!(a.focused_panel, FocusedPanel::Library);
    a.execute_action(Action::ToggleHelp, 0, 0);
    assert!(a.show_help);
    a.execute_action(Action::SelectTab2, 0, 0);
    assert_eq!(a.active_tab, TabView::Playlists);
    assert!(!a.is_library_focused());
    a.execute_action(Action::SelectTab4, 0, 0);
    assert!(a.is_library_focused());
    a.execute_action(Action::ExpandDir, 0, 0);
    assert_eq!(a.active_tab, TabView::NowPlaying);
}

#[test]
fn cursor_keys() {
    let mut a = app();
    a.execute_action(Action::End, 0, 0);
    assert_eq!(a.library.selected_index, 2);
    a.execute_action(Action::MoveUp, 0, 0);
    assert_eq!(a.library.selected_index, 1);
    a.execute_action(Action::Home, 0, 0);
    assert_eq!(a.library.selected_index, 0);
    a.execute_action(Action::PageDown, 0, 0);
    assert_eq!(a.library.selected_index, 2);
    a.execute_action(Action::PageUp, 0, 0);
    assert_eq!(a.library.selected_index, 0);
    a.execute_action(Action::MoveDown, 0, 0);
    assert_eq!(a.library.selected_index, 1);
    a.focused_panel = FocusedPanel::NowPlaying;
    a.execute_action(Action::MoveDown, 0, 0);
    assert_eq!(a.library.selected_index, 1);
}

#[test]
fn typing_in_the_search_box() {
    let mut a = app();
    a.handle_event(&key('/'), 0, 0);
    assert!(a.search_active);
    for c in "tw".chars() {
        a.handle_event(&key(c), 0, 0);
    }
    assert_eq!(a.library.search_query, "tw");
    assert_eq!(a.library.filtered_indices, vec![1]);
    a.handle_event(&KeyEvent { code: KeyCode::Backspace, modifiers: KeyModifiers::none(), kind: KeyEventKind::Press }, 0, 0);
    assert_eq!(a.library.search_query, "t");
    assert_eq!(a.library.filtered_indices, vec![1, 2]);
    a.handle_event(&KeyEvent { code: KeyCode::Esc, modifiers: KeyModifiers::none(), kind: KeyEventKind::Press }, 0, 0);
    assert!(!a.search_active);
    assert!(a.running);
    a.handle_event(&KeyEvent { code: KeyCode::Esc, modifiers: KeyModifiers::none(), kind: KeyEventKind::Press }, 0, 0);
    assert!(!a.running);
}

#[test]
fn released_keys_do_nothing() {
    let mut a = app();
    let e = a.handle_event(&KeyEvent { code: KeyCode::Char('q'), modifiers: KeyModifiers::none(), kind: KeyEventKind::Release }, 0, 0);
    assert!(matches!(e, Effect::Nothing));
    assert!(a.running);
    assert!(matches!(a.handle_event(&key('z'), 0, 0), Effect::Nothing));
}

#[test]
fn quit_saves_settings() {
    let mut a = app();
    a.execute_action(Action::VolumeUp, 0, 0);
    a.execute_action(Action::ToggleShuffle, 0, 0);
    a.execute_action(Action::ToggleRepeat, 0, 0);
    a.track_loaded(track("/m/one.mp3", "One", "A"), None, Ok(None), 0, true);
    let e = a.handle_event(&KeyEvent { code: KeyCode::Char('c'), modifiers: KeyModifiers::control_only(), kind: KeyEventKind::Press }, 0, 0);
    assert!(matches!(e, Effect::SaveConfig));
    assert!(!a.running);
    assert_eq!(a.config.volume, 85);
    assert!(a.config.shuffle);
    assert_eq!(a.config.repeat_mode, RepeatModeConfig::Playlist);
    assert_eq!(a.config.recent_files, vec!["/m/one.mp3".to_string()]);
    a.save_state(0);
    assert_eq!(a.config.recent_files.len(), 1);
}

#[test]
fn recent_files_keep_the_latest_fifty() {
    let mut a = app();
    for i in 0..50 {
        a.config.recent_files.push(format!("/old/{}.mp3", i));
    }
    a.track_loaded(track("/m/new.mp3", "N", "X"), None, Ok(None), 0, true);
    a.save_state(0);
    assert_eq!(a.config.recent_files.len(), 50);
    assert_eq!(a.config.recent_files[0], "/old/1.mp3");
    assert_eq!(a.config.recent_files[49], "/m/new.mp3");
}

#[test]
fn frames_count_down_the_status_and_blink() {
    let mut a = app();
    a.execute_action(Action::ClearQueue, 0, 0);
    for _ in 0..119 {
        a.tick(false, 0, 0);
    }
    assert_eq!(a.status_msg, "Queue cleared");
    a.tick(false, 0, 0);
    assert!(a.status_msg.is_empty());
    assert_eq!(a.status_timer, 0);
    assert_eq!(a.cursor_timer, 0);
    assert!(a.search_cursor_visible);
    let mut b = app();
    for _ in 0..30 {
        b.tick(false, 0, 0);
    }
    assert!(!b.search_cursor_visible);
}

#[test]
fn finished_track_moves_on_silently() {
    let mut a = app();
    a.track_loaded(track("/m/one.mp3", "One", "A"), None, Ok(Some(60_000)), 0, true);
    let e = a.tick(true, 0, 10);
    assert!(matches!(e, Effect::Play(_, false)));
    assert_eq!(play_path(&e), Some("/m/two.mp3"));
    let mut b = app();
    assert!(matches!(b.tick(true, 0, 10), Effect::Nothing));
}

#[test]
fn scan_failures_are_shown() {
    let mut a = app();
    a.scan_failed("permission denied");
    assert_eq!(a.status_msg, "Scan error: permission denied");
}

#[test]
fn toggles_pressed_twice_change_nothing() {
    let mut a = app();
    a.execute_action(Action::ToggleShuffle, 0, 0);
    a.execute_action(Action::ToggleShuffle, 0, 0);
    assert!(!a.player.shuffle);
    a.execute_action(Action::ToggleHelp, 0, 0);
    a.execute_action(Action::ToggleHelp, 0, 0);
    assert!(!a.show_help);
    a.execute_action(Action::Mute, 0, 0);
    a.execute_action(Action::Mute, 0, 0);
    assert!(!a.player.muted);
    assert_eq!(a.player.volume, 80);
}

#[test]
fn repeat_key_cycles_through_three_modes() {
    let mut a = app();
    let mut seen = Vec::new();
    for _ in 0..3 {
        a.execute_action(Action::ToggleRepeat, 0, 0);
        seen.push(a.player.repeat_mode);
    }
    assert_eq!(seen, vec![RepeatMode::Playlist, RepeatMode::Track, RepeatMode::Off]);
}

#[test]
fn frames_keep_the_cursor_on_the_list() {
    let mut a = app();
    a.execute_action(Action::End, 0, 0);
    a.track_loaded(track("/m/three.mp3", "Three", "C"), None, Ok(Some(10)), 0, true);
    a.execute_action(Action::ToggleRepeat, 0, 0);
    let e = a.tick(false, 0, 100);
    assert_eq!(play_path(&e), Some("/m/one.mp3"));
    assert_eq!(a.library.selected_index, 0);
    assert!(a.library.selected_index < a.library.filtered_indices.len());
}

#[test]
fn typing_then_erasing_restores_the_list() {
    let mut a = app();
    a.handle_event(&key('/'), 0, 0);
    a.handle_event(&key('o'), 0, 0);
    let before = (a.library.search_query.clone(), a.library.filtered_indices.clone());
    a.handle_event(&key('n'), 0, 0);
    assert_eq!(a.library.filtered_indices, vec![0]);
    a.handle_event(&KeyEvent { code: KeyCode::Backspace, modifiers: KeyModifiers::none(), kind: KeyEventKind::Press }, 0, 0);
    assert_eq!((a.library.search_query.clone(), a.library.filtered_indices.clone()), before);
}

#[test]
fn track_repeat_plays_the_same_track_at_its_end() {
    let mut a = app();
    a.track_loaded(track("/m/one.mp3", "One", "A"), None, Ok(Some(60_000)), 0, true);
    a.player.repeat_mode = RepeatMode::Track;
    let e = a.tick(true, 0, 1_000);
    assert_eq!(play_path(&e), Some("/m/one.mp3"));
    assert_eq!(a.library.selected_index, 0);
    a.player.repeat_mode = RepeatMode::Playlist;
    let e = a.tick(true, 0, 2_000);
    assert_eq!(play_path(&e), Some("/m/two.mp3"));
}

#[test]
fn ctrl_c_quits_while_searching() {
    let mut a = app();
    a.execute_action(Action::FocusSearch, 0, 0);
    assert!(a.search_active);
    a.handle_event(&key('q'), 0, 0);
    assert!(a.running);
    assert_eq!(a.library.search_query, "q");
    let ctrl_c = KeyEvent { code: KeyCode::Char('c'), modifiers: KeyModifiers::control_only(), kind: KeyEventKind::Press };
    let e = a.handle_event(&ctrl_c, 0, 0);
    assert!(matches!(e, Effect::SaveConfig));
    assert!(!a.running);
    assert_eq!(a.library.search_query, "q");
}

#[test]
fn queue_and_position_are_saved_and_restored() {
    let mut a = app();
    a.library.select_index(1);
    a.execute_action(Action::AddToQueue, 0, 0);
    a.track_loaded(track("/m/one.mp3", "One", "A"), None, Ok(Some(60_000)), 0, true);
    a.save_state(5_000);
    assert_eq!(a.config.queue, vec!["/m/two.mp3".to_string()]);
    assert_eq!(a.config.last_track, Some("/m/one.mp3".to_string()));
    assert_eq!(a.config.position_ms, 5_000);
    let mut c = Config::with_music_dir(None);
    c.queue = a.config.queue.clone();
    c.last_track = a.config.last_track.clone();
    c.position_ms = a.config.position_ms;
    let b = App::new(c, Some("/music".to_string()));
    assert_eq!(b.library.current_dir, "/music");
    assert_eq!(b.playlist_manager.queue.len(), 1);
    assert_eq!(b.playlist_manager.queue[0].path, "/m/two.mp3");
    assert_eq!(b.playlist_manager.queue[0].title, "two");
    match b.resume() {
        Effect::Resume(entry, pos) => {
            assert_eq!(entry.path, "/m/one.mp3");
            assert_eq!(pos, 5_000);
        }
        _ => panic!("expected a resume"),
    }
    let fresh = App::new(Config::with_music_dir(None), None);
    assert!(matches!(fresh.resume(), Effect::Nothing));
    let mut stopped = app();
    stopped.save_state(9_000);
    assert!(stopped.config.last_track.is_none());
    assert_eq!(stopped.config.position_ms, 0);
}

#[test]
fn queued_track_keeps_the_queued_path() {
    let entry = PlaylistEntry { path: "/q.mp3".to_string(), title: String::new(), artist: String::new(), duration_ms: None };
    let t = App::queued_track(entry, Ok(track("/elsewhere.mp3", "Tagged", "X")));
    assert_eq!(t.path, "/q.mp3");
    assert_eq!(t.title, "Tagged");
}
