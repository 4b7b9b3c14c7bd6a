use opal_player::app::TabView;
use opal_player::library::TrackInfo;
use opal_player::player::{PlayState, RepeatMode};
use opal_player::view::{
    artist_suffix, bracketed, format_duration, is_current_lyric, now_playing_text, playlist_size_text,
    repeat_text, row_prefix, row_title, search_bar_text, search_cursor, shuffle_text, state_text,
    tab_index, track_count_text, volume_text,
};

fn track(path: &str, title: &str, artist: &str) -> TrackInfo {
    TrackInfo {
        path: path.to_string(),
        title: title.to_string(),
        artist: artist.to_string(),
        album: String::new(),
        duration_ms: None,
        track_number: None,
        genre: None,
    }
}

#[test]
fn durations() {
    assert_eq!(format_duration(0), "00:00");
    assert_eq!(format_duration(65_000), "01:05");
    assert_eq!(format_duration(59_999), "00:59");
    assert_eq!(format_duration(3_599_999), "59:59");
    assert_eq!(format_duration(3_725_000), "1:02:05");
    assert_eq!(format_duration(36_000_000), "10:00:00");
}

#[test]
fn status_line_parts() {
    assert_eq!(volume_text(false, 80), "🔊 80%");
    assert_eq!(volume_text(false, 0), "🔊 0%");
    assert_eq!(volume_text(true, 80), "🔇 MUTED");
    assert_eq!(repeat_text(RepeatMode::Off), "↻ Off");
    assert_eq!(repeat_text(RepeatMode::Playlist), "↻ Playlist");
    assert_eq!(repeat_text(RepeatMode::Track), "↻ Track");
    assert_eq!(shuffle_text(true), "🔀 On");
    assert_eq!(shuffle_text(false), "🔀 Off");
}

#[test]
fn title_bar_parts() {
    assert_eq!(state_text(PlayState::Playing), "▶ PLAYING");
    assert_eq!(state_text(PlayState::Paused), "⏸ PAUSED");
    assert_eq!(state_text(PlayState::Stopped), "⏹ STOPPED");
    assert_eq!(now_playing_text(&Some(track("/a.mp3", "Song", "Band"))), "Band - Song");
    assert_eq!(now_playing_text(&None), "No track loaded");
    assert_eq!(track_count_text(42), "42 tracks");
    assert_eq!(tab_index(TabView::Library), 0);
    assert_eq!(tab_index(TabView::Playlists), 1);
    assert_eq!(tab_index(TabView::Queue), 2);
    assert_eq!(tab_index(TabView::NowPlaying), 3);
}

#[test]
fn list_rows() {
    assert_eq!(row_title(&track("/m/x.mp3", "Song", "")), "Song");
    assert_eq!(row_title(&track("/m/x.mp3", "", "")), "x");
    assert_eq!(artist_suffix(""), "");
    assert_eq!(artist_suffix("Band"), "  [Band]");
    assert_eq!(bracketed(""), "  []");
    assert_eq!(playlist_size_text(3), "  (3 tracks)");
    assert_eq!(row_prefix(true), "▶ ");
    assert_eq!(row_prefix(false), "  ");
}

#[test]
fn lyric_highlight() {
    assert!(is_current_lyric(Some(7), 5, 5));
    assert!(!is_current_lyric(Some(7), 5, 4));
    assert!(is_current_lyric(Some(3), 5, 3));
    assert!(!is_current_lyric(Some(3), 5, 0));
    assert!(!is_current_lyric(None, 5, 0));
}

#[test]
fn search_bar() {
    assert_eq!(search_bar_text("abc"), "/ abc");
    assert_eq!(search_cursor(true), "▎");
    assert_eq!(search_cursor(false), " ");
}
