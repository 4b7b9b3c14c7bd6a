use opal_player::config::{default_theme_overrides, Config, RepeatModeConfig};
use opal_player::player::RepeatMode;
use opal_player::theme::OpalineTheme;

#[test]
fn first_run_settings() {
    let c = Config::with_music_dir(None);
    assert_eq!(c.volume, 80);
    assert!(!c.muted);
    assert_eq!(c.repeat_mode, RepeatModeConfig::Off);
    assert!(!c.shuffle);
    assert_eq!(c.music_dirs, vec![".".to_string()]);
    assert!(c.recent_files.is_empty());
    assert!(c.last_playlist.is_none());
    assert_eq!(c.theme_preset, "opaline");
    assert!(c.theme_overrides.is_empty());
    assert!(c.keybindings.is_empty());
    assert!(c.scan_on_startup);
    let m = Config::with_music_dir(Some("/home/u/Music".to_string()));
    assert_eq!(m.music_dirs, vec!["/home/u/Music".to_string()]);
    assert!(m.queue.is_empty());
    assert!(m.last_track.is_none());
    assert_eq!(m.position_ms, 0);
}

#[test]
fn theme_from_settings() {
    let mut c = Config::with_music_dir(None);
    assert_eq!(c.theme(), OpalineTheme::opaline());
    c.theme_preset = "Nord".to_string();
    c.theme_overrides.push(("bg".to_string(), "000000".to_string()));
    let t = c.theme();
    assert_eq!(t.bg.r, 0);
    assert_eq!(t.text, OpalineTheme::nord().text);
}

#[test]
fn repeat_mode_settings() {
    assert_eq!(RepeatModeConfig::default(), RepeatModeConfig::Off);
    assert_eq!(RepeatModeConfig::from_mode(RepeatMode::Playlist), RepeatModeConfig::Playlist);
    assert_eq!(RepeatModeConfig::from_mode(RepeatMode::Track), RepeatModeConfig::Track);
    assert!(default_theme_overrides().is_empty());
}
