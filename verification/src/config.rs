//! The settings kept between runs.
//!
//! Reading and writing the settings file is left to the caller; the volume is
//! kept in percent.
use vstd::prelude::*;
use crate::player::RepeatMode;
use crate::theme::{apply_overrides, base_palette, overrides_ok, OpalineTheme};

verus! {

broadcast use vstd::string::group_string_axioms;

/// The repeat mode as it is written in the settings.
#[derive(Clone, Copy, PartialEq, Eq, Debug, Structural)]
pub enum RepeatModeConfig {
    Off,
    Playlist,
    Track,
}

impl Default for RepeatModeConfig {
    /// Repeat is off unless set.
    fn default() -> (r: RepeatModeConfig)
        ensures
            r == RepeatModeConfig::Off,
    {
        RepeatModeConfig::Off
    }
}

/// The settings form of a repeat mode.
pub open spec fn mode_setting(m: RepeatMode) -> RepeatModeConfig {
    match m {
        RepeatMode::Off => RepeatModeConfig::Off,
        RepeatMode::Playlist => RepeatModeConfig::Playlist,
        RepeatMode::Track => RepeatModeConfig::Track,
    }
}

impl RepeatModeConfig {
    /// The settings form of `m`.
    pub fn from_mode(m: RepeatMode) -> (r: RepeatModeConfig)
        ensures
            r == mode_setting(m),
    {
        match m {
            RepeatMode::Off => RepeatModeConfig::Off,
            RepeatMode::Playlist => RepeatModeConfig::Playlist,
            RepeatMode::Track => RepeatModeConfig::Track,
        }
    }
}

/// The settings.
#[derive(Debug)]
pub struct Config {
    /// Volume in percent.
    pub volume: u32,
    pub muted: bool,
    pub repeat_mode: RepeatModeConfig,
    pub shuffle: bool,
    pub music_dirs: Vec<String>,
    /// Files played, oldest first.
    pub recent_files: Vec<String>,
    pub last_playlist: Option<String>,
    /// The name of the palette the theme starts from.
    pub theme_preset: String,
    /// Colour overrides: a colour's name and its hexadecimal text.
    pub theme_overrides: Vec<(String, String)>,
    /// Key binding overrides: a key and an action name.
    pub keybindings: Vec<(String, String)>,
    pub scan_on_startup: bool,
    /// The play queue's files, in order.
    pub queue: Vec<String>,
    /// The file that was playing, to resume.
    pub last_track: Option<String>,
    /// How far `last_track` had played, in milliseconds.
    pub position_ms: u64,
}

/// The most files `recent_files` keeps.
pub const RECENT_LIMIT: usize = 50;

/// No colour overrides.
pub fn default_theme_overrides() -> (r: Vec<(String, String)>)
    ensures
        r@.len() == 0,
{
    Vec::new()
}

/// The text of a directory, or `.` when there is none.
pub open spec fn dir_or_here(dir: Option<String>) -> Seq<char> {
    match dir {
        Some(d) => d@,
        None => seq!['.'],
    }
}

/// The settings a first run starts with, apart from the music directory.
pub open spec fn is_fresh(c: Config) -> bool {
    &&& c.volume == 80
    &&& !c.muted
    &&& c.repeat_mode == RepeatModeConfig::Off
    &&& !c.shuffle
    &&& c.music_dirs@.len() == 1
    &&& c.recent_files@.len() == 0
    &&& c.last_playlist is None
    &&& c.theme_preset@ == "opaline"@
    &&& c.theme_overrides@.len() == 0
    &&& c.keybindings@.len() == 0
    &&& c.scan_on_startup
    &&& c.queue@.len() == 0
    &&& c.last_track is None
    &&& c.position_ms == 0
}

impl Config {
    /// The settings of a first run, with `dir` (or `.`) as the music
    /// directory; the caller looks up the user's music directory.
    pub fn with_music_dir(dir: Option<String>) -> (r: Config)
        ensures
            is_fresh(r),
            r.music_dirs@[0]@ == dir_or_here(dir),
    {
        let d = match dir {
            Some(d) => d,
            None => ".".to_string(),
        };
        proof {
            reveal_strlit(".");
        }
        let music_dirs: Vec<String> = vec![d];
        Config {
            volume: 80,
            muted: false,
            repeat_mode: RepeatModeConfig::Off,
            shuffle: false,
            music_dirs,
            recent_files: Vec::new(),
            last_playlist: None,
            theme_preset: "opaline".to_string(),
            theme_overrides: default_theme_overrides(),
            keybindings: Vec::new(),
            scan_on_startup: true,
            queue: Vec::new(),
            last_track: None,
            position_ms: 0,
        }
    }

    /// The theme the settings describe: the preset with the overrides applied.
    pub fn theme(&self) -> (r: OpalineTheme)
        requires
            overrides_ok(self.theme_overrides@),
        ensures
            r == apply_overrides(base_palette(self.theme_preset@), self.theme_overrides@),
    {
        OpalineTheme::from_config(self.theme_preset.as_str(), &self.theme_overrides)
    }
}

} // verus!
