//! The application: what each key does to the player, the library, the queue
//! and the screen.
//!
//! The work outside the program (reading files, decoding audio, driving the
//! output, writing files) is left to the caller: each step returns an
//! `Effect` saying what to do, and the matching method takes the outcome.
use vstd::prelude::*;
use vstd::string::StringExecFns;
use crate::config::{dir_or_here, mode_setting, Config, RepeatModeConfig, RECENT_LIMIT};
use crate::error::{error_message, AppError};
use crate::input::{default_action, is_ctrl_c, Action, KeyCode, KeyEvent, KeyEventKind, KeyPattern, Keybindings};
use crate::library::{clamp_cursor, cursor_next, cursor_prev, filter_result, selected_of, MusicLibrary, TrackInfo};
use crate::lyrics::Lyrics;
use crate::player::{
    elapsed_at, fresh_player, seek_target, started, stopped, toggle_command, toggled, clamp, PlayState, Player, MAX_VOLUME,
    RepeatMode, SinkCommand,
};
use crate::playlist::{
    entry_at_path, entry_of, entry_paths, last_index, m3u_entry_ok, m3u_text, no_save_path, PlaylistEntry,
    PlaylistManager,
};
use crate::text::{chars_of, paths_equal, same_path, string_of};
use crate::theme::{apply_overrides, base_palette, overrides_ok, OpalineTheme};

verus! {

/// The panel that keys act on.
#[derive(Clone, Copy, PartialEq, Eq, Debug, Structural)]
pub enum FocusedPanel {
    Library,
    NowPlaying,
    Queue,
    Search,
}

/// The tab shown.
#[derive(Clone, Copy, PartialEq, Eq, Debug, Structural)]
pub enum TabView {
    Library,
    Playlists,
    Queue,
    NowPlaying,
}

/// What the caller has to do after a step.
#[derive(Debug)]
pub enum Effect {
    /// Nothing more.
    Nothing,
    /// Write the settings to their file.
    SaveConfig,
    /// Pause or resume the audio output.
    Output(SinkCommand),
    /// Stop the audio output.
    StopOutput,
    /// Set the output volume, in percent.
    Volume(u32),
    /// Decode the current track from this position (in milliseconds), then
    /// call `seek_loaded`.
    SeekTo(u64),
    /// Load this track's lyrics and audio, then call `track_loaded`; the flag
    /// says whether a failure is shown in the status line.
    Play(TrackInfo, bool),
    /// Read the tags of this queued file, make its track with `queued_track`,
    /// then load it as for `Play`.
    PlayQueued(PlaylistEntry, bool),
    /// Write the text (second) to the file (first), then call
    /// `playlist_written`.
    WritePlaylist(String, String),
    /// Load this file as for `PlayQueued` (failures not shown), then decode
    /// it from this position (in milliseconds) as for `SeekTo`.
    Resume(PlaylistEntry, u64),
}

/// How many frames a status message stays: two seconds at sixty frames.
pub const STATUS_FRAMES: i32 = 120;

/// The frames a blink of the search cursor lasts.
pub const BLINK_FRAMES: u32 = 30;

/// How far a page key moves the library cursor.
pub const PAGE_STEP: usize = 10;

/// How far a seek key moves, in milliseconds.
pub const SEEK_STEP_MS: i64 = 5000;

/// How far a volume key moves, in percent.
pub const VOLUME_STEP: i32 = 5;

/// Tab moves the focus Library → Now playing → Queue → Library; from the
/// search box it goes back to the library.
pub open spec fn next_panel(p: FocusedPanel) -> FocusedPanel {
    match p {
        FocusedPanel::Library => FocusedPanel::NowPlaying,
        FocusedPanel::NowPlaying => FocusedPanel::Queue,
        FocusedPanel::Queue => FocusedPanel::Library,
        FocusedPanel::Search => FocusedPanel::Library,
    }
}

/// The repeat key cycles Off → Playlist → Track → Off.
pub open spec fn next_repeat(m: RepeatMode) -> RepeatMode {
    match m {
        RepeatMode::Off => RepeatMode::Playlist,
        RepeatMode::Playlist => RepeatMode::Track,
        RepeatMode::Track => RepeatMode::Off,
    }
}

/// The library list has the focus: the library panel is focused on a tab
/// that shows it.
pub open spec fn library_focus(tab: TabView, panel: FocusedPanel) -> bool {
    panel == FocusedPanel::Library && tab != TabView::Playlists
}

/// The texts of a list of strings.
pub open spec fn texts(v: Seq<String>) -> Seq<Seq<char>> {
    v.map_values(|x: String| x@)
}

/// The recent files after `path` was played: added at the end unless it is
/// there already, the oldest dropped beyond the limit.
pub open spec fn recent_after(list: Seq<Seq<char>>, path: Seq<char>) -> Seq<Seq<char>> {
    if list.contains(path) {
        list
    } else if list.len() + 1 > RECENT_LIMIT {
        list.push(path).drop_first()
    } else {
        list.push(path)
    }
}

/// The first position from `from` on in `filtered` whose track has path
/// `path`.
pub open spec fn first_match(
    tracks: Seq<TrackInfo>,
    filtered: Seq<usize>,
    path: Seq<char>,
    from: int,
) -> Option<int>
    decreases filtered.len() - from,
{
    if from < 0 || from >= filtered.len() {
        None
    } else if same_path(tracks[filtered[from] as int].path@, path) {
        Some(from)
    } else {
        first_match(tracks, filtered, path, from + 1)
    }
}

/// A position `first_match` finds lies between `from` and the end of the list.
pub proof fn lemma_first_match_in_range(
    tracks: Seq<TrackInfo>,
    filtered: Seq<usize>,
    path: Seq<char>,
    from: int,
)
    ensures
        first_match(tracks, filtered, path, from) matches Some(i) ==> from <= i < filtered.len(),
    decreases filtered.len() - from,
{
    if 0 <= from < filtered.len() && !same_path(tracks[filtered[from] as int].path@, path) {
        lemma_first_match_in_range(tracks, filtered, path, from + 1);
    }
}

/// The application's state.
#[derive(Debug)]
pub struct App {
    pub player: Player,
    pub library: MusicLibrary,
    pub playlist_manager: PlaylistManager,
    pub config: Config,
    pub theme: OpalineTheme,
    pub keybindings: Keybindings,
    pub focused_panel: FocusedPanel,
    pub active_tab: TabView,
    pub search_active: bool,
    pub search_cursor_visible: bool,
    pub show_help: bool,
    pub running: bool,
    pub lyrics: Option<Lyrics>,
    pub status_msg: String,
    /// Frames left before the status message is cleared.
    pub status_timer: i32,
    pub cursor_timer: u32,
}

/// `t` is `s` showing `msg` in the status line.
pub open spec fn shows(s: App, t: App, msg: Seq<char>) -> bool {
    &&& t.status_msg@ == msg
    &&& t == App { status_msg: t.status_msg, status_timer: STATUS_FRAMES, ..s }
}

/// `t` is `s` after a track was chosen to play: when the queue starts with
/// the same path, that entry is taken off (the queue cursor kept inside), and
/// the track is handed out to be loaded.
pub open spec fn track_chosen(s: App, t: App, track: TrackInfo, report: bool, e: Effect) -> bool {
    let q = s.playlist_manager.queue@;
    &&& e == Effect::Play(track, report)
    &&& if q.len() > 0 && same_path(q[0].path@, track.path@) {
        &&& t == App { playlist_manager: t.playlist_manager, ..s }
        &&& t.playlist_manager.queue@ == q.remove(0)
        &&& t.playlist_manager == (PlaylistManager {
            queue: t.playlist_manager.queue,
            selected_queue_index: clamp_cursor(
                s.playlist_manager.selected_queue_index as int,
                q.len() - 1,
            ) as usize,
            ..s.playlist_manager
        })
    } else {
        t == s
    }
}

impl App {
    /// Every filtered index of the library points at a track.
    pub open spec fn inv(&self) -> bool {
        self.library.indices_valid()
    }

    /// The track under the library cursor.
    pub open spec fn selected(&self) -> Option<TrackInfo> {
        selected_of(
            self.library.tracks@,
            self.library.filtered_indices@,
            self.library.selected_index as int,
        )
    }

    /// The position in the library list of the track playing, or else the
    /// cursor.
    pub open spec fn current_position(&self) -> int {
        match self.player.current_track {
            Some(t) => match first_match(
                self.library.tracks@,
                self.library.filtered_indices@,
                t.path@,
                0,
            ) {
                Some(i) => i,
                None => self.library.selected_index as int,
            },
            None => self.library.selected_index as int,
        }
    }

    /// Going past the end of the library list stops playback: not shuffling,
    /// not repeating, at the last entry or beyond.
    pub open spec fn stops_at_end(&self) -> bool {
        let len = self.library.filtered_indices@.len();
        &&& len > 0
        &&& !self.player.shuffle
        &&& self.current_position() + 1 >= len
        &&& self.player.repeat_mode == RepeatMode::Off
    }

    /// The position "next" goes to in a non-empty library list: a random
    /// other entry when shuffling (from `rand`), the following entry, or at
    /// the end the first entry (repeating the playlist) or the same one
    /// (repeating the track).
    pub open spec fn next_position(&self, rand: usize) -> int {
        let len = self.library.filtered_indices@.len() as int;
        let cur = self.current_position();
        if self.player.shuffle {
            if len > 1 {
                let r = (rand as int) % len;
                if r == cur {
                    (r + 1) % len
                } else {
                    r
                }
            } else {
                0
            }
        } else if cur + 1 < len {
            cur + 1
        } else {
            match self.player.repeat_mode {
                RepeatMode::Track => cur,
                _ => 0,
            }
        }
    }

    /// `self` with the library cursor at `i`.
    pub open spec fn with_cursor(&self, i: int) -> App {
        App { library: MusicLibrary { selected_index: i as usize, ..self.library }, ..*self }
    }

    /// The track at position `i` of the library list.
    pub open spec fn track_at(&self, i: int) -> TrackInfo {
        self.library.tracks@[self.library.filtered_indices@[i] as int]
    }
}

/// `t` and `e` are what "next track" does to `s`: play the first queued
/// entry when there is one; otherwise move through the library list as
/// `next_position` says, or stop at its end.
pub open spec fn next_done(s: App, t: App, rand: usize, report: bool, e: Effect) -> bool {
    let q = s.playlist_manager.queue@;
    let len = s.library.filtered_indices@.len() as int;
    if q.len() > 0 {
        let rest = q.remove(0);
        let sel = clamp_cursor(s.playlist_manager.selected_queue_index as int, rest.len() as int);
        &&& e == Effect::PlayQueued(q[0], report)
        &&& t == App { playlist_manager: t.playlist_manager, ..s }
        &&& if rest.len() > 0 && same_path(rest[0].path@, q[0].path@) {
            &&& t.playlist_manager.queue@ == rest.remove(0)
            &&& t.playlist_manager == (PlaylistManager {
                queue: t.playlist_manager.queue,
                selected_queue_index: clamp_cursor(sel, rest.len() - 1) as usize,
                ..s.playlist_manager
            })
        } else {
            &&& t.playlist_manager.queue@ == rest
            &&& t.playlist_manager == (PlaylistManager {
                queue: t.playlist_manager.queue,
                selected_queue_index: sel as usize,
                ..s.playlist_manager
            })
        }
    } else if len == 0 {
        t == s && e == Effect::Nothing
    } else if s.stops_at_end() {
        t == (App { player: stopped(s.player), ..s }) && e == Effect::StopOutput
    } else {
        let n = s.next_position(rand);
        if 0 <= n < len {
            track_chosen(s.with_cursor(n), t, s.track_at(n), report, e)
        } else {
            t == s && e == Effect::Nothing
        }
    }
}

/// `t` and `e` are what "previous track" does to `s`: play the entry before
/// the current position of the library list, when there is one.
pub open spec fn previous_done(s: App, t: App, report: bool, e: Effect) -> bool {
    let p = s.current_position() - 1;
    if 0 <= p < s.library.filtered_indices@.len() {
        track_chosen(s.with_cursor(p), t, s.track_at(p), report, e)
    } else {
        t == s && e == Effect::Nothing
    }
}

/// `c` is the settings of `s` with the player's volume, mute, shuffle and
/// repeat mode, the playing file added to the recent files, the files of the
/// play queue, and the playing file with how far it has played at clock
/// reading `now` (none when nothing is loaded).
pub open spec fn state_saved(s: App, c: Config, now: u64) -> bool {
    &&& c == (Config {
        volume: s.player.volume,
        muted: s.player.muted,
        shuffle: s.player.shuffle,
        repeat_mode: mode_setting(s.player.repeat_mode),
        recent_files: c.recent_files,
        queue: c.queue,
        last_track: c.last_track,
        position_ms: c.position_ms,
        ..s.config
    })
    &&& texts(c.recent_files@) == match s.player.current_track {
        Some(tr) => recent_after(texts(s.config.recent_files@), tr.path@),
        None => texts(s.config.recent_files@),
    }
    &&& texts(c.queue@) == entry_paths(s.playlist_manager.queue@)
    &&& match s.player.current_track {
        Some(tr) => {
            &&& c.last_track matches Some(p) && p@ == tr.path@
            &&& c.position_ms == elapsed_at(s.player.accumulated_ms, s.player.play_start_ms, now)
        },
        None => c.last_track is None && c.position_ms == 0,
    }
}

/// The smaller of two integers.
pub open spec fn min_of(a: int, b: int) -> int {
    if a < b {
        a
    } else {
        b
    }
}

/// What a seek key by `delta_ms` hands out: the position to decode from,
/// when a track is loaded.
pub open spec fn seek_effect(s: App, delta_ms: int, now: u64) -> Effect {
    match s.player.current_track {
        Some(_) => Effect::SeekTo(seek_target(s.player, delta_ms, now)),
        None => Effect::Nothing,
    }
}

/// `t` and `e` are what a volume key by `delta` percent does to `s`: the
/// volume moves within `0..=MAX_VOLUME`, and the output follows unless muted.
pub open spec fn volume_done(s: App, t: App, delta: int, e: Effect) -> bool {
    let v = clamp(s.player.volume + delta, 0, MAX_VOLUME as int) as u32;
    &&& t == (App { player: Player { volume: v, ..s.player }, ..s })
    &&& e == if s.player.muted {
        Effect::Nothing
    } else {
        Effect::Volume(v)
    }
}

/// `t` is `s` with the queue cursor at `i`.
pub open spec fn queue_cursor(s: App, t: App, i: int) -> bool {
    t == (App {
        playlist_manager: PlaylistManager { selected_queue_index: i as usize, ..s.playlist_manager },
        ..s
    })
}

/// Actions on what plays and how loud.
pub open spec fn is_transport(a: Action) -> bool {
    match a {
        Action::Quit | Action::PlayPause | Action::PlaySelected | Action::Stop | Action::NextTrack | Action::PrevTrack | Action::SeekForward | Action::SeekBackward | Action::VolumeUp | Action::VolumeDown | Action::Mute => true,
        _ => false,
    }
}

/// Actions on the queue and the playlists.
pub open spec fn is_list_edit(a: Action) -> bool {
    match a {
        Action::AddToQueue | Action::RemoveFromQueue | Action::ClearQueue | Action::AddToPlaylist | Action::CreatePlaylist | Action::SavePlaylist | Action::LoadPlaylist => true,
        _ => false,
    }
}

/// What a transport action does (see `action_done`).
pub open spec fn transport_done(s: App, t: App, a: Action, rand: usize, now: u64, e: Effect) -> bool {
    let pm = s.playlist_manager;
    let lib = s.library;
    match a {
        Action::Quit => {
            &&& state_saved(s, t.config, now)
            &&& t == (App { config: t.config, running: false, ..s })
            &&& e == Effect::SaveConfig
        },
        Action::PlayPause => {
            &&& t == (App { player: toggled(s.player, now), ..s })
            &&& e == Effect::Output(toggle_command(s.player.state))
        },
        Action::PlaySelected => match s.selected() {
            Some(tr) => track_chosen(s, t, tr, true, e),
            None => t == s && e == Effect::Nothing,
        },
        Action::Stop => {
            &&& t == (App { player: stopped(s.player), lyrics: None, ..s })
            &&& e == Effect::StopOutput
        },
        Action::NextTrack => next_done(s, t, rand, true, e),
        Action::PrevTrack => previous_done(s, t, true, e),
        Action::SeekForward => t == s && e == seek_effect(s, SEEK_STEP_MS as int, now),
        Action::SeekBackward => t == s && e == seek_effect(s, -SEEK_STEP_MS, now),
        Action::VolumeUp => volume_done(s, t, VOLUME_STEP as int, e),
        Action::VolumeDown => volume_done(s, t, -VOLUME_STEP, e),
        Action::Mute => {
            &&& t == (App { player: Player { muted: !s.player.muted, ..s.player }, ..s })
            &&& e == Effect::Volume(t.player.output_volume())
        },
        _ => false,
    }
}

/// What a queue or playlist action does (see `action_done`).
pub open spec fn lists_done(s: App, t: App, a: Action, rand: usize, now: u64, e: Effect) -> bool {
    let pm = s.playlist_manager;
    let lib = s.library;
    match a {
        Action::AddToQueue => {
            &&& e == Effect::Nothing
            &&& match s.selected() {
                Some(tr) => {
                    &&& shows(App { playlist_manager: t.playlist_manager, ..s }, t, "Added: "@ + tr.display_name_view())
                    &&& t.playlist_manager == (PlaylistManager { queue: t.playlist_manager.queue, ..pm })
                    &&& t.playlist_manager.queue@ == pm.queue@.push(entry_of(tr))
                },
                None => t == s,
            }
        },
        Action::RemoveFromQueue => {
            let i = pm.selected_queue_index as int;
            &&& e == Effect::Nothing
            &&& if i < pm.queue@.len() {
                &&& shows(App { playlist_manager: t.playlist_manager, ..s }, t, "Removed from queue"@)
                &&& t.playlist_manager.queue@ == pm.queue@.remove(i)
                &&& t.playlist_manager == (PlaylistManager {
                    queue: t.playlist_manager.queue,
                    selected_queue_index: clamp_cursor(i, pm.queue@.len() - 1) as usize,
                    ..pm
                })
            } else {
                t == s
            }
        },
        Action::ClearQueue => {
            &&& shows(App { playlist_manager: t.playlist_manager, ..s }, t, "Queue cleared"@)
            &&& t.playlist_manager.queue@.len() == 0
            &&& t.playlist_manager == (PlaylistManager {
                queue: t.playlist_manager.queue,
                selected_queue_index: 0,
                ..pm
            })
            &&& e == Effect::Nothing
        },
        Action::AddToPlaylist => {
            let ci = pm.current_playlist_index as int;
            &&& e == Effect::Nothing
            &&& match s.selected() {
                Some(tr) => if ci < pm.playlists@.len() {
                    &&& shows(
                        App { playlist_manager: t.playlist_manager, ..s },
                        t,
                        "Added to playlist: "@ + tr.display_name_view(),
                    )
                    &&& t.playlist_manager == (PlaylistManager { playlists: t.playlist_manager.playlists, ..pm })
                    &&& t.playlist_manager.playlists@.len() == pm.playlists@.len()
                    &&& forall|j: int|
                        0 <= j < pm.playlists@.len() && j != ci
                            ==> #[trigger] t.playlist_manager.playlists@[j] == pm.playlists@[j]
                    &&& t.playlist_manager.playlists@[ci].name == pm.playlists@[ci].name
                    &&& t.playlist_manager.playlists@[ci].file_path == pm.playlists@[ci].file_path
                    &&& t.playlist_manager.playlists@[ci].tracks@ == pm.playlists@[ci].tracks@.push(
                        entry_of(tr),
                    )
                } else {
                    shows(s, t, "No playlist selected. Press 'N' to create one."@)
                },
                None => t == s,
            }
        },
        Action::CreatePlaylist => {
            let n = pm.playlists@.len();
            &&& shows(App { playlist_manager: t.playlist_manager, ..s }, t, "New playlist created"@)
            &&& t.playlist_manager == (PlaylistManager {
                playlists: t.playlist_manager.playlists,
                selected_playlist_index: n as usize,
                ..pm
            })
            &&& t.playlist_manager.playlists@.len() == n + 1
            &&& t.playlist_manager.playlists@.take(n as int) == pm.playlists@
            &&& t.playlist_manager.playlists@[n as int].name@ == "New Playlist"@
            &&& t.playlist_manager.playlists@[n as int].tracks@.len() == 0
            &&& t.playlist_manager.playlists@[n as int].file_path is None
            &&& e == Effect::Nothing
        },
        Action::SavePlaylist => {
            let i = pm.selected_playlist_index as int;
            if i < pm.playlists@.len() {
                let pl = pm.playlists@[i];
                match pl.file_path {
                    Some(f) => {
                        &&& t == s
                        &&& e matches Effect::WritePlaylist(path, text)
                        &&& path@ == f@
                        &&& text@ == m3u_text(pl.name@, pl.tracks@)
                    },
                    None => {
                        &&& shows(s, t, "Save failed: "@ + "Playlist error: "@ + no_save_path())
                        &&& e == Effect::Nothing
                    },
                }
            } else {
                shows(s, t, "Playlist saved"@) && e == Effect::Nothing
            }
        },
        Action::LoadPlaylist => shows(s, t, "Use .m3u file to load"@) && e == Effect::Nothing,
        _ => false,
    }
}

/// Actions that move a cursor.
pub open spec fn is_cursor_move(a: Action) -> bool {
    match a {
        Action::MoveUp | Action::MoveDown | Action::PageUp | Action::PageDown | Action::Home | Action::End => true,
        _ => false,
    }
}

/// What a cursor action does (see `action_done`).
pub open spec fn cursor_done(s: App, t: App, a: Action, rand: usize, now: u64, e: Effect) -> bool {
    let pm = s.playlist_manager;
    let lib = s.library;
    match a {
        Action::MoveUp => {
            &&& e == Effect::Nothing
            &&& match s.focused_panel {
                FocusedPanel::Library => t == s.with_cursor(cursor_prev(lib.selected_index as int)),
                FocusedPanel::Queue => queue_cursor(s, t, cursor_prev(pm.selected_queue_index as int)),
                _ => t == s,
            }
        },
        Action::MoveDown => {
            &&& e == Effect::Nothing
            &&& match s.focused_panel {
                FocusedPanel::Library => t == s.with_cursor(
                    cursor_next(lib.selected_index as int, lib.filtered_indices@.len() as int),
                ),
                FocusedPanel::Queue => queue_cursor(
                    s,
                    t,
                    cursor_next(pm.selected_queue_index as int, pm.queue@.len() as int),
                ),
                _ => t == s,
            }
        },
        Action::PageUp => {
            let sel = lib.selected_index as int;
            &&& e == Effect::Nothing
            &&& if s.focused_panel == FocusedPanel::Library {
                t == s.with_cursor(sel - min_of(PAGE_STEP as int, sel))
            } else {
                t == s
            }
        },
        Action::PageDown => {
            let sel = lib.selected_index as int;
            &&& e == Effect::Nothing
            &&& if s.focused_panel == FocusedPanel::Library {
                t == s.with_cursor(
                    min_of(sel + PAGE_STEP, last_index(lib.filtered_indices@.len() as int)),
                )
            } else {
                t == s
            }
        },
        Action::Home => {
            &&& e == Effect::Nothing
            &&& match s.focused_panel {
                FocusedPanel::Library => t == s.with_cursor(0),
                FocusedPanel::Queue => queue_cursor(s, t, 0),
                _ => t == s,
            }
        },
        Action::End => {
            &&& e == Effect::Nothing
            &&& match s.focused_panel {
                FocusedPanel::Library => t == s.with_cursor(
                    last_index(lib.filtered_indices@.len() as int),
                ),
                FocusedPanel::Queue => queue_cursor(s, t, last_index(pm.queue@.len() as int)),
                _ => t == s,
            }
        },
        _ => false,
    }
}

/// What any other action does to the view (see `action_done`).
pub open spec fn view_done(s: App, t: App, a: Action, rand: usize, now: u64, e: Effect) -> bool {
    match a {
        Action::FocusSearch => t == (App { search_active: true, ..s }) && e == Effect::Nothing,
        Action::ToggleShuffle => {
            &&& t == (App { player: Player { shuffle: !s.player.shuffle, ..s.player }, ..s })
            &&& e == Effect::Nothing
        },
        Action::ToggleRepeat => {
            &&& t == (App {
                player: Player { repeat_mode: next_repeat(s.player.repeat_mode), ..s.player },
                ..s
            })
            &&& e == Effect::Nothing
        },
        Action::SwitchPanel => {
            &&& t == (App { focused_panel: next_panel(s.focused_panel), ..s })
            &&& e == Effect::Nothing
        },
        Action::ToggleHelp => t == (App { show_help: !s.show_help, ..s }) && e == Effect::Nothing,
        Action::SelectTab1 => t == (App { active_tab: TabView::Library, ..s }) && e == Effect::Nothing,
        Action::SelectTab2 => t == (App { active_tab: TabView::Playlists, ..s }) && e == Effect::Nothing,
        Action::SelectTab3 => t == (App { active_tab: TabView::Queue, ..s }) && e == Effect::Nothing,
        Action::SelectTab4 => t == (App { active_tab: TabView::NowPlaying, ..s }) && e == Effect::Nothing,
        _ => t == s && e == Effect::Nothing,
    }
}

/// `t` and `e` are what action `a` does to `s`, with `rand` as the random
/// number for shuffling and `now` as the clock reading.
pub open spec fn action_done(s: App, t: App, a: Action, rand: usize, now: u64, e: Effect) -> bool {
    if is_transport(a) {
        transport_done(s, t, a, rand, now, e)
    } else if is_list_edit(a) {
        lists_done(s, t, a, rand, now, e)
    } else if is_cursor_move(a) {
        cursor_done(s, t, a, rand, now, e)
    } else {
        view_done(s, t, a, rand, now, e)
    }
}

/// `t` is `s` with the search query `q` and the filter and cursor that go
/// with it.
pub open spec fn query_set(s: App, t: App, q: Seq<char>) -> bool {
    let f = filter_result(s.library.tracks@, q);
    &&& t == App { library: t.library, ..s }
    &&& t.library.search_query@ == q
    &&& t.library.filtered_indices@ == f
    &&& t.library.selected_index == clamp_cursor(s.library.selected_index as int, f.len() as int)
    &&& t.library == (MusicLibrary {
        search_query: t.library.search_query,
        filtered_indices: t.library.filtered_indices,
        selected_index: t.library.selected_index,
        ..s.library
    })
}

/// What a key does while the search box is open: Esc or Enter closes it,
/// Backspace drops the last character of the query, a character is added to
/// it; the filter follows the query.
pub open spec fn search_edit(s: App, t: App, code: KeyCode) -> bool {
    let q = s.library.search_query@;
    match code {
        KeyCode::Esc | KeyCode::Enter => t == (App {
            search_active: false,
            focused_panel: FocusedPanel::Library,
            ..s
        }),
        KeyCode::Backspace => query_set(
            s,
            t,
            if q.len() > 0 {
                q.drop_last()
            } else {
                q
            },
        ),
        KeyCode::Char(c) => query_set(s, t, q.push(c)),
        _ => t == s,
    }
}

/// What a key event does: key releases are ignored, Ctrl+C always quits,
/// other keys go to the search box while it is open, otherwise the action
/// the key is bound to is carried out.
pub open spec fn key_done(s: App, t: App, event: KeyEvent, rand: usize, now: u64, e: Effect) -> bool {
    if event.kind == KeyEventKind::Release {
        t == s && e == Effect::Nothing
    } else if s.search_active && !is_ctrl_c(event) {
        search_edit(s, t, event.code) && e == Effect::Nothing
    } else {
        match s.keybindings.resolved(event) {
            Some(a) => action_done(s, t, a, rand, now, e),
            None => t == s && e == Effect::Nothing,
        }
    }
}

/// What the end of a track does while repeating the track: the track that
/// was playing is played again, the library cursor moving to it when it is
/// in the list; with no track loaded it is as "next".
pub open spec fn repeat_done(s: App, t: App, rand: usize, e: Effect) -> bool {
    match s.player.current_track {
        Some(tr) => track_chosen(s.with_cursor(s.current_position()), t, tr, false, e),
        None => next_done(s, t, rand, false, e),
    }
}

/// What a frame does: the status message counts down (and is cleared when
/// its time is up), the search cursor blinks every `BLINK_FRAMES` frames,
/// and a track that has played to its end is played again when repeating
/// the track, and otherwise followed by the next one (failures are not
/// shown).
pub open spec fn tick_done(s: App, t: App, sink_empty: bool, rand: usize, now: u64, e: Effect) -> bool {
    let timer = if s.status_timer > 0 {
        s.status_timer - 1
    } else {
        s.status_timer as int
    };
    let blink = ((s.cursor_timer + 1) % (BLINK_FRAMES as int)) as u32;
    let m = App {
        status_msg: t.status_msg,
        status_timer: timer as i32,
        cursor_timer: blink,
        search_cursor_visible: if blink == 0 {
            !s.search_cursor_visible
        } else {
            s.search_cursor_visible
        },
        ..s
    };
    &&& if s.status_timer == 1 {
        t.status_msg@.len() == 0
    } else {
        t.status_msg == s.status_msg
    }
    &&& if s.player.finished(sink_empty, now) {
        if s.player.repeat_mode == RepeatMode::Track {
            repeat_done(m, t, rand, e)
        } else {
            next_done(m, t, rand, false, e)
        }
    } else {
        t == m && e == Effect::Nothing
    }
}

/// What a loaded track does: the lyrics are shown, the player starts it
/// (or is left stopped when it could not be decoded, the failure shown when
/// `report` asks for it).
pub open spec fn load_done(
    s: App,
    t: App,
    track: TrackInfo,
    lyrics: Option<Lyrics>,
    decoded: Result<Option<u64>, AppError>,
    now: u64,
    report: bool,
) -> bool {
    match decoded {
        Ok(d) => shows(
            App { lyrics, player: started(s.player, track, d, now), ..s },
            t,
            "Now playing: "@ + track.display_name_view(),
        ),
        Err(err) => if report {
            shows(App { lyrics, player: stopped(s.player), ..s }, t, "Error: "@ + error_message(err))
        } else {
            t == (App { lyrics, player: stopped(s.player), ..s })
        },
    }
}

/// Exec form of `is_transport`.
fn is_transport_action(a: Action) -> (r: bool)
    ensures
        r == is_transport(a),
{
    match a {
        Action::Quit | Action::PlayPause | Action::PlaySelected | Action::Stop | Action::NextTrack | Action::PrevTrack | Action::SeekForward | Action::SeekBackward | Action::VolumeUp | Action::VolumeDown | Action::Mute => true,
        _ => false,
    }
}

/// Exec form of `is_list_edit`.
fn is_list_action(a: Action) -> (r: bool)
    ensures
        r == is_list_edit(a),
{
    match a {
        Action::AddToQueue | Action::RemoveFromQueue | Action::ClearQueue | Action::AddToPlaylist | Action::CreatePlaylist | Action::SavePlaylist | Action::LoadPlaylist => true,
        _ => false,
    }
}

/// Exec form of `is_cursor_move`.
fn is_cursor_action(a: Action) -> (r: bool)
    ensures
        r == is_cursor_move(a),
{
    match a {
        Action::MoveUp | Action::MoveDown | Action::PageUp | Action::PageDown | Action::Home | Action::End => true,
        _ => false,
    }
}

impl App {
    /// A fresh application for `config`: the player stopped at the settings'
    /// volume, an empty library rooted at `audio_dir` (or `.`), no
    /// playlists, the saved play queue, the default key bindings and the
    /// theme the settings describe.
    pub fn new(config: Config, audio_dir: Option<String>) -> (r: App)
        requires
            overrides_ok(config.theme_overrides@),
        ensures
            r.player == (Player { volume: clamp(config.volume as int, 0, MAX_VOLUME as int) as u32, ..fresh_player() }),
            r.library.is_empty_library(),
            r.library.current_dir@ == dir_or_here(audio_dir),
            r.playlist_manager.playlists@.len() == 0,
            r.playlist_manager.queue@.len() == config.queue@.len(),
            forall|i: int|
                0 <= i < config.queue@.len() ==> m3u_entry_ok(
                    #[trigger] r.playlist_manager.queue@[i],
                    config.queue@[i]@,
                ),
            r.playlist_manager.current_playlist_index == 0,
            r.playlist_manager.selected_playlist_index == 0,
            r.playlist_manager.selected_queue_index == 0,
            r.config == config,
            r.theme == apply_overrides(base_palette(config.theme_preset@), config.theme_overrides@),
            forall|p: KeyPattern| #[trigger] r.keybindings.action_for(p) == default_action(p),
            r.focused_panel == FocusedPanel::Library,
            r.active_tab == TabView::Library,
            !r.search_active,
            r.search_cursor_visible,
            !r.show_help,
            r.running,
            r.lyrics is None,
            r.status_msg@.len() == 0,
            r.status_timer == 0,
            r.cursor_timer == 0,
            r.inv(),
    {
        let theme = config.theme();
        let mut player = Player::new();
        player.set_volume(config.volume as i64);
        let mut playlist_manager = PlaylistManager::new();
        let n = config.queue.len();
        let mut i: usize = 0;
        while i < n
            invariant
                i <= n == config.queue@.len(),
                playlist_manager.playlists@.len() == 0,
                playlist_manager.current_playlist_index == 0,
                playlist_manager.selected_playlist_index == 0,
                playlist_manager.selected_queue_index == 0,
                playlist_manager.queue@.len() == i,
                forall|k: int|
                    0 <= k < i ==> m3u_entry_ok(#[trigger] playlist_manager.queue@[k], config.queue@[k]@),
            decreases n - i,
        {
            playlist_manager.queue.push(entry_at_path(config.queue[i].clone()));
            i = i + 1;
        }
        App {
            player,
            library: MusicLibrary::new(audio_dir),
            playlist_manager,
            config,
            theme,
            keybindings: Keybindings::default(),
            focused_panel: FocusedPanel::Library,
            active_tab: TabView::Library,
            search_active: false,
            search_cursor_visible: true,
            show_help: false,
            running: true,
            lyrics: None,
            status_msg: String::new(),
            status_timer: 0,
            cursor_timer: 0,
        }
    }

    /// Shows `msg` in the status line for `STATUS_FRAMES` frames.
    fn set_status(&mut self, msg: String)
        ensures
            shows(*old(self), *final(self), msg@),
    {
        self.status_msg = msg;
        self.status_timer = STATUS_FRAMES;
    }

    /// Hands out `track` to be played, first taking a queue entry for the
    /// same path off the front of the queue.
    fn choose_track(&mut self, track: TrackInfo, report: bool) -> (e: Effect)
        ensures
            track_chosen(*old(self), *final(self), track, report, e),
    {
        if self.playlist_manager.queue.len() > 0 && paths_equal(
            self.playlist_manager.queue[0].path.as_str(),
            track.path.as_str(),
        ) {
            let _ = self.playlist_manager.remove_from_queue(0);
        }
        Effect::Play(track, report)
    }

    /// Exec form of `current_position`.
    fn position_now(&self) -> (r: usize)
        requires
            self.inv(),
        ensures
            r == self.current_position(),
    {
        match &self.player.current_track {
            Some(t) => {
                let n = self.library.filtered_indices.len();
                let ghost tracks = self.library.tracks@;
                let ghost filtered = self.library.filtered_indices@;
                let mut i: usize = 0;
                while i < n
                    invariant
                        i <= n == filtered.len(),
                        tracks == self.library.tracks@,
                        filtered == self.library.filtered_indices@,
                        self.player.current_track == Some(*t),
                        self.inv(),
                        first_match(tracks, filtered, t.path@, 0) == first_match(
                            tracks,
                            filtered,
                            t.path@,
                            i as int,
                        ),
                    decreases n - i,
                {
                    let ti = self.library.filtered_indices[i];
                    if paths_equal(self.library.tracks[ti].path.as_str(), t.path.as_str()) {
                        assert(first_match(tracks, filtered, t.path@, i as int) == Some(i as int));
                        return i;
                    }
                    i = i + 1;
                }
                self.library.selected_index
            },
            None => self.library.selected_index,
        }
    }

    /// Plays the next track: the first queued entry, or the next entry of
    /// the library list (see `next_done`).
    fn play_next(&mut self, rand: usize, report: bool) -> (e: Effect)
        requires
            old(self).inv(),
        ensures
            next_done(*old(self), *final(self), rand, report, e),
            final(self).inv(),
    {
        if self.playlist_manager.queue.len() > 0 {
            let entry = match self.playlist_manager.remove_from_queue(0) {
                Some(x) => x,
                None => {
                    return Effect::Nothing;
                },
            };
            if self.playlist_manager.queue.len() > 0 && paths_equal(
                self.playlist_manager.queue[0].path.as_str(),
                entry.path.as_str(),
            ) {
                let _ = self.playlist_manager.remove_from_queue(0);
            }
            return Effect::PlayQueued(entry, report);
        }
        let len = self.library.filtered_indices.len();
        if len == 0 {
            return Effect::Nothing;
        }
        let cur = self.position_now();
        let next: usize;
        if self.player.shuffle {
            if len > 1 {
                let mut r = rand % len;
                if r == cur {
                    r = (r + 1) % len;
                }
                next = r;
            } else {
                next = 0;
            }
        } else if cur < len - 1 {
            next = cur + 1;
        } else {
            match self.player.repeat_mode {
                RepeatMode::Off => {
                    self.player.stop();
                    return Effect::StopOutput;
                },
                RepeatMode::Playlist => {
                    next = 0;
                },
                RepeatMode::Track => {
                    next = cur;
                },
            }
        }
        if next < len {
            let ti = self.library.filtered_indices[next];
            let track = self.library.tracks[ti].duplicate();
            self.library.selected_index = next;
            self.choose_track(track, report)
        } else {
            Effect::Nothing
        }
    }

    /// Follows a track that played to its end: plays it again when repeating
    /// the track, otherwise the next one.
    fn track_ended(&mut self, rand: usize) -> (e: Effect)
        requires
            old(self).inv(),
        ensures
            old(self).player.repeat_mode == RepeatMode::Track ==> repeat_done(*old(self), *final(self), rand, e),
            old(self).player.repeat_mode != RepeatMode::Track ==> next_done(*old(self), *final(self), rand, false, e),
            final(self).inv(),
    {
        match self.player.repeat_mode {
            RepeatMode::Track => self.replay_current(rand),
            _ => self.play_next(rand, false),
        }
    }

    /// Plays the current track again (see `repeat_done`).
    fn replay_current(&mut self, rand: usize) -> (e: Effect)
        requires
            old(self).inv(),
        ensures
            repeat_done(*old(self), *final(self), rand, e),
            final(self).inv(),
    {
        let current = match &self.player.current_track {
            Some(tr) => Some(tr.duplicate()),
            None => None,
        };
        match current {
            Some(track) => {
                let p = self.position_now();
                self.library.selected_index = p;
                self.choose_track(track, false)
            },
            None => self.play_next(rand, false),
        }
    }

    /// Plays the entry before the current position of the library list.
    fn play_previous(&mut self, report: bool) -> (e: Effect)
        requires
            old(self).inv(),
        ensures
            previous_done(*old(self), *final(self), report, e),
            final(self).inv(),
    {
        let cur = self.position_now();
        if cur > 0 {
            let p = cur - 1;
            if p < self.library.filtered_indices.len() {
                let ti = self.library.filtered_indices[p];
                let track = self.library.tracks[ti].duplicate();
                self.library.selected_index = p;
                return self.choose_track(track, report);
            }
        }
        Effect::Nothing
    }
}

impl App {
    /// Whether `files` holds `path`.
    fn has_file(files: &Vec<String>, path: &String) -> (r: bool)
        ensures
            r == texts(files@).contains(path@),
    {
        let mut i: usize = 0;
        while i < files.len()
            invariant
                i <= files@.len(),
                forall|k: int| 0 <= k < i ==> #[trigger] files@[k]@ != path@,
            decreases files.len() - i,
        {
            if files[i] == *path {
                assert(texts(files@)[i as int] == path@);
                return true;
            }
            i = i + 1;
        }
        assert(!texts(files@).contains(path@)) by {
            assert forall|k: int| 0 <= k < texts(files@).len() implies texts(files@)[k] != path@ by {
                assert(files@[k]@ != path@);
            }
        }
        false
    }

    /// What picking up the saved playback asks for: the file that was
    /// playing when the settings were saved, to be loaded and decoded from
    /// where it had got to; nothing when no file was playing.
    pub fn resume(&self) -> (e: Effect)
        ensures
            match self.config.last_track {
                Some(p) => e matches Effect::Resume(en, pos) && m3u_entry_ok(en, p@) && pos
                    == self.config.position_ms,
                None => e == Effect::Nothing,
            },
    {
        match &self.config.last_track {
            Some(p) => Effect::Resume(entry_at_path(p.clone()), self.config.position_ms),
            None => Effect::Nothing,
        }
    }

    /// Adds the playing file, if any, to the recent files.
    fn record_recent(&mut self)
        ensures
            texts(final(self).config.recent_files@) == match old(self).player.current_track {
                Some(tr) => recent_after(texts(old(self).config.recent_files@), tr.path@),
                None => texts(old(self).config.recent_files@),
            },
            *final(self) == (App {
                config: Config { recent_files: final(self).config.recent_files, ..old(self).config },
                ..*old(self)
            }),
    {
        let ghost before = texts(self.config.recent_files@);
        match &self.player.current_track {
            Some(t) => {
                let path = t.path.clone();
                if !App::has_file(&self.config.recent_files, &path) {
                    self.config.recent_files.push(path);
                    assert(texts(self.config.recent_files@) =~= before.push(t.path@));
                    if self.config.recent_files.len() > RECENT_LIMIT {
                        self.config.recent_files.remove(0);
                        assert(texts(self.config.recent_files@) =~= before.push(t.path@).drop_first());
                    }
                }
            },
            None => {},
        }
    }

    /// The paths of the queued files, in order.
    fn queue_paths(queue: &Vec<PlaylistEntry>) -> (r: Vec<String>)
        ensures
            texts(r@) == entry_paths(queue@),
    {
        let n = queue.len();
        let mut paths: Vec<String> = Vec::new();
        let mut i: usize = 0;
        while i < n
            invariant
                i <= n == queue@.len(),
                texts(paths@) == entry_paths(queue@.take(i as int)),
            decreases n - i,
        {
            let ghost before = paths@;
            paths.push(queue[i].path.clone());
            proof {
                let q = queue@;
                assert(q.take(i + 1) =~= q.take(i as int).push(q[i as int]));
                assert(texts(paths@) =~= texts(before).push(q[i as int].path@));
                assert(entry_paths(q.take(i + 1)) =~= entry_paths(q.take(i as int)).push(q[i as int].path@));
            }
            i = i + 1;
        }
        assert(queue@.take(n as int) =~= queue@);
        paths
    }

    /// Copies the player's volume, mute, shuffle and repeat mode into the
    /// settings, records the playing file among the recent files, and keeps
    /// the play queue and the playing file with its position at clock
    /// reading `now_ms`; the caller writes the settings out.
    pub fn save_state(&mut self, now_ms: u64)
        ensures
            state_saved(*old(self), final(self).config, now_ms),
            *final(self) == (App { config: final(self).config, ..*old(self) }),
    {
        self.config.volume = self.player.volume;
        self.config.muted = self.player.muted;
        self.config.shuffle = self.player.shuffle;
        self.config.repeat_mode = RepeatModeConfig::from_mode(self.player.repeat_mode);
        self.record_recent();
        self.config.queue = App::queue_paths(&self.playlist_manager.queue);
        match &self.player.current_track {
            Some(t) => {
                self.config.last_track = Some(t.path.clone());
                self.config.position_ms = self.player.get_elapsed(now_ms);
            },
            None => {
                self.config.last_track = None;
                self.config.position_ms = 0;
            },
        }
    }

    /// Carries out a transport action.
    fn transport_action(&mut self, action: Action, rand: usize, now_ms: u64) -> (e: Effect)
        requires
            old(self).inv(),
            is_transport(action),
        ensures
            transport_done(*old(self), *final(self), action, rand, now_ms, e),
            final(self).inv(),
    {
        match action {
            Action::Quit => {
                self.save_state(now_ms);
                self.running = false;
                Effect::SaveConfig
            },
            Action::PlayPause => Effect::Output(self.player.play_pause(now_ms)),
            Action::PlaySelected => match self.library.selected_track() {
                Some(track) => self.choose_track(track, true),
                None => Effect::Nothing,
            },
            Action::Stop => {
                self.player.stop();
                self.lyrics = None;
                Effect::StopOutput
            },
            Action::NextTrack => self.play_next(rand, true),
            Action::PrevTrack => self.play_previous(true),
            Action::SeekForward => match self.player.seek(SEEK_STEP_MS, now_ms) {
                Some(p) => Effect::SeekTo(p),
                None => Effect::Nothing,
            },
            Action::SeekBackward => match self.player.seek(-SEEK_STEP_MS, now_ms) {
                Some(p) => Effect::SeekTo(p),
                None => Effect::Nothing,
            },
            Action::VolumeUp => match self.player.change_volume(VOLUME_STEP) {
                Some(v) => Effect::Volume(v),
                None => Effect::Nothing,
            },
            Action::VolumeDown => match self.player.change_volume(-VOLUME_STEP) {
                Some(v) => Effect::Volume(v),
                None => Effect::Nothing,
            },
            Action::Mute => Effect::Volume(self.player.toggle_mute()),
            _ => Effect::Nothing,
        }
    }

    /// Carries out a queue or playlist action.
    fn list_action(&mut self, action: Action, rand: usize, now_ms: u64) -> (e: Effect)
        requires
            old(self).inv(),
            is_list_edit(action),
        ensures
            lists_done(*old(self), *final(self), action, rand, now_ms, e),
            final(self).inv(),
    {
        match action {
            Action::AddToQueue => {
                match self.library.selected_track() {
                    Some(track) => {
                        self.playlist_manager.add_to_queue(&track);
                        let msg = String::from_str("Added: ").concat(track.display_name().as_str());
                        self.set_status(msg);
                    },
                    None => {},
                }
                Effect::Nothing
            },
            Action::RemoveFromQueue => {
                let idx = self.playlist_manager.selected_queue_index;
                if self.playlist_manager.remove_from_queue(idx).is_some() {
                    self.set_status(String::from_str("Removed from queue"));
                }
                Effect::Nothing
            },
            Action::ClearQueue => {
                self.playlist_manager.clear_queue();
                self.set_status(String::from_str("Queue cleared"));
                Effect::Nothing
            },
            Action::AddToPlaylist => {
                match self.library.selected_track() {
                    Some(track) => {
                        if let Some(pl) = self.playlist_manager.current_playlist_mut() {
                            pl.add_track(&track);
                            let msg = String::from_str("Added to playlist: ").concat(
                                track.display_name().as_str(),
                            );
                            self.set_status(msg);
                        } else {
                            self.set_status(
                                String::from_str("No playlist selected. Press 'N' to create one."),
                            );
                        }
                    },
                    None => {},
                }
                Effect::Nothing
            },
            Action::CreatePlaylist => {
                self.playlist_manager.create_playlist("New Playlist");
                self.set_status(String::from_str("New playlist created"));
                Effect::Nothing
            },
            Action::SavePlaylist => match self.playlist_manager.save_current_playlist() {
                Ok(Some((path, text))) => Effect::WritePlaylist(path, text),
                Ok(None) => {
                    self.set_status(String::from_str("Playlist saved"));
                    Effect::Nothing
                },
                Err(err) => {
                    let msg = String::from_str("Save failed: ").concat(err.message().as_str());
                    assert(msg@ =~= "Save failed: "@ + "Playlist error: "@ + no_save_path());
                    self.set_status(msg);
                    Effect::Nothing
                },
            },
            Action::LoadPlaylist => {
                self.set_status(String::from_str("Use .m3u file to load"));
                Effect::Nothing
            },
            _ => Effect::Nothing,
        }
    }

    /// Carries out a cursor action.
    fn cursor_action(&mut self, action: Action, rand: usize, now_ms: u64) -> (e: Effect)
        requires
            old(self).inv(),
            is_cursor_move(action),
        ensures
            cursor_done(*old(self), *final(self), action, rand, now_ms, e),
            final(self).inv(),
    {
        match action {
            Action::MoveUp => {
                match self.focused_panel {
                    FocusedPanel::Library => self.library.select_prev(),
                    FocusedPanel::Queue => self.playlist_manager.select_queue_prev(),
                    _ => {},
                }
                Effect::Nothing
            },
            Action::MoveDown => {
                match self.focused_panel {
                    FocusedPanel::Library => self.library.select_next(),
                    FocusedPanel::Queue => self.playlist_manager.select_queue_next(),
                    _ => {},
                }
                Effect::Nothing
            },
            Action::PageUp => {
                if self.focused_panel == FocusedPanel::Library {
                    let sel = self.library.selected_index;
                    let skip = if sel < PAGE_STEP {
                        sel
                    } else {
                        PAGE_STEP
                    };
                    self.library.selected_index = sel - skip;
                }
                Effect::Nothing
            },
            Action::PageDown => {
                if self.focused_panel == FocusedPanel::Library {
                    let len = self.library.filtered_indices.len();
                    let max = if len > 0 {
                        len - 1
                    } else {
                        0
                    };
                    let sel = self.library.selected_index;
                    self.library.selected_index = if sel >= max || max - sel <= PAGE_STEP {
                        max
                    } else {
                        sel + PAGE_STEP
                    };
                }
                Effect::Nothing
            },
            Action::Home => {
                match self.focused_panel {
                    FocusedPanel::Library => {
                        self.library.selected_index = 0;
                    },
                    FocusedPanel::Queue => {
                        self.playlist_manager.selected_queue_index = 0;
                    },
                    _ => {},
                }
                Effect::Nothing
            },
            Action::End => {
                match self.focused_panel {
                    FocusedPanel::Library => {
                        let len = self.library.filtered_indices.len();
                        self.library.selected_index = if len > 0 {
                            len - 1
                        } else {
                            0
                        };
                    },
                    FocusedPanel::Queue => {
                        let len = self.playlist_manager.queue.len();
                        self.playlist_manager.selected_queue_index = if len > 0 {
                            len - 1
                        } else {
                            0
                        };
                    },
                    _ => {},
                }
                Effect::Nothing
            },
            _ => Effect::Nothing,
        }
    }

    /// Carries out any other action.
    fn view_action(&mut self, action: Action, rand: usize, now_ms: u64) -> (e: Effect)
        requires
            old(self).inv(),
            !is_transport(action) && !is_list_edit(action) && !is_cursor_move(action),
        ensures
            view_done(*old(self), *final(self), action, rand, now_ms, e),
            final(self).inv(),
    {
        match action {
            Action::FocusSearch => {
                self.search_active = true;
                Effect::Nothing
            },
            Action::ToggleShuffle => {
                self.player.shuffle = !self.player.shuffle;
                Effect::Nothing
            },
            Action::ToggleRepeat => {
                self.player.repeat_mode = match self.player.repeat_mode {
                    RepeatMode::Off => RepeatMode::Playlist,
                    RepeatMode::Playlist => RepeatMode::Track,
                    RepeatMode::Track => RepeatMode::Off,
                };
                Effect::Nothing
            },
            Action::SwitchPanel => {
                self.focused_panel = match self.focused_panel {
                    FocusedPanel::Library => FocusedPanel::NowPlaying,
                    FocusedPanel::NowPlaying => FocusedPanel::Queue,
                    FocusedPanel::Queue => FocusedPanel::Library,
                    FocusedPanel::Search => FocusedPanel::Library,
                };
                Effect::Nothing
            },
            Action::ToggleHelp => {
                self.show_help = !self.show_help;
                Effect::Nothing
            },
            Action::SelectTab1 => {
                self.active_tab = TabView::Library;
                Effect::Nothing
            },
            Action::SelectTab2 => {
                self.active_tab = TabView::Playlists;
                Effect::Nothing
            },
            Action::SelectTab3 => {
                self.active_tab = TabView::Queue;
                Effect::Nothing
            },
            Action::SelectTab4 => {
                self.active_tab = TabView::NowPlaying;
                Effect::Nothing
            },
            _ => Effect::Nothing,
        }
    }

    /// Carries out `action` (see `action_done`); `rand` is a random number
    /// for shuffling and `now_ms` the clock reading.
    pub fn execute_action(&mut self, action: Action, rand: usize, now_ms: u64) -> (e: Effect)
        requires
            old(self).inv(),
        ensures
            action_done(*old(self), *final(self), action, rand, now_ms, e),
            final(self).inv(),
    {
        if is_transport_action(action) {
            self.transport_action(action, rand, now_ms)
        } else if is_list_action(action) {
            self.list_action(action, rand, now_ms)
        } else if is_cursor_action(action) {
            self.cursor_action(action, rand, now_ms)
        } else {
            self.view_action(action, rand, now_ms)
        }
    }
}

impl App {
    /// Whether the library list has the focus.
    pub fn is_library_focused(&self) -> (r: bool)
        ensures
            r == library_focus(self.active_tab, self.focused_panel),
    {
        self.focused_panel == FocusedPanel::Library && self.active_tab != TabView::Playlists
    }

    /// Handles a key while the search box is open.
    fn handle_search_input(&mut self, event: &KeyEvent)
        requires
            old(self).inv(),
        ensures
            search_edit(*old(self), *final(self), event.code),
            final(self).inv(),
    {
        match event.code {
            KeyCode::Esc | KeyCode::Enter => {
                self.search_active = false;
                self.focused_panel = FocusedPanel::Library;
            },
            KeyCode::Backspace => {
                let mut q = chars_of(self.library.search_query.as_str());
                if q.len() > 0 {
                    q.pop();
                }
                let text = string_of(&q);
                self.library.search(text.as_str());
            },
            KeyCode::Char(c) => {
                let mut q = chars_of(self.library.search_query.as_str());
                q.push(c);
                let text = string_of(&q);
                self.library.search(text.as_str());
            },
            _ => {},
        }
    }

    /// Handles a key event (see `key_done`).
    pub fn handle_event(&mut self, event: &KeyEvent, rand: usize, now_ms: u64) -> (e: Effect)
        requires
            old(self).inv(),
        ensures
            key_done(*old(self), *final(self), *event, rand, now_ms, e),
            final(self).inv(),
    {
        if event.kind == KeyEventKind::Release {
            return Effect::Nothing;
        }
        if self.search_active && !event.is_ctrl_c() {
            self.handle_search_input(event);
            return Effect::Nothing;
        }
        match self.keybindings.resolve(event) {
            Some(action) => self.execute_action(action, rand, now_ms),
            None => Effect::Nothing,
        }
    }

    /// Advances one frame (see `tick_done`); `sink_empty` says whether the
    /// output has run dry.
    #[verifier::rlimit(60)]
    pub fn tick(&mut self, sink_empty: bool, rand: usize, now_ms: u64) -> (e: Effect)
        requires
            old(self).inv(),
        ensures
            tick_done(*old(self), *final(self), sink_empty, rand, now_ms, e),
            final(self).inv(),
    {
        if self.status_timer > 0 {
            self.status_timer = self.status_timer - 1;
            if self.status_timer == 0 {
                self.status_msg = String::new();
            }
        }
        let c = self.cursor_timer % BLINK_FRAMES;
        self.cursor_timer = (c + 1) % BLINK_FRAMES;
        assert(self.cursor_timer == (old(self).cursor_timer + 1) % (BLINK_FRAMES as int));
        if self.cursor_timer == 0 {
            self.search_cursor_visible = !self.search_cursor_visible;
        }
        if self.player.is_finished(sink_empty, now_ms) {
            self.track_ended(rand)
        } else {
            Effect::Nothing
        }
    }

    /// Takes the loaded lyrics and the outcome of decoding `track` (its
    /// length when known), and starts playing it (see `load_done`).
    pub fn track_loaded(
        &mut self,
        track: TrackInfo,
        lyrics: Option<Lyrics>,
        decoded: Result<Option<u64>, AppError>,
        now_ms: u64,
        report: bool,
    )
        requires
            old(self).inv(),
        ensures
            load_done(*old(self), *final(self), track, lyrics, decoded, now_ms, report),
            final(self).inv(),
    {
        self.lyrics = lyrics;
        let name = track.display_name();
        match self.player.play_file(track, decoded, now_ms) {
            Ok(()) => {
                self.set_status(String::from_str("Now playing: ").concat(name.as_str()));
            },
            Err(err) => {
                if report {
                    self.set_status(String::from_str("Error: ").concat(err.message().as_str()));
                }
            },
        }
    }

    /// The track to play for a queued file: the one its tags describe, or
    /// when they cannot be read, one made from the queue entry. Either way it
    /// is the queued file that plays.
    pub fn queued_track(entry: PlaylistEntry, tags: Result<TrackInfo, AppError>) -> (r: TrackInfo)
        ensures
            r.path == entry.path,
            tags matches Ok(info) ==> r == (TrackInfo { path: entry.path, ..info }),
            tags is Err ==> {
                &&& r.path == entry.path
                &&& r.title == entry.title
                &&& r.artist == entry.artist
                &&& r.album@.len() == 0
                &&& r.duration_ms == entry.duration_ms
                &&& r.track_number is None
                &&& r.genre is None
            },
    {
        match tags {
            Ok(info) => TrackInfo { path: entry.path, ..info },
            Err(_) => TrackInfo {
                path: entry.path,
                title: entry.title,
                artist: entry.artist,
                album: String::new(),
                duration_ms: entry.duration_ms,
                track_number: None,
                genre: None,
            },
        }
    }

    /// Takes the outcome of decoding the current track from `position_ms`
    /// and moves the player there; a failure is shown in the status line.
    pub fn seek_loaded(&mut self, position_ms: u64, decoded: Result<(), AppError>, now_ms: u64)
        requires
            old(self).inv(),
        ensures
            old(self).player.current_track is None ==> *final(self) == *old(self),
            old(self).player.current_track is Some ==> match decoded {
                Ok(_) => *final(self) == (App {
                    player: Player {
                        accumulated_ms: position_ms,
                        play_start_ms: (if old(self).player.state == PlayState::Playing {
                            Some(now_ms)
                        } else {
                            None
                        }),
                        seeking: false,
                        ..old(self).player
                    },
                    ..*old(self)
                }),
                Err(err) => shows(
                    App { player: Player { seeking: false, ..old(self).player }, ..*old(self) },
                    *final(self),
                    "Error: "@ + error_message(err),
                ),
            },
            final(self).inv(),
    {
        match self.player.seek_absolute(position_ms, decoded, now_ms) {
            Ok(()) => {},
            Err(err) => {
                self.set_status(String::from_str("Error: ").concat(err.message().as_str()));
            },
        }
    }

    /// Takes the outcome of writing a playlist and shows it.
    pub fn playlist_written(&mut self, result: Result<(), AppError>)
        ensures
            result is Ok ==> shows(*old(self), *final(self), "Playlist saved"@),
            result matches Err(err) ==> shows(
                *old(self),
                *final(self),
                "Save failed: "@ + error_message(err),
            ),
    {
        match result {
            Ok(()) => self.set_status(String::from_str("Playlist saved")),
            Err(err) => {
                self.set_status(String::from_str("Save failed: ").concat(err.message().as_str()))
            },
        }
    }

    /// Shows that scanning a music directory failed, with `detail`.
    pub fn scan_failed(&mut self, detail: &str)
        ensures
            shows(*old(self), *final(self), "Scan error: "@ + detail@),
    {
        self.set_status(String::from_str("Scan error: ").concat(detail));
    }
}

// ───────────────────────── laws ─────────────────────────

/// The library cursor is on the list (at 0 when the list is empty), and the
/// volume is at most `MAX_VOLUME`.
pub open spec fn in_bounds(s: App) -> bool {
    &&& s.library.selected_index <= last_index(s.library.filtered_indices@.len() as int)
    &&& s.player.volume <= MAX_VOLUME
}

/// Pressing the mute, shuffle or help key twice gives back the state it
/// started from.
pub proof fn law_toggle_twice(
    s: App,
    t: App,
    u: App,
    a: Action,
    rand: usize,
    now: u64,
    e1: Effect,
    e2: Effect,
)
    requires
        a == Action::Mute || a == Action::ToggleShuffle || a == Action::ToggleHelp,
        action_done(s, t, a, rand, now, e1),
        action_done(t, u, a, rand, now, e2),
    ensures
        u == s,
{
}

/// Pressing the repeat key three times gives back the state it started from:
/// the modes cycle Off, Playlist, Track.
pub proof fn law_repeat_cycles(
    s: App,
    t1: App,
    t2: App,
    t3: App,
    rand: usize,
    now: u64,
    e1: Effect,
    e2: Effect,
    e3: Effect,
)
    requires
        action_done(s, t1, Action::ToggleRepeat, rand, now, e1),
        action_done(t1, t2, Action::ToggleRepeat, rand, now, e2),
        action_done(t2, t3, Action::ToggleRepeat, rand, now, e3),
    ensures
        t3 == s,
        t1.player.repeat_mode != s.player.repeat_mode,
        t2.player.repeat_mode != s.player.repeat_mode,
{
}

/// Outside the search box, pressing Tab three times comes back to the panel
/// it started from.
pub proof fn law_panel_cycles(
    s: App,
    t1: App,
    t2: App,
    t3: App,
    rand: usize,
    now: u64,
    e1: Effect,
    e2: Effect,
    e3: Effect,
)
    requires
        s.focused_panel != FocusedPanel::Search,
        action_done(s, t1, Action::SwitchPanel, rand, now, e1),
        action_done(t1, t2, Action::SwitchPanel, rand, now, e2),
        action_done(t2, t3, Action::SwitchPanel, rand, now, e3),
    ensures
        t3 == s,
{
}

/// While the queue has entries, "next" plays the first of them and leaves the
/// library and the player as they are.
pub proof fn law_queue_plays_first(s: App, t: App, rand: usize, now: u64, e: Effect)
    requires
        s.playlist_manager.queue@.len() > 0,
        action_done(s, t, Action::NextTrack, rand, now, e),
    ensures
        e == Effect::PlayQueued(s.playlist_manager.queue@[0], true),
        t.library == s.library,
        t.player == s.player,
{
}

/// A track added to an empty queue is the one "next" plays.
pub proof fn law_added_track_plays_next(
    s: App,
    t: App,
    u: App,
    rand: usize,
    now: u64,
    e1: Effect,
    e2: Effect,
)
    requires
        s.playlist_manager.queue@.len() == 0,
        s.selected() is Some,
        action_done(s, t, Action::AddToQueue, rand, now, e1),
        action_done(t, u, Action::NextTrack, rand, now, e2),
    ensures
        e2 == Effect::PlayQueued(entry_of(s.selected()->0), true),
        u.playlist_manager.queue@.len() == 0,
{
    let q = t.playlist_manager.queue@;
    assert(q.remove(0) =~= Seq::<PlaylistEntry>::empty());
}

/// Quitting stops the program and hands out the settings to be written, with
/// the player's volume, mute, shuffle and repeat mode in them.
pub proof fn law_quit_saves(s: App, t: App, rand: usize, now: u64, e: Effect)
    requires
        action_done(s, t, Action::Quit, rand, now, e),
    ensures
        !t.running,
        e == Effect::SaveConfig,
        t.config.volume == s.player.volume,
        t.config.muted == s.player.muted,
        t.config.shuffle == s.player.shuffle,
        t.config.repeat_mode == mode_setting(s.player.repeat_mode),
        texts(t.config.queue@) == entry_paths(s.playlist_manager.queue@),
        s.player.current_track matches Some(tr) ==> (t.config.last_track matches Some(p) && p@ == tr.path@
            && t.config.position_ms == elapsed_at(s.player.accumulated_ms, s.player.play_start_ms, now)),
{
}

/// With the library panel focused and the cursor on a non-empty list, the
/// cursor keys move only the library cursor: Up and Down by one, Page Up and
/// Page Down by ten, each stopping at the ends of the list, Home to the top
/// and End to the bottom.
pub proof fn law_cursor_keys(s: App, t: App, a: Action, rand: usize, now: u64, e: Effect)
    requires
        s.focused_panel == FocusedPanel::Library,
        s.library.selected_index < s.library.filtered_indices@.len(),
        action_done(s, t, a, rand, now, e),
    ensures
        ({
            let sel = s.library.selected_index as int;
            let last = s.library.filtered_indices@.len() - 1;
            let moved = t.library.selected_index as int;
            &&& (a == Action::MoveUp || a == Action::MoveDown || a == Action::PageUp
                || a == Action::PageDown || a == Action::Home || a == Action::End) ==> {
                &&& t == s.with_cursor(moved)
                &&& e == Effect::Nothing
            }
            &&& a == Action::MoveUp ==> moved == (if sel > 0 {
                sel - 1
            } else {
                0
            })
            &&& a == Action::MoveDown ==> moved == (if sel < last {
                sel + 1
            } else {
                last
            })
            &&& a == Action::PageUp ==> moved == (if sel >= 10 {
                sel - 10
            } else {
                0
            })
            &&& a == Action::PageDown ==> moved == (if sel + 10 <= last {
                sel + 10
            } else {
                last
            })
            &&& a == Action::Home ==> moved == 0
            &&& a == Action::End ==> moved == last
        }),
{
    assert(s.library.filtered_indices@.len() == s.library.filtered_indices.len());
}

/// Ctrl+C quits from every state, the search box open or not.
pub proof fn law_ctrl_c_always_quits(s: App, t: App, event: KeyEvent, rand: usize, now: u64, e: Effect)
    requires
        is_ctrl_c(event),
        event.kind != KeyEventKind::Release,
        key_done(s, t, event, rand, now, e),
    ensures
        !t.running,
        e == Effect::SaveConfig,
{
}

/// The recent files never grow past `RECENT_LIMIT` and never hold a file
/// twice, if they did not before.
pub proof fn law_recent_files_bounded(s: App, c: Config, now: u64)
    requires
        texts(s.config.recent_files@).len() <= RECENT_LIMIT,
        texts(s.config.recent_files@).no_duplicates(),
        state_saved(s, c, now),
    ensures
        texts(c.recent_files@).len() <= RECENT_LIMIT,
        texts(c.recent_files@).no_duplicates(),
{
    let before = texts(s.config.recent_files@);
    match s.player.current_track {
        Some(tr) => {
            if !before.contains(tr.path@) {
                let l = before.push(tr.path@);
                assert forall|i: int, j: int| 0 <= i < l.len() && 0 <= j < l.len() && i != j implies l[i] != l[j] by {
                    if i == before.len() as int {
                        assert(before[j] == l[j]);
                    } else if j == before.len() as int {
                        assert(before[i] == l[i]);
                    }
                }
                assert(l.no_duplicates());
                if l.len() > RECENT_LIMIT {
                    let d = l.drop_first();
                    assert forall|i: int, j: int| 0 <= i < d.len() && 0 <= j < d.len() && i != j implies d[i] != d[j] by {
                        assert(d[i] == l[i + 1]);
                        assert(d[j] == l[j + 1]);
                    }
                }
            }
        },
        None => {},
    }
}

/// Keys keep the library cursor on the list and the volume within its
/// range.
pub proof fn law_keys_keep_bounds(s: App, t: App, event: KeyEvent, rand: usize, now: u64, e: Effect)
    requires
        s.inv(),
        in_bounds(s),
        key_done(s, t, event, rand, now, e),
    ensures
        in_bounds(t),
{
}

/// Frames keep the library cursor on the list and the volume within its
/// range.
pub proof fn law_frames_keep_bounds(s: App, t: App, sink_empty: bool, rand: usize, now: u64, e: Effect)
    requires
        s.inv(),
        in_bounds(s),
        tick_done(s, t, sink_empty, rand, now, e),
    ensures
        in_bounds(t),
{
    if let Some(tr) = s.player.current_track {
        lemma_first_match_in_range(s.library.tracks@, s.library.filtered_indices@, tr.path@, 0);
    }
}

/// Typing a character in the search box and erasing it gives back the query
/// and the list it shows.
pub proof fn law_type_then_erase(s: App, t: App, u: App, c: char)
    requires
        s.library.filtered_indices@ == filter_result(s.library.tracks@, s.library.search_query@),
        search_edit(s, t, KeyCode::Char(c)),
        search_edit(t, u, KeyCode::Backspace),
    ensures
        u.library.search_query@ == s.library.search_query@,
        u.library.filtered_indices@ == s.library.filtered_indices@,
        u.library.tracks == s.library.tracks,
{
    assert(s.library.search_query@.push(c).drop_last() =~= s.library.search_query@);
}

} // verus!
