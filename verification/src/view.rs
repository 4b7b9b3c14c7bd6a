//! The text the screen shows: times, the status line, list rows and the
//! lyric highlight. Drawing is left to the caller.
use vstd::prelude::*;
use vstd::string::StringExecFns;
use crate::app::TabView;
use crate::library::TrackInfo;
use crate::player::{PlayState, RepeatMode};
use crate::text::{chars_of, decimal, decimal2, push_decimal, push_decimal2, string_of};

verus! {

broadcast use vstd::string::group_string_axioms;

/// A duration of `secs` seconds as `h:mm:ss`, or `mm:ss` under an hour.
pub open spec fn duration_text(secs: nat) -> Seq<char> {
    let h = secs / 3600;
    let m = (secs % 3600) / 60;
    let s = secs % 60;
    if h > 0 {
        decimal(h) + seq![':'] + decimal2(m) + seq![':'] + decimal2(s)
    } else {
        decimal2(m) + seq![':'] + decimal2(s)
    }
}

/// A duration of `ms` milliseconds in whole seconds, as `duration_text`.
pub fn format_duration(ms: u64) -> (r: String)
    ensures
        r@ == duration_text((ms / 1000) as nat),
{
    let total = ms / 1000;
    let h = total / 3600;
    let m = (total % 3600) / 60;
    let s = total % 60;
    let mut v: Vec<char> = Vec::new();
    if h > 0 {
        push_decimal(&mut v, h);
        v.push(':');
    }
    push_decimal2(&mut v, m);
    v.push(':');
    push_decimal2(&mut v, s);
    assert(v@ =~= duration_text(total as nat));
    string_of(&v)
}

/// The volume part of the status line.
pub open spec fn volume_label(muted: bool, volume: u32) -> Seq<char> {
    if muted {
        "🔇 MUTED"@
    } else {
        "🔊 "@ + decimal(volume as nat) + "%"@
    }
}

/// Exec form of `volume_label`.
pub fn volume_text(muted: bool, volume: u32) -> (r: String)
    ensures
        r@ == volume_label(muted, volume),
{
    if muted {
        String::from_str("🔇 MUTED")
    } else {
        let mut v = chars_of("🔊 ");
        push_decimal(&mut v, volume as u64);
        let head = string_of(&v);
        head.concat("%")
    }
}

/// The repeat part of the status line.
pub fn repeat_text(mode: RepeatMode) -> (r: &'static str)
    ensures
        r@ == match mode {
            RepeatMode::Off => "↻ Off"@,
            RepeatMode::Playlist => "↻ Playlist"@,
            RepeatMode::Track => "↻ Track"@,
        },
{
    match mode {
        RepeatMode::Off => "↻ Off",
        RepeatMode::Playlist => "↻ Playlist",
        RepeatMode::Track => "↻ Track",
    }
}

/// The shuffle part of the status line.
pub fn shuffle_text(on: bool) -> (r: &'static str)
    ensures
        r@ == (if on {
            "🔀 On"@
        } else {
            "🔀 Off"@
        }),
{
    if on {
        "🔀 On"
    } else {
        "🔀 Off"
    }
}

/// The play state shown in the title bar.
pub fn state_text(state: PlayState) -> (r: &'static str)
    ensures
        r@ == match state {
            PlayState::Playing => "▶ PLAYING"@,
            PlayState::Paused => "⏸ PAUSED"@,
            PlayState::Stopped => "⏹ STOPPED"@,
        },
{
    match state {
        PlayState::Playing => "▶ PLAYING",
        PlayState::Paused => "⏸ PAUSED",
        PlayState::Stopped => "⏹ STOPPED",
    }
}

/// The track shown in the title bar: `artist - title`, or a note that none
/// is loaded.
pub fn now_playing_text(track: &Option<TrackInfo>) -> (r: String)
    ensures
        r@ == match track {
            Some(t) => t.artist@ + " - "@ + t.title@,
            None => "No track loaded"@,
        },
{
    match track {
        Some(t) => t.artist.clone().concat(" - ").concat(t.title.as_str()),
        None => String::from_str("No track loaded"),
    }
}

/// `n tracks`.
pub fn track_count_text(n: usize) -> (r: String)
    ensures
        r@ == decimal(n as nat) + " tracks"@,
{
    let mut v: Vec<char> = Vec::new();
    push_decimal(&mut v, n as u64);
    string_of(&v).concat(" tracks")
}

/// `  (n tracks)`, after a playlist's name.
pub fn playlist_size_text(n: usize) -> (r: String)
    ensures
        r@ == "  ("@ + decimal(n as nat) + " tracks)"@,
{
    let mut v = chars_of("  (");
    push_decimal(&mut v, n as u64);
    string_of(&v).concat(" tracks)")
}

/// `  [artist]`, after a title.
pub fn bracketed(artist: &str) -> (r: String)
    ensures
        r@ == "  ["@ + artist@ + "]"@,
{
    String::from_str("  [").concat(artist).concat("]")
}

/// The artist after a library row: bracketed, or nothing when unknown.
pub fn artist_suffix(artist: &str) -> (r: String)
    ensures
        r@ == (if artist@.len() == 0 {
            Seq::<char>::empty()
        } else {
            "  ["@ + artist@ + "]"@
        }),
{
    if artist.is_empty() {
        String::new()
    } else {
        bracketed(artist)
    }
}

/// The title of a library row: the track's title, or the name shown for it
/// when it has none.
pub fn row_title(track: &TrackInfo) -> (r: String)
    ensures
        r@ == (if track.title@.len() == 0 {
            track.display_name_view()
        } else {
            track.title@
        }),
{
    if track.title.as_str().is_empty() {
        track.display_name()
    } else {
        track.title.clone()
    }
}

/// The marker in front of a list row.
pub fn row_prefix(marked: bool) -> (r: &'static str)
    ensures
        r@ == (if marked {
            "▶ "@
        } else {
            "  "@
        }),
{
    if marked {
        "▶ "
    } else {
        "  "
    }
}

/// The position of a tab in the tab bar.
pub fn tab_index(tab: TabView) -> (r: usize)
    ensures
        r == match tab {
            TabView::Library => 0usize,
            TabView::Playlists => 1usize,
            TabView::Queue => 2usize,
            TabView::NowPlaying => 3usize,
        },
{
    match tab {
        TabView::Library => 0,
        TabView::Playlists => 1,
        TabView::Queue => 2,
        TabView::NowPlaying => 3,
    }
}

/// Which row of a lyrics window is highlighted: the window shows the lines
/// from `context` before the current line, so row `i` is line
/// `current - context + i` (from 0 when that is negative), highlighted when it
/// is the current line.
pub open spec fn lyric_row_current(current: Option<usize>, context: usize, i: usize) -> bool {
    match current {
        Some(c) => {
            let start = if c >= context {
                c - context
            } else {
                0
            };
            start + i == c
        },
        None => false,
    }
}

/// Exec form of `lyric_row_current`.
pub fn is_current_lyric(current: Option<usize>, context: usize, i: usize) -> (r: bool)
    ensures
        r == lyric_row_current(current, context, i),
{
    match current {
        Some(c) => {
            let start = if c >= context {
                c - context
            } else {
                0
            };
            i <= c && c - i == start
        },
        None => false,
    }
}

/// The search bar: `/ ` and the query.
pub fn search_bar_text(query: &str) -> (r: String)
    ensures
        r@ == "/ "@ + query@,
{
    String::from_str("/ ").concat(query)
}

/// The cursor drawn after the query while it blinks on.
pub fn search_cursor(visible: bool) -> (r: &'static str)
    ensures
        r@ == (if visible {
            "▎"@
        } else {
            " "@
        }),
{
    if visible {
        "▎"
    } else {
        " "
    }
}

/// Two digits for a number below 100.
proof fn lemma_two_digits(n: nat)
    requires
        n < 100,
    ensures
        decimal2(n).len() == 2,
{
    if n >= 10 {
        assert(decimal(n / 10).len() == 1);
    }
}

/// Under an hour a duration is shown as `mm:ss`: five characters, the
/// colon in the middle.
pub proof fn law_short_duration(secs: nat)
    requires
        secs < 3600,
    ensures
        duration_text(secs).len() == 5,
        duration_text(secs)[2] == ':',
{
    lemma_two_digits((secs % 3600) / 60);
    lemma_two_digits(secs % 60);
}

} // verus!
