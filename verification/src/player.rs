//! The transport: what is playing, its clock, volume and play modes.
//!
//! Audio output is driven by the caller; the methods here decide what the
//! output should do and keep the state that the player shows. Times are in
//! milliseconds, read from a clock the caller supplies; the volume is a
//! percentage from 0 to 150.
use vstd::prelude::*;
use crate::error::AppError;
use crate::library::TrackInfo;

verus! {

#[derive(Clone, Copy, PartialEq, Eq, Debug, Structural)]
pub enum RepeatMode {
    Off,
    Playlist,
    Track,
}

#[derive(Clone, Copy, PartialEq, Eq, Debug, Structural)]
pub enum PlayState {
    Stopped,
    Playing,
    Paused,
}

/// What the audio output has to do after a transport change.
#[derive(Clone, Copy, PartialEq, Eq, Debug, Structural)]
pub enum SinkCommand {
    Nothing,
    Pause,
    Play,
}

/// The loudest volume, in percent.
pub const MAX_VOLUME: u32 = 150;

/// The transport state of the player.
#[derive(Debug)]
pub struct Player {
    pub current_track: Option<TrackInfo>,
    pub state: PlayState,
    /// Volume in percent, `0..=MAX_VOLUME`.
    pub volume: u32,
    pub muted: bool,
    pub repeat_mode: RepeatMode,
    pub shuffle: bool,
    pub total_duration_ms: Option<u64>,
    /// Clock reading when playback last (re)started, while playing.
    pub play_start_ms: Option<u64>,
    /// Playback time before `play_start_ms`.
    pub accumulated_ms: u64,
    pub seeking: bool,
    /// Scrubbing: -1 rewinding, 0 idle, 1 fast-forwarding.
    pub scrub_direction: i8,
    pub scrub_timer_ms: u64,
    pub scrub_interval_ms: u64,
}

/// `x` clamped to `lo..=hi`.
pub open spec fn clamp(x: int, lo: int, hi: int) -> int {
    if x < lo {
        lo
    } else if x > hi {
        hi
    } else {
        x
    }
}

/// Playback time at clock reading `now`: the time before the last start,
/// plus the time since it (none for a clock reading before it), at most
/// `u64::MAX`.
pub open spec fn elapsed_at(accumulated: u64, start: Option<u64>, now: u64) -> int {
    let running = match start {
        Some(s) => if now >= s {
            now - s
        } else {
            0
        },
        None => 0,
    };
    if accumulated + running > u64::MAX {
        u64::MAX as int
    } else {
        accumulated + running
    }
}

/// The seek target when no length is known: five minutes.
pub open spec fn default_length_ms() -> int {
    300_000
}

/// A stopped player at 80 % volume, nothing loaded, no play modes.
pub open spec fn fresh_player() -> Player {
    Player {
        current_track: None,
        state: PlayState::Stopped,
        volume: 80,
        muted: false,
        repeat_mode: RepeatMode::Off,
        shuffle: false,
        total_duration_ms: None,
        play_start_ms: None,
        accumulated_ms: 0,
        seeking: false,
        scrub_direction: 0,
        scrub_timer_ms: 0,
        scrub_interval_ms: 100,
    }
}

/// `p` stopped: no track, clock at zero, settings kept.
pub open spec fn stopped(p: Player) -> Player {
    Player {
        state: PlayState::Stopped,
        current_track: None,
        accumulated_ms: 0,
        play_start_ms: None,
        total_duration_ms: None,
        ..p
    }
}

/// `p` after play/pause at clock reading `now`: a playing track pauses with
/// the time played banked, a paused one resumes, a stopped player stays.
pub open spec fn toggled(p: Player, now: u64) -> Player {
    match p.state {
        PlayState::Playing => Player {
            state: PlayState::Paused,
            play_start_ms: None,
            accumulated_ms: elapsed_at(p.accumulated_ms, p.play_start_ms, now) as u64,
            ..p
        },
        PlayState::Paused => Player {
            state: PlayState::Playing,
            play_start_ms: Some(now),
            ..p
        },
        PlayState::Stopped => p,
    }
}

/// What the output does on play/pause in state `s`.
pub open spec fn toggle_command(s: PlayState) -> SinkCommand {
    match s {
        PlayState::Playing => SinkCommand::Pause,
        PlayState::Paused => SinkCommand::Play,
        PlayState::Stopped => SinkCommand::Nothing,
    }
}

/// `p` playing `track` from its start at clock reading `now`, its length
/// `decoded` or else the length the track's tags give.
pub open spec fn started(p: Player, track: TrackInfo, decoded: Option<u64>, now: u64) -> Player {
    Player {
        current_track: Some(track),
        state: PlayState::Playing,
        total_duration_ms: if decoded is Some {
            decoded
        } else {
            track.duration_ms
        },
        play_start_ms: Some(now),
        accumulated_ms: 0,
        ..stopped(p)
    }
}

/// How many whole scrub intervals of `i` milliseconds fit in `t`, at most
/// `u32::MAX`; an interval of 0 fits that maximum into any time past 0.
pub open spec fn scrub_steps(t: int, i: int) -> int {
    if i == 0 {
        if t > 0 {
            u32::MAX as int
        } else {
            0
        }
    } else if t / i > u32::MAX {
        u32::MAX as int
    } else {
        t / i
    }
}

/// The position seeking by `delta_ms` lands on at clock reading `now`: kept
/// between 0 and the track's length (five minutes when it is unknown).
pub open spec fn seek_target(p: Player, delta_ms: int, now: u64) -> u64 {
    clamp(
        elapsed_at(p.accumulated_ms, p.play_start_ms, now) + delta_ms,
        0,
        match p.total_duration_ms {
            Some(t) => t as int,
            None => default_length_ms(),
        },
    ) as u64
}

impl Player {
    /// A stopped player at 80 % volume.
    pub fn new() -> (r: Player)
        ensures
            r == fresh_player(),
    {
        Player {
            current_track: None,
            state: PlayState::Stopped,
            volume: 80,
            muted: false,
            repeat_mode: RepeatMode::Off,
            shuffle: false,
            total_duration_ms: None,
            play_start_ms: None,
            accumulated_ms: 0,
            seeking: false,
            scrub_direction: 0,
            scrub_timer_ms: 0,
            scrub_interval_ms: 100,
        }
    }

    /// The volume the output should play at: 0 while muted.
    pub open spec fn output_volume(&self) -> u32 {
        if self.muted {
            0
        } else {
            self.volume
        }
    }

    /// The track has played to its end: playing, not seeking or scrubbing,
    /// and either the output ran dry or the clock reached the track's length.
    pub open spec fn finished(&self, sink_empty: bool, now_ms: u64) -> bool {
        &&& !self.seeking
        &&& self.scrub_direction == 0
        &&& self.state == PlayState::Playing
        &&& (sink_empty || match self.total_duration_ms {
            Some(t) => elapsed_at(self.accumulated_ms, self.play_start_ms, now_ms) >= t,
            None => false,
        })
    }

    /// Exec form of `output_volume`.
    pub fn effective_volume(&self) -> (r: u32)
        ensures
            r == self.output_volume(),
    {
        if self.muted {
            0
        } else {
            self.volume
        }
    }

    /// Starts playing `track`, whose audio was decoded with length
    /// `decoded` (or failed to decode). The player is stopped first either way;
    /// a decoding error is handed back and leaves it stopped.
    pub fn play_file(
        &mut self,
        track: TrackInfo,
        decoded: Result<Option<u64>, AppError>,
        now_ms: u64,
    ) -> (r: Result<(), AppError>)
        ensures
            decoded matches Err(e) ==> r == Err::<(), AppError>(e) && *final(self) == stopped(*old(self)),
            decoded matches Ok(d) ==> r is Ok && *final(self) == started(*old(self), track, d, now_ms),
    {
        self.stop();
        match decoded {
            Err(e) => Err(e),
            Ok(d) => {
                self.total_duration_ms = match d {
                    Some(x) => Some(x),
                    None => track.duration_ms,
                };
                self.current_track = Some(track);
                self.state = PlayState::Playing;
                self.play_start_ms = Some(now_ms);
                self.accumulated_ms = 0;
                Ok(())
            },
        }
    }

    /// Pauses a playing track (banking the time played) or resumes a paused
    /// one; does nothing when stopped.
    pub fn play_pause(&mut self, now_ms: u64) -> (r: SinkCommand)
        ensures
            r == toggle_command(old(self).state),
            *final(self) == toggled(*old(self), now_ms),
    {
        match self.state {
            PlayState::Playing => {
                let e = self.get_elapsed(now_ms);
                self.play_start_ms = None;
                self.accumulated_ms = e;
                self.state = PlayState::Paused;
                SinkCommand::Pause
            },
            PlayState::Paused => {
                self.play_start_ms = Some(now_ms);
                self.state = PlayState::Playing;
                SinkCommand::Play
            },
            PlayState::Stopped => SinkCommand::Nothing,
        }
    }

    /// Stops playback and forgets the track.
    pub fn stop(&mut self)
        ensures
            *final(self) == stopped(*old(self)),
    {
        self.state = PlayState::Stopped;
        self.current_track = None;
        self.accumulated_ms = 0;
        self.play_start_ms = None;
        self.total_duration_ms = None;
    }

    /// Playback time at clock reading `now_ms`.
    pub fn get_elapsed(&self, now_ms: u64) -> (r: u64)
        ensures
            r == elapsed_at(self.accumulated_ms, self.play_start_ms, now_ms),
    {
        let running = match self.play_start_ms {
            Some(s) => if now_ms >= s {
                now_ms - s
            } else {
                0
            },
            None => 0,
        };
        self.accumulated_ms.saturating_add(running)
    }

    /// Where seeking by `delta_ms` from the current position lands: kept
    /// between 0 and the track's length (five minutes when it is unknown);
    /// `None` when no track is loaded.
    pub fn seek(&self, delta_ms: i64, now_ms: u64) -> (r: Option<u64>)
        ensures
            self.current_track is None ==> r is None,
            self.current_track is Some ==> r == Some(seek_target(*self, delta_ms as int, now_ms)),
    {
        if self.current_track.is_none() {
            return None;
        }
        let pos = self.get_elapsed(now_ms);
        let total: u64 = match self.total_duration_ms {
            Some(t) => t,
            None => 300_000,
        };
        let target: u64 = if delta_ms < 0 {
            let back = (-(delta_ms as i128)) as u64;
            if back > pos {
                0
            } else {
                pos - back
            }
        } else {
            let fwd = delta_ms as u64;
            if fwd > u64::MAX - pos {
                u64::MAX
            } else {
                pos + fwd
            }
        };
        Some(
            if target > total {
                total
            } else {
                target
            },
        )
    }

    /// Moves to `position_ms` after the audio was decoded from there
    /// (`decoded`); a paused track stays paused. Without a track nothing
    /// happens. A decoding error is handed back and leaves the player as it
    /// was, no longer seeking, so the track can still run out and be
    /// followed by the next one.
    pub fn seek_absolute(
        &mut self,
        position_ms: u64,
        decoded: Result<(), AppError>,
        now_ms: u64,
    ) -> (r: Result<(), AppError>)
        ensures
            old(self).current_track is None ==> r is Ok && *final(self) == *old(self),
            old(self).current_track is Some ==> match decoded {
                Err(e) => r == Err::<(), AppError>(e) && *final(self) == (Player {
                    seeking: false,
                    ..*old(self)
                }),
                Ok(_) => r is Ok && *final(self) == (Player {
                    accumulated_ms: position_ms,
                    play_start_ms: (if old(self).state == PlayState::Playing {
                        Some(now_ms)
                    } else {
                        None
                    }),
                    seeking: false,
                    ..*old(self)
                }),
            },
    {
        if self.current_track.is_none() {
            return Ok(());
        }
        let was_playing = self.state == PlayState::Playing;
        self.seeking = true;
        match decoded {
            Err(e) => {
                self.seeking = false;
                Err(e)
            },
            Ok(_) => {
                self.accumulated_ms = position_ms;
                self.play_start_ms = if was_playing {
                    Some(now_ms)
                } else {
                    None
                };
                self.seeking = false;
                Ok(())
            },
        }
    }

    /// Changes the volume by `delta` percent, kept within `0..=MAX_VOLUME`;
    /// returns the new output volume unless muted.
    pub fn change_volume(&mut self, delta: i32) -> (r: Option<u32>)
        ensures
            final(self).volume == clamp(old(self).volume + delta, 0, MAX_VOLUME as int),
            r == (if old(self).muted {
                None
            } else {
                Some(final(self).volume)
            }),
            *final(self) == (Player { volume: final(self).volume, ..*old(self) }),
    {
        let v: i64 = self.volume as i64 + delta as i64;
        self.volume = if v < 0 {
            0
        } else if v > 150 {
            150
        } else {
            v as u32
        };
        if self.muted {
            None
        } else {
            Some(self.volume)
        }
    }

    /// Sets the volume, kept within `0..=MAX_VOLUME`; returns the new output
    /// volume unless muted.
    pub fn set_volume(&mut self, vol: i64) -> (r: Option<u32>)
        ensures
            final(self).volume == clamp(vol as int, 0, MAX_VOLUME as int),
            r == (if old(self).muted {
                None
            } else {
                Some(final(self).volume)
            }),
            *final(self) == (Player { volume: final(self).volume, ..*old(self) }),
    {
        self.volume = if vol < 0 {
            0
        } else if vol > 150 {
            150
        } else {
            vol as u32
        };
        if self.muted {
            None
        } else {
            Some(self.volume)
        }
    }

    /// Mutes or unmutes; returns the new output volume.
    pub fn toggle_mute(&mut self) -> (r: u32)
        ensures
            final(self).muted == !old(self).muted,
            r == final(self).output_volume(),
            *final(self) == (Player { muted: !old(self).muted, ..*old(self) }),
    {
        self.muted = !self.muted;
        if self.muted {
            0
        } else {
            self.volume
        }
    }

    /// Advances scrubbing by `dt_ms`. When a whole number of intervals has
    /// passed (at most `u32::MAX` of them count), returns the seek that many
    /// steps make: two seconds per step in the scrub direction. With an
    /// interval of 0 every moment counts as `u32::MAX` steps (none while the
    /// timer is still at 0) and the timer keeps running.
    pub fn scrub_tick(&mut self, dt_ms: u64) -> (r: Option<i64>)
        requires
            old(self).scrub_timer_ms + dt_ms <= u64::MAX,
        ensures
            old(self).scrub_direction == 0 ==> r is None && *final(self) == *old(self),
            old(self).scrub_direction != 0 ==> {
                let t = old(self).scrub_timer_ms + dt_ms;
                let i = old(self).scrub_interval_ms as int;
                let steps = scrub_steps(t, i);
                if t >= i {
                    &&& r == Some((old(self).scrub_direction * steps * 2000) as i64)
                    &&& *final(self) == (Player { scrub_timer_ms: (t - steps * i) as u64, ..*old(self) })
                } else {
                    &&& r is None
                    &&& *final(self) == (Player { scrub_timer_ms: t as u64, ..*old(self) })
                }
            },
    {
        if self.scrub_direction == 0 {
            return None;
        }
        self.scrub_timer_ms = self.scrub_timer_ms + dt_ms;
        if self.scrub_interval_ms == 0 {
            let steps: i64 = if self.scrub_timer_ms > 0 {
                4294967295
            } else {
                0
            };
            let d: i64 = self.scrub_direction as i64;
            assert(-128 * 4294967295 <= d * steps <= 128 * 4294967295) by (nonlinear_arith)
                requires
                    -128 <= d <= 127,
                    0 <= steps <= 4294967295,
            ;
            let delta: i64 = d * steps * 2000;
            return Some(delta);
        }
        if self.scrub_timer_ms >= self.scrub_interval_ms {
            let q = self.scrub_timer_ms / self.scrub_interval_ms;
            let steps: u64 = if q > 4294967295 {
                4294967295
            } else {
                q
            };
            assert(steps * self.scrub_interval_ms <= self.scrub_timer_ms) by (nonlinear_arith)
                requires
                    steps <= q,
                    q == self.scrub_timer_ms / self.scrub_interval_ms,
                    self.scrub_interval_ms > 0,
            ;
            self.scrub_timer_ms = self.scrub_timer_ms - steps * self.scrub_interval_ms;
            let d: i64 = self.scrub_direction as i64;
            let st: i64 = steps as i64;
            assert(-128 * 4294967295 <= d * st <= 128 * 4294967295) by (nonlinear_arith)
                requires
                    -128 <= d <= 127,
                    0 <= st <= 4294967295,
            ;
            let delta: i64 = d * st * 2000;
            Some(delta)
        } else {
            None
        }
    }

    /// Whether the track has played to its end: playing, not seeking or
    /// scrubbing, and either the output ran dry or the clock reached the
    /// track's length.
    pub fn is_finished(&self, sink_empty: bool, now_ms: u64) -> (r: bool)
        ensures
            r == self.finished(sink_empty, now_ms),
    {
        if self.seeking || self.scrub_direction != 0 || self.state != PlayState::Playing {
            return false;
        }
        if sink_empty {
            return true;
        }
        match self.total_duration_ms {
            Some(total) => self.get_elapsed(now_ms) >= total,
            None => false,
        }
    }

    /// Whether a track is playing.
    pub fn playing(&self) -> (r: bool)
        ensures
            r == (self.state == PlayState::Playing),
    {
        self.state == PlayState::Playing
    }
}

// ───────────────────────── laws ─────────────────────────

/// Stopping a stopped player changes nothing.
pub proof fn law_stop_idempotent(p: Player)
    ensures
        stopped(stopped(p)) == stopped(p),
{
}

/// Resuming a paused track and pausing it again at the same instant gives
/// back the paused player.
pub proof fn law_resume_pause(p: Player, now: u64)
    requires
        p.state == PlayState::Paused,
        p.play_start_ms is None,
    ensures
        toggled(toggled(p, now), now) == p,
{
}

/// A track starts at position 0.
pub proof fn law_starts_at_zero(p: Player, track: TrackInfo, decoded: Option<u64>, now: u64)
    ensures
        elapsed_at(
            started(p, track, decoded, now).accumulated_ms,
            started(p, track, decoded, now).play_start_ms,
            now,
        ) == 0,
{
}

/// Seeking never lands past the end of the track (five minutes when its
/// length is unknown).
pub proof fn law_seek_in_track(p: Player, delta_ms: int, now: u64)
    ensures
        seek_target(p, delta_ms, now) <= match p.total_duration_ms {
            Some(t) => t as int,
            None => default_length_ms(),
        },
{
}

/// Stopping after a track started gives the player stopping alone would.
pub proof fn law_play_then_stop(p: Player, track: TrackInfo, decoded: Option<u64>, now: u64)
    ensures
        stopped(started(p, track, decoded, now)) == stopped(p),
{
}

/// A volume change is undone by the opposite change when it stayed within
/// range.
pub proof fn law_volume_change_undone(volume: u32, delta: int)
    requires
        volume <= MAX_VOLUME,
        0 <= volume + delta <= MAX_VOLUME,
    ensures
        clamp(clamp(volume + delta, 0, MAX_VOLUME as int) - delta, 0, MAX_VOLUME as int) == volume,
{
}

// ───────────────────────── decoded streams ─────────────────────────

/// The length in whole milliseconds of `frames` frames of `numer / denom`
/// seconds each.
pub open spec fn frames_ms(frames: u64, numer: u32, denom: u32) -> int {
    (frames * numer * 1000) / (denom as int)
}

/// The length of a decoded stream from its frame count and time base
/// (numerator, denominator), when both are known; at most `u64::MAX`
/// milliseconds.
pub fn stream_length_ms(n_frames: Option<u64>, time_base: Option<(u32, u32)>) -> (r: Option<u64>)
    requires
        match (time_base, n_frames) {
            (Some(tb), Some(f)) => tb.1 != 0 && f * tb.0 / (tb.1 as int) <= u64::MAX,
            _ => true,
        },
    ensures
        r == match (time_base, n_frames) {
            (Some(tb), Some(f)) => Some(
                (if frames_ms(f, tb.0, tb.1) > u64::MAX {
                    u64::MAX as int
                } else {
                    frames_ms(f, tb.0, tb.1)
                }) as u64,
            ),
            _ => None,
        },
{
    match (time_base, n_frames) {
        (Some(tb), Some(f)) => {
            let (numer, denom) = tb;
            assert(f * numer * 1000 <= u64::MAX * u32::MAX * 1000) by (nonlinear_arith)
                requires
                    f <= u64::MAX,
                    numer <= u32::MAX,
            ;
            let total: u128 = (f as u128) * (numer as u128) * 1000;
            let ms: u128 = total / (denom as u128);
            if ms > u64::MAX as u128 {
                Some(u64::MAX)
            } else {
                Some(ms as u64)
            }
        },
        _ => None,
    }
}

/// The index of the interleaved sample at `position_ms` in a stream of
/// `sample_rate` frames per second and `channels` samples per frame.
pub open spec fn sample_offset(position_ms: u64, sample_rate: u32, channels: u16) -> int {
    (position_ms * sample_rate * channels) / 1000
}

/// Where playback starts in `n_samples` decoded samples after seeking to
/// `position_ms`: the sample at that time, or the end.
pub fn seek_offset(position_ms: u64, sample_rate: u32, channels: u16, n_samples: usize) -> (r: usize)
    ensures
        r == (if sample_offset(position_ms, sample_rate, channels) < n_samples {
            sample_offset(position_ms, sample_rate, channels)
        } else {
            n_samples as int
        }),
{
    assert(position_ms * sample_rate <= u64::MAX * u32::MAX) by (nonlinear_arith)
        requires
            position_ms <= u64::MAX,
            sample_rate <= u32::MAX,
    ;
    assert(position_ms * sample_rate * channels <= u64::MAX * u32::MAX * u16::MAX) by (nonlinear_arith)
        requires
            position_ms <= u64::MAX,
            sample_rate <= u32::MAX,
            channels <= u16::MAX,
    ;
    let total: u128 = (position_ms as u128) * (sample_rate as u128) * (channels as u128);
    let off: u128 = total / 1000;
    if off < n_samples as u128 {
        off as usize
    } else {
        n_samples
    }
}

/// The sample rate and channel count of a stream, with 44100 Hz and two
/// channels when the stream does not say.
pub fn stream_format(sample_rate: Option<u32>, channels: Option<u16>) -> (r: (u32, u16))
    ensures
        r.0 == match sample_rate {
            Some(x) => x,
            None => 44100u32,
        },
        r.1 == match channels {
            Some(x) => x,
            None => 2u16,
        },
{
    let rate = match sample_rate {
        Some(x) => x,
        None => 44100,
    };
    let ch = match channels {
        Some(x) => x,
        None => 2,
    };
    (rate, ch)
}

} // verus!
