use opal_player::error::AppError;
use opal_player::library::TrackInfo;
use opal_player::player::{seek_offset, stream_format, stream_length_ms, PlayState, Player, RepeatMode, SinkCommand};

fn track() -> TrackInfo {
    TrackInfo {
        path: "/music/a.mp3".to_string(),
        title: "A".to_string(),
        artist: "X".to_string(),
        album: String::new(),
        duration_ms: Some(90_000),
        track_number: None,
        genre: None,
    }
}

fn playing() -> Player {
    let mut p = Player::new();
    p.play_file(track(), Ok(Some(200_000)), 1_000).unwrap();
    p
}

#[test]
fn new_player_is_stopped_at_eighty_percent() {
    let p = Player::new();
    assert_eq!(p.state, PlayState::Stopped);
    assert_eq!(p.volume, 80);
    assert!(!p.muted);
    assert_eq!(p.repeat_mode, RepeatMode::Off);
    assert!(!p.shuffle);
    assert!(p.current_track.is_none());
    assert!(!p.playing());
}

#[test]
fn playing_a_file_starts_the_clock() {
    let p = playing();
    assert_eq!(p.state, PlayState::Playing);
    assert_eq!(p.total_duration_ms, Some(200_000));
    assert_eq!(p.get_elapsed(3_500), 2_500);
    assert!(p.playing());
}

#[test]
fn length_falls_back_to_tags() {
    let mut p = Player::new();
    p.play_file(track(), Ok(None), 0).unwrap();
    assert_eq!(p.total_duration_ms, Some(90_000));
}

#[test]
fn failed_decode_leaves_player_stopped() {
    let mut p = playing();
    let r = p.play_file(track(), Err(AppError::Decode("bad".to_string())), 5_000);
    assert!(matches!(r, Err(AppError::Decode(_))));
    assert_eq!(p.state, PlayState::Stopped);
    assert!(p.current_track.is_none());
    assert_eq!(p.get_elapsed(9_000), 0);
}

#[test]
fn pause_banks_time_and_resume_continues() {
    let mut p = playing();
    assert_eq!(p.play_pause(4_000), SinkCommand::Pause);
    assert_eq!(p.state, PlayState::Paused);
    assert_eq!(p.get_elapsed(9_000), 3_000);
    assert_eq!(p.play_pause(10_000), SinkCommand::Play);
    assert_eq!(p.get_elapsed(11_000), 4_000);
    let mut s = Player::new();
    assert_eq!(s.play_pause(1), SinkCommand::Nothing);
    assert_eq!(s.state, PlayState::Stopped);
}

#[test]
fn seeking_stays_within_the_track() {
    let p = playing();
    assert_eq!(p.seek(5_000, 11_000), Some(15_000));
    assert_eq!(p.seek(-50_000, 11_000), Some(0));
    assert_eq!(p.seek(500_000, 11_000), Some(200_000));
    assert_eq!(Player::new().seek(5_000, 0), None);
}

#[test]
fn unknown_length_seeks_within_five_minutes() {
    let mut p = Player::new();
    let mut t = track();
    t.duration_ms = None;
    p.play_file(t, Ok(None), 0).unwrap();
    assert_eq!(p.seek(1_000_000, 0), Some(300_000));
}

#[test]
fn seek_absolute_moves_the_clock() {
    let mut p = playing();
    assert!(p.seek_absolute(60_000, Ok(()), 20_000).is_ok());
    assert_eq!(p.get_elapsed(21_000), 61_000);
    assert!(!p.seeking);
    p.play_pause(21_000);
    assert!(p.seek_absolute(5_000, Ok(()), 30_000).is_ok());
    assert_eq!(p.get_elapsed(90_000), 5_000);
    let r = p.seek_absolute(1, Err(AppError::Decode("x".to_string())), 0);
    assert!(r.is_err());
    assert!(!p.seeking);
}

#[test]
fn volume_is_clamped() {
    let mut p = Player::new();
    assert_eq!(p.change_volume(100), Some(150));
    assert_eq!(p.volume, 150);
    assert_eq!(p.change_volume(-200), Some(0));
    assert_eq!(p.set_volume(70), Some(70));
    assert_eq!(p.set_volume(-5), Some(0));
    assert_eq!(p.set_volume(1000), Some(150));
}

#[test]
fn mute_silences_output_only() {
    let mut p = Player::new();
    assert_eq!(p.toggle_mute(), 0);
    assert_eq!(p.effective_volume(), 0);
    assert_eq!(p.change_volume(5), None);
    assert_eq!(p.volume, 85);
    assert_eq!(p.toggle_mute(), 85);
    assert_eq!(p.effective_volume(), 85);
}

#[test]
fn scrubbing_steps() {
    let mut p = Player::new();
    assert_eq!(p.scrub_tick(500), None);
    p.scrub_direction = 1;
    assert_eq!(p.scrub_tick(250), Some(4_000));
    assert_eq!(p.scrub_timer_ms, 50);
    assert_eq!(p.scrub_tick(30), None);
    assert_eq!(p.scrub_timer_ms, 80);
    p.scrub_direction = -1;
    assert_eq!(p.scrub_tick(20), Some(-2_000));
    assert_eq!(p.scrub_timer_ms, 0);
}

#[test]
fn end_of_track_detection() {
    let p = playing();
    assert!(!p.is_finished(false, 2_000));
    assert!(p.is_finished(true, 2_000));
    assert!(p.is_finished(false, 201_000));
    let mut q = playing();
    q.scrub_direction = 1;
    assert!(!q.is_finished(true, 2_000));
    let mut r = playing();
    r.play_pause(3_000);
    assert!(!r.is_finished(true, 3_000));
}

#[test]
fn stop_forgets_track() {
    let mut p = playing();
    p.stop();
    assert_eq!(p.state, PlayState::Stopped);
    assert!(p.current_track.is_none());
    assert_eq!(p.total_duration_ms, None);
    assert_eq!(p.volume, 80);
}

#[test]
fn decoded_stream_helpers() {
    assert_eq!(stream_length_ms(Some(441_000), Some((1, 44_100))), Some(10_000));
    assert_eq!(stream_length_ms(Some(3), Some((1, 2))), Some(1_500));
    assert_eq!(stream_length_ms(None, Some((1, 44_100))), None);
    assert_eq!(stream_length_ms(Some(10), None), None);
    assert_eq!(stream_length_ms(None, Some((1, 0))), None);
    assert_eq!(seek_offset(1_500, 44_100, 2, 1_000_000), 132_300);
    assert_eq!(seek_offset(60_000, 44_100, 2, 1_000), 1_000);
    assert_eq!(seek_offset(0, 44_100, 2, 10), 0);
    assert_eq!(stream_format(None, None), (44_100, 2));
    assert_eq!(stream_format(Some(48_000), Some(1)), (48_000, 1));
}

#[test]
fn stopping_twice_is_stopping_once() {
    let mut p = playing();
    p.stop();
    let before = (p.state, p.accumulated_ms, p.volume);
    p.stop();
    assert_eq!((p.state, p.accumulated_ms, p.volume), before);
}

#[test]
fn resume_then_pause_at_once_keeps_the_position() {
    let mut p = playing();
    p.play_pause(5_000);
    let at = p.get_elapsed(5_000);
    p.play_pause(7_000);
    p.play_pause(7_000);
    assert_eq!(p.state, PlayState::Paused);
    assert_eq!(p.get_elapsed(9_000), at);
    assert_eq!(playing().get_elapsed(1_000), 0);
}

#[test]
fn stop_after_play_is_plain_stop() {
    let mut a = Player::new();
    a.set_volume(40);
    let mut b = Player::new();
    b.set_volume(40);
    a.play_file(track(), Ok(Some(5)), 10).unwrap();
    a.stop();
    b.stop();
    assert_eq!((a.state, a.volume, a.total_duration_ms, a.get_elapsed(99)), (b.state, b.volume, b.total_duration_ms, b.get_elapsed(99)));
}

#[test]
fn volume_change_undone_within_range() {
    let mut p = Player::new();
    p.change_volume(30);
    p.change_volume(-30);
    assert_eq!(p.volume, 80);
    p.change_volume(100);
    p.change_volume(-100);
    assert_eq!(p.volume, 50);
}

#[test]
fn scrubbing_with_no_interval() {
    let mut p = Player::new();
    p.scrub_interval_ms = 0;
    p.scrub_direction = 1;
    assert_eq!(p.scrub_tick(0), Some(0));
    assert_eq!(p.scrub_tick(10), Some(4_294_967_295 * 2_000));
    assert_eq!(p.scrub_timer_ms, 10);
}
