use opal_player::mpris::{metadata_entries, pause_toggles, play_toggles, track_id_from_path, MprisMetadata};
use std::hash::{Hash, Hasher};

#[test]
fn track_id_is_prefix_and_path_hash() {
    let id = track_id_from_path("/music/a b.mp3");
    let mut h = std::collections::hash_map::DefaultHasher::new();
    std::path::Path::new("/music/a b.mp3").hash(&mut h);
    assert_eq!(id, format!("/org/mpris/MediaPlayer2/opal/{}", h.finish()));
    let tail = &id["/org/mpris/MediaPlayer2/opal/".len()..];
    assert!(!tail.is_empty());
    assert!(tail.chars().all(|c| c.is_ascii_digit()));
    assert_eq!(id, track_id_from_path("/music/a b.mp3"));
    assert_ne!(id, track_id_from_path("/music/other.mp3"));
}

#[test]
fn empty_metadata_publishes_nothing() {
    let e = metadata_entries(&MprisMetadata::empty());
    assert!(e.track_id.is_none());
    assert!(e.title.is_none());
    assert!(e.artist.is_none());
    assert!(e.album.is_none());
    assert!(e.length.is_none());
    assert!(e.art_url.is_none());
}

#[test]
fn full_metadata_published() {
    let m = MprisMetadata {
        track_id: "/org/mpris/MediaPlayer2/opal/1".to_string(),
        title: "T".to_string(),
        artist: vec!["A".to_string(), "B".to_string()],
        album: "Al".to_string(),
        length: 5_000_000,
    };
    let e = metadata_entries(&m);
    assert_eq!(e.track_id.as_deref(), Some("/org/mpris/MediaPlayer2/opal/1"));
    assert_eq!(e.title.as_deref(), Some("T"));
    assert_eq!(e.artist, Some(vec!["A".to_string(), "B".to_string()]));
    assert_eq!(e.album.as_deref(), Some("Al"));
    assert_eq!(e.length, Some(5_000_000));
    assert_eq!(e.art_url.as_deref(), Some(""));
    let mut n = m;
    n.length = 0;
    let e2 = metadata_entries(&n);
    assert!(e2.length.is_none());
    assert!(e2.art_url.is_none());
}

#[test]
fn remote_play_and_pause() {
    assert!(pause_toggles("Playing"));
    assert!(!pause_toggles("Paused"));
    assert!(!pause_toggles("Stopped"));
    assert!(!play_toggles("Playing"));
    assert!(play_toggles("Paused"));
    assert!(play_toggles("Stopped"));
}

#[test]
fn texts_naming_one_path_share_an_id() {
    assert_eq!(track_id_from_path("/music//a.mp3"), track_id_from_path("/music/a.mp3"));
    assert_eq!(track_id_from_path("/music/dir/"), track_id_from_path("/music/dir"));
}
