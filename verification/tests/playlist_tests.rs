use opal_player::error::AppError;
use opal_player::library::TrackInfo;
use opal_player::playlist::{entry_for, Playlist, PlaylistEntry, PlaylistManager};

fn track(path: &str, title: &str, artist: &str, ms: Option<u64>) -> TrackInfo {
    TrackInfo {
        path: path.to_string(),
        title: title.to_string(),
        artist: artist.to_string(),
        album: String::new(),
        duration_ms: ms,
        track_number: Some(1),
        genre: Some("Rock".to_string()),
    }
}

fn entry(path: &str, title: &str, ms: Option<u64>) -> PlaylistEntry {
    PlaylistEntry { path: path.to_string(), title: title.to_string(), artist: String::new(), duration_ms: ms }
}

#[test]
fn m3u_file_is_read_line_by_line() {
    let text = "#EXTM3U\n#PLAYLIST:Mix\n#EXTINF:123,Song\n/music/a.mp3\n\n  /music/b.flac  \r\n";
    let pl = Playlist::parse_m3u(text, "/lists/Mix.m3u");
    assert_eq!(pl.name, "Mix");
    assert_eq!(pl.file_path.as_deref(), Some("/lists/Mix.m3u"));
    let paths: Vec<&str> = pl.tracks.iter().map(|e| e.path.as_str()).collect();
    assert_eq!(paths, vec!["/music/a.mp3", "/music/b.flac"]);
    assert_eq!(pl.tracks[0].title, "a");
    assert_eq!(pl.tracks[1].title, "b");
    assert_eq!(pl.tracks[0].artist, "");
    assert_eq!(pl.tracks[0].duration_ms, None);
}

#[test]
fn m3u_without_stem_is_untitled() {
    let pl = Playlist::parse_m3u("", "/");
    assert_eq!(pl.name, "Untitled");
    assert!(pl.tracks.is_empty());
}

#[test]
fn m3u_text_layout() {
    let pl = Playlist {
        name: "Mix".to_string(),
        tracks: vec![entry("/m/a.mp3", "A", Some(123_500)), entry("/m/b.mp3", "B", None), entry("/m/c.mp3", "C", Some(122_500))],
        file_path: None,
    };
    assert_eq!(
        pl.m3u_content(),
        "#EXTM3U\n#PLAYLIST:Mix\n#EXTINF:124,A\n/m/a.mp3\n/m/b.mp3\n#EXTINF:122,C\n/m/c.mp3\n"
    );
}

#[test]
fn m3u_round_trip_keeps_paths() {
    let pl = Playlist {
        name: "Road".to_string(),
        tracks: vec![entry("/m/x.mp3", "X", Some(1_000)), entry("/m/y y.flac", "Y", None)],
        file_path: None,
    };
    let back = Playlist::parse_m3u(&pl.m3u_content(), "/p/Road.m3u");
    let paths: Vec<&str> = back.tracks.iter().map(|e| e.path.as_str()).collect();
    assert_eq!(paths, vec!["/m/x.mp3", "/m/y y.flac"]);
}

#[test]
fn saving_needs_a_path() {
    let mut pl = Playlist::new("P");
    match pl.save_m3u(None) {
        Err(AppError::Playlist(m)) => assert_eq!(m, "no save path"),
        other => panic!("unexpected {:?}", other),
    }
    let (path, text) = pl.save_m3u(Some("/x.m3u")).unwrap();
    assert_eq!(path, "/x.m3u");
    assert_eq!(text, "#EXTM3U\n#PLAYLIST:P\n");
    pl.file_path = Some("/own.m3u".to_string());
    assert_eq!(pl.save_m3u(None).unwrap().0, "/own.m3u");
    assert_eq!(pl.save_m3u(Some("/x.m3u")).unwrap().0, "/x.m3u");
}

#[test]
fn playlist_track_edits() {
    let mut pl = Playlist::new("P");
    pl.add_track(&track("/a.mp3", "A", "X", Some(5)));
    pl.add_track(&track("/b.mp3", "B", "Y", None));
    assert_eq!(pl.tracks.len(), 2);
    assert_eq!(pl.tracks[0].duration_ms, Some(5));
    let removed = pl.remove_track(0).expect("removed");
    assert_eq!(removed.path, "/a.mp3");
    assert!(pl.remove_track(5).is_none());
    pl.clear();
    assert!(pl.tracks.is_empty());
}

#[test]
fn entry_for_copies_track_fields() {
    let e = entry_for(&track("/a.mp3", "A", "X", Some(7)));
    assert_eq!(e.path, "/a.mp3");
    assert_eq!(e.title, "A");
    assert_eq!(e.artist, "X");
    assert_eq!(e.duration_ms, Some(7));
}

#[test]
fn queue_is_first_in_first_out() {
    let mut m = PlaylistManager::new();
    m.add_to_queue(&track("/1.mp3", "1", "", None));
    m.add_to_queue(&track("/2.mp3", "2", "", None));
    m.add_to_queue(&track("/3.mp3", "3", "", None));
    assert_eq!(m.pop_next_queue().unwrap().path, "/1.mp3");
    assert_eq!(m.pop_next_queue().unwrap().path, "/2.mp3");
    assert_eq!(m.queue.len(), 1);
    m.clear_queue();
    assert!(m.pop_next_queue().is_none());
}

#[test]
fn queue_removal_keeps_cursor_inside() {
    let mut m = PlaylistManager::new();
    for p in ["/1.mp3", "/2.mp3", "/3.mp3"] {
        m.add_to_queue(&track(p, "", "", None));
    }
    m.select_queue_next();
    m.select_queue_next();
    m.select_queue_next();
    assert_eq!(m.selected_queue_index, 2);
    let r = m.remove_from_queue(2).expect("removed");
    assert_eq!(r.path, "/3.mp3");
    assert_eq!(m.selected_queue_index, 1);
    assert!(m.remove_from_queue(9).is_none());
    m.select_queue_prev();
    m.select_queue_prev();
    assert_eq!(m.selected_queue_index, 0);
}

#[test]
fn playlists_are_created_and_selected() {
    let mut m = PlaylistManager::new();
    assert!(m.current_playlist().is_none());
    assert!(m.current_playlist_mut().is_none());
    m.create_playlist("One");
    m.create_playlist("Two");
    assert_eq!(m.selected_playlist_index, 1);
    assert_eq!(m.current_playlist().unwrap().name, "One");
    m.current_playlist_mut().expect("current playlist").add_track(&track("/a.mp3", "A", "", None));
    assert_eq!(m.playlists[0].tracks.len(), 1);
    m.select_playlist_prev();
    m.select_playlist_prev();
    assert_eq!(m.selected_playlist_index, 0);
    m.select_playlist_next();
    m.select_playlist_next();
    assert_eq!(m.selected_playlist_index, 1);
    m.load_playlist(Playlist::parse_m3u("/z.mp3\n", "/lists/Z.m3u"));
    assert_eq!(m.selected_playlist_index, 2);
    assert_eq!(m.playlists[2].name, "Z");
}

#[test]
fn saving_the_selected_playlist() {
    let mut m = PlaylistManager::new();
    assert!(matches!(m.save_current_playlist(), Ok(None)));
    m.create_playlist("NoFile");
    assert!(matches!(m.save_current_playlist(), Err(AppError::Playlist(_))));
    m.load_playlist(Playlist::parse_m3u("/z.mp3\n", "/lists/Z.m3u"));
    match m.save_current_playlist() {
        Ok(Some((path, text))) => {
            assert_eq!(path, "/lists/Z.m3u");
            assert_eq!(text, "#EXTM3U\n#PLAYLIST:Z\n/z.mp3\n");
        }
        other => panic!("unexpected {:?}", other),
    }
}

#[test]
fn titles_without_a_length_are_not_written() {
    let pl = Playlist {
        name: "Mix".to_string(),
        tracks: vec![entry("/m/a.mp3", "two\nlines", None), entry("/m/b.mp3", "B", Some(2_000))],
        file_path: None,
    };
    let back = Playlist::parse_m3u(&pl.m3u_content(), "/p/Mix.m3u");
    let paths: Vec<&str> = back.tracks.iter().map(|e| e.path.as_str()).collect();
    assert_eq!(paths, vec!["/m/a.mp3", "/m/b.mp3"]);
}
