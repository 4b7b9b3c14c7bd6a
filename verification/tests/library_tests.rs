use opal_player::library::{classify_entry, is_supported_extension, EntryKind, MusicLibrary, TrackInfo};

fn track(path: &str, title: &str, artist: &str, album: &str) -> TrackInfo {
    TrackInfo {
        path: path.to_string(),
        title: title.to_string(),
        artist: artist.to_string(),
        album: album.to_string(),
        duration_ms: Some(180_000),
        track_number: None,
        genre: None,
    }
}

fn library() -> MusicLibrary {
    let mut lib = MusicLibrary::new(Some("/music".to_string()));
    lib.add_tracks(vec![
        track("/music/one.mp3", "Hello", "World", "First"),
        track("/music/two.flac", "Other", "Band", "Second"),
        track("/music/three.ogg", "", "", ""),
    ]);
    lib
}

#[test]
fn supported_extensions_ignore_case() {
    assert!(is_supported_extension("mp3"));
    assert!(is_supported_extension("FLAC"));
    assert!(is_supported_extension("Opus"));
    assert!(!is_supported_extension("txt"));
    assert!(!is_supported_extension(""));
}

#[test]
fn display_name_uses_title_or_stem() {
    assert_eq!(track("/a/b.mp3", "T", "A", "").display_name(), "A - T");
    assert_eq!(track("/music/song.mp3", "", "A", "").display_name(), "song");
}

#[test]
fn search_text_is_lowercase_joined() {
    let t = track("/X/y.mp3", "Hello", "World", "Alb");
    assert_eq!(t.search_text(), "hello world alb /x/y.mp3");
}

#[test]
fn new_library_is_empty() {
    let lib = MusicLibrary::new(None);
    assert_eq!(lib.current_dir, ".");
    assert!(lib.tracks.is_empty());
    assert!(lib.filtered_indices.is_empty());
    assert_eq!(lib.selected_index, 0);
    assert!(!lib.is_loading);
    let other = MusicLibrary::new(Some("/home/u/Music".to_string()));
    assert!(other.tracks.is_empty());
    assert_eq!(other.current_dir, "/home/u/Music");
}

#[test]
fn empty_query_shows_everything() {
    let lib = library();
    assert_eq!(lib.filtered_indices, vec![0, 1, 2]);
    assert!(lib.indices_in_range());
}

#[test]
fn search_filters_by_title_artist_album_and_path() {
    let mut lib = library();
    lib.search("HELLO");
    assert_eq!(lib.filtered_indices, vec![0]);
    lib.search("band");
    assert_eq!(lib.filtered_indices, vec![1]);
    lib.search("second");
    assert_eq!(lib.filtered_indices, vec![1]);
    lib.search("three");
    assert_eq!(lib.filtered_indices, vec![2]);
    lib.search("music");
    assert_eq!(lib.filtered_indices, vec![0, 1, 2]);
    lib.search("nothing like this");
    assert!(lib.filtered_indices.is_empty());
    assert_eq!(lib.selected_index, 0);
}

#[test]
fn filter_pulls_cursor_back_inside() {
    let mut lib = library();
    lib.select_index(2);
    assert_eq!(lib.selected_index, 2);
    lib.search("o");
    assert_eq!(lib.filtered_indices, vec![0, 1, 2]);
    lib.search("band");
    assert_eq!(lib.selected_index, 0);
}

#[test]
fn cursor_moves_stop_at_the_ends() {
    let mut lib = library();
    lib.select_prev();
    assert_eq!(lib.selected_index, 0);
    lib.select_next();
    lib.select_next();
    lib.select_next();
    assert_eq!(lib.selected_index, 2);
    lib.select_index(99);
    assert_eq!(lib.selected_index, 2);
    let t = lib.selected_track().expect("a track");
    assert_eq!(t.path, "/music/three.ogg");
}

#[test]
fn no_selected_track_in_empty_list() {
    let lib = MusicLibrary::new(None);
    assert!(lib.selected_track().is_none());
}

#[test]
fn finish_scan_replaces_contents() {
    let mut lib = library();
    lib.search("hello");
    lib.finish_scan("/other".to_string(), vec![track("/other/hello.mp3", "", "", "")], Vec::new());
    assert_eq!(lib.current_dir, "/other");
    assert_eq!(lib.tracks.len(), 1);
    assert_eq!(lib.filtered_indices, vec![0]);
    assert!(!lib.is_loading);
}

#[test]
fn scanner_classifies_entries() {
    assert_eq!(classify_entry(".hidden", "/a/.hidden", false, true), EntryKind::Hidden);
    assert_eq!(classify_entry(".git", "/a/.git", true, false), EntryKind::Hidden);
    assert_eq!(classify_entry("albums", "/a/albums", true, false), EntryKind::Directory);
    assert_eq!(classify_entry("song.MP3", "/a/song.MP3", false, true), EntryKind::Audio);
    assert_eq!(classify_entry("notes.txt", "/a/notes.txt", false, true), EntryKind::Other);
    assert_eq!(classify_entry("song.mp3", "/a/song.mp3", false, false), EntryKind::Other);
    assert_eq!(classify_entry("README", "/a/README", false, true), EntryKind::Other);
}

#[test]
fn listing_puts_directories_first_then_names() {
    let entries = vec![
        ("b.mp3".to_string(), false),
        ("Zeta".to_string(), true),
        ("a.mp3".to_string(), false),
        ("alpha".to_string(), true),
        ("B.flac".to_string(), false),
    ];
    assert_eq!(opal_player::library::listing_order(&entries), vec![1, 3, 4, 2, 0]);
    let same = vec![("x".to_string(), false), ("x".to_string(), false)];
    assert_eq!(opal_player::library::listing_order(&same), vec![0, 1]);
    assert!(opal_player::library::listing_order(&Vec::new()).is_empty());
}
