//! What the player publishes on the desktop media bus (MPRIS): the track
//! identifier, the metadata entries, and how remote play and pause requests
//! are answered.
use vstd::prelude::*;
use vstd::string::StringExecFns;
use crate::text::{chars_of, decimal, lemma_decimal_digits, push_decimal, same_path, string_of};

verus! {

/// A snapshot of the playing track's metadata.
#[derive(Debug)]
pub struct MprisMetadata {
    pub track_id: String,
    pub title: String,
    pub artist: Vec<String>,
    pub album: String,
    /// Length in microseconds.
    pub length: i64,
}

impl MprisMetadata {
    /// No track: every text empty, no artists, no length.
    pub fn empty() -> (r: MprisMetadata)
        ensures
            r.track_id@.len() == 0,
            r.title@.len() == 0,
            r.artist@.len() == 0,
            r.album@.len() == 0,
            r.length == 0,
    {
        MprisMetadata {
            track_id: String::new(),
            title: String::new(),
            artist: Vec::new(),
            album: String::new(),
            length: 0,
        }
    }
}

/// The hash that `DefaultHasher::new()` gives a path written as text.
pub uninterp spec fn path_hash(path: Seq<char>) -> u64;

/// Hashes `path` as a `std::path::Path` with a `DefaultHasher` made by
/// `new()`. Such hashers all start from the same keys, so the result is a
/// function of the path (named `path_hash`); the hash algorithm is not
/// restated here. `Hash` agrees with `==` for paths, which compares their
/// components, so every text naming the same path (`same_path`) hashes
/// alike.
#[verifier::external_body]
fn hash_path(path: &str) -> (r: u64)
    ensures
        r == path_hash(path@),
        forall|q: Seq<char>| #[trigger] same_path(path@, q) ==> path_hash(q) == r,
{
    let mut hasher = std::collections::hash_map::DefaultHasher::new();
    std::hash::Hash::hash(std::path::Path::new(path), &mut hasher);
    std::hash::Hasher::finish(&hasher)
}

/// The object path under which tracks are published.
pub open spec fn track_id_prefix() -> Seq<char> {
    "/org/mpris/MediaPlayer2/opal/"@
}

/// A D-Bus object path for a file: the prefix and the decimal hash of the
/// path, so that only characters object paths allow appear. Texts naming the
/// same path (a doubled or trailing separator, say) give the same identifier.
pub fn track_id_from_path(path: &str) -> (r: String)
    ensures
        r@ == track_id_prefix() + decimal(path_hash(path@) as nat),
        forall|q: Seq<char>| #[trigger] same_path(path@, q) ==> r@ == track_id_prefix() + decimal(
            path_hash(q) as nat,
        ),
{
    let h = hash_path(path);
    let mut v = chars_of("/org/mpris/MediaPlayer2/opal/");
    push_decimal(&mut v, h);
    string_of(&v)
}

/// A character D-Bus allows in object paths: an ASCII letter or digit, `_`
/// or `/`.
pub open spec fn object_path_char(c: char) -> bool {
    ('a' <= c <= 'z') || ('A' <= c <= 'Z') || ('0' <= c <= '9') || c == '_' || c == '/'
}

/// Track identifiers only hold characters object paths allow, whatever the
/// file's path.
pub proof fn law_track_id_is_object_path(path: Seq<char>)
    ensures
        forall|i: int|
            0 <= i < (track_id_prefix() + decimal(path_hash(path) as nat)).len()
                ==> object_path_char(#[trigger] (track_id_prefix() + decimal(path_hash(path) as nat))[i]),
{
    reveal_strlit("/org/mpris/MediaPlayer2/opal/");
    let p = track_id_prefix();
    let d = decimal(path_hash(path) as nat);
    lemma_decimal_digits(path_hash(path) as nat);
    assert forall|i: int| 0 <= i < (p + d).len() implies object_path_char(#[trigger] (p + d)[i]) by {
        if i >= p.len() {
            assert((p + d)[i] == d[i - p.len()]);
        }
    }
}

/// The metadata entries published for a snapshot; each is present only when
/// it has something to say.
#[derive(Debug)]
pub struct MetadataEntries {
    /// `mpris:trackid`, when the identifier is not empty.
    pub track_id: Option<String>,
    /// `xesam:title`, when the title is not empty.
    pub title: Option<String>,
    /// `xesam:artist`, when there are artists.
    pub artist: Option<Vec<String>>,
    /// `xesam:album`, when the album is not empty.
    pub album: Option<String>,
    /// `mpris:length`, when the length is positive.
    pub length: Option<i64>,
    /// `mpris:artUrl`, empty, published together with the length.
    pub art_url: Option<String>,
}

/// `o` holds `s` exactly when `s` is not empty.
pub open spec fn text_if_any(o: Option<String>, s: String) -> bool {
    if s@.len() > 0 {
        o == Some(s)
    } else {
        o is None
    }
}

/// The entries published for `m`.
pub fn metadata_entries(m: &MprisMetadata) -> (r: MetadataEntries)
    ensures
        text_if_any(r.track_id, m.track_id),
        text_if_any(r.title, m.title),
        m.artist@.len() > 0 ==> (r.artist matches Some(a) && a@ == m.artist@),
        m.artist@.len() == 0 ==> r.artist is None,
        text_if_any(r.album, m.album),
        m.length > 0 ==> r.length == Some(m.length) && (r.art_url matches Some(u) && u@.len() == 0),
        m.length <= 0 ==> r.length is None && r.art_url is None,
{
    let track_id = if m.track_id.as_str().is_empty() {
        None
    } else {
        Some(m.track_id.clone())
    };
    let title = if m.title.as_str().is_empty() {
        None
    } else {
        Some(m.title.clone())
    };
    let artist = if m.artist.len() == 0 {
        None
    } else {
        Some(m.artist.clone())
    };
    let album = if m.album.as_str().is_empty() {
        None
    } else {
        Some(m.album.clone())
    };
    let (length, art_url) = if m.length > 0 {
        (Some(m.length), Some(String::new()))
    } else {
        (None, None)
    };
    MetadataEntries { track_id, title, artist, album, length, art_url }
}

/// A remote Pause request toggles playback only while playing.
pub fn pause_toggles(playback_status: &str) -> (r: bool)
    ensures
        r == (playback_status@ == "Playing"@),
{
    let s = chars_of(playback_status);
    crate::text::chars_eq_str(&s, "Playing")
}

/// A remote Play request toggles playback unless already playing.
pub fn play_toggles(playback_status: &str) -> (r: bool)
    ensures
        r == (playback_status@ != "Playing"@),
{
    !pause_toggles(playback_status)
}

} // verus!
