//! The music library: tracks, the search filter over them and the cursor.
use vstd::prelude::*;
use crate::config::dir_or_here;
use crate::input::{chars_lex_le, lemma_lex_total, lemma_lex_trans, lex_le};
use crate::text::{extension, path_extension, 
    chars_eq, chars_of, contains_seq, contains_chars, extend_chars, extend_str, file_stem,
    lowercase, path_file_stem, string_of, to_lowercase,
};

verus! {

/// File extensions of the audio formats the player reads.
pub open spec fn supported_extensions() -> Seq<Seq<char>> {
    seq![
        seq!['m', 'p', '3'],
        seq!['f', 'l', 'a', 'c'],
        seq!['w', 'a', 'v'],
        seq!['o', 'g', 'g'],
        seq!['a', 'a', 'c'],
        seq!['m', '4', 'a'],
        seq!['o', 'p', 'u', 's'],
    ]
}

/// Whether a file with extension `ext` is an audio file the player reads;
/// case is ignored.
pub fn is_supported_extension(ext: &str) -> (r: bool)
    ensures
        r == supported_extensions().contains(lowercase(ext@)),
{
    let e = chars_of(ext);
    let low = to_lowercase(&e);
    let known: Vec<Vec<char>> = vec![
        vec!['m', 'p', '3'],
        vec!['f', 'l', 'a', 'c'],
        vec!['w', 'a', 'v'],
        vec!['o', 'g', 'g'],
        vec!['a', 'a', 'c'],
        vec!['m', '4', 'a'],
        vec!['o', 'p', 'u', 's'],
    ];
    let ghost exts = supported_extensions();
    assert(known@.len() == exts.len());
    assert(forall|k: int| 0 <= k < 7 ==> #[trigger] known@[k]@ == exts[k]) by {
        assert(known@[0]@ =~= exts[0]);
        assert(known@[1]@ =~= exts[1]);
        assert(known@[2]@ =~= exts[2]);
        assert(known@[3]@ =~= exts[3]);
        assert(known@[4]@ =~= exts[4]);
        assert(known@[5]@ =~= exts[5]);
        assert(known@[6]@ =~= exts[6]);
    }
    let mut i: usize = 0;
    while i < known.len()
        invariant
            i <= known.len() == 7,
            low@ == lowercase(ext@),
            exts == supported_extensions(),
            exts.len() == 7,
            forall|k: int| 0 <= k < 7 ==> #[trigger] known@[k]@ == exts[k],
            forall|k: int| 0 <= k < i ==> exts[k] != low@,
        decreases known.len() - i,
    {
        if chars_eq(&known[i], &low) {
            assert(exts[i as int] == low@);
            assert(exts.contains(low@));
            return true;
        }
        i = i + 1;
    }
    assert forall|k: int| 0 <= k < exts.len() implies exts[k] != low@ by {}
    false
}

/// What the scanner makes of a directory entry.
#[derive(Clone, Copy, PartialEq, Eq, Debug, Structural)]
pub enum EntryKind {
    /// A name starting with `.`: skipped.
    Hidden,
    /// A directory: scanned in turn.
    Directory,
    /// A file with an audio extension: its tags are read.
    Audio,
    /// Anything else: skipped.
    Other,
}

/// The file at `path` has an extension of an audio format the player reads.
pub open spec fn has_audio_extension(path: Seq<char>) -> bool {
    match path_extension(path) {
        Some(e) => supported_extensions().contains(lowercase(e)),
        None => false,
    }
}

/// What the scanner makes of the entry called `name` at `path`.
pub open spec fn entry_kind(name: Seq<char>, path: Seq<char>, is_dir: bool, is_file: bool) -> EntryKind {
    if name.len() > 0 && name[0] == '.' {
        EntryKind::Hidden
    } else if is_dir {
        EntryKind::Directory
    } else if is_file && has_audio_extension(path) {
        EntryKind::Audio
    } else {
        EntryKind::Other
    }
}

/// Classifies the directory entry called `name` at `path`.
pub fn classify_entry(name: &str, path: &str, is_dir: bool, is_file: bool) -> (r: EntryKind)
    ensures
        r == entry_kind(name@, path@, is_dir, is_file),
{
    let n = chars_of(name);
    if n.len() > 0 && n[0] == '.' {
        return EntryKind::Hidden;
    }
    if is_dir {
        return EntryKind::Directory;
    }
    if is_file {
        match extension(path) {
            Some(e) => {
                if is_supported_extension(e.as_str()) {
                    return EntryKind::Audio;
                }
            },
            None => {},
        }
    }
    EntryKind::Other
}

// ───────────────────────── directory listings ─────────────────────────

/// Entry `a` (name, is a directory) is listed no later than entry `b`:
/// directories first, then by name.
pub open spec fn listed_no_later(a: (Seq<char>, bool), b: (Seq<char>, bool)) -> bool {
    (a.1 && !b.1) || (a.1 == b.1 && lex_le(a.0, b.0))
}

/// The name and kind of a listing entry.
pub open spec fn entry_view(e: (String, bool)) -> (Seq<char>, bool) {
    (e.0@, e.1)
}

/// `order` lists the positions of `entries` in listing order, entries that
/// compare equal in their original order.
pub open spec fn in_listing_order(entries: Seq<(String, bool)>, order: Seq<usize>) -> bool {
    forall|i: int, j: int|
        #![trigger order[i], order[j]]
        0 <= i < j < order.len() ==> {
            let a = entry_view(entries[order[i] as int]);
            let b = entry_view(entries[order[j] as int]);
            &&& listed_no_later(a, b)
            &&& listed_no_later(b, a) ==> order[i] < order[j]
        }
}

/// Listing order is transitive.
proof fn lemma_listed_trans(a: (Seq<char>, bool), b: (Seq<char>, bool), c: (Seq<char>, bool))
    requires
        listed_no_later(a, b),
        listed_no_later(b, c),
    ensures
        listed_no_later(a, c),
{
    if a.1 == b.1 && b.1 == c.1 {
        lemma_lex_trans(a.0, b.0, c.0);
    }
}

/// Listing order is total.
proof fn lemma_listed_total(a: (Seq<char>, bool), b: (Seq<char>, bool))
    ensures
        listed_no_later(a, b) || listed_no_later(b, a),
{
    lemma_lex_total(a.0, b.0);
}

/// Whether entry `a` is listed no later than entry `b`.
fn listed_no_later_exec(a: &(String, bool), b: &(String, bool)) -> (r: bool)
    ensures
        r == listed_no_later(entry_view(*a), entry_view(*b)),
{
    if a.1 && !b.1 {
        return true;
    }
    if a.1 != b.1 {
        return false;
    }
    let x = chars_of(a.0.as_str());
    let y = chars_of(b.0.as_str());
    chars_lex_le(&x, &y)
}

/// The order a directory is listed in: the positions of `entries` (name, is
/// a directory), directories first, then by name; entries that compare
/// equal keep their order.
pub fn listing_order(entries: &Vec<(String, bool)>) -> (r: Vec<usize>)
    ensures
        r@.len() == entries@.len(),
        r@.no_duplicates(),
        forall|i: int| 0 <= i < r@.len() ==> #[trigger] r@[i] < entries@.len(),
        in_listing_order(entries@, r@),
{
    let n = entries.len();
    let mut order: Vec<usize> = Vec::new();
    let mut k: usize = 0;
    while k < n
        invariant
            k <= n == entries@.len(),
            order@.len() == k,
            order@.no_duplicates(),
            forall|i: int| 0 <= i < order@.len() ==> #[trigger] order@[i] < k,
            in_listing_order(entries@, order@),
        decreases n - k,
    {
        let ghost e = entry_view(entries@[k as int]);
        let mut p = order.len();
        while p > 0 && !listed_no_later_exec(&entries[order[p - 1]], &entries[k])
            invariant
                p <= order@.len() == k,
                k < n == entries@.len(),
                e == entry_view(entries@[k as int]),
                forall|i: int| 0 <= i < order@.len() ==> #[trigger] order@[i] < k,
                forall|q: int|
                    p <= q < order@.len() ==> !listed_no_later(
                        entry_view(entries@[#[trigger] order@[q] as int]),
                        e,
                    ),
            decreases p,
        {
            p = p - 1;
        }
        let ghost s = order@;
        proof {
            assert forall|q: int| 0 <= q < p implies listed_no_later(
                entry_view(entries@[#[trigger] s[q] as int]),
                e,
            ) by {
                if q < p - 1 {
                    lemma_listed_trans(
                        entry_view(entries@[s[q] as int]),
                        entry_view(entries@[s[p - 1] as int]),
                        e,
                    );
                }
            }
            assert forall|q: int| p <= q < s.len() implies listed_no_later(
                e,
                entry_view(entries@[#[trigger] s[q] as int]),
            ) by {
                lemma_listed_total(e, entry_view(entries@[s[q] as int]));
            }
        }
        order.insert(p, k);
        proof {
            let t = s.insert(p as int, k);
            assert(order@ == t);
            assert forall|i: int, j: int| #![trigger t[i], t[j]] 0 <= i < j < t.len() implies {
                let a = entry_view(entries@[t[i] as int]);
                let b = entry_view(entries@[t[j] as int]);
                &&& listed_no_later(a, b)
                &&& listed_no_later(b, a) ==> t[i] < t[j]
            } by {
                if j < p {
                    assert(t[i] == s[i] && t[j] == s[j]);
                } else if j == p {
                    assert(t[i] == s[i]);
                } else if i < p {
                    assert(t[i] == s[i] && t[j] == s[j - 1]);
                    lemma_listed_trans(
                        entry_view(entries@[s[i] as int]),
                        e,
                        entry_view(entries@[s[j - 1] as int]),
                    );
                } else if i == p {
                    assert(t[j] == s[j - 1]);
                } else {
                    assert(t[i] == s[i - 1] && t[j] == s[j - 1]);
                }
            }
            assert forall|i: int, j: int| 0 <= i < t.len() && 0 <= j < t.len() && i != j implies t[i] != t[j] by {
                if i != p && j != p {
                    let a = if i < p { i } else { i - 1 };
                    let b = if j < p { j } else { j - 1 };
                    assert(t[i] == s[a] && t[j] == s[b]);
                } else if i == p {
                    let b = if j < p { j } else { j - 1 };
                    assert(t[j] == s[b]);
                } else {
                    let a = if i < p { i } else { i - 1 };
                    assert(t[i] == s[a]);
                }
            }
            assert forall|i: int| 0 <= i < t.len() implies #[trigger] t[i] < k + 1 by {
                if i < p {
                    assert(t[i] == s[i]);
                } else if i > p {
                    assert(t[i] == s[i - 1]);
                }
            }
        }
        k = k + 1;
    }
    order
}

/// Metadata of one audio file.
#[derive(Debug)]
pub struct TrackInfo {
    pub path: String,
    pub title: String,
    pub artist: String,
    pub album: String,
    /// Length in milliseconds, when known.
    pub duration_ms: Option<u64>,
    pub track_number: Option<u32>,
    pub genre: Option<String>,
}

/// A copy of an optional string.
pub fn copy_opt_string(o: &Option<String>) -> (r: Option<String>)
    ensures
        r == *o,
{
    match o {
        Some(s) => Some(s.clone()),
        None => None,
    }
}

/// `" - "`.
pub open spec fn dash_sep() -> Seq<char> {
    seq![' ', '-', ' ']
}

/// `"Unknown"`.
pub open spec fn unknown_name() -> Seq<char> {
    seq!['U', 'n', 'k', 'n', 'o', 'w', 'n']
}

impl TrackInfo {
    /// `"artist - title"`, or the file stem of the path when there is no title.
    pub open spec fn display_name_view(&self) -> Seq<char> {
        if self.title@.len() == 0 {
            match path_file_stem(self.path@) {
                Some(stem) => stem,
                None => unknown_name(),
            }
        } else {
            self.artist@ + dash_sep() + self.title@
        }
    }

    /// The lower-cased text the search filter looks in: title, artist, album
    /// and path, separated by spaces.
    pub open spec fn search_text_view(&self) -> Seq<char> {
        lowercase(
            self.title@ + seq![' '] + self.artist@ + seq![' '] + self.album@ + seq![' ']
                + self.path@,
        )
    }

    /// A copy of this track.
    pub fn duplicate(&self) -> (r: TrackInfo)
        ensures
            r == *self,
    {
        TrackInfo {
            path: self.path.clone(),
            title: self.title.clone(),
            artist: self.artist.clone(),
            album: self.album.clone(),
            duration_ms: self.duration_ms,
            track_number: self.track_number,
            genre: copy_opt_string(&self.genre),
        }
    }

    /// The name shown for the track.
    pub fn display_name(&self) -> (r: String)
        ensures
            r@ == self.display_name_view(),
    {
        if self.title.as_str().is_empty() {
            match file_stem(self.path.as_str()) {
                Some(stem) => stem,
                None => {
                    let v: Vec<char> = vec!['U', 'n', 'k', 'n', 'o', 'w', 'n'];
                    assert(v@ =~= unknown_name());
                    string_of(&v)
                },
            }
        } else {
            let mut v = chars_of(self.artist.as_str());
            let sep: Vec<char> = vec![' ', '-', ' '];
            extend_chars(&mut v, &sep);
            extend_str(&mut v, self.title.as_str());
            assert(sep@ =~= dash_sep());
            string_of(&v)
        }
    }

    /// The lower-cased text the search filter looks in.
    pub fn search_text(&self) -> (r: String)
        ensures
            r@ == self.search_text_view(),
    {
        let low = self.search_chars();
        string_of(&low)
    }

    /// The characters of `search_text`.
    fn search_chars(&self) -> (r: Vec<char>)
        ensures
            r@ == self.search_text_view(),
    {
        let mut v = chars_of(self.title.as_str());
        v.push(' ');
        extend_str(&mut v, self.artist.as_str());
        v.push(' ');
        extend_str(&mut v, self.album.as_str());
        v.push(' ');
        extend_str(&mut v, self.path.as_str());
        assert(v@ =~= self.title@ + seq![' '] + self.artist@ + seq![' '] + self.album@ + seq![' ']
            + self.path@);
        to_lowercase(&v)
    }
}

/// A directory shown in the library.
#[derive(Debug)]
pub struct DirectoryEntry {
    pub name: String,
    pub path: String,
    pub is_dir: bool,
    pub expanded: bool,
    pub depth: usize,
    pub track_count: usize,
}

/// The tracks of the library, the filter over them and the cursor.
#[derive(Debug)]
pub struct MusicLibrary {
    pub tracks: Vec<TrackInfo>,
    pub directories: Vec<DirectoryEntry>,
    pub current_dir: String,
    /// Indices into `tracks` of the tracks the search shows, in order.
    pub filtered_indices: Vec<usize>,
    pub search_query: String,
    /// Cursor position within `filtered_indices`.
    pub selected_index: usize,
    pub is_loading: bool,
}

/// `track` matches the search for `query`: its search text contains the
/// lower-cased query.
pub open spec fn track_matches(track: TrackInfo, query: Seq<char>) -> bool {
    contains_seq(track.search_text_view(), lowercase(query))
}

/// The indices below `n` of the tracks the search for `query` shows.
pub open spec fn matching_indices(tracks: Seq<TrackInfo>, query: Seq<char>, n: int) -> Seq<usize>
    decreases n,
{
    if n <= 0 {
        seq![]
    } else if track_matches(tracks[n - 1], query) {
        matching_indices(tracks, query, n - 1).push((n - 1) as usize)
    } else {
        matching_indices(tracks, query, n - 1)
    }
}

/// The indices `0..n`.
pub open spec fn all_indices(n: int) -> Seq<usize> {
    Seq::new(n as nat, |i: int| i as usize)
}

/// What the filter shows for a query: every track for an empty query,
/// otherwise the matching tracks, in library order.
pub open spec fn filter_result(tracks: Seq<TrackInfo>, query: Seq<char>) -> Seq<usize> {
    if query.len() == 0 {
        all_indices(tracks.len() as int)
    } else {
        matching_indices(tracks, query, tracks.len() as int)
    }
}

/// The filter only shows tracks of the library.
pub proof fn lemma_filter_in_range(tracks: Seq<TrackInfo>, query: Seq<char>)
    ensures
        forall|i: int|
            0 <= i < filter_result(tracks, query).len() ==> #[trigger] filter_result(tracks, query)[i]
                < tracks.len(),
{
    if query.len() != 0 {
        lemma_matching_below(tracks, query, tracks.len() as int);
    }
}

/// The matching indices below `n` are below `n`.
proof fn lemma_matching_below(tracks: Seq<TrackInfo>, query: Seq<char>, n: int)
    requires
        n <= tracks.len(),
    ensures
        forall|i: int|
            0 <= i < matching_indices(tracks, query, n).len() ==> #[trigger] matching_indices(
                tracks,
                query,
                n,
            )[i] < n,
    decreases n,
{
    if n > 0 {
        lemma_matching_below(tracks, query, n - 1);
        let prev = matching_indices(tracks, query, n - 1);
        let cur = matching_indices(tracks, query, n);
        assert forall|i: int| 0 <= i < cur.len() implies #[trigger] cur[i] < n by {
            if i < prev.len() {
                assert(cur[i] == prev[i]);
            }
        }
    }
}

/// With an empty query the filter shows every track, in order.
pub proof fn law_empty_query_shows_all(tracks: Seq<TrackInfo>)
    ensures
        filter_result(tracks, Seq::<char>::empty()) == all_indices(tracks.len() as int),
{
}

/// Position `i` of `s` holds index `k`.
pub open spec fn shows_at(s: Seq<usize>, i: int, k: int) -> bool {
    0 <= i < s.len() && s[i] as int == k
}

/// The matching indices below `n` are increasing, and are exactly the
/// indices below `n` of matching tracks.
proof fn lemma_matching_exact(tracks: Seq<TrackInfo>, query: Seq<char>, n: int)
    requires
        0 <= n <= tracks.len(),
        tracks.len() <= usize::MAX,
    ensures
        forall|i: int, j: int|
            0 <= i < j < matching_indices(tracks, query, n).len() ==> matching_indices(
                tracks,
                query,
                n,
            )[i] < matching_indices(tracks, query, n)[j],
        forall|i: int|
            0 <= i < matching_indices(tracks, query, n).len() ==> #[trigger] matching_indices(
                tracks,
                query,
                n,
            )[i] < n,
        forall|k: int|
            0 <= k < n ==> ((exists|i: int| #[trigger] shows_at(matching_indices(tracks, query, n), i, k))
                <==> track_matches(#[trigger] tracks[k], query)),
    decreases n,
{
    if n > 0 {
        lemma_matching_exact(tracks, query, n - 1);
        let prev = matching_indices(tracks, query, n - 1);
        let cur = matching_indices(tracks, query, n);
        let last = (n - 1) as usize;
        assert(last as int == n - 1);
        if track_matches(tracks[n - 1], query) {
            assert(cur == prev.push(last));
        } else {
            assert(cur == prev);
        }
        assert forall|i: int| 0 <= i < cur.len() implies #[trigger] cur[i] < n by {
            if i < prev.len() {
                assert(cur[i] == prev[i]);
            }
        }
        assert forall|i: int, j: int| 0 <= i < j < cur.len() implies cur[i] < cur[j] by {
            if j < prev.len() {
                assert(cur[i] == prev[i] && cur[j] == prev[j]);
            } else {
                assert(cur[i] == prev[i]);
                assert(prev[i] < n - 1);
            }
        }
        assert forall|k: int| 0 <= k < n implies ((exists|i: int| #[trigger] shows_at(cur, i, k))
            <==> track_matches(#[trigger] tracks[k], query)) by {
            if k < n - 1 {
                if exists|i: int| #[trigger] shows_at(cur, i, k) {
                    let i = choose|i: int| #[trigger] shows_at(cur, i, k);
                    if i < prev.len() {
                        assert(shows_at(prev, i, k));
                    } else {
                        assert(cur[i] as int == n - 1);
                    }
                }
                if exists|i: int| #[trigger] shows_at(prev, i, k) {
                    let i = choose|i: int| #[trigger] shows_at(prev, i, k);
                    assert(shows_at(cur, i, k));
                }
            } else {
                if exists|i: int| #[trigger] shows_at(cur, i, k) {
                    let i = choose|i: int| #[trigger] shows_at(cur, i, k);
                    if i < prev.len() {
                        assert(cur[i] == prev[i]);
                        assert(prev[i] < n - 1);
                    }
                }
                if track_matches(tracks[k], query) {
                    assert(shows_at(cur, cur.len() - 1, k));
                }
            }
        }
    }
}

/// For a non-empty query the filter shows exactly the tracks that match it,
/// each once, in library order.
pub proof fn law_filter_exact(tracks: Seq<TrackInfo>, query: Seq<char>)
    requires
        query.len() > 0,
        tracks.len() <= usize::MAX,
    ensures
        forall|i: int, j: int|
            0 <= i < j < filter_result(tracks, query).len() ==> filter_result(tracks, query)[i]
                < filter_result(tracks, query)[j],
        forall|i: int|
            0 <= i < filter_result(tracks, query).len() ==> #[trigger] filter_result(tracks, query)[i]
                < tracks.len(),
        forall|k: int|
            0 <= k < tracks.len() ==> ((exists|i: int| #[trigger] shows_at(filter_result(tracks, query), i, k))
                <==> track_matches(#[trigger] tracks[k], query)),
{
    let m = matching_indices(tracks, query, tracks.len() as int);
    lemma_matching_exact(tracks, query, tracks.len() as int);
    assert(filter_result(tracks, query) == m);
    assert forall|k: int| 0 <= k < tracks.len() implies ((exists|i: int| #[trigger] shows_at(filter_result(tracks, query), i, k))
        <==> track_matches(#[trigger] tracks[k], query)) by {
        if exists|i: int| #[trigger] shows_at(filter_result(tracks, query), i, k) {
            let i = choose|i: int| #[trigger] shows_at(filter_result(tracks, query), i, k);
            assert(shows_at(m, i, k));
        }
        if track_matches(tracks[k], query) {
            let i = choose|i: int| #[trigger] shows_at(m, i, k);
            assert(shows_at(filter_result(tracks, query), i, k));
        }
    }
}

/// The cursor kept inside a list of `len` entries: moved to the last entry
/// when it is past the end (to 0 for an empty list).
pub open spec fn clamp_cursor(sel: int, len: int) -> int {
    if sel >= len {
        if len > 0 {
            len - 1
        } else {
            0
        }
    } else {
        sel
    }
}

/// `min(i + 1, len - 1)` for a non-empty list, `i` unchanged for an empty one.
pub open spec fn cursor_next(i: int, len: int) -> int {
    if len == 0 {
        i
    } else if i + 1 < len - 1 {
        i + 1
    } else {
        len - 1
    }
}

/// `i - 1`, stopping at 0.
pub open spec fn cursor_prev(i: int) -> int {
    if i > 0 {
        i - 1
    } else {
        0
    }
}

/// `min(i, len - 1)`, and 0 for an empty list.
pub open spec fn cursor_at(i: int, len: int) -> int {
    let max = if len > 0 {
        len - 1
    } else {
        0
    };
    if i < max {
        i
    } else {
        max
    }
}

impl MusicLibrary {
    /// Every filtered index points at a track.
    pub open spec fn indices_valid(&self) -> bool {
        forall|i: int|
            0 <= i < self.filtered_indices@.len() ==> #[trigger] self.filtered_indices@[i]
                < self.tracks@.len()
    }

    /// No tracks, no filter, the cursor at the top.
    pub open spec fn is_empty_library(&self) -> bool {
        &&& self.tracks@.len() == 0
        &&& self.directories@.len() == 0
        &&& self.filtered_indices@.len() == 0
        &&& self.search_query@.len() == 0
        &&& self.selected_index == 0
        &&& !self.is_loading
    }

    /// An empty library rooted at `audio_dir`, or `.` when there is none;
    /// the caller looks up the user's music directory.
    pub fn new(audio_dir: Option<String>) -> (r: MusicLibrary)
        ensures
            r.is_empty_library(),
            r.indices_valid(),
            r.current_dir@ == dir_or_here(audio_dir),
    {
        let dir = match audio_dir {
            Some(d) => d,
            None => {
                let v: Vec<char> = vec!['.'];
                string_of(&v)
            },
        };
        MusicLibrary {
            tracks: Vec::new(),
            directories: Vec::new(),
            current_dir: dir,
            filtered_indices: Vec::new(),
            search_query: String::new(),
            selected_index: 0,
            is_loading: false,
        }
    }

    /// Whether every filtered index points at a track.
    pub fn indices_in_range(&self) -> (r: bool)
        ensures
            r == self.indices_valid(),
    {
        let mut i: usize = 0;
        while i < self.filtered_indices.len()
            invariant
                i <= self.filtered_indices@.len(),
                forall|k: int| 0 <= k < i ==> #[trigger] self.filtered_indices@[k] < self.tracks@.len(),
            decreases self.filtered_indices.len() - i,
        {
            if self.filtered_indices[i] >= self.tracks.len() {
                return false;
            }
            i = i + 1;
        }
        true
    }

    /// Recomputes `filtered_indices` from the query and keeps the cursor inside.
    pub fn update_filter(&mut self)
        ensures
            final(self).filtered_indices@ == filter_result(old(self).tracks@, old(self).search_query@),
            final(self).selected_index == clamp_cursor(
                old(self).selected_index as int,
                final(self).filtered_indices@.len() as int,
            ),
            *final(self) == (MusicLibrary {
                filtered_indices: final(self).filtered_indices,
                selected_index: final(self).selected_index,
                ..*old(self)
            }),
            final(self).indices_valid(),
    {
        let n = self.tracks.len();
        let mut out: Vec<usize> = Vec::new();
        if self.search_query.as_str().is_empty() {
            let mut i: usize = 0;
            while i < n
                invariant
                    i <= n == self.tracks.len(),
                    out@ == all_indices(i as int),
                decreases n - i,
            {
                out.push(i);
                i = i + 1;
                assert(out@ =~= all_indices(i as int));
            }
        } else {
            let q = chars_of(self.search_query.as_str());
            let query = to_lowercase(&q);
            let mut i: usize = 0;
            while i < n
                invariant
                    i <= n == self.tracks.len(),
                    query@ == lowercase(self.search_query@),
                    out@ == matching_indices(self.tracks@, self.search_query@, i as int),
                decreases n - i,
            {
                let text = self.tracks[i].search_chars();
                if contains_chars(&text, &query) {
                    out.push(i);
                }
                i = i + 1;
            }
        }
        self.filtered_indices = out;
        proof {
            lemma_filter_in_range(self.tracks@, self.search_query@);
            let f = filter_result(self.tracks@, self.search_query@);
            assert(self.filtered_indices@ == f);
            assert forall|i: int| 0 <= i < self.filtered_indices@.len() implies #[trigger] self.filtered_indices@[i]
                < self.tracks@.len() by {
                assert(f[i] < self.tracks@.len());
            }
        }
        if self.selected_index >= self.filtered_indices.len() {
            self.selected_index = if self.filtered_indices.len() > 0 {
                self.filtered_indices.len() - 1
            } else {
                0
            };
        }
    }

    /// Sets the query and recomputes the filter.
    pub fn search(&mut self, query: &str)
        ensures
            final(self).search_query@ == query@,
            final(self).filtered_indices@ == filter_result(old(self).tracks@, query@),
            final(self).selected_index == clamp_cursor(
                old(self).selected_index as int,
                final(self).filtered_indices@.len() as int,
            ),
            *final(self) == (MusicLibrary {
                search_query: final(self).search_query,
                filtered_indices: final(self).filtered_indices,
                selected_index: final(self).selected_index,
                ..*old(self)
            }),
            final(self).indices_valid(),
    {
        let q = chars_of(query);
        self.search_query = string_of(&q);
        self.update_filter();
    }

    /// The track under the cursor, when the cursor and its index are valid.
    pub fn selected_track(&self) -> (r: Option<TrackInfo>)
        ensures
            r == selected_of(self.tracks@, self.filtered_indices@, self.selected_index as int),
    {
        if self.selected_index < self.filtered_indices.len() {
            let i = self.filtered_indices[self.selected_index];
            if i < self.tracks.len() {
                return Some(self.tracks[i].duplicate());
            }
        }
        None
    }

    /// Moves the cursor down one entry, stopping at the last.
    pub fn select_next(&mut self)
        ensures
            final(self).selected_index == cursor_next(
                old(self).selected_index as int,
                old(self).filtered_indices@.len() as int,
            ),
            *final(self) == (MusicLibrary { selected_index: final(self).selected_index, ..*old(self) }),
    {
        let len = self.filtered_indices.len();
        if len > 0 {
            self.selected_index = if self.selected_index < len - 1 {
                self.selected_index + 1
            } else {
                len - 1
            };
        }
    }

    /// Moves the cursor up one entry, stopping at the first.
    pub fn select_prev(&mut self)
        ensures
            final(self).selected_index == cursor_prev(old(self).selected_index as int),
            *final(self) == (MusicLibrary { selected_index: final(self).selected_index, ..*old(self) }),
    {
        self.selected_index = if self.selected_index > 0 {
            self.selected_index - 1
        } else {
            0
        };
    }

    /// Puts the cursor on entry `idx`, or on the last entry when `idx` is past it.
    pub fn select_index(&mut self, idx: usize)
        ensures
            final(self).selected_index == cursor_at(
                idx as int,
                old(self).filtered_indices@.len() as int,
            ),
            *final(self) == (MusicLibrary { selected_index: final(self).selected_index, ..*old(self) }),
    {
        let len = self.filtered_indices.len();
        let max = if len > 0 {
            len - 1
        } else {
            0
        };
        self.selected_index = if idx < max {
            idx
        } else {
            max
        };
    }

    /// Adds scanned tracks after the ones already there and recomputes the filter.
    pub fn add_tracks(&mut self, tracks: Vec<TrackInfo>)
        ensures
            final(self).tracks@ == old(self).tracks@ + tracks@,
            final(self).filtered_indices@ == filter_result(final(self).tracks@, old(self).search_query@),
            final(self).selected_index == clamp_cursor(
                old(self).selected_index as int,
                final(self).filtered_indices@.len() as int,
            ),
            *final(self) == (MusicLibrary {
                tracks: final(self).tracks,
                filtered_indices: final(self).filtered_indices,
                selected_index: final(self).selected_index,
                ..*old(self)
            }),
            final(self).indices_valid(),
    {
        let mut more = tracks;
        self.tracks.append(&mut more);
        self.update_filter();
    }

    /// Replaces the library's contents with the result of scanning `dir`.
    pub fn finish_scan(
        &mut self,
        dir: String,
        tracks: Vec<TrackInfo>,
        directories: Vec<DirectoryEntry>,
    )
        ensures
            final(self).current_dir == dir,
            final(self).tracks == tracks,
            final(self).directories == directories,
            final(self).search_query == old(self).search_query,
            final(self).filtered_indices@ == filter_result(tracks@, old(self).search_query@),
            final(self).selected_index == clamp_cursor(
                old(self).selected_index as int,
                final(self).filtered_indices@.len() as int,
            ),
            !final(self).is_loading,
            final(self).indices_valid(),
    {
        self.current_dir = dir;
        self.tracks = tracks;
        self.directories = directories;
        self.update_filter();
        self.is_loading = false;
    }
}

/// The track under cursor `sel`.
pub open spec fn selected_of(tracks: Seq<TrackInfo>, filtered: Seq<usize>, sel: int) -> Option<
    TrackInfo,
> {
    if 0 <= sel < filtered.len() && filtered[sel] < tracks.len() {
        Some(tracks[filtered[sel] as int])
    } else {
        None
    }
}

} // verus!
