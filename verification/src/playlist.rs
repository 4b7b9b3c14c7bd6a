//! Playlists in M3U form, and the play queue.
use vstd::prelude::*;
use crate::error::AppError;
use crate::library::{clamp_cursor, cursor_next, cursor_prev, TrackInfo};
use crate::text::{
    chars_of, decimal, extend_chars, extend_str, file_stem, is_ws, lemma_decimal_digits,
    lemma_lines_concat, lemma_lines_single, lemma_trim_keeps_first, lines, path_file_stem,
    push_decimal, seqs_of, split_lines, string_of, strip_cr, trim, trim_chars, trim_end, trim_start,
};

verus! {

/// One track of a playlist or of the queue.
#[derive(Debug)]
pub struct PlaylistEntry {
    pub path: String,
    pub title: String,
    pub artist: String,
    /// Length in milliseconds, when known.
    pub duration_ms: Option<u64>,
}

impl PlaylistEntry {
    /// A copy of this entry.
    pub fn duplicate(&self) -> (r: PlaylistEntry)
        ensures
            r == *self,
    {
        PlaylistEntry {
            path: self.path.clone(),
            title: self.title.clone(),
            artist: self.artist.clone(),
            duration_ms: self.duration_ms,
        }
    }
}

/// The entry made for a track.
pub open spec fn entry_of(track: TrackInfo) -> PlaylistEntry {
    PlaylistEntry {
        path: track.path,
        title: track.title,
        artist: track.artist,
        duration_ms: track.duration_ms,
    }
}

/// The entry for a track.
pub fn entry_for(track: &TrackInfo) -> (r: PlaylistEntry)
    ensures
        r == entry_of(*track),
{
    PlaylistEntry {
        path: track.path.clone(),
        title: track.title.clone(),
        artist: track.artist.clone(),
        duration_ms: track.duration_ms,
    }
}

/// The entry for a file known by its path alone: titled with its file stem,
/// no artist, no length.
pub fn entry_at_path(path: String) -> (r: PlaylistEntry)
    ensures
        m3u_entry_ok(r, path@),
{
    let title = match file_stem(path.as_str()) {
        Some(s) => s,
        None => String::new(),
    };
    PlaylistEntry { path, title, artist: String::new(), duration_ms: None }
}

/// A named list of tracks, with the file it was read from or is saved to.
#[derive(Debug)]
pub struct Playlist {
    pub name: String,
    pub tracks: Vec<PlaylistEntry>,
    pub file_path: Option<String>,
}

// ───────────────────────── M3U ─────────────────────────

/// An M3U line that names a track: not empty and not a `#` comment.
pub open spec fn is_track_line(l: Seq<char>) -> bool {
    l.len() > 0 && l[0] != '#'
}

/// The track paths named by raw M3U lines, trimmed, in order.
pub open spec fn m3u_paths(ls: Seq<Seq<char>>) -> Seq<Seq<char>>
    decreases ls.len(),
{
    if ls.len() == 0 {
        seq![]
    } else if is_track_line(trim(ls.last())) {
        m3u_paths(ls.drop_last()).push(trim(ls.last()))
    } else {
        m3u_paths(ls.drop_last())
    }
}

/// `"Untitled"`.
pub open spec fn untitled() -> Seq<char> {
    seq!['U', 'n', 't', 'i', 't', 'l', 'e', 'd']
}

/// The file stem of `p`, or `dflt` when it has none.
pub open spec fn stem_or(p: Seq<char>, dflt: Seq<char>) -> Seq<char> {
    match path_file_stem(p) {
        Some(s) => s,
        None => dflt,
    }
}

/// The entry an M3U track line gives: its path, the file stem as title.
pub open spec fn m3u_entry_ok(e: PlaylistEntry, p: Seq<char>) -> bool {
    &&& e.path@ == p
    &&& e.title@ == stem_or(p, seq![])
    &&& e.artist@.len() == 0
    &&& e.duration_ms is None
}

/// Whole seconds shown for a length in milliseconds: rounded to nearest,
/// halves to the even second.
pub open spec fn rounded_secs(ms: nat) -> nat {
    let s = ms / 1000;
    let r = ms % 1000;
    if r > 500 || (r == 500 && s % 2 == 1) {
        s + 1
    } else {
        s
    }
}

/// `"#EXTM3U\n#PLAYLIST:"`.
pub open spec fn m3u_header() -> Seq<char> {
    seq!['#', 'E', 'X', 'T', 'M', '3', 'U', '\n', '#', 'P', 'L', 'A', 'Y', 'L', 'I', 'S', 'T', ':']
}

/// `"#EXTINF:"`.
pub open spec fn extinf() -> Seq<char> {
    seq!['#', 'E', 'X', 'T', 'I', 'N', 'F', ':']
}

/// The M3U lines of one entry: an `#EXTINF` line when the length is known,
/// then the path.
pub open spec fn m3u_entry_text(e: PlaylistEntry) -> Seq<char> {
    let info = match e.duration_ms {
        Some(ms) => extinf() + decimal(rounded_secs(ms as nat)) + seq![','] + e.title@ + seq!['\n'],
        None => seq![],
    };
    info + e.path@ + seq!['\n']
}

/// The M3U lines of a list of entries.
pub open spec fn m3u_entries_text(es: Seq<PlaylistEntry>) -> Seq<char>
    decreases es.len(),
{
    if es.len() == 0 {
        seq![]
    } else {
        m3u_entries_text(es.drop_last()) + m3u_entry_text(es.last())
    }
}

/// The M3U file of a playlist.
pub open spec fn m3u_text(name: Seq<char>, es: Seq<PlaylistEntry>) -> Seq<char> {
    m3u_header() + name + seq!['\n'] + m3u_entries_text(es)
}

/// `rounded_secs` computed.
fn rounded_seconds(ms: u64) -> (r: u64)
    ensures
        r == rounded_secs(ms as nat),
{
    let s = ms / 1000;
    let rem = ms % 1000;
    if rem > 500 || (rem == 500 && s % 2 == 1) {
        s + 1
    } else {
        s
    }
}

impl Playlist {
    /// An empty playlist with no file.
    pub fn new(name: &str) -> (r: Playlist)
        ensures
            r.name@ == name@,
            r.tracks@.len() == 0,
            r.file_path is None,
    {
        let c = chars_of(name);
        Playlist { name: string_of(&c), tracks: Vec::new(), file_path: None }
    }

    /// The playlist an M3U file at `path` holding `content` describes: named
    /// after the file's stem, one entry per line that is neither empty nor a
    /// `#` comment (lines trimmed), each titled with its file's stem.
    pub fn parse_m3u(content: &str, path: &str) -> (r: Playlist)
        ensures
            r.name@ == stem_or(path@, untitled()),
            r.file_path matches Some(p) && p@ == path@,
            r.tracks@.len() == m3u_paths(lines(content@)).len(),
            forall|i: int|
                0 <= i < r.tracks@.len() ==> m3u_entry_ok(
                    #[trigger] r.tracks@[i],
                    m3u_paths(lines(content@))[i],
                ),
    {
        let name = match file_stem(path) {
            Some(s) => s,
            None => {
                let v: Vec<char> = vec!['U', 'n', 't', 'i', 't', 'l', 'e', 'd'];
                assert(v@ =~= untitled());
                string_of(&v)
            },
        };
        let pc = chars_of(path);
        let mut playlist = Playlist { name, tracks: Vec::new(), file_path: Some(string_of(&pc)) };
        let cc = chars_of(content);
        let ls = split_lines(&cc);
        let ghost all = seqs_of(ls@);
        let mut i: usize = 0;
        assert(all.take(0) =~= Seq::<Seq<char>>::empty());
        while i < ls.len()
            invariant
                i <= ls.len(),
                all == seqs_of(ls@),
                all == lines(content@),
                playlist.name@ == stem_or(path@, untitled()),
                playlist.file_path matches Some(p) && p@ == path@,
                playlist.tracks@.len() == m3u_paths(all.take(i as int)).len(),
                forall|k: int|
                    0 <= k < playlist.tracks@.len() ==> m3u_entry_ok(
                        #[trigger] playlist.tracks@[k],
                        m3u_paths(all.take(i as int))[k],
                    ),
            decreases ls.len() - i,
        {
            assert(all.take(i + 1).drop_last() =~= all.take(i as int));
            assert(all.take(i + 1).last() == ls@[i as int]@);
            let line = trim_chars(&ls[i]);
            if line.len() > 0 && line[0] != '#' {
                let p = string_of(&line);
                playlist.tracks.push(entry_at_path(p));
            }
            i = i + 1;
        }
        assert(all.take(ls.len() as int) =~= all);
        playlist
    }

    /// The text of this playlist as an M3U file.
    pub fn m3u_content(&self) -> (r: String)
        ensures
            r@ == m3u_text(self.name@, self.tracks@),
    {
        let mut v = chars_of("#EXTM3U\n#PLAYLIST:");
        proof {
            reveal_strlit("#EXTM3U\n#PLAYLIST:");
        }
        assert(v@ =~= m3u_header());
        extend_str(&mut v, self.name.as_str());
        v.push('\n');
        let ghost head = v@;
        let mut i: usize = 0;
        assert(self.tracks@.take(0) =~= Seq::<PlaylistEntry>::empty());
        assert(v@ =~= head + m3u_entries_text(self.tracks@.take(0)));
        while i < self.tracks.len()
            invariant
                i <= self.tracks.len(),
                head == m3u_header() + self.name@ + seq!['\n'],
                v@ == head + m3u_entries_text(self.tracks@.take(i as int)),
            decreases self.tracks.len() - i,
        {
            let e = &self.tracks[i];
            let ghost before = v@;
            match e.duration_ms {
                Some(ms) => {
                    let tag: Vec<char> = vec!['#', 'E', 'X', 'T', 'I', 'N', 'F', ':'];
                    assert(tag@ =~= extinf());
                    extend_chars(&mut v, &tag);
                    push_decimal(&mut v, rounded_seconds(ms));
                    v.push(',');
                    extend_str(&mut v, e.title.as_str());
                    v.push('\n');
                },
                None => {},
            }
            extend_str(&mut v, e.path.as_str());
            v.push('\n');
            assert(v@ =~= before + m3u_entry_text(*e));
            assert(self.tracks@.take(i + 1).drop_last() =~= self.tracks@.take(i as int));
            i = i + 1;
        }
        assert(self.tracks@.take(self.tracks.len() as int) =~= self.tracks@);
        string_of(&v)
    }

    /// Where `save_m3u` writes: the given path, else the playlist's own file;
    /// a playlist error when there is neither.
    fn save_target(&self, path: Option<&str>) -> (r: Result<String, AppError>)
        ensures
            path matches Some(p) ==> r matches Ok(s) && s@ == p@,
            path is None ==> match self.file_path {
                Some(f) => r matches Ok(s) && s@ == f@,
                None => r matches Err(e) && e == AppError::Playlist(e->Playlist_0) && e->Playlist_0@
                    == no_save_path(),
            },
    {
        match path {
            Some(p) => {
                let c = chars_of(p);
                Ok(string_of(&c))
            },
            None => match &self.file_path {
                Some(f) => Ok(f.clone()),
                None => {
                    let v = chars_of("no save path");
                    proof {
                        reveal_strlit("no save path");
                    }
                    assert(v@ =~= no_save_path());
                    Err(AppError::Playlist(string_of(&v)))
                },
            },
        }
    }

    /// What saving the playlist writes: the file (the given path, else the
    /// playlist's own) and its M3U text; a playlist error when there is no
    /// file to write.
    pub fn save_m3u(&self, path: Option<&str>) -> (r: Result<(String, String), AppError>)
        ensures
            path matches Some(p) ==> (r matches Ok(w) && w.0@ == p@ && w.1@ == m3u_text(
                self.name@,
                self.tracks@,
            )),
            path is None ==> match self.file_path {
                Some(f) => r matches Ok(w) && w.0@ == f@ && w.1@ == m3u_text(self.name@, self.tracks@),
                None => r matches Err(e) && e == AppError::Playlist(e->Playlist_0)
                    && e->Playlist_0@ == no_save_path(),
            },
    {
        match self.save_target(path) {
            Ok(target) => Ok((target, self.m3u_content())),
            Err(e) => Err(e),
        }
    }

    /// Appends the entry for `track`.
    pub fn add_track(&mut self, track: &TrackInfo)
        ensures
            final(self).tracks@ == old(self).tracks@.push(entry_of(*track)),
            final(self).name == old(self).name,
            final(self).file_path == old(self).file_path,
    {
        self.tracks.push(entry_for(track));
    }

    /// Removes and returns the entry at `index`, when there is one.
    pub fn remove_track(&mut self, index: usize) -> (r: Option<PlaylistEntry>)
        ensures
            index < old(self).tracks@.len() ==> r == Some(old(self).tracks@[index as int])
                && final(self).tracks@ == old(self).tracks@.remove(index as int),
            index >= old(self).tracks@.len() ==> r is None && final(self).tracks@ == old(
                self,
            ).tracks@,
            final(self).name == old(self).name,
            final(self).file_path == old(self).file_path,
    {
        if index < self.tracks.len() {
            Some(self.tracks.remove(index))
        } else {
            None
        }
    }

    /// Removes every entry.
    pub fn clear(&mut self)
        ensures
            final(self).tracks@.len() == 0,
            final(self).name == old(self).name,
            final(self).file_path == old(self).file_path,
    {
        self.tracks.clear();
    }
}

/// `"no save path"`.
pub open spec fn no_save_path() -> Seq<char> {
    seq!['n', 'o', ' ', 's', 'a', 'v', 'e', ' ', 'p', 'a', 't', 'h']
}

// ───────────────────────── round trip ─────────────────────────

/// A path an M3U file gives back: on one line, not empty, without white
/// space around it, not starting with `#`.
pub open spec fn clean_path(p: Seq<char>) -> bool {
    &&& !p.contains('\n')
    &&& p.len() > 0
    &&& p[0] != '#'
    &&& !is_ws(p[0])
    &&& !is_ws(p.last())
}

/// The paths of a list of entries.
pub open spec fn entry_paths(es: Seq<PlaylistEntry>) -> Seq<Seq<char>> {
    es.map_values(|e: PlaylistEntry| e.path@)
}

/// The paths of two runs of lines are those of each.
proof fn lemma_m3u_paths_concat(a: Seq<Seq<char>>, b: Seq<Seq<char>>)
    ensures
        m3u_paths(a + b) == m3u_paths(a) + m3u_paths(b),
    decreases b.len(),
{
    if b.len() == 0 {
        assert(a + b =~= a);
        assert(m3u_paths(a) + m3u_paths(b) =~= m3u_paths(a));
    } else {
        assert((a + b).drop_last() =~= a + b.drop_last());
        assert((a + b).last() == b.last());
        lemma_m3u_paths_concat(a, b.drop_last());
        if is_track_line(trim(b.last())) {
            assert(m3u_paths(a) + m3u_paths(b.drop_last()).push(trim(b.last())) =~= (m3u_paths(a)
                + m3u_paths(b.drop_last())).push(trim(b.last())));
        }
    }
}

/// A line that starts with `#` names no track.
proof fn lemma_comment_line(l: Seq<char>)
    requires
        l.len() > 0,
        l[0] == '#',
    ensures
        m3u_paths(seq![strip_cr(l)]) == Seq::<Seq<char>>::empty(),
{
    let c = strip_cr(l);
    assert(c.len() > 0 && c[0] == '#');
    lemma_trim_keeps_first(c);
    assert(!is_track_line(trim(seq![c].last())));
    assert(seq![c].drop_last() =~= Seq::<Seq<char>>::empty());
    assert(m3u_paths(Seq::<Seq<char>>::empty()) =~= Seq::<Seq<char>>::empty());
}

/// A line without a line feed, ended by one.
proof fn lemma_one_line(l: Seq<char>)
    requires
        !l.contains('\n'),
    ensures
        lines(l + seq!['\n']) == seq![strip_cr(l)],
{
    lemma_lines_single(l, seq![]);
    assert(Seq::<char>::empty() + l =~= l);
}

/// The lines of one entry name its path and nothing else.
proof fn lemma_entry_paths(e: PlaylistEntry)
    requires
        clean_path(e.path@),
        e.duration_ms is Some ==> !e.title@.contains('\n'),
    ensures
        m3u_paths(lines(m3u_entry_text(e))) == seq![e.path@],
{
    let p = e.path@;
    assert(strip_cr(p) == p);
    assert(trim_start(p) == p);
    assert(trim_end(p) == p);
    assert(trim(p) == p);
    lemma_one_line(p);
    assert(seq![p].drop_last() =~= Seq::<Seq<char>>::empty());
    assert(m3u_paths(Seq::<Seq<char>>::empty()) =~= Seq::<Seq<char>>::empty());
    assert(is_track_line(trim(seq![p].last())));
    assert(m3u_paths(seq![p]) =~= seq![p]);
    match e.duration_ms {
        Some(ms) => {
            let d = decimal(rounded_secs(ms as nat));
            let info_line = extinf() + d + seq![','] + e.title@;
            let info = info_line + seq!['\n'];
            assert(m3u_entry_text(e) =~= info + (p + seq!['\n']));
            lemma_decimal_digits(rounded_secs(ms as nat));
            assert(!info_line.contains('\n')) by {
                if info_line.contains('\n') {
                    let k = choose|k: int| 0 <= k < info_line.len() && info_line[k] == '\n';
                    if k >= extinf().len() + d.len() + 1 {
                        assert(e.title@[k - extinf().len() - d.len() - 1] == '\n');
                    } else if k >= extinf().len() && k < extinf().len() + d.len() {
                        assert(d[k - extinf().len()] == '\n');
                    }
                }
            }
            lemma_lines_concat(info, p + seq!['\n'], seq![]);
            lemma_one_line(info_line);
            lemma_comment_line(info_line);
            lemma_m3u_paths_concat(seq![strip_cr(info_line)], seq![strip_cr(p)]);
            assert(seq![strip_cr(info_line)] + seq![strip_cr(p)] == lines(m3u_entry_text(e)));
            assert(Seq::<Seq<char>>::empty() + seq![p] =~= seq![p]);
        },
        None => {
            assert(m3u_entry_text(e) =~= p + seq!['\n']);
        },
    }
}

/// The text of a non-empty list of entries ends a line.
proof fn lemma_entries_end_line(es: Seq<PlaylistEntry>)
    requires
        es.len() > 0,
    ensures
        m3u_entries_text(es).len() > 0,
        m3u_entries_text(es).last() == '\n',
{
    let t = m3u_entry_text(es.last());
    assert(t.len() > 0 && t.last() == '\n');
}

/// The lines of a list of entries name their paths.
proof fn lemma_entries_paths(es: Seq<PlaylistEntry>)
    requires
        forall|i: int|
            0 <= i < es.len() ==> clean_path(#[trigger] es[i].path@) && (es[i].duration_ms is Some
                ==> !es[i].title@.contains('\n')),
    ensures
        m3u_paths(lines(m3u_entries_text(es))) == entry_paths(es),
    decreases es.len(),
{
    if es.len() == 0 {
        assert(lines(Seq::<char>::empty()) =~= Seq::<Seq<char>>::empty());
        assert(entry_paths(es) =~= Seq::<Seq<char>>::empty());
    } else {
        let front = es.drop_last();
        let last = es.last();
        assert(clean_path(es[es.len() - 1].path@));
        lemma_entries_paths(front);
        lemma_entry_paths(last);
        let a = m3u_entries_text(front);
        let b = m3u_entry_text(last);
        if front.len() == 0 {
            assert(a =~= Seq::<char>::empty());
            assert(a + b =~= b);
            assert(lines(a) =~= Seq::<Seq<char>>::empty());
        } else {
            lemma_entries_end_line(front);
            lemma_lines_concat(a, b, seq![]);
            lemma_m3u_paths_concat(lines(a), lines(b));
        }
        assert(entry_paths(es) =~= entry_paths(front).push(last.path@));
        assert(entry_paths(front) + seq![last.path@] =~= entry_paths(front).push(last.path@));
        assert(m3u_paths(lines(a + b)) == m3u_paths(lines(a)) + m3u_paths(lines(b))) by {
            if front.len() == 0 {
                assert(m3u_paths(lines(a)) =~= Seq::<Seq<char>>::empty());
                assert(Seq::<Seq<char>>::empty() + m3u_paths(lines(b)) =~= m3u_paths(lines(b)));
            }
        }
    }
}

/// Saving a playlist and reading the file back gives its tracks' paths, in
/// order, when the name and the titles that are written (those of entries
/// with a length) are one line each and the paths are clean.
pub proof fn law_m3u_round_trip(name: Seq<char>, es: Seq<PlaylistEntry>)
    requires
        !name.contains('\n'),
        forall|i: int|
            0 <= i < es.len() ==> clean_path(#[trigger] es[i].path@) && (es[i].duration_ms is Some
                ==> !es[i].title@.contains('\n')),
    ensures
        m3u_paths(lines(m3u_text(name, es))) == entry_paths(es),
{
    let h1 = seq!['#', 'E', 'X', 'T', 'M', '3', 'U'];
    let h2 = seq!['#', 'P', 'L', 'A', 'Y', 'L', 'I', 'S', 'T', ':'] + name;
    let body = m3u_entries_text(es);
    assert(m3u_text(name, es) =~= (h1 + seq!['\n']) + ((h2 + seq!['\n']) + body));
    assert(!h1.contains('\n')) by {
        if h1.contains('\n') {
            let k = choose|k: int| 0 <= k < h1.len() && h1[k] == '\n';
        }
    }
    assert(!h2.contains('\n')) by {
        if h2.contains('\n') {
            let k = choose|k: int| 0 <= k < h2.len() && h2[k] == '\n';
            if k >= 10 {
                assert(name[k - 10] == '\n');
            }
        }
    }
    lemma_lines_concat(h1 + seq!['\n'], (h2 + seq!['\n']) + body, seq![]);
    lemma_lines_concat(h2 + seq!['\n'], body, seq![]);
    lemma_one_line(h1);
    lemma_one_line(h2);
    lemma_comment_line(h1);
    lemma_comment_line(h2);
    lemma_entries_paths(es);
    lemma_m3u_paths_concat(seq![strip_cr(h1)], seq![strip_cr(h2)] + lines(body));
    lemma_m3u_paths_concat(seq![strip_cr(h2)], lines(body));
    assert(Seq::<Seq<char>>::empty() + (Seq::<Seq<char>>::empty() + entry_paths(es)) =~= entry_paths(
        es,
    ));
}

// ───────────────────────── playlists and queue ─────────────────────────

/// The playlists, the play queue and their cursors.
#[derive(Debug)]
pub struct PlaylistManager {
    pub playlists: Vec<Playlist>,
    pub queue: Vec<PlaylistEntry>,
    /// The playlist tracks are added to.
    pub current_playlist_index: usize,
    pub selected_playlist_index: usize,
    pub selected_queue_index: usize,
}

/// `len - 1`, and 0 for an empty list.
pub open spec fn last_index(len: int) -> int {
    if len > 0 {
        len - 1
    } else {
        0
    }
}

impl PlaylistManager {
    /// No playlists, an empty queue, all cursors at 0.
    pub fn new() -> (r: PlaylistManager)
        ensures
            r.playlists@.len() == 0,
            r.queue@.len() == 0,
            r.current_playlist_index == 0,
            r.selected_playlist_index == 0,
            r.selected_queue_index == 0,
    {
        PlaylistManager {
            playlists: Vec::new(),
            queue: Vec::new(),
            current_playlist_index: 0,
            selected_playlist_index: 0,
            selected_queue_index: 0,
        }
    }

    /// Adds an empty playlist and selects it.
    pub fn create_playlist(&mut self, name: &str)
        ensures
            final(self).playlists@.len() == old(self).playlists@.len() + 1,
            final(self).playlists@.take(old(self).playlists@.len() as int) == old(self).playlists@,
            final(self).playlists@.last().name@ == name@,
            final(self).playlists@.last().tracks@.len() == 0,
            final(self).playlists@.last().file_path is None,
            final(self).selected_playlist_index == old(self).playlists@.len(),
            final(self).queue == old(self).queue,
            final(self).selected_queue_index == old(self).selected_queue_index,
            final(self).current_playlist_index == old(self).current_playlist_index,
            *final(self) == (PlaylistManager {
                playlists: final(self).playlists,
                selected_playlist_index: final(self).selected_playlist_index,
                ..*old(self)
            }),
    {
        self.playlists.push(Playlist::new(name));
        self.selected_playlist_index = self.playlists.len() - 1;
        assert(self.playlists@.take(old(self).playlists@.len() as int) =~= old(self).playlists@);
    }

    /// Adds a playlist read from a file and selects it.
    pub fn load_playlist(&mut self, playlist: Playlist)
        ensures
            final(self).playlists@ == old(self).playlists@.push(playlist),
            final(self).selected_playlist_index == old(self).playlists@.len(),
            final(self).queue == old(self).queue,
            final(self).selected_queue_index == old(self).selected_queue_index,
            final(self).current_playlist_index == old(self).current_playlist_index,
    {
        self.playlists.push(playlist);
        self.selected_playlist_index = self.playlists.len() - 1;
    }

    /// What saving the selected playlist writes: nothing when no playlist is
    /// selected, otherwise its file and M3U text, or the error of a playlist
    /// that has no file.
    pub fn save_current_playlist(&self) -> (r: Result<Option<(String, String)>, AppError>)
        ensures
            self.selected_playlist_index >= self.playlists@.len() ==> r matches Ok(None),
            self.selected_playlist_index < self.playlists@.len() ==> {
                let pl = self.playlists@[self.selected_playlist_index as int];
                match pl.file_path {
                    Some(f) => r matches Ok(Some(w)) && w.0@ == f@ && w.1@ == m3u_text(
                        pl.name@,
                        pl.tracks@,
                    ),
                    None => r matches Err(e) && e == AppError::Playlist(e->Playlist_0)
                        && e->Playlist_0@ == no_save_path(),
                }
            },
    {
        if self.selected_playlist_index < self.playlists.len() {
            let pl = &self.playlists[self.selected_playlist_index];
            match pl.save_m3u(None) {
                Ok(w) => Ok(Some(w)),
                Err(e) => Err(e),
            }
        } else {
            Ok(None)
        }
    }

    /// The playlist tracks are added to, when there is one.
    pub fn current_playlist(&self) -> (r: Option<&Playlist>)
        ensures
            self.current_playlist_index < self.playlists@.len() ==> r == Some(
                &self.playlists@[self.current_playlist_index as int],
            ),
            self.current_playlist_index >= self.playlists@.len() ==> r is None,
    {
        if self.current_playlist_index < self.playlists.len() {
            Some(&self.playlists[self.current_playlist_index])
        } else {
            None
        }
    }

    /// The playlist tracks are added to, to be changed, when there is one.
    pub fn current_playlist_mut(&mut self) -> (r: Option<&mut Playlist>)
        ensures
            old(self).current_playlist_index < old(self).playlists@.len() ==> {
                &&& r is Some
                &&& *(r->0) == old(self).playlists@[old(self).current_playlist_index as int]
                &&& final(self).playlists@ == old(self).playlists@.update(
                    old(self).current_playlist_index as int,
                    *final(r->0),
                )
                &&& *final(self) == (PlaylistManager { playlists: final(self).playlists, ..*old(self) })
            },
            old(self).current_playlist_index >= old(self).playlists@.len() ==> r is None
                && *final(self) == *old(self),
    {
        let i = self.current_playlist_index;
        if i < self.playlists.len() {
            Some(&mut self.playlists[i])
        } else {
            None
        }
    }

    /// Appends the entry for `track` to the queue.
    pub fn add_to_queue(&mut self, track: &TrackInfo)
        ensures
            final(self).queue@ == old(self).queue@.push(entry_of(*track)),
            final(self).selected_queue_index == old(self).selected_queue_index,
            final(self).playlists == old(self).playlists,
            final(self).current_playlist_index == old(self).current_playlist_index,
            final(self).selected_playlist_index == old(self).selected_playlist_index,
            *final(self) == (PlaylistManager { queue: final(self).queue, ..*old(self) }),
    {
        self.queue.push(entry_for(track));
    }

    /// Removes and returns the queue entry at `index`, keeping the queue cursor
    /// inside the queue.
    pub fn remove_from_queue(&mut self, index: usize) -> (r: Option<PlaylistEntry>)
        ensures
            index < old(self).queue@.len() ==> r == Some(old(self).queue@[index as int])
                && final(self).queue@ == old(self).queue@.remove(index as int)
                && final(self).selected_queue_index == clamp_cursor(
                old(self).selected_queue_index as int,
                final(self).queue@.len() as int,
            ),
            index >= old(self).queue@.len() ==> r is None && final(self).queue == old(self).queue
                && final(self).selected_queue_index == old(self).selected_queue_index,
            final(self).playlists == old(self).playlists,
            final(self).current_playlist_index == old(self).current_playlist_index,
            final(self).selected_playlist_index == old(self).selected_playlist_index,
            *final(self) == (PlaylistManager {
                queue: final(self).queue,
                selected_queue_index: final(self).selected_queue_index,
                ..*old(self)
            }),
    {
        if index < self.queue.len() {
            let removed = self.queue.remove(index);
            if self.selected_queue_index >= self.queue.len() {
                self.selected_queue_index = if self.queue.len() > 0 {
                    self.queue.len() - 1
                } else {
                    0
                };
            }
            Some(removed)
        } else {
            None
        }
    }

    /// Empties the queue.
    pub fn clear_queue(&mut self)
        ensures
            final(self).queue@.len() == 0,
            final(self).selected_queue_index == 0,
            final(self).playlists == old(self).playlists,
            final(self).current_playlist_index == old(self).current_playlist_index,
            final(self).selected_playlist_index == old(self).selected_playlist_index,
            *final(self) == (PlaylistManager {
                queue: final(self).queue,
                selected_queue_index: 0,
                ..*old(self)
            }),
    {
        self.queue.clear();
        self.selected_queue_index = 0;
    }

    /// Takes the first queue entry, when there is one.
    pub fn pop_next_queue(&mut self) -> (r: Option<PlaylistEntry>)
        ensures
            old(self).queue@.len() > 0 ==> r == Some(old(self).queue@[0]) && final(self).queue@
                == old(self).queue@.drop_first(),
            old(self).queue@.len() == 0 ==> r is None && final(self).queue == old(self).queue,
            final(self).selected_queue_index == old(self).selected_queue_index,
            final(self).playlists == old(self).playlists,
            final(self).current_playlist_index == old(self).current_playlist_index,
            final(self).selected_playlist_index == old(self).selected_playlist_index,
            *final(self) == (PlaylistManager { queue: final(self).queue, ..*old(self) }),
    {
        if self.queue.len() == 0 {
            None
        } else {
            let r = self.queue.remove(0);
            assert(self.queue@ =~= old(self).queue@.drop_first());
            Some(r)
        }
    }

    /// Moves the queue cursor down one entry, stopping at the last.
    pub fn select_queue_next(&mut self)
        ensures
            final(self).selected_queue_index == cursor_next(
                old(self).selected_queue_index as int,
                old(self).queue@.len() as int,
            ),
            final(self).queue == old(self).queue,
            final(self).playlists == old(self).playlists,
            final(self).current_playlist_index == old(self).current_playlist_index,
            final(self).selected_playlist_index == old(self).selected_playlist_index,
            *final(self) == (PlaylistManager {
                selected_queue_index: final(self).selected_queue_index,
                ..*old(self)
            }),
    {
        let len = self.queue.len();
        if len > 0 {
            self.selected_queue_index = if self.selected_queue_index < len - 1 {
                self.selected_queue_index + 1
            } else {
                len - 1
            };
        }
    }

    /// Moves the queue cursor up one entry, stopping at the first.
    pub fn select_queue_prev(&mut self)
        ensures
            final(self).selected_queue_index == cursor_prev(old(self).selected_queue_index as int),
            final(self).queue == old(self).queue,
            final(self).playlists == old(self).playlists,
            final(self).current_playlist_index == old(self).current_playlist_index,
            final(self).selected_playlist_index == old(self).selected_playlist_index,
            *final(self) == (PlaylistManager {
                selected_queue_index: final(self).selected_queue_index,
                ..*old(self)
            }),
    {
        self.selected_queue_index = if self.selected_queue_index > 0 {
            self.selected_queue_index - 1
        } else {
            0
        };
    }

    /// Moves the playlist cursor down one entry, stopping at the last.
    pub fn select_playlist_next(&mut self)
        ensures
            final(self).selected_playlist_index == cursor_next(
                old(self).selected_playlist_index as int,
                old(self).playlists@.len() as int,
            ),
            final(self).queue == old(self).queue,
            final(self).playlists == old(self).playlists,
            final(self).current_playlist_index == old(self).current_playlist_index,
            final(self).selected_queue_index == old(self).selected_queue_index,
    {
        let len = self.playlists.len();
        if len > 0 {
            self.selected_playlist_index = if self.selected_playlist_index < len - 1 {
                self.selected_playlist_index + 1
            } else {
                len - 1
            };
        }
    }

    /// Moves the playlist cursor up one entry, stopping at the first.
    pub fn select_playlist_prev(&mut self)
        ensures
            final(self).selected_playlist_index == cursor_prev(
                old(self).selected_playlist_index as int,
            ),
            final(self).queue == old(self).queue,
            final(self).playlists == old(self).playlists,
            final(self).current_playlist_index == old(self).current_playlist_index,
            final(self).selected_queue_index == old(self).selected_queue_index,
    {
        self.selected_playlist_index = if self.selected_playlist_index > 0 {
            self.selected_playlist_index - 1
        } else {
            0
        };
    }
}

} // verus!
