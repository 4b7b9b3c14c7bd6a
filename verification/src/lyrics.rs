//! LRC lyrics: parsing, ordering by time, and lookup by playback position.
//!
//! Time stamps are held in whole milliseconds. A time stamp `[mm:ss.xx]` is
//! read as two numbers in the grammar of floating-point text (an optional
//! sign, then `inf`, `infinity`, or digits with an optional decimal point
//! and an optional exponent), each cut to whole milliseconds and held to
//! `PART_LIMIT_MS`.
use vstd::prelude::*;
use vstd::slice::slice_subrange;
use crate::text::{
    char_digit, chars_of, copy_range, digit_value, find_char, first_index, has_char, has_prefix,
    lines, seqs_of, split_lines, starts_with, string_of, trim, trim_chars,
};

verus! {

/// A single timestamped lyric line.
#[derive(Debug)]
pub struct LyricLine {
    /// Position in the track, in milliseconds.
    pub timestamp_ms: i128,
    pub text: String,
}

impl View for LyricLine {
    type V = (int, Seq<char>);

    open spec fn view(&self) -> (int, Seq<char>) {
        (self.timestamp_ms as int, self.text@)
    }
}

/// Parsed LRC lyrics file.
#[derive(Debug)]
pub struct Lyrics {
    pub lines: Vec<LyricLine>,
    pub title: Option<String>,
    pub artist: Option<String>,
}

/// The views of a sequence of lyric lines.
pub open spec fn line_views(v: Seq<LyricLine>) -> Seq<(int, Seq<char>)> {
    v.map_values(|l: LyricLine| l@)
}

/// The view of an optional string.
pub open spec fn opt_view(o: Option<String>) -> Option<Seq<char>> {
    match o {
        Some(s) => Some(s@),
        None => None,
    }
}

/// The view of an optional `i128`.
pub open spec fn opt_int(o: Option<i128>) -> Option<int> {
    match o {
        Some(v) => Some(v as int),
        None => None,
    }
}

// ───────────────────────── numbers ─────────────────────────

/// The most milliseconds either part of a time stamp counts, `u64::MAX`: a
/// larger part, an infinite one too, is taken as this much.
pub const PART_LIMIT_MS: u64 = 18_446_744_073_709_551_615;

/// The bound an exponent is held to while it is read; any exponent past it
/// gives the same capped value.
pub const EXP_LIMIT: i128 = 1_267_650_600_228_229_401_496_703_205_376;

/// A decimal digit.
pub open spec fn is_digit(c: char) -> bool {
    digit_value(c) is Some
}

/// Only decimal digits.
pub open spec fn all_digits(s: Seq<char>) -> bool {
    forall|i: int| 0 <= i < s.len() ==> is_digit(s[i])
}

/// The value of a string of decimal digits.
pub open spec fn digits_val(s: Seq<char>) -> int
    decreases s.len(),
{
    if s.len() == 0 {
        0
    } else {
        digits_val(s.drop_last()) * 10 + (digit_value(s.last())->0)
    }
}

/// The part of a number before its decimal point.
pub open spec fn whole_part(b: Seq<char>) -> Seq<char> {
    b.subrange(0, first_index(b, '.') as int)
}

/// The part of a number after its decimal point (empty when there is none).
pub open spec fn frac_part(b: Seq<char>) -> Seq<char> {
    let d = first_index(b, '.') as int;
    if d < b.len() {
        b.subrange(d + 1, b.len() as int)
    } else {
        Seq::<char>::empty()
    }
}


/// The digit at `i` of `m`, zero beyond its end.
pub open spec fn digit_at(m: Seq<char>, i: int) -> int {
    if 0 <= i < m.len() {
        digit_value(m[i])->0
    } else {
        0
    }
}

/// The first `p` digits of `m` as a number, zeros standing in beyond its
/// end: the digits `m` with the point after `p` of them, cut to a whole
/// number.
pub open spec fn lead_val(m: Seq<char>, p: int) -> int
    decreases p,
{
    if p <= 0 {
        0
    } else {
        lead_val(m, p - 1) * 10 + digit_at(m, p - 1)
    }
}

/// `v` held to at most `PART_LIMIT_MS`.
pub open spec fn capped(v: int) -> int {
    if v > PART_LIMIT_MS {
        PART_LIMIT_MS as int
    } else {
        v
    }
}

/// `e` held to `-EXP_LIMIT..=EXP_LIMIT`.
pub open spec fn exp_clamped(e: int) -> int {
    if e > EXP_LIMIT {
        EXP_LIMIT as int
    } else if e < -EXP_LIMIT {
        -EXP_LIMIT
    } else {
        e
    }
}

/// Where the exponent mark (`e` or `E`) stands, or the length when there is
/// none.
pub open spec fn exp_index(b: Seq<char>) -> int {
    let a = first_index(b, 'e') as int;
    let c = first_index(b, 'E') as int;
    if a < c {
        a
    } else {
        c
    }
}

/// An exponent: an optional sign and at least one digit.
pub open spec fn exponent_value(x: Seq<char>) -> Option<int> {
    let signed = x.len() > 0 && (x[0] == '+' || x[0] == '-');
    let body = if signed {
        x.drop_first()
    } else {
        x
    };
    if body.len() > 0 && all_digits(body) {
        Some(
            if signed && x[0] == '-' {
                -digits_val(body)
            } else {
                digits_val(body)
            },
        )
    } else {
        None
    }
}

/// `b` spells `word` with each letter in either case (`upper` is `word` in
/// capitals).
pub open spec fn spells(b: Seq<char>, word: Seq<char>, upper: Seq<char>) -> bool {
    &&& b.len() == word.len()
    &&& forall|i: int| 0 <= i < b.len() ==> b[i] == word[i] || b[i] == upper[i]
}

/// `inf` or `infinity`, in any case.
pub open spec fn is_infinity(b: Seq<char>) -> bool {
    ||| spells(b, seq!['i', 'n', 'f'], seq!['I', 'N', 'F'])
    ||| spells(
        b,
        seq!['i', 'n', 'f', 'i', 'n', 'i', 't', 'y'],
        seq!['I', 'N', 'F', 'I', 'N', 'I', 'T', 'Y'],
    )
}

/// An unsigned number in whole milliseconds (cut, not rounded), held to
/// `PART_LIMIT_MS`: infinity, or digits with at most one decimal point (at
/// least one digit in all) and an optional exponent (`e` or `E`, an
/// optional sign, digits), as in `2`, `2.`, `.5`, `1.5e2`, `3E-1`.
pub open spec fn unsigned_ms(b: Seq<char>) -> Option<int> {
    if is_infinity(b) {
        Some(PART_LIMIT_MS as int)
    } else {
        let ei = exp_index(b);
        let mant = b.subrange(0, ei);
        let e = if ei < b.len() {
            exponent_value(b.subrange(ei + 1, b.len() as int))
        } else {
            Some(0int)
        };
        let w = whole_part(mant);
        let f = frac_part(mant);
        if all_digits(w) && all_digits(f) && w.len() + f.len() > 0 && e is Some {
            Some(capped(lead_val(w + f, w.len() + e->0 + 3)))
        } else {
            None
        }
    }
}

/// A number with an optional sign, in milliseconds (see `unsigned_ms`).
pub open spec fn number_ms(s: Seq<char>) -> Option<int> {
    if s.len() > 0 && (s[0] == '+' || s[0] == '-') {
        match unsigned_ms(s.drop_first()) {
            Some(v) => Some(
                if s[0] == '-' {
                    -v
                } else {
                    v
                },
            ),
            None => None,
        }
    } else {
        unsigned_ms(s)
    }
}

/// A time stamp `minutes:seconds` in milliseconds: exactly one colon, two numbers.
pub open spec fn timestamp_ms(t: Seq<char>) -> Option<int> {
    let c = first_index(t, ':') as int;
    let rest = t.subrange(c + 1, t.len() as int);
    if c < t.len() && first_index(rest, ':') == rest.len() {
        match (number_ms(t.subrange(0, c)), number_ms(rest)) {
            (Some(m), Some(s)) => Some(m * 60 + s),
            _ => None,
        }
    } else {
        None
    }
}

/// The value of digits is not negative.
proof fn lemma_digits_val_nonneg(s: Seq<char>)
    requires
        all_digits(s),
    ensures
        digits_val(s) >= 0,
    decreases s.len(),
{
    if s.len() > 0 {
        lemma_digits_val_nonneg(s.drop_last());
    }
}


/// The lead value of digits is not negative.
proof fn lemma_lead_nonneg(m: Seq<char>, p: int)
    requires
        all_digits(m),
    ensures
        lead_val(m, p) >= 0,
    decreases p,
{
    if p > 0 {
        lemma_lead_nonneg(m, p - 1);
        assert(0 <= p - 1 < m.len() ==> is_digit(m[p - 1]));
    }
}

/// Taking more digits never gives less.
proof fn lemma_lead_mono(m: Seq<char>, i: int, q: int)
    requires
        all_digits(m),
        0 <= i <= q,
    ensures
        lead_val(m, i) <= lead_val(m, q),
    decreases q - i,
{
    if i < q {
        lemma_lead_mono(m, i, q - 1);
        lemma_lead_nonneg(m, q - 1);
        assert(0 <= q - 1 < m.len() ==> is_digit(m[q - 1]));
    }
}

/// Past the end of the digits, a zero value stays zero.
proof fn lemma_lead_zero_tail(m: Seq<char>, i: int, q: int)
    requires
        m.len() <= i <= q,
        lead_val(m, i) == 0,
    ensures
        lead_val(m, q) == 0,
    decreases q - i,
{
    if i < q {
        lemma_lead_zero_tail(m, i, q - 1);
    }
}

/// A value of at least one grows tenfold with each further digit.
proof fn lemma_lead_grows(m: Seq<char>, i: int, k: int)
    requires
        all_digits(m),
        i >= 0,
        k >= 0,
        lead_val(m, i) >= 1,
    ensures
        lead_val(m, i + k) >= pow10(k),
    decreases k,
{
    if k > 0 {
        lemma_lead_grows(m, i, k - 1);
        assert(0 <= i + k - 1 < m.len() ==> is_digit(m[i + k - 1]));
        assert(lead_val(m, i + k) == lead_val(m, i + k - 1) * 10 + digit_at(m, i + k - 1));
    }
}

/// `10` to the power `k`.
pub open spec fn pow10(k: int) -> int
    decreases k,
{
    if k <= 0 {
        1
    } else {
        10 * pow10(k - 1)
    }
}

/// Where the point stands far enough past the digits, the capped value is
/// that of a point much further on.
proof fn lemma_far_point(m: Seq<char>, p: int, q: int)
    requires
        all_digits(m),
        m.len() + 20 <= p,
        m.len() + 20 <= q,
    ensures
        capped(lead_val(m, p)) == capped(lead_val(m, q)),
{
    let n = m.len() as int;
    lemma_lead_nonneg(m, n);
    if lead_val(m, n) == 0 {
        lemma_lead_zero_tail(m, n, p);
        lemma_lead_zero_tail(m, n, q);
    } else {
        lemma_lead_grows(m, n, 20);
        assert(pow10(20) == 100_000_000_000_000_000_000) by {
            reveal_with_fuel(pow10, 21);
        }
        lemma_lead_mono(m, n + 20, p);
        lemma_lead_mono(m, n + 20, q);
    }
}

/// Whether every character is a decimal digit.
fn all_digit_chars(f: &Vec<char>) -> (r: bool)
    ensures
        r == all_digits(f@),
{
    let mut j: usize = 0;
    while j < f.len()
        invariant
            j <= f.len(),
            forall|q: int| 0 <= q < j ==> is_digit(f@[q]),
        decreases f.len() - j,
    {
        if char_digit(f[j]).is_none() {
            return false;
        }
        j = j + 1;
    }
    true
}


/// Exec form of `capped(lead_val(m, p))`.
fn lead_value(m: &Vec<char>, p: i128) -> (r: u64)
    requires
        all_digits(m@),
    ensures
        r == capped(lead_val(m@, p as int)),
{
    if p <= 0 {
        return 0;
    }
    let n = m.len();
    let mut val: u128 = 0;
    let mut i: i128 = 0;
    while i < p
        invariant
            0 <= i <= p,
            n == m.len(),
            all_digits(m@),
            val == lead_val(m@, i as int),
            val <= PART_LIMIT_MS,
        decreases p - i,
    {
        if i >= n as i128 && val == 0 {
            proof {
                lemma_lead_zero_tail(m@, i as int, p as int);
            }
            return 0;
        }
        let d: u128 = if i < n as i128 {
            let k = i as usize;
            assert(is_digit(m@[k as int]));
            match char_digit(m[k]) {
                Some(x) => x as u128,
                None => 0,
            }
        } else {
            0
        };
        assert(d == digit_at(m@, i as int));
        let nv = val * 10 + d;
        i = i + 1;
        assert(nv == lead_val(m@, i as int));
        if nv > PART_LIMIT_MS as u128 {
            proof {
                lemma_lead_mono(m@, i as int, p as int);
            }
            return PART_LIMIT_MS;
        }
        val = nv;
    }
    val as u64
}

/// Exec form of `exponent_value`, the value held by `exp_clamped`.
fn exponent_of(x: &Vec<char>) -> (r: Option<i128>)
    ensures
        r is Some <==> exponent_value(x@) is Some,
        r matches Some(v) ==> v == exp_clamped(exponent_value(x@)->0),
{
    let signed = x.len() > 0 && (x[0] == '+' || x[0] == '-');
    let start: usize = if signed {
        1
    } else {
        0
    };
    let body = copy_range(x, start, x.len());
    assert(signed ==> body@ =~= x@.drop_first());
    assert(!signed ==> body@ =~= x@);
    if body.len() == 0 {
        return None;
    }
    let n = body.len();
    let mut a: i128 = 0;
    let mut k: usize = 0;
    while k < n
        invariant
            k <= n == body.len(),
            signed == (x@.len() > 0 && (x@[0] == '+' || x@[0] == '-')),
            signed ==> body@ == x@.drop_first(),
            !signed ==> body@ == x@,
            all_digits(body@.subrange(0, k as int)),
            a == (if digits_val(body@.subrange(0, k as int)) > EXP_LIMIT {
                EXP_LIMIT as int
            } else {
                digits_val(body@.subrange(0, k as int))
            }),
            0 <= a <= EXP_LIMIT,
        decreases n - k,
    {
        let ghost pre = body@.subrange(0, k as int);
        assert(body@.subrange(0, k + 1).drop_last() =~= pre);
        proof {
            lemma_digits_val_nonneg(pre);
        }
        match char_digit(body[k]) {
            None => {
                assert(!is_digit(body@[k as int]));
                assert(!all_digits(body@));
                return None;
            },
            Some(d) => {
                assert(all_digits(body@.subrange(0, k + 1)));
                assert(digits_val(body@.subrange(0, k + 1)) == digits_val(pre) * 10 + d);
                if a < EXP_LIMIT {
                    a = a * 10 + d as i128;
                    if a > EXP_LIMIT {
                        a = EXP_LIMIT;
                    }
                }
            },
        }
        k = k + 1;
    }
    assert(body@.subrange(0, n as int) =~= body@);
    if signed && x[0] == '-' {
        Some(-a)
    } else {
        Some(a)
    }
}

/// Whether `b` spells `word` with each letter in either case.
fn spells_either_case(b: &Vec<char>, word: &Vec<char>, upper: &Vec<char>) -> (r: bool)
    requires
        word.len() == upper.len(),
    ensures
        r == spells(b@, word@, upper@),
{
    if b.len() != word.len() {
        return false;
    }
    let mut i: usize = 0;
    while i < b.len()
        invariant
            i <= b.len() == word.len() == upper.len(),
            forall|j: int| 0 <= j < i ==> b@[j] == word@[j] || b@[j] == upper@[j],
        decreases b.len() - i,
    {
        if b[i] != word[i] && b[i] != upper[i] {
            return false;
        }
        i = i + 1;
    }
    true
}

/// Exec form of `is_infinity`.
fn infinity_text(b: &Vec<char>) -> (r: bool)
    ensures
        r == is_infinity(b@),
{
    let w1: Vec<char> = vec!['i', 'n', 'f'];
    let u1: Vec<char> = vec!['I', 'N', 'F'];
    let w2: Vec<char> = vec!['i', 'n', 'f', 'i', 'n', 'i', 't', 'y'];
    let u2: Vec<char> = vec!['I', 'N', 'F', 'I', 'N', 'I', 'T', 'Y'];
    assert(w1@ =~= seq!['i', 'n', 'f']);
    assert(u1@ =~= seq!['I', 'N', 'F']);
    assert(w2@ =~= seq!['i', 'n', 'f', 'i', 'n', 'i', 't', 'y']);
    assert(u2@ =~= seq!['I', 'N', 'F', 'I', 'N', 'I', 'T', 'Y']);
    spells_either_case(b, &w1, &u1) || spells_either_case(b, &w2, &u2)
}

/// Exec form of `unsigned_ms`.
fn parse_unsigned_ms(b: &Vec<char>) -> (r: Option<i128>)
    ensures
        opt_int(r) == unsigned_ms(b@),
        r matches Some(v) ==> 0 <= v <= PART_LIMIT_MS,
{
    if infinity_text(b) {
        return Some(PART_LIMIT_MS as i128);
    }
    let n = b.len();
    assert(b@.subrange(0, n as int) =~= b@);
    let ea = find_char(b, 0, 'e');
    let ec = find_char(b, 0, 'E');
    let ei = if ea < ec {
        ea
    } else {
        ec
    };
    assert(ei == exp_index(b@));
    let e: i128 = if ei < n {
        let x = copy_range(b, ei + 1, n);
        match exponent_of(&x) {
            Some(v) => v,
            None => {
                return None;
            },
        }
    } else {
        0
    };
    let mant = copy_range(b, 0, ei);
    let mn = mant.len();
    let d = find_char(&mant, 0, '.');
    assert(mant@.subrange(0, mn as int) =~= mant@);
    let w = copy_range(&mant, 0, d);
    let f = if d < mn {
        copy_range(&mant, d + 1, mn)
    } else {
        Vec::new()
    };
    assert(w@ == whole_part(mant@));
    assert(f@ =~= frac_part(mant@));
    if !all_digit_chars(&w) || !all_digit_chars(&f) || w.len() + f.len() == 0 {
        return None;
    }
    let mut m = w.clone();
    let mut j: usize = 0;
    while j < f.len()
        invariant
            j <= f.len(),
            m@ == w@ + f@.subrange(0, j as int),
        decreases f.len() - j,
    {
        m.push(f[j]);
        assert(f@.subrange(0, j + 1) =~= f@.subrange(0, j as int).push(f@[j as int]));
        j = j + 1;
    }
    assert(f@.subrange(0, f.len() as int) =~= f@);
    assert(all_digits(m@)) by {
        assert forall|i: int| 0 <= i < m@.len() implies is_digit(m@[i]) by {
            if i >= w@.len() {
                assert(m@[i] == f@[i - w@.len()]);
            }
        }
    }
    let p: i128 = w.len() as i128 + e + 3;
    proof {
        let ex = if ei < n {
            exponent_value(b@.subrange(ei + 1, n as int))->0
        } else {
            0
        };
        let pt = w@.len() + ex + 3;
        if ex > EXP_LIMIT {
            lemma_far_point(m@, p as int, pt);
        } else if ex < -EXP_LIMIT {
            assert(lead_val(m@, p as int) == 0);
            assert(lead_val(m@, pt) == 0);
        }
    }
    let v = lead_value(&m, p);
    Some(v as i128)
}

/// Exec form of `number_ms`.
fn parse_number_ms(s: &Vec<char>) -> (r: Option<i128>)
    ensures
        opt_int(r) == number_ms(s@),
        r matches Some(v) ==> -(PART_LIMIT_MS as int) <= v <= PART_LIMIT_MS,
{
    if s.len() > 0 && (s[0] == '+' || s[0] == '-') {
        let body = copy_range(s, 1, s.len());
        assert(body@ =~= s@.drop_first());
        match parse_unsigned_ms(&body) {
            Some(v) => {
                if s[0] == '-' {
                    Some(-v)
                } else {
                    Some(v)
                }
            },
            None => None,
        }
    } else {
        parse_unsigned_ms(s)
    }
}

/// Reads a time stamp tag such as `01:23.45` into milliseconds.
pub fn parse_timestamp(t: &Vec<char>) -> (r: Option<i128>)
    ensures
        opt_int(r) == timestamp_ms(t@),
{
    let n = t.len();
    let c = find_char(t, 0, ':');
    assert(t@.subrange(0, n as int) =~= t@);
    if c == n {
        return None;
    }
    let c2 = find_char(t, c + 1, ':');
    if c2 != n {
        return None;
    }
    let m_part = copy_range(t, 0, c);
    let s_part = copy_range(t, c + 1, n);
    match (parse_number_ms(&m_part), parse_number_ms(&s_part)) {
        (Some(m), Some(s)) => Some(m * 60 + s),
        _ => None,
    }
}

// ───────────────────────── LRC lines ─────────────────────────

/// `[ti:`, the title tag.
pub open spec fn title_tag() -> Seq<char> {
    seq!['[', 't', 'i', ':']
}

/// `[ar:`, the artist tag.
pub open spec fn artist_tag() -> Seq<char> {
    seq!['[', 'a', 'r', ':']
}

/// The time stamps at the start of `line` from `pos` on, and where they end.
pub open spec fn scan_stamps(line: Seq<char>, pos: int) -> (Seq<int>, int)
    decreases line.len() - pos,
{
    if 0 <= pos < line.len() && line[pos] == '[' {
        let rest = line.subrange(pos, line.len() as int);
        let e = first_index(rest, ']') as int;
        if e < rest.len() {
            match timestamp_ms(line.subrange(pos + 1, pos + e)) {
                Some(ts) => {
                    let (more, end) = scan_stamps(line, pos + e + 1);
                    (seq![ts] + more, end)
                },
                None => (seq![], pos),
            }
        } else {
            (seq![], pos)
        }
    } else {
        (seq![], pos)
    }
}

/// What parsing has gathered: lines in file order, title, artist.
pub type LrcState = (Seq<(int, Seq<char>)>, Option<Seq<char>>, Option<Seq<char>>);

/// The effect of one raw line of an LRC file.
pub open spec fn line_step(st: LrcState, raw: Seq<char>) -> LrcState {
    let line = trim(raw);
    if line.len() == 0 {
        st
    } else if starts_with(line, title_tag()) {
        (st.0, Some(line.subrange(4, line.len() - 1)), st.2)
    } else if starts_with(line, artist_tag()) {
        (st.0, st.1, Some(line.subrange(4, line.len() - 1)))
    } else if line[0] == '[' && line.contains(':') && !line.contains(']') {
        st
    } else {
        let (stamps, end) = scan_stamps(line, 0);
        let text = trim(line.subrange(end, line.len() as int));
        (st.0 + stamps.map_values(|ts: int| (ts, text)), st.1, st.2)
    }
}

/// The state after the given raw lines.
pub open spec fn lrc_fold(ls: Seq<Seq<char>>) -> LrcState
    decreases ls.len(),
{
    if ls.len() == 0 {
        (seq![], None, None)
    } else {
        line_step(lrc_fold(ls.drop_last()), ls.last())
    }
}

/// The lines, title and artist of an LRC text, lines still in file order.
pub open spec fn lrc_contents(content: Seq<char>) -> LrcState {
    lrc_fold(lines(content))
}

/// A `[ti:` or `[ar:` line that `Lyrics::parse` can cut: it has a value part
/// and ends in a one-byte character.
pub open spec fn tag_line_ok(raw: Seq<char>) -> bool {
    let line = trim(raw);
    (starts_with(line, title_tag()) || starts_with(line, artist_tag())) ==> (line.len() >= 5 && (
    line.last() as u32) < 128)
}

/// Every tag line of the text can be cut.
pub open spec fn lrc_tags_ok(content: Seq<char>) -> bool {
    forall|i: int| 0 <= i < lines(content).len() ==> tag_line_ok(#[trigger] lines(content)[i])
}

/// Lines ordered by time stamp.
pub open spec fn sorted_by_time(s: Seq<(int, Seq<char>)>) -> bool {
    forall|i: int, j: int| 0 <= i < j < s.len() ==> s[i].0 <= s[j].0
}

/// The lines whose time stamp is `k`.
pub open spec fn at_time(k: int) -> spec_fn((int, Seq<char>)) -> bool {
    |l: (int, Seq<char>)| l.0 == k
}

/// `b` orders the lines of `a` by time, keeping the file order of lines with
/// equal time stamps (what a stable sort gives).
pub open spec fn stably_sorted(a: Seq<(int, Seq<char>)>, b: Seq<(int, Seq<char>)>) -> bool {
    &&& sorted_by_time(b)
    &&& forall|k: int| #[trigger] b.filter(at_time(k)) == a.filter(at_time(k))
}

/// Filtering keeps nothing when nothing passes.
proof fn lemma_filter_none(s: Seq<(int, Seq<char>)>, f: spec_fn((int, Seq<char>)) -> bool)
    requires
        forall|i: int| 0 <= i < s.len() ==> !f(s[i]),
    ensures
        s.filter(f) =~= Seq::<(int, Seq<char>)>::empty(),
    decreases s.len(),
{
    reveal(Seq::filter);
    if s.len() > 0 {
        lemma_filter_none(s.drop_last(), f);
    }
}

/// Filtering a single line.
proof fn lemma_filter_single(x: (int, Seq<char>), f: spec_fn((int, Seq<char>)) -> bool)
    ensures
        seq![x].filter(f) == (if f(x) {
            seq![x]
        } else {
            Seq::<(int, Seq<char>)>::empty()
        }),
{
    let e = Seq::<(int, Seq<char>)>::empty();
    assert(e.push(x) =~= seq![x]);
    e.lemma_filter_push(x, f);
    lemma_filter_none(e, f);
    assert(e.push(x) =~= seq![x]);
    if f(x) {
        assert(e.filter(f).push(x) =~= seq![x]);
    }
}

/// Inserting at the boundary of smaller-or-equal and larger time stamps keeps
/// each time stamp's lines as appending would.
proof fn lemma_insert_filter(s: Seq<(int, Seq<char>)>, p: int, x: (int, Seq<char>), k: int)
    requires
        0 <= p <= s.len(),
        forall|q: int| 0 <= q < p ==> s[q].0 <= x.0,
        forall|q: int| p <= q < s.len() ==> s[q].0 > x.0,
    ensures
        s.insert(p, x).filter(at_time(k)) == s.push(x).filter(at_time(k)),
{
    let f = at_time(k);
    let a = s.subrange(0, p);
    let b = s.subrange(p, s.len() as int);
    assert(s.insert(p, x) =~= a + (seq![x] + b));
    assert(s =~= a + b);
    Seq::filter_distributes_over_add(a, seq![x] + b, f);
    Seq::filter_distributes_over_add(seq![x], b, f);
    Seq::filter_distributes_over_add(a, b, f);
    s.lemma_filter_push(x, f);
    lemma_filter_single(x, f);
    if k == x.0 {
        lemma_filter_none(b, f);
        assert(a.filter(f) + (seq![x] + Seq::<(int, Seq<char>)>::empty()) =~= (a.filter(f)
            + Seq::<(int, Seq<char>)>::empty()).push(x));
    } else {
        assert(seq![x].filter(f) + b.filter(f) =~= b.filter(f));
    }
}

/// Inserts a line after every line with a time stamp not above its own.
fn insert_by_time(v: &mut Vec<LyricLine>, x: LyricLine)
    requires
        sorted_by_time(line_views(old(v)@)),
    ensures
        sorted_by_time(line_views(final(v)@)),
        forall|k: int|
            #[trigger] line_views(final(v)@).filter(at_time(k)) == line_views(old(v)@).push(
                x@,
            ).filter(at_time(k)),
{
    let ghost old_views = line_views(v@);
    let ghost xv = x@;
    let mut p = v.len();
    while p > 0 && v[p - 1].timestamp_ms > x.timestamp_ms
        invariant
            p <= v.len(),
            v@ == old(v)@,
            line_views(v@) == old_views,
            forall|q: int| p <= q < v.len() ==> v@[q].timestamp_ms > x.timestamp_ms,
        decreases p,
    {
        p = p - 1;
    }
    assert forall|q: int| 0 <= q < p implies old_views[q].0 <= xv.0 by {
        assert(old_views[q].0 <= old_views[p - 1].0);
    }
    v.insert(p, x);
    assert(line_views(v@) =~= old_views.insert(p as int, xv));
    assert forall|k: int|
        #[trigger] line_views(v@).filter(at_time(k)) == old_views.push(xv).filter(at_time(k)) by {
        lemma_insert_filter(old_views, p as int, xv, k);
    }
    assert forall|i: int, j: int|
        0 <= i < j < line_views(v@).len() implies line_views(v@)[i].0 <= line_views(v@)[j].0 by {
        let s = old_views.insert(p as int, xv);
        if j < p {
        } else if j == p {
        } else if i < p {
            assert(old_views[i].0 <= xv.0);
        } else if i == p {
        } else {
        }
    }
}

/// Lines gathered so far, kept ordered by time, with title and artist.
struct Gathered {
    lines: Vec<LyricLine>,
    title: Option<String>,
    artist: Option<String>,
    in_order: Ghost<Seq<(int, Seq<char>)>>,
}

impl Gathered {
    /// Lines in file order, title and artist.
    spec fn state(&self) -> LrcState {
        (self.in_order@, opt_view(self.title), opt_view(self.artist))
    }

    /// The lines are the file-order lines stably ordered by time.
    spec fn ordered(&self) -> bool {
        stably_sorted(self.in_order@, line_views(self.lines@))
    }
}

/// Scans the time stamps at the start of `line`.
fn read_stamps(line: &Vec<char>) -> (r: (Vec<i128>, usize))
    ensures
        r.0@.map_values(|t: i128| t as int) == scan_stamps(line@, 0).0,
        r.1 == scan_stamps(line@, 0).1,
        r.1 <= line.len(),
{
    let n = line.len();
    let mut stamps: Vec<i128> = Vec::new();
    let mut pos: usize = 0;
    loop
        invariant
            pos <= n == line.len(),
            stamps@.map_values(|t: i128| t as int) + scan_stamps(line@, pos as int).0 == scan_stamps(
                line@,
                0,
            ).0,
            scan_stamps(line@, pos as int).1 == scan_stamps(line@, 0).1,
        ensures
            stamps@.map_values(|t: i128| t as int) == scan_stamps(line@, 0).0,
            pos == scan_stamps(line@, 0).1,
            pos <= n,
        decreases n - pos,
    {
        let ghost old_stamps = stamps@.map_values(|t: i128| t as int);
        if pos < n && line[pos] == '[' {
            let ghost rest = line@.subrange(pos as int, n as int);
            let e = find_char(line, pos, ']');
            if e < n {
                let tag = copy_range(line, pos + 1, e);
                assert(tag@ == line@.subrange(pos + 1, pos + (e - pos)));
                match parse_timestamp(&tag) {
                    Some(ts) => {
                        stamps.push(ts);
                        assert(stamps@.map_values(|t: i128| t as int) =~= old_stamps.push(
                            ts as int,
                        ));
                        let ghost tail = scan_stamps(line@, e + 1);
                        assert(scan_stamps(line@, pos as int).0 == seq![ts as int] + tail.0);
                        assert(old_stamps.push(ts as int) + tail.0 =~= old_stamps + (seq![
                            ts as int,
                        ] + tail.0));
                        pos = e + 1;
                        continue ;
                    },
                    None => {},
                }
            }
        }
        assert(scan_stamps(line@, pos as int).0 =~= Seq::<int>::empty());
        assert(old_stamps + Seq::<int>::empty() =~= old_stamps);
        break ;
    }
    (stamps, pos)
}

/// Applies one raw line of the file.
fn gather_line(g: &mut Gathered, raw: &Vec<char>)
    requires
        old(g).ordered(),
        tag_line_ok(raw@),
    ensures
        final(g).ordered(),
        final(g).state() == line_step(old(g).state(), raw@),
{
    let line = trim_chars(raw);
    let n = line.len();
    if n == 0 {
        return ;
    }
    let ti: Vec<char> = vec!['[', 't', 'i', ':'];
    let ar: Vec<char> = vec!['[', 'a', 'r', ':'];
    assert(ti@ =~= title_tag());
    assert(ar@ =~= artist_tag());
    if has_prefix(&line, &ti) {
        let v = copy_range(&line, 4, n - 1);
        g.title = Some(string_of(&v));
        return ;
    }
    if has_prefix(&line, &ar) {
        let v = copy_range(&line, 4, n - 1);
        g.artist = Some(string_of(&v));
        return ;
    }
    if line[0] == '[' && has_char(&line, ':') && !has_char(&line, ']') {
        return ;
    }
    let (stamps, end) = read_stamps(&line);
    let rest = copy_range(&line, end, n);
    let text_chars = trim_chars(&rest);
    let ghost text = text_chars@;
    let ghost sv = stamps@.map_values(|t: i128| t as int);
    let ghost base = g.in_order@;
    let mut i: usize = 0;
    while i < stamps.len()
        invariant
            i <= stamps.len(),
            sv == stamps@.map_values(|t: i128| t as int),
            text == text_chars@,
            g.title == old(g).title,
            g.artist == old(g).artist,
            g.in_order@ == base + sv.take(i as int).map_values(|ts: int| (ts, text)),
            g.ordered(),
        decreases stamps.len() - i,
    {
        let entry = LyricLine { timestamp_ms: stamps[i], text: string_of(&text_chars) };
        let ghost before = g.in_order@;
        let ghost old_lines = line_views(g.lines@);
        insert_by_time(&mut g.lines, entry);
        proof {
            g.in_order = Ghost(before.push((stamps@[i as int] as int, text)));
            assert(sv.take(i + 1).map_values(|ts: int| (ts, text)) =~= sv.take(
                i as int,
            ).map_values(|ts: int| (ts, text)).push((sv[i as int], text)));
            assert(g.in_order@ =~= base + sv.take(i + 1).map_values(|ts: int| (ts, text)));
            assert forall|k: int| #[trigger]
                line_views(g.lines@).filter(at_time(k)) == g.in_order@.filter(at_time(k)) by {
                old_lines.lemma_filter_push(entry@, at_time(k));
                before.lemma_filter_push(entry@, at_time(k));
            }
        }
        i = i + 1;
    }
    assert(sv.take(stamps.len() as int) =~= sv);
}

/// Whether one raw line satisfies `tag_line_ok`.
fn tag_line_safe(raw: &Vec<char>) -> (r: bool)
    ensures
        r == tag_line_ok(raw@),
{
    let line = trim_chars(raw);
    let ti: Vec<char> = vec!['[', 't', 'i', ':'];
    let ar: Vec<char> = vec!['[', 'a', 'r', ':'];
    assert(ti@ =~= title_tag());
    assert(ar@ =~= artist_tag());
    if has_prefix(&line, &ti) || has_prefix(&line, &ar) {
        line.len() >= 5 && (line[line.len() - 1] as u32) < 128
    } else {
        true
    }
}

/// Whether `Lyrics::parse` can cut every tag line of `content`.
pub fn tags_parsable(content: &str) -> (r: bool)
    ensures
        r == lrc_tags_ok(content@),
{
    let chars = chars_of(content);
    let ls = split_lines(&chars);
    let ghost all = seqs_of(ls@);
    let mut i: usize = 0;
    while i < ls.len()
        invariant
            i <= ls.len(),
            all == seqs_of(ls@),
            all == lines(content@),
            forall|k: int| 0 <= k < i ==> tag_line_ok(#[trigger] lines(content@)[k]),
        decreases ls.len() - i,
    {
        assert(all[i as int] == ls@[i as int]@);
        if !tag_line_safe(&ls[i]) {
            return false;
        }
        i = i + 1;
    }
    true
}

impl Lyrics {
    /// Parses LRC text: `[ti:…]` and `[ar:…]` tags, and lines that begin
    /// with one or more `[mm:ss.xx]` stamps; each stamp gives one line with
    /// the text after the stamps. Lines come out ordered by time stamp, lines
    /// with equal stamps in file order.
    pub fn parse(content: &str) -> (r: Lyrics)
        requires
            lrc_tags_ok(content@),
        ensures
            stably_sorted(lrc_contents(content@).0, line_views(r.lines@)),
            opt_view(r.title) == lrc_contents(content@).1,
            opt_view(r.artist) == lrc_contents(content@).2,
    {
        let chars = chars_of(content);
        let ls = split_lines(&chars);
        let mut g = Gathered {
            lines: Vec::new(),
            title: None,
            artist: None,
            in_order: Ghost(Seq::empty()),
        };
        let ghost all = seqs_of(ls@);
        assert(all.take(0) =~= Seq::<Seq<char>>::empty());
        assert forall|k: int| #[trigger]
            line_views(g.lines@).filter(at_time(k)) == g.in_order@.filter(at_time(k)) by {
            assert(line_views(g.lines@) =~= g.in_order@);
        }
        let mut i: usize = 0;
        while i < ls.len()
            invariant
                i <= ls.len(),
                all == seqs_of(ls@),
                all == lines(content@),
                lrc_tags_ok(content@),
                g.ordered(),
                g.state() == lrc_fold(all.take(i as int)),
            decreases ls.len() - i,
        {
            assert(all.take(i + 1).drop_last() =~= all.take(i as int));
            assert(all[i as int] == ls@[i as int]@);
            assert(tag_line_ok(lines(content@)[i as int]));
            gather_line(&mut g, &ls[i]);
            i = i + 1;
        }
        assert(all.take(ls.len() as int) =~= all);
        Lyrics { lines: g.lines, title: g.title, artist: g.artist }
    }

    /// The index of the last line, in a run from the start, whose time stamp
    /// is at or before `position_ms`; the first line when none is; `None`
    /// when there are no lines.
    pub fn current_line_index(&self, position_ms: i64) -> (r: Option<usize>)
        ensures
            r == current_index(line_views(self.lines@), position_ms as int),
    {
        if self.lines.len() == 0 {
            return None;
        }
        let mut idx: usize = 0;
        let mut i: usize = 0;
        while i < self.lines.len() && self.lines[i].timestamp_ms <= position_ms as i128
            invariant
                i <= self.lines.len(),
                forall|q: int| 0 <= q < i ==> self.lines@[q].timestamp_ms <= position_ms,
                idx == (if i == 0 {
                    0
                } else {
                    i - 1
                }),
            decreases self.lines.len() - i,
        {
            idx = i;
            i = i + 1;
        }
        proof {
            let v = line_views(self.lines@);
            assert forall|q: int| 0 <= q < i implies !(v[q].0 > position_ms) by {}
            lemma_first_later_unique(v, position_ms as int, i as int);
        }
        Some(idx)
    }

    /// The lines from `context` before the current line to `context` after it.
    pub fn window(&self, position_ms: i64, context: usize) -> (r: &[LyricLine])
        ensures
            r@ == self.lines@.subrange(
                window_bounds(line_views(self.lines@), position_ms as int, context as int).0,
                window_bounds(line_views(self.lines@), position_ms as int, context as int).1,
            ),
    {
        if self.lines.len() == 0 {
            return slice_subrange(self.lines.as_slice(), 0, 0);
        }
        let current = match self.current_line_index(position_ms) {
            Some(c) => c,
            None => 0,
        };
        proof {
            lemma_first_later(line_views(self.lines@), position_ms as int);
        }
        let start = if current >= context {
            current - context
        } else {
            0
        };
        let end = if context < self.lines.len() - current {
            current + context + 1
        } else {
            self.lines.len()
        };
        slice_subrange(self.lines.as_slice(), start, end)
    }
}

/// Index of the first line with a time stamp after `pos`, or the length.
pub open spec fn first_later(s: Seq<(int, Seq<char>)>, pos: int) -> nat
    decreases s.len(),
{
    if s.len() == 0 {
        0
    } else if s[0].0 > pos {
        0
    } else {
        1 + first_later(s.drop_first(), pos)
    }
}

/// The lines before `first_later` are at or before `pos`, the one at it after.
proof fn lemma_first_later(s: Seq<(int, Seq<char>)>, pos: int)
    ensures
        first_later(s, pos) <= s.len(),
        forall|j: int| 0 <= j < first_later(s, pos) ==> s[j].0 <= pos,
        first_later(s, pos) < s.len() ==> s[first_later(s, pos) as int].0 > pos,
    decreases s.len(),
{
    if s.len() > 0 && s[0].0 <= pos {
        lemma_first_later(s.drop_first(), pos);
        assert forall|j: int| 0 <= j < first_later(s, pos) implies s[j].0 <= pos by {
            if j > 0 {
                assert(s[j] == s.drop_first()[j - 1]);
            }
        }
    }
}

/// `first_later` is the only position with that property.
proof fn lemma_first_later_unique(s: Seq<(int, Seq<char>)>, pos: int, i: int)
    requires
        0 <= i <= s.len(),
        forall|j: int| 0 <= j < i ==> !(s[j].0 > pos),
        i < s.len() ==> s[i].0 > pos,
    ensures
        first_later(s, pos) == i,
{
    lemma_first_later(s, pos);
    if (first_later(s, pos) as int) < i {
        assert(s[first_later(s, pos) as int].0 > pos);
    }
    if (first_later(s, pos) as int) > i {
        assert(s[i].0 <= pos);
    }
}

/// The line shown as current at `pos`: the last of the leading lines at or
/// before `pos`, the first line when none is, `None` when there are none.
pub open spec fn current_index(s: Seq<(int, Seq<char>)>, pos: int) -> Option<usize> {
    if s.len() == 0 {
        None
    } else if first_later(s, pos) == 0 {
        Some(0)
    } else {
        Some((first_later(s, pos) - 1) as usize)
    }
}

/// The range of lines shown around the current one.
pub open spec fn window_bounds(s: Seq<(int, Seq<char>)>, pos: int, context: int) -> (int, int) {
    if s.len() == 0 {
        (0, 0)
    } else {
        let c = (current_index(s, pos)->0) as int;
        let start = if c >= context {
            c - context
        } else {
            0
        };
        let end = if c + context + 1 <= s.len() {
            c + context + 1
        } else {
            s.len() as int
        };
        (start, end)
    }
}

/// The lyrics window holds the current line and at most `context` lines on
/// either side of it.
pub proof fn law_window_holds_current(s: Seq<(int, Seq<char>)>, pos: int, context: int)
    requires
        s.len() > 0,
        context >= 0,
    ensures
        ({
            let c = (current_index(s, pos)->0) as int;
            let (start, end) = window_bounds(s, pos, context);
            &&& 0 <= start <= c < end <= s.len()
            &&& end - start <= 2 * context + 1
        }),
{
    lemma_first_later(s, pos);
}

/// The current line is the last of the leading lines stamped at or before
/// `pos` (the first line when none is), and the window around it reaches
/// `context` lines to either side as far as the lines go: it starts
/// `min(c, context)` lines before the current line `c` and ends
/// `min(context, lines after c)` lines after it. (The lines are those of a
/// list, so there are at most `usize::MAX` of them.)
pub proof fn law_window_context(s: Seq<(int, Seq<char>)>, pos: int, context: int)
    requires
        0 < s.len() <= usize::MAX,
        context >= 0,
    ensures
        ({
            let c = (current_index(s, pos)->0) as int;
            let (start, end) = window_bounds(s, pos, context);
            let after = s.len() - 1 - c;
            &&& 0 <= c < s.len()
            &&& forall|j: int| 0 <= j < c ==> s[j].0 <= pos
            &&& c > 0 ==> s[c].0 <= pos
            &&& (c > 0 || s[0].0 <= pos) && c + 1 < s.len() ==> s[c + 1].0 > pos
            &&& start == c - (if c < context {
                c
            } else {
                context
            })
            &&& end == c + 1 + (if after < context {
                after
            } else {
                context
            })
        }),
{
    lemma_first_later(s, pos);
}

/// Which lyrics to show for a track: the `.lrc` file next to it when there is
/// one (`None` when it cannot be read); otherwise a `.txt` file, when it can be
/// read and holds at least one timed line. Each argument is `None` when the
/// file does not exist, `Some(None)` when it exists but cannot be read.
pub fn select_lyrics(lrc: Option<Option<String>>, txt: Option<Option<String>>) -> (r: Option<
    Lyrics,
>)
    requires
        lrc matches Some(Some(c)) ==> lrc_tags_ok(c@),
        lrc is None ==> (txt matches Some(Some(c)) ==> lrc_tags_ok(c@)),
    ensures
        lrc matches Some(x) ==> (match x {
            None => r is None,
            Some(c) => r matches Some(l) && stably_sorted(lrc_contents(c@).0, line_views(l.lines@))
                && opt_view(l.title) == lrc_contents(c@).1 && opt_view(l.artist) == lrc_contents(
                c@,
            ).2,
        }),
        lrc is None ==> (match txt {
            Some(Some(c)) => if lrc_contents(c@).0.len() == 0 {
                r is None
            } else {
                r matches Some(l) && stably_sorted(lrc_contents(c@).0, line_views(l.lines@))
                    && opt_view(l.title) == lrc_contents(c@).1 && opt_view(l.artist)
                    == lrc_contents(c@).2
            },
            _ => r is None,
        }),
{
    match lrc {
        Some(content) => match content {
            Some(c) => Some(Lyrics::parse(c.as_str())),
            None => None,
        },
        None => match txt {
            Some(Some(c)) => {
                let l = Lyrics::parse(c.as_str());
                if l.lines.len() == 0 {
                    proof {
                        lemma_stably_sorted_empty(lrc_contents(c@).0, line_views(l.lines@));
                    }
                    None
                } else {
                    proof {
                        lemma_stably_sorted_empty(lrc_contents(c@).0, line_views(l.lines@));
                    }
                    Some(l)
                }
            },
            _ => None,
        },
    }
}

/// A stable ordering of lines is empty exactly when the lines are.
pub proof fn lemma_stably_sorted_empty(a: Seq<(int, Seq<char>)>, b: Seq<(int, Seq<char>)>)
    requires
        stably_sorted(a, b),
    ensures
        a.len() == 0 <==> b.len() == 0,
{
    if a.len() > 0 {
        let k = a[0].0;
        a.lemma_filter_contains(at_time(k), 0);
        assert(b.filter(at_time(k)) == a.filter(at_time(k)));
        b.lemma_filter_len(at_time(k));
    }
    if b.len() > 0 {
        let k = b[0].0;
        b.lemma_filter_contains(at_time(k), 0);
        assert(b.filter(at_time(k)) == a.filter(at_time(k)));
        a.lemma_filter_len(at_time(k));
    }
}

} // verus!
