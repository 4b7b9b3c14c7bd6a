//! Colour themes: the built-in palettes and the overrides a configuration
//! applies on top of them.
use vstd::prelude::*;
use crate::text::{chars_eq_str, chars_of, copy_range, lowercase, to_lowercase, trim, trim_chars};

verus! {

/// A 24-bit colour.
#[derive(Clone, Copy, PartialEq, Eq, Debug, Structural)]
pub struct Rgb {
    pub r: u8,
    pub g: u8,
    pub b: u8,
}

/// The colour with components `r`, `g`, `b`.
pub open spec fn rgb(r: u8, g: u8, b: u8) -> Rgb {
    Rgb { r, g, b }
}

/// The colours of every part of the interface.
#[derive(Clone, Copy, PartialEq, Eq, Debug, Structural)]
pub struct OpalineTheme {
    pub bg: Rgb,
    pub surface: Rgb,
    pub surface_alt: Rgb,
    pub primary: Rgb,
    pub secondary: Rgb,
    pub accent: Rgb,
    pub text: Rgb,
    pub text_dim: Rgb,
    pub text_bright: Rgb,
    pub success: Rgb,
    pub warning: Rgb,
    pub error: Rgb,
    pub progress: Rgb,
    pub progress_bg: Rgb,
    pub border: Rgb,
    pub highlight: Rgb,
    pub highlight_bg: Rgb,
}

/// The `opaline` palette.
pub open spec fn opaline_palette() -> OpalineTheme {
    OpalineTheme {
        bg: rgb(0x1a, 0x1b, 0x26),
        surface: rgb(0x24, 0x28, 0x3b),
        surface_alt: rgb(0x2f, 0x33, 0x4d),
        primary: rgb(0xf0, 0xc0, 0xc0),
        secondary: rgb(0xb4, 0xf9, 0xf8),
        accent: rgb(0xcb, 0xc0, 0xff),
        text: rgb(0xc0, 0xca, 0xf5),
        text_dim: rgb(0x56, 0x5f, 0x89),
        text_bright: rgb(0xff, 0xff, 0xff),
        success: rgb(0x9e, 0xce, 0x6a),
        warning: rgb(0xe0, 0xaf, 0x68),
        error: rgb(0xf7, 0x76, 0x8e),
        progress: rgb(0xf0, 0xc0, 0xc0),
        progress_bg: rgb(0x41, 0x45, 0x68),
        border: rgb(0x56, 0x5f, 0x89),
        highlight: rgb(0xf0, 0xc0, 0xc0),
        highlight_bg: rgb(0x36, 0x3b, 0x54),
    }
}

/// The `catppuccin` palette.
pub open spec fn catppuccin_palette() -> OpalineTheme {
    OpalineTheme {
        bg: rgb(0x1e, 0x1e, 0x2e),
        surface: rgb(0x31, 0x32, 0x44),
        surface_alt: rgb(0x45, 0x47, 0x5a),
        primary: rgb(0xf5, 0xc2, 0xe7),
        secondary: rgb(0x89, 0xdc, 0xeb),
        accent: rgb(0xb4, 0xbe, 0xfe),
        text: rgb(0xcd, 0xd6, 0xf4),
        text_dim: rgb(0x6c, 0x70, 0x86),
        text_bright: rgb(0xff, 0xff, 0xff),
        success: rgb(0xa6, 0xe3, 0xa1),
        warning: rgb(0xf9, 0xe2, 0xaf),
        error: rgb(0xf3, 0x8b, 0xa8),
        progress: rgb(0xf5, 0xc2, 0xe7),
        progress_bg: rgb(0x45, 0x47, 0x5a),
        border: rgb(0x6c, 0x70, 0x86),
        highlight: rgb(0xf5, 0xc2, 0xe7),
        highlight_bg: rgb(0x45, 0x47, 0x5a),
    }
}

/// The `nord` palette.
pub open spec fn nord_palette() -> OpalineTheme {
    OpalineTheme {
        bg: rgb(0x2e, 0x34, 0x40),
        surface: rgb(0x3b, 0x42, 0x52),
        surface_alt: rgb(0x43, 0x4c, 0x5e),
        primary: rgb(0x88, 0xc0, 0xd0),
        secondary: rgb(0x81, 0xa1, 0xc1),
        accent: rgb(0xb4, 0x8e, 0xad),
        text: rgb(0xe5, 0xe9, 0xf0),
        text_dim: rgb(0x4c, 0x56, 0x6a),
        text_bright: rgb(0xec, 0xef, 0xf4),
        success: rgb(0xa3, 0xbe, 0x8c),
        warning: rgb(0xeb, 0xcb, 0x8b),
        error: rgb(0xbf, 0x61, 0x6a),
        progress: rgb(0x88, 0xc0, 0xd0),
        progress_bg: rgb(0x4c, 0x56, 0x6a),
        border: rgb(0x4c, 0x56, 0x6a),
        highlight: rgb(0x88, 0xc0, 0xd0),
        highlight_bg: rgb(0x3b, 0x42, 0x52),
    }
}

/// The `dracula` palette.
pub open spec fn dracula_palette() -> OpalineTheme {
    OpalineTheme {
        bg: rgb(0x28, 0x2a, 0x36),
        surface: rgb(0x34, 0x36, 0x46),
        surface_alt: rgb(0x44, 0x47, 0x5a),
        primary: rgb(0xbd, 0x93, 0xf9),
        secondary: rgb(0x8b, 0xe9, 0xfd),
        accent: rgb(0xff, 0x79, 0xc6),
        text: rgb(0xf8, 0xf8, 0xf2),
        text_dim: rgb(0x62, 0x72, 0xa4),
        text_bright: rgb(0xff, 0xff, 0xff),
        success: rgb(0x50, 0xfa, 0x7b),
        warning: rgb(0xf1, 0xfa, 0x8c),
        error: rgb(0xff, 0x55, 0x55),
        progress: rgb(0xbd, 0x93, 0xf9),
        progress_bg: rgb(0x44, 0x47, 0x5a),
        border: rgb(0x62, 0x72, 0xa4),
        highlight: rgb(0xbd, 0x93, 0xf9),
        highlight_bg: rgb(0x34, 0x36, 0x46),
    }
}

/// The `one_dark` palette.
pub open spec fn one_dark_palette() -> OpalineTheme {
    OpalineTheme {
        bg: rgb(0x28, 0x2c, 0x34),
        surface: rgb(0x33, 0x38, 0x42),
        surface_alt: rgb(0x3e, 0x44, 0x51),
        primary: rgb(0xe0, 0x6c, 0x75),
        secondary: rgb(0x61, 0xaf, 0xef),
        accent: rgb(0xc6, 0x78, 0xdd),
        text: rgb(0xab, 0xb2, 0xbf),
        text_dim: rgb(0x5c, 0x63, 0x6a),
        text_bright: rgb(0xff, 0xff, 0xff),
        success: rgb(0x98, 0xc3, 0x79),
        warning: rgb(0xe5, 0xc0, 0x7b),
        error: rgb(0xe0, 0x6c, 0x75),
        progress: rgb(0x61, 0xaf, 0xef),
        progress_bg: rgb(0x3e, 0x44, 0x51),
        border: rgb(0x5c, 0x63, 0x6a),
        highlight: rgb(0x61, 0xaf, 0xef),
        highlight_bg: rgb(0x2c, 0x32, 0x3c),
    }
}

/// The palette of a preset name (already lower-cased).
pub open spec fn preset_named(name: Seq<char>) -> Option<OpalineTheme> {
    if name == "opaline"@ {
        Some(opaline_palette())
    } else if name == "catppuccin"@ {
        Some(catppuccin_palette())
    } else if name == "nord"@ {
        Some(nord_palette())
    } else if name == "dracula"@ {
        Some(dracula_palette())
    } else if name == "one_dark"@ {
        Some(one_dark_palette())
    } else {
        None
    }
}

/// The names of the presets, in the order they are listed.
pub open spec fn preset_list() -> Seq<Seq<char>> {
    seq!["opaline"@, "catppuccin"@, "nord"@, "dracula"@, "one_dark"@]
}

/// An override sets exactly the colour it names, and no other: the colour
/// called `bg` is the field `bg`, the one called `error` the field `error`,
/// and so on for every colour of the theme.
pub proof fn law_override_sets_named_color(t: OpalineTheme, c: Rgb)
    ensures
        with_color(t, "bg"@, c) == (OpalineTheme { bg: c, ..t }),
        with_color(t, "surface"@, c) == (OpalineTheme { surface: c, ..t }),
        with_color(t, "surface_alt"@, c) == (OpalineTheme { surface_alt: c, ..t }),
        with_color(t, "primary"@, c) == (OpalineTheme { primary: c, ..t }),
        with_color(t, "secondary"@, c) == (OpalineTheme { secondary: c, ..t }),
        with_color(t, "accent"@, c) == (OpalineTheme { accent: c, ..t }),
        with_color(t, "text"@, c) == (OpalineTheme { text: c, ..t }),
        with_color(t, "text_dim"@, c) == (OpalineTheme { text_dim: c, ..t }),
        with_color(t, "text_bright"@, c) == (OpalineTheme { text_bright: c, ..t }),
        with_color(t, "success"@, c) == (OpalineTheme { success: c, ..t }),
        with_color(t, "warning"@, c) == (OpalineTheme { warning: c, ..t }),
        with_color(t, "error"@, c) == (OpalineTheme { error: c, ..t }),
        with_color(t, "progress"@, c) == (OpalineTheme { progress: c, ..t }),
        with_color(t, "progress_bg"@, c) == (OpalineTheme { progress_bg: c, ..t }),
        with_color(t, "border"@, c) == (OpalineTheme { border: c, ..t }),
        with_color(t, "highlight"@, c) == (OpalineTheme { highlight: c, ..t }),
        with_color(t, "highlight_bg"@, c) == (OpalineTheme { highlight_bg: c, ..t }),
{
    reveal_strlit("bg");
    reveal_strlit("surface");
    reveal_strlit("surface_alt");
    reveal_strlit("primary");
    reveal_strlit("secondary");
    reveal_strlit("accent");
    reveal_strlit("text");
    reveal_strlit("text_dim");
    reveal_strlit("text_bright");
    reveal_strlit("success");
    reveal_strlit("warning");
    reveal_strlit("error");
    reveal_strlit("progress");
    reveal_strlit("progress_bg");
    reveal_strlit("border");
    reveal_strlit("highlight");
    reveal_strlit("highlight_bg");
    assert("bg"@.len() == 2 && "bg"@[0] == 'b' && "bg"@[1] == 'g');
    assert("surface"@.len() == 7 && "surface"@[0] == 's' && "surface"@[6] == 'e');
    assert("surface_alt"@.len() == 11 && "surface_alt"@[0] == 's' && "surface_alt"@[10] == 't');
    assert("primary"@.len() == 7 && "primary"@[0] == 'p' && "primary"@[6] == 'y');
    assert("secondary"@.len() == 9 && "secondary"@[0] == 's' && "secondary"@[8] == 'y');
    assert("accent"@.len() == 6 && "accent"@[0] == 'a' && "accent"@[5] == 't');
    assert("text"@.len() == 4 && "text"@[0] == 't' && "text"@[3] == 't');
    assert("text_dim"@.len() == 8 && "text_dim"@[0] == 't' && "text_dim"@[7] == 'm');
    assert("text_bright"@.len() == 11 && "text_bright"@[0] == 't' && "text_bright"@[10] == 't');
    assert("success"@.len() == 7 && "success"@[0] == 's' && "success"@[6] == 's');
    assert("warning"@.len() == 7 && "warning"@[0] == 'w' && "warning"@[6] == 'g');
    assert("error"@.len() == 5 && "error"@[0] == 'e' && "error"@[4] == 'r');
    assert("progress"@.len() == 8 && "progress"@[0] == 'p' && "progress"@[7] == 's');
    assert("progress_bg"@.len() == 11 && "progress_bg"@[0] == 'p' && "progress_bg"@[10] == 'g');
    assert("border"@.len() == 6 && "border"@[0] == 'b' && "border"@[5] == 'r');
    assert("highlight"@.len() == 9 && "highlight"@[0] == 'h' && "highlight"@[8] == 't');
    assert("highlight_bg"@.len() == 12 && "highlight_bg"@[0] == 'h' && "highlight_bg"@[11] == 'g');
}

/// `t` with the colour called `key` set to `c`; an unknown name changes nothing.
pub open spec fn with_color(t: OpalineTheme, key: Seq<char>, c: Rgb) -> OpalineTheme {
    if key == "bg"@ {
        OpalineTheme { bg: c, ..t }
    } else if key == "surface"@ {
        OpalineTheme { surface: c, ..t }
    } else if key == "surface_alt"@ {
        OpalineTheme { surface_alt: c, ..t }
    } else if key == "primary"@ {
        OpalineTheme { primary: c, ..t }
    } else if key == "secondary"@ {
        OpalineTheme { secondary: c, ..t }
    } else if key == "accent"@ {
        OpalineTheme { accent: c, ..t }
    } else if key == "text"@ {
        OpalineTheme { text: c, ..t }
    } else if key == "text_dim"@ {
        OpalineTheme { text_dim: c, ..t }
    } else if key == "text_bright"@ {
        OpalineTheme { text_bright: c, ..t }
    } else if key == "success"@ {
        OpalineTheme { success: c, ..t }
    } else if key == "warning"@ {
        OpalineTheme { warning: c, ..t }
    } else if key == "error"@ {
        OpalineTheme { error: c, ..t }
    } else if key == "progress"@ {
        OpalineTheme { progress: c, ..t }
    } else if key == "progress_bg"@ {
        OpalineTheme { progress_bg: c, ..t }
    } else if key == "border"@ {
        OpalineTheme { border: c, ..t }
    } else if key == "highlight"@ {
        OpalineTheme { highlight: c, ..t }
    } else if key == "highlight_bg"@ {
        OpalineTheme { highlight_bg: c, ..t }
    } else {
        t
    }
}

/// Exec form of `with_color`.
fn set_color(t: &mut OpalineTheme, key: &str, c: Rgb)
    ensures
        *final(t) == with_color(*old(t), key@, c),
{
    let k = chars_of(key);
    if chars_eq_str(&k, "bg") {
        t.bg = c;
    } else if chars_eq_str(&k, "surface") {
        t.surface = c;
    } else if chars_eq_str(&k, "surface_alt") {
        t.surface_alt = c;
    } else if chars_eq_str(&k, "primary") {
        t.primary = c;
    } else if chars_eq_str(&k, "secondary") {
        t.secondary = c;
    } else if chars_eq_str(&k, "accent") {
        t.accent = c;
    } else if chars_eq_str(&k, "text") {
        t.text = c;
    } else if chars_eq_str(&k, "text_dim") {
        t.text_dim = c;
    } else if chars_eq_str(&k, "text_bright") {
        t.text_bright = c;
    } else if chars_eq_str(&k, "success") {
        t.success = c;
    } else if chars_eq_str(&k, "warning") {
        t.warning = c;
    } else if chars_eq_str(&k, "error") {
        t.error = c;
    } else if chars_eq_str(&k, "progress") {
        t.progress = c;
    } else if chars_eq_str(&k, "progress_bg") {
        t.progress_bg = c;
    } else if chars_eq_str(&k, "border") {
        t.border = c;
    } else if chars_eq_str(&k, "highlight") {
        t.highlight = c;
    } else if chars_eq_str(&k, "highlight_bg") {
        t.highlight_bg = c;
    }
}


// ───────────────────────── colour text ─────────────────────────

/// The value of a hexadecimal digit.
pub open spec fn hex_value(c: char) -> Option<int> {
    let u = c as u32;
    if 48 <= u <= 57 {
        Some(u - 48)
    } else if 97 <= u <= 102 {
        Some(u - 87)
    } else if 65 <= u <= 70 {
        Some(u - 55)
    } else {
        None
    }
}

/// `u8::from_str_radix` on the two-character text `a b` in base 16: two
/// hexadecimal digits, or a `+` sign and one digit.
pub open spec fn hex_pair(a: char, b: char) -> Option<int> {
    if a == '+' {
        hex_value(b)
    } else {
        match (hex_value(a), hex_value(b)) {
            (Some(x), Some(y)) => Some(16 * x + y),
            _ => None,
        }
    }
}

/// The number of bytes `c` takes in UTF-8.
pub open spec fn utf8_width(c: char) -> int {
    let u = c as u32;
    if u < 0x80 {
        1
    } else if u < 0x800 {
        2
    } else if u < 0x10000 {
        3
    } else {
        4
    }
}

/// The number of bytes `s` takes in UTF-8.
pub open spec fn byte_len(s: Seq<char>) -> int
    decreases s.len(),
{
    if s.len() == 0 {
        0
    } else {
        byte_len(s.drop_last()) + utf8_width(s.last())
    }
}

/// Byte offset `b` falls between two characters of `s`.
pub open spec fn is_boundary(s: Seq<char>, b: int) -> bool {
    exists|k: int| 0 <= k <= s.len() && #[trigger] byte_len(s.take(k)) == b
}

/// `s` without its leading `#` characters.
pub open spec fn strip_hashes(s: Seq<char>) -> Seq<char>
    decreases s.len(),
{
    if s.len() > 0 && s[0] == '#' {
        strip_hashes(s.drop_first())
    } else {
        s
    }
}

/// The digits of a colour text: trimmed, without leading `#`.
pub open spec fn color_digits(s: Seq<char>) -> Seq<char> {
    strip_hashes(trim(s))
}

/// A colour text that can be split into its three two-byte parts: the split
/// falls between characters, or the digits are not six bytes long.
pub open spec fn color_text_ok(s: Seq<char>) -> bool {
    let u = color_digits(s);
    byte_len(u) != 6 || (is_boundary(u, 2) && is_boundary(u, 4))
}

/// The colour a text denotes: six bytes of digits, read as three
/// hexadecimal bytes.
pub open spec fn color_of(s: Seq<char>) -> Option<Rgb> {
    let u = color_digits(s);
    if u.len() == 6 && byte_len(u) == 6 {
        match (hex_pair(u[0], u[1]), hex_pair(u[2], u[3]), hex_pair(u[4], u[5])) {
            (Some(r), Some(g), Some(b)) => Some(rgb(r as u8, g as u8, b as u8)),
            _ => None,
        }
    } else {
        None
    }
}

/// Byte lengths of prefixes grow with the prefix.
proof fn lemma_byte_len_prefix(s: Seq<char>, i: int, j: int)
    requires
        0 <= i <= j <= s.len(),
    ensures
        byte_len(s.take(i)) <= byte_len(s.take(j)),
    decreases j - i,
{
    if i < j {
        lemma_byte_len_prefix(s, i, j - 1);
        assert(s.take(j).drop_last() =~= s.take(j - 1));
    }
}

/// Exec form of `utf8_width`.
fn char_width(c: char) -> (w: usize)
    ensures
        w == utf8_width(c),
{
    let u = c as u32;
    if u < 0x80 {
        1
    } else if u < 0x800 {
        2
    } else if u < 0x10000 {
        3
    } else {
        4
    }
}

/// Exec form of `hex_value`.
fn hex_digit(c: char) -> (r: Option<u8>)
    ensures
        r matches Some(v) ==> hex_value(c) == Some(v as int),
        r is None ==> hex_value(c) is None,
{
    let u = c as u32;
    if 48 <= u && u <= 57 {
        Some((u - 48) as u8)
    } else if 97 <= u && u <= 102 {
        Some((u - 87) as u8)
    } else if 65 <= u && u <= 70 {
        Some((u - 55) as u8)
    } else {
        None
    }
}

/// Exec form of `hex_pair`.
fn read_hex_pair(a: char, b: char) -> (r: Option<u8>)
    ensures
        r matches Some(v) ==> hex_pair(a, b) == Some(v as int),
        r is None ==> hex_pair(a, b) is None,
{
    if a == '+' {
        return hex_digit(b);
    }
    match (hex_digit(a), hex_digit(b)) {
        (Some(x), Some(y)) => Some(16 * x + y),
        _ => None,
    }
}

/// The colour digits of `s`, as characters.
fn digits_of(s: &str) -> (r: Vec<char>)
    ensures
        r@ == color_digits(s@),
{
    let chars = chars_of(s);
    let t = trim_chars(&chars);
    let n = t.len();
    let mut i: usize = 0;
    assert(t@.subrange(0, n as int) =~= t@);
    while i < n && t[i] == '#'
        invariant
            i <= n == t.len(),
            strip_hashes(t@) == strip_hashes(t@.subrange(i as int, n as int)),
        decreases n - i,
    {
        assert(t@.subrange(i as int, n as int).drop_first() =~= t@.subrange(i + 1, n as int));
        i = i + 1;
    }
    copy_range(&t, i, n)
}

/// `byte_len(s)` when it is at most `limit`; otherwise some number above `limit`.
fn bytes_up_to(s: &Vec<char>, limit: usize) -> (r: usize)
    requires
        limit <= 1000,
    ensures
        r <= limit ==> r == byte_len(s@),
        r > limit ==> byte_len(s@) > limit,
{
    let n = s.len();
    let mut acc: usize = 0;
    let mut i: usize = 0;
    while i < n
        invariant
            i <= n == s.len(),
            limit <= 1000,
            acc <= limit,
            acc == byte_len(s@.take(i as int)),
        decreases n - i,
    {
        assert(s@.take(i + 1).drop_last() =~= s@.take(i as int));
        acc = acc + char_width(s[i]);
        i = i + 1;
        if acc > limit {
            proof {
                lemma_byte_len_prefix(s@, i as int, n as int);
                assert(s@.take(n as int) =~= s@);
            }
            return acc;
        }
    }
    assert(s@.take(n as int) =~= s@);
    acc
}

/// Whether byte offset `b` falls between two characters of `s`.
fn boundary_at(s: &Vec<char>, b: usize) -> (r: bool)
    ensures
        r == is_boundary(s@, b as int),
{
    let n = s.len();
    let mut acc: usize = 0;
    let mut i: usize = 0;
    assert(s@.take(0) =~= Seq::<char>::empty());
    while i < n
        invariant
            i <= n == s.len(),
            acc == byte_len(s@.take(i as int)),
            acc <= b,
            forall|k: int| 0 <= k < i ==> #[trigger] byte_len(s@.take(k)) != b,
        decreases n - i,
    {
        if acc == b {
            return true;
        }
        assert(s@.take(i + 1).drop_last() =~= s@.take(i as int));
        let w = char_width(s[i]);
        if w > b - acc {
            proof {
                assert forall|k: int| 0 <= k <= n implies #[trigger] byte_len(s@.take(k)) != b by {
                    if k > i {
                        lemma_byte_len_prefix(s@, i + 1, k);
                    }
                }
            }
            return false;
        }
        acc = acc + w;
        i = i + 1;
    }
    acc == b
}

/// Whether `s` can be read as a colour without splitting a character.
pub fn color_text_safe(s: &str) -> (r: bool)
    ensures
        r == color_text_ok(s@),
{
    let u = digits_of(s);
    if bytes_up_to(&u, 6) != 6 {
        return true;
    }
    boundary_at(&u, 2) && boundary_at(&u, 4)
}

/// Reads a colour written as six hexadecimal digits, with leading `#`s and
/// surrounding white space allowed.
pub fn parse_color(s: &str) -> (r: Option<Rgb>)
    requires
        color_text_ok(s@),
    ensures
        r == color_of(s@),
{
    let u = digits_of(s);
    if u.len() != 6 {
        return None;
    }
    if bytes_up_to(&u, 6) != 6 {
        return None;
    }
    match (read_hex_pair(u[0], u[1]), read_hex_pair(u[2], u[3]), read_hex_pair(u[4], u[5])) {
        (Some(r), Some(g), Some(b)) => Some(Rgb { r, g, b }),
        _ => None,
    }
}

// ───────────────────────── presets and overrides ─────────────────────────

/// The palette of preset `preset` (any case), or the default palette.
pub open spec fn base_palette(preset: Seq<char>) -> OpalineTheme {
    match preset_named(lowercase(preset)) {
        Some(t) => t,
        None => opaline_palette(),
    }
}

/// `t` with the overrides applied in order: each entry names a colour and
/// gives its text; entries whose text is no colour are skipped.
pub open spec fn apply_overrides(t: OpalineTheme, ov: Seq<(String, String)>) -> OpalineTheme
    decreases ov.len(),
{
    if ov.len() == 0 {
        t
    } else {
        let before = apply_overrides(t, ov.drop_last());
        match color_of(ov.last().1@) {
            Some(c) => with_color(before, ov.last().0@, c),
            None => before,
        }
    }
}

/// Every override's text can be read without splitting a character.
pub open spec fn overrides_ok(ov: Seq<(String, String)>) -> bool {
    forall|i: int| 0 <= i < ov.len() ==> #[trigger] color_text_ok(ov[i].1@)
}

/// Whether every override's text can be read without splitting a character.
pub fn overrides_safe(ov: &Vec<(String, String)>) -> (r: bool)
    ensures
        r == overrides_ok(ov@),
{
    let mut i: usize = 0;
    while i < ov.len()
        invariant
            i <= ov.len(),
            forall|k: int| 0 <= k < i ==> #[trigger] color_text_ok(ov@[k].1@),
        decreases ov.len() - i,
    {
        if !color_text_safe(ov[i].1.as_str()) {
            return false;
        }
        i = i + 1;
    }
    true
}

impl OpalineTheme {
    /// The `opaline` palette.
    pub fn opaline() -> (t: OpalineTheme)
        ensures
            t == opaline_palette(),
    {
        OpalineTheme {
            bg: Rgb { r: 0x1a, g: 0x1b, b: 0x26 },
            surface: Rgb { r: 0x24, g: 0x28, b: 0x3b },
            surface_alt: Rgb { r: 0x2f, g: 0x33, b: 0x4d },
            primary: Rgb { r: 0xf0, g: 0xc0, b: 0xc0 },
            secondary: Rgb { r: 0xb4, g: 0xf9, b: 0xf8 },
            accent: Rgb { r: 0xcb, g: 0xc0, b: 0xff },
            text: Rgb { r: 0xc0, g: 0xca, b: 0xf5 },
            text_dim: Rgb { r: 0x56, g: 0x5f, b: 0x89 },
            text_bright: Rgb { r: 0xff, g: 0xff, b: 0xff },
            success: Rgb { r: 0x9e, g: 0xce, b: 0x6a },
            warning: Rgb { r: 0xe0, g: 0xaf, b: 0x68 },
            error: Rgb { r: 0xf7, g: 0x76, b: 0x8e },
            progress: Rgb { r: 0xf0, g: 0xc0, b: 0xc0 },
            progress_bg: Rgb { r: 0x41, g: 0x45, b: 0x68 },
            border: Rgb { r: 0x56, g: 0x5f, b: 0x89 },
            highlight: Rgb { r: 0xf0, g: 0xc0, b: 0xc0 },
            highlight_bg: Rgb { r: 0x36, g: 0x3b, b: 0x54 },
        }
    }

    /// The `catppuccin` palette.
    pub fn catppuccin() -> (t: OpalineTheme)
        ensures
            t == catppuccin_palette(),
    {
        OpalineTheme {
            bg: Rgb { r: 0x1e, g: 0x1e, b: 0x2e },
            surface: Rgb { r: 0x31, g: 0x32, b: 0x44 },
            surface_alt: Rgb { r: 0x45, g: 0x47, b: 0x5a },
            primary: Rgb { r: 0xf5, g: 0xc2, b: 0xe7 },
            secondary: Rgb { r: 0x89, g: 0xdc, b: 0xeb },
            accent: Rgb { r: 0xb4, g: 0xbe, b: 0xfe },
            text: Rgb { r: 0xcd, g: 0xd6, b: 0xf4 },
            text_dim: Rgb { r: 0x6c, g: 0x70, b: 0x86 },
            text_bright: Rgb { r: 0xff, g: 0xff, b: 0xff },
            success: Rgb { r: 0xa6, g: 0xe3, b: 0xa1 },
            warning: Rgb { r: 0xf9, g: 0xe2, b: 0xaf },
            error: Rgb { r: 0xf3, g: 0x8b, b: 0xa8 },
            progress: Rgb { r: 0xf5, g: 0xc2, b: 0xe7 },
            progress_bg: Rgb { r: 0x45, g: 0x47, b: 0x5a },
            border: Rgb { r: 0x6c, g: 0x70, b: 0x86 },
            highlight: Rgb { r: 0xf5, g: 0xc2, b: 0xe7 },
            highlight_bg: Rgb { r: 0x45, g: 0x47, b: 0x5a },
        }
    }

    /// The `nord` palette.
    pub fn nord() -> (t: OpalineTheme)
        ensures
            t == nord_palette(),
    {
        OpalineTheme {
            bg: Rgb { r: 0x2e, g: 0x34, b: 0x40 },
            surface: Rgb { r: 0x3b, g: 0x42, b: 0x52 },
            surface_alt: Rgb { r: 0x43, g: 0x4c, b: 0x5e },
            primary: Rgb { r: 0x88, g: 0xc0, b: 0xd0 },
            secondary: Rgb { r: 0x81, g: 0xa1, b: 0xc1 },
            accent: Rgb { r: 0xb4, g: 0x8e, b: 0xad },
            text: Rgb { r: 0xe5, g: 0xe9, b: 0xf0 },
            text_dim: Rgb { r: 0x4c, g: 0x56, b: 0x6a },
            text_bright: Rgb { r: 0xec, g: 0xef, b: 0xf4 },
            success: Rgb { r: 0xa3, g: 0xbe, b: 0x8c },
            warning: Rgb { r: 0xeb, g: 0xcb, b: 0x8b },
            error: Rgb { r: 0xbf, g: 0x61, b: 0x6a },
            progress: Rgb { r: 0x88, g: 0xc0, b: 0xd0 },
            progress_bg: Rgb { r: 0x4c, g: 0x56, b: 0x6a },
            border: Rgb { r: 0x4c, g: 0x56, b: 0x6a },
            highlight: Rgb { r: 0x88, g: 0xc0, b: 0xd0 },
            highlight_bg: Rgb { r: 0x3b, g: 0x42, b: 0x52 },
        }
    }

    /// The `dracula` palette.
    pub fn dracula() -> (t: OpalineTheme)
        ensures
            t == dracula_palette(),
    {
        OpalineTheme {
            bg: Rgb { r: 0x28, g: 0x2a, b: 0x36 },
            surface: Rgb { r: 0x34, g: 0x36, b: 0x46 },
            surface_alt: Rgb { r: 0x44, g: 0x47, b: 0x5a },
            primary: Rgb { r: 0xbd, g: 0x93, b: 0xf9 },
            secondary: Rgb { r: 0x8b, g: 0xe9, b: 0xfd },
            accent: Rgb { r: 0xff, g: 0x79, b: 0xc6 },
            text: Rgb { r: 0xf8, g: 0xf8, b: 0xf2 },
            text_dim: Rgb { r: 0x62, g: 0x72, b: 0xa4 },
            text_bright: Rgb { r: 0xff, g: 0xff, b: 0xff },
            success: Rgb { r: 0x50, g: 0xfa, b: 0x7b },
            warning: Rgb { r: 0xf1, g: 0xfa, b: 0x8c },
            error: Rgb { r: 0xff, g: 0x55, b: 0x55 },
            progress: Rgb { r: 0xbd, g: 0x93, b: 0xf9 },
            progress_bg: Rgb { r: 0x44, g: 0x47, b: 0x5a },
            border: Rgb { r: 0x62, g: 0x72, b: 0xa4 },
            highlight: Rgb { r: 0xbd, g: 0x93, b: 0xf9 },
            highlight_bg: Rgb { r: 0x34, g: 0x36, b: 0x46 },
        }
    }

    /// The `one_dark` palette.
    pub fn one_dark() -> (t: OpalineTheme)
        ensures
            t == one_dark_palette(),
    {
        OpalineTheme {
            bg: Rgb { r: 0x28, g: 0x2c, b: 0x34 },
            surface: Rgb { r: 0x33, g: 0x38, b: 0x42 },
            surface_alt: Rgb { r: 0x3e, g: 0x44, b: 0x51 },
            primary: Rgb { r: 0xe0, g: 0x6c, b: 0x75 },
            secondary: Rgb { r: 0x61, g: 0xaf, b: 0xef },
            accent: Rgb { r: 0xc6, g: 0x78, b: 0xdd },
            text: Rgb { r: 0xab, g: 0xb2, b: 0xbf },
            text_dim: Rgb { r: 0x5c, g: 0x63, b: 0x6a },
            text_bright: Rgb { r: 0xff, g: 0xff, b: 0xff },
            success: Rgb { r: 0x98, g: 0xc3, b: 0x79 },
            warning: Rgb { r: 0xe5, g: 0xc0, b: 0x7b },
            error: Rgb { r: 0xe0, g: 0x6c, b: 0x75 },
            progress: Rgb { r: 0x61, g: 0xaf, b: 0xef },
            progress_bg: Rgb { r: 0x3e, g: 0x44, b: 0x51 },
            border: Rgb { r: 0x5c, g: 0x63, b: 0x6a },
            highlight: Rgb { r: 0x61, g: 0xaf, b: 0xef },
            highlight_bg: Rgb { r: 0x2c, g: 0x32, b: 0x3c },
        }
    }

    /// The palette called `name`, in any case.
    pub fn from_preset(name: &str) -> (r: Option<OpalineTheme>)
        ensures
            r == preset_named(lowercase(name@)),
    {
        let n = chars_of(name);
        let low = to_lowercase(&n);
        if chars_eq_str(&low, "opaline") {
            Some(Self::opaline())
        } else if chars_eq_str(&low, "catppuccin") {
            Some(Self::catppuccin())
        } else if chars_eq_str(&low, "nord") {
            Some(Self::nord())
        } else if chars_eq_str(&low, "dracula") {
            Some(Self::dracula())
        } else if chars_eq_str(&low, "one_dark") {
            Some(Self::one_dark())
        } else {
            None
        }
    }

    /// The names of the presets.
    pub fn preset_names() -> (r: Vec<&'static str>)
        ensures
            r@.len() == preset_list().len(),
            forall|i: int| 0 <= i < r@.len() ==> #[trigger] r@[i]@ == preset_list()[i],
    {
        let r = vec!["opaline", "catppuccin", "nord", "dracula", "one_dark"];
        r
    }

    /// The palette of `preset` (the default palette for an unknown name)
    /// with `overrides` applied.
    pub fn from_config(preset: &str, overrides: &Vec<(String, String)>) -> (r: OpalineTheme)
        requires
            overrides_ok(overrides@),
        ensures
            r == apply_overrides(base_palette(preset@), overrides@),
    {
        let mut theme = match Self::from_preset(preset) {
            Some(t) => t,
            None => Self::opaline(),
        };
        let ghost base = theme;
        let mut i: usize = 0;
        assert(overrides@.take(0) =~= Seq::<(String, String)>::empty());
        while i < overrides.len()
            invariant
                i <= overrides.len(),
                overrides_ok(overrides@),
                base == base_palette(preset@),
                theme == apply_overrides(base, overrides@.take(i as int)),
            decreases overrides.len() - i,
        {
            assert(overrides@.take(i + 1).drop_last() =~= overrides@.take(i as int));
            assert(color_text_ok(overrides@[i as int].1@));
            let (key, val) = &overrides[i];
            match parse_color(val.as_str()) {
                Some(c) => set_color(&mut theme, key.as_str(), c),
                None => {},
            }
            i = i + 1;
        }
        assert(overrides@.take(overrides@.len() as int) =~= overrides@);
        theme
    }
}

impl Default for OpalineTheme {
    /// The default palette.
    fn default() -> (r: OpalineTheme)
        ensures
            r == opaline_palette(),
    {
        OpalineTheme::opaline()
    }
}

// ───────────────────────── laws ─────────────────────────

/// An unknown preset name gives the default palette.
pub proof fn law_unknown_preset(preset: Seq<char>)
    requires
        preset_named(lowercase(preset)) is None,
    ensures
        base_palette(preset) == opaline_palette(),
{
}

/// Setting a colour twice keeps the second.
pub proof fn law_last_color_wins(t: OpalineTheme, key: Seq<char>, c1: Rgb, c2: Rgb)
    ensures
        with_color(with_color(t, key, c1), key, c2) == with_color(t, key, c2),
{
}

/// Of two overrides for the same colour, the later one wins.
pub proof fn law_later_override_wins(
    t: OpalineTheme,
    ov: Seq<(String, String)>,
    first: (String, String),
    second: (String, String),
)
    requires
        first.0@ == second.0@,
        color_of(first.1@) is Some,
        color_of(second.1@) is Some,
    ensures
        apply_overrides(t, ov.push(first).push(second)) == apply_overrides(t, ov.push(second)),
{
    let a = ov.push(first).push(second);
    let b = ov.push(second);
    assert(a.drop_last() =~= ov.push(first));
    assert(ov.push(first).drop_last() =~= ov);
    assert(b.drop_last() =~= ov);
    let base = apply_overrides(t, ov);
    let c1 = color_of(first.1@)->0;
    let c2 = color_of(second.1@)->0;
    assert(a.last() == second);
    assert(ov.push(first).last() == first);
    assert(b.last() == second);
    assert(apply_overrides(t, ov.push(first)) == with_color(base, first.0@, c1));
    assert(apply_overrides(t, a) == with_color(apply_overrides(t, ov.push(first)), second.0@, c2));
    assert(apply_overrides(t, b) == with_color(base, second.0@, c2));
    law_last_color_wins(base, second.0@, c1, c2);
}

/// Colours that no override names keep their preset value.
pub proof fn law_unnamed_colors_kept(t: OpalineTheme, ov: Seq<(String, String)>)
    requires
        forall|i: int| 0 <= i < ov.len() ==> #[trigger] ov[i].0@ != "bg"@,
    ensures
        apply_overrides(t, ov).bg == t.bg,
    decreases ov.len(),
{
    if ov.len() > 0 {
        law_unnamed_colors_kept(t, ov.drop_last());
        assert(ov[ov.len() - 1].0@ != "bg"@);
    }
}

} // verus!
