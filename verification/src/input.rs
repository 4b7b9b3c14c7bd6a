//! Key bindings: actions, key patterns and the table that maps one to the other.
use vstd::prelude::*;
use crate::text::{chars_of, extend_str, push_decimal, decimal, string_of};

verus! {

/// Everything a key can ask the player to do.
#[derive(Clone, Copy, PartialEq, Eq, Debug, Hash, Structural)]
pub enum Action {
    Quit,
    PlayPause,
    PlaySelected,
    Stop,
    NextTrack,
    PrevTrack,
    SeekForward,
    SeekBackward,
    VolumeUp,
    VolumeDown,
    Mute,
    FocusSearch,
    ToggleShuffle,
    ToggleRepeat,
    AddToQueue,
    RemoveFromQueue,
    AddToPlaylist,
    CreatePlaylist,
    SavePlaylist,
    LoadPlaylist,
    ClearQueue,
    SwitchPanel,
    ToggleHelp,
    MoveUp,
    MoveDown,
    MoveLeft,
    MoveRight,
    PageUp,
    PageDown,
    Home,
    End,
    ExpandDir,
    CollapseDir,
    RefreshLibrary,
    SelectTab1,
    SelectTab2,
    SelectTab3,
    SelectTab4,
}

/// The help text of an action.
pub open spec fn action_description(a: Action) -> Seq<char> {
    match a {
        Action::Quit => "Quit"@,
        Action::PlayPause => "Play/Pause"@,
        Action::PlaySelected => "Play selected track"@,
        Action::Stop => "Stop playback"@,
        Action::NextTrack => "Next track"@,
        Action::PrevTrack => "Previous track"@,
        Action::SeekForward => "Seek forward 5s"@,
        Action::SeekBackward => "Seek backward 5s"@,
        Action::VolumeUp => "Volume up"@,
        Action::VolumeDown => "Volume down"@,
        Action::Mute => "Toggle mute"@,
        Action::FocusSearch => "Focus search"@,
        Action::ToggleShuffle => "Toggle shuffle"@,
        Action::ToggleRepeat => "Toggle repeat mode"@,
        Action::AddToQueue => "Add to queue"@,
        Action::RemoveFromQueue => "Remove from queue"@,
        Action::AddToPlaylist => "Add to playlist"@,
        Action::CreatePlaylist => "Create new playlist"@,
        Action::SavePlaylist => "Save playlist"@,
        Action::LoadPlaylist => "Load playlist"@,
        Action::ClearQueue => "Clear queue"@,
        Action::SwitchPanel => "Switch focus"@,
        Action::ToggleHelp => "Toggle help"@,
        Action::MoveUp => "Move up"@,
        Action::MoveDown => "Move down"@,
        Action::MoveLeft => "Move left"@,
        Action::MoveRight => "Move right"@,
        Action::PageUp => "Page up"@,
        Action::PageDown => "Page down"@,
        Action::Home => "Go to start"@,
        Action::End => "Go to end"@,
        Action::ExpandDir => "Expand directory"@,
        Action::CollapseDir => "Collapse directory"@,
        Action::RefreshLibrary => "Refresh library"@,
        Action::SelectTab1 => "Library tab"@,
        Action::SelectTab2 => "Playlists tab"@,
        Action::SelectTab3 => "Queue tab"@,
        Action::SelectTab4 => "Now Playing tab"@,
    }
}

/// The length, first and last character of a text: enough to tell the
/// actions' descriptions apart.
pub open spec fn text_key(t: Seq<char>) -> (int, char, char) {
    (t.len() as int, t[0], t[t.len() - 1])
}

/// The action whose description has key `k`, if any.
pub open spec fn action_with_key(k: (int, char, char)) -> Option<Action> {
    if k == (4int, 'Q', 't') {
        Some(Action::Quit)
    } else if k == (10int, 'P', 'e') {
        Some(Action::PlayPause)
    } else if k == (19int, 'P', 'k') {
        Some(Action::PlaySelected)
    } else if k == (13int, 'S', 'k') {
        Some(Action::Stop)
    } else if k == (10int, 'N', 'k') {
        Some(Action::NextTrack)
    } else if k == (14int, 'P', 'k') {
        Some(Action::PrevTrack)
    } else if k == (15int, 'S', 's') {
        Some(Action::SeekForward)
    } else if k == (16int, 'S', 's') {
        Some(Action::SeekBackward)
    } else if k == (9int, 'V', 'p') {
        Some(Action::VolumeUp)
    } else if k == (11int, 'V', 'n') {
        Some(Action::VolumeDown)
    } else if k == (11int, 'T', 'e') {
        Some(Action::Mute)
    } else if k == (12int, 'F', 'h') {
        Some(Action::FocusSearch)
    } else if k == (14int, 'T', 'e') {
        Some(Action::ToggleShuffle)
    } else if k == (18int, 'T', 'e') {
        Some(Action::ToggleRepeat)
    } else if k == (12int, 'A', 'e') {
        Some(Action::AddToQueue)
    } else if k == (17int, 'R', 'e') {
        Some(Action::RemoveFromQueue)
    } else if k == (15int, 'A', 't') {
        Some(Action::AddToPlaylist)
    } else if k == (19int, 'C', 't') {
        Some(Action::CreatePlaylist)
    } else if k == (13int, 'S', 't') {
        Some(Action::SavePlaylist)
    } else if k == (13int, 'L', 't') {
        Some(Action::LoadPlaylist)
    } else if k == (11int, 'C', 'e') {
        Some(Action::ClearQueue)
    } else if k == (12int, 'S', 's') {
        Some(Action::SwitchPanel)
    } else if k == (11int, 'T', 'p') {
        Some(Action::ToggleHelp)
    } else if k == (7int, 'M', 'p') {
        Some(Action::MoveUp)
    } else if k == (9int, 'M', 'n') {
        Some(Action::MoveDown)
    } else if k == (9int, 'M', 't') {
        Some(Action::MoveLeft)
    } else if k == (10int, 'M', 't') {
        Some(Action::MoveRight)
    } else if k == (7int, 'P', 'p') {
        Some(Action::PageUp)
    } else if k == (9int, 'P', 'n') {
        Some(Action::PageDown)
    } else if k == (11int, 'G', 't') {
        Some(Action::Home)
    } else if k == (9int, 'G', 'd') {
        Some(Action::End)
    } else if k == (16int, 'E', 'y') {
        Some(Action::ExpandDir)
    } else if k == (18int, 'C', 'y') {
        Some(Action::CollapseDir)
    } else if k == (15int, 'R', 'y') {
        Some(Action::RefreshLibrary)
    } else if k == (11int, 'L', 'b') {
        Some(Action::SelectTab1)
    } else if k == (13int, 'P', 'b') {
        Some(Action::SelectTab2)
    } else if k == (9int, 'Q', 'b') {
        Some(Action::SelectTab3)
    } else if k == (15int, 'N', 'b') {
        Some(Action::SelectTab4)
    } else {
        None
    }
}

/// Each description is not empty and its key leads back to its action.
proof fn lemma_description_key(a: Action)
    ensures
        action_description(a).len() > 0,
        action_with_key(text_key(action_description(a))) == Some(a),
{
    match a {
        Action::Quit => reveal_strlit("Quit"),
        Action::PlayPause => reveal_strlit("Play/Pause"),
        Action::PlaySelected => reveal_strlit("Play selected track"),
        Action::Stop => reveal_strlit("Stop playback"),
        Action::NextTrack => reveal_strlit("Next track"),
        Action::PrevTrack => reveal_strlit("Previous track"),
        Action::SeekForward => reveal_strlit("Seek forward 5s"),
        Action::SeekBackward => reveal_strlit("Seek backward 5s"),
        Action::VolumeUp => reveal_strlit("Volume up"),
        Action::VolumeDown => reveal_strlit("Volume down"),
        Action::Mute => reveal_strlit("Toggle mute"),
        Action::FocusSearch => reveal_strlit("Focus search"),
        Action::ToggleShuffle => reveal_strlit("Toggle shuffle"),
        Action::ToggleRepeat => reveal_strlit("Toggle repeat mode"),
        Action::AddToQueue => reveal_strlit("Add to queue"),
        Action::RemoveFromQueue => reveal_strlit("Remove from queue"),
        Action::AddToPlaylist => reveal_strlit("Add to playlist"),
        Action::CreatePlaylist => reveal_strlit("Create new playlist"),
        Action::SavePlaylist => reveal_strlit("Save playlist"),
        Action::LoadPlaylist => reveal_strlit("Load playlist"),
        Action::ClearQueue => reveal_strlit("Clear queue"),
        Action::SwitchPanel => reveal_strlit("Switch focus"),
        Action::ToggleHelp => reveal_strlit("Toggle help"),
        Action::MoveUp => reveal_strlit("Move up"),
        Action::MoveDown => reveal_strlit("Move down"),
        Action::MoveLeft => reveal_strlit("Move left"),
        Action::MoveRight => reveal_strlit("Move right"),
        Action::PageUp => reveal_strlit("Page up"),
        Action::PageDown => reveal_strlit("Page down"),
        Action::Home => reveal_strlit("Go to start"),
        Action::End => reveal_strlit("Go to end"),
        Action::ExpandDir => reveal_strlit("Expand directory"),
        Action::CollapseDir => reveal_strlit("Collapse directory"),
        Action::RefreshLibrary => reveal_strlit("Refresh library"),
        Action::SelectTab1 => reveal_strlit("Library tab"),
        Action::SelectTab2 => reveal_strlit("Playlists tab"),
        Action::SelectTab3 => reveal_strlit("Queue tab"),
        Action::SelectTab4 => reveal_strlit("Now Playing tab"),
    }
}

/// Every action's description is non-empty, and no two actions share one.
pub proof fn law_descriptions_distinct(a: Action, b: Action)
    ensures
        action_description(a).len() > 0,
        a != b ==> action_description(a) != action_description(b),
{
    lemma_description_key(a);
    lemma_description_key(b);
}

impl Action {
    /// A short description of the action, as shown in the help.
    pub fn description(self) -> (r: &'static str)
        ensures
            r@ == action_description(self),
    {
        match self {
            Action::Quit => "Quit",
            Action::PlayPause => "Play/Pause",
            Action::PlaySelected => "Play selected track",
            Action::Stop => "Stop playback",
            Action::NextTrack => "Next track",
            Action::PrevTrack => "Previous track",
            Action::SeekForward => "Seek forward 5s",
            Action::SeekBackward => "Seek backward 5s",
            Action::VolumeUp => "Volume up",
            Action::VolumeDown => "Volume down",
            Action::Mute => "Toggle mute",
            Action::FocusSearch => "Focus search",
            Action::ToggleShuffle => "Toggle shuffle",
            Action::ToggleRepeat => "Toggle repeat mode",
            Action::AddToQueue => "Add to queue",
            Action::RemoveFromQueue => "Remove from queue",
            Action::AddToPlaylist => "Add to playlist",
            Action::CreatePlaylist => "Create new playlist",
            Action::SavePlaylist => "Save playlist",
            Action::LoadPlaylist => "Load playlist",
            Action::ClearQueue => "Clear queue",
            Action::SwitchPanel => "Switch focus",
            Action::ToggleHelp => "Toggle help",
            Action::MoveUp => "Move up",
            Action::MoveDown => "Move down",
            Action::MoveLeft => "Move left",
            Action::MoveRight => "Move right",
            Action::PageUp => "Page up",
            Action::PageDown => "Page down",
            Action::Home => "Go to start",
            Action::End => "Go to end",
            Action::ExpandDir => "Expand directory",
            Action::CollapseDir => "Collapse directory",
            Action::RefreshLibrary => "Refresh library",
            Action::SelectTab1 => "Library tab",
            Action::SelectTab2 => "Playlists tab",
            Action::SelectTab3 => "Queue tab",
            Action::SelectTab4 => "Now Playing tab",
        }
    }
}

/// A key, as the terminal reports it.
#[derive(Clone, Copy, PartialEq, Eq, Debug, Hash, Structural)]
pub enum KeyCode {
    Char(char),
    Enter,
    Tab,
    BackTab,
    Esc,
    Backspace,
    Up,
    Down,
    Left,
    Right,
    Home,
    End,
    PageUp,
    PageDown,
    F(u8),
    Null,
    /// Any other key.
    Other,
}

/// Modifier keys held with a key.
#[derive(Clone, Copy, PartialEq, Eq, Debug, Hash, Structural)]
pub struct KeyModifiers {
    pub shift: bool,
    pub control: bool,
    pub alt: bool,
    pub super_key: bool,
    pub hyper: bool,
    pub meta: bool,
}

/// No modifier.
pub open spec fn mods_none() -> KeyModifiers {
    KeyModifiers { shift: false, control: false, alt: false, super_key: false, hyper: false, meta: false }
}

/// Shift alone.
pub open spec fn mods_shift() -> KeyModifiers {
    KeyModifiers { shift: true, ..mods_none() }
}

/// Control alone.
pub open spec fn mods_control() -> KeyModifiers {
    KeyModifiers { control: true, ..mods_none() }
}

impl KeyModifiers {
    /// No modifier.
    pub fn none() -> (r: KeyModifiers)
        ensures
            r == mods_none(),
    {
        KeyModifiers { shift: false, control: false, alt: false, super_key: false, hyper: false, meta: false }
    }

    /// Shift alone.
    pub fn shift_only() -> (r: KeyModifiers)
        ensures
            r == mods_shift(),
    {
        KeyModifiers { shift: true, control: false, alt: false, super_key: false, hyper: false, meta: false }
    }

    /// Control alone.
    pub fn control_only() -> (r: KeyModifiers)
        ensures
            r == mods_control(),
    {
        KeyModifiers { shift: false, control: true, alt: false, super_key: false, hyper: false, meta: false }
    }
}

/// Whether a key went down, repeats, or went up.
#[derive(Clone, Copy, PartialEq, Eq, Debug, Structural)]
pub enum KeyEventKind {
    Press,
    Repeat,
    Release,
}

/// A key event from the terminal.
#[derive(Clone, Copy, PartialEq, Eq, Debug, Structural)]
pub struct KeyEvent {
    pub code: KeyCode,
    pub modifiers: KeyModifiers,
    pub kind: KeyEventKind,
}

impl KeyEvent {
    /// Whether this is Ctrl+C (`is_ctrl_c`).
    pub fn is_ctrl_c(&self) -> (r: bool)
        ensures
            r == is_ctrl_c(*self),
    {
        let ctrl = KeyModifiers::control_only();
        (self.code == KeyCode::Char('c') || self.code == KeyCode::Char('C')) && self.modifiers == ctrl
    }
}

/// A key with its modifiers, as bound to an action.
#[derive(Clone, Copy, PartialEq, Eq, Debug, Hash, Structural)]
pub struct KeyPattern {
    pub code: KeyCode,
    pub modifiers: KeyModifiers,
}

/// The name of a key, without modifiers.
pub open spec fn key_name(code: KeyCode) -> Seq<char> {
    match code {
        KeyCode::Char(c) => seq![c],
        KeyCode::Enter => "Enter"@,
        KeyCode::Tab => "Tab"@,
        KeyCode::BackTab => "Shift+Tab"@,
        KeyCode::Esc => "Esc"@,
        KeyCode::Up => "\u{2191}"@,
        KeyCode::Down => "\u{2193}"@,
        KeyCode::Left => "\u{2190}"@,
        KeyCode::Right => "\u{2192}"@,
        KeyCode::Home => "Home"@,
        KeyCode::End => "End"@,
        KeyCode::PageUp => "PgUp"@,
        KeyCode::PageDown => "PgDn"@,
        KeyCode::F(n) => seq!['F'] + decimal(n as nat),
        KeyCode::Null => "Null"@,
        _ => "??"@,
    }
}

/// How a key pattern is written: `Ctrl+`, `Alt+`, `Shift+` prefixes, then the key.
pub open spec fn pattern_text(p: KeyPattern) -> Seq<char> {
    (if p.modifiers.control {
        "Ctrl+"@
    } else {
        seq![]
    }) + (if p.modifiers.alt {
        "Alt+"@
    } else {
        seq![]
    }) + (if p.modifiers.shift {
        "Shift+"@
    } else {
        seq![]
    }) + key_name(p.code)
}

/// Appends the name of `code` to `v`.
fn push_key_name(v: &mut Vec<char>, code: KeyCode)
    ensures
        final(v)@ == old(v)@ + key_name(code),
{
    match code {
        KeyCode::Char(c) => {
            v.push(c);
            assert(final(v)@ =~= old(v)@ + seq![c]) by {
            }
        },
        KeyCode::Enter => extend_str(v, "Enter"),
        KeyCode::Tab => extend_str(v, "Tab"),
        KeyCode::BackTab => extend_str(v, "Shift+Tab"),
        KeyCode::Esc => extend_str(v, "Esc"),
        KeyCode::Up => extend_str(v, "\u{2191}"),
        KeyCode::Down => extend_str(v, "\u{2193}"),
        KeyCode::Left => extend_str(v, "\u{2190}"),
        KeyCode::Right => extend_str(v, "\u{2192}"),
        KeyCode::Home => extend_str(v, "Home"),
        KeyCode::End => extend_str(v, "End"),
        KeyCode::PageUp => extend_str(v, "PgUp"),
        KeyCode::PageDown => extend_str(v, "PgDn"),
        KeyCode::F(n) => {
            v.push('F');
            let ghost mid = v@;
            push_decimal(v, n as u64);
            assert(v@ =~= old(v)@ + (seq!['F'] + decimal(n as nat)));
        },
        KeyCode::Null => extend_str(v, "Null"),
        _ => extend_str(v, "??"),
    }
}

impl KeyPattern {
    /// How the pattern is written in the help.
    pub fn to_display_string(&self) -> (r: String)
        ensures
            r@ == pattern_text(*self),
    {
        let mut v: Vec<char> = Vec::new();
        if self.modifiers.control {
            extend_str(&mut v, "Ctrl+");
        }
        let ghost a = v@;
        if self.modifiers.alt {
            extend_str(&mut v, "Alt+");
        }
        let ghost b = v@;
        if self.modifiers.shift {
            extend_str(&mut v, "Shift+");
        }
        let ghost c = v@;
        push_key_name(&mut v, self.code);
        assert(v@ =~= pattern_text(*self));
        string_of(&v)
    }
}

// ───────────────────────── the binding table ─────────────────────────

/// Index of the first binding of pattern `k`, or the length.
pub open spec fn key_index(s: Seq<(KeyPattern, Action)>, k: KeyPattern) -> nat
    decreases s.len(),
{
    if s.len() == 0 {
        0
    } else if s[0].0 == k {
        0
    } else {
        1 + key_index(s.drop_first(), k)
    }
}

/// The action bound to `k`: that of its first binding.
pub open spec fn lookup(s: Seq<(KeyPattern, Action)>, k: KeyPattern) -> Option<Action> {
    let i = key_index(s, k);
    if i < s.len() {
        Some(s[i as int].1)
    } else {
        None
    }
}

/// `key_index` is the first position of `k`, or the length.
pub proof fn lemma_key_index(s: Seq<(KeyPattern, Action)>, k: KeyPattern)
    ensures
        key_index(s, k) <= s.len(),
        forall|j: int| 0 <= j < key_index(s, k) ==> s[j].0 != k,
        key_index(s, k) < s.len() ==> s[key_index(s, k) as int].0 == k,
    decreases s.len(),
{
    if s.len() > 0 && s[0].0 != k {
        lemma_key_index(s.drop_first(), k);
        assert forall|j: int| 0 <= j < key_index(s, k) implies s[j].0 != k by {
            if j > 0 {
                assert(s[j] == s.drop_first()[j - 1]);
            }
        }
    }
}

/// The first position of `k` is `key_index`.
pub proof fn lemma_key_index_unique(s: Seq<(KeyPattern, Action)>, k: KeyPattern, i: int)
    requires
        0 <= i <= s.len(),
        forall|j: int| 0 <= j < i ==> s[j].0 != k,
        i < s.len() ==> s[i].0 == k,
    ensures
        key_index(s, k) == i,
{
    lemma_key_index(s, k);
    if (key_index(s, k) as int) < i {
        assert(s[key_index(s, k) as int].0 == k);
    }
    if (key_index(s, k) as int) > i {
        assert(s[i].0 == k);
    }
}

/// The action of a plain character key in the default table.
pub open spec fn default_char_action(c: char) -> Option<Action> {
    if c == ' ' {
        Some(Action::PlayPause)
    } else if c == 'n' {
        Some(Action::NextTrack)
    } else if c == 'p' {
        Some(Action::PrevTrack)
    } else if c == 's' {
        Some(Action::ToggleShuffle)
    } else if c == 'r' {
        Some(Action::ToggleRepeat)
    } else if c == 'm' {
        Some(Action::Mute)
    } else if c == '+' || c == '=' {
        Some(Action::VolumeUp)
    } else if c == '-' {
        Some(Action::VolumeDown)
    } else if c == 'a' {
        Some(Action::AddToQueue)
    } else if c == 'd' {
        Some(Action::RemoveFromQueue)
    } else if c == 'x' {
        Some(Action::ClearQueue)
    } else if c == 'A' {
        Some(Action::AddToPlaylist)
    } else if c == 'N' {
        Some(Action::CreatePlaylist)
    } else if c == '/' {
        Some(Action::FocusSearch)
    } else if c == '?' {
        Some(Action::ToggleHelp)
    } else if c == 'q' {
        Some(Action::Quit)
    } else if c == '1' {
        Some(Action::SelectTab1)
    } else if c == '2' {
        Some(Action::SelectTab2)
    } else if c == '3' {
        Some(Action::SelectTab3)
    } else if c == '4' {
        Some(Action::SelectTab4)
    } else {
        None
    }
}

/// The default key table: arrows seek left and right and move up and down,
/// page keys, Home and End navigate, Tab and Shift+BackTab switch panels,
/// Enter plays, Esc quits, and the character keys of the help. The capital
/// letters `A` and `N` act with or without the Shift modifier, since a
/// terminal reports a typed capital letter with Shift held.
pub open spec fn default_action(p: KeyPattern) -> Option<Action> {
    if p.modifiers == mods_none() {
        match p.code {
            KeyCode::Up => Some(Action::MoveUp),
            KeyCode::Down => Some(Action::MoveDown),
            KeyCode::Left => Some(Action::SeekBackward),
            KeyCode::Right => Some(Action::SeekForward),
            KeyCode::PageUp => Some(Action::PageUp),
            KeyCode::PageDown => Some(Action::PageDown),
            KeyCode::Home => Some(Action::Home),
            KeyCode::End => Some(Action::End),
            KeyCode::Tab => Some(Action::SwitchPanel),
            KeyCode::Enter => Some(Action::PlaySelected),
            KeyCode::Esc => Some(Action::Quit),
            KeyCode::Char(c) => default_char_action(c),
            _ => None,
        }
    } else if p.modifiers == mods_shift() {
        match p.code {
            KeyCode::BackTab => Some(Action::SwitchPanel),
            KeyCode::Char(c) => if c == 'A' {
                Some(Action::AddToPlaylist)
            } else if c == 'N' {
                Some(Action::CreatePlaylist)
            } else {
                None
            },
            _ => None,
        }
    } else {
        None
    }
}

/// Ctrl+C, in either case: the key that always quits.
pub open spec fn is_ctrl_c(event: KeyEvent) -> bool {
    &&& (event.code == KeyCode::Char('c') || event.code == KeyCode::Char('C'))
    &&& event.modifiers == mods_control()
}

/// The default keys of the help: arrows move and seek, the page keys page,
/// Home and End jump, Tab switches panels, Enter plays, Esc and `q` quit,
/// and each letter, sign and digit does what the help table says; other
/// keys, and letters with Ctrl, do nothing.
pub proof fn law_default_keys()
    ensures
        default_action(KeyPattern { code: KeyCode::Up, modifiers: mods_none() }) == Some(Action::MoveUp),
        default_action(KeyPattern { code: KeyCode::Down, modifiers: mods_none() }) == Some(Action::MoveDown),
        default_action(KeyPattern { code: KeyCode::Left, modifiers: mods_none() }) == Some(Action::SeekBackward),
        default_action(KeyPattern { code: KeyCode::Right, modifiers: mods_none() }) == Some(Action::SeekForward),
        default_action(KeyPattern { code: KeyCode::PageUp, modifiers: mods_none() }) == Some(Action::PageUp),
        default_action(KeyPattern { code: KeyCode::PageDown, modifiers: mods_none() }) == Some(Action::PageDown),
        default_action(KeyPattern { code: KeyCode::Home, modifiers: mods_none() }) == Some(Action::Home),
        default_action(KeyPattern { code: KeyCode::End, modifiers: mods_none() }) == Some(Action::End),
        default_action(KeyPattern { code: KeyCode::Tab, modifiers: mods_none() }) == Some(Action::SwitchPanel),
        default_action(KeyPattern { code: KeyCode::Enter, modifiers: mods_none() }) == Some(Action::PlaySelected),
        default_action(KeyPattern { code: KeyCode::Esc, modifiers: mods_none() }) == Some(Action::Quit),
        default_action(KeyPattern { code: KeyCode::Char(' '), modifiers: mods_none() }) == Some(Action::PlayPause),
        default_action(KeyPattern { code: KeyCode::Char('n'), modifiers: mods_none() }) == Some(Action::NextTrack),
        default_action(KeyPattern { code: KeyCode::Char('p'), modifiers: mods_none() }) == Some(Action::PrevTrack),
        default_action(KeyPattern { code: KeyCode::Char('s'), modifiers: mods_none() }) == Some(Action::ToggleShuffle),
        default_action(KeyPattern { code: KeyCode::Char('r'), modifiers: mods_none() }) == Some(Action::ToggleRepeat),
        default_action(KeyPattern { code: KeyCode::Char('m'), modifiers: mods_none() }) == Some(Action::Mute),
        default_action(KeyPattern { code: KeyCode::Char('+'), modifiers: mods_none() }) == Some(Action::VolumeUp),
        default_action(KeyPattern { code: KeyCode::Char('='), modifiers: mods_none() }) == Some(Action::VolumeUp),
        default_action(KeyPattern { code: KeyCode::Char('-'), modifiers: mods_none() }) == Some(Action::VolumeDown),
        default_action(KeyPattern { code: KeyCode::Char('a'), modifiers: mods_none() }) == Some(Action::AddToQueue),
        default_action(KeyPattern { code: KeyCode::Char('d'), modifiers: mods_none() }) == Some(Action::RemoveFromQueue),
        default_action(KeyPattern { code: KeyCode::Char('x'), modifiers: mods_none() }) == Some(Action::ClearQueue),
        default_action(KeyPattern { code: KeyCode::Char('A'), modifiers: mods_none() }) == Some(Action::AddToPlaylist),
        default_action(KeyPattern { code: KeyCode::Char('N'), modifiers: mods_none() }) == Some(Action::CreatePlaylist),
        default_action(KeyPattern { code: KeyCode::Char('/'), modifiers: mods_none() }) == Some(Action::FocusSearch),
        default_action(KeyPattern { code: KeyCode::Char('?'), modifiers: mods_none() }) == Some(Action::ToggleHelp),
        default_action(KeyPattern { code: KeyCode::Char('q'), modifiers: mods_none() }) == Some(Action::Quit),
        default_action(KeyPattern { code: KeyCode::Char('1'), modifiers: mods_none() }) == Some(Action::SelectTab1),
        default_action(KeyPattern { code: KeyCode::Char('2'), modifiers: mods_none() }) == Some(Action::SelectTab2),
        default_action(KeyPattern { code: KeyCode::Char('3'), modifiers: mods_none() }) == Some(Action::SelectTab3),
        default_action(KeyPattern { code: KeyCode::Char('4'), modifiers: mods_none() }) == Some(Action::SelectTab4),
        default_action(KeyPattern { code: KeyCode::BackTab, modifiers: mods_shift() }) == Some(Action::SwitchPanel),
        default_action(KeyPattern { code: KeyCode::Char('A'), modifiers: mods_shift() }) == Some(Action::AddToPlaylist),
        default_action(KeyPattern { code: KeyCode::Char('N'), modifiers: mods_shift() }) == Some(Action::CreatePlaylist),
        default_action(KeyPattern { code: KeyCode::Char('z'), modifiers: mods_none() }) is None,
        default_action(KeyPattern { code: KeyCode::Char('q'), modifiers: mods_control() }) is None,
{
}

/// The key table. A pattern bound twice acts by its first binding.
#[derive(Debug)]
pub struct Keybindings {
    pub bindings: Vec<(KeyPattern, Action)>,
}

/// The text of the always-present Ctrl+C help entry.
pub open spec fn ctrl_c_text() -> Seq<char> {
    "Ctrl+C"@
}

/// Whether `c` is bound to `a` in the table `s`.
pub open spec fn bound_to(s: Seq<(KeyPattern, Action)>, c: KeyPattern, a: Action) -> bool {
    lookup(s, c) == Some(a)
}

/// The actions some pattern of `s` is bound to.
pub open spec fn bound_actions(s: Seq<(KeyPattern, Action)>) -> Set<Action> {
    Set::new(|a: Action| exists|c: KeyPattern| #[trigger] bound_to(s, c, a))
}

/// Lexicographic order of character sequences (the order of `str::cmp`).
pub open spec fn lex_le(a: Seq<char>, b: Seq<char>) -> bool
    decreases a.len(),
{
    if a.len() == 0 {
        true
    } else if b.len() == 0 {
        false
    } else if a[0] < b[0] {
        true
    } else if a[0] == b[0] {
        lex_le(a.drop_first(), b.drop_first())
    } else {
        false
    }
}

/// `lex_le` is transitive.
pub proof fn lemma_lex_trans(a: Seq<char>, b: Seq<char>, c: Seq<char>)
    requires
        lex_le(a, b),
        lex_le(b, c),
    ensures
        lex_le(a, c),
    decreases a.len(),
{
    if a.len() > 0 && b.len() > 0 && c.len() > 0 && a[0] == b[0] && b[0] == c[0] {
        lemma_lex_trans(a.drop_first(), b.drop_first(), c.drop_first());
    }
}

/// `lex_le` is total.
pub proof fn lemma_lex_total(a: Seq<char>, b: Seq<char>)
    ensures
        lex_le(a, b) || lex_le(b, a),
    decreases a.len(),
{
    if a.len() > 0 && b.len() > 0 && a[0] == b[0] {
        lemma_lex_total(a.drop_first(), b.drop_first());
    }
}

/// Sequences that agree up to a first difference are ordered by it.
proof fn lemma_lex_first_difference(p: Seq<char>, x: char, y: char, a: Seq<char>, b: Seq<char>)
    requires
        x < y,
    ensures
        lex_le(p.push(x) + a, p.push(y) + b),
        !lex_le(p.push(y) + b, p.push(x) + a),
    decreases p.len(),
{
    let u = p.push(x) + a;
    let v = p.push(y) + b;
    if p.len() == 0 {
        assert(u[0] == x);
        assert(v[0] == y);
    } else {
        lemma_lex_first_difference(p.drop_first(), x, y, a, b);
        assert(u.drop_first() =~= p.drop_first().push(x) + a);
        assert(v.drop_first() =~= p.drop_first().push(y) + b);
        assert(u[0] == p[0]);
        assert(v[0] == p[0]);
    }
}

/// A sequence comes before everything that extends it, and not after.
proof fn lemma_lex_prefix(a: Seq<char>, b: Seq<char>)
    requires
        b.len() > 0,
    ensures
        lex_le(a, a + b),
        !lex_le(a + b, a),
    decreases a.len(),
{
    if a.len() == 0 {
        assert(a + b =~= b);
    } else {
        lemma_lex_prefix(a.drop_first(), b);
        assert((a + b).drop_first() =~= a.drop_first() + b);
        assert((a + b)[0] == a[0]);
    }
}

/// `lex_le` is the order `str::cmp` gives names: the empty name comes first,
/// a name comes before the longer names it begins, and otherwise the first
/// character where two names differ decides.
pub proof fn law_lex_is_name_order(p: Seq<char>, x: char, y: char, a: Seq<char>, b: Seq<char>)
    requires
        x < y,
    ensures
        lex_le(Seq::<char>::empty(), a),
        b.len() > 0 ==> lex_le(a, a + b) && !lex_le(a + b, a),
        lex_le(p.push(x) + a, p.push(y) + b),
        !lex_le(p.push(y) + b, p.push(x) + a),
{
    if b.len() > 0 {
        lemma_lex_prefix(a, b);
    }
    lemma_lex_first_difference(p, x, y, a, b);
}

/// Exec form of `lex_le`.
pub fn chars_lex_le(a: &Vec<char>, b: &Vec<char>) -> (r: bool)
    ensures
        r == lex_le(a@, b@),
{
    let mut i: usize = 0;
    assert(a@.skip(0) =~= a@);
    assert(b@.skip(0) =~= b@);
    loop
        invariant
            i <= a.len(),
            i <= b.len(),
            lex_le(a@, b@) == lex_le(a@.skip(i as int), b@.skip(i as int)),
        decreases a.len() - i,
    {
        if i == a.len() {
            return true;
        }
        if i == b.len() {
            return false;
        }
        let x = a[i];
        let y = b[i];
        if x < y {
            return true;
        }
        if x != y {
            return false;
        }
        assert(a@.skip(i as int).drop_first() =~= a@.skip(i + 1));
        assert(b@.skip(i as int).drop_first() =~= b@.skip(i + 1));
        i = i + 1;
    }
}

/// Help entries ordered by their description.
pub open spec fn sorted_by_description(s: Seq<(String, &'static str)>) -> bool {
    forall|i: int, j: int| 0 <= i < j < s.len() ==> lex_le(s[i].1@, s[j].1@)
}

/// Inserts `x` after every entry whose description is not above its own.
fn insert_by_description(v: &mut Vec<(String, &'static str)>, x: (String, &'static str))
    requires
        sorted_by_description(old(v)@),
    ensures
        sorted_by_description(final(v)@),
        exists|p: int| 0 <= p <= old(v)@.len() && final(v)@ == old(v)@.insert(p, x),
{
    let xd = chars_of(x.1);
    let mut p = v.len();
    loop
        invariant
            p <= v.len(),
            v@ == old(v)@,
            xd@ == x.1@,
            forall|q: int| p <= q < v@.len() ==> !lex_le(#[trigger] v@[q].1@, x.1@),
        ensures
            p <= v.len(),
            v@ == old(v)@,
            forall|q: int| p <= q < v@.len() ==> !lex_le(#[trigger] v@[q].1@, x.1@),
            p > 0 ==> lex_le(v@[p - 1].1@, x.1@),
        decreases p,
    {
        if p == 0 {
            break ;
        }
        let d = chars_of(v[p - 1].1);
        if chars_lex_le(&d, &xd) {
            break ;
        }
        p = p - 1;
    }
    let ghost s = v@;
    proof {
        assert forall|q: int| 0 <= q < p implies lex_le(s[q].1@, x.1@) by {
            if q < p - 1 {
                lemma_lex_trans(s[q].1@, s[p - 1].1@, x.1@);
            }
        }
        assert forall|q: int| p <= q < s.len() implies lex_le(x.1@, s[q].1@) by {
            lemma_lex_total(x.1@, s[q].1@);
        }
    }
    v.insert(p, x);
    proof {
        let t = s.insert(p as int, x);
        assert(v@ == t);
        assert forall|i: int, j: int| 0 <= i < j < t.len() implies lex_le(t[i].1@, t[j].1@) by {
            if j < p {
            } else if j == p {
            } else if i < p {
                lemma_lex_trans(t[i].1@, x.1@, t[j].1@);
            } else if i == p {
            } else {
            }
        }
    }
}

impl Keybindings {
    /// The action a pattern triggers.
    pub open spec fn action_for(&self, p: KeyPattern) -> Option<Action> {
        lookup(self.bindings@, p)
    }

    /// An empty table.
    pub fn new() -> (r: Keybindings)
        ensures
            forall|q: KeyPattern| #[trigger] r.action_for(q) is None,
    {
        Keybindings { bindings: Vec::new() }
    }

    /// Binds `p` to `a`, replacing what `p` was bound to.
    pub fn bind(&mut self, p: KeyPattern, a: Action)
        ensures
            forall|q: KeyPattern| #[trigger]
                final(self).action_for(q) == if q == p {
                    Some(a)
                } else {
                    old(self).action_for(q)
                },
    {
        let n = self.bindings.len();
        let mut i: usize = 0;
        while i < n && self.bindings[i].0 != p
            invariant
                i <= n == self.bindings.len(),
                self.bindings@ == old(self).bindings@,
                forall|j: int| 0 <= j < i ==> self.bindings@[j].0 != p,
            decreases n - i,
        {
            i = i + 1;
        }
        let ghost s = self.bindings@;
        if i < n {
            self.bindings.set(i, (p, a));
            proof {
                let t = s.update(i as int, (p, a));
                assert(self.bindings@ == t);
                assert forall|q: KeyPattern| #[trigger]
                    lookup(t, q) == if q == p {
                        Some(a)
                    } else {
                        lookup(s, q)
                    } by {
                    lemma_key_index(s, q);
                    if q == p {
                        lemma_key_index_unique(t, q, i as int);
                    } else {
                        lemma_key_index_unique(t, q, key_index(s, q) as int);
                    }
                }
            }
        } else {
            self.bindings.push((p, a));
            proof {
                let t = s.push((p, a));
                assert(self.bindings@ == t);
                assert forall|q: KeyPattern| #[trigger]
                    lookup(t, q) == if q == p {
                        Some(a)
                    } else {
                        lookup(s, q)
                    } by {
                    lemma_key_index(s, q);
                    if q == p {
                        lemma_key_index_unique(t, q, n as int);
                    } else if key_index(s, q) < n {
                        lemma_key_index_unique(t, q, key_index(s, q) as int);
                    } else {
                        lemma_key_index_unique(t, q, n + 1);
                    }
                }
            }
        }
    }

    /// The default key table (`default_action`).
    pub fn default() -> (r: Keybindings)
        ensures
            forall|q: KeyPattern| #[trigger] r.action_for(q) == default_action(q),
    {
        let none = KeyModifiers::none();
        let mut k = Keybindings::new();
        // Navigation
        k.bind(KeyPattern { code: KeyCode::Up, modifiers: none }, Action::MoveUp);
        k.bind(KeyPattern { code: KeyCode::Down, modifiers: none }, Action::MoveDown);
        k.bind(KeyPattern { code: KeyCode::Left, modifiers: none }, Action::MoveLeft);
        k.bind(KeyPattern { code: KeyCode::Right, modifiers: none }, Action::MoveRight);
        k.bind(KeyPattern { code: KeyCode::PageUp, modifiers: none }, Action::PageUp);
        k.bind(KeyPattern { code: KeyCode::PageDown, modifiers: none }, Action::PageDown);
        k.bind(KeyPattern { code: KeyCode::Home, modifiers: none }, Action::Home);
        k.bind(KeyPattern { code: KeyCode::End, modifiers: none }, Action::End);
        k.bind(KeyPattern { code: KeyCode::Tab, modifiers: none }, Action::SwitchPanel);
        k.bind(
            KeyPattern { code: KeyCode::BackTab, modifiers: KeyModifiers::shift_only() },
            Action::SwitchPanel,
        );
        let ghost k1 = k.bindings@;
        // Playback
        k.bind(KeyPattern { code: KeyCode::Char(' '), modifiers: none }, Action::PlayPause);
        k.bind(KeyPattern { code: KeyCode::Enter, modifiers: none }, Action::PlaySelected);
        k.bind(KeyPattern { code: KeyCode::Char('n'), modifiers: none }, Action::NextTrack);
        k.bind(KeyPattern { code: KeyCode::Char('p'), modifiers: none }, Action::PrevTrack);
        k.bind(KeyPattern { code: KeyCode::Char('s'), modifiers: none }, Action::ToggleShuffle);
        k.bind(KeyPattern { code: KeyCode::Char('r'), modifiers: none }, Action::ToggleRepeat);
        k.bind(KeyPattern { code: KeyCode::Char('m'), modifiers: none }, Action::Mute);
        k.bind(KeyPattern { code: KeyCode::Char('+'), modifiers: none }, Action::VolumeUp);
        k.bind(KeyPattern { code: KeyCode::Char('-'), modifiers: none }, Action::VolumeDown);
        k.bind(KeyPattern { code: KeyCode::Char('='), modifiers: none }, Action::VolumeUp);
        let ghost k2 = k.bindings@;
        // Seek
        k.bind(KeyPattern { code: KeyCode::Left, modifiers: none }, Action::SeekBackward);
        k.bind(KeyPattern { code: KeyCode::Right, modifiers: none }, Action::SeekForward);
        // Queue / Playlist
        k.bind(KeyPattern { code: KeyCode::Char('a'), modifiers: none }, Action::AddToQueue);
        k.bind(KeyPattern { code: KeyCode::Char('d'), modifiers: none }, Action::RemoveFromQueue);
        k.bind(KeyPattern { code: KeyCode::Char('x'), modifiers: none }, Action::ClearQueue);
        // Playlist management
        k.bind(KeyPattern { code: KeyCode::Char('A'), modifiers: none }, Action::AddToPlaylist);
        k.bind(KeyPattern { code: KeyCode::Char('N'), modifiers: none }, Action::CreatePlaylist);
        let shift = KeyModifiers::shift_only();
        k.bind(KeyPattern { code: KeyCode::Char('A'), modifiers: shift }, Action::AddToPlaylist);
        k.bind(KeyPattern { code: KeyCode::Char('N'), modifiers: shift }, Action::CreatePlaylist);
        let ghost k3 = k.bindings@;
        // Misc
        k.bind(KeyPattern { code: KeyCode::Char('/'), modifiers: none }, Action::FocusSearch);
        k.bind(KeyPattern { code: KeyCode::Char('?'), modifiers: none }, Action::ToggleHelp);
        k.bind(KeyPattern { code: KeyCode::Char('q'), modifiers: none }, Action::Quit);
        k.bind(KeyPattern { code: KeyCode::Esc, modifiers: none }, Action::Quit);
        // Tabs
        k.bind(KeyPattern { code: KeyCode::Char('1'), modifiers: none }, Action::SelectTab1);
        k.bind(KeyPattern { code: KeyCode::Char('2'), modifiers: none }, Action::SelectTab2);
        k.bind(KeyPattern { code: KeyCode::Char('3'), modifiers: none }, Action::SelectTab3);
        k.bind(KeyPattern { code: KeyCode::Char('4'), modifiers: none }, Action::SelectTab4);
        k
    }

    /// The action for a key event: Ctrl+C (either case) always quits;
    /// otherwise what the pattern is bound to.
    pub open spec fn resolved(&self, event: KeyEvent) -> Option<Action> {
        if is_ctrl_c(event) {
            Some(Action::Quit)
        } else {
            self.action_for(KeyPattern { code: event.code, modifiers: event.modifiers })
        }
    }

    /// The action for a key event: Ctrl+C (either case) always quits;
    /// otherwise what the pattern is bound to.
    pub fn resolve(&self, event: &KeyEvent) -> (r: Option<Action>)
        ensures
            r == self.resolved(*event),
    {
        if event.is_ctrl_c() {
            return Some(Action::Quit);
        }
        let pattern = KeyPattern { code: event.code, modifiers: event.modifiers };
        self.lookup_pattern(&pattern)
    }

    /// The action `p` is bound to.
    pub fn lookup_pattern(&self, p: &KeyPattern) -> (r: Option<Action>)
        ensures
            r == self.action_for(*p),
    {
        let n = self.bindings.len();
        let mut i: usize = 0;
        while i < n && self.bindings[i].0 != *p
            invariant
                i <= n == self.bindings.len(),
                forall|j: int| 0 <= j < i ==> self.bindings@[j].0 != *p,
            decreases n - i,
        {
            i = i + 1;
        }
        proof {
            lemma_key_index_unique(self.bindings@, *p, i as int);
        }
        if i < n {
            Some(self.bindings[i].1)
        } else {
            None
        }
    }

    /// Whether the binding at `i` is the one that acts (the first of its pattern).
    fn is_effective(&self, i: usize) -> (r: bool)
        requires
            i < self.bindings@.len(),
        ensures
            r == (key_index(self.bindings@, self.bindings@[i as int].0) == i),
    {
        let p = self.bindings[i].0;
        let mut j: usize = 0;
        while j < i && self.bindings[j].0 != p
            invariant
                j <= i < self.bindings@.len(),
                p == self.bindings@[i as int].0,
                forall|m: int| 0 <= m < j ==> self.bindings@[m].0 != p,
            decreases i - j,
        {
            j = j + 1;
        }
        proof {
            lemma_key_index(self.bindings@, p);
            if j == i {
                lemma_key_index_unique(self.bindings@, p, i as int);
            }
        }
        j == i
    }

    /// How a key bound to `action` is written; `"?"` when no key is.
    /// Which of several keys bound to the action is named is left open.
    pub fn key_for_action(&self, action: Action) -> (r: String)
        ensures
            (exists|c: KeyPattern| #[trigger] bound_to(self.bindings@, c, action)) ==> exists|
                c: KeyPattern,
            | #[trigger] bound_to(self.bindings@, c, action) && r@ == pattern_text(c),
            !(exists|c: KeyPattern| #[trigger] bound_to(self.bindings@, c, action)) ==> r@
                == "?"@,
    {
        let n = self.bindings.len();
        let mut i: usize = 0;
        while i < n
            invariant
                i <= n == self.bindings.len(),
                forall|j: int|
                    0 <= j < i ==> !(self.bindings@[j].1 == action && key_index(
                        self.bindings@,
                        self.bindings@[j].0,
                    ) == j),
            decreases n - i,
        {
            if self.bindings[i].1 == action && self.is_effective(i) {
                let c = self.bindings[i].0;
                assert(bound_to(self.bindings@, c, action));
                return c.to_display_string();
            }
            i = i + 1;
        }
        proof {
            assert forall|c: KeyPattern| !bound_to(self.bindings@, c, action) by {
                lemma_key_index(self.bindings@, c);
                if bound_to(self.bindings@, c, action) {
                    let j = key_index(self.bindings@, c) as int;
                    assert(self.bindings@[j].0 == c);
                }
            }
        }
        let q: Vec<char> = vec!['?'];
        let r = string_of(&q);
        proof {
            reveal_strlit("?");
        }
        assert(r@ =~= "?"@);
        r
    }

    /// The help list: one entry per bound action (written as one of its
    /// keys, with its description) and a `Ctrl+C` / `Quit` entry, ordered by
    /// description.
    pub fn help_entries(&self) -> (r: Vec<(String, &'static str)>)
        ensures
            sorted_by_description(r@),
            r@.len() == bound_actions(self.bindings@).len() + 1,
            exists|i: int| 0 <= i < r@.len() && r@[i].0@ == ctrl_c_text() && r@[i].1@ == action_description(Action::Quit),
            forall|a: Action|
                #[trigger] bound_actions(self.bindings@).contains(a) ==> exists|i: int|
                    0 <= i < r@.len() && r@[i].1@ == action_description(a),
            forall|i: int|
                #![trigger r@[i]]
                0 <= i < r@.len() ==> (r@[i].0@ == ctrl_c_text() && r@[i].1@ == action_description(Action::Quit))
                    || exists|c: KeyPattern, a: Action| #[trigger] bound_to(self.bindings@, c, a) && r@[i].0@ == pattern_text(c) && r@[i].1@ == action_description(a),
    {
        let n = self.bindings.len();
        let ghost s = self.bindings@;
        let mut seen: Vec<Action> = Vec::new();
        let mut entries: Vec<(String, &'static str)> = Vec::new();
        let mut i: usize = 0;
        while i < n
            invariant
                i <= n == self.bindings.len(),
                s == self.bindings@,
                sorted_by_description(entries@),
                entries@.len() == seen@.len(),
                seen@.no_duplicates(),
                forall|a: Action| #[trigger] seen@.contains(a) ==> bound_actions(s).contains(a),
                forall|j: int| 0 <= j < i && key_index(s, s[j].0) == j ==> seen@.contains(#[trigger] s[j].1),
                forall|a: Action| #[trigger] seen@.contains(a) ==> exists|k: int| 0 <= k < entries@.len() && entries@[k].1@ == action_description(a),
                forall|k: int|
                    #![trigger entries@[k]]
                    0 <= k < entries@.len() ==> exists|c: KeyPattern, a: Action| #[trigger] bound_to(s, c, a) && entries@[k].0@ == pattern_text(c) && entries@[k].1@ == action_description(a),
            decreases n - i,
        {
            let (c, a) = self.bindings[i];
            let eff = self.is_effective(i);
            let present = contains_action(&seen, a);
            let ghost seen_before = seen@;
            if eff && !present {
                let ghost old_entries = entries@;
                let ghost old_seen = seen@;
                assert(bound_to(s, c, a));
                let e = (c.to_display_string(), a.description());
                insert_by_description(&mut entries, e);
                seen.push(a);
                proof {
                    let p = choose|p: int| 0 <= p <= old_entries.len() && entries@ == old_entries.insert(p, e);
                    assert(entries@[p].1@ == action_description(a));
                    assert forall|b: Action| #[trigger] seen@.contains(b) implies exists|k: int| 0 <= k < entries@.len() && entries@[k].1@ == action_description(b) by {
                        if b == a {
                            assert(entries@[p].1@ == action_description(b));
                        } else {
                            assert(old_seen.contains(b));
                            let k = choose|k: int| 0 <= k < old_entries.len() && old_entries[k].1@ == action_description(b);
                            if k < p {
                                assert(entries@[k] == old_entries[k]);
                            } else {
                                assert(entries@[k + 1] == old_entries[k]);
                            }
                        }
                    }
                    assert forall|k: int| #![trigger entries@[k]] 0 <= k < entries@.len() implies exists|c2: KeyPattern, a2: Action| #[trigger] bound_to(s, c2, a2) && entries@[k].0@ == pattern_text(c2) && entries@[k].1@ == action_description(a2) by {
                        if k < p {
                            assert(entries@[k] == old_entries[k]);
                        } else if k == p {
                            assert(bound_to(s, c, a));
                        } else {
                            assert(entries@[k] == old_entries[k - 1]);
                        }
                    }
                    assert(seen@ == old_seen.push(a));
                    assert(bound_actions(s).contains(a));
                    assert forall|b: Action| #[trigger] seen@.contains(b) implies bound_actions(s).contains(b) by {
                        if b != a {
                            let k = choose|k: int| 0 <= k < seen@.len() && seen@[k] == b;
                            assert(old_seen[k] == b);
                            assert(old_seen.contains(b));
                        }
                    }
                }
            }
            proof {
                assert forall|b: Action| seen_before.contains(b) implies #[trigger] seen@.contains(b) by {
                    if !(eff && !present) {
                    } else {
                        let k = choose|k: int| 0 <= k < seen_before.len() && seen_before[k] == b;
                        assert(seen@[k] == b);
                    }
                }
                if eff {
                    if !present {
                        assert(seen@[seen@.len() - 1] == a);
                    }
                    assert(seen@.contains(s[i as int].1));
                }
            }
            i = i + 1;
        }
        // the set of bound actions is the set of actions seen
        proof {
            assert forall|a: Action| bound_actions(s).contains(a) implies seen@.contains(a) by {
                let c = choose|c: KeyPattern| #[trigger] bound_to(s, c, a);
                lemma_key_index(s, c);
                let j = key_index(s, c) as int;
                assert(s[j].0 == c);
                assert(s[j].1 == a);
            }
            assert(seen@.to_set() =~= bound_actions(s));
            seen@.unique_seq_to_set();
        }
        let ghost before = entries@;
        let ctrl: Vec<char> = vec!['C', 't', 'r', 'l', '+', 'C'];
        proof {
            reveal_strlit("Ctrl+C");
        }
        assert(ctrl@ =~= ctrl_c_text());
        let e = (string_of(&ctrl), Action::Quit.description());
        insert_by_description(&mut entries, e);
        proof {
            let p = choose|p: int| 0 <= p <= before.len() && entries@ == before.insert(p, e);
            assert(entries@[p] == e);
            assert forall|a: Action| #[trigger] bound_actions(s).contains(a) implies exists|i: int|
                    0 <= i < entries@.len() && entries@[i].1@ == action_description(a) by {
                assert(seen@.contains(a));
                let k = choose|k: int| 0 <= k < before.len() && before[k].1@ == action_description(a);
                if k < p {
                    assert(entries@[k] == before[k]);
                } else {
                    assert(entries@[k + 1] == before[k]);
                }
            }
            assert forall|k: int| #![trigger entries@[k]] 0 <= k < entries@.len() implies (entries@[k].0@ == ctrl_c_text() && entries@[k].1@ == action_description(Action::Quit))
                    || exists|c2: KeyPattern, a2: Action| #[trigger] bound_to(s, c2, a2) && entries@[k].0@ == pattern_text(c2) && entries@[k].1@ == action_description(a2) by {
                if k < p {
                    assert(entries@[k] == before[k]);
                } else if k == p {
                } else {
                    assert(entries@[k] == before[k - 1]);
                }
            }
        }
        entries
    }
}

/// Whether `a` occurs in `v`.
fn contains_action(v: &Vec<Action>, a: Action) -> (r: bool)
    ensures
        r == v@.contains(a),
{
    let mut i: usize = 0;
    while i < v.len()
        invariant
            i <= v.len(),
            forall|k: int| 0 <= k < i ==> v@[k] != a,
        decreases v.len() - i,
    {
        if v[i] == a {
            return true;
        }
        i = i + 1;
    }
    false
}

/// Ctrl+C quits, whatever the key table says.
pub proof fn law_ctrl_c_quits(kb: Keybindings, event: KeyEvent)
    requires
        event.code == KeyCode::Char('c') || event.code == KeyCode::Char('C'),
        event.modifiers == mods_control(),
    ensures
        kb.resolved(event) == Some(Action::Quit),
{
}

} // verus!
