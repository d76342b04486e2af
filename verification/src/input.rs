//! Decoding of the raw bytes an SSH client sends into terminal events.
use vstd::prelude::*;

verus! {

/// First byte of the in-band resize command: `[CMD_RESIZE, cols, rows]`.
pub const CMD_RESIZE: u8 = 0x04;

/// The keys this decoder recognises.
#[derive(Clone, Copy, Debug, PartialEq, Eq, Structural)]
pub enum KeyCode {
    Backspace,
    Enter,
    Left,
    Right,
    Up,
    Down,
    Tab,
    Delete,
    Esc,
    Char(char),
}

/// Modifier keys held with a key, as a bit set (no bit set: no modifier).
#[derive(Clone, Copy, Debug, PartialEq, Eq, Structural)]
pub struct KeyModifiers {
    pub bits: u8,
}

impl KeyModifiers {
    /// No modifier held.
    pub fn empty() -> (m: KeyModifiers)
        ensures
            m.bits == 0,
    {
        KeyModifiers { bits: 0 }
    }
}

/// Whether a key went down, repeated, or came up.
#[derive(Clone, Copy, Debug, PartialEq, Eq, Structural)]
pub enum KeyEventKind {
    Press,
    Repeat,
    Release,
}

/// A key event: the key, its modifiers, its kind and the keyboard state bits.
#[derive(Clone, Copy, Debug, PartialEq, Eq, Structural)]
pub struct KeyEvent {
    pub code: KeyCode,
    pub modifiers: KeyModifiers,
    pub kind: KeyEventKind,
    pub state: u8,
}

impl KeyEvent {
    /// A key press with the given modifiers and no keyboard state.
    pub fn new(code: KeyCode, modifiers: KeyModifiers) -> (e: KeyEvent)
        ensures
            e == (KeyEvent { code, modifiers, kind: KeyEventKind::Press, state: 0 }),
    {
        KeyEvent { code, modifiers, kind: KeyEventKind::Press, state: 0 }
    }
}

/// Parsed input from the SSH client.
#[derive(Clone, Copy, Debug, PartialEq, Eq, Structural)]
pub enum TerminalEvent {
    /// A keypress decoded from the inbound byte stream.
    Key(KeyEvent),
    /// Window-size change `(cols, rows)`.
    Resize(u16, u16),
    /// Idle countdown: seconds remaining until the client is auto-kicked.
    IdleWarning(u32),
    /// The client disconnected.
    Quit,
}

/// The key that a chunk of client bytes stands for, if any.
pub open spec fn spec_key_code(data: Seq<u8>) -> Option<KeyCode> {
    if data =~= seq![0x1bu8, 0x5bu8, 0x41u8] {
        Some(KeyCode::Up)
    } else if data =~= seq![0x1bu8, 0x5bu8, 0x42u8] {
        Some(KeyCode::Down)
    } else if data =~= seq![0x1bu8, 0x5bu8, 0x43u8] {
        Some(KeyCode::Right)
    } else if data =~= seq![0x1bu8, 0x5bu8, 0x44u8] {
        Some(KeyCode::Left)
    } else if data =~= seq![0x03u8] || data =~= seq![0x1bu8] {
        Some(KeyCode::Esc)
    } else if data =~= seq![0x0du8] {
        Some(KeyCode::Enter)
    } else if data =~= seq![0x7fu8] {
        Some(KeyCode::Backspace)
    } else if data =~= seq![0x1bu8, 0x5bu8, 0x33u8, 0x7eu8] {
        Some(KeyCode::Delete)
    } else if data =~= seq![0x09u8] {
        Some(KeyCode::Tab)
    } else if data.len() == 1 {
        Some(KeyCode::Char(data[0] as char))
    } else {
        None
    }
}

/// The key event that a chunk of client bytes stands for, if any.
pub open spec fn spec_key_event(data: Seq<u8>) -> Option<KeyEvent> {
    match spec_key_code(data) {
        Some(code) => Some(
            KeyEvent { code, modifiers: KeyModifiers { bits: 0 }, kind: KeyEventKind::Press, state: 0 },
        ),
        None => None,
    }
}

/// The terminal event that a chunk of client bytes stands for, if any: the
/// three-byte resize command, else a key press.
pub open spec fn spec_terminal_event(data: Seq<u8>) -> Option<TerminalEvent> {
    if data.len() == 3 && data[0] == CMD_RESIZE {
        Some(TerminalEvent::Resize(data[1] as u16, data[2] as u16))
    } else {
        match spec_key_event(data) {
            Some(k) => Some(TerminalEvent::Key(k)),
            None => None,
        }
    }
}

fn bytes_are3(data: &[u8], a: u8, b: u8, c: u8) -> (r: bool)
    ensures
        r == (data@ =~= seq![a, b, c]),
{
    if data.len() != 3 {
        proof {
            if data@ =~= seq![a, b, c] {
                assert(data@.len() == 3);
            }
        }
        return false;
    }
    data[0] == a && data[1] == b && data[2] == c
}

/// Decode one chunk of client bytes as a key press (arrow keys, Esc,
/// Ctrl-C as Esc, Enter, Backspace, Delete, Tab, or a single character).
pub fn convert_data_to_key_event(data: &[u8]) -> (r: Option<KeyEvent>)
    ensures
        r == spec_key_event(data@),
{
    let n = data.len();
    let key: KeyCode = if bytes_are3(data, 0x1b, 0x5b, 0x41) {
        KeyCode::Up
    } else if bytes_are3(data, 0x1b, 0x5b, 0x42) {
        KeyCode::Down
    } else if bytes_are3(data, 0x1b, 0x5b, 0x43) {
        KeyCode::Right
    } else if bytes_are3(data, 0x1b, 0x5b, 0x44) {
        KeyCode::Left
    } else if n == 1 && (data[0] == 0x03 || data[0] == 0x1b) {
        KeyCode::Esc
    } else if n == 1 && data[0] == 0x0d {
        KeyCode::Enter
    } else if n == 1 && data[0] == 0x7f {
        KeyCode::Backspace
    } else if n == 4 && data[0] == 0x1b && data[1] == 0x5b && data[2] == 0x33 && data[3] == 0x7e {
        KeyCode::Delete
    } else if n == 1 && data[0] == 0x09 {
        KeyCode::Tab
    } else if n == 1 {
        KeyCode::Char(data[0] as char)
    } else {
        proof {
            assert(data@.len() != 1);
            assert(!(data@ =~= seq![0x03u8]) && !(data@ =~= seq![0x1bu8]));
            assert(!(data@ =~= seq![0x0du8]) && !(data@ =~= seq![0x7fu8]) && !(data@ =~= seq![0x09u8]));
            if data@ =~= seq![0x1bu8, 0x5bu8, 0x33u8, 0x7eu8] {
                assert(data@.len() == 4);
                assert(data@[0] == 0x1b && data@[1] == 0x5b && data@[2] == 0x33 && data@[3] == 0x7e);
            }
        }
        return None;
    };
    proof {
        if n == 1 {
            assert(data@ =~= seq![data@[0]]);
        }
        if n == 4 && data@[0] == 0x1b && data@[1] == 0x5b && data@[2] == 0x33 && data@[3] == 0x7e {
            assert(data@ =~= seq![0x1bu8, 0x5bu8, 0x33u8, 0x7eu8]);
        }
    }
    Some(KeyEvent::new(key, KeyModifiers::empty()))
}

/// Decode one chunk of client bytes: `[CMD_RESIZE, cols, rows]` is a resize,
/// anything else a key press (only presses are reported).
pub fn convert_data_to_terminal_event(data: &[u8]) -> (r: Option<TerminalEvent>)
    ensures
        r == spec_terminal_event(data@),
{
    if data.len() == 3 && data[0] == CMD_RESIZE {
        return Some(TerminalEvent::Resize(data[1] as u16, data[2] as u16));
    }
    let key = match convert_data_to_key_event(data) {
        Some(k) => k,
        None => return None,
    };
    if !matches!(key.kind, KeyEventKind::Press) {
        return None;
    }
    Some(TerminalEvent::Key(key))
}

/// A single byte other than Ctrl-C, Esc, CR, DEL and Tab is the key of its
/// own character, and Enter comes only from a lone CR.
pub proof fn lemma_plain_bytes_are_characters(b: u8, data: Seq<u8>)
    ensures
        b != 0x03 && b != 0x1b && b != 0x0d && b != 0x7f && b != 0x09 ==> spec_key_code(seq![b]) == Some(
            KeyCode::Char(b as char),
        ),
        spec_key_code(data) == Some(KeyCode::Enter) ==> data =~= seq![0x0du8],
{
    if b != 0x03 && b != 0x1b && b != 0x0d && b != 0x7f && b != 0x09 {
        let d = seq![b];
        assert(d.len() == 1 && d[0] == b);
        if d =~= seq![0x03u8] {
            assert(d[0] == seq![0x03u8][0]);
        }
        if d =~= seq![0x1bu8] {
            assert(d[0] == seq![0x1bu8][0]);
        }
        if d =~= seq![0x0du8] {
            assert(d[0] == seq![0x0du8][0]);
        }
        if d =~= seq![0x7fu8] {
            assert(d[0] == seq![0x7fu8][0]);
        }
        if d =~= seq![0x09u8] {
            assert(d[0] == seq![0x09u8][0]);
        }
    }
}

} // verus!
