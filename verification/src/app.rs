//! What every app tab has in common: its identity, the keys it is handed and
//! what it may ask of the shell.

use vstd::prelude::*;

verus! {

/// A key of the keyboard, as far as the screens tell keys apart.
#[derive(Debug, Clone, Copy, PartialEq, Eq, Structural)]
pub enum KeyCode {
    Backspace,
    Enter,
    Left,
    Right,
    Up,
    Down,
    Home,
    End,
    PageUp,
    PageDown,
    Tab,
    BackTab,
    Delete,
    Char(char),
    Esc,
    /// Any key that no screen reacts to.
    Other,
}

/// The modifiers held with a key.
#[derive(Debug, Clone, Copy, PartialEq, Eq, Structural)]
pub struct KeyModifiers {
    pub shift: bool,
    pub control: bool,
    pub alt: bool,
    /// Any further modifier (super, hyper, meta).
    pub other: bool,
}

/// One key press.
#[derive(Debug, Clone, Copy, PartialEq, Eq, Structural)]
pub struct KeyEvent {
    pub code: KeyCode,
    pub modifiers: KeyModifiers,
}

impl KeyModifiers {
    /// Whether nothing is held.
    pub open spec fn nothing(self) -> bool {
        !self.shift && !self.control && !self.alt && !self.other
    }

    /// Whether nothing is held.
    pub fn is_empty(&self) -> (answer: bool)
        ensures
            answer == self.nothing(),
    {
        !self.shift && !self.control && !self.alt && !self.other
    }

    /// No modifier held.
    pub fn none() -> (m: KeyModifiers)
        ensures
            m == (KeyModifiers { shift: false, control: false, alt: false, other: false }),
    {
        KeyModifiers { shift: false, control: false, alt: false, other: false }
    }
}

impl KeyEvent {
    pub fn new(code: KeyCode, modifiers: KeyModifiers) -> (key: KeyEvent)
        ensures
            key == (KeyEvent { code, modifiers }),
    {
        KeyEvent { code, modifiers }
    }

    /// A key with no modifier held.
    pub fn plain(code: KeyCode) -> (key: KeyEvent)
        ensures
            key.code == code,
            key.modifiers.nothing(),
    {
        KeyEvent { code, modifiers: KeyModifiers::none() }
    }

    /// Whether this is a character held with a modifier other than shift.
    pub open spec fn is_modified_char(self) -> bool {
        self.code is Char && (self.modifiers.control || self.modifiers.alt || self.modifiers.other)
    }
}

/// True for a character key carrying ctrl/alt/super-style modifiers. Such
/// keys must not trigger single-letter shortcuts (ctrl+s is not `s`). Shift
/// is exempt: shifted chars ('G', '?') already arrive as their own character
/// with shift set.
pub fn modified_char(key: &KeyEvent) -> (answer: bool)
    ensures
        answer == key.is_modified_char(),
{
    matches!(key.code, KeyCode::Char(_)) && (key.modifiers.control || key.modifiers.alt
        || key.modifiers.other)
}

/// The generation after one; the count starts over behind the largest. Work
/// whose answer may arrive late is marked with a generation, and an answer
/// under another generation than the awaited one is stale.
pub open spec fn next_gen(gen: u64) -> u64 {
    if gen == u64::MAX {
        0
    } else {
        (gen + 1) as u64
    }
}

/// The generation after one.
pub fn following_gen(gen: u64) -> (next: u64)
    ensures
        next == next_gen(gen),
{
    if gen == u64::MAX {
        0
    } else {
        gen + 1
    }
}

/// The name by which a tab is addressed and persisted.
pub type AppId = &'static str;

/// Whether a tab is usable yet.
#[derive(Debug, Clone, Copy, PartialEq, Eq, Structural)]
pub enum AppStatus {
    Ready,
    ComingSoon,
}

/// Things an app can ask the shell to do in response to a key.
#[derive(Debug, Clone, Copy, PartialEq, Eq, Structural)]
pub enum ShellRequest {
    Quit,
}

} // verus!
