//! Key input as the wizard reads it.

use vstd::prelude::*;

verus! {

/// The key of an input event.
#[derive(Clone, Copy, Debug, PartialEq, Eq, Structural)]
pub enum KeyCode {
    Char(char),
    Enter,
    Esc,
    Backspace,
    Up,
    Down,
    Left,
    Right,
    /// The tick that is sent when no key arrived in time.
    Null,
    /// Any key that no page reacts to by name.
    Other,
}

/// One input event: the key and whether the control modifier was held.
#[derive(Clone, Copy, Debug, PartialEq, Eq, Structural)]
pub struct KeyEvent {
    pub code: KeyCode,
    pub ctrl: bool,
}

impl KeyEvent {
    /// An event for `code` with no modifier held.
    pub fn new(code: KeyCode) -> (key: KeyEvent)
        ensures
            key.code == code,
            !key.ctrl,
    {
        KeyEvent { code, ctrl: false }
    }

    /// Whether the key is the character `c`.
    pub fn is_char(&self, c: char) -> (same: bool)
        ensures
            same == (self.code == KeyCode::Char(c)),
    {
        match self.code {
            KeyCode::Char(k) => k == c,
            _ => false,
        }
    }

    /// Whether the event is the tick that stands for no key.
    pub fn is_null(&self) -> (null: bool)
        ensures
            null == (self.code == KeyCode::Null),
    {
        match self.code {
            KeyCode::Null => true,
            _ => false,
        }
    }

    /// An event for `code` with the control modifier held.
    pub fn with_ctrl(code: KeyCode) -> (key: KeyEvent)
        ensures
            key.code == code,
            key.ctrl,
    {
        KeyEvent { code, ctrl: true }
    }
}

} // verus!
