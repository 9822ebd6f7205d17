//! Keyboard and mouse events as plain values.

use vstd::prelude::*;

verus! {

/// The key that was pressed.
#[derive(Debug, Clone, Copy, PartialEq, Eq, Structural)]
pub enum KeyCode {
    Char(char),
    Enter,
    Backspace,
    Delete,
    Left,
    Right,
    Home,
    End,
    Up,
    Down,
    Tab,
    BackTab,
    Esc,
    PageUp,
    PageDown,
    /// Any key the application does not react to.
    Other,
}

/// A key press together with the modifier keys that were held.
#[derive(Debug, Clone, Copy, PartialEq, Eq, Structural)]
pub struct KeyInput {
    pub code: KeyCode,
    pub ctrl: bool,
    pub shift: bool,
}

impl KeyInput {
    /// A key press with the given modifiers.
    pub fn new(code: KeyCode, ctrl: bool, shift: bool) -> (r: Self)
        ensures
            r.code == code,
            r.ctrl == ctrl,
            r.shift == shift,
    {
        KeyInput { code, ctrl, shift }
    }

    /// A key press without modifiers.
    pub fn plain(code: KeyCode) -> (r: Self)
        ensures
            r.code == code,
            !r.ctrl,
            !r.shift,
    {
        KeyInput { code, ctrl: false, shift: false }
    }

    /// A key press with Control held.
    pub fn with_ctrl(code: KeyCode) -> (r: Self)
        ensures
            r.code == code,
            r.ctrl,
            !r.shift,
    {
        KeyInput { code, ctrl: true, shift: false }
    }
}

} // verus!
