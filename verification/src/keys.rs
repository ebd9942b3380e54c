//! Key presses as the panes receive them.

use vstd::prelude::*;

verus! {

/// The key that was pressed.
#[derive(Debug, Clone, Copy, PartialEq, Eq, Structural)]
pub enum KeyCode {
    Char(char),
    F(u8),
    Backspace,
    Enter,
    Left,
    Right,
    Up,
    Down,
    Tab,
    Delete,
    Home,
    End,
    PageUp,
    PageDown,
    Esc,
    Unidentified,
}

/// A key press: the key and the modifiers held with it.
#[derive(Debug, Clone, Copy, PartialEq, Eq, Structural)]
pub struct KeyEvent {
    pub code: KeyCode,
    pub ctrl: bool,
    pub alt: bool,
    pub shift: bool,
}

impl KeyEvent {
    /// The press asks for the entry below: `j` or the down arrow.
    pub open spec fn is_down(self) -> bool {
        self.code == KeyCode::Char('j') || self.code == KeyCode::Down
    }

    /// The press asks for the entry above: `k` or the up arrow.
    pub open spec fn is_up(self) -> bool {
        self.code == KeyCode::Char('k') || self.code == KeyCode::Up
    }

    /// A press of `code` with no modifier held.
    pub fn plain(code: KeyCode) -> (key: Self)
        ensures
            key == (KeyEvent { code, ctrl: false, alt: false, shift: false }),
    {
        KeyEvent { code, ctrl: false, alt: false, shift: false }
    }
}

} // verus!
