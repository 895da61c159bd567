//! Key presses as the dashboard sees them.

use vstd::prelude::*;

verus! {

/// The keys that the dashboard tells apart.
#[derive(Clone, Copy, Debug, PartialEq, Eq, Structural)]
pub enum KeyCode {
    /// A key that types a character.
    Char(char),
    Tab,
    Enter,
    Esc,
    Backspace,
    /// Arrow up: the previous entry of a list.
    Up,
    /// Arrow down: the next entry of a list.
    Down,
    /// The key that opens the task popup. Which key of the keyboard that
    /// is, is for the program around the dashboard to say.
    Popup,
    /// Any key that has no meaning here.
    Other,
}

/// What happened to a key.
#[derive(Clone, Copy, Debug, PartialEq, Eq, Structural)]
pub enum KeyEventKind {
    Press,
    Repeat,
    Release,
}

/// One event of the keyboard.
#[derive(Clone, Copy, Debug, PartialEq, Eq, Structural)]
pub struct KeyEvent {
    pub code: KeyCode,
    pub kind: KeyEventKind,
}

impl KeyEvent {
    /// The event of `code` being pressed down.
    pub fn press(code: KeyCode) -> (event: KeyEvent)
        ensures
            event == (KeyEvent { code, kind: KeyEventKind::Press }),
    {
        KeyEvent { code, kind: KeyEventKind::Press }
    }

    /// Whether the key went down. Only such events change any state.
    pub open spec fn pressed(self) -> bool {
        self.kind == KeyEventKind::Press
    }

    /// Whether the key went down.
    pub fn is_press(&self) -> (b: bool)
        ensures
            b == self.pressed(),
    {
        match self.kind {
            KeyEventKind::Press => true,
            _ => false,
        }
    }
}

} // verus!
