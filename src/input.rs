//! The discrete input events the editor consumes, and what it asks of the host.
use vstd::prelude::*;

verus! {

/// The logical identity of a key.
#[derive(Clone, Copy, Debug, PartialEq, Eq, Structural)]
pub enum Key {
    Char(char),
    Up,
    Down,
    Left,
    Right,
    Enter,
    Esc,
    Backspace,
    Delete,
    /// Any key the editor has no use for.
    Other,
}

/// One key event: the key, whether the control modifier was held, and
/// whether this is the release of a key rather than a press.
#[derive(Clone, Copy, Debug, PartialEq, Eq, Structural)]
pub struct KeyInput {
    pub code: Key,
    pub ctrl: bool,
    pub release: bool,
}

impl KeyInput {
    /// A key press without modifiers.
    pub fn press(code: Key) -> (r: KeyInput)
        ensures
            r == (KeyInput { code, ctrl: false, release: false }),
    {
        KeyInput { code, ctrl: false, release: false }
    }

    /// A key press with the control modifier held.
    pub fn ctrl_press(code: Key) -> (r: KeyInput)
        ensures
            r == (KeyInput { code, ctrl: true, release: false }),
    {
        KeyInput { code, ctrl: true, release: false }
    }
}

/// What the host does after an event has been handled.
#[derive(Clone, Copy, Debug, PartialEq, Eq, Structural)]
pub enum Action {
    /// Redraw and wait for the next event.
    Continue,
    /// Save the list and end the process.
    Quit,
}

} // verus!
