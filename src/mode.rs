//! The interaction modes of the editor.
use vstd::prelude::*;

verus! {

/// Which interaction is active. Exactly one mode holds at any time.
#[derive(Clone, Copy, Debug, PartialEq, Eq, Structural)]
pub enum Mode {
    /// The top level: the list has no input focus.
    Browsing,
    /// The list has focus: navigation, toggling, deleting and creating.
    Selecting,
    /// The selected item's text is being typed.
    Editing,
    /// A confirmation is asked before quitting.
    ConfirmExit,
}

impl Mode {
    /// The mode's name, as shown in the status line.
    pub fn label(&self) -> (r: &'static str)
        ensures
            r@ == match *self {
                Mode::Browsing => "Browsing"@,
                Mode::Selecting => "Selecting"@,
                Mode::Editing => "Editing"@,
                Mode::ConfirmExit => "Confirm exit"@,
            },
    {
        match self {
            Mode::Browsing => "Browsing",
            Mode::Selecting => "Selecting",
            Mode::Editing => "Editing",
            Mode::ConfirmExit => "Confirm exit",
        }
    }
}

} // verus!
