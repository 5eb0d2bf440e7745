//! The key codes the state machine reacts to. The surrounding application
//! maps the terminal's raw input events onto this type; any key the client
//! does not care about arrives as [`KeyCode::Other`].

use vstd::prelude::*;

verus! {

/// One key press, reduced to what the modal state machine distinguishes.
#[derive(Clone, Copy, PartialEq, Eq, Structural, Debug)]
pub enum KeyCode {
    Char(char),
    Enter,
    Backspace,
    Esc,
    Left,
    Right,
    Up,
    Down,
    Other,
}

} // verus!
