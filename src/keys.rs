//! The key presses that the screens and popups react to.
use vstd::prelude::*;

verus! {

/// One key press. Releases and repeats are not delivered; keys that no part
/// of the interface uses arrive as `Other`.
#[derive(Clone, Copy, Debug, PartialEq, Eq, Structural)]
pub enum Key {
    Char(char),
    Enter,
    Esc,
    Tab,
    Backspace,
    Up,
    Down,
    Left,
    Right,
    Other,
}

} // verus!
