//! Key events as the editor reads them: a key and whether control was held.

use vstd::prelude::*;

verus! {

/// A logical key: a character, one of the named keys that the editor knows,
/// or any other key.
#[derive(Clone, Copy, Debug, PartialEq, Eq)]
pub enum Key {
    Char(char),
    Left,
    Right,
    Up,
    Down,
    Enter,
    Backspace,
    Esc,
    Other,
}

/// One key event.
#[derive(Clone, Copy, Debug, PartialEq, Eq)]
pub struct KeyInput {
    pub key: Key,
    /// Whether the control modifier was held.
    pub ctrl: bool,
}

impl KeyInput {
    /// The save combination: control held together with `s`.
    pub open spec fn is_save(self) -> bool {
        self.ctrl && self.key == Key::Char('s')
    }
}

} // verus!
