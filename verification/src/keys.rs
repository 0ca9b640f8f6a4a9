//! Key presses as the terminal interfaces see them.
use vstd::prelude::*;

verus! {

/// The key of a key press.
#[derive(Clone, Copy, Debug, PartialEq, Eq, Structural)]
pub enum KeyCode {
    Char(char),
    Esc,
    Enter,
    Left,
    Right,
    Up,
    Down,
    /// Any other key.
    Other,
}

/// Modifier bit of the Shift key.
pub const MOD_SHIFT: u8 = 1;
/// Modifier bit of the Control key.
pub const MOD_CONTROL: u8 = 2;
/// Modifier bit of the Alt key.
pub const MOD_ALT: u8 = 4;

/// A key press: the key and the set of held modifiers, one bit each.
#[derive(Clone, Copy, Debug)]
pub struct KeyInput {
    pub code: KeyCode,
    pub modifiers: u8,
}

/// Whether Control is among the held modifiers.
pub open spec fn has_control(k: KeyInput) -> bool {
    k.modifiers & MOD_CONTROL != 0
}

/// Whether Control is the only held modifier.
pub open spec fn only_control(k: KeyInput) -> bool {
    k.modifiers == MOD_CONTROL
}

impl KeyInput {
    /// Whether Control is among the held modifiers.
    pub fn control_held(&self) -> (r: bool)
        ensures
            r == has_control(*self),
    {
        self.modifiers & MOD_CONTROL != 0
    }

    /// Whether this is the key press Ctrl-`c` with no other modifier.
    pub fn is_only_control_char(&self, c: char) -> (r: bool)
        ensures
            r == (self.code == KeyCode::Char(c) && only_control(*self)),
    {
        match self.code {
            KeyCode::Char(x) => x == c && self.modifiers == MOD_CONTROL,
            _ => false,
        }
    }
}

} // verus!
