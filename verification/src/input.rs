//! Logical keys: what the state machine reads of a key press.

use vstd::prelude::*;

verus! {

/// Bit of the shift modifier.
pub const SHIFT: u8 = 0b0000_0001;

/// Bit of the control modifier.
pub const CONTROL: u8 = 0b0000_0010;

/// Bit of the alt modifier.
pub const ALT: u8 = 0b0000_0100;

/// The key that was pressed.
#[derive(Clone, Copy, Debug, PartialEq, Eq)]
pub enum KeyCode {
    Enter,
    Esc,
    Backspace,
    Left,
    Right,
    Up,
    Down,
    /// A character key.
    Char(char),
    /// Any key that the editor does not bind.
    Other,
}

/// The modifier keys held down with a key, one bit each.
#[derive(Clone, Copy, Debug, PartialEq, Eq)]
pub struct KeyModifiers {
    pub bits: u8,
}

impl KeyModifiers {
    /// No modifier.
    pub fn none() -> (m: KeyModifiers)
        ensures
            m.bits == 0,
    {
        KeyModifiers { bits: 0 }
    }

    /// The shift modifier alone.
    pub fn shift() -> (m: KeyModifiers)
        ensures
            m.bits == SHIFT,
    {
        KeyModifiers { bits: SHIFT }
    }

    /// The modifiers with the given bits.
    pub fn from_bits(bits: u8) -> (m: KeyModifiers)
        ensures
            m.bits == bits,
    {
        KeyModifiers { bits }
    }

    /// Whether a character typed with these modifiers is text: no modifier is
    /// held, or shift alone.
    pub open spec fn types_text(&self) -> bool {
        self.bits == 0 || self.bits == SHIFT
    }

    /// Whether a character typed with these modifiers is text.
    #[verifier::when_used_as_spec(types_text)]
    pub fn is_text(&self) -> (b: bool)
        ensures
            b == self.types_text(),
    {
        self.bits == 0 || self.bits == SHIFT
    }
}

/// A key press: the key and the modifiers held with it.
#[derive(Clone, Copy, Debug, PartialEq, Eq)]
pub struct KeyEvent {
    pub code: KeyCode,
    pub modifiers: KeyModifiers,
}

impl KeyEvent {
    /// The press of `code` with `modifiers` held.
    pub fn new(code: KeyCode, modifiers: KeyModifiers) -> (k: KeyEvent)
        ensures
            k.code == code,
            k.modifiers == modifiers,
    {
        KeyEvent { code, modifiers }
    }

    /// The press of `code` with no modifier held.
    pub open spec fn plain(code: KeyCode) -> KeyEvent {
        KeyEvent { code, modifiers: KeyModifiers { bits: 0 } }
    }
}

} // verus!
