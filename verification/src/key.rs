//! Keyboard values: modifiers, special keys and key events.

use vstd::prelude::*;

verus! {

/// No modifier held.
pub const MOD_NONE: u32 = 0;

/// The shift key.
pub const MOD_SHIFT: u32 = 1;

/// The control key.
pub const MOD_CTRL: u32 = 2;

/// The alt key.
pub const MOD_ALT: u32 = 4;

/// The super (logo) key.
pub const MOD_SUPER: u32 = 8;

/// A set of keyboard modifiers, as a bit set over the `MOD_*` bits.
#[derive(Copy, Clone, Debug, PartialEq, Eq, Structural)]
pub struct Modifiers {
    /// The raw bits; only the four `MOD_*` bits are ever set.
    pub bits: u32,
}

impl Modifiers {
    /// The modifier set for a raw native state word, with unknown bits
    /// discarded.
    pub open spec fn spec_truncate(state: u32) -> Modifiers {
        Modifiers { bits: state & 15 }
    }

    /// Builds the modifier set from a raw native state word, keeping only
    /// the known modifier bits.
    pub fn from_bits_truncate(state: u32) -> (r: Modifiers)
        ensures
            r == Modifiers::spec_truncate(state),
    {
        Modifiers { bits: state & 15 }
    }

    /// Returns true when every modifier set in `other` is also set here.
    pub fn contains(&self, other: Modifiers) -> (r: bool)
        ensures
            r == (self.bits & other.bits == other.bits),
    {
        self.bits & other.bits == other.bits
    }
}

impl Default for Modifiers {
    /// No modifiers held.
    fn default() -> (r: Modifiers)
        ensures
            r.bits == 0,
    {
        Modifiers { bits: 0 }
    }
}

/// Keys that do not represent a character.
#[derive(Copy, Clone, Debug, PartialEq, Eq, Structural)]
pub enum SpecialKey {
    Backspace,
    Escape,
    Delete,
    F1,
    F2,
    F3,
    F4,
    F5,
    F6,
    F7,
    F8,
    F9,
    F10,
    F11,
    F12,
    Left,
    Up,
    Right,
    Down,
    PageUp,
    PageDown,
    Home,
    End,
    Insert,
    ShiftL,
    ShiftR,
    CtrlL,
    CtrlR,
    AltL,
    AltR,
    SuperL,
    SuperR,
    KeyMenu,
    KeyCapsLock,
    KeyScrollLock,
    KeyNumLock,
    KeyPrintScreen,
    KeyPause,
    /// The fallback for key codes outside the fixed table.
    NoKey,
}

/// The system's code for a key.
pub type KeyCode = u32;

/// The value of a key: either a character or a special key.
#[derive(Copy, Clone, Debug, PartialEq, Eq, Structural)]
pub enum KeyVal {
    /// A character key.
    Character(char),
    /// A special (non-character) key.
    Special(SpecialKey),
}

/// A key together with the modifiers held when it was pressed or released.
#[derive(Copy, Clone, Debug, PartialEq, Eq, Structural)]
pub struct Key {
    /// The actual key.
    pub key: KeyVal,
    /// The modifiers held at the time of the event.
    pub modifiers: Modifiers,
    /// The system's code for the key.
    pub code: KeyCode,
}

impl Key {
    /// Returns the character if the key is a character key, otherwise
    /// `None`.
    pub fn try_char(&self) -> (r: Option<char>)
        ensures
            r == (match self.key {
                KeyVal::Character(c) => Some(c),
                KeyVal::Special(_) => None::<char>,
            }),
    {
        match self.key {
            KeyVal::Character(c) => Some(c),
            _ => None,
        }
    }
}

} // verus!
