//! The key and modifier values that the window layer hands to the terminal.

use vstd::prelude::*;

verus! {

/// A key as the terminal sees it, independent of the platform's key codes.
#[derive(Debug, Clone, Copy, PartialEq, Eq, Structural)]
pub enum Key {
    Char(char),
    Enter,
    Tab,
    Backspace,
    Delete,
    Insert,
    Escape,
    UpArrow,
    DownArrow,
    LeftArrow,
    RightArrow,
    Home,
    End,
    PageUp,
    PageDown,
    F(u8),
    Keypad0,
    Keypad1,
    Keypad2,
    Keypad3,
    Keypad4,
    Keypad5,
    Keypad6,
    Keypad7,
    Keypad8,
    Keypad9,
    KeypadMultiply,
    KeypadAdd,
    KeypadSubtract,
    KeypadDecimal,
    KeypadDivide,
    KeypadEnter,
    CapsLock,
    NumLock,
    ScrollLock,
    Pause,
    PrintScreen,
    Menu,
}

/// Bit of [`Modifiers`] for the Shift key.
pub const SHIFT_BIT: u16 = 2;
/// Bit of [`Modifiers`] for the Alt key.
pub const ALT_BIT: u16 = 4;
/// Bit of [`Modifiers`] for the Control key.
pub const CTRL_BIT: u16 = 8;
/// Bit of [`Modifiers`] for the Super (Windows) key.
pub const SUPER_BIT: u16 = 16;

/// A set of held modifier keys, one bit per modifier.
#[derive(Debug, Clone, Copy, PartialEq, Eq, Structural)]
pub struct Modifiers {
    pub bits: u16,
}

impl Modifiers {
    /// The empty set of modifiers.
    pub fn none() -> (m: Modifiers)
        ensures
            m.bits == 0,
    {
        Modifiers { bits: 0 }
    }

    /// This set with the modifier bits of `bit` added.
    pub fn with(self, bit: u16) -> (m: Modifiers)
        ensures
            m.bits == self.bits | bit,
    {
        Modifiers { bits: self.bits | bit }
    }

    /// Whether every bit of `bit` is in this set.
    pub fn contains(&self, bit: u16) -> (b: bool)
        ensures
            b == (self.bits & bit == bit),
    {
        self.bits & bit == bit
    }
}

} // verus!
