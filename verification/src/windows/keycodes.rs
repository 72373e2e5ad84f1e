//! Mapping of Windows virtual-key codes to the terminal's keys, and of the
//! keyboard state of the modifier keys to a set of modifiers.

use vstd::prelude::*;
use crate::keys::{Key, Modifiers, SHIFT_BIT, CTRL_BIT, ALT_BIT, SUPER_BIT};

verus! {

/// Windows virtual-key code `VK_BACK`.
pub const VK_BACK: u32 = 0x08;
/// Windows virtual-key code `VK_TAB`.
pub const VK_TAB: u32 = 0x09;
/// Windows virtual-key code `VK_RETURN`.
pub const VK_RETURN: u32 = 0x0D;
/// Windows virtual-key code `VK_SHIFT`.
pub const VK_SHIFT: u32 = 0x10;
/// Windows virtual-key code `VK_CONTROL`.
pub const VK_CONTROL: u32 = 0x11;
/// Windows virtual-key code `VK_MENU`.
pub const VK_MENU: u32 = 0x12;
/// Windows virtual-key code `VK_PAUSE`.
pub const VK_PAUSE: u32 = 0x13;
/// Windows virtual-key code `VK_CAPITAL`.
pub const VK_CAPITAL: u32 = 0x14;
/// Windows virtual-key code `VK_ESCAPE`.
pub const VK_ESCAPE: u32 = 0x1B;
/// Windows virtual-key code `VK_SPACE`.
pub const VK_SPACE: u32 = 0x20;
/// Windows virtual-key code `VK_PRIOR`.
pub const VK_PRIOR: u32 = 0x21;
/// Windows virtual-key code `VK_NEXT`.
pub const VK_NEXT: u32 = 0x22;
/// Windows virtual-key code `VK_END`.
pub const VK_END: u32 = 0x23;
/// Windows virtual-key code `VK_HOME`.
pub const VK_HOME: u32 = 0x24;
/// Windows virtual-key code `VK_LEFT`.
pub const VK_LEFT: u32 = 0x25;
/// Windows virtual-key code `VK_UP`.
pub const VK_UP: u32 = 0x26;
/// Windows virtual-key code `VK_RIGHT`.
pub const VK_RIGHT: u32 = 0x27;
/// Windows virtual-key code `VK_DOWN`.
pub const VK_DOWN: u32 = 0x28;
/// Windows virtual-key code `VK_SNAPSHOT`.
pub const VK_SNAPSHOT: u32 = 0x2C;
/// Windows virtual-key code `VK_INSERT`.
pub const VK_INSERT: u32 = 0x2D;
/// Windows virtual-key code `VK_DELETE`.
pub const VK_DELETE: u32 = 0x2E;
/// Windows virtual-key code `VK_LWIN`.
pub const VK_LWIN: u32 = 0x5B;
/// Windows virtual-key code `VK_RWIN`.
pub const VK_RWIN: u32 = 0x5C;
/// Windows virtual-key code `VK_APPS`.
pub const VK_APPS: u32 = 0x5D;
/// Windows virtual-key code `VK_NUMPAD0`.
pub const VK_NUMPAD0: u32 = 0x60;
/// Windows virtual-key code `VK_NUMPAD1`.
pub const VK_NUMPAD1: u32 = 0x61;
/// Windows virtual-key code `VK_NUMPAD2`.
pub const VK_NUMPAD2: u32 = 0x62;
/// Windows virtual-key code `VK_NUMPAD3`.
pub const VK_NUMPAD3: u32 = 0x63;
/// Windows virtual-key code `VK_NUMPAD4`.
pub const VK_NUMPAD4: u32 = 0x64;
/// Windows virtual-key code `VK_NUMPAD5`.
pub const VK_NUMPAD5: u32 = 0x65;
/// Windows virtual-key code `VK_NUMPAD6`.
pub const VK_NUMPAD6: u32 = 0x66;
/// Windows virtual-key code `VK_NUMPAD7`.
pub const VK_NUMPAD7: u32 = 0x67;
/// Windows virtual-key code `VK_NUMPAD8`.
pub const VK_NUMPAD8: u32 = 0x68;
/// Windows virtual-key code `VK_NUMPAD9`.
pub const VK_NUMPAD9: u32 = 0x69;
/// Windows virtual-key code `VK_MULTIPLY`.
pub const VK_MULTIPLY: u32 = 0x6A;
/// Windows virtual-key code `VK_ADD`.
pub const VK_ADD: u32 = 0x6B;
/// Windows virtual-key code `VK_SEPARATOR`.
pub const VK_SEPARATOR: u32 = 0x6C;
/// Windows virtual-key code `VK_SUBTRACT`.
pub const VK_SUBTRACT: u32 = 0x6D;
/// Windows virtual-key code `VK_DECIMAL`.
pub const VK_DECIMAL: u32 = 0x6E;
/// Windows virtual-key code `VK_DIVIDE`.
pub const VK_DIVIDE: u32 = 0x6F;
/// Windows virtual-key code `VK_F1`.
pub const VK_F1: u32 = 0x70;
/// Windows virtual-key code `VK_F2`.
pub const VK_F2: u32 = 0x71;
/// Windows virtual-key code `VK_F3`.
pub const VK_F3: u32 = 0x72;
/// Windows virtual-key code `VK_F4`.
pub const VK_F4: u32 = 0x73;
/// Windows virtual-key code `VK_F5`.
pub const VK_F5: u32 = 0x74;
/// Windows virtual-key code `VK_F6`.
pub const VK_F6: u32 = 0x75;
/// Windows virtual-key code `VK_F7`.
pub const VK_F7: u32 = 0x76;
/// Windows virtual-key code `VK_F8`.
pub const VK_F8: u32 = 0x77;
/// Windows virtual-key code `VK_F9`.
pub const VK_F9: u32 = 0x78;
/// Windows virtual-key code `VK_F10`.
pub const VK_F10: u32 = 0x79;
/// Windows virtual-key code `VK_F11`.
pub const VK_F11: u32 = 0x7A;
/// Windows virtual-key code `VK_F12`.
pub const VK_F12: u32 = 0x7B;
/// Windows virtual-key code `VK_NUMLOCK`.
pub const VK_NUMLOCK: u32 = 0x90;
/// Windows virtual-key code `VK_SCROLL`.
pub const VK_SCROLL: u32 = 0x91;

/// The key of a virtual-key code outside the digit and letter ranges.
pub open spec fn special_key(vk: u32) -> Option<Key> {
    if vk == VK_RETURN {
        Some(Key::Enter)
    }     else if vk == VK_TAB {
        Some(Key::Tab)
    }     else if vk == VK_BACK {
        Some(Key::Backspace)
    }     else if vk == VK_DELETE {
        Some(Key::Delete)
    }     else if vk == VK_INSERT {
        Some(Key::Insert)
    }     else if vk == VK_ESCAPE {
        Some(Key::Escape)
    }     else if vk == VK_SPACE {
        Some(Key::Char(' '))
    }     else if vk == VK_UP {
        Some(Key::UpArrow)
    }     else if vk == VK_DOWN {
        Some(Key::DownArrow)
    }     else if vk == VK_LEFT {
        Some(Key::LeftArrow)
    }     else if vk == VK_RIGHT {
        Some(Key::RightArrow)
    }     else if vk == VK_HOME {
        Some(Key::Home)
    }     else if vk == VK_END {
        Some(Key::End)
    }     else if vk == VK_PRIOR {
        Some(Key::PageUp)
    }     else if vk == VK_NEXT {
        Some(Key::PageDown)
    }     else if vk == VK_F1 {
        Some(Key::F(1))
    }     else if vk == VK_F2 {
        Some(Key::F(2))
    }     else if vk == VK_F3 {
        Some(Key::F(3))
    }     else if vk == VK_F4 {
        Some(Key::F(4))
    }     else if vk == VK_F5 {
        Some(Key::F(5))
    }     else if vk == VK_F6 {
        Some(Key::F(6))
    }     else if vk == VK_F7 {
        Some(Key::F(7))
    }     else if vk == VK_F8 {
        Some(Key::F(8))
    }     else if vk == VK_F9 {
        Some(Key::F(9))
    }     else if vk == VK_F10 {
        Some(Key::F(10))
    }     else if vk == VK_F11 {
        Some(Key::F(11))
    }     else if vk == VK_F12 {
        Some(Key::F(12))
    }     else if vk == VK_NUMPAD0 {
        Some(Key::Keypad0)
    }     else if vk == VK_NUMPAD1 {
        Some(Key::Keypad1)
    }     else if vk == VK_NUMPAD2 {
        Some(Key::Keypad2)
    }     else if vk == VK_NUMPAD3 {
        Some(Key::Keypad3)
    }     else if vk == VK_NUMPAD4 {
        Some(Key::Keypad4)
    }     else if vk == VK_NUMPAD5 {
        Some(Key::Keypad5)
    }     else if vk == VK_NUMPAD6 {
        Some(Key::Keypad6)
    }     else if vk == VK_NUMPAD7 {
        Some(Key::Keypad7)
    }     else if vk == VK_NUMPAD8 {
        Some(Key::Keypad8)
    }     else if vk == VK_NUMPAD9 {
        Some(Key::Keypad9)
    }     else if vk == VK_MULTIPLY {
        Some(Key::KeypadMultiply)
    }     else if vk == VK_ADD {
        Some(Key::KeypadAdd)
    }     else if vk == VK_SUBTRACT {
        Some(Key::KeypadSubtract)
    }     else if vk == VK_DECIMAL {
        Some(Key::KeypadDecimal)
    }     else if vk == VK_DIVIDE {
        Some(Key::KeypadDivide)
    }     else if vk == VK_SEPARATOR {
        Some(Key::KeypadEnter)
    }     else if vk == VK_CAPITAL {
        Some(Key::CapsLock)
    }     else if vk == VK_NUMLOCK {
        Some(Key::NumLock)
    }     else if vk == VK_SCROLL {
        Some(Key::ScrollLock)
    }     else if vk == VK_PAUSE {
        Some(Key::Pause)
    }     else if vk == VK_SNAPSHOT {
        Some(Key::PrintScreen)
    }     else if vk == VK_APPS {
        Some(Key::Menu)
    } else {
        None
    }
}

/// The key of a virtual-key code: the digits `0`-`9` map to their
/// characters, the letters `A`-`Z` to the lower-case characters, and the
/// other codes as [`special_key`] says.
pub open spec fn spec_vk_to_key(vk: u32) -> Option<Key> {
    if 0x30 <= vk <= 0x39 {
        Some(Key::Char((vk as u8) as char))
    } else if 0x41 <= vk <= 0x5A {
        Some(Key::Char(((vk + 32) as u8) as char))
    } else {
        special_key(vk)
    }
}

/// The virtual-key code that [`spec_vk_to_key`] maps to `key`, if any.
pub open spec fn vk_of_key(key: Key) -> Option<u32> {
    match key {
        Key::Char(c) => if '0' <= c <= '9' {
            Some(c as u32)
        } else if 'a' <= c <= 'z' {
            Some((c as u32 - 32) as u32)
        } else if c == ' ' {
            Some(VK_SPACE)
        } else {
            None
        },
        Key::F(n) => if 1 <= n <= 12 {
            Some((0x6F + n) as u32)
        } else {
            None
        },
        Key::Enter => Some(VK_RETURN),
        Key::Tab => Some(VK_TAB),
        Key::Backspace => Some(VK_BACK),
        Key::Delete => Some(VK_DELETE),
        Key::Insert => Some(VK_INSERT),
        Key::Escape => Some(VK_ESCAPE),
        Key::UpArrow => Some(VK_UP),
        Key::DownArrow => Some(VK_DOWN),
        Key::LeftArrow => Some(VK_LEFT),
        Key::RightArrow => Some(VK_RIGHT),
        Key::Home => Some(VK_HOME),
        Key::End => Some(VK_END),
        Key::PageUp => Some(VK_PRIOR),
        Key::PageDown => Some(VK_NEXT),
        Key::Keypad0 => Some(VK_NUMPAD0),
        Key::Keypad1 => Some(VK_NUMPAD1),
        Key::Keypad2 => Some(VK_NUMPAD2),
        Key::Keypad3 => Some(VK_NUMPAD3),
        Key::Keypad4 => Some(VK_NUMPAD4),
        Key::Keypad5 => Some(VK_NUMPAD5),
        Key::Keypad6 => Some(VK_NUMPAD6),
        Key::Keypad7 => Some(VK_NUMPAD7),
        Key::Keypad8 => Some(VK_NUMPAD8),
        Key::Keypad9 => Some(VK_NUMPAD9),
        Key::KeypadMultiply => Some(VK_MULTIPLY),
        Key::KeypadAdd => Some(VK_ADD),
        Key::KeypadSubtract => Some(VK_SUBTRACT),
        Key::KeypadDecimal => Some(VK_DECIMAL),
        Key::KeypadDivide => Some(VK_DIVIDE),
        Key::KeypadEnter => Some(VK_SEPARATOR),
        Key::CapsLock => Some(VK_CAPITAL),
        Key::NumLock => Some(VK_NUMLOCK),
        Key::ScrollLock => Some(VK_SCROLL),
        Key::Pause => Some(VK_PAUSE),
        Key::PrintScreen => Some(VK_SNAPSHOT),
        Key::Menu => Some(VK_APPS),
    }
}

/// Convert a Windows virtual-key code to the terminal's key.
pub fn vk_to_key(vk: u32) -> (key: Option<Key>)
    ensures
        key == spec_vk_to_key(vk),
{
    if 0x30 <= vk && vk <= 0x39 {
        return Some(Key::Char((vk as u8) as char));
    }
    if 0x41 <= vk && vk <= 0x5A {
        return Some(Key::Char(((vk as u8) + 32) as char));
    }
    if vk == VK_RETURN {
        Some(Key::Enter)
    }     else if vk == VK_TAB {
        Some(Key::Tab)
    }     else if vk == VK_BACK {
        Some(Key::Backspace)
    }     else if vk == VK_DELETE {
        Some(Key::Delete)
    }     else if vk == VK_INSERT {
        Some(Key::Insert)
    }     else if vk == VK_ESCAPE {
        Some(Key::Escape)
    }     else if vk == VK_SPACE {
        Some(Key::Char(' '))
    }     else if vk == VK_UP {
        Some(Key::UpArrow)
    }     else if vk == VK_DOWN {
        Some(Key::DownArrow)
    }     else if vk == VK_LEFT {
        Some(Key::LeftArrow)
    }     else if vk == VK_RIGHT {
        Some(Key::RightArrow)
    }     else if vk == VK_HOME {
        Some(Key::Home)
    }     else if vk == VK_END {
        Some(Key::End)
    }     else if vk == VK_PRIOR {
        Some(Key::PageUp)
    }     else if vk == VK_NEXT {
        Some(Key::PageDown)
    }     else if vk == VK_F1 {
        Some(Key::F(1))
    }     else if vk == VK_F2 {
        Some(Key::F(2))
    }     else if vk == VK_F3 {
        Some(Key::F(3))
    }     else if vk == VK_F4 {
        Some(Key::F(4))
    }     else if vk == VK_F5 {
        Some(Key::F(5))
    }     else if vk == VK_F6 {
        Some(Key::F(6))
    }     else if vk == VK_F7 {
        Some(Key::F(7))
    }     else if vk == VK_F8 {
        Some(Key::F(8))
    }     else if vk == VK_F9 {
        Some(Key::F(9))
    }     else if vk == VK_F10 {
        Some(Key::F(10))
    }     else if vk == VK_F11 {
        Some(Key::F(11))
    }     else if vk == VK_F12 {
        Some(Key::F(12))
    }     else if vk == VK_NUMPAD0 {
        Some(Key::Keypad0)
    }     else if vk == VK_NUMPAD1 {
        Some(Key::Keypad1)
    }     else if vk == VK_NUMPAD2 {
        Some(Key::Keypad2)
    }     else if vk == VK_NUMPAD3 {
        Some(Key::Keypad3)
    }     else if vk == VK_NUMPAD4 {
        Some(Key::Keypad4)
    }     else if vk == VK_NUMPAD5 {
        Some(Key::Keypad5)
    }     else if vk == VK_NUMPAD6 {
        Some(Key::Keypad6)
    }     else if vk == VK_NUMPAD7 {
        Some(Key::Keypad7)
    }     else if vk == VK_NUMPAD8 {
        Some(Key::Keypad8)
    }     else if vk == VK_NUMPAD9 {
        Some(Key::Keypad9)
    }     else if vk == VK_MULTIPLY {
        Some(Key::KeypadMultiply)
    }     else if vk == VK_ADD {
        Some(Key::KeypadAdd)
    }     else if vk == VK_SUBTRACT {
        Some(Key::KeypadSubtract)
    }     else if vk == VK_DECIMAL {
        Some(Key::KeypadDecimal)
    }     else if vk == VK_DIVIDE {
        Some(Key::KeypadDivide)
    }     else if vk == VK_SEPARATOR {
        Some(Key::KeypadEnter)
    }     else if vk == VK_CAPITAL {
        Some(Key::CapsLock)
    }     else if vk == VK_NUMLOCK {
        Some(Key::NumLock)
    }     else if vk == VK_SCROLL {
        Some(Key::ScrollLock)
    }     else if vk == VK_PAUSE {
        Some(Key::Pause)
    }     else if vk == VK_SNAPSHOT {
        Some(Key::PrintScreen)
    }     else if vk == VK_APPS {
        Some(Key::Menu)
    } else {
        None
    }
}

/// Every key that a virtual-key code maps to determines that code: the
/// mapping loses nothing.
pub proof fn lemma_vk_to_key_round_trip(vk: u32)
    requires
        spec_vk_to_key(vk) is Some,
    ensures
        vk_of_key(spec_vk_to_key(vk).unwrap()) == Some(vk),
{
}

/// Two virtual-key codes that map to the same key are the same code.
pub proof fn lemma_vk_to_key_injective(a: u32, b: u32)
    requires
        spec_vk_to_key(a) is Some,
        spec_vk_to_key(a) == spec_vk_to_key(b),
    ensures
        a == b,
{
    lemma_vk_to_key_round_trip(a);
    lemma_vk_to_key_round_trip(b);
}

/// Letters come out in lower case: the codes `A`-`Z` map to the characters
/// `a`-`z`, and no other code maps to a letter.
pub proof fn lemma_vk_letters_lower_case(vk: u32)
    ensures
        (0x41 <= vk <= 0x5A) ==> spec_vk_to_key(vk) == Some(Key::Char(((vk + 32) as u8) as char))
            && 'a' <= ((vk + 32) as u8) as char <= 'z',
        forall|c: char| 'A' <= c <= 'Z' ==> spec_vk_to_key(vk) != Some(Key::Char(c)),
{
}

/// Whether a key state read from `GetKeyState` says the key is held: its
/// high bit is set, which for the signed state means it is negative.
pub fn key_is_down(state: i16) -> (down: bool)
    ensures
        down == (state < 0),
{
    let bits: u16 = state as u16;
    assert((bits & 0x8000u16 != 0) == (state < 0)) by (bit_vector)
        requires
            bits == state as u16,
    ;
    bits & 0x8000 != 0
}

/// The modifier bits for the given held modifiers.
pub open spec fn modifier_bits(shift: bool, ctrl: bool, alt: bool, win: bool) -> u16 {
    (if shift { SHIFT_BIT } else { 0u16 }) | (if ctrl { CTRL_BIT } else { 0u16 }) | (if alt {
        ALT_BIT
    } else {
        0u16
    }) | (if win { SUPER_BIT } else { 0u16 })
}

/// The modifiers held according to the key states of Shift, Control, Alt
/// (`VK_MENU`) and the two Windows keys, as `GetKeyState` reports them.
/// Either Windows key gives Super.
pub fn get_modifiers(shift: i16, control: i16, menu: i16, lwin: i16, rwin: i16) -> (mods: Modifiers)
    ensures
        mods.bits == modifier_bits(shift < 0, control < 0, menu < 0, lwin < 0 || rwin < 0),
{
    let shift_bit: u16 = if key_is_down(shift) { SHIFT_BIT } else { 0 };
    let ctrl_bit: u16 = if key_is_down(control) { CTRL_BIT } else { 0 };
    let alt_bit: u16 = if key_is_down(menu) { ALT_BIT } else { 0 };
    let super_bit: u16 = if key_is_down(lwin) || key_is_down(rwin) { SUPER_BIT } else { 0 };
    let mods = Modifiers::none().with(shift_bit).with(ctrl_bit).with(alt_bit).with(super_bit);
    assert((((0u16 | shift_bit) | ctrl_bit) | alt_bit) | super_bit == shift_bit | ctrl_bit | alt_bit
        | super_bit) by (bit_vector);
    mods
}

/// Each modifier is in the set exactly when its key is held, and no other
/// bit is set.
pub proof fn lemma_modifier_bits_exact(shift: bool, ctrl: bool, alt: bool, win: bool)
    ensures
        (modifier_bits(shift, ctrl, alt, win) & SHIFT_BIT != 0) == shift,
        (modifier_bits(shift, ctrl, alt, win) & CTRL_BIT != 0) == ctrl,
        (modifier_bits(shift, ctrl, alt, win) & ALT_BIT != 0) == alt,
        (modifier_bits(shift, ctrl, alt, win) & SUPER_BIT != 0) == win,
        modifier_bits(shift, ctrl, alt, win) & !(SHIFT_BIT | CTRL_BIT | ALT_BIT | SUPER_BIT) == 0,
{
    let b = modifier_bits(shift, ctrl, alt, win);
    assert((b & SHIFT_BIT != 0) == shift && (b & CTRL_BIT != 0) == ctrl && (b & ALT_BIT != 0)
        == alt && (b & SUPER_BIT != 0) == win && b & !(SHIFT_BIT | CTRL_BIT | ALT_BIT | SUPER_BIT)
        == 0) by (bit_vector)
        requires
            b == (if shift { SHIFT_BIT } else { 0u16 }) | (if ctrl { CTRL_BIT } else { 0u16 }) | (
            if alt {
                ALT_BIT
            } else {
                0u16
            }) | (if win { SUPER_BIT } else { 0u16 }),
    ;
}

} // verus!
