use kaku_window::keys::{Key, ALT_BIT, CTRL_BIT, SHIFT_BIT, SUPER_BIT};
use kaku_window::windows::keycodes::{
    get_modifiers, key_is_down, vk_to_key, VK_ADD, VK_APPS, VK_BACK, VK_F1, VK_F12, VK_NUMPAD0,
    VK_NUMPAD9, VK_RETURN, VK_SEPARATOR, VK_SHIFT, VK_SPACE,
};

#[test]
fn digits_map_to_their_characters() {
    assert_eq!(vk_to_key(0x30), Some(Key::Char('0')));
    assert_eq!(vk_to_key(0x39), Some(Key::Char('9')));
}

#[test]
fn letters_map_to_lower_case() {
    assert_eq!(vk_to_key(0x41), Some(Key::Char('a')));
    assert_eq!(vk_to_key(0x5A), Some(Key::Char('z')));
    assert_eq!(vk_to_key(0x4D), Some(Key::Char('m')));
}

#[test]
fn special_keys_map_to_their_keys() {
    assert_eq!(vk_to_key(VK_RETURN), Some(Key::Enter));
    assert_eq!(vk_to_key(VK_BACK), Some(Key::Backspace));
    assert_eq!(vk_to_key(VK_SPACE), Some(Key::Char(' ')));
    assert_eq!(vk_to_key(VK_F1), Some(Key::F(1)));
    assert_eq!(vk_to_key(VK_F12), Some(Key::F(12)));
    assert_eq!(vk_to_key(VK_NUMPAD0), Some(Key::Keypad0));
    assert_eq!(vk_to_key(VK_NUMPAD9), Some(Key::Keypad9));
    assert_eq!(vk_to_key(VK_ADD), Some(Key::KeypadAdd));
    assert_eq!(vk_to_key(VK_SEPARATOR), Some(Key::KeypadEnter));
    assert_eq!(vk_to_key(VK_APPS), Some(Key::Menu));
}

#[test]
fn unmapped_codes_give_nothing() {
    assert_eq!(vk_to_key(VK_SHIFT), None);
    assert_eq!(vk_to_key(0x2F), None);
    assert_eq!(vk_to_key(0x3A), None);
    assert_eq!(vk_to_key(0x40), None);
    assert_eq!(vk_to_key(0x5B), None);
    assert_eq!(vk_to_key(0x7C), None);
    assert_eq!(vk_to_key(0x1_0000), None);
}

#[test]
fn distinct_codes_give_distinct_keys() {
    let mut seen: Vec<(u32, Key)> = Vec::new();
    for vk in 0u32..0x200 {
        if let Some(k) = vk_to_key(vk) {
            for (other, ok) in &seen {
                assert!(*ok != k, "codes {} and {} both map to {:?}", other, vk, k);
            }
            seen.push((vk, k));
        }
    }
    assert_eq!(seen.len(), 10 + 26 + 49);
}

#[test]
fn key_state_high_bit_means_down() {
    assert!(key_is_down(i16::MIN));
    assert!(key_is_down(-127));
    assert!(!key_is_down(0));
    assert!(!key_is_down(1));
    assert!(!key_is_down(i16::MAX));
}

#[test]
fn modifiers_follow_key_states() {
    let down: i16 = -128;
    assert_eq!(get_modifiers(0, 0, 0, 0, 0).bits, 0);
    assert_eq!(get_modifiers(down, 0, 0, 0, 0).bits, SHIFT_BIT);
    assert_eq!(get_modifiers(0, down, 0, 0, 0).bits, CTRL_BIT);
    assert_eq!(get_modifiers(0, 0, down, 0, 0).bits, ALT_BIT);
    assert_eq!(get_modifiers(0, 0, 0, down, 0).bits, SUPER_BIT);
    assert_eq!(get_modifiers(0, 0, 0, 0, down).bits, SUPER_BIT);
    assert_eq!(get_modifiers(down, down, down, down, down).bits, 2 | 4 | 8 | 16);
    // toggled (low bit) but not held: not a modifier
    assert_eq!(get_modifiers(1, 1, 1, 1, 1).bits, 0);
    let m = get_modifiers(down, 0, down, 0, 0);
    assert!(m.contains(SHIFT_BIT) && m.contains(ALT_BIT) && !m.contains(CTRL_BIT));
}
