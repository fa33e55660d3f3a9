use chip8::keypad::{Keypad, KEY_COUNT};

#[test]
fn new_keypad_has_no_key_pressed() {
    let keypad = Keypad::new();
    for key in 0..16u8 {
        assert!(!keypad.is_pressed(key));
    }
    assert_eq!(keypad.first_pressed(), None);
    assert_eq!(KEY_COUNT, 16);
}

#[test]
fn set_key_changes_one_key_only() {
    let mut keypad = Keypad::new();
    keypad.set_key(0xA, true);
    for key in 0..16u8 {
        assert_eq!(keypad.is_pressed(key), key == 0xA);
    }
    keypad.set_key(0xA, false);
    for key in 0..16u8 {
        assert!(!keypad.is_pressed(key));
    }
}

#[test]
fn first_pressed_is_the_lowest_pressed_key() {
    let mut keypad = Keypad::new();
    keypad.set_key(0xF, true);
    assert_eq!(keypad.first_pressed(), Some(0xF));
    keypad.set_key(0x3, true);
    assert_eq!(keypad.first_pressed(), Some(0x3));
    keypad.set_key(0x0, true);
    assert_eq!(keypad.first_pressed(), Some(0x0));
    keypad.set_key(0x0, false);
    keypad.set_key(0x3, false);
    assert_eq!(keypad.first_pressed(), Some(0xF));
}
