use chreight::keymap::{map_key, KEY_CODES};
use piston::input::Key;

#[test]
fn key_codes_are_those_of_the_keyboard_keys() {
    let keys = [
        Key::D7, Key::D8, Key::D9, Key::D0,
        Key::U, Key::I, Key::O, Key::P,
        Key::J, Key::K, Key::L, Key::Semicolon,
        Key::M, Key::Comma, Key::Period, Key::Slash,
    ];
    for (k, key) in keys.iter().enumerate() {
        assert_eq!(u32::from(*key), KEY_CODES[k]);
        assert_eq!(map_key(u32::from(*key)), Some(k));
    }
}

#[test]
fn keys_beside_the_sixteen_map_to_nothing() {
    for key in [Key::D1, Key::A, Key::Space, Key::Return, Key::Escape, Key::NumPad7, Key::Unknown] {
        assert_eq!(map_key(u32::from(key)), None);
    }
}

#[test]
fn keyboard_rows_map_to_keypad_rows() {
    let keys = "7890uiopjkl;m,./";
    for (k, ch) in keys.chars().enumerate() {
        assert_eq!(map_key(ch as u32), Some(k));
        assert_eq!(KEY_CODES[k], ch as u32);
    }
}

#[test]
fn other_keys_map_to_nothing() {
    assert_eq!(map_key(0), None);
    assert_eq!(map_key('1' as u32), None);
    assert_eq!(map_key('a' as u32), None);
    assert_eq!(map_key('U' as u32), None);
    assert_eq!(map_key(0x4000_0063), None);
    assert_eq!(map_key(u32::MAX), None);
}

#[test]
fn every_code_maps_to_at_most_one_key() {
    let mut mapped = 0;
    for code in 0..0x100u32 {
        if let Some(k) = map_key(code) {
            assert!(k < 16);
            assert_eq!(KEY_CODES[k], code);
            mapped += 1;
        }
    }
    assert_eq!(mapped, 16);
}

#[test]
fn pressing_a_mapped_key_marks_it_down() {
    let mut keypad = [false; 16];
    chreight::keymap::press_key(&mut keypad, 'u' as u32);
    let mut expected = [false; 16];
    expected[4] = true;
    assert_eq!(keypad, expected);
    chreight::keymap::press_key(&mut keypad, '/' as u32);
    expected[15] = true;
    assert_eq!(keypad, expected);
    chreight::keymap::press_key(&mut keypad, 'u' as u32);
    assert_eq!(keypad, expected);
}

#[test]
fn pressing_an_unmapped_key_changes_nothing() {
    let mut keypad = [false; 16];
    keypad[2] = true;
    chreight::keymap::press_key(&mut keypad, 'q' as u32);
    let mut expected = [false; 16];
    expected[2] = true;
    assert_eq!(keypad, expected);
}
