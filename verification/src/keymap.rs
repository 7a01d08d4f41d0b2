use vstd::prelude::*;

verus! {

/// The keyboard keys that stand for the sixteen keys of the keypad, by
/// their key codes, in keypad order: the four rows `7 8 9 0`, `u i o p`,
/// `j k l ;` and `m , . /`. The code of each of these keys is the code of
/// the character it types.
pub const KEY_CODES: [u32; 16] = [
    0x37, 0x38, 0x39, 0x30,
    0x75, 0x69, 0x6F, 0x70,
    0x6A, 0x6B, 0x6C, 0x3B,
    0x6D, 0x2C, 0x2E, 0x2F,
];

/// No key of the keypad has the key code `code`.
pub open spec fn unmapped(code: u32) -> bool {
    forall|k: int| 0 <= k < 16 ==> KEY_CODES[k] != code
}

/// No two keys of the keypad share a key code.
pub proof fn lemma_key_codes_distinct()
    ensures
        forall|j: int, k: int| 0 <= j < k < 16 ==> KEY_CODES[j] != KEY_CODES[k],
{
}

/// The keypad key that the keyboard key with key code `code` stands for:
/// the position of `code` in `KEY_CODES`, or nothing for any other key.
pub fn map_key(code: u32) -> (key: Option<usize>)
    ensures
        match key {
            Some(k) => k < 16 && KEY_CODES[k as int] == code,
            None => unmapped(code),
        },
{
    match code {
        0x37 => Some(0x00),
        0x38 => Some(0x01),
        0x39 => Some(0x02),
        0x30 => Some(0x03),
        0x75 => Some(0x04),
        0x69 => Some(0x05),
        0x6F => Some(0x06),
        0x70 => Some(0x07),
        0x6A => Some(0x08),
        0x6B => Some(0x09),
        0x6C => Some(0x0A),
        0x3B => Some(0x0B),
        0x6D => Some(0x0C),
        0x2C => Some(0x0D),
        0x2E => Some(0x0E),
        0x2F => Some(0x0F),
        _ => None,
    }
}

/// Records that the keyboard key with key code `code` went down: the keypad
/// key it stands for, if any, is marked as down in `keypad`, and no other
/// entry changes.
pub fn press_key(keypad: &mut [bool; 16], code: u32)
    ensures
        forall|k: int|
            0 <= k < 16 ==> final(keypad)[k] == (old(keypad)[k] || KEY_CODES[k] == code),
{
    match map_key(code) {
        Some(k) => {
            keypad[k] = true;
        },
        None => {},
    }
}

} // verus!
