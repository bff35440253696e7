//! The keyboard layout: which key of a keyboard stands for which key of the
//! machine's keypad.
//!
//! The keypad's four rows `1 2 3 C`, `4 5 6 D`, `7 8 9 E`, `A 0 B F` lie on
//! the four rows of keys that begin with `1`, `Q`, `A` and `Z`.

use vstd::prelude::*;

verus! {

/// The keypad key for the keyboard key that bears the character `key`, if
/// the key stands for one. Letters are lower case.
pub open spec fn button_of(key: char) -> Option<usize> {
    match key {
        '1' => Some(0x1),
        '2' => Some(0x2),
        '3' => Some(0x3),
        '4' => Some(0xC),
        'q' => Some(0x4),
        'w' => Some(0x5),
        'e' => Some(0x6),
        'r' => Some(0xD),
        'a' => Some(0x7),
        's' => Some(0x8),
        'd' => Some(0x9),
        'f' => Some(0xE),
        'z' => Some(0xA),
        'x' => Some(0x0),
        'c' => Some(0xB),
        'v' => Some(0xF),
        _ => None,
    }
}

/// The keypad key for a keyboard key.
pub fn key2btn(key: char) -> (button: Option<usize>)
    ensures
        button == button_of(key),
{
    match key {
        '1' => Some(0x1),
        '2' => Some(0x2),
        '3' => Some(0x3),
        '4' => Some(0xC),
        'q' => Some(0x4),
        'w' => Some(0x5),
        'e' => Some(0x6),
        'r' => Some(0xD),
        'a' => Some(0x7),
        's' => Some(0x8),
        'd' => Some(0x9),
        'f' => Some(0xE),
        'z' => Some(0xA),
        'x' => Some(0x0),
        'c' => Some(0xB),
        'v' => Some(0xF),
        _ => None,
    }
}

/// The character on the keyboard key that stands for keypad key `button`.
pub open spec fn key_of(button: usize) -> char {
    match button {
        0x0 => 'x',
        0x1 => '1',
        0x2 => '2',
        0x3 => '3',
        0x4 => 'q',
        0x5 => 'w',
        0x6 => 'e',
        0x7 => 'a',
        0x8 => 's',
        0x9 => 'd',
        0xA => 'z',
        0xB => 'c',
        0xC => '4',
        0xD => 'r',
        0xE => 'f',
        _ => 'v',
    }
}

/// The layout pairs the 16 keys of the keypad with 16 keyboard keys, one to
/// one: [`key_of`] and [`button_of`] undo each other.
pub proof fn lemma_layout_is_one_to_one()
    ensures
        forall|button: usize| button < 16 ==> button_of(#[trigger] key_of(button)) == Some(button),
        forall|key: char|
            (#[trigger] button_of(key)) matches Some(button) ==> button < 16 && key_of(button)
                == key,
{
}

} // verus!
