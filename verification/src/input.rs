//! Decoding of raw input bytes into key characters. Reading the bytes from
//! the terminal is the caller's business; the mapping from byte values to
//! keys is pure and verified here.

use vstd::prelude::*;

verus! {

/// A decoded key: an arrow key, a special key, or a plain byte.
#[derive(Debug, Clone, Copy, PartialEq, Eq, Structural)]
pub enum Character {
    ArrowLeft,
    ArrowTop,
    ArrowRight,
    ArrowBottom,
    Enter,
    Backspace,
    Normal(u8),
}

/// The arrow key encoded by the final byte of an `ESC [` sequence, if any.
pub fn get_arrow_character_from_byte(byte: u8) -> (c: Option<Character>)
    ensures
        c == (match byte {
            65u8 => Some(Character::ArrowTop),
            66u8 => Some(Character::ArrowBottom),
            67u8 => Some(Character::ArrowRight),
            68u8 => Some(Character::ArrowLeft),
            _ => None::<Character>,
        }),
{
    match byte {
        65 => Option::Some(Character::ArrowTop),
        66 => Option::Some(Character::ArrowBottom),
        67 => Option::Some(Character::ArrowRight),
        68 => Option::Some(Character::ArrowLeft),
        _ => Option::None,
    }
}

/// The special key encoded by a single byte, if any: carriage return is
/// Enter, delete is Backspace.
pub fn get_special_character_from_byte(byte: u8) -> (c: Option<Character>)
    ensures
        c == (match byte {
            13u8 => Some(Character::Enter),
            127u8 => Some(Character::Backspace),
            _ => None::<Character>,
        }),
{
    match byte {
        13 => Option::Some(Character::Enter),
        127 => Option::Some(Character::Backspace),
        _ => Option::None,
    }
}

} // verus!
