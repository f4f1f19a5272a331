use kat::input::{get_arrow_character_from_byte, get_special_character_from_byte, Character};
use kat::text::str_to_chars;

#[test]
fn arrow_bytes_decode_to_arrow_keys() {
    assert_eq!(get_arrow_character_from_byte(65), Some(Character::ArrowTop));
    assert_eq!(get_arrow_character_from_byte(66), Some(Character::ArrowBottom));
    assert_eq!(get_arrow_character_from_byte(67), Some(Character::ArrowRight));
    assert_eq!(get_arrow_character_from_byte(68), Some(Character::ArrowLeft));
}

#[test]
fn other_bytes_are_not_arrows() {
    assert_eq!(get_arrow_character_from_byte(64), None);
    assert_eq!(get_arrow_character_from_byte(69), None);
    assert_eq!(get_arrow_character_from_byte(0), None);
}

#[test]
fn special_bytes_decode_to_enter_and_backspace() {
    assert_eq!(get_special_character_from_byte(13), Some(Character::Enter));
    assert_eq!(get_special_character_from_byte(127), Some(Character::Backspace));
    assert_eq!(get_special_character_from_byte(65), None);
    assert_eq!(get_special_character_from_byte(10), None);
}

#[test]
fn str_to_chars_keeps_every_code_point() {
    assert_eq!(str_to_chars(""), Vec::<char>::new());
    assert_eq!(str_to_chars("ab c"), vec!['a', 'b', ' ', 'c']);
    assert_eq!(str_to_chars("o\u{308}"), vec!['o', '\u{308}']);
}
