//! Texts, numbers, keys and small helpers.

use yap::keys::{is_ctrl_c, KeyCode, KeyEvent, CONTROL, SHIFT};
use yap::parse::{parse_decimal, NumberError};
use yap::text::{
    byte_slice, concat2, concat3, eq_ignore_ascii_case, hex_pair, join, number, padded, relate,
    repeat_char, str_eq, to_ascii_upper, trim, Relation,
};
use yap::traits::{
    interleave_by, interleave_with, Asking, ByteSuffixCheck, FirstChars, HasEscapedBytes,
    LastIndex, StrAsOption, ToggleBool,
};
use yap::buffer::LineEnding;

#[test]
fn combination_normalizes_letters() {
    let lower = KeyEvent { code: KeyCode::Char('g'), modifiers: SHIFT };
    assert_eq!(lower.to_combination(), KeyEvent { code: KeyCode::Char('G'), modifiers: SHIFT });
    let upper = KeyEvent { code: KeyCode::Char('G'), modifiers: 0 };
    assert_eq!(upper.to_combination(), KeyEvent { code: KeyCode::Char('G'), modifiers: SHIFT });
    let enter = KeyEvent { code: KeyCode::Char('\r'), modifiers: CONTROL };
    assert_eq!(enter.to_combination(), KeyEvent { code: KeyCode::Enter, modifiers: CONTROL });
    let plain = KeyEvent { code: KeyCode::Char('é'), modifiers: SHIFT };
    assert_eq!(plain.to_combination(), plain);
}

#[test]
fn only_plain_ctrl_c_interrupts() {
    assert!(is_ctrl_c(&KeyEvent { code: KeyCode::Char('c'), modifiers: CONTROL }));
    assert!(!is_ctrl_c(&KeyEvent { code: KeyCode::Char('c'), modifiers: CONTROL | SHIFT }));
    assert!(!is_ctrl_c(&KeyEvent { code: KeyCode::Char('C'), modifiers: CONTROL }));
}

#[test]
fn held_modifiers_are_seen() {
    let key = KeyEvent { code: KeyCode::Enter, modifiers: CONTROL | SHIFT };
    assert!(key.ctrl() && key.shift());
    let key = KeyEvent { code: KeyCode::Enter, modifiers: 0 };
    assert!(!key.ctrl() && !key.shift());
}

#[test]
fn decimal_numbers_are_read() {
    assert_eq!(parse_decimal("115200", u32::MAX as u64), Ok(115200));
    assert_eq!(parse_decimal("+7", 9), Ok(7));
    assert_eq!(parse_decimal("0009", 9), Ok(9));
    assert_eq!(parse_decimal("4294967295", u32::MAX as u64), Ok(4294967295));
    assert_eq!(parse_decimal("18446744073709551615", u64::MAX), Ok(u64::MAX));
}

#[test]
fn decimal_errors_come_in_order() {
    assert_eq!(parse_decimal("", 9), Err(NumberError::Empty));
    assert_eq!(parse_decimal("+", 9), Err(NumberError::InvalidDigit));
    assert_eq!(parse_decimal("-1", 9), Err(NumberError::InvalidDigit));
    assert_eq!(parse_decimal("12a", 9), Err(NumberError::TooLarge));
    assert_eq!(parse_decimal("1a2", 9), Err(NumberError::InvalidDigit));
    assert_eq!(parse_decimal("4294967296", u32::MAX as u64), Err(NumberError::TooLarge));
    assert_eq!(parse_decimal("18446744073709551616", u64::MAX), Err(NumberError::TooLarge));
}

#[test]
fn decimal_agrees_with_std() {
    for text in ["", "+", "-", "+1", "1", "4294967295", "4294967296", " 1", "1 ", "9999999999x"] {
        match (parse_decimal(text, u32::MAX as u64), text.parse::<u32>()) {
            (Ok(a), Ok(b)) => assert_eq!(a, b as u64),
            (Err(a), Err(b)) => assert_eq!(a.as_text(), b.to_string()),
            (a, b) => panic!("{text:?}: {a:?} {b:?}"),
        }
    }
}

#[test]
fn texts_are_put_together() {
    assert_eq!(concat2("a", "b"), "ab");
    assert_eq!(concat3("a", "", "c"), "ac");
    assert_eq!(join(&vec!["x".to_string(), "y".to_string()], ", "), "x, y");
    assert_eq!(join(&vec![], ", "), "");
    assert_eq!(repeat_char('-', 3), "---");
    assert_eq!(padded("7", 3, '0'), "007");
    assert_eq!(padded("1234", 3, '0'), "1234");
}

#[test]
fn numbers_are_written_in_a_base() {
    assert_eq!(number(0, 10), "0");
    assert_eq!(number(65535, 16), "FFFF");
    assert_eq!(number(u64::MAX, 10), u64::MAX.to_string());
    assert_eq!(hex_pair(0x0a), "0A");
}

#[test]
fn texts_are_compared() {
    assert!(str_eq("héllo", "héllo") && !str_eq("a", "b"));
    assert!(eq_ignore_ascii_case("Pause_MS:", "pause_ms:"));
    assert!(!eq_ignore_ascii_case("é", "É"));
    assert_eq!(relate("a", "b"), Relation::Before);
    assert_eq!(relate("b", "a"), Relation::After);
    assert_eq!(relate("a", "ab"), Relation::Before);
    assert_eq!(relate("é", "é"), Relation::Same);
}

#[test]
fn texts_are_cut() {
    assert_eq!(trim("\t a b \n"), "a b");
    assert_eq!(trim("   "), "");
    assert_eq!(byte_slice("aéb", 1, 3), "é");
    assert_eq!(to_ascii_upper("esp32-é"), "ESP32-é");
}

#[test]
fn last_index_of_a_slice() {
    let items: [u8; 3] = [1, 2, 3];
    assert_eq!(items.as_slice().last_index_checked(), Some(2));
    assert!(items.as_slice().last_index_eq(2) && !items.as_slice().last_index_eq(1));
    let none: [u8; 0] = [];
    assert_eq!(none.as_slice().last_index_checked(), None);
}

#[test]
fn suffixes_are_checked() {
    assert!(b"abc\r\n".as_slice().has_byte_suffix(b"\r\n"));
    assert!(!b"\n".as_slice().has_byte_suffix(b"\r\n"));
    assert!(b"abc".as_slice().has_byte_suffix(b""));
    assert!(!b"abc".as_slice().has_line_ending(&LineEnding::Unset));
    assert!(b"abc\n".as_slice().has_line_ending(&LineEnding::Byte(b'\n')));
}

#[test]
fn first_chars_counts_characters() {
    assert_eq!("aéb".first_chars(2), Some("aé"));
    assert_eq!("aéb".first_chars(3), Some("aéb"));
    assert_eq!("aéb".first_chars(4), None);
}

#[test]
fn empty_text_is_no_option() {
    assert_eq!("".as_option(), None);
    assert_eq!("x".as_option(), Some("x"));
}

#[test]
fn flipping_returns_the_new_value() {
    let mut on = false;
    assert!(on.flip());
    assert!(!on.flip());
}

#[test]
fn escapes_are_noticed() {
    assert!("a\\n".has_escaped_bytes());
    assert!("\\xFF".has_escaped_bytes());
    assert!(!"plain".has_escaped_bytes());
}

#[test]
fn interleaving_keeps_every_item() {
    let left = [1u8, 4, 6];
    let right = [2u8, 3, 7];
    let merged = interleave_by(&left, &right, |a, b| a <= b);
    assert_eq!(merged, vec![1, 2, 3, 4, 6, 7]);
    let none: [u8; 0] = [];
    assert_eq!(interleave_by(&none, &right, |_, _| true), right.to_vec());
}

#[test]
fn each_pair_is_asked_about_once() {
    let asked = std::cell::RefCell::new(Vec::new());
    let mut asking = Asking::new(|a: &u8, b: &u8| {
        asked.borrow_mut().push((*a, *b));
        a < b
    });
    let out = interleave_with(&[1, 4, 5, 9], &[2, 3, 6], &mut asking);
    assert_eq!(out, vec![1, 2, 3, 4, 5, 6, 9]);
    assert_eq!(*asked.borrow(), vec![(1, 2), (4, 2), (4, 3), (4, 6), (5, 6), (9, 6)]);
    assert_eq!(interleave_with(&[1, 2], &[], &mut asking), vec![1, 2]);
    assert_eq!(asked.borrow().len(), 6);
}
