//! What the user types, and what they sent before.

use yap::keys::{KeyCode, KeyEvent, CONTROL, SHIFT};
use yap::settings::line_ending::{MacroTxLineEnding, RxLineEnding, TxLineEnding};
use yap::text_input::{History, HistoryEntry, TextInput};

fn key(c: char) -> KeyEvent {
    KeyEvent { code: KeyCode::Char(c), modifiers: 0 }
}

fn special(code: KeyCode) -> KeyEvent {
    KeyEvent { code, modifiers: 0 }
}

fn type_text(input: &mut TextInput, text: &str) {
    for c in text.chars() {
        input.consume_typing_event(key(c));
    }
}

#[test]
fn history_moves_repeated_entries_to_the_end() {
    let mut history = History::new();
    history.push("one", false);
    history.push("two", false);
    history.push("one", false);
    history.push("", false);
    assert!(history.scroll(true).unwrap().eq_text("one"));
    assert!(history.scroll(true).unwrap().eq_text("two"));
    assert!(history.scroll(true).unwrap().eq_text("two"));
}

#[test]
fn history_tells_text_from_bytes() {
    let mut history = History::new();
    history.push("AB", false);
    history.push("AB", true);
    let newest = history.scroll(true).unwrap();
    assert!(newest.eq_bytes("AB") && !newest.eq_text("AB") && newest.is_bytes());
    assert!(history.scroll(true).unwrap().eq_text("AB"));
    assert_eq!(HistoryEntry::new("x", true).as_str(), "x");
}

#[test]
fn leaving_the_history_selects_nothing() {
    let mut history = History::new();
    assert!(history.scroll(true).is_none());
    history.push("one", false);
    assert!(history.scroll(false).is_none());
    assert!(history.scroll(true).is_some());
    assert!(history.scroll(false).is_none());
    assert!(history.get_selected().is_none());
}

#[test]
fn typing_edits_the_text() {
    let mut input = TextInput::new();
    type_text(&mut input, "helo");
    input.consume_typing_event(special(KeyCode::Left));
    input.consume_typing_event(key('l'));
    assert_eq!(input.value(), "hello");
    input.consume_typing_event(special(KeyCode::End));
    input.consume_typing_event(special(KeyCode::Backspace));
    assert_eq!(input.value(), "hell");
    input.consume_typing_event(special(KeyCode::Home));
    input.consume_typing_event(special(KeyCode::Delete));
    assert_eq!(input.value(), "ell");
}

#[test]
fn only_digits_are_typed_among_bytes() {
    let mut input = TextInput::new();
    input.toggle_bytes_entry();
    assert!(input.byte_entry_active());
    type_text(&mut input, "0fgz9");
    assert_eq!(input.value(), "0F9");
    assert_eq!(input.entered_bytes(), vec!["0F", "9"]);
}

#[test]
fn switching_rewrites_what_was_typed() {
    let mut input = TextInput::new();
    type_text(&mut input, "Hi");
    input.toggle_bytes_entry();
    assert_eq!(input.value(), "4869");
    type_text(&mut input, "2");
    input.toggle_bytes_entry();
    assert_eq!(input.value(), "Hi");
    assert!(!input.byte_entry_active());
    input.toggle_bytes_entry();
    type_text(&mut input, "ff");
    input.toggle_bytes_entry();
    assert_eq!(input.value(), "Hi");
}

#[test]
fn words_are_removed_from_the_end() {
    let mut input = TextInput::new();
    type_text(&mut input, "one two  ");
    input.remove_one_word();
    assert_eq!(input.value(), "one ");
    input.remove_one_word();
    assert_eq!(input.value(), "");
    input.replace_input_with_bytes(&[1, 2]);
    assert_eq!(input.value(), "0102");
    assert!(input.word_removal_possible());
    input.remove_one_word();
    assert_eq!(input.value(), "01");
}

#[test]
fn sent_input_is_remembered() {
    let mut input = TextInput::new();
    type_text(&mut input, "first");
    input.commit_input_to_history();
    assert_eq!(input.value(), "");
    type_text(&mut input, "draft");
    input.scroll_history(true);
    assert_eq!(input.value(), "first");
    input.scroll_history(false);
    assert_eq!(input.value(), "draft");
}

#[test]
fn what_was_typed_comes_back_after_many_steps() {
    for steps in 0..6 {
        let mut input = TextInput::new();
        for text in ["first", "second", "third"] {
            type_text(&mut input, text);
            input.commit_input_to_history();
        }
        type_text(&mut input, "draft");
        for _ in 0..steps {
            input.scroll_history(true);
        }
        let reached = ["draft", "third", "second", "first", "first", "first"];
        assert_eq!(input.value(), reached[steps]);
        for _ in 0..steps {
            input.scroll_history(false);
        }
        assert_eq!(input.value(), "draft");
    }
}

#[test]
fn search_finds_older_inputs_with_the_same_start() {
    let mut input = TextInput::new();
    for text in ["reset", "Read 1", "write", "read 2"] {
        type_text(&mut input, text);
        input.commit_input_to_history();
    }
    type_text(&mut input, "re");
    input.find_input_in_history();
    assert_eq!(input.value(), "read 2");
    input.find_input_in_history();
    assert_eq!(input.value(), "Read 1");
    input.find_input_in_history();
    assert_eq!(input.value(), "reset");
    input.find_input_in_history();
    assert_eq!(input.value(), "reset");
}

#[test]
fn pasting_adds_at_the_end() {
    let mut input = TextInput::new();
    type_text(&mut input, "ab");
    input.append_to_input("cd");
    assert_eq!(input.value(), "abcd");
    input.replace_input_with_text("é");
    assert_eq!(input.value(), "é");
    assert_eq!(input.cursor_and_scroll(80), (1, 0));
    input.clear();
    assert_eq!(input.value(), "");
}

#[test]
fn marking_ends_with_a_change() {
    let mut input = TextInput::new();
    type_text(&mut input, "ab");
    input.select_all(true);
    assert!(input.all_selected());
    input.consume_typing_event(key('c'));
    assert!(!input.all_selected());
}

#[test]
fn chords_are_not_typed() {
    let mut input = TextInput::new();
    input.consume_typing_event(KeyEvent { code: KeyCode::Char('x'), modifiers: SHIFT });
    assert_eq!(input.value(), "x");
    input.consume_typing_event(KeyEvent { code: KeyCode::F(1), modifiers: CONTROL });
    assert_eq!(input.value(), "x");
}

#[test]
fn a_broken_digit_cannot_be_toggled() {
    let mut input = TextInput::new();
    input.toggle_bytes_entry();
    input.append_to_input("1é");
    assert!(!input.toggle_possible());
    input.append_to_input("1");
    assert!(input.toggle_possible());
}

#[test]
fn preset_endings_round_trip() {
    for (text, bytes) in [("\\n", &b"\n"[..]), ("\\r", b"\r"), ("\\r\\n", b"\r\n"), ("", b"")] {
        let ending = RxLineEnding::from_str(text);
        assert!(matches!(ending, RxLineEnding::Preset(_, _)));
        assert_eq!(ending.as_bytes(), bytes);
        assert_eq!(ending.as_text(), text);
        assert_eq!(RxLineEnding::from_str(ending.as_text()).as_bytes(), bytes);
    }
    assert_eq!(RxLineEnding::from_str("\n").as_text(), "\\n");
}

#[test]
fn custom_endings_are_unescaped() {
    let ending = RxLineEnding::from_str("\\x00;");
    assert_eq!(ending.as_bytes(), &[0, b';']);
    assert!(matches!(ending, RxLineEnding::Custom(_, _)));
    assert_eq!(RxLineEnding::from_str(ending.as_text()).as_bytes(), &[0, b';']);
}

#[test]
fn endings_are_inherited() {
    let rx = RxLineEnding::from_str("\\n");
    let tx = TxLineEnding::from_str("InheritRX");
    assert!(matches!(tx, TxLineEnding::InheritRx));
    assert_eq!(tx.as_bytes(&rx), b"\n");
    let own = TxLineEnding::from_str("\\r");
    assert_eq!(own.as_bytes(&rx), b"\r");
    let inherit = MacroTxLineEnding::from_str("InheritTX");
    assert_eq!(inherit.as_bytes(&rx, &own), b"\r");
    assert_eq!(inherit.as_bytes(&rx, &tx), b"\n");
    assert_eq!(inherit.as_text(), "InheritTX");
    assert_eq!(MacroTxLineEnding::from_str("InheritRX").as_bytes(&rx, &own), b"\n");
    assert_eq!(MacroTxLineEnding::from_str(";").as_bytes(&rx, &own), b";");
}

#[test]
fn cut_text_comes_back() {
    let mut input = TextInput::new();
    let chord = |c: char| KeyEvent { code: KeyCode::Char(c), modifiers: CONTROL };
    for c in "one two".chars() {
        input.consume_typing_event(KeyEvent { code: KeyCode::Char(c), modifiers: 0 });
    }
    input.consume_typing_event(chord('w'));
    assert_eq!(input.value(), "one ");
    input.consume_typing_event(chord('u'));
    assert_eq!(input.value(), "");
    input.consume_typing_event(chord('y'));
    assert_eq!(input.value(), "one two");
    input.clear();
    input.consume_typing_event(chord('y'));
    assert_eq!(input.value(), "one two");
    input.replace_input_with_text("x");
    input.consume_typing_event(chord('y'));
    assert_eq!(input.value(), "x");
    assert_eq!(input.input_box().cursor(), 1);
}
