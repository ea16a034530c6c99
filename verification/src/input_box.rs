//! The editable line of text, kept by the `tui_input` crate.

use ratatui::crossterm::event as terminal;
use tui_input::backend::crossterm::EventHandler;
use tui_input::Input;
use vstd::prelude::*;

use crate::keys::{KeyCode, KeyEvent};

verus! {

/// `tui_input::Input`, an editable line of text. What it holds is only known by the names
/// below.
#[verifier::external_type_specification]
#[verifier::external_body]
pub struct ExInput(tui_input::Input);

/// The text that an input box holds.
pub uninterp spec fn input_text(input: Input) -> Seq<char>;

/// How many characters of the text stand before the cursor.
pub uninterp spec fn input_cursor(input: Input) -> nat;

/// Text that was cut out of an input box, to be put back by a key.
#[verifier::ext_equal]
pub struct Cut {
    pub text: Seq<char>,
    /// The next cut adds to the text.
    pub ongoing: bool,
}

impl Cut {
    /// Nothing was cut.
    pub open spec fn nothing() -> Cut {
        Cut { text: Seq::empty(), ongoing: false }
    }
}

/// What was cut out of an input box.
pub uninterp spec fn input_cut(input: Input) -> Cut;

/// What comes of a key in an input box.
#[verifier::ext_equal]
pub struct Edited {
    pub text: Seq<char>,
    pub cursor: nat,
    pub cut: Cut,
    /// Whether the text and the cursor changed, as far as the key did anything.
    pub changed: Option<(bool, bool)>,
}

/// What `tui_input`'s `EventHandler::handle_event` makes of a key, from a text, a cursor
/// and what was cut before.
pub uninterp spec fn edited(key: KeyEvent, text: Seq<char>, cursor: nat, cut: Cut) -> Edited;

/// The column that `tui_input::Input::visual_cursor` computes from a text and a cursor.
pub uninterp spec fn cursor_column(text: Seq<char>, cursor: nat) -> usize;

/// The columns that `tui_input::Input::visual_scroll` hides, from a text, a
/// cursor and the width of the box.
pub uninterp spec fn hidden_columns(text: Seq<char>, cursor: nat, width: usize) -> usize;

/// `tui_input::Input::new` holds the given text with the cursor behind it, and nothing
/// that was cut.
#[verifier::external_body]
pub(crate) fn new_input(value: String) -> (r: Input)
    ensures
        input_text(r) == value@,
        input_cursor(r) == value@.len(),
        input_cut(r) == Cut::nothing(),
{
    Input::new(value)
}

/// `tui_input::Input::reset` empties the text, and keeps what was cut.
#[verifier::external_body]
pub(crate) fn reset_input(input: &mut Input)
    ensures
        input_text(*final(input)) == Seq::<char>::empty(),
        input_cursor(*final(input)) == 0,
        input_cut(*final(input)) == input_cut(*old(input)),
{
    input.reset();
}

/// `tui_input::Input::value` gives the text.
#[verifier::external_body]
pub(crate) fn input_value(input: &Input) -> (r: &str)
    ensures
        r@ == input_text(*input),
{
    input.value()
}

/// `tui_input::Input::visual_cursor` depends on text and cursor alone.
#[verifier::external_body]
pub(crate) fn visual_cursor(input: &Input) -> (r: usize)
    ensures
        r == cursor_column(input_text(*input), input_cursor(*input)),
{
    input.visual_cursor()
}

/// `tui_input::Input::visual_scroll` depends on text, cursor and width alone.
#[verifier::external_body]
pub(crate) fn visual_scroll(input: &Input, width: usize) -> (r: usize)
    ensures
        r == hidden_columns(input_text(*input), input_cursor(*input), width),
{
    input.visual_scroll(width)
}

/// Whether a key types its character.
pub open spec fn types_char(key: KeyEvent) -> bool {
    key.code is Char && (key.modifiers == 0 || key.modifiers == crate::keys::SHIFT || key.modifiers
        == crate::keys::CONTROL_ALT)
}

/// What is known of what comes of a key in a box with a text and a cursor.
pub open spec fn key_effect(key: KeyEvent, text: Seq<char>, cursor: nat, new: Edited) -> bool {
    &&& new.changed is None ==> new.text == text && new.cursor == cursor
    &&& new.changed matches Some((in_text, in_cursor)) ==> {
        &&& !in_text ==> new.text == text
        &&& !in_cursor ==> new.cursor == cursor
    }
    &&& cursor <= text.len() ==> new.cursor <= new.text.len()
    &&& types_char(key) && cursor <= text.len() ==> {
        &&& new.text == text.insert(cursor as int, key.code->Char_0)
        &&& new.cursor == cursor + 1
        &&& new.changed == Some((true, true))
    }
    &&& key.modifiers == 0 && cursor <= text.len() ==> match key.code {
        KeyCode::Backspace => {
            &&& new.changed == (if cursor == 0 {
                None
            } else {
                Some((true, true))
            })
            &&& cursor > 0 ==> new.cursor < cursor && new.text == text.take(new.cursor as int)
                + text.skip(cursor as int)
        },
        KeyCode::Delete => {
            &&& new.changed == (if cursor == text.len() {
                None
            } else {
                Some((true, false))
            })
            &&& cursor < text.len() ==> exists|end: int|
                cursor < end <= text.len() && new.text == text.take(cursor as int)
                    + #[trigger] text.skip(end)
        },
        KeyCode::Left => {
            &&& new.changed == (if cursor == 0 {
                None
            } else {
                Some((false, true))
            })
            &&& cursor > 0 ==> new.cursor < cursor
        },
        KeyCode::Right => {
            &&& new.changed == (if cursor == text.len() {
                None
            } else {
                Some((false, true))
            })
            &&& cursor < text.len() ==> new.cursor > cursor
        },
        KeyCode::Home => {
            &&& new.changed == (if cursor == 0 {
                None
            } else {
                Some((false, true))
            })
            &&& new.cursor == 0
        },
        KeyCode::End => {
            &&& new.changed == (if cursor == text.len() {
                None
            } else {
                Some((false, true))
            })
            &&& new.cursor == text.len()
        },
        KeyCode::Char(_) => true,
        _ => new.changed is None,
    }
}

/// `tui_input`'s `EventHandler::handle_event` edits the text as the key asks, depending
/// on the key, the text, the cursor and what was cut before alone. A step or a deletion
/// covers one character as a reader sees it, which may be several code points: how many
/// is not stated. What chords with the control key do is only named.
#[verifier::external_body]
pub(crate) fn handle_key(input: &mut Input, key: KeyEvent) -> (r: Option<(bool, bool)>)
    ensures
        (Edited {
            text: input_text(*final(input)),
            cursor: input_cursor(*final(input)),
            cut: input_cut(*final(input)),
            changed: r,
        }) == edited(
            key,
            input_text(*old(input)),
            input_cursor(*old(input)),
            input_cut(*old(input)),
        ),
        key_effect(
            key,
            input_text(*old(input)),
            input_cursor(*old(input)),
            Edited {
                text: input_text(*final(input)),
                cursor: input_cursor(*final(input)),
                cut: input_cut(*final(input)),
                changed: r,
            },
        ),
{
    let code = match key.code {
        KeyCode::Char(c) => terminal::KeyCode::Char(c),
        KeyCode::Backspace => terminal::KeyCode::Backspace,
        KeyCode::Delete => terminal::KeyCode::Delete,
        KeyCode::Left => terminal::KeyCode::Left,
        KeyCode::Right => terminal::KeyCode::Right,
        KeyCode::Home => terminal::KeyCode::Home,
        KeyCode::End => terminal::KeyCode::End,
        _ => terminal::KeyCode::Null,
    };
    let modifiers = terminal::KeyModifiers::from_bits_truncate(key.modifiers);
    let event = terminal::Event::Key(terminal::KeyEvent::new(code, modifiers));
    input.handle_event(&event).map(|change| (change.value, change.cursor))
}

} // verus!
