//! What a terminal sends for a key.

use ratatui::crossterm::event::KeyCode::{
    BackTab as TermBackTab, Backspace as TermBackspace, CapsLock as TermOther, Char as TermChar,
    Delete as TermDelete, Down as TermDown, End as TermEnd, Enter as TermEnter, Esc as TermEsc,
    Home as TermHome, Insert as TermInsert, Left as TermLeft, Null as TermNull,
    PageDown as TermPageDown, PageUp as TermPageUp, Right as TermRight, Tab as TermTab,
    Up as TermUp, F as TermF,
};
use ratatui::crossterm::event::{Event as TermEvent, KeyEvent as TermKey, KeyModifiers};
use terminput::Encoding;
use terminput_crossterm::to_terminput;
use vstd::prelude::*;
use vstd::utf8::*;

use crate::keys::KeyCode::{
    BackTab, Backspace, Char, Delete, Down, End, Enter, Esc, Home, Insert, Left, Null, Other,
    PageDown, PageUp, Right, Tab, Up, F,
};
use crate::keys::{KeyCode, KeyEvent};

verus! {

/// What came of encoding a key for the port.
#[derive(Debug)]
pub enum KeyEncoding {
    /// There is no such key for a terminal.
    Unknown,
    /// It has no code.
    Failed,
    Bytes(Vec<u8>),
}

/// What came of encoding a key, as plain values.
#[verifier::ext_equal]
pub enum EncodingView {
    Unknown,
    Failed,
    Bytes(Seq<u8>),
}

impl View for KeyEncoding {
    type V = EncodingView;

    open spec fn view(&self) -> EncodingView {
        match self {
            KeyEncoding::Unknown => EncodingView::Unknown,
            KeyEncoding::Failed => EncodingView::Failed,
            KeyEncoding::Bytes(bytes) => EncodingView::Bytes(bytes@),
        }
    }
}

/// What `terminput::Event::encode` writes for a key in the encoding of `xterm`, if there
/// is a code for it.
pub uninterp spec fn terminal_code(key: KeyEvent) -> Option<Seq<u8>>;

/// Whether a chord with the control key is beyond what can be encoded: its character
/// ends in a byte that has no successor.
pub open spec fn beyond_code(key: KeyEvent) -> bool {
    key.ctrl_held() && key.code is Char && (key.code->Char_0 as u32) % 256 == 255
}

/// A code, if there is one, as plain values.
pub open spec fn code_view(code: Option<Vec<u8>>) -> Option<Seq<u8>> {
    match code {
        Some(bytes) => Some(bytes@),
        None => None,
    }
}

/// `terminput_crossterm::to_terminput` takes over a press of any key but the one that
/// stands for none. What `terminput::Event::encode` then writes depends on the key alone:
/// a character without modifiers is written as UTF-8, no code is longer than the sixteen
/// bytes that there is room for, and keys other than those that are listed by name have
/// no code. What the other codes are is only named.
#[verifier::external_body]
fn code_for(key: KeyEvent) -> (r: Option<Option<Vec<u8>>>)
    requires
        !beyond_code(key),
    ensures
        r is None <==> key.code is Null,
        r is Some ==> code_view(r->0) == terminal_code(key),
        r is Some && r->0 is Some ==> r->0->0@.len() <= 16,
        key.code is Other ==> r == Some(None::<Vec<u8>>),
        key.code is Char && key.modifiers == 0 ==> r is Some && code_view(r->0) == Some(
            encode_utf8(seq![key.code->Char_0]),
        ),
{
    let code = match key.code {
        Backspace => TermBackspace, Enter => TermEnter, Tab => TermTab, BackTab => TermBackTab,
        Left => TermLeft, Right => TermRight, Up => TermUp, Down => TermDown, Home => TermHome,
        End => TermEnd, PageUp => TermPageUp, PageDown => TermPageDown, Delete => TermDelete,
        Insert => TermInsert, Esc => TermEsc, Other => TermOther, Null => TermNull,
        F(n) => TermF(n), Char(c) => TermChar(c),
    };
    let modifiers = KeyModifiers::from_bits_truncate(key.modifiers);
    let event = to_terminput(TermEvent::Key(TermKey::new(code, modifiers))).ok()?;
    let mut buffer = [0; 16];
    let written = event.encode(&mut buffer, Encoding::Xterm).ok();
    Some(written.map(|n| buffer[..n].to_vec()))
}

/// What comes of encoding a key for a terminal.
pub open spec fn encoding_of(key: KeyEvent) -> EncodingView {
    if key.code is Null {
        EncodingView::Unknown
    } else {
        match terminal_code(key) {
            Some(bytes) => EncodingView::Bytes(bytes),
            None => EncodingView::Failed,
        }
    }
}

/// Encodes a key as a terminal does.
pub fn encode_key(key: KeyEvent) -> (r: KeyEncoding)
    requires
        !beyond_code(key),
    ensures
        r@ == encoding_of(key),
        key.code is Other ==> r is Failed,
        key.code matches KeyCode::Char(c) ==> (key.modifiers == 0 ==> (
        r matches KeyEncoding::Bytes(bytes) && bytes@ == encode_utf8(seq![c]))),
{
    match code_for(key) {
        None => KeyEncoding::Unknown,
        Some(None) => KeyEncoding::Failed,
        Some(Some(bytes)) => KeyEncoding::Bytes(bytes),
    }
}

/// Whether a chord is beyond what can be encoded.
pub fn is_beyond_code(key: KeyEvent) -> (r: bool)
    ensures
        r == beyond_code(key),
{
    match key.code {
        KeyCode::Char(c) => key.ctrl() && (c as u32) % 256 == 255,
        _ => false,
    }
}

} // verus!
