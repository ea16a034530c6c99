//! The bytes that end a line, as they are received and as they are sent.
//!
//! An ending is written as text in which unprintable bytes are escaped. The
//! common ones are presets; any other is kept both as text and as bytes.

use vstd::prelude::*;
use vstd::string::*;
use vstd::utf8::*;

use crate::foreign::{escape_bytes, unescape_bytes};
use crate::text::{eq_ignore_ascii_case, str_eq};

verus! {

/// The common line endings.
pub const PRESET_LINE_ENDINGS: [&'static str; 4] = ["\n", "\r", "\r\n", ""];

/// The common line endings as they are written.
pub const PRESET_LINE_ENDINGS_ESCAPED: [&'static str; 4] = ["\\n", "\\r", "\\r\\n", ""];

/// The text of the preset at `index`.
pub open spec fn preset_raw(index: int) -> Seq<char> {
    if index == 0 {
        seq!['\n']
    } else if index == 1 {
        seq!['\r']
    } else if index == 2 {
        seq!['\r', '\n']
    } else {
        Seq::empty()
    }
}

/// The preset at `index` as it is written.
pub open spec fn preset_escaped(index: int) -> Seq<char> {
    if index == 0 {
        seq!['\\', 'n']
    } else if index == 1 {
        seq!['\\', 'r']
    } else if index == 2 {
        seq!['\\', 'r', '\\', 'n']
    } else {
        Seq::empty()
    }
}

/// Which preset a text stands for, in either form.
pub open spec fn preset_index(s: Seq<char>) -> Option<int> {
    if s == preset_escaped(0) || s == preset_raw(0) {
        Some(0)
    } else if s == preset_escaped(1) || s == preset_raw(1) {
        Some(1)
    } else if s == preset_escaped(2) || s == preset_raw(2) {
        Some(2)
    } else if s.len() == 0 {
        Some(3)
    } else {
        None
    }
}

/// What is known of a line ending of its own: how it is written, and its bytes.
#[verifier::ext_equal]
pub enum EndingView {
    InheritRx,
    InheritTx,
    Preset(Seq<char>, Seq<u8>),
    Custom(Seq<char>, Seq<u8>),
}

/// The ending that a text stands for, if it does not ask for inheritance.
pub open spec fn own_ending(s: Seq<char>) -> EndingView {
    match preset_index(s) {
        Some(i) => EndingView::Preset(preset_escaped(i), encode_utf8(preset_raw(i))),
        None => EndingView::Custom(
            crate::foreign::escaped(crate::foreign::unescaped(s)),
            crate::foreign::unescaped(s),
        ),
    }
}

/// Whether a text asks for the ending of received data.
pub open spec fn inherits_rx(s: Seq<char>) -> bool {
    crate::text::same_ignoring_ascii_case(s, "InheritRX"@)
}

/// Whether a text asks for the ending of sent data.
pub open spec fn inherits_tx(s: Seq<char>) -> bool {
    crate::text::same_ignoring_ascii_case(s, "InheritTX"@)
}

/// The ending for sent data that a text stands for.
pub open spec fn tx_ending(s: Seq<char>) -> EndingView {
    if inherits_rx(s) {
        EndingView::InheritRx
    } else {
        own_ending(s)
    }
}

/// The ending for macros that a text stands for.
pub open spec fn macro_ending(s: Seq<char>) -> EndingView {
    if inherits_rx(s) {
        EndingView::InheritRx
    } else if inherits_tx(s) {
        EndingView::InheritTx
    } else {
        own_ending(s)
    }
}

/// How an ending is written.
pub open spec fn written(ending: EndingView) -> Seq<char> {
    match ending {
        EndingView::InheritRx => "InheritRX"@,
        EndingView::InheritTx => "InheritTX"@,
        EndingView::Preset(text, _) => text,
        EndingView::Custom(text, _) => text,
    }
}

/// The bytes of an ending that inherits nothing.
pub open spec fn own_bytes(ending: EndingView) -> Seq<u8> {
    match ending {
        EndingView::Preset(_, bytes) => bytes,
        EndingView::Custom(_, bytes) => bytes,
        _ => Seq::empty(),
    }
}

/// Whether text and bytes of an ending belong together.
pub open spec fn consistent(ending: EndingView) -> bool {
    match ending {
        EndingView::Preset(text, bytes) => exists|i: int|
            0 <= i < 4 && text == #[trigger] preset_escaped(i) && bytes == encode_utf8(
                preset_raw(i),
            ),
        EndingView::Custom(text, bytes) => {
            &&& crate::foreign::unescaped(text) == bytes
            &&& match preset_index(text) {
                Some(i) => bytes == encode_utf8(preset_raw(i)),
                None => true,
            }
        },
        _ => true,
    }
}

/// The endings for received data.
#[derive(Debug)]
pub enum RxLineEnding {
    Preset(&'static str, &'static [u8]),
    Custom(String, Vec<u8>),
}

/// The endings for sent data.
#[derive(Debug)]
pub enum TxLineEnding {
    InheritRx,
    Preset(&'static str, &'static [u8]),
    Custom(String, Vec<u8>),
}

/// The endings for macros.
#[derive(Debug)]
pub enum MacroTxLineEnding {
    InheritRx,
    InheritTx,
    Preset(&'static str, &'static [u8]),
    Custom(String, Vec<u8>),
}

impl View for RxLineEnding {
    type V = EndingView;

    open spec fn view(&self) -> EndingView {
        match self {
            RxLineEnding::Preset(text, bytes) => EndingView::Preset(text@, bytes@),
            RxLineEnding::Custom(text, bytes) => EndingView::Custom(text@, bytes@),
        }
    }
}

impl View for TxLineEnding {
    type V = EndingView;

    open spec fn view(&self) -> EndingView {
        match self {
            TxLineEnding::InheritRx => EndingView::InheritRx,
            TxLineEnding::Preset(text, bytes) => EndingView::Preset(text@, bytes@),
            TxLineEnding::Custom(text, bytes) => EndingView::Custom(text@, bytes@),
        }
    }
}

impl View for MacroTxLineEnding {
    type V = EndingView;

    open spec fn view(&self) -> EndingView {
        match self {
            MacroTxLineEnding::InheritRx => EndingView::InheritRx,
            MacroTxLineEnding::InheritTx => EndingView::InheritTx,
            MacroTxLineEnding::Preset(text, bytes) => EndingView::Preset(text@, bytes@),
            MacroTxLineEnding::Custom(text, bytes) => EndingView::Custom(text@, bytes@),
        }
    }
}

proof fn lemma_preset_literals()
    ensures
        "\n"@ == preset_raw(0),
        "\r"@ == preset_raw(1),
        "\r\n"@ == preset_raw(2),
        ""@ == preset_raw(3),
        "\\n"@ == preset_escaped(0),
        "\\r"@ == preset_escaped(1),
        "\\r\\n"@ == preset_escaped(2),
        ""@ == preset_escaped(3),
{
    reveal_strlit("\n");
    reveal_strlit("\r");
    reveal_strlit("\r\n");
    reveal_strlit("");
    reveal_strlit("\\n");
    reveal_strlit("\\r");
    reveal_strlit("\\r\\n");
    assert("\n"@ =~= preset_raw(0));
    assert("\r"@ =~= preset_raw(1));
    assert("\r\n"@ =~= preset_raw(2));
    assert(""@ =~= preset_raw(3));
    assert("\\n"@ =~= preset_escaped(0));
    assert("\\r"@ =~= preset_escaped(1));
    assert("\\r\\n"@ =~= preset_escaped(2));
    assert(""@ =~= preset_escaped(3));
}

/// The preset that a text stands for, in either form.
fn find_preset(s: &str) -> (r: Option<(&'static str, &'static [u8])>)
    ensures
        r is Some <==> preset_index(s@) is Some,
        r matches Some((text, bytes)) ==> {
            &&& text@ == preset_escaped(preset_index(s@)->0)
            &&& bytes@ == encode_utf8(preset_raw(preset_index(s@)->0))
        },
{
    proof {
        lemma_preset_literals();
    }
    if str_eq(s, "\\n") || str_eq(s, "\n") {
        Some(("\\n", "\n".as_bytes()))
    } else if str_eq(s, "\\r") || str_eq(s, "\r") {
        Some(("\\r", "\r".as_bytes()))
    } else if str_eq(s, "\\r\\n") || str_eq(s, "\r\n") {
        Some(("\\r\\n", "\r\n".as_bytes()))
    } else if s.is_empty() {
        Some(("", "".as_bytes()))
    } else {
        None
    }
}

/// A text of its own, escaped, and its bytes.
fn custom_ending(s: &str) -> (r: (String, Vec<u8>))
    ensures
        r.0@ == crate::foreign::escaped(crate::foreign::unescaped(s@)),
        r.1@ == crate::foreign::unescaped(s@),
        consistent(EndingView::Custom(r.0@, r.1@)),
{
    let bytes = unescape_bytes(s);
    let text = escape_bytes(bytes.as_slice());
    proof {
        lemma_raw_encodings();
        assert(text@ != preset_raw(0)) by {
            assert(preset_raw(0)[0] == '\n');
            if text@ == preset_raw(0) {
                assert(text@.contains('\n'));
            }
        }
        assert(text@ != preset_raw(1)) by {
            assert(preset_raw(1)[0] == '\r');
            if text@ == preset_raw(1) {
                assert(text@.contains('\r'));
            }
        }
        assert(text@ != preset_raw(2)) by {
            assert(preset_raw(2)[0] == '\r');
            if text@ == preset_raw(2) {
                assert(text@.contains('\r'));
            }
        }
        if text@.len() == 0 {
            assert(bytes@ =~= encode_utf8(preset_raw(3)));
        }
    }
    (text, bytes)
}

proof fn lemma_raw_encodings()
    ensures
        encode_utf8(preset_raw(0)) == seq![0x0au8],
        encode_utf8(preset_raw(1)) == seq![0x0du8],
        encode_utf8(preset_raw(2)) == seq![0x0du8, 0x0au8],
        encode_utf8(preset_raw(3)) == Seq::<u8>::empty(),
{
    assert(is_ascii_chars(preset_raw(0)));
    assert(is_ascii_chars(preset_raw(1)));
    assert(is_ascii_chars(preset_raw(2)));
    is_ascii_chars_encode_utf8(preset_raw(0));
    is_ascii_chars_encode_utf8(preset_raw(1));
    is_ascii_chars_encode_utf8(preset_raw(2));
    assert(encode_utf8(preset_raw(0)) =~= seq![0x0au8]);
    assert(encode_utf8(preset_raw(1)) =~= seq![0x0du8]);
    assert(encode_utf8(preset_raw(2)) =~= seq![0x0du8, 0x0au8]);
    assert(encode_utf8(preset_raw(3)) =~= Seq::<u8>::empty());
}

impl RxLineEnding {
    /// The bytes of the ending.
    pub fn as_bytes(&self) -> (r: &[u8])
        ensures
            r@ == own_bytes(self@),
    {
        match self {
            RxLineEnding::Preset(_, preset) => preset,
            RxLineEnding::Custom(_, custom) => custom.as_slice(),
        }
    }

    /// How the ending is written.
    pub fn as_text(&self) -> (r: &str)
        ensures
            r@ == written(self@),
    {
        match self {
            RxLineEnding::Preset(preset, _) => preset,
            RxLineEnding::Custom(custom, _) => custom.as_str(),
        }
    }

    /// The ending that a text stands for. Every text stands for one.
    pub fn from_str(s: &str) -> (r: RxLineEnding)
        ensures
            r@ == own_ending(s@),
            consistent(r@),
    {
        match find_preset(s) {
            Some((text, bytes)) => {
                assert(text@ == preset_escaped(preset_index(s@)->0));
                RxLineEnding::Preset(text, bytes)
            },
            None => {
                let (text, bytes) = custom_ending(s);
                RxLineEnding::Custom(text, bytes)
            },
        }
    }
}

impl TxLineEnding {
    /// The bytes of the ending, given that for received data.
    pub fn as_bytes<'a>(&'a self, rx: &'a RxLineEnding) -> (r: &'a [u8])
        ensures
            r@ == (if self@ is InheritRx {
                own_bytes(rx@)
            } else {
                own_bytes(self@)
            }),
    {
        match self {
            TxLineEnding::InheritRx => rx.as_bytes(),
            TxLineEnding::Preset(_, preset) => preset,
            TxLineEnding::Custom(_, custom) => custom.as_slice(),
        }
    }

    /// How the ending is written.
    pub fn as_text(&self) -> (r: &str)
        ensures
            r@ == written(self@),
    {
        match self {
            TxLineEnding::InheritRx => "InheritRX",
            TxLineEnding::Preset(preset, _) => preset,
            TxLineEnding::Custom(custom, _) => custom.as_str(),
        }
    }

    /// The ending that a text stands for. Every text stands for one.
    pub fn from_str(s: &str) -> (r: TxLineEnding)
        ensures
            r@ == tx_ending(s@),
            consistent(r@),
    {
        if eq_ignore_ascii_case(s, "InheritRX") {
            return TxLineEnding::InheritRx;
        }
        match find_preset(s) {
            Some((text, bytes)) => {
                assert(text@ == preset_escaped(preset_index(s@)->0));
                TxLineEnding::Preset(text, bytes)
            },
            None => {
                let (text, bytes) = custom_ending(s);
                TxLineEnding::Custom(text, bytes)
            },
        }
    }
}

/// The bytes that a macro is sent with, given the other two endings.
pub open spec fn macro_bytes(own: EndingView, rx: EndingView, tx: EndingView) -> Seq<u8> {
    match own {
        EndingView::InheritRx => own_bytes(rx),
        EndingView::InheritTx => if tx is InheritRx {
            own_bytes(rx)
        } else {
            own_bytes(tx)
        },
        _ => own_bytes(own),
    }
}

impl MacroTxLineEnding {
    /// The bytes of the ending, given those for received and for sent data.
    pub fn as_bytes<'a>(&'a self, rx: &'a RxLineEnding, tx: &'a TxLineEnding) -> (r: &'a [u8])
        ensures
            r@ == macro_bytes(self@, rx@, tx@),
    {
        match self {
            MacroTxLineEnding::InheritRx => rx.as_bytes(),
            MacroTxLineEnding::InheritTx => tx.as_bytes(rx),
            MacroTxLineEnding::Preset(_, preset) => preset,
            MacroTxLineEnding::Custom(_, custom) => custom.as_slice(),
        }
    }

    /// How the ending is written.
    pub fn as_text(&self) -> (r: &str)
        ensures
            r@ == written(self@),
    {
        match self {
            MacroTxLineEnding::InheritRx => "InheritRX",
            MacroTxLineEnding::InheritTx => "InheritTX",
            MacroTxLineEnding::Preset(preset, _) => preset,
            MacroTxLineEnding::Custom(custom, _) => custom.as_str(),
        }
    }

    /// The ending that a text stands for. Every text stands for one.
    pub fn from_str(s: &str) -> (r: MacroTxLineEnding)
        ensures
            r@ == macro_ending(s@),
            consistent(r@),
    {
        if eq_ignore_ascii_case(s, "InheritRX") {
            return MacroTxLineEnding::InheritRx;
        }
        if eq_ignore_ascii_case(s, "InheritTX") {
            return MacroTxLineEnding::InheritTx;
        }
        match find_preset(s) {
            Some((text, bytes)) => {
                assert(text@ == preset_escaped(preset_index(s@)->0));
                MacroTxLineEnding::Preset(text, bytes)
            },
            None => {
                let (text, bytes) = custom_ending(s);
                MacroTxLineEnding::Custom(text, bytes)
            },
        }
    }
}

/// An ending for received data that is written down and read back has the same bytes.
pub proof fn law_rx_ending_round_trip(ending: EndingView)
    requires
        ending is Preset || ending is Custom,
        consistent(ending),
    ensures
        own_bytes(own_ending(written(ending))) == own_bytes(ending),
{
    match ending {
        EndingView::Preset(text, bytes) => {
            let i = choose|i: int|
                0 <= i < 4 && text == #[trigger] preset_escaped(i) && bytes == encode_utf8(
                    preset_raw(i),
                );
            assert(preset_escaped(0)[1] == 'n');
            assert(preset_escaped(1)[1] == 'r');
            assert(preset_raw(0).len() == 1 && preset_raw(1).len() == 1);
            assert(preset_raw(2)[0] == '\r' && preset_escaped(1)[0] == '\\');
            assert(preset_escaped(0).len() == 2 && preset_escaped(1).len() == 2);
            assert(preset_escaped(2).len() == 4 && preset_escaped(3).len() == 0);
            assert(preset_index(text) == Some(i));
        },
        _ => {},
    }
}

/// An ending for sent data that is written down and read back means the same,
/// unless its own text happens to spell the word that asks for inheritance.
pub proof fn law_tx_ending_round_trip(ending: EndingView)
    requires
        !(ending is InheritTx),
        consistent(ending),
        ending is InheritRx || !inherits_rx(written(ending)),
    ensures
        ending is InheritRx ==> tx_ending(written(ending)) == ending,
        !(ending is InheritRx) ==> own_bytes(tx_ending(written(ending))) == own_bytes(ending),
{
    if !(ending is InheritRx) {
        law_rx_ending_round_trip(ending);
    }
}

/// The same for the endings of macros and both of their words.
pub proof fn law_macro_ending_round_trip(ending: EndingView)
    requires
        consistent(ending),
        ending is InheritRx || ending is InheritTx || !(inherits_rx(written(ending)) || inherits_tx(
            written(ending),
        )),
    ensures
        ending is InheritRx || ending is InheritTx ==> macro_ending(written(ending)) == ending,
        !(ending is InheritRx || ending is InheritTx) ==> own_bytes(macro_ending(written(ending)))
            == own_bytes(ending),
{
    if ending is InheritTx {
        reveal_strlit("InheritRX");
        reveal_strlit("InheritTX");
        let a = "InheritTX"@;
        let b = "InheritRX"@;
        assert(is_ascii_chars(a) && is_ascii_chars(b));
        is_ascii_chars_encode_utf8(a);
        is_ascii_chars_encode_utf8(b);
        let la = encode_utf8(a).map_values(|x: u8| crate::text::ascii_lower(x));
        let lb = encode_utf8(b).map_values(|x: u8| crate::text::ascii_lower(x));
        assert(la[7] != lb[7]);
    } else if !(ending is InheritRx) {
        law_rx_ending_round_trip(ending);
    }
}

} // verus!
