//! What is asked of a port.

use vstd::prelude::*;
use vstd::string::*;
use vstd::utf8::*;

use crate::foreign::unescape_bytes;
use crate::settings::PortSettings;

verus! {

/// The serial worker is gone.
#[derive(Clone, Copy, Debug, PartialEq, Eq, Structural)]
pub struct SerialWorkerMissing;

/// What is asked of a port that is connected.
#[derive(Debug)]
pub enum PortCommand {
    PortSettings(PortSettings),
    TxBuffer(Vec<u8>),
    WriteSignals { dtr: Option<bool>, rts: Option<bool> },
    ToggleSignals { dtr: bool, rts: bool },
}

/// The bytes that are sent for some input and a line ending.
pub fn payload(input: Vec<u8>, line_ending: Option<&[u8]>) -> (r: Vec<u8>)
    ensures
        r@ == input@ + (match line_ending {
            Some(ending) => ending@,
            None => Seq::empty(),
        }),
{
    let mut bytes = input;
    match line_ending {
        Some(ending) => {
            bytes.extend_from_slice(ending);
        },
        None => (),
    }
    assert(bytes@ =~= input@ + (match line_ending {
        Some(ending) => ending@,
        None => Seq::empty(),
    }));
    bytes
}

/// The bytes of a text, with escapes taken for what they stand for if that is asked.
pub open spec fn text_bytes(input: Seq<char>, unescape: bool) -> Seq<u8> {
    if unescape {
        crate::foreign::unescaped(input)
    } else {
        encode_utf8(input)
    }
}

/// The bytes that are sent for a text and a line ending.
///
/// If `unescape` is set, sequences like `\n` or `\xFF` become the bytes they stand for.
pub fn text_payload(input: &str, line_ending: &[u8], unescape: bool) -> (r: Vec<u8>)
    ensures
        r@ == text_bytes(input@, unescape) + line_ending@,
{
    let buffer = if unescape {
        unescape_bytes(input)
    } else {
        input.as_bytes_vec()
    };
    payload(buffer, Some(line_ending))
}

} // verus!
