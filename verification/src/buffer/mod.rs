//! Received data, and how it is shown and logged.

pub mod buf_line;
pub mod defmt;
pub mod defmt_table;
pub mod frame_laws;
pub mod hex_view;
pub mod laws;
pub mod log_defmt;
pub mod log_worker;
pub mod logging;
pub mod shown_laws;
pub mod split;
pub mod tui;
pub mod window_laws;

use std::ops::Range;

use vstd::prelude::*;

use crate::foreign::escape_bytes;
use crate::traits::ByteSuffixCheck;

verus! {

/// What separates one line of text from the next.
#[derive(Debug)]
pub enum LineEnding {
    Unset,
    Byte(u8),
    MultiByte(Vec<u8>),
}

impl View for LineEnding {
    type V = Seq<u8>;

    open spec fn view(&self) -> Seq<u8> {
        match self {
            LineEnding::Unset => Seq::empty(),
            LineEnding::Byte(b) => seq![*b],
            LineEnding::MultiByte(bytes) => bytes@,
        }
    }
}

impl LineEnding {
    /// The ending made of the given bytes.
    pub fn from_bytes(bytes: &[u8]) -> (r: LineEnding)
        ensures
            r@ == bytes@,
            r is Unset <==> bytes@.len() == 0,
            r is Byte <==> bytes@.len() == 1,
    {
        if bytes.len() == 0 {
            assert(bytes@ =~= Seq::empty());
            LineEnding::Unset
        } else if bytes.len() == 1 {
            assert(bytes@ =~= seq![bytes@[0]]);
            LineEnding::Byte(bytes[0])
        } else {
            let mut owned: Vec<u8> = Vec::new();
            owned.extend_from_slice(bytes);
            assert(owned@ =~= bytes@);
            LineEnding::MultiByte(owned)
        }
    }

    /// The bytes of the ending; none if there is no ending.
    pub fn to_bytes(&self) -> (r: Vec<u8>)
        ensures
            r@ == self@,
    {
        let mut bytes: Vec<u8> = Vec::new();
        match self {
            LineEnding::Unset => (),
            LineEnding::Byte(b) => {
                bytes.push(*b);
            },
            LineEnding::MultiByte(own) => {
                bytes.extend_from_slice(own.as_slice());
            },
        }
        assert(bytes@ =~= self@);
        bytes
    }

    /// The ending, escaped, if there is one.
    pub fn as_escaped(&self) -> (r: Option<String>)
        ensures
            r is Some <==> !(self is Unset),
            r matches Some(s) ==> s@ == crate::foreign::escaped(self@),
    {
        match self {
            LineEnding::Unset => None,
            LineEnding::Byte(b) => {
                let one: [u8; 1] = [*b];
                assert(one@ =~= seq![*b]);
                Some(escape_bytes(one.as_slice()))
            },
            LineEnding::MultiByte(bytes) => Some(escape_bytes(bytes.as_slice())),
        }
    }

    /// Whether some bytes end with this ending.
    pub open spec fn ends(&self, bytes: Seq<u8>) -> bool {
        !(self is Unset) && crate::traits::has_suffix(bytes, self@)
    }

    /// The ending, escaped, if some bytes end with it.
    pub fn escaped_from(&self, bytes: &[u8]) -> (r: Option<String>)
        ensures
            r is Some <==> self.ends(bytes@),
            r matches Some(s) ==> s@ == crate::foreign::escaped(self@),
    {
        if bytes.has_line_ending(self) {
            self.as_escaped()
        } else {
            None
        }
    }
}

/// Some bytes, and where they stand among everything that was received.
pub struct RangeSlice<'a> {
    pub slice: &'a [u8],
    pub range: Range<usize>,
}

} // verus!
