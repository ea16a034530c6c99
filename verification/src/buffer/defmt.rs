//! Framing of `defmt` messages: where a packet starts and ends, and its zero
//! compression.

use vstd::prelude::*;

use crate::foreign::{find_byte, find_bytes};

verus! {

/// How log messages arrive.
#[derive(Clone, Copy, Debug, PartialEq, Eq, Structural)]
pub enum DefmtSupport {
    /// There are none.
    Disabled,
    /// Compressed packets between frame marks, with plain text around them.
    FramedRzcobs,
    /// Compressed packets, each followed by a zero.
    UnframedRzcobs,
    /// Packets as they are.
    Raw,
}

/// How many bytes belong to a block with the given last byte.
pub open spec fn block_len(x: u8) -> int {
    if x == 0xff {
        134
    } else if x >= 0x80 {
        (x - 0x80) + 7
    } else {
        zero_bits(x, 7)
    }
}

/// Whether bit `k` of a byte is zero.
pub open spec fn bit_is_zero(x: u8, k: int) -> bool {
    if k <= 0 {
        x % 2 == 0
    } else if k == 1 {
        x / 2 % 2 == 0
    } else if k == 2 {
        x / 4 % 2 == 0
    } else if k == 3 {
        x / 8 % 2 == 0
    } else if k == 4 {
        x / 16 % 2 == 0
    } else if k == 5 {
        x / 32 % 2 == 0
    } else {
        x / 64 % 2 == 0
    }
}

/// How many of the first `k` bits of a byte are zero.
pub open spec fn zero_bits(x: u8, k: int) -> int
    decreases k,
{
    if k <= 0 {
        0
    } else {
        zero_bits(x, k - 1) + (if bit_is_zero(x, k - 1) {
            1int
        } else {
            0int
        })
    }
}

/// The bytes that the first `k` bits of a byte stand for: the next byte of `body`
/// for a zero, a zero for a one.
pub open spec fn unpacked(x: u8, body: Seq<u8>, k: int) -> Seq<u8>
    decreases k,
{
    if k <= 0 {
        Seq::empty()
    } else if bit_is_zero(x, k - 1) {
        unpacked(x, body, k - 1).push(body[zero_bits(x, k - 1)])
    } else {
        unpacked(x, body, k - 1).push(0)
    }
}

/// What a block stands for, given its last byte and those before it.
pub open spec fn block(x: u8, body: Seq<u8>) -> Seq<u8> {
    if x == 0xff {
        body
    } else if x >= 0x80 {
        body.push(0)
    } else {
        unpacked(x, body, 7)
    }
}

proof fn lemma_zero_bits(x: u8, k: int)
    requires
        0 <= k <= 7,
    ensures
        0 <= zero_bits(x, k) <= k,
    decreases k,
{
    if k > 0 {
        lemma_zero_bits(x, k - 1);
    }
}

/// The message that a compressed packet stands for; `None` if it is malformed.
///
/// A packet is a row of blocks. The last byte of a block says how many bytes are
/// in it and where its zeroes were.
pub open spec fn rzcobs(data: Seq<u8>) -> Option<Seq<u8>>
    decreases data.len(),
    via rzcobs_shrinks
{
    if data.len() == 0 {
        Some(Seq::empty())
    } else {
        let x = data.last();
        let n = block_len(x);
        let start = data.len() - 1 - n;
        if x == 0 || start < 0 {
            None
        } else {
            match rzcobs(data.take(start)) {
                Some(before) => Some(
                    before + block(x, data.subrange(start, data.len() - 1)),
                ),
                None => None,
            }
        }
    }
}

#[via_fn]
proof fn rzcobs_shrinks(data: Seq<u8>) {
    if data.len() > 0 {
        lemma_zero_bits(data.last(), 7);
    }
}

fn is_zero_bit(x: u8, k: u8) -> (r: bool)
    requires
        k < 7,
    ensures
        r == bit_is_zero(x, k as int),
{
    match k {
        0 => x % 2 == 0,
        1 => x / 2 % 2 == 0,
        2 => x / 4 % 2 == 0,
        3 => x / 8 % 2 == 0,
        4 => x / 16 % 2 == 0,
        5 => x / 32 % 2 == 0,
        _ => x / 64 % 2 == 0,
    }
}

fn count_block(x: u8) -> (r: usize)
    requires
        x != 0,
    ensures
        r == block_len(x),
        r <= 134,
{
    if x == 0xff {
        134
    } else if x >= 0x80 {
        (x - 0x80) as usize + 7
    } else {
        let mut n: usize = 0;
        let mut k: u8 = 0;
        while k < 7
            invariant
                k <= 7,
                n == zero_bits(x, k as int),
                n <= k,
            decreases 7 - k,
        {
            if is_zero_bit(x, k) {
                n += 1;
            }
            k += 1;
        }
        n
    }
}

fn unpack_block(x: u8, body: &[u8]) -> (r: Vec<u8>)
    requires
        x != 0,
        body@.len() == block_len(x),
    ensures
        r@ == block(x, body@),
{
    let mut out: Vec<u8> = Vec::new();
    if x == 0xff {
        out.extend_from_slice(body);
        assert(out@ =~= body@);
    } else if x >= 0x80 {
        out.extend_from_slice(body);
        out.push(0);
        assert(out@ =~= body@.push(0));
    } else {
        let mut n: usize = 0;
        let mut k: u8 = 0;
        while k < 7
            invariant
                k <= 7,
                body@.len() == zero_bits(x, 7),
                n == zero_bits(x, k as int),
                out@ == unpacked(x, body@, k as int),
            decreases 7 - k,
        {
            if is_zero_bit(x, k) {
                proof {
                    lemma_zero_bits_grow(x, k + 1, 7);
                }
                out.push(body[n]);
                n += 1;
            } else {
                out.push(0);
            }
            k += 1;
        }
    }
    out
}

proof fn lemma_zero_bits_grow(x: u8, k: int, l: int)
    requires
        0 <= k <= l <= 7,
    ensures
        zero_bits(x, k) <= zero_bits(x, l),
    decreases l - k,
{
    if k < l {
        lemma_zero_bits_grow(x, k, l - 1);
    }
}

/// Decompresses a packet.
pub fn rzcobs_decode(data: &[u8]) -> (r: Option<Vec<u8>>)
    ensures
        match r {
            Some(message) => rzcobs(data@) == Some(message@),
            None => rzcobs(data@) is None,
        },
{
    let mut blocks: Vec<Vec<u8>> = Vec::new();
    let mut end: usize = data.len();
    let ghost mut tail: Seq<u8> = Seq::empty();
    assert(data@.take(end as int) =~= data@);
    while end > 0
        invariant
            end <= data@.len(),
            rzcobs(data@) == (match rzcobs(data@.take(end as int)) {
                Some(before) => Some(before + tail),
                None => None,
            }),
            tail == backwards(blocks@),
        decreases end,
    {
        let ghost here = data@.take(end as int);
        let x: u8 = data[end - 1];
        assert(here.last() == x);
        if x == 0 {
            return None;
        }
        let n: usize = count_block(x);
        if end - 1 < n {
            return None;
        }
        let start: usize = end - 1 - n;
        let body = &data[start..end - 1];
        let bytes = unpack_block(x, body);
        proof {
            assert(here.take(start as int) =~= data@.take(start as int));
            assert(here.subrange(start as int, here.len() - 1) =~= body@);
            let before = rzcobs(data@.take(start as int));
            if before is Some {
                assert((before->0 + bytes@) + tail =~= before->0 + (bytes@ + tail));
            }
            tail = bytes@ + tail;
        }
        let ghost done = blocks@;
        blocks.push(bytes);
        assert(blocks@.drop_last() =~= done);
        end = start;
    }
    assert(data@.take(0) =~= Seq::<u8>::empty());
    let mut out: Vec<u8> = Vec::new();
    let mut i: usize = blocks.len();
    assert(out@ + backwards(blocks@.take(i as int)) =~= tail) by {
        assert(blocks@.take(i as int) =~= blocks@);
    }
    while i > 0
        invariant
            i <= blocks@.len(),
            out@ + backwards(blocks@.take(i as int)) == tail,
        decreases i,
    {
        let ghost before = out@;
        out.extend_from_slice(blocks[i - 1].as_slice());
        proof {
            assert(blocks@.take(i as int).drop_last() =~= blocks@.take(i - 1));
            assert(blocks@.take(i as int).last() == blocks@[i - 1]);
            assert(out@ =~= before + blocks@[i - 1]@);
            assert(out@ + backwards(blocks@.take(i - 1)) =~= before + (blocks@[i - 1]@ + backwards(
                blocks@.take(i - 1),
            )));
        }
        i -= 1;
    }
    assert(backwards(blocks@.take(0)) =~= Seq::<u8>::empty());
    assert(out@ =~= tail);
    Some(out)
}

/// Some pieces one after the other, the last one first.
spec fn backwards(blocks: Seq<Vec<u8>>) -> Seq<u8>
    decreases blocks.len(),
{
    if blocks.len() == 0 {
        Seq::empty()
    } else {
        blocks.last()@ + backwards(blocks.drop_last())
    }
}

/// What the next piece of received data is.
#[derive(Clone, Copy, Debug, PartialEq, Eq, Structural)]
pub enum Delimited {
    /// A compressed packet between two positions.
    Packet(usize, usize),
    /// Text between two positions.
    Text(usize, usize),
}

/// What marks the start of a frame.
pub open spec fn frame_start() -> Seq<u8> {
    seq![0xffu8, 0x00u8]
}

/// What a piece of received data holds.
#[verifier::ext_equal]
pub enum Piece {
    Packet(Seq<u8>),
    Text(Seq<u8>),
}

/// The packet that a zero ends, and how much of the data it takes up. `None` while
/// there is no zero.
pub open spec fn zero_piece(bytes: Seq<u8>) -> Option<(int, Piece)> {
    match crate::buffer::split::first_occurrence(bytes, seq![0u8], 0) {
        Some(z) => Some((z + 1, Piece::Packet(bytes.take(z)))),
        None => None,
    }
}

/// The next piece of data with frame marks: text up to a mark, or a packet up to the
/// zero behind it. `None` while a frame is not complete, or may be about to begin.
pub open spec fn framed_piece(bytes: Seq<u8>) -> Option<(int, Piece)> {
    if bytes.len() == 0 {
        None
    } else {
        match crate::buffer::split::first_occurrence(bytes, frame_start(), 0) {
            Some(i) => if i == 0 {
                match zero_piece(bytes.skip(2)) {
                    Some((n, piece)) => Some((n + 2, piece)),
                    None => None,
                }
            } else {
                Some((i, Piece::Text(bytes.take(i))))
            },
            None => if bytes.last() != 0xff {
                Some((bytes.len() as int, Piece::Text(bytes)))
            } else if bytes.len() == 1 {
                None
            } else {
                Some((bytes.len() - 1, Piece::Text(bytes.drop_last())))
            },
        }
    }
}

/// Whether a piece is the one that is meant.
pub open spec fn is_piece(bytes: Seq<u8>, found: Option<(usize, Delimited)>, meant: Option<
    (int, Piece),
>) -> bool {
    match (found, meant) {
        (None, None) => true,
        (Some((consumed, piece)), Some((n, wanted))) => {
            &&& consumed == n
            &&& 0 < n <= bytes.len()
            &&& match (piece, wanted) {
                (Delimited::Packet(start, end), Piece::Packet(inner)) => start <= end <= bytes.len()
                    && bytes.subrange(start as int, end as int) == inner,
                (Delimited::Text(start, end), Piece::Text(inner)) => start <= end <= bytes.len()
                    && bytes.subrange(start as int, end as int) == inner,
                _ => false,
            }
        },
        _ => false,
    }
}

proof fn lemma_zero_occurs(bytes: Seq<u8>, i: int)
    ensures
        crate::foreign::occurs_at(bytes, seq![0u8], i) <==> 0 <= i < bytes.len() && bytes[i] == 0,
{
    if 0 <= i < bytes.len() {
        assert(bytes.subrange(i, i + 1)[0] == bytes[i]);
        if bytes[i] == 0 {
            assert(bytes.subrange(i, i + 1) =~= seq![0u8]);
        }
    }
}

pub proof fn lemma_first_zero(bytes: Seq<u8>)
    ensures
        match crate::buffer::split::first_occurrence(bytes, seq![0u8], 0) {
            Some(z) => 0 <= z < bytes.len() && bytes[z] == 0 && !bytes.take(z).contains(0),
            None => !bytes.contains(0),
        },
{
    crate::buffer::split::lemma_first_occurrence(bytes, seq![0u8], 0);
    match crate::buffer::split::first_occurrence(bytes, seq![0u8], 0) {
        Some(z) => {
            lemma_zero_occurs(bytes, z);
            if bytes.take(z).contains(0) {
                let j = choose|j: int| 0 <= j < z && bytes.take(z)[j] == 0;
                lemma_zero_occurs(bytes, j);
                assert(crate::foreign::occurs_at(bytes, seq![0u8], j));
            }
        },
        None => {
            if bytes.contains(0) {
                let j = choose|j: int| 0 <= j < bytes.len() && bytes[j] == 0;
                lemma_zero_occurs(bytes, j);
                assert(crate::foreign::occurs_at(bytes, seq![0u8], j));
            }
        },
    }
}

/// The packet that a zero ends, and how much of the data it takes up.
pub fn zero_delimited(bytes: &[u8]) -> (r: Option<(usize, Delimited)>)
    ensures
        is_piece(bytes@, r, zero_piece(bytes@)),
{
    proof {
        lemma_first_zero(bytes@);
        assert(bytes.len() == bytes@.len());
    }
    match find_byte(0, bytes) {
        Some(i) => {
            proof {
                let z = crate::buffer::split::first_occurrence(bytes@, seq![0u8], 0);
                if z is None {
                    assert(bytes@.contains(bytes@[i as int]));
                }
                if z->0 < i {
                    assert(bytes@.take(i as int)[z->0] == 0);
                }
                if i < z->0 {
                    assert(bytes@.take(z->0)[i as int] == 0);
                }
                assert(bytes@.subrange(0, i as int) =~= bytes@.take(i as int));
            }
            Some((i + 1, Delimited::Packet(0, i)))
        },
        None => None,
    }
}

/// The next piece of data with frame marks.
pub fn esp_println_delimited(bytes: &[u8]) -> (r: Option<(usize, Delimited)>)
    ensures
        is_piece(bytes@, r, framed_piece(bytes@)),
{
    assert(bytes.len() == bytes@.len());
    let mark: [u8; 2] = [0xff, 0x00];
    assert(mark@ =~= frame_start());
    if bytes.len() == 0 {
        return None;
    }
    proof {
        crate::buffer::split::lemma_first_occurrence(bytes@, frame_start(), 0);
    }
    let ghost first = crate::buffer::split::first_occurrence(bytes@, frame_start(), 0);
    match find_bytes(bytes, mark.as_slice()) {
        Some(i) => {
            proof {
                if first is None {
                    assert(!crate::foreign::occurs_at(bytes@, frame_start(), i as int));
                } else if first->0 < i {
                    assert(!crate::foreign::occurs_at(bytes@, frame_start(), first->0));
                } else if i < first->0 {
                    assert(!crate::foreign::occurs_at(bytes@, frame_start(), i as int));
                }
                assert(first == Some(i as int));
            }
            if i == 0 {
                let body = &bytes[2..bytes.len()];
                assert(body@ =~= bytes@.skip(2));
                match zero_delimited(body) {
                    Some((n, Delimited::Packet(start, end))) => {
                        assert(bytes@.subrange(start + 2, end + 2) =~= body@.subrange(
                            start as int,
                            end as int,
                        ));
                        Some((n + 2, Delimited::Packet(start + 2, end + 2)))
                    },
                    _ => None,
                }
            } else {
                assert(bytes@.subrange(0, i as int) =~= bytes@.take(i as int));
                Some((i, Delimited::Text(0, i)))
            }
        },
        None => {
            proof {
                if first is Some {
                    assert(!crate::foreign::occurs_at(bytes@, frame_start(), first->0));
                }
            }
            let len: usize = bytes.len();
            if bytes[len - 1] == 0xff {
                if len == 1 {
                    None
                } else {
                    assert(bytes@.subrange(0, len - 1) =~= bytes@.drop_last());
                    Some((len - 1, Delimited::Text(0, len - 1)))
                }
            } else {
                assert(bytes@.subrange(0, len as int) =~= bytes@);
                Some((len, Delimited::Text(0, len)))
            }
        },
    }
}


/// A piece takes up at least one byte, and no more than there are.
pub proof fn lemma_pieces_take_something(bytes: Seq<u8>)
    ensures
        zero_piece(bytes) matches Some((n, _)) ==> 0 < n <= bytes.len(),
        framed_piece(bytes) matches Some((n, _)) ==> 0 < n <= bytes.len(),
{
    lemma_first_zero(bytes);
    crate::buffer::split::lemma_first_occurrence(bytes, frame_start(), 0);
    if bytes.len() >= 2 {
        lemma_first_zero(bytes.skip(2));
    }
}

} // verus!
