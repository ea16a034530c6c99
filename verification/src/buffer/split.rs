//! Cutting received bytes into lines.

use vstd::prelude::*;

use crate::buffer::LineEnding;
use crate::foreign::find_bytes;

verus! {

/// Where a byte string first stands in another, from position `from` on.
pub open spec fn first_occurrence(haystack: Seq<u8>, needle: Seq<u8>, from: int) -> Option<int>
    decreases haystack.len() + 1 - from,
{
    if from < 0 || from > haystack.len() {
        None
    } else if crate::foreign::occurs_at(haystack, needle, from) {
        Some(from)
    } else {
        first_occurrence(haystack, needle, from + 1)
    }
}

pub proof fn lemma_first_occurrence(haystack: Seq<u8>, needle: Seq<u8>, from: int)
    requires
        0 <= from,
    ensures
        match first_occurrence(haystack, needle, from) {
            Some(i) => from <= i && crate::foreign::occurs_at(haystack, needle, i) && forall|j: int|
                from <= j < i ==> !#[trigger] crate::foreign::occurs_at(haystack, needle, j),
            None => forall|j: int|
                from <= j ==> !#[trigger] crate::foreign::occurs_at(haystack, needle, j),
        },
    decreases haystack.len() + 1 - from,
{
    if from <= haystack.len() && !crate::foreign::occurs_at(haystack, needle, from) {
        lemma_first_occurrence(haystack, needle, from + 1);
    }
}

/// Where the first line of some bytes ends, with its ending.
pub open spec fn first_line_end(bytes: Seq<u8>, ending: Seq<u8>) -> int {
    if ending.len() == 0 {
        bytes.len() as int
    } else {
        match first_occurrence(bytes, ending, 0) {
            Some(i) => i + ending.len(),
            None => bytes.len() as int,
        }
    }
}

proof fn lemma_first_line_end(bytes: Seq<u8>, ending: Seq<u8>)
    ensures
        0 <= first_line_end(bytes, ending) <= bytes.len(),
        bytes.len() > 0 ==> first_line_end(bytes, ending) > 0,
{
    lemma_first_occurrence(bytes, ending, 0);
}

/// The lines of some bytes, each with its ending; the last may lack one.
pub open spec fn lines_of(bytes: Seq<u8>, ending: Seq<u8>) -> Seq<Seq<u8>>
    decreases bytes.len(),
    via lines_of_shrinks
{
    if bytes.len() == 0 {
        Seq::empty()
    } else {
        let end = first_line_end(bytes, ending);
        seq![bytes.take(end)] + lines_of(bytes.skip(end), ending)
    }
}

#[via_fn]
proof fn lines_of_shrinks(bytes: Seq<u8>, ending: Seq<u8>) {
    lemma_first_line_end(bytes, ending);
}

/// Some pieces of bytes.
pub open spec fn slices(bytes: Seq<u8>, ranges: Seq<(usize, usize)>) -> Seq<Seq<u8>> {
    ranges.map_values(|r: (usize, usize)| bytes.subrange(r.0 as int, r.1 as int))
}

/// All pieces lie within the bytes.
pub open spec fn within(bytes: Seq<u8>, ranges: Seq<(usize, usize)>) -> bool {
    forall|i: int|
        0 <= i < ranges.len() ==> (#[trigger] ranges[i]).0 <= ranges[i].1 <= bytes.len()
}

/// Cuts bytes into lines, each with its ending.
pub fn line_ending_ranges(bytes: &[u8], line_ending: &LineEnding) -> (r: Vec<(usize, usize)>)
    ensures
        within(bytes@, r@),
        slices(bytes@, r@) == lines_of(bytes@, line_ending@),
{
    let mut ranges: Vec<(usize, usize)> = Vec::new();
    let mut at: usize = 0;
    let ending = line_ending.to_bytes();
    assert(bytes@.skip(0) =~= bytes@);
    assert(slices(bytes@, ranges@) + lines_of(bytes@.skip(0), ending@) =~= lines_of(
        bytes@,
        ending@,
    ));
    while at < bytes.len()
        invariant
            at <= bytes@.len(),
            ending@ == line_ending@,
            within(bytes@, ranges@),
            slices(bytes@, ranges@) + lines_of(bytes@.skip(at as int), ending@) == lines_of(
                bytes@,
                ending@,
            ),
        decreases bytes@.len() - at,
    {
        let rest = &bytes[at..bytes.len()];
        assert(rest@ =~= bytes@.skip(at as int));
        let len: usize = if ending.len() == 0 {
            rest.len()
        } else {
            match find_bytes(rest, ending.as_slice()) {
                Some(i) => i + ending.len(),
                None => rest.len(),
            }
        };
        proof {
            lemma_first_occurrence(rest@, ending@, 0);
            lemma_first_line_end(rest@, ending@);
            if ending@.len() > 0 {
                match first_occurrence(rest@, ending@, 0) {
                    Some(i) => {
                        assert(crate::foreign::occurs_at(rest@, ending@, i));
                        assert(crate::foreign::occurs_at(rest@, ending@, len - ending@.len()));
                    },
                    None => {
                        assert(!crate::foreign::occurs_at(rest@, ending@, len - ending@.len()));
                    },
                }
            }
            assert(len == first_line_end(rest@, ending@));
            assert(rest@.take(len as int) =~= bytes@.subrange(at as int, at + len));
            assert(rest@.skip(len as int) =~= bytes@.skip(at + len));
        }
        let ghost before = ranges@;
        ranges.push((at, at + len));
        proof {
            assert(slices(bytes@, ranges@) =~= slices(bytes@, before).push(
                bytes@.subrange(at as int, at + len),
            ));
            assert(slices(bytes@, ranges@) + lines_of(bytes@.skip(at + len), ending@) =~= slices(
                bytes@,
                before,
            ) + lines_of(bytes@.skip(at as int), ending@));
        }
        at = at + len;
    }
    proof {
        assert(bytes@.skip(at as int).len() == 0);
        assert(slices(bytes@, ranges@) + lines_of(bytes@.skip(at as int), ending@) =~= slices(
            bytes@,
            ranges@,
        ));
    }
    ranges
}

/// All pieces one after the other.
pub open spec fn concatenated(pieces: Seq<Seq<u8>>) -> Seq<u8>
    decreases pieces.len(),
{
    if pieces.len() == 0 {
        Seq::empty()
    } else {
        pieces[0] + concatenated(pieces.drop_first())
    }
}

/// Cutting bytes into lines loses nothing: the lines one after the other are the bytes.
pub proof fn law_lines_are_the_bytes(bytes: Seq<u8>, ending: Seq<u8>)
    ensures
        concatenated(lines_of(bytes, ending)) == bytes,
    decreases bytes.len(),
{
    if bytes.len() > 0 {
        lemma_first_line_end(bytes, ending);
        let end = first_line_end(bytes, ending);
        law_lines_are_the_bytes(bytes.skip(end), ending);
        let all = lines_of(bytes, ending);
        assert(all.drop_first() =~= lines_of(bytes.skip(end), ending));
        assert(bytes.take(end) + bytes.skip(end) =~= bytes);
    }
}

/// Every line but the last has its ending.
pub proof fn law_all_but_the_last_line_are_complete(bytes: Seq<u8>, ending: Seq<u8>, i: int)
    requires
        ending.len() > 0,
        0 <= i < lines_of(bytes, ending).len() - 1,
    ensures
        crate::traits::has_suffix(lines_of(bytes, ending)[i], ending),
    decreases bytes.len(),
{
    lemma_first_occurrence(bytes, ending, 0);
    lemma_first_line_end(bytes, ending);
    let end = first_line_end(bytes, ending);
    let rest = bytes.skip(end);
    if i == 0 {
        if first_occurrence(bytes, ending, 0) is None {
            assert(rest.len() == 0);
            assert(lines_of(rest, ending).len() == 0);
        } else {
            let line = bytes.take(end);
            assert(line.skip(line.len() - ending.len()) =~= bytes.subrange(
                end - ending.len(),
                end,
            ));
        }
    } else {
        law_all_but_the_last_line_are_complete(rest, ending, i - 1);
        assert(lines_of(bytes, ending)[i] == lines_of(rest, ending)[i - 1]);
    }
}

} // verus!
