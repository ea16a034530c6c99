//! Calls into other crates, each with what is relied on of its result.

use bstr::{ByteSlice, ByteVec};
use sha2::Digest;
use vstd::prelude::*;
use vstd::string::*;
use vstd::utf8::*;

verus! {

/// What `bstr::ByteVec::unescape_bytes` makes of a text.
pub uninterp spec fn unescaped(text: Seq<char>) -> Seq<u8>;

/// The text that `bstr::ByteSlice::escape_bytes` makes of some bytes.
pub uninterp spec fn escaped(bytes: Seq<u8>) -> Seq<char>;

/// `bstr::ByteVec::unescape_bytes` depends on the text alone. A text without a
/// backslash gives its own bytes, and one that is not empty gives at least one byte.
#[verifier::external_body]
pub(crate) fn unescape_bytes(text: &str) -> (r: Vec<u8>)
    ensures
        r@ == unescaped(text@),
        !text@.contains('\\') ==> r@ == encode_utf8(text@),
        text@.len() > 0 ==> r@.len() > 0,
{
    Vec::unescape_bytes(text)
}

/// `bstr::ByteSlice::escape_bytes` depends on the bytes alone, and
/// `unescape_bytes` undoes it. A line feed becomes `\n` and a carriage return
/// `\r`, so neither is left in the text, and no text but these comes from them.
#[verifier::external_body]
pub(crate) fn escape_bytes(bytes: &[u8]) -> (r: String)
    ensures
        r@ == escaped(bytes@),
        unescaped(r@) == bytes@,
        !r@.contains('\n') && !r@.contains('\r'),
        r@.len() == 0 <==> bytes@.len() == 0,
        r@ == seq!['\\', 'n'] <==> bytes@ == seq![0x0au8],
        r@ == seq!['\\', 'r'] <==> bytes@ == seq![0x0du8],
        r@ == seq!['\\', 'r', '\\', 'n'] <==> bytes@ == seq![0x0du8, 0x0au8],
{
    bytes.escape_bytes().to_string()
}

/// `memchr::memchr` gives the index of the first occurrence of a byte, or
/// `None` if it does not occur.
#[verifier::external_body]
pub(crate) fn find_byte(needle: u8, haystack: &[u8]) -> (r: Option<usize>)
    ensures
        r is None <==> !haystack@.contains(needle),
        r matches Some(i) ==> i < haystack@.len() && haystack@[i as int] == needle
            && !haystack@.take(i as int).contains(needle),
{
    memchr::memchr(needle, haystack)
}

/// Whether `needle` stands at position `i` of `haystack`.
pub open spec fn occurs_at(haystack: Seq<u8>, needle: Seq<u8>, i: int) -> bool {
    0 <= i && i + needle.len() <= haystack.len() && haystack.subrange(i, i + needle.len()) == needle
}

/// `memchr::memmem::find` gives the index of the first occurrence of a byte
/// string, or `None` if it does not occur.
#[verifier::external_body]
pub(crate) fn find_bytes(haystack: &[u8], needle: &[u8]) -> (r: Option<usize>)
    ensures
        match r {
            Some(i) => occurs_at(haystack@, needle@, i as int) && forall|j: int|
                0 <= j < i ==> !#[trigger] occurs_at(haystack@, needle@, j),
            None => forall|j: int| !#[trigger] occurs_at(haystack@, needle@, j),
        },
{
    memchr::memmem::find(haystack, needle)
}

/// The value of a hexadecimal digit of either case.
pub open spec fn hex_value(b: u8) -> Option<u8> {
    if 0x30 <= b <= 0x39 {
        Some((b - 0x30) as u8)
    } else if 0x41 <= b <= 0x46 {
        Some((b - 0x37) as u8)
    } else if 0x61 <= b <= 0x66 {
        Some((b - 0x57) as u8)
    } else {
        None
    }
}

/// Whether some bytes are an even number of hexadecimal digits.
pub open spec fn is_hex(bytes: Seq<u8>) -> bool {
    &&& bytes.len() % 2 == 0
    &&& forall|i: int| 0 <= i < bytes.len() ==> hex_value(#[trigger] bytes[i]) is Some
}

/// The bytes that pairs of hexadecimal digits stand for.
pub open spec fn hex_decoded(bytes: Seq<u8>) -> Seq<u8> {
    Seq::new(
        bytes.len() / 2,
        |i: int| (hex_value(bytes[2 * i])->0 * 16 + hex_value(bytes[2 * i + 1])->0) as u8,
    )
}

/// Two upper-case hexadecimal digits for each byte.
pub open spec fn hex_encoded(bytes: Seq<u8>) -> Seq<char> {
    Seq::new(
        2 * bytes.len(),
        |i: int|
            if i % 2 == 0 {
                crate::text::digit((bytes[i / 2] / 16) as nat)
            } else {
                crate::text::digit((bytes[i / 2] % 16) as nat)
            },
    )
}

/// How many columns `unicode_width` gives a text.
pub uninterp spec fn columns(text: Seq<char>) -> usize;

/// How many columns `unicode_width` gives a character; none if it is a control
/// character.
pub uninterp spec fn char_columns(c: char) -> Option<usize>;

/// `unicode_width::UnicodeWidthStr::width` depends on the text alone. Each printable
/// ASCII character takes one column.
#[verifier::external_body]
pub(crate) fn text_width(text: &str) -> (r: usize)
    ensures
        r == columns(text@),
        (forall|i: int| 0 <= i < text@.len() ==> ' ' <= #[trigger] text@[i] <= '~') ==> r
            == text@.len(),
{
    unicode_width::UnicodeWidthStr::width(text)
}

/// `unicode_width::UnicodeWidthChar::width` depends on the character alone, and is
/// at most three. A printable ASCII character takes one column.
#[verifier::external_body]
pub(crate) fn char_width(c: char) -> (r: Option<usize>)
    ensures
        r == char_columns(c),
        r matches Some(n) ==> n <= 3,
        ' ' <= c && c <= '~' ==> r == Some(1usize),
{
    unicode_width::UnicodeWidthChar::width(c)
}

/// Whether Unicode counts a character among the letters.
pub uninterp spec fn alphabetic(c: char) -> bool;

/// `char::is_alphabetic` depends on the character alone; among those of ASCII it
/// holds of the letters.
#[verifier::external_body]
pub(crate) fn is_alphabetic(c: char) -> (r: bool)
    ensures
        r == alphabetic(c),
        c as u32 <= 0x7f ==> r == ('a' <= c && c <= 'z' || 'A' <= c && c <= 'Z'),
{
    c.is_alphabetic()
}

/// `hex::encode_upper` writes each byte as two upper-case hexadecimal digits.
#[verifier::external_body]
pub(crate) fn hex_encode_upper(bytes: &[u8]) -> (r: String)
    ensures
        r@ == hex_encoded(bytes@),
{
    hex::encode_upper(bytes)
}

/// Whether `semver::Version::parse` accepts a text.
pub uninterp spec fn is_version(text: Seq<char>) -> bool;

/// Whether one version is greater than another by the order of `semver::Version`.
pub uninterp spec fn newer_version(a: Seq<char>, b: Seq<char>) -> bool;

/// `semver::Version::parse` accepts a text or not, depending on the text alone.
#[verifier::external_body]
pub(crate) fn parses_as_version(text: &str) -> (r: bool)
    ensures
        r == is_version(text@),
{
    semver::Version::parse(text).is_ok()
}

/// The order of `semver::Version` is total: nothing is greater than itself, nor than
/// what is greater than it; what is greater than a version is greater than all that
/// one is greater than; and of two versions, the one that is not less is greater than
/// all that the other is greater than. The answer for a text that is no version is
/// not stated.
#[verifier::external_body]
pub(crate) fn is_newer_version(a: &str, b: &str) -> (r: bool)
    requires
        is_version(a@),
        is_version(b@),
    ensures
        r == newer_version(a@, b@),
        a@ == b@ ==> !r,
        r ==> !newer_version(b@, a@),
        r ==> !newer_version(a@, a@),
        r ==> forall|c: Seq<char>| #[trigger] newer_version(b@, c) ==> newer_version(a@, c),
        !r ==> forall|c: Seq<char>| #[trigger] newer_version(a@, c) ==> newer_version(b@, c),
        r ==> forall|c: Seq<char>| #[trigger] newer_version(c, a@) ==> newer_version(c, b@),
        !r ==> forall|c: Seq<char>| #[trigger] newer_version(c, b@) ==> newer_version(c, a@),
{
    match (semver::Version::parse(a), semver::Version::parse(b)) {
        (Ok(a), Ok(b)) => a > b,
        _ => false,
    }
}

/// The SHA-512 digest of some bytes, in lower-case hexadecimal digits.
pub uninterp spec fn sha512_digits(bytes: Seq<u8>) -> Seq<char>;

/// `sha2::Sha512::digest` gives a digest of the bytes; written in hexadecimal, it
/// has two digits for each of its 64 bytes. What the digits are is not stated.
#[verifier::external_body]
pub(crate) fn sha512_hex(bytes: &[u8]) -> (r: String)
    ensures
        r@ == sha512_digits(bytes@),
        r@.len() == 128,
{
    format!("{:x}", sha2::Sha512::digest(bytes))
}

/// What `hex::decode` says of a text that it does not accept.
pub uninterp spec fn decode_complaint(text: Seq<char>) -> Seq<char>;

/// `hex::decode` succeeds exactly on an even number of hexadecimal digits, and
/// then gives the bytes that their pairs stand for. Otherwise its error, written
/// out, depends on the text alone, and complains first of all of an odd number.
#[verifier::external_body]
pub(crate) fn hex_decode(text: &str) -> (r: Result<Vec<u8>, String>)
    ensures
        r is Ok <==> is_hex(text.spec_bytes()),
        r matches Ok(v) ==> v@ == hex_decoded(text.spec_bytes()),
        r matches Err(e) ==> e@ == decode_complaint(text@),
        r matches Err(e) ==> text.spec_bytes().len() % 2 == 1 ==> e@ == "Odd number of digits"@,
{
    hex::decode(text).map_err(|error| error.to_string())
}

/// `slice::utf8_chunks` splits bytes into contiguous valid ranges of UTF-8; the
/// valid part of its first chunk is the longest valid prefix. There is no chunk
/// only where there are no bytes.
#[verifier::external_body]
pub(crate) fn valid_prefix(bytes: &[u8]) -> (r: Option<String>)
    ensures
        r is None <==> bytes@.len() == 0,
        r matches Some(s) ==> {
            &&& encode_utf8(s@).is_prefix_of(bytes@)
            &&& forall|n: int|
                encode_utf8(s@).len() < n <= bytes@.len() ==> !valid_utf8(#[trigger] bytes@.take(n))
        },
{
    bytes.utf8_chunks().next().map(|chunk| chunk.valid().to_owned())
}

/// Where the first match of a regular expression starts in a text, in bytes;
/// `None` if there is no match or if `pattern` is none.
pub uninterp spec fn first_match(pattern: Seq<char>, text: Seq<char>) -> Option<usize>;

/// The length of the run of visible characters at the end of a text.
pub open spec fn last_run(s: Seq<char>) -> int
    decreases s.len(),
{
    if s.len() == 0 || crate::text::white_space(s.last()) {
        0
    } else {
        1 + last_run(s.drop_last())
    }
}

/// Where the last word of a text starts, in characters; `None` if it has no word.
pub open spec fn last_word(s: Seq<char>) -> Option<int> {
    let end = crate::text::past_last_visible(s);
    if end == 0 {
        None
    } else {
        Some(end - last_run(s.take(end)))
    }
}

/// `regex::Regex::find` depends on the pattern and the text alone, and a match
/// starts on a character boundary. The pattern `\S+(?:\s+)?$` matches the last
/// word of a text with the white space behind it.
#[verifier::external_body]
pub(crate) fn find_first(pattern: &str, text: &str) -> (r: Option<usize>)
    ensures
        r == first_match(pattern@, text@),
        r matches Some(i) ==> is_char_boundary(text.spec_bytes(), i as int) && i
            <= text.spec_bytes().len(),
        pattern@ == "\\S+(?:\\s+)?$"@ ==> match last_word(text@) {
            None => r is None,
            Some(start) => r is Some && r->0 == encode_utf8(text@.take(start)).len(),
        },
{
    let regex = regex::Regex::new(pattern).ok()?;
    regex.find(text).map(|found| found.start())
}

/// Whether `espflash` knows a chip of this name.
pub uninterp spec fn known_chip(name: Seq<char>) -> bool;

/// Parsing an `espflash::target::Chip` succeeds for the names of known chips.
/// Which names these are is left to that crate.
#[verifier::external_body]
pub(crate) fn is_known_chip(name: &str) -> (r: bool)
    ensures
        r == known_chip(name@),
{
    name.parse::<espflash::target::Chip>().is_ok()
}

/// Decoding undoes encoding: the digits of some bytes are read back as those bytes.
pub proof fn law_hex_round_trip(bytes: Seq<u8>)
    ensures
        is_hex(encode_utf8(hex_encoded(bytes))),
        hex_decoded(encode_utf8(hex_encoded(bytes))) == bytes,
{
    let text = hex_encoded(bytes);
    assert forall|i: int| 0 <= i < text.len() implies {
        let c = #[trigger] text[i];
        &&& (c as nat) < 128
        &&& hex_value(c as u8) == Some(
            if i % 2 == 0 {
                (bytes[i / 2] / 16) as u8
            } else {
                (bytes[i / 2] % 16) as u8
            },
        )
    } by {
        let d: nat = if i % 2 == 0 {
            (bytes[i / 2] / 16) as nat
        } else {
            (bytes[i / 2] % 16) as nat
        };
        assert(d < 16);
        assert(text[i] == crate::text::digit(d));
    }
    assert(is_ascii_chars(text)) by {
        assert forall|i: int| 0 <= i < text.len() implies (0 <= (#[trigger] text[i]) as nat) && (
        (text[i] as nat) < 128) by {}
    }
    is_ascii_chars_encode_utf8(text);
    let encoded = encode_utf8(text);
    assert(encoded =~= Seq::new(text.len(), |i: int| text[i] as u8));
    assert(encoded.len() == 2 * bytes.len());
    assert forall|i: int| 0 <= i < encoded.len() implies hex_value(#[trigger] encoded[i]) is Some by {
        assert(encoded[i] == text[i] as u8);
    }
    assert forall|i: int| 0 <= i < bytes.len() implies #[trigger] hex_decoded(encoded)[i]
        == bytes[i] by {
        assert(encoded[2 * i] == text[2 * i] as u8);
        assert(encoded[2 * i + 1] == text[2 * i + 1] as u8);
        assert((2 * i) / 2 == i && (2 * i + 1) / 2 == i && (2 * i) % 2 == 0 && (2 * i + 1) % 2
            == 1);
        let b = bytes[i];
        assert((b / 16) * 16 + b % 16 == b);
    }
    assert(hex_decoded(encoded) =~= bytes);
}

} // verus!
