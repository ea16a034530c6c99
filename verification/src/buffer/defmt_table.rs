//! What is known of the log messages of a program, and whether any of them can be shown.

use defmt_decoder::Table;
use vstd::prelude::*;
use vstd::string::*;
use vstd::utf8::*;

use crate::foreign::find_bytes;

verus! {

/// `defmt_decoder::Table`, what is known of the messages of a program. What it holds is
/// only known by its formats and by what it makes of bytes.
#[verifier::external_type_specification]
#[verifier::external_body]
pub struct ExTable(defmt_decoder::Table);

/// The formats in a table, as far as it can be written down.
pub uninterp spec fn formats(table: Table) -> Option<Seq<Seq<char>>>;

/// Some texts, if there are any, as plain values.
pub open spec fn text_list(texts: Option<Vec<String>>) -> Option<Seq<Seq<char>>> {
    match texts {
        Some(texts) => Some(crate::text::texts(texts@)),
        None => None,
    }
}

/// `toml::to_string` writes a table down, field by field, and `toml::from_str` reads it
/// again: out of that come the formats of all messages and of the time in front of them.
/// A table with named flags cannot be written down. Which formats those are is only named.
#[verifier::external_body]
fn formats_of(table: &Table) -> (r: Option<Vec<String>>)
    ensures
        text_list(r) == formats(*table),
{
    let text = toml::to_string(table).ok()?;
    let written: toml::Table = toml::from_str(text.as_str()).ok()?;
    let entries = written.get("entries")?.as_table()?.values().chain(written.get("timestamp"));
    entries.map(|entry| Some(entry.get("string")?.get("string")?.as_str()?.to_owned())).collect()
}

/// Whether one text stands somewhere in another; both are given by their bytes.
pub open spec fn occurs(haystack: Seq<u8>, needle: Seq<u8>) -> bool {
    exists|i: int| #[trigger] crate::foreign::occurs_at(haystack, needle, i)
}

fn has(haystack: &[u8], needle: &str) -> (r: bool)
    ensures
        r == occurs(haystack@, encode_utf8(needle@)),
{
    match find_bytes(haystack, needle.as_bytes()) {
        Some(_) => true,
        None => false,
    }
}

/// Whether a byte is a decimal digit.
pub open spec fn is_digit(b: u8) -> bool {
    0x30 <= b <= 0x39
}

/// Whether a brace is open in front of a position.
pub open spec fn is_open_at(format: Seq<u8>, i: int) -> bool {
    exists|open: int|
        0 <= open < i && #[trigger] format[open] == 0x7b && forall|k: int|
            open < k < i ==> #[trigger] format[k] != 0x7d
}

/// Whether five digits stand at a position behind an open brace.
pub open spec fn long_number_at(format: Seq<u8>, i: int) -> bool {
    &&& is_open_at(format, i)
    &&& 0 <= i && i + 5 <= format.len()
    &&& forall|k: int| i <= k < i + 5 ==> is_digit(#[trigger] format[k])
}

/// Whether a number of five or more digits stands behind an open brace: a width, a length
/// or the place of an argument that may be out of range.
pub open spec fn has_long_number(format: Seq<u8>) -> bool {
    exists|i: int| #[trigger] long_number_at(format, i)
}

fn finds_long_number(format: &[u8]) -> (r: bool)
    ensures
        r == has_long_number(format@),
{
    let mut open = false;
    let mut run: usize = 0;
    let mut at: usize = 0;
    while at < format.len()
        invariant
            at <= format@.len(),
            run <= at,
            open == is_open_at(format@, at as int),
            forall|k: int| at - run <= k < at ==> is_digit(#[trigger] format@[k]),
            run < at ==> !is_digit(format@[at - run - 1]),
            run >= 5 ==> !open,
            forall|i: int| i + 5 <= at ==> !#[trigger] long_number_at(format@, i),
        decreases format@.len() - at,
    {
        let b = format[at];
        let ghost before = open;
        if b == 0x7b {
            open = true;
            assert(is_open_at(format@, at + 1)) by {
                assert(format@[at as int] == 0x7b);
            }
        } else if b == 0x7d {
            open = false;
            assert(!is_open_at(format@, at + 1)) by {
                assert(format@[at as int] == 0x7d);
            }
        } else {
            proof {
                lemma_still_open(format@, at as int);
            }
        }
        if 0x30 <= b && b <= 0x39 {
            run += 1;
            if run >= 5 {
                proof {
                    lemma_open_before_digits(format@, at + 1 - 5, at + 1);
                }
                if open {
                    assert(long_number_at(format@, at + 1 - 5));
                    return true;
                }
            }
        } else {
            run = 0;
        }
        proof {
            assert forall|i: int| i + 5 <= at + 1 implies !#[trigger] long_number_at(
                format@,
                i,
            ) by {
                if i + 5 == at + 1 && long_number_at(format@, i) {
                    lemma_open_before_digits(format@, i, at + 1);
                    assert(is_digit(format@[at as int]));
                    assert(run < 5 ==> {
                        &&& run < at + 1
                        &&& is_digit(format@[at + 1 - run - 1])
                    });
                }
            }
        }
        at += 1;
    }
    false
}

proof fn lemma_still_open(format: Seq<u8>, at: int)
    requires
        0 <= at < format.len(),
        format[at] != 0x7b,
        format[at] != 0x7d,
    ensures
        is_open_at(format, at + 1) == is_open_at(format, at),
{
    if is_open_at(format, at) {
        let open = choose|open: int|
            0 <= open < at && #[trigger] format[open] == 0x7b && forall|k: int|
                open < k < at ==> #[trigger] format[k] != 0x7d;
        assert(0 <= open < at + 1 && format[open] == 0x7b);
    }
    if is_open_at(format, at + 1) {
        let open = choose|open: int|
            0 <= open < at + 1 && #[trigger] format[open] == 0x7b && forall|k: int|
                open < k < at + 1 ==> #[trigger] format[k] != 0x7d;
        assert(0 <= open < at && format[open] == 0x7b);
    }
}

proof fn lemma_open_before_digits(format: Seq<u8>, start: int, end: int)
    requires
        0 <= start <= end <= format.len(),
        forall|k: int| start <= k < end ==> is_digit(#[trigger] format[k]),
    ensures
        is_open_at(format, start) == is_open_at(format, end),
    decreases end - start,
{
    if start < end {
        assert(is_digit(format[end - 1]));
        lemma_open_before_digits(format, start, end - 1);
        lemma_still_open(format, end - 1);
    }
}

/// Whether arguments can be shown by a format whatever they are: it shows no date, which
/// may be beyond the calendar, and no nested data; it holds no long number; and none of
/// its variants is nothing but a byte, which cannot stand among others in a byte string.
pub open spec fn is_tame_format(format: Seq<u8>) -> bool {
    &&& !occurs(format, encode_utf8("iso8601"@))
    &&& !occurs(format, encode_utf8("cbor"@))
    &&& !occurs(format, encode_utf8("|{=u8}"@))
    &&& !occurs(format, encode_utf8("{=u8}|"@))
    &&& !has_long_number(format)
}

/// Whether a format has an argument of the size of an address.
pub open spec fn has_isize(format: Seq<u8>) -> bool {
    occurs(format, encode_utf8("=isize"@))
}

/// Whether a format shows something with hexadecimal digits.
pub open spec fn has_hex(format: Seq<u8>) -> bool {
    occurs(format, encode_utf8("x}"@)) || occurs(format, encode_utf8("X}"@))
}

/// Whether messages can be shown with some formats whatever their arguments are: each
/// format is tame, and none shows an argument of the size of an address with hexadecimal
/// digits, be it that another format asks for them.
pub open spec fn are_tame(all: Seq<Seq<char>>) -> bool {
    &&& forall|i: int| 0 <= i < all.len() ==> is_tame_format(encode_utf8(#[trigger] all[i]))
    &&& (forall|i: int| 0 <= i < all.len() ==> !has_isize(encode_utf8(#[trigger] all[i]))) || (
    forall|i: int| 0 <= i < all.len() ==> !has_hex(encode_utf8(#[trigger] all[i])))
}

/// Whether any message of a table can be shown.
pub open spec fn is_tame(table: Table) -> bool {
    formats(table) matches Some(all) && are_tame(all)
}

/// Whether messages can be shown with some formats whatever their arguments are.
pub fn all_tame(all: &Vec<String>) -> (r: bool)
    ensures
        r == are_tame(crate::text::texts(all@)),
{
    let ghost views = crate::text::texts(all@);
    let mut isize_seen = false;
    let mut hex_seen = false;
    let mut i: usize = 0;
    while i < all.len()
        invariant
            i <= all@.len(),
            views == crate::text::texts(all@),
            forall|j: int| 0 <= j < i ==> is_tame_format(encode_utf8(#[trigger] views[j])),
            !isize_seen ==> forall|j: int|
                0 <= j < i ==> !has_isize(encode_utf8(#[trigger] views[j])),
            !hex_seen ==> forall|j: int| 0 <= j < i ==> !has_hex(encode_utf8(#[trigger] views[j])),
            isize_seen ==> exists|j: int|
                0 <= j < i && has_isize(encode_utf8(#[trigger] views[j])),
            hex_seen ==> exists|j: int| 0 <= j < i && has_hex(encode_utf8(#[trigger] views[j])),
        decreases all@.len() - i,
    {
        let format = all[i].as_str().as_bytes();
        assert(format@ == encode_utf8(views[i as int]));
        if has(format, "iso8601") || has(format, "cbor") || has(format, "|{=u8}") || has(
            format,
            "{=u8}|",
        ) || finds_long_number(format) {
            assert(!is_tame_format(encode_utf8(views[i as int])));
            return false;
        }
        if has(format, "=isize") {
            assert(has_isize(encode_utf8(views[i as int])));
            isize_seen = true;
        }
        if has(format, "x}") || has(format, "X}") {
            assert(has_hex(encode_utf8(views[i as int])));
            hex_seen = true;
        }
        i += 1;
    }
    !(isize_seen && hex_seen)
}

/// A table of messages, with whether any of them can be shown.
pub struct DefmtTable {
    table: Table,
    tame: bool,
}

impl View for DefmtTable {
    type V = Table;

    closed spec fn view(&self) -> Table {
        self.table
    }
}

impl DefmtTable {
    #[verifier::type_invariant]
    spec fn tameness_is_known(self) -> bool {
        self.tame == is_tame(self.table)
    }

    /// Takes a table, and finds out whether any of its messages can be shown.
    pub fn new(table: Table) -> (r: DefmtTable)
        ensures
            r@ == table,
    {
        let tame = match formats_of(&table) {
            Some(all) => all_tame(&all),
            None => false,
        };
        DefmtTable { table, tame }
    }

    /// The table itself.
    pub fn table(&self) -> (r: &Table)
        ensures
            *r == self@,
    {
        &self.table
    }

    /// Whether any message of the table can be shown.
    pub fn tame(&self) -> (r: bool)
        ensures
            r == is_tame(self@),
    {
        proof {
            use_type_invariant(self);
        }
        self.tame
    }
}

} // verus!
