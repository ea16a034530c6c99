//! What holds of the hex view, and of what is shown around a line.

use vstd::prelude::*;
use vstd::string::*;
use vstd::utf8::*;

use crate::buffer::buf_line::{BufLine, FrameLocation, LineFinished, LineType};
use crate::laws::{value_of_digit, value_of_digits};
use crate::line::{Color, SpanView};
use crate::settings::{Defmt, HexHighlightStyle, Level, Rendering};

verus! {

proof fn lemma_two_digits(b: u8)
    ensures
        encode_utf8(crate::text::byte_digits(b)).len() == 2,
        value_of_digit(encode_utf8(crate::text::byte_digits(b))[0] as char) == b / 16,
        value_of_digit(encode_utf8(crate::text::byte_digits(b))[1] as char) == b % 16,
{
    let s = crate::text::byte_digits(b);
    assert(is_ascii_chars(s));
    is_ascii_chars_encode_utf8(s);
}

proof fn lemma_spaces(i: int)
    requires
        i >= 0,
    ensures
        ({
            let space = crate::line::flat(crate::buffer::hex_view::separator(i));
            &&& space.len() == (if i == 0 {
                0int
            } else if i % 8 == 0 {
                2
            } else {
                1
            })
            &&& forall|k: int| 0 <= k < space.len() ==> (#[trigger] space[k]).0 == 0x20
        }),
{
    reveal_with_fuel(crate::line::flat, 3);
    let one = seq![' '];
    let two = seq![' ', ' '];
    assert(is_ascii_chars(one));
    assert(is_ascii_chars(two));
    is_ascii_chars_encode_utf8(one);
    is_ascii_chars_encode_utf8(two);
    let spans = crate::buffer::hex_view::separator(i);
    if i != 0 {
        assert(spans.drop_last() =~= Seq::<SpanView>::empty());
        assert(crate::line::flat(spans) =~= crate::line::flat_span(spans.last()));
    }
}

/// The digits of a row are those of its bytes: the byte at a place stands three columns
/// further on for each byte before it, and one more for each eight of them. Between them
/// there are spaces.
pub proof fn law_digits_of_a_row(bytes: Seq<u8>, even: bool, highlight: HexHighlightStyle)
    ensures
        ({
            let row = crate::line::flat(crate::buffer::hex_view::hex_row(bytes, even, highlight));
            &&& bytes.len() > 0 ==> row.len() == 3 * bytes.len() - 1 + (bytes.len() - 1) / 8
            &&& bytes.len() == 0 ==> row.len() == 0
            &&& forall|i: int|
                #![trigger bytes[i]]
                0 <= i < bytes.len() ==> {
                    let at = 3 * i + i / 8;
                    &&& at + 1 < row.len()
                    &&& bytes[i] == 16 * value_of_digit(row[at].0 as char) + value_of_digit(
                        row[at + 1].0 as char,
                    )
                }
        }),
    decreases bytes.len(),
{
    let spans = crate::buffer::hex_view::hex_row(bytes, even, highlight);
    let row = crate::line::flat(spans);
    if bytes.len() > 0 {
        let n = bytes.len() - 1;
        law_digits_of_a_row(bytes.drop_last(), even, highlight);
        let front = crate::buffer::hex_view::hex_row(bytes.drop_last(), even, highlight);
        let space = crate::buffer::hex_view::separator(n);
        let last = crate::line::span_of(
            crate::text::byte_digits(bytes.last()),
            crate::buffer::hex_view::byte_style(
                bytes.last(),
                crate::buffer::hex_view::row_styles(even),
                highlight,
            ),
        );
        assert(spans == front + space + seq![last]);
        crate::line::lemma_flat_concat(front + space, seq![last]);
        crate::line::lemma_flat_concat(front, space);
        crate::line::lemma_flat_one(last);
        lemma_spaces(n);
        lemma_two_digits(bytes.last());
        let before = crate::line::flat(front);
        assert(row =~= before + crate::line::flat(space) + crate::line::flat_span(last));
        assert forall|i: int| #![trigger bytes[i]] 0 <= i < bytes.len() implies {
            let at = 3 * i + i / 8;
            &&& at + 1 < row.len()
            &&& bytes[i] == 16 * value_of_digit(row[at].0 as char) + value_of_digit(
                row[at + 1].0 as char,
            )
        } by {
            let at = 3 * i + i / 8;
            if i < n {
                assert(bytes.drop_last()[i] == bytes[i]);
                assert(row[at] == before[at] && row[at + 1] == before[at + 1]);
            } else {
                assert(at == before.len() + crate::line::flat(space).len());
                assert(row[at] == crate::line::flat_span(last)[0]);
                assert(row[at + 1] == crate::line::flat_span(last)[1]);
                assert(bytes.last() == bytes[i]);
            }
        }
    }
}

/// Above the bytes of a row stand their numbers, at the same places.
pub proof fn law_numbers_above_a_row(n: int)
    requires
        0 <= n <= 256,
    ensures
        ({
            let row = crate::line::flat(crate::buffer::hex_view::marker_row(n));
            &&& n > 0 ==> row.len() == 3 * n - 1 + (n - 1) / 8
            &&& n == 0 ==> row.len() == 0
            &&& forall|i: int|
                #![trigger column_of(i)]
                0 <= i < n ==> {
                    let at = column_of(i);
                    &&& at + 1 < row.len()
                    &&& i == 16 * value_of_digit(row[at].0 as char) + value_of_digit(
                        row[at + 1].0 as char,
                    )
                }
        }),
    decreases n,
{
    let spans = crate::buffer::hex_view::marker_row(n);
    let row = crate::line::flat(spans);
    if n > 0 {
        law_numbers_above_a_row(n - 1);
        let front = crate::buffer::hex_view::marker_row(n - 1);
        let space = crate::buffer::hex_view::separator(n - 1);
        let last = crate::line::span_of(
            crate::text::byte_digits((n - 1) as u8),
            crate::buffer::hex_view::colored(Color::DarkGray),
        );
        assert(spans == front + space + seq![last]);
        crate::line::lemma_flat_concat(front + space, seq![last]);
        crate::line::lemma_flat_concat(front, space);
        crate::line::lemma_flat_one(last);
        lemma_spaces(n - 1);
        lemma_two_digits((n - 1) as u8);
        let before = crate::line::flat(front);
        assert(row =~= before + crate::line::flat(space) + crate::line::flat_span(last));
        assert forall|i: int| #![trigger column_of(i)] 0 <= i < n implies {
            let at = column_of(i);
            &&& at + 1 < row.len()
            &&& i == 16 * value_of_digit(row[at].0 as char) + value_of_digit(row[at + 1].0 as char)
        } by {
            let at = column_of(i);
            if i < n - 1 {
                assert(row[at] == before[at] && row[at + 1] == before[at + 1]);
            } else {
                assert(at == before.len() + crate::line::flat(space).len());
                assert(row[at] == crate::line::flat_span(last)[0]);
                assert(row[at + 1] == crate::line::flat_span(last)[1]);
            }
        }
    }
}

/// The column that the digits of a byte start in.
pub open spec fn column_of(i: int) -> int {
    3 * i + i / 8
}

/// Beside its digits a byte stands as its character if it can be printed, and as a dot if
/// it cannot; a space may be shown as a low line.
pub proof fn law_character_of_a_byte(byte: u8, even: bool, highlight: HexHighlightStyle)
    ensures
        ({
            let span = crate::buffer::hex_view::ascii_span(byte, even, highlight);
            &&& span.bytes.len() == 1
            &&& 0x21 <= byte <= 0x7e ==> span.bytes[0] == byte
            &&& byte == 0x20 ==> span.bytes[0] == 0x20 || span.bytes[0] == 0x5f
            &&& byte == 0x20 && !(highlight is HighlightAsciiSymbols) ==> span.bytes[0] == 0x20
            &&& byte < 0x20 || byte > 0x7e ==> span.bytes[0] == 0x2e
        }),
{
    let own = seq![byte as char];
    let dot = seq!['.'];
    let low = seq!['_'];
    if byte < 128 {
        assert(is_ascii_chars(own));
        is_ascii_chars_encode_utf8(own);
    }
    assert(is_ascii_chars(dot));
    is_ascii_chars_encode_utf8(dot);
    assert(is_ascii_chars(low));
    is_ascii_chars_encode_utf8(low);
}

/// The rows on the screen show the received bytes from the row that was scrolled to on, each
/// as many as fit, and the characters beside the digits are those of the same bytes.
pub proof fn law_rows_show_their_bytes(
    bytes: Seq<u8>,
    per: int,
    scroll: int,
    highlight: HexHighlightStyle,
    height: int,
    i: int,
    k: int,
)
    requires
        per > 0,
        scroll >= 0,
        0 <= i < crate::buffer::hex_view::shown_rows(bytes.len() as int, per, scroll, height),
        0 <= k < per,
        (scroll + i) * per + k < bytes.len(),
    ensures
        ({
            let digits = crate::buffer::hex_view::hex_rows(bytes, per, scroll, highlight, height)[i];
            let characters = crate::buffer::hex_view::ascii_rows(
                bytes,
                per,
                scroll,
                highlight,
                height,
            )[i];
            let row = crate::line::flat(digits.spans);
            let at = column_of(k);
            let byte = bytes[(scroll + i) * per + k];
            &&& at + 1 < row.len()
            &&& byte == 16 * value_of_digit(row[at].0 as char) + value_of_digit(
                row[at + 1].0 as char,
            )
            &&& k < characters.spans.len()
            &&& 0x21 <= byte <= 0x7e ==> characters.spans[k].bytes == seq![byte]
        }),
{
    let start = (scroll + i) * per;
    assert(start >= 0) by (nonlinear_arith)
        requires
            scroll + i >= 0,
            per > 0,
            start == (scroll + i) * per,
    ;
    let own = crate::buffer::hex_view::row_bytes(bytes, per, scroll + i);
    let even = crate::buffer::hex_view::even_row(scroll + i);
    assert(own[k] == bytes[start + k]);
    law_digits_of_a_row(own, even, highlight);
    law_character_of_a_byte(own[k], even, highlight);
    let span = crate::buffer::hex_view::ascii_span(own[k], even, highlight);
    assert(0x21 <= own[k] <= 0x7e ==> span.bytes =~= seq![own[k]]);
}

/// The offset of a row is the place of its first byte.
pub proof fn law_offsets_of_rows(len: int, bytes_per_line: int, scroll: int, height: int, i: int)
    requires
        bytes_per_line > 0,
        scroll >= 0,
        0 <= i < crate::buffer::hex_view::shown_rows(len, bytes_per_line, scroll, height),
    ensures
        ({
            let row = crate::buffer::hex_view::offset_rows(len, bytes_per_line, scroll, height)[i];
            &&& row.spans.len() == 1
            &&& row.spans[0].bytes == encode_utf8(
                crate::text::digits(((scroll + i) * bytes_per_line) as nat, 16),
            )
            &&& value_of_digits(
                crate::text::digits(((scroll + i) * bytes_per_line) as nat, 16),
                16,
            ) == (scroll + i) * bytes_per_line
        }),
{
    assert((scroll + i) * bytes_per_line >= 0) by (nonlinear_arith)
        requires
            scroll + i >= 0,
            bytes_per_line > 0,
    ;
    crate::laws::law_digits_have_the_value(((scroll + i) * bytes_per_line) as nat, 16);
}

/// As many rows are shown as there is room for, and no row without a byte.
pub proof fn law_rows_that_are_shown(len: int, bytes_per_line: int, scroll: int, height: int)
    requires
        len >= 0,
        bytes_per_line > 0,
        scroll >= 0,
        height >= 0,
    ensures
        ({
            let rows = crate::buffer::hex_view::shown_rows(len, bytes_per_line, scroll, height);
            &&& 0 <= rows <= height
            &&& rows > 0 ==> (scroll + rows - 1) * bytes_per_line < len
            &&& rows < height ==> (scroll + rows) * bytes_per_line >= len
        }),
{
    let rest = if len <= scroll * bytes_per_line {
        0
    } else {
        len - scroll * bytes_per_line
    };
    let all = (rest + bytes_per_line - 1) / bytes_per_line;
    vstd::arithmetic::div_mod::lemma_fundamental_div_mod(rest + bytes_per_line - 1, bytes_per_line);
    vstd::arithmetic::div_mod::lemma_mod_bound(rest + bytes_per_line - 1, bytes_per_line);
    assert(all >= 0) by (nonlinear_arith)
        requires
            all == (rest + bytes_per_line - 1) / bytes_per_line,
            rest >= 0,
            bytes_per_line > 0,
    ;
    let rows = crate::buffer::hex_view::shown_rows(len, bytes_per_line, scroll, height);
    assert(bytes_per_line * all >= rest);
    assert(bytes_per_line * all <= rest + bytes_per_line - 1);
    assert((scroll + rows) * bytes_per_line == scroll * bytes_per_line + rows * bytes_per_line)
        by (nonlinear_arith);
    assert((scroll + rows - 1) * bytes_per_line == scroll * bytes_per_line + rows * bytes_per_line
        - bytes_per_line) by (nonlinear_arith);
    assert(rows <= all ==> rows * bytes_per_line <= all * bytes_per_line) by (nonlinear_arith)
        requires
            bytes_per_line > 0,
    ;
    assert(all * bytes_per_line == bytes_per_line * all) by (nonlinear_arith);
    if rows > 0 {
        assert(rest > 0) by {
            if rest == 0 {
                assert(all * bytes_per_line < bytes_per_line);
                assert(all < 1) by (nonlinear_arith)
                    requires
                        all * bytes_per_line < bytes_per_line,
                        bytes_per_line > 0,
                ;
            }
        }
    }
}

/// A zero is dark wherever bytes are told apart by color.
pub proof fn law_zeroes_are_dark(even: bool, highlight: HexHighlightStyle)
    requires
        !(highlight is Plain),
    ensures
        crate::buffer::hex_view::byte_style(
            0,
            crate::buffer::hex_view::row_styles(even),
            highlight,
        ).fg == Some(Color::DarkGray),
{
}

proof fn lemma_leading_zero(s: Seq<char>, base: int)
    ensures
        value_of_digits(seq!['0'] + s, base) == value_of_digits(s, base),
    decreases s.len(),
{
    let t = seq!['0'] + s;
    if s.len() == 0 {
        assert(t.drop_last() =~= Seq::<char>::empty());
        assert(value_of_digits(t.drop_last(), base) == 0);
        assert(base * 0 == 0);
    } else {
        assert(t.drop_last() =~= seq!['0'] + s.drop_last());
        lemma_leading_zero(s.drop_last(), base);
    }
}

pub proof fn lemma_padded_value(s: Seq<char>, n: nat, base: int)
    ensures
        value_of_digits(Seq::new(n, |i: int| '0') + s, base) == value_of_digits(s, base),
    decreases n,
{
    let zeroes = Seq::new(n, |i: int| '0');
    if n == 0 {
        assert(zeroes + s =~= s);
    } else {
        let fewer = Seq::new((n - 1) as nat, |i: int| '0');
        assert(zeroes + s =~= seq!['0'] + (fewer + s));
        lemma_leading_zero(fewer + s, base);
        lemma_padded_value(s, (n - 1) as nat, base);
    }
}

/// The index in front of a line reads as the place it stands for, in either base.
pub proof fn law_indices_read_back(n: nat)
    ensures
        value_of_digits(crate::buffer::buf_line::index_text(n, false), 10) == n,
        crate::buffer::buf_line::index_text(n, true).take(2) == seq!['0', 'x'],
        value_of_digits(crate::buffer::buf_line::index_text(n, true).skip(2), 16) == n,
        crate::buffer::buf_line::index_text(n, false).len() >= 6,
        crate::buffer::buf_line::index_text(n, true).len() >= 8,
{
    crate::laws::law_digits_have_the_value(n, 10);
    crate::laws::law_digits_have_the_value(n, 16);
    let ten = crate::text::digits(n, 10);
    let sixteen = crate::text::digits(n, 16);
    if ten.len() < 6 {
        lemma_padded_value(ten, (6 - ten.len()) as nat, 10);
    }
    if sixteen.len() < 6 {
        lemma_padded_value(sixteen, (6 - sixteen.len()) as nat, 16);
    }
    let hex = crate::buffer::buf_line::index_text(n, true);
    assert(hex.take(2) =~= seq!['0', 'x']);
    assert(hex.skip(2) =~= crate::text::pad_left(sixteen, 6, '0'));
}

/// A length is shown in the base that indices are, and fills its columns.
pub proof fn law_lengths_are_shown(n: nat)
    ensures
        ({
            let ten = crate::buffer::buf_line::length_text(n, false);
            let sixteen = crate::buffer::buf_line::length_text(n, true);
            let digits = crate::text::digits(n, 10);
            let hex = crate::text::digits(n, 16);
            &&& ten.skip(ten.len() - digits.len()) == digits
            &&& sixteen.skip(sixteen.len() - hex.len()) == hex
            &&& ten.len() >= 3 && sixteen.len() >= 4
            &&& value_of_digits(digits, 10) == n && value_of_digits(hex, 16) == n
        }),
{
    crate::laws::law_digits_have_the_value(n, 10);
    crate::laws::law_digits_have_the_value(n, 16);
    let digits = crate::text::digits(n, 10);
    let hex = crate::text::digits(n, 16);
    let ten = crate::buffer::buf_line::length_text(n, false);
    let sixteen = crate::buffer::buf_line::length_text(n, true);
    assert(ten.skip(ten.len() - digits.len()) =~= digits);
    assert(sixteen.skip(sixteen.len() - hex.len()) =~= hex);
}

/// In front of a line stand its first index, the one behind its last, and their distance; in
/// front of a line of the user its place twice, and how many bytes were sent.
pub proof fn law_indices_around_a_line(line: BufLine, rendering: Rendering)
    requires
        rendering.show_indices,
        line.wf(),
    ensures
        ({
            let hex = rendering.indices_as_hex;
            let start = line.range_in_raw_buffer.start as nat;
            let end = line.range_in_raw_buffer.end as nat;
            let text = |n: nat| crate::buffer::buf_line::index_text(n, hex);
            &&& !(line.line_type is User) ==> line.shown_indices(rendering) == Some(
                seq!['('] + text(start) + seq!['.', '.'] + text(end) + seq![',', ' ']
                    + crate::buffer::buf_line::length_text((end - start) as nat, hex) + seq![
                    ')',
                    ' ',
                ],
            )
            &&& line.line_type matches LineType::User { reloggable_raw, .. }
                ==> line.shown_indices(rendering) == Some(
                seq!['('] + text(start) + seq!['=', '='] + text(start) + seq![',', ' ']
                    + crate::buffer::buf_line::length_text(reloggable_raw@.len(), hex) + seq![
                    ')',
                    ' ',
                ],
            )
        }),
{
}

/// What stands around a line is what the settings ask for, and nothing that they do not.
pub proof fn law_what_stands_around_a_line(line: BufLine, rendering: Rendering, defmt: Defmt)
    ensures
        !rendering.timestamps ==> line.shown_time(rendering) is None,
        rendering.timestamps ==> line.shown_time(rendering) == line.timestamp.formatted(
            "[%H:%M:%S%.3f] "@,
        ),
        line.shown_indices(rendering) is Some <==> rendering.show_indices,
        !rendering.show_line_ending ==> line.shown_ending(rendering) is None,
        rendering.show_line_ending ==> (line.line_type matches LineType::Port(
            LineFinished::LineEnding(ending),
        ) ==> line.shown_ending(rendering) == Some(ending@)),
        line.line_type is Port && !(line.line_type->Port_0 is LineEnding) ==> line.shown_ending(
            rendering,
        ) is None,
        !(line.line_type is PortDefmt) ==> {
            &&& line.shown_device_time(defmt) is None
            &&& line.shown_level().len() == 0
            &&& line.shown_location(defmt) is None
        },
        !defmt.device_timestamp ==> line.shown_device_time(defmt) is None,
        line.line_type matches LineType::PortDefmt { device_timestamp: Some(time), .. }
            ==> defmt.device_timestamp ==> line.shown_device_time(defmt) == Some(time@),
{
}

/// The place in the source is shown with the parts that are asked for: nothing if none is.
pub proof fn law_shown_place(location: FrameLocation, defmt: Defmt)
    ensures
        ({
            let shown = crate::buffer::buf_line::location_text(location, defmt);
            let none = defmt.show_module is Hidden && defmt.show_file is Hidden
                && !defmt.show_line_number;
            let number = crate::text::digits(location.line as nat, 10);
            &&& shown is None <==> none
            &&& defmt.show_module is Full && defmt.show_file is Hidden && !defmt.show_line_number
                ==> shown == Some(seq![' '] + location.module@)
            &&& defmt.show_module is Hidden && defmt.show_file is Full && !defmt.show_line_number
                ==> shown == Some(seq![' '] + location.file@)
            &&& defmt.show_module is Hidden && defmt.show_file is Full && defmt.show_line_number
                ==> shown == Some(seq![' '] + location.file@ + seq![':'] + number)
            &&& defmt.show_module is Hidden && defmt.show_file is Hidden && defmt.show_line_number
                ==> shown == Some(seq![' '] + number)
            &&& defmt.show_module is Full && defmt.show_file is Full && defmt.show_line_number
                ==> shown == Some(
                seq![' '] + location.module@ + seq![' ', '@', ' '] + location.file@ + seq![':']
                    + number,
            )
            &&& defmt.show_module is Full && defmt.show_file is Hidden && defmt.show_line_number
                ==> shown == Some(seq![' '] + location.module@ + seq![' ', '@', ' '] + number)
        }),
{
    let shown = crate::buffer::buf_line::location_text(location, defmt);
    let number = crate::text::digits(location.line as nat, 10);
    if shown is Some {
        let s = shown->0;
        let (module, file) = (location.module@, location.file@);
        if defmt.show_module is Full && defmt.show_file is Hidden && !defmt.show_line_number {
            assert(s =~= seq![' '] + module);
        }
        if defmt.show_module is Hidden && defmt.show_file is Full && !defmt.show_line_number {
            assert(s =~= seq![' '] + file);
        }
        if defmt.show_module is Hidden && defmt.show_file is Full && defmt.show_line_number {
            assert(s =~= seq![' '] + file + seq![':'] + number);
        }
        if defmt.show_module is Hidden && defmt.show_file is Hidden && defmt.show_line_number {
            assert(s =~= seq![' '] + number);
        }
        if defmt.show_module is Full && defmt.show_file is Hidden && defmt.show_line_number {
            assert(s =~= seq![' '] + module + seq![' ', '@', ' '] + number);
        }
    }
}

/// A shortened file is what follows the last slash, of either kind.
pub proof fn law_shortened_file(path: Seq<char>)
    ensures
        ({
            let name = crate::buffer::buf_line::file_name(path);
            let before = path.len() - name.len();
            &&& 0 <= before <= path.len()
            &&& name == path.skip(before)
            &&& forall|i: int|
                0 <= i < name.len() ==> #[trigger] name[i] != '/' && name[i] != '\\'
            &&& before > 0 ==> path[before - 1] == '/' || path[before - 1] == '\\'
        }),
    decreases path.len(),
{
    if path.len() == 0 {
        assert(path.skip(0) =~= path);
    } else if path.last() == '/' || path.last() == '\\' {
        assert(path.skip(path.len() as int) =~= Seq::<char>::empty());
    } else {
        law_shortened_file(path.drop_last());
        let name = crate::buffer::buf_line::file_name(path);
        let before = path.len() - name.len();
        assert(name =~= path.skip(before));
    }
}

/// A shortened module is what follows the last pair of colons.
pub proof fn law_shortened_module(path: Seq<char>)
    ensures
        ({
            let name = crate::buffer::buf_line::last_segment(path);
            let before = path.len() - name.len();
            &&& 0 <= before <= path.len()
            &&& name == path.skip(before)
            &&& forall|i: int|
                0 <= i < name.len() - 1 ==> !(#[trigger] name[i] == ':' && name[i + 1] == ':')
            &&& before > 0 ==> before >= 2 && path[before - 1] == ':' && path[before - 2] == ':'
        }),
    decreases path.len(),
{
    lemma_colons(path);
    let at = crate::buffer::buf_line::first_colons(path);
    if at == path.len() {
        assert(path.skip(0) =~= path);
    } else {
        let rest = path.skip(at + 2);
        law_shortened_module(rest);
        let name = crate::buffer::buf_line::last_segment(path);
        assert(rest.skip(rest.len() - name.len()) =~= path.skip(path.len() - name.len()));
        let before = path.len() - name.len();
        if rest.len() - name.len() > 0 {
            assert(path[before - 1] == rest[rest.len() - name.len() - 1]);
            assert(path[before - 2] == rest[rest.len() - name.len() - 2]);
        }
    }
}

proof fn lemma_colons(s: Seq<char>)
    ensures
        ({
            let at = crate::buffer::buf_line::first_colons(s);
            &&& at == s.len() || (0 <= at <= s.len() - 2 && s[at] == ':' && s[at + 1] == ':')
            &&& at == s.len() ==> forall|i: int|
                0 <= i < s.len() - 1 ==> !(#[trigger] s[i] == ':' && s[i + 1] == ':')
        }),
    decreases s.len(),
{
    if s.len() >= 2 && !(s[0] == ':' && s[1] == ':') {
        let t = s.drop_first();
        lemma_colons(t);
        if crate::buffer::buf_line::first_colons(s) == s.len() {
            assert forall|i: int| 0 <= i < s.len() - 1 implies !(#[trigger] s[i] == ':' && s[i + 1]
                == ':') by {
                if i > 0 {
                    assert(t[i - 1] == s[i] && t[i] == s[i + 1]);
                }
            }
        }
    }
}

/// Every level has a name and a color of its own, and takes up the same room.
pub proof fn law_levels_are_told_apart(a: Option<Level>, b: Option<Level>)
    ensures
        crate::buffer::buf_line::level_color(a) == crate::buffer::buf_line::level_color(b) <==> a
            == b,
        crate::line::total_len(crate::buffer::buf_line::level_spans(a))
            == crate::line::total_len(crate::buffer::buf_line::level_spans(b)),
{
    lemma_level_room(a);
    lemma_level_room(b);
}

proof fn lemma_level_room(level: Option<Level>)
    ensures
        crate::line::total_len(crate::buffer::buf_line::level_spans(level)) == 8,
{
    reveal_strlit("[");
    reveal_strlit("ERROR");
    reveal_strlit("WARN");
    reveal_strlit("INFO");
    reveal_strlit("DEBUG");
    reveal_strlit("TRACE");
    reveal_strlit("???");
    reveal_strlit("]   ");
    reveal_strlit("]  ");
    reveal_strlit("] ");
    let spans = crate::buffer::buf_line::level_spans(level);
    reveal_with_fuel(crate::line::total_len, 4);
    is_ascii_chars_encode_utf8("["@);
    let name = crate::buffer::buf_line::level_name(level);
    assert(is_ascii_chars(name));
    is_ascii_chars_encode_utf8(name);
    let end = match level {
        None => "]   "@,
        Some(Level::Info) => "]  "@,
        Some(Level::Warn) => "]  "@,
        Some(_) => "] "@,
    };
    assert(is_ascii_chars(end));
    is_ascii_chars_encode_utf8(end);
    assert(spans.drop_last().last() == spans[1]);
    assert(spans.drop_last().drop_last().last() == spans[0]);
    assert(spans.drop_last().drop_last().drop_last().len() == 0);
}

} // verus!
