//! The hex view: rows of bytes with their offsets and characters.

use vstd::prelude::*;
use vstd::string::*;

use crate::line::{Alignment, Color, Line, LineView, Span, SpanView, Style};
use crate::settings::HexHighlightStyle;
use crate::text::{hex_pair, number, repeat_char};

verus! {

/// How many digits `n` has in base sixteen.
pub open spec fn hex_digit_count(n: nat) -> nat {
    crate::text::digits(n, 16).len()
}

spec fn pow16(k: int) -> int
    decreases k,
{
    if k <= 0 {
        1
    } else {
        16 * pow16(k - 1)
    }
}

/// Calculates the number of hexadecimal digits needed to represent `n`; at
/// least one.
pub fn hex_digits(n: usize) -> (r: usize)
    ensures
        r == hex_digit_count(n as nat),
        1 <= r <= 16,
{
    let mut rest: u64 = n as u64;
    let mut count: usize = 1;
    assert(rest < pow16(16)) by {
        reveal_with_fuel(pow16, 17);
    }
    while rest >= 16
        invariant
            1 <= count <= 16,
            hex_digit_count(n as nat) == hex_digit_count(rest as nat) + count - 1,
            rest < pow16(17 - count),
        decreases rest,
    {
        proof {
            assert(pow16(17 - count) == 16 * pow16(16 - count));
            if count == 16 {
                assert(pow16(0) == 1);
            }
        }
        rest = rest / 16;
        count += 1;
    }
    count
}

/// How many bytes fit into a row of the hex view, and how wide their hexadecimal
/// part is, if `n` bytes and `width` columns are already placed.
///
/// A byte takes two columns for its digits and one for its character. Bytes
/// are set apart by a space, and groups of eight by another one.
pub open spec fn fit_bytes(remaining: int, n: int, width: int, max_bytes: Option<u8>) -> (int, int)
    decreases remaining,
{
    let left = if remaining < 3 {
        0
    } else {
        remaining - 3
    };
    let placed = n + 1;
    let digits = width + 2;
    if max_bytes matches Some(m) && placed == m {
        (placed, digits)
    } else if left <= 3 {
        (placed, digits)
    } else if placed % 8 == 0 {
        if left - 1 < 4 {
            (placed, digits + 1)
        } else if left - 2 < 3 {
            (placed, digits + 2)
        } else {
            fit_bytes(left - 2, placed, digits + 2, max_bytes)
        }
    } else if left - 1 < 3 {
        (placed, digits + 1)
    } else {
        fit_bytes(left - 1, placed, digits + 1, max_bytes)
    }
}

/// The columns that are left for bytes, beside the offset of the given number of
/// digits, two separators with their spacing, and the scroll bar.
pub open spec fn hex_space(terminal_width: int, offset_digits: int) -> int {
    let left = terminal_width - offset_digits - 7;
    if left < 0 {
        0
    } else {
        left
    }
}

/// Determines how many bytes fit into a row, and how wide their hexadecimal part is.
pub fn fit_row(remaining_width: u16, max_bytes: Option<u8>) -> (r: (u8, u16))
    requires
        remaining_width > 0,
        fit_bytes(remaining_width as int, 0, 0, max_bytes).0 <= u8::MAX,
    ensures
        (r.0 as int, r.1 as int) == fit_bytes(remaining_width as int, 0, 0, max_bytes),
        r.0 > 0,
{
    let mut remaining: u16 = remaining_width;
    let mut bytes_per_line: u8 = 0;
    let mut hex_area_width: u16 = 0;
    let ghost goal = fit_bytes(remaining_width as int, 0, 0, max_bytes);
    loop
        invariant
            goal == fit_bytes(remaining_width as int, 0, 0, max_bytes),
            goal == fit_bytes(
                remaining as int,
                bytes_per_line as int,
                hex_area_width as int,
                max_bytes,
            ),
            goal.0 <= u8::MAX,
            hex_area_width <= 4 * bytes_per_line,
        decreases remaining,
    {
        proof {
            lemma_fit_grows(
                remaining as int,
                bytes_per_line as int,
                hex_area_width as int,
                max_bytes,
            );
        }
        bytes_per_line = bytes_per_line + 1;
        hex_area_width = hex_area_width + 2;
        remaining = remaining.saturating_sub(1).saturating_sub(2);
        let full = match max_bytes {
            Some(max_per_line) => bytes_per_line == max_per_line,
            None => false,
        };
        if full {
            return (bytes_per_line, hex_area_width);
        }
        if remaining <= 3 {
            return (bytes_per_line, hex_area_width);
        }
        hex_area_width = hex_area_width + 1;
        remaining = remaining - 1;
        if bytes_per_line % 8 == 0 {
            if remaining < 4 {
                return (bytes_per_line, hex_area_width);
            }
            hex_area_width = hex_area_width + 1;
            remaining = remaining - 1;
        }
        if remaining < 3 {
            return (bytes_per_line, hex_area_width);
        }
    }
}

proof fn lemma_fit_grows(remaining: int, n: int, width: int, max_bytes: Option<u8>)
    ensures
        fit_bytes(remaining, n, width, max_bytes).0 >= n + 1,
    decreases remaining,
{
    let left = if remaining < 3 {
        0
    } else {
        remaining - 3
    };
    if left > 4 {
        lemma_fit_grows(left - 1, n + 1, width + 3, max_bytes);
        lemma_fit_grows(left - 2, n + 1, width + 4, max_bytes);
    } else if left == 4 {
        lemma_fit_grows(left - 1, n + 1, width + 3, max_bytes);
    }
}

/// The width of `n` bytes with the space between them.
pub open spec fn spaced_width(n: int) -> int {
    if n <= 0 {
        0
    } else {
        2 * n + (n - 1) + (n - 1) / 8
    }
}

proof fn lemma_fit_width(remaining: int, n: int, width: int, max_bytes: Option<u8>)
    requires
        n >= 0,
        remaining >= 3,
        width == 3 * n + n / 8,
    ensures
        ({
            let (count, columns) = fit_bytes(remaining, n, width, max_bytes);
            &&& columns + count <= width + n + remaining
            &&& spaced_width(count) <= columns
        }),
    decreases remaining,
{
    let left = remaining - 3;
    let placed = n + 1;
    if left <= 3 || (max_bytes matches Some(m) && placed == m) {
    } else if placed % 8 == 0 {
        if left - 2 >= 3 {
            lemma_fit_width(left - 2, placed, width + 4, max_bytes);
        }
    } else if left - 1 >= 3 {
        lemma_fit_width(left - 1, placed, width + 3, max_bytes);
    }
}

/// A row of the hex view fits into the terminal that it was made for, and its
/// hexadecimal part has room for its bytes.
pub proof fn law_hex_row_fits(terminal_width: int, offset_digits: int, max_bytes: Option<u8>)
    requires
        offset_digits >= 0,
        hex_space(terminal_width, offset_digits) >= 3,
    ensures
        ({
            let (count, columns) = fit_bytes(
                hex_space(terminal_width, offset_digits),
                0,
                0,
                max_bytes,
            );
            &&& offset_digits + 1 + 2 + columns + 2 + 1 + count + 1 <= terminal_width
            &&& spaced_width(count) <= columns
            &&& count >= 1
        }),
{
    lemma_fit_width(hex_space(terminal_width, offset_digits), 0, 0, max_bytes);
    lemma_fit_grows(hex_space(terminal_width, offset_digits), 0, 0, max_bytes);
}

/// The columns that `n` bytes take up in a row: their digits with the space between
/// them, and their characters.
pub open spec fn row_width(n: int) -> int {
    spaced_width(n) + n
}

proof fn lemma_fit_most(space: int, remaining: int, n: int, width: int, max_bytes: Option<u8>)
    requires
        n >= 0,
        remaining >= 3,
        remaining == space - 4 * n - n / 8,
    ensures
        ({
            let count = fit_bytes(remaining, n, width, max_bytes).0;
            &&& count > n
            &&& row_width(count) <= space
            &&& (max_bytes matches Some(m) && count == m) || row_width(count + 1) > space
        }),
    decreases remaining,
{
    let left = remaining - 3;
    let placed = n + 1;
    if left <= 3 || (max_bytes matches Some(m) && placed == m) {
    } else if placed % 8 == 0 {
        if left - 2 >= 3 {
            lemma_fit_most(space, left - 2, placed, width + 4, max_bytes);
        }
    } else {
        lemma_fit_most(space, left - 1, placed, width + 3, max_bytes);
    }
}

/// A row holds the most bytes that fit into the terminal, unless it is limited to fewer.
pub proof fn law_hex_row_holds_the_most(
    terminal_width: int,
    offset_digits: int,
    max_bytes: Option<u8>,
)
    requires
        offset_digits >= 0,
        hex_space(terminal_width, offset_digits) >= 3,
    ensures
        ({
            let space = hex_space(terminal_width, offset_digits);
            let count = fit_bytes(space, 0, 0, max_bytes).0;
            &&& row_width(count) <= space
            &&& !(max_bytes matches Some(m) && count == m) ==> forall|n: int|
                n > count ==> #[trigger] row_width(n) > space
        }),
{
    let space = hex_space(terminal_width, offset_digits);
    lemma_fit_most(space, space, 0, 0, max_bytes);
    let count = fit_bytes(space, 0, 0, max_bytes).0;
    assert forall|n: int| n > count implies #[trigger] row_width(n) >= row_width(count + 1) by {
        assert((n - 1) / 8 >= count / 8);
    }
}

/// The number of bytes in a row never passes its limit.
pub proof fn law_hex_row_keeps_to_the_limit(remaining: int, max_bytes: Option<u8>)
    requires
        max_bytes matches Some(m) && m > 0,
    ensures
        fit_bytes(remaining, 0, 0, max_bytes).0 <= max_bytes->0,
{
    lemma_fit_limit(remaining, 0, 0, max_bytes);
}

proof fn lemma_fit_limit(remaining: int, n: int, width: int, max_bytes: Option<u8>)
    requires
        max_bytes matches Some(m) && 0 <= n < m,
    ensures
        fit_bytes(remaining, n, width, max_bytes).0 <= max_bytes->0,
    decreases remaining,
{
    let left = if remaining < 3 {
        0
    } else {
        remaining - 3
    };
    if n + 1 < max_bytes->0 && left > 3 {
        if (n + 1) % 8 == 0 {
            if left - 2 >= 3 {
                lemma_fit_limit(left - 2, n + 1, width + 4, max_bytes);
            }
        } else if left - 1 >= 3 {
            lemma_fit_limit(left - 1, n + 1, width + 3, max_bytes);
        }
    }
}

/// How many rows are shown from row `scroll` on in an area of the given height.
pub open spec fn shown_rows(len: int, bytes_per_line: int, scroll: int, height: int) -> int {
    let rest = if len <= scroll * bytes_per_line {
        0
    } else {
        len - scroll * bytes_per_line
    };
    let rows = if bytes_per_line == 0 {
        if rest == 0 {
            0
        } else {
            height
        }
    } else {
        (rest + bytes_per_line - 1) / bytes_per_line
    };
    if rows <= height {
        rows
    } else {
        height
    }
}

/// The bytes of a row.
pub open spec fn row_bytes(bytes: Seq<u8>, bytes_per_line: int, row: int) -> Seq<u8> {
    let start = row * bytes_per_line;
    let end = if start + bytes_per_line <= bytes.len() {
        start + bytes_per_line
    } else {
        bytes.len() as int
    };
    bytes.subrange(start, end)
}

proof fn lemma_row_in_range(len: int, bytes_per_line: int, scroll: int, height: int, i: int)
    requires
        len >= 0,
        bytes_per_line >= 0,
        scroll >= 0,
        0 <= i < shown_rows(len, bytes_per_line, scroll, height),
    ensures
        0 <= (scroll + i) * bytes_per_line <= len,
        bytes_per_line > 0 ==> (scroll + i) * bytes_per_line < len,
{
    assert((scroll + i) * bytes_per_line == scroll * bytes_per_line + i * bytes_per_line)
        by (nonlinear_arith);
    if bytes_per_line > 0 {
        lemma_ceil_div(0, bytes_per_line);
        let rest = len - scroll * bytes_per_line;
        let rows = (rest + bytes_per_line - 1) / bytes_per_line;
        assert(rest > 0);
        assert(i + 1 <= rows);
        assert(rows * bytes_per_line <= rest + bytes_per_line - 1) by (nonlinear_arith)
            requires
                rows == (rest + bytes_per_line - 1) / bytes_per_line,
                bytes_per_line > 0,
        ;
        assert((i + 1) * bytes_per_line <= rows * bytes_per_line) by (nonlinear_arith)
            requires
                i + 1 <= rows,
                bytes_per_line > 0,
        ;
        assert((i + 1) * bytes_per_line == i * bytes_per_line + bytes_per_line)
            by (nonlinear_arith);
        assert(scroll * bytes_per_line >= 0) by (nonlinear_arith)
            requires
                scroll >= 0,
                bytes_per_line > 0,
        ;
        assert(i * bytes_per_line >= 0) by (nonlinear_arith)
            requires
                i >= 0,
                bytes_per_line > 0,
        ;
    } else {
        assert((scroll + i) * bytes_per_line == 0) by (nonlinear_arith)
            requires
                bytes_per_line == 0,
        ;
    }
}

pub proof fn lemma_ceil_div(a: int, b: int)
    requires
        a >= 0,
        b > 0,
    ensures
        (a + b - 1) / b == (if a % b == 0 {
            a / b
        } else {
            a / b + 1
        }),
{
    let q = a / b;
    let r = a % b;
    assert(a == b * q + r && 0 <= r < b) by (nonlinear_arith)
        requires
            q == a / b,
            r == a % b,
            b > 0,
    ;
    if r == 0 {
        assert((b * q + (b - 1)) / b == q) by (nonlinear_arith)
            requires
                b > 0,
        ;
    } else {
        assert(b * q + r + b - 1 == b * (q + 1) + (r - 1)) by (nonlinear_arith);
        assert((b * (q + 1) + (r - 1)) / b == q + 1) by (nonlinear_arith)
            requires
                b > 0,
                0 <= r - 1 < b,
        ;
    }
}

/// Counts the rows that are shown.
pub fn count_rows(len: usize, bytes_per_line: u8, scroll: usize, height: u16) -> (r: u16)
    requires
        scroll * bytes_per_line <= usize::MAX,
    ensures
        r == shown_rows(len as int, bytes_per_line as int, scroll as int, height as int),
{
    let start: usize = scroll * (bytes_per_line as usize);
    let rest: usize = if len <= start {
        0
    } else {
        len - start
    };
    if bytes_per_line == 0 {
        if rest == 0 {
            return 0;
        }
        return height;
    }
    let per: usize = bytes_per_line as usize;
    let whole: usize = rest / per;
    proof {
        assert(rest % per != 0 ==> whole < rest) by (nonlinear_arith)
            requires
                per > 0,
                whole == rest / per,
        ;
    }
    let rows: usize = if rest % per == 0 {
        whole
    } else {
        whole + 1
    };
    proof {
        lemma_ceil_div(rest as int, per as int);
    }
    if rows <= height as usize {
        rows as u16
    } else {
        height
    }
}

/// A style for each parity of a row.
#[derive(Clone, Copy, Debug, PartialEq, Eq, Structural)]
pub struct AlternatingStyles(pub bool, pub Style, pub Style);

impl AlternatingStyles {
    /// The style for this parity.
    pub open spec fn chosen(self) -> Style {
        if self.0 {
            self.1
        } else {
            self.2
        }
    }

    /// The style for this parity.
    pub fn choose_style(self) -> (r: Style)
        ensures
            r == self.chosen(),
    {
        if self.0 {
            self.1
        } else {
            self.2
        }
    }
}

/// A style with a colour.
pub open spec fn colored(color: Color) -> Style {
    Style::plain().with_fg(color)
}

/// The style of a byte by the kind of ASCII character it is.
pub open spec fn ascii_style(byte: u8, colors: AlternatingStyles) -> Style {
    if byte == 0x0a || byte == 0x0d {
        colored(Color::Black).with_bg(Color::LightGreen)
    } else if 0x01 <= byte <= 0x1f || byte == 0x7f {
        colored(Color::Black).with_bg(Color::LightBlue)
    } else if 0x30 <= byte <= 0x39 {
        colored(Color::Red)
    } else if byte == 0x28 || byte == 0x29 || byte == 0x3c || byte == 0x3e || byte == 0x5b || byte
        == 0x5d || byte == 0x7b || byte == 0x7d {
        colored(Color::Yellow)
    } else if 0x21 <= byte <= 0x2f || 0x3a <= byte <= 0x40 || 0x5b <= byte <= 0x60 || 0x7b <= byte
        <= 0x7e {
        colored(Color::LightYellow)
    } else if 0x41 <= byte <= 0x5a || 0x61 <= byte <= 0x7a {
        colors.chosen()
    } else if byte == 0x20 {
        colored(Color::Green)
    } else {
        colored(Color::DarkGray)
    }
}

/// The style of a byte.
pub open spec fn byte_style(
    byte: u8,
    fallback: AlternatingStyles,
    highlight: HexHighlightStyle,
) -> Style {
    match highlight {
        HexHighlightStyle::Plain => fallback.chosen(),
        HexHighlightStyle::DarkenNulls => if byte == 0 {
            colored(Color::DarkGray)
        } else {
            fallback.chosen()
        },
        HexHighlightStyle::HighlightAsciiSymbols => ascii_style(byte, fallback),
        HexHighlightStyle::StyleA => colored(
            if byte == 0 {
                Color::DarkGray
            } else if byte < 0x20 {
                Color::Blue
            } else if byte < 0x40 {
                Color::Red
            } else if byte < 0x60 {
                Color::Green
            } else if byte < 0x80 {
                Color::Cyan
            } else if byte < 0xa0 {
                Color::Yellow
            } else if byte < 0xc0 {
                Color::LightBlue
            } else if byte < 0xe0 {
                Color::LightRed
            } else {
                Color::LightGreen
            },
        ),
        HexHighlightStyle::StyleB => colored(
            if byte == 0 {
                Color::DarkGray
            } else if byte < 0x50 {
                Color::Green
            } else if byte < 0x80 {
                Color::LightBlue
            } else if byte < 0xd0 {
                Color::Magenta
            } else {
                Color::Yellow
            },
        ),
    }
}

/// The style of a byte by the kind of ASCII character it is.
pub fn byte_color_ascii(byte: u8, colors: AlternatingStyles) -> (r: Style)
    ensures
        r == ascii_style(byte, colors),
{
    match byte {
        0x0a | 0x0d => Style::new().fg(Color::Black).bg(Color::LightGreen),
        0x01..=0x1f | 0x7f => Style::new().fg(Color::Black).bg(Color::LightBlue),
        0x30..=0x39 => Style::new().fg(Color::Red),
        0x28 | 0x29 | 0x3c | 0x3e | 0x5b | 0x5d | 0x7b | 0x7d => Style::new().fg(Color::Yellow),
        0x21..=0x2f | 0x3a..=0x40 | 0x5b..=0x60 | 0x7b..=0x7e => Style::new().fg(
            Color::LightYellow,
        ),
        0x41..=0x5a | 0x61..=0x7a => colors.choose_style(),
        0x20 => Style::new().fg(Color::Green),
        _ => Style::new().fg(Color::DarkGray),
    }
}

/// The style of a byte.
pub fn style_select(
    byte: u8,
    fallback: AlternatingStyles,
    highlight: HexHighlightStyle,
) -> (r: Style)
    ensures
        r == byte_style(byte, fallback, highlight),
{
    match highlight {
        HexHighlightStyle::Plain => fallback.choose_style(),
        HexHighlightStyle::DarkenNulls => match byte {
            0x00 => Style::new().fg(Color::DarkGray),
            _ => fallback.choose_style(),
        },
        HexHighlightStyle::HighlightAsciiSymbols => byte_color_ascii(byte, fallback),
        HexHighlightStyle::StyleA => match byte {
            0x00 => Style::new().fg(Color::DarkGray),
            0x01..=0x1f => Style::new().fg(Color::Blue),
            0x20..=0x3f => Style::new().fg(Color::Red),
            0x40..=0x5f => Style::new().fg(Color::Green),
            0x60..=0x7f => Style::new().fg(Color::Cyan),
            0x80..=0x9f => Style::new().fg(Color::Yellow),
            0xa0..=0xbf => Style::new().fg(Color::LightBlue),
            0xc0..=0xdf => Style::new().fg(Color::LightRed),
            0xe0..=0xff => Style::new().fg(Color::LightGreen),
        },
        HexHighlightStyle::StyleB => match byte {
            0x00 => Style::new().fg(Color::DarkGray),
            0x01..=0x4f => Style::new().fg(Color::Green),
            0x50..=0x7f => Style::new().fg(Color::LightBlue),
            0x80..=0xcf => Style::new().fg(Color::Magenta),
            _ => Style::new().fg(Color::Yellow),
        },
    }
}


/// The space in front of the byte at `i` of a row.
pub open spec fn separator(i: int) -> Seq<SpanView> {
    if i == 0 {
        Seq::empty()
    } else if i % 8 == 0 {
        seq![crate::line::span_of(seq![' ', ' '], Style::plain())]
    } else {
        seq![crate::line::span_of(seq![' '], Style::plain())]
    }
}

/// The styles that rows of bytes alternate between.
pub open spec fn row_styles(even: bool) -> AlternatingStyles {
    AlternatingStyles(even, colored(Color::White), colored(Color::Gray))
}

/// The digits of the bytes of a row.
pub open spec fn hex_row(bytes: Seq<u8>, even: bool, highlight: HexHighlightStyle) -> Seq<SpanView>
    decreases bytes.len(),
{
    if bytes.len() == 0 {
        Seq::empty()
    } else {
        hex_row(bytes.drop_last(), even, highlight) + separator(bytes.len() - 1) + seq![
            crate::line::span_of(
                crate::text::byte_digits(bytes.last()),
                byte_style(bytes.last(), row_styles(even), highlight),
            ),
        ]
    }
}

/// The numbers of the columns of a row.
pub open spec fn marker_row(n: int) -> Seq<SpanView>
    decreases n,
{
    if n <= 0 {
        Seq::empty()
    } else {
        marker_row(n - 1) + separator(n - 1) + seq![
            crate::line::span_of(
                crate::text::byte_digits((n - 1) as u8),
                colored(Color::DarkGray),
            ),
        ]
    }
}

/// How a byte is shown as a character.
pub open spec fn ascii_span(byte: u8, even: bool, highlight: HexHighlightStyle) -> SpanView {
    if byte == 0x20 && highlight is HighlightAsciiSymbols {
        crate::line::span_of(seq!['_'], byte_style(byte, row_styles(even), highlight))
    } else if 0x20 <= byte <= 0x7e {
        crate::line::span_of(seq![byte as char], byte_style(byte, row_styles(even), highlight))
    } else {
        crate::line::span_of(seq!['.'], colored(Color::DarkGray))
    }
}

/// The characters of the bytes of a row, filled up to its full width.
pub open spec fn ascii_row(
    bytes: Seq<u8>,
    even: bool,
    highlight: HexHighlightStyle,
    bytes_per_line: int,
) -> Seq<SpanView> {
    Seq::new(bytes.len(), |i: int| ascii_span(bytes[i], even, highlight)) + (if bytes.len()
        < bytes_per_line {
        crate::line_clean::space_spans((bytes_per_line - bytes.len()) as nat)
    } else {
        Seq::empty()
    })
}

/// Whether a row has the first of two alternating styles.
pub open spec fn even_row(row: int) -> bool {
    row % 2 == 0
}

/// Some lines as views.
pub open spec fn line_views(lines: Seq<Line>) -> Seq<LineView> {
    lines.map_values(|l: Line| l@)
}

fn push_separator(spans: &mut Vec<Span>, i: usize)
    ensures
        crate::line::span_views(final(spans)@) == crate::line::span_views(old(spans)@) + separator(
            i as int,
        ),
{
    if i != 0 {
        let text = if i % 8 == 0 {
            repeat_char(' ', 2)
        } else {
            repeat_char(' ', 1)
        };
        proof {
            if i % 8 == 0 {
                assert(text@ =~= seq![' ', ' ']);
            } else {
                assert(text@ =~= seq![' ']);
            }
        }
        let span = Span::raw(text);
        proof {
            crate::line::lemma_views_of_push(spans@, span);
        }
        spans.push(span);
    }
    assert(crate::line::span_views(spans@) =~= crate::line::span_views(old(spans)@) + separator(
        i as int,
    ));
}

/// The numbers of the columns of a row.
pub fn byte_markers(bytes_per_line: u8) -> (r: Line)
    ensures
        r@ == crate::line::line_of(marker_row(bytes_per_line as int)),
{
    let mut spans: Vec<Span> = Vec::new();
    let mut i: u8 = 0;
    assert(crate::line::span_views(spans@) =~= marker_row(0));
    while i < bytes_per_line
        invariant
            i <= bytes_per_line,
            crate::line::span_views(spans@) == marker_row(i as int),
        decreases bytes_per_line - i,
    {
        push_separator(&mut spans, i as usize);
        let span = Span::styled(hex_pair(i), Style::new().fg(Color::DarkGray));
        proof {
            crate::line::lemma_views_of_push(spans@, span);
            assert(marker_row(i + 1) =~= (marker_row(i as int) + separator(i as int)).push(span@));
        }
        spans.push(span);
        i += 1;
    }
    Line::from_spans(spans)
}

fn hex_row_line(bytes: &[u8], even: bool, highlight: HexHighlightStyle) -> (r: Line)
    ensures
        r@ == crate::line::line_of(hex_row(bytes@, even, highlight)),
{
    let mut spans: Vec<Span> = Vec::new();
    let mut i: usize = 0;
    assert(crate::line::span_views(spans@) =~= hex_row(bytes@.take(0), even, highlight));
    while i < bytes.len()
        invariant
            i <= bytes.len(),
            crate::line::span_views(spans@) == hex_row(bytes@.take(i as int), even, highlight),
        decreases bytes.len() - i,
    {
        push_separator(&mut spans, i);
        let byte: u8 = bytes[i];
        let style = style_select(
            byte,
            AlternatingStyles(even, Style::new().fg(Color::White), Style::new().fg(Color::Gray)),
            highlight,
        );
        let span = Span::styled(hex_pair(byte), style);
        proof {
            crate::line::lemma_views_of_push(spans@, span);
            let done = bytes@.take(i + 1);
            assert(done.drop_last() =~= bytes@.take(i as int));
            assert(hex_row(done, even, highlight) =~= (hex_row(
                bytes@.take(i as int),
                even,
                highlight,
            ) + separator(i as int)).push(span@));
        }
        spans.push(span);
        i += 1;
    }
    assert(bytes@.take(i as int) =~= bytes@);
    Line::from_spans(spans)
}

fn ascii_char(byte: u8, even: bool, highlight: HexHighlightStyle) -> (r: Span)
    ensures
        r@ == ascii_span(byte, even, highlight),
{
    let style = style_select(
        byte,
        AlternatingStyles(even, Style::new().fg(Color::White), Style::new().fg(Color::Gray)),
        highlight,
    );
    let marks_space = match highlight {
        HexHighlightStyle::HighlightAsciiSymbols => true,
        _ => false,
    };
    let mut text = String::new();
    if byte == 0x20 && marks_space {
        text.push('_');
        assert(text@ =~= seq!['_']);
        Span::styled(text, style)
    } else if 0x20 <= byte && byte <= 0x7e {
        text.push(byte as char);
        assert(text@ =~= seq![byte as char]);
        Span::styled(text, style)
    } else {
        text.push('.');
        assert(text@ =~= seq!['.']);
        Span::styled(text, Style::new().fg(Color::DarkGray))
    }
}

fn ascii_row_line(
    bytes: &[u8],
    even: bool,
    highlight: HexHighlightStyle,
    bytes_per_line: u8,
) -> (r: Line)
    ensures
        r@ == crate::line::line_of(
            ascii_row(bytes@, even, highlight, bytes_per_line as int),
        ),
{
    let mut spans: Vec<Span> = Vec::new();
    let mut i: usize = 0;
    while i < bytes.len()
        invariant
            i <= bytes.len(),
            crate::line::span_views(spans@) =~= Seq::new(
                i as nat,
                |j: int| ascii_span(bytes@[j], even, highlight),
            ),
        decreases bytes.len() - i,
    {
        let span = ascii_char(bytes[i], even, highlight);
        proof {
            crate::line::lemma_views_of_push(spans@, span);
        }
        spans.push(span);
        i += 1;
    }
    let ghost chars = crate::line::span_views(spans@);
    let mut pad: usize = bytes.len();
    while pad < bytes_per_line as usize
        invariant
            bytes.len() <= pad,
            pad <= bytes_per_line || pad == bytes.len(),
            crate::line::span_views(spans@) =~= chars + crate::line_clean::space_spans(
                (pad - bytes.len()) as nat,
            ),
        decreases bytes_per_line - pad,
    {
        let text = repeat_char(' ', 1);
        assert(text@ =~= seq![' ']);
        let span = Span::raw(text);
        proof {
            crate::line::lemma_views_of_push(spans@, span);
        }
        spans.push(span);
        pad += 1;
    }
    let line = Line::from_spans(spans);
    assert(line@.spans =~= ascii_row(bytes@, even, highlight, bytes_per_line as int));
    line
}

/// The rows of digits from row `scroll` on.
pub open spec fn hex_rows(
    bytes: Seq<u8>,
    bytes_per_line: int,
    scroll: int,
    highlight: HexHighlightStyle,
    height: int,
) -> Seq<LineView> {
    Seq::new(
        shown_rows(bytes.len() as int, bytes_per_line, scroll, height) as nat,
        |i: int|
            crate::line::line_of(
                hex_row(
                    row_bytes(bytes, bytes_per_line, scroll + i),
                    even_row(scroll + i),
                    highlight,
                ),
            ),
    )
}

/// The rows of characters from row `scroll` on.
pub open spec fn ascii_rows(
    bytes: Seq<u8>,
    bytes_per_line: int,
    scroll: int,
    highlight: HexHighlightStyle,
    height: int,
) -> Seq<LineView> {
    Seq::new(
        shown_rows(bytes.len() as int, bytes_per_line, scroll, height) as nat,
        |i: int|
            crate::line::line_of(
                ascii_row(
                    row_bytes(bytes, bytes_per_line, scroll + i),
                    even_row(scroll + i),
                    highlight,
                    bytes_per_line,
                ),
            ),
    )
}

/// The offsets of the rows from row `scroll` on.
pub open spec fn offset_rows(len: int, bytes_per_line: int, scroll: int, height: int) -> Seq<
    LineView,
> {
    Seq::new(
        shown_rows(len, bytes_per_line, scroll, height) as nat,
        |i: int|
            LineView {
                alignment: Some(Alignment::Right),
                ..crate::line::line_of(
                    seq![
                        crate::line::span_of(
                            crate::text::digits(((scroll + i) * bytes_per_line) as nat, 16),
                            colored(
                                if even_row(scroll + i) {
                                    Color::LightYellow
                                } else {
                                    Color::Yellow
                                },
                            ),
                        ),
                    ],
                )
            },
    )
}

/// Where a row starts and ends.
fn row_bounds(len: usize, bytes_per_line: u8, scroll: usize, height: u16, i: u16) -> (r: (
    usize,
    usize,
))
    requires
        0 <= i < shown_rows(len as int, bytes_per_line as int, scroll as int, height as int),
        scroll + i <= usize::MAX,
    ensures
        r.0 == (scroll + i) * bytes_per_line,
        r.0 <= r.1 <= len,
        r.1 == (if r.0 + bytes_per_line <= len {
            r.0 + bytes_per_line
        } else {
            len as int
        }),
{
    proof {
        lemma_row_in_range(
            len as int,
            bytes_per_line as int,
            scroll as int,
            height as int,
            i as int,
        );
    }
    let start: usize = (scroll + i as usize) * (bytes_per_line as usize);
    let end: usize = if len - start >= bytes_per_line as usize {
        start + bytes_per_line as usize
    } else {
        len
    };
    (start, end)
}

/// The digits of the bytes from row `scroll` on, with a space between bytes and
/// another one after every eight.
pub fn render_bytes(
    slice: &[u8],
    bytes_per_line: u8,
    scroll: usize,
    highlight: HexHighlightStyle,
    height: u16,
) -> (r: Vec<Line>)
    requires
        scroll * bytes_per_line <= usize::MAX,
        scroll + height <= usize::MAX,
    ensures
        line_views(r@) == hex_rows(
            slice@,
            bytes_per_line as int,
            scroll as int,
            highlight,
            height as int,
        ),
{
    let total: u16 = count_rows(slice.len(), bytes_per_line, scroll, height);
    let mut rows: Vec<Line> = Vec::new();
    let mut i: u16 = 0;
    while i < total
        invariant
            i <= total <= height,
            scroll + height <= usize::MAX,
            total == shown_rows(
                slice@.len() as int,
                bytes_per_line as int,
                scroll as int,
                height as int,
            ),
            line_views(rows@) =~= hex_rows(
                slice@,
                bytes_per_line as int,
                scroll as int,
                highlight,
                height as int,
            ).take(i as int),
        decreases total - i,
    {
        let (start, end) = row_bounds(slice.len(), bytes_per_line, scroll, height, i);
        let bytes = &slice[start..end];
        assert(bytes@ == row_bytes(slice@, bytes_per_line as int, scroll + i));
        let line = hex_row_line(bytes, (scroll + i as usize) % 2 == 0, highlight);
        let ghost before = rows@;
        rows.push(line);
        assert(line_views(rows@) =~= line_views(before).push(line@));
        i += 1;
    }
    rows
}

/// The characters of the bytes from row `scroll` on. Bytes that are not printable
/// are shown as a dot.
pub fn render_ascii(
    slice: &[u8],
    bytes_per_line: u8,
    scroll: usize,
    highlight: HexHighlightStyle,
    height: u16,
) -> (r: Vec<Line>)
    requires
        scroll * bytes_per_line <= usize::MAX,
        scroll + height <= usize::MAX,
    ensures
        line_views(r@) == ascii_rows(
            slice@,
            bytes_per_line as int,
            scroll as int,
            highlight,
            height as int,
        ),
{
    let total: u16 = count_rows(slice.len(), bytes_per_line, scroll, height);
    let mut rows: Vec<Line> = Vec::new();
    let mut i: u16 = 0;
    while i < total
        invariant
            i <= total <= height,
            scroll + height <= usize::MAX,
            total == shown_rows(
                slice@.len() as int,
                bytes_per_line as int,
                scroll as int,
                height as int,
            ),
            line_views(rows@) =~= ascii_rows(
                slice@,
                bytes_per_line as int,
                scroll as int,
                highlight,
                height as int,
            ).take(i as int),
        decreases total - i,
    {
        let (start, end) = row_bounds(slice.len(), bytes_per_line, scroll, height, i);
        let bytes = &slice[start..end];
        assert(bytes@ == row_bytes(slice@, bytes_per_line as int, scroll + i));
        let line = ascii_row_line(
            bytes,
            (scroll + i as usize) % 2 == 0,
            highlight,
            bytes_per_line,
        );
        let ghost before = rows@;
        rows.push(line);
        assert(line_views(rows@) =~= line_views(before).push(line@));
        i += 1;
    }
    rows
}

/// The offsets of the rows from row `scroll` on, in base sixteen.
pub fn render_offsets(len: usize, bytes_per_line: u8, scroll: usize, height: u16) -> (r: Vec<Line>)
    requires
        scroll * bytes_per_line <= usize::MAX,
        scroll + height <= usize::MAX,
    ensures
        line_views(r@) == offset_rows(
            len as int,
            bytes_per_line as int,
            scroll as int,
            height as int,
        ),
{
    let total: u16 = count_rows(len, bytes_per_line, scroll, height);
    let mut rows: Vec<Line> = Vec::new();
    let mut i: u16 = 0;
    while i < total
        invariant
            i <= total <= height,
            scroll + height <= usize::MAX,
            total == shown_rows(len as int, bytes_per_line as int, scroll as int, height as int),
            line_views(rows@) =~= offset_rows(
                len as int,
                bytes_per_line as int,
                scroll as int,
                height as int,
            ).take(i as int),
        decreases total - i,
    {
        let (start, _end) = row_bounds(len, bytes_per_line, scroll, height, i);
        let even = (scroll + i as usize) % 2 == 0;
        let color = if even {
            Color::LightYellow
        } else {
            Color::Yellow
        };
        let mut spans: Vec<Span> = Vec::new();
        spans.push(Span::styled(number(start as u64, 16), Style::new().fg(color)));
        let line = Line { spans, style: Style::new(), alignment: Some(Alignment::Right) };
        let ghost before = rows@;
        proof {
            let goal = offset_rows(
                len as int,
                bytes_per_line as int,
                scroll as int,
                height as int,
            )[i as int];
            assert(line@.spans =~= goal.spans);
            assert(line@ =~= goal);
        }
        rows.push(line);
        assert(line_views(rows@) =~= line_views(before).push(line@));
        i += 1;
    }
    rows
}

/// The digits shown in the rows are those of the received bytes, in order and
/// without a gap.
pub proof fn law_rows_cover_the_bytes(bytes: Seq<u8>, bytes_per_line: int, row: int)
    requires
        bytes_per_line > 0,
        row >= 0,
        (row + 1) * bytes_per_line <= bytes.len(),
    ensures
        row_bytes(bytes, bytes_per_line, row) + row_bytes(bytes, bytes_per_line, row + 1)
            == bytes.subrange(
            row * bytes_per_line,
            if (row + 2) * bytes_per_line <= bytes.len() {
                (row + 2) * bytes_per_line
            } else {
                bytes.len() as int
            },
        ),
{
    assert((row + 1) * bytes_per_line == row * bytes_per_line + bytes_per_line)
        by (nonlinear_arith);
    assert((row + 2) * bytes_per_line == row * bytes_per_line + 2 * bytes_per_line)
        by (nonlinear_arith);
    assert(row * bytes_per_line >= 0) by (nonlinear_arith)
        requires
            row >= 0,
            bytes_per_line > 0,
    ;
    assert(row_bytes(bytes, bytes_per_line, row) + row_bytes(bytes, bytes_per_line, row + 1)
        =~= bytes.subrange(
        row * bytes_per_line,
        if (row + 2) * bytes_per_line <= bytes.len() {
            (row + 2) * bytes_per_line
        } else {
            bytes.len() as int
        },
    ));
}

} // verus!
