//! One line of the terminal.

use std::ops::Range;

use ratatui::widgets::{Paragraph, Wrap};
use vstd::prelude::*;
use vstd::string::*;
use vstd::utf8::*;

use crate::buffer::{LineEnding, RangeSlice};
use crate::line::{Color, Line, LineView, Span, SpanView, Style};
use crate::line_clean::LineHelpers;
use crate::settings::{Defmt, DefmtLocation, Level, Rendering};
use crate::text::{number, padded};
use crate::time::Timestamp;

verus! {

/// How the time of a line is written.
pub const TIME_FORMAT: &'static str = "[%H:%M:%S%.3f] ";

/// How a line ended.
#[derive(Debug)]
pub enum LineFinished {
    /// No line ending has yet been encountered.
    ///
    /// If the line was cleared on the way, what came before the given index does
    /// not matter for what is shown; the style was active at that point.
    Unfinished { clear_occurred: Option<(usize, Style)> },
    /// The line ended with this, escaped.
    LineEnding(String),
    /// A line of the user that was shown cut this line short.
    CutShort,
}

/// Where in the source a `defmt` message comes from.
#[derive(Debug)]
pub struct FrameLocation {
    pub line: u32,
    pub module: String,
    pub file: String,
}

/// What a line is.
#[derive(Debug)]
pub enum LineType {
    /// Text from the port.
    Port(LineFinished),
    /// A line whose contents were omitted altogether.
    PortHidden(LineFinished),
    /// Something the user sent.
    User {
        is_bytes: bool,
        is_macro: bool,
        escaped_line_ending: Option<String>,
        /// All bytes that were sent, with the line ending.
        reloggable_raw: Vec<u8>,
    },
    /// A decoded log message.
    PortDefmt {
        level: Option<Level>,
        location: Option<FrameLocation>,
        device_timestamp: Option<String>,
    },
}

impl LineType {
    /// How a line of the port ended.
    pub fn line_finished(&self) -> (r: Option<&LineFinished>)
        ensures
            r == (match self {
                LineType::Port(l) => Some(l),
                LineType::PortHidden(l) => Some(l),
                _ => None,
            }),
    {
        match self {
            LineType::Port(l) => Some(l),
            LineType::PortHidden(l) => Some(l),
            _ => None,
        }
    }

    /// Whether the user sent bytes.
    pub open spec fn bytes_sent(&self) -> bool {
        self matches LineType::User { is_bytes, .. } && *is_bytes
    }

    /// Whether the user sent a macro.
    pub open spec fn macro_sent(&self) -> bool {
        self matches LineType::User { is_macro, .. } && *is_macro
    }

    /// Whether the user sent bytes.
    pub fn is_bytes(&self) -> (r: bool)
        ensures
            r == self.bytes_sent(),
    {
        match self {
            LineType::User { is_bytes, .. } => *is_bytes,
            _ => false,
        }
    }

    /// Whether the user sent a macro.
    pub fn is_macro(&self) -> (r: bool)
        ensures
            r == self.macro_sent(),
    {
        match self {
            LineType::User { is_macro, .. } => *is_macro,
            _ => false,
        }
    }
}

/// The settings that a line is shown by.
#[derive(Clone, Copy)]
pub struct RenderSettings<'a> {
    pub rendering: &'a Rendering,
    pub defmt: &'a Defmt,
}

/// What every line is made from.
pub struct BufLineKit<'a> {
    /// The bytes of the line with its ending.
    pub full_range_slice: RangeSlice<'a>,
    /// When the bytes arrived.
    pub timestamp: Timestamp,
    /// The width of the terminal.
    pub area_width: u16,
    pub render: RenderSettings<'a>,
}

/// One line of the terminal.
#[derive(Debug)]
pub struct BufLine {
    pub timestamp: Timestamp,
    pub range_in_raw_buffer: Range<usize>,
    pub value: Line,
    /// How many rows of the terminal the line takes.
    pub rendered_line_height: u16,
    pub line_type: LineType,
}

/// `0x` and the digits of `n` in base sixteen.
pub open spec fn hex_number(n: nat) -> Seq<char> {
    seq!['0', 'x'] + crate::text::digits(n, 16)
}

/// A number in base sixteen, at least eight characters long, filled with zeroes.
pub open spec fn hex_index(n: nat) -> Seq<char> {
    seq!['0', 'x'] + crate::text::pad_left(crate::text::digits(n, 16), 6, '0')
}

/// A number in base ten, at least six digits long.
pub open spec fn decimal_index(n: nat) -> Seq<char> {
    crate::text::pad_left(crate::text::digits(n, 10), 6, '0')
}

/// An index as it is shown.
pub open spec fn index_text(n: nat, hex: bool) -> Seq<char> {
    if hex {
        hex_index(n)
    } else {
        decimal_index(n)
    }
}

/// A length as it is shown.
pub open spec fn length_text(n: nat, hex: bool) -> Seq<char> {
    if hex {
        crate::text::pad_left(hex_number(n), 4, ' ')
    } else {
        crate::text::pad_left(crate::text::digits(n, 10), 3, ' ')
    }
}

/// Where a line stands among the received bytes: from, to, and how long.
pub open spec fn index_info(start: nat, end: nat, hex: bool) -> Seq<char> {
    seq!['('] + index_text(start, hex) + seq!['.', '.'] + index_text(end, hex) + seq![',', ' ']
        + length_text((end - start) as nat, hex) + seq![')', ' ']
}

/// Where a line of the user stands, and how long it is.
pub open spec fn user_index_info(start: nat, len: nat, hex: bool) -> Seq<char> {
    seq!['('] + index_text(start, hex) + seq!['=', '='] + index_text(start, hex) + seq![',', ' ']
        + length_text(len, hex) + seq![')', ' ']
}

fn index_string(n: usize, hex: bool) -> (r: String)
    ensures
        r@ == index_text(n as nat, hex),
{
    if hex {
        let digits = padded(number(n as u64, 16).as_str(), 6, '0');
        let mut s = String::new();
        s.push('0');
        s.push('x');
        s.append(digits.as_str());
        assert(s@ =~= hex_index(n as nat));
        s
    } else {
        padded(number(n as u64, 10).as_str(), 6, '0')
    }
}

fn length_string(n: usize, hex: bool) -> (r: String)
    ensures
        r@ == length_text(n as nat, hex),
{
    if hex {
        let mut s = String::new();
        s.push('0');
        s.push('x');
        s.append(number(n as u64, 16).as_str());
        assert(s@ =~= hex_number(n as nat));
        padded(s.as_str(), 4, ' ')
    } else {
        padded(number(n as u64, 10).as_str(), 3, ' ')
    }
}

/// Where a line stands among the received bytes: from, to, and how long.
pub fn make_index_info(range: &Range<usize>, hex: bool) -> (r: String)
    requires
        range.start <= range.end,
    ensures
        r@ == index_info(range.start as nat, range.end as nat, hex),
{
    let len: usize = range.end - range.start;
    let mut s = String::new();
    s.push('(');
    s.append(index_string(range.start, hex).as_str());
    s.push('.');
    s.push('.');
    s.append(index_string(range.end, hex).as_str());
    s.push(',');
    s.push(' ');
    s.append(length_string(len, hex).as_str());
    s.push(')');
    s.push(' ');
    assert(s@ =~= index_info(range.start as nat, range.end as nat, hex));
    s
}

/// Where a line of the user stands, and how long it is.
pub fn make_user_index_info(range: &Range<usize>, len: usize, hex: bool) -> (r: String)
    ensures
        r@ == user_index_info(range.start as nat, len as nat, hex),
{
    let mut s = String::new();
    s.push('(');
    s.append(index_string(range.start, hex).as_str());
    s.push('=');
    s.push('=');
    s.append(index_string(range.start, hex).as_str());
    s.push(',');
    s.push(' ');
    s.append(length_string(len, hex).as_str());
    s.push(')');
    s.push(' ');
    assert(s@ =~= user_index_info(range.start as nat, len as nat, hex));
    s
}

/// Where the first `::` of a text starts; its length where there is none.
pub open spec fn first_colons(s: Seq<char>) -> int
    decreases s.len(),
{
    if s.len() < 2 {
        s.len() as int
    } else if s[0] == ':' && s[1] == ':' {
        0
    } else {
        1 + first_colons(s.drop_first())
    }
}

proof fn lemma_first_colons(s: Seq<char>)
    ensures
        first_colons(s) == s.len() || 0 <= first_colons(s) <= s.len() - 2,
    decreases s.len(),
{
    if s.len() >= 2 {
        lemma_first_colons(s.drop_first());
    }
}

/// The last of the parts that `::` separates.
pub open spec fn last_segment(s: Seq<char>) -> Seq<char>
    decreases s.len(),
    via last_segment_shrinks
{
    if first_colons(s) == s.len() {
        s
    } else {
        last_segment(s.skip(first_colons(s) + 2))
    }
}

#[via_fn]
proof fn last_segment_shrinks(s: Seq<char>) {
    lemma_first_colons(s);
}

/// What follows the last slash, of either kind.
pub open spec fn file_name(s: Seq<char>) -> Seq<char>
    decreases s.len(),
{
    if s.len() == 0 {
        s
    } else if s.last() == '/' || s.last() == '\\' {
        Seq::empty()
    } else {
        file_name(s.drop_last()).push(s.last())
    }
}

/// The last of the parts that `::` separates.
pub fn shorten_module_path(full_module_path: &str) -> (r: &str)
    ensures
        r@ == last_segment(full_module_path@),
{
    let s = full_module_path;
    let len: usize = s.unicode_len();
    let mut start: usize = 0;
    let mut at: usize = 0;
    assert(s@.skip(0) =~= s@);
    while at < len && len - at >= 2
        invariant
            len == s@.len(),
            start <= at <= len,
            last_segment(s@) == last_segment(s@.skip(start as int)),
            first_colons(s@.skip(start as int)) == (at - start) + first_colons(s@.skip(at as int)),
        decreases len - at,
    {
        let ghost rest = s@.skip(at as int);
        assert(rest[0] == s@[at as int] && rest[1] == s@[at + 1]);
        assert(rest.drop_first() =~= s@.skip(at + 1));
        if s.get_char(at) == ':' && s.get_char(at + 1) == ':' {
            proof {
                let here = s@.skip(start as int);
                assert(first_colons(here) == at - start);
                assert(here.skip(first_colons(here) + 2) =~= s@.skip(at + 2));
            }
            at += 2;
            start = at;
        } else {
            at += 1;
        }
    }
    proof {
        let here = s@.skip(start as int);
        assert(first_colons(s@.skip(at as int)) == s@.skip(at as int).len());
        assert(first_colons(here) == here.len());
    }
    let r = s.substring_char(start, len);
    assert(r@ =~= s@.skip(start as int));
    r
}

/// What follows the last slash, of either kind.
pub fn shorten_file_path(full_file_path: &str) -> (r: &str)
    ensures
        r@ == file_name(full_file_path@),
{
    let s = full_file_path;
    let len: usize = s.unicode_len();
    let mut start: usize = len;
    assert(s@.take(len as int) =~= s@);
    assert(file_name(s@) =~= file_name(s@.take(len as int)) + s@.skip(len as int));
    while start > 0
        invariant_except_break
            len == s@.len(),
            start <= len,
            file_name(s@) == file_name(s@.take(start as int)) + s@.skip(start as int),
        ensures
            len == s@.len(),
            start <= len,
            file_name(s@) == s@.skip(start as int),
        decreases start,
    {
        let c = s.get_char(start - 1);
        let ghost head = s@.take(start as int);
        assert(head.last() == c);
        assert(head.drop_last() =~= s@.take(start - 1));
        if c == '/' || c == '\\' {
            assert(file_name(s@) =~= s@.skip(start as int));
            break;
        }
        assert(file_name(head.drop_last()).push(c) + s@.skip(start as int) =~= file_name(
            head.drop_last(),
        ) + s@.skip(start - 1));
        start -= 1;
        if start == 0 {
            assert(s@.take(0) =~= Seq::<char>::empty());
            assert(file_name(s@) =~= s@.skip(0));
        }
    }
    let r = s.substring_char(start, len);
    assert(r@ =~= s@.skip(start as int));
    r
}

/// The name of a level, as it is shown.
pub open spec fn level_name(level: Option<Level>) -> Seq<char> {
    match level {
        Some(Level::Error) => "ERROR"@,
        Some(Level::Warn) => "WARN"@,
        Some(Level::Info) => "INFO"@,
        Some(Level::Debug) => "DEBUG"@,
        Some(Level::Trace) => "TRACE"@,
        None => "???"@,
    }
}

/// The colour of a level.
pub open spec fn level_color(level: Option<Level>) -> Color {
    match level {
        Some(Level::Error) => Color::Red,
        Some(Level::Warn) => Color::Yellow,
        Some(Level::Info) => Color::Green,
        Some(Level::Debug) => Color::Blue,
        Some(Level::Trace) => Color::Magenta,
        None => Color::Gray,
    }
}

/// The level in brackets, filled up to one width.
pub open spec fn level_spans(level: Option<Level>) -> Seq<SpanView> {
    let dark_gray = crate::line_clean::dimmed();
    seq![
        crate::line::span_of("["@, dark_gray),
        crate::line::span_of(level_name(level), Style::plain().with_fg(level_color(level))),
        crate::line::span_of(
            match level {
                None => "]   "@,
                Some(Level::Info) => "]  "@,
                Some(Level::Warn) => "]  "@,
                Some(_) => "] "@,
            },
            dark_gray,
        ),
    ]
}

/// The colour of a level.
pub fn defmt_level_color(level: Option<Level>) -> (r: Color)
    ensures
        r == level_color(level),
{
    match level {
        Some(Level::Error) => Color::Red,
        Some(Level::Warn) => Color::Yellow,
        Some(Level::Info) => Color::Green,
        Some(Level::Debug) => Color::Blue,
        Some(Level::Trace) => Color::Magenta,
        None => Color::Gray,
    }
}

/// The name of a level in its colour.
fn defmt_level_span(level: Option<Level>) -> (r: Span)
    ensures
        r@ == crate::line::span_of(
            level_name(level),
            Style::plain().with_fg(level_color(level)),
        ),
{
    let name = match level {
        Some(Level::Error) => "ERROR",
        Some(Level::Warn) => "WARN",
        Some(Level::Info) => "INFO",
        Some(Level::Debug) => "DEBUG",
        Some(Level::Trace) => "TRACE",
        None => "???",
    };
    Span::styled(name.to_owned(), Style::new().fg(defmt_level_color(level)))
}

/// The level in brackets, filled up to one width.
pub fn defmt_level_bracketed(level: Option<Level>) -> (r: Vec<Span>)
    ensures
        crate::line::span_views(r@) == level_spans(level),
{
    let end_bracket = match level {
        None => "]   ",
        Some(Level::Info) => "]  ",
        Some(Level::Warn) => "]  ",
        Some(_) => "] ",
    };
    let dark_gray = Style::new().fg(Color::DarkGray);
    let mut spans: Vec<Span> = Vec::new();
    spans.push(Span::styled("[".to_owned(), dark_gray));
    spans.push(defmt_level_span(level));
    spans.push(Span::styled(end_bracket.to_owned(), dark_gray));
    assert(crate::line::span_views(spans@) =~= level_spans(level));
    spans
}

/// The location of a message as it is shown; `None` if nothing of it is.
pub open spec fn location_text(location: FrameLocation, defmt: Defmt) -> Option<Seq<char>> {
    let module = defmt.show_module;
    let file = defmt.show_file;
    let line_num = defmt.show_line_number;
    if module is Hidden && file is Hidden && !line_num {
        None
    } else {
        Some(
            seq![' '] + (match module {
                DefmtLocation::Hidden => Seq::empty(),
                DefmtLocation::Shortened => last_segment(location.module@),
                DefmtLocation::Full => location.module@,
            }) + (if !(module is Hidden) && (!(file is Hidden) || line_num) {
                seq![' ', '@', ' ']
            } else {
                Seq::empty()
            }) + (match file {
                DefmtLocation::Hidden => Seq::empty(),
                DefmtLocation::Shortened => file_name(location.file@),
                DefmtLocation::Full => location.file@,
            }) + (if !(file is Hidden) && line_num {
                seq![':']
            } else {
                Seq::empty()
            }) + (if line_num {
                crate::text::digits(location.line as nat, 10)
            } else {
                Seq::empty()
            }),
        )
    }
}

/// The location of a message as it is shown; `None` if nothing of it is.
pub fn format_location(location: &FrameLocation, defmt: &Defmt) -> (r: Option<String>)
    ensures
        r is Some <==> location_text(*location, *defmt) is Some,
        r matches Some(s) ==> s@ == location_text(*location, *defmt)->0,
{
    let module_hidden = match defmt.show_module {
        DefmtLocation::Hidden => true,
        _ => false,
    };
    let file_hidden = match defmt.show_file {
        DefmtLocation::Hidden => true,
        _ => false,
    };
    let line_num = defmt.show_line_number;
    if module_hidden && file_hidden && !line_num {
        return None;
    }
    let mut s = String::new();
    s.push(' ');
    match defmt.show_module {
        DefmtLocation::Hidden => (),
        DefmtLocation::Shortened => s.append(shorten_module_path(location.module.as_str())),
        DefmtLocation::Full => s.append(location.module.as_str()),
    }
    if !module_hidden && (!file_hidden || line_num) {
        s.push(' ');
        s.push('@');
        s.push(' ');
    }
    match defmt.show_file {
        DefmtLocation::Hidden => (),
        DefmtLocation::Shortened => s.append(shorten_file_path(location.file.as_str())),
        DefmtLocation::Full => s.append(location.file.as_str()),
    }
    if !file_hidden && line_num {
        s.push(':');
    }
    if line_num {
        s.append(number(location.line as u64, 10).as_str());
    }
    assert(s@ =~= location_text(*location, *defmt)->0);
    Some(s)
}


/// How many rows `ratatui` breaks a line into, given the bytes of its spans and
/// the width of a row.
pub uninterp spec fn wrapped_rows(spans: Seq<Seq<u8>>, width: u16) -> usize;

/// How many rows a line takes.
pub open spec fn rows_needed(line: LineView, width: u16) -> usize {
    wrapped_rows(line.spans.map_values(|s: SpanView| s.bytes), width)
}

/// How wide a terminal may be. Breaking lines adds up the columns of up to four rows in
/// 16 bits; one column is left for the scroll bar.
pub const WIDEST_TERMINAL: u16 = 16385;

/// `ratatui::widgets::Paragraph::line_count` of a paragraph that wraps and keeps
/// leading space depends on the text of the spans and on the width alone. In no
/// width there are no rows. The sums that it compares with the width stay below four
/// rows, since what is wider than a row is left out: they are kept within 16 bits.
#[verifier::external_body]
fn line_count(line: &Line, width: u16) -> (r: usize)
    requires
        width < WIDEST_TERMINAL,
    ensures
        r == wrapped_rows(line@.spans.map_values(|s: SpanView| s.bytes), width),
        width == 0 ==> r == 0,
{
    let spans = line.spans.iter().map(|span| ratatui::text::Span::raw(span.content.as_str()));
    let text = ratatui::text::Line::from_iter(spans);
    Paragraph::new(text).wrap(Wrap { trim: false }).line_count(width)
}

/// A dimmed span of a text, if there is one.
pub open spec fn dim_span(text: Option<Seq<char>>) -> Seq<SpanView> {
    match text {
        Some(t) => seq![crate::line::span_of(t, crate::line_clean::dimmed())],
        None => Seq::empty(),
    }
}

/// The text of an optional string.
pub open spec fn text_option(s: Option<String>) -> Option<Seq<char>> {
    match s {
        Some(s) => Some(s@),
        None => None,
    }
}

impl BufLine {
    /// The line covers a range of the received bytes.
    pub open spec fn wf(&self) -> bool {
        self.range_in_raw_buffer.start <= self.range_in_raw_buffer.end
    }

    /// The indices shown in front of the line.
    pub open spec fn shown_indices(&self, rendering: Rendering) -> Option<Seq<char>> {
        if !rendering.show_indices {
            None
        } else {
            match self.line_type {
                LineType::User { reloggable_raw, .. } => Some(
                    user_index_info(
                        self.range_in_raw_buffer.start as nat,
                        reloggable_raw@.len(),
                        rendering.indices_as_hex,
                    ),
                ),
                _ => Some(
                    index_info(
                        self.range_in_raw_buffer.start as nat,
                        self.range_in_raw_buffer.end as nat,
                        rendering.indices_as_hex,
                    ),
                ),
            }
        }
    }

    /// The time shown in front of the line.
    pub open spec fn shown_time(&self, rendering: Rendering) -> Option<Seq<char>> {
        if rendering.timestamps {
            self.timestamp.formatted(TIME_FORMAT@)
        } else {
            None
        }
    }

    /// The device's own time shown in front of a log message.
    pub open spec fn shown_device_time(&self, defmt: Defmt) -> Option<Seq<char>> {
        match self.line_type {
            LineType::PortDefmt { device_timestamp, .. } => if defmt.device_timestamp {
                text_option(device_timestamp)
            } else {
                None
            },
            _ => None,
        }
    }

    /// The level shown in front of a log message.
    pub open spec fn shown_level(&self) -> Seq<SpanView> {
        match self.line_type {
            LineType::PortDefmt { level, .. } => level_spans(level),
            _ => Seq::empty(),
        }
    }

    /// The location shown behind a log message.
    pub open spec fn shown_location(&self, defmt: Defmt) -> Option<Seq<char>> {
        match self.line_type {
            LineType::PortDefmt { location: Some(location), .. } => location_text(location, defmt),
            _ => None,
        }
    }

    /// The line ending shown behind the line.
    pub open spec fn shown_ending(&self, rendering: Rendering) -> Option<Seq<char>> {
        if !rendering.show_line_ending {
            None
        } else {
            match self.line_type {
                LineType::Port(LineFinished::LineEnding(ending)) => Some(ending@),
                LineType::PortHidden(LineFinished::LineEnding(ending)) => Some(ending@),
                LineType::User { escaped_line_ending, .. } => text_option(escaped_line_ending),
                _ => None,
            }
        }
    }

    /// The line as it is shown: what the settings ask for around its own spans.
    pub open spec fn shown(&self, rendering: Rendering, defmt: Defmt) -> LineView {
        crate::line::line_of(
            dim_span(self.shown_time(rendering)) + dim_span(self.shown_device_time(defmt))
                + dim_span(self.shown_indices(rendering)) + self.shown_level() + self.value@.spans
                + dim_span(self.shown_ending(rendering)) + dim_span(self.shown_location(defmt)),
        )
    }

    /// A line made from its parts, with its height determined.
    pub open spec fn made_from(
        &self,
        value: Line,
        kit: BufLineKit,
    ) -> bool {
        &&& self.timestamp == kit.timestamp
        &&& self.range_in_raw_buffer == kit.full_range_slice.range
        &&& self.value == value
        &&& self.rendered_line_height == self.height_at(
            kit.area_width,
            *kit.render.rendering,
            *kit.render.defmt,
        ) as u16
    }

    /// How many rows the line takes in a terminal of the given width, of which
    /// one column is left for the scroll bar.
    pub open spec fn height_at(&self, terminal_width: u16, rendering: Rendering, defmt: Defmt) -> usize {
        rows_needed(
            self.shown(rendering, defmt),
            if terminal_width == 0 {
                0
            } else {
                (terminal_width - 1) as u16
            },
        )
    }

    fn new_inner(line: Line, kit: BufLineKit, line_type: LineType) -> (r: BufLine)
        requires
            kit.full_range_slice.range.start <= kit.full_range_slice.range.end,
            kit.area_width <= WIDEST_TERMINAL,
        ensures
            r.made_from(line, kit),
            r.line_type == line_type,
            r.wf(),
    {
        let mut bufline = BufLine {
            timestamp: kit.timestamp,
            range_in_raw_buffer: kit.full_range_slice.range,
            value: line,
            rendered_line_height: 0,
            line_type,
        };
        let _height: usize = bufline.update_line_height(kit.area_width, kit.render);
        bufline
    }

    /// A line of text from the port.
    pub fn port_text_line(
        line: Line,
        kit: BufLineKit,
        clear_info: Option<(usize, Style)>,
        line_ending: &LineEnding,
    ) -> (r: BufLine)
        requires
            kit.full_range_slice.range.start <= kit.full_range_slice.range.end,
            kit.area_width <= WIDEST_TERMINAL,
        ensures
            r.made_from(line, kit),
            r.wf(),
            match r.line_type {
                LineType::Port(LineFinished::LineEnding(text)) => line_ending.ends(
                    kit.full_range_slice.slice@,
                ) && text@ == crate::foreign::escaped(line_ending@),
                LineType::Port(LineFinished::Unfinished { clear_occurred }) => !line_ending.ends(
                    kit.full_range_slice.slice@,
                ) && clear_occurred == clear_info,
                _ => false,
            },
    {
        let finished = match line_ending.escaped_from(kit.full_range_slice.slice) {
            Some(escaped_line_ending) => LineFinished::LineEnding(escaped_line_ending),
            None => LineFinished::Unfinished { clear_occurred: clear_info },
        };
        BufLine::new_inner(line, kit, LineType::Port(finished))
    }

    /// A line of the port that holds nothing but a line ending.
    pub fn hollow_port_line(kit: BufLineKit, line_ending: &LineEnding) -> (r: BufLine)
        requires
            kit.full_range_slice.range.start <= kit.full_range_slice.range.end,
            kit.area_width <= WIDEST_TERMINAL,
            !(line_ending is Unset),
        ensures
            r.value@ == crate::line::line_of(Seq::empty()),
            r.made_from(r.value, kit),
            r.wf(),
            r.line_type matches LineType::Port(LineFinished::LineEnding(text)) && text@
                == crate::foreign::escaped(line_ending@),
    {
        let escaped = match line_ending.as_escaped() {
            Some(text) => text,
            None => String::new(),
        };
        let empty = Line::from_spans(Vec::new());
        assert(empty@.spans =~= Seq::empty());
        BufLine::new_inner(empty, kit, LineType::Port(LineFinished::LineEnding(escaped)))
    }

    /// What stands in place of contents that were omitted.
    fn omitted() -> (r: Line)
        ensures
            r@ == crate::line::line_of(
                dim_span(Some("[All content was omitted by color rules.]"@)),
            ),
    {
        let mut spans: Vec<Span> = Vec::new();
        spans.push(
            Span::styled(
                "[All content was omitted by color rules.]".to_owned(),
                Style::new().fg(Color::DarkGray),
            ),
        );
        let line = Line::from_spans(spans);
        assert(line@.spans =~= dim_span(Some("[All content was omitted by color rules.]"@)));
        line
    }

    /// A line of the port whose contents were omitted altogether.
    pub fn hidden_content_port_line(kit: BufLineKit, line_ending: &LineEnding) -> (r: BufLine)
        requires
            kit.full_range_slice.range.start <= kit.full_range_slice.range.end,
            kit.area_width <= WIDEST_TERMINAL,
        ensures
            r.value@ == crate::line::line_of(
                dim_span(Some("[All content was omitted by color rules.]"@)),
            ),
            r.made_from(r.value, kit),
            r.wf(),
            match r.line_type {
                LineType::PortHidden(LineFinished::LineEnding(text)) => line_ending.ends(
                    kit.full_range_slice.slice@,
                ) && text@ == crate::foreign::escaped(line_ending@),
                LineType::PortHidden(LineFinished::Unfinished { clear_occurred }) =>
                !line_ending.ends(kit.full_range_slice.slice@) && clear_occurred is None,
                _ => false,
            },
    {
        let finished = match line_ending.escaped_from(kit.full_range_slice.slice) {
            Some(escaped_line_ending) => LineFinished::LineEnding(escaped_line_ending),
            None => LineFinished::Unfinished { clear_occurred: None },
        };
        BufLine::new_inner(BufLine::omitted(), kit, LineType::PortHidden(finished))
    }

    /// The device's own time in brackets.
    fn bracketed(device_timestamp: Option<&str>) -> (r: Option<String>)
        ensures
            text_option(r) == (match device_timestamp {
                Some(ts) => Some(seq!['['] + ts@ + seq![']', ' ']),
                None => None,
            }),
    {
        match device_timestamp {
            Some(ts) => {
                let mut s = String::new();
                s.push('[');
                s.append(ts);
                s.push(']');
                s.push(' ');
                assert(s@ =~= seq!['['] + ts@ + seq![']', ' ']);
                Some(s)
            },
            None => None,
        }
    }

    /// A decoded log message.
    pub fn port_defmt_line(
        line: Line,
        kit: BufLineKit,
        level: Option<Level>,
        device_timestamp: Option<&str>,
        location: Option<FrameLocation>,
    ) -> (r: BufLine)
        requires
            kit.full_range_slice.range.start <= kit.full_range_slice.range.end,
            kit.area_width <= WIDEST_TERMINAL,
        ensures
            r.made_from(line, kit),
            r.wf(),
            r.line_type matches LineType::PortDefmt { level: l, location: at, device_timestamp: ts }
                && l == level && at == location && text_option(ts) == (match device_timestamp {
                Some(ts) => Some(seq!['['] + ts@ + seq![']', ' ']),
                None => None,
            }),
    {
        let line_type = LineType::PortDefmt {
            level,
            device_timestamp: BufLine::bracketed(device_timestamp),
            location,
        };
        BufLine::new_inner(line, kit, line_type)
    }

    /// A decoded log message whose contents were omitted altogether.
    pub fn hidden_content_port_defmt_line(
        kit: BufLineKit,
        level: Option<Level>,
        device_timestamp: Option<&str>,
        location: Option<FrameLocation>,
    ) -> (r: BufLine)
        requires
            kit.full_range_slice.range.start <= kit.full_range_slice.range.end,
            kit.area_width <= WIDEST_TERMINAL,
        ensures
            r.value@ == crate::line::line_of(
                dim_span(Some("[All content was omitted by color rules.]"@)),
            ),
            r.made_from(r.value, kit),
            r.wf(),
            r.line_type matches LineType::PortDefmt { level: l, location: at, device_timestamp: ts }
                && l == level && at == location && text_option(ts) == (match device_timestamp {
                Some(ts) => Some(seq!['['] + ts@ + seq![']', ' ']),
                None => None,
            }),
    {
        BufLine::port_defmt_line(BufLine::omitted(), kit, level, device_timestamp, location)
    }

    /// Something the user sent.
    pub fn user_line(
        line: Line,
        kit: BufLineKit,
        tx_line_ending: &LineEnding,
        is_bytes: bool,
        is_macro: bool,
        reloggable_raw: Vec<u8>,
    ) -> (r: BufLine)
        requires
            kit.full_range_slice.range.start <= kit.full_range_slice.range.end,
            kit.area_width <= WIDEST_TERMINAL,
        ensures
            r.made_from(line, kit),
            r.wf(),
            r.line_type matches LineType::User {
                is_bytes: b,
                is_macro: m,
                escaped_line_ending: e,
                reloggable_raw: raw,
            } && b == is_bytes && m == is_macro && raw == reloggable_raw && text_option(e) == (
            if tx_line_ending.ends(reloggable_raw@) {
                Some(crate::foreign::escaped(tx_line_ending@))
            } else {
                None
            }),
    {
        let escaped_line_ending = tx_line_ending.escaped_from(reloggable_raw.as_slice());
        let line_type = LineType::User { is_bytes, is_macro, escaped_line_ending, reloggable_raw };
        BufLine::new_inner(line, kit, line_type)
    }

    /// Whether more may still be added to the line.
    pub open spec fn is_open(&self) -> bool {
        match self.line_type {
            LineType::Port(LineFinished::Unfinished { .. }) => true,
            LineType::PortHidden(LineFinished::Unfinished { .. }) => true,
            _ => false,
        }
    }

    /// Replaces an unfinished line by a longer one; the time of its start stays.
    pub fn replace_contents_with(&mut self, new: BufLine)
        requires
            old(self).is_open(),
        ensures
            *final(self) == (BufLine { timestamp: old(self).timestamp, ..new }),
    {
        let mut new = new;
        new.timestamp = self.timestamp;
        *self = new;
    }

    /// Determines how many rows the line takes, and keeps the number.
    pub fn update_line_height(&mut self, terminal_width: u16, rendering: RenderSettings) -> (r:
        usize)
        requires
            old(self).wf(),
            terminal_width <= WIDEST_TERMINAL,
        ensures
            r == old(self).height_at(terminal_width, *rendering.rendering, *rendering.defmt),
            *final(self) == (BufLine { rendered_line_height: r as u16, ..*old(self) }),
    {
        let width_minus_scrollbar: u16 = if terminal_width == 0 {
            0
        } else {
            terminal_width - 1
        };
        let line = self.as_line(rendering);
        let height: usize = line_count(&line, width_minus_scrollbar);
        self.rendered_line_height = height as u16;
        height
    }

    /// How many rows the line takes.
    pub fn get_line_height(&self) -> (r: u16)
        ensures
            r == self.rendered_line_height,
    {
        self.rendered_line_height
    }

    /// The line as it is shown: what the settings ask for around its own spans.
    pub fn as_line(&self, rendering: RenderSettings) -> (r: Line)
        requires
            self.wf(),
        ensures
            r@ == self.shown(*rendering.rendering, *rendering.defmt),
    {
        let mut spans: Vec<Span> = Vec::new();
        assert(crate::line::span_views(spans@) =~= Seq::empty());

        let timestamp = if rendering.rendering.timestamps {
            self.timestamp.format(TIME_FORMAT)
        } else {
            None
        };
        push_dim(&mut spans, timestamp);

        let device_timestamp = match &self.line_type {
            LineType::PortDefmt { device_timestamp: Some(ts), .. } => {
                if rendering.defmt.device_timestamp {
                    Some(ts.clone())
                } else {
                    None
                }
            },
            _ => None,
        };
        push_dim(&mut spans, device_timestamp);

        let indices = if !rendering.rendering.show_indices {
            None
        } else {
            match &self.line_type {
                LineType::User { reloggable_raw, .. } => Some(
                    make_user_index_info(
                        self.range(),
                        reloggable_raw.len(),
                        rendering.rendering.indices_as_hex,
                    ),
                ),
                _ => Some(make_index_info(self.range(), rendering.rendering.indices_as_hex)),
            }
        };
        push_dim(&mut spans, indices);

        match &self.line_type {
            LineType::PortDefmt { level, .. } => {
                let mut bracketed = defmt_level_bracketed(*level);
                let ghost prior = spans@;
                let ghost added = bracketed@;
                spans.append(&mut bracketed);
                assert(crate::line::span_views(spans@) =~= crate::line::span_views(prior)
                    + crate::line::span_views(added));
            },
            _ => {
                assert(crate::line::span_views(spans@) + self.shown_level()
                    =~= crate::line::span_views(spans@));
            },
        }

        let mut own = self.value.borrowed_spans();
        let ghost prior = spans@;
        spans.append(&mut own);
        assert(crate::line::span_views(spans@) =~= crate::line::span_views(prior)
            + self.value@.spans);

        let ending = if !rendering.rendering.show_line_ending {
            None
        } else {
            match &self.line_type {
                LineType::Port(LineFinished::LineEnding(ending)) => Some(ending.clone()),
                LineType::PortHidden(LineFinished::LineEnding(ending)) => Some(ending.clone()),
                LineType::User { escaped_line_ending: Some(ending), .. } => Some(ending.clone()),
                _ => None,
            }
        };
        push_dim(&mut spans, ending);

        let location = match &self.line_type {
            LineType::PortDefmt { location: Some(location), .. } => format_location(
                location,
                rendering.defmt,
            ),
            _ => None,
        };
        push_dim(&mut spans, location);

        let line = Line::from_spans(spans);
        assert(line@.spans =~= self.shown(*rendering.rendering, *rendering.defmt).spans);
        line
    }

    /// Where the line stands among the received bytes.
    pub fn range(&self) -> (r: &Range<usize>)
        ensures
            *r == self.range_in_raw_buffer,
    {
        &self.range_in_raw_buffer
    }
}

/// Adds a dimmed span of a text, if there is one.
fn push_dim(spans: &mut Vec<Span>, text: Option<String>)
    ensures
        crate::line::span_views(final(spans)@) == crate::line::span_views(old(spans)@) + dim_span(
            text_option(text),
        ),
{
    match text {
        Some(text) => {
            let span = Span::styled(text, Style::new().fg(Color::DarkGray));
            proof {
                crate::line::lemma_views_of_push(spans@, span);
            }
            spans.push(span);
        },
        None => (),
    }
    assert(crate::line::span_views(spans@) =~= crate::line::span_views(old(spans)@) + dim_span(
        text_option(text),
    ));
}

/// The text of a line is shown whole and in order, whatever is shown around it.
pub proof fn law_own_text_is_shown_whole(line: BufLine, rendering: Rendering, defmt: Defmt)
    ensures
        exists|before: Seq<SpanView>, after: Seq<SpanView>|
            line.shown(rendering, defmt).spans == #[trigger] ((before + line.value@.spans) + after),
{
    let before = dim_span(line.shown_time(rendering)) + dim_span(line.shown_device_time(defmt))
        + dim_span(line.shown_indices(rendering)) + line.shown_level();
    let after = dim_span(line.shown_ending(rendering)) + dim_span(line.shown_location(defmt));
    assert(line.shown(rendering, defmt).spans =~= (before + line.value@.spans) + after);
}

} // verus!
