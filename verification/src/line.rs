//! Styled text: a line is a list of spans, each with one style.

use vstd::prelude::*;
use vstd::string::*;
use vstd::utf8::*;

verus! {

/// A terminal colour.
#[derive(Clone, Copy, Debug, PartialEq, Eq, Structural)]
pub enum Color {
    Reset,
    Black,
    Red,
    Green,
    Yellow,
    Blue,
    Magenta,
    Cyan,
    Gray,
    DarkGray,
    LightRed,
    LightGreen,
    LightYellow,
    LightBlue,
    LightMagenta,
    LightCyan,
    White,
    Rgb(u8, u8, u8),
    Indexed(u8),
}

pub const BOLD: u16 = 0x1;

pub const DIM: u16 = 0x2;

pub const ITALIC: u16 = 0x4;

pub const UNDERLINED: u16 = 0x8;

pub const SLOW_BLINK: u16 = 0x10;

pub const RAPID_BLINK: u16 = 0x20;

pub const REVERSED: u16 = 0x40;

/// Colours and modifiers to apply to a piece of text.
///
/// The modifiers are bit sets: `add_modifier` switches on, `sub_modifier` off.
#[derive(Clone, Copy, Debug, PartialEq, Eq, Structural)]
pub struct Style {
    pub fg: Option<Color>,
    pub bg: Option<Color>,
    pub underline_color: Option<Color>,
    pub add_modifier: u16,
    pub sub_modifier: u16,
}

/// The first choice if there is one, else the second.
pub open spec fn first_of(a: Option<Color>, b: Option<Color>) -> Option<Color> {
    if a is Some {
        a
    } else {
        b
    }
}

impl Style {
    /// The style that changes nothing.
    pub open spec fn plain() -> Style {
        Style {
            fg: None,
            bg: None,
            underline_color: None,
            add_modifier: 0,
            sub_modifier: 0,
        }
    }

    /// This style with another one laid over it.
    pub open spec fn patched(self, other: Style) -> Style {
        Style {
            fg: first_of(other.fg, self.fg),
            bg: first_of(other.bg, self.bg),
            underline_color: first_of(other.underline_color, self.underline_color),
            add_modifier: (self.add_modifier & !other.sub_modifier) | other.add_modifier,
            sub_modifier: (self.sub_modifier & !other.add_modifier) | other.sub_modifier,
        }
    }

    pub open spec fn with_fg(self, color: Color) -> Style {
        Style { fg: Some(color), ..self }
    }

    pub open spec fn with_bg(self, color: Color) -> Style {
        Style { bg: Some(color), ..self }
    }

    pub open spec fn with_modifier(self, modifier: u16) -> Style {
        Style {
            add_modifier: self.add_modifier | modifier,
            sub_modifier: self.sub_modifier & !modifier,
            ..self
        }
    }

    pub open spec fn without_modifier(self, modifier: u16) -> Style {
        Style {
            add_modifier: self.add_modifier & !modifier,
            sub_modifier: self.sub_modifier | modifier,
            ..self
        }
    }

    /// The style that changes nothing.
    pub fn new() -> (s: Style)
        ensures
            s == Style::plain(),
    {
        Style { fg: None, bg: None, underline_color: None, add_modifier: 0, sub_modifier: 0 }
    }

    /// This style with another one laid over it: what the other leaves open is kept.
    pub fn patch(self, other: Style) -> (s: Style)
        ensures
            s == self.patched(other),
    {
        let fg = if other.fg.is_some() {
            other.fg
        } else {
            self.fg
        };
        let bg = if other.bg.is_some() {
            other.bg
        } else {
            self.bg
        };
        let underline_color = if other.underline_color.is_some() {
            other.underline_color
        } else {
            self.underline_color
        };
        Style {
            fg,
            bg,
            underline_color,
            add_modifier: (self.add_modifier & !other.sub_modifier) | other.add_modifier,
            sub_modifier: (self.sub_modifier & !other.add_modifier) | other.sub_modifier,
        }
    }

    pub fn fg(self, color: Color) -> (s: Style)
        ensures
            s == self.with_fg(color),
    {
        Style { fg: Some(color), ..self }
    }

    pub fn bg(self, color: Color) -> (s: Style)
        ensures
            s == self.with_bg(color),
    {
        Style { bg: Some(color), ..self }
    }

    pub fn add(self, modifier: u16) -> (s: Style)
        ensures
            s == self.with_modifier(modifier),
    {
        Style {
            add_modifier: self.add_modifier | modifier,
            sub_modifier: self.sub_modifier & !modifier,
            ..self
        }
    }
}

impl Style {
    pub fn remove(self, modifier: u16) -> (s: Style)
        ensures
            s == self.without_modifier(modifier),
    {
        Style {
            add_modifier: self.add_modifier & !modifier,
            sub_modifier: self.sub_modifier | modifier,
            ..self
        }
    }
}

/// Where a line is placed in the space it is given.
#[derive(Clone, Copy, Debug, PartialEq, Eq, Structural)]
pub enum Alignment {
    Left,
    Center,
    Right,
}

/// A piece of text in one style.
#[derive(Debug)]
pub struct Span {
    pub content: String,
    pub style: Style,
}

/// A row of spans.
#[derive(Debug)]
pub struct Line {
    pub spans: Vec<Span>,
    pub style: Style,
    pub alignment: Option<Alignment>,
}

/// What a span holds: the bytes of its text, and its style.
#[verifier::ext_equal]
pub struct SpanView {
    pub bytes: Seq<u8>,
    pub style: Style,
}

/// What a line holds.
#[verifier::ext_equal]
pub struct LineView {
    pub spans: Seq<SpanView>,
    pub style: Style,
    pub alignment: Option<Alignment>,
}

impl View for Span {
    type V = SpanView;

    open spec fn view(&self) -> SpanView {
        SpanView { bytes: encode_utf8(self.content@), style: self.style }
    }
}

/// What each of some spans holds.
pub open spec fn span_views(spans: Seq<Span>) -> Seq<SpanView> {
    spans.map_values(|s: Span| s@)
}

pub proof fn lemma_views_of_push(spans: Seq<Span>, span: Span)
    ensures
        span_views(spans.push(span)) == span_views(spans).push(span@),
{
    assert(span_views(spans.push(span)) =~= span_views(spans).push(span@));
}

impl View for Line {
    type V = LineView;

    open spec fn view(&self) -> LineView {
        LineView {
            spans: span_views(self.spans@),
            style: self.style,
            alignment: self.alignment,
        }
    }
}

/// A span with the given text and style.
pub open spec fn span_of(text: Seq<char>, style: Style) -> SpanView {
    SpanView { bytes: encode_utf8(text), style }
}

/// A line of the given spans with nothing else set.
pub open spec fn line_of(spans: Seq<SpanView>) -> LineView {
    LineView { spans, style: Style::plain(), alignment: None }
}

/// The number of bytes in some spans.
pub open spec fn total_len(spans: Seq<SpanView>) -> nat
    decreases spans.len(),
{
    if spans.len() == 0 {
        0
    } else {
        total_len(spans.drop_last()) + spans.last().bytes.len()
    }
}

/// The bytes of one span, each with the style it is shown in.
pub open spec fn flat_span(span: SpanView) -> Seq<(u8, Style)> {
    Seq::new(span.bytes.len(), |i: int| (span.bytes[i], span.style))
}

/// All bytes of some spans in order, each with the style it is shown in.
pub open spec fn flat(spans: Seq<SpanView>) -> Seq<(u8, Style)>
    decreases spans.len(),
{
    if spans.len() == 0 {
        Seq::empty()
    } else {
        flat(spans.drop_last()) + flat_span(spans.last())
    }
}

pub proof fn lemma_flat_len(spans: Seq<SpanView>)
    ensures
        flat(spans).len() == total_len(spans),
    decreases spans.len(),
{
    if spans.len() > 0 {
        lemma_flat_len(spans.drop_last());
    }
}

pub proof fn lemma_flat_concat(a: Seq<SpanView>, b: Seq<SpanView>)
    ensures
        flat(a + b) == flat(a) + flat(b),
        total_len(a + b) == total_len(a) + total_len(b),
    decreases b.len(),
{
    if b.len() == 0 {
        assert(a + b =~= a);
        assert(flat(a) + flat(b) =~= flat(a));
    } else {
        lemma_flat_concat(a, b.drop_last());
        assert((a + b).drop_last() =~= a + b.drop_last());
        assert((a + b).last() == b.last());
        assert(flat(a + b) =~= flat(a) + flat(b));
    }
}

pub proof fn lemma_flat_one(s: SpanView)
    ensures
        flat(seq![s]) == flat_span(s),
        total_len(seq![s]) == s.bytes.len(),
{
    assert(seq![s].drop_last() =~= Seq::<SpanView>::empty());
    assert(seq![s].last() == s);
    assert(flat(seq![s].drop_last()) =~= Seq::<(u8, Style)>::empty());
    assert(total_len(seq![s].drop_last()) == 0);
    assert(flat(seq![s]) =~= flat_span(s));
}

pub proof fn lemma_total_len_of_prefix(spans: Seq<SpanView>, i: int)
    requires
        0 <= i <= spans.len(),
    ensures
        total_len(spans.take(i)) <= total_len(spans),
        i < spans.len() ==> total_len(spans.take(i + 1)) == total_len(spans.take(i))
            + spans[i].bytes.len(),
        i == spans.len() ==> spans.take(i) == spans,
    decreases spans.len(),
{
    lemma_flat_concat(spans.take(i), spans.skip(i));
    assert(spans.take(i) + spans.skip(i) =~= spans);
    if i < spans.len() {
        assert(spans.take(i + 1).drop_last() =~= spans.take(i));
        assert(spans.take(i + 1).last() == spans[i]);
    } else {
        assert(spans.take(i) =~= spans);
    }
}

impl Span {
    /// A span of `content` in `style`.
    pub fn styled(content: String, style: Style) -> (s: Span)
        ensures
            s.content == content,
            s.style == style,
            s@ == span_of(content@, style),
    {
        Span { content, style }
    }

    /// A span of `content` without a style.
    pub fn raw(content: String) -> (s: Span)
        ensures
            s.content == content,
            s.style == Style::plain(),
            s@ == span_of(content@, Style::plain()),
    {
        Span { content, style: Style::new() }
    }

    /// A span with the same text and style.
    pub fn duplicate(&self) -> (s: Span)
        ensures
            s == *self,
    {
        Span { content: self.content.clone(), style: self.style }
    }
}

impl Line {
    /// A line of the given spans.
    pub fn from_spans(spans: Vec<Span>) -> (l: Line)
        ensures
            l.spans == spans,
            l@ == line_of(span_views(spans@)),
    {
        Line { spans, style: Style::new(), alignment: None }
    }

    /// A line that holds one text without a style.
    pub fn from_text(content: String) -> (l: Line)
        ensures
            l@ == line_of(seq![span_of(content@, Style::plain())]),
    {
        let mut spans: Vec<Span> = Vec::new();
        spans.push(Span::raw(content));
        let l = Line { spans, style: Style::new(), alignment: None };
        assert(l@.spans =~= seq![span_of(content@, Style::plain())]);
        l
    }
}

} // verus!
