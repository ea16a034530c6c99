//! Whole-line helpers, and showing characters that a terminal would act on.

use vstd::prelude::*;
use vstd::string::*;
use vstd::utf8::*;

use crate::line::{Color, Line, LineView, Span, SpanView, Style};
use crate::line_edit::{Edit, LineMutator};
use crate::text::{byte_len, hex_pair};

verus! {

/// Whether a character is a control character.
pub open spec fn unsavory(c: char) -> bool {
    c as u32 <= 0x1f || 0x7f <= c as u32 <= 0x9f
}

/// A back slash, an `x` and two hexadecimal digits for each byte.
pub open spec fn hex_escapes(bytes: Seq<u8>) -> Seq<char>
    decreases bytes.len(),
{
    if bytes.len() == 0 {
        Seq::empty()
    } else {
        hex_escapes(bytes.drop_last()) + seq![
            '\\',
            'x',
            crate::text::digit((bytes.last() / 16) as nat),
            crate::text::digit((bytes.last() % 16) as nat),
        ]
    }
}

/// What is shown in place of a control character. A tab is always shown; the
/// others only on request.
pub open spec fn replacement(c: char, replace: bool) -> Seq<char> {
    if c == '\t' {
        seq!['\\', 't']
    } else if !replace {
        Seq::empty()
    } else if c == '\n' {
        seq!['\\', 'n']
    } else if c == '\r' {
        seq!['\\', 'r']
    } else {
        hex_escapes(encode_utf8(seq![c]))
    }
}

/// The style that replacements are shown in.
pub open spec fn dimmed() -> Style {
    Style::plain().with_fg(Color::DarkGray)
}

/// Some characters, all in one style.
pub open spec fn in_style(chars: Seq<char>, style: Style) -> Seq<(char, Style)> {
    Seq::new(chars.len(), |i: int| (chars[i], style))
}

/// What one styled character turns into.
pub open spec fn shown(c: (char, Style), replace: bool) -> Seq<(char, Style)> {
    if unsavory(c.0) {
        in_style(replacement(c.0, replace), dimmed())
    } else {
        seq![c]
    }
}

/// What a line's characters turn into.
pub open spec fn all_shown(chars: Seq<(char, Style)>, replace: bool) -> Seq<(char, Style)>
    decreases chars.len(),
{
    if chars.len() == 0 {
        Seq::empty()
    } else {
        all_shown(chars.drop_last(), replace) + shown(chars.last(), replace)
    }
}

/// The characters of some spans, each with its style.
pub open spec fn styled_chars(spans: Seq<Span>) -> Seq<(char, Style)>
    decreases spans.len(),
{
    if spans.len() == 0 {
        Seq::empty()
    } else {
        styled_chars(spans.drop_last()) + in_style(spans.last().content@, spans.last().style)
    }
}

/// The bytes of one styled character.
pub open spec fn char_bytes(c: (char, Style)) -> Seq<(u8, Style)> {
    crate::line::flat_span(crate::line::span_of(seq![c.0], c.1))
}

/// The bytes of some styled characters.
pub open spec fn styled_bytes(chars: Seq<(char, Style)>) -> Seq<(u8, Style)>
    decreases chars.len(),
{
    if chars.len() == 0 {
        Seq::empty()
    } else {
        styled_bytes(chars.drop_last()) + char_bytes(chars.last())
    }
}

proof fn lemma_styled_bytes_concat(a: Seq<(char, Style)>, b: Seq<(char, Style)>)
    ensures
        styled_bytes(a + b) == styled_bytes(a) + styled_bytes(b),
    decreases b.len(),
{
    if b.len() == 0 {
        assert(a + b =~= a);
        assert(styled_bytes(a) + styled_bytes(b) =~= styled_bytes(a));
    } else {
        lemma_styled_bytes_concat(a, b.drop_last());
        assert((a + b).drop_last() =~= a + b.drop_last());
        assert(styled_bytes(a + b) =~= styled_bytes(a) + styled_bytes(b));
    }
}

proof fn lemma_styled_bytes_one(c: (char, Style))
    ensures
        styled_bytes(seq![c]) == char_bytes(c),
{
    assert(seq![c].drop_last() =~= Seq::<(char, Style)>::empty());
    assert(styled_bytes(seq![c].drop_last()) =~= Seq::<(u8, Style)>::empty());
    assert(styled_bytes(seq![c]) =~= char_bytes(c));
}

proof fn lemma_styled_bytes_of_span(chars: Seq<char>, style: Style)
    ensures
        styled_bytes(in_style(chars, style)) == crate::line::flat_span(
            crate::line::span_of(chars, style),
        ),
    decreases chars.len(),
{
    let whole = in_style(chars, style);
    if chars.len() == 0 {
        assert(encode_utf8(chars) =~= Seq::<u8>::empty());
        assert(crate::line::flat_span(crate::line::span_of(chars, style)) =~= Seq::<
            (u8, Style),
        >::empty());
    } else {
        let init = chars.drop_last();
        lemma_styled_bytes_of_span(init, style);
        assert(whole.drop_last() =~= in_style(init, style));
        assert(init + seq![chars.last()] =~= chars);
        crate::text::lemma_encoding_of_concat(init, seq![chars.last()]);
        assert(styled_bytes(whole) =~= crate::line::flat_span(crate::line::span_of(chars, style)));
    }
}

proof fn lemma_styled_bytes_of_spans(spans: Seq<Span>)
    ensures
        styled_bytes(styled_chars(spans)) == crate::line::flat(crate::line::span_views(spans)),
    decreases spans.len(),
{
    let views = crate::line::span_views(spans);
    if spans.len() > 0 {
        lemma_styled_bytes_of_spans(spans.drop_last());
        lemma_styled_bytes_of_span(spans.last().content@, spans.last().style);
        lemma_styled_bytes_concat(
            styled_chars(spans.drop_last()),
            in_style(spans.last().content@, spans.last().style),
        );
        assert(views.drop_last() =~= crate::line::span_views(spans.drop_last()));
        assert(views.last() == spans.last()@);
    } else {
        assert(views.len() == 0);
    }
}

proof fn lemma_char_bytes(c: (char, Style))
    ensures
        1 <= char_bytes(c).len() <= 4,
        !is_continuation_byte(char_bytes(c)[0].0),
{
    let bytes = encode_utf8(seq![c.0]);
    encode_utf8_valid_utf8(seq![c.0]);
    assert(seq![c.0].drop_first() =~= Seq::<char>::empty());
    assert(encode_utf8(Seq::<char>::empty()) =~= Seq::<u8>::empty());
    assert(bytes =~= encode_scalar(c.0 as u32));
    char_is_scalar(c.0);
    is_char_boundary_start_end_of_seq(bytes);
    is_char_boundary_iff_not_is_continuation_byte(bytes, 0);
}

proof fn lemma_styled_bytes_start(chars: Seq<(char, Style)>)
    ensures
        chars.len() > 0 ==> styled_bytes(chars).len() > 0 && !is_continuation_byte(
            styled_bytes(chars)[0].0,
        ),
        chars.len() == 0 ==> styled_bytes(chars).len() == 0,
{
    if chars.len() > 0 {
        let tail = chars.skip(1);
        assert(seq![chars[0]] + tail =~= chars);
        lemma_styled_bytes_concat(seq![chars[0]], tail);
        lemma_styled_bytes_one(chars[0]);
        lemma_char_bytes(chars[0]);
    }
}

proof fn lemma_all_shown_concat(a: Seq<(char, Style)>, b: Seq<(char, Style)>, replace: bool)
    ensures
        all_shown(a + b, replace) == all_shown(a, replace) + all_shown(b, replace),
    decreases b.len(),
{
    if b.len() == 0 {
        assert(a + b =~= a);
        assert(all_shown(a, replace) + all_shown(b, replace) =~= all_shown(a, replace));
    } else {
        lemma_all_shown_concat(a, b.drop_last(), replace);
        assert((a + b).drop_last() =~= a + b.drop_last());
        assert(all_shown(a + b, replace) =~= all_shown(a, replace) + all_shown(b, replace));
    }
}

proof fn lemma_clean_is_shown_as_is(chars: Seq<(char, Style)>, replace: bool)
    requires
        forall|i: int| 0 <= i < chars.len() ==> !unsavory((#[trigger] chars[i]).0),
    ensures
        all_shown(chars, replace) == chars,
    decreases chars.len(),
{
    if chars.len() > 0 {
        let init = chars.drop_last();
        assert forall|i: int| 0 <= i < init.len() implies !unsavory((#[trigger] init[i]).0) by {
            assert(init[i] == chars[i]);
        }
        lemma_clean_is_shown_as_is(init, replace);
        assert(!unsavory(chars[chars.len() - 1].0));
        assert(all_shown(chars, replace) =~= chars);
    } else {
        assert(all_shown(chars, replace) =~= chars);
    }
}

proof fn lemma_hex_escapes_len(bytes: Seq<u8>)
    ensures
        hex_escapes(bytes).len() == 4 * bytes.len(),
        is_ascii_chars(hex_escapes(bytes)),
    decreases bytes.len(),
{
    if bytes.len() > 0 {
        lemma_hex_escapes_len(bytes.drop_last());
        let d1 = (bytes.last() / 16) as nat;
        let d2 = (bytes.last() % 16) as nat;
        assert(d1 < 16 && d2 < 16);
        assert forall|i: int| 0 <= i < hex_escapes(bytes).len() implies 0 <= (
        #[trigger] hex_escapes(bytes)[i]) as nat && (hex_escapes(bytes)[i] as nat) < 128 by {
            if i < hex_escapes(bytes.drop_last()).len() {
                assert(hex_escapes(bytes)[i] == hex_escapes(bytes.drop_last())[i]);
            }
        }
    }
}

proof fn lemma_ascii_in_style(chars: Seq<char>, style: Style)
    requires
        is_ascii_chars(chars),
    ensures
        styled_bytes(in_style(chars, style)).len() == chars.len(),
{
    lemma_styled_bytes_of_span(chars, style);
    is_ascii_chars_encode_utf8(chars);
}

proof fn lemma_replacement_len(c: (char, Style), replace: bool)
    requires
        unsavory(c.0),
    ensures
        styled_bytes(shown(c, replace)).len() <= 4 * char_bytes(c).len(),
{
    lemma_char_bytes(c);
    lemma_hex_escapes_len(encode_utf8(seq![c.0]));
    let r = replacement(c.0, replace);
    assert(is_ascii_chars(r)) by {
        if c.0 == '\t' || !replace || c.0 == '\n' || c.0 == '\r' {
            assert forall|i: int| 0 <= i < r.len() implies 0 <= (#[trigger] r[i]) as nat && (
            r[i] as nat) < 128 by {}
        }
    }
    lemma_ascii_in_style(r, dimmed());
}

proof fn lemma_all_shown_len(chars: Seq<(char, Style)>, replace: bool)
    ensures
        styled_bytes(all_shown(chars, replace)).len() <= 4 * styled_bytes(chars).len(),
    decreases chars.len(),
{
    if chars.len() > 0 {
        lemma_all_shown_len(chars.drop_last(), replace);
        lemma_styled_bytes_concat(
            all_shown(chars.drop_last(), replace),
            shown(chars.last(), replace),
        );
        lemma_char_bytes(chars.last());
        if unsavory(chars.last().0) {
            lemma_replacement_len(chars.last(), replace);
        } else {
            lemma_styled_bytes_one(chars.last());
        }
    } else {
        assert(all_shown(chars, replace).len() == 0);
    }
}

/// Whether a span ends, or the line starts, at an offset.
pub open spec fn has_edge(spans: Seq<SpanView>, at: int) -> bool {
    exists|i: int|
        0 <= i <= spans.len() && #[trigger] crate::line::total_len(spans.take(i)) == at
}

proof fn lemma_edge_in_prefix(a: Seq<SpanView>, b: Seq<SpanView>, at: int)
    requires
        has_edge(a, at),
    ensures
        has_edge(a + b, at),
{
    let i = choose|i: int|
        0 <= i <= a.len() && #[trigger] crate::line::total_len(a.take(i)) == at;
    assert((a + b).take(i) =~= a.take(i));
    assert(crate::line::total_len((a + b).take(i)) == at);
}

/// A removal leaves an edge where it cut.
proof fn lemma_edge_after_removal(spans: Seq<SpanView>, from: int, to: int)
    requires
        0 <= from < to,
        from <= crate::line::total_len(spans),
        spans.len() > 0,
    ensures
        has_edge(crate::line_edit::edited(Edit::Remove, spans, (from, to)), from),
        crate::line_edit::edited(Edit::Remove, spans, (from, to)).len() > 0,
    decreases spans.len(),
{
    let init = spans.drop_last();
    let last = spans.last();
    let start = crate::line::total_len(init) as int;
    let done = crate::line_edit::edited(Edit::Remove, init, (from, to));
    let piece = crate::line_edit::edited_span(Edit::Remove, last, start, (from, to));
    let out = crate::line_edit::edited(Edit::Remove, spans, (from, to));
    assert(out == done + piece);
    assert(piece.len() > 0) by {
        match crate::line_edit::overlap((start, start + last.bytes.len()), (from, to)) {
            None => {},
            Some((f, t)) => {
                let pre = last.bytes.take(f - start);
                let post = last.bytes.skip(t - start);
                if pre.len() == 0 && post.len() == 0 {
                } else if pre.len() > 0 {
                    assert(crate::line_edit::kept(pre, last.style).len() == 1);
                } else {
                    assert(crate::line_edit::kept(post, last.style).len() == 1);
                }
            },
        }
    }
    if from <= start {
        if init.len() > 0 {
            lemma_edge_after_removal(init, from, to);
            lemma_edge_in_prefix(done, piece, from);
        } else {
            assert(from == 0);
            assert(out.take(0).len() == 0);
            assert(crate::line::total_len(out.take(0)) == from);
        }
    } else {
        crate::line_edit::law_edit_acts_on_the_range(Edit::Remove, init, (from, to));
        crate::line::lemma_flat_len(init);
        crate::line::lemma_flat_len(done);
        assert(crate::line::total_len(done) == start) by {
            assert(crate::line_edit::flat_removed(crate::line::flat(init), (from, to))
                =~= crate::line::flat(init));
        }
        let edge = done.len() + 1;
        assert(out.take(edge as int) =~= done + piece.take(1));
        assert(piece.take(1) =~= seq![piece[0]]);
        crate::line::lemma_flat_concat(done, piece.take(1));
        crate::line::lemma_flat_one(piece[0]);
        match crate::line_edit::overlap((start, start + last.bytes.len()), (from, to)) {
            None => {
                assert(piece[0] == last);
            },
            Some((f, t)) => {
                let pre = last.bytes.take(f - start);
                assert(f == from);
                assert(pre.len() == from - start);
                assert(piece[0] == SpanView { bytes: pre, style: last.style });
            },
        }
        assert(crate::line::total_len(out.take(edge as int)) == from);
    }
}

proof fn lemma_insertion_at_edge(
    spans: Seq<SpanView>,
    at: int,
    content: Seq<u8>,
    style: Option<Style>,
)
    requires
        spans.len() > 0,
        has_edge(spans, at),
    ensures
        0 <= at <= crate::line::total_len(spans),
        !crate::line_edit::displaces_next(spans, at),
        has_edge(crate::line_edit::inserted(spans, at, content, style), at + content.len()),
        crate::line_edit::inserted(spans, at, content, style).len() == spans.len() + 1,
{
    let i = choose|i: int|
        0 <= i <= spans.len() && #[trigger] crate::line::total_len(spans.take(i)) == at;
    crate::line::lemma_total_len_of_prefix(spans, i);
    crate::line_edit::lemma_span_reaching(spans, at);
    let k = crate::line_edit::span_reaching(spans, at);
    let before = crate::line::total_len(spans.take(k)) as int;
    if i >= 1 && k + 1 > i {
        crate::line_edit::lemma_prefix_lens_grow(spans, i, k);
        assert(false);
    }
    if i >= 1 {
        crate::line_edit::lemma_prefix_lens_grow(spans, k + 1, i);
        assert(before + spans[k].bytes.len() == at);
    } else {
        assert(spans.take(0).len() == 0);
        assert(at == 0);
    }
    let out = crate::line_edit::inserted(spans, at, content, style);
    let p = if before + spans[k].bytes.len() == at {
        k + 1
    } else {
        k
    };
    assert(out.len() == spans.len() + 1);
    assert(out.take(p + 1) =~= spans.take(p) + seq![out[p]]);
    crate::line::lemma_flat_concat(spans.take(p), seq![out[p]]);
    crate::line::lemma_flat_one(out[p]);
    assert(crate::line::total_len(out.take(p + 1)) == at + content.len());
}

impl Line {
    /// Puts a replacement in at an edge of the line, and returns where it ends.
    fn insert_shown(&mut self, at: usize, content: String) -> (end: usize)
        requires
            old(self)@.spans.len() > 0,
            has_edge(old(self)@.spans, at as int),
            crate::line_edit::can_cut(old(self)@.spans, at as int),
            crate::line::total_len(old(self)@.spans) + encode_utf8(content@).len() <= usize::MAX,
        ensures
            end == at + encode_utf8(content@).len(),
            crate::line::flat(final(self)@.spans) == crate::line::flat(old(self)@.spans).take(
                at as int,
            ) + crate::line::flat_span(crate::line::span_of(content@, dimmed())) + crate::line::flat(
                old(self)@.spans,
            ).skip(at as int),
            final(self)@.spans.len() > 0,
            has_edge(final(self)@.spans, end as int),
            final(self).style == old(self).style,
            final(self).alignment == old(self).alignment,
    {
        let dark_gray = Style::new().fg(Color::DarkGray);
        proof {
            lemma_insertion_at_edge(
                self@.spans,
                at as int,
                encode_utf8(content@),
                Some(dark_gray),
            );
            crate::line_edit::law_insertion_acts_at_the_index(
                self@.spans,
                at as int,
                encode_utf8(content@),
                Some(dark_gray),
            );
        }
        let len: usize = byte_len(content.as_str());
        self.insert_slice(at, content, Some(dark_gray));
        at + len
    }
}


fn two_chars(a: char, b: char) -> (s: String)
    ensures
        s@ == seq![a, b],
{
    let mut s = String::new();
    s.push(a);
    s.push(b);
    assert(s@ =~= seq![a, b]);
    s
}

/// Whether a character is a control character.
pub fn is_unsavory(c: char) -> (r: bool)
    ensures
        r == unsavory(c),
{
    let v: u32 = c as u32;
    v <= 0x1f || (0x7f <= v && v <= 0x9f)
}

/// An unsavory character found in a line, and the offset of its first byte.
struct Found {
    offset: usize,
    c: char,
}

/// The found characters are the unsavory ones among `chars`, in order, and
/// `places` says which they are.
spec fn found_all(found: Seq<Found>, places: Seq<int>, chars: Seq<(char, Style)>) -> bool {
    &&& found.len() == places.len()
    &&& forall|k: int|
        #![trigger places[k]]
        0 <= k < places.len() ==> {
            &&& 0 <= places[k] < chars.len()
            &&& found[k].c == chars[places[k]].0
            &&& unsavory(found[k].c)
            &&& found[k].offset == styled_bytes(chars.take(places[k])).len()
        }
    &&& forall|k: int, l: int|
        #![trigger places[k], places[l]]
        0 <= k < l < places.len() ==> places[k] < places[l]
    &&& forall|j: int|
        #![trigger chars[j]]
        0 <= j < chars.len() && unsavory(chars[j].0) ==> places.contains(j)
}

proof fn lemma_found_one_more(
    found: Seq<Found>,
    places: Seq<int>,
    chars: Seq<(char, Style)>,
    c: char,
    style: Style,
    offset: usize,
)
    requires
        found_all(found, places, chars),
        offset == styled_bytes(chars).len(),
    ensures
        unsavory(c) ==> found_all(
            found.push(Found { offset, c }),
            places.push(chars.len() as int),
            chars.push((c, style)),
        ),
        !unsavory(c) ==> found_all(found, places, chars.push((c, style))),
{
    let more = chars.push((c, style));
    assert forall|k: int| 0 <= k < places.len() implies #[trigger] more.take(places[k])
        == chars.take(places[k]) by {
        assert(more.take(places[k]) =~= chars.take(places[k]));
    }
    assert(more.take(chars.len() as int) =~= chars);
    let places2 = places.push(chars.len() as int);
    let found2 = found.push(Found { offset, c });
    if unsavory(c) {
        assert forall|k: int| #![trigger places2[k]] 0 <= k < places2.len() implies {
            &&& 0 <= places2[k] < more.len()
            &&& found2[k].c == more[places2[k]].0
            &&& unsavory(found2[k].c)
            &&& found2[k].offset == styled_bytes(more.take(places2[k])).len()
        } by {
            if k < places.len() {
                assert(places2[k] == places[k]);
                assert(found2[k] == found[k]);
                assert(more[places[k]] == chars[places[k]]);
                assert(more.take(places[k]) == chars.take(places[k]));
            } else {
                assert(k == found.len());
                assert(found2[k] == Found { offset, c });
                assert(places2[k] == chars.len());
                assert(more[chars.len() as int] == (c, style));
            }
        }
        assert forall|j: int|
            #![trigger more[j]]
            0 <= j < more.len() && unsavory(more[j].0) implies places2.contains(j) by {
            if j < chars.len() {
                assert(more[j] == chars[j]);
                assert(places.contains(j));
                let k = choose|k: int| 0 <= k < places.len() && places[k] == j;
                assert(places2[k] == j);
            } else {
                assert(places2[places.len() as int] == j);
            }
        }
    } else {
        assert forall|k: int| #![trigger places[k]] 0 <= k < places.len() implies {
            &&& 0 <= places[k] < more.len()
            &&& found[k].c == more[places[k]].0
            &&& unsavory(found[k].c)
            &&& found[k].offset == styled_bytes(more.take(places[k])).len()
        } by {
            assert(more[places[k]] == chars[places[k]]);
            assert(more.take(places[k]) == chars.take(places[k]));
        }
        assert forall|j: int|
            #![trigger more[j]]
            0 <= j < more.len() && unsavory(more[j].0) implies places.contains(j) by {
            if j < chars.len() {
                assert(more[j] == chars[j]);
            }
        }
    }
}

impl Line {
    /// Looks up all unsavory characters of the line.
    fn find_unsavory(&self) -> (r: (Vec<Found>, Ghost<Seq<int>>))
        requires
            crate::line::total_len(self@.spans) <= usize::MAX,
        ensures
            found_all(r.0@, r.1@, styled_chars(self.spans@)),
    {
        let mut found: Vec<Found> = Vec::new();
        let ghost mut places: Seq<int> = Seq::empty();
        let mut offset: usize = 0;
        let mut i: usize = 0;
        let ghost spans = self.spans@;
        while i < self.spans.len()
            invariant
                spans == self.spans@,
                crate::line::total_len(crate::line::span_views(spans)) <= usize::MAX,
                i <= spans.len(),
                offset == styled_bytes(styled_chars(spans.take(i as int))).len(),
                found_all(found@, places, styled_chars(spans.take(i as int))),
            decreases spans.len() - i,
        {
            let ghost before = styled_chars(spans.take(i as int));
            let span = &self.spans[i];
            let ghost style = span.style;
            let text = span.content.as_str();
            proof {
                assert(spans.take(i + 1).drop_last() =~= spans.take(i as int));
                assert(spans.take(i + 1).last() == spans[i as int]);
                crate::line::lemma_total_len_of_prefix(crate::line::span_views(spans), i + 1);
                assert(crate::line::span_views(spans.take(i + 1)) =~= crate::line::span_views(
                    spans,
                ).take(i + 1));
                lemma_styled_bytes_of_spans(spans.take(i + 1));
                crate::line::lemma_flat_len(crate::line::span_views(spans.take(i + 1)));
                assert(before + in_style(text@.take(0), style) =~= before);
            }
            let ghost whole = before + in_style(text@, style);
            for c in it: text.chars()
                invariant
                    it.seq() == text@,
                    whole == before + in_style(text@, style),
                    styled_bytes(whole).len() <= usize::MAX,
                    offset == styled_bytes(before + in_style(text@.take(it.index() as int), style)).len(),
                    found_all(found@, places, before + in_style(text@.take(it.index() as int), style)),
            {
                let ghost n = it.index() as int;
                let ghost so_far = before + in_style(text@.take(n), style);
                assert(text@[n] == c);
                proof {
                    assert(so_far.push((c, style)) =~= before + in_style(text@.take(n + 1), style));
                    lemma_found_one_more(found@, places, so_far, c, style, offset);
                    assert(so_far.push((c, style)).drop_last() =~= so_far);
                    assert(whole =~= so_far.push((c, style)) + in_style(text@.skip(n + 1), style));
                    lemma_styled_bytes_concat(
                        so_far.push((c, style)),
                        in_style(text@.skip(n + 1), style),
                    );
                }
                let mut one = String::new();
                one.push(c);
                assert(one@ =~= seq![c]);
                if is_unsavory(c) {
                    found.push(Found { offset, c });
                    proof {
                        places = places.push(so_far.len() as int);
                    }
                }
                offset = offset + byte_len(one.as_str());
            }
            assert(text@.take(text@.len() as int) =~= text@);
            i += 1;
        }
        assert(spans.take(i as int) =~= spans);
        (found, Ghost(places))
    }
}


/// The state of a line in which the characters before `k` are already shown.
spec fn progress(chars: Seq<(char, Style)>, k: int, replace: bool) -> Seq<(u8, Style)> {
    styled_bytes(all_shown(chars.take(k), replace)) + styled_bytes(chars.skip(k))
}

proof fn lemma_progress_over_clean(chars: Seq<(char, Style)>, k: int, l: int, replace: bool)
    requires
        0 <= k <= l <= chars.len(),
        forall|j: int| k <= j < l ==> !unsavory((#[trigger] chars[j]).0),
    ensures
        progress(chars, k, replace) == progress(chars, l, replace),
        styled_bytes(all_shown(chars.take(l), replace)).len() - styled_bytes(chars.take(l)).len()
            == styled_bytes(all_shown(chars.take(k), replace)).len() - styled_bytes(
            chars.take(k),
        ).len(),
{
    let mid = chars.subrange(k, l);
    assert(chars.take(l) =~= chars.take(k) + mid);
    assert(chars.skip(k) =~= mid + chars.skip(l));
    assert forall|i: int| 0 <= i < mid.len() implies !unsavory((#[trigger] mid[i]).0) by {
        assert(mid[i] == chars[k + i]);
    }
    lemma_clean_is_shown_as_is(mid, replace);
    lemma_all_shown_concat(chars.take(k), mid, replace);
    lemma_styled_bytes_concat(all_shown(chars.take(k), replace), mid);
    lemma_styled_bytes_concat(mid, chars.skip(l));
    lemma_styled_bytes_concat(chars.take(k), mid);
    assert(progress(chars, k, replace) =~= progress(chars, l, replace));
}

proof fn lemma_progress_len(chars: Seq<(char, Style)>, k: int, replace: bool)
    requires
        0 <= k <= chars.len(),
    ensures
        progress(chars, k, replace).len() <= 4 * styled_bytes(chars).len(),
        styled_bytes(all_shown(chars.take(k), replace)).len() + styled_bytes(chars.skip(k)).len()
            <= 4 * styled_bytes(chars).len(),
        styled_bytes(chars.take(k)).len() <= styled_bytes(chars).len(),
{
    lemma_all_shown_len(chars.take(k), replace);
    assert(chars.take(k) + chars.skip(k) =~= chars);
    lemma_styled_bytes_concat(chars.take(k), chars.skip(k));
}

impl Line {
    /// Puts the replacement of `c` in at an edge, and returns where it ends.
    ///
    /// `head` and `tail` are what stands before and after the edge.
    fn insert_replacement(
        &mut self,
        at: usize,
        c: char,
        replace: bool,
        Ghost(head): Ghost<Seq<(u8, Style)>>,
        Ghost(tail): Ghost<Seq<(u8, Style)>>,
    ) -> (end: usize)
        requires
            unsavory(c),
            old(self)@.spans.len() > 0,
            has_edge(old(self)@.spans, at as int),
            crate::line::flat(old(self)@.spans) == head + tail,
            head.len() == at,
            tail.len() > 0 ==> !is_continuation_byte(tail[0].0),
            head.len() + 4 * encode_utf8(seq![c]).len() + tail.len() <= usize::MAX,
        ensures
            crate::line::flat(final(self)@.spans) == head + styled_bytes(
                in_style(replacement(c, replace), dimmed()),
            ) + tail,
            end == head.len() + styled_bytes(in_style(replacement(c, replace), dimmed())).len(),
            final(self)@.spans.len() > 0,
            final(self).style == old(self).style,
            final(self).alignment == old(self).alignment,
    {
        let ghost style = dimmed();
        proof {
            lemma_char_bytes((c, style));
            crate::line::lemma_flat_len(self@.spans);
            assert((head + tail).take(at as int) =~= head);
            assert((head + tail).skip(at as int) =~= tail);
        }
        if c == '\t' || (replace && (c == '\n' || c == '\r')) {
            let letter = if c == '\t' {
                't'
            } else if c == '\n' {
                'n'
            } else {
                'r'
            };
            let content = two_chars('\\', letter);
            proof {
                assert(content@ == replacement(c, replace));
                assert(is_ascii_chars(content@));
                is_ascii_chars_encode_utf8(content@);
                lemma_styled_bytes_of_span(content@, style);
            }
            let end: usize = self.insert_shown(at, content);
            assert(crate::line::flat(self@.spans) =~= head + styled_bytes(
                in_style(replacement(c, replace), style),
            ) + tail);
            end
        } else if !replace {
            assert(in_style(replacement(c, replace), style) =~= Seq::<(char, Style)>::empty());
            assert(crate::line::flat(self@.spans) =~= head + styled_bytes(
                in_style(replacement(c, replace), style),
            ) + tail);
            at
        } else {
            let mut encoded = String::new();
            encoded.push(c);
            assert(encoded@ =~= seq![c]);
            let bytes = encoded.as_str().as_bytes();
            let mut end: usize = at;
            let mut i: usize = 0;
            proof {
                assert(hex_escapes(bytes@.take(0)) =~= Seq::<char>::empty());
                assert(in_style(hex_escapes(bytes@.take(0)), style) =~= Seq::<
                    (char, Style),
                >::empty());
                assert(crate::line::flat(self@.spans) =~= head + styled_bytes(
                    in_style(hex_escapes(bytes@.take(0)), style),
                ) + tail);
            }
            while i < bytes.len()
                invariant
                    style == dimmed(),
                    bytes@ == encode_utf8(seq![c]),
                    i <= bytes.len(),
                    head.len() + 4 * bytes@.len() + tail.len() <= usize::MAX,
                    tail.len() > 0 ==> !is_continuation_byte(tail[0].0),
                    self@.spans.len() > 0,
                    self.style == old(self).style,
                    self.alignment == old(self).alignment,
                    has_edge(self@.spans, end as int),
                    crate::line::flat(self@.spans) == head + styled_bytes(
                        in_style(hex_escapes(bytes@.take(i as int)), style),
                    ) + tail,
                    end == head.len() + 4 * i,
                decreases bytes.len() - i,
            {
                let ghost so_far = styled_bytes(
                    in_style(hex_escapes(bytes@.take(i as int)), style),
                );
                let b: u8 = bytes[i];
                let prefix = two_chars('\\', 'x');
                let hex = hex_pair(b);
                proof {
                    let esc = hex_escapes(bytes@.take(i as int));
                    lemma_hex_escapes_len(bytes@.take(i as int));
                    lemma_ascii_in_style(esc, style);
                    assert(is_ascii_chars(prefix@));
                    assert((b / 16) < 16 && (b % 16) < 16);
                    assert(is_ascii_chars(hex@)) by {
                        assert forall|j: int| 0 <= j < hex@.len() implies 0 <= (
                        #[trigger] hex@[j]) as nat && (hex@[j] as nat) < 128 by {}
                    }
                    is_ascii_chars_encode_utf8(prefix@);
                    is_ascii_chars_encode_utf8(hex@);
                    crate::line::lemma_flat_len(self@.spans);
                    assert((head + so_far + tail).take(end as int) =~= head + so_far);
                    assert((head + so_far + tail).skip(end as int) =~= tail);
                    lemma_styled_bytes_of_span(prefix@, style);
                    lemma_styled_bytes_of_span(hex@, style);
                    assert(bytes@.take(i + 1).drop_last() =~= bytes@.take(i as int));
                    assert(hex_escapes(bytes@.take(i + 1)) =~= esc + prefix@ + hex@);
                    assert(in_style(hex_escapes(bytes@.take(i + 1)), style) =~= in_style(esc, style)
                        + in_style(prefix@, style) + in_style(hex@, style));
                    lemma_styled_bytes_concat(
                        in_style(esc, style) + in_style(prefix@, style),
                        in_style(hex@, style),
                    );
                    lemma_styled_bytes_concat(in_style(esc, style), in_style(prefix@, style));
                }
                let ghost p = crate::line::flat_span(crate::line::span_of(prefix@, style));
                let ghost h = crate::line::flat_span(crate::line::span_of(hex@, style));
                let middle: usize = self.insert_shown(end, prefix);
                proof {
                    assert(crate::line::flat(self@.spans) =~= head + so_far + p + tail);
                    crate::line::lemma_flat_len(self@.spans);
                    assert((head + so_far + p + tail).take(middle as int) =~= head + so_far + p);
                    assert((head + so_far + p + tail).skip(middle as int) =~= tail);
                }
                end = self.insert_shown(middle, hex);
                i += 1;
                proof {
                    assert(crate::line::flat(self@.spans) =~= head + styled_bytes(
                        in_style(hex_escapes(bytes@.take(i as int)), style),
                    ) + tail);
                }
            }
            proof {
                assert(bytes@.take(i as int) =~= bytes@);
                lemma_hex_escapes_len(bytes@);
                lemma_ascii_in_style(hex_escapes(bytes@), style);
            }
            end
        }
    }
}

/// Helpers on whole lines.
pub trait LineHelpers: Sized {
    /// Whether the line is short enough for its characters to be spelled out.
    spec fn can_grow(&self) -> bool;

    /// Takes all control characters out of the line and shows tabs, and on
    /// request every other one, by an escape in their place.
    fn remove_unsavory_chars(&mut self, replace: bool)
        requires
            old(self).can_grow(),
    ;

    /// Whether the line has no spans, or only empty ones.
    fn is_empty(&self) -> bool;

    /// Gives all spans one style.
    fn style_all_spans(&mut self, new_style: Style);

    /// The line with all its spans in one style.
    fn all_spans_styled(self, new_style: Style) -> Self;

    /// A copy of the line.
    fn new_owned(&self) -> Self;

    /// Copies of the line's spans.
    fn borrowed_spans(&self) -> Vec<Span>;

    /// Whether the line or any of its spans has a style.
    fn is_styled(&self) -> bool;

    /// The line with that many spaces on both sides.
    fn spaced(self, both_sides_padding: usize) -> Self;

    /// The line with that many spaces before it.
    fn spaced_l(self, left_padding: usize) -> Self;

    /// The line with that many spaces after it.
    fn spaced_r(self, right_padding: usize) -> Self;
}

/// A number of spans that hold one space each.
pub open spec fn space_spans(n: nat) -> Seq<SpanView> {
    Seq::new(n, |i: int| crate::line::span_of(seq![' '], Style::plain()))
}

fn space() -> (s: Span)
    ensures
        s@ == crate::line::span_of(seq![' '], Style::plain()),
{
    let mut text = String::new();
    text.push(' ');
    assert(text@ =~= seq![' ']);
    Span::raw(text)
}

impl LineHelpers for Line {
    open spec fn can_grow(&self) -> bool {
        4 * crate::line::total_len(self@.spans) <= usize::MAX
    }

    #[verifier::rlimit(60)]
    fn remove_unsavory_chars(&mut self, replace: bool)
        ensures
            crate::line::flat(final(self)@.spans) == styled_bytes(
                all_shown(styled_chars(old(self).spans@), replace),
            ),
            final(self).style == old(self).style,
            final(self).alignment == old(self).alignment,
    {
        let ghost chars = styled_chars(self.spans@);
        proof {
            lemma_styled_bytes_of_spans(self.spans@);
            crate::line::lemma_flat_len(self@.spans);
        }
        let (found, Ghost(places)) = self.find_unsavory();
        let mut added: usize = 0;
        let mut removed: usize = 0;
        let mut k: usize = 0;
        let ghost mut done: int = 0;
        proof {
            assert(chars.take(0) =~= Seq::<(char, Style)>::empty());
            assert(chars.skip(0) =~= chars);
            assert(progress(chars, 0, replace) =~= styled_bytes(chars));
        }
        while k < found.len()
            invariant
                chars == styled_chars(old(self).spans@),
                found_all(found@, places, chars),
                4 * styled_bytes(chars).len() <= usize::MAX,
                k <= found.len(),
                done == (if k == 0 {
                    0
                } else {
                    places[k - 1] + 1
                }),
                0 <= done <= chars.len(),
                crate::line::flat(self@.spans) == progress(chars, done, replace),
                added - removed == styled_bytes(all_shown(chars.take(done), replace)).len()
                    - styled_bytes(chars.take(done)).len(),
                added <= 4 * styled_bytes(chars.take(done)).len(),
                removed <= styled_bytes(chars.take(done)).len(),
                self.style == old(self).style,
                self.alignment == old(self).alignment,
            decreases found.len() - k,
        {
            let c = found[k].c;
            let ghost place = places[k as int];
            proof {
                assert(k > 0 ==> places[k - 1] < places[k as int]);
                assert forall|j: int| done <= j < place implies !unsavory((#[trigger] chars[j]).0) by {
                    if unsavory(chars[j].0) {
                        assert(places.contains(j));
                        let l = choose|l: int| 0 <= l < places.len() && places[l] == j;
                        if l < k {
                            assert(l <= k - 1);
                            assert(l < k - 1 ==> places[l] < places[k - 1]);
                        } else if l > k {
                            assert(places[k as int] < places[l]);
                        }
                        assert(false);
                    }
                }
                lemma_progress_over_clean(chars, done, place, replace);
                lemma_progress_len(chars, place, replace);
                lemma_progress_len(chars, done, replace);
                assert(chars.take(place).take(done) =~= chars.take(done));
                lemma_progress_len(chars.take(place), done, replace);
            }
            let ghost head = styled_bytes(all_shown(chars.take(place), replace));
            let ghost tail = styled_bytes(chars.skip(place + 1));
            let ghost styled = chars[place];
            let mut one = String::new();
            one.push(c);
            assert(one@ =~= seq![c]);
            let char_len: usize = byte_len(one.as_str());
            proof {
                lemma_char_bytes(styled);
                assert(char_bytes(styled).len() == char_len);
                assert(seq![styled] + chars.skip(place + 1) =~= chars.skip(place));
                lemma_styled_bytes_concat(seq![styled], chars.skip(place + 1));
                lemma_styled_bytes_one(styled);
                assert(chars.take(place + 1).drop_last() =~= chars.take(place));
                lemma_progress_len(chars, place + 1, replace);
                lemma_all_shown_len(chars.take(place), replace);
                assert(chars.take(place) + chars.skip(place) =~= chars);
                lemma_styled_bytes_concat(chars.take(place), chars.skip(place));
                lemma_styled_bytes_start(chars.skip(place + 1));
                crate::line::lemma_flat_len(self@.spans);
                assert(crate::line::flat(self@.spans) == head + (char_bytes(styled) + tail));
            }
            let corrected: usize = found[k].offset - removed + added;
            assert(corrected == head.len());
            proof {
                let range = (corrected as int, corrected + char_len);
                assert(self@.spans.len() > 0);
                lemma_removal_here(self@.spans, head, char_bytes(styled), tail);
                lemma_edge_after_removal(self@.spans, range.0, range.1);
            }
            self.remove_slice(corrected..corrected + char_len);
            assert(crate::line::flat(self@.spans) == head + tail);
            let end: usize = self.insert_replacement(
                corrected,
                c,
                replace,
                Ghost(head),
                Ghost(tail),
            );
            let replacement_len: usize = end - corrected;
            proof {
                lemma_replacement_len(styled, replace);
                assert(in_style(replacement(c, replace), dimmed()) == shown(styled, replace));
                assert(all_shown(chars.take(place + 1), replace) == all_shown(
                    chars.take(place),
                    replace,
                ) + shown(styled, replace));
                lemma_styled_bytes_concat(
                    all_shown(chars.take(place), replace),
                    shown(styled, replace),
                );
                assert(crate::line::flat(self@.spans) =~= progress(chars, place + 1, replace));
            }
            added += replacement_len;
            removed += char_len;
            k += 1;
            proof {
                done = place + 1;
            }
        }
        proof {
            assert forall|j: int| done <= j < chars.len() implies !unsavory(
                (#[trigger] chars[j]).0,
            ) by {
                if unsavory(chars[j].0) {
                    assert(places.contains(j));
                    let l = choose|l: int| 0 <= l < places.len() && places[l] == j;
                    assert(l < k - 1 ==> places[l] < places[k - 1]);
                    assert(false);
                }
            }
            lemma_progress_over_clean(chars, done, chars.len() as int, replace);
            assert(chars.take(chars.len() as int) =~= chars);
            assert(chars.skip(chars.len() as int).len() == 0);
            assert(progress(chars, chars.len() as int, replace) =~= styled_bytes(
                all_shown(chars, replace),
            ));
        }
    }

    fn is_empty(&self) -> (r: bool)
        ensures
            r == (crate::line::flat(self@.spans).len() == 0),
    {
        let mut i: usize = 0;
        let ghost views = self@.spans;
        assert(views.take(0).len() == 0);
        while i < self.spans.len()
            invariant
                views == self@.spans,
                views.len() == self.spans.len(),
                i <= views.len(),
                crate::line::total_len(views.take(i as int)) == 0,
            decreases views.len() - i,
        {
            proof {
                crate::line::lemma_total_len_of_prefix(views, i as int);
                crate::line::lemma_total_len_of_prefix(views, i + 1);
                crate::line::lemma_flat_len(views);
                assert(views[i as int] == self.spans@[i as int]@);
            }
            if byte_len(self.spans[i].content.as_str()) != 0 {
                return false;
            }
            i += 1;
        }
        proof {
            assert(views.take(i as int) =~= views);
            crate::line::lemma_flat_len(views);
        }
        true
    }

    fn style_all_spans(&mut self, new_style: Style)
        ensures
            final(self)@ == (LineView {
                spans: old(self)@.spans.map_values(
                    |s: SpanView| SpanView { style: new_style, ..s },
                ),
                ..old(self)@
            }),
    {
        let mut styled: Vec<Span> = Vec::new();
        let mut i: usize = 0;
        while i < self.spans.len()
            invariant
                i <= self.spans.len(),
                self@ == old(self)@,
                crate::line::span_views(styled@) =~= self@.spans.take(i as int).map_values(
                    |s: SpanView| SpanView { style: new_style, ..s },
                ),
            decreases self.spans.len() - i,
        {
            let span = Span::styled(self.spans[i].content.clone(), new_style);
            proof {
                crate::line::lemma_views_of_push(styled@, span);
                assert(span@ == SpanView { style: new_style, ..self@.spans[i as int] });
            }
            styled.push(span);
            i += 1;
        }
        assert(self@.spans.take(i as int) =~= self@.spans);
        self.spans = styled;
    }

    fn all_spans_styled(self, new_style: Style) -> (r: Line)
        ensures
            r@ == (LineView {
                spans: self@.spans.map_values(|s: SpanView| SpanView { style: new_style, ..s }),
                ..self@
            }),
    {
        let mut line = self;
        line.style_all_spans(new_style);
        line
    }

    fn new_owned(&self) -> (r: Line)
        ensures
            r@ == self@,
            r.spans@ == self.spans@,
    {
        Line { spans: self.borrowed_spans(), style: self.style, alignment: self.alignment }
    }

    fn borrowed_spans(&self) -> (r: Vec<Span>)
        ensures
            r@ == self.spans@,
    {
        let mut spans: Vec<Span> = Vec::new();
        let mut i: usize = 0;
        while i < self.spans.len()
            invariant
                i <= self.spans.len(),
                spans@ =~= self.spans@.take(i as int),
            decreases self.spans.len() - i,
        {
            spans.push(self.spans[i].duplicate());
            i += 1;
        }
        spans
    }

    fn is_styled(&self) -> (r: bool)
        ensures
            r == (self@.style != Style::plain() || exists|i: int|
                0 <= i < self@.spans.len() && (#[trigger] self@.spans[i]).style != Style::plain()),
    {
        if self.style != Style::new() {
            return true;
        }
        let mut i: usize = 0;
        while i < self.spans.len()
            invariant
                i <= self.spans.len(),
                forall|j: int| 0 <= j < i ==> (#[trigger] self@.spans[j]).style == Style::plain(),
            decreases self.spans.len() - i,
        {
            if self.spans[i].style != Style::new() {
                assert(self@.spans[i as int].style != Style::plain());
                return true;
            }
            i += 1;
        }
        false
    }

    fn spaced(self, both_sides_padding: usize) -> (r: Line)
        ensures
            r@ == (LineView {
                spans: space_spans(both_sides_padding as nat) + self@.spans + space_spans(
                    both_sides_padding as nat,
                ),
                ..self@
            }),
    {
        self.spaced_l(both_sides_padding).spaced_r(both_sides_padding)
    }

    fn spaced_l(self, left_padding: usize) -> (r: Line)
        ensures
            r@ == (LineView { spans: space_spans(left_padding as nat) + self@.spans, ..self@ }),
    {
        let mut spans: Vec<Span> = Vec::new();
        let mut i: usize = 0;
        while i < left_padding
            invariant
                i <= left_padding,
                crate::line::span_views(spans@) =~= space_spans(i as nat),
            decreases left_padding - i,
        {
            let span = space();
            proof {
                crate::line::lemma_views_of_push(spans@, span);
            }
            spans.push(span);
            i += 1;
        }
        let mut line = self;
        let ghost pad = spans@;
        spans.append(&mut line.spans);
        line.spans = spans;
        assert(line@.spans =~= crate::line::span_views(pad) + self@.spans);
        line
    }

    fn spaced_r(self, right_padding: usize) -> (r: Line)
        ensures
            r@ == (LineView { spans: self@.spans + space_spans(right_padding as nat), ..self@ }),
    {
        let mut line = self;
        let mut i: usize = 0;
        while i < right_padding
            invariant
                i <= right_padding,
                line.style == self.style,
                line.alignment == self.alignment,
                line@.spans =~= self@.spans + space_spans(i as nat),
            decreases right_padding - i,
        {
            let span = space();
            proof {
                crate::line::lemma_views_of_push(line.spans@, span);
            }
            line.spans.push(span);
            i += 1;
        }
        line
    }
}

/// Taking out the middle of a line whose parts are known, at a place where it
/// can be cut.
proof fn lemma_removal_here(
    spans: Seq<SpanView>,
    head: Seq<(u8, Style)>,
    mid: Seq<(u8, Style)>,
    tail: Seq<(u8, Style)>,
)
    requires
        crate::line::flat(spans) == head + (mid + tail),
        mid.len() > 0,
        !is_continuation_byte(mid[0].0),
        tail.len() > 0 ==> !is_continuation_byte(tail[0].0),
    ensures
        crate::line_edit::can_cut(spans, head.len() as int),
        crate::line_edit::can_cut(spans, (head.len() + mid.len()) as int),
        crate::line::flat(
            crate::line_edit::edited(
                Edit::Remove,
                spans,
                (head.len() as int, (head.len() + mid.len()) as int),
            ),
        ) == head + tail,
        head.len() <= crate::line::total_len(spans),
{
    let range = (head.len() as int, (head.len() + mid.len()) as int);
    crate::line::lemma_flat_len(spans);
    crate::line_edit::law_edit_acts_on_the_range(Edit::Remove, spans, range);
    assert(crate::line_edit::flat_removed(head + (mid + tail), range) =~= head + tail);
}

/// Nothing that a terminal would act on is left in a cleaned line.
pub proof fn law_cleaned_has_no_control_characters(chars: Seq<(char, Style)>, replace: bool)
    ensures
        forall|i: int|
            0 <= i < all_shown(chars, replace).len() ==> !unsavory(
                (#[trigger] all_shown(chars, replace)[i]).0,
            ),
    decreases chars.len(),
{
    if chars.len() > 0 {
        law_cleaned_has_no_control_characters(chars.drop_last(), replace);
        let done = all_shown(chars.drop_last(), replace);
        let last = shown(chars.last(), replace);
        let c = chars.last().0;
        assert forall|i: int| 0 <= i < last.len() implies !unsavory((#[trigger] last[i]).0) by {
            if unsavory(c) {
                lemma_replacement_is_clean(c, replace);
                assert(last[i].0 == replacement(c, replace)[i]);
            }
        }
        assert forall|i: int| 0 <= i < all_shown(chars, replace).len() implies !unsavory(
            (#[trigger] all_shown(chars, replace)[i]).0,
        ) by {
            if i >= done.len() {
                assert(all_shown(chars, replace)[i] == last[i - done.len()]);
            }
        }
    }
}

proof fn lemma_replacement_is_clean(c: char, replace: bool)
    ensures
        forall|i: int|
            0 <= i < replacement(c, replace).len() ==> !unsavory(
                #[trigger] replacement(c, replace)[i],
            ),
{
    lemma_hex_escapes_are_clean(encode_utf8(seq![c]));
}

proof fn lemma_hex_escapes_are_clean(bytes: Seq<u8>)
    ensures
        forall|i: int|
            0 <= i < hex_escapes(bytes).len() ==> !unsavory(#[trigger] hex_escapes(bytes)[i]),
    decreases bytes.len(),
{
    if bytes.len() > 0 {
        lemma_hex_escapes_are_clean(bytes.drop_last());
        let done = hex_escapes(bytes.drop_last());
        let d1 = (bytes.last() / 16) as nat;
        let d2 = (bytes.last() % 16) as nat;
        assert(d1 < 16 && d2 < 16);
        let last = seq!['\\', 'x', crate::text::digit(d1), crate::text::digit(d2)];
        assert forall|i: int| 0 <= i < hex_escapes(bytes).len() implies !unsavory(
            #[trigger] hex_escapes(bytes)[i],
        ) by {
            if i >= done.len() {
                assert(hex_escapes(bytes)[i] == last[i - done.len()]);
            } else {
                assert(hex_escapes(bytes)[i] == done[i]);
            }
        }
    }
}

} // verus!
