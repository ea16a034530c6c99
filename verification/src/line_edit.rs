//! Editing a styled line by byte offsets.

use std::ops::Range;

use vstd::prelude::*;
use vstd::string::*;
use vstd::utf8::*;

use crate::line::{Line, LineView, Span, SpanView, Style};
use crate::text::{byte_len, byte_slice};

verus! {

/// The overlap of two half-open ranges of offsets, if they have any offset in common.
pub open spec fn overlap(a: (int, int), b: (int, int)) -> Option<(int, int)> {
    let start = if a.0 >= b.0 {
        a.0
    } else {
        b.0
    };
    let end = if a.1 <= b.1 {
        a.1
    } else {
        b.1
    };
    if start < end {
        Some((start, end))
    } else {
        None
    }
}

/// Computes the overlap of two half-open ranges of offsets.
pub fn overlap_region(a: (usize, usize), b: (usize, usize)) -> (r: (Option<usize>, Option<usize>))
    ensures
        match overlap((a.0 as int, a.1 as int), (b.0 as int, b.1 as int)) {
            Some((start, end)) => r == (Some(start as usize), Some(end as usize)),
            None => r == (None::<usize>, None::<usize>),
        },
{
    let (a_start, a_end) = a;
    let (b_start, b_end) = b;
    let overlap_start: usize = if a_start >= b_start {
        a_start
    } else {
        b_start
    };
    let overlap_end: usize = if a_end <= b_end {
        a_end
    } else {
        b_end
    };
    if overlap_start < overlap_end {
        (Some(overlap_start), Some(overlap_end))
    } else {
        (None, None)
    }
}

/// Splits a text into what stands before, inside and after a range of byte offsets.
///
/// Both ends of the range lie on character boundaries.
pub fn split_span_content(content: &str, range: Range<usize>) -> (r: (&str, &str, &str))
    requires
        range.start <= range.end <= content.spec_bytes().len(),
        is_char_boundary(content.spec_bytes(), range.start as int),
        is_char_boundary(content.spec_bytes(), range.end as int),
    ensures
        r.0.spec_bytes() == content.spec_bytes().take(range.start as int),
        r.1.spec_bytes() == content.spec_bytes().subrange(range.start as int, range.end as int),
        r.2.spec_bytes() == content.spec_bytes().skip(range.end as int),
{
    let len: usize = byte_len(content);
    proof {
        encode_utf8_valid_utf8(content@);
        is_char_boundary_start_end_of_seq(content.spec_bytes());
    }
    let pre = byte_slice(content, 0, range.start);
    let mid = byte_slice(content, range.start, range.end);
    let post = byte_slice(content, range.end, len);
    (pre, mid, post)
}

/// A span, or nothing if it would be empty.
pub open spec fn kept(bytes: Seq<u8>, style: Style) -> Seq<SpanView> {
    if bytes.len() == 0 {
        Seq::empty()
    } else {
        seq![SpanView { bytes, style }]
    }
}

/// What an edit of a range does to the part of a span that lies in the range.
#[derive(Clone, Copy, Debug, PartialEq, Eq, Structural)]
pub enum Edit {
    Restyle(Style),
    Censor(Option<Style>),
    Remove,
}

/// What becomes of `covered`, the covered part of a span in `style`.
pub open spec fn edited_part(edit: Edit, covered: Seq<u8>, style: Style) -> Seq<SpanView> {
    match edit {
        Edit::Restyle(over) => seq![SpanView { bytes: covered, style: style.patched(over) }],
        Edit::Censor(over) => Seq::new(
            covered.len(),
            |i: int|
                SpanView {
                    bytes: seq![0x2au8],
                    style: match over {
                        Some(s) => s,
                        None => style,
                    },
                },
        ),
        Edit::Remove => Seq::empty(),
    }
}

/// What becomes of a span that starts at offset `start` of its line.
///
/// The parts before and after the range stay as they are. A span that would
/// vanish altogether stays behind empty.
pub open spec fn edited_span(edit: Edit, span: SpanView, start: int, range: (int, int)) -> Seq<
    SpanView,
> {
    match overlap((start, start + span.bytes.len()), range) {
        None => seq![span],
        Some((from, to)) => {
            let pre = span.bytes.take(from - start);
            let mid = span.bytes.subrange(from - start, to - start);
            let post = span.bytes.skip(to - start);
            if edit is Remove && pre.len() == 0 && post.len() == 0 {
                seq![SpanView { bytes: Seq::empty(), style: span.style }]
            } else {
                kept(pre, span.style) + edited_part(edit, mid, span.style) + kept(post, span.style)
            }
        },
    }
}

/// The spans of a line after an edit of a range of its bytes.
pub open spec fn edited(edit: Edit, spans: Seq<SpanView>, range: (int, int)) -> Seq<SpanView>
    decreases spans.len(),
{
    if spans.len() == 0 {
        Seq::empty()
    } else {
        edited(edit, spans.drop_last(), range) + edited_span(
            edit,
            spans.last(),
            crate::line::total_len(spans.drop_last()) as int,
            range,
        )
    }
}

/// Whether a line can be cut at an offset: no character spans it.
pub open spec fn can_cut(spans: Seq<SpanView>, at: int) -> bool {
    at < 0 || at >= crate::line::flat(spans).len() || !is_continuation_byte(
        crate::line::flat(spans)[at].0,
    )
}

/// The first span that reaches the offset `index`.
pub open spec fn span_reaching(spans: Seq<SpanView>, index: int) -> int
    decreases spans.len(),
{
    if spans.len() == 0 {
        0
    } else if crate::line::total_len(spans.drop_last()) >= index && spans.len() > 1 {
        span_reaching(spans.drop_last(), index)
    } else {
        spans.len() - 1
    }
}

/// The spans of a line after `content` was put in at offset `index`.
///
/// At the end of a span the content follows that span; at the very start it
/// comes first. Within a span, the span is split around the content, and the
/// span after it gives way.
pub open spec fn inserted(
    spans: Seq<SpanView>,
    index: int,
    content: Seq<u8>,
    style: Option<Style>,
) -> Seq<SpanView> {
    let at = span_reaching(spans, index);
    let before = crate::line::total_len(spans.take(at)) as int;
    let here = spans[at];
    let own = match style {
        Some(s) => s,
        None => here.style,
    };
    if before + here.bytes.len() == index {
        spans.insert(at + 1, SpanView { bytes: content, style: own })
    } else if before == index {
        spans.insert(
            at,
            SpanView {
                bytes: content,
                style: match style {
                    Some(s) => s,
                    None => Style::plain(),
                },
            },
        )
    } else {
        let rest = if at + 2 <= spans.len() {
            spans.skip(at + 2)
        } else {
            Seq::empty()
        };
        spans.take(at) + seq![
            SpanView { bytes: here.bytes.take(index - before), style: here.style },
            SpanView { bytes: content, style: own },
            SpanView { bytes: here.bytes.skip(index - before), style: here.style },
        ] + rest
    }
}

/// Whether an insertion at `index` splits a span that another one follows.
pub open spec fn displaces_next(spans: Seq<SpanView>, index: int) -> bool {
    let at = span_reaching(spans, index);
    let before = crate::line::total_len(spans.take(at)) as int;
    before < index < before + spans[at].bytes.len() && at + 1 < spans.len()
}

/// The style of an inserted piece that is given none of its own.
pub open spec fn style_at(spans: Seq<SpanView>, index: int) -> Style {
    let at = span_reaching(spans, index);
    if crate::line::total_len(spans.take(at)) == index && spans[at].bytes.len() > 0 {
        Style::plain()
    } else {
        spans[at].style
    }
}

/// The bytes of `edit` applied to a line seen byte by byte.
pub open spec fn flat_restyled(
    bytes: Seq<(u8, Style)>,
    range: (int, int),
    over: Style,
) -> Seq<(u8, Style)> {
    Seq::new(
        bytes.len(),
        |i: int|
            if range.0 <= i < range.1 {
                (bytes[i].0, bytes[i].1.patched(over))
            } else {
                bytes[i]
            },
    )
}

/// A line seen byte by byte, with a range of it blotted out by asterisks.
pub open spec fn flat_censored(
    bytes: Seq<(u8, Style)>,
    range: (int, int),
    over: Option<Style>,
) -> Seq<(u8, Style)> {
    Seq::new(
        bytes.len(),
        |i: int|
            if range.0 <= i < range.1 {
                (
                    0x2au8,
                    match over {
                        Some(s) => s,
                        None => bytes[i].1,
                    },
                )
            } else {
                bytes[i]
            },
    )
}

/// `i`, brought into `0..=len`.
pub open spec fn clipped(i: int, len: int) -> int {
    if i < 0 {
        0
    } else if i > len {
        len
    } else {
        i
    }
}

/// A line seen byte by byte, without a range of it.
pub open spec fn flat_removed(bytes: Seq<(u8, Style)>, range: (int, int)) -> Seq<(u8, Style)> {
    if range.0 < range.1 {
        bytes.take(clipped(range.0, bytes.len() as int)) + bytes.skip(
            clipped(range.1, bytes.len() as int),
        )
    } else {
        bytes
    }
}

/// What an edit does to a line seen byte by byte.
pub open spec fn flat_edited(edit: Edit, bytes: Seq<(u8, Style)>, range: (int, int)) -> Seq<
    (u8, Style),
> {
    match edit {
        Edit::Restyle(over) => flat_restyled(bytes, range, over),
        Edit::Censor(over) => flat_censored(bytes, range, over),
        Edit::Remove => flat_removed(bytes, range),
    }
}

proof fn lemma_flat_kept(bytes: Seq<u8>, style: Style)
    ensures
        crate::line::flat(kept(bytes, style)) == crate::line::flat_span(SpanView { bytes, style }),
{
    if bytes.len() == 0 {
        assert(crate::line::flat_span(SpanView { bytes, style }) =~= Seq::<(u8, Style)>::empty());
    } else {
        crate::line::lemma_flat_one(SpanView { bytes, style });
    }
}

proof fn lemma_flat_asterisks(n: nat, style: Style)
    ensures
        crate::line::flat(Seq::new(n, |i: int| SpanView { bytes: seq![0x2au8], style }))
            =~= Seq::new(n, |i: int| (0x2au8, style)),
    decreases n,
{
    let all = Seq::new(n, |i: int| SpanView { bytes: seq![0x2au8], style });
    if n > 0 {
        let m = (n - 1) as nat;
        lemma_flat_asterisks(m, style);
        assert(all.drop_last() =~= Seq::new(m, |i: int| SpanView { bytes: seq![0x2au8], style }));
        assert(all.last() == SpanView { bytes: seq![0x2au8], style });
    }
}

proof fn lemma_flat_part(edit: Edit, covered: Seq<u8>, style: Style)
    ensures
        crate::line::flat(edited_part(edit, covered, style)) =~= (match edit {
            Edit::Restyle(over) => Seq::new(
                covered.len(),
                |i: int| (covered[i], style.patched(over)),
            ),
            Edit::Censor(over) => Seq::new(
                covered.len(),
                |i: int|
                    (
                        0x2au8,
                        match over {
                            Some(s) => s,
                            None => style,
                        },
                    ),
            ),
            Edit::Remove => Seq::empty(),
        }),
{
    match edit {
        Edit::Restyle(over) => {
            crate::line::lemma_flat_one(SpanView { bytes: covered, style: style.patched(over) });
        },
        Edit::Censor(over) => {
            let s = match over {
                Some(s) => s,
                None => style,
            };
            lemma_flat_asterisks(covered.len(), s);
            assert(edited_part(edit, covered, style) =~= Seq::new(
                covered.len(),
                |i: int| SpanView { bytes: seq![0x2au8], style: s },
            ));
        },
        Edit::Remove => {},
    }
}

proof fn lemma_flat_edited_span(edit: Edit, span: SpanView, start: int, range: (int, int))
    requires
        start >= 0,
        range.0 >= 0,
    ensures
        crate::line::flat(edited_span(edit, span, start, range)) =~= flat_edited(
            edit,
            crate::line::flat_span(span),
            (range.0 - start, range.1 - start),
        ),
{
    let whole = crate::line::flat_span(span);
    match overlap((start, start + span.bytes.len()), range) {
        None => {
            crate::line::lemma_flat_one(span);
        },
        Some((from, to)) => {
            let pre = span.bytes.take(from - start);
            let mid = span.bytes.subrange(from - start, to - start);
            let post = span.bytes.skip(to - start);
            if edit is Remove && pre.len() == 0 && post.len() == 0 {
                crate::line::lemma_flat_one(SpanView { bytes: Seq::empty(), style: span.style });
            } else {
                lemma_flat_kept(pre, span.style);
                lemma_flat_kept(post, span.style);
                lemma_flat_part(edit, mid, span.style);
                crate::line::lemma_flat_concat(
                    kept(pre, span.style) + edited_part(edit, mid, span.style),
                    kept(post, span.style),
                );
                crate::line::lemma_flat_concat(kept(pre, span.style), edited_part(edit, mid, span.style));
            }
        },
    }
}

proof fn lemma_flat_edited_concat(
    edit: Edit,
    a: Seq<(u8, Style)>,
    b: Seq<(u8, Style)>,
    range: (int, int),
)
    requires
        range.0 >= 0,
    ensures
        flat_edited(edit, a + b, range) == flat_edited(edit, a, range) + flat_edited(
            edit,
            b,
            (range.0 - a.len(), range.1 - a.len()),
        ),
{
    let shifted = (range.0 - a.len(), range.1 - a.len());
    match edit {
        Edit::Restyle(over) => {
            assert(flat_restyled(a + b, range, over) =~= flat_restyled(a, range, over)
                + flat_restyled(b, shifted, over));
        },
        Edit::Censor(over) => {
            assert(flat_censored(a + b, range, over) =~= flat_censored(a, range, over)
                + flat_censored(b, shifted, over));
        },
        Edit::Remove => {
            assert(flat_removed(a + b, range) =~= flat_removed(a, range) + flat_removed(
                b,
                shifted,
            ));
        },
    }
}

/// An edit of the spans does to the line, seen byte by byte, what its name says:
/// styles change, bytes are blotted out, or bytes go, in the range and nowhere else.
pub proof fn law_edit_acts_on_the_range(edit: Edit, spans: Seq<SpanView>, range: (int, int))
    requires
        range.0 >= 0,
    ensures
        crate::line::flat(edited(edit, spans, range)) == flat_edited(
            edit,
            crate::line::flat(spans),
            range,
        ),
    decreases spans.len(),
{
    let all = crate::line::flat(spans);
    if spans.len() == 0 {
        assert(flat_edited(edit, all, range) =~= Seq::empty());
    } else {
        let init = spans.drop_last();
        let start = crate::line::total_len(init) as int;
        law_edit_acts_on_the_range(edit, init, range);
        crate::line::lemma_flat_len(init);
        lemma_flat_edited_span(edit, spans.last(), start, range);
        crate::line::lemma_flat_concat(
            edited(edit, init, range),
            edited_span(edit, spans.last(), start, range),
        );
        lemma_flat_edited_concat(
            edit,
            crate::line::flat(init),
            crate::line::flat_span(spans.last()),
            range,
        );
    }
}

/// Styling a range changes no text.
pub proof fn law_styling_keeps_the_text(spans: Seq<SpanView>, range: (int, int), over: Style)
    requires
        range.0 >= 0,
    ensures
        crate::line::flat(edited(Edit::Restyle(over), spans, range)).map_values(
            |b: (u8, Style)| b.0,
        ) == crate::line::flat(spans).map_values(|b: (u8, Style)| b.0),
{
    law_edit_acts_on_the_range(Edit::Restyle(over), spans, range);
    assert(crate::line::flat(edited(Edit::Restyle(over), spans, range)).map_values(
        |b: (u8, Style)| b.0,
    ) =~= crate::line::flat(spans).map_values(|b: (u8, Style)| b.0));
}

/// Censoring keeps the number of bytes, so that every offset stays valid.
pub proof fn law_censoring_keeps_the_length(
    spans: Seq<SpanView>,
    range: (int, int),
    over: Option<Style>,
)
    requires
        range.0 >= 0,
    ensures
        crate::line::total_len(edited(Edit::Censor(over), spans, range)) == crate::line::total_len(
            spans,
        ),
{
    law_edit_acts_on_the_range(Edit::Censor(over), spans, range);
    crate::line::lemma_flat_len(edited(Edit::Censor(over), spans, range));
    crate::line::lemma_flat_len(spans);
}

pub proof fn lemma_span_reaching(spans: Seq<SpanView>, index: int)
    requires
        spans.len() > 0,
        0 <= index <= crate::line::total_len(spans),
    ensures
        ({
            let at = span_reaching(spans, index);
            &&& 0 <= at < spans.len()
            &&& index <= crate::line::total_len(spans.take(at + 1))
            &&& at > 0 ==> crate::line::total_len(spans.take(at)) < index
            &&& crate::line::total_len(spans.take(at + 1)) == crate::line::total_len(
                spans.take(at),
            ) + spans[at].bytes.len()
        }),
    decreases spans.len(),
{
    let init = spans.drop_last();
    let at = span_reaching(spans, index);
    if crate::line::total_len(init) >= index && spans.len() > 1 {
        lemma_span_reaching(init, index);
        assert(init.take(at + 1) =~= spans.take(at + 1));
        assert(init.take(at) =~= spans.take(at));
    } else {
        assert(spans.take(at) =~= init);
        assert(spans.take(at + 1) =~= spans);
    }
    crate::line::lemma_total_len_of_prefix(spans, at);
}

/// An insertion that pushes nothing aside puts the content at its offset and
/// leaves every other byte, and every style, as it was.
pub proof fn law_insertion_acts_at_the_index(
    spans: Seq<SpanView>,
    index: int,
    content: Seq<u8>,
    style: Option<Style>,
)
    requires
        spans.len() > 0,
        0 <= index <= crate::line::total_len(spans),
        !displaces_next(spans, index),
    ensures
        crate::line::flat(inserted(spans, index, content, style)) == crate::line::flat(spans).take(
            index,
        ) + crate::line::flat_span(
            SpanView {
                bytes: content,
                style: match style {
                    Some(s) => s,
                    None => style_at(spans, index),
                },
            },
        ) + crate::line::flat(spans).skip(index),
{
    lemma_span_reaching(spans, index);
    crate::line::lemma_flat_len(spans);
    let at = span_reaching(spans, index);
    let before = crate::line::total_len(spans.take(at)) as int;
    let here = spans[at];
    let own = match style {
        Some(s) => s,
        None => style_at(spans, index),
    };
    let new = SpanView { bytes: content, style: own };
    let all = crate::line::flat(spans);
    let out = inserted(spans, index, content, style);
    if before + here.bytes.len() == index {
        if before == index {
            assert(here.bytes.len() == 0);
        }
        lemma_flat_insert(spans, at + 1, new);
    } else if before == index {
        lemma_flat_insert(spans, at, new);
    } else {
        assert(at + 1 == spans.len());
        let pre = SpanView { bytes: here.bytes.take(index - before), style: here.style };
        let post = SpanView { bytes: here.bytes.skip(index - before), style: here.style };
        let head = crate::line::flat(spans.take(at));
        assert(out =~= spans.take(at) + seq![pre] + seq![new] + seq![post]);
        crate::line::lemma_flat_concat(spans.take(at) + seq![pre] + seq![new], seq![post]);
        crate::line::lemma_flat_concat(spans.take(at) + seq![pre], seq![new]);
        crate::line::lemma_flat_concat(spans.take(at), seq![pre]);
        crate::line::lemma_flat_one(pre);
        crate::line::lemma_flat_one(new);
        crate::line::lemma_flat_one(post);
        assert(spans.drop_last() =~= spans.take(at));
        assert(all == head + crate::line::flat_span(here));
        crate::line::lemma_flat_len(spans.take(at));
        assert(head + crate::line::flat_span(pre) =~= all.take(index));
        assert(crate::line::flat_span(post) =~= all.skip(index));
    }
}

proof fn lemma_flat_insert(spans: Seq<SpanView>, at: int, new: SpanView)
    requires
        0 <= at <= spans.len(),
    ensures
        crate::line::flat(spans.insert(at, new)) == crate::line::flat(spans).take(
            crate::line::total_len(spans.take(at)) as int,
        ) + crate::line::flat_span(new) + crate::line::flat(spans).skip(
            crate::line::total_len(spans.take(at)) as int,
        ),
{
    let index = crate::line::total_len(spans.take(at)) as int;
    assert(spans.insert(at, new) =~= spans.take(at) + seq![new] + spans.skip(at));
    crate::line::lemma_flat_concat(spans.take(at) + seq![new], spans.skip(at));
    crate::line::lemma_flat_concat(spans.take(at), seq![new]);
    crate::line::lemma_flat_one(new);
    crate::line::lemma_flat_concat(spans.take(at), spans.skip(at));
    crate::line::lemma_flat_len(spans.take(at));
    assert(spans.take(at) + spans.skip(at) =~= spans);
    assert(crate::line::flat(spans.take(at)) =~= crate::line::flat(spans).take(index));
    assert(crate::line::flat(spans.skip(at)) =~= crate::line::flat(spans).skip(index));
}


proof fn lemma_flat_index(spans: Seq<SpanView>, i: int, k: int)
    requires
        0 <= i < spans.len(),
        0 <= k < spans[i].bytes.len(),
    ensures
        crate::line::total_len(spans.take(i)) + k < crate::line::flat(spans).len(),
        crate::line::flat(spans)[crate::line::total_len(spans.take(i)) + k] == (
            spans[i].bytes[k],
            spans[i].style,
        ),
{
    let head = spans.take(i + 1);
    crate::line::lemma_flat_concat(head, spans.skip(i + 1));
    assert(head + spans.skip(i + 1) =~= spans);
    assert(head.drop_last() =~= spans.take(i));
    crate::line::lemma_flat_len(spans.take(i));
    crate::line::lemma_flat_len(spans);
}

proof fn lemma_cut_is_boundary(spans: Seq<SpanView>, i: int, at: int)
    requires
        0 <= i < spans.len(),
        valid_utf8(spans[i].bytes),
        can_cut(spans, at),
        crate::line::total_len(spans.take(i)) <= at <= crate::line::total_len(spans.take(i))
            + spans[i].bytes.len(),
    ensures
        is_char_boundary(spans[i].bytes, at - crate::line::total_len(spans.take(i))),
{
    let bytes = spans[i].bytes;
    let k = at - crate::line::total_len(spans.take(i));
    is_char_boundary_start_end_of_seq(bytes);
    if k < bytes.len() {
        lemma_flat_index(spans, i, k);
        is_char_boundary_iff_not_is_continuation_byte(bytes, k);
    }
}

/// Adds a piece of text as a span of its own, unless it is empty.
fn push_kept(spans: &mut Vec<Span>, text: &str, style: Style)
    ensures
        crate::line::span_views(final(spans)@) == crate::line::span_views(old(spans)@) + kept(
            text.spec_bytes(),
            style,
        ),
{
    let n: usize = byte_len(text);
    if n > 0 {
        spans.push(Span::styled(text.to_owned(), style));
    }
    assert(crate::line::span_views(spans@) =~= crate::line::span_views(old(spans)@) + kept(
        text.spec_bytes(),
        style,
    ));
}

/// Adds what becomes of the covered part of a span.
fn push_edited(spans: &mut Vec<Span>, edit: Edit, text: &str, style: Style)
    requires
        text.spec_bytes().len() > 0,
    ensures
        crate::line::span_views(final(spans)@) == crate::line::span_views(old(spans)@)
            + edited_part(edit, text.spec_bytes(), style),
{
    let ghost before = crate::line::span_views(spans@);
    match edit {
        Edit::Restyle(over) => {
            spans.push(Span::styled(text.to_owned(), style.patch(over)));
        },
        Edit::Censor(over) => {
            let own = match over {
                Some(s) => s,
                None => style,
            };
            let n: usize = byte_len(text);
            let mut i: usize = 0;
            while i < n
                invariant
                    i <= n,
                    n == text.spec_bytes().len(),
                    own == (match over {
                        Some(s) => s,
                        None => style,
                    }),
                    crate::line::span_views(spans@) =~= before + Seq::new(
                        i as nat,
                        |j: int| SpanView { bytes: seq![0x2au8], style: own },
                    ),
                decreases n - i,
            {
                let mut star = String::new();
                star.push('*');
                proof {
                    assert(star@ =~= seq!['*']);
                    assert(is_ascii_chars(star@));
                    is_ascii_chars_encode_utf8(star@);
                    assert(encode_utf8(star@) =~= seq![0x2au8]);
                }
                let ghost prior = crate::line::span_views(spans@);
                let piece = Span::styled(star, own);
                assert(piece@ == SpanView { bytes: seq![0x2au8], style: own });
                spans.push(piece);
                assert(crate::line::span_views(spans@) =~= prior.push(piece@));
                i += 1;
            }
        },
        Edit::Remove => {},
    }
    assert(crate::line::span_views(spans@) =~= before + edited_part(
        edit,
        text.spec_bytes(),
        style,
    ));
}

impl Line {
    /// Replaces the span at `i`, and the one after it, by three others.
    fn split_around(&mut self, i: usize, pre: Span, mid: Span, post: Span)
        requires
            i < old(self).spans@.len(),
        ensures
            final(self)@ == (LineView {
                spans: old(self)@.spans.take(i as int) + seq![pre@, mid@, post@] + (if i + 2
                    <= old(self)@.spans.len() {
                    old(self)@.spans.skip(i + 2)
                } else {
                    Seq::empty()
                }),
                ..old(self)@
            }),
    {
        let ghost first = self.spans@;
        if i + 1 < self.spans.len() {
            let _next = self.spans.remove(i + 1);
        }
        let _split = self.spans.remove(i);
        let ghost rest = if i + 2 <= first.len() {
            first.skip(i + 2)
        } else {
            Seq::empty()
        };
        assert(self.spans@ =~= first.take(i as int) + rest);
        self.spans.insert(i, post);
        self.spans.insert(i, mid);
        self.spans.insert(i, pre);
        assert(self.spans@ =~= first.take(i as int) + seq![pre, mid, post] + rest);
        assert(self@.spans =~= old(self)@.spans.take(i as int) + seq![pre@, mid@, post@] + (if i + 2
            <= old(self)@.spans.len() {
            old(self)@.spans.skip(i + 2)
        } else {
            Seq::empty()
        }));
    }

    fn apply_edit(&mut self, edit: Edit, range: Range<usize>)
        requires
            old(self).accepts_range(range.start as int, range.end as int),
        ensures
            final(self)@ == (LineView {
                spans: edited(edit, old(self)@.spans, (range.start as int, range.end as int)),
                ..old(self)@
            }),
    {
        let ghost views = self@.spans;
        let ghost r = (range.start as int, range.end as int);
        let mut new_spans: Vec<Span> = Vec::new();
        let mut current: usize = 0;
        let mut i: usize = 0;
        assert(crate::line::span_views(new_spans@) =~= edited(edit, views.take(0), r));
        while i < self.spans.len()
            invariant
                views == self@.spans,
                views == old(self)@.spans,
                self@ == old(self)@,
                views.len() == self.spans.len(),
                r == (range.start as int, range.end as int),
                old(self).accepts_range(range.start as int, range.end as int),
                i <= self.spans.len(),
                current == crate::line::total_len(views.take(i as int)),
                crate::line::span_views(new_spans@) == edited(edit, views.take(i as int), r),
            decreases self.spans.len() - i,
        {
            proof {
                crate::line::lemma_total_len_of_prefix(views, i as int);
                crate::line::lemma_total_len_of_prefix(views, i + 1);
                assert(views.take(i + 1).drop_last() =~= views.take(i as int));
                assert(views.take(i + 1).last() == views[i as int]);
                encode_utf8_valid_utf8(self.spans@[i as int].content@);
            }
            let span = &self.spans[i];
            assert(views[i as int] == span@);
            let span_len: usize = byte_len(span.content.as_str());
            let span_start: usize = current;
            let span_end: usize = current + span_len;
            let ghost before = crate::line::span_views(new_spans@);
            let (overlap_start, overlap_end) = overlap_region(
                (span_start, span_end),
                (range.start, range.end),
            );
            match (overlap_start, overlap_end) {
                (Some(from), Some(to)) => {
                    proof {
                        if r.0 >= current {
                            lemma_cut_is_boundary(views, i as int, r.0);
                        }
                        if r.1 <= span_end {
                            lemma_cut_is_boundary(views, i as int, r.1);
                        }
                        is_char_boundary_start_end_of_seq(span@.bytes);
                    }
                    let offset_start: usize = from - span_start;
                    let offset_end: usize = to - span_start;
                    let (pre, mid, post) = split_span_content(
                        span.content.as_str(),
                        offset_start..offset_end,
                    );
                    let vanishes = match edit {
                        Edit::Remove => byte_len(pre) == 0 && byte_len(post) == 0,
                        _ => false,
                    };
                    if vanishes {
                        new_spans.push(Span::styled(String::new(), span.style));
                        assert(crate::line::span_views(new_spans@) =~= before + edited_span(
                            edit,
                            span@,
                            current as int,
                            r,
                        ));
                    } else {
                        push_kept(&mut new_spans, pre, span.style);
                        push_edited(&mut new_spans, edit, mid, span.style);
                        push_kept(&mut new_spans, post, span.style);
                        assert(crate::line::span_views(new_spans@) =~= before + edited_span(
                            edit,
                            span@,
                            current as int,
                            r,
                        ));
                    }
                },
                _ => {
                    new_spans.push(span.duplicate());
                    assert(crate::line::span_views(new_spans@) =~= before + edited_span(
                        edit,
                        span@,
                        current as int,
                        r,
                    ));
                },
            }
            current = span_end;
            i += 1;
        }
        assert(views.take(i as int) =~= views);
        self.spans = new_spans;
        assert(self@.spans =~= edited(edit, views, r));
    }
}

proof fn lemma_views_of_insert(spans: Seq<Span>, i: int, span: Span)
    requires
        0 <= i <= spans.len(),
    ensures
        crate::line::span_views(spans.insert(i, span)) == crate::line::span_views(spans).insert(
            i,
            span@,
        ),
{
    assert(crate::line::span_views(spans.insert(i, span)) =~= crate::line::span_views(spans).insert(
        i,
        span@,
    ));
}

/// Editing a line by byte offsets.
pub trait LineMutator {
    /// Whether text can be put in at an offset.
    spec fn accepts_insertion(&self, index: int) -> bool;

    /// Whether a range of offsets can be edited.
    spec fn accepts_range(&self, from: int, to: int) -> bool;

    /// Whether a range of offsets can be styled.
    spec fn accepts_styling(&self, from: int, to: int) -> bool;

    /// Puts `content` in at byte offset `index`.
    fn insert_slice(&mut self, index: usize, content: String, style: Option<Style>)
        requires
            old(self).accepts_insertion(index as int),
    ;

    /// Lays `style` over the bytes of `range`.
    fn style_slice(&mut self, range: Range<usize>, style: Style)
        requires
            old(self).accepts_styling(range.start as int, range.end as int),
    ;

    /// Replaces each byte of `range` by an asterisk.
    fn censor_slice(&mut self, range: Range<usize>, style: Option<Style>)
        requires
            old(self).accepts_range(range.start as int, range.end as int),
    ;

    /// Takes the bytes of `range` out.
    fn remove_slice(&mut self, range: Range<usize>)
        requires
            old(self).accepts_range(range.start as int, range.end as int),
    ;
}

impl LineMutator for Line {
    /// There is a span to put the text in or beside, the offset is within the
    /// line, and no character spans it.
    open spec fn accepts_insertion(&self, index: int) -> bool {
        &&& self@.spans.len() > 0
        &&& crate::line::total_len(self@.spans) <= usize::MAX
        &&& 0 <= index <= crate::line::total_len(self@.spans)
        &&& can_cut(self@.spans, index)
    }

    /// Neither end of the range falls within a character.
    open spec fn accepts_range(&self, from: int, to: int) -> bool {
        &&& crate::line::total_len(self@.spans) <= usize::MAX
        &&& from < to ==> can_cut(self@.spans, from) && can_cut(self@.spans, to)
    }

    /// Neither end of the range falls within a character, and a range that is not empty
    /// ends within the line.
    open spec fn accepts_styling(&self, from: int, to: int) -> bool {
        &&& self.accepts_range(from, to)
        &&& from < to ==> to <= crate::line::total_len(self@.spans)
    }

    fn insert_slice(&mut self, index: usize, content: String, style: Option<Style>)
        ensures
            final(self)@ == (LineView {
                spans: inserted(
                    old(self)@.spans,
                    index as int,
                    encode_utf8(content@),
                    style,
                ),
                ..old(self)@
            }),
    {
        let ghost views = self@.spans;
        proof {
            lemma_span_reaching(views, index as int);
        }
        let ghost at = span_reaching(views, index as int);
        let mut passed: usize = 0;
        let mut i: usize = 0;
        proof {
            crate::line::lemma_total_len_of_prefix(views, 0);
            crate::line::lemma_total_len_of_prefix(views, 1);
            assert(views.take(0).len() == 0);
            assert(views[0] == self.spans@[0]@);
        }
        let mut here_len: usize = byte_len(self.spans[0].content.as_str());
        while passed + here_len < index
            invariant
                views == self@.spans,
                self@ == old(self)@,
                views.len() == self.spans.len(),
                self.accepts_insertion(index as int),
                at == span_reaching(views, index as int),
                0 <= at < views.len(),
                index <= crate::line::total_len(views.take(at + 1)),
                at > 0 ==> crate::line::total_len(views.take(at)) < index,
                0 <= i <= at,
                passed == crate::line::total_len(views.take(i as int)),
                here_len == views[i as int].bytes.len(),
                passed + here_len <= usize::MAX,
            decreases at - i,
        {
            proof {
                crate::line::lemma_total_len_of_prefix(views, i as int);
                if i == at {
                    crate::line::lemma_total_len_of_prefix(views, at);
                    assert(false);
                }
            }
            passed = passed + here_len;
            i += 1;
            proof {
                crate::line::lemma_total_len_of_prefix(views, i as int);
                crate::line::lemma_total_len_of_prefix(views, i + 1);
                assert(views[i as int] == self.spans@[i as int]@);
            }
            here_len = byte_len(self.spans[i].content.as_str());
        }
        proof {
            if i < at {
                crate::line::lemma_total_len_of_prefix(views, i as int);
                lemma_prefix_lens_grow(views, i + 1, at);
                assert(false);
            }
            assert(views[i as int] == self.spans@[i as int]@);
        }
        let here_style = self.spans[i].style;
        let own = match style {
            Some(s) => s,
            None => here_style,
        };
        if passed + here_len == index {
            let new_span = Span::styled(content, own);
            proof {
                lemma_views_of_insert(self.spans@, i + 1, new_span);
            }
            self.spans.insert(i + 1, new_span);
        } else if passed == index {
            let first = match style {
                Some(s) => s,
                None => Style::new(),
            };
            let new_span = Span::styled(content, first);
            proof {
                lemma_views_of_insert(self.spans@, i as int, new_span);
            }
            self.spans.insert(i, new_span);
        } else {
            proof {
                encode_utf8_valid_utf8(self.spans@[i as int].content@);
                lemma_cut_is_boundary(views, i as int, index as int);
            }
            let (pre, post) = self.spans[i].content.as_str().split_at(index - passed);
            let pre_span = Span::styled(pre.to_owned(), here_style);
            let post_span = Span::styled(post.to_owned(), here_style);
            let mid_span = Span::styled(content, own);
            let ghost (p, m, q) = (pre_span@, mid_span@, post_span@);
            assert(p.bytes =~= views[i as int].bytes.take(index - passed));
            assert(q.bytes =~= views[i as int].bytes.skip(index - passed));
            self.split_around(i, pre_span, mid_span, post_span);
        }
    }

    fn style_slice(&mut self, range: Range<usize>, style: Style)
        ensures
            final(self)@ == (LineView {
                spans: edited(
                    Edit::Restyle(style),
                    old(self)@.spans,
                    (range.start as int, range.end as int),
                ),
                ..old(self)@
            }),
    {
        self.apply_edit(Edit::Restyle(style), range);
    }

    fn censor_slice(&mut self, range: Range<usize>, style: Option<Style>)
        ensures
            final(self)@ == (LineView {
                spans: edited(
                    Edit::Censor(style),
                    old(self)@.spans,
                    (range.start as int, range.end as int),
                ),
                ..old(self)@
            }),
    {
        self.apply_edit(Edit::Censor(style), range);
    }

    fn remove_slice(&mut self, range: Range<usize>)
        ensures
            final(self)@ == (LineView {
                spans: edited(
                    Edit::Remove,
                    old(self)@.spans,
                    (range.start as int, range.end as int),
                ),
                ..old(self)@
            }),
    {
        self.apply_edit(Edit::Remove, range);
    }
}

pub proof fn lemma_prefix_lens_grow(spans: Seq<SpanView>, i: int, j: int)
    requires
        0 <= i <= j <= spans.len(),
    ensures
        crate::line::total_len(spans.take(i)) <= crate::line::total_len(spans.take(j)),
{
    crate::line::lemma_total_len_of_prefix(spans.take(j), i);
    assert(spans.take(j).take(i) =~= spans.take(i));
}

} // verus!
