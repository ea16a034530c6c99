//! What holds of styles, of lines of text, and of what keys and words stand for.

use vstd::prelude::*;
use vstd::string::*;
use vstd::utf8::*;

use crate::buffer::buf_line::{BufLine, LineFinished, LineType};
use crate::buffer::log_defmt::{DecodeView, MessageState};
use crate::buffer::tui::Buffer;
use crate::keybinds::{BuiltinAction, KeyBinding};
use crate::line::{SpanView, Style};
use crate::line_edit::Edit;
use crate::macros::TagView;
use crate::settings::{Defmt, Rendering};
use crate::text_input::TextInputView;

verus! {

/// What is laid over a style wins where it says something; what it leaves open is kept.
pub proof fn law_styles_are_laid_over(style: Style, over: Style)
    ensures
        over.fg is Some ==> style.patched(over).fg == over.fg,
        over.fg is None ==> style.patched(over).fg == style.fg,
        over.bg is Some ==> style.patched(over).bg == over.bg,
        over.bg is None ==> style.patched(over).bg == style.bg,
        style.patched(Style::plain()) == style,
        style.sub_modifier == 0 && over.sub_modifier == 0 ==> style.patched(over).add_modifier
            == style.add_modifier | over.add_modifier,
{
    let (a, b) = (style.add_modifier, style.sub_modifier);
    assert((a & !0u16) | 0u16 == a) by (bit_vector);
    assert((b & !0u16) | 0u16 == b) by (bit_vector);
    assert(a & !0u16 == a) by (bit_vector);
}

proof fn lemma_cut_in_line(text: Seq<char>, n: int)
    requires
        0 <= n <= text.len(),
        forall|i: int| 0 <= i < n ==> #[trigger] text[i] != '\n',
    ensures
        crate::buffer::log_defmt::cut_lines(text, n) == (Seq::<Seq<char>>::empty(), text.take(n)),
    decreases n,
{
    if n > 0 {
        lemma_cut_in_line(text, n - 1);
        assert(text[n - 1] != '\n');
        assert(text.take(n) =~= text.take(n - 1).push(text[n - 1]));
    } else {
        assert(text.take(0) =~= Seq::<char>::empty());
    }
}

proof fn lemma_cut_behind_line(line: Seq<char>, rest: Seq<char>, k: int)
    requires
        0 <= k <= rest.len(),
        forall|i: int| 0 <= i < line.len() ==> #[trigger] line[i] != '\n',
    ensures
        ({
            let text = line + seq!['\n'] + rest;
            let (done, current) = crate::buffer::log_defmt::cut_lines(text, line.len() + 1 + k);
            let (rest_done, rest_current) = crate::buffer::log_defmt::cut_lines(rest, k);
            &&& done == seq![crate::view::popups::without_return(line)] + rest_done
            &&& current == rest_current
        }),
    decreases k,
{
    let text = line + seq!['\n'] + rest;
    let n = line.len() as int;
    if k == 0 {
        assert forall|i: int| 0 <= i < n implies #[trigger] text[i] != '\n' by {
            assert(text[i] == line[i]);
        }
        lemma_cut_in_line(text, n);
        assert(text.take(n) =~= line);
        assert(text[n] == '\n');
        let (done, current) = crate::buffer::log_defmt::cut_lines(text, n + 1);
        assert(done =~= seq![crate::view::popups::without_return(line)]);
        assert(seq![crate::view::popups::without_return(line)] + Seq::<Seq<char>>::empty()
            =~= done);
    } else {
        lemma_cut_behind_line(line, rest, k - 1);
        assert(text[n + 1 + k - 1] == rest[k - 1]);
        let (done, current) = crate::buffer::log_defmt::cut_lines(text, n + 1 + k);
        let (rest_done, rest_current) = crate::buffer::log_defmt::cut_lines(rest, k);
        assert(done =~= seq![crate::view::popups::without_return(line)] + rest_done);
    }
}

/// The lines of a message end at its line feeds; a carriage return in front of one belongs to
/// the end of the line.
pub proof fn law_lines_of_a_decoded_text(line: Seq<char>, rest: Seq<char>)
    requires
        forall|i: int| 0 <= i < line.len() ==> #[trigger] line[i] != '\n',
    ensures
        crate::buffer::log_defmt::text_lines(line + seq!['\n'] + rest) == seq![
            if line.len() > 0 && line.last() == '\r' {
                line.drop_last()
            } else {
                line
            },
        ] + crate::buffer::log_defmt::text_lines(rest),
        line.len() > 0 ==> crate::buffer::log_defmt::text_lines(line) == seq![line],
{
    lemma_cut_behind_line(line, rest, rest.len() as int);
    let text = line + seq!['\n'] + rest;
    assert(text.len() == line.len() + 1 + rest.len());
    lemma_cut_in_line(line, line.len() as int);
    assert(line.take(line.len() as int) =~= line);
    assert(crate::buffer::log_defmt::text_lines(text)
        =~= seq![crate::view::popups::without_return(line)]
        + crate::buffer::log_defmt::text_lines(rest));
    assert(Seq::<Seq<char>>::empty().push(line) =~= seq![line]);
}

/// The lines of an error are told apart in the same way.
pub proof fn law_lines_of_an_error(line: Seq<char>, rest: Seq<char>)
    requires
        forall|i: int| 0 <= i < line.len() ==> #[trigger] line[i] != '\n',
    ensures
        crate::view::popups::text_lines(line + seq!['\n'] + rest) == seq![
            if line.len() > 0 && line.last() == '\r' {
                line.drop_last()
            } else {
                line
            },
        ] + crate::view::popups::text_lines(rest),
        line.len() > 0 ==> crate::view::popups::text_lines(line) == seq![line],
{
    let text = line + seq!['\n'] + rest;
    lemma_line_len(text, line.len() as int);
    lemma_line_len(line, line.len() as int);
    assert(text.take(line.len() as int) =~= line);
    assert(text.skip(line.len() as int + 1) =~= rest);
}

proof fn lemma_line_len(s: Seq<char>, n: int)
    requires
        0 <= n <= s.len(),
        forall|i: int| 0 <= i < n ==> #[trigger] s[i] != '\n',
        n == s.len() || s[n] == '\n',
    ensures
        crate::view::popups::line_len(s) == n,
    decreases n,
{
    if n > 0 {
        assert(s[0] != '\n');
        assert forall|i: int| 0 <= i < n - 1 implies #[trigger] s.skip(1)[i] != '\n' by {
            assert(s[i + 1] != '\n');
        }
        lemma_line_len(s.skip(1), n - 1);
    }
}

/// What is written once a message was decoded begins with the message.
pub proof fn law_decoded_message_is_written_first(
    state: MessageState,
    outcome: DecodeView,
    table: Option<defmt_decoder::Table>,
)
    ensures
        ({
            let own = state.decoded_output(outcome).0;
            let written = state.resumed(outcome, table).written;
            own.is_prefix_of(written)
        }),
{
    let own = state.decoded_output(outcome).0;
    let written = state.resumed(outcome, table).written;
    assert(own =~= written.take(own.len() as int));
}

/// The keys that are told for an action are those of the first binding that does nothing
/// else; a question mark stands for none.
pub proof fn law_hints_for_actions(bindings: Seq<KeyBinding>, action: BuiltinAction)
    ensures
        match crate::keybinds::bound_to(bindings, action, 0) {
            Some(i) => {
                &&& 0 <= i < bindings.len()
                &&& crate::keybinds::hint_for(bindings, action) == bindings[i].label@
                &&& bindings[i].actions@.len() == 1
                &&& BuiltinAction::called(
                    crate::text::trimmed(bindings[i].actions@[0]@),
                    0,
                ) == Some(action)
            },
            None => crate::keybinds::hint_for(bindings, action) == "?"@ && forall|i: int|
                0 <= i < bindings.len() ==> !((#[trigger] bindings[i]).actions@.len() == 1
                    && BuiltinAction::called(
                    crate::text::trimmed(bindings[i].actions@[0]@),
                    0,
                ) == Some(action)),
        },
{
    lemma_bound_to(bindings, action, 0);
}

proof fn lemma_bound_to(bindings: Seq<KeyBinding>, action: BuiltinAction, from: int)
    requires
        0 <= from,
    ensures
        match crate::keybinds::bound_to(bindings, action, from) {
            Some(i) => from <= i < bindings.len() && crate::keybinds::does_only(
                bindings[i],
                action,
            ),
            None => forall|i: int|
                from <= i < bindings.len() ==> !crate::keybinds::does_only(
                    #[trigger] bindings[i],
                    action,
                ),
        },
    decreases bindings.len() - from,
{
    if from < bindings.len() {
        lemma_bound_to(bindings, action, from + 1);
    }
}

/// The keys that are told for a macro are those of a binding that sends nothing but it.
pub proof fn law_keys_for_a_macro(bindings: Seq<KeyBinding>, tag: TagView)
    ensures
        ({
            let keys = crate::macros::keys_for(bindings, tag, 0);
            ||| keys.len() == 0
            ||| exists|i: int|
                {
                    &&& 0 <= i < bindings.len()
                    &&& keys == (#[trigger] bindings[i]).label@
                    &&& bindings[i].actions@.len() == 1
                    &&& crate::macros::parsed_tag(bindings[i].actions@[0]@) == Some(tag)
                }
        }),
{
    lemma_keys_for(bindings, tag, 0);
}

proof fn lemma_keys_for(bindings: Seq<KeyBinding>, tag: TagView, from: int)
    requires
        0 <= from,
    ensures
        ({
            let keys = crate::macros::keys_for(bindings, tag, from);
            ||| keys.len() == 0
            ||| exists|i: int|
                {
                    &&& from <= i < bindings.len()
                    &&& keys == (#[trigger] bindings[i]).label@
                    &&& bindings[i].actions@.len() == 1
                    &&& crate::macros::parsed_tag(bindings[i].actions@[0]@) == Some(tag)
                }
        }),
    decreases bindings.len() - from,
{
    if from < bindings.len() {
        if bindings[from].actions@.len() == 1 && crate::macros::parsed_tag(
            bindings[from].actions@[0]@,
        ) == Some(tag) {
            assert(bindings[from].label@ == crate::macros::keys_for(bindings, tag, from));
        } else {
            lemma_keys_for(bindings, tag, from + 1);
        }
    }
}

/// Removing a word leaves the start of the text: what goes is a word and the white space
/// behind it, and what stays ends in white space or is empty.
pub proof fn law_last_word_is_removed(v: TextInputView)
    requires
        !v.bytes_input,
    ensures
        ({
            let after = v.word_removed().text;
            &&& after.len() <= v.text.len()
            &&& after == v.text.take(after.len() as int)
            &&& after.len() > 0 ==> crate::text::white_space(after.last())
            &&& after.len() < v.text.len() && !crate::text::white_space(v.text.last())
                ==> forall|i: int|
                after.len() <= i < v.text.len() ==> !crate::text::white_space(#[trigger] v.text[i])
        }),
{
    let s = v.text;
    crate::laws::lemma_past_last_visible(s);
    let end = crate::text::past_last_visible(s);
    let after = v.word_removed().text;
    if end == 0 {
        assert(after =~= s.take(0));
    } else {
        lemma_last_run(s.take(end));
        let start = end - crate::foreign::last_run(s.take(end));
        assert(after == s.take(start));
        if start > 0 {
            assert(after.last() == s[start - 1]);
            assert(s.take(end)[start - 1] == s[start - 1]);
        }
        if !crate::text::white_space(s.last()) {
            assert(end == s.len());
            assert(s.take(end) =~= s);
        }
    }
}

proof fn lemma_last_run(s: Seq<char>)
    ensures
        ({
            let n = crate::foreign::last_run(s);
            &&& 0 <= n <= s.len()
            &&& forall|i: int|
                s.len() - n <= i < s.len() ==> !crate::text::white_space(#[trigger] s[i])
            &&& n < s.len() ==> crate::text::white_space(s[s.len() - n - 1])
        }),
    decreases s.len(),
{
    if s.len() > 0 && !crate::text::white_space(s.last()) {
        lemma_last_run(s.drop_last());
        let n = crate::foreign::last_run(s);
        assert forall|i: int| s.len() - n <= i < s.len() implies !crate::text::white_space(
            #[trigger] s[i],
        ) by {
            if i < s.len() - 1 {
                assert(s.drop_last()[i] == s[i]);
            }
        }
    }
}

/// Of bytes the last one is removed with both its digits, or the one digit of half a byte.
pub proof fn law_last_byte_is_removed(len: int)
    requires
        len > 0,
    ensures
        crate::text_input::shorter_by_a_byte(len) % 2 == 0,
        len - 2 <= crate::text_input::shorter_by_a_byte(len) < len,
        len % 2 == 0 ==> crate::text_input::shorter_by_a_byte(len) == len - 2,
{
}

/// What is pasted comes behind what was typed, and the history is left.
pub proof fn law_pasted_text(v: TextInputView, text: Seq<char>)
    ensures
        v.appended(text).text == v.text + text,
        v.appended(text).cursor == v.text.len() + text.len(),
        v.appended(text).history.selected is None,
        v.appended(text).history.entries == v.history.entries,
        v.appended(text).bytes_input == v.bytes_input,
{
}

/// A line takes the rows that what is shown of it takes when it is wrapped, one column being
/// left for the scroll bar.
pub proof fn law_height_of_a_line(line: BufLine, width: u16, rendering: Rendering, defmt: Defmt)
    requires
        width > 0,
    ensures
        line.height_at(width, rendering, defmt) == crate::buffer::buf_line::wrapped_rows(
            line.shown(rendering, defmt).spans.map_values(|s: SpanView| s.bytes),
            (width - 1) as u16,
        ),
{
}

/// Switching into the hex view goes to the row of the first byte of the first line that was
/// on the screen; switching out of it goes to a line near the byte that was.
pub proof fn law_place_is_kept(buffer: Buffer)
    requires
        buffer.raw@.len() > 0,
        buffer.state.hex_bytes_per_line > 0,
    ensures
        ({
            let after = buffer.hex_view_switched();
            let per = buffer.state.hex_bytes_per_line as int;
            &&& buffer.rendering.hex_view && buffer.visible().0.len() > 0 ==> {
                let start = buffer.visible().0[0].start;
                after.vert_scroll * per <= start < (after.vert_scroll + 1) * per
            }
            &&& buffer.rendering.hex_view ==> !after.stuck_to_bottom
            &&& !buffer.rendering.hex_view ==> forall|n: int|
                Buffer::line_near(buffer.rx@, buffer.state.vert_scroll * per, 0) == Some(n)
                    && #[trigger] crate::buffer::tui::line_rows(buffer.rx@.take(n)) <= usize::MAX
                    ==> after.vert_scroll == crate::buffer::tui::line_rows(buffer.rx@.take(n))
        }),
{
    if buffer.rendering.hex_view && buffer.visible().0.len() > 0 {
        crate::buffer::window_laws::law_row_of_a_byte(
            buffer.visible().0[0].start,
            buffer.state.hex_bytes_per_line,
        );
    }
}

/// Joining puts the separator between texts, and nowhere else.
pub proof fn law_joined_texts(parts: Seq<Seq<char>>, more: Seq<char>, separator: Seq<char>)
    ensures
        crate::text::joined(seq![more], separator) == more,
        parts.len() > 0 ==> crate::text::joined(parts.push(more), separator)
            == crate::text::joined(parts, separator) + separator + more,
        crate::text::joined(Seq::<Seq<char>>::empty(), separator).len() == 0,
{
    assert(parts.push(more).drop_last() =~= parts);
    if parts.len() == 0 {
        assert(parts.push(more) =~= seq![more]);
    }
}

/// In upper case a text keeps its length, small letters become large ones, and all else
/// stays.
pub proof fn law_upper_case(s: Seq<char>, i: int)
    requires
        0 <= i < s.len(),
    ensures
        crate::text::ascii_upper(s).len() == s.len(),
        0x61 <= s[i] as u32 <= 0x7a ==> crate::text::ascii_upper(s)[i] as u32 == s[i] as u32 - 32,
        !(0x61 <= s[i] as u32 <= 0x7a) ==> crate::text::ascii_upper(s)[i] == s[i],
{
}

/// Styling a range changes the style of its bytes, and neither a byte nor anything outside.
pub proof fn law_styled_range(spans: Seq<SpanView>, from: int, to: int, over: Style, i: int)
    requires
        0 <= from,
        0 <= i < crate::line::flat(spans).len(),
    ensures
        ({
            let before = crate::line::flat(spans);
            let after = crate::line::flat(
                crate::line_edit::edited(Edit::Restyle(over), spans, (from, to)),
            );
            &&& after.len() == before.len()
            &&& after[i].0 == before[i].0
            &&& !(from <= i < to) ==> after[i] == before[i]
            &&& from <= i < to && over.fg is Some ==> after[i].1.fg == over.fg
            &&& from <= i < to && over.fg is None ==> after[i].1.fg == before[i].1.fg
            &&& from <= i < to && over.bg is Some ==> after[i].1.bg == over.bg
            &&& from <= i < to && over.bg is None ==> after[i].1.bg == before[i].1.bg
        }),
{
    crate::line_edit::law_edit_acts_on_the_range(Edit::Restyle(over), spans, (from, to));
}

/// Blotting out a range leaves an asterisk for each of its bytes, and all else as it is.
pub proof fn law_censored_range(
    spans: Seq<SpanView>,
    from: int,
    to: int,
    over: Option<Style>,
    i: int,
)
    requires
        0 <= from,
        0 <= i < crate::line::flat(spans).len(),
    ensures
        ({
            let before = crate::line::flat(spans);
            let after = crate::line::flat(
                crate::line_edit::edited(Edit::Censor(over), spans, (from, to)),
            );
            &&& after.len() == before.len()
            &&& from <= i < to ==> after[i].0 == 0x2a
            &&& from <= i < to && over is Some ==> after[i].1 == over->0
            &&& from <= i < to && over is None ==> after[i].1 == before[i].1
            &&& !(from <= i < to) ==> after[i] == before[i]
        }),
{
    crate::line_edit::law_edit_acts_on_the_range(Edit::Censor(over), spans, (from, to));
}

/// Removing a range leaves what stands before it and what stands behind it.
pub proof fn law_removed_range(spans: Seq<SpanView>, from: int, to: int)
    requires
        0 <= from <= to <= crate::line::flat(spans).len(),
    ensures
        crate::line::flat(crate::line_edit::edited(Edit::Remove, spans, (from, to)))
            == crate::line::flat(spans).take(from) + crate::line::flat(spans).skip(to),
{
    crate::line_edit::law_edit_acts_on_the_range(Edit::Remove, spans, (from, to));
    if from == to {
        let all = crate::line::flat(spans);
        assert(all.take(from) + all.skip(to) =~= all);
    }
}

/// Two ranges overlap where both are, and not at all if that is nowhere.
pub proof fn law_overlap(a: (int, int), b: (int, int), i: int)
    ensures
        match crate::line_edit::overlap(a, b) {
            Some((start, end)) => start < end && (start <= i < end <==> (a.0 <= i < a.1 && b.0 <= i
                < b.1)),
            None => !(a.0 <= i < a.1 && b.0 <= i < b.1),
        },
        crate::line_edit::overlap(a, b) == crate::line_edit::overlap(b, a),
{
}

/// A line that is not finished may still grow; one with an ending, a message and a line of
/// the user may not.
pub proof fn law_open_lines(line: BufLine)
    ensures
        line.is_open() ==> line.line_type is Port || line.line_type is PortHidden,
        line.line_type matches LineType::Port(LineFinished::LineEnding(_)) ==> !line.is_open(),
        line.line_type matches LineType::Port(LineFinished::CutShort) ==> !line.is_open(),
        line.line_type matches LineType::Port(LineFinished::Unfinished { .. }) ==> line.is_open(),
        line.line_type is User || line.line_type is PortDefmt ==> !line.is_open(),
{
}

/// A modifier that was added is there, and one that was taken away is not; colors stay.
pub proof fn law_modifiers(style: Style, modifier: u16)
    ensures
        style.with_modifier(modifier).add_modifier & modifier == modifier,
        style.with_modifier(modifier).sub_modifier & modifier == 0,
        style.without_modifier(modifier).add_modifier & modifier == 0,
        style.without_modifier(modifier).sub_modifier & modifier == modifier,
        style.with_modifier(modifier).fg == style.fg && style.with_modifier(modifier).bg
            == style.bg,
        style.without_modifier(modifier).fg == style.fg && style.without_modifier(modifier).bg
            == style.bg,
{
    let (a, b) = (style.add_modifier, style.sub_modifier);
    assert((a | modifier) & modifier == modifier) by (bit_vector);
    assert((b & !modifier) & modifier == 0) by (bit_vector);
    assert((a & !modifier) & modifier == 0) by (bit_vector);
    assert((b | modifier) & modifier == modifier) by (bit_vector);
}

} // verus!
