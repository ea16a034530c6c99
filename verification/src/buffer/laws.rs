//! What holds of received lines, of how they are shown, and of the logs.

use vstd::prelude::*;
use vstd::string::*;
use vstd::utf8::*;

use crate::buffer::LineEnding;
use crate::buffer::buf_line::{BufLine, LineType};
use crate::buffer::logging::LogLineType;
use crate::buffer::tui::{Buffer, BufferState, LineKey};
use crate::settings::{Defmt, Level, Rendering, UserEcho};

verus! {

/// The value of a lower-case hexadecimal digit.
pub open spec fn digit_read(b: u8) -> int {
    if 0x30 <= b <= 0x39 {
        b - 0x30
    } else {
        b - 0x61 + 10
    }
}

/// The bytes that a part of the text log stands for: a backslash and `x` are followed by a
/// byte in two digits, the higher one first; a backslash and `t`, `r` or `n` are a
/// tabulator, a carriage return and a line feed; any other byte behind a backslash, and any
/// byte elsewhere, is itself.
pub open spec fn read_back(text: Seq<u8>) -> Seq<u8>
    decreases text.len(),
{
    if text.len() == 0 {
        Seq::empty()
    } else if text[0] != 0x5c || text.len() == 1 {
        seq![text[0]] + read_back(text.skip(1))
    } else if text[1] == 0x78 && text.len() >= 4 {
        seq![(16 * digit_read(text[2]) + digit_read(text[3])) as u8] + read_back(text.skip(4))
    } else if text[1] == 0x74 {
        seq![0x09u8] + read_back(text.skip(2))
    } else if text[1] == 0x72 {
        seq![0x0du8] + read_back(text.skip(2))
    } else if text[1] == 0x6e {
        seq![0x0au8] + read_back(text.skip(2))
    } else {
        seq![text[1]] + read_back(text.skip(2))
    }
}

proof fn lemma_escape_reads_back(b: u8, rest: Seq<u8>)
    ensures
        read_back(crate::buffer::logging::ascii_escape(b) + rest) == seq![b] + read_back(rest),
{
    let escape = crate::buffer::logging::ascii_escape(b);
    let text = escape + rest;
    assert(text.skip(escape.len() as int) =~= rest);
    assert(b == 16 * (b / 16) + b % 16);
}

proof fn lemma_escaped_in_front(b: u8, rest: Seq<u8>)
    ensures
        crate::buffer::logging::ascii_escaped(seq![b] + rest)
            == crate::buffer::logging::ascii_escape(b) + crate::buffer::logging::ascii_escaped(
            rest,
        ),
    decreases rest.len(),
{
    let all = seq![b] + rest;
    if rest.len() == 0 {
        assert(all.drop_last() =~= Seq::<u8>::empty());
        assert(crate::buffer::logging::ascii_escaped(all.drop_last()) =~= Seq::<u8>::empty());
        assert(crate::buffer::logging::ascii_escaped(all)
            =~= crate::buffer::logging::ascii_escape(b)
            + crate::buffer::logging::ascii_escaped(rest));
    } else {
        assert(all.drop_last() =~= seq![b] + rest.drop_last());
        lemma_escaped_in_front(b, rest.drop_last());
        assert(crate::buffer::logging::ascii_escaped(all)
            =~= crate::buffer::logging::ascii_escape(b)
            + crate::buffer::logging::ascii_escaped(rest));
    }
}

/// What is written to the text log can be read back.
pub proof fn law_text_log_reads_back(bytes: Seq<u8>)
    ensures
        read_back(crate::buffer::logging::ascii_escaped(bytes)) == bytes,
    decreases bytes.len(),
{
    if bytes.len() > 0 {
        let rest = bytes.drop_first();
        assert(bytes =~= seq![bytes[0]] + rest);
        lemma_escaped_in_front(bytes[0], rest);
        lemma_escape_reads_back(bytes[0], crate::buffer::logging::ascii_escaped(rest));
        law_text_log_reads_back(rest);
    }
}

proof fn lemma_escaped_pieces(a: Seq<u8>, b: Seq<u8>)
    ensures
        crate::buffer::logging::ascii_escaped(a + b) == crate::buffer::logging::ascii_escaped(a)
            + crate::buffer::logging::ascii_escaped(b),
    decreases b.len(),
{
    if b.len() == 0 {
        assert(a + b =~= a);
        assert(crate::buffer::logging::ascii_escaped(a) + Seq::<u8>::empty()
            =~= crate::buffer::logging::ascii_escaped(a));
    } else {
        assert((a + b).drop_last() =~= a + b.drop_last());
        lemma_escaped_pieces(a, b.drop_last());
        assert(crate::buffer::logging::ascii_escaped(a + b)
            =~= crate::buffer::logging::ascii_escaped(a)
            + crate::buffer::logging::ascii_escaped(b));
    }
}

/// Some text without its line feeds.
pub open spec fn without_feeds(text: Seq<u8>) -> Seq<u8>
    decreases text.len(),
{
    if text.len() == 0 {
        Seq::empty()
    } else if text.last() == 0x0a {
        without_feeds(text.drop_last())
    } else {
        without_feeds(text.drop_last()).push(text.last())
    }
}

proof fn lemma_without_feeds(a: Seq<u8>, b: Seq<u8>)
    ensures
        without_feeds(a + b) == without_feeds(a) + without_feeds(b),
    decreases b.len(),
{
    if b.len() == 0 {
        assert(a + b =~= a);
        assert(without_feeds(a) + Seq::<u8>::empty() =~= without_feeds(a));
    } else {
        assert((a + b).drop_last() =~= a + b.drop_last());
        lemma_without_feeds(a, b.drop_last());
        assert(without_feeds(a + b) =~= without_feeds(a) + without_feeds(b));
    }
}

proof fn lemma_nothing_to_drop(text: Seq<u8>)
    requires
        forall|i: int| 0 <= i < text.len() ==> #[trigger] text[i] != 0x0a,
    ensures
        without_feeds(text) == text,
    decreases text.len(),
{
    if text.len() > 0 {
        lemma_nothing_to_drop(text.drop_last());
        assert(text =~= text.drop_last().push(text.last()));
    }
}

proof fn lemma_received_lines(
    lines: Seq<Seq<u8>>,
    completed: bool,
    ending: LineEnding,
)
    ensures
        without_feeds(
            crate::buffer::logging::lines_output(
                lines,
                completed,
                None,
                ending,
                LogLineType::Rx,
            ).0,
        ) == crate::buffer::logging::ascii_escaped(
            crate::buffer::split::concatenated(lines),
        ),
    decreases lines.len(),
{
    if lines.len() == 0 {
    } else {
        let init = lines.drop_last();
        let last = lines.last();
        lemma_received_lines(init, completed, ending);
        let (before, was) = crate::buffer::logging::lines_output(
            init,
            completed,
            None,
            ending,
            LogLineType::Rx,
        );
        let header = crate::buffer::logging::line_header(None, false);
        assert(header =~= Seq::<char>::empty());
        assert(encode_utf8(header) =~= Seq::<u8>::empty()) by {
            reveal_with_fuel(encode_utf8, 2);
        }
        let escaped = crate::buffer::logging::ascii_escaped(last);
        crate::buffer::logging::law_escaped_bytes_are_printable(last);
        lemma_nothing_to_drop(escaped);
        let feed = if crate::buffer::logging::line_completed(last, ending, LogLineType::Rx) {
            seq![0x0au8]
        } else {
            Seq::<u8>::empty()
        };
        assert(without_feeds(feed) =~= Seq::<u8>::empty()) by {
            reveal_with_fuel(without_feeds, 2);
            if feed.len() > 0 {
                assert(feed.drop_last() =~= Seq::<u8>::empty());
            }
        }
        let out = crate::buffer::logging::line_output(last, was, None, ending, LogLineType::Rx);
        assert(out =~= escaped + feed);
        lemma_without_feeds(escaped, feed);
        lemma_without_feeds(before, out);
        lemma_concatenated_last(lines);
        lemma_escaped_pieces(crate::buffer::split::concatenated(init), last);
        assert(without_feeds(out) =~= escaped);
    }
}

proof fn lemma_concatenated_last(pieces: Seq<Seq<u8>>)
    requires
        pieces.len() > 0,
    ensures
        crate::buffer::split::concatenated(pieces) == crate::buffer::split::concatenated(
            pieces.drop_last(),
        ) + pieces.last(),
    decreases pieces.len(),
{
    if pieces.len() == 1 {
        reveal_with_fuel(crate::buffer::split::concatenated, 3);
        assert(pieces.drop_first() =~= Seq::<Seq<u8>>::empty());
        assert(pieces.drop_last() =~= Seq::<Seq<u8>>::empty());
        assert(crate::buffer::split::concatenated(pieces) =~= pieces[0]);
        assert(Seq::<u8>::empty() + pieces[0] =~= pieces[0]);
    } else {
        lemma_concatenated_last(pieces.drop_first());
        assert(pieces.drop_first().drop_last() =~= pieces.drop_last().drop_first());
        assert(crate::buffer::split::concatenated(pieces)
            =~= crate::buffer::split::concatenated(pieces.drop_last()) + pieces.last());
    }
}

/// Everything that was received can be read back from the text log: without line feeds, and
/// without times in front of lines, it stands for the very bytes, however they are cut into
/// lines.
pub proof fn law_received_bytes_read_back(bytes: Seq<u8>, completed: bool, ending: LineEnding)
    ensures
        read_back(
            without_feeds(
                crate::buffer::logging::lines_output(
                    crate::buffer::split::lines_of(bytes, ending@),
                    completed,
                    None,
                    ending,
                    LogLineType::Rx,
                ).0,
            ),
        ) == bytes,
{
    lemma_received_lines(crate::buffer::split::lines_of(bytes, ending@), completed, ending);
    crate::buffer::split::law_lines_are_the_bytes(bytes, ending@);
    law_text_log_reads_back(bytes);
}

/// What is written for one line: what the user sent, and what was decoded, starts a line of
/// its own and ends it. What was received goes on where the last line stopped, and ends a
/// line exactly if it has a line ending. The user's lines are marked, others are not.
pub proof fn law_lines_of_the_log(
    line: Seq<u8>,
    completed: bool,
    prefix: Option<Seq<char>>,
    ending: LineEnding,
    kind: LogLineType,
)
    ensures
        ({
            let out = crate::buffer::logging::line_output(line, completed, prefix, ending, kind);
            let escaped = crate::buffer::logging::ascii_escaped(line);
            let time = match prefix {
                Some(time) => time + ": "@,
                None => Seq::empty(),
            };
            let ends = ending@.len() > 0 && line.len() >= ending@.len() && line.skip(
                line.len() - ending@.len(),
            ) == ending@;
            &&& kind is Rx && !(ending is Unset) && ending@.len() > 0 ==> out == (if completed {
                encode_utf8(time)
            } else {
                Seq::empty()
            }) + escaped + (if ends {
                seq![0x0au8]
            } else {
                Seq::empty()
            })
            &&& kind is DefmtRx ==> out == (if completed {
                Seq::empty()
            } else {
                seq![0x0au8]
            }) + encode_utf8(time) + escaped + seq![0x0au8]
            &&& kind matches LogLineType::Tx { line_ending } ==> out == (if completed {
                Seq::empty()
            } else {
                seq![0x0au8]
            }) + encode_utf8(time + "[USER] "@) + crate::buffer::logging::ascii_escaped(
                line + line_ending@,
            ) + seq![0x0au8]
        }),
{
    let time = match prefix {
        Some(time) => time + ": "@,
        None => Seq::empty(),
    };
    assert(time + Seq::<char>::empty() =~= time);
    if let LogLineType::Tx { line_ending } = kind {
        lemma_escaped_pieces(line, line_ending@);
    }
    assert(crate::buffer::logging::line_output(line, completed, prefix, ending, kind) =~= ({
        let escaped = crate::buffer::logging::ascii_escaped(line);
        (if completed || !(kind is Rx) {
            (if !completed {
                seq![0x0au8]
            } else {
                Seq::empty()
            }) + encode_utf8(
                if kind is Tx {
                    time + "[USER] "@
                } else {
                    time
                },
            )
        } else {
            Seq::empty()
        }) + (match kind {
            LogLineType::Tx { line_ending } => crate::buffer::logging::ascii_escaped(
                line + line_ending@,
            ),
            _ => escaped,
        }) + (if crate::buffer::logging::line_completed(line, ending, kind) {
            seq![0x0au8]
        } else {
            Seq::empty()
        })
    }));
}

/// Whether a line of the port or of the user is among those that are shown.
pub open spec fn is_among(keys: Seq<LineKey>, is_user: bool, index: int) -> bool {
    exists|k: int|
        0 <= k < keys.len() && (#[trigger] keys[k]).is_user == is_user && keys[k].index == index
}

proof fn lemma_merged_has_all(port: Seq<LineKey>, user: Seq<LineKey>, key: LineKey)
    ensures
        crate::buffer::tui::merged(port, user).contains(key) <==> port.contains(key)
            || user.contains(key),
    decreases port.len() + user.len(),
{
    let all = crate::buffer::tui::merged(port, user);
    if port.len() == 0 || user.len() == 0 {
    } else if crate::buffer::tui::port_first(port[0], user[0]) {
        lemma_merged_has_all(port.drop_first(), user, key);
        lemma_contains_in_front(port[0], crate::buffer::tui::merged(port.drop_first(), user), key);
        lemma_contains_in_front(port[0], port.drop_first(), key);
        assert(port =~= seq![port[0]] + port.drop_first());
    } else {
        lemma_merged_has_all(port, user.drop_first(), key);
        lemma_contains_in_front(user[0], crate::buffer::tui::merged(port, user.drop_first()), key);
        lemma_contains_in_front(user[0], user.drop_first(), key);
        assert(user =~= seq![user[0]] + user.drop_first());
    }
}

proof fn lemma_contains_in_front(first: LineKey, rest: Seq<LineKey>, key: LineKey)
    ensures
        (seq![first] + rest).contains(key) <==> first == key || rest.contains(key),
{
    let all = seq![first] + rest;
    if first == key {
        assert(all[0] == key);
    }
    if rest.contains(key) {
        let i = choose|i: int| 0 <= i < rest.len() && rest[i] == key;
        assert(all[i + 1] == key);
    }
    if all.contains(key) && first != key {
        let i = choose|i: int| 0 <= i < all.len() && all[i] == key;
        assert(rest[i - 1] == key);
    }
}

proof fn lemma_port_keys(lines: Seq<BufLine>, rendering: Rendering, defmt: Defmt, key: LineKey)
    requires
        lines.len() <= usize::MAX,
    ensures
        crate::buffer::tui::port_keys(lines, rendering, defmt).contains(key) <==> key.index
            < lines.len() && crate::buffer::tui::port_line_shown(
            lines[key.index as int],
            rendering,
            defmt,
        ) && key == crate::buffer::tui::key_of(
            lines[key.index as int],
            false,
            key.index as int,
        ),
    decreases lines.len(),
{
    if lines.len() > 0 {
        let init = lines.drop_last();
        let before = crate::buffer::tui::port_keys(init, rendering, defmt);
        let all = crate::buffer::tui::port_keys(lines, rendering, defmt);
        lemma_port_keys(init, rendering, defmt, key);
        if crate::buffer::tui::port_line_shown(lines.last(), rendering, defmt) {
            let last = crate::buffer::tui::key_of(lines.last(), false, lines.len() - 1);
            lemma_contains_pushed(before, last, key);
        }
    }
}

proof fn lemma_user_keys(lines: Seq<BufLine>, rendering: Rendering, key: LineKey)
    requires
        lines.len() <= usize::MAX,
    ensures
        crate::buffer::tui::user_keys(lines, rendering).contains(key) <==> key.index < lines.len()
            && crate::buffer::tui::user_line_shown(lines[key.index as int], rendering) && key
            == crate::buffer::tui::key_of(lines[key.index as int], true, key.index as int),
    decreases lines.len(),
{
    if lines.len() > 0 {
        let init = lines.drop_last();
        let before = crate::buffer::tui::user_keys(init, rendering);
        lemma_user_keys(init, rendering, key);
        if crate::buffer::tui::user_line_shown(lines.last(), rendering) {
            let last = crate::buffer::tui::key_of(lines.last(), true, lines.len() - 1);
            lemma_contains_pushed(before, last, key);
        }
    }
}

proof fn lemma_contains_pushed(before: Seq<LineKey>, last: LineKey, key: LineKey)
    ensures
        before.push(last).contains(key) <==> before.contains(key) || key == last,
{
    let all = before.push(last);
    if before.contains(key) {
        let i = choose|i: int| 0 <= i < before.len() && before[i] == key;
        assert(all[i] == key);
    }
    if key == last {
        assert(all[before.len() as int] == key);
    }
    if all.contains(key) && key != last {
        let i = choose|i: int| 0 <= i < all.len() && all[i] == key;
        assert(before[i] == key);
    }
}

proof fn lemma_ordered_keys(buffer: Buffer, key: LineKey)
    requires
        buffer.rx@.len() <= usize::MAX,
        buffer.tx@.len() <= usize::MAX,
    ensures
        buffer.ordered().contains(key) <==> {
            ||| crate::buffer::tui::port_keys(
                buffer.rx@,
                buffer.rendering,
                buffer.defmt_settings,
            ).contains(key)
            ||| !(buffer.rendering.echo_user_input is Off) && crate::buffer::tui::user_keys(
                buffer.tx@,
                buffer.rendering,
            ).contains(key)
        },
{
    lemma_merged_has_all(
        crate::buffer::tui::port_keys(buffer.rx@, buffer.rendering, buffer.defmt_settings),
        crate::buffer::tui::user_keys(buffer.tx@, buffer.rendering),
        key,
    );
}

/// Which lines of the port are shown: a decoded message unless it is less severe than the
/// setting, a line whose contents were left out only if that is asked for, and all others.
pub proof fn law_lines_of_the_port_are_shown(buffer: Buffer, i: int)
    requires
        0 <= i < buffer.rx@.len() <= usize::MAX,
        buffer.tx@.len() <= usize::MAX,
    ensures
        ({
            let shown = is_among(buffer.ordered(), false, i);
            let most = buffer.defmt_settings.max_log_level;
            match buffer.rx@[i].line_type {
                LineType::PortDefmt { level: Some(level), .. } => {
                    &&& level == Level::Error ==> shown
                    &&& level == Level::Warn ==> (shown <==> most != Level::Error)
                    &&& level == Level::Info ==> (shown <==> most != Level::Error && most
                        != Level::Warn)
                    &&& level == Level::Debug ==> (shown <==> most == Level::Trace || most
                        == Level::Debug)
                    &&& level == Level::Trace ==> (shown <==> most == Level::Trace)
                },
                LineType::PortHidden(_) => shown <==> buffer.rendering.show_hidden_lines,
                _ => shown,
            }
        }),
{
    let line = buffer.rx@[i];
    let key = crate::buffer::tui::key_of(line, false, i);
    lemma_ordered_keys(buffer, key);
    lemma_port_keys(buffer.rx@, buffer.rendering, buffer.defmt_settings, key);
    if crate::buffer::tui::port_line_shown(line, buffer.rendering, buffer.defmt_settings) {
        assert(buffer.ordered().contains(key));
        let k = choose|k: int| 0 <= k < buffer.ordered().len() && buffer.ordered()[k] == key;
        assert(buffer.ordered()[k].index == i);
    } else if is_among(buffer.ordered(), false, i) {
        let k = choose|k: int|
            0 <= k < buffer.ordered().len() && (#[trigger] buffer.ordered()[k]).is_user == false
                && buffer.ordered()[k].index == i;
        let other = buffer.ordered()[k];
        lemma_ordered_keys(buffer, other);
        lemma_port_keys(buffer.rx@, buffer.rendering, buffer.defmt_settings, other);
        lemma_user_keys(buffer.tx@, buffer.rendering, other);
        assert(buffer.ordered().contains(other));
    }
}

/// Which of the user's own lines are shown, by what was sent.
pub proof fn law_lines_of_the_user_are_shown(buffer: Buffer, i: int)
    requires
        0 <= i < buffer.tx@.len() <= usize::MAX,
        buffer.rx@.len() <= usize::MAX,
    ensures
        ({
            let shown = is_among(buffer.ordered(), true, i);
            let echo = buffer.rendering.echo_user_input;
            buffer.tx@[i].line_type matches LineType::User { is_bytes, is_macro, .. } ==> {
                &&& echo == UserEcho::All ==> shown
                &&& echo == UserEcho::Off ==> !shown
                &&& echo == UserEcho::NoBytes ==> (shown <==> !is_bytes)
                &&& echo == UserEcho::NoMacros ==> (shown <==> !is_macro)
                &&& echo == UserEcho::NoMacrosOrBytes ==> (shown <==> !is_bytes && !is_macro)
            }
        }),
{
    let line = buffer.tx@[i];
    let key = crate::buffer::tui::key_of(line, true, i);
    lemma_ordered_keys(buffer, key);
    lemma_user_keys(buffer.tx@, buffer.rendering, key);
    lemma_port_keys(buffer.rx@, buffer.rendering, buffer.defmt_settings, key);
    if crate::buffer::tui::user_line_shown(line, buffer.rendering)
        && !(buffer.rendering.echo_user_input is Off) {
        assert(buffer.ordered().contains(key));
        let k = choose|k: int| 0 <= k < buffer.ordered().len() && buffer.ordered()[k] == key;
        assert(buffer.ordered()[k].index == i);
    } else if is_among(buffer.ordered(), true, i) {
        let k = choose|k: int|
            0 <= k < buffer.ordered().len() && (#[trigger] buffer.ordered()[k]).is_user == true
                && buffer.ordered()[k].index == i;
        let other = buffer.ordered()[k];
        lemma_ordered_keys(buffer, other);
        lemma_port_keys(buffer.rx@, buffer.rendering, buffer.defmt_settings, other);
        lemma_user_keys(buffer.tx@, buffer.rendering, other);
        assert(buffer.ordered().contains(other));
    }
}

/// Each line that is shown is one of those there are, with its own start, time and height.
pub proof fn law_shown_lines_are_there(buffer: Buffer, k: int)
    requires
        0 <= k < buffer.ordered().len(),
        buffer.tx@.len() <= usize::MAX,
        buffer.rx@.len() <= usize::MAX,
    ensures
        ({
            let key = buffer.ordered()[k];
            let lines = if key.is_user {
                buffer.tx@
            } else {
                buffer.rx@
            };
            &&& key.index < lines.len()
            &&& key.start == lines[key.index as int].range_in_raw_buffer.start
            &&& key.time == lines[key.index as int].timestamp
            &&& key.height == lines[key.index as int].rendered_line_height
        }),
{
    let key = buffer.ordered()[k];
    assert(buffer.ordered().contains(key));
    lemma_ordered_keys(buffer, key);
    lemma_port_keys(buffer.rx@, buffer.rendering, buffer.defmt_settings, key);
    lemma_user_keys(buffer.tx@, buffer.rendering, key);
}

/// Whether no line comes before one that starts earlier among the received bytes, or that
/// starts there too and is older.
pub open spec fn is_sorted(keys: Seq<LineKey>) -> bool {
    forall|i: int, j: int|
        0 <= i < j < keys.len() ==> {
            let (a, b) = (#[trigger] keys[i], #[trigger] keys[j]);
            a.start < b.start || (a.start == b.start && (a.time.secs < b.time.secs || (a.time.secs
                == b.time.secs && a.time.nanos <= b.time.nanos)))
        }
}

proof fn lemma_merged_is_sorted(port: Seq<LineKey>, user: Seq<LineKey>)
    requires
        is_sorted(port),
        is_sorted(user),
    ensures
        is_sorted(crate::buffer::tui::merged(port, user)),
    decreases port.len() + user.len(),
{
    let all = crate::buffer::tui::merged(port, user);
    if port.len() > 0 && user.len() > 0 {
        let (first, rest) = if crate::buffer::tui::port_first(port[0], user[0]) {
            lemma_merged_is_sorted(port.drop_first(), user);
            (port[0], crate::buffer::tui::merged(port.drop_first(), user))
        } else {
            lemma_merged_is_sorted(port, user.drop_first());
            (user[0], crate::buffer::tui::merged(port, user.drop_first()))
        };
        assert(all =~= seq![first] + rest);
        assert forall|i: int, j: int| 0 <= i < j < all.len() implies ({
            let (a, b) = (#[trigger] all[i], #[trigger] all[j]);
            a.start < b.start || (a.start == b.start && (a.time.secs < b.time.secs || (a.time.secs
                == b.time.secs && a.time.nanos <= b.time.nanos)))
        }) by {
            let b = all[j];
            assert(rest[j - 1] == b);
            if i == 0 {
                assert(rest.contains(b));
                if crate::buffer::tui::port_first(port[0], user[0]) {
                    lemma_merged_has_all(port.drop_first(), user, b);
                    if port.drop_first().contains(b) {
                        let m = choose|m: int|
                            0 <= m < port.drop_first().len() && port.drop_first()[m] == b;
                        assert(port[m + 1] == b);
                    } else {
                        let m = choose|m: int| 0 <= m < user.len() && user[m] == b;
                        assert(m == 0 || (user[0].start <= user[m].start));
                    }
                } else {
                    lemma_merged_has_all(port, user.drop_first(), b);
                    if user.drop_first().contains(b) {
                        let m = choose|m: int|
                            0 <= m < user.drop_first().len() && user.drop_first()[m] == b;
                        assert(user[m + 1] == b);
                    } else {
                        let m = choose|m: int| 0 <= m < port.len() && port[m] == b;
                        assert(m == 0 || (port[0].start <= port[m].start));
                    }
                }
            } else {
                assert(rest[i - 1] == all[i]);
            }
        }
    }
}

/// The user's lines stand among those of the port where they belong: if each of the two was
/// recorded in order, everything that is shown is in order.
pub proof fn law_shown_lines_are_in_order(buffer: Buffer)
    requires
        is_sorted(
            crate::buffer::tui::port_keys(buffer.rx@, buffer.rendering, buffer.defmt_settings),
        ),
        is_sorted(crate::buffer::tui::user_keys(buffer.tx@, buffer.rendering)),
    ensures
        is_sorted(buffer.ordered()),
{
    lemma_merged_is_sorted(
        crate::buffer::tui::port_keys(buffer.rx@, buffer.rendering, buffer.defmt_settings),
        crate::buffer::tui::user_keys(buffer.tx@, buffer.rendering),
    );
}

/// Where the user's line and one of the port started at the same byte and time, that of the
/// port comes first.
pub proof fn law_port_comes_first(port: Seq<LineKey>, user: Seq<LineKey>)
    requires
        port.len() > 0,
        user.len() > 0,
    ensures
        ({
            let first = crate::buffer::tui::merged(port, user)[0];
            let (p, u) = (port[0], user[0]);
            &&& p.start < u.start ==> first == p
            &&& p.start > u.start ==> first == u
            &&& p.start == u.start && p.time == u.time ==> first == p
            &&& p.start == u.start && p.time.secs < u.time.secs ==> first == p
            &&& p.start == u.start && p.time.secs > u.time.secs ==> first == u
        }),
{
}

/// Scrolling up and down moves by as many rows as asked for, as far as there are rows.
pub proof fn law_scrolling_moves_by_rows(state: BufferState, rows: i32, total: int, height: int)
    requires
        0 < rows < i32::MAX,
        0 <= height < total <= usize::MAX,
        state.vert_scroll <= total - height,
    ensures
        ({
            let up = crate::buffer::tui::scrolled(state, rows, total, height);
            let down = crate::buffer::tui::scrolled(state, (-rows) as i32, total, height);
            &&& up.vert_scroll == (if state.vert_scroll >= rows {
                state.vert_scroll - rows
            } else {
                0
            })
            &&& !up.stuck_to_bottom
            &&& !state.stuck_to_bottom ==> down.vert_scroll == (if state.vert_scroll + rows <= total
                - height {
                state.vert_scroll + rows
            } else {
                total - height
            })
            &&& !state.stuck_to_bottom ==> (down.stuck_to_bottom <==> state.vert_scroll + rows
                >= total - height)
            &&& up.scrollbar_position == up.vert_scroll
            &&& down.scrollbar_position == down.vert_scroll
            &&& up.scrollbar_length == total - height
        }),
{
}

/// What fits on the screen as a whole does not scroll, and what grows is followed by a view
/// that is stuck to the bottom, but not by another one.
pub proof fn law_growing_content_is_followed(state: BufferState, total: int, height: int)
    requires
        0 <= height <= u16::MAX,
        0 <= total <= usize::MAX,
    ensures
        ({
            let after = crate::buffer::tui::scrolled(state, 0, total, height);
            &&& total <= height && state.vert_scroll == 0 ==> after.vert_scroll == 0
            &&& state.stuck_to_bottom && total > height ==> after.vert_scroll == total - height
                && after.stuck_to_bottom
            &&& !state.stuck_to_bottom && state.vert_scroll + height < total ==> after.vert_scroll
                == state.vert_scroll && !after.stuck_to_bottom
        }),
{
}

} // verus!
