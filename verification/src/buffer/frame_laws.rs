//! What holds of packets and frames, of the log files, and of the hex view.

use vstd::prelude::*;
use vstd::string::*;
use vstd::utf8::*;

use crate::buffer::defmt::Piece;
use crate::buffer::log_defmt::{DecodeView, MessageState};
use crate::buffer::log_worker::{LogActionView, LoggingWorker};
use crate::buffer::logging::TxPayload;
use crate::serial::SerialPortInfo;
use crate::time::Timestamp;

verus! {

/// Some bytes without those that are zero.
pub open spec fn without_zeroes(bytes: Seq<u8>) -> Seq<u8>
    decreases bytes.len(),
{
    if bytes.len() == 0 {
        Seq::empty()
    } else if bytes.last() == 0 {
        without_zeroes(bytes.drop_last())
    } else {
        without_zeroes(bytes.drop_last()).push(bytes.last())
    }
}

/// One for a zero.
pub open spec fn mark(b: u8) -> int {
    if b == 0 {
        1
    } else {
        0
    }
}

/// The byte that tells which of seven bytes are zero, the first one in its lowest bit.
pub open spec fn zero_marks(seven: Seq<u8>) -> int {
    mark(seven[0]) + 2 * mark(seven[1]) + 4 * mark(seven[2]) + 8 * mark(seven[3]) + 16 * mark(
        seven[4],
    ) + 32 * mark(seven[5]) + 64 * mark(seven[6])
}

/// What a packet stands for, and some more bytes.
pub open spec fn and_then(message: Option<Seq<u8>>, more: Seq<u8>) -> Option<Seq<u8>> {
    match message {
        Some(message) => Some(message + more),
        None => None,
    }
}

/// Seven bytes, some of them zero, are packed into those that are not and a byte of marks;
/// unpacking gives the seven bytes again.
pub proof fn law_packed_zeroes(packet: Seq<u8>, seven: Seq<u8>)
    requires
        seven.len() == 7,
        seven.contains(0),
    ensures
        crate::buffer::defmt::rzcobs(
            packet + without_zeroes(seven).push(zero_marks(seven) as u8),
        ) == and_then(crate::buffer::defmt::rzcobs(packet), seven),
{
    let x = zero_marks(seven) as u8;
    let body = without_zeroes(seven);
    let data = packet + body.push(x);
    let at = seven.index_of(0);
    assert(seven[at] == 0);
    assert(0 < zero_marks(seven) < 128) by {
        assert(mark(seven[at]) == 1);
    }
    lemma_marks(seven);
    lemma_unpacked(x, seven, 7);
    assert(seven.take(7) =~= seven);
    assert(data.last() == x);
    let start = data.len() - 1 - body.len();
    assert(data.take(start) =~= packet);
    assert(data.subrange(start, data.len() - 1) =~= body);
}

proof fn lemma_marks(seven: Seq<u8>)
    requires
        seven.len() == 7,
    ensures
        forall|k: int|
            0 <= k < 7 ==> (#[trigger] crate::buffer::defmt::bit_is_zero(
                zero_marks(seven) as u8,
                k,
            ) <==> seven[k] != 0),
{
    let x = zero_marks(seven);
    assert(0 <= x < 128);
    assert(x % 2 == mark(seven[0]));
    assert(x / 2 % 2 == mark(seven[1]));
    assert(x / 4 % 2 == mark(seven[2]));
    assert(x / 8 % 2 == mark(seven[3]));
    assert(x / 16 % 2 == mark(seven[4]));
    assert(x / 32 % 2 == mark(seven[5]));
    assert(x / 64 % 2 == mark(seven[6]));
    assert forall|k: int| 0 <= k < 7 implies (#[trigger] crate::buffer::defmt::bit_is_zero(
        x as u8,
        k,
    ) <==> seven[k] != 0) by {
        if k == 0 {
        } else if k == 1 {
        } else if k == 2 {
        } else if k == 3 {
        } else if k == 4 {
        } else if k == 5 {
        } else {
            assert(k == 6);
        }
    }
}

proof fn lemma_unpacked(x: u8, seven: Seq<u8>, k: int)
    requires
        seven.len() == 7,
        0 <= k <= 7,
        forall|j: int|
            0 <= j < 7 ==> (#[trigger] crate::buffer::defmt::bit_is_zero(x, j) <==> seven[j] != 0),
    ensures
        crate::buffer::defmt::zero_bits(x, k) == without_zeroes(seven.take(k)).len(),
        crate::buffer::defmt::unpacked(x, without_zeroes(seven), k) == seven.take(k),
    decreases k,
{
    if k > 0 {
        lemma_unpacked(x, seven, k - 1);
        assert(crate::buffer::defmt::bit_is_zero(x, k - 1) <==> seven[k - 1] != 0);
        assert(seven.take(k).drop_last() =~= seven.take(k - 1));
        assert(seven.take(k).last() == seven[k - 1]);
        assert(seven.take(k) =~= seven.take(k - 1).push(seven[k - 1]));
        if seven[k - 1] != 0 {
            lemma_kept(seven, k);
        }
    } else {
        assert(seven.take(0) =~= Seq::<u8>::empty());
        assert(crate::buffer::defmt::unpacked(x, without_zeroes(seven), 0) =~= seven.take(0));
    }
}

proof fn lemma_kept(bytes: Seq<u8>, k: int)
    requires
        0 < k <= bytes.len(),
        bytes[k - 1] != 0,
    ensures
        ({
            let i = without_zeroes(bytes.take(k - 1)).len() as int;
            &&& i < without_zeroes(bytes).len()
            &&& without_zeroes(bytes)[i] == bytes[k - 1]
        }),
    decreases bytes.len(),
{
    if k == bytes.len() {
        assert(bytes.take(k - 1) =~= bytes.drop_last());
    } else {
        lemma_kept(bytes.drop_last(), k);
        assert(bytes.drop_last().take(k - 1) =~= bytes.take(k - 1));
    }
}

/// From seven up to a hundred and thirty-three bytes, none of them zero, and a zero behind
/// them are packed into the bytes and one that tells how many there are; one more of them
/// comes without a zero.
pub proof fn law_packed_runs(packet: Seq<u8>, run: Seq<u8>)
    ensures
        7 <= run.len() < 134 ==> crate::buffer::defmt::rzcobs(
            packet + run.push((0x80 + run.len() - 7) as u8),
        ) == and_then(crate::buffer::defmt::rzcobs(packet), run.push(0)),
        run.len() == 134 ==> crate::buffer::defmt::rzcobs(packet + run.push(0xff)) == and_then(
            crate::buffer::defmt::rzcobs(packet),
            run,
        ),
{
    let x: u8 = if run.len() == 134 {
        0xff
    } else {
        (0x80 + run.len() - 7) as u8
    };
    let data = packet + run.push(x);
    if 7 <= run.len() <= 134 {
        assert(data.last() == x);
        let start = data.len() - 1 - run.len();
        assert(data.take(start) =~= packet);
        assert(data.subrange(start, data.len() - 1) =~= run);
    }
}

/// A packet does not hold a zero, and the empty one is an empty message.
pub proof fn law_packets_hold_no_marks(packet: Seq<u8>)
    requires
        packet.len() > 0,
        packet.last() == 0,
    ensures
        crate::buffer::defmt::rzcobs(packet) is None,
        crate::buffer::defmt::rzcobs(Seq::<u8>::empty()) == Some(Seq::<u8>::empty()),
{
}

/// A packet between marks is found as it is, whatever follows it.
pub proof fn law_framed_packet_is_found(packet: Seq<u8>, rest: Seq<u8>)
    requires
        !packet.contains(0),
    ensures
        crate::buffer::defmt::framed_piece(seq![0xffu8, 0x00u8] + packet + seq![0x00u8] + rest)
            == Some((packet.len() as int + 3, Piece::Packet(packet))),
        crate::buffer::defmt::zero_piece(packet + seq![0x00u8] + rest) == Some(
            (packet.len() as int + 1, Piece::Packet(packet)),
        ),
{
    let inner = packet + seq![0x00u8] + rest;
    let bytes = seq![0xffu8, 0x00u8] + packet + seq![0x00u8] + rest;
    lemma_first_zero_at(inner, packet.len() as int);
    assert(inner.take(packet.len() as int) =~= packet);
    assert(bytes.skip(2) =~= inner);
    let start = crate::buffer::defmt::frame_start();
    assert(bytes.subrange(0, 2) =~= start);
    assert(crate::foreign::occurs_at(bytes, start, 0));
    crate::buffer::split::lemma_first_occurrence(bytes, start, 0);
    let first = crate::buffer::split::first_occurrence(bytes, start, 0);
    assert(first is Some) by {
        if first is None {
            assert(!crate::foreign::occurs_at(bytes, start, 0));
        }
    }
    if first->0 > 0 {
        assert(!crate::foreign::occurs_at(bytes, start, 0));
    }
}

proof fn lemma_first_zero_at(bytes: Seq<u8>, at: int)
    requires
        0 <= at < bytes.len(),
        bytes[at] == 0,
        !bytes.take(at).contains(0),
    ensures
        crate::buffer::split::first_occurrence(bytes, seq![0u8], 0) == Some(at),
{
    crate::buffer::defmt::lemma_first_zero(bytes);
    let found = crate::buffer::split::first_occurrence(bytes, seq![0u8], 0);
    assert(bytes.contains(bytes[at]));
    if found->0 < at {
        assert(bytes.take(at)[found->0] == 0);
    } else if found->0 > at {
        assert(bytes.take(found->0)[at] == 0);
    }
}

/// Nothing of what was received is lost between pieces: a piece and its marks are what the
/// data starts with. Text holds no mark, and a byte that may begin one is not taken for text.
pub proof fn law_pieces_are_what_was_received(bytes: Seq<u8>)
    ensures
        match crate::buffer::defmt::framed_piece(bytes) {
            Some((n, Piece::Packet(packet))) => {
                &&& 0 <= n <= bytes.len()
                &&& bytes.take(n) == seq![0xffu8, 0x00u8] + packet + seq![0x00u8]
                &&& !packet.contains(0)
            },
            Some((n, Piece::Text(text))) => {
                &&& 0 < n <= bytes.len()
                &&& bytes.take(n) == text
                &&& forall|i: int|
                    0 <= i < text.len() - 1 ==> !(#[trigger] text[i] == 0xff && text[i + 1] == 0)
                &&& n == bytes.len() ==> text.last() != 0xff
            },
            None => bytes.len() == 0 || bytes == seq![0xffu8] || (bytes.len() >= 2 && bytes[0]
                == 0xff && bytes[1] == 0 && !bytes.skip(2).contains(0)),
        },
        match crate::buffer::defmt::zero_piece(bytes) {
            Some((n, Piece::Packet(packet))) => 0 < n <= bytes.len() && bytes.take(n)
                == packet + seq![0x00u8] && !packet.contains(0),
            Some((_, Piece::Text(_))) => false,
            None => !bytes.contains(0),
        },
{
    let start = crate::buffer::defmt::frame_start();
    crate::buffer::defmt::lemma_first_zero(bytes);
    crate::buffer::split::lemma_first_occurrence(bytes, start, 0);
    let zero = crate::buffer::split::first_occurrence(bytes, seq![0u8], 0);
    if zero is Some {
        assert(bytes.take(zero->0 + 1) =~= bytes.take(zero->0) + seq![0x00u8]);
    }
    let first = crate::buffer::split::first_occurrence(bytes, start, 0);
    assert forall|i: int| 0 <= i < bytes.len() - 1 implies (crate::foreign::occurs_at(
        bytes,
        start,
        i,
    ) <==> #[trigger] bytes[i] == 0xff && bytes[i + 1] == 0) by {
        let two = bytes.subrange(i, i + 2);
        if bytes[i] == 0xff && bytes[i + 1] == 0 {
            assert(two =~= start);
        } else {
            assert(two[0] == bytes[i] && two[1] == bytes[i + 1]);
        }
    }
    if bytes.len() == 0 {
    } else if first is Some && first->0 == 0 {
        assert(crate::foreign::occurs_at(bytes, start, 0));
        let rest = bytes.skip(2);
        crate::buffer::defmt::lemma_first_zero(rest);
        assert(bytes[0] == 0xff && bytes[1] == 0);
        match crate::buffer::split::first_occurrence(rest, seq![0u8], 0) {
            Some(z) => {
                assert(bytes.take(z + 3) =~= seq![0xffu8, 0x00u8] + rest.take(z) + seq![0x00u8]);
            },
            None => {},
        }
    } else if first is Some {
        let n = first->0;
        let text = bytes.take(n);
        assert forall|i: int| 0 <= i < text.len() - 1 implies !(#[trigger] text[i] == 0xff
            && text[i + 1] == 0) by {
            assert(!crate::foreign::occurs_at(bytes, start, i));
            assert(text[i] == bytes[i] && text[i + 1] == bytes[i + 1]);
        }
    } else {
        assert(bytes.take(bytes.len() as int) =~= bytes);
        assert(bytes.take(bytes.len() - 1) =~= bytes.drop_last());
        assert forall|i: int| 0 <= i < bytes.len() - 1 implies !(#[trigger] bytes[i] == 0xff
            && bytes[i + 1] == 0) by {
            assert(!crate::foreign::occurs_at(bytes, start, i));
        }
        if bytes.last() == 0xff && bytes.len() == 1 {
            assert(bytes =~= seq![0xffu8]);
        }
        let front = bytes.drop_last();
        assert forall|i: int| 0 <= i < front.len() - 1 implies !(#[trigger] front[i] == 0xff
            && front[i + 1] == 0) by {
            assert(front[i] == bytes[i] && front[i + 1] == bytes[i + 1]);
        }
    }
}

/// A file is open after a connection if the settings ask for it; one is opened only if it
/// was not open, and closed only if it was and is not asked for any more.
pub proof fn law_log_files_follow_the_settings(
    worker: LoggingWorker,
    started_at: Timestamp,
    port: SerialPortInfo,
)
    ensures
        ({
            let actions = worker.file_actions(started_at, port);
            let after = worker.with_files();
            let opens_raw = exists|i: int|
                0 <= i < actions.len() && (#[trigger] actions[i]) is OpenRaw;
            let opens_text = exists|i: int|
                0 <= i < actions.len() && (#[trigger] actions[i]) is OpenText;
            &&& after.raw_open == worker.settings.log_raw_input_to_file
            &&& after.text_open == worker.settings.log_text_to_file
            &&& after.settings == worker.settings
            &&& after.current_port == worker.current_port
            &&& opens_raw <==> worker.settings.log_raw_input_to_file && !worker.raw_open
            &&& opens_text <==> worker.settings.log_text_to_file && !worker.text_open
            &&& actions.contains(LogActionView::CloseRaw)
                <==> !worker.settings.log_raw_input_to_file && worker.raw_open
            &&& actions.contains(LogActionView::CloseText) <==> !worker.settings.log_text_to_file
                && worker.text_open
            &&& opens_text ==> after.last_rx_completed
        }),
{
    let actions = worker.file_actions(started_at, port);
    let raw_changes = worker.settings.log_raw_input_to_file != worker.raw_open;
    let text_changes = worker.settings.log_text_to_file != worker.text_open;
    assert(actions[0] is EnsureDirectory);
    if raw_changes {
        assert(actions[1] == (if worker.raw_open {
            LogActionView::CloseRaw
        } else {
            LogActionView::OpenRaw(
                crate::buffer::log_worker::timed_name(
                    started_at,
                    crate::buffer::log_worker::RAW_LOG_NAME@,
                ),
            )
        }));
    }
    if text_changes {
        let last = actions[actions.len() - 1];
        assert(worker.text_open ==> last is CloseText);
        assert(!worker.text_open ==> last is OpenText);
    }
    assert(actions.len() == 1 + (if raw_changes {
        1int
    } else {
        0
    }) + (if text_changes {
        1int
    } else {
        0
    }));
}

/// Everything that is open is closed, behind a flush, and nothing else.
pub proof fn law_log_files_are_closed(worker: LoggingWorker, ignore_errors: bool)
    ensures
        ({
            let actions = worker.close_actions(ignore_errors);
            &&& actions[0] == (LogActionView::Flush { ignore_errors })
            &&& actions.contains(LogActionView::CloseRaw) <==> worker.raw_open
            &&& actions.contains(LogActionView::CloseText) <==> worker.text_open
            &&& !worker.closed().raw_open && !worker.closed().text_open
            &&& worker.closed().current_port is None
        }),
{
    let actions = worker.close_actions(ignore_errors);
    assert(actions[0] is Flush);
    if worker.raw_open {
        assert(actions[1] is CloseRaw);
    }
    if worker.text_open {
        assert(actions[actions.len() - 1] is CloseText);
    }
    assert(actions.len() == 1 + (if worker.raw_open {
        1int
    } else {
        0
    }) + (if worker.text_open {
        1int
    } else {
        0
    }));
}

/// What is sent is logged if that is set and the text log is open, and otherwise not; so
/// are connections. Both start on a line of their own.
pub proof fn law_what_is_logged(
    worker: LoggingWorker,
    payload: TxPayload,
    timestamp: Timestamp,
    port: Option<Seq<char>>,
)
    ensures
        worker.tx_output(payload) is Some <==> worker.text_open && worker.settings.log_user_input,
        worker.event_output(timestamp, port).len() == (if worker.text_open
            && worker.settings.log_connection_events {
            1int
        } else {
            0
        }),
        worker.text_open && worker.settings.log_connection_events ==> {
            let line = encode_utf8(
                crate::buffer::logging::event_line(timestamp, worker.settings.timestamp@, port),
            );
            worker.event_output(timestamp, port)[0] == LogActionView::WriteText(
                if worker.last_rx_completed {
                    line
                } else {
                    seq![0x0au8] + line
                },
            )
        },
{
    let line = encode_utf8(
        crate::buffer::logging::event_line(timestamp, worker.settings.timestamp@, port),
    );
    assert(Seq::<u8>::empty() + line =~= line);
}

/// While no messages are expected, received bytes are neither held back nor decoded; else
/// they come behind those that were held back.
pub proof fn law_received_bytes_are_taken_up(
    worker: LoggingWorker,
    timestamp: Timestamp,
    bytes: Seq<u8>,
    table: Option<defmt_decoder::Table>,
)
    requires
        worker.defmt_parsing is Disabled,
    ensures
        worker.received(timestamp, bytes, table).asked is None,
        worker.received(timestamp, bytes, table).state.pending == worker.pending(),
{
}

/// Uncompressed messages are decoded as they are, and none where none are expected.
pub proof fn law_messages_are_decoded(state: MessageState, began: Timestamp, bytes: Seq<u8>)
    requires
        state.pending == Some((began, bytes)),
        bytes.len() > 0,
        state.has_decoder,
        !state.malformed,
    ensures
        state.parsing is Raw ==> state.next_step().decode == Some(bytes),
        state.parsing is Disabled ==> state.next_step().decode is None
            && state.next_step().write is None,
        state.next_step().decode is Some ==> state.next_step().write is None,
{
    reveal(MessageState::next_step);
}

/// A packet is unpacked and then decoded, and what follows it is still to be taken up.
pub proof fn law_packets_are_decoded(
    state: MessageState,
    began: Timestamp,
    packet: Seq<u8>,
    rest: Seq<u8>,
)
    requires
        !packet.contains(0),
        state.has_decoder,
        !state.malformed,
        state.parsing is UnframedRzcobs ==> state.pending == Some(
            (began, packet + seq![0x00u8] + rest),
        ),
        state.parsing is FramedRzcobs ==> state.pending == Some(
            (began, seq![0xffu8, 0x00u8] + packet + seq![0x00u8] + rest),
        ),
        state.parsing is UnframedRzcobs || state.parsing is FramedRzcobs,
    ensures
        state.next_step().decode == crate::buffer::defmt::rzcobs(packet),
        state.next_step().pending == Some((began, rest)),
{
    reveal(MessageState::next_step);
    law_framed_packet_is_found(packet, rest);
    let bytes = (state.pending->0).1;
    if state.parsing is UnframedRzcobs {
        assert(bytes.skip(packet.len() as int + 1) =~= rest);
    } else {
        assert(bytes.skip(packet.len() as int + 3) =~= rest);
    }
}

/// Only uncompressed messages are given up when one is malformed; a frame takes up as many
/// bytes as it consumed, and what is only begun waits for the rest.
pub proof fn law_after_a_message(state: MessageState, began: Timestamp, bytes: Seq<u8>, outcome: DecodeView)
    requires
        state.pending == Some((began, bytes)),
        !state.malformed,
    ensures
        state.after_decoding(outcome).malformed <==> state.parsing is Raw && outcome is Malformed,
        state.parsing is Raw ==> (outcome matches DecodeView::Frame { consumed, .. }
            ==> state.after_decoding(outcome).pending == Some((began, bytes.skip(consumed as int)))),
        state.parsing is Raw && !(outcome is Frame) ==> state.after_decoding(outcome).pending
            == state.pending,
        !(state.parsing is Raw) ==> state.after_decoding(outcome).pending == state.pending,
        outcome is Frame ==> state.after_decoding(outcome).completed,
        state.parsing is Raw && outcome is UnexpectedEof ==> state.decoded_output(
            outcome,
        ).0.len() == 0,
        state.goes_on(outcome) <==> outcome is Frame || !(state.parsing is Raw),
{
    reveal(MessageState::decoded_output);
}

/// Every line of a message stands on a line of the log of its own, behind its time and its
/// mark.
pub proof fn law_lines_of_a_message(lines: Seq<Seq<char>>, line: Seq<char>, time: Seq<char>)
    ensures
        crate::buffer::log_defmt::message_output(lines.push(line), None)
            == crate::buffer::log_defmt::message_output(lines, None) + encode_utf8(
            "[defmt] "@ + line,
        ) + seq![0x0au8],
        crate::buffer::log_defmt::message_output(lines.push(line), Some(time))
            == crate::buffer::log_defmt::message_output(lines, Some(time)) + encode_utf8(
            time + ": "@ + "[defmt] "@ + line,
        ) + seq![0x0au8],
{
    assert(lines.push(line).drop_last() =~= lines);
    assert(crate::buffer::logging::line_header(None, false) + "[defmt] "@ + line
        =~= "[defmt] "@ + line);
    assert(crate::buffer::logging::line_header(Some(time), false) + "[defmt] "@ + line =~= time
        + ": "@ + "[defmt] "@ + line);
}

/// A log begins with the name of its port, on a line of its own.
pub proof fn law_log_names_its_port(port: SerialPortInfo)
    ensures
        ({
            let header = crate::buffer::logging::log_header(port);
            let start = "Port: "@ + port.port_name@;
            &&& header.take(start.len() as int) == start
            &&& header.last() == '\n'
        }),
{
    reveal_strlit("\n");
    let header = crate::buffer::logging::log_header(port);
    let start = "Port: "@ + port.port_name@;
    assert(header.take(start.len() as int) =~= start);
}

/// A connection is logged on a line of its own, behind its time, with the name of the port;
/// its end without one. Where no format for times is set there is a usual one.
pub proof fn law_connections_in_the_log(timestamp: Timestamp, format: Seq<char>, name: Seq<char>)
    ensures
        ({
            let used = if crate::text::trimmed(format).len() == 0 {
                "%Y-%m-%d %H:%M:%S%.9f"@
            } else {
                format
            };
            let time = match timestamp.formatted(used) {
                Some(time) => time,
                None => Seq::empty(),
            };
            &&& crate::buffer::logging::event_line(timestamp, format, Some(name)) == time + (
            " | Connected to "@ + name + "!"@) + "\n"@
            &&& crate::buffer::logging::event_line(timestamp, format, None) == time
                + " | Disconnected from port!"@ + "\n"@
        }),
{
}

/// What is taken up is written before a message is handed out.
pub proof fn law_taken_bytes_are_written(taken: crate::buffer::log_defmt::TakenView)
    ensures
        ({
            let actions = crate::buffer::log_worker::taken_actions(taken);
            &&& actions[0] == LogActionView::WriteText(taken.written)
            &&& taken.asked is None ==> actions.len() == 1
            &&& taken.asked matches Some(message) ==> actions.len() == 2 && actions[1]
                == LogActionView::Decode(message)
        }),
{
}

/// A format that shows a date, nested data, or a long number is not one that can be shown
/// whatever its arguments are.
pub proof fn law_formats_that_cannot_be_shown(all: Seq<Seq<char>>, i: int)
    requires
        0 <= i < all.len(),
        crate::buffer::defmt_table::are_tame(all),
    ensures
        ({
            let format = encode_utf8(all[i]);
            &&& !crate::buffer::defmt_table::occurs(format, encode_utf8("iso8601"@))
            &&& !crate::buffer::defmt_table::occurs(format, encode_utf8("cbor"@))
            &&& forall|k: int|
                0 < k && k + 5 <= format.len() && format[k - 1] == 0x7b ==> !(
                #[trigger] crate::buffer::defmt_table::is_digit(format[k])
                    && crate::buffer::defmt_table::is_digit(format[k + 1])
                    && crate::buffer::defmt_table::is_digit(format[k + 2])
                    && crate::buffer::defmt_table::is_digit(format[k + 3])
                    && crate::buffer::defmt_table::is_digit(format[k + 4]))
        }),
{
    let format = encode_utf8(all[i]);
    assert(crate::buffer::defmt_table::is_tame_format(encode_utf8(all[i])));
    assert forall|k: int|
        0 < k && k + 5 <= format.len() && format[k - 1] == 0x7b implies !(
    #[trigger] crate::buffer::defmt_table::is_digit(format[k])
        && crate::buffer::defmt_table::is_digit(format[k + 1])
        && crate::buffer::defmt_table::is_digit(format[k + 2])
        && crate::buffer::defmt_table::is_digit(format[k + 3])
        && crate::buffer::defmt_table::is_digit(format[k + 4])) by {
        assert(crate::buffer::defmt_table::is_open_at(format, k));
        assert(!crate::buffer::defmt_table::long_number_at(format, k));
    }
}

/// What is received next starts a new line behind an event that was logged, and where the
/// text log was not open before.
pub proof fn law_lines_begin_behind_events(worker: LoggingWorker)
    ensures
        worker.text_open && worker.settings.log_connection_events
            ==> worker.completed_after_event(),
        !(worker.text_open && worker.settings.log_connection_events)
            ==> worker.completed_after_event() == worker.last_rx_completed,
        !worker.text_open ==> worker.with_files().last_rx_completed,
        worker.text_open ==> worker.with_files().last_rx_completed == worker.last_rx_completed,
{
}

} // verus!
