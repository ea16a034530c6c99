//! Log messages in the text log: received bytes are taken apart step by step, and the
//! messages among them decoded.

use defmt_decoder::Table;
use vstd::prelude::*;
use vstd::string::*;
use vstd::utf8::*;

use crate::buffer::defmt::{
    esp_println_delimited, rzcobs_decode, zero_delimited, DefmtSupport, Delimited,
};
use crate::buffer::defmt_table::DefmtTable;
use crate::buffer::log_worker::LoggingWorker;
use crate::buffer::logging::{timestamp_prefix, write_buffer, LogLineType};
use crate::buffer::LineEnding;
use crate::time::Timestamp;

verus! {

/// What comes next with the bytes that were put aside.
#[derive(Debug)]
pub enum DefmtStep {
    /// Nothing until more is received.
    Idle,
    /// Something to write to the text log.
    Write(Vec<u8>),
    /// A message to decode; `defmt_decoded` takes the outcome.
    Decode(Vec<u8>),
}

/// What came of decoding a message.
#[derive(Debug)]
pub enum DecodeOutcome {
    /// A message, and how many bytes it took up.
    Frame { message: String, consumed: usize },
    /// The message is not complete.
    UnexpectedEof,
    /// There is no such message.
    Malformed,
}

/// What came of decoding a message, as plain values.
#[verifier::ext_equal]
pub enum DecodeView {
    Frame { message: Seq<char>, consumed: usize },
    UnexpectedEof,
    Malformed,
}

impl View for DecodeOutcome {
    type V = DecodeView;

    open spec fn view(&self) -> DecodeView {
        match self {
            DecodeOutcome::Frame { message, consumed } => DecodeView::Frame {
                message: message@,
                consumed: *consumed,
            },
            DecodeOutcome::UnexpectedEof => DecodeView::UnexpectedEof,
            DecodeOutcome::Malformed => DecodeView::Malformed,
        }
    }
}

/// What `defmt_decoder::Table::decode` makes of some bytes, with the message as
/// `Frame::display` writes it without colours.
pub uninterp spec fn decoded(table: Table, bytes: Seq<u8>) -> DecodeView;

/// `defmt_decoder::Table::decode` depends on the table and the bytes alone, and so does
/// the text of the frame as `Frame::display` writes it without colours. A frame starts
/// with an index of two bytes, and takes up no more than there is. What the text is, and
/// when there is none, is only named.
///
/// With a table that is not tame these functions may panic: on a date beyond the calendar,
/// on an argument of the size of an address in hexadecimal digits, on a byte string of
/// variants, and on a width, a length or an argument's place that is out of range. With
/// one that is they do not, as long as memory and stack suffice.
#[verifier::external_body]
pub(crate) fn decode_frame(table: &Table, bytes: &[u8]) -> (r: DecodeOutcome)
    requires
        crate::buffer::defmt_table::is_tame(*table),
    ensures
        r@ == decoded(*table, bytes@),
        r matches DecodeOutcome::Frame { consumed, .. } ==> 2 <= consumed <= bytes@.len(),
{
    match table.decode(bytes) {
        Ok((frame, consumed)) => DecodeOutcome::Frame {
            message: frame.display(false).to_string(),
            consumed,
        },
        Err(defmt_decoder::DecodeError::UnexpectedEof) => DecodeOutcome::UnexpectedEof,
        Err(defmt_decoder::DecodeError::Malformed) => DecodeOutcome::Malformed,
    }
}

/// The lines that the first `n` characters of a text make up, and what is left of
/// them. A carriage return in front of a line feed belongs to the end of the line.
pub open spec fn cut_lines(text: Seq<char>, n: int) -> (Seq<Seq<char>>, Seq<char>)
    decreases n,
{
    if n <= 0 {
        (Seq::empty(), Seq::empty())
    } else {
        let (done, current) = cut_lines(text, n - 1);
        let c = text[n - 1];
        if c == '\n' {
            let line = if current.len() > 0 && current.last() == '\r' {
                current.drop_last()
            } else {
                current
            };
            (done.push(line), Seq::empty())
        } else {
            (done, current.push(c))
        }
    }
}

/// The lines of a text.
pub open spec fn text_lines(text: Seq<char>) -> Seq<Seq<char>> {
    let (done, current) = cut_lines(text, text.len() as int);
    if current.len() > 0 {
        done.push(current)
    } else {
        done
    }
}

/// The lines of a text.
pub fn split_text_lines(text: &str) -> (r: Vec<String>)
    ensures
        crate::text::texts(r@) == text_lines(text@),
{
    let mut done: Vec<String> = Vec::new();
    let mut start: usize = 0;
    let mut at: usize = 0;
    let len: usize = text.unicode_len();
    assert(crate::text::texts(done@) =~= cut_lines(text@, 0).0);
    assert(text@.subrange(0, 0) =~= Seq::<char>::empty());
    while at < len
        invariant
            len == text@.len(),
            start <= at <= len,
            crate::text::texts(done@) == cut_lines(text@, at as int).0,
            text@.subrange(start as int, at as int) == cut_lines(text@, at as int).1,
        decreases len - at,
    {
        let ghost current = text@.subrange(start as int, at as int);
        if text.get_char(at) == '\n' {
            let end: usize = if at > start && text.get_char(at - 1) == '\r' {
                at - 1
            } else {
                at
            };
            proof {
                if at > start {
                    assert(current.last() == text@[at - 1]);
                }
                if end < at {
                    assert(text@.subrange(start as int, end as int) =~= current.drop_last());
                }
            }
            let line = text.substring_char(start, end).to_owned();
            let ghost before = done@;
            done.push(line);
            assert(crate::text::texts(done@) =~= crate::text::texts(before).push(line@));
            start = at + 1;
            assert(text@.subrange(start as int, at + 1) =~= Seq::<char>::empty());
        } else {
            assert(text@.subrange(start as int, at + 1) =~= current.push(text@[at as int]));
        }
        at += 1;
    }
    if start < len {
        let line = text.substring_char(start, len).to_owned();
        let ghost before = done@;
        done.push(line);
        assert(crate::text::texts(done@) =~= crate::text::texts(before).push(line@));
    }
    done
}

/// What the lines of a message add to the text log.
pub open spec fn message_output(lines: Seq<Seq<char>>, prefix: Option<Seq<char>>) -> Seq<u8>
    decreases lines.len(),
{
    if lines.len() == 0 {
        Seq::empty()
    } else {
        message_output(lines.drop_last(), prefix) + encode_utf8(
            crate::buffer::logging::line_header(prefix, false) + "[defmt] "@ + lines.last(),
        ) + seq![0x0au8]
    }
}

/// What a message adds to the text log.
pub open spec fn frame_output(
    message: Seq<char>,
    prefix: Option<Seq<char>>,
    completed: bool,
) -> Seq<u8> {
    (if completed {
        Seq::empty()
    } else {
        seq![0x0au8]
    }) + message_output(text_lines(message), prefix)
}

/// What a message adds to the text log.
pub fn write_frame(message: &str, prefix: &Option<String>, completed: bool) -> (r: Vec<u8>)
    ensures
        r@ == frame_output(message@, crate::serial::opt_text(*prefix), completed),
{
    let mut out: Vec<u8> = Vec::new();
    if !completed {
        out.push(0x0a);
    }
    let ghost start = out@;
    let lines = split_text_lines(message);
    let ghost all = crate::text::texts(lines@);
    let ghost prefix_view = crate::serial::opt_text(*prefix);
    let mut i: usize = 0;
    assert(all.take(0) =~= Seq::<Seq<char>>::empty());
    assert(out@ =~= start + message_output(all.take(0), prefix_view));
    while i < lines.len()
        invariant
            i <= lines@.len(),
            all == crate::text::texts(lines@),
            prefix_view == crate::serial::opt_text(*prefix),
            out@ == start + message_output(all.take(i as int), prefix_view),
        decreases lines@.len() - i,
    {
        let mut line = String::new();
        match prefix {
            Some(time) => {
                line.append(time.as_str());
                line.append(": ");
            },
            None => (),
        }
        line.append("[defmt] ");
        line.append(lines[i].as_str());
        proof {
            assert(all.take(i + 1).drop_last() =~= all.take(i as int));
            assert(all.take(i + 1).last() == lines@[i as int]@);
            assert(line@ =~= crate::buffer::logging::line_header(prefix_view, false) + "[defmt] "@
                + lines@[i as int]@);
        }
        let ghost before = out@;
        out.extend_from_slice(line.as_str().as_bytes());
        out.push(0x0a);
        assert(out@ =~= start + message_output(all.take(i + 1), prefix_view));
        i += 1;
    }
    assert(all.take(i as int) =~= all);
    assert(start =~= (if completed {
        Seq::<u8>::empty()
    } else {
        seq![0x0au8]
    }));
    out
}

/// What a remark adds to the text log, and whether the last line is then complete.
pub open spec fn remark(
    text: Seq<char>,
    prefix: Option<Seq<char>>,
    completed: bool,
) -> (Seq<u8>, bool) {
    crate::buffer::logging::lines_output(
        crate::buffer::split::lines_of(encode_utf8(text), Seq::empty()),
        completed,
        prefix,
        LineEnding::Unset,
        LogLineType::DefmtRx,
    )
}

fn write_remark(text: &str, prefix: &Option<String>, completed: bool) -> (r: (Vec<u8>, bool))
    ensures
        (r.0@, r.1) == remark(text@, crate::serial::opt_text(*prefix), completed),
{
    let ending = LineEnding::Unset;
    assert(ending@ =~= Seq::<u8>::empty());
    write_buffer(prefix, text.as_bytes(), completed, &ending, &LogLineType::DefmtRx)
}

/// What the encoding of messages is called.
pub open spec fn encoding_name(parsing: DefmtSupport) -> Seq<char> {
    match parsing {
        DefmtSupport::Disabled => ""@,
        DefmtSupport::FramedRzcobs => "framed rzcobs"@,
        DefmtSupport::UnframedRzcobs => "rzcobs"@,
        DefmtSupport::Raw => "uncompressed"@,
    }
}

/// What is written when there is no table to decode with.
pub open spec fn missing_table_text(parsing: DefmtSupport) -> Seq<char> {
    "defmt table missing, can't decode ("@ + encoding_name(parsing) + "): "@
}

/// The bytes from a position on.
fn rest_of(bytes: &Vec<u8>, from: usize) -> (r: Vec<u8>)
    requires
        from <= bytes@.len(),
    ensures
        r@ == bytes@.skip(from as int),
{
    let mut rest: Vec<u8> = Vec::new();
    let slice = &bytes.as_slice()[from..bytes.len()];
    rest.extend_from_slice(slice);
    assert(rest@ =~= bytes@.skip(from as int));
    rest
}

/// A step as plain values, and what is left after it: what is still put aside, and
/// whether the last line of the text log is complete.
#[verifier::ext_equal]
pub struct StepView {
    pub write: Option<Seq<u8>>,
    pub decode: Option<Seq<u8>>,
    pub pending: Option<(Timestamp, Seq<u8>)>,
    pub completed: bool,
}

/// What decides about the bytes that were put aside.
#[verifier::ext_equal]
pub struct MessageState {
    /// The bytes, and when they began to arrive.
    pub pending: Option<(Timestamp, Seq<u8>)>,
    /// Whether the last line of the text log is complete.
    pub completed: bool,
    /// Whether uncompressed messages were given up.
    pub malformed: bool,
    pub parsing: DefmtSupport,
    pub has_decoder: bool,
    pub time_format: Seq<char>,
    pub line_ending: LineEnding,
}

/// What taking up the bytes that were put aside adds to the text log, what is left then,
/// and the message that is to be decoded elsewhere before it goes on.
#[verifier::ext_equal]
pub struct TakenView {
    pub written: Seq<u8>,
    pub state: MessageState,
    pub asked: Option<Seq<u8>>,
}

/// What taking up the bytes that were put aside adds to the text log, and the message that
/// is to be decoded elsewhere before it goes on.
#[derive(Debug)]
pub struct Taken {
    pub written: Vec<u8>,
    pub asked: Option<Vec<u8>>,
}

impl MessageState {
    /// The time in front of what was put aside.
    pub open spec fn prefix(self) -> Option<Seq<char>> {
        match self.pending {
            Some((began, _)) => crate::buffer::logging::time_prefix(began, self.time_format),
            None => None,
        }
    }

    /// How many bytes are put aside.
    pub open spec fn pending_len(self) -> nat {
        match self.pending {
            Some((_, bytes)) => bytes.len(),
            None => 0,
        }
    }

    /// A step that does nothing.
    pub open spec fn idle_step(self) -> StepView {
        StepView { write: None, decode: None, pending: self.pending, completed: self.completed }
    }

    /// What is done with a packet: it is decompressed, and then to be decoded.
    pub open spec fn packet_step(
        self,
        packet: Seq<u8>,
        began: Timestamp,
        rest: Seq<u8>,
    ) -> StepView {
        match crate::buffer::defmt::rzcobs(packet) {
            Some(message) => StepView {
                decode: Some(message),
                pending: Some((began, rest)),
                ..self.idle_step()
            },
            None => {
                let (out, completed) = remark(
                    "malformed rzcobs packet"@,
                    self.prefix(),
                    self.completed,
                );
                StepView { write: Some(out), decode: None, pending: Some((began, rest)), completed }
            },
        }
    }

    /// What received text adds to the text log.
    pub open spec fn text_output(self, text: Seq<u8>) -> (Seq<u8>, bool) {
        crate::buffer::logging::lines_output(
            crate::buffer::split::lines_of(text, self.line_ending@),
            self.completed,
            self.prefix(),
            self.line_ending,
            LogLineType::Rx,
        )
    }

    /// What comes next with the bytes that were put aside.
    #[verifier::opaque]
    pub open spec fn next_step(self) -> StepView {
        if self.malformed {
            StepView { pending: None, ..self.idle_step() }
        } else {
            match self.pending {
                None => self.idle_step(),
                Some((began, bytes)) => if bytes.len() == 0 || self.parsing is Disabled {
                    self.idle_step()
                } else if !self.has_decoder {
                    StepView {
                        write: Some(
                            (if self.completed {
                                Seq::empty()
                            } else {
                                seq![0x0au8]
                            }) + remark(
                                missing_table_text(self.parsing),
                                self.prefix(),
                                true,
                            ).0 + seq![0x0au8],
                        ),
                        decode: None,
                        pending: Some((began, Seq::empty())),
                        completed: true,
                    }
                } else if self.parsing is Raw {
                    StepView { decode: Some(bytes), ..self.idle_step() }
                } else {
                    let piece = if self.parsing is UnframedRzcobs {
                        crate::buffer::defmt::zero_piece(bytes)
                    } else {
                        crate::buffer::defmt::framed_piece(bytes)
                    };
                    match piece {
                        None => self.idle_step(),
                        Some((n, crate::buffer::defmt::Piece::Packet(packet))) => self.packet_step(
                            packet,
                            began,
                            bytes.skip(n),
                        ),
                        Some((n, crate::buffer::defmt::Piece::Text(text))) => {
                            let (out, completed) = self.text_output(text);
                            StepView {
                                write: Some(out),
                                decode: None,
                                pending: Some((began, bytes.skip(n))),
                                completed,
                            }
                        },
                    }
                },
            }
        }
    }

    /// After a step.
    pub open spec fn stepped(self) -> MessageState {
        MessageState {
            pending: self.next_step().pending,
            completed: self.next_step().completed,
            ..self
        }
    }

    /// What the outcome of decoding adds to the text log, and whether its last line
    /// is then complete.
    #[verifier::opaque]
    pub open spec fn decoded_output(self, outcome: DecodeView) -> (Seq<u8>, bool) {
        match outcome {
            DecodeView::Frame { message, .. } => (
                frame_output(message, self.prefix(), self.completed),
                true,
            ),
            _ => if self.parsing is Raw {
                if outcome is UnexpectedEof {
                    (Seq::empty(), self.completed)
                } else {
                    remark(
                        "malformed defmt packet, ceasing further decode attempts"@,
                        self.prefix(),
                        self.completed,
                    )
                }
            } else {
                remark(
                    "malformed defmt packet"@,
                    self.prefix(),
                    self.parsing is UnframedRzcobs || self.completed,
                )
            },
        }
    }

    /// After a message was decoded, or not: an uncompressed one is only now taken off
    /// what was put aside.
    pub open spec fn after_decoding(self, outcome: DecodeView) -> MessageState {
        MessageState {
            pending: match (self.pending, outcome) {
                (
                    Some((began, bytes)),
                    DecodeView::Frame { consumed, .. },
                ) => if self.parsing is Raw {
                    Some((began, bytes.skip(consumed as int)))
                } else {
                    self.pending
                },
                _ => self.pending,
            },
            completed: self.decoded_output(outcome).1,
            malformed: self.malformed || (self.parsing is Raw && outcome is Malformed),
            ..self
        }
    }

    /// Whether there may be more to take up right away after a message was decoded, or
    /// not.
    pub open spec fn goes_on(self, outcome: DecodeView) -> bool {
        !(self.parsing is Raw) || outcome is Frame
    }

    /// What all steps together add to the text log, and what is left then. Each step
    /// takes something off what was put aside. Messages are decoded with a tame table
    /// right away; with another one it ends at the first of them.
    #[verifier::opaque]
    pub open spec fn taken_up(self, table: Option<Table>) -> TakenView
        decreases self.pending_len(),
    {
        let step = self.next_step();
        let (out, next, goes_on, asked) = match (step.write, step.decode, table) {
            (Some(out), _, _) => (out, self.stepped(), true, None),
            (None, Some(message), Some(table)) => if crate::buffer::defmt_table::is_tame(table) {
                let outcome = decoded(table, message);
                (
                    self.stepped().decoded_output(outcome).0,
                    self.stepped().after_decoding(outcome),
                    self.stepped().goes_on(outcome),
                    None,
                )
            } else {
                (Seq::empty(), self.stepped(), false, Some(message))
            },
            _ => (Seq::empty(), self.stepped(), false, None),
        };
        if goes_on && next.pending_len() < self.pending_len() {
            let rest = next.taken_up(table);
            TakenView { written: out + rest.written, ..rest }
        } else {
            TakenView { written: out, state: next, asked }
        }
    }

    /// Going on with what is put aside once a message was decoded elsewhere.
    pub open spec fn resumed(self, outcome: DecodeView, table: Option<Table>) -> TakenView {
        let out = self.decoded_output(outcome).0;
        let next = self.after_decoding(outcome);
        if self.goes_on(outcome) {
            let rest = next.taken_up(table);
            TakenView { written: out + rest.written, ..rest }
        } else {
            TakenView { written: out, state: next, asked: None }
        }
    }
}

impl LoggingWorker {
    /// What decides about the bytes that were put aside, with or without a table to
    /// decode them with.
    pub open spec fn messages(&self, has_decoder: bool) -> MessageState {
        MessageState {
            pending: self.pending(),
            completed: self.last_rx_completed,
            malformed: self.raw_malformed,
            parsing: self.defmt_parsing,
            has_decoder,
            time_format: self.settings.timestamp@,
            line_ending: self.line_ending,
        }
    }

    /// Takes up the bytes that were put aside, one step at a time.
    pub fn next_defmt_step(&mut self, has_decoder: bool) -> (step: DefmtStep)
        ensures
            ({
                let next = old(self).messages(has_decoder).next_step();
                &&& match step {
                    DefmtStep::Idle => next.write is None && next.decode is None,
                    DefmtStep::Write(out) => next.write == Some(out@) && next.decode is None,
                    DefmtStep::Decode(message) => next.decode == Some(message@)
                        && next.write is None,
                }
                &&& final(self).pending() == next.pending
                &&& *final(self) == (LoggingWorker {
                    unconsumed: final(self).unconsumed,
                    last_rx_completed: next.completed,
                    ..*old(self)
                })
            }),
    {
        proof {
            reveal(MessageState::next_step);
        }
        if self.raw_malformed {
            self.unconsumed = None;
            return DefmtStep::Idle;
        }
        let (began, bytes) = match self.unconsumed.take() {
            Some((began, bytes)) => (began, bytes),
            None => {
                return DefmtStep::Idle;
            },
        };
        let disabled = match self.defmt_parsing {
            DefmtSupport::Disabled => true,
            _ => false,
        };
        if bytes.len() == 0 || disabled {
            self.unconsumed = Some((began, bytes));
            return DefmtStep::Idle;
        }
        let prefix = timestamp_prefix(began, self.settings.timestamp.as_str());
        if !has_decoder {
            let mut text = "defmt table missing, can't decode (".to_owned();
            let encoding = match self.defmt_parsing {
                DefmtSupport::Disabled => "",
                DefmtSupport::FramedRzcobs => "framed rzcobs",
                DefmtSupport::UnframedRzcobs => "rzcobs",
                DefmtSupport::Raw => "uncompressed",
            };
            text.append(encoding);
            text.append("): ");
            let mut out: Vec<u8> = Vec::new();
            if !self.last_rx_completed {
                out.push(0x0a);
            }
            let (line, _completed) = write_remark(text.as_str(), &prefix, true);
            out.extend_from_slice(line.as_slice());
            out.push(0x0a);
            self.last_rx_completed = true;
            let left: Vec<u8> = Vec::new();
            assert(left@ =~= Seq::<u8>::empty());
            self.unconsumed = Some((began, left));
            assert(out@ =~= old(self).messages(has_decoder).next_step().write->0);
            return DefmtStep::Write(out);
        }
        let framed = match self.defmt_parsing {
            DefmtSupport::FramedRzcobs => true,
            _ => false,
        };
        let found = match self.defmt_parsing {
            DefmtSupport::Disabled => None,
            DefmtSupport::Raw => {
                let mut copy: Vec<u8> = Vec::new();
                copy.extend_from_slice(bytes.as_slice());
                assert(copy@ =~= bytes@);
                self.unconsumed = Some((began, bytes));
                return DefmtStep::Decode(copy);
            },
            DefmtSupport::UnframedRzcobs => zero_delimited(bytes.as_slice()),
            DefmtSupport::FramedRzcobs => esp_println_delimited(bytes.as_slice()),
        };
        match found {
            None => {
                self.unconsumed = Some((began, bytes));
                DefmtStep::Idle
            },
            Some((consumed, Delimited::Packet(start, end))) => {
                let packet = &bytes.as_slice()[start..end];
                let decoded = rzcobs_decode(packet);
                self.unconsumed = Some((began, rest_of(&bytes, consumed)));
                match decoded {
                    Some(message) => DefmtStep::Decode(message),
                    None => {
                        let (out, completed) = write_remark(
                            "malformed rzcobs packet",
                            &prefix,
                            self.last_rx_completed,
                        );
                        self.last_rx_completed = completed;
                        DefmtStep::Write(out)
                    },
                }
            },
            Some((consumed, Delimited::Text(start, end))) => {
                let text = &bytes.as_slice()[start..end];
                let (out, completed) = write_buffer(
                    &prefix,
                    text,
                    self.last_rx_completed,
                    &self.line_ending,
                    &LogLineType::Rx,
                );
                self.last_rx_completed = completed;
                self.unconsumed = Some((began, rest_of(&bytes, consumed)));
                DefmtStep::Write(out)
            },
        }
    }

    /// Takes the outcome of decoding a message: returns what it adds to the text log,
    /// and whether there may be more to take up right away.
    ///
    /// An uncompressed message is only now taken off what was put aside.
    pub fn defmt_decoded(&mut self, outcome: DecodeOutcome) -> (r: (Vec<u8>, bool))
        requires
            old(self).pending() is Some,
            old(self).defmt_parsing is Raw && outcome is Frame ==> outcome->consumed
                <= (old(self).pending()->0).1.len(),
        ensures
            r.0@ == old(self).messages(true).decoded_output(outcome@).0,
            r.1 == old(self).messages(true).goes_on(outcome@),
            final(self).messages(true) == old(self).messages(true).after_decoding(outcome@),
            *final(self) == (LoggingWorker {
                unconsumed: final(self).unconsumed,
                last_rx_completed: final(self).last_rx_completed,
                raw_malformed: final(self).raw_malformed,
                ..*old(self)
            }),
    {
        proof {
            reveal(MessageState::decoded_output);
        }
        let is_raw = match self.defmt_parsing {
            DefmtSupport::Raw => true,
            _ => false,
        };
        let is_unframed = match self.defmt_parsing {
            DefmtSupport::UnframedRzcobs => true,
            _ => false,
        };
        let prefix = match &self.unconsumed {
            Some((began, _)) => timestamp_prefix(*began, self.settings.timestamp.as_str()),
            None => None,
        };
        match outcome {
            DecodeOutcome::Frame { message, consumed } => {
                let out = write_frame(message.as_str(), &prefix, self.last_rx_completed);
                self.last_rx_completed = true;
                if is_raw {
                    match self.unconsumed.take() {
                        Some((began, bytes)) => {
                            self.unconsumed = Some((began, rest_of(&bytes, consumed)));
                        },
                        None => (),
                    }
                }
                (out, true)
            },
            DecodeOutcome::UnexpectedEof => {
                if is_raw {
                    let out: Vec<u8> = Vec::new();
                    assert(out@ =~= Seq::<u8>::empty());
                    (out, false)
                } else {
                    let (out, completed) = write_remark(
                        "malformed defmt packet",
                        &prefix,
                        is_unframed || self.last_rx_completed,
                    );
                    self.last_rx_completed = completed;
                    (out, true)
                }
            },
            DecodeOutcome::Malformed => {
                if is_raw {
                    self.raw_malformed = true;
                    let (out, completed) = write_remark(
                        "malformed defmt packet, ceasing further decode attempts",
                        &prefix,
                        self.last_rx_completed,
                    );
                    self.last_rx_completed = completed;
                    (out, false)
                } else {
                    let (out, completed) = write_remark(
                        "malformed defmt packet",
                        &prefix,
                        is_unframed || self.last_rx_completed,
                    );
                    self.last_rx_completed = completed;
                    (out, true)
                }
            },
        }
    }

    /// Takes up all bytes that were put aside, as far as they make up messages: returns
    /// what they add to the text log. Where not every message of the table can be shown,
    /// it ends at the first one, and hands it out; `resume_with_defmt` takes the outcome.
    pub fn consume_with_defmt(&mut self, table: Option<&DefmtTable>) -> (r: Taken)
        ensures
            ({
                let taken = old(self).messages(table is Some).taken_up(table_of(table));
                &&& r.written@ == taken.written
                &&& asked_of(r) == taken.asked
                &&& final(self).messages(table is Some) == taken.state
            }),
            *final(self) == (LoggingWorker {
                unconsumed: final(self).unconsumed,
                last_rx_completed: final(self).last_rx_completed,
                raw_malformed: final(self).raw_malformed,
                ..*old(self)
            }),
    {
        let mut out: Vec<u8> = Vec::new();
        let has_decoder = table.is_some();
        let ghost goal = old(self).messages(has_decoder).taken_up(table_of(table));
        assert(out@ + goal.written =~= goal.written);
        loop
            invariant
                has_decoder == (table is Some),
                goal == old(self).messages(has_decoder).taken_up(table_of(table)),
                goal == ({
                    let rest = self.messages(has_decoder).taken_up(table_of(table));
                    TakenView { written: out@ + rest.written, ..rest }
                }),
                *self == (LoggingWorker {
                    unconsumed: self.unconsumed,
                    last_rx_completed: self.last_rx_completed,
                    raw_malformed: self.raw_malformed,
                    ..*old(self)
                }),
            decreases self.messages(has_decoder).pending_len(),
        {
            let ghost before = self.messages(has_decoder);
            proof {
                lemma_steps_take_something(before);
                lemma_taken_up(before, table_of(table));
            }
            match self.next_defmt_step(has_decoder) {
                DefmtStep::Idle => {
                    assert(self.messages(has_decoder) =~= before.stepped());
                    assert(out@ =~= goal.written);
                    return Taken { written: out, asked: None };
                },
                DefmtStep::Write(bytes) => {
                    assert(self.messages(has_decoder) =~= before.stepped());
                    out.extend_from_slice(bytes.as_slice());
                    assert(out@ + before.stepped().taken_up(table_of(table)).written
                        =~= goal.written);
                },
                DefmtStep::Decode(message) => {
                    assert(self.messages(has_decoder) =~= before.stepped());
                    match table {
                        Some(decoder) => {
                            if !decoder.tame() {
                                assert(out@ =~= goal.written);
                                return Taken { written: out, asked: Some(message) };
                            }
                            let outcome = decode_frame(decoder.table(), message.as_slice());
                            let ghost next = before.stepped().after_decoding(outcome@);
                            let (bytes, goes_on) = self.defmt_decoded(outcome);
                            out.extend_from_slice(bytes.as_slice());
                            assert(self.messages(has_decoder) == next);
                            if !goes_on {
                                assert(out@ =~= goal.written);
                                return Taken { written: out, asked: None };
                            }
                            assert(out@ + next.taken_up(table_of(table)).written =~= goal.written);
                        },
                        None => {
                            return Taken { written: out, asked: None };
                        },
                    }
                },
            }
        }
    }

    /// Takes the outcome of decoding the message that was handed out, and goes on with
    /// what is put aside.
    pub fn resume_with_defmt(&mut self, outcome: DecodeOutcome, table: Option<&DefmtTable>) -> (r:
        Taken)
        requires
            old(self).pending() is Some,
            old(self).defmt_parsing is Raw && outcome is Frame ==> outcome->consumed
                <= (old(self).pending()->0).1.len(),
        ensures
            ({
                let taken = old(self).messages(table is Some).resumed(outcome@, table_of(table));
                &&& r.written@ == taken.written
                &&& asked_of(r) == taken.asked
                &&& final(self).messages(table is Some) == taken.state
            }),
            *final(self) == (LoggingWorker {
                unconsumed: final(self).unconsumed,
                last_rx_completed: final(self).last_rx_completed,
                raw_malformed: final(self).raw_malformed,
                ..*old(self)
            }),
    {
        let has_decoder = table.is_some();
        let ghost before = self.messages(has_decoder);
        proof {
            reveal(MessageState::decoded_output);
        }
        let (bytes, goes_on) = self.defmt_decoded(outcome);
        let mut written = bytes;
        assert(self.messages(has_decoder) =~= before.after_decoding(outcome@));
        if !goes_on {
            return Taken { written, asked: None };
        }
        let rest = self.consume_with_defmt(table);
        written.extend_from_slice(rest.written.as_slice());
        Taken { written, asked: rest.asked }
    }
}

/// The table behind a reference to it.
pub open spec fn table_of(table: Option<&DefmtTable>) -> Option<Table> {
    match table {
        Some(table) => Some(table@),
        None => None,
    }
}

/// The message that is to be decoded elsewhere.
pub open spec fn asked_of(taken: Taken) -> Option<Seq<u8>> {
    match taken.asked {
        Some(message) => Some(message@),
        None => None,
    }
}

proof fn lemma_steps_take_something(state: MessageState)
    ensures
        state.next_step().write is Some ==> state.stepped().pending_len() < state.pending_len(),
        state.next_step().decode is Some ==> {
            &&& state.has_decoder
            &&& state.pending is Some
            &&& state.stepped().pending is Some
            &&& state.parsing is Raw ==> {
                &&& state.stepped().pending == state.pending
                &&& state.next_step().decode == Some((state.pending->0).1)
                &&& (state.pending->0).1.len() > 0
            }
            &&& !(state.parsing is Raw) ==> state.stepped().pending_len() < state.pending_len()
        },
{
    reveal(MessageState::next_step);
    if let Some((_, bytes)) = state.pending {
        crate::buffer::defmt::lemma_pieces_take_something(bytes);
    }
}

/// Taking up bytes begins with one step.
proof fn lemma_taken_up(state: MessageState, table: Option<Table>)
    ensures
        state.next_step().write is None && state.next_step().decode is None ==> state.taken_up(
            table,
        ) == (TakenView { written: Seq::<u8>::empty(), state: state.stepped(), asked: None }),
        state.next_step().write matches Some(out) ==> state.taken_up(table) == (TakenView {
            written: out + state.stepped().taken_up(table).written,
            ..state.stepped().taken_up(table)
        }),
        state.next_step().write is None && table is Some ==> (state.next_step().decode matches Some(
            message,
        ) ==> if crate::buffer::defmt_table::is_tame(table->0) {
            let outcome = decoded(table->0, message);
            let next = state.stepped().after_decoding(outcome);
            let out = state.stepped().decoded_output(outcome).0;
            &&& !state.stepped().goes_on(outcome) ==> state.taken_up(table) == (TakenView {
                written: out,
                state: next,
                asked: None,
            })
            &&& next.pending_len() < state.pending_len() && state.stepped().goes_on(outcome)
                ==> state.taken_up(table) == (TakenView {
                written: out + next.taken_up(table).written,
                ..next.taken_up(table)
            })
        } else {
            state.taken_up(table) == (TakenView {
                written: Seq::<u8>::empty(),
                state: state.stepped(),
                asked: Some(message),
            })
        }),
{
    reveal(MessageState::taken_up);
    lemma_steps_take_something(state);
}

/// A step that writes or hands out a compressed packet takes something off what was
/// put aside, so that taking it all up comes to an end.
pub proof fn law_steps_make_progress(state: MessageState)
    requires
        state.next_step().write is Some || state.next_step().decode is Some,
        !(state.parsing is Raw),
    ensures
        state.stepped().pending_len() < state.pending_len(),
{
    lemma_steps_take_something(state);
}

} // verus!
