//! Writing what is received and sent to log files.

use vstd::prelude::*;
use vstd::string::*;
use vstd::utf8::*;

use crate::buffer::split::line_ending_ranges;
use crate::buffer::LineEnding;
use crate::serial::{hex_id_string, SerialPortInfo, SerialPortType};
use crate::text::{concat3, trim};
use crate::time::Timestamp;
use crate::traits::ByteSuffixCheck;

verus! {

/// The format of times where none is set.
pub const DEFAULT_TIMESTAMP_FORMAT: &'static str = "%Y-%m-%d %H:%M:%S%.9f";

/// The logging worker is gone.
#[derive(Clone, Copy, Debug, PartialEq, Eq, Structural)]
pub struct LoggingWorkerMissing;

/// What the logging worker tells.
#[derive(Debug)]
pub enum LoggingEvent {
    FinishedReconsumption,
    Error(String),
}

/// What is logged, and how.
#[derive(Debug)]
pub struct Logging {
    pub log_text_to_file: bool,
    pub log_raw_input_to_file: bool,
    pub log_user_input: bool,
    pub log_connection_events: bool,
    /// The format of the time in front of a line; none if it is blank.
    pub timestamp: String,
}

impl Logging {
    /// The same settings again.
    pub fn duplicate(&self) -> (r: Logging)
        ensures
            r == *self,
    {
        Logging {
            log_text_to_file: self.log_text_to_file,
            log_raw_input_to_file: self.log_raw_input_to_file,
            log_user_input: self.log_user_input,
            log_connection_events: self.log_connection_events,
            timestamp: self.timestamp.clone(),
        }
    }
}

/// Something that was sent.
#[derive(Debug)]
pub struct TxPayload {
    pub timestamp: Timestamp,
    pub bytes: Vec<u8>,
    pub line_ending: Vec<u8>,
}

/// What a line of the text log is.
#[derive(Debug)]
pub enum LogLineType {
    /// Received.
    Rx,
    /// Sent by the user.
    Tx { line_ending: Vec<u8> },
    /// Decoded from what was received.
    DefmtRx,
}

/// The lower-case hexadecimal digit for a value.
pub open spec fn lower_digit(d: int) -> u8 {
    if d < 10 {
        (0x30 + d) as u8
    } else {
        (0x57 + d) as u8
    }
}

/// A byte as it stands in the text log: printable ASCII as it is, the rest escaped.
pub open spec fn ascii_escape(b: u8) -> Seq<u8> {
    if b == 0x09 {
        seq![0x5cu8, 0x74u8]
    } else if b == 0x0d {
        seq![0x5cu8, 0x72u8]
    } else if b == 0x0a {
        seq![0x5cu8, 0x6eu8]
    } else if b == 0x27 || b == 0x22 || b == 0x5c {
        seq![0x5cu8, b]
    } else if 0x20 <= b <= 0x7e {
        seq![b]
    } else {
        seq![0x5cu8, 0x78u8, lower_digit((b / 16) as int), lower_digit((b % 16) as int)]
    }
}

/// Some bytes as they stand in the text log.
pub open spec fn ascii_escaped(bytes: Seq<u8>) -> Seq<u8>
    decreases bytes.len(),
{
    if bytes.len() == 0 {
        Seq::empty()
    } else {
        ascii_escaped(bytes.drop_last()) + ascii_escape(bytes.last())
    }
}

fn hex_char(d: u8) -> (r: u8)
    requires
        d < 16,
    ensures
        r == lower_digit(d as int),
{
    if d < 10 {
        0x30 + d
    } else {
        0x57 + d
    }
}

/// Adds a byte as it stands in the text log.
fn push_escaped(out: &mut Vec<u8>, b: u8)
    ensures
        final(out)@ == old(out)@ + ascii_escape(b),
{
    if b == 0x09 {
        out.push(0x5c);
        out.push(0x74);
    } else if b == 0x0d {
        out.push(0x5c);
        out.push(0x72);
    } else if b == 0x0a {
        out.push(0x5c);
        out.push(0x6e);
    } else if b == 0x27 || b == 0x22 || b == 0x5c {
        out.push(0x5c);
        out.push(b);
    } else if 0x20 <= b && b <= 0x7e {
        out.push(b);
    } else {
        out.push(0x5c);
        out.push(0x78);
        out.push(hex_char(b / 16));
        out.push(hex_char(b % 16));
    }
    assert(out@ =~= old(out)@ + ascii_escape(b));
}

/// Adds some bytes as they stand in the text log.
fn push_all_escaped(out: &mut Vec<u8>, bytes: &[u8])
    ensures
        final(out)@ == old(out)@ + ascii_escaped(bytes@),
{
    let mut i: usize = 0;
    let ghost before = out@;
    assert(out@ =~= before + ascii_escaped(bytes@.take(0)));
    while i < bytes.len()
        invariant
            i <= bytes@.len(),
            before == old(out)@,
            out@ == before + ascii_escaped(bytes@.take(i as int)),
        decreases bytes@.len() - i,
    {
        proof {
            assert(bytes@.take(i + 1).drop_last() =~= bytes@.take(i as int));
            assert(bytes@.take(i + 1).last() == bytes@[i as int]);
        }
        let ghost so_far = out@;
        push_escaped(out, bytes[i]);
        assert(out@ =~= before + ascii_escaped(bytes@.take(i + 1)));
        i += 1;
    }
    assert(bytes@.take(i as int) =~= bytes@);
}

proof fn lemma_escape_is_printable(b: u8)
    ensures
        forall|i: int|
            0 <= i < ascii_escape(b).len() ==> 0x20 <= #[trigger] ascii_escape(b)[i] <= 0x7e,
{
}

/// Whatever is received or sent, its part of the text log is printable ASCII, so
/// that a line of the log is one line.
pub proof fn law_escaped_bytes_are_printable(bytes: Seq<u8>)
    ensures
        forall|i: int|
            0 <= i < ascii_escaped(bytes).len() ==> 0x20 <= #[trigger] ascii_escaped(bytes)[i]
                <= 0x7e,
    decreases bytes.len(),
{
    if bytes.len() > 0 {
        law_escaped_bytes_are_printable(bytes.drop_last());
        lemma_escape_is_printable(bytes.last());
        let init = ascii_escaped(bytes.drop_last());
        assert forall|i: int| 0 <= i < ascii_escaped(bytes).len() implies 0x20
            <= #[trigger] ascii_escaped(bytes)[i] <= 0x7e by {
            if i < init.len() {
                assert(ascii_escaped(bytes)[i] == init[i]);
            } else {
                assert(ascii_escaped(bytes)[i] == ascii_escape(bytes.last())[i - init.len()]);
            }
        }
    }
}

/// The time in front of a line; none if the format is blank or cannot be used.
pub open spec fn time_prefix(timestamp: Timestamp, format: Seq<char>) -> Option<Seq<char>> {
    if crate::text::trimmed(format).len() == 0 {
        None
    } else {
        timestamp.formatted(format)
    }
}

/// The time in front of a line; none if the format is blank or cannot be used.
pub fn timestamp_prefix(timestamp: Timestamp, format: &str) -> (r: Option<String>)
    ensures
        crate::serial::opt_text(r) == time_prefix(timestamp, format@),
{
    if trim(format).is_empty() {
        None
    } else {
        timestamp.format(format)
    }
}

/// What stands in front of a line.
pub open spec fn line_header(prefix: Option<Seq<char>>, is_tx: bool) -> Seq<char> {
    (match prefix {
        Some(time) => time + ": "@,
        None => Seq::empty(),
    }) + (if is_tx {
        "[USER] "@
    } else {
        Seq::empty()
    })
}

/// Whether received text goes on where the last stopped.
pub open spec fn appendable(kind: LogLineType) -> bool {
    kind is Rx
}

/// The escaped line ending behind a line of the user.
pub open spec fn sent_ending(kind: LogLineType) -> Seq<u8> {
    match kind {
        LogLineType::Tx { line_ending } => ascii_escaped(line_ending@),
        _ => Seq::empty(),
    }
}

/// What is written for one line, given whether the last one was complete.
pub open spec fn line_output(
    line: Seq<u8>,
    completed: bool,
    prefix: Option<Seq<char>>,
    ending: LineEnding,
    kind: LogLineType,
) -> Seq<u8> {
    (if completed || !appendable(kind) {
        (if !completed {
            seq![0x0au8]
        } else {
            Seq::empty()
        }) + encode_utf8(line_header(prefix, kind is Tx))
    } else {
        Seq::empty()
    }) + ascii_escaped(line) + sent_ending(kind) + (if line_completed(line, ending, kind) {
        seq![0x0au8]
    } else {
        Seq::empty()
    })
}

/// Whether a line is complete once it is written.
pub open spec fn line_completed(line: Seq<u8>, ending: LineEnding, kind: LogLineType) -> bool {
    ending.ends(line) || !appendable(kind)
}

/// What is written for some lines, and whether the last of them is complete.
pub open spec fn lines_output(
    lines: Seq<Seq<u8>>,
    completed: bool,
    prefix: Option<Seq<char>>,
    ending: LineEnding,
    kind: LogLineType,
) -> (Seq<u8>, bool)
    decreases lines.len(),
{
    if lines.len() == 0 {
        (Seq::empty(), completed)
    } else {
        let (before, was_completed) = lines_output(
            lines.drop_last(),
            completed,
            prefix,
            ending,
            kind,
        );
        (
            before + line_output(lines.last(), was_completed, prefix, ending, kind),
            line_completed(lines.last(), ending, kind),
        )
    }
}

/// What some bytes add to the text log, and whether the last line is then complete.
pub fn write_buffer(
    prefix: &Option<String>,
    bytes: &[u8],
    last_line_was_completed: bool,
    line_ending: &LineEnding,
    kind: &LogLineType,
) -> (r: (Vec<u8>, bool))
    ensures
        (r.0@, r.1) == lines_output(
            crate::buffer::split::lines_of(bytes@, line_ending@),
            last_line_was_completed,
            crate::serial::opt_text(*prefix),
            *line_ending,
            *kind,
        ),
{
    let is_tx = match kind {
        LogLineType::Tx { .. } => true,
        _ => false,
    };
    let is_appendable = match kind {
        LogLineType::Rx => true,
        _ => false,
    };
    let mut header = String::new();
    match prefix {
        Some(time) => {
            header.append(time.as_str());
            header.append(": ");
        },
        None => (),
    }
    if is_tx {
        header.append("[USER] ");
    }
    let ghost prefix_view = crate::serial::opt_text(*prefix);
    assert(header@ =~= line_header(prefix_view, is_tx));
    let ranges = line_ending_ranges(bytes, line_ending);
    let ghost lines = crate::buffer::split::lines_of(bytes@, line_ending@);
    let mut out: Vec<u8> = Vec::new();
    let mut completed = last_line_was_completed;
    let mut i: usize = 0;
    proof {
        assert(lines.take(0) =~= Seq::<Seq<u8>>::empty());
        assert(out@ =~= Seq::<u8>::empty());
    }
    while i < ranges.len()
        invariant
            i <= ranges@.len(),
            crate::buffer::split::within(bytes@, ranges@),
            lines == crate::buffer::split::slices(bytes@, ranges@),
            is_tx == (*kind is Tx),
            is_appendable == appendable(*kind),
            header@ == line_header(prefix_view, is_tx),
            (out@, completed) == lines_output(
                lines.take(i as int),
                last_line_was_completed,
                prefix_view,
                *line_ending,
                *kind,
            ),
        decreases ranges@.len() - i,
    {
        let (start, end) = ranges[i];
        let line = &bytes[start..end];
        proof {
            assert(ranges@[i as int].0 <= ranges@[i as int].1 <= bytes@.len());
            assert(lines[i as int] == line@);
            assert(lines.take(i + 1).drop_last() =~= lines.take(i as int));
            assert(lines.take(i + 1).last() == line@);
        }
        let ghost so_far = out@;
        let ghost was = completed;
        if completed || !is_appendable {
            if !completed {
                out.push(0x0a);
            }
            out.extend_from_slice(header.as_str().as_bytes());
        }
        let ghost headed = out@;
        push_all_escaped(&mut out, line);
        match kind {
            LogLineType::Tx { line_ending: sent } => {
                push_all_escaped(&mut out, sent.as_slice());
            },
            _ => (),
        }
        completed = line.has_line_ending(line_ending) || !is_appendable;
        if completed {
            out.push(0x0a);
        }
        proof {
            assert(out@ =~= so_far + line_output(line@, was, prefix_view, *line_ending, *kind));
        }
        i += 1;
    }
    assert(lines.take(i as int) =~= lines);
    (out, completed)
}

/// The header of a text log: which port it is of.
pub open spec fn log_header(port: SerialPortInfo) -> Seq<char> {
    "Port: "@ + port.port_name@ + " | "@ + (match port.port_type {
        SerialPortType::BluetoothPort => "BT"@,
        SerialPortType::PciPort => "PCI"@,
        SerialPortType::Unknown => "Unknown"@,
        SerialPortType::UsbPort(usb) => "USB ("@ + crate::serial::hex_id(usb.pid) + ":"@
            + crate::serial::hex_id(usb.vid) + (match usb.serial_number {
            Some(serial) => ":"@ + serial@,
            None => Seq::empty(),
        }) + ")"@,
    }) + "\n"@
}

/// The header of a text log: which port it is of.
pub fn header_text(port: &SerialPortInfo) -> (r: String)
    ensures
        r@ == log_header(*port),
{
    let mut s = "Port: ".to_owned();
    s.append(port.port_name.as_str());
    s.append(" | ");
    match &port.port_type {
        SerialPortType::BluetoothPort => s.append("BT"),
        SerialPortType::PciPort => s.append("PCI"),
        SerialPortType::Unknown => s.append("Unknown"),
        SerialPortType::UsbPort(usb) => {
            s.append("USB (");
            s.append(hex_id_string(usb.pid).as_str());
            s.append(":");
            s.append(hex_id_string(usb.vid).as_str());
            match &usb.serial_number {
                Some(serial) => {
                    s.append(":");
                    s.append(serial.as_str());
                },
                None => (),
            }
            s.append(")");
        },
    }
    s.append("\n");
    assert(s@ =~= log_header(*port));
    s
}

/// The format that connection events are timed with.
pub open spec fn event_format(format: Seq<char>) -> Seq<char> {
    if crate::text::trimmed(format).len() == 0 {
        DEFAULT_TIMESTAMP_FORMAT@
    } else {
        format
    }
}

/// The line that a connection event adds to the text log; a time that cannot be
/// written is left out.
pub open spec fn event_line(timestamp: Timestamp, format: Seq<char>, port: Option<Seq<char>>) -> Seq<
    char,
> {
    (match timestamp.formatted(event_format(format)) {
        Some(time) => time,
        None => Seq::empty(),
    }) + (match port {
        Some(name) => " | Connected to "@ + name + "!"@,
        None => " | Disconnected from port!"@,
    }) + "\n"@
}

/// The line that a connection event adds to the text log.
pub fn event_text(timestamp: Timestamp, format: &str, port: Option<&SerialPortInfo>) -> (r: String)
    ensures
        r@ == event_line(
            timestamp,
            format@,
            match port {
                Some(port) => Some(port.port_name@),
                None => None,
            },
        ),
{
    let used = if trim(format).is_empty() {
        DEFAULT_TIMESTAMP_FORMAT
    } else {
        format
    };
    let mut s = match timestamp.format(used) {
        Some(time) => time,
        None => String::new(),
    };
    match port {
        Some(port) => {
            let text = concat3(" | Connected to ", port.port_name.as_str(), "!");
            s.append(text.as_str());
        },
        None => s.append(" | Disconnected from port!"),
    }
    s.append("\n");
    s
}

} // verus!
