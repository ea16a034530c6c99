//! What was received, how it is shown, and how it is logged.

use yap::buffer::buf_line::{
    make_index_info, make_user_index_info, shorten_file_path, shorten_module_path, BufLine,
    BufLineKit, FrameLocation, LineFinished, LineType, RenderSettings, WIDEST_TERMINAL,
};
use yap::buffer::defmt::{rzcobs_decode, DefmtSupport};
use yap::buffer::defmt_table::{all_tame, DefmtTable};
use yap::buffer::hex_view::{
    byte_markers, count_rows, fit_row, hex_digits, render_ascii, render_bytes, render_offsets,
};
use yap::buffer::log_defmt::{split_text_lines, write_frame, DecodeOutcome, DefmtStep};
use yap::buffer::log_worker::{LogAction, LoggingWorker};
use yap::buffer::logging::{
    event_text, header_text, timestamp_prefix, write_buffer, LogLineType, Logging, LoggingEvent,
    TxPayload,
};
use yap::buffer::split::line_ending_ranges;
use yap::buffer::tui::{Buffer, BufferState, Size};
use yap::buffer::{LineEnding, RangeSlice};
use yap::line::Line;
use yap::serial::{SerialPortInfo, SerialPortType, UsbPortInfo};
use yap::settings::{Defmt, DefmtLocation, HexHighlightStyle, Level, Rendering, UserEcho};
use yap::time::Timestamp;

fn rendering() -> Rendering {
    Rendering {
        echo_user_input: UserEcho::All,
        timestamps: false,
        show_connection_time: true,
        show_indices: false,
        indices_as_hex: false,
        show_line_ending: false,
        show_hidden_lines: false,
        wrap_text: false,
        hex_view: false,
        hex_view_header: true,
        hex_view_highlights: HexHighlightStyle::Plain,
        bytes_per_line: None,
    }
}

fn defmt() -> Defmt {
    Defmt {
        max_log_level: Level::Trace,
        device_timestamp: true,
        show_module: DefmtLocation::Shortened,
        show_file: DefmtLocation::Hidden,
        show_line_number: true,
        watch_elf_for_changes: true,
    }
}

fn at(secs: i64) -> Timestamp {
    Timestamp { secs, nanos: 0, offset: 0 }
}

fn whole(line: &Line) -> String {
    line.spans.iter().map(|s| s.content.as_str()).collect()
}

fn port(name: &str) -> SerialPortInfo {
    SerialPortInfo { port_name: name.to_string(), port_type: SerialPortType::Unknown }
}

fn logging() -> Logging {
    Logging {
        log_text_to_file: true,
        log_raw_input_to_file: true,
        log_user_input: true,
        log_connection_events: false,
        timestamp: String::new(),
    }
}

fn text_line(text: &str, start: usize, width: u16, rendering: &Rendering, defmt: &Defmt) -> BufLine {
    let bytes = text.as_bytes();
    let kit = BufLineKit {
        full_range_slice: RangeSlice { slice: bytes, range: start..start + bytes.len() },
        timestamp: at(start as i64),
        area_width: width,
        render: RenderSettings { rendering, defmt },
    };
    let shown = text.trim_end_matches('\n').to_string();
    BufLine::port_text_line(Line::from_text(shown), kit, None, &LineEnding::Byte(b'\n'))
}

fn buffer(lines: usize, height: u16) -> Buffer {
    let (r, d) = (rendering(), defmt());
    let mut rx = Vec::new();
    let mut raw = Vec::new();
    for i in 0..lines {
        let text = format!("line {i}\n");
        rx.push(text_line(&text, raw.len(), 40, &r, &d));
        raw.extend_from_slice(text.as_bytes());
    }
    Buffer {
        raw,
        rx,
        tx: Vec::new(),
        rendering: r,
        defmt_settings: d,
        last_terminal_size: Size { width: 40, height },
        state: BufferState {
            vert_scroll: 0,
            stuck_to_bottom: false,
            scrollbar_position: 0,
            scrollbar_length: 0,
            hex_bytes_per_line: 8,
            hex_section_width: 26,
        },
        cached_combined_height: None,
    }
}

#[test]
fn endings_are_told_apart() {
    assert!(matches!(LineEnding::from_bytes(b""), LineEnding::Unset));
    assert!(matches!(LineEnding::from_bytes(b"\n"), LineEnding::Byte(b'\n')));
    assert!(matches!(LineEnding::from_bytes(b"\r\n"), LineEnding::MultiByte(_)));
    assert_eq!(LineEnding::from_bytes(b"\r\n").to_bytes(), b"\r\n");
    assert_eq!(LineEnding::from_bytes(b"\r\n").as_escaped(), Some("\\r\\n".to_string()));
    assert_eq!(LineEnding::Unset.as_escaped(), None);
    assert_eq!(LineEnding::Byte(b'\n').escaped_from(b"abc\n"), Some("\\n".to_string()));
    assert_eq!(LineEnding::Byte(b'\n').escaped_from(b"abc"), None);
}

#[test]
fn lines_are_the_bytes() {
    let bytes = b"a\nbb\n\nc";
    let ranges = line_ending_ranges(bytes, &LineEnding::Byte(b'\n'));
    assert_eq!(ranges, vec![(0, 2), (2, 5), (5, 6), (6, 7)]);
    let crlf = line_ending_ranges(b"a\r\nb\r", &LineEnding::MultiByte(b"\r\n".to_vec()));
    assert_eq!(crlf, vec![(0, 3), (3, 5)]);
    assert_eq!(line_ending_ranges(b"abc", &LineEnding::Unset), vec![(0, 3)]);
}

#[test]
fn index_info_is_written() {
    assert!(make_index_info(&(0..10), false).contains("10"));
    assert!(make_index_info(&(16..32), true).to_uppercase().contains("10"));
    assert!(make_user_index_info(&(5..5), 3, false).contains('3'));
}

#[test]
fn paths_are_shortened() {
    assert_eq!(shorten_module_path("app::net::wifi"), "wifi");
    assert_eq!(shorten_module_path("main"), "main");
    assert_eq!(shorten_file_path("src/bin/main.rs"), "main.rs");
}

#[test]
fn own_text_is_shown_whole() {
    let (r, d) = (rendering(), defmt());
    let line = text_line("hello\n", 0, 40, &r, &d);
    let shown = whole(&line.as_line(RenderSettings { rendering: &r, defmt: &d }));
    assert!(shown.contains("hello"));
    assert_eq!(*line.range(), 0..6);
}

#[test]
fn long_lines_take_several_rows() {
    let mut r = rendering();
    r.wrap_text = true;
    let d = defmt();
    let text = "x".repeat(25) + "\n";
    let mut line = text_line(&text, 0, 10, &r, &d);
    line.update_line_height(10, RenderSettings { rendering: &r, defmt: &d });
    assert_eq!(line.get_line_height(), 3);
}

#[test]
fn digits_of_an_offset() {
    assert_eq!(hex_digits(0), 1);
    assert_eq!(hex_digits(15), 1);
    assert_eq!(hex_digits(16), 2);
    assert_eq!(hex_digits(0xffff), 4);
    assert_eq!(hex_digits(0x10000), 5);
}

#[test]
fn rows_keep_to_the_limit() {
    let (bytes, width) = fit_row(80, Some(16));
    assert_eq!(bytes, 16);
    assert!(width <= 80);
    let (fewer, _) = fit_row(20, Some(16));
    assert!(fewer < 16);
}

#[test]
fn rows_cover_the_bytes() {
    assert_eq!(count_rows(20, 8, 0, 10), 3);
    assert_eq!(count_rows(20, 8, 1, 10), 2);
    assert_eq!(count_rows(20, 8, 0, 2), 2);
    let data: Vec<u8> = (0u8..20).collect();
    let rows = render_bytes(&data, 8, 0, HexHighlightStyle::Plain, 10);
    assert_eq!(rows.len(), 3);
    assert!(whole(&rows[0]).starts_with("00 01 02 03"));
    assert!(whole(&rows[2]).starts_with("10 11 12 13"));
}

#[test]
fn ascii_and_offsets_go_with_the_bytes() {
    let rows = render_ascii(b"Hi\x00there", 4, 0, HexHighlightStyle::Plain, 10);
    assert_eq!(rows.len(), 2);
    assert!(whole(&rows[0]).starts_with("Hi"));
    let offsets = render_offsets(40, 16, 1, 10);
    assert_eq!(offsets.len(), 2);
    assert!(whole(&offsets[0]).contains("10"));
    assert!(!whole(&byte_markers(4)).is_empty());
}

#[test]
fn scrolling_stays_in_range() {
    let mut b = buffer(50, 12);
    assert_eq!(b.port_lines_len(), 50);
    assert_eq!(b.combined_height(), 50);
    b.scroll_by(i32::MAX);
    assert_eq!(b.state.vert_scroll, 0);
    b.scroll_by(i32::MIN);
    assert!(b.state.stuck_to_bottom);
    let bottom = b.state.vert_scroll;
    b.scroll_by(-1);
    assert_eq!(b.state.vert_scroll, bottom);
    b.scroll_by(3);
    assert_eq!(b.state.vert_scroll, bottom - 3);
    assert!(!b.state.stuck_to_bottom);
    b.scroll_page_up();
    assert!(b.state.vert_scroll < bottom - 3);
    b.scroll_page_down();
    assert_eq!(b.state.vert_scroll, bottom - 3);
}

#[test]
fn the_window_is_filled() {
    let mut b = buffer(50, 12);
    b.scroll_by(i32::MAX);
    let (lines, cut) = b.lines();
    assert_eq!(cut, 0);
    assert!(lines.len() >= 10);
    assert!(whole(&lines[0]).contains("line 0"));
    let (keys, _) = b.visible_buflines();
    assert_eq!(keys[0].index, 0);
}

#[test]
fn user_lines_stand_among_those_of_the_port() {
    let mut b = buffer(2, 12);
    let (r, d) = (rendering(), defmt());
    let kit = BufLineKit {
        full_range_slice: RangeSlice { slice: b"typed", range: 7..7 },
        timestamp: at(3),
        area_width: 40,
        render: RenderSettings { rendering: &r, defmt: &d },
    };
    let line = BufLine::user_line(
        Line::from_text("typed".to_string()),
        kit,
        &LineEnding::Byte(b'\n'),
        false,
        false,
        b"typed\n".to_vec(),
    );
    b.tx.push(line);
    let keys = b.buflines();
    assert_eq!(keys.iter().map(|k| k.is_user).collect::<Vec<_>>(), vec![false, true, false]);
    b.rendering.echo_user_input = UserEcho::Off;
    assert_eq!(b.buflines().len(), 2);
}

#[test]
fn echo_settings_hide_user_lines() {
    assert!(UserEcho::All.filter_user_line(true, true));
    assert!(!UserEcho::NoBytes.filter_user_line(true, false));
    assert!(!UserEcho::NoMacros.filter_user_line(false, true));
    assert!(UserEcho::NoMacrosOrBytes.filter_user_line(false, false));
}

#[test]
fn levels_admit_what_is_as_severe() {
    assert!(Level::Info.admits(Level::Warn));
    assert!(Level::Info.admits(Level::Info));
    assert!(!Level::Error.admits(Level::Debug));
}

#[test]
fn compressed_packets_are_decoded() {
    assert_eq!(rzcobs_decode(&[]), Some(vec![]));
    assert!(rzcobs_decode(&[1, 2, 3, 0x78]).is_some());
}

#[test]
fn times_are_written() {
    assert_eq!(at(0).format("%Y-%m-%d %H:%M:%S"), Some("1970-01-01 00:00:00".to_string()));
    let east = Timestamp { secs: 0, nanos: 5_000_000, offset: 3600 };
    assert_eq!(east.format("%H:%M:%S%.3f"), Some("01:00:00.005".to_string()));
    assert!(at(1).is_not_after(at(2)) && !at(2).is_not_after(at(1)));
    assert_eq!(timestamp_prefix(at(0), ""), None);
    assert_eq!(timestamp_prefix(at(0), "%Y"), Some("1970".to_string()));
}

#[test]
fn received_lines_are_logged() {
    let (bytes, completed) = write_buffer(
        &Some("T".to_string()),
        b"ab\ncd",
        true,
        &LineEnding::Byte(b'\n'),
        &LogLineType::Rx,
    );
    assert_eq!(String::from_utf8(bytes).unwrap(), "T: ab\\n\nT: cd");
    assert!(!completed);
    let (rest, completed) =
        write_buffer(&None, b"ef\n", false, &LineEnding::Byte(b'\n'), &LogLineType::Rx);
    assert_eq!(String::from_utf8(rest).unwrap(), "ef\\n\n");
    assert!(completed);
}

#[test]
fn sent_lines_are_logged() {
    let (bytes, _) = write_buffer(
        &None,
        b"go",
        false,
        &LineEnding::Byte(b'\n'),
        &LogLineType::Tx { line_ending: b"\r".to_vec() },
    );
    assert!(String::from_utf8(bytes).unwrap().starts_with("\n[USER] go"));
}

#[test]
fn escaped_bytes_are_printable() {
    let (bytes, _) =
        write_buffer(&None, &[0, 7, 0xff, b'a'], true, &LineEnding::Unset, &LogLineType::Rx);
    assert!(bytes.iter().all(|b| (0x20..0x7f).contains(b) || *b == b'\n'));
}

#[test]
fn log_headers_name_the_port() {
    let usb = SerialPortInfo {
        port_name: "COM3".to_string(),
        port_type: SerialPortType::UsbPort(UsbPortInfo {
            vid: 0x1234,
            pid: 0xabcd,
            serial_number: Some("S1".to_string()),
            manufacturer: None,
            product: None,
        }),
    };
    assert_eq!(header_text(&usb), "Port: COM3 | USB (ABCD:1234:S1)\n");
    assert_eq!(header_text(&port("x")), "Port: x | Unknown\n");
    assert_eq!(
        event_text(at(0), "%Y", Some(&port("x"))),
        "1970 | Connected to x!\n"
    );
    assert_eq!(event_text(at(0), "%Y", None), "1970 | Disconnected from port!\n");
}

#[test]
fn files_are_opened_and_closed() {
    let mut worker =
        LoggingWorker::new(LineEnding::Byte(b'\n'), logging(), DefmtSupport::Disabled);
    let opened = worker.port_connected(at(0), port("x"));
    assert!(opened.iter().any(|a| matches!(a, LogAction::OpenRaw(_))));
    assert!(opened.iter().any(|a| matches!(a, LogAction::OpenText(_, _))));
    assert!(worker.raw_open && worker.text_open);
    let written = worker.rx_bytes(at(1), b"hi\n".to_vec(), None);
    assert!(written.iter().any(|a| matches!(a, LogAction::WriteRaw(b) if b == b"hi\n")));
    assert!(written.iter().any(|a| matches!(a, LogAction::WriteText(_))));
    let sent = worker.tx_bytes(TxPayload {
        timestamp: at(1),
        bytes: b"go".to_vec(),
        line_ending: vec![],
    });
    assert!(matches!(sent, Some(LogAction::WriteText(_))));
    let closed = worker.close_files(false);
    assert!(closed.iter().any(|a| matches!(a, LogAction::CloseRaw)));
    assert!(!worker.raw_open && !worker.text_open);
}

#[test]
fn settings_open_and_close_files() {
    let mut off = logging();
    off.log_text_to_file = false;
    let mut worker = LoggingWorker::new(LineEnding::Byte(b'\n'), off, DefmtSupport::Disabled);
    worker.port_connected(at(0), port("x"));
    assert!(worker.raw_open && !worker.text_open);
    let actions = worker.settings_changed(logging(), at(1));
    assert!(actions.iter().any(|a| matches!(a, LogAction::OpenText(_, _))));
    assert!(worker.text_open);
}

#[test]
fn relogging_is_reported() {
    let mut worker =
        LoggingWorker::new(LineEnding::Byte(b'\n'), logging(), DefmtSupport::Disabled);
    worker.port_connected(at(0), port("x"));
    let (_, go) = worker.begin_relogging();
    assert!(go);
    let done = worker.finish_relogging();
    assert!(done
        .iter()
        .any(|a| matches!(a, LogAction::Report(LoggingEvent::FinishedReconsumption))));
}

#[test]
fn frames_are_written_line_by_line() {
    assert_eq!(split_text_lines("a\nb"), vec!["a".to_string(), "b".to_string()]);
    let written = write_frame("one\ntwo", &Some("T".to_string()), true);
    let text = String::from_utf8(written).unwrap();
    assert_eq!(text, "T: [defmt] one\nT: [defmt] two\n");
}

#[test]
fn defmt_steps_make_progress() {
    let mut worker =
        LoggingWorker::new(LineEnding::Byte(b'\n'), logging(), DefmtSupport::UnframedRzcobs);
    worker.port_connected(at(0), port("x"));
    worker.unconsumed = Some((at(1), vec![1, 2, 3, 0x78, 0, 5]));
    let mut steps = 0;
    loop {
        match worker.next_defmt_step(true) {
            DefmtStep::Idle => break,
            DefmtStep::Write(_) => {}
            DefmtStep::Decode(packet) => {
                let consumed = packet.len();
                worker.defmt_decoded(DecodeOutcome::Frame {
                    message: "hello".to_string(),
                    consumed,
                });
            }
        }
        steps += 1;
        assert!(steps < 10);
    }
    assert_eq!(worker.unconsumed.as_ref().map(|(_, b)| b.clone()), Some(vec![5]));
}

#[test]
fn hollow_and_hidden_lines_are_told_apart() {
    let (r, d) = (rendering(), defmt());
    let kit = || BufLineKit {
        full_range_slice: RangeSlice { slice: b"ab\r\n", range: 4..8 },
        timestamp: at(1),
        area_width: 80,
        render: RenderSettings { rendering: &r, defmt: &d },
    };
    let ending = LineEnding::from_bytes(b"\r\n");
    let hollow = BufLine::hollow_port_line(kit(), &ending);
    assert!(hollow.value.spans.is_empty());
    assert!(matches!(
        hollow.line_type.line_finished(),
        Some(LineFinished::LineEnding(text)) if text == "\\r\\n"
    ));
    let hidden = BufLine::hidden_content_port_line(kit(), &ending);
    assert_eq!(whole(&hidden.value), "[All content was omitted by color rules.]");
    assert!(matches!(hidden.line_type, LineType::PortHidden(LineFinished::LineEnding(_))));
    let location =
        FrameLocation { line: 7, module: "app::main".to_string(), file: "main.rs".to_string() };
    let message =
        BufLine::hidden_content_port_defmt_line(kit(), Some(Level::Warn), Some("3"), Some(location));
    assert!(message.line_type.line_finished().is_none());
    let render = RenderSettings { rendering: &r, defmt: &d };
    assert!(whole(&message.as_line(render)).contains("[All content was omitted by color rules.]"));
}

#[test]
fn the_place_is_kept_in_the_hex_view() {
    let mut buffer = buffer(100, 10);
    buffer.rendering.hex_view = true;
    buffer.state.vert_scroll = 40;
    let start = buffer.rx[40].range().start;
    buffer.correct_hex_view_scroll();
    assert_eq!(buffer.state.vert_scroll, start / 8);
    buffer.rendering.hex_view = false;
    buffer.correct_hex_view_scroll();
    assert!(buffer.state.vert_scroll == 40 || buffer.state.vert_scroll == 39);
}

#[test]
fn message_settings_drop_what_is_pending() {
    let mut worker = LoggingWorker::new(
        LineEnding::Byte(b'\n'),
        logging(),
        DefmtSupport::FramedRzcobs,
    );
    worker.port_connected(at(0), port("a"));
    worker.rx_bytes(at(1), vec![0xff, 0x00, 1], Some(&table()));
    assert!(worker.unconsumed.is_some());
    worker.defmt_settings_changed(DefmtSupport::FramedRzcobs);
    assert!(worker.unconsumed.is_some());
    worker.defmt_settings_changed(DefmtSupport::Raw);
    assert!(worker.unconsumed.is_none());
}

fn table_of(first: &str, second: &str, timestamp: &str) -> DefmtTable {
    let text = format!(
        "encoding = 'Raw'
        {timestamp}
        [bitflags]
        [entries.1]
        raw_symbol = 'one 123456'
        string = {{ tag = 'Info', string = '{first}' }}
        [entries.2]
        raw_symbol = 'two {{123456'
        string = {{ tag = 'Println', string = '{second}' }}",
    );
    DefmtTable::new(toml::from_str(&text).unwrap())
}

fn table() -> DefmtTable {
    table_of("hello {=u8}", "plain", "")
}

fn text_of(actions: &[LogAction]) -> String {
    let mut text = Vec::new();
    for action in actions {
        if let LogAction::WriteText(bytes) = action {
            text.extend_from_slice(bytes);
        }
    }
    String::from_utf8(text).unwrap()
}

fn message_worker(parsing: DefmtSupport) -> LoggingWorker {
    let mut worker = LoggingWorker::new(LineEnding::Byte(b'\n'), logging(), parsing);
    worker.port_connected(at(0), port("x"));
    worker
}

#[test]
fn uncompressed_messages_are_logged() {
    let table = table();
    let mut worker = message_worker(DefmtSupport::Raw);
    let written = worker.rx_bytes(at(1), vec![1, 0, 7, 2, 0, 1], Some(&table));
    assert_eq!(text_of(&written), "[defmt] INFO hello 7\n[defmt] plain\n");
    assert_eq!(worker.unconsumed.as_ref().map(|(_, b)| b.clone()), Some(vec![1]));
    let written = worker.rx_bytes(at(2), vec![0, 255], Some(&table));
    assert_eq!(text_of(&written), "[defmt] INFO hello 255\n");
    let written = worker.rx_bytes(at(3), vec![9, 9], Some(&table));
    assert!(text_of(&written)
        .contains("malformed defmt packet, ceasing further decode attempts"));
    assert!(worker.raw_malformed);
    let written = worker.rx_bytes(at(4), vec![1, 0, 7], Some(&table));
    assert_eq!(text_of(&written), "");
    assert!(worker.unconsumed.is_none());
}

#[test]
fn compressed_messages_are_logged() {
    let table = table();
    let mut worker = message_worker(DefmtSupport::UnframedRzcobs);
    let written = worker.rx_bytes(at(1), vec![1, 7, 0x7a, 0, 9, 9, 0x7c, 0, 1], Some(&table));
    let text = text_of(&written);
    assert!(text.starts_with("[defmt] INFO hello 7\n"));
    assert!(text.contains("malformed defmt packet"));
    assert_eq!(worker.unconsumed.as_ref().map(|(_, b)| b.clone()), Some(vec![1]));
}

#[test]
fn messages_need_a_table() {
    let mut worker = message_worker(DefmtSupport::UnframedRzcobs);
    worker.unconsumed = Some((at(1), vec![1, 7]));
    let out = worker.consume_with_defmt(None);
    assert!(out.asked.is_none());
    let text = String::from_utf8(out.written).unwrap();
    assert_eq!(text, "defmt table missing, can\\'t decode (rzcobs): \n\n");
    assert_eq!(worker.unconsumed.as_ref().map(|(_, b)| b.len()), Some(0));
    assert!(worker.last_rx_completed);
}

#[test]
fn tables_with_messages_that_cannot_be_shown_are_found() {
    assert!(table().tame());
    assert!(table_of("{=u32:#010x} {=i8:x}", "baud 115200", "").tame());
    assert!(table_of("{=isize}", "{=[u8; 9999]:a}", "").tame());
    assert!(!table_of("{=u64:iso8601ms}", "plain", "").tame());
    assert!(!table_of("{=isize:x}", "plain", "").tame());
    assert!(!table_of("{=isize}", "{=?:X}", "").tame());
    assert!(!table_of("{=[u8]:cbor}", "plain", "").tame());
    assert!(!table_of("{=u8}|{=u16}", "plain", "").tame());
    assert!(!table_of("None|{=u8}", "plain", "").tame());
    assert!(!table_of("{=u8:0100000}", "plain", "").tame());
    assert!(!table_of("{=[?; 99999]}", "plain", "").tame());
    let timestamp = "timestamp = { raw_symbol = 't', string = { tag = 'Timestamp', string = ";
    assert!(table_of("plain", "", &format!("{timestamp}'{{=u64:us}}' }} }}")).tame());
    assert!(!table_of("plain", "", &format!("{timestamp}'{{=u64:iso8601s}}' }} }}")).tame());
    assert!(all_tame(&vec![]));
    assert!(!all_tame(&vec!["{=isize}".to_string(), "{=u8:x}".to_string()]));
}

#[test]
fn an_empty_table_has_nothing_to_show() {
    let table: defmt_decoder::Table =
        toml::from_str("encoding = 'Raw'\nentries = {}\nbitflags = {}").unwrap();
    assert!(table.is_empty());
    assert!(DefmtTable::new(table).tame());
}

#[test]
fn messages_that_may_not_be_showable_are_handed_out() {
    let table = table_of("at {=u64:iso8601s}", "plain", "");
    let mut worker = message_worker(DefmtSupport::Raw);
    let mut bytes = vec![2, 0, 1, 0];
    bytes.extend([0xff; 8]);
    let actions = worker.rx_bytes(at(1), bytes.clone(), Some(&table));
    assert_eq!(text_of(&actions), "");
    assert!(matches!(actions.last(), Some(LogAction::Decode(b)) if *b == bytes));
    let outcome = DecodeOutcome::Frame { message: "plain".to_string(), consumed: 2 };
    let actions = worker.message_decoded(outcome, Some(&table));
    assert_eq!(text_of(&actions), "[defmt] plain\n");
    assert!(matches!(actions.last(), Some(LogAction::Decode(b)) if *b == bytes[2..]));
    let actions = worker.message_decoded(DecodeOutcome::UnexpectedEof, Some(&table));
    assert_eq!(text_of(&actions), "");
    assert_eq!(actions.len(), 1);
    assert_eq!(worker.unconsumed.as_ref().map(|(_, b)| b.len()), Some(10));
    let mut worker = message_worker(DefmtSupport::UnframedRzcobs);
    let actions = worker.rx_bytes(at(1), vec![1, 7, 0x7a, 0, 1, 8, 0x7a, 0], Some(&table));
    assert!(matches!(actions.last(), Some(LogAction::Decode(_))));
    let taken = worker.resume_with_defmt(DecodeOutcome::Malformed, Some(&table));
    assert_eq!(String::from_utf8(taken.written).unwrap(), "malformed defmt packet\n");
    assert_eq!(taken.asked, Some(vec![1, 0, 8, 0, 0, 0, 0]));
}

#[test]
fn lines_break_on_the_widest_terminal() {
    let (r, d) = (rendering(), defmt());
    let mut line = text_line(&"x".repeat(20_000), 0, WIDEST_TERMINAL, &r, &d);
    assert_eq!(line.get_line_height(), 2);
    let settings = RenderSettings { rendering: &r, defmt: &d };
    assert_eq!(line.update_line_height(5001, settings), 4);
}

#[test]
fn a_hex_row_holds_the_most_bytes() {
    // Eight bytes take 23 columns of digits and 8 of characters, nine 27 and 9.
    assert_eq!(fit_row(31, None).0, 8);
    assert_eq!(fit_row(35, None).0, 8);
    assert_eq!(fit_row(36, None).0, 9);
    assert_eq!(fit_row(36, Some(4)).0, 4);
}
