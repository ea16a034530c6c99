//! What is drawn.

use yap::app::outcomes::Start;
use yap::app::{App, Layout, Menu, Popup, SettingsMenu, ToolMenu, CUSTOM_BAUD};
use yap::buffer::logging::Logging;
use yap::buffer::tui::{Buffer, BufferState, Size};
use yap::keybinds::{KeyBinding, Keybinds};
use yap::keys::{KeyCode, KeyEvent};
use yap::line::{Color, Style, REVERSED};
use yap::macros::{MacroFile, Macros, SerializedMacro};
use yap::serial::port_status::InnerPortStatus;
use yap::serial::worker::{Ignored, MOCK_PORT_NAME};
use yap::serial::{
    ReconnectionStrictness, SerialPortInfo, SerialPortType, SerialSignals, UsbPortInfo,
};
use yap::settings::line_ending::{MacroTxLineEnding, RxLineEnding, TxLineEnding};
use yap::settings::{
    Behavior, DataBits, Defmt, DefmtLocation, FlowControl, HexHighlightStyle, Level, LineEndings,
    Parity, PortSettings, Rendering, Settings, StopBits, Updates, UserEcho,
};
use yap::tui::esp::{EspFlashHelper, EspPopup, Flashing, SegmentAction};
use yap::tui::Rect;
use yap::view::esp::EspRows;
use yap::view::hex::{hex_frame, scroll_notice, HexAreas};
use yap::view::layout::Part;
use yap::view::menus::MenuContext;
use yap::view::popups::{error_box, lines_of, PopupDraw};
use yap::view::ports::{baud_labels, port_box, PortContext};
use yap::view::scroll::{
    connection_timers, pattern_color, render_scrolling_line, repeating_pattern,
};
use yap::view::terminal::{signals_line, TerminalContext};
use yap::view::{Draw, Shape, TableId};

fn rect(x: u16, y: u16, width: u16, height: u16) -> Rect {
    Rect { x, y, width, height }
}

fn settings() -> Settings {
    Settings {
        serial: PortSettings {
            baud_rate: 115200,
            data_bits: DataBits::Eight,
            flow_control: FlowControl::Off,
            parity_bits: Parity::Off,
            stop_bits: StopBits::One,
            dtr_on_connect: true,
            rts_on_connect: true,
            limit_tx_speed: false,
            reconnections: ReconnectionStrictness::Low,
        },
        line_endings: LineEndings {
            rx: RxLineEnding::from_str("\\n"),
            tx: TxLineEnding::from_str("\\n"),
            macros: MacroTxLineEnding::from_str("\\n"),
        },
        rendering: Rendering {
            echo_user_input: UserEcho::All,
            timestamps: false,
            show_connection_time: true,
            show_indices: false,
            indices_as_hex: false,
            show_line_ending: false,
            show_hidden_lines: false,
            wrap_text: false,
            hex_view: false,
            hex_view_header: true,
            hex_view_highlights: HexHighlightStyle::Plain,
            bytes_per_line: None,
        },
        behavior: Behavior {
            pseudo_shell: true,
            fuzzy_macro_match: true,
            send_line_ending_with_bytes: false,
            unescape_typed_bytes: true,
            action_chain_delay_ms: 25,
            text_scroll_speed: 0,
        },
        logging: Logging {
            log_text_to_file: false,
            log_raw_input_to_file: false,
            log_user_input: false,
            log_connection_events: false,
            timestamp: String::new(),
        },
        defmt: Defmt {
            max_log_level: Level::Trace,
            device_timestamp: true,
            show_module: DefmtLocation::Full,
            show_file: DefmtLocation::Full,
            show_line_number: true,
            watch_elf_for_changes: true,
        },
    }
}

fn app() -> App {
    let mut macros = Macros::empty();
    let entry = |name: &str, content: &str, sensitive| SerializedMacro {
        name: name.to_string(),
        category: None,
        content: content.to_string(),
        line_ending: None,
        sensitive,
    };
    macros.add_file(
        MacroFile {
            category_override: None,
            macros: vec![entry("hello", "hi there", false), entry("key", "secret", true)],
        },
        "m",
    );
    let binding = |n: u8, actions: &[&str]| KeyBinding {
        combo: KeyEvent { code: KeyCode::F(n), modifiers: 0 },
        label: format!("F{n}"),
        actions: actions.iter().map(|a| a.to_string()).collect(),
    };
    App::build(Start {
        settings: settings(),
        ports: vec![
            SerialPortInfo {
                port_name: "COM1".to_string(),
                port_type: SerialPortType::UsbPort(UsbPortInfo {
                    vid: 0x303a,
                    pid: 0x1001,
                    serial_number: Some("S".to_string()),
                    manufacturer: None,
                    product: None,
                }),
            },
            SerialPortInfo {
                port_name: MOCK_PORT_NAME.to_string(),
                port_type: SerialPortType::Unknown,
            },
        ],
        keybinds: Keybinds::from_bindings(vec![
            binding(1, &["show-keybinds"]),
            binding(2, &["no such thing"]),
            binding(3, &["hello", "pause_ms:1500"]),
            binding(4, &["m|hello"]),
        ]),
        macros,
        espflash: EspFlashHelper::new(vec![], vec![]),
        skip_erase_confirm: false,
        recent_elfs: vec!["one.elf".to_string()],
        ignored_devices: Ignored {
            name: vec![],
            usb: vec![],
            show_ttys_ports: false,
            hide_loopback_port: true,
        },
        updates: Updates {
            allow_checking_for_updates: false,
            allow_pre_releases: false,
            user_dismissed_prompt: true,
            skipped_version: String::new(),
        },
        layout: Layout {
            serial_rows: 10,
            rendering_rows: 12,
            behavior_rows: 6,
            logging_rows: 5,
            defmt_rows: 6,
            new_window: false,
        },
    })
}

fn menu_context() -> MenuContext {
    MenuContext {
        docstring: "What this does.".to_string(),
        logs_dir: "logs/".to_string(),
        elf: Some(("fw.elf".to_string(), "0123abcd".to_string())),
        right_half: rect(40, 5, 28, 10),
        elf_title: rect(11, 5, 58, 1),
        elf_path: rect(11, 6, 58, 1),
        elf_select: rect(11, 7, 58, 1),
        elf_recent: rect(11, 8, 58, 1),
    }
}

fn terminal_context() -> TerminalContext {
    TerminalContext {
        area: rect(0, 0, 80, 24),
        terminal_area: rect(0, 0, 80, 22),
        line_area: rect(0, 22, 80, 1),
        whole_input_area: rect(0, 23, 80, 1),
        symbol_area: rect(0, 23, 1, 1),
        input_area: rect(1, 23, 79, 1),
        now: 61_000,
        status: InnerPortStatus::Connected { connected_at: 0 },
        signals: SerialSignals {
            rts: true,
            dtr: false,
            cts: false,
            dsr: false,
            ri: false,
            cd: false,
        },
        port: Some(SerialPortInfo {
            port_name: "COM1".to_string(),
            port_type: SerialPortType::Unknown,
        }),
        baud_rate: 9600,
        lines: 12,
    }
}

fn texts(draws: &[Draw]) -> Vec<String> {
    draws
        .iter()
        .filter_map(|d| match d {
            Draw::Text { text, .. } => Some(text.clone()),
            Draw::Input { text, .. } => Some(text.clone()),
            Draw::Hint { text, .. } => Some(text.clone()),
            Draw::Spans { spans, .. } => Some(spans.iter().map(|(t, _)| t.as_str()).collect()),
            Draw::Shape(_) => None,
        })
        .collect()
}

fn shapes(draws: &[Draw]) -> Vec<Shape> {
    draws
        .iter()
        .filter_map(|d| match d {
            Draw::Shape(s) => Some(*s),
            _ => None,
        })
        .collect()
}

#[test]
fn fitting_text_rests() {
    let area = rect(5, 1, 20, 1);
    let mut scroll = 7;
    let place = render_scrolling_line(&"x".repeat(20), area, &mut scroll);
    assert_eq!((place.area, place.hidden, scroll), (area, 0, 7));
}

#[test]
fn slightly_long_text_goes_back_and_forth() {
    let area = rect(0, 0, 20, 1);
    let hidden = |step: i32| {
        let mut scroll = step;
        render_scrolling_line(&"x".repeat(24), area, &mut scroll).hidden
    };
    assert_eq!([hidden(-2), hidden(0), hidden(3), hidden(4), hidden(7), hidden(8)], [0, 0, 3, 4, 4, 3]);
    assert_eq!(hidden(11), 0);
    let mut scroll = 12;
    render_scrolling_line(&"x".repeat(24), area, &mut scroll);
    assert_eq!(scroll, -2);
}

#[test]
fn long_text_comes_in_again() {
    let area = rect(0, 0, 20, 1);
    let mut scroll = 40;
    assert_eq!(render_scrolling_line(&"x".repeat(40), area, &mut scroll).hidden, 40);
    let mut scroll = 45;
    let place = render_scrolling_line(&"x".repeat(40), area, &mut scroll);
    assert_eq!((place.area, place.hidden), (rect(15, 0, 5, 1), 0));
    let mut scroll = 60;
    render_scrolling_line(&"x".repeat(40), area, &mut scroll);
    assert_eq!(scroll, -2);
}

#[test]
fn the_pattern_alternates() {
    assert_eq!(repeating_pattern(5, false), "~-~-~");
    assert_eq!(repeating_pattern(4, true), "-~-~");
    assert_eq!(pattern_color(InnerPortStatus::Idle), Color::Red);
}

#[test]
fn clocks_count_connections() {
    let clocks = connection_timers(InnerPortStatus::Connected { connected_at: 1000 }, 3_662_999);
    assert_eq!(clocks[0].text, "01:01:01");
    let days = connection_timers(InnerPortStatus::Connected { connected_at: 0 }, 90_000_000);
    assert_eq!(days[0].text, "01:01:00:00");
    let lent = connection_timers(
        InnerPortStatus::LentOut { initial_connection_at: 0, lent_out_at: 5000 },
        10_000,
    );
    assert_eq!((lent[0].text.as_str(), lent[1].text.as_str()), ("00:00:10", "(00:00:05)"));
    assert_eq!(connection_timers(InnerPortStatus::Idle, 5)[0].text, "XX:XX:XX");
}

#[test]
fn rectangles_are_cut() {
    let area = rect(10, 2, 60, 17);
    assert_eq!(area.block_inner(), rect(11, 3, 58, 15));
    assert_eq!(area.row_from_bottom(1), rect(10, 18, 60, 1));
    assert_eq!(area.row_from_top(2), rect(10, 4, 60, 1));
    assert_eq!(area.lower(1, 3), rect(10, 3, 60, 14));
    assert_eq!(area.margin(1, 2), rect(11, 4, 58, 13));
    assert_eq!(area.margin(40, 0), rect(0, 0, 0, 0));
    assert_eq!(rect(65530, 0, 10, 1).shift(9), rect(65525, 0, 10, 1));
}

#[test]
fn the_terminal_is_drawn() {
    let mut app = app();
    app.screen.menu = Menu::Terminal;
    let draws = app.terminal_menu(&terminal_context());
    let texts = texts(&draws);
    assert!(texts.contains(&"00:01:01".to_string()));
    assert!(texts.contains(&"Lines: 12".to_string()));
    assert!(texts.contains(&"COM1 @ 9600".to_string()));
    assert!(texts.contains(&"[DTR RTS|CTS DSR RI CD]".to_string()));
    assert!(texts.contains(&">".to_string()));
    assert!(texts.contains(&" Text input goes here. `?` for port settings.".to_string()));
    assert!(shapes(&draws).contains(&Shape::Cursor { x: 1, y: 23 }));
}

#[test]
fn typed_digits_are_drawn_in_pairs() {
    let mut app = app();
    app.screen.menu = Menu::Terminal;
    app.text_input.replace_input_with_bytes(&[1, 0x2a, 3]);
    let draws = app.terminal_menu(&terminal_context());
    assert!(texts(&draws).contains(&"01 2A 03".to_string()));
    assert!(shapes(&draws).contains(&Shape::Cursor { x: 10, y: 23 }));
    let mut narrow = terminal_context();
    narrow.input_area = rect(1, 23, 5, 1);
    let draws = app.terminal_menu(&narrow);
    assert!(draws.iter().any(|d| matches!(d, Draw::Input { hidden: 5, .. })));
}

#[test]
fn typed_text_is_drawn_with_its_cursor() {
    let mut app = app();
    app.screen.menu = Menu::Terminal;
    app.text_input.replace_input_with_text("héllo");
    let draws = app.terminal_menu(&terminal_context());
    assert!(shapes(&draws).contains(&Shape::Cursor { x: 6, y: 23 }));
    app.show_popup(Popup::CurrentKeybinds);
    let draws = app.terminal_menu(&terminal_context());
    assert!(!shapes(&draws).iter().any(|s| matches!(s, Shape::Cursor { .. })));
}

#[test]
fn direct_keys_are_explained() {
    let mut app = app();
    app.screen.menu = Menu::Terminal;
    app.settings.behavior.pseudo_shell = false;
    app.last_raw_sequence = vec![0x1b, b'A'];
    let shown = texts(&app.terminal_menu(&terminal_context()));
    assert!(shown.contains(&"Last sent: \\x1B\\x41".to_string()));
    assert!(shown.iter().any(|t| t.starts_with("Keyboard input is being sent directly.")));
    app.screen.escape_next_keypress = true;
    let shown = texts(&app.terminal_menu(&terminal_context()));
    assert!(shown.iter().any(|t| t.starts_with("Escaping next keypress")));
}

#[test]
fn a_lost_port_is_marked() {
    let app = app();
    let mut context = terminal_context();
    context.status = InnerPortStatus::PrematureDisconnect;
    assert!(texts(&app.terminal_menu(&context)).contains(&"[!] COM1 [!]".to_string()));
    context.port = None;
    assert!(texts(&app.terminal_menu(&context)).contains(&"Port info missing!".to_string()));
}

#[test]
fn set_signals_are_reversed() {
    let spans = signals_line(terminal_context().signals);
    assert_eq!(spans[3].0, "RTS");
    assert_eq!(spans[3].1, Style::new().add(REVERSED));
    assert_eq!(spans[1].1, Style::new());
}

#[test]
fn ports_are_drawn() {
    let mut app = app();
    app.update_found_version = Some("9.9.9".to_string());
    let rows = app.port_rows();
    assert_eq!(rows[0], ("COM1".to_string(), "[USB] 303A:1001 S/N: S".to_string()));
    assert_eq!(rows[1].1, "[Mock Testing Port]");
    let context = PortContext {
        version: "1.0.0".to_string(),
        top: rect(0, 0, 80, 4),
        middle: rect(0, 4, 80, 16),
        bottom: rect(0, 20, 80, 4),
        credit_area: rect(0, 23, 80, 1),
        frame: rect(20, 4, 40, 16),
        table_area: rect(21, 5, 38, 10),
        first_row: rect(21, 15, 38, 1),
        second_row: rect(21, 16, 38, 1),
        third_row: rect(21, 17, 38, 1),
        options_area: rect(21, 18, 38, 1),
        left: rect(21, 17, 14, 1),
        input: rect(35, 17, 10, 1),
        right: rect(45, 17, 14, 1),
    };
    let draws = app.port_selection(&context);
    assert!(texts(&draws).contains(&"v1.0.0 -> v9.9.9! [U]pdate found!".to_string()));
    assert!(texts(&draws)
        .contains(&"Ignore port: [I] | Show Keybinds: [F1] | Select: [Enter]".to_string()));
    assert!(shapes(&draws).contains(&Shape::Table {
        area: context.table_area,
        table: TableId::Ports,
        selected: Some(0)
    }));
    app.screen.baud_index = CUSTOM_BAUD;
    app.screen.port_selection_scroll = 3;
    let draws = app.port_selection(&context);
    assert!(app.selection_state().baud_selected);
    assert!(shapes(&draws).contains(&Shape::Cursor { x: 35, y: 17 }));
    assert_eq!(app.misc_lines(None, "/cfg")[0].0, "1 keybindings with unknown actions, F1 to see all bindings.");
    assert_eq!(app.misc_lines(Some("::1"), "/cfg").len(), 3);
}

#[test]
fn baud_rates_are_centered() {
    let labels = baud_labels();
    assert_eq!(labels[0], " 4800 ");
    assert_eq!(labels[6], "115200");
    assert_eq!(labels[2], format!("{:^6}", 19200));
    assert_eq!(labels[CUSTOM_BAUD], "Custom:");
}

#[test]
fn settings_menus_are_drawn() {
    let mut app = app();
    app.show_popup(Popup::SettingsMenu(SettingsMenu::SerialPort));
    app.screen.popup_menu_scroll = 2;
    let draws = app.render_popup_menus(rect(0, 0, 80, 24), &menu_context());
    assert!(texts(&draws).contains(&"What this does.".to_string()));
    assert!(texts(&draws).contains(&"115200".to_string()));
    assert!(shapes(&draws).contains(&Shape::Table {
        area: rect(11, 5, 58, 12),
        table: TableId::Serial,
        selected: Some(0)
    }));
    app.show_popup(Popup::SettingsMenu(SettingsMenu::Logging));
    app.screen.popup_menu_scroll = 7;
    let draws = app.render_popup_menus(rect(0, 0, 80, 24), &menu_context());
    assert!(texts(&draws).contains(&"Saving to: logs/".to_string()));
    assert!(texts(&draws).iter().any(|t| t.starts_with("Re-sync active log files")));
    app.show_popup(Popup::SettingsMenu(SettingsMenu::Defmt));
    app.screen.popup_menu_scroll = 2;
    let shown = texts(&app.render_popup_menus(rect(0, 0, 80, 24), &menu_context()));
    assert!(shown.contains(&"Current ELF MD5: 0123abcd".to_string()));
    assert!(shown.iter().any(|t| t.starts_with("Select an ELF file")));
}

#[test]
fn tool_menus_are_drawn() {
    let mut app = app();
    app.show_popup(Popup::ToolMenu(ToolMenu::Macros));
    app.screen.popup_menu_scroll = 3;
    let shown = texts(&app.render_popup_menus(rect(0, 0, 80, 24), &menu_context()));
    assert!(shown.contains(&"hi there".to_string()));
    app.screen.popup_menu_scroll = 4;
    let shown = texts(&app.render_popup_menus(rect(0, 0, 80, 24), &menu_context()));
    assert!(shown.contains(&"[SENSITIVE]".to_string()));
    app.show_popup(Popup::ToolMenu(ToolMenu::EspFlash));
    app.screen.popup_menu_scroll = 4;
    let shown = texts(&app.render_popup_menus(rect(0, 0, 80, 24), &menu_context()));
    assert!(shown.contains(&"Query ESP for Flash Size, MAC Address, etc.".to_string()));
}

#[test]
fn prompts_are_drawn() {
    let mut app = app();
    let draw = |app: &App, status| {
        match app.render_popups(rect(0, 0, 80, 24), status, "1.0.0", &menu_context()) {
            PopupDraw::Prompt(prompt) => (prompt.title, prompt.subtitle, prompt.color),
            _ => panic!("no prompt"),
        }
    };
    app.show_popup(Popup::DisconnectPrompt);
    let (title, subtitle, color) = draw(&app, InnerPortStatus::PrematureDisconnect);
    assert_eq!(title, "Disconnect from port?");
    assert_eq!(subtitle.as_deref(), Some("(Auto-reconnections paused while open)"));
    assert_eq!(color, Color::Blue);
    assert_eq!(draw(&app, InnerPortStatus::Connected { connected_at: 0 }).1, None);
    app.update_found_version = Some("2.0.0".to_string());
    app.show_popup(Popup::UpdateBeginPrompt);
    let (title, subtitle, _) = draw(&app, InnerPortStatus::Idle);
    assert_eq!(title, "New version found! v1.0.0");
    assert_eq!(subtitle.as_deref(), Some("v1.0.0 -> v2.0.0"));
    let usb = UsbPortInfo {
        vid: 0x1a,
        pid: 0xbeef,
        serial_number: None,
        manufacturer: None,
        product: None,
    };
    app.show_popup(Popup::IgnoreByUsb("COM9".to_string(), usb));
    let (title, subtitle, _) = draw(&app, InnerPortStatus::Idle);
    assert_eq!(title, "Hide COM9 (USB) from Port Selection?");
    assert_eq!(subtitle.as_deref(), Some("VID: 001A, PID: BEEF, Serial #: N/A"));
}

#[test]
fn errors_are_boxed() {
    let (area, lines) = error_box("\nPort busy\r\nTry again", rect(0, 0, 80, 24));
    assert_eq!(lines, vec!["", "Port busy", "Try again"]);
    assert_eq!(area, rect(24, 9, 31, 6));
    for text in ["", "a", "a\n", "a\n\nb", "a\r\nb\r", "\n"] {
        assert_eq!(lines_of(text), text.lines().collect::<Vec<_>>());
    }
}

#[test]
fn combinations_are_listed() {
    let mut app = app();
    app.show_popup(Popup::CurrentKeybinds);
    app.screen.popup_menu_scroll = 90;
    match app.render_popups(rect(0, 0, 80, 24), InnerPortStatus::Idle, "1", &menu_context()) {
        PopupDraw::Keybinds(rows, place) => {
            let lines: Vec<String> = rows
                .iter()
                .map(|r| r.spans.iter().map(|(t, _)| t.as_str()).collect())
                .collect();
            assert_eq!(
                lines,
                vec![
                    "Unrecognized Keybinds:",
                    "F2 - ?no such thing?",
                    "",
                    "F1 - show-keybinds",
                    "F4 - [Macro] hello (m)",
                    "",
                    "Action Chain Keybinds:",
                    "",
                    "F3",
                    "   - [Macro] hello (m)",
                    "    - Pause: 1.5s",
                ]
            );
            assert_eq!(place.scroll, 0);
            assert_eq!(place.area.height, 13);
        }
        _ => panic!("no list"),
    }
}

#[test]
fn the_hex_frame_is_drawn() {
    let areas = HexAreas {
        separator: rect(0, 1, 60, 1),
        offset_label: rect(0, 0, 4, 1),
        bytes_label: rect(7, 0, 24, 1),
        ascii_label: rect(34, 0, 8, 1),
        area: rect(0, 0, 60, 20),
        first_line: rect(4, 2, 1, 18),
        second_line: rect(33, 2, 1, 18),
        scrollbar: rect(42, 2, 1, 18),
        offsets: rect(0, 2, 4, 18),
        bytes: rect(7, 2, 24, 18),
        ascii: rect(34, 2, 8, 18),
    };
    let draws = hex_frame(true, false, areas);
    assert_eq!(texts(&draws), vec!["Offset", "ASCII"]);
    let crosses = shapes(&draws).iter().filter(|s| matches!(s, Shape::Cross { .. })).count();
    assert_eq!(crosses, 3);
    assert_eq!(
        shapes(&hex_frame(false, true, areas))
            .iter()
            .filter(|s| matches!(s, Shape::Cross { .. }))
            .count(),
        2
    );
    let mut received = received();
    assert_eq!(
        format!("{:?}", received.render_hex(areas)),
        format!("{:?}", hex_frame(true, false, areas))
    );
    received.raw = vec![0; 400];
    received.state.stuck_to_bottom = false;
    received.cached_combined_height = None;
    let draws = received.render_hex(areas);
    assert_eq!(draws.len(), hex_frame(true, true, areas).len() + 2);
    assert!(scroll_notice(areas.area, true).is_empty());
    assert_eq!(texts(&scroll_notice(areas.area, false)), vec!["More... Shift+PgDn to jump to newest"]);
}

#[test]
fn work_on_a_device_is_drawn() {
    let mut app = app();
    let row = |y| rect(11, y, 58, 1);
    let rows = EspRows {
        title: row(9),
        upper: row(10),
        middle: row(11),
        chunks: row(12),
        bytes: row(13),
        bar: row(14),
    };
    let screen = rect(0, 0, 80, 24);
    assert!(app.espflash.render_espflash_popups(screen, rows).is_empty());
    app.espflash.popup = Some(EspPopup::Connected { chip: "ESP32".to_string() });
    let draws = app.espflash.render_espflash_popups(screen, rows);
    assert_eq!(texts(&draws), vec!["", "Connected to ESP32!"]);
    assert_eq!(shapes(&draws)[0], Shape::Clear(rect(10, 8, 60, 8)));
    app.espflash.popup = Some(EspPopup::Connecting);
    assert_eq!(texts(&app.espflash.render_espflash_popups(screen, rows)).len(), 4);
    app.espflash.popup = Some(EspPopup::Flashing(Flashing {
        current_file_name: None,
        chip: "ESP32".to_string(),
        current_file_addr: 0x10000,
        current_file_len: 8,
        current_progress: 2,
        current_action: SegmentAction::Verifying,
    }));
    let draws = app.espflash.render_espflash_popups(screen, rows);
    assert_eq!(texts(&draws), vec![" Flashing ESP32... ", "@ 0x010000", "Chunks: ", "2 / 8"]);
    assert!(shapes(&draws).contains(&Shape::Gauge {
        area: row(14),
        done: 2,
        whole: 8,
        color: Color::LightMagenta
    }));
    app.espflash.popup = Some(EspPopup::DeviceInfo(vec![]));
    let draws = app.espflash.render_espflash_popups(screen, rows);
    assert!(shapes(&draws).contains(&Shape::DeviceInfo { area: rect(11, 9, 58, 6) }));
}

fn received() -> Buffer {
    let settings = settings();
    Buffer {
        raw: Vec::new(),
        rx: Vec::new(),
        tx: Vec::new(),
        rendering: Rendering { hex_view: true, ..settings.rendering },
        defmt_settings: settings.defmt,
        last_terminal_size: Size { width: 60, height: 20 },
        state: BufferState {
            vert_scroll: 0,
            stuck_to_bottom: true,
            scrollbar_position: 0,
            scrollbar_length: 0,
            hex_bytes_per_line: 8,
            hex_section_width: 24,
        },
        cached_combined_height: None,
    }
}

#[test]
fn a_low_screen_has_no_row_for_the_second_clock() {
    let mut app = app();
    app.screen.menu = Menu::Terminal;
    let mut context = terminal_context();
    context.area = rect(0, 0, 80, 2);
    context.status = InnerPortStatus::LentOut { initial_connection_at: 0, lent_out_at: 0 };
    let clocks: Vec<_> = app
        .terminal_menu(&context)
        .into_iter()
        .filter_map(|d| match d {
            Draw::Text { area, text, .. } if text.contains("00:01:01") => Some(area.height),
            _ => None,
        })
        .collect();
    assert_eq!(clocks, vec![1, 0]);
}

#[test]
fn the_box_with_ports_fills_a_narrow_screen() {
    let (middle, half) = (rect(0, 4, 44, 16), rect(11, 4, 22, 16));
    assert_eq!(port_box(middle, half), middle);
    assert_eq!(port_box(rect(0, 4, 45, 16), half), half);
}

#[test]
fn screens_are_split() {
    let whole = rect(0, 0, 80, 24);
    let signals = terminal_context().signals;
    let terminal = TerminalContext::lay_out(
        whole,
        5,
        InnerPortStatus::Idle,
        signals,
        None,
        9600,
        3,
    );
    assert_eq!(terminal.terminal_area, rect(0, 0, 80, 22));
    assert_eq!(terminal.line_area, rect(0, 22, 80, 1));
    assert_eq!((terminal.symbol_area, terminal.input_area), (rect(0, 23, 1, 1), rect(1, 23, 79, 1)));
    assert_eq!((terminal.now, terminal.baud_rate, terminal.lines), (5, 9600, 3));
    let ports = PortContext::lay_out(whole, "1".to_string());
    assert_eq!((ports.middle, ports.frame), (rect(0, 4, 80, 16), rect(20, 4, 40, 16)));
    assert_eq!((ports.options_area, ports.input), (rect(21, 18, 38, 1), rect(35, 17, 10, 1)));
    assert_eq!(PortContext::lay_out(rect(0, 0, 44, 24), String::new()).frame.width, 44);
    let menu = MenuContext::lay_out(whole, String::new(), String::new(), None);
    assert_eq!((menu.elf_title, menu.elf_recent), (rect(11, 5, 58, 1), rect(11, 8, 58, 1)));
    assert_eq!(menu.right_half, rect(40, 5, 29, 12));
    let rows = EspRows::lay_out(whole);
    assert_eq!((rows.title, rows.middle, rows.bar), (rect(11, 9, 58, 1), rect(11, 11, 58, 1), rect(11, 14, 58, 1)));
    let mut received = received();
    let areas = received.hex_areas(rect(0, 0, 60, 20));
    assert_eq!((areas.offsets, areas.bytes), (rect(0, 2, 8, 18), rect(11, 2, 24, 18)));
    assert_eq!((areas.first_line.x, areas.second_line.x), (8, 37));
    assert_eq!((areas.ascii, areas.scrollbar), (rect(38, 2, 8, 18), rect(46, 0, 1, 20)));
    received.rendering.hex_view_header = false;
    let areas = received.hex_areas(rect(0, 0, 60, 20));
    assert_eq!((areas.separator, areas.bytes), (rect(0, 0, 0, 0), rect(11, 0, 24, 20)));
}

#[test]
fn found_parts_go_to_their_places() {
    let found: Vec<_> = (0..8).map(|i| rect(i, i, 1, 1)).collect();
    assert_eq!(TerminalContext::row_parts(), [Part::Fill(1), Part::Length(1), Part::Length(1)]);
    assert_eq!(TerminalContext::column_parts(), [Part::Length(1), Part::Fill(1)]);
    let signals = terminal_context().signals;
    let terminal = TerminalContext::from_parts(
        rect(0, 0, 9, 9),
        &found[..3],
        &found[3..5],
        1,
        InnerPortStatus::Idle,
        signals,
        None,
        9600,
        2,
    );
    assert_eq!((terminal.terminal_area, terminal.line_area), (found[0], found[1]));
    assert_eq!((terminal.symbol_area, terminal.input_area), (found[3], found[4]));
    assert_eq!(PortContext::screen_row_parts(), [Part::Fill(1), Part::Fill(4), Part::Fill(1)]);
    assert_eq!(PortContext::credit_row_parts(), [Part::Fill(1), Part::Length(1)]);
    assert_eq!(PortContext::box_column_parts()[1], Part::Percentage(50));
    assert_eq!(PortContext::baud_column_parts()[1], Part::Length(10));
    assert_eq!(PortContext::port_row_parts().len(), 5);
    let ports = PortContext::from_parts(
        String::new(),
        &found[..3],
        &found[..2],
        found[7],
        &found[..5],
        &found[5..8],
    );
    assert_eq!((ports.credit_area, ports.frame, ports.input), (found[1], found[7], found[6]));
    assert_eq!(MenuContext::half_column_parts(), [Part::Percentage(50), Part::Percentage(50)]);
    assert_eq!(MenuContext::elf_row_parts()[4], Part::Fill(1));
    let menu =
        MenuContext::from_parts(&found[..2], &found[2..7], String::new(), String::new(), None);
    assert_eq!((menu.right_half, menu.elf_recent), (found[1], found[5]));
    assert_eq!(EspRows::row_parts()[2], Part::Fill(1));
    assert_eq!(EspRows::from_parts(&found[..6]).bar, found[5]);
    assert_eq!(HexAreas::row_parts(), [Part::Length(1), Part::Length(1), Part::Fill(1)]);
    assert_eq!(received().hex_columns()[3], Part::Length(24));
    let areas = HexAreas::from_parts(rect(0, 0, 9, 5), found[0], &found, &found);
    assert_eq!((areas.separator, areas.ascii), (found[0], found[6]));
    assert_eq!(areas.scrollbar, rect(7, 0, 1, 5));
}

#[test]
fn screens_without_room_are_split_inside() {
    let low = rect(3, 4, 7, 1);
    let signals = terminal_context().signals;
    let terminal = TerminalContext::lay_out(low, 0, InnerPortStatus::Idle, signals, None, 9600, 0);
    for part in [terminal.terminal_area, terminal.line_area, terminal.whole_input_area] {
        assert_eq!((part.x, part.width), (3, 7));
        assert!(part.y >= 4 && part.y + part.height <= 5);
    }
    let narrow = received().hex_areas(rect(2, 0, 10, 5));
    for part in [narrow.offsets, narrow.bytes, narrow.ascii, narrow.scrollbar] {
        assert!(part.x >= 2 && part.x + part.width <= 12);
    }
}
