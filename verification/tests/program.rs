//! The program as a whole: keys, events, menus and what is asked of the world.

use yap::app::effects::{Effect, ExplorerInput, Request};
use yap::app::enter::Choice;
use yap::app::events::{ElfOutcome, Event, SerialEvent, UpdateEvent, YapLoadDefmtError};
use yap::app::outcomes::Start;
use yap::app::{
    App, Fault, Layout, Menu, Moment, Popup, RunningState, SettingsMenu, ShownNotice, Tick,
    TickOrigin, Timer, ToolMenu, CUSTOM_BAUD,
};
use yap::buffer::logging::{Logging, LoggingEvent, LoggingWorkerMissing};
use yap::key_codes::{encode_key, KeyEncoding};
use yap::keybinds::{BuiltinAction, EspBuiltinAction, KeyBinding, Keybinds, LoggingAction};
use yap::keys::{KeyCode, KeyEvent, CONTROL, SHIFT};
use yap::line::Color;
use yap::macros::{MacroFile, Macros, SerializedMacro};
use yap::serial::esp::EspRestartType;
use yap::serial::port_status::InnerPortStatus;
use yap::serial::worker::{Ignored, MOCK_PORT_NAME};
use yap::serial::{
    ReconnectType, ReconnectionStrictness, SerialDisconnectReason, SerialPortInfo, SerialPortType,
    UsbPortInfo,
};
use yap::settings::line_ending::{MacroTxLineEnding, RxLineEnding, TxLineEnding};
use yap::settings::{
    Behavior, DataBits, Defmt, DefmtLocation, FlowControl, HexHighlightStyle, Level, LineEndings,
    Parity, PortSettings, Rendering, Settings, StopBits, Updates, UserEcho,
};
use yap::tui::esp::{EspElf, EspEvent, EspFlashHelper};
use yap::tui::prompts::UpdateBeginPrompt;

fn settings() -> Settings {
    Settings {
        serial: PortSettings {
            baud_rate: 115200,
            data_bits: DataBits::Eight,
            flow_control: FlowControl::Off,
            parity_bits: Parity::Off,
            stop_bits: StopBits::One,
            dtr_on_connect: true,
            rts_on_connect: true,
            limit_tx_speed: false,
            reconnections: ReconnectionStrictness::Low,
        },
        line_endings: LineEndings {
            rx: RxLineEnding::from_str("\\n"),
            tx: TxLineEnding::from_str("\\r\\n"),
            macros: MacroTxLineEnding::from_str("InheritTX"),
        },
        rendering: Rendering {
            echo_user_input: UserEcho::All,
            timestamps: false,
            show_connection_time: true,
            show_indices: false,
            indices_as_hex: false,
            show_line_ending: false,
            show_hidden_lines: false,
            wrap_text: false,
            hex_view: false,
            hex_view_header: true,
            hex_view_highlights: HexHighlightStyle::Plain,
            bytes_per_line: None,
        },
        behavior: Behavior {
            pseudo_shell: true,
            fuzzy_macro_match: true,
            send_line_ending_with_bytes: false,
            unescape_typed_bytes: true,
            action_chain_delay_ms: 25,
            text_scroll_speed: 0,
        },
        logging: Logging {
            log_text_to_file: false,
            log_raw_input_to_file: false,
            log_user_input: false,
            log_connection_events: false,
            timestamp: String::new(),
        },
        defmt: Defmt {
            max_log_level: Level::Trace,
            device_timestamp: true,
            show_module: DefmtLocation::Full,
            show_file: DefmtLocation::Full,
            show_line_number: true,
            watch_elf_for_changes: true,
        },
    }
}

fn binding(code: KeyCode, modifiers: u8, label: &str, actions: &[&str]) -> KeyBinding {
    KeyBinding {
        combo: KeyEvent { code, modifiers },
        label: label.to_string(),
        actions: actions.iter().map(|a| a.to_string()).collect(),
    }
}

fn macros() -> Macros {
    let mut macros = Macros::empty();
    let entry = |name: &str, content: &str| SerializedMacro {
        name: name.to_string(),
        category: None,
        content: content.to_string(),
        line_ending: None,
        sensitive: false,
    };
    macros.add_file(
        MacroFile {
            category_override: None,
            macros: vec![entry("bytes", "\\x01\\x02"), entry("empty", ""), entry("hello", "hi")],
        },
        "m",
    );
    macros
}

fn elf(name: &str) -> EspElf {
    EspElf {
        name: name.to_string(),
        path: "fw.elf".to_string(),
        upload_baud: None,
        expected_chip: None,
        partition_table: None,
        bootloader: None,
        no_skip: false,
        skip_verify: false,
        ram: false,
        defmt: true,
    }
}

fn port(name: &str) -> SerialPortInfo {
    SerialPortInfo { port_name: name.to_string(), port_type: SerialPortType::Unknown }
}

fn usb_port(name: &str) -> SerialPortInfo {
    SerialPortInfo {
        port_name: name.to_string(),
        port_type: SerialPortType::UsbPort(UsbPortInfo {
            vid: 1,
            pid: 2,
            serial_number: Some("s".to_string()),
            manufacturer: Some("m".to_string()),
            product: None,
        }),
    }
}

fn start(settings: Settings) -> App {
    App::build(Start {
        settings,
        ports: vec![port("a"), usb_port("b")],
        keybinds: Keybinds::from_bindings(vec![
            binding(KeyCode::F(1), 0, "F1", &["hello"]),
            binding(KeyCode::F(2), 0, "F2", &["toggle-timestamps", "pause_ms:7", "bytes"]),
            binding(KeyCode::F(3), 0, "F3", &["what is this"]),
            binding(KeyCode::F(4), 0, "F4", &["blink"]),
            binding(KeyCode::F(5), 0, "F5", &["show-port-settings"]),
            binding(KeyCode::Char('e'), CONTROL, "Ctrl-e", &["escape-keypress"]),
        ]),
        macros: macros(),
        espflash: EspFlashHelper::new(vec![elf("blink")], vec![]),
        skip_erase_confirm: false,
        recent_elfs: vec!["one.elf".to_string(), "two.elf".to_string()],
        ignored_devices: Ignored {
            name: vec![],
            usb: vec![],
            show_ttys_ports: false,
            hide_loopback_port: true,
        },
        updates: Updates {
            allow_checking_for_updates: false,
            allow_pre_releases: true,
            user_dismissed_prompt: false,
            skipped_version: "0.9.0".to_string(),
        },
        layout: Layout {
            serial_rows: 10,
            rendering_rows: 12,
            behavior_rows: 6,
            logging_rows: 5,
            defmt_rows: 6,
            new_window: false,
        },
    })
}

fn app() -> App {
    start(settings())
}

fn terminal() -> App {
    let mut app = app();
    app.screen.menu = Menu::Terminal;
    app
}

fn up_at(now: u64) -> Moment {
    Moment {
        now,
        status: InnerPortStatus::Connected { connected_at: 0 },
        has_port: true,
        reconnections: ReconnectionStrictness::Low,
        notice: None,
    }
}

fn up() -> Moment {
    up_at(10_000)
}

fn down() -> Moment {
    Moment { status: InnerPortStatus::PrematureDisconnect, ..up() }
}

fn press(app: &mut App, code: KeyCode, modifiers: u8, at: Moment) {
    app.handle_key_press(KeyEvent { code, modifiers }, at);
}

fn type_text(app: &mut App, text: &str, at: Moment) {
    for c in text.chars() {
        press(app, KeyCode::Char(c), 0, at);
    }
}

fn requests(app: &mut App) -> Vec<Request> {
    app.take_effects()
        .into_iter()
        .filter_map(|e| match e {
            Effect::Request(r) => Some(r),
            _ => None,
        })
        .collect()
}

fn notices(effects: &[Effect]) -> Vec<(String, Color)> {
    effects
        .iter()
        .filter_map(|e| match e {
            Effect::Notify { italic, text, color } => Some((format!("{italic}{text}"), *color)),
            _ => None,
        })
        .collect()
}

fn told(app: &mut App) -> Vec<String> {
    notices(&app.take_effects()).into_iter().map(|(t, _)| t).collect()
}

#[test]
fn the_saved_baud_rate_is_selected() {
    assert_eq!(app().screen.baud_index, 6);
    let mut own = settings();
    own.serial.baud_rate = 12345;
    assert_eq!(start(own).screen.baud_index, CUSTOM_BAUD);
}

#[test]
fn first_time_setup_asks_about_updates() {
    let mut app = app();
    app.first_time_setup();
    assert!(matches!(app.popup, Some(Popup::UpdateCheckConsentPrompt)));
    press(&mut app, KeyCode::Char('y'), 0, up());
    assert!(app.updates.allow_checking_for_updates && app.updates.user_dismissed_prompt);
    assert!(app.popup.is_none());
    assert_eq!(
        requests(&mut app),
        vec![Request::SaveSettings, Request::QueryUpdate { pre_releases: true }]
    );
    app.first_time_setup();
    assert!(app.popup.is_none());
}

#[test]
fn ports_are_gone_through() {
    let mut app = app();
    assert_eq!(app.port_selection_item_count(), 4);
    app.up_pressed();
    assert_eq!(app.screen.port_selection_scroll, 3);
    app.down_pressed();
    assert_eq!(app.screen.port_selection_scroll, 0);
    app.down_pressed();
    app.down_pressed();
    app.left_pressed();
    assert_eq!(app.screen.baud_index, 5);
    app.right_pressed();
    app.right_pressed();
    assert_eq!(app.screen.baud_index, 7);
}

#[test]
fn entering_a_port_connects() {
    let mut app = app();
    press(&mut app, KeyCode::Enter, 0, down());
    assert_eq!(
        requests(&mut app),
        vec![Request::SaveSettings, Request::Connect { port: 0, baud: 115200 }]
    );
    app.connect_finished(Some("busy".to_string()));
    assert!(matches!(&app.popup, Some(Popup::SerialConnectionFailed(e)) if e == "busy"));
    press(&mut app, KeyCode::Enter, 0, down());
    assert!(app.popup.is_none());
    app.connect_finished(None);
    assert_eq!(app.screen.menu, Menu::Terminal);
}

#[test]
fn own_baud_rates_are_typed() {
    let mut app = app();
    app.screen.baud_index = CUSTOM_BAUD;
    app.screen.port_selection_scroll = 3;
    type_text(&mut app, "25x0000", up());
    app.screen.port_selection_scroll = 0;
    press(&mut app, KeyCode::Enter, 0, up());
    assert_eq!(
        requests(&mut app),
        vec![Request::SaveSettings, Request::Connect { port: 0, baud: 250000 }]
    );
}

#[test]
fn bad_baud_rates_are_refused() {
    let mut app = app();
    app.screen.baud_index = CUSTOM_BAUD;
    press(&mut app, KeyCode::Enter, 0, up());
    assert_eq!(told(&mut app), vec!["Invalid Baud Rate: cannot parse integer from empty string!"]);
}

#[test]
fn options_open_the_port_settings() {
    let mut app = app();
    app.screen.port_selection_scroll = 3;
    press(&mut app, KeyCode::Enter, 0, up());
    assert!(matches!(app.popup, Some(Popup::SettingsMenu(SettingsMenu::SerialPort))));
    assert_eq!(app.screen.popup_menu_scroll, 1);
    assert_eq!(requests(&mut app), vec![Request::Emit(Tick::Scroll)]);
}

#[test]
fn ports_are_ignored_by_choice() {
    let mut app = app();
    app.screen.port_selection_scroll = 1;
    press(&mut app, KeyCode::Char('i'), 0, up());
    assert!(matches!(&app.popup, Some(Popup::IgnoreByUsb(name, _)) if name == "b"));
    press(&mut app, KeyCode::Char('v'), 0, up());
    assert!(app.ignored_devices.hide_loopback_port && !app.ignored_devices.show_ttys_ports);
    assert_eq!(app.ignored_devices.usb.len(), 1);
    assert_eq!(app.ignored_devices.usb[0].serial_number, None);
    assert!(app.ports.is_empty() && app.popup.is_none());
    assert_eq!(
        requests(&mut app),
        vec![Request::SaveSettings, Request::ApplyIgnored, Request::ScanPorts]
    );
}

#[test]
fn the_mock_port_is_not_ignored() {
    let mut app = app();
    app.set_ports(vec![port(MOCK_PORT_NAME)]);
    press(&mut app, KeyCode::Char('i'), 0, up());
    press(&mut app, KeyCode::Down, 0, up());
    press(&mut app, KeyCode::Enter, 0, up());
    assert!(app.ignored_devices.name.is_empty());
    assert!(app.popup.is_none() && app.ports.len() == 1);
}

#[test]
fn scans_move_the_selection() {
    let mut app = app();
    app.screen.port_selection_scroll = 3;
    let ports = vec![port("a"), port("b"), port("c")];
    app.handle_event(Event::Serial(SerialEvent::PortScan(ports)), down());
    assert_eq!(app.screen.port_selection_scroll, 4);
    app.handle_event(Event::Serial(SerialEvent::PortScan(vec![])), down());
    assert_eq!(app.screen.port_selection_scroll, 1);
    app.handle_event(Event::Serial(SerialEvent::PortScan(vec![port("a")])), down());
    app.screen.port_selection_scroll = 0;
    app.handle_event(Event::Serial(SerialEvent::PortScan(vec![])), down());
    assert_eq!(app.screen.port_selection_scroll, 0);
}

#[test]
fn typed_text_is_sent() {
    let mut app = terminal();
    type_text(&mut app, "go\\x41", up());
    press(&mut app, KeyCode::Enter, 0, up());
    let effects = app.take_effects();
    assert!(matches!(&effects[0], Effect::Send(b) if b == b"goA\r\n"));
    assert!(matches!(&effects[1], Effect::EchoText { text, ending, sensitive: None }
        if text == "go\\x41" && ending == b"\r\n"));
    assert!(matches!(effects[2], Effect::Request(Request::ScrollBuffer(i32::MIN))));
    assert_eq!(app.text_input.value(), "");
    assert!(app.screen.repeating_line_flip);
    press(&mut app, KeyCode::Up, 0, up());
    assert_eq!(app.text_input.value(), "go\\x41");
}

#[test]
fn typed_bytes_are_sent() {
    let mut app = terminal();
    app.text_input.toggle_bytes_entry();
    type_text(&mut app, "0aff", up());
    press(&mut app, KeyCode::Enter, 0, up());
    let effects = app.take_effects();
    assert!(matches!(&effects[0], Effect::Send(b) if b == &vec![0x0a, 0xff]));
    assert!(matches!(&effects[1], Effect::EchoBytes { ending, .. } if ending.is_empty()));
}

#[test]
fn odd_digits_are_not_sent() {
    let mut app = terminal();
    app.text_input.toggle_bytes_entry();
    type_text(&mut app, "0af", up());
    press(&mut app, KeyCode::Enter, 0, up());
    assert_eq!(app.screen.failed_send_at, Some(10_000));
    assert_eq!(app.text_input.value(), "0AF");
}

#[test]
fn broken_digits_are_complained_about() {
    let mut app = terminal();
    app.text_input.toggle_bytes_entry();
    app.paste("zz");
    press(&mut app, KeyCode::Enter, 0, up());
    let told = told(&mut app);
    assert!(told[0].starts_with("Byte parse error! `Invalid character 'z'"));
}

#[test]
fn nothing_is_sent_without_a_connection() {
    let mut app = terminal();
    type_text(&mut app, "go", down());
    press(&mut app, KeyCode::Enter, 0, down());
    assert_eq!(
        requests(&mut app),
        vec![Request::Oneshot {
            timer: Timer::UnhealthyTxUi,
            tick: Tick::Requested(TickOrigin::FailedSend),
            after_ms: 750
        }]
    );
    app.handle_event(Event::Tick(Tick::Requested(TickOrigin::FailedSend)), up_at(10_749));
    assert!(app.screen.failed_send_at.is_some());
    app.handle_event(Event::Tick(Tick::Requested(TickOrigin::FailedSend)), up_at(10_750));
    assert!(app.screen.failed_send_at.is_none());
}

#[test]
fn keys_go_to_the_port_without_the_shell() {
    let mut s = settings();
    s.behavior.pseudo_shell = false;
    let mut app = start(s);
    app.screen.menu = Menu::Terminal;
    let mut sent = |code, modifiers| {
        app.handle_key_press(KeyEvent { code, modifiers }, up());
        let bytes = match app.take_effects().first() {
            Some(Effect::Send(bytes)) => Some(bytes.clone()),
            _ => None,
        };
        assert_eq!(app.last_raw_sequence, bytes.clone().unwrap_or_default());
        bytes
    };
    assert_eq!(sent(KeyCode::Char('x'), 0), Some(b"x".to_vec()));
    assert_eq!(sent(KeyCode::Char('\u{e9}'), 0), Some("\u{e9}".as_bytes().to_vec()));
    assert_eq!(sent(KeyCode::Up, 0), Some(b"\x1b[A".to_vec()));
    assert_eq!(sent(KeyCode::Up, SHIFT), Some(b"\x1b[1;2A".to_vec()));
}

#[test]
fn keys_without_a_code_are_not_sent() {
    let mut s = settings();
    s.behavior.pseudo_shell = false;
    let mut app = start(s);
    app.screen.menu = Menu::Terminal;
    press(&mut app, KeyCode::Char('x'), 0, up());
    app.take_effects();
    let flip = app.screen.repeating_line_flip;
    press(&mut app, KeyCode::Other, 0, up());
    assert!(app.take_effects().is_empty() && app.screen.failed_send_at.is_none());
    assert_eq!(app.last_raw_sequence, b"x");
    assert_eq!(app.screen.repeating_line_flip, !flip);
    press(&mut app, KeyCode::Null, 0, up());
    assert_eq!(app.screen.failed_send_at, Some(10_000));
    assert!(app.last_raw_sequence.is_empty());
    app.take_effects();
    press(&mut app, KeyCode::Char('\u{ff}'), CONTROL, up());
    assert_eq!(requests(&mut app), vec![Request::Fail(Fault::KeyBeyondCode)]);
    app.send_encoded_key(KeyEncoding::Bytes(vec![b'y']), 1);
    assert_eq!(app.last_raw_sequence, b"y");
    press(&mut app, KeyCode::Char('x'), 0, down());
    assert!(app.last_raw_sequence.is_empty());
}

#[test]
fn keys_are_encoded_as_in_a_terminal() {
    let code = |code, modifiers| match encode_key(KeyEvent { code, modifiers }) {
        KeyEncoding::Bytes(bytes) => bytes,
        other => panic!("{other:?}"),
    };
    assert_eq!(code(KeyCode::Char('c'), CONTROL), [3]);
    assert_eq!(code(KeyCode::Enter, 0), b"\r");
    assert_eq!(code(KeyCode::Tab, 0), b"\t");
    assert_eq!(code(KeyCode::Tab, SHIFT), b"\x1b[Z");
    assert_eq!(code(KeyCode::Delete, 0), b"\x1b[3~");
    assert_eq!(code(KeyCode::F(5), CONTROL), b"\x1b[15;5~");
    assert!(matches!(
        encode_key(KeyEvent { code: KeyCode::Null, modifiers: 0 }),
        KeyEncoding::Unknown
    ));
    assert!(matches!(
        encode_key(KeyEvent { code: KeyCode::Char('\u{e4}'), modifiers: CONTROL | SHIFT }),
        KeyEncoding::Bytes(_)
    ));
}

#[test]
fn escaped_keys_stay_here() {
    let mut s = settings();
    s.behavior.pseudo_shell = false;
    let mut app = start(s);
    app.screen.menu = Menu::Terminal;
    press(&mut app, KeyCode::Char('e'), CONTROL, up());
    assert!(app.screen.escape_next_keypress);
    press(&mut app, KeyCode::F(5), 0, up());
    assert!(!app.screen.escape_next_keypress);
    assert!(app.popup.is_some());
    app.dismiss_popup();
    app.take_effects();
    press(&mut app, KeyCode::Char('e'), CONTROL, up());
    press(&mut app, KeyCode::Char('e'), CONTROL, up());
    assert!(matches!(&app.take_effects()[0], Effect::Send(b) if b == &vec![5]));
}

#[test]
fn a_macro_is_sent_by_its_key() {
    let mut app = terminal();
    press(&mut app, KeyCode::F(1), 0, up());
    let effects = app.take_effects();
    assert!(matches!(&effects[0], Effect::Send(b) if b == b"hi\r\n"));
    assert!(matches!(&effects[1], Effect::EchoText { text, sensitive: Some(false), .. } if text == "hi"));
    assert_eq!(notices(&effects), vec![("m|hello [F1]".to_string(), Color::Green)]);
}

#[test]
fn actions_wait_for_their_turn() {
    let mut app = terminal();
    press(&mut app, KeyCode::F(2), 0, up());
    assert_eq!(app.action_queue.len(), 3);
    assert_eq!(requests(&mut app), vec![Request::Emit(Tick::Action)]);
    app.handle_event(Event::Tick(Tick::Action), up());
    assert!(app.settings.rendering.timestamps);
    let delay = |r: &Request| match r {
        Request::Oneshot { timer: Timer::ActionQueue, after_ms, .. } => Some(*after_ms),
        _ => None,
    };
    assert_eq!(requests(&mut app).iter().find_map(delay), Some(0));
    app.handle_event(Event::Tick(Tick::Action), up());
    assert_eq!(requests(&mut app).iter().find_map(delay), Some(7));
    app.handle_event(Event::Tick(Tick::Action), up());
    let effects = app.take_effects();
    assert!(matches!(&effects[0], Effect::Send(b) if b == &vec![1, 2, 13, 10]));
    assert!(app.action_queue.is_empty());
}

#[test]
fn the_queue_is_cleared_without_a_port() {
    let mut app = terminal();
    press(&mut app, KeyCode::F(2), 0, up());
    app.take_effects();
    let lent = Moment {
        status: InnerPortStatus::LentOut { initial_connection_at: 0, lent_out_at: 1 },
        ..up()
    };
    app.handle_event(Event::Tick(Tick::Action), lent);
    assert_eq!(app.action_queue.len(), 3);
    app.take_effects();
    app.handle_event(Event::Tick(Tick::Action), down());
    assert_eq!(told(&mut app), vec!["Port isn't ready! Clearing 3 queued actions..."]);
    assert!(app.action_queue.is_empty());
}

#[test]
fn single_actions_need_their_place() {
    let mut here = terminal();
    press(&mut here, KeyCode::F(1), 0, down());
    assert_eq!(told(&mut here), vec!["Action requires healthy port connection! Not acting..."]);
    let mut there = app();
    press(&mut there, KeyCode::F(1), 0, up());
    assert_eq!(told(&mut there), vec!["Action requires terminal view active! Not acting..."]);
}

#[test]
fn unknown_actions_are_named() {
    let mut app = terminal();
    press(&mut app, KeyCode::F(3), 0, up());
    assert_eq!(told(&mut app), vec!["Unrecognized keybind action: \"what is this\""]);
}

#[test]
fn profiles_are_flashed_by_key() {
    let mut app = terminal();
    press(&mut app, KeyCode::F(4), 0, up());
    let effects = app.take_effects();
    assert_eq!(notices(&effects)[0].0, "espflash profile: blink [F4]");
    assert!(matches!(effects[1], Effect::Request(Request::EspFlash { profile: 0 })));
    assert!(matches!(&effects[2], Effect::LoadElf { path, reload: false } if path == "fw.elf"));
}

#[test]
fn missing_macros_and_profiles_are_faults() {
    let mut app = terminal();
    press(&mut app, KeyCode::F(2), 0, up());
    app.macros = Macros::empty();
    app.espflash = EspFlashHelper::new(vec![], vec![]);
    app.action_queue.remove(0);
    app.action_queue.remove(0);
    app.take_effects();
    app.handle_event(Event::Tick(Tick::Action), up());
    assert!(requests(&mut app).contains(&Request::Fail(Fault::MacroNotFound)));
}

#[test]
fn empty_macros_are_faults_by_key() {
    let mut app = terminal();
    app.keybinds.keybindings[0].actions[0] = "m|empty".to_string();
    press(&mut app, KeyCode::F(1), 0, up());
    assert!(requests(&mut app).contains(&Request::Fail(Fault::MacroEmpty)));
}

#[test]
fn menus_go_round() {
    let mut app = terminal();
    press(&mut app, KeyCode::F(5), 0, up());
    press(&mut app, KeyCode::Right, 0, up());
    assert!(matches!(app.popup, Some(Popup::SettingsMenu(SettingsMenu::Rendering))));
    press(&mut app, KeyCode::Char('h'), 0, up());
    assert!(matches!(app.popup, Some(Popup::SettingsMenu(SettingsMenu::SerialPort))));
    press(&mut app, KeyCode::Char('k'), 0, up());
    assert_eq!(app.screen.popup_menu_scroll, 0);
    press(&mut app, KeyCode::Left, 0, up());
    assert!(matches!(app.popup, Some(Popup::ToolMenu(ToolMenu::Macros))));
    press(&mut app, KeyCode::Up, 0, up());
    assert_eq!(app.screen.popup_menu_scroll, 5);
    press(&mut app, KeyCode::Down, 0, up());
    assert_eq!(app.screen.popup_menu_scroll, 0);
}

#[test]
fn the_same_keys_close_a_menu() {
    let mut app = terminal();
    press(&mut app, KeyCode::F(5), 0, up());
    assert!(app.popup.is_some());
    press(&mut app, KeyCode::F(5), 0, up());
    assert!(app.popup.is_none());
}

#[test]
fn rows_of_settings_are_edited() {
    let mut app = terminal();
    press(&mut app, KeyCode::F(5), 0, up());
    app.take_effects();
    press(&mut app, KeyCode::Down, 0, up());
    assert_eq!(app.get_corrected_popup_index(), Some(0));
    press(&mut app, KeyCode::Right, 0, up());
    assert_eq!(
        requests(&mut app),
        vec![Request::EditScratch { menu: SettingsMenu::SerialPort, row: 0, right: true }]
    );
    let mut edited = app.scratch.duplicate();
    edited.serial.baud_rate = 230400;
    app.settings_row_edited(SettingsMenu::SerialPort, 0, edited);
    press(&mut app, KeyCode::Backspace, 0, up());
    assert_eq!(app.scratch.serial.baud_rate, 23040);
    press(&mut app, KeyCode::Enter, 0, up());
    assert_eq!(app.settings.serial.baud_rate, 23040);
    assert!(app.popup.is_none());
    assert_eq!(
        requests(&mut app),
        vec![Request::ApplyLineEnding, Request::ApplyPortSettings, Request::SaveSettings]
    );
}

#[test]
fn dismissal_discards_edits() {
    let mut app = terminal();
    app.show_popup(Popup::SettingsMenu(SettingsMenu::Behavior));
    app.scratch.behavior.pseudo_shell = false;
    press(&mut app, KeyCode::Esc, 0, up());
    assert!(app.settings.behavior.pseudo_shell && app.scratch.behavior.pseudo_shell);
    assert!(app.popup.is_none());
}

#[test]
fn saving_takes_edits_over() {
    let mut app = terminal();
    app.show_popup(Popup::SettingsMenu(SettingsMenu::Behavior));
    app.scratch.behavior.pseudo_shell = false;
    app.screen.popup_menu_scroll = 2;
    press(&mut app, KeyCode::Enter, 0, up());
    assert!(!app.settings.behavior.pseudo_shell);
    assert!(told(&mut app).contains(&"Behavior settings saved!".to_string()));
    app.show_popup(Popup::SettingsMenu(SettingsMenu::Rendering));
    app.scratch.rendering.wrap_text = true;
    app.screen.popup_menu_scroll = 2;
    app.enter_pressed(false, false, up());
    assert!(app.settings.rendering.wrap_text);
    app.show_popup(Popup::SettingsMenu(SettingsMenu::Logging));
    app.screen.popup_menu_scroll = 2;
    app.enter_pressed(false, false, up());
    app.show_popup(Popup::SettingsMenu(SettingsMenu::Defmt));
    app.screen.popup_menu_scroll = 4;
    app.take_effects();
    app.enter_pressed(false, false, up());
    assert_eq!(requests(&mut app), vec![Request::ApplyDefmt, Request::SaveSettings]);
}

#[test]
fn buttons_in_settings_act() {
    let mut app = terminal();
    app.show_popup(Popup::SettingsMenu(SettingsMenu::Logging));
    app.screen.popup_menu_scroll = 7;
    app.take_effects();
    app.enter_pressed(false, false, up());
    assert_eq!(requests(&mut app), vec![Request::SyncLog]);
    app.enter_pressed(false, false, Moment { has_port: false, ..up() });
    assert_eq!(
        told(&mut app),
        vec!["Not (previously) connected to port? Unable to sync log."]
    );
    app.show_popup(Popup::SettingsMenu(SettingsMenu::Defmt));
    app.screen.popup_menu_scroll = 2;
    app.take_effects();
    app.enter_pressed(true, false, up());
    assert_eq!(requests(&mut app), vec![Request::PickElf]);
    app.enter_pressed(false, false, up());
    assert!(matches!(app.popup, Some(Popup::DefmtNewElf)));
}

#[test]
fn recent_files_are_chosen() {
    let mut app = terminal();
    app.show_popup(Popup::DefmtRecentElf);
    press(&mut app, KeyCode::Down, 0, up());
    press(&mut app, KeyCode::Enter, 0, up());
    let effects = app.take_effects();
    assert!(matches!(&effects[0], Effect::LoadElf { path, reload: false } if path == "two.elf"));
    app.set_recent_elfs(vec![]);
    app.show_popup(Popup::DefmtRecentElf);
    assert!(app.popup.is_none());
    assert_eq!(told(&mut app), vec!["No recent ELFs to select from! Try loading some!"]);
}

#[test]
fn the_explorer_takes_keys() {
    let mut app = terminal();
    app.show_popup(Popup::DefmtNewElf);
    press(&mut app, KeyCode::Char('j'), 0, up());
    assert_eq!(requests(&mut app), vec![Request::Explore(ExplorerInput::Down)]);
    app.explorer_chose(None);
    assert!(app.popup.is_some());
    app.explorer_chose(Some("x.elf".to_string()));
    assert!(app.popup.is_none());
    app.show_popup(Popup::DefmtNewElf);
    app.take_effects();
    app.explorer_failed("denied");
    assert_eq!(told(&mut app), vec!["Explorer Error: denied"]);
    assert!(app.popup.is_none());
}

#[test]
fn macros_are_searched_and_sent() {
    let mut app = terminal();
    app.show_popup(Popup::ToolMenu(ToolMenu::Macros));
    type_text(&mut app, "he", up());
    assert_eq!(app.macros.visible_len(), 1);
    app.screen.popup_menu_scroll = 3;
    app.take_effects();
    app.enter_pressed(false, false, up());
    assert!(matches!(&app.take_effects()[0], Effect::Send(b) if b == b"hi\r\n"));
    app.enter_pressed(false, true, up());
    assert_eq!(app.text_input.value(), "hi");
    assert!(app.popup.is_none());
}

#[test]
fn selecting_no_macro_is_a_fault() {
    let mut app = terminal();
    app.show_popup(Popup::ToolMenu(ToolMenu::Macros));
    app.screen.popup_menu_scroll = 40;
    app.take_effects();
    app.enter_pressed(false, false, up());
    assert_eq!(requests(&mut app), vec![Request::Fail(Fault::NothingSelected)]);
    app.screen.popup_menu_scroll = 4;
    app.enter_pressed(false, false, up());
    assert_eq!(told(&mut app), vec!["Macro is empty!"]);
    app.enter_pressed(false, false, down());
    assert_eq!(told(&mut app), vec!["Port isn't ready!"]);
}

#[test]
fn erasing_has_to_be_confirmed() {
    let mut app = terminal();
    app.show_popup(Popup::ToolMenu(ToolMenu::EspFlash));
    app.screen.popup_menu_scroll = 5;
    app.take_effects();
    app.enter_pressed(false, false, up_at(1000));
    assert_eq!(told(&mut app), vec!["Press again to confirm erasing flash!"]);
    app.enter_pressed(false, false, up_at(2500));
    assert!(requests(&mut app).contains(&Request::EspEraseFlash));
    assert_eq!(app.espflash.first_erase_press, None);
    app.enter_pressed(false, false, up_at(4000));
    app.take_effects();
    app.handle_event(Event::Tick(Tick::Requested(TickOrigin::EraseFlash)), up_at(5500));
    assert_eq!(app.espflash.first_erase_press, None);
}

#[test]
fn device_buttons_act() {
    let mut app = terminal();
    app.show_popup(Popup::ToolMenu(ToolMenu::EspFlash));
    app.take_effects();
    app.screen.popup_menu_scroll = 3;
    app.enter_pressed(false, false, up());
    app.enter_pressed(true, false, up());
    press(&mut app, KeyCode::Right, 0, up());
    app.enter_pressed(false, false, up());
    let checked = Request::EspRestart(EspRestartType::Bootloader { active: true });
    let unchecked = Request::EspRestart(EspRestartType::Bootloader { active: false });
    assert_eq!(requests(&mut app), vec![checked, unchecked, unchecked]);
    app.screen.popup_menu_scroll = 6;
    app.enter_pressed(false, false, up());
    assert_eq!(requests(&mut app), vec![Request::EspFlash { profile: 0 }]);
    app.screen.popup_menu_scroll = 9;
    app.enter_pressed(false, false, up());
    assert_eq!(requests(&mut app), vec![Request::Fail(Fault::ProfileMissing)]);
}

#[test]
fn keys_rest_during_flashing() {
    let mut app = terminal();
    app.handle_event(Event::Serial(SerialEvent::EspFlash(EspEvent::Connecting)), up());
    press(&mut app, KeyCode::Char('c'), CONTROL, up());
    assert!(app.popup.is_none() && requests(&mut app).is_empty());
    app.run_builtin_action(BuiltinAction::EspBuiltin(EspBuiltinAction::ReloadProfiles), up());
    assert_eq!(requests(&mut app), vec![Request::Fail(Fault::ProfilesInUse)]);
    app.handle_event(Event::Serial(SerialEvent::EspFlash(EspEvent::PortReturned)), up());
    assert_eq!(requests(&mut app), vec![Request::AcknowledgeInterrupt]);
    press(&mut app, KeyCode::Char('c'), CONTROL, up());
    assert!(matches!(app.popup, Some(Popup::DisconnectPrompt)));
    assert_eq!(requests(&mut app), vec![Request::AcknowledgeInterrupt]);
}

#[test]
fn device_errors_clear_the_queue() {
    let mut app = terminal();
    press(&mut app, KeyCode::F(2), 0, up());
    app.take_effects();
    let error = EspEvent::Error("bad".to_string());
    app.handle_event(Event::Serial(SerialEvent::EspFlash(error)), up());
    assert!(app.action_queue.is_empty());
    assert_eq!(told(&mut app), vec!["bad"]);
}

#[test]
fn interruptions_close_or_end() {
    let mut app = terminal();
    press(&mut app, KeyCode::Char('c'), CONTROL, up());
    assert!(matches!(app.popup, Some(Popup::DisconnectPrompt)));
    press(&mut app, KeyCode::Char('c'), CONTROL, up());
    assert_eq!(app.screen.state, RunningState::Finished);
    let mut other = terminal();
    other.show_popup(Popup::CurrentKeybinds);
    press(&mut other, KeyCode::Char('c'), CONTROL, up());
    assert!(other.popup.is_none() && other.is_running());
    press(&mut other, KeyCode::Char('c'), CONTROL | SHIFT, up());
    assert!(!other.is_running());
}

#[test]
fn escape_asks_about_the_connection() {
    let mut app = terminal();
    press(&mut app, KeyCode::Esc, 0, up());
    assert!(matches!(app.popup, Some(Popup::DisconnectPrompt)));
    press(&mut app, KeyCode::Char('d'), 0, up());
    assert!(matches!(app.popup, Some(Popup::AttemptReconnectPrompt)));
    assert!(app.screen.user_broke_connection);
    assert_eq!(requests(&mut app), vec![Request::BreakConnection]);
    press(&mut app, KeyCode::Char('r'), 0, down());
    assert!(!app.screen.user_broke_connection && app.popup.is_none());
    let off = Moment { reconnections: ReconnectionStrictness::Disabled, ..down() };
    press(&mut app, KeyCode::Esc, 0, off);
    assert!(matches!(app.popup, Some(Popup::AttemptReconnectPrompt)));
    app.take_effects();
    press(&mut app, KeyCode::Char('r'), 0, off);
    press(&mut app, KeyCode::Char('r'), CONTROL, off);
    assert_eq!(
        requests(&mut app),
        vec![
            Request::Reconnect(Some(ReconnectionStrictness::High)),
            Request::Reconnect(Some(ReconnectionStrictness::Low))
        ]
    );
}

#[test]
fn leaving_keeps_the_history() {
    let mut app = terminal();
    type_text(&mut app, "one", up());
    press(&mut app, KeyCode::Enter, 0, up());
    type_text(&mut app, "draft", up());
    app.take_effects();
    app.return_to_port_selection();
    assert_eq!(
        requests(&mut app),
        vec![Request::Disconnect, Request::ScanPortsNow, Request::ForgetBuffer]
    );
    assert_eq!(app.screen.menu, Menu::PortSelection);
    assert_eq!(app.text_input.value(), "");
    app.connect_finished(None);
    press(&mut app, KeyCode::Up, 0, up());
    assert_eq!(app.text_input.value(), "one");
}

#[test]
fn lost_connections_are_sought() {
    let mut app = terminal();
    app.handle_event(Event::Tick(Tick::PerSecond), down());
    assert_eq!(requests(&mut app), vec![Request::Reconnect(None)]);
    app.screen.user_broke_connection = true;
    app.handle_event(Event::Tick(Tick::PerSecond), down());
    app.screen.user_broke_connection = false;
    app.show_popup(Popup::DisconnectPrompt);
    app.handle_event(Event::Tick(Tick::PerSecond), down());
    assert!(requests(&mut app).is_empty());
    app.screen.menu = Menu::PortSelection;
    app.handle_event(Event::Tick(Tick::PerSecond), down());
    assert_eq!(requests(&mut app), vec![Request::ScanPorts]);
}

#[test]
fn connections_are_reported() {
    let mut app = terminal();
    app.show_popup(Popup::AttemptReconnectPrompt);
    app.screen.user_broke_connection = true;
    let kind = Some(ReconnectType::UsbLoose);
    app.handle_event(Event::Serial(SerialEvent::Connected(kind)), up());
    assert!(app.popup.is_none() && !app.screen.user_broke_connection);
    let effects = app.take_effects();
    assert_eq!(notices(&effects)[0].0, "Connected to similar USB device.");
    let lone = Moment { has_port: false, ..up() };
    app.handle_event(Event::Serial(SerialEvent::Connected(None)), lone);
    assert!(requests(&mut app).contains(&Request::Fail(Fault::NoCurrentPort)));
}

#[test]
fn losses_are_reported() {
    let mut app = terminal();
    let error = SerialDisconnectReason::Error("gone".to_string());
    app.handle_event(Event::Serial(SerialEvent::Disconnected(error)), down());
    assert_eq!(
        told(&mut app),
        vec!["Port error: gone - Attempting to reconnect (loose checks)"]
    );
    let broke = SerialDisconnectReason::UserBrokeConnection;
    app.handle_event(Event::Serial(SerialEvent::Disconnected(broke)), down());
    assert!(app.screen.user_broke_connection);
    app.show_popup(Popup::DisconnectPrompt);
    let left = SerialDisconnectReason::Intentional;
    app.handle_event(Event::Serial(SerialEvent::Disconnected(left)), down());
    assert!(matches!(app.popup, Some(Popup::AttemptReconnectPrompt)));
}

#[test]
fn hints_move_on() {
    let mut app = terminal();
    app.show_popup(Popup::SettingsMenu(SettingsMenu::Rendering));
    app.take_effects();
    let delay = |speed: i16, app: &mut App| {
        app.settings.behavior.text_scroll_speed = speed;
        app.handle_event(Event::Tick(Tick::Scroll), up());
        match requests(app)[0] {
            Request::Oneshot { timer: Timer::ScrollText, after_ms, .. } => after_ms,
            other => panic!("{other:?}"),
        }
    };
    assert_eq!(delay(0, &mut app), 400);
    assert_eq!(delay(-1, &mut app), 600);
    assert_eq!(delay(1, &mut app), 266);
    assert_eq!(delay(30, &mut app), 40);
    assert_eq!(app.screen.popup_hint_scroll, 2);
    app.dismiss_popup();
    app.handle_event(Event::Tick(Tick::Scroll), up());
    assert!(requests(&mut app).is_empty());
}

#[test]
fn notifications_are_timed() {
    let mut app = terminal();
    let notice = |shown_for, replaced| Moment {
        notice: Some(ShownNotice {
            shown_for,
            replaced,
            emerge: 100,
            expand: 500,
            pause_and_show: 3000,
        }),
        ..up()
    };
    for (at, wanted) in [
        (notice(50, false), 50),
        (notice(3000, false), 50),
        (notice(400, true), 100),
        (notice(400, false), 2600),
    ] {
        app.handle_event(Event::Tick(Tick::Notification), at);
        assert!(matches!(requests(&mut app)[0], Request::Oneshot { after_ms, .. } if after_ms == wanted));
    }
}

#[test]
fn received_data_and_the_wheel_scroll() {
    let mut app = terminal();
    app.handle_event(Event::RxBuffer, up());
    assert_eq!(requests(&mut app), vec![Request::TakeReceived, Request::ScrollBuffer(0)]);
    app.handle_event(Event::MouseScroll { up: true }, up());
    app.handle_event(Event::MouseScroll { up: false }, up());
    assert_eq!(
        requests(&mut app),
        vec![Request::ScrollBuffer(1), Request::ScrollBuffer(-1)]
    );
    app.show_popup(Popup::CurrentKeybinds);
    app.handle_event(Event::MouseScroll { up: false }, up());
    assert_eq!(app.screen.popup_menu_scroll, 1);
    app.handle_event(Event::RightClick, up());
    assert!(requests(&mut app).is_empty());
    app.dismiss_popup();
    app.handle_event(Event::RightClick, up());
    app.handle_event(Event::Resize, up());
    assert_eq!(requests(&mut app), vec![Request::Paste, Request::Resize]);
    app.handle_event(Event::Quit, up());
    assert!(!app.is_running());
}

#[test]
fn text_keys_work_in_the_terminal() {
    let mut app = terminal();
    type_text(&mut app, "one two", up());
    press(&mut app, KeyCode::Char('a'), CONTROL, up());
    assert!(app.text_input.all_selected());
    press(&mut app, KeyCode::Backspace, 0, up());
    assert_eq!(app.text_input.value(), "");
    type_text(&mut app, "one two", up());
    press(&mut app, KeyCode::Backspace, CONTROL | SHIFT, up());
    assert_eq!(app.text_input.value(), "");
    press(&mut app, KeyCode::PageUp, SHIFT, up());
    press(&mut app, KeyCode::PageDown, CONTROL, up());
    press(&mut app, KeyCode::PageUp, 0, up());
    press(&mut app, KeyCode::PageDown, 0, up());
    assert_eq!(
        requests(&mut app),
        vec![
            Request::ScrollBuffer(i32::MAX),
            Request::ScrollBuffer(i32::MIN),
            Request::PageUp,
            Request::PageDown
        ]
    );
}

#[test]
fn history_is_searched_by_tab() {
    let mut app = terminal();
    type_text(&mut app, "reset", up());
    press(&mut app, KeyCode::Enter, 0, up());
    type_text(&mut app, "re", up());
    press(&mut app, KeyCode::Tab, 0, up());
    assert_eq!(app.text_input.value(), "reset");
}

#[test]
fn updates_are_told() {
    let mut app = app();
    app.handle_event(Event::Updates(UpdateEvent::UpdateFound("0.9.0".to_string())), up());
    assert!(app.update_found_version.is_none());
    app.handle_event(Event::Updates(UpdateEvent::UpdateFound("1.0.0".to_string())), up());
    press(&mut app, KeyCode::Char('u'), 0, up());
    assert!(matches!(app.popup, Some(Popup::UpdateBeginPrompt)));
    press(&mut app, KeyCode::Char('s'), 0, up());
    assert_eq!(app.updates.skipped_version, "1.0.0");
    assert!(app.update_found_version.is_none() && app.popup.is_none());
    app.take_effects();
    app.choose_in_prompt(Choice::UpdateBegin(UpdateBeginPrompt::SkipVersion), false, false);
    assert_eq!(requests(&mut app), vec![Request::Fail(Fault::PromptWithoutSubject)]);
}

#[test]
fn downloads_cannot_be_dismissed() {
    let mut app = app();
    app.choose_in_prompt(Choice::UpdateBegin(UpdateBeginPrompt::DownloadAndInstall), false, false);
    assert_eq!(requests(&mut app), vec![Request::DownloadUpdate]);
    press(&mut app, KeyCode::Esc, 0, up());
    assert!(matches!(app.popup, Some(Popup::UpdateDownloading)));
    app.handle_event(Event::Updates(UpdateEvent::ReadyToLaunch), up());
    assert_eq!(requests(&mut app), vec![Request::StartNewVersion]);
    app.layout.new_window = true;
    app.handle_event(Event::Updates(UpdateEvent::ReadyToLaunch), up());
    assert!(matches!(app.popup, Some(Popup::UpdateLaunchPrompt)));
    app.handle_event(Event::Updates(UpdateEvent::UpdateError), up());
    assert_eq!(requests(&mut app), vec![Request::Fail(Fault::UpdateFailed)]);
}

#[test]
fn switches_flip_and_flip_back() {
    let mut app = terminal();
    for name in ["toggle-hex-view", "toggle-hex-view"] {
        app.run_builtin_action(BuiltinAction::parse(name).unwrap(), up());
    }
    assert!(!app.settings.rendering.hex_view);
    let effects = app.take_effects();
    let texts: Vec<_> = notices(&effects).into_iter().map(|(t, _)| t).collect();
    assert_eq!(texts, vec!["Toggled Hex View On", "Toggled Hex View Off"]);
    app.run_builtin_action(BuiltinAction::parse("toggle-pseudo-shell").unwrap(), up());
    assert!(!app.settings.behavior.pseudo_shell);
    app.run_builtin_action(BuiltinAction::Logging(LoggingAction::Sync), up());
    assert!(requests(&mut app).contains(&Request::SyncLog));
}

#[test]
fn reloads_are_reported() {
    let mut app = terminal();
    app.macros_reloaded(Ok((Macros::empty(), 2)));
    app.macros_reloaded(Ok((Macros::empty(), 0)));
    app.macros_reloaded(Err("locked".to_string()));
    app.colors_reloaded(None);
    app.colors_reloaded(Some("bad".to_string()));
    app.keybinds_reloaded(Ok(Keybinds::from_bindings(vec![])));
    app.keybinds_reloaded(Err("bad".to_string()));
    app.profiles_reloaded(Ok(EspFlashHelper::new(vec![], vec![])));
    app.repository_failed("no browser");
    assert_eq!(
        told(&mut app),
        vec![
            "Reloaded Macros! 2 files had errors!",
            "Reloaded Macros Successfully!",
            "Error opening macros: locked!",
            "Reloaded Color Rules!",
            "Error reloading Color Rules: bad! See log for details.",
            "Reloaded Keybinds!",
            "Error reloading Keybinds: bad! See log for details.",
            "Reloaded espflash profiles!",
            "Failed to open app repository! no browser",
        ]
    );
}

#[test]
fn loaded_files_are_reported() {
    let mut app = terminal();
    app.elf_loaded(ElfOutcome::Loaded, true);
    app.elf_loaded(ElfOutcome::LocationError("x".to_string()), false);
    app.elf_loaded(ElfOutcome::Failed("y".to_string()), false);
    assert_eq!(
        told(&mut app),
        vec![
            "defmt ELF reloaded due to file update!",
            "defmt ELF had location data err: x",
            "defmt ELF load failed! y",
        ]
    );
    app.handle_event(Event::ElfUpdated("z.elf".to_string()), up());
    assert!(matches!(&app.take_effects()[0], Effect::LoadElf { reload: true, .. }));
    app.settings.defmt.watch_elf_for_changes = false;
    app.handle_event(Event::ElfUpdated("z.elf".to_string()), up());
    assert!(app.take_effects().is_empty());
    app.handle_event(Event::Logging(LoggingEvent::Error("full".to_string())), up());
    app.handle_event(Event::Logging(LoggingEvent::FinishedReconsumption), up());
    assert_eq!(
        told(&mut app),
        vec!["Logging error: full", "Finished syncing contents to log!"]
    );
}

#[test]
fn load_errors_are_worded() {
    assert_eq!(
        YapLoadDefmtError::Recents(String::new()).as_text(),
        "error adding elf to recents"
    );
    assert_eq!(
        YapLoadDefmtError::DefmtLoad(String::new()).as_text(),
        "failed parsing defmt from elf"
    );
    assert_eq!(
        YapLoadDefmtError::LoggingWorker(LoggingWorkerMissing).as_text(),
        "failed to send logging worker new defmt table"
    );
    assert_eq!(YapLoadDefmtError::ElfWatcher("gone".to_string()).as_text(), "gone");
}

#[test]
fn actions_are_read_from_text() {
    let app = app();
    let named = |s: &str| app.get_action_from_string(s).map(|a| format!("{a:?}"));
    assert_eq!(named("  "), None);
    assert_eq!(named("Pause_MS:250"), Some("Pause(250)".to_string()));
    assert_eq!(named("pause_ms:x"), None);
    assert_eq!(named("blink"), Some("EspFlashProfile(\"blink\")".to_string()));
    assert!(named("hello").unwrap().starts_with("MacroInvocation"));
    assert!(named("reload-macros").unwrap().starts_with("BuiltinAction"));
}
