//! Flashing profiles, macros, bindings, updates and the rest.

use yap::keybinds::{
    Action, BaseAction, BuiltinAction, KeyBinding, Keybinds, PortAction, ShowPopupAction,
    BUILTIN_ACTION_COUNT,
};
use yap::keys::{KeyCode, KeyEvent, CONTROL};
use yap::macros::{
    MacroCategorySelection, MacroContent, MacroFile, MacroNameTag, Macros, SerializedMacro,
};
use yap::startup::{config_adjacent_path, determine_working_directory, requested_port, BadUsbQuery};
use yap::traits::RequiresPort;
use yap::serial::SerialPortType;
use yap::tui::esp::{
    describe_device, espflash_buttons, parse_offset, DeviceInfo, EspBins, EspElf, EspEvent,
    EspFlashHelper, EspPopup, EspProfile, Field, FieldError, FieldValue, FlashProgress,
    SegmentAction, SerializedEspFiles,
};
use yap::tui::prompts::{from_key_code, labels, DisconnectPrompt, PromptTable};
use yap::tui::{centered_rect_size, Rect};
use yap::buffer::tui::Size;
use yap::updates::{
    asset_pair_for, check_digest, check_for_update, check_response, find_newest, leading_word,
    verify_download, Release, ReleaseAsset, UpdateBackend, UpdateError,
};
use yap::watch::{ForceExit, InterruptWatch, TcpStreamHealth};

fn text(key: &str, value: &str) -> Field {
    Field { key: key.to_string(), value: FieldValue::Text(value.to_string()) }
}

fn number_field(key: &str, value: u32) -> Field {
    Field { key: key.to_string(), value: FieldValue::Number(value) }
}

fn elf(name: &str) -> EspElf {
    EspElf::from_fields(&vec![text("name", name), text("path", "a.elf"), text("chip", "esp32")])
        .ok()
        .unwrap()
}

fn bins(name: &str) -> EspBins {
    EspBins::from_fields(&vec![text("name", name), text("0x1000", "b.bin"), text("chip", "esp32")])
        .ok()
        .unwrap()
}

fn macro_entry(name: &str, category: Option<&str>, content: &str) -> SerializedMacro {
    SerializedMacro {
        name: name.to_string(),
        category: category.map(str::to_string),
        content: content.to_string(),
        line_ending: None,
        sensitive: false,
    }
}

fn macros() -> Macros {
    let mut macros = Macros::empty();
    macros.add_file(
        MacroFile {
            category_override: None,
            macros: vec![
                macro_entry("reset", None, "AT+RST"),
                macro_entry("ping", Some("net"), "AT+PING"),
                macro_entry("bell", Some(" "), "\\x07"),
            ],
        },
        "modem",
    );
    macros
}

fn binding(code: KeyCode, label: &str, actions: &[&str]) -> KeyBinding {
    KeyBinding {
        combo: KeyEvent { code, modifiers: CONTROL },
        label: label.to_string(),
        actions: actions.iter().map(|a| a.to_string()).collect(),
    }
}

fn asset(name: &str) -> ReleaseAsset {
    ReleaseAsset { name: name.to_string(), download_url: format!("https://host/{name}") }
}

fn release(version: &str, assets: &[&str]) -> Release {
    Release {
        version: version.to_string(),
        assets: assets.iter().map(|a| asset(a)).collect(),
    }
}

#[test]
fn offsets_are_read() {
    assert_eq!(parse_offset("0x1000"), Some(0x1000));
    assert_eq!(parse_offset("1000"), Some(0x1000));
    assert_eq!(parse_offset("xyz"), None);
    assert_eq!(parse_offset("0x"), None);
    assert_eq!(parse_offset("100000000"), None);
}

#[test]
fn elf_profiles_are_read() {
    let profile = elf("app");
    assert_eq!((profile.name.as_str(), profile.path.as_str()), ("app", "a.elf"));
    assert_eq!(profile.expected_chip.as_deref(), Some("esp32"));
    assert!(!profile.ram && !profile.defmt);
}

#[test]
fn elf_profiles_report_what_is_wrong() {
    let missing_name = vec![text("path", "a.elf"), text("chip", "esp32")];
    assert!(matches!(EspElf::from_fields(&missing_name), Err(FieldError::MissingName)));
    let missing_path = vec![text("name", "a"), text("chip", "esp32")];
    assert!(matches!(EspElf::from_fields(&missing_path), Err(FieldError::MissingPath)));
    let missing_chip = vec![text("name", "a"), text("path", "b")];
    assert!(matches!(EspElf::from_fields(&missing_chip), Err(FieldError::MissingChip)));
    let bad_chip = vec![text("name", "a"), text("path", "b"), text("chip", "z80")];
    assert!(matches!(EspElf::from_fields(&bad_chip), Err(FieldError::InvalidChip)));
    let wrong_type = vec![number_field("name", 3)];
    assert!(matches!(EspElf::from_fields(&wrong_type), Err(FieldError::WrongType(0))));
}

#[test]
fn bin_profiles_are_read() {
    let profile = bins("both");
    assert_eq!(profile.bins, vec![(0x1000, "b.bin".to_string())]);
    let bad = vec![text("name", "a"), text("0xnowhere", "b.bin"), text("chip", "esp32")];
    assert!(matches!(EspBins::from_fields(&bad), Err(FieldError::InvalidOffset(1))));
}

#[test]
fn repeated_profile_names_are_found() {
    let files = SerializedEspFiles { elfs: vec![elf("a"), elf("b")], bins: vec![bins("a")] };
    assert_eq!(files.check_for_duplicate_names().err().map(|e| e.0), Some("a".to_string()));
    let files = SerializedEspFiles { elfs: vec![elf("a")], bins: vec![bins("b")] };
    assert!(files.check_for_duplicate_names().is_ok());
}

#[test]
fn listed_profiles_are_found() {
    let helper = EspFlashHelper::new(vec![elf("e")], vec![bins("b")]);
    assert_eq!(helper.len(), 2);
    assert_eq!(helper.index_from_name("b"), Some(1));
    assert_eq!(helper.index_from_name("x"), None);
    assert!(matches!(helper.profile_from_index(0), Some(EspProfile::Elf(_))));
    assert_eq!(helper.profile_from_name("b").map(|p| p.name().to_string()), Some("b".to_string()));
    assert!(helper.profile_from_index(2).is_none());
    assert_eq!(helper.profiles(), vec![("e", true, false), ("b", false, false)]);
    assert_eq!(helper.profiles_table()[0], ("e ".to_string(), "Flash ELF!".to_string()));
    assert_eq!(helper.profiles_table()[1], ("b ".to_string(), "Flash BIN!".to_string()));
}

#[test]
fn progress_is_shown() {
    let mut helper = EspFlashHelper::new(vec![], vec![]);
    assert!(!helper.accepts(&EspEvent::FlashProgress(FlashProgress::Progress(1))));
    helper.consume_event(EspEvent::FlashProgress(FlashProgress::SegmentInit {
        chip: "ESP32".to_string(),
        addr: 0x8000,
        size: 9,
        file_name: Some("p.bin".to_string()),
    }));
    helper.consume_event(EspEvent::FlashProgress(FlashProgress::Progress(4)));
    match &helper.popup {
        Some(EspPopup::Flashing(flashing)) => {
            assert_eq!(flashing.chunks_text(), "4 / 9");
            assert_eq!(flashing.target_text(), "p.bin @ 0x008000");
            assert_eq!(flashing.current_action, SegmentAction::Flashing);
            assert_eq!(flashing.fixed_label(), None);
        }
        other => panic!("{other:?}"),
    }
    helper.consume_event(EspEvent::FlashProgress(FlashProgress::SegmentFinished { skipped: true }));
    let reaction = helper.consume_event(EspEvent::PortReturned);
    assert!(reaction.acknowledge_interrupt);
    assert!(!helper.popup_active());
}

#[test]
fn device_descriptions_stay_until_closed() {
    let mut helper = EspFlashHelper::new(vec![], vec![]);
    helper.consume_event(EspEvent::DeviceInfo(DeviceInfo {
        chip: "esp32".to_string(),
        revision: Some((3, 1)),
        crystal_frequency: "40 MHz".to_string(),
        flash_size: "4MB".to_string(),
        features: vec!["WiFi".to_string()],
        mac_address: None,
    }));
    assert!(helper.device_info_shown());
    helper.consume_event(EspEvent::PortReturned);
    assert!(helper.device_info_shown());
    helper.reset_popup();
    assert!(!helper.popup_active());
}

#[test]
fn devices_are_described() {
    let rows = describe_device(&DeviceInfo {
        chip: "esp32".to_string(),
        revision: Some((3, 1)),
        crystal_frequency: "40 MHz".to_string(),
        flash_size: "4MB".to_string(),
        features: vec!["WiFi".to_string(), "BT".to_string()],
        mac_address: Some("aa:bb".to_string()),
    });
    assert_eq!(rows[0], ("Chip:".to_string(), "ESP32".to_string()));
    assert!(rows.iter().any(|(_, v)| v == "WiFi, BT"));
}

#[test]
fn buttons_follow_the_state() {
    assert_eq!(espflash_buttons(false, false)[1].1, "Reboot!");
    assert_eq!(espflash_buttons(true, false)[1].1, "Reboot! (Unchecked)");
    assert_eq!(espflash_buttons(false, true)[3].1, "Confirm?");
}

#[test]
fn macros_are_loaded_in_order() {
    let macros = macros();
    let names: Vec<_> = macros.all.iter().map(|m| m.tag.as_text()).collect();
    assert_eq!(names, vec!["bell", "net|ping", "modem|reset"]);
    assert_eq!(macros.categories(), vec!["No Category", "modem", "net"]);
    assert!(macros.has_no_category_macros());
}

#[test]
fn macros_of_the_same_name_replace_each_other() {
    let mut macros = macros();
    macros.add_file(
        MacroFile {
            category_override: Some("net".to_string()),
            macros: vec![macro_entry("ping", None, "new")],
        },
        "other",
    );
    assert_eq!(macros.all.len(), 3);
    let tag = MacroNameTag::parse("net|ping").unwrap();
    assert_eq!(macros.content_of(&tag).map(|c| c.as_str()), Some("new"));
}

#[test]
fn macros_are_found_by_name() {
    let macros = macros();
    let found = |q: &str, fuzzy| macros.get_by_string(q, fuzzy).map(|t| t.as_text());
    assert_eq!(found("net|ping", false), Some("net|ping".to_string()));
    assert_eq!(found("ping", false), None);
    assert_eq!(found("ping", true), Some("net|ping".to_string()));
    assert_eq!(found("bell", false), Some("bell".to_string()));
    assert_eq!(found("  ", true), None);
}

#[test]
fn macro_categories_filter() {
    let mut macros = macros();
    assert_eq!(macros.visible_len(), 3);
    macros.category_index = 0;
    assert!(matches!(macros.selected_category(), MacroCategorySelection::WithBytes));
    assert_eq!(macros.filtered_macros(), vec![0]);
    macros.category_index = 1;
    assert_eq!(macros.visible_len(), 2);
    macros.category_index = 3;
    assert!(matches!(macros.selected_category(), MacroCategorySelection::NoCategory));
    macros.step_category(true);
    assert!(matches!(macros.selected_category(), MacroCategorySelection::Category(c) if c == "modem"));
    macros.step_category(true);
    macros.step_category(true);
    assert_eq!(macros.category_index, 5);
    for _ in 0..9 {
        macros.step_category(false);
    }
    assert_eq!(macros.category_index, 0);
}

#[test]
fn macro_contents_are_unescaped() {
    let content = MacroContent::new_with_line_ending("a\\x00", None, true);
    assert!(content.has_escaped_bytes && content.sensitive && !content.is_empty());
    assert_eq!(content.unescape_bytes(), vec![b'a', 0]);
}

#[test]
fn macro_table_names_keys() {
    let keybinds = Keybinds::from_bindings(vec![
        binding(KeyCode::F(1), "Ctrl-F1", &["net|ping"]),
        binding(KeyCode::F(2), "Ctrl-F2", &["modem|reset", "pause_ms:5"]),
    ]);
    let table = macros().as_table(&keybinds, true);
    assert_eq!(table[1], ("ping".to_string(), "Ctrl-F1".to_string()));
    assert_eq!(table[2], ("reset".to_string(), "".to_string()));
}

#[test]
fn builtin_actions_have_names() {
    for i in 0..BUILTIN_ACTION_COUNT {
        let action = BuiltinAction::at(i).unwrap();
        assert_eq!(BuiltinAction::parse(action.as_text()), Some(action));
        assert_eq!(action.rank(), i);
    }
    assert_eq!(BuiltinAction::at(BUILTIN_ACTION_COUNT), None);
    assert_eq!(
        BuiltinAction::parse("TOGGLE-textwrap"),
        Some(BuiltinAction::Base(BaseAction::ToggleTextwrap))
    );
    assert_eq!(BuiltinAction::parse("nothing"), None);
}

#[test]
fn actions_need_a_port_or_not() {
    let dtr = Action::BuiltinAction(BuiltinAction::Port(PortAction::ToggleDtr));
    assert!(dtr.requires_connection() && dtr.requires_terminal_view());
    let again = BuiltinAction::Port(PortAction::AttemptReconnectLoose);
    assert!(!again.requires_connection() && again.requires_terminal_view());
    assert!(!Action::Pause(5).requires_connection());
    assert!(Action::EspFlashProfile("x".to_string()).requires_connection());
}

#[test]
fn bindings_are_looked_up() {
    let keybinds = Keybinds::from_bindings(vec![
        binding(KeyCode::Char('x'), "Ctrl-x", &[]),
        binding(KeyCode::Char('e'), "Ctrl-e", &[" Escape-Keypress "]),
        binding(KeyCode::Char('p'), "Ctrl-p", &["show-port-settings"]),
    ]);
    assert_eq!(keybinds.keybindings.len(), 2);
    let combo = KeyEvent { code: KeyCode::Char('e'), modifiers: CONTROL };
    assert!(keybinds
        .key_has_single_action(combo, BuiltinAction::Base(BaseAction::EscapeKeypress)));
    assert_eq!(keybinds.escape_keypress_hint(), "Ctrl-e");
    assert_eq!(keybinds.port_settings_hint(), "Ctrl-p");
    assert_eq!(keybinds.show_keybinds_hint(), "?");
    assert!(keybinds
        .action_strs_from_key_combo(KeyEvent { code: KeyCode::Char('z'), modifiers: 0 })
        .is_none());
    assert_eq!(
        BuiltinAction::parse("show-keybinds"),
        Some(BuiltinAction::Popup(ShowPopupAction::ShowKeybinds))
    );
}

#[test]
fn prompts_are_chosen_by_key() {
    assert_eq!(
        from_key_code::<DisconnectPrompt>(KeyCode::Char('e')),
        Some(DisconnectPrompt::ExitApp)
    );
    assert_eq!(from_key_code::<DisconnectPrompt>(KeyCode::Esc), Some(DisconnectPrompt::Cancel));
    assert_eq!(from_key_code::<DisconnectPrompt>(KeyCode::Char('z')), None);
    assert_eq!(DisconnectPrompt::at(5), None);
    assert_eq!(labels::<DisconnectPrompt>().len(), DisconnectPrompt::count());
    assert_eq!(labels::<DisconnectPrompt>()[4], "Exit App");
}

#[test]
fn centered_rectangles_stay_inside() {
    let parent = Rect { x: 0, y: 0, width: 80, height: 24 };
    assert_eq!(
        centered_rect_size(Size { width: 60, height: 8 }, parent),
        Rect { x: 10, y: 8, width: 60, height: 8 }
    );
    assert_eq!(centered_rect_size(Size { width: 100, height: 30 }, parent), parent);
    let moved = Rect { x: 7, y: 3, ..parent };
    assert_eq!(
        centered_rect_size(Size { width: 61, height: 9 }, moved),
        Rect { x: 16, y: 10, width: 61, height: 9 }
    );
}

#[test]
fn the_newest_release_is_chosen() {
    let releases =
        vec![release("1.2.0", &[]), release("1.10.0", &[]), release("2.0.0-pre.1", &[]), release("junk", &[])];
    assert_eq!(find_newest(&releases, "1.0.0", false).ok().unwrap(), Some(1));
    assert_eq!(find_newest(&releases, "1.0.0", true).ok().unwrap(), Some(2));
    assert_eq!(find_newest(&releases, "1.10.0", false).ok().unwrap(), None);
    assert!(matches!(find_newest(&releases, "one", true), Err(UpdateError::OwnVersion)));
}

#[test]
fn the_last_of_equal_releases_is_chosen() {
    let releases = vec![release("1.2.0", &["first"]), release("1.2.0", &["second"])];
    assert_eq!(find_newest(&releases, "1.0.0", false).ok().unwrap(), Some(1));
}

#[test]
fn archives_come_with_checksums() {
    let assets = vec![
        asset("yap-full-x86_64-linux.tar.gz.sha512"),
        asset("yap-full-x86_64-linux.tar.gz"),
        asset("yap-lite-x86_64-linux.tar.gz"),
    ];
    assert_eq!(asset_pair_for("yap-full", "x86_64-linux", &assets, true), Some((1, 0)));
    assert_eq!(asset_pair_for("yap-lite", "x86_64-linux", &assets, true), None);
    assert_eq!(asset_pair_for("yap", "x86_64-linux", &assets, false), None);
    assert_eq!(asset_pair_for("yap", "arm", &assets, false), None);
}

#[test]
fn updates_are_found_and_remembered() {
    let releases = vec![release("1.1.0", &["yap-full-linux.sha512", "yap-full-linux.gz"])];
    let found = check_for_update(&releases, "1.0.0", false, "yap-full", "linux", true)
        .ok()
        .unwrap()
        .unwrap();
    assert_eq!(found.archive.name, "yap-full-linux.gz");
    let mut backend = UpdateBackend::new();
    assert!(matches!(backend.take_assets(), Err(UpdateError::AssetsMissing)));
    assert_eq!(backend.remember(found), "1.1.0");
    let (archive, checksum) = backend.take_assets().ok().unwrap();
    assert_eq!(archive.name, "yap-full-linux.gz");
    assert_eq!(checksum.name, "yap-full-linux.sha512");
    assert!(backend.take_assets().is_err());
    assert!(matches!(
        check_for_update(&releases, "1.0.0", false, "yap-full", "windows", true),
        Err(UpdateError::ChecksumOrFlavorMissing)
    ));
    assert!(matches!(
        check_for_update(&releases, "2.0.0", false, "yap-full", "linux", true),
        Ok(None)
    ));
}

#[test]
fn responses_have_to_hold_something() {
    assert!(check_response(200, Some(5)).is_ok());
    assert!(matches!(check_response(404, Some(5)), Err(UpdateError::InvalidHttpCode(404))));
    assert!(matches!(check_response(200, None), Err(UpdateError::InvalidHttpCode(200))));
    assert!(check_response(204, Some(0)).is_err());
}

#[test]
fn checksums_are_verified() {
    let empty = "cf83e1357eefb8bdf1542850d66d8007d620e4050b5715dc83f4a921d36ce9ce\
                 47d0d13c5d85f2b0ff8318d2877eec2f63b931bd47417a81a538327af927da3e";
    assert!(verify_download(&format!("{empty} *file.gz\n"), b"").is_ok());
    assert!(matches!(
        verify_download(&format!("{empty} *file.gz\n"), b"x"),
        Err(UpdateError::ChecksumMismatch { .. })
    ));
    assert!(matches!(verify_download(" \n", b""), Err(UpdateError::ChecksumEmpty)));
    assert!(check_digest("ab  cd", "ab".to_string()).is_ok());
    assert_eq!(leading_word("  one two"), Some("one"));
    assert_eq!(leading_word(""), None);
}

#[test]
fn interruptions_are_watched() {
    let mut watch = InterruptWatch::new();
    assert_eq!(watch.interrupt(0), None);
    assert_eq!(watch.interrupt(300), None);
    assert_eq!(watch.interrupt(600), Some(ForceExit::Burst));
    watch.acknowledge();
    assert_eq!(watch.interrupt(700), None);
    assert_eq!(watch.interrupt(5800), Some(ForceExit::Unacknowledged));
}

#[test]
fn health_fails_once() {
    let mut health = TcpStreamHealth::new(true);
    assert!(health.is_ok());
    health.mark_failed();
    assert!(!health.is_ok());
    assert!(!TcpStreamHealth::new(false).is_ok());
}

#[test]
fn directories_are_chosen() {
    let pick = |portable, exists| {
        determine_working_directory(portable, exists, "here".to_string(), Some("home".to_string()))
    };
    assert_eq!(pick(true, false).as_deref(), Some("here"));
    assert_eq!(pick(false, true).as_deref(), Some("here"));
    assert_eq!(pick(false, false).as_deref(), Some("home"));
    assert_eq!(config_adjacent_path("dir", "macros"), "dir/macros");
    assert_eq!(config_adjacent_path("dir/", "macros"), "dir/macros");
    assert_eq!(config_adjacent_path("dir", "/abs"), "/abs");
}

#[test]
fn requested_ports_are_read() {
    let named = requested_port("/dev/ttyUSB0".to_string()).ok().unwrap();
    assert_eq!(named.port_name, "/dev/ttyUSB0");
    match requested_port("303A:1001:abc:def".to_string()).ok().unwrap().port_type {
        SerialPortType::UsbPort(usb) => {
            assert_eq!((usb.vid, usb.pid), (0x303a, 0x1001));
            assert_eq!(usb.serial_number.as_deref(), Some("abc:def"));
        }
        other => panic!("{other:?}"),
    }
    assert_eq!(requested_port("zz:1".to_string()).err(), Some(BadUsbQuery));
    assert_eq!(requested_port("12345:1".to_string()).err(), Some(BadUsbQuery));
}
