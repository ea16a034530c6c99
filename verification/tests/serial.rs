//! Ports, and the worker that minds them.

use yap::serial::esp::{EspAction, EspCommand, EspFailure, EspOutcome, EspReport, EspRestartType};
use yap::serial::handle::{payload, text_payload, PortCommand};
use yap::serial::port_status::{InnerPortStatus, PortStatus};
use yap::serial::supervisor::{
    signal_check_due, ScanFailed, ScanPurpose, SerialWorker, SerialWorkerCommand, WorkerAction,
};
use yap::serial::worker::{
    choose_reconnect, filter_ports, find_usb, snapshot_at_disconnect, toggle_signals,
    write_signals, HeldPort, Ignored, TxProgress, MOCK_PORT_NAME, SLOW_WRITE_SIZE,
};
use yap::serial::{
    PrintablePortInfo, ReconnectType, ReconnectionStrictness, SerialDisconnectReason,
    SerialPortInfo, SerialPortType, SerialSignals, SignalAssertion, SlaveSignals, UsbPortInfo,
};
use yap::settings::{DataBits, FlowControl, Parity, PortSettings, StopBits};
use yap::tui::esp::{EspElf, EspProfile};

fn usb(vid: u16, pid: u16, serial: Option<&str>) -> UsbPortInfo {
    UsbPortInfo {
        vid,
        pid,
        serial_number: serial.map(str::to_string),
        manufacturer: None,
        product: None,
    }
}

fn usb_port(name: &str, vid: u16, pid: u16, serial: Option<&str>) -> SerialPortInfo {
    SerialPortInfo {
        port_name: name.to_string(),
        port_type: SerialPortType::UsbPort(usb(vid, pid, serial)),
    }
}

fn port(name: &str) -> SerialPortInfo {
    SerialPortInfo { port_name: name.to_string(), port_type: SerialPortType::Unknown }
}

fn settings() -> PortSettings {
    PortSettings {
        baud_rate: 115200,
        data_bits: DataBits::Eight,
        flow_control: FlowControl::Off,
        parity_bits: Parity::Off,
        stop_bits: StopBits::One,
        dtr_on_connect: true,
        rts_on_connect: false,
        limit_tx_speed: false,
        reconnections: ReconnectionStrictness::Low,
    }
}

fn ignored() -> Ignored {
    Ignored { name: vec![], usb: vec![], show_ttys_ports: false, hide_loopback_port: true }
}

fn slave() -> SlaveSignals {
    SlaveSignals { cts: true, dsr: false, ri: false, cd: false }
}

fn elf(chip: Option<&str>) -> EspProfile {
    EspProfile::Elf(EspElf {
        name: "app".to_string(),
        path: "app.elf".to_string(),
        upload_baud: None,
        expected_chip: chip.map(str::to_string),
        partition_table: None,
        bootloader: None,
        no_skip: false,
        skip_verify: false,
        ram: false,
        defmt: false,
    })
}

fn connected_worker() -> SerialWorker {
    let mut worker = SerialWorker::new(settings(), ignored());
    worker.connected(usb_port("COM1", 1, 2, None), slave(), 10, false);
    worker
}

#[test]
fn ports_are_described() {
    assert_eq!(
        usb_port("COM1", 0x1a, 0xbeef, None).info_as_string(Some(9600)),
        "COM1 @ 9600 | VID: 0x001A, PID: 0xBEEF"
    );
    assert_eq!(port("tty").info_as_string(None), "tty");
}

#[test]
fn ignored_ports_are_never_offered() {
    let found = vec![
        port("/dev/ttyS0"),
        port("hidden"),
        usb_port("a", 1, 2, Some("x")),
        usb_port("b", 1, 2, Some("y")),
        usb_port("c", 9, 9, None),
    ];
    let mut list = ignored();
    list.name.push("hidden".to_string());
    list.usb.push(usb(1, 2, Some("x")));
    let names: Vec<String> =
        filter_ports(&found, &list).into_iter().map(|p| p.port_name).collect();
    assert_eq!(names, vec!["b", "c"]);
    list.hide_loopback_port = false;
    assert!(filter_ports(&found, &list).iter().any(|p| p.port_name == MOCK_PORT_NAME));
    list.show_ttys_ports = true;
    assert!(filter_ports(&found, &list).iter().any(|p| p.port_name == "/dev/ttyS0"));
}

#[test]
fn usb_devices_are_found() {
    let ports = vec![port("x"), usb_port("a", 1, 2, Some("s"))];
    assert_eq!(find_usb(&ports, &usb(1, 2, None)), Some(1));
    assert_eq!(find_usb(&ports, &usb(1, 2, Some("s"))), Some(1));
    assert_eq!(find_usb(&ports, &usb(1, 2, Some("t"))), None);
    assert!(usb(1, 2, Some("s")).matches_query(&usb(1, 2, None)));
}

#[test]
fn reconnections_keep_to_the_strictness() {
    let lost = usb_port("COM1", 1, 2, Some("s"));
    let moved = vec![usb_port("COM2", 1, 2, Some("s"))];
    let similar = vec![usb_port("COM3", 1, 2, Some("t"))];
    let named = vec![port("COM1")];
    let none: Vec<SerialPortInfo> = vec![];
    let go = |ports: &Vec<SerialPortInfo>, s| choose_reconnect(ports, &lost, &none, s);
    let same = vec![usb_port("COM1", 1, 2, Some("s"))];
    assert_eq!(
        go(&same, ReconnectionStrictness::High),
        Some((0, ReconnectType::PerfectMatch))
    );
    assert_eq!(go(&moved, ReconnectionStrictness::High), Some((0, ReconnectType::UsbStrict)));
    assert_eq!(go(&similar, ReconnectionStrictness::High), None);
    assert_eq!(go(&similar, ReconnectionStrictness::Med), Some((0, ReconnectType::UsbLoose)));
    assert_eq!(go(&named, ReconnectionStrictness::Med), None);
    assert_eq!(go(&named, ReconnectionStrictness::Low), Some((0, ReconnectType::LastDitch)));
    assert_eq!(go(&same, ReconnectionStrictness::Disabled), None);
}

#[test]
fn the_same_port_is_preferred() {
    let lost = usb_port("COM1", 1, 2, Some("s"));
    let ports = vec![usb_port("COM2", 1, 2, Some("s")), usb_port("COM1", 1, 2, Some("s"))];
    assert_eq!(
        choose_reconnect(&ports, &lost, &vec![], ReconnectionStrictness::Low),
        Some((1, ReconnectType::PerfectMatch))
    );
}

#[test]
fn lost_ports_are_left_out_of_the_snapshot() {
    let lost = port("a");
    let names: Vec<String> = snapshot_at_disconnect(vec![port("a"), port("b")], &lost)
        .into_iter()
        .map(|p| p.port_name)
        .collect();
    assert_eq!(names, vec!["b"]);
}

#[test]
fn strictness_allows_in_steps() {
    assert!(!ReconnectionStrictness::Disabled.allowed());
    assert!(ReconnectionStrictness::High.allowed());
    assert!(!ReconnectionStrictness::High.allows_loose());
    assert!(ReconnectionStrictness::Med.allows_loose());
    assert!(!ReconnectionStrictness::Med.allows_last_ditch());
    assert!(ReconnectionStrictness::Low.allows_last_ditch());
}

#[test]
fn slow_writes_come_in_small_chunks() {
    let mut progress = TxProgress::new(vec![7; 20]);
    assert_eq!(progress.next_chunk(false).map(|c| c.len()), Some(20));
    assert_eq!(progress.next_chunk(true).map(|c| c.len()), Some(SLOW_WRITE_SIZE));
    assert!(progress.wrote(8).is_ok());
    assert!(progress.wrote(0).is_err());
    assert!(progress.wrote(12).is_ok());
    assert!(progress.next_chunk(true).is_none());
}

#[test]
fn data_comes_back_when_sending_fails() {
    let mut worker = connected_worker();
    let mut progress = TxProgress::new(vec![7; 20]);
    assert!(progress.wrote(8).is_ok());
    let actions = worker.send_failed(progress, Some("gone".to_string()));
    assert!(matches!(&actions[1], WorkerAction::Scan(ScanPurpose::AfterDisconnect(
        SerialDisconnectReason::Error(e),
    )) if e == "gone"));
    assert!(matches!(&actions[2], WorkerAction::ReturnUnsent(data) if data.len() == 20));
    assert!(worker.status.status().is_premature_disconnect());
    let mut worker = connected_worker();
    let actions = worker.send_failed(TxProgress::new(vec![1]), None);
    assert!(matches!(&actions[1], WorkerAction::Scan(ScanPurpose::AfterDisconnect(
        SerialDisconnectReason::Error(e),
    )) if e == "Unexpected EOF on write"));
}

#[test]
fn toggling_twice_is_nothing() {
    let signals =
        SerialSignals { rts: false, dtr: true, cts: false, dsr: false, ri: false, cd: true };
    let once = toggle_signals(signals, true, true);
    assert!(once.rts && !once.dtr && once.cd);
    assert_eq!(toggle_signals(once, true, true), signals);
    let written = write_signals(signals, None, Some(true));
    assert!(written.rts && written.dtr);
}

#[test]
fn read_signals_tell_of_changes() {
    let mut signals =
        SerialSignals { rts: true, dtr: true, cts: false, dsr: false, ri: false, cd: false };
    assert!(signals.update_slave_signals(slave()));
    assert!(!signals.update_slave_signals(slave()));
    assert!(signals.cts && signals.rts);
}

#[test]
fn signal_assertions_are_written() {
    assert_eq!(SignalAssertion::from_bool(true), SignalAssertion::Bool(true));
    assert!(SignalAssertion::Bool(true).into_bool());
    assert_eq!(SignalAssertion::Bool(true).as_text(), None);
    assert!(SignalAssertion::Untouched.as_text().is_some());
}

#[test]
fn payloads_end_with_the_ending() {
    assert_eq!(payload(vec![1, 2], Some(&[3])), vec![1, 2, 3]);
    assert_eq!(payload(vec![1, 2], None), vec![1, 2]);
    assert_eq!(text_payload("a\\n", b"!", true), b"a\n!");
    assert_eq!(text_payload("a\\n", b"!", false), b"a\\n!");
}

#[test]
fn lending_keeps_the_connection() {
    let status = PortStatus::new_idle(&settings());
    assert!(status.status().is_idle());
    let status = status.into_connected(slave(), port("a"), 5, &settings());
    assert!(status.status().is_connected());
    assert!(status.signals().cts);
    let lent = status.into_lent_out(9);
    assert_eq!(
        lent.status(),
        InnerPortStatus::LentOut { initial_connection_at: 5, lent_out_at: 9 }
    );
    let (back, _) = lent.returning_lent_port(&settings());
    assert_eq!(back.status(), InnerPortStatus::Connected { connected_at: 5 });
    assert!(back.current_port().is_some());
    let lost = back.into_unhealthy();
    assert!(lost.status().is_premature_disconnect());
    assert!(lost.into_idle(&settings()).current_port().is_none());
}

#[test]
fn the_worker_lists_ports() {
    let mut worker = SerialWorker::new(settings(), ignored());
    let actions = worker.handle_worker_command(SerialWorkerCommand::RequestPortScan);
    assert!(matches!(actions.as_slice(), [WorkerAction::Scan(ScanPurpose::List)]));
    let actions = worker.scanned(ScanPurpose::List, Some(vec![port("a")])).unwrap();
    assert!(matches!(actions.as_slice(), [WorkerAction::ReportScan(p)] if p.len() == 1));
    assert!(matches!(worker.scanned(ScanPurpose::List, None), Err(ScanFailed)));
}

#[test]
fn data_without_a_port_comes_back() {
    let mut worker = SerialWorker::new(settings(), ignored());
    let actions = worker.handle_port_command(PortCommand::TxBuffer(vec![1]));
    assert!(matches!(actions.as_slice(), [WorkerAction::ReturnUnsent(d)] if d == &vec![1]));
    let mut worker = connected_worker();
    let actions = worker.handle_port_command(PortCommand::TxBuffer(vec![1]));
    assert!(matches!(actions.as_slice(), [WorkerAction::Send(d)] if d == &vec![1]));
}

#[test]
fn leaving_forgets_the_port() {
    let mut worker = connected_worker();
    assert_eq!(worker.held, HeldPort::Native);
    worker.handle_worker_command(SerialWorkerCommand::Disconnect { user_wants_break: false });
    assert!(worker.status.current_port().is_none());
    let mut worker = connected_worker();
    worker.handle_worker_command(SerialWorkerCommand::Disconnect { user_wants_break: true });
    assert!(worker.status.current_port().is_some());
}

#[test]
fn a_lost_port_is_looked_for() {
    let mut worker = connected_worker();
    worker.unhealthy_disconnection(SerialDisconnectReason::Error("gone".to_string()));
    assert!(worker.status.status().is_premature_disconnect());
    let found = vec![usb_port("COM1", 1, 2, None)];
    let actions = worker
        .scanned(ScanPurpose::Reconnect(ReconnectionStrictness::High), Some(found))
        .unwrap();
    assert!(actions.iter().any(|a| matches!(
        a,
        WorkerAction::Connect { reconnect: Some(ReconnectType::PerfectMatch), .. }
    )));
}

#[test]
fn settings_wait_for_the_port() {
    let mut faster = settings();
    faster.baud_rate = 230400;
    let mut worker = connected_worker();
    let actions = worker.handle_port_command(PortCommand::PortSettings(faster));
    assert!(matches!(actions[..], [WorkerAction::Configure(s, _)] if s == faster));
    assert_eq!(worker.settings, settings());
    worker.configured(faster);
    assert_eq!(worker.settings, faster);
    let mut worker = SerialWorker::new(settings(), ignored());
    assert!(worker.handle_port_command(PortCommand::PortSettings(faster)).is_empty());
    assert_eq!(worker.settings, faster);
}

#[test]
fn levels_wait_for_the_port() {
    let mut worker = connected_worker();
    let before = worker.current_levels();
    let command = PortCommand::ToggleSignals { dtr: true, rts: false };
    let actions = worker.handle_port_command(command);
    let levels = match actions[0] {
        WorkerAction::SetSignals(levels) => levels,
        _ => panic!("no levels"),
    };
    assert_eq!((levels.dtr, levels.rts), (!before.dtr, before.rts));
    assert_eq!(worker.current_levels(), before);
    worker.signals_set(levels);
    assert_eq!(worker.current_levels(), levels);
    let mut worker = SerialWorker::new(settings(), ignored());
    let before = worker.current_levels();
    let command = PortCommand::WriteSignals { dtr: Some(!before.dtr), rts: None };
    assert_eq!(worker.handle_port_command(command).len(), 1);
    assert_eq!(worker.current_levels().dtr, !before.dtr);
}

#[test]
fn signals_are_checked_now_and_then() {
    assert!(!signal_check_due(99));
    assert!(signal_check_due(100));
    assert!(HeldPort::Native.is_some() && !HeldPort::Missing.is_some());
    assert!(!HeldPort::Borrowed.is_available());
}

#[test]
fn a_device_needs_a_port() {
    let mut worker = SerialWorker::new(settings(), ignored());
    assert!(matches!(
        worker.begin_esp(EspCommand::DeviceInfo, 1),
        Err(EspFailure::MissingPort)
    ));
    worker.held = HeldPort::Loopback;
    assert!(matches!(
        worker.begin_esp(EspCommand::EraseFlash, 1),
        Err(EspFailure::MissingPort)
    ));
    assert!(matches!(worker.held, HeldPort::Loopback));
    assert!(worker.status.status().is_idle());
    let mut worker = connected_worker();
    let (session, used, actions) = worker
        .begin_esp(EspCommand::Restart(EspRestartType::UserCode), 20)
        .ok()
        .unwrap();
    assert_eq!((used.vid, used.pid), (1, 2));
    assert!(worker.status.status().is_lent_out());
    assert!(!actions.is_empty());
    assert!(session.advance(EspOutcome::ResetDone).is_ok());
    worker.return_native_port();
    assert!(worker.status.status().is_connected());
}

#[test]
fn the_wrong_chip_is_not_flashed() {
    let mut worker = connected_worker();
    let (mut session, _, _) =
        worker.begin_esp(EspCommand::FlashProfile(elf(Some("esp32"))), 20).ok().unwrap();
    let actions = session.connected("esp32s3");
    assert!(actions.iter().any(|a| matches!(a, EspAction::Report(EspReport::WrongChip))));
    assert!(!actions.iter().any(|a| matches!(a, EspAction::LoadElfToFlash)));
    let mut worker = connected_worker();
    let (mut session, _, _) =
        worker.begin_esp(EspCommand::FlashProfile(elf(Some("esp32"))), 20).ok().unwrap();
    let actions = session.connected("esp32");
    assert!(matches!(actions.last(), Some(EspAction::ReadElf)));
    assert!(!actions.iter().any(|a| matches!(a, EspAction::Report(EspReport::WrongChip))));
    let actions = session.advance(EspOutcome::ElfRead).ok().unwrap();
    assert!(matches!(actions[..], [EspAction::ReadDeviceInfo]));
}

#[test]
fn unnamed_files_are_refused() {
    let mut worker = connected_worker();
    let (session, _, _) =
        worker.begin_esp(EspCommand::FlashProfile(elf(None)), 20).ok().unwrap();
    assert!(matches!(
        session.advance(EspOutcome::BinsRead(vec![None])),
        Err(EspFailure::FileMissingName)
    ));
}
