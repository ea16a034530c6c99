//! The worker that owns the port: what it does on each command, and on what comes
//! back from the machine.

use vstd::prelude::*;
use vstd::string::*;

use crate::serial::handle::PortCommand;
use crate::serial::port_status::{InnerPortStatus, PortStatus, SignalLevels};
use crate::serial::worker::{
    choose_reconnect, filter_ports, find_usb, snapshot_at_disconnect, toggle_signals,
    write_signals, HeldPort, Ignored, TxProgress,
};
use crate::serial::{
    duplicate_ports, ReconnectType, ReconnectionStrictness, SerialDisconnectReason, SerialPortInfo,
    SerialPortType, SerialSignals, SlaveSignals, UsbPortInfo,
};
use crate::settings::PortSettings;

verus! {

/// What is asked of the worker.
#[derive(Debug)]
pub enum SerialWorkerCommand {
    RequestPortScan,
    RequestPortScanBlocking,
    ConnectBlocking { port: SerialPortInfo, baud: Option<u32>, settings: PortSettings },
    PortCommand(PortCommand),
    RequestReconnect(Option<ReconnectionStrictness>),
    Disconnect { user_wants_break: bool },
    NewIgnored(Ignored),
}

/// What the ports of the machine are looked up for.
#[derive(Debug)]
pub enum ScanPurpose {
    /// To be listed.
    List,
    /// To be listed for someone who waits for it.
    BlockingList,
    /// To find the requested USB device.
    UsbQuery(UsbPortInfo),
    /// To remember which were there when a connection was lost.
    AfterDisconnect(SerialDisconnectReason),
    /// To reconnect.
    Reconnect(ReconnectionStrictness),
}

/// What is to be done next.
#[derive(Debug)]
pub enum WorkerAction {
    /// Let go of the port.
    DropPort,
    /// Look up the ports of the machine.
    Scan(ScanPurpose),
    /// Connect to a port after waiting a while; someone may wait for the outcome.
    Connect {
        port: SerialPortInfo,
        reconnect: Option<ReconnectType>,
        wait_ms: u64,
        reply: bool,
    },
    /// Tell who waits that the requested USB device is not there.
    RefuseConnect,
    /// Pass on a list of ports.
    ReportScan(Vec<SerialPortInfo>),
    /// Pass on a list of ports to who waits for it.
    ReplyScan(Vec<SerialPortInfo>),
    /// Say that the connection ended.
    ReportDisconnect(SerialDisconnectReason),
    /// Give back what could not be sent.
    ReturnUnsent(Vec<u8>),
    /// Apply settings to the port, and set our lines; `configured` takes the outcome.
    /// What comes next is only done if that succeeds.
    Configure(PortSettings, SignalLevels),
    /// Set our lines; `signals_set` takes the outcome.
    SetSignals(SignalLevels),
    /// Read the lines of the other end.
    ReadSignals { force_share: bool },
    /// Send a buffer piece by piece.
    Send(Vec<u8>),
}

/// The ports of the machine could not be looked up.
#[derive(Clone, Copy, Debug, PartialEq, Eq, Structural)]
pub struct ScanFailed;

/// The worker's view of its port.
#[derive(Debug)]
pub struct SerialWorker {
    pub held: HeldPort,
    pub status: PortStatus,
    pub settings: PortSettings,
    /// The ports that were there at the last scan or disconnection.
    pub scan_snapshot: Vec<SerialPortInfo>,
    pub ignored_devices: Ignored,
}

/// The time given to a device to come up again before it is connected to.
pub const RECONNECT_WAIT_MS: u64 = 1000;

/// How often the lines of the other end are read.
pub const SIGNAL_CHECK_MS: u64 = 100;

/// The settings with another baud rate, if there is one.
pub open spec fn with_baud(settings: PortSettings, baud: Option<u32>) -> PortSettings {
    match baud {
        Some(baud_rate) => PortSettings { baud_rate, ..settings },
        None => settings,
    }
}

impl SerialWorker {
    /// A port that is held is known.
    pub open spec fn wf(&self) -> bool {
        &&& self.held.is_held() ==> self.status.current_port is Some
        &&& self.status.wf()
    }

    /// The levels that our lines should have.
    pub open spec fn levels(&self) -> SignalLevels {
        SignalLevels { dtr: self.status.signals.dtr, rts: self.status.signals.rts }
    }

    /// What applying some settings takes: nothing while there is no port.
    pub open spec fn configure_actions(&self, settings: PortSettings) -> Seq<WorkerAction> {
        if self.held.can_transfer() {
            seq![WorkerAction::Configure(settings, self.levels())]
        } else {
            Seq::empty()
        }
    }

    /// A worker without a port.
    pub fn new(settings: PortSettings, ignored_devices: Ignored) -> (r: SerialWorker)
        ensures
            r.held is Missing,
            r.status.inner is Idle,
            r.status.current_port is None,
            r.status.signals == crate::serial::port_status::initial_signals(settings),
            r.settings == settings,
            r.scan_snapshot@.len() == 0,
            r.ignored_devices == ignored_devices,
            r.wf(),
    {
        SerialWorker {
            held: HeldPort::Missing,
            status: PortStatus::new_idle(&settings),
            settings,
            scan_snapshot: Vec::new(),
            ignored_devices,
        }
    }

    /// The levels that our lines should have.
    pub fn current_levels(&self) -> (r: SignalLevels)
        ensures
            r == self.levels(),
    {
        SignalLevels { dtr: self.status.signals.dtr, rts: self.status.signals.rts }
    }

    /// With new settings, unless there is a port that has to take them first.
    pub open spec fn with_settings(self, settings: PortSettings) -> SerialWorker {
        if self.held.can_transfer() {
            self
        } else {
            SerialWorker { settings, ..self }
        }
    }

    /// With other levels of our lines, unless there is a port that has to take them
    /// first.
    pub open spec fn with_signals(self, signals: SerialSignals) -> SerialWorker {
        if self.held.can_transfer() {
            self
        } else {
            SerialWorker { status: PortStatus { signals, ..self.status }, ..self }
        }
    }

    /// Takes over new settings: at once where there is no port, otherwise once the port
    /// has taken them.
    pub fn update_settings(&mut self, settings: PortSettings) -> (actions: Vec<WorkerAction>)
        ensures
            actions@ == old(self).configure_actions(settings),
            *final(self) == old(self).with_settings(settings),
    {
        let mut actions: Vec<WorkerAction> = Vec::new();
        if self.held.is_available() {
            actions.push(WorkerAction::Configure(settings, self.current_levels()));
        } else {
            self.settings = settings;
        }
        assert(actions@ =~= old(self).configure_actions(settings));
        actions
    }

    /// Notes that the port took settings. One that did not is lost.
    pub fn configured(&mut self, settings: PortSettings)
        ensures
            *final(self) == (SerialWorker { settings, ..*old(self) }),
    {
        self.settings = settings;
    }

    /// Notes that the port took the levels of our lines. One that did not is lost.
    pub fn signals_set(&mut self, levels: SignalLevels)
        ensures
            *final(self) == (SerialWorker {
                status: PortStatus {
                    signals: SerialSignals {
                        dtr: levels.dtr,
                        rts: levels.rts,
                        ..old(self).status.signals
                    },
                    ..old(self).status
                },
                ..*old(self)
            }),
    {
        self.status.signals.dtr = levels.dtr;
        self.status.signals.rts = levels.rts;
    }

    /// The connection is lost or broken: the port is let go, but remembered as the
    /// one to reconnect to, and the ports that are there now are looked up.
    pub fn unhealthy_disconnection(&mut self, reason: SerialDisconnectReason) -> (actions: Vec<
        WorkerAction,
    >)
        requires
            old(self).status.current_port is Some,
        ensures
            actions@ == seq![
                WorkerAction::DropPort,
                WorkerAction::Scan(ScanPurpose::AfterDisconnect(reason)),
            ],
            *final(self) == (SerialWorker {
                held: HeldPort::Missing,
                status: PortStatus {
                    inner: InnerPortStatus::PrematureDisconnect,
                    ..old(self).status
                },
                ..*old(self)
            }),
            final(self).wf(),
    {
        self.held = HeldPort::Missing;
        self.status.inner = InnerPortStatus::PrematureDisconnect;
        let mut actions: Vec<WorkerAction> = Vec::new();
        actions.push(WorkerAction::DropPort);
        actions.push(WorkerAction::Scan(ScanPurpose::AfterDisconnect(reason)));
        assert(actions@ =~= seq![
            WorkerAction::DropPort,
            WorkerAction::Scan(ScanPurpose::AfterDisconnect(reason)),
        ]);
        actions
    }

    /// Data could not be sent: the connection is lost, and the data comes back whole.
    /// Without an error, the port took nothing.
    pub fn send_failed(&mut self, progress: TxProgress, error: Option<String>) -> (actions: Vec<
        WorkerAction,
    >)
        requires
            old(self).status.current_port is Some,
        ensures
            actions@.len() == 3,
            actions@[0] == WorkerAction::DropPort,
            actions@[1] matches WorkerAction::Scan(ScanPurpose::AfterDisconnect(
                SerialDisconnectReason::Error(text),
            )) && text@ == (match error {
                Some(e) => e@,
                None => "Unexpected EOF on write"@,
            }),
            actions@[2] matches WorkerAction::ReturnUnsent(data) && data@ == progress.data(),
            *final(self) == (SerialWorker {
                held: HeldPort::Missing,
                status: PortStatus {
                    inner: InnerPortStatus::PrematureDisconnect,
                    ..old(self).status
                },
                ..*old(self)
            }),
            final(self).wf(),
    {
        let text = match error {
            Some(e) => e,
            None => "Unexpected EOF on write".to_owned(),
        };
        let mut actions = self.unhealthy_disconnection(SerialDisconnectReason::Error(text));
        actions.push(WorkerAction::ReturnUnsent(progress.into_data()));
        actions
    }

    /// What is done on a command.
    pub open spec fn command_actions(&self, command: SerialWorkerCommand) -> Seq<WorkerAction> {
        match command {
            SerialWorkerCommand::RequestPortScan => seq![WorkerAction::Scan(ScanPurpose::List)],
            SerialWorkerCommand::RequestPortScanBlocking => seq![
                WorkerAction::Scan(ScanPurpose::BlockingList),
            ],
            SerialWorkerCommand::ConnectBlocking { port, baud, settings } => {
                self.configure_actions(with_baud(settings, baud)) + (if port.port_name@.len() == 0 {
                    match port.port_type {
                        SerialPortType::UsbPort(usb) => seq![
                            WorkerAction::Scan(ScanPurpose::UsbQuery(usb)),
                        ],
                        _ => Seq::empty(),
                    }
                } else {
                    seq![
                        WorkerAction::Connect { port, reconnect: None, wait_ms: 0, reply: true },
                    ]
                })
            },
            SerialWorkerCommand::PortCommand(port_command) => self.port_command_actions(
                port_command,
            ),
            SerialWorkerCommand::RequestReconnect(strictness) => {
                let strictness = match strictness {
                    Some(s) => s,
                    None => self.settings.reconnections,
                };
                if self.held.is_held() || strictness is Disabled {
                    Seq::empty()
                } else {
                    seq![WorkerAction::Scan(ScanPurpose::Reconnect(strictness))]
                }
            },
            SerialWorkerCommand::Disconnect { user_wants_break } => if !user_wants_break {
                seq![
                    WorkerAction::DropPort,
                    WorkerAction::ReportDisconnect(SerialDisconnectReason::Intentional),
                ]
            } else if self.held.is_held() {
                seq![
                    WorkerAction::DropPort,
                    WorkerAction::Scan(
                        ScanPurpose::AfterDisconnect(SerialDisconnectReason::UserBrokeConnection),
                    ),
                ]
            } else {
                Seq::empty()
            },
            SerialWorkerCommand::NewIgnored(_) => Seq::empty(),
        }
    }

    /// The worker after a command.
    pub open spec fn after_command(self, command: SerialWorkerCommand) -> SerialWorker {
        match command {
            SerialWorkerCommand::ConnectBlocking { baud, settings, .. } => self.with_settings(
                with_baud(settings, baud),
            ),
            SerialWorkerCommand::PortCommand(port_command) => self.after_port_command(port_command),
            SerialWorkerCommand::Disconnect { user_wants_break } => if !user_wants_break {
                SerialWorker {
                    held: HeldPort::Missing,
                    status: PortStatus {
                        inner: InnerPortStatus::Idle,
                        current_port: None,
                        signals: crate::serial::port_status::initial_signals(self.settings),
                    },
                    ..self
                }
            } else if self.held.is_held() {
                SerialWorker {
                    held: HeldPort::Missing,
                    status: PortStatus {
                        inner: InnerPortStatus::PrematureDisconnect,
                        ..self.status
                    },
                    ..self
                }
            } else {
                self
            },
            SerialWorkerCommand::NewIgnored(ignored) => SerialWorker {
                ignored_devices: ignored,
                ..self
            },
            _ => self,
        }
    }

    /// What is done on a command to the port.
    pub open spec fn port_command_actions(&self, command: PortCommand) -> Seq<WorkerAction> {
        match command {
            PortCommand::PortSettings(settings) => self.configure_actions(settings),
            PortCommand::TxBuffer(data) => if self.held.can_transfer() {
                seq![WorkerAction::Send(data)]
            } else {
                seq![WorkerAction::ReturnUnsent(data)]
            },
            PortCommand::WriteSignals { dtr, rts } => self.signal_actions(
                crate::serial::worker::signals_written(self.status.signals, dtr, rts),
            ),
            PortCommand::ToggleSignals { dtr, rts } => self.signal_actions(
                crate::serial::worker::signals_toggled(self.status.signals, dtr, rts),
            ),
        }
    }

    /// What changing our lines takes.
    pub open spec fn signal_actions(&self, signals: SerialSignals) -> Seq<WorkerAction> {
        (if self.held.can_transfer() {
            seq![WorkerAction::SetSignals(SignalLevels { dtr: signals.dtr, rts: signals.rts })]
        } else {
            Seq::empty()
        }) + seq![WorkerAction::ReadSignals { force_share: true }]
    }

    /// The worker after a command to the port.
    pub open spec fn after_port_command(self, command: PortCommand) -> SerialWorker {
        match command {
            PortCommand::PortSettings(settings) => self.with_settings(settings),
            PortCommand::TxBuffer(_) => self,
            PortCommand::WriteSignals { dtr, rts } => self.with_signals(
                crate::serial::worker::signals_written(self.status.signals, dtr, rts),
            ),
            PortCommand::ToggleSignals { dtr, rts } => self.with_signals(
                crate::serial::worker::signals_toggled(self.status.signals, dtr, rts),
            ),
        }
    }

    /// Whether a command makes sense: a query without a name asks for a USB device,
    /// a request about lines names one, and there is a port to reconnect to.
    pub open spec fn accepts(&self, command: SerialWorkerCommand) -> bool {
        match command {
            SerialWorkerCommand::ConnectBlocking { port, .. } => port.port_name@.len() > 0
                || port.port_type is UsbPort,
            SerialWorkerCommand::PortCommand(PortCommand::WriteSignals { dtr, rts }) => dtr is Some
                || rts is Some,
            SerialWorkerCommand::PortCommand(PortCommand::ToggleSignals { dtr, rts }) => dtr || rts,
            _ => true,
        }
    }

    /// Acts on a command.
    pub fn handle_worker_command(&mut self, command: SerialWorkerCommand) -> (actions: Vec<
        WorkerAction,
    >)
        requires
            old(self).wf(),
            old(self).accepts(command),
        ensures
            actions@ == old(self).command_actions(command),
            *final(self) == old(self).after_command(command),
            final(self).wf(),
    {
        match command {
            SerialWorkerCommand::RequestPortScan => {
                let mut actions: Vec<WorkerAction> = Vec::new();
                actions.push(WorkerAction::Scan(ScanPurpose::List));
                assert(actions@ =~= old(self).command_actions(command));
                actions
            },
            SerialWorkerCommand::RequestPortScanBlocking => {
                let mut actions: Vec<WorkerAction> = Vec::new();
                actions.push(WorkerAction::Scan(ScanPurpose::BlockingList));
                assert(actions@ =~= old(self).command_actions(command));
                actions
            },
            SerialWorkerCommand::ConnectBlocking { port, baud, settings } => {
                let mut settings = settings;
                match baud {
                    Some(baud_rate) => {
                        settings.baud_rate = baud_rate;
                    },
                    None => (),
                }
                let mut actions = self.update_settings(settings);
                if port.port_name.as_str().is_empty() {
                    match port.port_type {
                        SerialPortType::UsbPort(usb) => {
                            actions.push(WorkerAction::Scan(ScanPurpose::UsbQuery(usb)));
                        },
                        _ => (),
                    }
                } else {
                    actions.push(
                        WorkerAction::Connect { port, reconnect: None, wait_ms: 0, reply: true },
                    );
                }
                assert(actions@ =~= old(self).command_actions(command));
                actions
            },
            SerialWorkerCommand::PortCommand(port_command) => self.handle_port_command(
                port_command,
            ),
            SerialWorkerCommand::RequestReconnect(strictness) => {
                let mut actions: Vec<WorkerAction> = Vec::new();
                if !self.held.is_some() {
                    let reconnections = match strictness {
                        Some(s) => s,
                        None => self.settings.reconnections,
                    };
                    if reconnections.allowed() {
                        actions.push(WorkerAction::Scan(ScanPurpose::Reconnect(reconnections)));
                    }
                }
                assert(actions@ =~= old(self).command_actions(command));
                actions
            },
            SerialWorkerCommand::Disconnect { user_wants_break } => {
                if !user_wants_break {
                    let mut actions: Vec<WorkerAction> = Vec::new();
                    self.status = PortStatus::new_idle(&self.settings);
                    self.held = HeldPort::Missing;
                    actions.push(WorkerAction::DropPort);
                    actions.push(
                        WorkerAction::ReportDisconnect(SerialDisconnectReason::Intentional),
                    );
                    assert(actions@ =~= old(self).command_actions(command));
                    actions
                } else if self.held.is_some() {
                    self.unhealthy_disconnection(SerialDisconnectReason::UserBrokeConnection)
                } else {
                    let actions: Vec<WorkerAction> = Vec::new();
                    assert(actions@ =~= old(self).command_actions(command));
                    actions
                }
            },
            SerialWorkerCommand::NewIgnored(ignored) => {
                self.ignored_devices = ignored;
                let actions: Vec<WorkerAction> = Vec::new();
                assert(actions@ =~= old(self).command_actions(command));
                actions
            },
        }
    }

    /// Acts on a command to the port.
    pub fn handle_port_command(&mut self, command: PortCommand) -> (actions: Vec<WorkerAction>)
        requires
            old(self).wf(),
            old(self).accepts(SerialWorkerCommand::PortCommand(command)),
        ensures
            actions@ == old(self).port_command_actions(command),
            *final(self) == old(self).after_port_command(command),
            final(self).wf(),
    {
        match command {
            PortCommand::PortSettings(settings) => self.update_settings(settings),
            PortCommand::TxBuffer(data) => {
                let mut actions: Vec<WorkerAction> = Vec::new();
                if self.held.is_available() {
                    actions.push(WorkerAction::Send(data));
                } else {
                    actions.push(WorkerAction::ReturnUnsent(data));
                }
                assert(actions@ =~= old(self).port_command_actions(command));
                actions
            },
            PortCommand::WriteSignals { dtr, rts } => {
                let signals = write_signals(self.status.signals, dtr, rts);
                self.change_signals(signals)
            },
            PortCommand::ToggleSignals { dtr, rts } => {
                let signals = toggle_signals(self.status.signals, dtr, rts);
                self.change_signals(signals)
            },
        }
    }

    fn change_signals(&mut self, signals: SerialSignals) -> (actions: Vec<WorkerAction>)
        ensures
            actions@ == old(self).signal_actions(signals),
            *final(self) == old(self).with_signals(signals),
    {
        let mut actions: Vec<WorkerAction> = Vec::new();
        if self.held.is_available() {
            actions.push(
                WorkerAction::SetSignals(SignalLevels { dtr: signals.dtr, rts: signals.rts }),
            );
        } else {
            self.status.signals = signals;
        }
        actions.push(WorkerAction::ReadSignals { force_share: true });
        assert(actions@ =~= old(self).signal_actions(signals));
        actions
    }

    /// Acts on the ports that were found. `None` stands for a failure, which ends
    /// the worker unless it can do without.
    pub fn scanned(&mut self, purpose: ScanPurpose, found: Option<Vec<SerialPortInfo>>) -> (r:
        Result<Vec<WorkerAction>, ScanFailed>)
        requires
            old(self).wf(),
            purpose is Reconnect || purpose is AfterDisconnect
                ==> old(self).status.current_port is Some,
        ensures
            final(self).wf(),
            *final(self) == (SerialWorker {
                scan_snapshot: final(self).scan_snapshot,
                ..*old(self)
            }),
            r is Err <==> found is None && !(purpose is Reconnect || purpose is AfterDisconnect),
            match r {
                Err(_) => final(self).scan_snapshot == old(self).scan_snapshot,
                Ok(actions) => scan_outcome(
                    *old(self),
                    purpose,
                    found,
                    actions@,
                    final(self).scan_snapshot@,
                ),
            },
    {
        let mut actions: Vec<WorkerAction> = Vec::new();
        let found = match found {
            Some(found) => found,
            None => {
                match purpose {
                    ScanPurpose::Reconnect(_) => {
                        assert(actions@ =~= Seq::empty());
                        return Ok(actions);
                    },
                    ScanPurpose::AfterDisconnect(reason) => {
                        actions.push(WorkerAction::ReportDisconnect(reason));
                        assert(actions@ =~= seq![WorkerAction::ReportDisconnect(reason)]);
                        return Ok(actions);
                    },
                    _ => {
                        return Err(ScanFailed);
                    },
                }
            },
        };
        let ports = filter_ports(&found, &self.ignored_devices);
        match purpose {
            ScanPurpose::List => {
                let copy = duplicate_ports(&ports);
                self.scan_snapshot = ports;
                actions.push(WorkerAction::ReportScan(copy));
                assert(actions@ =~= seq![WorkerAction::ReportScan(copy)]);
            },
            ScanPurpose::BlockingList => {
                let copy = duplicate_ports(&ports);
                self.scan_snapshot = ports;
                actions.push(WorkerAction::ReplyScan(copy));
                assert(actions@ =~= seq![WorkerAction::ReplyScan(copy)]);
            },
            ScanPurpose::UsbQuery(query) => {
                match find_usb(&ports, &query) {
                    Some(i) => {
                        let port = ports[i].duplicate();
                        actions.push(
                            WorkerAction::Connect {
                                port,
                                reconnect: None,
                                wait_ms: 0,
                                reply: true,
                            },
                        );
                        assert(actions@ =~= seq![
                            WorkerAction::Connect {
                                port,
                                reconnect: None,
                                wait_ms: 0,
                                reply: true,
                            },
                        ]);
                    },
                    None => {
                        actions.push(WorkerAction::RefuseConnect);
                        assert(actions@ =~= seq![WorkerAction::RefuseConnect]);
                    },
                }
                assert(offered_list(ports@, found@, self.ignored_devices));
            },
            ScanPurpose::AfterDisconnect(reason) => {
                match self.status.current_port() {
                    Some(lost) => {
                        self.scan_snapshot = snapshot_at_disconnect(ports, lost);
                    },
                    None => (),
                }
                actions.push(WorkerAction::ReportDisconnect(reason));
                assert(actions@ =~= seq![WorkerAction::ReportDisconnect(reason)]);
                assert(offered_list(ports@, found@, self.ignored_devices));
            },
            ScanPurpose::Reconnect(strictness) => {
                match self.status.current_port() {
                    Some(desired) => {
                        match choose_reconnect(&ports, desired, &self.scan_snapshot, strictness) {
                            Some((i, kind)) => {
                                let port = ports[i].duplicate();
                                actions.push(
                                    WorkerAction::Connect {
                                        port,
                                        reconnect: Some(kind),
                                        wait_ms: RECONNECT_WAIT_MS,
                                        reply: false,
                                    },
                                );
                                assert(actions@ =~= seq![
                                    WorkerAction::Connect {
                                        port,
                                        reconnect: Some(kind),
                                        wait_ms: RECONNECT_WAIT_MS,
                                        reply: false,
                                    },
                                ]);
                            },
                            None => {
                                assert(actions@ =~= Seq::empty());
                            },
                        }
                    },
                    None => (),
                }
                assert(offered_list(ports@, found@, self.ignored_devices));
            },
        }
        Ok(actions)
    }

    /// Notes that a connection was made.
    pub fn connected(&mut self, port: SerialPortInfo, slave: SlaveSignals, now: u64, loopback: bool)
        ensures
            final(self).held == (if loopback {
                HeldPort::Loopback
            } else {
                HeldPort::Native
            }),
            final(self).status.inner == (InnerPortStatus::Connected { connected_at: now }),
            final(self).status.current_port == Some(port),
            final(self).status.signals == (crate::serial::SerialSignals {
                rts: old(self).settings.dtr_on_connect,
                dtr: old(self).settings.dtr_on_connect,
                ..old(self).status.signals.with_slave(slave)
            }),
            *final(self) == (SerialWorker {
                held: final(self).held,
                status: final(self).status,
                ..*old(self)
            }),
            final(self).wf(),
    {
        let mut signals = self.status.signals;
        let _changed = signals.update_slave_signals(slave);
        signals.rts = self.settings.dtr_on_connect;
        signals.dtr = self.settings.dtr_on_connect;
        self.held = if loopback {
            HeldPort::Loopback
        } else {
            HeldPort::Native
        };
        self.status = PortStatus {
            inner: InnerPortStatus::Connected { connected_at: now },
            current_port: Some(port),
            signals,
        };
    }

    /// Takes over the lines of the other end, and tells whether the view is to be
    /// refreshed: if any changed, or if it was asked for.
    pub fn signals_read(&mut self, slave: SlaveSignals, force_share: bool) -> (refresh: bool)
        requires
            old(self).wf(),
        ensures
            *final(self) == (SerialWorker {
                status: PortStatus {
                    signals: old(self).status.signals.with_slave(slave),
                    ..old(self).status
                },
                ..*old(self)
            }),
            refresh == (force_share || final(self).status.signals != old(self).status.signals),
            final(self).wf(),
    {
        let changed = self.status.signals.update_slave_signals(slave);
        changed || force_share
    }
}

/// Whether a list of ports is what is offered out of those that were found.
pub open spec fn offered_list(
    ports: Seq<SerialPortInfo>,
    found: Seq<SerialPortInfo>,
    ignored: Ignored,
) -> bool {
    crate::serial::port_views(ports) == crate::serial::worker::offered_ports(found, ignored)
}

/// What follows from the ports that were found: what is done, and which ports are
/// remembered.
pub open spec fn scan_outcome(
    worker: SerialWorker,
    purpose: ScanPurpose,
    found: Option<Vec<SerialPortInfo>>,
    actions: Seq<WorkerAction>,
    snapshot: Seq<SerialPortInfo>,
) -> bool {
    match found {
        None => snapshot == worker.scan_snapshot@ && match purpose {
            ScanPurpose::AfterDisconnect(reason) => actions == seq![
                WorkerAction::ReportDisconnect(reason),
            ],
            _ => actions == Seq::<WorkerAction>::empty(),
        },
        Some(found) => match purpose {
            ScanPurpose::List => {
                &&& offered_list(snapshot, found@, worker.ignored_devices)
                &&& actions.len() == 1
                &&& actions[0] matches WorkerAction::ReportScan(ports) && ports@ == snapshot
            },
            ScanPurpose::BlockingList => {
                &&& offered_list(snapshot, found@, worker.ignored_devices)
                &&& actions.len() == 1
                &&& actions[0] matches WorkerAction::ReplyScan(ports) && ports@ == snapshot
            },
            ScanPurpose::UsbQuery(query) => {
                &&& snapshot == worker.scan_snapshot@
                &&& exists|ports: Seq<SerialPortInfo>| #[trigger]
                    offered_list(ports, found@, worker.ignored_devices) && actions == (
                    match crate::serial::worker::first_port(
                        ports,
                        crate::serial::worker::usb_answer(query@),
                        0,
                    ) {
                        Some(i) => seq![
                            WorkerAction::Connect {
                                port: ports[i],
                                reconnect: None,
                                wait_ms: 0,
                                reply: true,
                            },
                        ],
                        None => seq![WorkerAction::RefuseConnect],
                    })
            },
            ScanPurpose::AfterDisconnect(reason) => {
                &&& actions == seq![WorkerAction::ReportDisconnect(reason)]
                &&& exists|ports: Seq<SerialPortInfo>| #[trigger]
                    offered_list(ports, found@, worker.ignored_devices) && snapshot
                        == crate::serial::worker::snapshot_without(
                        ports,
                        worker.status.current_port->0@,
                    )
            },
            ScanPurpose::Reconnect(strictness) => {
                &&& snapshot == worker.scan_snapshot@
                &&& exists|ports: Seq<SerialPortInfo>| #[trigger]
                    offered_list(ports, found@, worker.ignored_devices) && actions == (
                    match crate::serial::worker::reconnect_choice(
                        ports,
                        worker.status.current_port->0@,
                        worker.scan_snapshot@,
                        strictness,
                    ) {
                        Some((i, kind)) => seq![
                            WorkerAction::Connect {
                                port: ports[i],
                                reconnect: Some(kind),
                                wait_ms: RECONNECT_WAIT_MS,
                                reply: false,
                            },
                        ],
                        None => Seq::<WorkerAction>::empty(),
                    })
            },
        },
    }
}

/// Whether it is time to read the lines of the other end again.
pub fn signal_check_due(elapsed_ms: u64) -> (r: bool)
    ensures
        r == (elapsed_ms >= SIGNAL_CHECK_MS),
{
    elapsed_ms >= SIGNAL_CHECK_MS
}

/// Whatever is asked, a port that is lost keeps being known, so that it can be
/// reconnected to; only leaving it on purpose forgets it.
pub proof fn law_only_leaving_forgets_the_port(worker: SerialWorker, command: SerialWorkerCommand)
    requires
        worker.wf(),
        worker.status.current_port is Some,
        worker.after_command(command).status.current_port is None,
    ensures
        command == (SerialWorkerCommand::Disconnect { user_wants_break: false }),
{
}

/// What is sent while no port can take it comes back whole.
pub proof fn law_unsent_data_comes_back(worker: SerialWorker, data: Vec<u8>)
    requires
        worker.wf(),
        !worker.held.can_transfer(),
    ensures
        worker.command_actions(SerialWorkerCommand::PortCommand(PortCommand::TxBuffer(data)))
            == seq![WorkerAction::ReturnUnsent(data)],
{
}

} // verus!
