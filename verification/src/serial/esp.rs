//! Working on an Espressif device through a port that is lent out for it.

use vstd::prelude::*;
use vstd::string::*;

use crate::serial::port_status::{InnerPortStatus, PortStatus};
use crate::serial::supervisor::SerialWorker;
use crate::serial::worker::HeldPort;
use crate::serial::{SerialPortType, UsbPortInfo};
use crate::text::{str_eq, to_ascii_upper};
use crate::tui::esp::{DeviceInfo, EspEvent, EspProfile};

verus! {

/// How a device is restarted.
#[derive(Clone, Copy, Debug, PartialEq, Eq, Structural)]
pub enum EspRestartType {
    /// Into its bootloader; if active, the outcome is checked.
    Bootloader { active: bool },
    /// Into the user's code.
    UserCode,
}

/// What is asked of a device.
#[derive(Debug)]
pub enum EspCommand {
    DeviceInfo,
    Restart(EspRestartType),
    FlashProfile(EspProfile),
    EraseFlash,
}

/// The baud rate a device is spoken to with unless another is asked for.
pub const DEFAULT_FLASH_BAUD: u32 = 115200;

/// Something to report of the work on a device.
#[derive(Debug)]
pub enum EspReport {
    Connecting,
    Connected(String),
    BootloaderSuccess(String),
    BootloaderAttempt,
    HardResetAttempt,
    DeviceInfo(DeviceInfo),
    WrongChip,
    FlashError(String),
    EraseStart(String),
    EraseSuccess(String),
    PortReturned,
}

/// What is to be done next with a device.
#[derive(Debug)]
pub enum EspAction {
    Report(EspReport),
    /// Connect and identify the device.
    ConnectFlasher { verify: bool, skip: bool, baud: u32, upload_baud: Option<u32> },
    /// Use the port as it is.
    ConnectPlain { baud: u32 },
    ReadDeviceInfo,
    Reset,
    ResetToFlash,
    ChangeBaud(u32),
    /// Read all binary files of the profile.
    ReadBins,
    /// Read the ELF file of the profile.
    ReadElf,
    /// Write the files that were read, under these names.
    WriteBins(Vec<String>),
    LoadElfToRam,
    LoadElfToFlash,
    EraseFlash,
    /// Take the port back.
    ReturnPort,
}

/// What came of an action.
#[derive(Debug)]
pub enum EspOutcome {
    /// The device was identified.
    Connected(String),
    /// The device was asked for its description.
    DeviceInfo(Option<DeviceInfo>),
    /// The files were read; each has a name or not.
    BinsRead(Vec<Option<String>>),
    /// The ELF file was read.
    ElfRead,
    /// Something was written, or an error came of it.
    Written(Option<String>),
    /// The flash was erased or not.
    Erased(bool),
    /// The device was reset.
    ResetDone,
}

/// Why nothing can be done.
#[derive(Clone, Copy, Debug, PartialEq, Eq, Structural)]
pub enum EspFailure {
    /// There is no port of this machine to lend out.
    MissingPort,
    /// A file has no name.
    FileMissingName,
}

/// The work on a device.
#[derive(Debug)]
pub struct EspSession {
    pub command: EspCommand,
    /// The chip in upper case, once it is known.
    pub chip: String,
}

/// The chip that a profile is made for.
pub open spec fn expected_chip(profile: EspProfile) -> Option<Seq<char>> {
    match profile {
        EspProfile::Bins(bins) => crate::tui::esp::opt_view(bins.expected_chip),
        EspProfile::Elf(elf) => crate::tui::esp::opt_view(elf.expected_chip),
    }
}

/// The baud rate that a profile asks for.
pub open spec fn profile_baud(profile: EspProfile) -> Option<u32> {
    match profile {
        EspProfile::Bins(bins) => bins.upload_baud,
        EspProfile::Elf(elf) => elf.upload_baud,
    }
}

/// How the work on a device begins.
pub open spec fn first_action(command: EspCommand) -> EspAction {
    let plain = EspAction::ConnectFlasher {
        verify: true,
        skip: true,
        baud: DEFAULT_FLASH_BAUD,
        upload_baud: None,
    };
    match command {
        EspCommand::Restart(EspRestartType::Bootloader { active: false }) => {
            EspAction::ConnectPlain { baud: DEFAULT_FLASH_BAUD }
        },
        EspCommand::Restart(EspRestartType::UserCode) => EspAction::ConnectPlain {
            baud: DEFAULT_FLASH_BAUD,
        },
        EspCommand::FlashProfile(profile) => {
            let upload_baud = profile_baud(profile);
            let (verify, skip) = match profile {
                EspProfile::Bins(bins) => (!bins.skip_verify, !bins.no_skip),
                EspProfile::Elf(elf) => (!elf.skip_verify, !elf.no_skip),
            };
            EspAction::ConnectFlasher {
                verify,
                skip,
                baud: match upload_baud {
                    Some(baud) => baud,
                    None => DEFAULT_FLASH_BAUD,
                },
                upload_baud,
            }
        },
        _ => plain,
    }
}

/// What follows the first action where the device is not identified.
pub open spec fn plain_actions(command: EspCommand) -> Seq<EspAction> {
    match command {
        EspCommand::Restart(EspRestartType::Bootloader { active: false }) => seq![
            EspAction::ResetToFlash,
        ],
        EspCommand::Restart(EspRestartType::UserCode) => seq![EspAction::Reset],
        _ => Seq::empty(),
    }
}

/// What is done once the device is identified as `chip`.
pub open spec fn connected_actions(command: EspCommand, chip: Seq<char>, shown: String) -> Seq<
    EspAction,
> {
    seq![EspAction::Report(EspReport::Connected(shown))] + (match command {
        EspCommand::DeviceInfo => seq![EspAction::ReadDeviceInfo],
        EspCommand::Restart(_) => seq![
            EspAction::Report(EspReport::BootloaderSuccess(shown)),
            EspAction::ReturnPort,
        ],
        EspCommand::FlashProfile(profile) => {
            if expected_chip(profile) is Some && expected_chip(profile)->0 != chip {
                seq![EspAction::Report(EspReport::WrongChip), EspAction::ReturnPort]
            } else {
                (match profile_baud(profile) {
                    Some(baud) => seq![EspAction::ChangeBaud(baud)],
                    None => Seq::empty(),
                }) + (match profile {
                    EspProfile::Bins(_) => seq![EspAction::ReadBins],
                    EspProfile::Elf(_) => seq![EspAction::ReadElf],
                })
            }
        },
        EspCommand::EraseFlash => seq![
            EspAction::Report(EspReport::EraseStart(shown)),
            EspAction::EraseFlash,
        ],
    })
}

/// Whether a device's description is what the command is about.
pub open spec fn wants_info(command: EspCommand) -> bool {
    !(command is FlashProfile)
}

/// What is done on an outcome other than the identification of the device.
pub open spec fn outcome_actions(session: EspSession, outcome: EspOutcome) -> Seq<EspAction> {
    match outcome {
        EspOutcome::Connected(_) => Seq::empty(),
        EspOutcome::DeviceInfo(info) => if wants_info(session.command) {
            (match info {
                Some(info) => seq![EspAction::Report(EspReport::DeviceInfo(info))],
                None => Seq::empty(),
            }) + seq![EspAction::Reset, EspAction::ReturnPort]
        } else {
            match info {
                Some(_) => seq![EspAction::LoadElfToFlash],
                None => seq![EspAction::ReturnPort],
            }
        },
        EspOutcome::BinsRead(_) => Seq::empty(),
        EspOutcome::ElfRead => match session.command {
            EspCommand::FlashProfile(EspProfile::Elf(elf)) => if elf.ram {
                seq![EspAction::LoadElfToRam]
            } else {
                seq![EspAction::ReadDeviceInfo]
            },
            _ => Seq::empty(),
        },
        EspOutcome::Written(error) => (match error {
            Some(e) => seq![EspAction::Report(EspReport::FlashError(e))],
            None => Seq::empty(),
        }) + seq![EspAction::ReturnPort],
        EspOutcome::Erased(done) => (if done {
            seq![EspAction::Report(EspReport::EraseSuccess(session.chip))]
        } else {
            Seq::empty()
        }) + seq![EspAction::ReturnPort],
        EspOutcome::ResetDone => match session.command {
            EspCommand::Restart(EspRestartType::Bootloader { active: false }) => seq![
                EspAction::Report(EspReport::BootloaderAttempt),
                EspAction::ReturnPort,
            ],
            EspCommand::Restart(EspRestartType::UserCode) => seq![
                EspAction::Report(EspReport::HardResetAttempt),
                EspAction::ReturnPort,
            ],
            _ => Seq::empty(),
        },
    }
}

/// The names of some files, if each has one.
pub open spec fn all_named(names: Seq<Option<String>>) -> bool {
    forall|i: int|
        0 <= i < names.len() ==> (#[trigger] names[i]) is Some && names[i]->0@.len() > 0
}

/// The device behind a port, as far as it is known.
pub open spec fn usb_behind(port: SerialPortType) -> UsbPortInfo {
    match port {
        SerialPortType::UsbPort(usb) => usb,
        _ => UsbPortInfo {
            vid: 0,
            pid: 0,
            serial_number: None,
            manufacturer: None,
            product: None,
        },
    }
}

fn first_action_for(command: &EspCommand) -> (r: EspAction)
    ensures
        r == first_action(*command),
{
    match command {
        EspCommand::Restart(EspRestartType::Bootloader { active: false }) => {
            EspAction::ConnectPlain { baud: DEFAULT_FLASH_BAUD }
        },
        EspCommand::Restart(EspRestartType::UserCode) => EspAction::ConnectPlain {
            baud: DEFAULT_FLASH_BAUD,
        },
        EspCommand::FlashProfile(profile) => {
            let (verify, skip, upload_baud) = match profile {
                EspProfile::Bins(bins) => (!bins.skip_verify, !bins.no_skip, bins.upload_baud),
                EspProfile::Elf(elf) => (!elf.skip_verify, !elf.no_skip, elf.upload_baud),
            };
            let baud: u32 = match upload_baud {
                Some(baud) => baud,
                None => DEFAULT_FLASH_BAUD,
            };
            EspAction::ConnectFlasher { verify, skip, baud, upload_baud }
        },
        _ => EspAction::ConnectFlasher {
            verify: true,
            skip: true,
            baud: DEFAULT_FLASH_BAUD,
            upload_baud: None,
        },
    }
}

impl SerialWorker {
    /// Lends the port out and begins the work on the device behind it.
    ///
    /// Returns what is known of the device, and what is to be done first.
    pub fn begin_esp(&mut self, command: EspCommand, now: u64) -> (r: Result<
        (EspSession, UsbPortInfo, Vec<EspAction>),
        EspFailure,
    >)
        requires
            old(self).held is Native ==> {
                &&& old(self).status.current_port is Some
                &&& old(self).status.inner is Connected
                &&& command matches EspCommand::FlashProfile(EspProfile::Bins(bins))
                    ==> bins.bins@.len() > 0
            },
        ensures
            match r {
                Err(e) => !(old(self).held is Native) && e == EspFailure::MissingPort
                    && *final(self) == *old(self),
                Ok((session, usb, actions)) => {
                    &&& old(self).held is Native
                    &&& session.command == command
                    &&& usb == usb_behind(old(self).status.current_port->0.port_type)
                    &&& actions@ == seq![
                        EspAction::Report(EspReport::Connecting),
                        first_action(command),
                    ] + plain_actions(command)
                    &&& *final(self) == (SerialWorker {
                        held: HeldPort::Borrowed,
                        status: old(self).status.lent(now),
                        ..*old(self)
                    })
                },
            },
            command == EspCommand::Restart(EspRestartType::UserCode) ==> (r matches Ok(
                (_, _, actions),
            ) ==> actions@.last() is Reset && forall|i: int|
                0 <= i < actions@.len() ==> !((#[trigger] actions@[i]) is ResetToFlash)),
            command == EspCommand::Restart(EspRestartType::Bootloader { active: false }) ==> (
            r matches Ok((_, _, actions)) ==> actions@.last() is ResetToFlash && forall|i: int|
                0 <= i < actions@.len() ==> !((#[trigger] actions@[i]) is Reset)),
            r matches Ok((_, _, actions)) ==> !(command is Restart) ==> forall|i: int|
                0 <= i < actions@.len() ==> !((#[trigger] actions@[i]) is Reset)
                    && !(actions@[i] is ResetToFlash),
            old(self).wf() ==> final(self).wf(),
    {
        match self.held {
            HeldPort::Native => (),
            _ => {
                return Err(EspFailure::MissingPort);
            },
        }
        let usb = match &self.status.current_port {
            Some(port) => match &port.port_type {
                SerialPortType::UsbPort(usb) => usb.duplicate(),
                _ => UsbPortInfo::unknown(),
            },
            None => UsbPortInfo::unknown(),
        };
        let initial_connection_at: u64 = match self.status.inner {
            InnerPortStatus::Connected { connected_at } => connected_at,
            _ => 0,
        };
        self.status.inner = InnerPortStatus::LentOut { initial_connection_at, lent_out_at: now };
        self.held = HeldPort::Borrowed;
        let mut actions: Vec<EspAction> = Vec::new();
        actions.push(EspAction::Report(EspReport::Connecting));
        actions.push(first_action_for(&command));
        match &command {
            EspCommand::Restart(EspRestartType::Bootloader { active: false }) => {
                actions.push(EspAction::ResetToFlash);
            },
            EspCommand::Restart(EspRestartType::UserCode) => {
                actions.push(EspAction::Reset);
            },
            _ => (),
        }
        assert(actions@ =~= seq![
            EspAction::Report(EspReport::Connecting),
            first_action(command),
        ] + plain_actions(command));
        Ok((EspSession { command, chip: String::new() }, usb, actions))
    }

    /// Takes the port back, once our lines have been set on it.
    pub fn return_native_port(&mut self)
        requires
            old(self).wf(),
            old(self).status.inner is LentOut,
        ensures
            *final(self) == (SerialWorker {
                held: HeldPort::Native,
                status: old(self).status.returned(old(self).settings),
                ..*old(self)
            }),
            final(self).wf(),
    {
        let connected_at: u64 = match self.status.inner {
            InnerPortStatus::LentOut { initial_connection_at, .. } => initial_connection_at,
            _ => 0,
        };
        let fresh = PortStatus::new_idle(&self.settings);
        self.status.inner = InnerPortStatus::Connected { connected_at };
        self.status.signals = fresh.signals;
        self.held = HeldPort::Native;
    }
}

fn chip_fits(profile: &EspProfile, chip: &str) -> (r: bool)
    ensures
        r == !(expected_chip(*profile) is Some && expected_chip(*profile)->0 != chip@),
{
    let expected = match profile {
        EspProfile::Bins(bins) => &bins.expected_chip,
        EspProfile::Elf(elf) => &elf.expected_chip,
    };
    match expected {
        Some(name) => str_eq(name.as_str(), chip),
        None => true,
    }
}

/// The names of some files, if each has one.
fn given_names(names: &Vec<Option<String>>) -> (r: Option<Vec<String>>)
    ensures
        match r {
            Some(given) => all_named(names@) && given@.len() == names@.len() && forall|i: int|
                0 <= i < given@.len() ==> Some(#[trigger] given@[i]) == names@[i],
            None => !all_named(names@),
        },
{
    let mut given: Vec<String> = Vec::new();
    let mut i: usize = 0;
    while i < names.len()
        invariant
            i <= names@.len(),
            given@.len() == i,
            forall|j: int|
                0 <= j < i ==> Some(#[trigger] given@[j]) == names@[j] && given@[j]@.len() > 0,
        decreases names@.len() - i,
    {
        match &names[i] {
            Some(name) => {
                if name.as_str().is_empty() {
                    assert(names@[i as int]->0@.len() == 0);
                    return None;
                }
                given.push(name.clone());
            },
            None => {
                assert(names@[i as int] is None);
                return None;
            },
        }
        i += 1;
    }
    assert forall|j: int| 0 <= j < names@.len() implies (#[trigger] names@[j]) is Some
        && names@[j]->0@.len() > 0 by {
        assert(Some(given@[j]) == names@[j]);
    }
    Some(given)
}

impl EspSession {
    /// The device was identified.
    pub fn connected(&mut self, chip: &str) -> (actions: Vec<EspAction>)
        ensures
            final(self).command == old(self).command,
            final(self).chip@ == crate::text::ascii_upper(chip@),
            actions@ == connected_actions(old(self).command, chip@, final(self).chip),
    {
        self.chip = to_ascii_upper(chip);
        let mut actions: Vec<EspAction> = Vec::new();
        actions.push(EspAction::Report(EspReport::Connected(self.chip.clone())));
        match &self.command {
            EspCommand::DeviceInfo => {
                actions.push(EspAction::ReadDeviceInfo);
            },
            EspCommand::Restart(_) => {
                actions.push(EspAction::Report(EspReport::BootloaderSuccess(self.chip.clone())));
                actions.push(EspAction::ReturnPort);
            },
            EspCommand::FlashProfile(profile) => {
                if !chip_fits(profile, chip) {
                    actions.push(EspAction::Report(EspReport::WrongChip));
                    actions.push(EspAction::ReturnPort);
                } else {
                    let baud = match profile {
                        EspProfile::Bins(bins) => bins.upload_baud,
                        EspProfile::Elf(elf) => elf.upload_baud,
                    };
                    match baud {
                        Some(baud) => {
                            actions.push(EspAction::ChangeBaud(baud));
                        },
                        None => (),
                    }
                    match profile {
                        EspProfile::Bins(_) => {
                            actions.push(EspAction::ReadBins);
                        },
                        EspProfile::Elf(_) => {
                            actions.push(EspAction::ReadElf);
                        },
                    }
                }
            },
            EspCommand::EraseFlash => {
                actions.push(EspAction::Report(EspReport::EraseStart(self.chip.clone())));
                actions.push(EspAction::EraseFlash);
            },
        }
        assert(actions@ =~= connected_actions(old(self).command, chip@, self.chip));
        actions
    }

    /// Goes on after an action. Files are only written if each has a name.
    pub fn advance(&self, outcome: EspOutcome) -> (r: Result<Vec<EspAction>, EspFailure>)
        requires
            !(outcome is Connected),
        ensures
            match outcome {
                EspOutcome::BinsRead(names) => match r {
                    Ok(actions) => {
                        &&& all_named(names@)
                        &&& actions@.len() == 1
                        &&& actions@[0] matches EspAction::WriteBins(given) && given@.len()
                            == names@.len() && forall|i: int|
                            0 <= i < given@.len() ==> Some(#[trigger] given@[i]) == names@[i]
                    },
                    Err(e) => !all_named(names@) && e == EspFailure::FileMissingName,
                },
                _ => r is Ok && r->Ok_0@ == outcome_actions(*self, outcome),
            },
    {
        let mut actions: Vec<EspAction> = Vec::new();
        match outcome {
            EspOutcome::Connected(_) => (),
            EspOutcome::DeviceInfo(info) => {
                let about_info = match &self.command {
                    EspCommand::FlashProfile(_) => false,
                    _ => true,
                };
                if about_info {
                    match info {
                        Some(info) => {
                            actions.push(EspAction::Report(EspReport::DeviceInfo(info)));
                        },
                        None => (),
                    }
                    actions.push(EspAction::Reset);
                    actions.push(EspAction::ReturnPort);
                } else {
                    match info {
                        Some(_) => {
                            actions.push(EspAction::LoadElfToFlash);
                        },
                        None => {
                            actions.push(EspAction::ReturnPort);
                        },
                    }
                }
                assert(actions@ =~= outcome_actions(*self, outcome));
            },
            EspOutcome::BinsRead(names) => {
                let given = match given_names(&names) {
                    Some(given) => given,
                    None => {
                        return Err(EspFailure::FileMissingName);
                    },
                };
                actions.push(EspAction::WriteBins(given));
            },
            EspOutcome::ElfRead => {
                match &self.command {
                    EspCommand::FlashProfile(EspProfile::Elf(elf)) => {
                        if elf.ram {
                            actions.push(EspAction::LoadElfToRam);
                        } else {
                            actions.push(EspAction::ReadDeviceInfo);
                        }
                    },
                    _ => (),
                }
                assert(actions@ =~= outcome_actions(*self, outcome));
            },
            EspOutcome::Written(error) => {
                match error {
                    Some(e) => {
                        actions.push(EspAction::Report(EspReport::FlashError(e)));
                    },
                    None => (),
                }
                actions.push(EspAction::ReturnPort);
                assert(actions@ =~= outcome_actions(*self, outcome));
            },
            EspOutcome::Erased(done) => {
                if done {
                    actions.push(EspAction::Report(EspReport::EraseSuccess(self.chip.clone())));
                }
                actions.push(EspAction::ReturnPort);
                assert(actions@ =~= outcome_actions(*self, outcome));
            },
            EspOutcome::ResetDone => {
                match &self.command {
                    EspCommand::Restart(EspRestartType::Bootloader { active: false }) => {
                        actions.push(EspAction::Report(EspReport::BootloaderAttempt));
                        actions.push(EspAction::ReturnPort);
                    },
                    EspCommand::Restart(EspRestartType::UserCode) => {
                        actions.push(EspAction::Report(EspReport::HardResetAttempt));
                        actions.push(EspAction::ReturnPort);
                    },
                    _ => (),
                }
                assert(actions@ =~= outcome_actions(*self, outcome));
            },
        }
        Ok(actions)
    }
}

impl EspReport {
    /// The report as an event for the user.
    pub fn into_event(self) -> (r: EspEvent)
        ensures
            match self {
                EspReport::Connecting => r == EspEvent::Connecting,
                EspReport::Connected(chip) => r == (EspEvent::Connected { chip }),
                EspReport::BootloaderSuccess(chip) => r == (EspEvent::BootloaderSuccess { chip }),
                EspReport::BootloaderAttempt => r == EspEvent::BootloaderAttempt,
                EspReport::HardResetAttempt => r == EspEvent::HardResetAttempt,
                EspReport::DeviceInfo(info) => r == EspEvent::DeviceInfo(info),
                EspReport::WrongChip => r matches EspEvent::Error(text) && text@
                    == "Not flashing! ESP variant doesn't match expected!"@,
                EspReport::FlashError(e) => r matches EspEvent::Error(text) && text@
                    == "espflash error: "@ + e@,
                EspReport::EraseStart(chip) => r == (EspEvent::EraseStart { chip }),
                EspReport::EraseSuccess(chip) => r == (EspEvent::EraseSuccess { chip }),
                EspReport::PortReturned => r == EspEvent::PortReturned,
            },
    {
        match self {
            EspReport::Connecting => EspEvent::Connecting,
            EspReport::Connected(chip) => EspEvent::Connected { chip },
            EspReport::BootloaderSuccess(chip) => EspEvent::BootloaderSuccess { chip },
            EspReport::BootloaderAttempt => EspEvent::BootloaderAttempt,
            EspReport::HardResetAttempt => EspEvent::HardResetAttempt,
            EspReport::DeviceInfo(info) => EspEvent::DeviceInfo(info),
            EspReport::WrongChip => EspEvent::Error(
                "Not flashing! ESP variant doesn't match expected!".to_owned(),
            ),
            EspReport::FlashError(e) => {
                let mut text = "espflash error: ".to_owned();
                text.append(e.as_str());
                EspEvent::Error(text)
            },
            EspReport::EraseStart(chip) => EspEvent::EraseStart { chip },
            EspReport::EraseSuccess(chip) => EspEvent::EraseSuccess { chip },
            EspReport::PortReturned => EspEvent::PortReturned,
        }
    }
}

/// Nothing is ever written to a device that is not of the expected kind.
pub proof fn law_wrong_chip_is_not_flashed(profile: EspProfile, chip: Seq<char>, shown: String)
    requires
        expected_chip(profile) is Some,
        expected_chip(profile)->0 != chip,
    ensures
        ({
            let actions = connected_actions(EspCommand::FlashProfile(profile), chip, shown);
            forall|i: int|
                0 <= i < actions.len() ==> !((#[trigger] actions[i]) is ReadBins
                    || actions[i] is ReadElf || actions[i] is WriteBins
                    || actions[i] is LoadElfToRam || actions[i] is ReadDeviceInfo
                    || actions[i] is LoadElfToFlash || actions[i] is EraseFlash)
        }),
{
}

} // verus!
