//! What holds of ports, connections and the work on devices.

use vstd::prelude::*;
use vstd::string::*;

use crate::serial::esp::{EspAction, EspCommand, EspOutcome, EspReport, EspRestartType, EspSession};
use crate::serial::handle::PortCommand;
use crate::serial::port_status::{InnerPortStatus, PortStatus, SignalLevels};
use crate::serial::supervisor::{ScanPurpose, SerialWorker, SerialWorkerCommand, WorkerAction};
use crate::serial::worker::{HeldPort, Ignored, MOCK_PORT_NAME};
use crate::serial::{
    PortTypeView, PortView, ReconnectType, ReconnectionStrictness, SerialDisconnectReason,
    SerialPortInfo, SerialPortType, SerialSignals, SlaveSignals,
};
use crate::settings::PortSettings;
use crate::tui::esp::{DeviceInfo, EspProfile};

verus! {

/// A reconnection by what a USB device says of itself is never made to a port that was
/// there when the connection was lost.
pub proof fn law_ports_that_stayed_are_left_alone(
    ports: Seq<SerialPortInfo>,
    desired: PortView,
    snapshot: Seq<SerialPortInfo>,
    strictness: ReconnectionStrictness,
)
    ensures
        crate::serial::worker::reconnect_choice(ports, desired, snapshot, strictness) matches Some(
            (i, kind),
        ) ==> (kind is UsbStrict || kind is UsbLoose) ==> forall|j: int|
            0 <= j < snapshot.len() ==> (#[trigger] snapshot[j])@ != ports[i]@,
{
    crate::serial::worker::law_reconnect_is_permitted(ports, desired, snapshot, strictness);
}

/// What a port has in common with the one that was lost, for each way to reconnect, and
/// the settings that allow it.
pub proof fn law_reconnection_has_its_reason(
    ports: Seq<SerialPortInfo>,
    desired: PortView,
    snapshot: Seq<SerialPortInfo>,
    strictness: ReconnectionStrictness,
)
    ensures
        crate::serial::worker::reconnect_choice(ports, desired, snapshot, strictness) matches Some(
            (i, kind),
        ) ==> {
            &&& 0 <= i < ports.len()
            &&& strictness != ReconnectionStrictness::Disabled
            &&& kind == ReconnectType::PerfectMatch ==> ports[i]@ == desired
            &&& kind == ReconnectType::UsbStrict ==> {
                &&& desired.kind is UsbPort
                &&& ports[i]@.kind == desired.kind
            }
            &&& kind == ReconnectType::UsbLoose ==> {
                &&& strictness == ReconnectionStrictness::Med || strictness
                    == ReconnectionStrictness::Low
                &&& desired.kind matches PortTypeView::UsbPort(lost)
                &&& ports[i]@.kind matches PortTypeView::UsbPort(usb)
                &&& usb.vid == lost.vid
                &&& usb.pid == lost.pid
            }
            &&& kind == ReconnectType::LastDitch ==> {
                &&& strictness == ReconnectionStrictness::Low
                &&& ports[i]@.name == desired.name
            }
        },
{
    crate::serial::worker::law_reconnect_is_permitted(ports, desired, snapshot, strictness);
}

/// Which ports are enough to be reconnected to: the very port that was lost; with it gone,
/// the same USB device elsewhere if it was not there all along; then one with the same
/// ids, and then one with the same name, as far as the settings allow.
pub proof fn law_reconnection_is_found(
    ports: Seq<SerialPortInfo>,
    desired: PortView,
    snapshot: Seq<SerialPortInfo>,
    strictness: ReconnectionStrictness,
    j: int,
)
    requires
        0 <= j < ports.len(),
        strictness != ReconnectionStrictness::Disabled,
    ensures
        ({
            let choice = crate::serial::worker::reconnect_choice(
                ports,
                desired,
                snapshot,
                strictness,
            );
            let is_new = forall|k: int|
                0 <= k < snapshot.len() ==> (#[trigger] snapshot[k])@ != ports[j]@;
            &&& ports[j]@ == desired ==> choice is Some && (choice->0).0 <= j && (choice->0).1
                == ReconnectType::PerfectMatch
            &&& desired.kind is UsbPort && ports[j]@.kind == desired.kind && is_new ==> {
                &&& choice is Some
                &&& (choice->0).1 == ReconnectType::PerfectMatch || (choice->0).1
                    == ReconnectType::UsbStrict
                &&& (choice->0).1 == ReconnectType::UsbStrict ==> (choice->0).0 <= j
            }
            &&& (strictness == ReconnectionStrictness::Med || strictness
                == ReconnectionStrictness::Low) && is_new ==> (desired.kind matches
                PortTypeView::UsbPort(lost) ==> (ports[j]@.kind matches PortTypeView::UsbPort(usb)
                ==> usb.vid == lost.vid && usb.pid == lost.pid ==> {
                &&& choice is Some
                &&& (choice->0).1 != ReconnectType::LastDitch
                &&& (choice->0).1 == ReconnectType::UsbLoose ==> (choice->0).0 <= j
            }))
            &&& strictness == ReconnectionStrictness::Low && ports[j]@.name == desired.name ==> {
                &&& choice is Some
                &&& (choice->0).1 == ReconnectType::LastDitch ==> (choice->0).0 <= j
            }
        }),
{
    lemma_first_is_first(
        ports,
        crate::serial::worker::replaces(ReconnectType::PerfectMatch, desired, snapshot),
        0,
        j,
    );
    lemma_first_is_first(
        ports,
        crate::serial::worker::replaces(ReconnectType::UsbStrict, desired, snapshot),
        0,
        j,
    );
    lemma_first_is_first(
        ports,
        crate::serial::worker::replaces(ReconnectType::UsbLoose, desired, snapshot),
        0,
        j,
    );
    lemma_first_is_first(
        ports,
        crate::serial::worker::replaces(ReconnectType::LastDitch, desired, snapshot),
        0,
        j,
    );
}

proof fn lemma_first_is_first(
    ports: Seq<SerialPortInfo>,
    wanted: spec_fn(PortView) -> bool,
    from: int,
    j: int,
)
    requires
        0 <= from <= j < ports.len(),
    ensures
        wanted(ports[j]@) ==> (crate::serial::worker::first_port(ports, wanted, from) matches Some(
            i,
        ) && from <= i <= j && wanted(ports[i]@)),
    decreases j - from,
{
    if from < j && !wanted(ports[from]@) {
        lemma_first_is_first(ports, wanted, from + 1, j);
    }
}

/// Where reconnections are not wanted, none is made.
pub proof fn law_no_reconnection_unless_wanted(
    ports: Seq<SerialPortInfo>,
    desired: PortView,
    snapshot: Seq<SerialPortInfo>,
)
    ensures
        crate::serial::worker::reconnect_choice(
            ports,
            desired,
            snapshot,
            ReconnectionStrictness::Disabled,
        ) is None,
{
}

/// What is remembered of the ports when a connection was lost: all of them but one, which is
/// the first that equals the lost port, if there is one.
pub proof fn law_snapshot_leaves_out_the_lost_port(ports: Seq<SerialPortInfo>, lost: PortView)
    ensures
        ({
            let kept = crate::serial::worker::snapshot_without(ports, lost);
            &&& (forall|i: int| 0 <= i < ports.len() ==> (#[trigger] ports[i])@ != lost) ==> kept
                == ports
            &&& (exists|i: int| 0 <= i < ports.len() && (#[trigger] ports[i])@ == lost) ==> exists|
                i: int,
            |
                0 <= i < ports.len() && (#[trigger] ports[i])@ == lost && kept == ports.take(i)
                    + ports.skip(i + 1)
            &&& forall|i: int|
                0 <= i < ports.len() && (#[trigger] ports[i])@ != lost ==> kept.contains(ports[i])
        }),
{
    let wanted = crate::serial::worker::same_as(lost);
    let kept = crate::serial::worker::snapshot_without(ports, lost);
    if exists|i: int| 0 <= i < ports.len() && (#[trigger] ports[i])@ == lost {
        let j = choose|i: int| 0 <= i < ports.len() && (#[trigger] ports[i])@ == lost;
        lemma_first_is_first(ports, wanted, 0, j);
        let i = crate::serial::worker::first_port(ports, wanted, 0)->0;
        assert(kept =~= ports.take(i) + ports.skip(i + 1));
        assert(ports[i]@ == lost);
        assert forall|k: int| 0 <= k < ports.len() && (#[trigger] ports[k])@ != lost implies
            kept.contains(ports[k]) by {
            if k < i {
                assert(kept[k] == ports[k]);
            } else {
                assert(kept[k - 1] == ports[k]);
            }
        }
    } else {
        lemma_none_is_first(ports, wanted, 0);
    }
}

proof fn lemma_none_is_first(
    ports: Seq<SerialPortInfo>,
    wanted: spec_fn(PortView) -> bool,
    from: int,
)
    requires
        0 <= from,
        forall|i: int| from <= i < ports.len() ==> !wanted((#[trigger] ports[i])@),
    ensures
        crate::serial::worker::first_port(ports, wanted, from) is None,
    decreases ports.len() - from,
{
    if from < ports.len() {
        lemma_none_is_first(ports, wanted, from + 1);
    }
}

/// What is offered: nothing with a name that is ignored, no virtual console unless they
/// are asked for, and no USB device that is ignored by its ids and, if one is given, by its
/// serial number.
pub proof fn law_ignored_ports_are_not_offered(
    found: Seq<SerialPortInfo>,
    ignored: Ignored,
    i: int,
)
    requires
        0 <= i < crate::serial::worker::offered_ports(found, ignored).len(),
    ensures
        ({
            let port = crate::serial::worker::offered_ports(found, ignored)[i];
            ||| i + 1 == crate::serial::worker::offered_ports(found, ignored).len()
                && !ignored.hide_loopback_port && port.name == MOCK_PORT_NAME@ && port.kind
                is Unknown
            ||| {
                &&& exists|j: int| 0 <= j < found.len() && (#[trigger] found[j])@ == port
                &&& forall|k: int|
                    0 <= k < ignored.name@.len() ==> (#[trigger] ignored.name@[k])@ != port.name
                &&& ignored.show_ttys_ports || port.name.len() < "/dev/ttyS"@.len()
                    || port.name.take("/dev/ttyS"@.len() as int) != "/dev/ttyS"@
                &&& port.kind matches PortTypeView::UsbPort(usb) ==> forall|k: int|
                    0 <= k < ignored.usb@.len() ==> (#[trigger] ignored.usb@[k])@.vid != usb.vid
                        || ignored.usb@[k]@.pid != usb.pid || (ignored.usb@[k]@.serial_number
                        is Some && ignored.usb@[k]@.serial_number != usb.serial_number)
            }
        }),
{
    crate::serial::worker::law_ignored_is_never_offered(found, ignored, i);
    let all = crate::serial::worker::offered_ports(found, ignored);
    let kept = found.filter(|p: SerialPortInfo| crate::serial::worker::offered(p, ignored));
    if all[i] != crate::serial::worker::mock_port() || ignored.hide_loopback_port || i + 1
        != all.len() {
        crate::serial::worker::lemma_filtered_from(
            found,
            |p: SerialPortInfo| crate::serial::worker::offered(p, ignored),
            i,
        );
        let j = choose|j: int|
            0 <= j < found.len() && crate::serial::worker::offered(found[j], ignored)
                && #[trigger] found[j] == kept[i];
        assert(all[i] == found[j]@);
        let port = found[j];
        assert forall|k: int| 0 <= k < ignored.name@.len() implies (#[trigger] ignored.name@[k])@
            != port.port_name@ by {
            if ignored.name@[k]@ == port.port_name@ {
                assert(crate::serial::worker::name_listed(ignored.name@, port.port_name@));
            }
        }
        if let SerialPortType::UsbPort(usb) = port.port_type {
            assert forall|k: int| 0 <= k < ignored.usb@.len() implies (
            #[trigger] ignored.usb@[k])@.vid != usb.vid || ignored.usb@[k]@.pid != usb.pid || (
            ignored.usb@[k]@.serial_number is Some && ignored.usb@[k]@.serial_number
                != usb@.serial_number) by {
                if usb.answers(ignored.usb@[k]@) {
                    assert(crate::serial::worker::usb_ignored(ignored.usb@, usb));
                }
            }
        }
    }
}

/// Whatever is not ignored is offered.
pub proof fn law_other_ports_are_offered(found: Seq<SerialPortInfo>, ignored: Ignored, j: int)
    requires
        0 <= j < found.len(),
        forall|k: int|
            0 <= k < ignored.name@.len() ==> (#[trigger] ignored.name@[k])@ != found[j].port_name@,
        ignored.show_ttys_ports || found[j].port_name@.len() < "/dev/ttyS"@.len()
            || found[j].port_name@.take("/dev/ttyS"@.len() as int) != "/dev/ttyS"@,
        found[j].port_type matches SerialPortType::UsbPort(usb) ==> forall|k: int|
            0 <= k < ignored.usb@.len() ==> (#[trigger] ignored.usb@[k])@.vid != usb.vid
                || ignored.usb@[k]@.pid != usb.pid || (ignored.usb@[k]@.serial_number is Some
                && ignored.usb@[k]@.serial_number != usb@.serial_number),
    ensures
        crate::serial::worker::offered_ports(found, ignored).contains(found[j]@),
{
    let keep = |p: SerialPortInfo| crate::serial::worker::offered(p, ignored);
    let kept = found.filter(keep);
    assert(keep(found[j]));
    lemma_kept_by_filter(found, keep, j);
    let i = choose|i: int| 0 <= i < kept.len() && kept[i] == found[j];
    assert(crate::serial::worker::offered_ports(found, ignored)[i] == found[j]@);
}

proof fn lemma_kept_by_filter(
    found: Seq<SerialPortInfo>,
    keep: spec_fn(SerialPortInfo) -> bool,
    j: int,
)
    requires
        0 <= j < found.len(),
        keep(found[j]),
    ensures
        exists|i: int| 0 <= i < found.filter(keep).len() && found.filter(keep)[i] == found[j],
    decreases found.len(),
{
    reveal(Seq::filter);
    let init = found.drop_last();
    if j < init.len() {
        lemma_kept_by_filter(init, keep, j);
        let i = choose|i: int| 0 <= i < init.filter(keep).len() && init.filter(keep)[i] == init[j];
        assert(found.filter(keep)[i] == found[j]);
    } else {
        assert(found.filter(keep)[init.filter(keep).len() as int] == found[j]);
    }
}

/// The looped port is offered behind all others, unless it is hidden; then nothing is added.
pub proof fn law_looped_port_comes_last(found: Seq<SerialPortInfo>, ignored: Ignored)
    ensures
        ({
            let all = crate::serial::worker::offered_ports(found, ignored);
            &&& !ignored.hide_loopback_port ==> all.len() > 0 && all.last().name == MOCK_PORT_NAME@
                && all.last().kind is Unknown
            &&& all.len() <= found.len() + (if ignored.hide_loopback_port {
                0int
            } else {
                1int
            })
        }),
{
    let keep = |p: SerialPortInfo| crate::serial::worker::offered(p, ignored);
    lemma_filter_is_shorter(found, keep);
}

proof fn lemma_filter_is_shorter(found: Seq<SerialPortInfo>, keep: spec_fn(SerialPortInfo) -> bool)
    ensures
        found.filter(keep).len() <= found.len(),
    decreases found.len(),
{
    reveal(Seq::filter);
    if found.len() > 0 {
        lemma_filter_is_shorter(found.drop_last(), keep);
    }
}

/// Restarting into the user's code resets the device, and never into its bootloader;
/// restarting into the bootloader unchecked does the opposite. No other command resets
/// the device before it is identified.
pub proof fn law_restart_goes_where_it_should(command: EspCommand)
    ensures
        ({
            let actions = seq![
                EspAction::Report(EspReport::Connecting),
                crate::serial::esp::first_action(command),
            ] + crate::serial::esp::plain_actions(command);
            let resets = exists|i: int| 0 <= i < actions.len() && (#[trigger] actions[i]) is Reset;
            let boots = exists|i: int|
                0 <= i < actions.len() && (#[trigger] actions[i]) is ResetToFlash;
            &&& resets <==> command == EspCommand::Restart(EspRestartType::UserCode)
            &&& boots <==> command == EspCommand::Restart(
                EspRestartType::Bootloader { active: false },
            )
            &&& forall|i: int|
                0 <= i < actions.len() ==> !((#[trigger] actions[i]) is EraseFlash)
                    && !(actions[i] is WriteBins) && !(actions[i] is LoadElfToRam)
                    && !(actions[i] is LoadElfToFlash)
        }),
{
    let actions = seq![
        EspAction::Report(EspReport::Connecting),
        crate::serial::esp::first_action(command),
    ] + crate::serial::esp::plain_actions(command);
    if command == EspCommand::Restart(EspRestartType::UserCode) {
        assert(actions[2] is Reset);
    }
    if command == EspCommand::Restart(EspRestartType::Bootloader { active: false }) {
        assert(actions[2] is ResetToFlash);
    }
}

/// How the device is connected to: as it is for a restart that is not checked, and
/// otherwise so that it is identified. A profile says whether what is written is verified,
/// whether what is there already is skipped, and how fast it goes; otherwise both are done
/// at the usual rate.
pub proof fn law_first_step_follows_the_profile(command: EspCommand)
    ensures
        match crate::serial::esp::first_action(command) {
            EspAction::ConnectPlain { baud } => {
                &&& baud == 115200
                &&& command == EspCommand::Restart(EspRestartType::UserCode) || command
                    == EspCommand::Restart(EspRestartType::Bootloader { active: false })
            },
            EspAction::ConnectFlasher { verify, skip, baud, upload_baud } => {
                &&& command != EspCommand::Restart(EspRestartType::UserCode)
                &&& command != EspCommand::Restart(EspRestartType::Bootloader { active: false })
                &&& upload_baud matches Some(asked) ==> baud == asked
                &&& upload_baud is None ==> baud == 115200
                &&& match command {
                    EspCommand::FlashProfile(EspProfile::Bins(bins)) => verify != bins.skip_verify
                        && skip != bins.no_skip && upload_baud == bins.upload_baud,
                    EspCommand::FlashProfile(EspProfile::Elf(elf)) => verify != elf.skip_verify
                        && skip != elf.no_skip && upload_baud == elf.upload_baud,
                    _ => verify && skip && upload_baud is None,
                }
            },
            _ => false,
        },
{
}

/// What is done with a device once it is identified: it is erased only if that was asked
/// for, files are only read for a profile that is made for it, and a restart is over.
pub proof fn law_identified_device_gets_what_was_asked(
    command: EspCommand,
    chip: Seq<char>,
    shown: String,
)
    ensures
        ({
            let actions = crate::serial::esp::connected_actions(command, chip, shown);
            let wanted = match command {
                EspCommand::FlashProfile(EspProfile::Bins(bins)) => bins.expected_chip,
                EspCommand::FlashProfile(EspProfile::Elf(elf)) => elf.expected_chip,
                _ => None,
            };
            let fits = wanted is None || (wanted->0)@ == chip;
            &&& actions.len() >= 2
            &&& actions[0] == EspAction::Report(EspReport::Connected(shown))
            &&& forall|i: int|
                0 <= i < actions.len() ==> {
                    &&& (#[trigger] actions[i]) is EraseFlash ==> command is EraseFlash
                    &&& actions[i] is ReadBins ==> fits && (command matches
                        EspCommand::FlashProfile(profile) && profile is Bins)
                    &&& actions[i] is ReadElf ==> fits && (command matches
                        EspCommand::FlashProfile(profile) && profile is Elf)
                    &&& actions[i] is ReadDeviceInfo ==> command is DeviceInfo
                    &&& actions[i] matches EspAction::ChangeBaud(baud) ==> match command {
                        EspCommand::FlashProfile(EspProfile::Bins(bins)) => bins.upload_baud
                            == Some(baud),
                        EspCommand::FlashProfile(EspProfile::Elf(elf)) => elf.upload_baud == Some(
                            baud,
                        ),
                        _ => false,
                    }
                    &&& !(actions[i] is Reset) && !(actions[i] is ResetToFlash)
                    &&& !(actions[i] is WriteBins) && !(actions[i] is LoadElfToRam)
                    &&& !(actions[i] is LoadElfToFlash)
                    &&& actions[i] is ReturnPort ==> i + 1 == actions.len()
                }
            &&& command is EraseFlash ==> actions.last() is EraseFlash && actions[1]
                == EspAction::Report(EspReport::EraseStart(shown))
            &&& command is DeviceInfo ==> actions.last() is ReadDeviceInfo
            &&& command is Restart ==> actions.last() is ReturnPort && actions[1]
                == EspAction::Report(EspReport::BootloaderSuccess(shown))
            &&& command is FlashProfile && !fits ==> actions.last() is ReturnPort && actions[1]
                == EspAction::Report(EspReport::WrongChip)
            &&& command matches EspCommand::FlashProfile(EspProfile::Bins(bins)) ==> fits ==> {
                &&& actions.last() is ReadBins
                &&& bins.upload_baud matches Some(baud) ==> actions[1] == EspAction::ChangeBaud(
                    baud,
                )
            }
            &&& command matches EspCommand::FlashProfile(EspProfile::Elf(elf)) ==> fits ==> {
                &&& actions.last() is ReadElf
                &&& elf.upload_baud matches Some(baud) ==> actions[1] == EspAction::ChangeBaud(
                    baud,
                )
            }
        }),
{
    let actions = crate::serial::esp::connected_actions(command, chip, shown);
    assert(actions[0] == EspAction::Report(EspReport::Connected(shown)));
}

/// What comes of each step: the description of a device is told and the device reset; an
/// ELF file goes into memory only if the profile says so; whatever went wrong is told, and
/// what went right is not told otherwise; and then the port comes back.
pub proof fn law_work_on_a_device_comes_to_an_end(session: EspSession, outcome: EspOutcome)
    requires
        !(outcome is Connected),
        !(outcome is BinsRead),
    ensures
        ({
            let actions = crate::serial::esp::outcome_actions(session, outcome);
            &&& forall|i: int|
                0 <= i < actions.len() ==> {
                    &&& !((#[trigger] actions[i]) is EraseFlash)
                    &&& !(actions[i] is WriteBins)
                    &&& !(actions[i] is ResetToFlash)
                    &&& actions[i] is LoadElfToRam || actions[i] is LoadElfToFlash
                        ==> session.command is FlashProfile
                    &&& actions[i] is Reset ==> !(session.command is FlashProfile)
                    &&& actions[i] is ReturnPort ==> i + 1 == actions.len()
                }
            &&& outcome matches EspOutcome::DeviceInfo(info) ==> !(session.command is FlashProfile)
                ==> {
                &&& actions.len() >= 2
                &&& actions.last() is ReturnPort
                &&& actions[actions.len() - 2] is Reset
                &&& info matches Some(told) ==> actions.len() == 3 && actions[0]
                    == EspAction::Report(EspReport::DeviceInfo(told))
                &&& info is None ==> actions.len() == 2
            }
            &&& outcome matches EspOutcome::DeviceInfo(info) ==> session.command is FlashProfile
                ==> {
                &&& actions.len() == 1
                &&& info is Some ==> actions[0] is LoadElfToFlash
                &&& info is None ==> actions[0] is ReturnPort
            }
            &&& outcome is ElfRead ==> (session.command matches EspCommand::FlashProfile(
                EspProfile::Elf(elf),
            ) ==> {
                &&& actions.len() == 1
                &&& elf.ram ==> actions[0] is LoadElfToRam
                &&& !elf.ram ==> actions[0] is ReadDeviceInfo
            })
            &&& outcome matches EspOutcome::Written(error) ==> {
                &&& actions.len() >= 1 && actions.last() is ReturnPort
                &&& error matches Some(e) ==> actions.len() == 2 && actions[0]
                    == EspAction::Report(EspReport::FlashError(e))
                &&& error is None ==> actions.len() == 1
            }
            &&& outcome matches EspOutcome::Erased(done) ==> {
                &&& actions.len() >= 1 && actions.last() is ReturnPort
                &&& done ==> actions.len() == 2 && actions[0] == EspAction::Report(
                    EspReport::EraseSuccess(session.chip),
                )
                &&& !done ==> actions.len() == 1
            }
            &&& outcome is ResetDone && session.command == EspCommand::Restart(
                EspRestartType::UserCode,
            ) ==> actions.len() == 2 && actions[0] == EspAction::Report(
                EspReport::HardResetAttempt,
            ) && actions[1] is ReturnPort
            &&& outcome is ResetDone && session.command == EspCommand::Restart(
                EspRestartType::Bootloader { active: false },
            ) ==> actions.len() == 2 && actions[0] == EspAction::Report(
                EspReport::BootloaderAttempt,
            ) && actions[1] is ReturnPort
        }),
{
}

/// What a flasher is told of the device behind a port: what it says of itself, or nothing
/// at all if it is no USB device.
pub proof fn law_device_behind_a_port(port: SerialPortType)
    ensures
        port matches SerialPortType::UsbPort(usb) ==> crate::serial::esp::usb_behind(port) == usb,
        !(port is UsbPort) ==> {
            let usb = crate::serial::esp::usb_behind(port);
            usb.vid == 0 && usb.pid == 0 && usb.serial_number is None
        },
{
}

/// What is to be sent goes to the port that is held, and otherwise comes back; either way
/// it is whole, and nothing else is done.
pub proof fn law_data_is_sent_or_comes_back(worker: SerialWorker, data: Vec<u8>)
    ensures
        ({
            let actions = worker.command_actions(
                SerialWorkerCommand::PortCommand(PortCommand::TxBuffer(data)),
            );
            let after = worker.after_command(
                SerialWorkerCommand::PortCommand(PortCommand::TxBuffer(data)),
            );
            &&& actions.len() == 1
            &&& worker.held == HeldPort::Native || worker.held == HeldPort::Loopback ==> actions[0]
                == WorkerAction::Send(data)
            &&& worker.held == HeldPort::Missing || worker.held == HeldPort::Borrowed ==> actions[0]
                == WorkerAction::ReturnUnsent(data)
            &&& after == worker
        }),
{
}

/// A reconnection is looked for only while there is no port, and only as strictly as asked
/// for, or else as set.
pub proof fn law_reconnection_is_sought(
    worker: SerialWorker,
    asked: Option<ReconnectionStrictness>,
)
    ensures
        ({
            let actions = worker.command_actions(SerialWorkerCommand::RequestReconnect(asked));
            let strictness = if asked is Some {
                asked->0
            } else {
                worker.settings.reconnections
            };
            &&& worker.held == HeldPort::Missing && strictness != ReconnectionStrictness::Disabled
                ==> actions.len() == 1 && actions[0] == WorkerAction::Scan(
                ScanPurpose::Reconnect(strictness),
            )
            &&& worker.held != HeldPort::Missing || strictness == ReconnectionStrictness::Disabled
                ==> actions.len() == 0
            &&& worker.after_command(SerialWorkerCommand::RequestReconnect(asked)) == worker
        }),
{
}

/// Leaving a port lets go of it and forgets it. Breaking a connection lets go of the port
/// too, but keeps it in mind to be reconnected to, and looks up which ports are there.
pub proof fn law_disconnection(worker: SerialWorker, user_wants_break: bool)
    ensures
        ({
            let command = SerialWorkerCommand::Disconnect { user_wants_break };
            let actions = worker.command_actions(command);
            let after = worker.after_command(command);
            &&& !user_wants_break ==> {
                &&& after.held == HeldPort::Missing
                &&& after.status.inner is Idle
                &&& after.status.current_port is None
                &&& after.status.signals.dtr == worker.settings.dtr_on_connect
                &&& after.status.signals.rts == worker.settings.rts_on_connect
                &&& actions.len() == 2
                &&& actions[0] is DropPort
                &&& actions[1] matches WorkerAction::ReportDisconnect(reason) && reason
                    is Intentional
            }
            &&& user_wants_break && worker.held != HeldPort::Missing ==> {
                &&& after.held == HeldPort::Missing
                &&& after.status.inner is PrematureDisconnect
                &&& after.status.current_port == worker.status.current_port
                &&& actions.len() == 2
                &&& actions[0] is DropPort
                &&& actions[1] matches WorkerAction::Scan(
                    ScanPurpose::AfterDisconnect(reason),
                ) && reason is UserBrokeConnection
            }
            &&& user_wants_break && worker.held == HeldPort::Missing ==> after == worker
                && actions.len() == 0
            &&& after.settings == worker.settings
            &&& after.scan_snapshot == worker.scan_snapshot
            &&& after.ignored_devices == worker.ignored_devices
        }),
{
}

/// A port that has a name is connected to at once; a USB device is looked for first. The
/// settings that go with it are applied before, with the baud rate that is given.
pub proof fn law_connecting(
    worker: SerialWorker,
    port: SerialPortInfo,
    baud: Option<u32>,
    settings: PortSettings,
)
    ensures
        ({
            let command = SerialWorkerCommand::ConnectBlocking { port, baud, settings };
            let actions = worker.command_actions(command);
            let after = worker.after_command(command);
            let used = PortSettings {
                baud_rate: if baud is Some {
                    baud->0
                } else {
                    settings.baud_rate
                },
                ..settings
            };
            let held = worker.held == HeldPort::Native || worker.held == HeldPort::Loopback;
            &&& port.port_name@.len() > 0 ==> actions.len() > 0 && actions.last() == (
            WorkerAction::Connect { port, reconnect: None, wait_ms: 0, reply: true })
            &&& port.port_name@.len() == 0 ==> (port.port_type matches SerialPortType::UsbPort(usb)
                ==> actions.len() > 0 && actions.last() == WorkerAction::Scan(
                ScanPurpose::UsbQuery(usb),
            ))
            &&& held ==> actions.len() > 0 && actions[0] == WorkerAction::Configure(
                used,
                SignalLevels { dtr: worker.status.signals.dtr, rts: worker.status.signals.rts },
            ) && after == worker
            &&& !held ==> after.settings == used && after.held == worker.held && after.status
                == worker.status
            &&& actions.len() <= 2
        }),
{
}

/// Our lines are set to what is asked, or flipped if that is asked; the others stay, and so
/// do the lines of the other end. A port that is held has to take the levels first.
pub proof fn law_lines_are_set(
    worker: SerialWorker,
    dtr: Option<bool>,
    rts: Option<bool>,
    flip_dtr: bool,
    flip_rts: bool,
)
    ensures
        ({
            let set = PortCommand::WriteSignals { dtr, rts };
            let flip = PortCommand::ToggleSignals { dtr: flip_dtr, rts: flip_rts };
            let now = worker.status.signals;
            let held = worker.held == HeldPort::Native || worker.held == HeldPort::Loopback;
            let set_to = SignalLevels {
                dtr: if dtr is Some {
                    dtr->0
                } else {
                    now.dtr
                },
                rts: if rts is Some {
                    rts->0
                } else {
                    now.rts
                },
            };
            let flipped_to = SignalLevels { dtr: now.dtr != flip_dtr, rts: now.rts != flip_rts };
            &&& held ==> {
                &&& worker.port_command_actions(set) == seq![
                    WorkerAction::SetSignals(set_to),
                    WorkerAction::ReadSignals { force_share: true },
                ]
                &&& worker.port_command_actions(flip) == seq![
                    WorkerAction::SetSignals(flipped_to),
                    WorkerAction::ReadSignals { force_share: true },
                ]
                &&& worker.after_port_command(set) == worker
                &&& worker.after_port_command(flip) == worker
            }
            &&& !held ==> {
                &&& worker.after_port_command(set).status.signals == (SerialSignals {
                    dtr: set_to.dtr,
                    rts: set_to.rts,
                    ..now
                })
                &&& worker.after_port_command(flip).status.signals == (SerialSignals {
                    dtr: flipped_to.dtr,
                    rts: flipped_to.rts,
                    ..now
                })
                &&& worker.after_port_command(set).settings == worker.settings
                &&& worker.after_port_command(set).status.current_port
                    == worker.status.current_port
            }
        }),
{
    let set = PortCommand::WriteSignals { dtr, rts };
    let flip = PortCommand::ToggleSignals { dtr: flip_dtr, rts: flip_rts };
    if worker.held == HeldPort::Native || worker.held == HeldPort::Loopback {
        assert(worker.port_command_actions(set).len() == 2);
        assert(worker.port_command_actions(flip).len() == 2);
    }
}

/// New settings are applied to a port that is held before they are taken over, and taken
/// over at once where there is none.
pub proof fn law_settings_are_applied(worker: SerialWorker, settings: PortSettings)
    ensures
        ({
            let command = PortCommand::PortSettings(settings);
            let held = worker.held == HeldPort::Native || worker.held == HeldPort::Loopback;
            &&& held ==> worker.port_command_actions(command) == seq![
                WorkerAction::Configure(
                    settings,
                    SignalLevels { dtr: worker.status.signals.dtr, rts: worker.status.signals.rts },
                ),
            ] && worker.after_port_command(command) == worker
            &&& !held ==> worker.port_command_actions(command).len() == 0
                && worker.after_port_command(command).settings == settings
                && worker.after_port_command(command).status == worker.status
                && worker.after_port_command(command).held == worker.held
        }),
{
}

/// A list of the ports is what was asked for, to whom it was asked by; new devices to ignore
/// are taken over and nothing else changes.
pub proof fn law_lists_and_ignored_devices(worker: SerialWorker, ignored: Ignored)
    ensures
        worker.command_actions(SerialWorkerCommand::RequestPortScan) == seq![
            WorkerAction::Scan(ScanPurpose::List),
        ],
        worker.command_actions(SerialWorkerCommand::RequestPortScanBlocking) == seq![
            WorkerAction::Scan(ScanPurpose::BlockingList),
        ],
        worker.command_actions(SerialWorkerCommand::NewIgnored(ignored)).len() == 0,
        worker.after_command(SerialWorkerCommand::NewIgnored(ignored)) == (SerialWorker {
            ignored_devices: ignored,
            ..worker
        }),
        worker.after_command(SerialWorkerCommand::RequestPortScan) == worker,
{
}

/// Whoever asks for a USB device is connected to one with its ids, and with its serial number
/// if one is given, out of those that are offered; and refused only if there is none.
pub proof fn law_usb_device_is_found(
    worker: SerialWorker,
    query: crate::serial::UsbPortInfo,
    found: Vec<SerialPortInfo>,
    actions: Seq<WorkerAction>,
    snapshot: Seq<SerialPortInfo>,
)
    requires
        crate::serial::supervisor::scan_outcome(
            worker,
            ScanPurpose::UsbQuery(query),
            Some(found),
            actions,
            snapshot,
        ),
    ensures
        snapshot == worker.scan_snapshot@,
        actions.len() == 1,
        actions[0] is Connect || actions[0] is RefuseConnect,
        actions[0] matches WorkerAction::Connect { port, reconnect, wait_ms, reply } ==> {
            &&& port@.kind matches PortTypeView::UsbPort(usb)
            &&& usb.vid == query.vid
            &&& usb.pid == query.pid
            &&& query@.serial_number is Some ==> usb.serial_number == query@.serial_number
            &&& crate::serial::worker::offered_ports(found@, worker.ignored_devices).contains(port@)
            &&& reconnect is None && wait_ms == 0 && reply
        },
        actions[0] is RefuseConnect ==> forall|i: int|
            0 <= i < crate::serial::worker::offered_ports(found@, worker.ignored_devices).len()
                ==> ((#[trigger] crate::serial::worker::offered_ports(
                found@,
                worker.ignored_devices,
            )[i]).kind matches PortTypeView::UsbPort(usb) ==> usb.vid != query.vid || usb.pid
                != query.pid || (query@.serial_number is Some && usb.serial_number
                != query@.serial_number)),
{
    let ports = choose|ports: Seq<SerialPortInfo>| #[trigger]
        crate::serial::supervisor::offered_list(ports, found@, worker.ignored_devices) && actions
            == (match crate::serial::worker::first_port(
            ports,
            crate::serial::worker::usb_answer(query@),
            0,
        ) {
            Some(i) => seq![
                WorkerAction::Connect {
                    port: ports[i],
                    reconnect: None,
                    wait_ms: 0,
                    reply: true,
                },
            ],
            None => seq![WorkerAction::RefuseConnect],
        });
    let wanted = crate::serial::worker::usb_answer(query@);
    let all = crate::serial::worker::offered_ports(found@, worker.ignored_devices);
    crate::serial::worker::lemma_first_port(ports, wanted, 0);
    assert(all.len() == ports.len());
    match crate::serial::worker::first_port(ports, wanted, 0) {
        Some(i) => {
            assert(all[i] == ports[i]@);
        },
        None => {
            assert forall|i: int| 0 <= i < all.len() implies ((#[trigger] all[i]).kind matches
                PortTypeView::UsbPort(usb) ==> usb.vid != query.vid || usb.pid != query.pid || (
            query@.serial_number is Some && usb.serial_number != query@.serial_number)) by {
                assert(all[i] == ports[i]@);
                assert(!wanted(ports[i]@));
            }
        },
    }
}

/// A port is reconnected to after a while, only if it is offered, and for a reason that is
/// told; what is remembered of the ports stays.
pub proof fn law_reconnection_waits(
    worker: SerialWorker,
    strictness: ReconnectionStrictness,
    found: Vec<SerialPortInfo>,
    actions: Seq<WorkerAction>,
    snapshot: Seq<SerialPortInfo>,
)
    requires
        worker.status.current_port is Some,
        crate::serial::supervisor::scan_outcome(
            worker,
            ScanPurpose::Reconnect(strictness),
            Some(found),
            actions,
            snapshot,
        ),
    ensures
        snapshot == worker.scan_snapshot@,
        actions.len() <= 1,
        actions.len() == 1 ==> (actions[0] matches WorkerAction::Connect {
            port,
            reconnect,
            wait_ms,
            reply,
        } && {
            &&& crate::serial::worker::offered_ports(found@, worker.ignored_devices).contains(port@)
            &&& reconnect is Some
            &&& wait_ms == 1000
            &&& !reply
            &&& reconnect->0 == ReconnectType::UsbStrict || reconnect->0 == ReconnectType::UsbLoose
                ==> forall|j: int|
                0 <= j < worker.scan_snapshot@.len() ==> (#[trigger] worker.scan_snapshot@[j])@
                    != port@
        }),
        crate::serial::worker::offered_ports(found@, worker.ignored_devices).contains(
            worker.status.current_port->0@,
        ) && strictness != ReconnectionStrictness::Disabled ==> actions.len() == 1,
{
    let desired = worker.status.current_port->0@;
    let kept = worker.scan_snapshot@;
    let ports = choose|ports: Seq<SerialPortInfo>| #[trigger]
        crate::serial::supervisor::offered_list(ports, found@, worker.ignored_devices) && actions
            == (match crate::serial::worker::reconnect_choice(ports, desired, kept, strictness) {
            Some((i, kind)) => seq![
                WorkerAction::Connect {
                    port: ports[i],
                    reconnect: Some(kind),
                    wait_ms: crate::serial::supervisor::RECONNECT_WAIT_MS,
                    reply: false,
                },
            ],
            None => Seq::<WorkerAction>::empty(),
        });
    let all = crate::serial::worker::offered_ports(found@, worker.ignored_devices);
    law_reconnection_has_its_reason(ports, desired, kept, strictness);
    law_ports_that_stayed_are_left_alone(ports, desired, kept, strictness);
    assert(all.len() == ports.len());
    if let Some((i, kind)) = crate::serial::worker::reconnect_choice(
        ports,
        desired,
        kept,
        strictness,
    ) {
        assert(all[i] == ports[i]@);
    }
    if all.contains(desired) && strictness != ReconnectionStrictness::Disabled {
        let j = choose|j: int| 0 <= j < all.len() && all[j] == desired;
        assert(ports[j]@ == desired);
        law_reconnection_is_found(ports, desired, kept, strictness, j);
    }
}

/// When a connection ended, why is told, and of the ports that are offered all but the lost
/// one are remembered.
pub proof fn law_disconnection_is_told(
    worker: SerialWorker,
    reason: SerialDisconnectReason,
    found: Option<Vec<SerialPortInfo>>,
    actions: Seq<WorkerAction>,
    snapshot: Seq<SerialPortInfo>,
)
    requires
        worker.status.current_port is Some,
        crate::serial::supervisor::scan_outcome(
            worker,
            ScanPurpose::AfterDisconnect(reason),
            found,
            actions,
            snapshot,
        ),
    ensures
        actions == seq![WorkerAction::ReportDisconnect(reason)],
        found is None ==> snapshot == worker.scan_snapshot@,
        found matches Some(found) ==> forall|i: int|
            0 <= i < crate::serial::worker::offered_ports(found@, worker.ignored_devices).len()
                && (#[trigger] crate::serial::worker::offered_ports(
                found@,
                worker.ignored_devices,
            )[i]) != worker.status.current_port->0@ ==> exists|j: int|
                0 <= j < snapshot.len() && (#[trigger] snapshot[j])@
                    == crate::serial::worker::offered_ports(found@, worker.ignored_devices)[i],
{
    if let Some(found) = found {
        let lost = worker.status.current_port->0@;
        let ports = choose|ports: Seq<SerialPortInfo>| #[trigger]
            crate::serial::supervisor::offered_list(ports, found@, worker.ignored_devices)
                && snapshot == crate::serial::worker::snapshot_without(ports, lost);
        let all = crate::serial::worker::offered_ports(found@, worker.ignored_devices);
        law_snapshot_leaves_out_the_lost_port(ports, lost);
        assert(all.len() == ports.len());
        assert forall|i: int| 0 <= i < all.len() && (#[trigger] all[i]) != lost implies exists|
            j: int,
        |
            0 <= j < snapshot.len() && (#[trigger] snapshot[j])@ == all[i] by {
            assert(all[i] == ports[i]@);
            assert(snapshot.contains(ports[i]));
            let j = choose|j: int| 0 <= j < snapshot.len() && snapshot[j] == ports[i];
            assert(snapshot[j]@ == all[i]);
        }
    }
}

/// What is read of the lines of the other end leaves ours alone.
pub proof fn law_reading_lines_keeps_ours(signals: SerialSignals, slave: SlaveSignals)
    ensures
        signals.with_slave(slave).dtr == signals.dtr,
        signals.with_slave(slave).rts == signals.rts,
        signals.with_slave(slave).cts == slave.cts,
        signals.with_slave(slave).dsr == slave.dsr,
        signals.with_slave(slave).ri == slave.ri,
        signals.with_slave(slave).cd == slave.cd,
{
}

/// A port that is lent out is still the same one, since the same time; when it comes back our
/// lines are what the settings say.
pub proof fn law_lending(status: PortStatus, lent_out_at: u64, settings: PortSettings)
    ensures
        status.inner matches InnerPortStatus::Connected { connected_at } ==> status.lent(
            lent_out_at,
        ) == (PortStatus {
            inner: InnerPortStatus::LentOut { initial_connection_at: connected_at, lent_out_at },
            ..status
        }),
        status.inner matches InnerPortStatus::LentOut { initial_connection_at, .. } ==> {
            let back = status.returned(settings);
            &&& back.inner == (InnerPortStatus::Connected { connected_at: initial_connection_at })
            &&& back.current_port == status.current_port
            &&& back.signals.dtr == settings.dtr_on_connect
            &&& back.signals.rts == settings.rts_on_connect
        },
{
}

/// The kinds of lists of ports that are told are those that are offered.
pub proof fn law_lists_are_told(
    worker: SerialWorker,
    found: Vec<SerialPortInfo>,
    actions: Seq<WorkerAction>,
    snapshot: Seq<SerialPortInfo>,
    blocking: bool,
)
    requires
        crate::serial::supervisor::scan_outcome(
            worker,
            if blocking {
                ScanPurpose::BlockingList
            } else {
                ScanPurpose::List
            },
            Some(found),
            actions,
            snapshot,
        ),
    ensures
        actions.len() == 1,
        crate::serial::port_views(snapshot) == crate::serial::worker::offered_ports(
            found@,
            worker.ignored_devices,
        ),
        !blocking ==> (actions[0] matches WorkerAction::ReportScan(ports) && ports@ == snapshot),
        blocking ==> (actions[0] matches WorkerAction::ReplyScan(ports) && ports@ == snapshot),
{
}

} // verus!
