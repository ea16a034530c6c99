//! What the program does about choices, keys and events.

use vstd::prelude::*;
use vstd::string::*;

use crate::app::actions::Switch;
use crate::app::effects::{EffectView, Request};
use crate::app::rules::{added, asks, sends};
use crate::app::{AppView, Moment, PopupView, SettingsMenu, Tick, Timer, ToolMenu};
use crate::keybinds::{ActionView, BaseAction, BuiltinAction, DefmtSelectAction};
use crate::serial::{
    PortTypeView, ReconnectType, ReconnectionStrictness, SerialDisconnectReason, UsbView,
};
use crate::settings::SettingsView;
use crate::tui::prompts::{
    AttemptReconnectPrompt, DisconnectPrompt, IgnorePortByNamePrompt, IgnoreUsbDevicePrompt,
    PromptTable, UpdateBeginPrompt, UpdateCheckConsentPrompt, UpdateLaunchPrompt,
};

verus! {

/// Only the choice to exit ends the program; the one to disconnect breaks the connection
/// and keeps it from coming back; the one for the ports gives the connection up and goes
/// back to them; cancelling asks for nothing.
#[verifier::rlimit(40)]
pub proof fn law_choices_about_a_connection(app: AppView, choice: DisconnectPrompt)
    requires
        app.ui.popup == Some(PopupView::DisconnectPrompt),
        app.ui.screen.state is Running,
        app.ui.screen.menu is Terminal,
    ensures
        ({
            let after = app.disconnect_chosen(choice);
            &&& after.ui.screen.state is Finished <==> choice is ExitApp
            &&& asks(app, after, Request::BreakConnection) <==> choice is DisconnectFromPort
            &&& asks(app, after, Request::Disconnect) <==> choice is BackToPortSelection
            &&& asks(app, after, Request::ScanPortsNow) <==> choice is BackToPortSelection
            &&& after.ui.screen.menu is PortSelection <==> choice is BackToPortSelection
            &&& choice is DisconnectFromPort ==> after.ui.screen.user_broke_connection
                && after.ui.popup == Some(PopupView::AttemptReconnectPrompt)
            &&& choice is OpenPortSettings ==> after.ui.popup == Some(
                PopupView::SettingsMenu(SettingsMenu::SerialPort),
            )
            &&& choice is Cancel ==> after.outbox == app.outbox && after.ui.popup is None
            &&& after.edit.settings == app.edit.settings
        }),
{
    reveal(AppView::disconnect_chosen);
    reveal(AppView::left_terminal);
    reveal(AppView::dismissed);
    reveal(AppView::refreshed);
    reveal(AppView::shown);
    reveal(AppView::asked);
    let after = app.disconnect_chosen(choice);
    if choice is BackToPortSelection {
        assert(added(app, after)[0] == EffectView::Request(Request::Disconnect));
        assert(added(app, after)[1] == EffectView::Request(Request::ScanPortsNow));
        assert(added(app, after)[2] == EffectView::Request(Request::ForgetBuffer));
        assert(added(app, after).len() == 3);
    } else if choice is DisconnectFromPort {
        assert(added(app, after)[0] == EffectView::Request(Request::BreakConnection));
        assert(added(app, after).len() == 1);
    } else if choice is OpenPortSettings {
        assert(added(app, after)[0] == EffectView::Request(Request::Emit(Tick::Scroll)));
        assert(added(app, after).len() == 1);
    } else {
        assert(added(app, after).len() == 0);
    }
}

/// Reconnecting is strict unless control or shift is held. Where the user broke the
/// connection themselves, it is only let come back.
#[verifier::rlimit(40)]
pub proof fn law_attempt_to_reconnect(app: AppView, shift: bool, ctrl: bool)
    requires
        app.ui.popup == Some(PopupView::AttemptReconnectPrompt),
    ensures
        ({
            let after = app.reconnect_chosen(
                AttemptReconnectPrompt::AttemptReconnect,
                shift,
                ctrl,
            );
            let n = app.outbox.len() as int;
            &&& after.outbox.take(n) == app.outbox
            &&& after.outbox[n] is Notify
            &&& app.ui.screen.user_broke_connection ==> {
                &&& after.outbox.len() == n + 1
                &&& !after.ui.screen.user_broke_connection
                &&& after.ui.popup is None
            }
            &&& !app.ui.screen.user_broke_connection ==> {
                &&& after.outbox.len() == n + 2
                &&& !shift && !ctrl ==> after.outbox[n + 1] == EffectView::Request(
                    Request::Reconnect(Some(ReconnectionStrictness::High)),
                )
                &&& shift || ctrl ==> after.outbox[n + 1] == EffectView::Request(
                    Request::Reconnect(Some(ReconnectionStrictness::Low)),
                )
                &&& after.ui.popup == app.ui.popup
            }
            &&& after.edit.settings == app.edit.settings
            &&& after.ui.screen.state == app.ui.screen.state
        }),
{
    reveal(AppView::reconnect_chosen);
    reveal(AppView::dismissed);
    reveal(AppView::refreshed);
    reveal(AppView::flipped);
    reveal(AppView::said);
    reveal(AppView::effected);
    reveal(AppView::asked);
    let after = app.reconnect_chosen(AttemptReconnectPrompt::AttemptReconnect, shift, ctrl);
    assert(after.outbox.take(app.outbox.len() as int) =~= app.outbox);
}

/// The other choices about a lost connection do what they do about one that is there, and
/// leave it broken if the user broke it.
#[verifier::rlimit(40)]
pub proof fn law_choices_about_a_lost_connection(
    app: AppView,
    choice: AttemptReconnectPrompt,
    shift: bool,
    ctrl: bool,
)
    requires
        app.ui.popup == Some(PopupView::AttemptReconnectPrompt),
        app.ui.screen.state is Running,
        app.ui.screen.menu is Terminal,
        !(choice is AttemptReconnect),
    ensures
        ({
            let after = app.reconnect_chosen(choice, shift, ctrl);
            &&& after.ui.screen.state is Finished <==> choice is ExitApp
            &&& after.ui.screen.menu is PortSelection <==> choice is BackToPortSelection
            &&& choice is BackToPortSelection ==> after.outbox[app.outbox.len() as int]
                == EffectView::Request(Request::Disconnect)
            &&& choice is OpenPortSettings ==> after.ui.popup == Some(
                PopupView::SettingsMenu(SettingsMenu::SerialPort),
            )
            &&& choice is Cancel ==> after.outbox == app.outbox && after.ui.popup is None
            &&& choice is ExitApp ==> after.outbox == app.outbox
            &&& after.ui.screen.user_broke_connection == app.ui.screen.user_broke_connection
            &&& after.edit.settings == app.edit.settings
        }),
{
    reveal(AppView::reconnect_chosen);
    reveal(AppView::left_terminal);
    reveal(AppView::toggled_popup);
    reveal(AppView::dismissed);
    reveal(AppView::refreshed);
    reveal(AppView::shown);
    reveal(AppView::asked);
}

/// A USB device is ignored by its name, by its ids, or by its ids and its serial number, as
/// chosen; what was ignored before still is. The ports are looked for again then.
#[verifier::rlimit(40)]
pub proof fn law_ignoring_a_device(
    app: AppView,
    name: Seq<char>,
    usb: UsbView,
    choice: IgnoreUsbDevicePrompt,
)
    requires
        app.ui.popup == Some(PopupView::IgnoreByUsb(name, usb)),
        name != crate::serial::worker::MOCK_PORT_NAME@,
    ensures
        ({
            let after = app.ignore_usb_chosen(choice);
            let before = app.kept.ignored;
            let now = after.kept.ignored;
            &&& after.ui.popup is None
            &&& choice is Cancel ==> now == before && after.outbox == app.outbox
            &&& choice is IgnoreByName ==> now.names == before.names.push(name) && now.usb
                == before.usb
            &&& choice is IgnoreByVidPid || choice is IgnoreByVidPidSerial ==> {
                &&& now.names == before.names
                &&& now.usb.len() == before.usb.len() + 1
                &&& now.usb.take(before.usb.len() as int) == before.usb
                &&& now.usb.last().vid == usb.vid
                &&& now.usb.last().pid == usb.pid
            }
            &&& choice is IgnoreByVidPid ==> now.usb.last().serial_number is None
            &&& choice is IgnoreByVidPidSerial ==> now.usb.last().serial_number
                == usb.serial_number
            &&& now.show_ttys_ports == before.show_ttys_ports
            &&& now.hide_loopback_port == before.hide_loopback_port
            &&& !(choice is Cancel) ==> {
                &&& asks(app, after, Request::SaveSettings)
                &&& asks(app, after, Request::ApplyIgnored)
                &&& asks(app, after, Request::ScanPorts)
            }
        }),
{
    reveal(AppView::ignore_usb_chosen);
    reveal(AppView::ignoring);
    reveal(AppView::ignoring_name);
    reveal(AppView::ignoring_usb);
    reveal(AppView::dismissed);
    reveal(AppView::refreshed);
    reveal(AppView::asked);
    let after = app.ignore_usb_chosen(choice);
    let before = app.kept.ignored;
    if !(choice is Cancel) {
        assert(added(app, after)[0] == EffectView::Request(Request::SaveSettings));
        assert(added(app, after)[1] == EffectView::Request(Request::ApplyIgnored));
        assert(added(app, after)[2] == EffectView::Request(Request::ScanPorts));
        if !(choice is IgnoreByName) {
            assert(after.kept.ignored.usb.take(before.usb.len() as int) =~= before.usb);
        }
    }
}

/// Any other port is ignored by its name, if that is chosen.
#[verifier::rlimit(40)]
pub proof fn law_ignoring_a_port(app: AppView, name: Seq<char>, choice: IgnorePortByNamePrompt)
    requires
        app.ui.popup == Some(PopupView::IgnoreByName(name)),
        name != crate::serial::worker::MOCK_PORT_NAME@,
    ensures
        ({
            let after = app.ignore_name_chosen(choice);
            &&& after.ui.popup is None
            &&& after.kept.ignored.usb == app.kept.ignored.usb
            &&& choice is Cancel ==> after.kept.ignored == app.kept.ignored && after.outbox
                == app.outbox
            &&& choice is IgnoreByName ==> after.kept.ignored.names
                == app.kept.ignored.names.push(name) && asks(app, after, Request::ScanPorts)
                && asks(app, after, Request::SaveSettings)
        }),
{
    reveal(AppView::ignore_name_chosen);
    reveal(AppView::ignoring);
    reveal(AppView::ignoring_name);
    reveal(AppView::dismissed);
    reveal(AppView::refreshed);
    reveal(AppView::asked);
    let after = app.ignore_name_chosen(choice);
    if !(choice is Cancel) {
        assert(added(app, after)[0] == EffectView::Request(Request::SaveSettings));
        assert(added(app, after)[2] == EffectView::Request(Request::ScanPorts));
    }
}

/// The question about ignoring a port is about the selected one, by its ids if it is a USB
/// device.
pub proof fn law_ignoring_is_asked_about_the_selected_port(app: AppView)
    requires
        app.ui.screen.port_selection_scroll < app.kept.ports.len(),
    ensures
        ({
            let port = app.kept.ports[app.ui.screen.port_selection_scroll as int];
            let after = app.ignore_asked();
            &&& port.kind matches PortTypeView::UsbPort(usb) ==> after.ui.popup == Some(
                PopupView::IgnoreByUsb(port.name, usb),
            )
            &&& !(port.kind is UsbPort) ==> after.ui.popup == Some(
                PopupView::IgnoreByName(port.name),
            )
            &&& after.kept.ignored == app.kept.ignored
        }),
{
    reveal(AppView::ignore_asked);
    reveal(AppView::shown);
    reveal(AppView::refreshed);
    reveal(AppView::asked);
}

/// Updates are looked for once the user agrees to it, and not if they do not; both answers
/// are kept, so that they are not asked again.
#[verifier::rlimit(40)]
pub proof fn law_consent(app: AppView, choice: UpdateCheckConsentPrompt)
    requires
        app.ui.popup == Some(PopupView::UpdateCheckConsentPrompt),
    ensures
        ({
            let after = app.consent_chosen(choice);
            &&& after.ui.popup is None
            &&& asks(
                app,
                after,
                Request::QueryUpdate { pre_releases: app.kept.updates.allow_pre_releases },
            ) <==> choice is Yes
            &&& choice is Yes ==> after.kept.updates.allow_checking_for_updates
            &&& choice is Never ==> !after.kept.updates.allow_checking_for_updates
            &&& !(choice is AskAgainLater) ==> after.kept.updates.user_dismissed_prompt && asks(
                app,
                after,
                Request::SaveSettings,
            ) && after.set_up() == after
            &&& choice is AskAgainLater ==> after.kept.updates == app.kept.updates && after.outbox
                == app.outbox
            &&& after.kept.updates.allow_pre_releases == app.kept.updates.allow_pre_releases
            &&& after.kept.updates.skipped_version == app.kept.updates.skipped_version
        }),
{
    reveal(AppView::consent_chosen);
    reveal(AppView::consented);
    reveal(AppView::set_up);
    reveal(AppView::dismissed);
    reveal(AppView::refreshed);
    reveal(AppView::asked);
    let after = app.consent_chosen(choice);
    let new = added(app, after);
    if choice is Yes {
        assert(new.len() == 2);
        assert(new[0] == EffectView::Request(Request::SaveSettings));
        assert(new[1] == after.outbox.last());
    } else if choice is Never {
        assert(new.len() == 1);
        assert(new[0] == EffectView::Request(Request::SaveSettings));
    } else {
        assert(new.len() == 0);
    }
}

/// A user who has not decided about updates is asked; one who has is not.
pub proof fn law_consent_is_asked_for(app: AppView)
    ensures
        app.kept.updates.user_dismissed_prompt ==> app.set_up() == app,
        !app.kept.updates.user_dismissed_prompt ==> app.set_up().ui.popup == Some(
            PopupView::UpdateCheckConsentPrompt,
        ),
{
    reveal(AppView::set_up);
    reveal(AppView::shown);
    reveal(AppView::refreshed);
    reveal(AppView::asked);
}

/// An update is only downloaded if that is chosen. A version that is skipped is not told of
/// again; any other is.
#[verifier::rlimit(40)]
pub proof fn law_choices_about_an_update(
    app: AppView,
    choice: UpdateBeginPrompt,
    version: String,
    later: AppView,
    other: String,
)
    requires
        app.kept.update_found_version == Some(version),
        app.ui.popup == Some(PopupView::UpdateBeginPrompt),
        later.kept.updates == app.update_begin_chosen(choice).kept.updates,
    ensures
        ({
            let after = app.update_begin_chosen(choice);
            &&& asks(app, after, Request::DownloadUpdate) <==> choice is DownloadAndInstall
            &&& asks(app, after, Request::OpenRepository) <==> choice is OpenGithubRepo
            &&& choice is DownloadAndInstall ==> after.ui.popup == Some(
                PopupView::UpdateDownloading,
            )
            &&& choice is AskAgainLater ==> after.kept.updates == app.kept.updates
                && after.ui.popup is None && after.outbox == app.outbox
                && after.kept.update_found_version == Some(version)
            &&& choice is SkipVersion ==> {
                &&& after.kept.update_found_version is None
                &&& asks(app, after, Request::SaveSettings)
                &&& later.update_noticed(version) == later
                &&& other@ != version@ ==> later.update_noticed(other).kept.update_found_version
                    == Some(other)
            }
        }),
{
    reveal(AppView::update_begin_chosen);
    reveal(AppView::update_noticed);
    reveal(AppView::dismissed);
    reveal(AppView::refreshed);
    reveal(AppView::asked);
    let after = app.update_begin_chosen(choice);
    let new = added(app, after);
    if choice is AskAgainLater {
        assert(new.len() == 0);
    } else {
        assert(new.len() == 1);
        assert(new[0] == after.outbox.last());
    }
}

/// An update that is installed is started in a new window, or not, as chosen.
pub proof fn law_choices_about_an_installed_update(app: AppView, choice: UpdateLaunchPrompt)
    requires
        app.ui.screen.state is Running,
    ensures
        ({
            let after = app.launch_chosen(choice);
            &&& choice is OpenInNewWindow ==> after.outbox == app.outbox.push(
                EffectView::Request(Request::StartNewVersion),
            ) && after.ui == app.ui
            &&& choice is Close ==> after.ui.screen.state is Finished && after.outbox == app.outbox
        }),
{
    reveal(AppView::launch_chosen);
    reveal(AppView::asked);
}

/// Enter on a row of a prompt makes the choice that stands in that row.
pub proof fn law_enter_makes_the_choice_of_the_row(
    app: AppView,
    ctrl: bool,
    shift: bool,
    at: Moment,
)
    ensures
        ({
            let row = app.ui.screen.popup_menu_scroll as int;
            let after = app.entered(ctrl, shift, at);
            match app.ui.popup {
                Some(PopupView::DisconnectPrompt) => row < DisconnectPrompt::choices().len()
                    ==> after == app.disconnect_chosen(DisconnectPrompt::choices()[row]),
                Some(PopupView::AttemptReconnectPrompt) => row
                    < AttemptReconnectPrompt::choices().len() ==> after == app.reconnect_chosen(
                    AttemptReconnectPrompt::choices()[row],
                    shift,
                    ctrl,
                ),
                Some(PopupView::IgnoreByUsb(_, _)) => row < IgnoreUsbDevicePrompt::choices().len()
                    ==> after == app.ignore_usb_chosen(IgnoreUsbDevicePrompt::choices()[row]),
                Some(PopupView::IgnoreByName(_)) => row < IgnorePortByNamePrompt::choices().len()
                    ==> after == app.ignore_name_chosen(IgnorePortByNamePrompt::choices()[row]),
                Some(PopupView::UpdateCheckConsentPrompt) => row
                    < UpdateCheckConsentPrompt::choices().len() ==> after == app.consent_chosen(
                    UpdateCheckConsentPrompt::choices()[row],
                ),
                Some(PopupView::UpdateBeginPrompt) => row < UpdateBeginPrompt::choices().len()
                    ==> after == app.update_begin_chosen(UpdateBeginPrompt::choices()[row]),
                Some(PopupView::UpdateLaunchPrompt) => row < UpdateLaunchPrompt::choices().len()
                    ==> after == app.launch_chosen(UpdateLaunchPrompt::choices()[row]),
                _ => true,
            }
        }),
{
    reveal(AppView::entered);
    reveal(AppView::chosen);
}

/// An action that needs a connection is not done without one, and one that needs the
/// terminal not elsewhere; nothing but the user is told then.
pub proof fn law_actions_wait_for_what_they_need(
    app: AppView,
    action: ActionView,
    label: Seq<char>,
    at: Moment,
)
    requires
        (action.needs_connection() && !(at.status is Connected)) || (action.needs_terminal()
            && !(app.ui.screen.menu is Terminal)),
    ensures
        ({
            let after = app.acted(action, label, at);
            &&& after.ui == app.ui
            &&& after.edit == app.edit
            &&& after.kept == app.kept
            &&& after.outbox.len() == app.outbox.len() + 1
            &&& after.outbox.last() is Notify
        }),
{
    reveal(AppView::acted);
    reveal(AppView::said);
    reveal(AppView::effected);
}

/// Actions wait in the order in which they were asked for, behind those that wait already;
/// each turn takes the first of them while there is a connection, and none while the port
/// is lent. Without a connection they are all given up.
#[verifier::rlimit(40)]
pub proof fn law_actions_take_turns(
    app: AppView,
    actions: Seq<ActionView>,
    label: Seq<char>,
    at: Moment,
)
    ensures
        actions.len() != 1 ==> {
            let after = app.queued(actions, label, at);
            &&& after.kept.queue.len() == app.kept.queue.len() + actions.len()
            &&& after.kept.queue.take(app.kept.queue.len() as int) == app.kept.queue
            &&& forall|i: int|
                0 <= i < actions.len() ==> {
                    let waiting = #[trigger] after.kept.queue[app.kept.queue.len() + i];
                    waiting.action == actions[i] && waiting.label == label
                }
            &&& asks(app, after, Request::Emit(Tick::Action))
        },
        actions.len() == 1 ==> app.queued(actions, label, at) == app.acted(actions[0], label, at),
        app.kept.queue.len() > 0 && at.status is LentOut ==> app.advanced(at).kept.queue
            == app.kept.queue && asks(
            app,
            app.advanced(at),
            Request::Oneshot { timer: Timer::ActionQueue, tick: Tick::Action, after_ms: 500 },
        ),
        app.kept.queue.len() > 0 && !(at.status is LentOut) && !(at.status is Connected) ==> {
            &&& app.advanced(at).kept.queue.len() == 0
            &&& !sends(app, app.advanced(at))
        },
        app.kept.queue.len() == 0 ==> app.advanced(at) == app,
{
    reveal(AppView::queued);
    reveal(AppView::advanced);
    reveal(AppView::said);
    reveal(AppView::effected);
    reveal(AppView::asked);
    if actions.len() != 1 {
        let after = app.queued(actions, label, at);
        assert(after.kept.queue.take(app.kept.queue.len() as int) =~= app.kept.queue);
        assert(added(app, after)[0] == EffectView::Request(Request::Emit(Tick::Action)));
    }
    if app.kept.queue.len() > 0 && at.status is LentOut {
        assert(added(app, app.advanced(at))[0] == app.advanced(at).outbox.last());
    }
}

/// The next turn comes after the pause that an action asks for; at once if the next action
/// is such a pause itself; and otherwise after the delay that is set.
pub proof fn law_pauses_between_actions(app: AppView, at: Moment)
    requires
        app.kept.queue.len() > 0,
        at.status is Connected,
    ensures
        ({
            let after = app.advanced(at);
            let first = app.kept.queue[0].action;
            let timer = |ms: u64| EffectView::Request(
                Request::Oneshot { timer: Timer::ActionQueue, tick: Tick::Action, after_ms: ms },
            );
            &&& after.outbox.len() > 0
            &&& first matches ActionView::Pause(ms) ==> after.outbox == app.outbox.push(timer(ms))
                && after.kept.queue == app.kept.queue.skip(1)
            &&& !(first is Pause) && app.kept.queue.len() > 1 && app.kept.queue[1].action is Pause
                ==> after.outbox.last() == timer(0)
            &&& !(first is Pause) && (app.kept.queue.len() == 1 || !(
            app.kept.queue[1].action is Pause)) ==> after.outbox.last() == timer(
                app.edit.settings.behavior.action_chain_delay_ms,
            )
        }),
{
    reveal(AppView::advanced);
    reveal(AppView::dispatched);
    reveal(AppView::asked);
}

/// A macro that keys ask for is the one that is sent, and a profile is found by its name.
pub proof fn law_asked_actions_are_done(app: AppView, label: Seq<char>, at: Moment)
    ensures
        forall|tag: crate::macros::TagView|
            app.dispatched(ActionView::MacroInvocation(tag), label, at) == #[trigger] app.sent_macro(
                tag,
                Some(label),
            ),
        forall|action: BuiltinAction|
            app.dispatched(ActionView::BuiltinAction(action), label, at)
                == #[trigger] app.builtin_done(action, at),
        forall|ms: u64| #[trigger] app.dispatched(ActionView::Pause(ms), label, at) == app,
{
    reveal(AppView::dispatched);
}

/// Each of the basic actions flips its own switch, if it has one, and no other setting.
#[verifier::rlimit(40)]
pub proof fn law_switches(app: AppView, action: BaseAction)
    ensures
        ({
            let after = app.base_done(action);
            let before = app.edit.settings.rendering;
            let now = after.edit.settings.rendering;
            &&& now.wrap_text == (before.wrap_text != (action is ToggleTextwrap))
            &&& now.timestamps == (before.timestamps != (action is ToggleTimestamps))
            &&& now.show_indices == (before.show_indices != (action is ToggleIndices))
            &&& now.indices_as_hex == (before.indices_as_hex != (action is ToggleIndicesHex))
            &&& now.hex_view == (before.hex_view != (action is ToggleHexView))
            &&& now.hex_view_header == (before.hex_view_header != (action is ToggleHexViewHeader))
            &&& now.echo_user_input == before.echo_user_input
            &&& after.edit.settings.behavior.pseudo_shell
                == (app.edit.settings.behavior.pseudo_shell != (action is TogglePseudoShell))
            &&& after.edit.settings.serial == app.edit.settings.serial
            &&& after.edit.settings.line_endings == app.edit.settings.line_endings
        }),
{
    lemma_base_done(app, action);
}

#[verifier::rlimit(40)]
proof fn lemma_base_done(app: AppView, action: BaseAction)
    ensures
        ({
            let after = app.base_done(action).edit.settings;
            let before = app.edit.settings;
            match action {
                BaseAction::ToggleTextwrap => after == before.switched(Switch::TextWrapping),
                BaseAction::ToggleTimestamps => after == before.switched(Switch::Timestamps),
                BaseAction::ToggleIndices => after == before.switched(Switch::Indices),
                BaseAction::ToggleIndicesHex => after == before.switched(Switch::IndicesHex),
                BaseAction::ToggleHexView => after == before.switched(Switch::HexView),
                BaseAction::ToggleHexViewHeader => after == before.switched(Switch::HexViewHeader),
                BaseAction::TogglePseudoShell => after.behavior.pseudo_shell
                    == !before.behavior.pseudo_shell && after == (SettingsView {
                    behavior: after.behavior,
                    ..before
                }),
                _ => after == before,
            }
        }),
{
    reveal(AppView::base_done);
    match action {
        BaseAction::ToggleTextwrap => lemma_switched(app, Switch::TextWrapping),
        BaseAction::ToggleTimestamps => lemma_switched(app, Switch::Timestamps),
        BaseAction::ToggleIndices => lemma_switched(app, Switch::Indices),
        BaseAction::ToggleIndicesHex => lemma_switched(app, Switch::IndicesHex),
        BaseAction::ToggleHexView => lemma_switched(app, Switch::HexView),
        BaseAction::ToggleHexViewHeader => lemma_switched(app, Switch::HexViewHeader),
        BaseAction::TogglePseudoShell => lemma_shell_toggled(app),
        BaseAction::TogglePseudoShellHex => {
            reveal(AppView::bytes_toggled);
            reveal(AppView::asked);
        },
        BaseAction::EscapeKeypress => {
            reveal(AppView::escape_explained);
            reveal(AppView::said);
            reveal(AppView::effected);
        },
        _ => {
            reveal(AppView::asked);
        },
    }
}

impl SettingsView {
    spec fn switched(self, switch: Switch) -> SettingsView {
        SettingsView { rendering: switch.flipped(self.rendering), ..self }
    }
}

proof fn lemma_switched(app: AppView, switch: Switch)
    ensures
        app.switched(switch).edit.settings == app.edit.settings.switched(switch),
{
    reveal(AppView::switched);
    reveal(AppView::rendered);
    reveal(AppView::said);
    reveal(AppView::effected);
    reveal(AppView::asked);
}

proof fn lemma_shell_toggled(app: AppView)
    ensures
        ({
            let after = app.shell_toggled().edit.settings;
            &&& after.behavior.pseudo_shell == !app.edit.settings.behavior.pseudo_shell
            &&& after == (SettingsView { behavior: after.behavior, ..app.edit.settings })
        }),
{
    reveal(AppView::shell_toggled);
    reveal(AppView::said);
    reveal(AppView::effected);
    reveal(AppView::asked);
}

/// What was switched is shown in that way at once, and kept; colors and bindings are loaded
/// again where that is asked for.
#[verifier::rlimit(40)]
pub proof fn law_switches_take_effect(app: AppView, action: BaseAction)
    ensures
        ({
            let after = app.base_done(action);
            let n = app.outbox.len() as int;
            &&& action is ToggleTextwrap || action is ToggleTimestamps || action is ToggleIndices
                || action is ToggleIndicesHex || action is ToggleHexView
                || action is ToggleHexViewHeader ==> {
                &&& after.outbox[n] == EffectView::Request(Request::ApplyRendering)
                &&& after.outbox[n + 1] == EffectView::Request(Request::SaveSettings)
            }
            &&& action is TogglePseudoShell ==> after.outbox[n] == EffectView::Request(
                Request::SaveSettings,
            )
            &&& action is ReloadColors ==> after.outbox == app.outbox.push(
                EffectView::Request(Request::ReloadColors),
            )
            &&& action is ReloadKeybinds ==> after.outbox == app.outbox.push(
                EffectView::Request(Request::ReloadKeybinds),
            )
        }),
{
    reveal(AppView::base_done);
    reveal(AppView::switched);
    reveal(AppView::rendered);
    reveal(AppView::shell_toggled);
    reveal(AppView::said);
    reveal(AppView::effected);
    reveal(AppView::asked);
}

/// A file with messages is taken from those used before, explored here, or picked in a
/// window of the system, as asked.
pub proof fn law_ways_to_a_file(app: AppView, action: DefmtSelectAction)
    requires
        app.kept.recent_elfs.len() > 0,
    ensures
        ({
            let after = app.select_done(action);
            &&& action is SelectRecent ==> after.ui.popup == Some(PopupView::DefmtRecentElf)
                && after.outbox == app.outbox
            &&& action is SelectTui ==> after.ui.popup == Some(PopupView::DefmtNewElf) && asks(
                app,
                after,
                Request::OpenExplorer,
            )
            &&& action is SelectSystem ==> after.ui == app.ui && asks(app, after, Request::PickElf)
        }),
{
    reveal(AppView::select_done);
    reveal(AppView::shown);
    reveal(AppView::refreshed);
    reveal(AppView::asked);
    let after = app.select_done(action);
    if !(action is SelectRecent) {
        assert(added(app, after)[0] == after.outbox[app.outbox.len() as int]);
    }
}

/// The file in the selected row is loaded.
pub proof fn law_recent_file_is_loaded(app: AppView, ctrl: bool, shift: bool, at: Moment)
    requires
        app.ui.popup == Some(PopupView::DefmtRecentElf),
        app.ui.screen.popup_menu_scroll < app.kept.recent_elfs.len(),
    ensures
        ({
            let after = app.entered(ctrl, shift, at);
            &&& after.outbox == app.outbox.push(
                EffectView::LoadElf {
                    path: app.kept.recent_elfs[app.ui.screen.popup_menu_scroll as int],
                    reload: false,
                },
            )
            &&& after.ui.popup is None
        }),
{
    reveal(AppView::entered);
    reveal(AppView::recent_entered);
    reveal(AppView::dismissed);
    reveal(AppView::refreshed);
    reveal(AppView::effected);
}

/// Enter on a macro sends the one in that row. With control or shift it is put into the box
/// for the text, and not sent.
#[verifier::rlimit(40)]
pub proof fn law_macro_in_the_row_is_sent(app: AppView, ctrl: bool, shift: bool, at: Moment)
    requires
        app.ui.popup == Some(PopupView::ToolMenu(ToolMenu::Macros)),
        app.ui.screen.popup_menu_scroll >= 3,
        app.ui.screen.popup_menu_scroll - 3 < app.kept.macros.visible().len(),
    ensures
        ({
            let row = app.ui.screen.popup_menu_scroll - 3;
            let found = app.kept.macros.all[app.kept.macros.visible()[row] as int];
            let after = app.entered(ctrl, shift, at);
            &&& !(at.status is Connected) ==> !sends(app, after) && after.kept == app.kept
            &&& at.status is Connected && !ctrl && !shift && found.content.content@.len() > 0
                ==> after == app.sent_macro(found.tag@, None)
            &&& at.status is Connected && (ctrl || shift) ==> {
                &&& after.outbox == app.outbox
                &&& found.content.content@.len() > 0 && !found.content.has_escaped_bytes
                    ==> after.kept.text_input.text == found.content.content@
                    && !after.kept.text_input.bytes_input && after.ui.popup is None
            }
            &&& at.status is Connected && found.content.content@.len() == 0 ==> !sends(app, after)
        }),
{
    reveal(AppView::entered);
    reveal(AppView::macro_entered);
    reveal(AppView::macro_taken);
    reveal(AppView::dismissed);
    reveal(AppView::refreshed);
    reveal(AppView::said);
    reveal(AppView::effected);
}

/// A connection that was made is logged and followed every second; it is not a broken one
/// any more, and the question about it is gone.
#[verifier::rlimit(40)]
pub proof fn law_connection_was_made(app: AppView, kind: Option<ReconnectType>, at: Moment)
    requires
        at.has_port,
    ensures
        ({
            let after = app.connected(kind, at);
            &&& !after.ui.screen.user_broke_connection
            &&& after.ui.popup != Some(PopupView::AttemptReconnectPrompt)
            &&& app.ui.popup != Some(PopupView::AttemptReconnectPrompt) ==> after.ui.popup
                == app.ui.popup
            &&& asks(app, after, Request::LogConnected(kind))
            &&& asks(
                app,
                after,
                Request::Repeat { timer: Timer::PerSecond, tick: Tick::PerSecond, every_ms: 1000 },
            )
            &&& after.kept == app.kept
            &&& after.edit == app.edit
        }),
{
    reveal(AppView::connected);
    reveal(AppView::reconnect_told);
    reveal(AppView::reconnect_unasked);
    reveal(AppView::said);
    reveal(AppView::effected);
    reveal(AppView::asked);
    let after = app.connected(kind, at);
    let new = added(app, after);
    assert(new[0] == EffectView::Request(
        Request::Repeat { timer: Timer::PerSecond, tick: Tick::PerSecond, every_ms: 1000 },
    ));
    let i: int = if kind is Some {
        2
    } else {
        1
    };
    assert(new[i] == EffectView::Request(Request::LogConnected(kind)));
}

/// The end of a connection is logged. One that the user broke is not sought again; any
/// other may be.
#[verifier::rlimit(40)]
pub proof fn law_connection_ended(app: AppView, reason: SerialDisconnectReason, at: Moment)
    ensures
        ({
            let after = app.disconnected(reason, at);
            &&& asks(app, after, Request::LogDisconnected)
            &&& after.kept.espflash.popup is None
            &&& reason is UserBrokeConnection ==> after.ui.screen.user_broke_connection
            &&& !(reason is UserBrokeConnection) ==> after.ui.screen.user_broke_connection
                == app.ui.screen.user_broke_connection
            &&& reason is Intentional ==> after.outbox.len() == app.outbox.len() + 1
            &&& !(reason is Intentional) ==> after.outbox.last() is Notify
            &&& app.ui.popup != Some(PopupView::DisconnectPrompt) ==> after.ui.popup
                == app.ui.popup
            &&& after.edit.settings == app.edit.settings
            &&& after.ui.screen.menu == app.ui.screen.menu
        }),
{
    reveal(AppView::disconnected);
    reveal(AppView::device_closed);
    reveal(AppView::reasked);
    reveal(AppView::loss_told);
    reveal(AppView::shown);
    reveal(AppView::refreshed);
    reveal(AppView::said);
    reveal(AppView::effected);
    reveal(AppView::asked);
    let after = app.disconnected(reason, at);
    assert(added(app, after)[0] == EffectView::Request(Request::LogDisconnected));
}

/// Every second the ports are looked for while they are on the screen; in the terminal a
/// connection that was lost is sought, if reconnections are on and the user did not break it.
#[verifier::rlimit(40)]
pub proof fn law_every_second(app: AppView, at: Moment)
    ensures
        ({
            let after = app.second_passed(at);
            let lost = !(at.status is Connected) && !(at.status is LentOut);
            let asked = app.ui.popup == Some(PopupView::AttemptReconnectPrompt) || app.ui.popup
                == Some(PopupView::DisconnectPrompt);
            &&& app.ui.screen.menu is PortSelection ==> after.outbox == app.outbox.push(
                EffectView::Request(Request::ScanPorts),
            )
            &&& app.ui.screen.menu is Terminal ==> (asks(app, after, Request::Reconnect(None))
                <==> lost && !(at.reconnections is Disabled)
                && !app.ui.screen.user_broke_connection && !asked)
            &&& !asks(app, after, Request::Disconnect)
            &&& after.kept == app.kept
            &&& after.edit == app.edit
            &&& after.ui.popup == app.ui.popup
        }),
{
    reveal(AppView::second_passed);
    reveal(AppView::connection_asked);
    reveal(AppView::flipped);
    reveal(AppView::asked);
    let after = app.second_passed(at);
    let new = added(app, after);
    if after.outbox.len() > app.outbox.len() {
        assert(new.len() == 1);
        assert(new[0] == after.outbox.last());
    } else {
        assert(new.len() == 0);
    }
}

/// The input is red, and an erasure can be confirmed, for as long as each lasts and no
/// longer.
pub proof fn law_what_lasts_for_a_while(app: AppView, now: u64)
    ensures
        ({
            let after = app.expired(now);
            &&& app.ui.screen.failed_send_at matches Some(since) ==> (
            after.ui.screen.failed_send_at is Some <==> now < since + 750)
            &&& app.kept.espflash.first_erase_press matches Some(since) ==> (
            after.kept.espflash.first_erase_press is Some <==> now < since + 1500)
            &&& after.ui.screen.failed_send_at is Some ==> after.ui.screen.failed_send_at
                == app.ui.screen.failed_send_at
            &&& after.kept.espflash.first_erase_press is Some
                ==> after.kept.espflash.first_erase_press == app.kept.espflash.first_erase_press
            &&& after.outbox == app.outbox
            &&& after.ui.popup == app.ui.popup
        }),
{
    reveal(AppView::expired);
}

/// The hint of a pop-up moves on by one, and goes on moving while the pop-up is open; the
/// faster, the higher the speed is set.
pub proof fn law_hints_move(app: AppView, speed: i16)
    requires
        app.ui.screen.popup_hint_scroll < i32::MAX,
    ensures
        app.hint_moved().ui.screen.popup_hint_scroll == app.ui.screen.popup_hint_scroll + 1,
        app.ui.popup is None ==> app.hint_moved().outbox == app.outbox,
        app.ui.popup is Some ==> {
            let request = app.hint_moved().outbox.last();
            request matches EffectView::Request(
                Request::Oneshot { timer: Timer::ScrollText, tick: Tick::Scroll, after_ms },
            ) && after_ms >= 40
        },
        speed < i16::MAX ==> crate::app::events::scroll_delay((speed + 1) as i16)
            <= crate::app::events::scroll_delay(speed),
        crate::app::events::scroll_delay(speed) >= 40,
        crate::app::events::scroll_delay(0) == 400,
{
    reveal(AppView::hint_moved);
    reveal(AppView::asked);
    lemma_delay(speed);
    lemma_delay(app.edit.settings.behavior.text_scroll_speed);
    if 0 <= speed < i16::MAX {
        vstd::arithmetic::div_mod::lemma_div_is_ordered_by_denominator(
            800,
            2 + speed as int,
            3 + speed as int,
        );
    }
}

proof fn lemma_delay(speed: i16)
    ensures
        40 <= crate::app::events::scroll_delay(speed) <= 400 + 200 * 32768,
{
    if speed >= 0 {
        vstd::arithmetic::div_mod::lemma_div_is_ordered_by_denominator(800, 2, 2 + speed as int);
    }
}

/// Bytes that come in are taken and shown, wherever the program is.
pub proof fn law_received_bytes_are_taken(app: AppView)
    ensures
        asks(app, app.received(), Request::TakeReceived),
        app.received().kept == app.kept,
        app.received().ui.popup == app.ui.popup,
{
    reveal(AppView::received);
    reveal(AppView::flipped);
    reveal(AppView::asked);
    assert(added(app, app.received())[0] == EffectView::Request(Request::TakeReceived));
}

/// The wheel scrolls what was received up or down by a row; a click pastes in the terminal
/// and nowhere else.
pub proof fn law_mouse(app: AppView, up: bool)
    ensures
        app.ui.popup != Some(PopupView::CurrentKeybinds) ==> app.wheeled(up).outbox
            == app.outbox.push(
            EffectView::Request(
                Request::ScrollBuffer(
                    if up {
                        1i32
                    } else {
                        -1i32
                    },
                ),
            ),
        ),
        app.ui.popup == Some(PopupView::CurrentKeybinds) ==> app.wheeled(up).outbox == app.outbox,
        app.clicked().outbox != app.outbox <==> app.ui.screen.menu is Terminal
            && app.ui.popup is None,
        app.clicked().outbox != app.outbox ==> app.clicked().outbox == app.outbox.push(
            EffectView::Request(Request::Paste),
        ),
{
    reveal(AppView::wheeled);
    reveal(AppView::clicked);
    reveal(AppView::asked);
    assert(app.outbox.push(EffectView::Request(Request::Paste)).len() != app.outbox.len());
}

/// A file that changed is loaded again if that is set, and otherwise not.
pub proof fn law_changed_file_is_loaded_again(app: AppView, path: Seq<char>)
    ensures
        app.edit.settings.defmt.watch_elf_for_changes ==> app.elf_updated(path).outbox
            == app.outbox.push(EffectView::LoadElf { path, reload: true }),
        !app.edit.settings.defmt.watch_elf_for_changes ==> app.elf_updated(path) == app,
{
    reveal(AppView::elf_updated);
    reveal(AppView::effected);
}

} // verus!
