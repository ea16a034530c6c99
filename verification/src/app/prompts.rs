//! What follows from the choices in the prompts.

use vstd::prelude::*;
use vstd::string::*;

use crate::app::effects::Request;
use crate::app::{
    App, AppView, IgnoredView, Menu, Moment, Popup, PopupView, Screen, SettingsMenu, Tick,
    TickOrigin, Timer, Fault, FAILED_SEND_VISUAL_TIME_MS,
};
use crate::keybinds::ShowPopupAction;
use crate::line::Color;
use crate::serial::worker::MOCK_PORT_NAME;
use crate::serial::{ReconnectionStrictness, SerialPortInfo, UsbPortInfo, UsbView};
use crate::settings::Updates;
use crate::text::str_eq;
use crate::tui::prompts::{
    AttemptReconnectPrompt, DisconnectPrompt, IgnorePortByNamePrompt, IgnoreUsbDevicePrompt,
    UpdateBeginPrompt, UpdateCheckConsentPrompt, UpdateLaunchPrompt,
};

verus! {

/// How a device is listed to be ignored: by its ids, and by its serial number if
/// that is asked.
pub open spec fn ignored_entry(usb: UsbView, with_serial: bool) -> UsbView {
    UsbView {
        vid: usb.vid,
        pid: usb.pid,
        serial_number: if with_serial {
            usb.serial_number
        } else {
            None
        },
        manufacturer: None,
        product: None,
    }
}

impl AppView {
    /// With the input red for a while.
    #[verifier::opaque]
    pub open spec fn send_failed(self, now: u64) -> AppView {
        self.with_screen(Screen { failed_send_at: Some(now), ..self.ui.screen }).asked(
            Request::Oneshot {
                timer: Timer::UnhealthyTxUi,
                tick: Tick::Requested(TickOrigin::FailedSend),
                after_ms: FAILED_SEND_VISUAL_TIME_MS,
            },
        )
    }

    /// With the line below the terminal changed.
    #[verifier::opaque]
    pub open spec fn flipped(self) -> AppView {
        self.with_screen(Screen {
                repeating_line_flip: !self.ui.screen.repeating_line_flip,
                ..self.ui.screen
            })
    }

    /// With the connection given up and ports to be selected again.
    #[verifier::opaque]
    pub open spec fn left_terminal(self) -> AppView {
        let asked = self.asked(Request::Disconnect).asked(Request::ScanPortsNow).asked(
            Request::ForgetBuffer,
        );
        let closed = asked.with_text_input(asked.kept.text_input.cleared()).dismissed();
        closed.with_screen(Screen {
                menu: Menu::PortSelection,
                port_selection_scroll: 0,
                ..closed.ui.screen
            })
    }

    /// With the reconnections paused by the user, or not.
    pub open spec fn paused(self, broke: bool) -> AppView {
        self.with_screen(Screen { user_broke_connection: broke, ..self.ui.screen })
    }

    /// After a choice about an open connection.
    #[verifier::opaque]
    pub open spec fn disconnect_chosen(self, choice: DisconnectPrompt) -> AppView {
        match choice {
            DisconnectPrompt::ExitApp => self.ended(),
            DisconnectPrompt::Cancel => self.dismissed(),
            DisconnectPrompt::OpenPortSettings => self.shown(
                PopupView::SettingsMenu(SettingsMenu::SerialPort),
            ),
            DisconnectPrompt::DisconnectFromPort => self.paused(true).shown(
                PopupView::AttemptReconnectPrompt,
            ).asked(Request::BreakConnection),
            DisconnectPrompt::BackToPortSelection => self.left_terminal(),
        }
    }

    /// After a choice about a lost connection.
    #[verifier::opaque]
    pub open spec fn reconnect_chosen(
        self,
        choice: AttemptReconnectPrompt,
        shift: bool,
        ctrl: bool,
    ) -> AppView {
        match choice {
            AttemptReconnectPrompt::ExitApp => self.ended(),
            AttemptReconnectPrompt::AttemptReconnect => if self.ui.screen.user_broke_connection {
                self.paused(false).dismissed().said(
                    "Unpausing reconnections!"@,
                    Color::LightGreen,
                )
            } else if shift || ctrl {
                self.flipped().said(
                    "Attempting to reconnect! (Loose Checks)"@,
                    Color::Yellow,
                ).asked(Request::Reconnect(Some(ReconnectionStrictness::Low)))
            } else {
                self.flipped().said(
                    "Attempting to reconnect! (Strict Checks)"@,
                    Color::Yellow,
                ).asked(Request::Reconnect(Some(ReconnectionStrictness::High)))
            },
            AttemptReconnectPrompt::Cancel => self.dismissed(),
            AttemptReconnectPrompt::OpenPortSettings => self.toggled_popup(
                ShowPopupAction::ShowPortSettings,
            ),
            AttemptReconnectPrompt::BackToPortSelection => self.left_terminal(),
        }
    }

    /// With the ports looked for again under another list of ignored devices.
    #[verifier::opaque]
    pub open spec fn ignoring(self, ignored: IgnoredView) -> AppView {
        let listed = self.with_ignored(ignored).asked(Request::SaveSettings).asked(
            Request::ApplyIgnored,
        );
        listed.with_ports(Seq::empty()).asked(Request::ScanPorts)
    }

    /// With a name ignored, unless it is that of the port that is always there.
    #[verifier::opaque]
    pub open spec fn ignoring_name(self, name: Seq<char>) -> AppView {
        if name == MOCK_PORT_NAME@ {
            self
        } else {
            self.ignoring(IgnoredView { names: self.kept.ignored.names.push(name), ..self.kept.ignored })
        }
    }

    /// With a USB device ignored.
    #[verifier::opaque]
    pub open spec fn ignoring_usb(self, usb: UsbView) -> AppView {
        self.ignoring(IgnoredView { usb: self.kept.ignored.usb.push(usb), ..self.kept.ignored })
    }

    /// After a choice about a USB device.
    #[verifier::opaque]
    pub open spec fn ignore_usb_chosen(self, choice: IgnoreUsbDevicePrompt) -> AppView {
        match self.ui.popup {
            Some(PopupView::IgnoreByUsb(name, usb)) => {
                let closed = self.with_popup(None);
                (match choice {
                    IgnoreUsbDevicePrompt::Cancel => closed,
                    IgnoreUsbDevicePrompt::IgnoreByName => closed.ignoring_name(name),
                    IgnoreUsbDevicePrompt::IgnoreByVidPid => closed.ignoring_usb(
                        ignored_entry(usb, false),
                    ),
                    IgnoreUsbDevicePrompt::IgnoreByVidPidSerial => closed.ignoring_usb(
                        ignored_entry(usb, true),
                    ),
                }).dismissed()
            },
            _ => self.asked(Request::Fail(Fault::PromptWithoutSubject)),
        }
    }

    /// After a choice about a port.
    #[verifier::opaque]
    pub open spec fn ignore_name_chosen(self, choice: IgnorePortByNamePrompt) -> AppView {
        match self.ui.popup {
            Some(PopupView::IgnoreByName(name)) => {
                let closed = self.with_popup(None);
                (match choice {
                    IgnorePortByNamePrompt::Cancel => closed,
                    IgnorePortByNamePrompt::IgnoreByName => closed.ignoring_name(name),
                }).dismissed()
            },
            _ => self.asked(Request::Fail(Fault::PromptWithoutSubject)),
        }
    }

    /// After a choice about an update.
    #[verifier::opaque]
    pub open spec fn update_begin_chosen(self, choice: UpdateBeginPrompt) -> AppView {
        match choice {
            UpdateBeginPrompt::DownloadAndInstall => self.asked(
                Request::DownloadUpdate,
            ).with_popup(Some(PopupView::UpdateDownloading)),
            UpdateBeginPrompt::OpenGithubRepo => self.asked(Request::OpenRepository),
            UpdateBeginPrompt::AskAgainLater => self.dismissed(),
            UpdateBeginPrompt::SkipVersion => match self.kept.update_found_version {
                Some(version) => self.with_updates(
                    Updates { skipped_version: version, ..self.kept.updates },
                ).with_update_found_version(None).asked(Request::SaveSettings).dismissed(),
                None => self.asked(Request::Fail(Fault::PromptWithoutSubject)),
            },
        }
    }

    /// With a decision about looking for updates.
    #[verifier::opaque]
    pub open spec fn consented(self, allow: bool) -> AppView {
        self.with_updates(Updates {
                allow_checking_for_updates: allow,
                user_dismissed_prompt: true,
                ..self.kept.updates
            }).asked(Request::SaveSettings)
    }

    /// After a choice about looking for updates.
    #[verifier::opaque]
    pub open spec fn consent_chosen(self, choice: UpdateCheckConsentPrompt) -> AppView {
        (match choice {
            UpdateCheckConsentPrompt::Yes => self.consented(true).asked(
                Request::QueryUpdate { pre_releases: self.kept.updates.allow_pre_releases },
            ),
            UpdateCheckConsentPrompt::Never => self.consented(false),
            UpdateCheckConsentPrompt::AskAgainLater => self,
        }).dismissed()
    }

    /// After a choice about an installed update.
    #[verifier::opaque]
    pub open spec fn launch_chosen(self, choice: UpdateLaunchPrompt) -> AppView {
        match choice {
            UpdateLaunchPrompt::OpenInNewWindow => self.asked(Request::StartNewVersion),
            UpdateLaunchPrompt::Close => self.ended(),
        }
    }

    /// Whether the user is asked to reconnect rather than to disconnect: they broke
    /// the connection, or it is lost and will not come back on its own.
    pub open spec fn reconnect_instead(self, at: Moment) -> bool {
        self.ui.screen.user_broke_connection || (!(at.status is Connected) && !(at.status is LentOut)
            && at.reconnections is Disabled)
    }

    /// After the escape key.
    #[verifier::opaque]
    pub open spec fn escaped(self, at: Moment) -> AppView {
        if self.ui.popup is Some {
            self.dismissed()
        } else {
            match self.ui.screen.menu {
                Menu::Terminal => if self.reconnect_instead(at) {
                    self.shown(PopupView::AttemptReconnectPrompt)
                } else {
                    self.shown(PopupView::DisconnectPrompt)
                },
                Menu::PortSelection => self.ended(),
            }
        }
    }

    /// With what has to be asked at first.
    #[verifier::opaque]
    pub open spec fn set_up(self) -> AppView {
        if self.kept.updates.user_dismissed_prompt {
            self
        } else {
            self.shown(PopupView::UpdateCheckConsentPrompt)
        }
    }
}

fn ignored_usb(usb: UsbPortInfo, with_serial: bool) -> (r: UsbPortInfo)
    ensures
        r@ == ignored_entry(usb@, with_serial),
{
    UsbPortInfo {
        vid: usb.vid,
        pid: usb.pid,
        serial_number: if with_serial {
            usb.serial_number
        } else {
            None
        },
        manufacturer: None,
        product: None,
    }
}

impl App {
    /// Shows that sending failed.
    pub fn trigger_send_failed_visual(&mut self, now: u64)
        ensures
            final(self)@ == old(self)@.send_failed(now),
            old(self)@.wf() ==> final(self)@.wf(),
    {
        proof {
            reveal(AppView::send_failed);
        }
        self.screen.failed_send_at = Some(now);
        self.ask(
            Request::Oneshot {
                timer: Timer::UnhealthyTxUi,
                tick: Tick::Requested(TickOrigin::FailedSend),
                after_ms: FAILED_SEND_VISUAL_TIME_MS,
            },
        );
    }

    pub(crate) fn flip_line(&mut self)
        ensures
            final(self)@ == old(self)@.flipped(),
            old(self)@.wf() ==> final(self)@.wf(),
    {
        proof {
            reveal(AppView::flipped);
        }
        self.screen.repeating_line_flip = !self.screen.repeating_line_flip;
    }

    pub(crate) fn clear_text(&mut self)
        ensures
            final(self)@ == old(self)@.with_text_input(old(self)@.kept.text_input.cleared()),
            old(self)@.wf() ==> final(self)@.wf(),
    {
        proof {
            reveal(crate::app::valid);
        }
        self.text_input.clear();
    }

    /// Gives up the connection and goes back to the selection of ports. The history
    /// of inputs stays.
    pub fn return_to_port_selection(&mut self)
        ensures
            final(self)@ == old(self)@.left_terminal(),
            old(self)@.wf() ==> final(self)@.wf(),
    {
        proof {
            reveal(AppView::left_terminal);
        }
        self.ask(Request::Disconnect);
        self.ask(Request::ScanPortsNow);
        self.ask(Request::ForgetBuffer);
        self.clear_text();
        self.dismiss_popup();
        self.screen.menu = Menu::PortSelection;
        self.screen.port_selection_scroll = 0;
    }

    /// Takes over the ports that were found.
    pub fn set_ports(&mut self, ports: Vec<SerialPortInfo>)
        ensures
            final(self)@ == (old(self)@.with_ports(crate::serial::port_views(ports@))),
            old(self)@.wf() ==> final(self)@.wf(),
    {
        self.ports = ports;
    }

    /// Acts on a choice about an open connection.
    pub fn disconnect_prompt_choice(&mut self, choice: DisconnectPrompt)
        ensures
            final(self)@ == old(self)@.disconnect_chosen(choice),
            old(self)@.wf() ==> final(self)@.wf(),
    {
        proof {
            reveal(AppView::disconnect_chosen);
        }
        match choice {
            DisconnectPrompt::ExitApp => self.shutdown(),
            DisconnectPrompt::Cancel => self.dismiss_popup(),
            DisconnectPrompt::OpenPortSettings => self.show_popup(
                Popup::SettingsMenu(SettingsMenu::SerialPort),
            ),
            DisconnectPrompt::DisconnectFromPort => {
                self.screen.user_broke_connection = true;
                self.show_popup(Popup::AttemptReconnectPrompt);
                self.ask(Request::BreakConnection);
            },
            DisconnectPrompt::BackToPortSelection => self.return_to_port_selection(),
        }
    }

    fn attempt_reconnect(&mut self, loose: bool)
        ensures
            final(self)@ == (if old(self)@.ui.screen.user_broke_connection {
                old(self)@.paused(false).dismissed().said(
                    "Unpausing reconnections!"@,
                    Color::LightGreen,
                )
            } else if loose {
                old(self)@.flipped().said(
                    "Attempting to reconnect! (Loose Checks)"@,
                    Color::Yellow,
                ).asked(Request::Reconnect(Some(ReconnectionStrictness::Low)))
            } else {
                old(self)@.flipped().said(
                    "Attempting to reconnect! (Strict Checks)"@,
                    Color::Yellow,
                ).asked(Request::Reconnect(Some(ReconnectionStrictness::High)))
            }),
            old(self)@.wf() ==> final(self)@.wf(),
    {
        if self.screen.user_broke_connection {
            self.screen.user_broke_connection = false;
            self.dismiss_popup();
            self.say("Unpausing reconnections!".to_owned(), Color::LightGreen);
        } else if loose {
            self.flip_line();
            self.say("Attempting to reconnect! (Loose Checks)".to_owned(), Color::Yellow);
            self.ask(Request::Reconnect(Some(ReconnectionStrictness::Low)));
        } else {
            self.flip_line();
            self.say("Attempting to reconnect! (Strict Checks)".to_owned(), Color::Yellow);
            self.ask(Request::Reconnect(Some(ReconnectionStrictness::High)));
        }
    }

    /// Acts on a choice about a lost connection. With shift or control, a similar
    /// device will do.
    pub fn reconnect_prompt_choice(
        &mut self,
        choice: AttemptReconnectPrompt,
        shift_pressed: bool,
        ctrl_pressed: bool,
    )
        ensures
            final(self)@ == old(self)@.reconnect_chosen(choice, shift_pressed, ctrl_pressed),
            old(self)@.wf() ==> final(self)@.wf(),
    {
        proof {
            reveal(AppView::reconnect_chosen);
        }
        match choice {
            AttemptReconnectPrompt::ExitApp => self.shutdown(),
            AttemptReconnectPrompt::AttemptReconnect => self.attempt_reconnect(
                shift_pressed || ctrl_pressed,
            ),
            AttemptReconnectPrompt::Cancel => self.dismiss_popup(),
            AttemptReconnectPrompt::OpenPortSettings => self.show_popup_from_action(
                ShowPopupAction::ShowPortSettings,
            ),
            AttemptReconnectPrompt::BackToPortSelection => self.return_to_port_selection(),
        }
    }

    fn scan_again(&mut self)
        ensures
            final(self)@ == old(self)@.ignoring(old(self)@.kept.ignored),
            old(self)@.wf() ==> final(self)@.wf(),
    {
        proof {
            reveal(AppView::ignoring);
        }
        self.ask(Request::SaveSettings);
        self.ask(Request::ApplyIgnored);
        self.ports.clear();
        assert(crate::serial::port_views(self.ports@) =~= Seq::empty());
        self.ask(Request::ScanPorts);
    }

    /// Ignores a port by its name from now on.
    pub fn add_ignored_name(&mut self, name: String)
        ensures
            final(self)@ == old(self)@.ignoring_name(name@),
            old(self)@.wf() ==> final(self)@.wf(),
    {
        proof {
            reveal(AppView::ignoring);
            reveal(AppView::ignoring_name);
        }
        if str_eq(name.as_str(), MOCK_PORT_NAME) {
            return;
        }
        let ghost before = self.ignored_devices.name@;
        self.ignored_devices.name.push(name);
        assert(crate::text::texts(self.ignored_devices.name@) =~= crate::text::texts(before).push(
            name@,
        ));
        self.scan_again();
    }

    /// Ignores a USB device from now on.
    pub fn add_ignored_usb(&mut self, usb: UsbPortInfo)
        ensures
            final(self)@ == old(self)@.ignoring_usb(usb@),
            old(self)@.wf() ==> final(self)@.wf(),
    {
        proof {
            reveal(AppView::ignoring);
            reveal(AppView::ignoring_usb);
        }
        let ghost before = self.ignored_devices.usb@;
        self.ignored_devices.usb.push(usb);
        assert(crate::app::usb_views(self.ignored_devices.usb@) =~= crate::app::usb_views(
            before,
        ).push(usb@));
        self.scan_again();
    }

    fn take_popup(&mut self) -> (r: Option<Popup>)
        ensures
            r == old(self).popup,
            final(self)@ == old(self)@.with_popup(None),
            old(self)@.wf() ==> final(self)@.wf(),
    {
        let mut taken: Option<Popup> = None;
        std::mem::swap(&mut taken, &mut self.popup);
        taken
    }

    /// Acts on a choice about a USB device.
    pub fn ignore_usb_device_prompt_choice(&mut self, choice: IgnoreUsbDevicePrompt)
        ensures
            final(self)@ == old(self)@.ignore_usb_chosen(choice),
            old(self)@.wf() ==> final(self)@.wf(),
    {
        proof {
            reveal(AppView::ignore_usb_chosen);
        }
        let asked = match &self.popup {
            Some(Popup::IgnoreByUsb(_, _)) => true,
            _ => false,
        };
        if !asked {
            self.ask(Request::Fail(Fault::PromptWithoutSubject));
            return;
        }
        match self.take_popup() {
            Some(Popup::IgnoreByUsb(name, usb)) => {
                match choice {
                    IgnoreUsbDevicePrompt::Cancel => {},
                    IgnoreUsbDevicePrompt::IgnoreByName => self.add_ignored_name(name),
                    IgnoreUsbDevicePrompt::IgnoreByVidPid => self.add_ignored_usb(
                        ignored_usb(usb, false),
                    ),
                    IgnoreUsbDevicePrompt::IgnoreByVidPidSerial => self.add_ignored_usb(
                        ignored_usb(usb, true),
                    ),
                }
            },
            _ => {},
        }
        self.dismiss_popup();
    }

    /// Acts on a choice about a port.
    pub fn ignore_port_name_prompt_choice(&mut self, choice: IgnorePortByNamePrompt)
        ensures
            final(self)@ == old(self)@.ignore_name_chosen(choice),
            old(self)@.wf() ==> final(self)@.wf(),
    {
        proof {
            reveal(AppView::ignore_name_chosen);
        }
        let asked = match &self.popup {
            Some(Popup::IgnoreByName(_)) => true,
            _ => false,
        };
        if !asked {
            self.ask(Request::Fail(Fault::PromptWithoutSubject));
            return;
        }
        match self.take_popup() {
            Some(Popup::IgnoreByName(name)) => {
                match choice {
                    IgnorePortByNamePrompt::Cancel => {},
                    IgnorePortByNamePrompt::IgnoreByName => self.add_ignored_name(name),
                }
            },
            _ => {},
        }
        self.dismiss_popup();
    }

    fn skip_version(&mut self, version: String)
        ensures
            final(self)@ == old(self)@.with_updates(
                Updates { skipped_version: version, ..old(self)@.kept.updates },
            ).with_update_found_version(None),
            old(self)@.wf() ==> final(self)@.wf(),
    {
        self.updates.skipped_version = version;
        self.update_found_version = None;
    }

    fn skip_found_version(&mut self)
        ensures
            final(self)@ == old(self)@.update_begin_chosen(UpdateBeginPrompt::SkipVersion),
            old(self)@.wf() ==> final(self)@.wf(),
    {
        proof {
            reveal(AppView::update_begin_chosen);
        }
        let found = match &self.update_found_version {
            Some(version) => Some(version.clone()),
            None => None,
        };
        match found {
            Some(version) => {
                self.skip_version(version);
                self.ask(Request::SaveSettings);
                self.dismiss_popup();
            },
            None => {
                self.ask(Request::Fail(Fault::PromptWithoutSubject));
            },
        }
    }

    /// Acts on a choice about an update.
    pub fn update_begin_choice(&mut self, choice: UpdateBeginPrompt)
        ensures
            final(self)@ == old(self)@.update_begin_chosen(choice),
            old(self)@.wf() ==> final(self)@.wf(),
    {
        proof {
            reveal(AppView::update_begin_chosen);
        }
        match choice {
            UpdateBeginPrompt::DownloadAndInstall => {
                self.ask(Request::DownloadUpdate);
                self.popup = Some(Popup::UpdateDownloading);
            },
            UpdateBeginPrompt::OpenGithubRepo => self.ask(Request::OpenRepository),
            UpdateBeginPrompt::AskAgainLater => self.dismiss_popup(),
            UpdateBeginPrompt::SkipVersion => self.skip_found_version(),
        }
    }

    fn consent(&mut self, allow: bool)
        ensures
            final(self)@ == old(self)@.consented(allow),
            old(self)@.wf() ==> final(self)@.wf(),
    {
        proof {
            reveal(AppView::consented);
        }
        self.updates.allow_checking_for_updates = allow;
        self.updates.user_dismissed_prompt = true;
        self.ask(Request::SaveSettings);
    }

    /// Acts on a choice about looking for updates.
    pub fn update_check_consent_choice(&mut self, choice: UpdateCheckConsentPrompt)
        ensures
            final(self)@ == old(self)@.consent_chosen(choice),
            old(self)@.wf() ==> final(self)@.wf(),
    {
        proof {
            reveal(AppView::consent_chosen);
        }
        match choice {
            UpdateCheckConsentPrompt::Yes => {
                let pre_releases = self.updates.allow_pre_releases;
                self.consent(true);
                self.ask(Request::QueryUpdate { pre_releases });
            },
            UpdateCheckConsentPrompt::Never => self.consent(false),
            UpdateCheckConsentPrompt::AskAgainLater => {},
        }
        self.dismiss_popup();
    }

    /// Acts on a choice about an installed update.
    pub fn update_launch_choice(&mut self, choice: UpdateLaunchPrompt)
        ensures
            final(self)@ == old(self)@.launch_chosen(choice),
            old(self)@.wf() ==> final(self)@.wf(),
    {
        proof {
            reveal(AppView::launch_chosen);
        }
        match choice {
            UpdateLaunchPrompt::OpenInNewWindow => self.ask(Request::StartNewVersion),
            UpdateLaunchPrompt::Close => self.shutdown(),
        }
    }

    /// Whether the user is asked to reconnect rather than to disconnect.
    pub fn reconnect_prompt_instead(&self, at: Moment) -> (r: bool)
        ensures
            r == self@.reconnect_instead(at),
    {
        self.screen.user_broke_connection || (!at.status.is_connected() && !at.status.is_lent_out()
            && !at.reconnections.allowed())
    }

    /// Acts on the escape key.
    pub fn esc_pressed(&mut self, at: Moment)
        ensures
            final(self)@ == old(self)@.escaped(at),
            old(self)@.wf() ==> final(self)@.wf(),
    {
        proof {
            reveal(AppView::escaped);
        }
        if self.popup.is_some() {
            self.dismiss_popup();
            return;
        }
        if self.screen.menu == Menu::PortSelection {
            self.shutdown();
        } else if self.reconnect_prompt_instead(at) {
            self.show_popup(Popup::AttemptReconnectPrompt);
        } else {
            self.show_popup(Popup::DisconnectPrompt);
        }
    }

    /// Asks what has to be asked at first.
    pub fn first_time_setup(&mut self)
        ensures
            final(self)@ == old(self)@.set_up(),
            old(self)@.wf() ==> final(self)@.wf(),
    {
        proof {
            reveal(AppView::set_up);
        }
        if !self.updates.user_dismissed_prompt {
            self.show_popup(Popup::UpdateCheckConsentPrompt);
        }
    }
}

} // verus!
