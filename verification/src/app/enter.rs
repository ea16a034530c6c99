//! What the enter key does.

use vstd::prelude::*;
use vstd::string::*;
use vstd::utf8::*;

use crate::app::effects::{Effect, EffectView, Request};
use crate::app::{
    App, AppView, Fault, Menu, Moment, Popup, PopupView, Screen, SettingsMenu, Tick, TickOrigin,
    Timer, ToolMenu, COMMON_BAUD, CUSTOM_BAUD,
};
use crate::foreign::hex_decode;
use crate::input_box::input_value;
use crate::keybinds::{DefmtSelectAction, EspBuiltinAction, ShowPopupAction};
use crate::line::Color;
use crate::parse::{parse_decimal, NumberError};
use crate::serial::handle::{payload, text_payload};
use crate::settings::{PortSettings, SettingsView};
use crate::text::{byte_len, concat3};
use crate::tui::esp::{EspFlashHelper, ERASE_FLASH_CONFIRM_PERIOD_MS, ESPFLASH_BUTTON_COUNT};
use crate::tui::prompts::{
    AttemptReconnectPrompt, DisconnectPrompt, IgnorePortByNamePrompt, IgnoreUsbDevicePrompt,
    PromptTable, UpdateBeginPrompt, UpdateCheckConsentPrompt, UpdateLaunchPrompt,
};
use crate::tui::POPUP_MENU_SELECTOR_COUNT;

verus! {

/// The choice in a row of a prompt.
pub open spec fn choice_at<P: PromptTable>(row: usize) -> Option<P> {
    if row < P::choices().len() {
        Some(P::choices()[row as int])
    } else {
        None
    }
}

/// A choice in one of the prompts.
#[derive(Clone, Copy, Debug, PartialEq, Eq, Structural)]
pub enum Choice {
    Reconnect(AttemptReconnectPrompt),
    Disconnect(DisconnectPrompt),
    IgnoreUsb(IgnoreUsbDevicePrompt),
    IgnoreName(IgnorePortByNamePrompt),
    Consent(UpdateCheckConsentPrompt),
    UpdateBegin(UpdateBeginPrompt),
    UpdateLaunch(UpdateLaunchPrompt),
    /// There is no such choice.
    Lost,
    /// No prompt is open.
    NoPrompt,
}

/// The choice in a row of the prompt that is open.
pub open spec fn row_choice(popup: Option<PopupView>, row: usize) -> Choice {
    match popup {
        Some(PopupView::AttemptReconnectPrompt) => match choice_at::<AttemptReconnectPrompt>(row) {
            Some(choice) => Choice::Reconnect(choice),
            None => Choice::Lost,
        },
        Some(PopupView::DisconnectPrompt) => match choice_at::<DisconnectPrompt>(row) {
            Some(choice) => Choice::Disconnect(choice),
            None => Choice::Lost,
        },
        Some(PopupView::IgnoreByUsb(_, _)) => match choice_at::<IgnoreUsbDevicePrompt>(row) {
            Some(choice) => Choice::IgnoreUsb(choice),
            None => Choice::Lost,
        },
        Some(PopupView::IgnoreByName(_)) => match choice_at::<IgnorePortByNamePrompt>(row) {
            Some(choice) => Choice::IgnoreName(choice),
            None => Choice::Lost,
        },
        Some(PopupView::UpdateCheckConsentPrompt) => match choice_at::<UpdateCheckConsentPrompt>(row) {
            Some(choice) => Choice::Consent(choice),
            None => Choice::Lost,
        },
        Some(PopupView::UpdateBeginPrompt) => match choice_at::<UpdateBeginPrompt>(row) {
            Some(choice) => Choice::UpdateBegin(choice),
            None => Choice::Lost,
        },
        Some(PopupView::UpdateLaunchPrompt) => match choice_at::<UpdateLaunchPrompt>(row) {
            Some(choice) => Choice::UpdateLaunch(choice),
            None => Choice::Lost,
        },
        _ => Choice::NoPrompt,
    }
}

fn choice_in_row(popup: &Option<Popup>, row: usize) -> (r: Choice)
    ensures
        r == row_choice(
            match popup {
                Some(p) => Some(p@),
                None => None,
            },
            row,
        ),
{
    match popup {
        Some(Popup::AttemptReconnectPrompt) => match AttemptReconnectPrompt::at(row) {
            Some(choice) => Choice::Reconnect(choice),
            None => Choice::Lost,
        },
        Some(Popup::DisconnectPrompt) => match DisconnectPrompt::at(row) {
            Some(choice) => Choice::Disconnect(choice),
            None => Choice::Lost,
        },
        Some(Popup::IgnoreByUsb(_, _)) => match IgnoreUsbDevicePrompt::at(row) {
            Some(choice) => Choice::IgnoreUsb(choice),
            None => Choice::Lost,
        },
        Some(Popup::IgnoreByName(_)) => match IgnorePortByNamePrompt::at(row) {
            Some(choice) => Choice::IgnoreName(choice),
            None => Choice::Lost,
        },
        Some(Popup::UpdateCheckConsentPrompt) => match UpdateCheckConsentPrompt::at(row) {
            Some(choice) => Choice::Consent(choice),
            None => Choice::Lost,
        },
        Some(Popup::UpdateBeginPrompt) => match UpdateBeginPrompt::at(row) {
            Some(choice) => Choice::UpdateBegin(choice),
            None => Choice::Lost,
        },
        Some(Popup::UpdateLaunchPrompt) => match UpdateLaunchPrompt::at(row) {
            Some(choice) => Choice::UpdateLaunch(choice),
            None => Choice::Lost,
        },
        _ => Choice::NoPrompt,
    }
}

impl AppView {
    /// The baud rate in the box for it.
    pub open spec fn typed_baud(self) -> Result<u32, NumberError> {
        match crate::parse::decimal(self.edit.baud_text, u32::MAX as int) {
            Ok(n) => Ok(n as u32),
            Err(e) => Err(e),
        }
    }

    /// With a complaint about the baud rate in the box for it.
    #[verifier::opaque]
    pub open spec fn baud_refused(self, error: NumberError) -> AppView {
        self.said("Invalid Baud Rate: "@ + error.words() + "!"@, Color::Red)
    }

    /// With the settings of the port saved.
    #[verifier::opaque]
    pub open spec fn serial_saved(self) -> AppView {
        match self.typed_baud() {
            Err(e) => self.baud_refused(e),
            Ok(baud_rate) => {
                let serial = PortSettings { baud_rate, ..self.edit.scratch.serial };
                self.with_settings(
                    SettingsView {
                        serial,
                        line_endings: self.edit.scratch.line_endings,
                        ..self.edit.settings
                    },
                ).with_scratch(SettingsView { serial, ..self.edit.scratch }).asked(
                    Request::ApplyLineEnding,
                ).asked(Request::ApplyPortSettings).asked(Request::SaveSettings).said(
                    "Port settings saved!"@,
                    Color::Green,
                ).dismissed()
            },
        }
    }

    /// With the settings of the program's behavior saved.
    #[verifier::opaque]
    pub open spec fn behavior_saved(self) -> AppView {
        self.with_settings(
            SettingsView { behavior: self.edit.scratch.behavior, ..self.edit.settings },
        ).asked(Request::SaveSettings).dismissed().said("Behavior settings saved!"@, Color::Green)
    }

    /// With the settings for what is shown saved.
    #[verifier::opaque]
    pub open spec fn rendering_saved(self) -> AppView {
        self.rendered(self.edit.scratch.rendering).dismissed().said(
            "Rendering settings saved!"@,
            Color::Green,
        )
    }

    /// With the settings of the log saved.
    #[verifier::opaque]
    pub open spec fn logging_saved(self) -> AppView {
        self.with_settings(
            SettingsView { logging: self.edit.scratch.logging, ..self.edit.settings },
        ).asked(Request::ApplyLogging).asked(Request::SaveSettings).dismissed().said(
            "Logging settings saved!"@,
            Color::Green,
        )
    }

    /// With the settings for `defmt` messages saved.
    #[verifier::opaque]
    pub open spec fn defmt_saved(self) -> AppView {
        self.with_settings(
            SettingsView { defmt: self.edit.scratch.defmt, ..self.edit.settings },
        ).asked(Request::ApplyDefmt).asked(Request::SaveSettings).dismissed().said(
            "defmt settings saved!"@,
            Color::Green,
        )
    }

    /// After enter in the table of a settings menu: a button acts, all else saves.
    #[verifier::opaque]
    pub open spec fn settings_entered(self, menu: SettingsMenu, alt: bool, at: Moment) -> AppView {
        let entry = self.ui.screen.popup_menu_scroll - POPUP_MENU_SELECTOR_COUNT;
        match menu {
            SettingsMenu::SerialPort => self.serial_saved(),
            SettingsMenu::Behavior => self.behavior_saved(),
            SettingsMenu::Rendering => self.rendering_saved(),
            SettingsMenu::Logging => if entry == self.kept.layout.logging_rows {
                self.sync_done(at)
            } else {
                self.logging_saved()
            },
            SettingsMenu::Defmt => if entry == 0 {
                self.select_done(
                    if alt {
                        DefmtSelectAction::SelectSystem
                    } else {
                        DefmtSelectAction::SelectTui
                    },
                )
            } else if entry == 1 {
                self.shown(PopupView::DefmtRecentElf)
            } else {
                self.defmt_saved()
            },
        }
    }

    /// With the content of a macro in the box for the text, rather than sent.
    #[verifier::opaque]
    pub open spec fn macro_taken(self, index: int) -> AppView {
        let content = self.kept.macros.all[index].content;
        if content.content@.len() == 0 {
            self
        } else if content.has_escaped_bytes {
            self.with_text_input(
                self.kept.text_input.replaced_with_bytes(
                    crate::foreign::unescaped(content.content@),
                ),
            ).dismissed()
        } else {
            self.with_text_input(
                self.kept.text_input.replaced_with_text(content.content@),
            ).dismissed()
        }
    }

    /// After enter among the macros: the selected one is sent, or taken over into the
    /// box for the text.
    #[verifier::opaque]
    pub open spec fn macro_entered(self, alt: bool, at: Moment) -> AppView {
        let shown = self.kept.macros.visible();
        let row = self.ui.screen.popup_menu_scroll - POPUP_MENU_SELECTOR_COUNT - 1;
        if row < 0 {
            self
        } else if row >= shown.len() {
            self.asked(Request::Fail(Fault::NothingSelected))
        } else if !(at.status is Connected) {
            self.said("Port isn't ready!"@, Color::Red)
        } else if alt {
            self.macro_taken(shown[row] as int)
        } else if self.kept.macros.all[shown[row] as int].content.content@.len() == 0 {
            self.said("Macro is empty!"@, Color::Yellow)
        } else {
            self.sent_macro(self.kept.macros.all[shown[row] as int].tag@, None)
        }
    }

    /// With the time of the first request to erase the flash.
    pub open spec fn erase_pressed(self, first: Option<u64>) -> AppView {
        self.with_espflash(
            EspFlashHelper { first_erase_press: first, ..self.kept.espflash },
        )
    }

    /// Whether a request to erase the flash is carried out.
    pub open spec fn erases(self, alt: bool, now: u64) -> bool {
        ||| alt
        ||| self.kept.skip_erase_confirm
        ||| self.kept.espflash.first_erase_press matches Some(first) && now - first
            <= ERASE_FLASH_CONFIRM_PERIOD_MS
    }

    /// After a request to erase the flash: it has to be confirmed.
    #[verifier::opaque]
    pub open spec fn erase_entered(self, alt: bool, now: u64) -> AppView {
        let timed = self.asked(
            Request::Oneshot {
                timer: Timer::UnreadyEraseFlash,
                tick: Tick::Requested(TickOrigin::EraseFlash),
                after_ms: ERASE_FLASH_CONFIRM_PERIOD_MS,
            },
        );
        if self.erases(alt, now) {
            timed.esp_done(EspBuiltinAction::EspEraseFlash).erase_pressed(None)
        } else {
            timed.said("Press again to confirm erasing flash!"@, Color::Yellow).erase_pressed(
                Some(now),
            )
        }
    }

    /// After enter among what can be done with a device.
    #[verifier::opaque]
    pub open spec fn esp_entered(self, alt: bool, at: Moment) -> AppView {
        let entry = self.ui.screen.popup_menu_scroll - POPUP_MENU_SELECTOR_COUNT;
        if !(at.status is Connected) {
            self.said("Port isn't ready!"@, Color::Red)
        } else if entry >= ESPFLASH_BUTTON_COUNT {
            let profile = entry - ESPFLASH_BUTTON_COUNT;
            if profile < self.kept.espflash.count() {
                self.flashed(profile)
            } else {
                self.asked(Request::Fail(Fault::ProfileMissing))
            }
        } else if entry == 0 {
            self.esp_done(EspBuiltinAction::EspHardReset)
        } else if entry == 1 {
            if self.kept.espflash.unchecked_bootloader || alt {
                self.esp_done(EspBuiltinAction::EspBootloaderUnchecked)
            } else {
                self.esp_done(EspBuiltinAction::EspBootloader)
            }
        } else if entry == 2 {
            self.esp_done(EspBuiltinAction::EspDeviceInfo)
        } else {
            self.erase_entered(alt, at.now)
        }
    }

    /// With the selected one of the files used before loaded.
    #[verifier::opaque]
    pub open spec fn recent_entered(self) -> AppView {
        let row = self.ui.screen.popup_menu_scroll as int;
        if self.kept.recent_elfs.len() == 0 {
            self.dismissed()
        } else if row < self.kept.recent_elfs.len() {
            self.effected(
                EffectView::LoadElf { path: self.kept.recent_elfs[row], reload: false },
            ).dismissed()
        } else {
            self.asked(Request::Fail(Fault::NothingSelected))
        }
    }

    /// After a choice in a prompt.
    #[verifier::opaque]
    pub open spec fn chosen(self, choice: Choice, ctrl: bool, shift: bool) -> AppView {
        match choice {
            Choice::Reconnect(choice) => self.reconnect_chosen(choice, shift, ctrl),
            Choice::Disconnect(choice) => self.disconnect_chosen(choice),
            Choice::IgnoreUsb(choice) => self.ignore_usb_chosen(choice),
            Choice::IgnoreName(choice) => self.ignore_name_chosen(choice),
            Choice::Consent(choice) => self.consent_chosen(choice),
            Choice::UpdateBegin(choice) => self.update_begin_chosen(choice),
            Choice::UpdateLaunch(choice) => self.launch_chosen(choice),
            Choice::Lost => self.asked(Request::Fail(Fault::NothingSelected)),
            Choice::NoPrompt => self,
        }
    }

    /// The baud rate that is selected.
    pub open spec fn selected_baud(self) -> Result<u32, NumberError> {
        if self.ui.screen.baud_index == CUSTOM_BAUD {
            self.typed_baud()
        } else {
            Ok(COMMON_BAUD[self.ui.screen.baud_index as int])
        }
    }

    /// After enter where ports are selected.
    #[verifier::opaque]
    pub open spec fn port_entered(self) -> AppView {
        let at = self.ui.screen.port_selection_scroll;
        if at < self.kept.ports.len() {
            match self.selected_baud() {
                Err(e) => self.baud_refused(e),
                Ok(baud_rate) => self.with_settings(
                    SettingsView {
                        serial: PortSettings { baud_rate, ..self.edit.settings.serial },
                        ..self.edit.settings
                    },
                ).asked(Request::SaveSettings).asked(
                    Request::Connect { port: at, baud: baud_rate },
                ),
            }
        } else if at == self.port_items() - 1 {
            self.toggled_popup(ShowPopupAction::ShowPortSettings)
        } else {
            self
        }
    }

    /// The line ending that is sent with what is typed.
    pub open spec fn typed_ending(self) -> Seq<u8> {
        if self.edit.settings.line_endings.tx is InheritRx {
            crate::settings::line_ending::own_bytes(self.edit.settings.line_endings.rx)
        } else {
            crate::settings::line_ending::own_bytes(self.edit.settings.line_endings.tx)
        }
    }

    /// With what was typed remembered, and the newest of what was received in sight.
    #[verifier::opaque]
    pub open spec fn input_done(self) -> AppView {
        self.with_text_input(self.kept.text_input.committed()).asked(
            Request::ScrollBuffer(i32::MIN),
        )
    }

    /// With bytes sent and shown.
    #[verifier::opaque]
    pub open spec fn bytes_sent(self, bytes: Seq<u8>) -> AppView {
        let with_ending = self.edit.settings.behavior.send_line_ending_with_bytes;
        let ending = if with_ending {
            self.typed_ending()
        } else {
            Seq::empty()
        };
        if with_ending || bytes.len() > 0 {
            self.effected(EffectView::Send(bytes + ending)).effected(
                EffectView::EchoBytes { bytes, ending, sensitive: None },
            ).flipped()
        } else {
            self
        }
    }

    /// With a text sent and shown.
    #[verifier::opaque]
    pub open spec fn text_sent(self, text: Seq<char>) -> AppView {
        let ending = self.typed_ending();
        if text.len() > 0 || ending.len() > 0 {
            self.effected(
                EffectView::Send(
                    crate::serial::handle::text_bytes(
                        text,
                        self.edit.settings.behavior.unescape_typed_bytes,
                    ) + ending,
                ),
            ).effected(EffectView::EchoText { text, ending, sensitive: None }).flipped()
        } else {
            self
        }
    }

    /// With what was typed sent.
    #[verifier::opaque]
    pub open spec fn input_sent(self, now: u64) -> AppView {
        let text = self.kept.text_input.text;
        if !self.kept.text_input.bytes_input {
            self.text_sent(text).input_done()
        } else if encode_utf8(text).len() % 2 != 0 {
            self.send_failed(now)
        } else if crate::foreign::is_hex(encode_utf8(text)) {
            self.bytes_sent(crate::foreign::hex_decoded(encode_utf8(text))).input_done()
        } else {
            self.said(
                "Byte parse error! `"@ + crate::foreign::decode_complaint(text) + "`"@,
                Color::Red,
            )
        }
    }

    /// After enter on a main screen.
    #[verifier::opaque]
    pub open spec fn screen_entered(self, at: Moment) -> AppView {
        match self.ui.screen.menu {
            Menu::PortSelection => self.port_entered(),
            Menu::Terminal => if !(at.status is Connected) {
                self.send_failed(at.now)
            } else if self.edit.settings.behavior.pseudo_shell {
                self.input_sent(at.now)
            } else {
                self
            },
        }
    }

    /// After the enter key.
    #[verifier::opaque]
    pub open spec fn entered(self, ctrl: bool, shift: bool, at: Moment) -> AppView {
        let in_table = self.ui.screen.popup_menu_scroll >= POPUP_MENU_SELECTOR_COUNT;
        match self.ui.popup {
            None => self.screen_entered(at),
            Some(PopupView::SettingsMenu(menu)) => if in_table {
                self.settings_entered(menu, ctrl || shift, at)
            } else {
                self
            },
            Some(PopupView::ToolMenu(ToolMenu::Macros)) => if in_table {
                self.macro_entered(ctrl || shift, at)
            } else {
                self
            },
            Some(PopupView::ToolMenu(ToolMenu::EspFlash)) => if in_table {
                self.esp_entered(ctrl || shift, at)
            } else {
                self
            },
            Some(PopupView::CurrentKeybinds) => self.dismissed(),
            Some(PopupView::SerialConnectionFailed(_)) => self.dismissed(),
            Some(PopupView::DefmtNewElf) => self,
            Some(PopupView::DefmtRecentElf) => self.recent_entered(),
            Some(PopupView::UpdateDownloading) => self,
            _ => self.chosen(row_choice(self.ui.popup, self.ui.screen.popup_menu_scroll), ctrl, shift),
        }
    }
}

/// Where enter is to be acted on.
enum Target {
    Screen,
    Settings(SettingsMenu),
    Macros,
    EspFlash,
    Close,
    Recent,
    Prompt,
    Nothing,
}

impl App {
    fn parse_baud(&self) -> (r: Result<u32, NumberError>)
        ensures
            r == self@.typed_baud(),
    {
        match parse_decimal(input_value(&self.baud_input), u32::MAX as u64) {
            Ok(n) => Ok(n as u32),
            Err(e) => Err(e),
        }
    }

    fn refuse_baud(&mut self, error: NumberError)
        ensures
            final(self)@ == old(self)@.baud_refused(error),
            old(self)@.wf() ==> final(self)@.wf(),
    {
        proof {
            reveal(AppView::baud_refused);
        }
        self.say(concat3("Invalid Baud Rate: ", error.as_text(), "!"), Color::Red);
    }

    fn take_over_serial(&mut self, baud_rate: u32)
        ensures
            ({
                let serial = PortSettings { baud_rate, ..old(self)@.edit.scratch.serial };
                final(self)@ == old(self)@.with_settings(
                    SettingsView {
                        serial,
                        line_endings: old(self)@.edit.scratch.line_endings,
                        ..old(self)@.edit.settings
                    },
                ).with_scratch(SettingsView { serial, ..old(self)@.edit.scratch })
            }),
            old(self)@.wf() ==> final(self)@.wf(),
    {
        self.scratch.serial.baud_rate = baud_rate;
        self.settings.serial = self.scratch.serial;
        self.settings.line_endings = self.scratch.line_endings.duplicate();
    }

    fn save_serial(&mut self)
        ensures
            final(self)@ == old(self)@.serial_saved(),
            old(self)@.wf() ==> final(self)@.wf(),
    {
        proof {
            reveal(AppView::serial_saved);
        }
        match self.parse_baud() {
            Err(e) => self.refuse_baud(e),
            Ok(baud_rate) => {
                self.take_over_serial(baud_rate);
                self.ask(Request::ApplyLineEnding);
                self.ask(Request::ApplyPortSettings);
                self.ask(Request::SaveSettings);
                self.say("Port settings saved!".to_owned(), Color::Green);
                self.dismiss_popup();
            },
        }
    }

    fn save_behavior(&mut self)
        ensures
            final(self)@ == old(self)@.behavior_saved(),
            old(self)@.wf() ==> final(self)@.wf(),
    {
        proof {
            reveal(AppView::behavior_saved);
        }
        self.settings.behavior = self.scratch.behavior;
        self.ask(Request::SaveSettings);
        self.dismiss_popup();
        self.say("Behavior settings saved!".to_owned(), Color::Green);
    }

    fn save_rendering(&mut self)
        ensures
            final(self)@ == old(self)@.rendering_saved(),
            old(self)@.wf() ==> final(self)@.wf(),
    {
        proof {
            reveal(AppView::rendering_saved);
        }
        self.render_with(self.scratch.rendering);
        self.dismiss_popup();
        self.say("Rendering settings saved!".to_owned(), Color::Green);
    }

    fn save_logging(&mut self)
        ensures
            final(self)@ == old(self)@.logging_saved(),
            old(self)@.wf() ==> final(self)@.wf(),
    {
        proof {
            reveal(AppView::logging_saved);
        }
        self.settings.logging = self.scratch.logging.duplicate();
        self.ask(Request::ApplyLogging);
        self.ask(Request::SaveSettings);
        self.dismiss_popup();
        self.say("Logging settings saved!".to_owned(), Color::Green);
    }

    fn save_defmt(&mut self)
        ensures
            final(self)@ == old(self)@.defmt_saved(),
            old(self)@.wf() ==> final(self)@.wf(),
    {
        proof {
            reveal(AppView::defmt_saved);
        }
        self.settings.defmt = self.scratch.defmt;
        self.ask(Request::ApplyDefmt);
        self.ask(Request::SaveSettings);
        self.dismiss_popup();
        self.say("defmt settings saved!".to_owned(), Color::Green);
    }

    fn enter_settings(&mut self, menu: SettingsMenu, alt: bool, at: Moment)
        requires
            old(self)@.ui.screen.popup_menu_scroll >= POPUP_MENU_SELECTOR_COUNT,
        ensures
            final(self)@ == old(self)@.settings_entered(menu, alt, at),
            old(self)@.wf() ==> final(self)@.wf(),
    {
        proof {
            reveal(AppView::settings_entered);
        }
        let entry: usize = self.screen.popup_menu_scroll - POPUP_MENU_SELECTOR_COUNT;
        match menu {
            SettingsMenu::SerialPort => self.save_serial(),
            SettingsMenu::Behavior => self.save_behavior(),
            SettingsMenu::Rendering => self.save_rendering(),
            SettingsMenu::Logging => if entry == self.layout.logging_rows as usize {
                self.sync_log(at);
            } else {
                self.save_logging();
            },
            SettingsMenu::Defmt => if entry == 0 {
                self.select_elf(
                    if alt {
                        DefmtSelectAction::SelectSystem
                    } else {
                        DefmtSelectAction::SelectTui
                    },
                );
            } else if entry == 1 {
                self.show_popup(Popup::DefmtRecentElf);
            } else {
                self.save_defmt();
            },
        }
    }

    fn put_bytes(&mut self, bytes: Vec<u8>)
        requires
            bytes@.len() > 0,
        ensures
            final(self)@ == old(self)@.with_text_input(
                old(self)@.kept.text_input.replaced_with_bytes(bytes@),
            ),
            old(self)@.wf() ==> final(self)@.wf(),
    {
        proof {
            reveal(crate::app::valid);
        }
        self.text_input.replace_input_with_bytes(bytes.as_slice());
    }

    fn put_text(&mut self, text: String)
        ensures
            final(self)@ == old(self)@.with_text_input(
                old(self)@.kept.text_input.replaced_with_text(text@),
            ),
            old(self)@.wf() ==> final(self)@.wf(),
    {
        proof {
            reveal(crate::app::valid);
        }
        self.text_input.replace_input_with_text(text.as_str());
    }

    fn take_macro(&mut self, index: usize)
        requires
            index < old(self)@.kept.macros.all.len(),
        ensures
            final(self)@ == old(self)@.macro_taken(index as int),
            old(self)@.wf() ==> final(self)@.wf(),
    {
        proof {
            reveal(AppView::macro_taken);
        }
        let content = &self.macros.all[index].content;
        if content.is_empty() {
            return;
        }
        if content.has_escaped_bytes {
            let bytes = content.unescape_bytes();
            self.put_bytes(bytes);
        } else {
            let text = content.content.clone();
            self.put_text(text);
        }
        self.dismiss_popup();
    }

    fn enter_macro(&mut self, alt: bool, at: Moment)
        requires
            old(self)@.ui.screen.popup_menu_scroll >= POPUP_MENU_SELECTOR_COUNT,
        ensures
            final(self)@ == old(self)@.macro_entered(alt, at),
            old(self)@.wf() ==> final(self)@.wf(),
    {
        proof {
            reveal(AppView::macro_entered);
        }
        if self.screen.popup_menu_scroll == POPUP_MENU_SELECTOR_COUNT {
            return;
        }
        let row: usize = self.screen.popup_menu_scroll - POPUP_MENU_SELECTOR_COUNT - 1;
        let shown = self.macros.filtered_macros();
        if row >= shown.len() {
            self.ask(Request::Fail(Fault::NothingSelected));
            return;
        }
        let index: usize = shown[row];
        assert(self.macros.all.len() == self.macros.all@.len());
        proof {
            crate::macros::lemma_positions_in_range(
                self.macros.all@,
                self.macros@.wanted(),
                self.macros.all@.len() as int,
            );
        }
        if !at.status.is_connected() {
            self.say("Port isn't ready!".to_owned(), Color::Red);
        } else if alt {
            self.take_macro(index);
        } else if self.macros.all[index].content.is_empty() {
            self.say("Macro is empty!".to_owned(), Color::Yellow);
        } else {
            let tag = self.macros.all[index].tag.duplicate();
            self.send_one_macro(&tag, None);
        }
    }

    fn press_erase(&mut self, first: Option<u64>)
        ensures
            final(self)@ == old(self)@.erase_pressed(first),
            old(self)@.wf() ==> final(self)@.wf(),
    {
        self.espflash.first_erase_press = first;
    }

    fn enter_erase(&mut self, alt: bool, now: u64)
        ensures
            final(self)@ == old(self)@.erase_entered(alt, now),
            old(self)@.wf() ==> final(self)@.wf(),
    {
        proof {
            reveal(AppView::erase_entered);
        }
        let confirmed = match self.espflash.first_erase_press {
            Some(first) => now < first || now - first <= ERASE_FLASH_CONFIRM_PERIOD_MS,
            None => false,
        };
        let erase_now = confirmed || self.skip_erase_confirm || alt;
        self.ask(
            Request::Oneshot {
                timer: Timer::UnreadyEraseFlash,
                tick: Tick::Requested(TickOrigin::EraseFlash),
                after_ms: ERASE_FLASH_CONFIRM_PERIOD_MS,
            },
        );
        if erase_now {
            self.run_esp_action(EspBuiltinAction::EspEraseFlash);
            self.press_erase(None);
        } else {
            self.say("Press again to confirm erasing flash!".to_owned(), Color::Yellow);
            self.press_erase(Some(now));
        }
    }

    fn enter_esp(&mut self, alt: bool, at: Moment)
        requires
            old(self)@.ui.screen.popup_menu_scroll >= POPUP_MENU_SELECTOR_COUNT,
            old(self)@.wf(),
        ensures
            final(self)@ == old(self)@.esp_entered(alt, at),
            final(self)@.wf(),
    {
        proof {
            reveal(AppView::esp_entered);
        }
        if !at.status.is_connected() {
            self.say("Port isn't ready!".to_owned(), Color::Red);
            return;
        }
        let entry: usize = self.screen.popup_menu_scroll - POPUP_MENU_SELECTOR_COUNT;
        if entry >= ESPFLASH_BUTTON_COUNT {
            let profile: usize = entry - ESPFLASH_BUTTON_COUNT;
            proof {
                reveal(crate::app::valid);
            }
            if profile < self.espflash.len() {
                self.esp_flash_profile(profile);
            } else {
                self.ask(Request::Fail(Fault::ProfileMissing));
            }
        } else if entry == 0 {
            self.run_esp_action(EspBuiltinAction::EspHardReset);
        } else if entry == 1 {
            if self.espflash.unchecked_bootloader || alt {
                self.run_esp_action(EspBuiltinAction::EspBootloaderUnchecked);
            } else {
                self.run_esp_action(EspBuiltinAction::EspBootloader);
            }
        } else if entry == 2 {
            self.run_esp_action(EspBuiltinAction::EspDeviceInfo);
        } else {
            self.enter_erase(alt, at.now);
        }
    }

    fn enter_recent(&mut self)
        ensures
            final(self)@ == old(self)@.recent_entered(),
            old(self)@.wf() ==> final(self)@.wf(),
    {
        proof {
            reveal(AppView::recent_entered);
        }
        let row: usize = self.screen.popup_menu_scroll;
        assert(self@.kept.recent_elfs.len() == self.recent_elfs@.len());
        if self.recent_elfs.len() == 0 {
            self.dismiss_popup();
        } else if row < self.recent_elfs.len() {
            let path = self.recent_elfs[row].clone();
            assert(self@.kept.recent_elfs[row as int] == path@);
            self.effect(Effect::LoadElf { path, reload: false });
            self.dismiss_popup();
        } else {
            self.ask(Request::Fail(Fault::NothingSelected));
        }
    }

    /// Acts on a choice in a prompt.
    pub fn choose_in_prompt(&mut self, choice: Choice, ctrl: bool, shift: bool)
        ensures
            final(self)@ == old(self)@.chosen(choice, ctrl, shift),
            old(self)@.wf() ==> final(self)@.wf(),
    {
        proof {
            reveal(AppView::chosen);
        }
        match choice {
            Choice::Reconnect(choice) => self.reconnect_prompt_choice(choice, shift, ctrl),
            Choice::Disconnect(choice) => self.disconnect_prompt_choice(choice),
            Choice::IgnoreUsb(choice) => self.ignore_usb_device_prompt_choice(choice),
            Choice::IgnoreName(choice) => self.ignore_port_name_prompt_choice(choice),
            Choice::Consent(choice) => self.update_check_consent_choice(choice),
            Choice::UpdateBegin(choice) => self.update_begin_choice(choice),
            Choice::UpdateLaunch(choice) => self.update_launch_choice(choice),
            Choice::Lost => self.ask(Request::Fail(Fault::NothingSelected)),
            Choice::NoPrompt => {},
        }
    }

    fn chosen_baud(&self) -> (r: Result<u32, NumberError>)
        requires
            self@.wf(),
        ensures
            r == self@.selected_baud(),
    {
        proof {
            reveal(crate::app::valid);
        }
        if self.screen.baud_index == CUSTOM_BAUD {
            self.parse_baud()
        } else {
            Ok(COMMON_BAUD[self.screen.baud_index])
        }
    }

    fn enter_port(&mut self)
        requires
            old(self)@.wf(),
        ensures
            final(self)@ == old(self)@.port_entered(),
            final(self)@.wf(),
    {
        proof {
            reveal(AppView::port_entered);
        }
        let at: usize = self.screen.port_selection_scroll;
        assert(self@.kept.ports.len() == self.ports@.len());
        if at < self.ports.len() {
            match self.chosen_baud() {
                Err(e) => self.refuse_baud(e),
                Ok(baud_rate) => {
                    self.settings.serial.baud_rate = baud_rate;
                    self.ask(Request::SaveSettings);
                    self.ask(Request::Connect { port: at, baud: baud_rate });
                },
            }
        } else if at == self.port_selection_item_count() - 1 {
            self.show_popup_from_action(ShowPopupAction::ShowPortSettings);
        }
    }

    fn ending_of_typed(&self) -> (r: Vec<u8>)
        ensures
            r@ == self@.typed_ending(),
    {
        let endings = &self.settings.line_endings;
        let bytes = endings.tx.as_bytes(&endings.rx);
        let mut r: Vec<u8> = Vec::new();
        r.extend_from_slice(bytes);
        assert(r@ =~= bytes@);
        r
    }

    fn finish_input(&mut self)
        requires
            old(self)@.wf(),
        ensures
            final(self)@ == old(self)@.input_done(),
            final(self)@.wf(),
    {
        proof {
            reveal(AppView::input_done);
            reveal(crate::app::valid);
        }
        self.text_input.commit_input_to_history();
        self.ask(Request::ScrollBuffer(i32::MIN));
    }

    fn send_bytes(&mut self, bytes: Vec<u8>)
        ensures
            final(self)@ == old(self)@.bytes_sent(bytes@),
            old(self)@.wf() ==> final(self)@.wf(),
    {
        proof {
            reveal(AppView::bytes_sent);
        }
        let with_ending = self.settings.behavior.send_line_ending_with_bytes;
        let ending: Vec<u8> = if with_ending {
            self.ending_of_typed()
        } else {
            Vec::new()
        };
        assert(!with_ending ==> ending@ =~= Seq::<u8>::empty());
        if with_ending || bytes.len() > 0 {
            self.effect(Effect::Send(payload(bytes.clone(), Some(ending.as_slice()))));
            self.effect(Effect::EchoBytes { bytes, ending, sensitive: None });
            self.flip_line();
        }
    }

    fn send_text(&mut self, text: String)
        ensures
            final(self)@ == old(self)@.text_sent(text@),
            old(self)@.wf() ==> final(self)@.wf(),
    {
        proof {
            reveal(AppView::text_sent);
        }
        let ending = self.ending_of_typed();
        if !text.as_str().is_empty() || ending.len() > 0 {
            let unescape = self.settings.behavior.unescape_typed_bytes;
            self.effect(Effect::Send(text_payload(text.as_str(), ending.as_slice(), unescape)));
            self.effect(Effect::EchoText { text, ending, sensitive: None });
            self.flip_line();
        }
    }

    fn send_input(&mut self, now: u64)
        requires
            old(self)@.wf(),
        ensures
            final(self)@ == old(self)@.input_sent(now),
            final(self)@.wf(),
    {
        proof {
            reveal(AppView::input_sent);
        }
        let text = self.text_input.value().to_owned();
        if !self.text_input.byte_entry_active() {
            self.send_text(text);
            self.finish_input();
            return;
        }
        if byte_len(text.as_str()) % 2 != 0 {
            self.trigger_send_failed_visual(now);
            return;
        }
        match hex_decode(text.as_str()) {
            Ok(bytes) => {
                self.send_bytes(bytes);
                self.finish_input();
            },
            Err(error) => {
                self.say(concat3("Byte parse error! `", error.as_str(), "`"), Color::Red);
            },
        }
    }

    fn enter_screen(&mut self, at: Moment)
        requires
            old(self)@.wf(),
        ensures
            final(self)@ == old(self)@.screen_entered(at),
            final(self)@.wf(),
    {
        proof {
            reveal(AppView::screen_entered);
        }
        if self.screen.menu == Menu::PortSelection {
            self.enter_port();
        } else if !at.status.is_connected() {
            self.trigger_send_failed_visual(at.now);
        } else if self.settings.behavior.pseudo_shell {
            self.send_input(at.now);
        }
    }

    fn enter_target(&self) -> (r: Target)
        ensures
            match self@.ui.popup {
                None => r is Screen,
                Some(PopupView::SettingsMenu(menu)) => r == Target::Settings(menu),
                Some(PopupView::ToolMenu(ToolMenu::Macros)) => r is Macros,
                Some(PopupView::ToolMenu(ToolMenu::EspFlash)) => r is EspFlash,
                Some(PopupView::CurrentKeybinds) => r is Close,
                Some(PopupView::SerialConnectionFailed(_)) => r is Close,
                Some(PopupView::DefmtNewElf) => r is Nothing,
                Some(PopupView::DefmtRecentElf) => r is Recent,
                Some(PopupView::UpdateDownloading) => r is Nothing,
                _ => r is Prompt,
            },
    {
        match &self.popup {
            None => Target::Screen,
            Some(Popup::SettingsMenu(menu)) => Target::Settings(*menu),
            Some(Popup::ToolMenu(ToolMenu::Macros)) => Target::Macros,
            Some(Popup::ToolMenu(ToolMenu::EspFlash)) => Target::EspFlash,
            Some(Popup::CurrentKeybinds) => Target::Close,
            Some(Popup::SerialConnectionFailed(_)) => Target::Close,
            Some(Popup::DefmtNewElf) => Target::Nothing,
            Some(Popup::DefmtRecentElf) => Target::Recent,
            Some(Popup::UpdateDownloading) => Target::Nothing,
            _ => Target::Prompt,
        }
    }

    /// Acts on the enter key.
    pub fn enter_pressed(&mut self, ctrl_pressed: bool, shift_pressed: bool, at: Moment)
        requires
            old(self)@.wf(),
        ensures
            final(self)@ == old(self)@.entered(ctrl_pressed, shift_pressed, at),
            final(self)@.wf(),
    {
        proof {
            reveal(AppView::entered);
        }
        let in_table = self.screen.popup_menu_scroll >= POPUP_MENU_SELECTOR_COUNT;
        let alt = ctrl_pressed || shift_pressed;
        match self.enter_target() {
            Target::Screen => self.enter_screen(at),
            Target::Settings(menu) => if in_table {
                self.enter_settings(menu, alt, at);
            },
            Target::Macros => if in_table {
                self.enter_macro(alt, at);
            },
            Target::EspFlash => if in_table {
                self.enter_esp(alt, at);
            },
            Target::Close => self.dismiss_popup(),
            Target::Recent => self.enter_recent(),
            Target::Prompt => {
                let choice = choice_in_row(&self.popup, self.screen.popup_menu_scroll);
                self.choose_in_prompt(choice, ctrl_pressed, shift_pressed);
            },
            Target::Nothing => {},
        }
    }

    /// Takes up how an attempt to connect ended.
    pub fn connect_finished(&mut self, error: Option<String>)
        ensures
            final(self)@ == (match error {
                None => old(self)@.with_screen(
                    Screen { menu: Menu::Terminal, ..old(self)@.ui.screen },
                ),
                Some(error) => old(self)@.with_popup(
                    Some(PopupView::SerialConnectionFailed(error@)),
                ),
            }),
            old(self)@.wf() ==> final(self)@.wf(),
    {
        match error {
            None => {
                self.screen.menu = Menu::Terminal;
            },
            Some(error) => {
                self.popup = Some(Popup::SerialConnectionFailed(error));
            },
        }
    }
}

} // verus!
