//! What actions do.

use vstd::prelude::*;
use vstd::string::*;
use vstd::utf8::*;

use crate::app::effects::{Effect, EffectView, Request};
use crate::app::{
    App, AppView, Fault, Menu, Moment, Popup, PopupView, Queued, QueuedView, Tick, Timer,
};
use crate::foreign::unescape_bytes;
use crate::keybinds::{
    Action, ActionView, BaseAction, BuiltinAction, DefmtSelectAction, EspBuiltinAction,
    LoggingAction, PortAction,
};
use crate::line::Color;
use crate::macros::{MacroNameTag, TagView};
use crate::parse::parse_decimal;
use crate::serial::esp::EspRestartType;
use crate::serial::handle::payload;
use crate::serial::port_status::InnerPortStatus;
use crate::serial::ReconnectionStrictness;
use crate::settings::{Behavior, Rendering, SettingsView};
use crate::text::{concat2, concat3, eq_ignore_ascii_case, number, trim};
use crate::traits::{FirstChars, RequiresPort};

verus! {

/// How a switch stands.
pub open spec fn on_off(on: bool) -> Seq<char> {
    if on {
        "On"@
    } else {
        "Off"@
    }
}

/// What is read out of a request to wait.
pub open spec fn pause_asked(text: Seq<char>) -> Option<u64> {
    let prefix = "pause_ms:"@;
    if text.len() >= prefix.len() && crate::text::same_ignoring_ascii_case(
        text.take(prefix.len() as int),
        prefix,
    ) {
        match crate::parse::decimal(text.skip(prefix.len() as int), u64::MAX as int) {
            Ok(n) => Some(n as u64),
            Err(_) => None,
        }
    } else {
        None
    }
}

/// Something that can be shown or not.
#[derive(Clone, Copy, Debug, PartialEq, Eq, Structural)]
pub enum Switch {
    TextWrapping,
    Timestamps,
    Indices,
    IndicesHex,
    HexView,
    HexViewHeader,
}

impl Switch {
    /// What is told when the switch is flipped.
    pub open spec fn title(self) -> Seq<char> {
        match self {
            Switch::TextWrapping => "Toggled Text Wrapping "@,
            Switch::Timestamps => "Toggled Timestamps "@,
            Switch::Indices => "Toggled Line Indices + Length "@,
            Switch::IndicesHex => "Toggled Indices as Hex "@,
            Switch::HexView => "Toggled Hex View "@,
            Switch::HexViewHeader => "Toggled Hex View Header "@,
        }
    }

    /// How the switch stands.
    pub open spec fn state(self, now: Rendering) -> bool {
        match self {
            Switch::TextWrapping => now.wrap_text,
            Switch::Timestamps => now.timestamps,
            Switch::Indices => now.show_indices,
            Switch::IndicesHex => now.indices_as_hex,
            Switch::HexView => now.hex_view,
            Switch::HexViewHeader => now.hex_view_header,
        }
    }

    /// The settings with the switch flipped.
    pub open spec fn flipped(self, now: Rendering) -> Rendering {
        match self {
            Switch::TextWrapping => Rendering { wrap_text: !now.wrap_text, ..now },
            Switch::Timestamps => Rendering { timestamps: !now.timestamps, ..now },
            Switch::Indices => Rendering { show_indices: !now.show_indices, ..now },
            Switch::IndicesHex => Rendering { indices_as_hex: !now.indices_as_hex, ..now },
            Switch::HexView => Rendering { hex_view: !now.hex_view, ..now },
            Switch::HexViewHeader => Rendering { hex_view_header: !now.hex_view_header, ..now },
        }
    }

    fn name(self) -> (r: &'static str)
        ensures
            r@ == self.title(),
    {
        match self {
            Switch::TextWrapping => "Toggled Text Wrapping ",
            Switch::Timestamps => "Toggled Timestamps ",
            Switch::Indices => "Toggled Line Indices + Length ",
            Switch::IndicesHex => "Toggled Indices as Hex ",
            Switch::HexView => "Toggled Hex View ",
            Switch::HexViewHeader => "Toggled Hex View Header ",
        }
    }

    fn flip(self, now: Rendering) -> (r: (Rendering, bool))
        ensures
            r.0 == self.flipped(now),
            r.1 == self.state(self.flipped(now)),
    {
        match self {
            Switch::TextWrapping => {
                let on = !now.wrap_text;
                (Rendering { wrap_text: on, ..now }, on)
            },
            Switch::Timestamps => {
                let on = !now.timestamps;
                (Rendering { timestamps: on, ..now }, on)
            },
            Switch::Indices => {
                let on = !now.show_indices;
                (Rendering { show_indices: on, ..now }, on)
            },
            Switch::IndicesHex => {
                let on = !now.indices_as_hex;
                (Rendering { indices_as_hex: on, ..now }, on)
            },
            Switch::HexView => {
                let on = !now.hex_view;
                (Rendering { hex_view: on, ..now }, on)
            },
            Switch::HexViewHeader => {
                let on = !now.hex_view_header;
                (Rendering { hex_view_header: on, ..now }, on)
            },
        }
    }
}

impl AppView {
    /// The action that a text names: one that is always there, a profile to flash, a
    /// macro, or a pause.
    pub open spec fn action_named(self, text: Seq<char>) -> Option<ActionView> {
        let name = crate::text::trimmed(text);
        if name.len() == 0 {
            None
        } else if BuiltinAction::called(name, 0) is Some {
            Some(ActionView::BuiltinAction(BuiltinAction::called(name, 0)->0))
        } else if self.kept.espflash.index_of_name(name, 0) is Some {
            Some(ActionView::EspFlashProfile(name))
        } else if self.macro_named(name) is Some {
            Some(ActionView::MacroInvocation(self.macro_named(name)->0))
        } else {
            match pause_asked(name) {
                Some(ms) => Some(ActionView::Pause(ms)),
                None => None,
            }
        }
    }

    /// The macro that a text names.
    pub open spec fn macro_named(self, text: Seq<char>) -> Option<TagView> {
        match crate::macros::parsed_tag(text) {
            Some(tag) => match self.kept.macros.found(tag, self.edit.settings.behavior.fuzzy_macro_match) {
                Some(i) => Some(self.kept.macros.all[i].tag@),
                None => None,
            },
            None => None,
        }
    }

    /// With another way of showing what was received.
    #[verifier::opaque]
    pub open spec fn rendered(self, rendering: Rendering) -> AppView {
        self.with_settings(SettingsView { rendering, ..self.edit.settings }).asked(
            Request::ApplyRendering,
        ).asked(Request::SaveSettings)
    }

    /// With bytes being typed in place of text, or text in place of bytes.
    #[verifier::opaque]
    pub open spec fn bytes_toggled(self) -> AppView {
        if self.kept.text_input.can_toggle() {
            self.with_text_input(self.kept.text_input.toggled())
        } else {
            self.asked(Request::Fail(Fault::DigitsBroken))
        }
    }

    /// With lines being edited here, or keys being sent one by one.
    #[verifier::opaque]
    pub open spec fn shell_toggled(self) -> AppView {
        let on = !self.edit.settings.behavior.pseudo_shell;
        self.with_settings(
            SettingsView {
                behavior: Behavior { pseudo_shell: on, ..self.edit.settings.behavior },
                ..self.edit.settings
            },
        ).asked(Request::SaveSettings).said("Toggled Pseudo Shell "@ + on_off(on), Color::Gray)
    }

    /// With an explanation if keys cannot be escaped.
    #[verifier::opaque]
    pub open spec fn escape_explained(self) -> AppView {
        if self.ui.screen.escape_next_keypress {
            self.said("Keypress was already escaped!"@, Color::Yellow)
        } else if self.edit.settings.behavior.pseudo_shell {
            self.said("Can only escape keypress when Pseudo Shell is disabled!"@, Color::Yellow)
        } else {
            self
        }
    }

    /// With something shown in another way.
    #[verifier::opaque]
    pub open spec fn switched(self, switch: Switch) -> AppView {
        let new = switch.flipped(self.edit.settings.rendering);
        let shown = self.rendered(new);
        (if switch is HexView {
            shown.asked(Request::ScrollBuffer(0))
        } else {
            shown
        }).said(switch.title() + on_off(switch.state(new)), Color::Gray)
    }

    /// After one of the basic actions.
    #[verifier::opaque]
    pub open spec fn base_done(self, action: BaseAction) -> AppView {
        match action {
            BaseAction::ToggleTextwrap => self.switched(Switch::TextWrapping),
            BaseAction::ToggleTimestamps => self.switched(Switch::Timestamps),
            BaseAction::ToggleIndices => self.switched(Switch::Indices),
            BaseAction::ToggleIndicesHex => self.switched(Switch::IndicesHex),
            BaseAction::ToggleHexView => self.switched(Switch::HexView),
            BaseAction::ToggleHexViewHeader => self.switched(Switch::HexViewHeader),
            BaseAction::TogglePseudoShell => self.shell_toggled(),
            BaseAction::TogglePseudoShellHex => self.bytes_toggled(),
            BaseAction::EscapeKeypress => self.escape_explained(),
            BaseAction::ReloadColors => self.asked(Request::ReloadColors),
            BaseAction::ReloadKeybinds => self.asked(Request::ReloadKeybinds),
        }
    }

    /// After an action on the port.
    #[verifier::opaque]
    pub open spec fn port_done(self, action: PortAction) -> AppView {
        self.asked(
            match action {
                PortAction::ToggleDtr => Request::ToggleSignals { dtr: true, rts: false },
                PortAction::ToggleRts => Request::ToggleSignals { dtr: false, rts: true },
                PortAction::AssertDtr => Request::WriteSignals { dtr: Some(true), rts: None },
                PortAction::DeassertDtr => Request::WriteSignals { dtr: Some(false), rts: None },
                PortAction::AssertRts => Request::WriteSignals { dtr: None, rts: Some(true) },
                PortAction::DeassertRts => Request::WriteSignals { dtr: None, rts: Some(false) },
                PortAction::AttemptReconnectStrict => Request::Reconnect(
                    Some(ReconnectionStrictness::High),
                ),
                PortAction::AttemptReconnectLoose => Request::Reconnect(
                    Some(ReconnectionStrictness::Low),
                ),
            },
        )
    }

    /// After an action on a device.
    #[verifier::opaque]
    pub open spec fn esp_done(self, action: EspBuiltinAction) -> AppView {
        self.asked(
            match action {
                EspBuiltinAction::EspHardReset => Request::EspRestart(EspRestartType::UserCode),
                EspBuiltinAction::EspBootloader => Request::EspRestart(
                    EspRestartType::Bootloader { active: true },
                ),
                EspBuiltinAction::EspBootloaderUnchecked => Request::EspRestart(
                    EspRestartType::Bootloader { active: false },
                ),
                EspBuiltinAction::EspDeviceInfo => Request::EspDeviceInfo,
                EspBuiltinAction::EspEraseFlash => Request::EspEraseFlash,
                EspBuiltinAction::ReloadProfiles => if self.kept.espflash.popup is Some {
                    Request::Fail(Fault::ProfilesInUse)
                } else {
                    Request::ReloadProfiles
                },
            },
        )
    }

    /// After the log was asked to be written again.
    #[verifier::opaque]
    pub open spec fn sync_done(self, at: Moment) -> AppView {
        if at.has_port {
            self.asked(Request::SyncLog).said("Requested logging start!"@, Color::Green)
        } else {
            self.said(
                "Not (previously) connected to port? Unable to sync log."@,
                Color::Yellow,
            )
        }
    }

    /// After a file was asked for.
    #[verifier::opaque]
    pub open spec fn select_done(self, action: DefmtSelectAction) -> AppView {
        match action {
            DefmtSelectAction::SelectRecent => self.shown(PopupView::DefmtRecentElf),
            DefmtSelectAction::SelectTui => self.asked(Request::OpenExplorer).shown(
                PopupView::DefmtNewElf,
            ),
            DefmtSelectAction::SelectSystem => self.asked(Request::PickElf),
        }
    }

    /// After an action that is always there.
    #[verifier::opaque]
    pub open spec fn builtin_done(self, action: BuiltinAction, at: Moment) -> AppView {
        match action {
            BuiltinAction::Popup(popup) => self.toggled_popup(popup),
            BuiltinAction::Port(action) => self.port_done(action),
            BuiltinAction::Base(action) => self.base_done(action),
            BuiltinAction::MacroBuiltin(_) => self.asked(Request::ReloadMacros),
            BuiltinAction::Logging(LoggingAction::Sync) => self.sync_done(at),
            BuiltinAction::EspBuiltin(action) => self.esp_done(action),
            BuiltinAction::ShowDefmtSelect(action) => self.select_done(action),
        }
    }

    /// The line ending that a macro is sent with.
    pub open spec fn macro_ending(self, own: Option<String>) -> Seq<u8> {
        match own {
            Some(ending) => crate::foreign::unescaped(ending@),
            None => crate::settings::line_ending::macro_bytes(
                self.edit.settings.line_endings.macros,
                self.edit.settings.line_endings.rx,
                self.edit.settings.line_endings.tx,
            ),
        }
    }

    /// With a macro sent and shown.
    #[verifier::opaque]
    pub open spec fn sent_macro(self, tag: TagView, label: Option<Seq<char>>) -> AppView {
        match crate::macros::first_tag(
            crate::macros::tags_of(self.kept.macros.all),
            crate::macros::tag_is(tag),
            0,
        ) {
            None => self.asked(Request::Fail(Fault::MacroNotFound)),
            Some(i) => {
                let content = self.kept.macros.all[i].content;
                let ending = self.macro_ending(content.escaped_line_ending);
                let bytes = crate::foreign::unescaped(content.content@);
                if content.content@.len() == 0 {
                    self.asked(Request::Fail(Fault::MacroEmpty))
                } else {
                    self.effected(EffectView::Send(bytes + ending)).effected(
                        if content.has_escaped_bytes {
                            EffectView::EchoBytes {
                                bytes,
                                ending,
                                sensitive: Some(content.sensitive),
                            }
                        } else {
                            EffectView::EchoText {
                                text: content.content@,
                                ending,
                                sensitive: Some(content.sensitive),
                            }
                        },
                    ).effected(
                        EffectView::Notify {
                            italic: crate::macros::tag_text(tag),
                            text: match label {
                                Some(label) => " ["@ + label + "]"@,
                                None => Seq::empty(),
                            },
                            color: Color::Green,
                        },
                    ).asked(Request::ScrollBuffer(i32::MIN))
                }
            },
        }
    }

    /// With a profile being flashed, and its messages to be decoded.
    #[verifier::opaque]
    pub open spec fn flashed(self, profile: int) -> AppView {
        let asked = self.asked(Request::EspFlash { profile: profile as usize });
        match crate::tui::esp::messages_of(self.kept.espflash.profile_at(profile)->0) {
            Some(path) => asked.effected(EffectView::LoadElf { path, reload: false }),
            None => asked,
        }
    }

    /// After an action that keys asked for.
    #[verifier::opaque]
    pub open spec fn dispatched(self, action: ActionView, label: Seq<char>, at: Moment) -> AppView {
        match action {
            ActionView::Pause(_) => self,
            ActionView::BuiltinAction(action) => self.builtin_done(action, at),
            ActionView::MacroInvocation(tag) => self.sent_macro(tag, Some(label)),
            ActionView::EspFlashProfile(name) => match self.kept.espflash.index_of_name(name, 0) {
                None => self.asked(Request::Fail(Fault::ProfileMissing)),
                Some(i) => self.said(
                    "espflash profile: "@ + name + (" ["@ + label + "]"@),
                    Color::LightBlue,
                ).flashed(i),
            },
        }
    }

    /// How long to wait after an action: as long as it says itself; not at all if the
    /// next one says how long; else as long as is set.
    pub open spec fn wait_after(self, action: ActionView) -> Option<u64> {
        match action {
            ActionView::Pause(ms) => Some(ms),
            _ => if self.kept.queue.len() > 0 && self.kept.queue[0].action is Pause {
                None
            } else {
                Some(self.edit.settings.behavior.action_chain_delay_ms)
            },
        }
    }

    /// After the next action in the queue.
    #[verifier::opaque]
    pub open spec fn advanced(self, at: Moment) -> AppView {
        if self.kept.queue.len() == 0 {
            self
        } else {
            match at.status {
                InnerPortStatus::Connected { .. } => {
                    let first = self.kept.queue[0];
                    let rest = self.with_queue(self.kept.queue.skip(1));
                    rest.dispatched(first.action, first.label, at).asked(
                        Request::Oneshot {
                            timer: Timer::ActionQueue,
                            tick: Tick::Action,
                            after_ms: match rest.wait_after(first.action) {
                                Some(ms) => ms,
                                None => 0,
                            },
                        },
                    )
                },
                InnerPortStatus::LentOut { .. } => self.asked(
                    Request::Oneshot {
                        timer: Timer::ActionQueue,
                        tick: Tick::Action,
                        after_ms: 500,
                    },
                ),
                _ => self.said(
                        if self.kept.queue.len() == 1 {
                            "Port isn't ready! Not running action..."@
                        } else {
                            "Port isn't ready! Clearing "@ + crate::text::digits(
                                self.kept.queue.len(),
                                10,
                            ) + " queued actions..."@
                        },
                        Color::Red,
                    ).with_queue(Seq::empty()),
            }
        }
    }

    /// After a single action that keys asked for.
    #[verifier::opaque]
    pub open spec fn acted(self, action: ActionView, label: Seq<char>, at: Moment) -> AppView {
        if action.needs_connection() && !(at.status is Connected) {
            self.said("Action requires healthy port connection! Not acting..."@, Color::Red)
        } else if action.needs_terminal() && !(self.ui.screen.menu is Terminal) {
            self.said("Action requires terminal view active! Not acting..."@, Color::Red)
        } else {
            self.dispatched(action, label, at)
        }
    }

    /// After some actions that keys asked for: a single one is done at once, several
    /// wait for their turn.
    #[verifier::opaque]
    pub open spec fn queued(self, actions: Seq<ActionView>, label: Seq<char>, at: Moment) -> AppView {
        if actions.len() == 1 {
            self.acted(actions[0], label, at)
        } else {
            self.with_queue(self.kept.queue + actions.map_values(
                    |action: ActionView| QueuedView { label, action },
                )).asked(Request::Emit(Tick::Action))
        }
    }
}

fn on_or_off(on: bool) -> (r: &'static str)
    ensures
        r@ == on_off(on),
{
    if on {
        "On"
    } else {
        "Off"
    }
}

fn parse_pause(text: &str) -> (r: Option<u64>)
    ensures
        r == pause_asked(text@),
{
    let prefix = "pause_ms:";
    let len: usize = prefix.unicode_len();
    match text.first_chars(len) {
        Some(start) => {
            if !eq_ignore_ascii_case(start, prefix) {
                return None;
            }
            let rest = text.substring_char(len, text.unicode_len());
            assert(rest@ =~= text@.skip(len as int));
            match parse_decimal(rest, u64::MAX) {
                Ok(ms) => Some(ms),
                Err(_) => None,
            }
        },
        None => None,
    }
}

impl App {
    /// The action that a text names.
    pub fn get_action_from_string(&self, action: &str) -> (r: Option<Action>)
        requires
            self@.wf(),
        ensures
            match self@.action_named(action@) {
                Some(a) => r is Some && r->0@ == a,
                None => r is None,
            },
    {
        proof {
            reveal(crate::app::valid);
        }
        let name = trim(action);
        if name.is_empty() {
            return None;
        }
        match BuiltinAction::parse(name) {
            Some(action) => {
                return Some(Action::BuiltinAction(action));
            },
            None => {},
        }
        if self.espflash.index_from_name(name).is_some() {
            return Some(Action::EspFlashProfile(name.to_owned()));
        }
        match self.macros.get_by_string(name, self.settings.behavior.fuzzy_macro_match) {
            Some(tag) => {
                return Some(Action::MacroInvocation(tag));
            },
            None => {},
        }
        match parse_pause(name) {
            Some(ms) => Some(Action::Pause(ms)),
            None => None,
        }
    }

    pub(crate) fn render_with(&mut self, rendering: Rendering)
        ensures
            final(self)@ == old(self)@.rendered(rendering),
            old(self)@.wf() ==> final(self)@.wf(),
    {
        proof {
            reveal(AppView::rendered);
        }
        self.settings.rendering = rendering;
        self.ask(Request::ApplyRendering);
        self.ask(Request::SaveSettings);
    }

    fn flip_switch(&mut self, switch: Switch)
        ensures
            final(self)@ == old(self)@.switched(switch),
            old(self)@.wf() ==> final(self)@.wf(),
    {
        proof {
            reveal(AppView::switched);
        }
        let (new, on) = switch.flip(self.settings.rendering);
        self.render_with(new);
        if switch == Switch::HexView {
            self.ask(Request::ScrollBuffer(0));
        }
        self.say(concat2(switch.name(), on_or_off(on)), Color::Gray);
    }

    fn toggle_pseudo_shell(&mut self)
        ensures
            final(self)@ == old(self)@.shell_toggled(),
            old(self)@.wf() ==> final(self)@.wf(),
    {
        proof {
            reveal(AppView::shell_toggled);
        }
        let on = !self.settings.behavior.pseudo_shell;
        self.settings.behavior.pseudo_shell = on;
        self.ask(Request::SaveSettings);
        self.say(concat2("Toggled Pseudo Shell ", on_or_off(on)), Color::Gray);
    }

    fn toggle_bytes_entry(&mut self)
        requires
            old(self)@.wf(),
        ensures
            final(self)@ == old(self)@.bytes_toggled(),
            final(self)@.wf(),
    {
        proof {
            reveal(AppView::bytes_toggled);
            reveal(crate::app::valid);
        }
        if self.text_input.toggle_possible() {
            self.text_input.toggle_bytes_entry();
        } else {
            self.ask(Request::Fail(Fault::DigitsBroken));
        }
    }

    fn explain_escape(&mut self)
        ensures
            final(self)@ == old(self)@.escape_explained(),
            old(self)@.wf() ==> final(self)@.wf(),
    {
        proof {
            reveal(AppView::escape_explained);
        }
        if self.screen.escape_next_keypress {
            self.say("Keypress was already escaped!".to_owned(), Color::Yellow);
        } else if self.settings.behavior.pseudo_shell {
            self.say(
                "Can only escape keypress when Pseudo Shell is disabled!".to_owned(),
                Color::Yellow,
            );
        }
    }

    fn run_base_action(&mut self, action: BaseAction)
        requires
            old(self)@.wf(),
        ensures
            final(self)@ == old(self)@.base_done(action),
            final(self)@.wf(),
    {
        proof {
            reveal(AppView::base_done);
        }
        match action {
            BaseAction::ToggleTextwrap => self.flip_switch(Switch::TextWrapping),
            BaseAction::ToggleTimestamps => self.flip_switch(Switch::Timestamps),
            BaseAction::ToggleIndices => self.flip_switch(Switch::Indices),
            BaseAction::ToggleIndicesHex => self.flip_switch(Switch::IndicesHex),
            BaseAction::ToggleHexView => self.flip_switch(Switch::HexView),
            BaseAction::ToggleHexViewHeader => self.flip_switch(Switch::HexViewHeader),
            BaseAction::TogglePseudoShell => self.toggle_pseudo_shell(),
            BaseAction::TogglePseudoShellHex => self.toggle_bytes_entry(),
            BaseAction::EscapeKeypress => self.explain_escape(),
            BaseAction::ReloadColors => self.ask(Request::ReloadColors),
            BaseAction::ReloadKeybinds => self.ask(Request::ReloadKeybinds),
        }
    }

    fn run_port_action(&mut self, action: PortAction)
        ensures
            final(self)@ == old(self)@.port_done(action),
            old(self)@.wf() ==> final(self)@.wf(),
    {
        proof {
            reveal(AppView::port_done);
        }
        let request = match action {
            PortAction::ToggleDtr => Request::ToggleSignals { dtr: true, rts: false },
            PortAction::ToggleRts => Request::ToggleSignals { dtr: false, rts: true },
            PortAction::AssertDtr => Request::WriteSignals { dtr: Some(true), rts: None },
            PortAction::DeassertDtr => Request::WriteSignals { dtr: Some(false), rts: None },
            PortAction::AssertRts => Request::WriteSignals { dtr: None, rts: Some(true) },
            PortAction::DeassertRts => Request::WriteSignals { dtr: None, rts: Some(false) },
            PortAction::AttemptReconnectStrict => Request::Reconnect(
                Some(ReconnectionStrictness::High),
            ),
            PortAction::AttemptReconnectLoose => Request::Reconnect(
                Some(ReconnectionStrictness::Low),
            ),
        };
        self.ask(request);
    }

    pub(crate) fn run_esp_action(&mut self, action: EspBuiltinAction)
        ensures
            final(self)@ == old(self)@.esp_done(action),
            old(self)@.wf() ==> final(self)@.wf(),
    {
        proof {
            reveal(AppView::esp_done);
        }
        let request = match action {
            EspBuiltinAction::EspHardReset => Request::EspRestart(EspRestartType::UserCode),
            EspBuiltinAction::EspBootloader => Request::EspRestart(
                EspRestartType::Bootloader { active: true },
            ),
            EspBuiltinAction::EspBootloaderUnchecked => Request::EspRestart(
                EspRestartType::Bootloader { active: false },
            ),
            EspBuiltinAction::EspDeviceInfo => Request::EspDeviceInfo,
            EspBuiltinAction::EspEraseFlash => Request::EspEraseFlash,
            EspBuiltinAction::ReloadProfiles => if self.espflash.popup_active() {
                Request::Fail(Fault::ProfilesInUse)
            } else {
                Request::ReloadProfiles
            },
        };
        self.ask(request);
    }

    pub(crate) fn sync_log(&mut self, at: Moment)
        ensures
            final(self)@ == old(self)@.sync_done(at),
            old(self)@.wf() ==> final(self)@.wf(),
    {
        proof {
            reveal(AppView::sync_done);
        }
        if at.has_port {
            self.ask(Request::SyncLog);
            self.say("Requested logging start!".to_owned(), Color::Green);
        } else {
            self.say(
                "Not (previously) connected to port? Unable to sync log.".to_owned(),
                Color::Yellow,
            );
        }
    }

    pub(crate) fn select_elf(&mut self, action: DefmtSelectAction)
        ensures
            final(self)@ == old(self)@.select_done(action),
            old(self)@.wf() ==> final(self)@.wf(),
    {
        proof {
            reveal(AppView::select_done);
        }
        match action {
            DefmtSelectAction::SelectRecent => self.show_popup(Popup::DefmtRecentElf),
            DefmtSelectAction::SelectTui => {
                self.ask(Request::OpenExplorer);
                self.show_popup(Popup::DefmtNewElf);
            },
            DefmtSelectAction::SelectSystem => self.ask(Request::PickElf),
        }
    }

    /// Does one of the actions that are always there.
    pub fn run_builtin_action(&mut self, action: BuiltinAction, at: Moment)
        requires
            old(self)@.wf(),
        ensures
            final(self)@ == old(self)@.builtin_done(action, at),
            final(self)@.wf(),
    {
        proof {
            reveal(AppView::builtin_done);
        }
        match action {
            BuiltinAction::Popup(popup) => self.show_popup_from_action(popup),
            BuiltinAction::Port(action) => self.run_port_action(action),
            BuiltinAction::Base(action) => self.run_base_action(action),
            BuiltinAction::MacroBuiltin(_) => self.ask(Request::ReloadMacros),
            BuiltinAction::Logging(LoggingAction::Sync) => self.sync_log(at),
            BuiltinAction::EspBuiltin(action) => self.run_esp_action(action),
            BuiltinAction::ShowDefmtSelect(action) => self.select_elf(action),
        }
    }

    fn ending_for(&self, own: &Option<String>) -> (r: Vec<u8>)
        ensures
            r@ == self@.macro_ending(*own),
    {
        match own {
            Some(ending) => unescape_bytes(ending.as_str()),
            None => {
                let endings = &self.settings.line_endings;
                let bytes = endings.macros.as_bytes(&endings.rx, &endings.tx);
                let mut r: Vec<u8> = Vec::new();
                r.extend_from_slice(bytes);
                assert(r@ =~= bytes@);
                r
            },
        }
    }

    /// Sends a macro; if keys asked for it, they are named.
    pub fn send_one_macro(&mut self, tag: &MacroNameTag, label: Option<&str>)
        ensures
            final(self)@ == old(self)@.sent_macro(
                tag@,
                match label {
                    Some(label) => Some(label@),
                    None => None,
                },
            ),
            old(self)@.wf() ==> final(self)@.wf(),
    {
        proof {
            reveal(AppView::sent_macro);
        }
        let (bytes, ending, has_bytes, sensitive, text) = match self.macros.content_of(tag) {
            Some(content) => {
                if content.is_empty() {
                    self.ask(Request::Fail(Fault::MacroEmpty));
                    return;
                }
                (
                    content.unescape_bytes(),
                    self.ending_for(&content.escaped_line_ending),
                    content.has_escaped_bytes,
                    content.sensitive,
                    content.content.clone(),
                )
            },
            None => {
                self.ask(Request::Fail(Fault::MacroNotFound));
                return;
            },
        };
        self.effect(Effect::Send(payload(bytes.clone(), Some(ending.as_slice()))));
        if has_bytes {
            self.effect(Effect::EchoBytes { bytes, ending, sensitive: Some(sensitive) });
        } else {
            self.effect(Effect::EchoText { text, ending, sensitive: Some(sensitive) });
        }
        let suffix = match label {
            Some(label) => concat3(" [", label, "]"),
            None => String::new(),
        };
        assert(label is None ==> suffix@ =~= Seq::<char>::empty());
        self.effect(
            Effect::Notify { italic: tag.as_text(), text: suffix, color: Color::Green },
        );
        self.ask(Request::ScrollBuffer(i32::MIN));
    }

    /// Flashes a profile, and has its messages decoded.
    pub fn esp_flash_profile(&mut self, index: usize)
        requires
            old(self)@.kept.espflash.profile_at(index as int) is Some,
        ensures
            final(self)@ == old(self)@.flashed(index as int),
            old(self)@.wf() ==> final(self)@.wf(),
    {
        proof {
            reveal(AppView::flashed);
        }
        let path = match self.espflash.profile_from_index(index) {
            Some(profile) => profile.defmt_elf_path(),
            None => None,
        };
        self.ask(Request::EspFlash { profile: index });
        match path {
            Some(path) => self.effect(Effect::LoadElf { path, reload: false }),
            None => {},
        }
    }

    fn dispatch_profile(&mut self, name: &str, label: &str, at: Moment)
        requires
            old(self)@.wf(),
        ensures
            final(self)@ == old(self)@.dispatched(ActionView::EspFlashProfile(name@), label@, at),
            final(self)@.wf(),
    {
        proof {
            reveal(AppView::dispatched);
        }
        proof {
            reveal(crate::app::valid);
        }
        match self.espflash.index_from_name(name) {
            None => self.ask(Request::Fail(Fault::ProfileMissing)),
            Some(index) => {
                proof {
                    reveal(AppView::said);
                    reveal(AppView::effected);
                }
                let keys = concat3(" [", label, "]");
                self.say(concat3("espflash profile: ", name, keys.as_str()), Color::LightBlue);
                self.esp_flash_profile(index);
            },
        }
    }

    /// Does an action that keys asked for, and says how long to wait then.
    pub fn queued_keybind_action_dispatch(&mut self, action: &Action, label: &str, at: Moment) -> (r:
        Option<u64>)
        requires
            old(self)@.wf(),
        ensures
            final(self)@ == old(self)@.dispatched(action@, label@, at),
            final(self)@.wf(),
            r == old(self)@.wait_after(action@),
    {
        proof {
            reveal(AppView::dispatched);
        }
        let next_waits = if self.action_queue.len() > 0 {
            assert(self@.kept.queue[0] == self.action_queue@[0]@);
            match &self.action_queue[0].action {
                Action::Pause(_) => true,
                _ => false,
            }
        } else {
            false
        };
        let delay = if next_waits {
            None
        } else {
            Some(self.settings.behavior.action_chain_delay_ms)
        };
        match action {
            Action::Pause(ms) => {
                return Some(*ms);
            },
            Action::BuiltinAction(action) => self.run_builtin_action(*action, at),
            Action::MacroInvocation(tag) => self.send_one_macro(tag, Some(label)),
            Action::EspFlashProfile(name) => self.dispatch_profile(name.as_str(), label, at),
        }
        delay
    }

    fn clear_queue(&mut self)
        requires
            old(self)@.kept.queue.len() > 0,
        ensures
            final(self)@ == (old(self)@.said(
                    if old(self)@.kept.queue.len() == 1 {
                        "Port isn't ready! Not running action..."@
                    } else {
                        "Port isn't ready! Clearing "@ + crate::text::digits(
                            old(self)@.kept.queue.len(),
                            10,
                        ) + " queued actions..."@
                    },
                    Color::Red,
                ).with_queue(Seq::empty())),
            old(self)@.wf() ==> final(self)@.wf(),
    {
        let count: usize = self.action_queue.len();
        assert(count == self@.kept.queue.len());
        if count == 1 {
            self.say("Port isn't ready! Not running action...".to_owned(), Color::Red);
        } else {
            let digits = number(count as u64, 10);
            self.say(
                concat3("Port isn't ready! Clearing ", digits.as_str(), " queued actions..."),
                Color::Red,
            );
        }
        self.action_queue.clear();
        assert(crate::app::queue_views(self.action_queue@) =~= Seq::empty());
    }

    /// Does the next action in the queue, if the port allows it.
    pub fn consume_one_queued_action(&mut self, at: Moment)
        requires
            old(self)@.wf(),
        ensures
            final(self)@ == old(self)@.advanced(at),
            final(self)@.wf(),
    {
        proof {
            reveal(AppView::advanced);
        }
        assert(self.action_queue@.len() == self@.kept.queue.len());
        if self.action_queue.len() == 0 {
            return;
        }
        match at.status {
            InnerPortStatus::Connected { .. } => {},
            InnerPortStatus::LentOut { .. } => {
                self.ask(
                    Request::Oneshot {
                        timer: Timer::ActionQueue,
                        tick: Tick::Action,
                        after_ms: 500,
                    },
                );
                return;
            },
            _ => {
                self.clear_queue();
                return;
            },
        }
        let first = self.pop_queue();
        let delay: u64 = match self.queued_keybind_action_dispatch(
            &first.action,
            first.label.as_str(),
            at,
        ) {
            Some(ms) => ms,
            None => 0,
        };
        self.ask(
            Request::Oneshot { timer: Timer::ActionQueue, tick: Tick::Action, after_ms: delay },
        );
    }

    fn pop_queue(&mut self) -> (r: Queued)
        requires
            old(self)@.kept.queue.len() > 0,
        ensures
            r@ == old(self)@.kept.queue[0],
            final(self)@ == (old(self)@.with_queue(old(self)@.kept.queue.skip(1))),
            old(self)@.wf() ==> final(self)@.wf(),
    {
        let ghost before = self.action_queue@;
        assert(crate::app::queue_views(before)[0] == before[0]@);
        let first = self.action_queue.remove(0);
        assert(crate::app::queue_views(self.action_queue@) =~= crate::app::queue_views(
            before,
        ).skip(1));
        first
    }

    fn act(&mut self, action: &Action, label: &str, at: Moment)
        requires
            old(self)@.wf(),
        ensures
            final(self)@ == old(self)@.acted(action@, label@, at),
            final(self)@.wf(),
    {
        proof {
            reveal(AppView::acted);
        }
        if action.requires_connection() && !at.status.is_connected() {
            self.say(
                "Action requires healthy port connection! Not acting...".to_owned(),
                Color::Red,
            );
        } else if action.requires_terminal_view() && self.screen.menu != Menu::Terminal {
            self.say(
                "Action requires terminal view active! Not acting...".to_owned(),
                Color::Red,
            );
        } else {
            self.queued_keybind_action_dispatch(action, label, at);
        }
    }

    fn extend_queue(&mut self, actions: Vec<Action>, label: &str)
        ensures
            final(self)@ == (old(self)@.with_queue(old(self)@.kept.queue + action_views(actions@).map_values(
                    |action: ActionView| QueuedView { label: label@, action },
                ))),
            old(self)@.wf() ==> final(self)@.wf(),
    {
        let ghost before = self@.kept.queue;
        let ghost all = action_views(actions@).map_values(
            |action: ActionView| QueuedView { label: label@, action },
        );
        let mut rest = actions;
        let ghost start = *self;
        assert(before + all.take(0) =~= before);
        let total: usize = rest.len();
        let mut done: usize = 0;
        while rest.len() > 0
            invariant
                total == actions@.len(),
                done + rest@.len() == total,
                all == action_views(actions@).map_values(
                    |action: ActionView| QueuedView { label: label@, action },
                ),
                rest@ == actions@.skip(done as int),
                before == start@.kept.queue,
                self@ == (start@.with_queue(before + all.take(done as int))),
            decreases rest@.len(),
        {
            let ghost held = self.action_queue@;
            assert(rest@[0] == actions@[done as int]);
            let action = rest.remove(0);
            let queued = Queued { label: label.to_owned(), action };
            assert(queued@ == all[done as int]);
            self.action_queue.push(queued);
            proof {
                assert(crate::app::queue_views(self.action_queue@)
                    =~= crate::app::queue_views(held).push(queued@));
                assert(before + all.take(done as int + 1) =~= (before + all.take(
                    done as int,
                )).push(all[done as int]));
                assert(rest@ =~= actions@.skip(done + 1));
            }
            done += 1;
        }
        assert(all.take(done as int) =~= all);
    }

    /// Takes up what keys asked for: a single action is done at once, several wait
    /// for their turn.
    pub fn queue_keybinds_action_set(&mut self, actions: Vec<Action>, label: &str, at: Moment)
        requires
            old(self)@.wf(),
            actions@.len() > 0,
        ensures
            final(self)@ == old(self)@.queued(action_views(actions@), label@, at),
            final(self)@.wf(),
    {
        proof {
            reveal(AppView::queued);
        }
        if actions.len() == 1 {
            self.act(&actions[0], label, at);
        } else {
            self.extend_queue(actions, label);
            self.ask(Request::Emit(Tick::Action));
        }
    }
}

/// Some actions, as plain values.
pub open spec fn action_views(actions: Seq<Action>) -> Seq<ActionView> {
    actions.map_values(|a: Action| a@)
}

} // verus!
