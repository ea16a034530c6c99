//! The state of the program, and how it changes.

pub mod actions;
pub mod conduct;
pub mod effects;
pub mod enter;
pub mod events;
pub mod flow;
pub mod keyboard;
pub mod laws;
pub mod navigate;
pub mod outcomes;
pub mod places;
pub mod press;
pub mod prompts;
pub mod rules;

use tui_input::Input;
use vstd::prelude::*;
use vstd::string::*;

use crate::app::effects::{push_effect, Effect, EffectView, Request};
use crate::input_box::{new_input, Cut};
use crate::keybinds::{Action, ActionView, Keybinds};
use crate::line::Color;
use crate::macros::{Macros, MacrosView};
use crate::serial::port_status::InnerPortStatus;
use crate::serial::worker::Ignored;
use crate::serial::{PortView, ReconnectionStrictness, SerialPortInfo, UsbPortInfo, UsbView};
use crate::settings::{Settings, SettingsView, Updates};
use crate::text::number;
use crate::text_input::{TextInput, TextInputView};
use crate::tui::esp::EspFlashHelper;

verus! {

/// The baud rates on offer; the last one stands for any other.
pub const COMMON_BAUD: [u32; 11] = [
    4800,
    9600,
    19200,
    38400,
    57600,
    74880,
    115200,
    230400,
    460800,
    921600,
    0,
];

/// The position of the entry for any other baud rate.
pub const CUSTOM_BAUD: usize = 10;

/// The baud rate where none is set.
pub const DEFAULT_BAUD: u32 = 115200;

/// The baud rates on offer, without the entry for any other.
pub const COMMON_BAUD_TRUNC: [u32; 10] = [
    4800,
    9600,
    19200,
    38400,
    57600,
    74880,
    115200,
    230400,
    460800,
    921600,
];

/// How long the input stays red after a failed attempt to send.
pub const FAILED_SEND_VISUAL_TIME_MS: u64 = 750;

/// How long to wait for a connection.
pub const CONNECT_ATTEMPT_BLOCK_MAX_MS: u64 = 15000;

/// How long to wait for the list of ports.
pub const SCAN_BLOCK_MAX_MS: u64 = 5000;

/// Why a tick was asked for.
#[derive(Clone, Copy, Debug, PartialEq, Eq, Structural)]
pub enum TickOrigin {
    /// The input need not be red for much longer.
    FailedSend,
    /// The confirmation of an erasure is due.
    EraseFlash,
    /// The lines of the port changed.
    SerialSignals,
}

/// Something that comes up on its own.
#[derive(Clone, Copy, Debug, PartialEq, Eq, Structural)]
pub enum Tick {
    /// Every second.
    PerSecond,
    /// To look at something again.
    Requested(TickOrigin),
    /// Something was sent.
    Tx,
    /// Long texts are to move on.
    Scroll,
    /// A notification changes on the screen.
    Notification,
    /// The next action in the queue is due.
    Action,
}

/// What a tick is scheduled for; there is at most one of each.
#[derive(Clone, Copy, Debug, PartialEq, Eq, Structural)]
pub enum Timer {
    PerSecond,
    ScrollText,
    ActionQueue,
    UnhealthyTxUi,
    UnreadyEraseFlash,
    Notification,
}

/// The main screens.
#[derive(Clone, Copy, Debug, PartialEq, Eq, Structural)]
pub enum Menu {
    PortSelection,
    Terminal,
}

/// Whether the program goes on.
#[derive(Clone, Copy, Debug, PartialEq, Eq, Structural)]
pub enum RunningState {
    Running,
    Finished,
}

/// The menus with settings.
#[derive(Clone, Copy, Debug, PartialEq, Eq, Structural)]
pub enum SettingsMenu {
    SerialPort,
    Rendering,
    Behavior,
    Logging,
    Defmt,
}

impl SettingsMenu {
    /// The menu behind this one, or before it; they go round.
    pub open spec fn turned(self, next: bool) -> SettingsMenu {
        match self {
            SettingsMenu::SerialPort => if next {
                SettingsMenu::Rendering
            } else {
                SettingsMenu::Defmt
            },
            SettingsMenu::Rendering => if next {
                SettingsMenu::Behavior
            } else {
                SettingsMenu::SerialPort
            },
            SettingsMenu::Behavior => if next {
                SettingsMenu::Logging
            } else {
                SettingsMenu::Rendering
            },
            SettingsMenu::Logging => if next {
                SettingsMenu::Defmt
            } else {
                SettingsMenu::Behavior
            },
            SettingsMenu::Defmt => if next {
                SettingsMenu::SerialPort
            } else {
                SettingsMenu::Logging
            },
        }
    }

    /// The menu behind this one, or before it.
    pub fn turn(self, next: bool) -> (r: SettingsMenu)
        ensures
            r == self.turned(next),
    {
        match self {
            SettingsMenu::SerialPort => if next {
                SettingsMenu::Rendering
            } else {
                SettingsMenu::Defmt
            },
            SettingsMenu::Rendering => if next {
                SettingsMenu::Behavior
            } else {
                SettingsMenu::SerialPort
            },
            SettingsMenu::Behavior => if next {
                SettingsMenu::Logging
            } else {
                SettingsMenu::Rendering
            },
            SettingsMenu::Logging => if next {
                SettingsMenu::Defmt
            } else {
                SettingsMenu::Behavior
            },
            SettingsMenu::Defmt => if next {
                SettingsMenu::SerialPort
            } else {
                SettingsMenu::Logging
            },
        }
    }
}

/// The menus with tools.
#[derive(Clone, Copy, Debug, PartialEq, Eq, Structural)]
pub enum ToolMenu {
    Macros,
    EspFlash,
}

impl ToolMenu {
    /// The other menu.
    pub open spec fn other(self) -> ToolMenu {
        match self {
            ToolMenu::Macros => ToolMenu::EspFlash,
            ToolMenu::EspFlash => ToolMenu::Macros,
        }
    }

    /// The other menu.
    pub fn turn(self) -> (r: ToolMenu)
        ensures
            r == self.other(),
    {
        match self {
            ToolMenu::Macros => ToolMenu::EspFlash,
            ToolMenu::EspFlash => ToolMenu::Macros,
        }
    }
}

/// What lies above the main screens.
#[derive(Debug)]
pub enum Popup {
    SettingsMenu(SettingsMenu),
    ToolMenu(ToolMenu),
    CurrentKeybinds,
    DefmtNewElf,
    DefmtRecentElf,
    DisconnectPrompt,
    AttemptReconnectPrompt,
    IgnoreByUsb(String, UsbPortInfo),
    IgnoreByName(String),
    SerialConnectionFailed(String),
    UpdateCheckConsentPrompt,
    UpdateBeginPrompt,
    UpdateLaunchPrompt,
    UpdateDownloading,
}

/// What lies above the main screens, as plain values.
#[verifier::ext_equal]
pub enum PopupView {
    SettingsMenu(SettingsMenu),
    ToolMenu(ToolMenu),
    CurrentKeybinds,
    DefmtNewElf,
    DefmtRecentElf,
    DisconnectPrompt,
    AttemptReconnectPrompt,
    IgnoreByUsb(Seq<char>, UsbView),
    IgnoreByName(Seq<char>),
    SerialConnectionFailed(Seq<char>),
    UpdateCheckConsentPrompt,
    UpdateBeginPrompt,
    UpdateLaunchPrompt,
    UpdateDownloading,
}

impl View for Popup {
    type V = PopupView;

    open spec fn view(&self) -> PopupView {
        match self {
            Popup::SettingsMenu(m) => PopupView::SettingsMenu(*m),
            Popup::ToolMenu(m) => PopupView::ToolMenu(*m),
            Popup::CurrentKeybinds => PopupView::CurrentKeybinds,
            Popup::DefmtNewElf => PopupView::DefmtNewElf,
            Popup::DefmtRecentElf => PopupView::DefmtRecentElf,
            Popup::DisconnectPrompt => PopupView::DisconnectPrompt,
            Popup::AttemptReconnectPrompt => PopupView::AttemptReconnectPrompt,
            Popup::IgnoreByUsb(name, usb) => PopupView::IgnoreByUsb(name@, usb@),
            Popup::IgnoreByName(name) => PopupView::IgnoreByName(name@),
            Popup::SerialConnectionFailed(error) => PopupView::SerialConnectionFailed(error@),
            Popup::UpdateCheckConsentPrompt => PopupView::UpdateCheckConsentPrompt,
            Popup::UpdateBeginPrompt => PopupView::UpdateBeginPrompt,
            Popup::UpdateLaunchPrompt => PopupView::UpdateLaunchPrompt,
            Popup::UpdateDownloading => PopupView::UpdateDownloading,
        }
    }
}

impl Popup {
    fn picks_recent(&self) -> (r: bool)
        ensures
            r == (self@ is DefmtRecentElf),
    {
        match self {
            Popup::DefmtRecentElf => true,
            _ => false,
        }
    }

    fn at_top(&self) -> (r: bool)
        ensures
            r == AppView::opens_at_top(self@),
    {
        match self {
            Popup::CurrentKeybinds => true,
            Popup::AttemptReconnectPrompt => true,
            Popup::DisconnectPrompt => true,
            Popup::IgnoreByName(_) => true,
            Popup::IgnoreByUsb(_, _) => true,
            Popup::UpdateBeginPrompt => true,
            Popup::UpdateCheckConsentPrompt => true,
            Popup::DefmtRecentElf => true,
            _ => false,
        }
    }

    /// Whether this is a menu.
    pub fn is_menu(&self) -> (r: bool)
        ensures
            r == (self@ is SettingsMenu || self@ is ToolMenu),
    {
        match self {
            Popup::SettingsMenu(_) => true,
            Popup::ToolMenu(_) => true,
            _ => false,
        }
    }
}

/// Something that must not happen.
#[derive(Clone, Copy, Debug, PartialEq, Eq, Structural)]
pub enum Fault {
    /// Something other than digits stands among the bytes that were typed.
    DigitsBroken,
    /// The row that is selected is not there.
    NothingSelected,
    /// A macro to be sent is not there.
    MacroNotFound,
    /// A macro to be sent is empty.
    MacroEmpty,
    /// A profile to be flashed is not there.
    ProfileMissing,
    /// Profiles were to be loaded while one is in use.
    ProfilesInUse,
    /// A prompt has nothing to ask about.
    PromptWithoutSubject,
    /// A connection was reported, but no port is known.
    NoCurrentPort,
    /// The work on a device made progress that was never begun.
    StrayProgress,
    /// An update could not be installed.
    UpdateFailed,
    /// A key cannot be encoded for a terminal.
    KeyBeyondCode,
}

/// Where everything on the screens stands.
#[derive(Clone, Copy, Debug, PartialEq, Eq, Structural)]
pub struct Screen {
    pub state: RunningState,
    pub menu: Menu,
    pub port_selection_scroll: usize,
    /// Which of the baud rates on offer is selected.
    pub baud_index: usize,
    /// Which row of the pop-up is selected.
    pub popup_menu_scroll: usize,
    /// How far the hint of the pop-up has moved.
    pub popup_hint_scroll: i32,
    pub repeating_line_flip: bool,
    /// When sending last failed, in milliseconds.
    pub failed_send_at: Option<u64>,
    /// The next key is not sent to the port.
    pub escape_next_keypress: bool,
    /// The user broke the connection but stays in the terminal.
    pub user_broke_connection: bool,
}

/// How many rows the settings menus have, and what the system does.
#[derive(Clone, Copy, Debug, PartialEq, Eq, Structural)]
pub struct Layout {
    pub serial_rows: u16,
    pub rendering_rows: u16,
    pub behavior_rows: u16,
    pub logging_rows: u16,
    pub defmt_rows: u16,
    /// A new version is started in a window of its own.
    pub new_window: bool,
}

/// What is known of the port, and the time in milliseconds.
#[derive(Clone, Copy, Debug, PartialEq, Eq, Structural)]
pub struct Moment {
    pub now: u64,
    pub status: InnerPortStatus,
    pub has_port: bool,
    pub reconnections: ReconnectionStrictness,
    /// The notification on the screen.
    pub notice: Option<ShownNotice>,
}

/// A notification on the screen: for how long it has been there, whether it took
/// the place of another, and how long its phases take, in milliseconds.
#[derive(Clone, Copy, Debug, PartialEq, Eq, Structural)]
pub struct ShownNotice {
    pub shown_for: u64,
    pub replaced: bool,
    pub emerge: u64,
    pub expand: u64,
    pub pause_and_show: u64,
}

/// An action that waits for its turn, and the keys that asked for it.
#[derive(Debug)]
pub struct Queued {
    pub label: String,
    pub action: Action,
}

/// An action that waits for its turn, as plain values.
#[verifier::ext_equal]
pub struct QueuedView {
    pub label: Seq<char>,
    pub action: ActionView,
}

impl View for Queued {
    type V = QueuedView;

    open spec fn view(&self) -> QueuedView {
        QueuedView { label: self.label@, action: self.action@ }
    }
}

/// The actions that wait, as plain values.
pub open spec fn queue_views(queue: Seq<Queued>) -> Seq<QueuedView> {
    queue.map_values(|q: Queued| q@)
}

/// The state of the program.
pub struct App {
    pub screen: Screen,
    pub popup: Option<Popup>,
    pub settings: Settings,
    /// What is being edited.
    pub scratch: Settings,
    pub baud_input: Input,
    pub ports: Vec<SerialPortInfo>,
    pub text_input: TextInput,
    pub keybinds: Keybinds,
    pub macros: Macros,
    pub action_queue: Vec<Queued>,
    pub espflash: EspFlashHelper,
    pub skip_erase_confirm: bool,
    pub recent_elfs: Vec<String>,
    pub ignored_devices: Ignored,
    pub updates: Updates,
    pub update_found_version: Option<String>,
    /// What was last sent for a key.
    pub last_raw_sequence: Vec<u8>,
    pub layout: Layout,
    /// What is still to be done.
    pub outbox: Vec<Effect>,
}

/// The devices that are not offered, as plain values.
#[verifier::ext_equal]
pub struct IgnoredView {
    pub names: Seq<Seq<char>>,
    pub usb: Seq<UsbView>,
    pub show_ttys_ports: bool,
    pub hide_loopback_port: bool,
}

/// What is on the screen.
#[verifier::ext_equal]
pub struct UiView {
    pub screen: Screen,
    pub popup: Option<PopupView>,
}

/// What can be edited.
#[verifier::ext_equal]
pub struct EditView {
    pub settings: SettingsView,
    pub scratch: SettingsView,
    pub baud_text: Seq<char>,
    pub baud_cursor: nat,
    pub baud_cut: Cut,
}

/// What else is kept.
#[verifier::ext_equal]
pub struct KeptView {
    pub ports: Seq<PortView>,
    pub text_input: TextInputView,
    pub keybinds: Keybinds,
    pub macros: MacrosView,
    pub queue: Seq<QueuedView>,
    pub espflash: EspFlashHelper,
    pub skip_erase_confirm: bool,
    pub recent_elfs: Seq<Seq<char>>,
    pub ignored: IgnoredView,
    pub updates: Updates,
    pub update_found_version: Option<String>,
    pub last_raw_sequence: Seq<u8>,
    pub layout: Layout,
}

/// The state of the program, as plain values.
#[verifier::ext_equal]
pub struct AppView {
    pub ui: UiView,
    pub edit: EditView,
    pub kept: KeptView,
    /// What is still to be done.
    pub outbox: Seq<EffectView>,
}

/// What some USB devices are.
pub open spec fn usb_views(usb: Seq<UsbPortInfo>) -> Seq<UsbView> {
    usb.map_values(|u: UsbPortInfo| u@)
}

impl View for App {
    type V = AppView;

    open spec fn view(&self) -> AppView {
        AppView {
            ui: UiView {
                screen: self.screen,
                popup: match self.popup {
                    Some(p) => Some(p@),
                    None => None,
                },
            },
            edit: EditView {
                settings: self.settings@,
                scratch: self.scratch@,
                baud_text: crate::input_box::input_text(self.baud_input),
                baud_cursor: crate::input_box::input_cursor(self.baud_input),
                baud_cut: crate::input_box::input_cut(self.baud_input),
            },
            kept: KeptView {
                ports: crate::serial::port_views(self.ports@),
                text_input: self.text_input@,
                keybinds: self.keybinds,
                macros: self.macros@,
                queue: queue_views(self.action_queue@),
                espflash: self.espflash,
                skip_erase_confirm: self.skip_erase_confirm,
                recent_elfs: crate::text::texts(self.recent_elfs@),
                ignored: IgnoredView {
                    names: crate::text::texts(self.ignored_devices.name@),
                    usb: usb_views(self.ignored_devices.usb@),
                    show_ttys_ports: self.ignored_devices.show_ttys_ports,
                    hide_loopback_port: self.ignored_devices.hide_loopback_port,
                },
                updates: self.updates,
                update_found_version: self.update_found_version,
                last_raw_sequence: self.last_raw_sequence@,
                layout: self.layout,
            },
            outbox: crate::app::effects::effect_views(self.outbox@),
        }
    }
}

/// Whether what is kept is valid: the text input, the bindings, the number of
/// profiles and the selected baud rate.
#[verifier::opaque]
pub open spec fn valid(
    input: TextInputView,
    keybinds: Keybinds,
    profiles: nat,
    baud_index: usize,
) -> bool {
    &&& input.wf()
    &&& keybinds.wf()
    &&& profiles <= usize::MAX
    &&& baud_index <= CUSTOM_BAUD
}

impl AppView {
    /// What is kept is valid.
    pub open spec fn wf(self) -> bool {
        valid(
            self.kept.text_input,
            self.kept.keybinds,
            self.kept.espflash.count(),
            self.ui.screen.baud_index,
        )
    }

    /// With another value of this part.
    pub open spec fn with_screen(self, screen: Screen) -> AppView {
        AppView { ui: UiView { screen, ..self.ui }, ..self }
    }

    /// With another value of this part.
    pub open spec fn with_settings(self, settings: SettingsView) -> AppView {
        AppView { edit: EditView { settings, ..self.edit }, ..self }
    }

    /// With another value of this part.
    pub open spec fn with_scratch(self, scratch: SettingsView) -> AppView {
        AppView { edit: EditView { scratch, ..self.edit }, ..self }
    }

    /// With another value of this part.
    pub open spec fn with_ports(self, ports: Seq<PortView>) -> AppView {
        AppView { kept: KeptView { ports, ..self.kept }, ..self }
    }

    /// With another value of this part.
    pub open spec fn with_text_input(self, text_input: TextInputView) -> AppView {
        AppView { kept: KeptView { text_input, ..self.kept }, ..self }
    }

    /// With another value of this part.
    pub open spec fn with_macros(self, macros: MacrosView) -> AppView {
        AppView { kept: KeptView { macros, ..self.kept }, ..self }
    }

    /// With another value of this part.
    pub open spec fn with_queue(self, queue: Seq<QueuedView>) -> AppView {
        AppView { kept: KeptView { queue, ..self.kept }, ..self }
    }

    /// With another value of this part.
    pub open spec fn with_espflash(self, espflash: EspFlashHelper) -> AppView {
        AppView { kept: KeptView { espflash, ..self.kept }, ..self }
    }

    /// With another value of this part.
    pub open spec fn with_ignored(self, ignored: IgnoredView) -> AppView {
        AppView { kept: KeptView { ignored, ..self.kept }, ..self }
    }

    /// With another value of this part.
    pub open spec fn with_updates(self, updates: Updates) -> AppView {
        AppView { kept: KeptView { updates, ..self.kept }, ..self }
    }

    /// With another value of this part.
    pub open spec fn with_update_found_version(self, update_found_version: Option<String>) -> AppView {
        AppView { kept: KeptView { update_found_version, ..self.kept }, ..self }
    }

    /// With another value of this part.
    pub open spec fn with_outbox(self, outbox: Seq<EffectView>) -> AppView {
        AppView { outbox, ..self }
    }

    /// With another baud rate in the box for it, and the cursor behind it.
    pub open spec fn with_baud(self, baud: Seq<char>) -> AppView {
        AppView {
            edit: EditView {
                baud_text: baud,
                baud_cursor: baud.len(),
                baud_cut: Cut::nothing(),
                ..self.edit
            },
            ..self
        }
    }

    /// With one more thing to do.
    #[verifier::opaque]
    pub open spec fn asked(self, request: Request) -> AppView {
        self.with_outbox(self.outbox.push(EffectView::Request(request)))
    }

    /// With one more thing to do.
    #[verifier::opaque]
    pub open spec fn effected(self, effect: EffectView) -> AppView {
        self.with_outbox(self.outbox.push(effect))
    }

    /// With something told to the user.
    #[verifier::opaque]
    pub open spec fn said(self, text: Seq<char>, color: Color) -> AppView {
        self.effected(EffectView::Notify { italic: Seq::empty(), text, color })
    }

    /// With the program ended.
    pub open spec fn ended(self) -> AppView {
        self.with_screen(Screen { state: RunningState::Finished, ..self.ui.screen })
    }

    /// With everything that was being edited given up.
    #[verifier::opaque]
    pub open spec fn refreshed(self) -> AppView {
        let baud = crate::text::digits(self.edit.settings.serial.baud_rate as nat, 10);
        self.with_scratch(self.edit.settings).with_espflash(
            EspFlashHelper { unchecked_bootloader: false, ..self.kept.espflash },
        ).with_baud(baud)
    }

    /// With a row of the pop-up selected, and its hint at rest.
    pub open spec fn at_row(self, row: usize) -> AppView {
        self.with_screen(Screen { popup_menu_scroll: row, popup_hint_scroll: -2i32, ..self.ui.screen })
    }

    /// With a pop-up or none.
    pub open spec fn with_popup(self, popup: Option<PopupView>) -> AppView {
        AppView { ui: UiView { popup, ..self.ui }, ..self }
    }

    /// With the pop-up closed, unless it is one that must not be.
    #[verifier::opaque]
    pub open spec fn dismissed(self) -> AppView {
        if self.ui.popup == Some(PopupView::UpdateDownloading) || self.ui.popup == Some(
            PopupView::UpdateLaunchPrompt,
        ) {
            self
        } else {
            self.refreshed().with_popup(None).at_row(0)
        }
    }

    /// Whether the first row of a pop-up is selected when it opens, rather than
    /// the selector of menus.
    pub open spec fn opens_at_top(popup: PopupView) -> bool {
        match popup {
            PopupView::CurrentKeybinds => true,
            PopupView::AttemptReconnectPrompt => true,
            PopupView::DisconnectPrompt => true,
            PopupView::IgnoreByName(_) => true,
            PopupView::IgnoreByUsb(_, _) => true,
            PopupView::UpdateBeginPrompt => true,
            PopupView::UpdateCheckConsentPrompt => true,
            PopupView::DefmtRecentElf => true,
            _ => false,
        }
    }

    /// With a pop-up opened.
    #[verifier::opaque]
    pub open spec fn shown(self, popup: PopupView) -> AppView {
        if popup is DefmtRecentElf && self.kept.recent_elfs.len() == 0 {
            self.said("No recent ELFs to select from! Try loading some!"@, Color::Red)
        } else {
            let row: usize = if Self::opens_at_top(popup) {
                0
            } else {
                1
            };
            let open = self.with_popup(Some(popup)).refreshed().at_row(row);
            if popup is SettingsMenu || popup is ToolMenu {
                open.asked(Request::Emit(Tick::Scroll))
            } else {
                open
            }
        }
    }
}

impl App {
    /// Asks for something.
    pub(crate) fn ask(&mut self, request: Request)
        ensures
            final(self)@ == old(self)@.asked(request),
            old(self)@.wf() ==> final(self)@.wf(),
    {
        proof {
            reveal(AppView::asked);
        }
        push_effect(&mut self.outbox, Effect::Request(request));
    }

    /// Adds something to be done.
    pub(crate) fn effect(&mut self, effect: Effect)
        ensures
            final(self)@ == old(self)@.effected(effect@),
            old(self)@.wf() ==> final(self)@.wf(),
    {
        proof {
            reveal(AppView::effected);
        }
        push_effect(&mut self.outbox, effect);
    }

    /// Tells the user something.
    pub(crate) fn say(&mut self, text: String, color: Color)
        ensures
            final(self)@ == old(self)@.said(text@, color),
            old(self)@.wf() ==> final(self)@.wf(),
    {
        proof {
            reveal(AppView::said);
            reveal(AppView::effected);
        }
        let italic = String::new();
        assert(italic@ =~= Seq::<char>::empty());
        push_effect(&mut self.outbox, Effect::Notify { italic, text, color });
    }

    /// Hands out what is to be done.
    pub fn take_effects(&mut self) -> (r: Vec<Effect>)
        ensures
            crate::app::effects::effect_views(r@) == old(self)@.outbox,
            final(self)@ == (old(self)@.with_outbox(Seq::empty())),
            old(self)@.wf() ==> final(self)@.wf(),
    {
        let mut taken: Vec<Effect> = Vec::new();
        std::mem::swap(&mut taken, &mut self.outbox);
        assert(crate::app::effects::effect_views(self.outbox@) =~= Seq::empty());
        taken
    }

    /// Ends the program.
    pub fn shutdown(&mut self)
        ensures
            final(self)@ == old(self)@.ended(),
            old(self)@.wf() ==> final(self)@.wf(),
    {
        self.screen.state = RunningState::Finished;
    }

    /// Whether the program goes on.
    pub fn is_running(&self) -> (r: bool)
        ensures
            r == (self@.ui.screen.state is Running),
    {
        self.screen.state == RunningState::Running
    }

    /// Gives up everything that was being edited.
    pub fn refresh_scratch(&mut self)
        ensures
            final(self)@ == old(self)@.refreshed(),
            old(self)@.wf() ==> final(self)@.wf(),
    {
        proof {
            reveal(AppView::refreshed);
        }
        self.scratch = self.settings.duplicate();
        self.espflash.unchecked_bootloader = false;
        self.baud_input = new_input(number(self.settings.serial.baud_rate as u64, 10));
    }

    fn go_to_row(&mut self, row: usize)
        ensures
            final(self)@ == old(self)@.at_row(row),
            old(self)@.wf() ==> final(self)@.wf(),
    {
        self.screen.popup_menu_scroll = row;
        self.screen.popup_hint_scroll = -2;
    }

    /// Opens a pop-up.
    pub fn show_popup(&mut self, popup: Popup)
        ensures
            final(self)@ == old(self)@.shown(popup@),
            old(self)@.wf() ==> final(self)@.wf(),
    {
        proof {
            reveal(AppView::shown);
        }
        if popup.picks_recent() && self.recent_elfs.len() == 0 {
            self.say(
                "No recent ELFs to select from! Try loading some!".to_owned(),
                Color::Red,
            );
            return;
        }
        let row: usize = if popup.at_top() {
            0
        } else {
            1
        };
        let scrolls = popup.is_menu();
        self.popup = Some(popup);
        self.refresh_scratch();
        self.go_to_row(row);
        if scrolls {
            self.ask(Request::Emit(Tick::Scroll));
        }
    }

    /// Closes the pop-up, unless it is one that must not be.
    pub fn dismiss_popup(&mut self)
        ensures
            final(self)@ == old(self)@.dismissed(),
            old(self)@.wf() ==> final(self)@.wf(),
    {
        proof {
            reveal(AppView::dismissed);
        }
        match &self.popup {
            Some(Popup::UpdateDownloading) | Some(Popup::UpdateLaunchPrompt) => {
                return;
            },
            _ => {},
        }
        self.refresh_scratch();
        self.popup = None;
        self.go_to_row(0);
    }
}

} // verus!
