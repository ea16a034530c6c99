//! Actions, and the keys that they are bound to.

use vstd::prelude::*;
use vstd::string::*;

use crate::keys::KeyEvent;
use crate::macros::{MacroNameTag, TagView};
use crate::text::{eq_ignore_ascii_case, trim};
use crate::traits::RequiresPort;

verus! {

/// Opens or closes a pop-up.
#[derive(Clone, Copy, Debug, PartialEq, Eq, Structural)]
pub enum ShowPopupAction {
    ShowKeybinds,
    ShowPortSettings,
    ShowBehavior,
    ShowRendering,
    ShowMacros,
    ShowEspFlash,
    ShowLogging,
    ShowDefmt,
}

/// Acts on the port.
#[derive(Clone, Copy, Debug, PartialEq, Eq, Structural)]
pub enum PortAction {
    ToggleDtr,
    ToggleRts,
    AssertDtr,
    DeassertDtr,
    AssertRts,
    DeassertRts,
    AttemptReconnectStrict,
    AttemptReconnectLoose,
}

/// Acts on the program itself.
#[derive(Clone, Copy, Debug, PartialEq, Eq, Structural)]
pub enum BaseAction {
    ToggleTextwrap,
    ToggleTimestamps,
    ToggleIndices,
    ToggleIndicesHex,
    ToggleHexView,
    ToggleHexViewHeader,
    TogglePseudoShell,
    TogglePseudoShellHex,
    EscapeKeypress,
    ReloadColors,
    ReloadKeybinds,
}

/// Acts on the macros.
#[derive(Clone, Copy, Debug, PartialEq, Eq, Structural)]
pub enum MacroBuiltinAction {
    ReloadMacros,
}

/// Acts on the log.
#[derive(Clone, Copy, Debug, PartialEq, Eq, Structural)]
pub enum LoggingAction {
    Sync,
}

/// Acts on an Espressif device.
#[derive(Clone, Copy, Debug, PartialEq, Eq, Structural)]
pub enum EspBuiltinAction {
    EspHardReset,
    EspBootloader,
    EspBootloaderUnchecked,
    EspDeviceInfo,
    EspEraseFlash,
    ReloadProfiles,
}

/// Asks for a file with `defmt` messages.
#[derive(Clone, Copy, Debug, PartialEq, Eq, Structural)]
pub enum DefmtSelectAction {
    SelectRecent,
    SelectTui,
    SelectSystem,
}

/// An action that is always there.
#[derive(Clone, Copy, Debug, PartialEq, Eq, Structural)]
pub enum BuiltinAction {
    Popup(ShowPopupAction),
    Port(PortAction),
    Base(BaseAction),
    MacroBuiltin(MacroBuiltinAction),
    Logging(LoggingAction),
    EspBuiltin(EspBuiltinAction),
    ShowDefmtSelect(DefmtSelectAction),
}

/// How many actions are always there.
pub const BUILTIN_ACTION_COUNT: usize = 38;

/// The actions that are always there, in the order in which they are listed.
pub open spec fn builtin_actions() -> Seq<BuiltinAction> {
    seq![
        BuiltinAction::Popup(ShowPopupAction::ShowKeybinds),
        BuiltinAction::Popup(ShowPopupAction::ShowPortSettings),
        BuiltinAction::Popup(ShowPopupAction::ShowBehavior),
        BuiltinAction::Popup(ShowPopupAction::ShowRendering),
        BuiltinAction::Popup(ShowPopupAction::ShowMacros),
        BuiltinAction::Popup(ShowPopupAction::ShowEspFlash),
        BuiltinAction::Popup(ShowPopupAction::ShowLogging),
        BuiltinAction::Popup(ShowPopupAction::ShowDefmt),
        BuiltinAction::Port(PortAction::ToggleDtr),
        BuiltinAction::Port(PortAction::ToggleRts),
        BuiltinAction::Port(PortAction::AssertDtr),
        BuiltinAction::Port(PortAction::DeassertDtr),
        BuiltinAction::Port(PortAction::AssertRts),
        BuiltinAction::Port(PortAction::DeassertRts),
        BuiltinAction::Port(PortAction::AttemptReconnectStrict),
        BuiltinAction::Port(PortAction::AttemptReconnectLoose),
        BuiltinAction::Base(BaseAction::ToggleTextwrap),
        BuiltinAction::Base(BaseAction::ToggleTimestamps),
        BuiltinAction::Base(BaseAction::ToggleIndices),
        BuiltinAction::Base(BaseAction::ToggleIndicesHex),
        BuiltinAction::Base(BaseAction::ToggleHexView),
        BuiltinAction::Base(BaseAction::ToggleHexViewHeader),
        BuiltinAction::Base(BaseAction::TogglePseudoShell),
        BuiltinAction::Base(BaseAction::TogglePseudoShellHex),
        BuiltinAction::Base(BaseAction::EscapeKeypress),
        BuiltinAction::Base(BaseAction::ReloadColors),
        BuiltinAction::Base(BaseAction::ReloadKeybinds),
        BuiltinAction::MacroBuiltin(MacroBuiltinAction::ReloadMacros),
        BuiltinAction::Logging(LoggingAction::Sync),
        BuiltinAction::EspBuiltin(EspBuiltinAction::EspHardReset),
        BuiltinAction::EspBuiltin(EspBuiltinAction::EspBootloader),
        BuiltinAction::EspBuiltin(EspBuiltinAction::EspBootloaderUnchecked),
        BuiltinAction::EspBuiltin(EspBuiltinAction::EspDeviceInfo),
        BuiltinAction::EspBuiltin(EspBuiltinAction::EspEraseFlash),
        BuiltinAction::EspBuiltin(EspBuiltinAction::ReloadProfiles),
        BuiltinAction::ShowDefmtSelect(DefmtSelectAction::SelectRecent),
        BuiltinAction::ShowDefmtSelect(DefmtSelectAction::SelectTui),
        BuiltinAction::ShowDefmtSelect(DefmtSelectAction::SelectSystem),
    ]
}

impl BuiltinAction {
    /// What the action is called.
    pub open spec fn title(self) -> Seq<char> {
        match self {
            BuiltinAction::Popup(ShowPopupAction::ShowKeybinds) => "show-keybinds"@,
            BuiltinAction::Popup(ShowPopupAction::ShowPortSettings) => "show-port-settings"@,
            BuiltinAction::Popup(ShowPopupAction::ShowBehavior) => "show-behavior"@,
            BuiltinAction::Popup(ShowPopupAction::ShowRendering) => "show-rendering"@,
            BuiltinAction::Popup(ShowPopupAction::ShowMacros) => "show-macros"@,
            BuiltinAction::Popup(ShowPopupAction::ShowEspFlash) => "show-esp-flash"@,
            BuiltinAction::Popup(ShowPopupAction::ShowLogging) => "show-logging"@,
            BuiltinAction::Popup(ShowPopupAction::ShowDefmt) => "show-defmt"@,
            BuiltinAction::Port(PortAction::ToggleDtr) => "toggle-dtr"@,
            BuiltinAction::Port(PortAction::ToggleRts) => "toggle-rts"@,
            BuiltinAction::Port(PortAction::AssertDtr) => "assert-dtr"@,
            BuiltinAction::Port(PortAction::DeassertDtr) => "deassert-dtr"@,
            BuiltinAction::Port(PortAction::AssertRts) => "assert-rts"@,
            BuiltinAction::Port(PortAction::DeassertRts) => "deassert-rts"@,
            BuiltinAction::Port(PortAction::AttemptReconnectStrict) => "attempt-reconnect-strict"@,
            BuiltinAction::Port(PortAction::AttemptReconnectLoose) => "attempt-reconnect-loose"@,
            BuiltinAction::Base(BaseAction::ToggleTextwrap) => "toggle-textwrap"@,
            BuiltinAction::Base(BaseAction::ToggleTimestamps) => "toggle-timestamps"@,
            BuiltinAction::Base(BaseAction::ToggleIndices) => "toggle-indices"@,
            BuiltinAction::Base(BaseAction::ToggleIndicesHex) => "toggle-indices-hex"@,
            BuiltinAction::Base(BaseAction::ToggleHexView) => "toggle-hex-view"@,
            BuiltinAction::Base(BaseAction::ToggleHexViewHeader) => "toggle-hex-view-header"@,
            BuiltinAction::Base(BaseAction::TogglePseudoShell) => "toggle-pseudo-shell"@,
            BuiltinAction::Base(BaseAction::TogglePseudoShellHex) => "toggle-pseudo-shell-hex"@,
            BuiltinAction::Base(BaseAction::EscapeKeypress) => "escape-keypress"@,
            BuiltinAction::Base(BaseAction::ReloadColors) => "reload-colors"@,
            BuiltinAction::Base(BaseAction::ReloadKeybinds) => "reload-keybinds"@,
            BuiltinAction::MacroBuiltin(MacroBuiltinAction::ReloadMacros) => "reload-macros"@,
            BuiltinAction::Logging(LoggingAction::Sync) => "sync"@,
            BuiltinAction::EspBuiltin(EspBuiltinAction::EspHardReset) => "esp-hard-reset"@,
            BuiltinAction::EspBuiltin(EspBuiltinAction::EspBootloader) => "esp-bootloader"@,
            BuiltinAction::EspBuiltin(EspBuiltinAction::EspBootloaderUnchecked) => "esp-bootloader-unchecked"@,
            BuiltinAction::EspBuiltin(EspBuiltinAction::EspDeviceInfo) => "esp-device-info"@,
            BuiltinAction::EspBuiltin(EspBuiltinAction::EspEraseFlash) => "esp-erase-flash"@,
            BuiltinAction::EspBuiltin(EspBuiltinAction::ReloadProfiles) => "reload-profiles"@,
            BuiltinAction::ShowDefmtSelect(DefmtSelectAction::SelectRecent) => "select-recent"@,
            BuiltinAction::ShowDefmtSelect(DefmtSelectAction::SelectTui) => "select-tui"@,
            BuiltinAction::ShowDefmtSelect(DefmtSelectAction::SelectSystem) => "select-system"@,
        }
    }

    /// What the action is called.
    pub fn as_text(self) -> (r: &'static str)
        ensures
            r@ == self.title(),
    {
        match self {
            BuiltinAction::Popup(ShowPopupAction::ShowKeybinds) => "show-keybinds",
            BuiltinAction::Popup(ShowPopupAction::ShowPortSettings) => "show-port-settings",
            BuiltinAction::Popup(ShowPopupAction::ShowBehavior) => "show-behavior",
            BuiltinAction::Popup(ShowPopupAction::ShowRendering) => "show-rendering",
            BuiltinAction::Popup(ShowPopupAction::ShowMacros) => "show-macros",
            BuiltinAction::Popup(ShowPopupAction::ShowEspFlash) => "show-esp-flash",
            BuiltinAction::Popup(ShowPopupAction::ShowLogging) => "show-logging",
            BuiltinAction::Popup(ShowPopupAction::ShowDefmt) => "show-defmt",
            BuiltinAction::Port(PortAction::ToggleDtr) => "toggle-dtr",
            BuiltinAction::Port(PortAction::ToggleRts) => "toggle-rts",
            BuiltinAction::Port(PortAction::AssertDtr) => "assert-dtr",
            BuiltinAction::Port(PortAction::DeassertDtr) => "deassert-dtr",
            BuiltinAction::Port(PortAction::AssertRts) => "assert-rts",
            BuiltinAction::Port(PortAction::DeassertRts) => "deassert-rts",
            BuiltinAction::Port(PortAction::AttemptReconnectStrict) => "attempt-reconnect-strict",
            BuiltinAction::Port(PortAction::AttemptReconnectLoose) => "attempt-reconnect-loose",
            BuiltinAction::Base(BaseAction::ToggleTextwrap) => "toggle-textwrap",
            BuiltinAction::Base(BaseAction::ToggleTimestamps) => "toggle-timestamps",
            BuiltinAction::Base(BaseAction::ToggleIndices) => "toggle-indices",
            BuiltinAction::Base(BaseAction::ToggleIndicesHex) => "toggle-indices-hex",
            BuiltinAction::Base(BaseAction::ToggleHexView) => "toggle-hex-view",
            BuiltinAction::Base(BaseAction::ToggleHexViewHeader) => "toggle-hex-view-header",
            BuiltinAction::Base(BaseAction::TogglePseudoShell) => "toggle-pseudo-shell",
            BuiltinAction::Base(BaseAction::TogglePseudoShellHex) => "toggle-pseudo-shell-hex",
            BuiltinAction::Base(BaseAction::EscapeKeypress) => "escape-keypress",
            BuiltinAction::Base(BaseAction::ReloadColors) => "reload-colors",
            BuiltinAction::Base(BaseAction::ReloadKeybinds) => "reload-keybinds",
            BuiltinAction::MacroBuiltin(MacroBuiltinAction::ReloadMacros) => "reload-macros",
            BuiltinAction::Logging(LoggingAction::Sync) => "sync",
            BuiltinAction::EspBuiltin(EspBuiltinAction::EspHardReset) => "esp-hard-reset",
            BuiltinAction::EspBuiltin(EspBuiltinAction::EspBootloader) => "esp-bootloader",
            BuiltinAction::EspBuiltin(EspBuiltinAction::EspBootloaderUnchecked) => "esp-bootloader-unchecked",
            BuiltinAction::EspBuiltin(EspBuiltinAction::EspDeviceInfo) => "esp-device-info",
            BuiltinAction::EspBuiltin(EspBuiltinAction::EspEraseFlash) => "esp-erase-flash",
            BuiltinAction::EspBuiltin(EspBuiltinAction::ReloadProfiles) => "reload-profiles",
            BuiltinAction::ShowDefmtSelect(DefmtSelectAction::SelectRecent) => "select-recent",
            BuiltinAction::ShowDefmtSelect(DefmtSelectAction::SelectTui) => "select-tui",
            BuiltinAction::ShowDefmtSelect(DefmtSelectAction::SelectSystem) => "select-system",
        }
    }

    /// The action at a place in the list.
    pub fn at(index: usize) -> (r: Option<BuiltinAction>)
        ensures
            r == (if index < builtin_actions().len() {
                Some(builtin_actions()[index as int])
            } else {
                None
            }),
    {
        match index {
            0 => Some(BuiltinAction::Popup(ShowPopupAction::ShowKeybinds)),
            1 => Some(BuiltinAction::Popup(ShowPopupAction::ShowPortSettings)),
            2 => Some(BuiltinAction::Popup(ShowPopupAction::ShowBehavior)),
            3 => Some(BuiltinAction::Popup(ShowPopupAction::ShowRendering)),
            4 => Some(BuiltinAction::Popup(ShowPopupAction::ShowMacros)),
            5 => Some(BuiltinAction::Popup(ShowPopupAction::ShowEspFlash)),
            6 => Some(BuiltinAction::Popup(ShowPopupAction::ShowLogging)),
            7 => Some(BuiltinAction::Popup(ShowPopupAction::ShowDefmt)),
            8 => Some(BuiltinAction::Port(PortAction::ToggleDtr)),
            9 => Some(BuiltinAction::Port(PortAction::ToggleRts)),
            10 => Some(BuiltinAction::Port(PortAction::AssertDtr)),
            11 => Some(BuiltinAction::Port(PortAction::DeassertDtr)),
            12 => Some(BuiltinAction::Port(PortAction::AssertRts)),
            13 => Some(BuiltinAction::Port(PortAction::DeassertRts)),
            14 => Some(BuiltinAction::Port(PortAction::AttemptReconnectStrict)),
            15 => Some(BuiltinAction::Port(PortAction::AttemptReconnectLoose)),
            16 => Some(BuiltinAction::Base(BaseAction::ToggleTextwrap)),
            17 => Some(BuiltinAction::Base(BaseAction::ToggleTimestamps)),
            18 => Some(BuiltinAction::Base(BaseAction::ToggleIndices)),
            19 => Some(BuiltinAction::Base(BaseAction::ToggleIndicesHex)),
            20 => Some(BuiltinAction::Base(BaseAction::ToggleHexView)),
            21 => Some(BuiltinAction::Base(BaseAction::ToggleHexViewHeader)),
            22 => Some(BuiltinAction::Base(BaseAction::TogglePseudoShell)),
            23 => Some(BuiltinAction::Base(BaseAction::TogglePseudoShellHex)),
            24 => Some(BuiltinAction::Base(BaseAction::EscapeKeypress)),
            25 => Some(BuiltinAction::Base(BaseAction::ReloadColors)),
            26 => Some(BuiltinAction::Base(BaseAction::ReloadKeybinds)),
            27 => Some(BuiltinAction::MacroBuiltin(MacroBuiltinAction::ReloadMacros)),
            28 => Some(BuiltinAction::Logging(LoggingAction::Sync)),
            29 => Some(BuiltinAction::EspBuiltin(EspBuiltinAction::EspHardReset)),
            30 => Some(BuiltinAction::EspBuiltin(EspBuiltinAction::EspBootloader)),
            31 => Some(BuiltinAction::EspBuiltin(EspBuiltinAction::EspBootloaderUnchecked)),
            32 => Some(BuiltinAction::EspBuiltin(EspBuiltinAction::EspDeviceInfo)),
            33 => Some(BuiltinAction::EspBuiltin(EspBuiltinAction::EspEraseFlash)),
            34 => Some(BuiltinAction::EspBuiltin(EspBuiltinAction::ReloadProfiles)),
            35 => Some(BuiltinAction::ShowDefmtSelect(DefmtSelectAction::SelectRecent)),
            36 => Some(BuiltinAction::ShowDefmtSelect(DefmtSelectAction::SelectTui)),
            37 => Some(BuiltinAction::ShowDefmtSelect(DefmtSelectAction::SelectSystem)),
            _ => None,
        }
    }

    /// The place of the action in the list.
    pub open spec fn place(self) -> int {
        match self {
            BuiltinAction::Popup(ShowPopupAction::ShowKeybinds) => 0,
            BuiltinAction::Popup(ShowPopupAction::ShowPortSettings) => 1,
            BuiltinAction::Popup(ShowPopupAction::ShowBehavior) => 2,
            BuiltinAction::Popup(ShowPopupAction::ShowRendering) => 3,
            BuiltinAction::Popup(ShowPopupAction::ShowMacros) => 4,
            BuiltinAction::Popup(ShowPopupAction::ShowEspFlash) => 5,
            BuiltinAction::Popup(ShowPopupAction::ShowLogging) => 6,
            BuiltinAction::Popup(ShowPopupAction::ShowDefmt) => 7,
            BuiltinAction::Port(PortAction::ToggleDtr) => 8,
            BuiltinAction::Port(PortAction::ToggleRts) => 9,
            BuiltinAction::Port(PortAction::AssertDtr) => 10,
            BuiltinAction::Port(PortAction::DeassertDtr) => 11,
            BuiltinAction::Port(PortAction::AssertRts) => 12,
            BuiltinAction::Port(PortAction::DeassertRts) => 13,
            BuiltinAction::Port(PortAction::AttemptReconnectStrict) => 14,
            BuiltinAction::Port(PortAction::AttemptReconnectLoose) => 15,
            BuiltinAction::Base(BaseAction::ToggleTextwrap) => 16,
            BuiltinAction::Base(BaseAction::ToggleTimestamps) => 17,
            BuiltinAction::Base(BaseAction::ToggleIndices) => 18,
            BuiltinAction::Base(BaseAction::ToggleIndicesHex) => 19,
            BuiltinAction::Base(BaseAction::ToggleHexView) => 20,
            BuiltinAction::Base(BaseAction::ToggleHexViewHeader) => 21,
            BuiltinAction::Base(BaseAction::TogglePseudoShell) => 22,
            BuiltinAction::Base(BaseAction::TogglePseudoShellHex) => 23,
            BuiltinAction::Base(BaseAction::EscapeKeypress) => 24,
            BuiltinAction::Base(BaseAction::ReloadColors) => 25,
            BuiltinAction::Base(BaseAction::ReloadKeybinds) => 26,
            BuiltinAction::MacroBuiltin(MacroBuiltinAction::ReloadMacros) => 27,
            BuiltinAction::Logging(LoggingAction::Sync) => 28,
            BuiltinAction::EspBuiltin(EspBuiltinAction::EspHardReset) => 29,
            BuiltinAction::EspBuiltin(EspBuiltinAction::EspBootloader) => 30,
            BuiltinAction::EspBuiltin(EspBuiltinAction::EspBootloaderUnchecked) => 31,
            BuiltinAction::EspBuiltin(EspBuiltinAction::EspDeviceInfo) => 32,
            BuiltinAction::EspBuiltin(EspBuiltinAction::EspEraseFlash) => 33,
            BuiltinAction::EspBuiltin(EspBuiltinAction::ReloadProfiles) => 34,
            BuiltinAction::ShowDefmtSelect(DefmtSelectAction::SelectRecent) => 35,
            BuiltinAction::ShowDefmtSelect(DefmtSelectAction::SelectTui) => 36,
            BuiltinAction::ShowDefmtSelect(DefmtSelectAction::SelectSystem) => 37,
        }
    }

    /// The place of the action in the list.
    pub fn rank(self) -> (r: usize)
        ensures
            r == self.place(),
            r < BUILTIN_ACTION_COUNT,
    {
        match self {
            BuiltinAction::Popup(ShowPopupAction::ShowKeybinds) => 0,
            BuiltinAction::Popup(ShowPopupAction::ShowPortSettings) => 1,
            BuiltinAction::Popup(ShowPopupAction::ShowBehavior) => 2,
            BuiltinAction::Popup(ShowPopupAction::ShowRendering) => 3,
            BuiltinAction::Popup(ShowPopupAction::ShowMacros) => 4,
            BuiltinAction::Popup(ShowPopupAction::ShowEspFlash) => 5,
            BuiltinAction::Popup(ShowPopupAction::ShowLogging) => 6,
            BuiltinAction::Popup(ShowPopupAction::ShowDefmt) => 7,
            BuiltinAction::Port(PortAction::ToggleDtr) => 8,
            BuiltinAction::Port(PortAction::ToggleRts) => 9,
            BuiltinAction::Port(PortAction::AssertDtr) => 10,
            BuiltinAction::Port(PortAction::DeassertDtr) => 11,
            BuiltinAction::Port(PortAction::AssertRts) => 12,
            BuiltinAction::Port(PortAction::DeassertRts) => 13,
            BuiltinAction::Port(PortAction::AttemptReconnectStrict) => 14,
            BuiltinAction::Port(PortAction::AttemptReconnectLoose) => 15,
            BuiltinAction::Base(BaseAction::ToggleTextwrap) => 16,
            BuiltinAction::Base(BaseAction::ToggleTimestamps) => 17,
            BuiltinAction::Base(BaseAction::ToggleIndices) => 18,
            BuiltinAction::Base(BaseAction::ToggleIndicesHex) => 19,
            BuiltinAction::Base(BaseAction::ToggleHexView) => 20,
            BuiltinAction::Base(BaseAction::ToggleHexViewHeader) => 21,
            BuiltinAction::Base(BaseAction::TogglePseudoShell) => 22,
            BuiltinAction::Base(BaseAction::TogglePseudoShellHex) => 23,
            BuiltinAction::Base(BaseAction::EscapeKeypress) => 24,
            BuiltinAction::Base(BaseAction::ReloadColors) => 25,
            BuiltinAction::Base(BaseAction::ReloadKeybinds) => 26,
            BuiltinAction::MacroBuiltin(MacroBuiltinAction::ReloadMacros) => 27,
            BuiltinAction::Logging(LoggingAction::Sync) => 28,
            BuiltinAction::EspBuiltin(EspBuiltinAction::EspHardReset) => 29,
            BuiltinAction::EspBuiltin(EspBuiltinAction::EspBootloader) => 30,
            BuiltinAction::EspBuiltin(EspBuiltinAction::EspBootloaderUnchecked) => 31,
            BuiltinAction::EspBuiltin(EspBuiltinAction::EspDeviceInfo) => 32,
            BuiltinAction::EspBuiltin(EspBuiltinAction::EspEraseFlash) => 33,
            BuiltinAction::EspBuiltin(EspBuiltinAction::ReloadProfiles) => 34,
            BuiltinAction::ShowDefmtSelect(DefmtSelectAction::SelectRecent) => 35,
            BuiltinAction::ShowDefmtSelect(DefmtSelectAction::SelectTui) => 36,
            BuiltinAction::ShowDefmtSelect(DefmtSelectAction::SelectSystem) => 37,
        }
    }

    /// The first action from a place in the list on with a name, whatever the case
    /// of its letters.
    pub open spec fn called(text: Seq<char>, from: int) -> Option<BuiltinAction>
        decreases builtin_actions().len() - from,
    {
        if from < 0 || from >= builtin_actions().len() {
            None
        } else if crate::text::same_ignoring_ascii_case(builtin_actions()[from].title(), text) {
            Some(builtin_actions()[from])
        } else {
            BuiltinAction::called(text, from + 1)
        }
    }

    /// The action with a name, whatever the case of its letters.
    pub fn parse(text: &str) -> (r: Option<BuiltinAction>)
        ensures
            r == BuiltinAction::called(text@, 0),
    {
        let mut i: usize = 0;
        while i < BUILTIN_ACTION_COUNT
            invariant
                i <= BUILTIN_ACTION_COUNT,
                BuiltinAction::called(text@, 0) == BuiltinAction::called(text@, i as int),
            decreases BUILTIN_ACTION_COUNT - i,
        {
            match BuiltinAction::at(i) {
                Some(action) => {
                    if eq_ignore_ascii_case(action.as_text(), text) {
                        return Some(action);
                    }
                },
                None => {},
            }
            i += 1;
        }
        None
    }
}

impl RequiresPort for BuiltinAction {
    open spec fn needs_connection(&self) -> bool {
        match self {
            BuiltinAction::Port(PortAction::AttemptReconnectStrict) => false,
            BuiltinAction::Port(PortAction::AttemptReconnectLoose) => false,
            BuiltinAction::Port(_) => true,
            BuiltinAction::EspBuiltin(EspBuiltinAction::ReloadProfiles) => false,
            BuiltinAction::EspBuiltin(_) => true,
            _ => false,
        }
    }

    fn requires_connection(&self) -> (r: bool) {
        match self {
            BuiltinAction::Port(PortAction::AttemptReconnectStrict) => false,
            BuiltinAction::Port(PortAction::AttemptReconnectLoose) => false,
            BuiltinAction::Port(_) => true,
            BuiltinAction::EspBuiltin(EspBuiltinAction::ReloadProfiles) => false,
            BuiltinAction::EspBuiltin(_) => true,
            _ => false,
        }
    }

    fn requires_terminal_view(&self) -> (r: bool)
        ensures
            r == self.needs_terminal(),
    {
        match self {
            BuiltinAction::Port(_) => true,
            BuiltinAction::Logging(_) => true,
            BuiltinAction::Base(BaseAction::TogglePseudoShellHex) => true,
            BuiltinAction::Base(BaseAction::EscapeKeypress) => true,
            _ => self.requires_connection(),
        }
    }
}

impl BuiltinAction {
    /// Whether the action needs the terminal to be shown.
    pub open spec fn needs_terminal(&self) -> bool {
        match self {
            BuiltinAction::Port(_) => true,
            BuiltinAction::Logging(_) => true,
            BuiltinAction::Base(BaseAction::TogglePseudoShellHex) => true,
            BuiltinAction::Base(BaseAction::EscapeKeypress) => true,
            _ => self.needs_connection(),
        }
    }
}

/// Something that a key can do.
#[derive(Debug)]
pub enum Action {
    BuiltinAction(BuiltinAction),
    MacroInvocation(MacroNameTag),
    EspFlashProfile(String),
    /// To wait for some milliseconds.
    Pause(u64),
}

/// Something that a key can do, as plain values.
#[verifier::ext_equal]
pub enum ActionView {
    BuiltinAction(BuiltinAction),
    MacroInvocation(TagView),
    EspFlashProfile(Seq<char>),
    Pause(u64),
}

impl View for Action {
    type V = ActionView;

    open spec fn view(&self) -> ActionView {
        match self {
            Action::BuiltinAction(a) => ActionView::BuiltinAction(*a),
            Action::MacroInvocation(tag) => ActionView::MacroInvocation(tag@),
            Action::EspFlashProfile(name) => ActionView::EspFlashProfile(name@),
            Action::Pause(ms) => ActionView::Pause(*ms),
        }
    }
}

impl ActionView {
    /// Whether the action needs a healthy connection.
    pub open spec fn needs_connection(self) -> bool {
        match self {
            ActionView::BuiltinAction(a) => a.needs_connection(),
            ActionView::MacroInvocation(_) => true,
            ActionView::EspFlashProfile(_) => true,
            ActionView::Pause(_) => false,
        }
    }

    /// Whether the action needs the terminal to be shown.
    pub open spec fn needs_terminal(self) -> bool {
        match self {
            ActionView::BuiltinAction(a) => a.needs_terminal(),
            _ => self.needs_connection(),
        }
    }
}

impl RequiresPort for Action {
    open spec fn needs_connection(&self) -> bool {
        self@.needs_connection()
    }

    fn requires_connection(&self) -> (r: bool) {
        match self {
            Action::BuiltinAction(a) => a.requires_connection(),
            Action::MacroInvocation(_) => true,
            Action::EspFlashProfile(_) => true,
            Action::Pause(_) => false,
        }
    }

    fn requires_terminal_view(&self) -> (r: bool)
        ensures
            r == self@.needs_terminal(),
    {
        match self {
            Action::BuiltinAction(a) => a.requires_terminal_view(),
            _ => self.requires_connection(),
        }
    }
}

/// A combination of keys, how it is written, and what it does.
#[derive(Debug)]
pub struct KeyBinding {
    pub combo: KeyEvent,
    pub label: String,
    pub actions: Vec<String>,
}

/// The combinations of keys that do something. Each does at least one thing.
#[derive(Debug)]
pub struct Keybinds {
    pub keybindings: Vec<KeyBinding>,
}

/// The position of the first binding of a combination.
pub open spec fn binding_of(bindings: Seq<KeyBinding>, combo: KeyEvent, from: int) -> Option<int>
    decreases bindings.len() - from,
{
    if from < 0 || from >= bindings.len() {
        None
    } else if bindings[from].combo == combo {
        Some(from)
    } else {
        binding_of(bindings, combo, from + 1)
    }
}

/// Whether a binding does one thing only, which is the given action.
pub open spec fn does_only(binding: KeyBinding, action: BuiltinAction) -> bool {
    binding.actions@.len() == 1 && BuiltinAction::called(
        crate::text::trimmed(binding.actions@[0]@),
        0,
    ) == Some(action)
}

/// The position of the first binding from a place on that does one thing only.
pub open spec fn bound_to(bindings: Seq<KeyBinding>, action: BuiltinAction, from: int) -> Option<
    int,
>
    decreases bindings.len() - from,
{
    if from < 0 || from >= bindings.len() {
        None
    } else if does_only(bindings[from], action) {
        Some(from)
    } else {
        bound_to(bindings, action, from + 1)
    }
}

/// How the keys for an action are written; a question mark if there are none.
pub open spec fn hint_for(bindings: Seq<KeyBinding>, action: BuiltinAction) -> Seq<char> {
    match bound_to(bindings, action, 0) {
        Some(i) => bindings[i].label@,
        None => "?"@,
    }
}

impl KeyBinding {
    fn does(&self, action: BuiltinAction) -> (r: bool)
        ensures
            r == does_only(*self, action),
    {
        if self.actions.len() != 1 {
            return false;
        }
        match BuiltinAction::parse(trim(self.actions[0].as_str())) {
            Some(a) => a == action,
            None => false,
        }
    }
}

impl Keybinds {
    /// Every binding does something.
    pub open spec fn wf(&self) -> bool {
        forall|i: int|
            0 <= i < self.keybindings@.len() ==> (#[trigger] self.keybindings@[i]).actions@.len()
                > 0
    }

    /// The position of the binding of a combination.
    pub fn position(&self, combo: KeyEvent) -> (r: Option<usize>)
        ensures
            match binding_of(self.keybindings@, combo, 0) {
                Some(i) => r is Some && r->0 == i && 0 <= i < self.keybindings@.len(),
                None => r is None,
            },
    {
        let mut i: usize = 0;
        while i < self.keybindings.len()
            invariant
                i <= self.keybindings@.len(),
                binding_of(self.keybindings@, combo, 0) == binding_of(
                    self.keybindings@,
                    combo,
                    i as int,
                ),
            decreases self.keybindings@.len() - i,
        {
            if self.keybindings[i].combo == combo {
                return Some(i);
            }
            i += 1;
        }
        None
    }

    /// What a combination does.
    pub fn action_strs_from_key_combo(&self, combo: KeyEvent) -> (r: Option<&Vec<String>>)
        ensures
            match binding_of(self.keybindings@, combo, 0) {
                Some(i) => r is Some && *(r->0) == self.keybindings@[i].actions,
                None => r is None,
            },
    {
        match self.position(combo) {
            Some(i) => Some(&self.keybindings[i].actions),
            None => None,
        }
    }

    /// Whether a combination does one thing only, which is the given action.
    pub fn key_has_single_action(&self, combo: KeyEvent, action: BuiltinAction) -> (r: bool)
        ensures
            r == (match binding_of(self.keybindings@, combo, 0) {
                Some(i) => does_only(self.keybindings@[i], action),
                None => false,
            }),
    {
        match self.position(combo) {
            Some(i) => self.keybindings[i].does(action),
            None => false,
        }
    }

    fn hint(&self, action: BuiltinAction) -> (r: String)
        ensures
            r@ == hint_for(self.keybindings@, action),
    {
        let mut i: usize = 0;
        while i < self.keybindings.len()
            invariant
                i <= self.keybindings@.len(),
                bound_to(self.keybindings@, action, 0) == bound_to(
                    self.keybindings@,
                    action,
                    i as int,
                ),
            decreases self.keybindings@.len() - i,
        {
            if self.keybindings[i].does(action) {
                return self.keybindings[i].label.clone();
            }
            i += 1;
        }
        "?".to_owned()
    }

    /// The keys that show the settings of the port.
    pub fn port_settings_hint(&self) -> (r: String)
        ensures
            r@ == hint_for(
                self.keybindings@,
                BuiltinAction::Popup(ShowPopupAction::ShowPortSettings),
            ),
    {
        self.hint(BuiltinAction::Popup(ShowPopupAction::ShowPortSettings))
    }

    /// The keys that show all combinations.
    pub fn show_keybinds_hint(&self) -> (r: String)
        ensures
            r@ == hint_for(
                self.keybindings@,
                BuiltinAction::Popup(ShowPopupAction::ShowKeybinds),
            ),
    {
        self.hint(BuiltinAction::Popup(ShowPopupAction::ShowKeybinds))
    }

    /// The keys that keep the next key from being sent.
    pub fn escape_keypress_hint(&self) -> (r: String)
        ensures
            r@ == hint_for(self.keybindings@, BuiltinAction::Base(BaseAction::EscapeKeypress)),
    {
        self.hint(BuiltinAction::Base(BaseAction::EscapeKeypress))
    }
}

} // verus!
