//! What the other keys do.

use vstd::prelude::*;
use vstd::string::*;

use crate::app::effects::{Effect, EffectView, ExplorerInput, Request};
use crate::app::enter::Choice;
use crate::app::{
    App, AppView, EditView, Fault, KeptView, Menu, Moment, Popup, PopupView, Screen, SettingsMenu,
    ToolMenu, CUSTOM_BAUD,
};
use crate::foreign::is_alphabetic;
use crate::input_box::{handle_key, input_value, Edited};
use crate::key_codes::{encode_key, is_beyond_code, EncodingView, KeyEncoding};
use crate::keybinds::{
    Action, ActionView, BaseAction, BuiltinAction, EspBuiltinAction, MacroBuiltinAction,
};
use crate::keys::{is_ctrl_c, KeyCode, KeyEvent, CONTROL, SHIFT};
use crate::line::Color;
use crate::macros::MacrosView;
use crate::parse::parse_decimal;
use crate::serial::{PortTypeView, SerialPortType};
use crate::settings::{PortSettings, SettingsView};
use crate::text::concat3;
use crate::text_input::TextInputView;
use crate::tui::esp::{EspFlashHelper, EspPopup};
use crate::tui::prompts::{
    from_key_code, AttemptReconnectPrompt, DisconnectPrompt, IgnorePortByNamePrompt,
    IgnoreUsbDevicePrompt, UpdateBeginPrompt, UpdateCheckConsentPrompt, UpdateLaunchPrompt,
};

verus! {

/// Control and shift are held.
pub const CONTROL_SHIFT: u8 = 0x3;

/// Where a key takes the cursor of the file explorer.
pub open spec fn explored(code: KeyCode) -> ExplorerInput {
    match code {
        KeyCode::Left => ExplorerInput::Left,
        KeyCode::Down => ExplorerInput::Down,
        KeyCode::Up => ExplorerInput::Up,
        KeyCode::Right => ExplorerInput::Right,
        KeyCode::Enter => ExplorerInput::Right,
        KeyCode::Backspace => ExplorerInput::Left,
        KeyCode::BackTab => ExplorerInput::Left,
        KeyCode::PageUp => ExplorerInput::PageUp,
        KeyCode::PageDown => ExplorerInput::PageDown,
        KeyCode::Home => ExplorerInput::Home,
        KeyCode::End => ExplorerInput::End,
        KeyCode::Char(c) => if c == 'h' {
            ExplorerInput::Left
        } else if c == 'j' {
            ExplorerInput::Down
        } else if c == 'k' {
            ExplorerInput::Up
        } else if c == 'l' {
            ExplorerInput::Right
        } else {
            ExplorerInput::Ignored
        },
        _ => ExplorerInput::Ignored,
    }
}

fn explorer_input(code: KeyCode) -> (r: ExplorerInput)
    ensures
        r == explored(code),
{
    match code {
        KeyCode::Left => ExplorerInput::Left,
        KeyCode::Down => ExplorerInput::Down,
        KeyCode::Up => ExplorerInput::Up,
        KeyCode::Right => ExplorerInput::Right,
        KeyCode::Enter => ExplorerInput::Right,
        KeyCode::Backspace => ExplorerInput::Left,
        KeyCode::BackTab => ExplorerInput::Left,
        KeyCode::PageUp => ExplorerInput::PageUp,
        KeyCode::PageDown => ExplorerInput::PageDown,
        KeyCode::Home => ExplorerInput::Home,
        KeyCode::End => ExplorerInput::End,
        KeyCode::Char(c) => if c == 'h' {
            ExplorerInput::Left
        } else if c == 'j' {
            ExplorerInput::Down
        } else if c == 'k' {
            ExplorerInput::Up
        } else if c == 'l' {
            ExplorerInput::Right
        } else {
            ExplorerInput::Ignored
        },
        _ => ExplorerInput::Ignored,
    }
}

/// What is left to be done with a key after it was typed.
#[derive(Clone, Copy, Debug, PartialEq, Eq, Structural)]
pub struct Flow {
    /// Nothing.
    pub done: bool,
    /// The keys for the selection of ports work.
    pub port_actions: bool,
    /// The keys for the terminal work.
    pub terminal_actions: bool,
}

/// The choice of the prompt that is open which a key picks.
pub open spec fn key_choice(popup: Option<PopupView>, code: KeyCode) -> Choice {
    match popup {
        Some(PopupView::AttemptReconnectPrompt) => match crate::tui::prompts::picked::<
            AttemptReconnectPrompt,
        >(code, 0) {
            Some(choice) => Choice::Reconnect(choice),
            None => Choice::NoPrompt,
        },
        Some(PopupView::DisconnectPrompt) => match crate::tui::prompts::picked::<
            DisconnectPrompt,
        >(code, 0) {
            Some(choice) => Choice::Disconnect(choice),
            None => Choice::NoPrompt,
        },
        Some(PopupView::IgnoreByUsb(_, _)) => match crate::tui::prompts::picked::<
            IgnoreUsbDevicePrompt,
        >(code, 0) {
            Some(choice) => Choice::IgnoreUsb(choice),
            None => Choice::NoPrompt,
        },
        Some(PopupView::IgnoreByName(_)) => match crate::tui::prompts::picked::<
            IgnorePortByNamePrompt,
        >(code, 0) {
            Some(choice) => Choice::IgnoreName(choice),
            None => Choice::NoPrompt,
        },
        Some(PopupView::UpdateCheckConsentPrompt) => match crate::tui::prompts::picked::<
            UpdateCheckConsentPrompt,
        >(code, 0) {
            Some(choice) => Choice::Consent(choice),
            None => Choice::NoPrompt,
        },
        Some(PopupView::UpdateBeginPrompt) => match crate::tui::prompts::picked::<
            UpdateBeginPrompt,
        >(code, 0) {
            Some(choice) => Choice::UpdateBegin(choice),
            None => Choice::NoPrompt,
        },
        Some(PopupView::UpdateLaunchPrompt) => match crate::tui::prompts::picked::<
            UpdateLaunchPrompt,
        >(code, 0) {
            Some(choice) => Choice::UpdateLaunch(choice),
            None => Choice::NoPrompt,
        },
        _ => Choice::NoPrompt,
    }
}

fn choice_by_key(popup: &Option<Popup>, code: KeyCode) -> (r: Choice)
    ensures
        r == key_choice(
            match popup {
                Some(p) => Some(p@),
                None => None,
            },
            code,
        ),
{
    match popup {
        Some(Popup::AttemptReconnectPrompt) => match from_key_code::<AttemptReconnectPrompt>(code) {
            Some(choice) => Choice::Reconnect(choice),
            None => Choice::NoPrompt,
        },
        Some(Popup::DisconnectPrompt) => match from_key_code::<DisconnectPrompt>(code) {
            Some(choice) => Choice::Disconnect(choice),
            None => Choice::NoPrompt,
        },
        Some(Popup::IgnoreByUsb(_, _)) => match from_key_code::<IgnoreUsbDevicePrompt>(code) {
            Some(choice) => Choice::IgnoreUsb(choice),
            None => Choice::NoPrompt,
        },
        Some(Popup::IgnoreByName(_)) => match from_key_code::<IgnorePortByNamePrompt>(code) {
            Some(choice) => Choice::IgnoreName(choice),
            None => Choice::NoPrompt,
        },
        Some(Popup::UpdateCheckConsentPrompt) => match from_key_code::<UpdateCheckConsentPrompt>(code) {
            Some(choice) => Choice::Consent(choice),
            None => Choice::NoPrompt,
        },
        Some(Popup::UpdateBeginPrompt) => match from_key_code::<UpdateBeginPrompt>(code) {
            Some(choice) => Choice::UpdateBegin(choice),
            None => Choice::NoPrompt,
        },
        Some(Popup::UpdateLaunchPrompt) => match from_key_code::<UpdateLaunchPrompt>(code) {
            Some(choice) => Choice::UpdateLaunch(choice),
            None => Choice::NoPrompt,
        },
        _ => Choice::NoPrompt,
    }
}

/// Something that a key does wherever it is not bound.
#[derive(Clone, Copy, Debug, PartialEq, Eq, Structural)]
pub enum Deed {
    /// Ends the program.
    End,
    /// Asks what to do about an update.
    AskUpdate,
    /// Closes what is open.
    Interrupt,
    /// Marks the whole text.
    SelectAll,
    /// Removes the last word.
    RemoveWord,
    /// Goes to the first row.
    RowZero,
    ScrollTop,
    ScrollBottom,
    ClearText,
    PageUp,
    PageDown,
    Left,
    Down,
    Up,
    Right,
    /// Asks whether to ignore a port.
    AskIgnore,
    Enter { ctrl: bool, shift: bool },
    /// Looks for what was typed in the history.
    Search,
    /// Loads what is shown again.
    Reload(BuiltinAction),
    Escape,
}

/// What decides about a key: what is open, and what is selected.
#[derive(Clone, Copy, Debug, PartialEq, Eq, Structural)]
pub struct Context {
    pub port_actions: bool,
    pub terminal_actions: bool,
    pub popup_open: bool,
    pub update_found: bool,
    pub text_empty: bool,
    pub all_text_selected: bool,
    /// The letters of an editor move through the menus.
    pub vim: bool,
    pub port_selected: bool,
    /// What is loaded again.
    pub reload: Option<BuiltinAction>,
}

/// What a letter does.
pub open spec fn letter_deed(c: char, context: Context) -> Option<Deed> {
    if c == 'q' && context.port_actions && !context.popup_open {
        Some(Deed::End)
    } else if c == 'u' && context.port_actions && !context.popup_open && context.update_found {
        Some(Deed::AskUpdate)
    } else if c == 'h' && context.vim {
        Some(Deed::Left)
    } else if c == 'j' && context.vim {
        Some(Deed::Down)
    } else if c == 'k' && context.vim {
        Some(Deed::Up)
    } else if c == 'l' && context.vim {
        Some(Deed::Right)
    } else if c == 'i' && context.port_actions && context.port_selected {
        Some(Deed::AskIgnore)
    } else {
        None
    }
}

/// What a key does without modifiers.
pub open spec fn plain_deed(code: KeyCode, context: Context) -> Option<Deed> {
    match code {
        KeyCode::Char(c) => letter_deed(c, context),
        KeyCode::Home => if context.popup_open {
            Some(Deed::RowZero)
        } else {
            None
        },
        KeyCode::Delete => if context.all_text_selected {
            Some(Deed::ClearText)
        } else {
            None
        },
        KeyCode::Backspace => if context.all_text_selected {
            Some(Deed::ClearText)
        } else {
            None
        },
        KeyCode::PageUp => Some(Deed::PageUp),
        KeyCode::PageDown => Some(Deed::PageDown),
        KeyCode::Up => Some(Deed::Up),
        KeyCode::Down => Some(Deed::Down),
        KeyCode::Left => Some(Deed::Left),
        KeyCode::Right => Some(Deed::Right),
        KeyCode::Enter => Some(Deed::Enter { ctrl: false, shift: false }),
        KeyCode::Tab => if context.terminal_actions && !context.popup_open {
            Some(Deed::Search)
        } else {
            None
        },
        KeyCode::Esc => Some(Deed::Escape),
        _ => None,
    }
}

/// What a key does with control.
pub open spec fn ctrl_deed(code: KeyCode, context: Context) -> Option<Deed> {
    match code {
        KeyCode::Char(c) => if c == 'c' {
            Some(Deed::Interrupt)
        } else if c == 'a' && context.terminal_actions && !context.text_empty {
            Some(Deed::SelectAll)
        } else if c == 'r' && context.reload is Some {
            Some(Deed::Reload(context.reload->0))
        } else {
            None
        },
        KeyCode::Backspace => if context.terminal_actions && !context.text_empty {
            Some(Deed::RemoveWord)
        } else {
            None
        },
        KeyCode::PageUp => Some(Deed::ScrollTop),
        KeyCode::PageDown => Some(Deed::ScrollBottom),
        KeyCode::Enter => Some(Deed::Enter { ctrl: true, shift: false }),
        _ => None,
    }
}

/// What a combination of keys does unless it is bound.
pub open spec fn deed_of(combo: KeyEvent, context: Context) -> Option<Deed> {
    if combo.modifiers == 0 {
        plain_deed(combo.code, context)
    } else if combo.modifiers == CONTROL {
        ctrl_deed(combo.code, context)
    } else if combo.modifiers == SHIFT {
        match combo.code {
            KeyCode::PageUp => Some(Deed::ScrollTop),
            KeyCode::PageDown => Some(Deed::ScrollBottom),
            KeyCode::Enter => Some(Deed::Enter { ctrl: false, shift: true }),
            _ => None,
        }
    } else if combo.modifiers == CONTROL_SHIFT {
        match combo.code {
            KeyCode::Char(c) => if c == 'C' {
                Some(Deed::End)
            } else {
                None
            },
            KeyCode::Delete => Some(Deed::ClearText),
            KeyCode::Backspace => Some(Deed::ClearText),
            KeyCode::Enter => Some(Deed::Enter { ctrl: true, shift: true }),
            _ => None,
        }
    } else {
        None
    }
}

fn find_letter_deed(c: char, context: Context) -> (r: Option<Deed>)
    ensures
        r == letter_deed(c, context),
{
    if c == 'q' && context.port_actions && !context.popup_open {
        Some(Deed::End)
    } else if c == 'u' && context.port_actions && !context.popup_open && context.update_found {
        Some(Deed::AskUpdate)
    } else if c == 'h' && context.vim {
        Some(Deed::Left)
    } else if c == 'j' && context.vim {
        Some(Deed::Down)
    } else if c == 'k' && context.vim {
        Some(Deed::Up)
    } else if c == 'l' && context.vim {
        Some(Deed::Right)
    } else if c == 'i' && context.port_actions && context.port_selected {
        Some(Deed::AskIgnore)
    } else {
        None
    }
}

fn when(condition: bool, deed: Deed) -> (r: Option<Deed>)
    ensures
        r == (if condition {
            Some(deed)
        } else {
            None
        }),
{
    if condition {
        Some(deed)
    } else {
        None
    }
}

fn find_plain_deed(code: KeyCode, context: Context) -> (r: Option<Deed>)
    ensures
        r == plain_deed(code, context),
{
    match code {
        KeyCode::Char(c) => find_letter_deed(c, context),
        KeyCode::Home => when(context.popup_open, Deed::RowZero),
        KeyCode::Delete => when(context.all_text_selected, Deed::ClearText),
        KeyCode::Backspace => when(context.all_text_selected, Deed::ClearText),
        KeyCode::PageUp => Some(Deed::PageUp),
        KeyCode::PageDown => Some(Deed::PageDown),
        KeyCode::Up => Some(Deed::Up),
        KeyCode::Down => Some(Deed::Down),
        KeyCode::Left => Some(Deed::Left),
        KeyCode::Right => Some(Deed::Right),
        KeyCode::Enter => Some(Deed::Enter { ctrl: false, shift: false }),
        KeyCode::Tab => when(context.terminal_actions && !context.popup_open, Deed::Search),
        KeyCode::Esc => Some(Deed::Escape),
        _ => None,
    }
}

fn find_ctrl_deed(code: KeyCode, context: Context) -> (r: Option<Deed>)
    ensures
        r == ctrl_deed(code, context),
{
    match code {
        KeyCode::Char(c) => if c == 'c' {
            Some(Deed::Interrupt)
        } else if c == 'a' && context.terminal_actions && !context.text_empty {
            Some(Deed::SelectAll)
        } else if c == 'r' {
            match context.reload {
                Some(action) => Some(Deed::Reload(action)),
                None => None,
            }
        } else {
            None
        },
        KeyCode::Backspace => when(
            context.terminal_actions && !context.text_empty,
            Deed::RemoveWord,
        ),
        KeyCode::PageUp => Some(Deed::ScrollTop),
        KeyCode::PageDown => Some(Deed::ScrollBottom),
        KeyCode::Enter => Some(Deed::Enter { ctrl: true, shift: false }),
        _ => None,
    }
}

fn find_deed(combo: KeyEvent, context: Context) -> (r: Option<Deed>)
    ensures
        r == deed_of(combo, context),
{
    if combo.modifiers == 0 {
        find_plain_deed(combo.code, context)
    } else if combo.modifiers == CONTROL {
        find_ctrl_deed(combo.code, context)
    } else if combo.modifiers == SHIFT {
        match combo.code {
            KeyCode::PageUp => Some(Deed::ScrollTop),
            KeyCode::PageDown => Some(Deed::ScrollBottom),
            KeyCode::Enter => Some(Deed::Enter { ctrl: false, shift: true }),
            _ => None,
        }
    } else if combo.modifiers == CONTROL_SHIFT {
        match combo.code {
            KeyCode::Char(c) => when(c == 'C', Deed::End),
            KeyCode::Delete => Some(Deed::ClearText),
            KeyCode::Backspace => Some(Deed::ClearText),
            KeyCode::Enter => Some(Deed::Enter { ctrl: true, shift: true }),
            _ => None,
        }
    } else {
        None
    }
}

impl AppView {
    /// With what was last sent for a key.
    pub open spec fn with_raw(self, last_raw_sequence: Seq<u8>) -> AppView {
        AppView { kept: KeptView { last_raw_sequence, ..self.kept }, ..self }
    }

    /// With the next key kept from being sent, or not.
    pub open spec fn escaping(self, escape: bool) -> AppView {
        self.with_screen(Screen { escape_next_keypress: escape, ..self.ui.screen })
    }

    /// With a key sent to the port as a terminal would send it, if the port is there.
    #[verifier::opaque]
    pub open spec fn key_to_port(self, key: KeyEvent, at: Moment) -> AppView {
        if at.status is Connected {
            if crate::key_codes::beyond_code(key) {
                self.asked(Request::Fail(Fault::KeyBeyondCode))
            } else {
                self.key_encoded(crate::key_codes::encoding_of(key), at.now)
            }
        } else {
            self.send_failed(at.now).with_raw(Seq::empty())
        }
    }

    /// Once a key was encoded for the port.
    #[verifier::opaque]
    pub open spec fn key_encoded(self, encoding: EncodingView, now: u64) -> AppView {
        match encoding {
            EncodingView::Unknown => self.send_failed(now).with_raw(Seq::empty()),
            EncodingView::Failed => self.flipped(),
            EncodingView::Bytes(bytes) => self.effected(EffectView::Send(bytes)).with_raw(
                bytes,
            ).flipped(),
        }
    }

    /// With what came of a key in the box for the baud rate.
    pub open spec fn with_baud_box(self, new: Edited) -> AppView {
        AppView {
            edit: EditView {
                baud_text: new.text,
                baud_cursor: new.cursor,
                baud_cut: new.cut,
                ..self.edit
            },
            ..self
        }
    }

    /// With the baud rate in the box for it taken over, if it is one.
    pub open spec fn baud_synced(self) -> AppView {
        match self.typed_baud() {
            Ok(baud_rate) => self.with_scratch(
                SettingsView {
                    serial: PortSettings { baud_rate, ..self.edit.scratch.serial },
                    ..self.edit.scratch
                },
            ),
            Err(_) => self,
        }
    }

    /// Whether `after` is what comes of typing a key into the box for the baud rate.
    #[verifier::opaque]
    pub open spec fn baud_edited(self, key: KeyEvent, after: AppView) -> bool {
        let (text, cursor) = (self.edit.baud_text, self.edit.baud_cursor);
        let new = crate::input_box::edited(key, text, cursor, self.edit.baud_cut);
        &&& after == self.with_baud_box(new).baud_synced()
        &&& crate::input_box::key_effect(key, text, cursor, new)
    }

    /// Whether `after` is what comes of typing a key into the search for macros.
    #[verifier::opaque]
    pub open spec fn search_edited(self, key: KeyEvent, after: AppView) -> bool {
        let macros = self.kept.macros;
        let new = crate::input_box::edited(key, macros.query, macros.cursor, macros.cut);
        &&& after == self.with_macros(
            MacrosView { query: new.text, cursor: new.cursor, cut: new.cut, ..macros },
        )
        &&& crate::input_box::key_effect(key, macros.query, macros.cursor, new)
    }

    /// Whether `after` is what comes of typing a key into the box for the text.
    #[verifier::opaque]
    pub open spec fn text_edited(self, key: KeyEvent, after: AppView) -> bool {
        let before = self.kept.text_input;
        match crate::text_input::accepted_key(key, before.bytes_input) {
            None => after == self,
            Some(key) => after == self.with_text_input(crate::text_input::typed(before, key))
                && crate::text_input::typing_effect(before, key),
        }
    }

    /// Whether a combination only keeps the next key from being sent.
    pub open spec fn escapes(self, combo: KeyEvent) -> bool {
        match crate::keybinds::binding_of(self.kept.keybinds.keybindings@, combo, 0) {
            Some(i) => crate::keybinds::does_only(
                self.kept.keybinds.keybindings@[i],
                BuiltinAction::Base(BaseAction::EscapeKeypress),
            ),
            None => false,
        }
    }

    /// Whether a key is left alone in the terminal: it marks the text, or removes
    /// what is marked.
    pub open spec fn left_alone(self, combo: KeyEvent) -> bool {
        ||| combo == (KeyEvent { code: KeyCode::Char('a'), modifiers: CONTROL })
        ||| combo.modifiers == 0 && (combo.code is Delete || combo.code is Backspace)
            && self.kept.text_input.all_text_selected
    }

    /// Whether `after` is what comes of a key in the terminal.
    #[verifier::opaque]
    pub open spec fn terminal_typed(
        self,
        key: KeyEvent,
        at: Moment,
        after: AppView,
        done: bool,
    ) -> bool {
        if self.left_alone(key.combination()) {
            after == self && !done
        } else if self.edit.settings.behavior.pseudo_shell {
            self.text_edited(key, after) && !done
        } else if self.escapes(key.combination()) {
            &&& done
            &&& after == (if self.ui.screen.escape_next_keypress {
                self.escaping(false).key_to_port(key, at)
            } else {
                self.escaping(true)
            })
        } else if !self.ui.screen.escape_next_keypress {
            after == self.key_to_port(key, at) && done
        } else {
            after == self.escaping(false) && !done
        }
    }

    /// Whether a baud rate of one's own is selected on the screen for ports.
    pub open spec fn own_baud_selected(self) -> bool {
        self.ui.screen.baud_index == CUSTOM_BAUD && self.ui.screen.port_selection_scroll
            == self.port_items() - 2
    }

    /// Whether a key goes into the box for the baud rate on the screen for ports.
    pub open spec fn baud_takes(key: KeyEvent) -> bool {
        match key.code {
            KeyCode::Char(c) => !crate::foreign::alphabetic(c),
            _ => true,
        }
    }

    /// Whether a key goes into the box for the baud rate among the settings.
    pub open spec fn setting_takes(key: KeyEvent) -> bool {
        match key.code {
            KeyCode::Char(c) => '0' <= c && c <= '9',
            KeyCode::Backspace => true,
            _ => false,
        }
    }

    /// Whether `after` is what comes of typing a key, before it does anything else.
    #[verifier::opaque]
    pub open spec fn key_typed(
        self,
        key: KeyEvent,
        at: Moment,
        after: AppView,
        flow: Flow,
    ) -> bool {
        let still = Flow { done: false, port_actions: false, terminal_actions: false };
        match self.ui.popup {
            Some(PopupView::ToolMenu(ToolMenu::Macros)) => self.search_edited(key, after) && flow
                == still,
            Some(PopupView::DefmtNewElf) => after == self.asked(
                Request::Explore(explored(key.code)),
            ) && flow == (Flow { done: !(explored(key.code) is Ignored), ..still }),
            Some(PopupView::SettingsMenu(SettingsMenu::SerialPort)) => flow == still && (
            if self.corrected() == Some(0int) && Self::setting_takes(key) {
                self.baud_edited(key, after)
            } else {
                after == self
            }),
            Some(_) => flow == still && after == (if crate::keys::interrupts(key) {
                self
            } else {
                self.chosen(
                    key_choice(self.ui.popup, key.code),
                    key.ctrl_held(),
                    key.shift_held(),
                )
            }),
            None => match self.ui.screen.menu {
                Menu::Terminal => flow == (Flow {
                    done: flow.done,
                    port_actions: false,
                    terminal_actions: true,
                }) && self.terminal_typed(key, at, after, flow.done),
                Menu::PortSelection => if self.own_baud_selected() {
                    flow == still && (if Self::baud_takes(key) {
                        self.baud_edited(key, after)
                    } else {
                        after == self
                    })
                } else {
                    after == self && flow == (Flow { port_actions: true, ..still })
                },
            },
        }
    }

    /// What decides about a key.
    #[verifier::opaque]
    pub open spec fn context(self, flow: Flow) -> Context {
        Context {
            port_actions: flow.port_actions,
            terminal_actions: flow.terminal_actions,
            popup_open: self.ui.popup is Some,
            update_found: self.kept.update_found_version is Some,
            text_empty: self.kept.text_input.text.len() == 0,
            all_text_selected: self.kept.text_input.all_text_selected,
            vim: !(self.ui.popup == Some(PopupView::ToolMenu(ToolMenu::Macros))) && !(
            self.ui.popup is None && self.ui.screen.menu is Terminal),
            port_selected: self.ui.screen.port_selection_scroll < self.kept.ports.len(),
            reload: match self.ui.popup {
                Some(PopupView::CurrentKeybinds) => Some(
                    BuiltinAction::Base(BaseAction::ReloadKeybinds),
                ),
                Some(PopupView::ToolMenu(ToolMenu::Macros)) => Some(
                    BuiltinAction::MacroBuiltin(MacroBuiltinAction::ReloadMacros),
                ),
                Some(PopupView::ToolMenu(ToolMenu::EspFlash)) => Some(
                    BuiltinAction::EspBuiltin(EspBuiltinAction::ReloadProfiles),
                ),
                _ => None,
            },
        }
    }

    /// Whether one of the prompts about a connection is open.
    #[verifier::opaque]
    pub open spec fn connection_asked(self) -> bool {
        self.ui.popup == Some(PopupView::AttemptReconnectPrompt) || self.ui.popup == Some(
            PopupView::DisconnectPrompt,
        )
    }

    /// After an interruption: what is open is closed; without that, the program ends,
    /// but a connection is asked about first.
    #[verifier::opaque]
    pub open spec fn interrupted(self) -> AppView {
        if self.connection_asked() {
            self.ended()
        } else if self.ui.popup is Some {
            self.dismissed()
        } else if self.ui.screen.menu is Terminal {
            self.shown(PopupView::DisconnectPrompt)
        } else {
            self.ended()
        }
    }

    /// With a question about ignoring the selected port.
    #[verifier::opaque]
    pub open spec fn ignore_asked(self) -> AppView {
        let at = self.ui.screen.port_selection_scroll as int;
        if at < self.kept.ports.len() {
            let port = self.kept.ports[at];
            match port.kind {
                PortTypeView::UsbPort(usb) => self.shown(PopupView::IgnoreByUsb(port.name, usb)),
                _ => self.shown(PopupView::IgnoreByName(port.name)),
            }
        } else {
            self
        }
    }

    /// Without the last word that was typed.
    #[verifier::opaque]
    pub open spec fn word_cut(self) -> AppView {
        if self.kept.text_input.can_remove_word() {
            self.with_text_input(self.kept.text_input.word_removed())
        } else {
            self.asked(Request::Fail(Fault::DigitsBroken))
        }
    }

    /// With nothing in the box for the text.
    #[verifier::opaque]
    pub open spec fn text_cleared(self) -> AppView {
        self.with_text_input(self.kept.text_input.cleared())
    }

    /// With the history searched for what was typed.
    #[verifier::opaque]
    pub open spec fn history_searched(self) -> AppView {
        self.with_text_input(self.kept.text_input.searched())
    }

    /// With the first row of the pop-up selected.
    #[verifier::opaque]
    pub open spec fn on_first_row(self) -> AppView {
        self.on_row(0)
    }

    /// With the whole text marked.
    #[verifier::opaque]
    pub open spec fn marked(self) -> AppView {
        self.with_text_input(TextInputView { all_text_selected: true, ..self.kept.text_input })
    }

    /// After something that a key does wherever it is not bound.
    #[verifier::opaque]
    pub open spec fn deed_done(self, deed: Deed, at: Moment) -> AppView {
        match deed {
            Deed::End => self.ended(),
            Deed::AskUpdate => self.shown(PopupView::UpdateBeginPrompt),
            Deed::Interrupt => self.interrupted(),
            Deed::SelectAll => self.marked(),
            Deed::RemoveWord => self.word_cut(),
            Deed::RowZero => self.on_first_row(),
            Deed::ScrollTop => self.asked(Request::ScrollBuffer(i32::MAX)),
            Deed::ScrollBottom => self.asked(Request::ScrollBuffer(i32::MIN)),
            Deed::ClearText => self.text_cleared(),
            Deed::PageUp => self.asked(Request::PageUp),
            Deed::PageDown => self.asked(Request::PageDown),
            Deed::Left => self.sidestepped(false),
            Deed::Right => self.sidestepped(true),
            Deed::Up => self.stepped(false),
            Deed::Down => self.stepped(true),
            Deed::AskIgnore => self.ignore_asked(),
            Deed::Enter { ctrl, shift } => self.entered(ctrl, shift, at),
            Deed::Search => self.history_searched(),
            Deed::Reload(action) => self.builtin_done(action, at),
            Deed::Escape => self.escaped(at),
        }
    }

    /// The first of some texts that names no action.
    pub open spec fn first_unknown(self, names: Seq<String>, from: int) -> Option<int>
        decreases names.len() - from,
    {
        if from < 0 || from >= names.len() {
            None
        } else if self.action_named(names[from]@) is None {
            Some(from)
        } else {
            self.first_unknown(names, from + 1)
        }
    }

    /// The actions that some texts name.
    pub open spec fn actions_named(self, names: Seq<String>) -> Seq<ActionView> {
        names.map_values(|name: String| self.action_named(name@)->0)
    }

    /// After the actions that a combination is bound to.
    #[verifier::opaque]
    pub open spec fn bound_done(self, combo: KeyEvent, at: Moment) -> AppView {
        let bindings = self.kept.keybinds.keybindings@;
        match crate::keybinds::binding_of(bindings, combo, 0) {
            None => self,
            Some(i) => {
                let names = bindings[i].actions@;
                match self.first_unknown(names, 0) {
                    Some(bad) => self.said(
                        "Unrecognized keybind action: \""@ + names[bad]@ + "\""@,
                        Color::Yellow,
                    ),
                    None => self.queued(self.actions_named(names), bindings[i].label@, at),
                }
            },
        }
    }

    /// After what a combination of keys does once it was typed.
    #[verifier::opaque]
    pub open spec fn key_run(self, combo: KeyEvent, flow: Flow, at: Moment) -> AppView {
        match deed_of(combo, self.context(flow)) {
            Some(deed) => self.deed_done(deed, at),
            None => self.bound_done(combo, at),
        }
    }

    /// Whether `after` is what comes of a key where no device is being worked on.
    #[verifier::opaque]
    pub open spec fn key_handled(self, key: KeyEvent, at: Moment, after: AppView) -> bool {
        exists|typed: AppView, flow: Flow|
            #[trigger] self.key_typed(key, at, typed, flow) && after == (if flow.done {
                typed
            } else {
                typed.key_run(key.combination(), flow, at)
            })
    }

    /// With an interruption acknowledged.
    #[verifier::opaque]
    pub open spec fn heard(self, key: KeyEvent) -> AppView {
        if crate::keys::interrupts(key) {
            self.asked(Request::AcknowledgeInterrupt)
        } else {
            self
        }
    }

    /// With what is shown of a device closed.
    #[verifier::opaque]
    pub open spec fn device_closed(self) -> AppView {
        self.with_espflash(EspFlashHelper { popup: None, ..self.kept.espflash })
    }

    /// Whether `after` is what comes of a key.
    #[verifier::opaque]
    pub open spec fn key_pressed(self, key: KeyEvent, at: Moment, after: AppView) -> bool {
        match self.kept.espflash.popup {
            Some(EspPopup::DeviceInfo(_)) => after == self.heard(key).device_closed(),
            Some(_) => after == self,
            None => self.heard(key).key_handled(key, at, after),
        }
    }
}

impl App {
    fn send_key(&mut self, key: KeyEvent, at: Moment)
        ensures
            final(self)@ == old(self)@.key_to_port(key, at),
            old(self)@.wf() ==> final(self)@.wf(),
    {
        proof {
            reveal(AppView::key_to_port);
        }
        if at.status.is_connected() {
            if is_beyond_code(key) {
                self.ask(Request::Fail(Fault::KeyBeyondCode));
            } else {
                self.send_encoded_key(encode_key(key), at.now);
            }
        } else {
            self.trigger_send_failed_visual(at.now);
            self.last_raw_sequence = Vec::new();
            assert(self.last_raw_sequence@ =~= Seq::<u8>::empty());
        }
    }

    /// Takes up how a key was encoded for the port: it is sent as that, and remembered.
    pub fn send_encoded_key(&mut self, encoding: KeyEncoding, now: u64)
        ensures
            final(self)@ == old(self)@.key_encoded(encoding@, now),
            old(self)@.wf() ==> final(self)@.wf(),
    {
        proof {
            reveal(AppView::key_encoded);
        }
        match encoding {
            KeyEncoding::Unknown => {
                self.trigger_send_failed_visual(now);
                self.last_raw_sequence = Vec::new();
                assert(self.last_raw_sequence@ =~= Seq::<u8>::empty());
            },
            KeyEncoding::Failed => self.flip_line(),
            KeyEncoding::Bytes(bytes) => {
                self.effect(Effect::Send(bytes.clone()));
                self.last_raw_sequence = bytes;
                self.flip_line();
            },
        }
    }

    fn sync_baud(&mut self)
        ensures
            final(self)@ == old(self)@.baud_synced(),
            old(self)@.wf() ==> final(self)@.wf(),
    {
        match parse_decimal(input_value(&self.baud_input), u32::MAX as u64) {
            Ok(n) => {
                self.scratch.serial.baud_rate = n as u32;
            },
            Err(_) => {},
        }
    }

    fn type_baud(&mut self, key: KeyEvent)
        ensures
            old(self)@.baud_edited(key, final(self)@),
            old(self)@.wf() ==> final(self)@.wf(),
    {
        proof {
            reveal(AppView::baud_edited);
        }
        let _changed = handle_key(&mut self.baud_input, key);
        let ghost new = crate::input_box::edited(
            key,
            old(self)@.edit.baud_text,
            old(self)@.edit.baud_cursor,
            old(self)@.edit.baud_cut,
        );
        assert(self@ == old(self)@.with_baud_box(new));
        self.sync_baud();
    }

    fn type_search(&mut self, key: KeyEvent)
        ensures
            old(self)@.search_edited(key, final(self)@),
            old(self)@.wf() ==> final(self)@.wf(),
    {
        proof {
            reveal(AppView::search_edited);
        }
        let _changed = handle_key(&mut self.macros.search_input, key);
        assert(self@ == old(self)@.with_macros(self@.kept.macros));
    }

    fn type_text(&mut self, key: KeyEvent)
        requires
            old(self)@.wf(),
        ensures
            old(self)@.text_edited(key, final(self)@),
            final(self)@.wf(),
    {
        proof {
            reveal(AppView::text_edited);
            reveal(crate::app::valid);
        }
        self.text_input.consume_typing_event(key);
        assert(self@ == old(self)@.with_text_input(self@.kept.text_input));
    }

    fn type_in_terminal(&mut self, key: KeyEvent, at: Moment) -> (done: bool)
        requires
            old(self)@.wf(),
        ensures
            old(self)@.terminal_typed(key, at, final(self)@, done),
            final(self)@.wf(),
    {
        proof {
            reveal(AppView::terminal_typed);
        }
        let combo = key.to_combination();
        let marks = combo.code == KeyCode::Char('a') && combo.modifiers == CONTROL;
        let removes = combo.modifiers == 0 && (combo.code == KeyCode::Delete || combo.code
            == KeyCode::Backspace);
        if marks || (removes && self.text_input.all_selected()) {
            return false;
        }
        if self.settings.behavior.pseudo_shell {
            self.type_text(key);
            return false;
        }
        if self.keybinds.key_has_single_action(
            combo,
            BuiltinAction::Base(BaseAction::EscapeKeypress),
        ) {
            if self.screen.escape_next_keypress {
                self.screen.escape_next_keypress = false;
                self.send_key(key, at);
            } else {
                self.screen.escape_next_keypress = true;
            }
            return true;
        }
        if !self.screen.escape_next_keypress {
            self.send_key(key, at);
            return true;
        }
        self.screen.escape_next_keypress = false;
        false
    }

    fn own_baud(&self) -> (r: bool)
        ensures
            r == self@.own_baud_selected(),
    {
        self.screen.baud_index == CUSTOM_BAUD && self.screen.port_selection_scroll
            == self.port_selection_item_count() - 2
    }

    fn typing_place(&self) -> (r: Place)
        ensures
            r == place_of(self@),
    {
        match &self.popup {
            Some(Popup::ToolMenu(ToolMenu::Macros)) => Place::Search,
            Some(Popup::DefmtNewElf) => Place::Explorer,
            Some(Popup::SettingsMenu(SettingsMenu::SerialPort)) => Place::BaudSetting,
            Some(_) => Place::Prompt,
            None => if self.screen.menu == Menu::Terminal {
                Place::Terminal
            } else {
                Place::Ports
            },
        }
    }

    fn type_in_setting(&mut self, key: KeyEvent)
        ensures
            if old(self)@.corrected() == Some(0int) && AppView::setting_takes(key) {
                old(self)@.baud_edited(key, final(self)@)
            } else {
                final(self)@ == old(self)@
            },
            old(self)@.wf() ==> final(self)@.wf(),
    {
        let takes = match key.code {
            KeyCode::Char(c) => '0' <= c && c <= '9',
            KeyCode::Backspace => true,
            _ => false,
        };
        let here = match self.get_corrected_popup_index() {
            Some(i) => i == 0,
            None => false,
        };
        if here && takes {
            self.type_baud(key);
        }
    }

    fn type_in_ports(&mut self, key: KeyEvent) -> (port_actions: bool)
        ensures
            if old(self)@.own_baud_selected() {
                !port_actions && (if AppView::baud_takes(key) {
                    old(self)@.baud_edited(key, final(self)@)
                } else {
                    final(self)@ == old(self)@
                })
            } else {
                final(self)@ == old(self)@ && port_actions
            },
            old(self)@.wf() ==> final(self)@.wf(),
    {
        if !self.own_baud() {
            return true;
        }
        let takes = match key.code {
            KeyCode::Char(c) => !is_alphabetic(c),
            _ => true,
        };
        if takes {
            self.type_baud(key);
        }
        false
    }

    fn type_key(&mut self, key: KeyEvent, at: Moment) -> (flow: Flow)
        requires
            old(self)@.wf(),
        ensures
            old(self)@.key_typed(key, at, final(self)@, flow),
            final(self)@.wf(),
    {
        proof {
            reveal(AppView::key_typed);
        }
        let mut flow = Flow { done: false, port_actions: false, terminal_actions: false };
        match self.typing_place() {
            Place::Search => self.type_search(key),
            Place::Explorer => {
                let input = explorer_input(key.code);
                self.ask(Request::Explore(input));
                flow.done = input != ExplorerInput::Ignored;
            },
            Place::BaudSetting => self.type_in_setting(key),
            Place::Prompt => {
                if !is_ctrl_c(&key) {
                    let choice = choice_by_key(&self.popup, key.code);
                    self.choose_in_prompt(choice, key.ctrl(), key.shift());
                }
            },
            Place::Terminal => {
                flow.terminal_actions = true;
                flow.done = self.type_in_terminal(key, at);
            },
            Place::Ports => {
                flow.port_actions = self.type_in_ports(key);
            },
        }
        flow
    }

    fn reload_target(&self) -> (r: Option<BuiltinAction>)
        ensures
            r == (match self@.ui.popup {
                Some(PopupView::CurrentKeybinds) => Some(
                    BuiltinAction::Base(BaseAction::ReloadKeybinds),
                ),
                Some(PopupView::ToolMenu(ToolMenu::Macros)) => Some(
                    BuiltinAction::MacroBuiltin(MacroBuiltinAction::ReloadMacros),
                ),
                Some(PopupView::ToolMenu(ToolMenu::EspFlash)) => Some(
                    BuiltinAction::EspBuiltin(EspBuiltinAction::ReloadProfiles),
                ),
                _ => None,
            }),
    {
        match &self.popup {
            Some(Popup::CurrentKeybinds) => Some(BuiltinAction::Base(BaseAction::ReloadKeybinds)),
            Some(Popup::ToolMenu(ToolMenu::Macros)) => Some(
                BuiltinAction::MacroBuiltin(MacroBuiltinAction::ReloadMacros),
            ),
            Some(Popup::ToolMenu(ToolMenu::EspFlash)) => Some(
                BuiltinAction::EspBuiltin(EspBuiltinAction::ReloadProfiles),
            ),
            _ => None,
        }
    }

    fn key_context(&self, flow: Flow) -> (r: Context)
        ensures
            r == self@.context(flow),
    {
        proof {
            reveal(AppView::context);
        }
        let in_macros = match &self.popup {
            Some(Popup::ToolMenu(ToolMenu::Macros)) => true,
            _ => false,
        };
        assert(self@.kept.ports.len() == self.ports@.len());
        Context {
            port_actions: flow.port_actions,
            terminal_actions: flow.terminal_actions,
            popup_open: self.popup.is_some(),
            update_found: self.update_found_version.is_some(),
            text_empty: self.text_input.value().is_empty(),
            all_text_selected: self.text_input.all_selected(),
            vim: !in_macros && !(self.popup.is_none() && self.screen.menu == Menu::Terminal),
            port_selected: self.screen.port_selection_scroll < self.ports.len(),
            reload: self.reload_target(),
        }
    }

    pub(crate) fn asks_about_connection(&self) -> (r: bool)
        ensures
            r == self@.connection_asked(),
    {
        proof {
            reveal(AppView::connection_asked);
        }
        match &self.popup {
            Some(Popup::AttemptReconnectPrompt) => true,
            Some(Popup::DisconnectPrompt) => true,
            _ => false,
        }
    }

    fn interrupt(&mut self)
        ensures
            final(self)@ == old(self)@.interrupted(),
            old(self)@.wf() ==> final(self)@.wf(),
    {
        proof {
            reveal(AppView::interrupted);
        }
        if self.asks_about_connection() {
            self.shutdown();
        } else if self.popup.is_some() {
            self.dismiss_popup();
        } else if self.screen.menu == Menu::Terminal {
            self.show_popup(Popup::DisconnectPrompt);
        } else {
            self.shutdown();
        }
    }

    fn ask_ignore(&mut self)
        ensures
            final(self)@ == old(self)@.ignore_asked(),
            old(self)@.wf() ==> final(self)@.wf(),
    {
        proof {
            reveal(AppView::ignore_asked);
        }
        let at: usize = self.screen.port_selection_scroll;
        assert(self@.kept.ports.len() == self.ports@.len());
        if at < self.ports.len() {
            assert(self@.kept.ports[at as int] == self.ports@[at as int]@);
            let name = self.ports[at].port_name.clone();
            let popup = match &self.ports[at].port_type {
                SerialPortType::UsbPort(usb) => Popup::IgnoreByUsb(name, usb.duplicate()),
                _ => Popup::IgnoreByName(name),
            };
            self.show_popup(popup);
        }
    }

    fn cut_word(&mut self)
        requires
            old(self)@.wf(),
        ensures
            final(self)@ == old(self)@.word_cut(),
            final(self)@.wf(),
    {
        proof {
            reveal(AppView::word_cut);
            reveal(crate::app::valid);
        }
        if self.text_input.word_removal_possible() {
            self.text_input.remove_one_word();
        } else {
            self.ask(Request::Fail(Fault::DigitsBroken));
        }
    }

    fn mark_text(&mut self)
        ensures
            final(self)@ == old(self)@.marked(),
            old(self)@.wf() ==> final(self)@.wf(),
    {
        proof {
            reveal(AppView::marked);
            reveal(crate::app::valid);
        }
        self.text_input.select_all(true);
    }

    fn empty_text(&mut self)
        ensures
            final(self)@ == old(self)@.text_cleared(),
            old(self)@.wf() ==> final(self)@.wf(),
    {
        proof {
            reveal(AppView::text_cleared);
        }
        self.clear_text();
    }

    fn search_history(&mut self)
        requires
            old(self)@.wf(),
        ensures
            final(self)@ == old(self)@.history_searched(),
            final(self)@.wf(),
    {
        proof {
            reveal(AppView::history_searched);
            reveal(crate::app::valid);
        }
        self.text_input.find_input_in_history();
    }

    fn go_to_first_row(&mut self)
        ensures
            final(self)@ == old(self)@.on_first_row(),
            old(self)@.wf() ==> final(self)@.wf(),
    {
        proof {
            reveal(AppView::on_first_row);
        }
        self.screen.popup_menu_scroll = 0;
    }

    fn do_deed(&mut self, deed: Deed, at: Moment)
        requires
            old(self)@.wf(),
        ensures
            final(self)@ == old(self)@.deed_done(deed, at),
            final(self)@.wf(),
    {
        proof {
            reveal(AppView::deed_done);
        }
        match deed {
            Deed::End => self.shutdown(),
            Deed::AskUpdate => self.show_popup(Popup::UpdateBeginPrompt),
            Deed::Interrupt => self.interrupt(),
            Deed::SelectAll => self.mark_text(),
            Deed::RemoveWord => self.cut_word(),
            Deed::RowZero => self.go_to_first_row(),
            Deed::ScrollTop => self.ask(Request::ScrollBuffer(i32::MAX)),
            Deed::ScrollBottom => self.ask(Request::ScrollBuffer(i32::MIN)),
            Deed::ClearText => self.empty_text(),
            Deed::PageUp => self.ask(Request::PageUp),
            Deed::PageDown => self.ask(Request::PageDown),
            Deed::Left => self.left_pressed(),
            Deed::Right => self.right_pressed(),
            Deed::Up => self.up_pressed(),
            Deed::Down => self.down_pressed(),
            Deed::AskIgnore => self.ask_ignore(),
            Deed::Enter { ctrl, shift } => self.enter_pressed(ctrl, shift, at),
            Deed::Search => self.search_history(),
            Deed::Reload(action) => self.run_builtin_action(action, at),
            Deed::Escape => self.esc_pressed(at),
        }
    }

    /// The actions that some texts name, or the first that names none.
    fn resolve(&self, names: &Vec<String>) -> (r: Result<Vec<Action>, usize>)
        requires
            self@.wf(),
        ensures
            match self@.first_unknown(names@, 0) {
                Some(bad) => r is Err && r->Err_0 == bad && 0 <= bad < names@.len(),
                None => r is Ok && crate::app::actions::action_views(r->Ok_0@)
                    == self@.actions_named(names@) && r->Ok_0@.len() == names@.len(),
            },
    {
        let mut actions: Vec<Action> = Vec::new();
        let mut i: usize = 0;
        assert(crate::app::actions::action_views(actions@) =~= self@.actions_named(
            names@.take(0),
        ));
        while i < names.len()
            invariant
                self@.wf(),
                i <= names@.len(),
                actions@.len() == i,
                self@.first_unknown(names@, 0) == self@.first_unknown(names@, i as int),
                crate::app::actions::action_views(actions@) == self@.actions_named(
                    names@.take(i as int),
                ),
            decreases names@.len() - i,
        {
            match self.get_action_from_string(names[i].as_str()) {
                Some(action) => {
                    let ghost before = actions@;
                    actions.push(action);
                    proof {
                        let taken = names@.take(i + 1);
                        assert(taken =~= names@.take(i as int).push(names@[i as int]));
                        assert(self@.actions_named(taken) =~= self@.actions_named(
                            names@.take(i as int),
                        ).push(action@));
                        assert(crate::app::actions::action_views(actions@)
                            =~= crate::app::actions::action_views(before).push(action@));
                    }
                },
                None => {
                    return Err(i);
                },
            }
            i += 1;
        }
        assert(names@.take(i as int) =~= names@);
        Ok(actions)
    }

    fn run_binding(&mut self, combo: KeyEvent, at: Moment)
        requires
            old(self)@.wf(),
        ensures
            final(self)@ == old(self)@.bound_done(combo, at),
            final(self)@.wf(),
    {
        proof {
            reveal(AppView::bound_done);
        }
        let (resolved, label, unknown) = match self.keybinds.position(combo) {
            None => {
                return;
            },
            Some(i) => {
                let binding = &self.keybinds.keybindings[i];
                let resolved = self.resolve(&binding.actions);
                let unknown = match &resolved {
                    Err(bad) => binding.actions[*bad].clone(),
                    Ok(_) => String::new(),
                };
                proof {
                    reveal(crate::app::valid);
                }
                (resolved, binding.label.clone(), unknown)
            },
        };
        match resolved {
            Ok(actions) => self.queue_keybinds_action_set(actions, label.as_str(), at),
            Err(_) => {
                self.say(
                    concat3("Unrecognized keybind action: \"", unknown.as_str(), "\""),
                    Color::Yellow,
                );
            },
        }
    }

    fn run_key(&mut self, combo: KeyEvent, flow: Flow, at: Moment)
        requires
            old(self)@.wf(),
        ensures
            final(self)@ == old(self)@.key_run(combo, flow, at),
            final(self)@.wf(),
    {
        proof {
            reveal(AppView::key_run);
        }
        match find_deed(combo, self.key_context(flow)) {
            Some(deed) => self.do_deed(deed, at),
            None => self.run_binding(combo, at),
        }
    }

    pub(crate) fn close_esp_popup(&mut self)
        ensures
            final(self)@ == old(self)@.device_closed(),
            old(self)@.wf() ==> final(self)@.wf(),
    {
        proof {
            reveal(AppView::device_closed);
        }
        self.espflash.reset_popup();
    }

    fn hear(&mut self, key: KeyEvent)
        ensures
            final(self)@ == old(self)@.heard(key),
            old(self)@.wf() ==> final(self)@.wf(),
    {
        proof {
            reveal(AppView::heard);
        }
        if is_ctrl_c(&key) {
            self.ask(Request::AcknowledgeInterrupt);
        }
    }

    fn handle_plain_key(&mut self, key: KeyEvent, at: Moment)
        requires
            old(self)@.wf(),
        ensures
            old(self)@.key_handled(key, at, final(self)@),
            final(self)@.wf(),
    {
        proof {
            reveal(AppView::key_handled);
        }
        let flow = self.type_key(key, at);
        let ghost typed = self@;
        assert(old(self)@.key_typed(key, at, typed, flow));
        if !flow.done {
            self.run_key(key.to_combination(), flow, at);
        }
    }

    /// Acts on a key. While a device is being worked on, keys do nothing; any key
    /// closes its description.
    pub fn handle_key_press(&mut self, key: KeyEvent, at: Moment)
        requires
            old(self)@.wf(),
        ensures
            old(self)@.key_pressed(key, at, final(self)@),
            final(self)@.wf(),
    {
        proof {
            reveal(AppView::key_pressed);
        }
        let described = self.espflash.device_info_shown();
        if self.espflash.popup_active() && !described {
            return;
        }
        self.hear(key);
        if described {
            self.close_esp_popup();
        } else {
            self.handle_plain_key(key, at);
        }
    }
}

/// Where a key is typed.
#[derive(Clone, Copy, Debug, PartialEq, Eq, Structural)]
pub enum Place {
    Search,
    Explorer,
    BaudSetting,
    Prompt,
    Terminal,
    Ports,
}

/// Where a key is typed.
pub open spec fn place_of(app: AppView) -> Place {
    match app.ui.popup {
        Some(PopupView::ToolMenu(ToolMenu::Macros)) => Place::Search,
        Some(PopupView::DefmtNewElf) => Place::Explorer,
        Some(PopupView::SettingsMenu(SettingsMenu::SerialPort)) => Place::BaudSetting,
        Some(_) => Place::Prompt,
        None => match app.ui.screen.menu {
            Menu::Terminal => Place::Terminal,
            Menu::PortSelection => Place::Ports,
        },
    }
}

} // verus!
