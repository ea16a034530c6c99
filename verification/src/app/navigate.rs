//! Moving through the menus.

use vstd::prelude::*;
use vstd::string::*;

use crate::app::effects::Request;
use crate::app::{
    App, AppView, Layout, Menu, Popup, PopupView, Screen, SettingsMenu, ToolMenu, CUSTOM_BAUD,
};
use crate::input_box::{input_value, reset_input};
use crate::keybinds::ShowPopupAction;
use crate::macros::MacrosView;
use crate::text_input::TextInputView;
use crate::tui::esp::{EspFlashHelper, ESPFLASH_BUTTON_COUNT};
use crate::tui::prompts::{
    AttemptReconnectPrompt, DisconnectPrompt, IgnorePortByNamePrompt, IgnoreUsbDevicePrompt,
    PromptTable, UpdateBeginPrompt, UpdateCheckConsentPrompt, UpdateLaunchPrompt,
};
use crate::tui::POPUP_MENU_SELECTOR_COUNT;

verus! {

impl Layout {
    /// The rows of a settings menu, with its buttons.
    pub open spec fn rows(self, menu: SettingsMenu) -> int {
        match menu {
            SettingsMenu::SerialPort => self.serial_rows as int,
            SettingsMenu::Rendering => self.rendering_rows as int,
            SettingsMenu::Behavior => self.behavior_rows as int,
            SettingsMenu::Logging => 1 + self.logging_rows,
            SettingsMenu::Defmt => 2 + self.defmt_rows,
        }
    }

    fn row_count(self, menu: SettingsMenu) -> (r: usize)
        ensures
            r == self.rows(menu),
    {
        match menu {
            SettingsMenu::SerialPort => self.serial_rows as usize,
            SettingsMenu::Rendering => self.rendering_rows as usize,
            SettingsMenu::Behavior => self.behavior_rows as usize,
            SettingsMenu::Logging => 1 + self.logging_rows as usize,
            SettingsMenu::Defmt => 2 + self.defmt_rows as usize,
        }
    }
}

/// How the rows of a pop-up are gone through.
#[derive(Clone, Copy, Debug, PartialEq, Eq, Structural)]
pub enum RowKind {
    /// From either end to the other.
    Round,
    /// Down as far as one likes.
    Free,
    /// There is nothing to select.
    Fixed,
}

impl PopupView {
    /// How the rows are gone through.
    pub open spec fn row_kind(self) -> RowKind {
        match self {
            PopupView::CurrentKeybinds => RowKind::Free,
            PopupView::DefmtNewElf => RowKind::Fixed,
            PopupView::UpdateDownloading => RowKind::Fixed,
            PopupView::SerialConnectionFailed(_) => RowKind::Fixed,
            _ => RowKind::Round,
        }
    }
}

impl Popup {
    fn rows_go(&self) -> (r: RowKind)
        ensures
            r == self@.row_kind(),
    {
        match self {
            Popup::CurrentKeybinds => RowKind::Free,
            Popup::DefmtNewElf => RowKind::Fixed,
            Popup::UpdateDownloading => RowKind::Fixed,
            Popup::SerialConnectionFailed(_) => RowKind::Fixed,
            _ => RowKind::Round,
        }
    }
}

/// The pop-up that an action is about.
pub open spec fn popup_of(action: ShowPopupAction) -> PopupView {
    match action {
        ShowPopupAction::ShowKeybinds => PopupView::CurrentKeybinds,
        ShowPopupAction::ShowPortSettings => PopupView::SettingsMenu(SettingsMenu::SerialPort),
        ShowPopupAction::ShowBehavior => PopupView::SettingsMenu(SettingsMenu::Behavior),
        ShowPopupAction::ShowRendering => PopupView::SettingsMenu(SettingsMenu::Rendering),
        ShowPopupAction::ShowMacros => PopupView::ToolMenu(ToolMenu::Macros),
        ShowPopupAction::ShowEspFlash => PopupView::ToolMenu(ToolMenu::EspFlash),
        ShowPopupAction::ShowLogging => PopupView::SettingsMenu(SettingsMenu::Logging),
        ShowPopupAction::ShowDefmt => PopupView::SettingsMenu(SettingsMenu::Defmt),
    }
}

fn popup_for(action: ShowPopupAction) -> (r: Popup)
    ensures
        r@ == popup_of(action),
{
    match action {
        ShowPopupAction::ShowKeybinds => Popup::CurrentKeybinds,
        ShowPopupAction::ShowPortSettings => Popup::SettingsMenu(SettingsMenu::SerialPort),
        ShowPopupAction::ShowBehavior => Popup::SettingsMenu(SettingsMenu::Behavior),
        ShowPopupAction::ShowRendering => Popup::SettingsMenu(SettingsMenu::Rendering),
        ShowPopupAction::ShowMacros => Popup::ToolMenu(ToolMenu::Macros),
        ShowPopupAction::ShowEspFlash => Popup::ToolMenu(ToolMenu::EspFlash),
        ShowPopupAction::ShowLogging => Popup::SettingsMenu(SettingsMenu::Logging),
        ShowPopupAction::ShowDefmt => Popup::SettingsMenu(SettingsMenu::Defmt),
    }
}

fn same_menu(open: &Option<Popup>, wanted: &Popup) -> (r: bool)
    requires
        wanted@ is CurrentKeybinds || wanted@ is SettingsMenu || wanted@ is ToolMenu,
    ensures
        r == (open is Some && open->0@ == wanted@),
{
    match (open, wanted) {
        (Some(Popup::CurrentKeybinds), Popup::CurrentKeybinds) => true,
        (Some(Popup::SettingsMenu(a)), Popup::SettingsMenu(b)) => *a == *b,
        (Some(Popup::ToolMenu(a)), Popup::ToolMenu(b)) => *a == *b,
        _ => false,
    }
}

impl AppView {
    /// The entries of the screen where ports are selected: the ports, a baud rate
    /// of one's own, the baud rate and the options.
    pub open spec fn port_items(self) -> int {
        crate::buffer::tui::capped(
            self.kept.ports.len() + (if self.ui.screen.baud_index == CUSTOM_BAUD {
                1int
            } else {
                0
            }) + 2,
        )
    }

    /// The rows of the pop-up that can be selected, with the selectors of menus.
    pub open spec fn item_count(self) -> int {
        crate::buffer::tui::capped(
            match self.ui.popup {
                Some(PopupView::DefmtRecentElf) => self.kept.recent_elfs.len() as int,
                Some(PopupView::SettingsMenu(menu)) => self.kept.layout.rows(menu)
                    + POPUP_MENU_SELECTOR_COUNT,
                Some(PopupView::ToolMenu(ToolMenu::Macros)) => 1 + self.kept.macros.visible().len()
                    + POPUP_MENU_SELECTOR_COUNT,
                Some(PopupView::ToolMenu(ToolMenu::EspFlash)) => ESPFLASH_BUTTON_COUNT
                    + self.kept.espflash.count() + POPUP_MENU_SELECTOR_COUNT,
                Some(PopupView::DisconnectPrompt) => DisconnectPrompt::choices().len() as int,
                Some(
                    PopupView::AttemptReconnectPrompt,
                ) => AttemptReconnectPrompt::choices().len() as int,
                Some(
                    PopupView::IgnoreByName(_),
                ) => IgnorePortByNamePrompt::choices().len() as int,
                Some(
                    PopupView::IgnoreByUsb(_, _),
                ) => IgnoreUsbDevicePrompt::choices().len() as int,
                Some(PopupView::UpdateBeginPrompt) => UpdateBeginPrompt::choices().len() as int,
                Some(
                    PopupView::UpdateCheckConsentPrompt,
                ) => UpdateCheckConsentPrompt::choices().len() as int,
                Some(PopupView::UpdateLaunchPrompt) => UpdateLaunchPrompt::choices().len() as int,
                _ => 0,
            },
        )
    }

    /// The last row of the pop-up.
    pub open spec fn last_row(self) -> int {
        if self.item_count() == 0 {
            0
        } else {
            self.item_count() - 1
        }
    }

    /// Which entry of its table a menu has selected, if it is in the table.
    pub open spec fn corrected(self) -> Option<int> {
        let row = self.ui.screen.popup_menu_scroll as int;
        if row < POPUP_MENU_SELECTOR_COUNT {
            None
        } else {
            match self.ui.popup {
                Some(PopupView::SettingsMenu(SettingsMenu::Defmt)) => if row
                    >= POPUP_MENU_SELECTOR_COUNT + 2 {
                    Some(row - POPUP_MENU_SELECTOR_COUNT - 2)
                } else {
                    Some(row - POPUP_MENU_SELECTOR_COUNT)
                },
                Some(PopupView::SettingsMenu(_)) => Some(row - POPUP_MENU_SELECTOR_COUNT),
                Some(PopupView::ToolMenu(ToolMenu::Macros)) => if row
                    == POPUP_MENU_SELECTOR_COUNT {
                    None
                } else {
                    Some(row - POPUP_MENU_SELECTOR_COUNT - 1)
                },
                Some(PopupView::ToolMenu(ToolMenu::EspFlash)) => if row
                    >= POPUP_MENU_SELECTOR_COUNT + ESPFLASH_BUTTON_COUNT {
                    Some(row - POPUP_MENU_SELECTOR_COUNT - ESPFLASH_BUTTON_COUNT)
                } else {
                    Some(row - POPUP_MENU_SELECTOR_COUNT)
                },
                _ => None,
            }
        }
    }

    /// With another row of the pop-up selected.
    pub open spec fn on_row(self, row: int) -> AppView {
        self.with_screen(Screen { popup_menu_scroll: row as usize, ..self.ui.screen })
    }

    /// The row above or below the selected one.
    pub open spec fn next_row(self, kind: RowKind, down: bool) -> int {
        let row = self.ui.screen.popup_menu_scroll as int;
        match kind {
            RowKind::Fixed => row,
            RowKind::Free => if down {
                crate::buffer::tui::capped(row + 1)
            } else if row > 0 {
                row - 1
            } else {
                0
            },
            RowKind::Round => if down {
                if row >= self.last_row() {
                    0
                } else {
                    row + 1
                }
            } else if row == 0 {
                self.last_row()
            } else {
                row - 1
            },
        }
    }

    /// The entry of the screen where ports are selected above or below the
    /// selected one; they go round.
    pub open spec fn next_port_item(self, down: bool) -> int {
        let at = self.ui.screen.port_selection_scroll as int;
        if down {
            if at >= self.port_items() - 1 {
                0
            } else {
                at + 1
            }
        } else if at == 0 {
            self.port_items() - 1
        } else {
            at - 1
        }
    }

    /// With nothing of the text marked, and the hint at rest.
    pub open spec fn unmarked(self) -> AppView {
        self.with_text_input(
            TextInputView { all_text_selected: false, ..self.kept.text_input },
        ).with_screen(Screen { popup_hint_scroll: -2i32, ..self.ui.screen })
    }

    /// After a step up or down.
    #[verifier::opaque]
    pub open spec fn stepped(self, down: bool) -> AppView {
        let start = self.unmarked();
        match self.ui.popup {
            Some(popup) => start.on_row(start.next_row(popup.row_kind(), down)),
            None => match self.ui.screen.menu {
                Menu::PortSelection => start.with_screen(Screen {
                        port_selection_scroll: start.next_port_item(down) as usize,
                        ..start.ui.screen
                    }),
                Menu::Terminal => start.with_text_input(start.kept.text_input.scrolled(!down)),
            },
        }
    }

    /// With an action's pop-up opened, or closed if it was open.
    #[verifier::opaque]
    pub open spec fn toggled_popup(self, action: ShowPopupAction) -> AppView {
        if self.ui.popup == Some(popup_of(action)) {
            self.dismissed()
        } else {
            self.shown(popup_of(action))
        }
    }

    /// With another menu, and nothing searched for.
    #[verifier::opaque]
    pub open spec fn in_menu(self, popup: PopupView) -> AppView {
        let there = self.with_popup(Some(popup)).refreshed();
        there.with_macros(
            MacrosView { query: Seq::empty(), cursor: 0, ..there.kept.macros },
        ).with_screen(Screen { popup_hint_scroll: -2i32, ..there.ui.screen })
    }

    /// With the menu of the same kind behind or before this one.
    #[verifier::opaque]
    pub open spec fn cycled_sub_menu(self, next: bool) -> AppView {
        match self.ui.popup {
            Some(PopupView::SettingsMenu(menu)) => self.in_menu(
                PopupView::SettingsMenu(menu.turned(next)),
            ),
            Some(PopupView::ToolMenu(menu)) => self.in_menu(PopupView::ToolMenu(menu.other())),
            _ => self,
        }
    }

    /// With the first menu of the other kind.
    #[verifier::opaque]
    pub open spec fn cycled_menu_type(self) -> AppView {
        match self.ui.popup {
            Some(PopupView::SettingsMenu(_)) => self.in_menu(
                PopupView::ToolMenu(ToolMenu::Macros),
            ),
            Some(PopupView::ToolMenu(_)) => self.in_menu(
                PopupView::SettingsMenu(SettingsMenu::SerialPort),
            ),
            _ => self,
        }
    }

    /// With another category of macros.
    #[verifier::opaque]
    pub open spec fn category_stepped(self, right: bool) -> AppView {
        if self.kept.macros.query.len() > 0 {
            self
        } else {
            let there = self.with_macros(self.kept.macros.stepped(right));
            if self.ui.screen.popup_menu_scroll < POPUP_MENU_SELECTOR_COUNT {
                there
            } else if there.kept.macros.visible().len() == 0 {
                there.on_row(1)
            } else {
                there.on_row(2)
            }
        }
    }

    /// After a step to the left or right in a table of settings.
    #[verifier::opaque]
    pub open spec fn setting_stepped(self, menu: SettingsMenu, right: bool) -> AppView {
        let row = self.ui.screen.popup_menu_scroll as int - POPUP_MENU_SELECTOR_COUNT;
        match menu {
            SettingsMenu::Logging => if row == self.kept.layout.logging_rows {
                self
            } else {
                self.asked(Request::EditScratch { menu, row: row as usize, right })
            },
            SettingsMenu::Defmt => if row < 2 {
                self
            } else {
                self.asked(Request::EditScratch { menu, row: (row - 2) as usize, right })
            },
            _ => self.asked(Request::EditScratch { menu, row: row as usize, right }),
        }
    }

    /// The position of the baud rate behind or before the selected one; they go
    /// round.
    pub open spec fn next_baud(self, right: bool) -> int {
        let at = self.ui.screen.baud_index as int;
        if right {
            if at == CUSTOM_BAUD {
                0
            } else {
                at + 1
            }
        } else if at == 0 {
            CUSTOM_BAUD as int
        } else {
            at - 1
        }
    }

    /// After a step to the left or right.
    #[verifier::opaque]
    pub open spec fn sidestepped(self, right: bool) -> AppView {
        let row = self.ui.screen.popup_menu_scroll;
        match self.ui.popup {
            Some(popup) => if !(popup is SettingsMenu || popup is ToolMenu) {
                self
            } else if row == 0 {
                self.cycled_menu_type()
            } else if row == 1 {
                self.cycled_sub_menu(right)
            } else {
                match popup {
                    PopupView::SettingsMenu(menu) => self.setting_stepped(menu, right),
                    PopupView::ToolMenu(ToolMenu::Macros) => self.category_stepped(right),
                    _ => if row == POPUP_MENU_SELECTOR_COUNT + 1 {
                        self.with_espflash(EspFlashHelper {
                                unchecked_bootloader: !self.kept.espflash.unchecked_bootloader,
                                ..self.kept.espflash
                            })
                    } else {
                        self
                    },
                }
            },
            None => if self.ui.screen.menu is PortSelection && self.ui.screen.port_selection_scroll
                == self.kept.ports.len() {
                self.with_screen(Screen {
                        baud_index: self.next_baud(right) as usize,
                        ..self.ui.screen
                    })
            } else {
                self
            },
        }
    }
}

impl App {
    /// The entries of the screen where ports are selected.
    pub fn port_selection_item_count(&self) -> (r: usize)
        ensures
            r == self@.port_items(),
            r >= 2,
    {
        assert(self@.kept.ports.len() == self.ports@.len());
        let own: usize = if self.screen.baud_index == CUSTOM_BAUD {
            3
        } else {
            2
        };
        self.ports.len().saturating_add(own)
    }

    /// The rows of the pop-up that can be selected, with the selectors of menus.
    /// None if there is nothing to select.
    pub fn current_popup_selectable_item_count(&self) -> (r: usize)
        requires
            self@.wf(),
        ensures
            r == self@.item_count(),
    {
        match &self.popup {
            Some(Popup::DefmtRecentElf) => {
                assert(self@.kept.recent_elfs.len() == self.recent_elfs@.len());
                self.recent_elfs.len()
            },
            Some(Popup::SettingsMenu(menu)) => self.layout.row_count(*menu)
                + POPUP_MENU_SELECTOR_COUNT,
            Some(Popup::ToolMenu(ToolMenu::Macros)) => self.macros.visible_len().saturating_add(
                1 + POPUP_MENU_SELECTOR_COUNT,
            ),
            Some(Popup::ToolMenu(ToolMenu::EspFlash)) => {
                proof {
                    reveal(crate::app::valid);
                }
                self.espflash.len().saturating_add(
                    ESPFLASH_BUTTON_COUNT + POPUP_MENU_SELECTOR_COUNT,
                )
            },
            Some(Popup::DisconnectPrompt) => DisconnectPrompt::count(),
            Some(Popup::AttemptReconnectPrompt) => AttemptReconnectPrompt::count(),
            Some(Popup::IgnoreByName(_)) => IgnorePortByNamePrompt::count(),
            Some(Popup::IgnoreByUsb(_, _)) => IgnoreUsbDevicePrompt::count(),
            Some(Popup::UpdateBeginPrompt) => UpdateBeginPrompt::count(),
            Some(Popup::UpdateCheckConsentPrompt) => UpdateCheckConsentPrompt::count(),
            Some(Popup::UpdateLaunchPrompt) => UpdateLaunchPrompt::count(),
            _ => 0,
        }
    }

    /// Which entry of its table a menu has selected, if it is in the table.
    pub fn get_corrected_popup_index(&self) -> (r: Option<usize>)
        ensures
            match self@.corrected() {
                Some(i) => r is Some && r->0 == i,
                None => r is None,
            },
    {
        let row: usize = self.screen.popup_menu_scroll;
        if row < POPUP_MENU_SELECTOR_COUNT {
            return None;
        }
        let entry: usize = row - POPUP_MENU_SELECTOR_COUNT;
        match &self.popup {
            Some(Popup::SettingsMenu(SettingsMenu::Defmt)) => if entry >= 2 {
                Some(entry - 2)
            } else {
                Some(entry)
            },
            Some(Popup::SettingsMenu(_)) => Some(entry),
            Some(Popup::ToolMenu(ToolMenu::Macros)) => if entry == 0 {
                None
            } else {
                Some(entry - 1)
            },
            Some(Popup::ToolMenu(ToolMenu::EspFlash)) => if entry >= ESPFLASH_BUTTON_COUNT {
                Some(entry - ESPFLASH_BUTTON_COUNT)
            } else {
                Some(entry)
            },
            _ => None,
        }
    }

    /// Whether the last row of the pop-up is selected.
    pub fn last_popup_item_selected(&self) -> (r: bool)
        requires
            self@.wf(),
        ensures
            r == (self@.ui.screen.popup_menu_scroll >= self@.last_row()),
    {
        self.screen.popup_menu_scroll >= self.current_popup_selectable_item_count().saturating_sub(
            1,
        )
    }

    /// Selects the last row of the pop-up.
    pub fn select_last_popup_item(&mut self)
        requires
            old(self)@.wf(),
        ensures
            final(self)@ == old(self)@.on_row(old(self)@.last_row()),
            final(self)@.wf(),
    {
        self.screen.popup_menu_scroll =
        self.current_popup_selectable_item_count().saturating_sub(1);
    }

    fn unmark(&mut self)
        ensures
            final(self)@ == old(self)@.unmarked(),
            old(self)@.wf() ==> final(self)@.wf(),
    {
        proof {
            reveal(crate::app::valid);
        }
        self.text_input.select_all(false);
        self.screen.popup_hint_scroll = -2;
    }

    fn step_row(&mut self, kind: RowKind, down: bool)
        requires
            old(self)@.wf(),
        ensures
            final(self)@ == old(self)@.on_row(old(self)@.next_row(kind, down)),
            final(self)@.wf(),
    {
        match kind {
            RowKind::Fixed => {},
            RowKind::Free => {
                if down {
                    self.screen.popup_menu_scroll =
                    self.screen.popup_menu_scroll.saturating_add(1);
                } else {
                    self.screen.popup_menu_scroll =
                    self.screen.popup_menu_scroll.saturating_sub(1);
                }
            },
            RowKind::Round => {
                if down {
                    if self.last_popup_item_selected() {
                        self.screen.popup_menu_scroll = 0;
                    } else {
                        self.screen.popup_menu_scroll += 1;
                    }
                } else if self.screen.popup_menu_scroll == 0 {
                    self.select_last_popup_item();
                } else {
                    self.screen.popup_menu_scroll -= 1;
                }
            },
        }
    }

    fn step_port_item(&mut self, down: bool)
        ensures
            final(self)@ == (old(self)@.with_screen(Screen {
                    port_selection_scroll: old(self)@.next_port_item(down) as usize,
                    ..old(self)@.ui.screen
                })),
            old(self)@.wf() ==> final(self)@.wf(),
    {
        let last: usize = self.port_selection_item_count() - 1;
        let at: usize = self.screen.port_selection_scroll;
        self.screen.port_selection_scroll = if down {
            if at >= last {
                0
            } else {
                at + 1
            }
        } else if at == 0 {
            last
        } else {
            at - 1
        };
    }

    fn step(&mut self, down: bool)
        requires
            old(self)@.wf(),
        ensures
            final(self)@ == old(self)@.stepped(down),
            final(self)@.wf(),
    {
        proof {
            reveal(AppView::stepped);
            reveal(crate::app::valid);
        }
        self.unmark();
        let kind = match &self.popup {
            Some(popup) => Some(popup.rows_go()),
            None => None,
        };
        match kind {
            Some(kind) => self.step_row(kind, down),
            None => {
                if self.screen.menu == Menu::PortSelection {
                    self.step_port_item(down);
                } else {
                    self.text_input.scroll_history(!down);
                }
            },
        }
    }

    /// Goes up: to the row above, or to an older input.
    pub fn up_pressed(&mut self)
        requires
            old(self)@.wf(),
        ensures
            final(self)@ == old(self)@.stepped(false),
            final(self)@.wf(),
    {
        self.step(false);
    }

    /// Goes down: to the row below, or to a newer input.
    pub fn down_pressed(&mut self)
        requires
            old(self)@.wf(),
        ensures
            final(self)@ == old(self)@.stepped(true),
            final(self)@.wf(),
    {
        self.step(true);
    }

    /// Opens an action's pop-up, or closes it if it is open.
    pub fn show_popup_from_action(&mut self, action: ShowPopupAction)
        ensures
            final(self)@ == old(self)@.toggled_popup(action),
            old(self)@.wf() ==> final(self)@.wf(),
    {
        proof {
            reveal(AppView::toggled_popup);
        }
        let popup = popup_for(action);
        if same_menu(&self.popup, &popup) {
            self.dismiss_popup();
        } else {
            self.show_popup(popup);
        }
    }

    fn go_to_menu(&mut self, popup: Popup)
        ensures
            final(self)@ == old(self)@.in_menu(popup@),
            old(self)@.wf() ==> final(self)@.wf(),
    {
        proof {
            reveal(AppView::in_menu);
        }
        self.popup = Some(popup);
        self.refresh_scratch();
        self.screen.popup_hint_scroll = -2;
        reset_input(&mut self.macros.search_input);
    }

    /// Goes to the menu of the same kind behind or before this one.
    pub fn cycle_sub_menu(&mut self, next: bool)
        ensures
            final(self)@ == old(self)@.cycled_sub_menu(next),
            old(self)@.wf() ==> final(self)@.wf(),
    {
        proof {
            reveal(AppView::cycled_sub_menu);
        }
        let there = match &self.popup {
            Some(Popup::SettingsMenu(menu)) => Popup::SettingsMenu(menu.turn(next)),
            Some(Popup::ToolMenu(menu)) => Popup::ToolMenu(menu.turn()),
            _ => {
                return;
            },
        };
        self.go_to_menu(there);
    }

    /// Goes to the first menu of the other kind.
    pub fn cycle_menu_type(&mut self)
        ensures
            final(self)@ == old(self)@.cycled_menu_type(),
            old(self)@.wf() ==> final(self)@.wf(),
    {
        proof {
            reveal(AppView::cycled_menu_type);
        }
        let there = match &self.popup {
            Some(Popup::SettingsMenu(_)) => Popup::ToolMenu(ToolMenu::Macros),
            Some(Popup::ToolMenu(_)) => Popup::SettingsMenu(SettingsMenu::SerialPort),
            _ => {
                return;
            },
        };
        self.go_to_menu(there);
    }

    fn step_category(&mut self, right: bool)
        ensures
            final(self)@ == old(self)@.category_stepped(right),
            old(self)@.wf() ==> final(self)@.wf(),
    {
        proof {
            reveal(AppView::category_stepped);
        }
        let searching = !input_value(&self.macros.search_input).is_empty();
        if searching {
            return;
        }
        self.macros.step_category(right);
        if self.screen.popup_menu_scroll >= POPUP_MENU_SELECTOR_COUNT {
            if self.macros.none_visible() {
                self.screen.popup_menu_scroll = 1;
            } else {
                self.screen.popup_menu_scroll = 2;
            }
        }
    }

    fn step_setting(&mut self, menu: SettingsMenu, right: bool)
        requires
            old(self)@.ui.screen.popup_menu_scroll >= POPUP_MENU_SELECTOR_COUNT,
        ensures
            final(self)@ == old(self)@.setting_stepped(menu, right),
            old(self)@.wf() ==> final(self)@.wf(),
    {
        proof {
            reveal(AppView::setting_stepped);
        }
        let row: usize = self.screen.popup_menu_scroll - POPUP_MENU_SELECTOR_COUNT;
        if menu == SettingsMenu::Logging && row == self.layout.logging_rows as usize {
            return;
        }
        if menu == SettingsMenu::Defmt {
            if row >= 2 {
                self.ask(Request::EditScratch { menu, row: row - 2, right });
            }
            return;
        }
        self.ask(Request::EditScratch { menu, row, right });
    }

    fn step_baud(&mut self, right: bool)
        requires
            old(self)@.wf(),
        ensures
            final(self)@ == (old(self)@.with_screen(Screen {
                    baud_index: old(self)@.next_baud(right) as usize,
                    ..old(self)@.ui.screen
                })),
            final(self)@.wf(),
    {
        proof {
            reveal(crate::app::valid);
        }
        let at: usize = self.screen.baud_index;
        self.screen.baud_index = if right {
            if at == CUSTOM_BAUD {
                0
            } else {
                at + 1
            }
        } else if at == 0 {
            CUSTOM_BAUD
        } else {
            at - 1
        };
    }

    fn sidestep_menu(&mut self, right: bool)
        requires
            old(self)@.ui.popup is Some,
            old(self)@.ui.popup->0 is SettingsMenu || old(self)@.ui.popup->0 is ToolMenu,
        ensures
            final(self)@ == old(self)@.sidestepped(right),
            old(self)@.wf() ==> final(self)@.wf(),
    {
        proof {
            reveal(AppView::sidestepped);
        }
        let row: usize = self.screen.popup_menu_scroll;
        if row == 0 {
            self.cycle_menu_type();
            return;
        }
        if row == 1 {
            self.cycle_sub_menu(right);
            return;
        }
        let settings = match &self.popup {
            Some(Popup::SettingsMenu(menu)) => Some(*menu),
            _ => None,
        };
        let macros = match &self.popup {
            Some(Popup::ToolMenu(ToolMenu::Macros)) => true,
            _ => false,
        };
        match settings {
            Some(menu) => self.step_setting(menu, right),
            None => {
                if macros {
                    self.step_category(right);
                } else if row == POPUP_MENU_SELECTOR_COUNT + 1 {
                    self.espflash.unchecked_bootloader = !self.espflash.unchecked_bootloader;
                }
            },
        }
    }

    fn sidestep(&mut self, right: bool)
        requires
            old(self)@.wf(),
        ensures
            final(self)@ == old(self)@.sidestepped(right),
            final(self)@.wf(),
    {
        proof {
            reveal(AppView::sidestepped);
        }
        let (open, menu) = match &self.popup {
            Some(popup) => (true, popup.is_menu()),
            None => (false, false),
        };
        if open {
            if menu {
                self.sidestep_menu(right);
            }
            return;
        }
        assert(self@.kept.ports.len() == self.ports@.len());
        if self.screen.menu == Menu::PortSelection && self.screen.port_selection_scroll
            == self.ports.len() {
            self.step_baud(right);
        }
    }

    /// Goes to the left: to another menu, value or baud rate.
    pub fn left_pressed(&mut self)
        requires
            old(self)@.wf(),
        ensures
            final(self)@ == old(self)@.sidestepped(false),
            final(self)@.wf(),
    {
        self.sidestep(false);
    }

    /// Goes to the right: to another menu, value or baud rate.
    pub fn right_pressed(&mut self)
        requires
            old(self)@.wf(),
        ensures
            final(self)@ == old(self)@.sidestepped(true),
            final(self)@.wf(),
    {
        self.sidestep(true);
    }
}

} // verus!
