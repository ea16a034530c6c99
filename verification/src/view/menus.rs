//! The menus of settings and tools.

use vstd::prelude::*;
use vstd::string::*;

use crate::app::{App, AppView, Popup, PopupView, SettingsMenu, ToolMenu};
use crate::buffer::tui::Size;
use crate::foreign::text_width;
use crate::input_box::{input_value, visual_cursor, visual_scroll};
use crate::line::{Alignment, Color, Style, ITALIC, REVERSED};
use crate::text::{concat2, concat3, to_ascii_upper};
use crate::tui::esp::{EspProfile, ESPFLASH_BUTTON_COUNT};
use crate::tui::{centered_rect_size, Rect, POPUP_MENU_SELECTOR_COUNT};
use crate::view::{
    hint, note, put, shape, text, text_at, Draw, DrawView, Edges, SelectorId, Shape, TableId,
};

verus! {

/// What a menu is drawn with that is known elsewhere.
pub struct MenuContext {
    /// The explanation of the selected row.
    pub docstring: String,
    /// Where logs go.
    pub logs_dir: String,
    /// The path of the file with `defmt` messages, and the start of its digest.
    pub elf: Option<(String, String)>,
    /// The right half of the table of settings.
    pub right_half: Rect,
    /// The rows for the file with `defmt` messages.
    pub elf_title: Rect,
    pub elf_path: Rect,
    pub elf_select: Rect,
    pub elf_recent: Rect,
}

/// A number as a coordinate, as a machine cuts it off.
pub open spec fn cut16(n: int) -> u16 {
    (n % 0x1_0000) as u16
}

pub(crate) fn cut(n: usize) -> (r: u16)
    ensures
        r == cut16(n as int),
{
    (n % 0x1_0000) as u16
}

/// Where the cursor stands behind a text that is centered in some columns, some of
/// which are hidden.
pub open spec fn centered_cursor(
    x: u16,
    width: u16,
    text_columns: usize,
    cursor: usize,
    hidden: usize,
) -> int {
    let columns = cut16(text_columns as int);
    let left = if width > columns {
        (width - columns) / 2
    } else {
        0
    };
    crate::view::clipped(x + crate::view::floored(left + cursor - hidden) + 1)
}

fn place_cursor(x: u16, width: u16, text_columns: usize, cursor: usize, hidden: usize) -> (r: u16)
    ensures
        r == centered_cursor(x, width, text_columns, cursor, hidden),
{
    let columns: u16 = cut(text_columns);
    let left: u16 = if width > columns {
        (width - columns) / 2
    } else {
        0
    };
    let along: i128 = left as i128 + cursor as i128 - hidden as i128;
    let steps: i128 = if along < 0 {
        0
    } else {
        along
    };
    let at: i128 = x as i128 + steps + 1;
    if at > 0xffff {
        0xffff
    } else {
        at as u16
    }
}

/// The color of a menu.
pub open spec fn menu_color(popup: Option<PopupView>) -> Option<Color> {
    match popup {
        Some(PopupView::SettingsMenu(SettingsMenu::Rendering)) => Some(Color::Red),
        Some(PopupView::SettingsMenu(SettingsMenu::Behavior)) => Some(Color::Blue),
        Some(PopupView::SettingsMenu(SettingsMenu::SerialPort)) => Some(Color::Cyan),
        Some(PopupView::SettingsMenu(SettingsMenu::Defmt)) => Some(Color::LightRed),
        Some(PopupView::SettingsMenu(SettingsMenu::Logging)) => Some(Color::Yellow),
        Some(PopupView::ToolMenu(ToolMenu::EspFlash)) => Some(Color::Magenta),
        Some(PopupView::ToolMenu(ToolMenu::Macros)) => Some(Color::Green),
        _ => None,
    }
}

impl SettingsMenu {
    /// The position of a menu among those of its kind.
    pub open spec fn place(self) -> usize {
        match self {
            SettingsMenu::SerialPort => 0,
            SettingsMenu::Rendering => 1,
            SettingsMenu::Behavior => 2,
            SettingsMenu::Logging => 3,
            SettingsMenu::Defmt => 4,
        }
    }

    fn index(self) -> (r: usize)
        ensures
            r == self.place(),
    {
        match self {
            SettingsMenu::SerialPort => 0,
            SettingsMenu::Rendering => 1,
            SettingsMenu::Behavior => 2,
            SettingsMenu::Logging => 3,
            SettingsMenu::Defmt => 4,
        }
    }

    /// What the menu is called.
    pub open spec fn label(self) -> Seq<char> {
        match self {
            SettingsMenu::SerialPort => "Serial Port"@,
            SettingsMenu::Rendering => "Rendering"@,
            SettingsMenu::Behavior => "Behavior"@,
            SettingsMenu::Logging => "Logging"@,
            SettingsMenu::Defmt => "defmt"@,
        }
    }

    /// What the menu is called.
    pub fn title(self) -> (r: &'static str)
        ensures
            r@ == self.label(),
    {
        match self {
            SettingsMenu::SerialPort => "Serial Port",
            SettingsMenu::Rendering => "Rendering",
            SettingsMenu::Behavior => "Behavior",
            SettingsMenu::Logging => "Logging",
            SettingsMenu::Defmt => "defmt",
        }
    }

    /// The table of the menu.
    pub open spec fn table(self) -> TableId {
        match self {
            SettingsMenu::SerialPort => TableId::Serial,
            SettingsMenu::Rendering => TableId::Rendering,
            SettingsMenu::Behavior => TableId::Behavior,
            SettingsMenu::Logging => TableId::Logging,
            SettingsMenu::Defmt => TableId::Defmt,
        }
    }

    fn table_id(self) -> (r: TableId)
        ensures
            r == self.table(),
    {
        match self {
            SettingsMenu::SerialPort => TableId::Serial,
            SettingsMenu::Rendering => TableId::Rendering,
            SettingsMenu::Behavior => TableId::Behavior,
            SettingsMenu::Logging => TableId::Logging,
            SettingsMenu::Defmt => TableId::Defmt,
        }
    }
}

impl ToolMenu {
    /// What the menu is called.
    pub open spec fn label(self) -> Seq<char> {
        match self {
            ToolMenu::Macros => "Macros"@,
            ToolMenu::EspFlash => "ESP32 Flashing"@,
        }
    }

    /// What the menu is called.
    pub fn title(self) -> (r: &'static str)
        ensures
            r@ == self.label(),
    {
        match self {
            ToolMenu::Macros => "Macros",
            ToolMenu::EspFlash => "ESP32 Flashing",
        }
    }
}

/// The style of a button.
pub open spec fn button_style(selected: bool) -> Style {
    if selected {
        Style::plain().with_modifier(REVERSED)
    } else {
        Style::plain()
    }
}

fn style_button(selected: bool) -> (r: Style)
    ensures
        r == button_style(selected),
{
    if selected {
        Style::new().add(REVERSED)
    } else {
        Style::new()
    }
}

/// A drawn shape.
pub open spec fn sh(shape: Shape) -> DrawView {
    DrawView::Shape(shape)
}

/// The place of the table within a settings menu.
pub open spec fn settings_area(inner: Rect) -> Rect {
    inner.lowered(1, 3)
}

/// The entry that is selected, as an index.
pub open spec fn index_of(selected: Option<int>) -> Option<usize> {
    match selected {
        Some(i) => Some(i as usize),
        None => None,
    }
}

/// What explains a button of the menu for `defmt` messages.
pub open spec fn elf_button_hint(entry: int) -> Seq<char> {
    if entry == 0 {
        "Select an ELF file to decode defmt packets with. Shift/Ctrl to use native system file picker."@
    } else {
        "Select from a list of recently used ELFs."@
    }
}

/// What explains a button of the menu for devices.
pub open spec fn esp_button_hint(entry: int) -> Seq<char> {
    if entry == 0 {
        "Attempt to remotely reset the chip."@
    } else if entry == 1 {
        "Attempt to reboot into bootloader. Shift/Ctrl to skip check."@
    } else if entry == 2 {
        "Query ESP for Flash Size, MAC Address, etc."@
    } else {
        "Erase all flash contents."@
    }
}

fn explain_esp_button(entry: usize) -> (r: &'static str)
    ensures
        r@ == esp_button_hint(entry as int),
{
    if entry == 0 {
        "Attempt to remotely reset the chip."
    } else if entry == 1 {
        "Attempt to reboot into bootloader. Shift/Ctrl to skip check."
    } else if entry == 2 {
        "Query ESP for Flash Size, MAC Address, etc."
    } else {
        "Erase all flash contents."
    }
}

/// What explains a profile.
pub open spec fn profile_hint(profile: EspProfile) -> Seq<char> {
    let expected = match profile {
        EspProfile::Bins(bins) => bins.expected_chip,
        EspProfile::Elf(elf) => elf.expected_chip,
    };
    let chip = match expected {
        Some(chip) => crate::text::ascii_upper(chip@),
        None => "ESP"@,
    };
    match profile {
        EspProfile::Bins(bins) => if bins.bins@.len() == 1 {
            "Flash selected profile binary to "@ + chip + " Flash."@
        } else {
            "Flash selected profile binaries to "@ + chip + " Flash."@
        },
        EspProfile::Elf(elf) => if elf.ram {
            "Load selected profile ELF into "@ + chip + " RAM."@
        } else {
            "Flash selected profile ELF to "@ + chip + " Flash."@
        },
    }
}

fn explain_profile(profile: &EspProfile) -> (r: String)
    ensures
        r@ == profile_hint(*profile),
{
    let expected = match profile {
        EspProfile::Bins(bins) => &bins.expected_chip,
        EspProfile::Elf(elf) => &elf.expected_chip,
    };
    let chip = match expected {
        Some(chip) => to_ascii_upper(chip.as_str()),
        None => "ESP".to_owned(),
    };
    match profile {
        EspProfile::Bins(bins) => if bins.bins.len() == 1 {
            concat3("Flash selected profile binary to ", chip.as_str(), " Flash.")
        } else {
            concat3("Flash selected profile binaries to ", chip.as_str(), " Flash.")
        },
        EspProfile::Elf(elf) => if elf.ram {
            concat3("Load selected profile ELF into ", chip.as_str(), " RAM.")
        } else {
            concat3("Flash selected profile ELF to ", chip.as_str(), " Flash.")
        },
    }
}

impl AppView {
    /// The box for the baud rate over the table of settings.
    pub open spec fn baud_draws(self, half: Rect) -> Seq<DrawView> {
        let area = Rect { height: 1, ..half };
        let width = crate::view::floored(
            (if area.width > 1 {
                area.width as int
            } else {
                1
            }) - 2,
        ) as u16;
        let hidden = crate::input_box::hidden_columns(
            self.edit.baud_text,
            self.edit.baud_cursor,
            width as usize,
        );
        let cursor = crate::input_box::cursor_column(self.edit.baud_text, self.edit.baud_cursor);
        seq![
            sh(Shape::Clear(area)),
            DrawView::Input {
                area,
                text: self.edit.baud_text,
                style: Style::plain().with_modifier(REVERSED).with_modifier(ITALIC),
                alignment: Alignment::Center,
                hidden: cut16(hidden as int),
            },
            sh(
                Shape::Cursor {
                    x: centered_cursor(
                        area.x,
                        width,
                        crate::foreign::columns(self.edit.baud_text),
                        cursor,
                        hidden,
                    ) as u16,
                    y: area.y,
                },
            ),
        ]
    }

    /// The table and the hints of a menu that holds only settings.
    pub open spec fn plain_settings_draws(
        self,
        menu: SettingsMenu,
        inner: Rect,
        context: MenuContext,
    ) -> Seq<DrawView> {
        seq![
            sh(
                Shape::Table {
                    area: settings_area(inner),
                    table: menu.table(),
                    selected: index_of(self.corrected()),
                },
            ),
        ] + (if menu is SerialPort && self.corrected() == Some(0int) {
            self.baud_draws(context.right_half)
        } else {
            Seq::empty()
        }) + seq![
            crate::view::hint_at(inner.row_up(1), context.docstring@),
            crate::view::note_at(
                inner.row_up(0),
                "Esc: Cancel | Enter: Save"@,
                Color::DarkGray,
            ),
        ]
    }

    /// The table, the button and the hints of the menu for the log.
    pub open spec fn logging_draws(self, inner: Rect, color: Color, context: MenuContext) -> Seq<
        DrawView,
    > {
        let table = settings_area(inner);
        let path = "Saving to: "@ + context.logs_dir@;
        let synced = self.ui.screen.popup_menu_scroll == POPUP_MENU_SELECTOR_COUNT
            + self.kept.layout.logging_rows;
        let selected = index_of(self.corrected());
        seq![
            text_at(
                inner.row_up(2),
                path,
                Style::plain().with_fg(Color::DarkGray),
                if crate::foreign::columns(path) <= inner.width {
                    Alignment::Center
                } else {
                    Alignment::Right
                },
            ),
            crate::view::note_at(
                inner.row_up(0),
                "Esc: Close | Enter: Select/Save"@,
                Color::DarkGray,
            ),
            sh(
                Shape::Table {
                    area: table.row_up(1),
                    table: TableId::SyncButton,
                    selected: if synced {
                        selected
                    } else {
                        None
                    },
                },
            ),
            sh(Shape::Block { area: table.row_up(2), edges: Edges::Top, color }),
            sh(
                Shape::Table {
                    area: table.lowered(0, 2),
                    table: TableId::Logging,
                    selected: if synced {
                        None
                    } else {
                        selected
                    },
                },
            ),
            crate::view::hint_at(
                inner.row_up(1),
                if synced {
                    "Re-sync active log files with entire buffer content and current settings."@
                } else {
                    context.docstring@
                },
            ),
        ]
    }

    /// The table, the buttons and the hints of the menu for `defmt` messages.
    pub open spec fn defmt_draws(self, inner: Rect, color: Color, context: MenuContext) -> Seq<
        DrawView,
    > {
        let row = self.ui.screen.popup_menu_scroll;
        let in_table = row >= POPUP_MENU_SELECTOR_COUNT + 2;
        let separator = inner.row_down(5);
        seq![
            crate::view::note_at(
                inner.row_up(2),
                "Powered by knurling-rs/defmt v1.0.0!"@,
                Color::DarkGray,
            ),
            crate::view::note_at(
                inner.row_up(0),
                "Esc: Close | Enter: Select/Save"@,
                Color::DarkGray,
            ),
            sh(Shape::Block { area: separator, edges: Edges::Top, color }),
            crate::view::note_at(
                context.elf_title,
                match context.elf {
                    Some((_, digest)) => "Current ELF MD5: "@ + digest@,
                    None => "Current ELF:"@,
                },
                Color::DarkGray,
            ),
            text_at(
                context.elf_path,
                match context.elf {
                    Some((path, _)) => path@,
                    None => "None"@,
                },
                Style::plain(),
                Alignment::Center,
            ),
            text_at(
                context.elf_select,
                "[Select ELF File]"@,
                button_style(row == POPUP_MENU_SELECTOR_COUNT),
                Alignment::Center,
            ),
            text_at(
                context.elf_recent,
                "[Select Recent ELF]"@,
                button_style(row == POPUP_MENU_SELECTOR_COUNT + 1),
                Alignment::Center,
            ),
            sh(
                Shape::Table {
                    area: inner.lowered(6, 8),
                    table: TableId::Defmt,
                    selected: if in_table {
                        index_of(self.corrected())
                    } else {
                        None
                    },
                },
            ),
        ] + (if in_table {
            seq![crate::view::hint_at(inner.row_up(1), context.docstring@)]
        } else if self.corrected() is Some {
            seq![crate::view::hint_at(inner.row_up(1), elf_button_hint(self.corrected()->0))]
        } else {
            Seq::empty()
        }) + seq![crate::view::note_at(separator, "Settings:"@, Color::DarkGray)]
    }

    /// How much of the table of a menu there is beyond what can be seen.
    pub open spec fn overlength(self, height: u16) -> int {
        crate::view::floored(
            crate::view::floored(self.item_count() - height) - POPUP_MENU_SELECTOR_COUNT,
        )
    }

    /// The scrollbar of a menu.
    pub open spec fn scrollbar_draw(self, inner: Rect, table: TableId, height: u16) -> DrawView {
        sh(
            Shape::Scrollbar {
                area: inner.shifted(1).without_margin(0, 1),
                table,
                length: self.overlength(height) as usize,
            },
        )
    }

    /// What a settings menu looks like inside its frame.
    pub open spec fn settings_draws(
        self,
        menu: SettingsMenu,
        inner: Rect,
        color: Color,
        context: MenuContext,
    ) -> Seq<DrawView> {
        seq![
            sh(Shape::Block { area: Rect { height: 1, ..inner }, edges: Edges::TopBottom, color }),
            sh(
                Shape::Selector {
                    area: Rect { height: 1, ..inner },
                    selector: SelectorId::SettingsMenus,
                    index: menu.place(),
                    active: self.ui.screen.popup_menu_scroll == 1,
                },
            ),
            sh(Shape::Block { area: inner.row_up(2), edges: Edges::Top, color }),
        ] + (match menu {
            SettingsMenu::Logging => self.logging_draws(inner, color, context),
            SettingsMenu::Defmt => self.defmt_draws(inner, color, context),
            _ => self.plain_settings_draws(menu, inner, context),
        }) + seq![self.scrollbar_draw(inner, menu.table(), settings_area(inner).height)]
    }

    /// The selector of categories, or the search that takes its place.
    pub open spec fn category_draws(self, area: Rect) -> Seq<DrawView> {
        let query = self.kept.macros.query;
        if query.len() == 0 {
            seq![
                sh(
                    Shape::Selector {
                        area,
                        selector: SelectorId::Categories,
                        index: self.kept.macros.category_index,
                        active: self.ui.screen.popup_menu_scroll == POPUP_MENU_SELECTOR_COUNT,
                    },
                ),
            ]
        } else {
            let width = crate::view::floored(
                (if area.width > 1 {
                    area.width as int
                } else {
                    1
                }) - 1,
            ) as u16;
            let hidden = crate::input_box::hidden_columns(
                query,
                self.kept.macros.cursor,
                width as usize,
            );
            let cursor = crate::input_box::cursor_column(query, self.kept.macros.cursor);
            seq![
                DrawView::Input {
                    area,
                    text: query,
                    style: Style::plain(),
                    alignment: Alignment::Center,
                    hidden: cut16(hidden as int),
                },
                sh(
                    Shape::Cursor {
                        x: centered_cursor(
                            area.x,
                            width,
                            crate::foreign::columns(query),
                            cursor,
                            hidden,
                        ) as u16,
                        y: area.y,
                    },
                ),
            ]
        }
    }

    /// What is shown of the selected macro.
    pub open spec fn macro_hint(self, area: Rect) -> DrawView {
        match self.corrected() {
            Some(i) => if i < self.kept.macros.visible().len() {
                let content = self.kept.macros.all[self.kept.macros.visible()[i] as int].content;
                DrawView::Hint {
                    area,
                    text: if content.sensitive {
                        "[SENSITIVE]"@
                    } else {
                        content.content@
                    },
                    style: Style::plain().with_modifier(ITALIC),
                }
            } else {
                text_at(area, Seq::empty(), Style::plain(), Alignment::Center)
            },
            None => text_at(
                area,
                if self.kept.macros.all.len() == 0 {
                    "No macros! Try making one!"@
                } else {
                    "Select a macro to preview."@
                },
                Style::plain(),
                Alignment::Center,
            ),
        }
    }

    /// The macros.
    pub open spec fn macros_draws(self, inner: Rect, color: Color) -> Seq<DrawView> {
        seq![sh(Shape::Block { area: inner.row_down(2), edges: Edges::Top, color })]
            + self.category_draws(inner.row_down(1)) + seq![
            sh(
                Shape::Table {
                    area: inner.lowered(3, 5),
                    table: TableId::Macros,
                    selected: index_of(self.corrected()),
                },
            ),
            crate::view::note_at(inner.row_up(2), "Ctrl-R: Reload"@, Color::DarkGray),
            crate::view::note_at(inner.row_up(0), "Esc: Close | Enter: Send"@, Color::DarkGray),
            self.macro_hint(inner.row_up(1)),
        ]
    }

    /// What explains the selected row of the menu for devices.
    pub open spec fn esp_hint(self, area: Rect) -> Seq<DrawView> {
        match self.corrected() {
            Some(i) => if self.ui.screen.popup_menu_scroll >= POPUP_MENU_SELECTOR_COUNT
                + ESPFLASH_BUTTON_COUNT {
                match self.kept.espflash.profile_at(i) {
                    Some(profile) => seq![crate::view::hint_at(area, profile_hint(profile))],
                    None => Seq::empty(),
                }
            } else {
                seq![crate::view::hint_at(area, esp_button_hint(i))]
            },
            None => Seq::empty(),
        }
    }

    /// What can be done with a device.
    pub open spec fn esp_draws(self, inner: Rect, color: Color) -> Seq<DrawView> {
        let in_profiles = self.ui.screen.popup_menu_scroll >= POPUP_MENU_SELECTOR_COUNT
            + ESPFLASH_BUTTON_COUNT;
        let selected = index_of(self.corrected());
        let separator = inner.row_down(5);
        seq![
            crate::view::note_at(
                inner.row_up(2),
                "Powered by esp-rs/espflash v4.1.0!"@,
                Color::DarkGray,
            ),
            crate::view::note_at(inner.row_up(0), "Esc: Close | Enter: Select"@, Color::DarkGray),
            sh(
                Shape::Table {
                    area: inner.lowered(1, 3),
                    table: TableId::EspButtons,
                    selected: if in_profiles {
                        None
                    } else {
                        selected
                    },
                },
            ),
            sh(Shape::Block { area: separator, edges: Edges::Top, color }),
            sh(
                Shape::Table {
                    area: inner.lowered(6, 8),
                    table: TableId::EspProfiles,
                    selected: if in_profiles {
                        selected
                    } else {
                        None
                    },
                },
            ),
        ] + self.esp_hint(inner.row_up(1)) + seq![
            crate::view::note_at(separator, "Flash Profiles | Ctrl-R: Reload"@, Color::DarkGray),
        ]
    }

    /// What a menu of tools looks like inside its frame.
    pub open spec fn tool_draws(self, menu: ToolMenu, inner: Rect, color: Color) -> Seq<DrawView> {
        seq![
            sh(
                Shape::Selector {
                    area: Rect { height: 1, ..inner },
                    selector: SelectorId::ToolMenus,
                    index: if menu is Macros {
                        0
                    } else {
                        1
                    },
                    active: self.ui.screen.popup_menu_scroll == 1,
                },
            ),
            sh(Shape::Block { area: inner.row_up(2), edges: Edges::Top, color }),
        ] + (match menu {
            ToolMenu::Macros => self.macros_draws(inner, color) + seq![
                self.scrollbar_draw(inner, TableId::Macros, inner.lowered(3, 5).height),
            ],
            ToolMenu::EspFlash => self.esp_draws(inner, color) + seq![
                self.scrollbar_draw(inner, TableId::EspProfiles, inner.lowered(6, 8).height),
            ],
        })
    }

    /// What a menu looks like.
    pub open spec fn menu_draws(self, area: Rect, context: MenuContext) -> Seq<DrawView> {
        match menu_color(self.ui.popup) {
            None => Seq::empty(),
            Some(color) => {
                let center = crate::tui::centered(menu_size(area), area);
                let inner = center.inside();
                seq![
                    sh(Shape::Clear(center)),
                    sh(Shape::Block { area: center.lowered(1, 1), edges: Edges::All, color }),
                    sh(
                        Shape::Selector {
                            area: Rect { height: 1, ..center },
                            selector: SelectorId::MenuKinds,
                            index: if self.ui.popup->0 is SettingsMenu {
                                0
                            } else {
                                1
                            },
                            active: self.ui.screen.popup_menu_scroll == 0,
                        },
                    ),
                ] + (match self.ui.popup {
                    Some(PopupView::SettingsMenu(menu)) => self.settings_draws(
                        menu,
                        inner,
                        color,
                        context,
                    ),
                    Some(PopupView::ToolMenu(menu)) => self.tool_draws(menu, inner, color),
                    _ => Seq::empty(),
                })
            },
        }
    }
}

/// The size of a menu.
pub open spec fn menu_size(area: Rect) -> Size {
    Size {
        width: (if area.width < 60 {
            area.width
        } else {
            60
        }),
        height: (if area.height < 17 {
            area.height
        } else {
            17
        }),
    }
}

pub(crate) fn size_of_menu(area: Rect) -> (r: Size)
    ensures
        r == menu_size(area),
{
    Size {
        width: if area.width < 60 {
            area.width
        } else {
            60
        },
        height: if area.height < 17 {
            area.height
        } else {
            17
        },
    }
}

impl App {
    fn draw_baud(&self, draws: &mut Vec<Draw>, half: Rect)
        ensures
            crate::view::draw_views(final(draws)@) == crate::view::draw_views(old(draws)@)
                + self@.baud_draws(half),
    {
        let area = Rect { height: 1, ..half };
        let width: u16 = if area.width > 1 {
            area.width
        } else {
            1
        }.saturating_sub(2);
        let hidden: usize = visual_scroll(&self.baud_input, width as usize);
        let cursor: usize = visual_cursor(&self.baud_input);
        let value = input_value(&self.baud_input);
        let x: u16 = place_cursor(area.x, width, text_width(value), cursor, hidden);
        shape(draws, Shape::Clear(area));
        put(
            draws,
            Draw::Input {
                area,
                text: value.to_owned(),
                style: Style::new().add(REVERSED).add(ITALIC),
                alignment: Alignment::Center,
                hidden: cut(hidden),
            },
        );
        shape(draws, Shape::Cursor { x, y: area.y });
        assert(crate::view::draw_views(draws@) =~= crate::view::draw_views(old(draws)@)
            + self@.baud_draws(half));
    }

    fn draw_plain_settings(
        &self,
        draws: &mut Vec<Draw>,
        menu: SettingsMenu,
        inner: Rect,
        context: &MenuContext,
    )
        ensures
            crate::view::draw_views(final(draws)@) == crate::view::draw_views(old(draws)@)
                + self@.plain_settings_draws(menu, inner, *context),
    {
        let selected = self.get_corrected_popup_index();
        shape(
            draws,
            Shape::Table { area: inner.lower(1, 3), table: menu.table_id(), selected },
        );
        let typing = match selected {
            Some(i) => menu == SettingsMenu::SerialPort && i == 0,
            None => false,
        };
        if typing {
            self.draw_baud(draws, context.right_half);
        }
        hint(draws, inner.row_from_bottom(1), context.docstring.as_str());
        note(draws, inner.row_from_bottom(0), "Esc: Cancel | Enter: Save", Color::DarkGray);
        assert(crate::view::draw_views(draws@) =~= crate::view::draw_views(old(draws)@)
            + self@.plain_settings_draws(menu, inner, *context));
    }

    fn draw_logging(
        &self,
        draws: &mut Vec<Draw>,
        inner: Rect,
        color: Color,
        context: &MenuContext,
    )
        ensures
            crate::view::draw_views(final(draws)@) == crate::view::draw_views(old(draws)@)
                + self@.logging_draws(inner, color, *context),
    {
        let table = inner.lower(1, 3);
        let path = concat2("Saving to: ", context.logs_dir.as_str());
        let alignment = if text_width(path.as_str()) <= inner.width as usize {
            Alignment::Center
        } else {
            Alignment::Right
        };
        let synced = self.screen.popup_menu_scroll == POPUP_MENU_SELECTOR_COUNT
            + self.layout.logging_rows as usize;
        let selected = self.get_corrected_popup_index();
        text(draws, inner.row_from_bottom(2), path, Style::new().fg(Color::DarkGray), alignment);
        note(
            draws,
            inner.row_from_bottom(0),
            "Esc: Close | Enter: Select/Save",
            Color::DarkGray,
        );
        shape(
            draws,
            Shape::Table {
                area: table.row_from_bottom(1),
                table: TableId::SyncButton,
                selected: if synced {
                    selected
                } else {
                    None
                },
            },
        );
        shape(draws, Shape::Block { area: table.row_from_bottom(2), edges: Edges::Top, color });
        shape(
            draws,
            Shape::Table {
                area: table.lower(0, 2),
                table: TableId::Logging,
                selected: if synced {
                    None
                } else {
                    selected
                },
            },
        );
        if synced {
            hint(
                draws,
                inner.row_from_bottom(1),
                "Re-sync active log files with entire buffer content and current settings.",
            );
        } else {
            hint(draws, inner.row_from_bottom(1), context.docstring.as_str());
        }
        assert(crate::view::draw_views(draws@) =~= crate::view::draw_views(old(draws)@)
            + self@.logging_draws(inner, color, *context));
    }

    fn draw_elf(&self, draws: &mut Vec<Draw>, context: &MenuContext)
        ensures
            crate::view::draw_views(final(draws)@) == crate::view::draw_views(old(draws)@) + seq![
                crate::view::note_at(
                    context.elf_title,
                    match context.elf {
                        Some((_, digest)) => "Current ELF MD5: "@ + digest@,
                        None => "Current ELF:"@,
                    },
                    Color::DarkGray,
                ),
                text_at(
                    context.elf_path,
                    match context.elf {
                        Some((path, _)) => path@,
                        None => "None"@,
                    },
                    Style::plain(),
                    Alignment::Center,
                ),
            ],
    {
        match &context.elf {
            Some((path, digest)) => {
                let title = concat2("Current ELF MD5: ", digest.as_str());
                note(draws, context.elf_title, title.as_str(), Color::DarkGray);
                text(draws, context.elf_path, path.clone(), Style::new(), Alignment::Center);
            },
            None => {
                note(draws, context.elf_title, "Current ELF:", Color::DarkGray);
                text(
                    draws,
                    context.elf_path,
                    "None".to_owned(),
                    Style::new(),
                    Alignment::Center,
                );
            },
        }
        assert(crate::view::draw_views(draws@) =~= crate::view::draw_views(old(draws)@) + seq![
            crate::view::note_at(
                context.elf_title,
                match context.elf {
                    Some((_, digest)) => "Current ELF MD5: "@ + digest@,
                    None => "Current ELF:"@,
                },
                Color::DarkGray,
            ),
            text_at(
                context.elf_path,
                match context.elf {
                    Some((path, _)) => path@,
                    None => "None"@,
                },
                Style::plain(),
                Alignment::Center,
            ),
        ]);
    }

    fn draw_defmt(
        &self,
        draws: &mut Vec<Draw>,
        inner: Rect,
        color: Color,
        context: &MenuContext,
    )
        ensures
            crate::view::draw_views(final(draws)@) == crate::view::draw_views(old(draws)@)
                + self@.defmt_draws(inner, color, *context),
    {
        let row: usize = self.screen.popup_menu_scroll;
        let in_table = row >= POPUP_MENU_SELECTOR_COUNT + 2;
        let separator = inner.row_from_top(5);
        let selected = self.get_corrected_popup_index();
        note(
            draws,
            inner.row_from_bottom(2),
            "Powered by knurling-rs/defmt v1.0.0!",
            Color::DarkGray,
        );
        note(
            draws,
            inner.row_from_bottom(0),
            "Esc: Close | Enter: Select/Save",
            Color::DarkGray,
        );
        shape(draws, Shape::Block { area: separator, edges: Edges::Top, color });
        self.draw_elf(draws, context);
        text(
            draws,
            context.elf_select,
            "[Select ELF File]".to_owned(),
            style_button(row == POPUP_MENU_SELECTOR_COUNT),
            Alignment::Center,
        );
        text(
            draws,
            context.elf_recent,
            "[Select Recent ELF]".to_owned(),
            style_button(row == POPUP_MENU_SELECTOR_COUNT + 1),
            Alignment::Center,
        );
        shape(
            draws,
            Shape::Table {
                area: inner.lower(6, 8),
                table: TableId::Defmt,
                selected: if in_table {
                    selected
                } else {
                    None
                },
            },
        );
        if in_table {
            hint(draws, inner.row_from_bottom(1), context.docstring.as_str());
        } else {
            match selected {
                Some(entry) => {
                    let explanation = if entry == 0 {
                        "Select an ELF file to decode defmt packets with. Shift/Ctrl to use native system file picker."
                    } else {
                        "Select from a list of recently used ELFs."
                    };
                    hint(draws, inner.row_from_bottom(1), explanation);
                },
                None => {},
            }
        }
        note(draws, separator, "Settings:", Color::DarkGray);
        assert(crate::view::draw_views(draws@) =~= crate::view::draw_views(old(draws)@)
            + self@.defmt_draws(inner, color, *context));
    }

    fn draw_scrollbar(&self, draws: &mut Vec<Draw>, inner: Rect, table: TableId, height: u16)
        requires
            self@.wf(),
        ensures
            crate::view::draw_views(final(draws)@) == crate::view::draw_views(old(draws)@).push(
                self@.scrollbar_draw(inner, table, height),
            ),
    {
        let length: usize = self.current_popup_selectable_item_count().saturating_sub(
            height as usize,
        ).saturating_sub(POPUP_MENU_SELECTOR_COUNT);
        shape(draws, Shape::Scrollbar { area: inner.shift(1).margin(0, 1), table, length });
    }

    /// Draws a settings menu inside its frame.
    pub fn render_settings_popup(
        &self,
        draws: &mut Vec<Draw>,
        menu: SettingsMenu,
        inner: Rect,
        color: Color,
        context: &MenuContext,
    )
        requires
            self@.wf(),
        ensures
            crate::view::draw_views(final(draws)@) == crate::view::draw_views(old(draws)@)
                + self@.settings_draws(menu, inner, color, *context),
    {
        let selector_area = Rect { height: 1, ..inner };
        shape(draws, Shape::Block { area: selector_area, edges: Edges::TopBottom, color });
        shape(
            draws,
            Shape::Selector {
                area: selector_area,
                selector: SelectorId::SettingsMenus,
                index: menu.index(),
                active: self.screen.popup_menu_scroll == 1,
            },
        );
        shape(draws, Shape::Block { area: inner.row_from_bottom(2), edges: Edges::Top, color });
        match menu {
            SettingsMenu::Logging => self.draw_logging(draws, inner, color, context),
            SettingsMenu::Defmt => self.draw_defmt(draws, inner, color, context),
            _ => self.draw_plain_settings(draws, menu, inner, context),
        }
        self.draw_scrollbar(draws, inner, menu.table_id(), inner.lower(1, 3).height);
        assert(crate::view::draw_views(draws@) =~= crate::view::draw_views(old(draws)@)
            + self@.settings_draws(menu, inner, color, *context));
    }

    fn draw_categories(&self, draws: &mut Vec<Draw>, area: Rect)
        ensures
            crate::view::draw_views(final(draws)@) == crate::view::draw_views(old(draws)@)
                + self@.category_draws(area),
    {
        let query = input_value(&self.macros.search_input);
        if query.is_empty() {
            shape(
                draws,
                Shape::Selector {
                    area,
                    selector: SelectorId::Categories,
                    index: self.macros.category_index,
                    active: self.screen.popup_menu_scroll == POPUP_MENU_SELECTOR_COUNT,
                },
            );
        } else {
            let width: u16 = if area.width > 1 {
                area.width
            } else {
                1
            }.saturating_sub(1);
            let hidden: usize = visual_scroll(&self.macros.search_input, width as usize);
            let cursor: usize = visual_cursor(&self.macros.search_input);
            let x: u16 = place_cursor(area.x, width, text_width(query), cursor, hidden);
            put(
                draws,
                Draw::Input {
                    area,
                    text: query.to_owned(),
                    style: Style::new(),
                    alignment: Alignment::Center,
                    hidden: cut(hidden),
                },
            );
            shape(draws, Shape::Cursor { x, y: area.y });
        }
        assert(crate::view::draw_views(draws@) =~= crate::view::draw_views(old(draws)@)
            + self@.category_draws(area));
    }

    fn draw_macro_hint(&self, draws: &mut Vec<Draw>, area: Rect)
        ensures
            crate::view::draw_views(final(draws)@) == crate::view::draw_views(old(draws)@).push(
                self@.macro_hint(area),
            ),
    {
        let shown = self.macros.filtered_macros();
        assert(self.macros.all.len() == self.macros.all@.len());
        proof {
            crate::macros::lemma_positions_in_range(
                self.macros.all@,
                self.macros@.wanted(),
                self.macros.all@.len() as int,
            );
        }
        match self.get_corrected_popup_index() {
            Some(i) => {
                if i < shown.len() {
                    let content = &self.macros.all[shown[i]].content;
                    let preview = if content.sensitive {
                        "[SENSITIVE]".to_owned()
                    } else {
                        content.content.clone()
                    };
                    put(
                        draws,
                        Draw::Hint { area, text: preview, style: Style::new().add(ITALIC) },
                    );
                } else {
                    let nothing = String::new();
                    assert(nothing@ =~= Seq::<char>::empty());
                    text(draws, area, nothing, Style::new(), Alignment::Center);
                }
            },
            None => {
                let advice = if self.macros.is_empty() {
                    "No macros! Try making one!"
                } else {
                    "Select a macro to preview."
                };
                text(draws, area, advice.to_owned(), Style::new(), Alignment::Center);
            },
        }
    }

    fn draw_macros(&self, draws: &mut Vec<Draw>, inner: Rect, color: Color)
        ensures
            crate::view::draw_views(final(draws)@) == crate::view::draw_views(old(draws)@)
                + self@.macros_draws(inner, color),
    {
        shape(draws, Shape::Block { area: inner.row_from_top(2), edges: Edges::Top, color });
        self.draw_categories(draws, inner.row_from_top(1));
        shape(
            draws,
            Shape::Table {
                area: inner.lower(3, 5),
                table: TableId::Macros,
                selected: self.get_corrected_popup_index(),
            },
        );
        note(draws, inner.row_from_bottom(2), "Ctrl-R: Reload", Color::DarkGray);
        note(draws, inner.row_from_bottom(0), "Esc: Close | Enter: Send", Color::DarkGray);
        self.draw_macro_hint(draws, inner.row_from_bottom(1));
        assert(crate::view::draw_views(draws@) =~= crate::view::draw_views(old(draws)@)
            + self@.macros_draws(inner, color));
    }

    fn draw_esp_hint(&self, draws: &mut Vec<Draw>, area: Rect)
        ensures
            crate::view::draw_views(final(draws)@) == crate::view::draw_views(old(draws)@)
                + self@.esp_hint(area),
    {
        let in_profiles = self.screen.popup_menu_scroll >= POPUP_MENU_SELECTOR_COUNT
            + ESPFLASH_BUTTON_COUNT;
        match self.get_corrected_popup_index() {
            Some(i) => {
                if in_profiles {
                    match self.espflash.profile_from_index(i) {
                        Some(profile) => {
                            let explanation = explain_profile(&profile);
                            proof {
                                let same = self.espflash.profile_at(i as int)->0;
                                assert(profile_hint(profile) == profile_hint(same));
                            }
                            hint(draws, area, explanation.as_str());
                        },
                        None => {},
                    }
                } else {
                    hint(draws, area, explain_esp_button(i));
                }
            },
            None => {},
        }
        assert(crate::view::draw_views(draws@) =~= crate::view::draw_views(old(draws)@)
            + self@.esp_hint(area));
    }

    fn draw_esp(&self, draws: &mut Vec<Draw>, inner: Rect, color: Color)
        ensures
            crate::view::draw_views(final(draws)@) == crate::view::draw_views(old(draws)@)
                + self@.esp_draws(inner, color),
    {
        let in_profiles = self.screen.popup_menu_scroll >= POPUP_MENU_SELECTOR_COUNT
            + ESPFLASH_BUTTON_COUNT;
        let selected = self.get_corrected_popup_index();
        let separator = inner.row_from_top(5);
        note(
            draws,
            inner.row_from_bottom(2),
            "Powered by esp-rs/espflash v4.1.0!",
            Color::DarkGray,
        );
        note(draws, inner.row_from_bottom(0), "Esc: Close | Enter: Select", Color::DarkGray);
        shape(
            draws,
            Shape::Table {
                area: inner.lower(1, 3),
                table: TableId::EspButtons,
                selected: if in_profiles {
                    None
                } else {
                    selected
                },
            },
        );
        shape(draws, Shape::Block { area: separator, edges: Edges::Top, color });
        shape(
            draws,
            Shape::Table {
                area: inner.lower(6, 8),
                table: TableId::EspProfiles,
                selected: if in_profiles {
                    selected
                } else {
                    None
                },
            },
        );
        self.draw_esp_hint(draws, inner.row_from_bottom(1));
        note(draws, separator, "Flash Profiles | Ctrl-R: Reload", Color::DarkGray);
        assert(crate::view::draw_views(draws@) =~= crate::view::draw_views(old(draws)@)
            + self@.esp_draws(inner, color));
    }

    /// Draws a menu of tools inside its frame.
    pub fn render_tool_popup(
        &self,
        draws: &mut Vec<Draw>,
        menu: ToolMenu,
        inner: Rect,
        color: Color,
    )
        requires
            self@.wf(),
        ensures
            crate::view::draw_views(final(draws)@) == crate::view::draw_views(old(draws)@)
                + self@.tool_draws(menu, inner, color),
    {
        shape(
            draws,
            Shape::Selector {
                area: Rect { height: 1, ..inner },
                selector: SelectorId::ToolMenus,
                index: if menu == ToolMenu::Macros {
                    0
                } else {
                    1
                },
                active: self.screen.popup_menu_scroll == 1,
            },
        );
        shape(draws, Shape::Block { area: inner.row_from_bottom(2), edges: Edges::Top, color });
        match menu {
            ToolMenu::Macros => {
                self.draw_macros(draws, inner, color);
                self.draw_scrollbar(draws, inner, TableId::Macros, inner.lower(3, 5).height);
            },
            ToolMenu::EspFlash => {
                self.draw_esp(draws, inner, color);
                self.draw_scrollbar(draws, inner, TableId::EspProfiles, inner.lower(6, 8).height);
            },
        }
        assert(crate::view::draw_views(draws@) =~= crate::view::draw_views(old(draws)@)
            + self@.tool_draws(menu, inner, color));
    }

    fn color_of_menu(&self) -> (r: Option<Color>)
        ensures
            r == menu_color(self@.ui.popup),
    {
        match &self.popup {
            Some(Popup::SettingsMenu(SettingsMenu::Rendering)) => Some(Color::Red),
            Some(Popup::SettingsMenu(SettingsMenu::Behavior)) => Some(Color::Blue),
            Some(Popup::SettingsMenu(SettingsMenu::SerialPort)) => Some(Color::Cyan),
            Some(Popup::SettingsMenu(SettingsMenu::Defmt)) => Some(Color::LightRed),
            Some(Popup::SettingsMenu(SettingsMenu::Logging)) => Some(Color::Yellow),
            Some(Popup::ToolMenu(ToolMenu::EspFlash)) => Some(Color::Magenta),
            Some(Popup::ToolMenu(ToolMenu::Macros)) => Some(Color::Green),
            _ => None,
        }
    }

    /// Draws the menu that is open.
    pub fn render_popup_menus(&self, area: Rect, context: &MenuContext) -> (r: Vec<Draw>)
        requires
            self@.wf(),
        ensures
            crate::view::draw_views(r@) == self@.menu_draws(area, *context),
    {
        let mut draws: Vec<Draw> = Vec::new();
        assert(crate::view::draw_views(draws@) =~= Seq::empty());
        let color = match self.color_of_menu() {
            Some(color) => color,
            None => {
                return draws;
            },
        };
        let center = centered_rect_size(size_of_menu(area), area);
        let inner = center.block_inner();
        let settings = match &self.popup {
            Some(Popup::SettingsMenu(menu)) => Some(*menu),
            _ => None,
        };
        let tool = match &self.popup {
            Some(Popup::ToolMenu(menu)) => Some(*menu),
            _ => None,
        };
        shape(&mut draws, Shape::Clear(center));
        shape(&mut draws, Shape::Block { area: center.lower(1, 1), edges: Edges::All, color });
        shape(
            &mut draws,
            Shape::Selector {
                area: Rect { height: 1, ..center },
                selector: SelectorId::MenuKinds,
                index: if settings.is_some() {
                    0
                } else {
                    1
                },
                active: self.screen.popup_menu_scroll == 0,
            },
        );
        match settings {
            Some(menu) => self.render_settings_popup(&mut draws, menu, inner, color, context),
            None => {},
        }
        match tool {
            Some(menu) => self.render_tool_popup(&mut draws, menu, inner, color),
            None => {},
        }
        assert(crate::view::draw_views(draws@) =~= self@.menu_draws(area, *context));
        draws
    }
}

} // verus!
