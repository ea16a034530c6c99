//! The screen where ports are selected.

use vstd::prelude::*;
use vstd::string::*;

use crate::app::{App, AppView, COMMON_BAUD, CUSTOM_BAUD};
use crate::input_box::{input_value, visual_cursor, visual_scroll};
use crate::line::{Alignment, Color, Style, REVERSED};
use crate::serial::worker::MOCK_PORT_NAME;
use crate::serial::{hex_id_string, SerialPortInfo, SerialPortType};
use crate::text::{concat2, concat3, number, str_eq};
use crate::traits::FirstChars;
use crate::tui::Rect;
use crate::view::menus::cut;
use crate::view::{put, shape, text, text_at, Draw, DrawView, SelectorId, Shape, TableId};

verus! {

/// What the screen is drawn with that is known elsewhere.
pub struct PortContext {
    /// The version of this program.
    pub version: String,
    /// The parts of the screen, across its whole width.
    pub top: Rect,
    pub middle: Rect,
    pub bottom: Rect,
    /// The last row of the screen.
    pub credit_area: Rect,
    /// The box with the ports.
    pub frame: Rect,
    /// The rows within the frame, from the top down.
    pub table_area: Rect,
    pub first_row: Rect,
    pub second_row: Rect,
    pub third_row: Rect,
    pub options_area: Rect,
    /// The parts of the row for a baud rate of one's own.
    pub left: Rect,
    pub input: Rect,
    pub right: Rect,
}

/// What is told of a port beside its name.
pub open spec fn port_info(port: SerialPortInfo) -> Seq<char> {
    match port.port_type {
        SerialPortType::UsbPort(usb) => "[USB] "@ + crate::serial::hex_id(usb.vid) + ":"@
            + crate::serial::hex_id(usb.pid) + (match usb.serial_number {
            Some(serial_number) => " S/N: "@ + serial_number@,
            None => Seq::empty(),
        }),
        SerialPortType::BluetoothPort => "[Bluetooth]"@,
        SerialPortType::PciPort => "[PCI]"@,
        SerialPortType::Unknown => if port.port_name@ == MOCK_PORT_NAME@ {
            "[Mock Testing Port]"@
        } else if crate::serial::worker::starts_with(port.port_name@, "/dev/ttyS"@) {
            "[Virtual Console (TTY)]"@
        } else {
            "[Unspecified]"@
        },
    }
}

fn starts_with(s: &str, prefix: &str) -> (r: bool)
    ensures
        r == crate::serial::worker::starts_with(s@, prefix@),
{
    match s.first_chars(prefix.unicode_len()) {
        Some(start) => str_eq(start, prefix),
        None => false,
    }
}

/// The box with the ports: the middle half of the screen, or all of it if it is narrow.
pub open spec fn box_of(middle: Rect, half: Rect) -> Rect {
    if middle.width < 45 {
        middle
    } else {
        half
    }
}

/// Where the box with the ports goes, `half` being the middle half of `middle`.
pub fn port_box(middle: Rect, half: Rect) -> (r: Rect)
    ensures
        r == box_of(middle, half),
{
    if middle.width < 45 {
        middle
    } else {
        half
    }
}

/// What is told of a port beside its name.
pub fn describe_port_kind(port: &SerialPortInfo) -> (r: String)
    ensures
        r@ == port_info(*port),
{
    match &port.port_type {
        SerialPortType::UsbPort(usb) => {
            let mut r = concat2("[USB] ", hex_id_string(usb.vid).as_str());
            r.append(":");
            r.append(hex_id_string(usb.pid).as_str());
            match &usb.serial_number {
                Some(serial_number) => {
                    let number = concat2(" S/N: ", serial_number.as_str());
                    r.append(number.as_str());
                },
                None => {},
            }
            assert(r@ =~= port_info(*port));
            r
        },
        SerialPortType::BluetoothPort => "[Bluetooth]".to_owned(),
        SerialPortType::PciPort => "[PCI]".to_owned(),
        SerialPortType::Unknown => if str_eq(port.port_name.as_str(), MOCK_PORT_NAME) {
            "[Mock Testing Port]".to_owned()
        } else if starts_with(port.port_name.as_str(), "/dev/ttyS") {
            "[Virtual Console (TTY)]".to_owned()
        } else {
            "[Unspecified]".to_owned()
        },
    }
}

/// A baud rate in the middle of six columns; a word for any other.
pub open spec fn baud_text(baud_rate: u32) -> Seq<char> {
    let digits = crate::text::digits(baud_rate as nat, 10);
    let free = crate::view::floored(6 - digits.len());
    if baud_rate == 0 {
        "Custom:"@
    } else {
        crate::text::repeated(' ', (free / 2) as nat) + digits + crate::text::repeated(
            ' ',
            (free - free / 2) as nat,
        )
    }
}

/// A baud rate in the middle of six columns; a word for any other.
pub fn baud_label(baud_rate: u32) -> (r: String)
    ensures
        r@ == baud_text(baud_rate),
{
    if baud_rate == 0 {
        return "Custom:".to_owned();
    }
    let digits = number(baud_rate as u64, 10);
    let len: usize = digits.as_str().unicode_len();
    let free: usize = if len < 6 {
        6 - len
    } else {
        0
    };
    let left = crate::text::repeat_char(' ', free / 2);
    let right = crate::text::repeat_char(' ', free - free / 2);
    concat3(left.as_str(), digits.as_str(), right.as_str())
}

/// The baud rates on offer, as they are shown.
pub fn baud_labels() -> (r: Vec<String>)
    ensures
        r@.len() == COMMON_BAUD@.len(),
        forall|i: int| 0 <= i < r@.len() ==> (#[trigger] r@[i])@ == baud_text(COMMON_BAUD[i]),
{
    let mut r: Vec<String> = Vec::new();
    let mut i: usize = 0;
    while i <= CUSTOM_BAUD
        invariant
            i <= CUSTOM_BAUD + 1,
            r@.len() == i,
            forall|j: int| 0 <= j < r@.len() ==> (#[trigger] r@[j])@ == baud_text(COMMON_BAUD[j]),
        decreases CUSTOM_BAUD + 1 - i,
    {
        r.push(baud_label(COMMON_BAUD[i]));
        i += 1;
    }
    r
}

/// Which entries of the screen are selected.
#[derive(Clone, Copy, Debug, PartialEq, Eq, Structural)]
pub struct PortSelectionState {
    pub custom_visible: bool,
    pub ports_selected: bool,
    /// The box for a baud rate of one's own if it is shown, else the baud rates.
    pub baud_selected: bool,
    /// The baud rates.
    pub baud_active: bool,
    pub options_selected: bool,
}

impl AppView {
    /// Which entries of the screen are selected.
    pub open spec fn port_selection_state(self) -> PortSelectionState {
        let at = self.ui.screen.port_selection_scroll;
        let custom = self.ui.screen.baud_index == CUSTOM_BAUD;
        PortSelectionState {
            custom_visible: custom,
            ports_selected: at < self.kept.ports.len(),
            baud_selected: at == self.port_items() - 2,
            baud_active: if custom {
                at == self.port_items() - 3
            } else {
                at == self.port_items() - 2
            },
            options_selected: at == self.port_items() - 1,
        }
    }

    /// Where the words, the baud rates and the box for one of one's own stand.
    pub open spec fn baud_places(self, context: PortContext) -> (Rect, Rect) {
        if self.ui.screen.baud_index == CUSTOM_BAUD {
            (context.first_row, context.second_row)
        } else {
            (context.second_row, context.third_row)
        }
    }

    /// The number of bindings that name something unknown.
    pub open spec fn unknown_bindings(self, n: int) -> nat
        decreases n,
    {
        if n <= 0 {
            0
        } else {
            let bad: nat = if self.first_unknown(
                self.kept.keybinds.keybindings@[n - 1].actions@,
                0,
            ) is Some {
                1
            } else {
                0
            };
            self.unknown_bindings(n - 1) + bad
        }
    }

    /// How the keys are written that show all combinations.
    pub open spec fn keybinds_hint(self) -> Seq<char> {
        crate::keybinds::hint_for(
            self.kept.keybinds.keybindings@,
            crate::keybinds::BuiltinAction::Popup(
                crate::keybinds::ShowPopupAction::ShowKeybinds,
            ),
        )
    }

    /// What is told of the combinations of keys.
    pub open spec fn bindings_note(self) -> (Seq<char>, Color) {
        let bad = self.unknown_bindings(self.kept.keybinds.keybindings@.len() as int);
        if bad > 0 {
            (
                crate::text::digits(bad, 10) + " keybindings with unknown actions, "@ + (
                self.keybinds_hint() + " to see all bindings."@),
                Color::Yellow,
            )
        } else {
            (self.keybinds_hint() + " to see all keybindings."@, Color::DarkGray)
        }
    }

    /// The version of this program, and a newer one if there is one.
    pub open spec fn version_spans(self, version: Seq<char>) -> Seq<(Seq<char>, Style)> {
        let own = ("v"@ + version, Style::plain().with_fg(Color::DarkGray));
        match self.kept.update_found_version {
            Some(new) => seq![
                own,
                (
                    " -> v"@ + new@ + "! [U]pdate found!"@,
                    Style::plain().with_fg(Color::Green),
                ),
            ],
            None => seq![own],
        }
    }

    /// The box for a baud rate of one's own.
    pub open spec fn own_baud_draws(self, context: PortContext) -> Seq<DrawView> {
        let state = self.port_selection_state();
        let style = crate::view::menus::button_style(state.baud_selected);
        let room = AppView::typing_room(context.input);
        let hidden = crate::input_box::hidden_columns(
            self.edit.baud_text,
            self.edit.baud_cursor,
            room,
        );
        let cursor = crate::input_box::cursor_column(self.edit.baud_text, self.edit.baud_cursor);
        seq![
            text_at(context.left, "["@, style, Alignment::Right),
            DrawView::Input {
                area: context.input,
                text: if self.edit.baud_text.len() == 0 {
                    " "@
                } else {
                    self.edit.baud_text
                },
                style,
                alignment: Alignment::Left,
                hidden: crate::view::menus::cut16(hidden as int),
            },
        ] + (if state.baud_selected {
            seq![
                DrawView::Shape(
                    Shape::Cursor {
                        x: crate::view::clipped(
                            context.input.x + crate::view::clipped(
                                crate::view::floored(cursor - hidden),
                            ),
                        ) as u16,
                        y: context.input.y,
                    },
                ),
            ]
        } else {
            Seq::empty()
        }) + seq![text_at(context.right, "]"@, style, Alignment::Left)]
    }

    /// The screen where ports are selected.
    pub open spec fn port_draws(self, context: PortContext) -> Seq<DrawView> {
        let state = self.port_selection_state();
        let dark = Style::plain().with_fg(Color::DarkGray);
        seq![
            text_at(context.credit_area, "nullstalgia, 2025"@, dark, Alignment::Left),
            DrawView::Spans {
                area: context.credit_area,
                spans: self.version_spans(context.version@),
                alignment: Alignment::Right,
            },
            text_at(
                context.middle.row_up(1),
                "Ignore port: [I] | Show Keybinds: ["@ + self.keybinds_hint()
                    + "] | Select: [Enter]"@,
                dark,
                Alignment::Center,
            ),
            DrawView::Shape(
                Shape::Table {
                    area: context.table_area,
                    table: TableId::Ports,
                    selected: if self.ui.popup is None && state.ports_selected {
                        Some(self.ui.screen.port_selection_scroll)
                    } else {
                        None
                    },
                },
            ),
            text_at(
                self.baud_places(context).0,
                "Baud Rate:"@,
                Style::plain(),
                Alignment::Center,
            ),
            DrawView::Shape(
                Shape::Selector {
                    area: self.baud_places(context).1,
                    selector: SelectorId::Baud,
                    index: self.ui.screen.baud_index,
                    active: state.baud_active,
                },
            ),
        ] + (if state.custom_visible {
            self.own_baud_draws(context)
        } else {
            Seq::empty()
        }) + seq![
            text_at(
                context.options_area,
                "[More options]"@,
                crate::view::menus::button_style(state.options_selected),
                Alignment::Center,
            ),
            DrawView::Shape(
                Shape::Scrollbar {
                    area: context.table_area.shifted(1),
                    table: TableId::Ports,
                    length: crate::view::floored(
                        self.kept.ports.len() - crate::view::floored(
                            context.table_area.height - 2,
                        ),
                    ) as usize,
                },
            ),
        ]
    }
}

/// Some colored lines, as plain values.
pub open spec fn line_views(lines: Seq<(String, Color)>) -> Seq<(Seq<char>, Color)> {
    lines.map_values(|l: (String, Color)| (l.0@, l.1))
}

impl App {
    /// Which entries of the screen are selected.
    pub fn selection_state(&self) -> (r: PortSelectionState)
        ensures
            r == self@.port_selection_state(),
    {
        let at: usize = self.screen.port_selection_scroll;
        let items: usize = self.port_selection_item_count();
        let custom = self.screen.baud_index == CUSTOM_BAUD;
        assert(self@.kept.ports.len() == self.ports@.len());
        PortSelectionState {
            custom_visible: custom,
            ports_selected: at < self.ports.len(),
            baud_selected: at == items - 2,
            baud_active: if custom {
                items >= 3 && at == items - 3
            } else {
                at == items - 2
            },
            options_selected: at == items - 1,
        }
    }

    /// The name of each port, and what else is told of it.
    pub fn port_rows(&self) -> (r: Vec<(String, String)>)
        ensures
            r@.len() == self.ports@.len(),
            forall|i: int|
                0 <= i < r@.len() ==> (#[trigger] r@[i]).0 == self.ports@[i].port_name && r@[i].1@
                    == port_info(self.ports@[i]),
    {
        let mut rows: Vec<(String, String)> = Vec::new();
        let mut i: usize = 0;
        while i < self.ports.len()
            invariant
                i <= self.ports@.len(),
                rows@.len() == i,
                forall|j: int|
                    0 <= j < i ==> (#[trigger] rows@[j]).0 == self.ports@[j].port_name
                        && rows@[j].1@ == port_info(self.ports@[j]),
            decreases self.ports@.len() - i,
        {
            let port = &self.ports[i];
            rows.push((port.port_name.clone(), describe_port_kind(port)));
            i += 1;
        }
        rows
    }

    fn names_unknown(&self, names: &Vec<String>) -> (r: bool)
        requires
            self@.wf(),
        ensures
            r == (self@.first_unknown(names@, 0) is Some),
    {
        let mut i: usize = 0;
        while i < names.len()
            invariant
                self@.wf(),
                i <= names@.len(),
                self@.first_unknown(names@, 0) == self@.first_unknown(names@, i as int),
            decreases names@.len() - i,
        {
            if self.get_action_from_string(names[i].as_str()).is_none() {
                return true;
            }
            i += 1;
        }
        false
    }

    fn count_unknown(&self) -> (r: usize)
        requires
            self@.wf(),
        ensures
            r == self@.unknown_bindings(self@.kept.keybinds.keybindings@.len() as int),
    {
        let mut count: usize = 0;
        let mut i: usize = 0;
        while i < self.keybinds.keybindings.len()
            invariant
                self@.wf(),
                i <= self.keybinds.keybindings@.len(),
                count <= i,
                count == self@.unknown_bindings(i as int),
            decreases self.keybinds.keybindings@.len() - i,
        {
            if self.names_unknown(&self.keybinds.keybindings[i].actions) {
                count += 1;
            }
            i += 1;
        }
        count
    }

    /// What is told of the combinations of keys: how many name something unknown, and
    /// which keys show them all.
    pub fn keybinds_note(&self) -> (r: (String, Color))
        requires
            self@.wf(),
        ensures
            r.0@ == self@.bindings_note().0,
            r.1 == self@.bindings_note().1,
    {
        let keys = self.keybinds.show_keybinds_hint();
        let bad: usize = self.count_unknown();
        if bad > 0 {
            let rest = concat2(keys.as_str(), " to see all bindings.");
            (
                concat3(
                    number(bad as u64, 10).as_str(),
                    " keybindings with unknown actions, ",
                    rest.as_str(),
                ),
                Color::Yellow,
            )
        } else {
            (concat2(keys.as_str(), " to see all keybindings."), Color::DarkGray)
        }
    }

    /// The lines below the ports: about the combinations of keys, about a listener that
    /// what is traced reaches, and about where files are.
    pub fn misc_lines(&self, listener: Option<&str>, config_path: &str) -> (r: Vec<(String, Color)>)
        requires
            self@.wf(),
        ensures
            line_views(r@) == seq![self@.bindings_note()] + (match listener {
                Some(address) => seq![
                    ("Tracing connected to TCP Listener at: "@ + address@, Color::DarkGray),
                ],
                None => Seq::empty(),
            }) + seq![("Config and logs at: "@ + config_path@, Color::DarkGray)],
    {
        let mut r: Vec<(String, Color)> = Vec::new();
        r.push(self.keybinds_note());
        match listener {
            Some(address) => {
                r.push(
                    (concat2("Tracing connected to TCP Listener at: ", address), Color::DarkGray),
                );
            },
            None => {},
        }
        r.push((concat2("Config and logs at: ", config_path), Color::DarkGray));
        assert(line_views(r@) =~= seq![self@.bindings_note()] + (match listener {
            Some(address) => seq![
                ("Tracing connected to TCP Listener at: "@ + address@, Color::DarkGray),
            ],
            None => Seq::empty(),
        }) + seq![("Config and logs at: "@ + config_path@, Color::DarkGray)]);
        r
    }

    fn version_pieces(&self, version: &str) -> (r: Vec<(String, Style)>)
        ensures
            crate::view::piece_views(r@) == self@.version_spans(version@),
    {
        let mut r: Vec<(String, Style)> = Vec::new();
        r.push((concat2("v", version), Style::new().fg(Color::DarkGray)));
        match &self.update_found_version {
            Some(new) => {
                r.push(
                    (
                        concat3(" -> v", new.as_str(), "! [U]pdate found!"),
                        Style::new().fg(Color::Green),
                    ),
                );
            },
            None => {},
        }
        assert(crate::view::piece_views(r@) =~= self@.version_spans(version@));
        r
    }

    fn draw_own_baud(&self, draws: &mut Vec<Draw>, context: &PortContext, selected: bool)
        requires
            selected == self@.port_selection_state().baud_selected,
        ensures
            crate::view::draw_views(final(draws)@) == crate::view::draw_views(old(draws)@)
                + self@.own_baud_draws(*context),
    {
        let style = if selected {
            Style::new().add(REVERSED)
        } else {
            Style::new()
        };
        let room: usize = if context.input.width > 1 {
            context.input.width as usize - 1
        } else {
            0
        };
        let hidden: usize = visual_scroll(&self.baud_input, room);
        let cursor: usize = visual_cursor(&self.baud_input);
        let value = input_value(&self.baud_input);
        let shown = if value.is_empty() {
            " ".to_owned()
        } else {
            value.to_owned()
        };
        text(draws, context.left, "[".to_owned(), style, Alignment::Right);
        put(
            draws,
            Draw::Input {
                area: context.input,
                text: shown,
                style,
                alignment: Alignment::Left,
                hidden: cut(hidden),
            },
        );
        if selected {
            let along: usize = cursor.saturating_sub(hidden);
            let steps: u16 = if along > 0xffff {
                0xffff
            } else {
                along as u16
            };
            shape(
                draws,
                Shape::Cursor { x: context.input.x.saturating_add(steps), y: context.input.y },
            );
        }
        text(draws, context.right, "]".to_owned(), style, Alignment::Left);
        assert(crate::view::draw_views(draws@) =~= crate::view::draw_views(old(draws)@)
            + self@.own_baud_draws(*context));
    }

    /// Draws the screen where ports are selected.
    pub fn port_selection(&self, context: &PortContext) -> (r: Vec<Draw>)
        ensures
            crate::view::draw_views(r@) == self@.port_draws(*context),
    {
        let state = self.selection_state();
        let dark = Style::new().fg(Color::DarkGray);
        let mut draws: Vec<Draw> = Vec::new();
        text(
            &mut draws,
            context.credit_area,
            "nullstalgia, 2025".to_owned(),
            dark,
            Alignment::Left,
        );
        put(
            &mut draws,
            Draw::Spans {
                area: context.credit_area,
                spans: self.version_pieces(context.version.as_str()),
                alignment: Alignment::Right,
            },
        );
        text(
            &mut draws,
            context.middle.row_from_bottom(1),
            concat3(
                "Ignore port: [I] | Show Keybinds: [",
                self.keybinds.show_keybinds_hint().as_str(),
                "] | Select: [Enter]",
            ),
            dark,
            Alignment::Center,
        );
        shape(
            &mut draws,
            Shape::Table {
                area: context.table_area,
                table: TableId::Ports,
                selected: if self.popup.is_none() && state.ports_selected {
                    Some(self.screen.port_selection_scroll)
                } else {
                    None
                },
            },
        );
        let (words_area, selector_area) = if state.custom_visible {
            (context.first_row, context.second_row)
        } else {
            (context.second_row, context.third_row)
        };
        text(
            &mut draws,
            words_area,
            "Baud Rate:".to_owned(),
            Style::new(),
            Alignment::Center,
        );
        shape(
            &mut draws,
            Shape::Selector {
                area: selector_area,
                selector: SelectorId::Baud,
                index: self.screen.baud_index,
                active: state.baud_active,
            },
        );
        if state.custom_visible {
            self.draw_own_baud(&mut draws, context, state.baud_selected);
        }
        let style = if state.options_selected {
            Style::new().add(REVERSED)
        } else {
            Style::new()
        };
        text(
            &mut draws,
            context.options_area,
            "[More options]".to_owned(),
            style,
            Alignment::Center,
        );
        assert(self@.kept.ports.len() == self.ports@.len());
        let height: u16 = context.table_area.height.saturating_sub(2);
        shape(
            &mut draws,
            Shape::Scrollbar {
                area: context.table_area.shift(1),
                table: TableId::Ports,
                length: self.ports.len().saturating_sub(height as usize),
            },
        );
        assert(crate::view::draw_views(draws@) =~= self@.port_draws(*context));
        draws
    }
}

} // verus!
