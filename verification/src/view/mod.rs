//! What is drawn, and where: lists of things for a frame of the screen.

pub mod arrange;
pub mod draw_laws;
pub mod esp;
pub mod hex;
pub mod keybinds;
pub mod laws;
pub mod layout;
pub mod menus;
pub mod popups;
pub mod ports;
pub mod scroll;
pub mod terminal;

use vstd::prelude::*;
use vstd::string::*;

use crate::line::{Alignment, Color, Style};
use crate::tui::Rect;

verus! {

/// A table whose rows are known elsewhere.
#[derive(Clone, Copy, Debug, PartialEq, Eq, Structural)]
pub enum TableId {
    Serial,
    Rendering,
    Behavior,
    Logging,
    Defmt,
    SyncButton,
    Macros,
    EspButtons,
    EspProfiles,
    RecentElfs,
    Ports,
}

/// A line with one of several entries.
#[derive(Clone, Copy, Debug, PartialEq, Eq, Structural)]
pub enum SelectorId {
    MenuKinds,
    SettingsMenus,
    ToolMenus,
    Categories,
    Baud,
}

/// Which edges of a block are drawn.
#[derive(Clone, Copy, Debug, PartialEq, Eq, Structural)]
pub enum Edges {
    All,
    Top,
    TopBottom,
}

/// Something without a text of its own.
#[derive(Clone, Copy, Debug, PartialEq, Eq, Structural)]
pub enum Shape {
    Clear(Rect),
    Block { area: Rect, edges: Edges, color: Color },
    /// A table with a row selected, or none.
    Table { area: Rect, table: TableId, selected: Option<usize> },
    Selector { area: Rect, selector: SelectorId, index: usize, active: bool },
    /// A scrollbar of a length, at the position of a table.
    Scrollbar { area: Rect, table: TableId, length: usize },
    Cursor { x: u16, y: u16 },
    /// What was received, as text or in hexadecimal digits.
    Received { area: Rect, hex: bool },
    /// A line from top to bottom.
    VerticalLine { x: u16, height: u16, color: Color },
    /// Where two lines cross.
    Cross { x: u16, y: u16 },
    /// The numbers of the bytes in a row.
    ByteMarkers { area: Rect },
    /// A bar that is filled as far as something is done.
    Gauge { area: Rect, done: usize, whole: usize, color: Color },
    /// The table that describes a device.
    DeviceInfo { area: Rect },
}

/// Something that is drawn.
#[derive(Debug)]
pub enum Draw {
    Shape(Shape),
    Text { area: Rect, text: String, style: Style, alignment: Alignment },
    /// A text of which some columns on the left are hidden.
    Input { area: Rect, text: String, style: Style, alignment: Alignment, hidden: u16 },
    /// A text that moves if it is too long.
    Hint { area: Rect, text: String, style: Style },
    /// Texts after each other, each in a style of its own.
    Spans { area: Rect, spans: Vec<(String, Style)>, alignment: Alignment },
}

/// Texts after each other, as plain values.
pub open spec fn piece_views(spans: Seq<(String, Style)>) -> Seq<(Seq<char>, Style)> {
    spans.map_values(|s: (String, Style)| (s.0@, s.1))
}

/// Something that is drawn, as plain values.
#[verifier::ext_equal]
pub enum DrawView {
    Shape(Shape),
    Text { area: Rect, text: Seq<char>, style: Style, alignment: Alignment },
    Input { area: Rect, text: Seq<char>, style: Style, alignment: Alignment, hidden: u16 },
    Hint { area: Rect, text: Seq<char>, style: Style },
    Spans { area: Rect, spans: Seq<(Seq<char>, Style)>, alignment: Alignment },
}

impl View for Draw {
    type V = DrawView;

    open spec fn view(&self) -> DrawView {
        match self {
            Draw::Shape(shape) => DrawView::Shape(*shape),
            Draw::Text { area, text, style, alignment } => DrawView::Text {
                area: *area,
                text: text@,
                style: *style,
                alignment: *alignment,
            },
            Draw::Input { area, text, style, alignment, hidden } => DrawView::Input {
                area: *area,
                text: text@,
                style: *style,
                alignment: *alignment,
                hidden: *hidden,
            },
            Draw::Hint { area, text, style } => DrawView::Hint {
                area: *area,
                text: text@,
                style: *style,
            },
            Draw::Spans { area, spans, alignment } => DrawView::Spans {
                area: *area,
                spans: piece_views(spans@),
                alignment: *alignment,
            },
        }
    }
}

/// Some things that are drawn, as plain values.
pub open spec fn draw_views(draws: Seq<Draw>) -> Seq<DrawView> {
    draws.map_values(|d: Draw| d@)
}

/// A text at a place.
pub open spec fn text_at(area: Rect, text: Seq<char>, style: Style, alignment: Alignment) -> DrawView {
    DrawView::Text { area, text, style, alignment }
}

/// A text in the middle of a place, in one color.
pub open spec fn note_at(area: Rect, text: Seq<char>, color: Color) -> DrawView {
    text_at(area, text, Style::plain().with_fg(color), Alignment::Center)
}

/// A moving text at a place.
pub open spec fn hint_at(area: Rect, text: Seq<char>) -> DrawView {
    DrawView::Hint { area, text, style: Style::plain() }
}

/// Adds something to be drawn.
pub fn put(draws: &mut Vec<Draw>, draw: Draw)
    ensures
        draw_views(final(draws)@) == draw_views(old(draws)@).push(draw@),
{
    let ghost before = draws@;
    draws.push(draw);
    assert(draw_views(draws@) =~= draw_views(before).push(draw@));
}

/// Adds something without a text.
pub fn shape(draws: &mut Vec<Draw>, shape: Shape)
    ensures
        draw_views(final(draws)@) == draw_views(old(draws)@).push(DrawView::Shape(shape)),
{
    put(draws, Draw::Shape(shape));
}

/// Adds a text.
pub fn text(draws: &mut Vec<Draw>, area: Rect, text: String, style: Style, alignment: Alignment)
    ensures
        draw_views(final(draws)@) == draw_views(old(draws)@).push(
            text_at(area, text@, style, alignment),
        ),
{
    put(draws, Draw::Text { area, text, style, alignment });
}

/// Adds a text in the middle of a place, in one color.
pub fn note(draws: &mut Vec<Draw>, area: Rect, content: &str, color: Color)
    ensures
        draw_views(final(draws)@) == draw_views(old(draws)@).push(note_at(area, content@, color)),
{
    text(draws, area, content.to_owned(), Style::new().fg(color), Alignment::Center);
}

/// Adds a moving text.
pub fn hint(draws: &mut Vec<Draw>, area: Rect, content: &str)
    ensures
        draw_views(final(draws)@) == draw_views(old(draws)@).push(hint_at(area, content@)),
{
    put(draws, Draw::Hint { area, text: content.to_owned(), style: Style::new() });
}

/// The row below the last of a place.
pub open spec fn bottom_of(area: Rect) -> int {
    if area.y + area.height > u16::MAX {
        u16::MAX as int
    } else {
        area.y + area.height
    }
}

/// A number, or zero if it is negative.
pub open spec fn floored(n: int) -> int {
    if n < 0 {
        0
    } else {
        n
    }
}

/// A number, or the greatest of a coordinate if it is beyond.
pub open spec fn clipped(n: int) -> int {
    if n > u16::MAX {
        u16::MAX as int
    } else {
        n
    }
}

impl Rect {
    /// The row of this place that many rows from the top.
    pub open spec fn row_down(self, rows: u16) -> Rect {
        Rect { y: clipped(self.y + rows) as u16, height: 1, ..self }
    }

    /// The first row of this place, if it has one.
    pub open spec fn first_row(self) -> Rect {
        Rect { height: crate::tui::smaller(self.height as int, 1) as u16, ..self }
    }

    /// The row that many rows above the end of this place.
    pub open spec fn row_up(self, rows: u16) -> Rect {
        Rect { y: floored(bottom_of(self) - rows) as u16, height: 1, ..self }
    }

    /// This place without some rows, moved down.
    pub open spec fn lowered(self, down: u16, without: u16) -> Rect {
        Rect {
            y: clipped(self.y + down) as u16,
            height: floored(self.height - without) as u16,
            ..self
        }
    }

    /// The inside of a block with all its edges.
    pub open spec fn inside(self) -> Rect {
        Rect {
            x: (if self.width == 0 {
                self.x as int
            } else {
                clipped(self.x + 1)
            }) as u16,
            y: (if self.height == 0 {
                self.y as int
            } else {
                clipped(self.y + 1)
            }) as u16,
            width: floored(self.width - 2) as u16,
            height: floored(self.height - 2) as u16,
        }
    }

    /// This place moved to the right.
    pub open spec fn shifted(self, columns: u16) -> Rect {
        Rect {
            x: (if self.x + columns > u16::MAX - self.width {
                u16::MAX - self.width
            } else {
                self.x + columns
            }) as u16,
            y: (if self.y > u16::MAX - self.height {
                u16::MAX - self.height
            } else {
                self.y as int
            }) as u16,
            ..self
        }
    }

    /// This place without a margin at the sides and at top and bottom.
    pub open spec fn without_margin(self, horizontal: u16, vertical: u16) -> Rect {
        if self.width < clipped(2 * horizontal) || self.height < clipped(2 * vertical) {
            Rect { x: 0, y: 0, width: 0, height: 0 }
        } else {
            Rect {
                x: clipped(self.x + horizontal) as u16,
                y: clipped(self.y + vertical) as u16,
                width: floored(self.width - clipped(2 * horizontal)) as u16,
                height: floored(self.height - clipped(2 * vertical)) as u16,
            }
        }
    }

    /// The row that many rows from the top.
    pub fn row_from_top(self, rows: u16) -> (r: Rect)
        ensures
            r == self.row_down(rows),
    {
        Rect { y: self.y.saturating_add(rows), height: 1, ..self }
    }

    /// The first row, if there is one.
    pub fn top_row(self) -> (r: Rect)
        ensures
            r == self.first_row(),
    {
        Rect {
            height: if self.height == 0 {
                0
            } else {
                1
            },
            ..self
        }
    }

    /// The row that many rows above the end.
    pub fn row_from_bottom(self, rows: u16) -> (r: Rect)
        ensures
            r == self.row_up(rows),
    {
        Rect { y: self.y.saturating_add(self.height).saturating_sub(rows), height: 1, ..self }
    }

    /// This place without some rows, moved down.
    pub fn lower(self, down: u16, without: u16) -> (r: Rect)
        ensures
            r == self.lowered(down, without),
    {
        Rect {
            y: self.y.saturating_add(down),
            height: self.height.saturating_sub(without),
            ..self
        }
    }

    /// The inside of a block with all its edges.
    pub fn block_inner(self) -> (r: Rect)
        ensures
            r == self.inside(),
    {
        Rect {
            x: if self.width == 0 {
                self.x
            } else {
                self.x.saturating_add(1)
            },
            y: if self.height == 0 {
                self.y
            } else {
                self.y.saturating_add(1)
            },
            width: self.width.saturating_sub(2),
            height: self.height.saturating_sub(2),
        }
    }

    /// This place moved to the right, as far as there is room.
    pub fn shift(self, columns: u16) -> (r: Rect)
        ensures
            r == self.shifted(columns),
    {
        let x: u16 = self.x.saturating_add(columns);
        let max_x: u16 = u16::MAX - self.width;
        let max_y: u16 = u16::MAX - self.height;
        Rect {
            x: if x > max_x {
                max_x
            } else {
                x
            },
            y: if self.y > max_y {
                max_y
            } else {
                self.y
            },
            ..self
        }
    }

    /// This place without a margin at the sides and at top and bottom.
    pub fn margin(self, horizontal: u16, vertical: u16) -> (r: Rect)
        ensures
            r == self.without_margin(horizontal, vertical),
    {
        let wide: u16 = horizontal.saturating_add(horizontal);
        let tall: u16 = vertical.saturating_add(vertical);
        if self.width < wide || self.height < tall {
            Rect { x: 0, y: 0, width: 0, height: 0 }
        } else {
            Rect {
                x: self.x.saturating_add(horizontal),
                y: self.y.saturating_add(vertical),
                width: self.width.saturating_sub(wide),
                height: self.height.saturating_sub(tall),
            }
        }
    }
}

} // verus!
