//! Splitting the screen into parts.

use ratatui::layout as term;
use vstd::prelude::*;

use crate::buffer::tui::{Buffer, Size};
use crate::serial::port_status::InnerPortStatus;
use crate::serial::{SerialPortInfo, SerialSignals};
use crate::tui::{centered_rect_size, Rect};
use crate::view::esp::EspRows;
use crate::view::hex::HexAreas;
use crate::view::menus::{size_of_menu, MenuContext};
use crate::view::ports::{port_box, PortContext};
use crate::view::terminal::TerminalContext;

verus! {

/// How a part asks for room.
#[derive(Clone, Copy, Debug, PartialEq, Eq, Structural)]
pub enum Part {
    /// So many cells.
    Length(u16),
    /// A share of what the others leave.
    Fill(u16),
    /// So many hundredths.
    Percentage(u16),
}

/// Which way a place is split.
#[derive(Clone, Copy, Debug, PartialEq, Eq, Structural)]
pub enum Axis {
    /// Into rows, from the top down.
    Rows,
    /// Into columns, from left to right.
    Columns,
}

/// Where a place begins in a direction.
pub open spec fn start_of(area: Rect, axis: Axis) -> u16 {
    match axis {
        Axis::Rows => area.y,
        Axis::Columns => area.x,
    }
}

/// How many cells a place has in a direction.
pub open spec fn size_of(area: Rect, axis: Axis) -> u16 {
    match axis {
        Axis::Rows => area.height,
        Axis::Columns => area.width,
    }
}

/// Whether a part goes across the whole of a place in the other direction.
pub open spec fn goes_across(part: Rect, area: Rect, axis: Axis) -> bool {
    match axis {
        Axis::Rows => part.x == area.x && part.width == area.width,
        Axis::Columns => part.y == area.y && part.height == area.height,
    }
}

/// Whether a part lies within a place, across the whole of it in the other direction.
pub open spec fn is_slice_of(part: Rect, area: Rect, axis: Axis) -> bool {
    &&& goes_across(part, area, axis)
    &&& start_of(area, axis) <= start_of(part, axis)
    &&& start_of(part, axis) + size_of(part, axis) <= start_of(area, axis) + size_of(area, axis)
}

/// The slice of a place that begins `offset` cells into it and has `cells` cells.
pub open spec fn slice_at(area: Rect, axis: Axis, offset: int, cells: int) -> Rect {
    match axis {
        Axis::Rows => Rect { y: (area.y + offset) as u16, height: cells as u16, ..area },
        Axis::Columns => Rect { x: (area.x + offset) as u16, width: cells as u16, ..area },
    }
}

/// The cells that the first `n` parts get, if those that share the rest get `spare`.
pub open spec fn taken(parts: Seq<Part>, n: int, spare: int) -> int
    decreases n,
{
    if n <= 0 {
        0
    } else {
        taken(parts, n - 1, spare) + (match parts[n - 1] {
            Part::Length(cells) => cells as int,
            _ => spare,
        })
    }
}

/// Whether the lengths among some parts fit into a place, with at most one part that
/// takes the rest.
pub open spec fn has_room(parts: Seq<Part>, area: Rect, axis: Axis) -> bool {
    &&& forall|i: int| 0 <= i < parts.len() ==> !((#[trigger] parts[i]) is Percentage)
    &&& forall|i: int, j: int|
        0 <= i < j < parts.len() && (#[trigger] parts[i]) is Fill ==> !((#[trigger] parts[j])
            is Fill)
    &&& taken(parts, parts.len() as int, 0) <= size_of(area, axis)
    &&& start_of(area, axis) + size_of(area, axis) <= u16::MAX
}

/// The slices in a place with room for them: one after the other, with the lengths that
/// are asked for.
pub open spec fn slices(parts: Seq<Part>, area: Rect, axis: Axis) -> Seq<Rect> {
    let spare = size_of(area, axis) - taken(parts, parts.len() as int, 0);
    Seq::new(
        parts.len(),
        |i: int|
            slice_at(
                area,
                axis,
                taken(parts, i, spare),
                taken(parts, i + 1, spare) - taken(parts, i, spare),
            ),
    )
}

/// Whether splitting a place into the parts that are asked for may give these rectangles;
/// it may give others as well.
pub uninterp spec fn may_split(
    area: Rect,
    axis: Axis,
    parts: Seq<Part>,
    found: Seq<Rect>,
) -> bool;

/// `ratatui::layout::Layout::split` gives one rectangle for each part, within the place
/// and across the whole of it in the other direction. Where the lengths fit beside at
/// most one part that takes the rest, each gets its cells, in order. How the room is
/// shared otherwise is found by a solver that walks through maps in an order that differs
/// from one process to the next: that is not stated, only that what comes of it may come
/// of this place and these parts.
#[verifier::external_body]
fn split(area: Rect, axis: Axis, parts: &[Part]) -> (r: Vec<Rect>)
    ensures
        may_split(area, axis, parts@, r@),
        r@.len() == parts@.len(),
        forall|i: int| 0 <= i < r@.len() ==> is_slice_of(#[trigger] r@[i], area, axis),
        has_room(parts@, area, axis) ==> r@ == slices(parts@, area, axis),
{
    let direction = match axis {
        Axis::Rows => term::Direction::Vertical,
        Axis::Columns => term::Direction::Horizontal,
    };
    let constraints = parts.iter().map(|part| match part {
        Part::Length(n) => term::Constraint::Length(*n),
        Part::Fill(n) => term::Constraint::Fill(*n),
        Part::Percentage(n) => term::Constraint::Percentage(*n),
    });
    let whole = term::Rect { x: area.x, y: area.y, width: area.width, height: area.height };
    let found = term::Layout::new(direction, constraints).split(whole);
    found.iter().map(|r| Rect { x: r.x, y: r.y, width: r.width, height: r.height }).collect()
}

/// The rows of the terminal: what was received, a line, and what is typed.
pub open spec fn terminal_parts() -> Seq<Part> {
    seq![Part::Fill(1), Part::Length(1), Part::Length(1)]
}

/// The columns of the row for what is typed: a sign, and the text.
pub open spec fn input_parts() -> Seq<Part> {
    seq![Part::Length(1), Part::Fill(1)]
}

impl TerminalContext {
    /// The rows to ask for.
    pub fn row_parts() -> (r: Vec<Part>)
        ensures
            r@ == terminal_parts(),
    {
        vec![Part::Fill(1), Part::Length(1), Part::Length(1)]
    }

    /// The columns to ask for in the last row.
    pub fn column_parts() -> (r: Vec<Part>)
        ensures
            r@ == input_parts(),
    {
        vec![Part::Length(1), Part::Fill(1)]
    }

    /// Takes the rows of the screen, and the columns of the last row.
    pub fn from_parts(
        area: Rect,
        rows: &[Rect],
        columns: &[Rect],
        now: u64,
        status: InnerPortStatus,
        signals: SerialSignals,
        port: Option<SerialPortInfo>,
        baud_rate: u32,
        lines: usize,
    ) -> (r: TerminalContext)
        requires
            rows@.len() == 3,
            columns@.len() == 2,
        ensures
            r == (TerminalContext {
                area,
                terminal_area: rows@[0],
                line_area: rows@[1],
                whole_input_area: rows@[2],
                symbol_area: columns@[0],
                input_area: columns@[1],
                now,
                status,
                signals,
                port,
                baud_rate,
                lines,
            }),
    {
        TerminalContext {
            area,
            terminal_area: rows[0],
            line_area: rows[1],
            whole_input_area: rows[2],
            symbol_area: columns[0],
            input_area: columns[1],
            now,
            status,
            signals,
            port,
            baud_rate,
            lines,
        }
    }

    /// Splits the screen for the terminal: the last row is for what is typed, behind a
    /// sign, and the one above for a line.
    pub fn lay_out(
        area: Rect,
        now: u64,
        status: InnerPortStatus,
        signals: SerialSignals,
        port: Option<SerialPortInfo>,
        baud_rate: u32,
        lines: usize,
    ) -> (r: TerminalContext)
        ensures
            r.area == area,
            r.now == now,
            r.status == status,
            r.signals == signals,
            r.port == port,
            r.baud_rate == baud_rate,
            r.lines == lines,
            may_split(
                area,
                Axis::Rows,
                terminal_parts(),
                seq![r.terminal_area, r.line_area, r.whole_input_area],
            ),
            may_split(
                r.whole_input_area,
                Axis::Columns,
                input_parts(),
                seq![r.symbol_area, r.input_area],
            ),
            is_slice_of(r.terminal_area, area, Axis::Rows),
            is_slice_of(r.line_area, area, Axis::Rows),
            is_slice_of(r.whole_input_area, area, Axis::Rows),
            is_slice_of(r.symbol_area, r.whole_input_area, Axis::Columns),
            is_slice_of(r.input_area, r.whole_input_area, Axis::Columns),
            area.height >= 2 && area.y + area.height <= u16::MAX ==> {
                &&& r.terminal_area == slice_at(area, Axis::Rows, 0, area.height - 2)
                &&& r.line_area == slice_at(area, Axis::Rows, area.height - 2, 1)
                &&& r.whole_input_area == slice_at(area, Axis::Rows, area.height - 1, 1)
            },
            area.width >= 1 && area.x + area.width <= u16::MAX ==> {
                &&& r.symbol_area == slice_at(r.whole_input_area, Axis::Columns, 0, 1)
                &&& r.input_area == slice_at(r.whole_input_area, Axis::Columns, 1, area.width - 1)
            },
    {
        let row_parts = TerminalContext::row_parts();
        let column_parts = TerminalContext::column_parts();
        let rows = split(area, Axis::Rows, row_parts.as_slice());
        let columns = split(rows[2], Axis::Columns, column_parts.as_slice());
        proof {
            reveal_with_fuel(taken, 4);
            assert(rows@ =~= seq![rows@[0], rows@[1], rows@[2]]);
            assert(columns@ =~= seq![columns@[0], columns@[1]]);
        }
        TerminalContext::from_parts(
            area,
            rows.as_slice(),
            columns.as_slice(),
            now,
            status,
            signals,
            port,
            baud_rate,
            lines,
        )
    }
}

/// The rows of the screen where ports are selected.
pub open spec fn screen_parts() -> Seq<Part> {
    seq![Part::Fill(1), Part::Fill(4), Part::Fill(1)]
}

/// The last row of the screen, below all others.
pub open spec fn credit_parts() -> Seq<Part> {
    seq![Part::Fill(1), Part::Length(1)]
}

/// The middle half, between two quarters.
pub open spec fn box_parts() -> Seq<Part> {
    seq![Part::Percentage(25), Part::Percentage(50), Part::Percentage(25)]
}

/// The rows of the box with the ports: a table, three rows for the baud rate and one for
/// more options.
pub open spec fn port_parts() -> Seq<Part> {
    seq![Part::Fill(1), Part::Length(1), Part::Length(1), Part::Length(1), Part::Length(1)]
}

/// The columns of the row for a baud rate of one's own.
pub open spec fn baud_parts() -> Seq<Part> {
    seq![Part::Fill(1), Part::Length(10), Part::Fill(1)]
}

impl PortContext {
    /// The rows of the screen to ask for.
    pub fn screen_row_parts() -> (r: Vec<Part>)
        ensures
            r@ == screen_parts(),
    {
        vec![Part::Fill(1), Part::Fill(4), Part::Fill(1)]
    }

    /// The rows to ask for to find the last one.
    pub fn credit_row_parts() -> (r: Vec<Part>)
        ensures
            r@ == credit_parts(),
    {
        vec![Part::Fill(1), Part::Length(1)]
    }

    /// The columns to ask for around the box.
    pub fn box_column_parts() -> (r: Vec<Part>)
        ensures
            r@ == box_parts(),
    {
        vec![Part::Percentage(25), Part::Percentage(50), Part::Percentage(25)]
    }

    /// The rows of the box to ask for.
    pub fn port_row_parts() -> (r: Vec<Part>)
        ensures
            r@ == port_parts(),
    {
        vec![
            Part::Fill(1),
            Part::Length(1),
            Part::Length(1),
            Part::Length(1),
            Part::Length(1),
        ]
    }

    /// The columns to ask for in the row for a baud rate.
    pub fn baud_column_parts() -> (r: Vec<Part>)
        ensures
            r@ == baud_parts(),
    {
        vec![Part::Fill(1), Part::Length(10), Part::Fill(1)]
    }

    /// Takes the rows of the screen, its last row, the box, the rows within it, and the
    /// columns of the row for a baud rate.
    pub fn from_parts(
        version: String,
        screen: &[Rect],
        credit: &[Rect],
        frame: Rect,
        rows: &[Rect],
        columns: &[Rect],
    ) -> (r: PortContext)
        requires
            screen@.len() == 3,
            credit@.len() == 2,
            rows@.len() == 5,
            columns@.len() == 3,
        ensures
            r == (PortContext {
                version,
                top: screen@[0],
                middle: screen@[1],
                bottom: screen@[2],
                credit_area: credit@[1],
                frame,
                table_area: rows@[0],
                first_row: rows@[1],
                second_row: rows@[2],
                third_row: rows@[3],
                options_area: rows@[4],
                left: columns@[0],
                input: columns@[1],
                right: columns@[2],
            }),
    {
        PortContext {
            version,
            top: screen[0],
            middle: screen[1],
            bottom: screen[2],
            credit_area: credit[1],
            frame,
            table_area: rows[0],
            first_row: rows[1],
            second_row: rows[2],
            third_row: rows[3],
            options_area: rows[4],
            left: columns[0],
            input: columns[1],
            right: columns[2],
        }
    }

    /// Splits the screen where ports are selected: a box in the middle, with the ports
    /// above three rows for the baud rate and one for more options.
    pub fn lay_out(area: Rect, version: String) -> (r: PortContext)
        ensures
            r.version == version,
            may_split(area, Axis::Rows, screen_parts(), seq![r.top, r.middle, r.bottom]),
            exists|found: Seq<Rect>| #[trigger]
                may_split(area, Axis::Rows, credit_parts(), found) && found.len() == 2
                    && r.credit_area == found[1],
            exists|found: Seq<Rect>| #[trigger]
                may_split(r.middle, Axis::Columns, box_parts(), found) && found.len() == 3
                    && r.frame == crate::view::ports::box_of(r.middle, found[1]),
            may_split(
                r.frame.inside(),
                Axis::Rows,
                port_parts(),
                seq![r.table_area, r.first_row, r.second_row, r.third_row, r.options_area],
            ),
            may_split(r.third_row, Axis::Columns, baud_parts(), seq![r.left, r.input, r.right]),
            is_slice_of(r.top, area, Axis::Rows),
            is_slice_of(r.middle, area, Axis::Rows),
            is_slice_of(r.bottom, area, Axis::Rows),
            is_slice_of(r.credit_area, area, Axis::Rows),
            r.middle.width < 45 ==> r.frame == r.middle,
            is_slice_of(r.frame, r.middle, Axis::Columns),
            is_slice_of(r.table_area, r.frame.inside(), Axis::Rows),
            is_slice_of(r.first_row, r.frame.inside(), Axis::Rows),
            is_slice_of(r.second_row, r.frame.inside(), Axis::Rows),
            is_slice_of(r.third_row, r.frame.inside(), Axis::Rows),
            is_slice_of(r.options_area, r.frame.inside(), Axis::Rows),
            is_slice_of(r.left, r.third_row, Axis::Columns),
            is_slice_of(r.input, r.third_row, Axis::Columns),
            is_slice_of(r.right, r.third_row, Axis::Columns),
            area.height >= 1 && area.y + area.height <= u16::MAX ==> r.credit_area == slice_at(
                area,
                Axis::Rows,
                area.height - 1,
                1,
            ),
            ({
                let inner = r.frame.inside();
                inner.height >= 4 && inner.y + inner.height <= u16::MAX ==> {
                    &&& r.table_area == slice_at(inner, Axis::Rows, 0, inner.height - 4)
                    &&& r.first_row == slice_at(inner, Axis::Rows, inner.height - 4, 1)
                    &&& r.second_row == slice_at(inner, Axis::Rows, inner.height - 3, 1)
                    &&& r.third_row == slice_at(inner, Axis::Rows, inner.height - 2, 1)
                    &&& r.options_area == slice_at(inner, Axis::Rows, inner.height - 1, 1)
                }
            }),
    {
        let screen_parts = PortContext::screen_row_parts();
        let credit_parts = PortContext::credit_row_parts();
        let box_parts = PortContext::box_column_parts();
        let port_parts = PortContext::port_row_parts();
        let baud_parts = PortContext::baud_column_parts();
        let screen = split(area, Axis::Rows, screen_parts.as_slice());
        let credit = split(area, Axis::Rows, credit_parts.as_slice());
        let halves = split(screen[1], Axis::Columns, box_parts.as_slice());
        let frame = port_box(screen[1], halves[1]);
        let rows = split(frame.block_inner(), Axis::Rows, port_parts.as_slice());
        let columns = split(rows[3], Axis::Columns, baud_parts.as_slice());
        proof {
            reveal_with_fuel(taken, 6);
            assert(screen@ =~= seq![screen@[0], screen@[1], screen@[2]]);
            assert(credit@ =~= seq![credit@[0], credit@[1]]);
            assert(halves@ =~= seq![halves@[0], halves@[1], halves@[2]]);
            assert(rows@ =~= seq![rows@[0], rows@[1], rows@[2], rows@[3], rows@[4]]);
            assert(columns@ =~= seq![columns@[0], columns@[1], columns@[2]]);
        }
        PortContext::from_parts(
            version,
            screen.as_slice(),
            credit.as_slice(),
            frame,
            rows.as_slice(),
            columns.as_slice(),
        )
    }
}

/// The two halves of a table of settings.
pub open spec fn half_parts() -> Seq<Part> {
    seq![Part::Percentage(50), Part::Percentage(50)]
}

/// The rows for the file with `defmt` messages, above the rest.
pub open spec fn elf_parts() -> Seq<Part> {
    seq![Part::Length(1), Part::Length(1), Part::Length(1), Part::Length(1), Part::Fill(1)]
}

impl MenuContext {
    /// The columns to ask for.
    pub fn half_column_parts() -> (r: Vec<Part>)
        ensures
            r@ == half_parts(),
    {
        vec![Part::Percentage(50), Part::Percentage(50)]
    }

    /// The rows to ask for.
    pub fn elf_row_parts() -> (r: Vec<Part>)
        ensures
            r@ == elf_parts(),
    {
        vec![
            Part::Length(1),
            Part::Length(1),
            Part::Length(1),
            Part::Length(1),
            Part::Fill(1),
        ]
    }

    /// Takes the halves and the rows of the table of settings.
    pub fn from_parts(
        halves: &[Rect],
        rows: &[Rect],
        docstring: String,
        logs_dir: String,
        elf: Option<(String, String)>,
    ) -> (r: MenuContext)
        requires
            halves@.len() == 2,
            rows@.len() == 5,
        ensures
            r == (MenuContext {
                docstring,
                logs_dir,
                elf,
                right_half: halves@[1],
                elf_title: rows@[0],
                elf_path: rows@[1],
                elf_select: rows@[2],
                elf_recent: rows@[3],
            }),
    {
        MenuContext {
            docstring,
            logs_dir,
            elf,
            right_half: halves[1],
            elf_title: rows[0],
            elf_path: rows[1],
            elf_select: rows[2],
            elf_recent: rows[3],
        }
    }

    /// Splits the inside of a menu: the right half of its table, and rows for the file
    /// with `defmt` messages.
    pub fn lay_out(
        area: Rect,
        docstring: String,
        logs_dir: String,
        elf: Option<(String, String)>,
    ) -> (r: MenuContext)
        ensures
            r.docstring == docstring,
            r.logs_dir == logs_dir,
            r.elf == elf,
            ({
                let table = table_of_menu(area);
                &&& exists|found: Seq<Rect>| #[trigger]
                    may_split(table, Axis::Columns, half_parts(), found) && found.len() == 2
                        && r.right_half == found[1]
                &&& exists|found: Seq<Rect>| #[trigger]
                    may_split(table, Axis::Rows, elf_parts(), found) && found.len() == 5
                        && r.elf_title == found[0] && r.elf_path == found[1] && r.elf_select
                        == found[2] && r.elf_recent == found[3]
                &&& is_slice_of(r.right_half, table, Axis::Columns)
                &&& is_slice_of(r.elf_title, table, Axis::Rows)
                &&& is_slice_of(r.elf_path, table, Axis::Rows)
                &&& is_slice_of(r.elf_select, table, Axis::Rows)
                &&& is_slice_of(r.elf_recent, table, Axis::Rows)
                &&& table.height >= 4 && table.y + table.height <= u16::MAX ==> {
                    &&& r.elf_title == slice_at(table, Axis::Rows, 0, 1)
                    &&& r.elf_path == slice_at(table, Axis::Rows, 1, 1)
                    &&& r.elf_select == slice_at(table, Axis::Rows, 2, 1)
                    &&& r.elf_recent == slice_at(table, Axis::Rows, 3, 1)
                }
            }),
    {
        let half_parts = MenuContext::half_column_parts();
        let elf_parts = MenuContext::elf_row_parts();
        let table = centered_rect_size(size_of_menu(area), area).block_inner().lower(1, 3);
        let halves = split(table, Axis::Columns, half_parts.as_slice());
        let rows = split(table, Axis::Rows, elf_parts.as_slice());
        proof {
            reveal_with_fuel(taken, 6);
            assert(halves@ =~= seq![halves@[0], halves@[1]]);
            assert(rows@ =~= seq![rows@[0], rows@[1], rows@[2], rows@[3], rows@[4]]);
        }
        MenuContext::from_parts(halves.as_slice(), rows.as_slice(), docstring, logs_dir, elf)
    }
}

/// Where the table of settings stands in a menu.
pub open spec fn table_of_menu(area: Rect) -> Rect {
    crate::view::menus::settings_area(
        crate::tui::centered(crate::view::menus::menu_size(area), area).inside(),
    )
}

/// The rows of the box about the work on a device.
pub open spec fn esp_parts() -> Seq<Part> {
    seq![
        Part::Length(1),
        Part::Length(1),
        Part::Fill(1),
        Part::Length(1),
        Part::Length(1),
        Part::Length(1),
    ]
}

impl EspRows {
    /// The rows to ask for.
    pub fn row_parts() -> (r: Vec<Part>)
        ensures
            r@ == esp_parts(),
    {
        vec![
            Part::Length(1),
            Part::Length(1),
            Part::Fill(1),
            Part::Length(1),
            Part::Length(1),
            Part::Length(1),
        ]
    }

    /// Takes the rows, from the top down.
    pub fn from_parts(rows: &[Rect]) -> (r: EspRows)
        requires
            rows@.len() == 6,
        ensures
            r == (EspRows {
                title: rows@[0],
                upper: rows@[1],
                middle: rows@[2],
                chunks: rows@[3],
                bytes: rows@[4],
                bar: rows@[5],
            }),
    {
        EspRows {
            title: rows[0],
            upper: rows[1],
            middle: rows[2],
            chunks: rows[3],
            bytes: rows[4],
            bar: rows[5],
        }
    }

    /// Splits the inside of the box about the work on a device.
    pub fn lay_out(screen: Rect) -> (r: EspRows)
        ensures
            ({
                let inner = crate::tui::centered(
                    Size { width: 60, height: 8 },
                    screen,
                ).inside();
                &&& may_split(
                    inner,
                    Axis::Rows,
                    esp_parts(),
                    seq![r.title, r.upper, r.middle, r.chunks, r.bytes, r.bar],
                )
                &&& is_slice_of(r.title, inner, Axis::Rows)
                &&& is_slice_of(r.upper, inner, Axis::Rows)
                &&& is_slice_of(r.middle, inner, Axis::Rows)
                &&& is_slice_of(r.chunks, inner, Axis::Rows)
                &&& is_slice_of(r.bytes, inner, Axis::Rows)
                &&& is_slice_of(r.bar, inner, Axis::Rows)
                &&& inner.height >= 5 && inner.y + inner.height <= u16::MAX ==> {
                    &&& r.title == slice_at(inner, Axis::Rows, 0, 1)
                    &&& r.upper == slice_at(inner, Axis::Rows, 1, 1)
                    &&& r.middle == slice_at(inner, Axis::Rows, 2, inner.height - 5)
                    &&& r.chunks == slice_at(inner, Axis::Rows, inner.height - 3, 1)
                    &&& r.bytes == slice_at(inner, Axis::Rows, inner.height - 2, 1)
                    &&& r.bar == slice_at(inner, Axis::Rows, inner.height - 1, 1)
                }
            }),
    {
        let parts = EspRows::row_parts();
        let inner = centered_rect_size(Size { width: 60, height: 8 }, screen).block_inner();
        let rows = split(inner, Axis::Rows, parts.as_slice());
        proof {
            reveal_with_fuel(taken, 7);
            assert(rows@ =~= seq![rows@[0], rows@[1], rows@[2], rows@[3], rows@[4], rows@[5]]);
        }
        EspRows::from_parts(rows.as_slice())
    }
}

/// No place at all.
pub open spec fn nowhere() -> Rect {
    Rect { x: 0, y: 0, width: 0, height: 0 }
}

/// The rows of the digits of what was received: a header, a line, and the rest.
pub open spec fn hex_row_parts() -> Seq<Part> {
    seq![Part::Length(1), Part::Length(1), Part::Fill(1)]
}

/// The parts of the digits of what was received, the columns of the header and those below
/// it being given.
pub open spec fn hex_areas_of(
    area: Rect,
    separator: Rect,
    heads: Seq<Rect>,
    columns: Seq<Rect>,
) -> HexAreas {
    HexAreas {
        separator,
        offset_label: heads[0],
        bytes_label: heads[3],
        ascii_label: heads[6],
        area,
        first_line: columns[1],
        second_line: columns[5],
        scrollbar: Rect { y: 0, height: area.height, ..columns[7] },
        offsets: columns[0],
        bytes: columns[3],
        ascii: columns[6],
    }
}

impl HexAreas {
    /// The rows to ask for, where there is a header.
    pub fn row_parts() -> (r: Vec<Part>)
        ensures
            r@ == hex_row_parts(),
    {
        vec![Part::Length(1), Part::Length(1), Part::Fill(1)]
    }

    /// Takes the line below the header, the columns of the header and those below it.
    pub fn from_parts(area: Rect, separator: Rect, heads: &[Rect], columns: &[Rect]) -> (r:
        HexAreas)
        requires
            heads@.len() == 8,
            columns@.len() == 8,
        ensures
            r == hex_areas_of(area, separator, heads@, columns@),
    {
        HexAreas {
            separator,
            offset_label: heads[0],
            bytes_label: heads[3],
            ascii_label: heads[6],
            area,
            first_line: columns[1],
            second_line: columns[5],
            scrollbar: Rect { y: 0, height: area.height, ..columns[7] },
            offsets: columns[0],
            bytes: columns[3],
            ascii: columns[6],
        }
    }
}

impl Buffer {
    /// The columns of the digits of what was received: offsets, a line, bytes between
    /// spaces, a line, characters, and the scroll bar.
    pub open spec fn hex_column_parts(&self) -> Seq<Part> {
        seq![
            Part::Length(crate::buffer::tui::offset_digits(self.raw@.len() as int) as u16),
            Part::Length(1),
            Part::Length(2),
            Part::Length(self.state.hex_section_width),
            Part::Length(2),
            Part::Length(1),
            Part::Length(self.state.hex_bytes_per_line as u16),
            Part::Length(1),
        ]
    }

    /// The columns to ask for.
    pub fn hex_columns(&self) -> (r: Vec<Part>)
        ensures
            r@ == self.hex_column_parts(),
    {
        vec![
            Part::Length(self.buffer_hex_digits()),
            Part::Length(1),
            Part::Length(2),
            Part::Length(self.state.hex_section_width),
            Part::Length(2),
            Part::Length(1),
            Part::Length(self.state.hex_bytes_per_line as u16),
            Part::Length(1),
        ]
    }

    /// Whether each column gets its cells in a place.
    pub open spec fn has_room_for_hex(&self, area: Rect) -> bool {
        &&& taken(self.hex_column_parts(), 8, 0) <= area.width
        &&& area.x + area.width <= u16::MAX
    }

    /// The place below the header, if there is room for one.
    pub open spec fn below_header(&self, area: Rect) -> Option<Rect> {
        if !self.rendering.hex_view_header {
            Some(area)
        } else if area.height >= 2 && area.y + area.height <= u16::MAX {
            Some(slice_at(area, Axis::Rows, 2, area.height - 2))
        } else {
            None
        }
    }

    /// Splits the place for the digits of what was received: below a header, if there is
    /// one, stand the offsets, the bytes and their characters, with lines between them.
    pub fn hex_areas(&self, area: Rect) -> (r: HexAreas)
        ensures
            exists|rows: Seq<Rect>, heads: Seq<Rect>, columns: Seq<Rect>|
                {
                    &&& rows.len() == 3 && heads.len() == 8 && columns.len() == 8
                    &&& if self.rendering.hex_view_header {
                        may_split(area, Axis::Rows, hex_row_parts(), rows)
                    } else {
                        rows == seq![nowhere(), nowhere(), area]
                    }
                    &&& #[trigger] may_split(
                        rows[0],
                        Axis::Columns,
                        self.hex_column_parts(),
                        heads,
                    )
                    &&& #[trigger] may_split(
                        rows[2],
                        Axis::Columns,
                        self.hex_column_parts(),
                        columns,
                    )
                    &&& r == hex_areas_of(area, rows[1], heads, columns)
                },
            r.area == area,
            r.scrollbar.y == 0 && r.scrollbar.height == area.height,
            !self.rendering.hex_view_header ==> r.separator == nowhere(),
            self.rendering.hex_view_header ==> is_slice_of(r.separator, area, Axis::Rows),
            self.rendering.hex_view_header && self.below_header(area) is Some ==> r.separator
                == slice_at(area, Axis::Rows, 1, 1),
            self.has_room_for_hex(area) ==> (self.below_header(area) matches Some(body) ==> {
                let parts = self.hex_column_parts();
                &&& r.offsets == slice_at(body, Axis::Columns, 0, taken(parts, 1, 0))
                &&& r.first_line == slice_at(body, Axis::Columns, taken(parts, 1, 0), 1)
                &&& r.bytes == slice_at(
                    body,
                    Axis::Columns,
                    taken(parts, 3, 0),
                    self.state.hex_section_width as int,
                )
                &&& r.second_line == slice_at(body, Axis::Columns, taken(parts, 5, 0), 1)
                &&& r.ascii == slice_at(
                    body,
                    Axis::Columns,
                    taken(parts, 6, 0),
                    self.state.hex_bytes_per_line as int,
                )
                &&& r.scrollbar.x == area.x + taken(parts, 7, 0) && r.scrollbar.width == 1
                &&& self.rendering.hex_view_header ==> {
                    let header = slice_at(area, Axis::Rows, 0, 1);
                    &&& r.offset_label == slice_at(header, Axis::Columns, 0, taken(parts, 1, 0))
                    &&& r.bytes_label == slice_at(
                        header,
                        Axis::Columns,
                        taken(parts, 3, 0),
                        self.state.hex_section_width as int,
                    )
                    &&& r.ascii_label == slice_at(
                        header,
                        Axis::Columns,
                        taken(parts, 6, 0),
                        self.state.hex_bytes_per_line as int,
                    )
                }
            }),
    {
        let parts = self.hex_columns();
        let row_parts = HexAreas::row_parts();
        let none = Rect { x: 0, y: 0, width: 0, height: 0 };
        let rows: Vec<Rect> = if self.rendering.hex_view_header {
            split(area, Axis::Rows, row_parts.as_slice())
        } else {
            vec![none, none, area]
        };
        let heads = split(rows[0], Axis::Columns, parts.as_slice());
        let columns = split(rows[2], Axis::Columns, parts.as_slice());
        let r = HexAreas::from_parts(area, rows[1], heads.as_slice(), columns.as_slice());
        proof {
            if !self.rendering.hex_view_header {
                assert(rows@ =~= seq![nowhere(), nowhere(), area]);
            } else if self.below_header(area) is Some {
                lemma_hex_rows(area);
            }
            if self.has_room_for_hex(area) {
                if self.rendering.hex_view_header {
                    self.lemma_hex_columns(rows@[0]);
                }
                self.lemma_hex_columns(rows@[2]);
            }
            assert(may_split(rows@[0], Axis::Columns, self.hex_column_parts(), heads@));
            assert(may_split(rows@[2], Axis::Columns, self.hex_column_parts(), columns@));
        }
        r
    }

    proof fn lemma_hex_columns(&self, area: Rect)
        requires
            self.has_room_for_hex(area),
        ensures
            has_room(self.hex_column_parts(), area, Axis::Columns),
            0 <= taken(self.hex_column_parts(), 7, 0) < area.width,
            ({
                let parts = self.hex_column_parts();
                let found = slices(parts, area, Axis::Columns);
                &&& found[0] == slice_at(area, Axis::Columns, 0, taken(parts, 1, 0))
                &&& found[1] == slice_at(area, Axis::Columns, taken(parts, 1, 0), 1)
                &&& found[3] == slice_at(
                    area,
                    Axis::Columns,
                    taken(parts, 3, 0),
                    self.state.hex_section_width as int,
                )
                &&& found[5] == slice_at(area, Axis::Columns, taken(parts, 5, 0), 1)
                &&& found[6] == slice_at(
                    area,
                    Axis::Columns,
                    taken(parts, 6, 0),
                    self.state.hex_bytes_per_line as int,
                )
                &&& found[7] == slice_at(area, Axis::Columns, taken(parts, 7, 0), 1)
            }),
    {
        reveal_with_fuel(taken, 9);
    }
}

proof fn lemma_hex_rows(area: Rect)
    requires
        area.height >= 2,
        area.y + area.height <= u16::MAX,
    ensures
        has_room(hex_row_parts(), area, Axis::Rows),
        ({
            let found = slices(hex_row_parts(), area, Axis::Rows);
            &&& found[0] == slice_at(area, Axis::Rows, 0, 1)
            &&& found[1] == slice_at(area, Axis::Rows, 1, 1)
            &&& found[2] == slice_at(area, Axis::Rows, 2, area.height - 2)
        }),
{
    reveal_with_fuel(taken, 4);
}

/// In a place as wide as the terminal that a row was fitted to, each column of the digits
/// of what was received gets its cells.
pub proof fn law_fitted_hex_columns_have_room(buffer: Buffer, area: Rect, max_bytes: Option<u8>)
    requires
        area.x + area.width <= u16::MAX,
        crate::buffer::hex_view::hex_space(
            area.width as int,
            crate::buffer::tui::offset_digits(buffer.raw@.len() as int),
        ) >= 3,
        buffer.raw@.len() <= usize::MAX,
        (buffer.state.hex_bytes_per_line as int, buffer.state.hex_section_width as int)
            == crate::buffer::tui::hex_fit(
            area.width as int,
            buffer.raw@.len() as int,
            max_bytes,
        ),
    ensures
        buffer.has_room_for_hex(area),
{
    let digits = crate::buffer::tui::offset_digits(buffer.raw@.len() as int);
    crate::buffer::hex_view::law_hex_row_fits(area.width as int, digits, max_bytes);
    reveal_with_fuel(taken, 9);
}

} // verus!
