//! The frame around what was received in hexadecimal digits.

use vstd::prelude::*;
use vstd::string::*;

use crate::buffer::tui::Buffer;
use crate::line::{Alignment, Color, Style};
use crate::tui::Rect;
use crate::view::{shape, text, text_at, Draw, DrawView, Edges, Shape};

verus! {

/// The parts of the view. Without a header, the first four are empty.
#[derive(Clone, Copy, Debug, PartialEq, Eq, Structural)]
pub struct HexAreas {
    pub separator: Rect,
    pub offset_label: Rect,
    pub bytes_label: Rect,
    pub ascii_label: Rect,
    /// The whole view.
    pub area: Rect,
    /// The lines beside the digits.
    pub first_line: Rect,
    pub second_line: Rect,
    pub scrollbar: Rect,
    /// The columns between them.
    pub offsets: Rect,
    pub bytes: Rect,
    pub ascii: Rect,
}

/// A notice that there is more below.
pub open spec fn notice_draws(area: Rect, stuck_to_bottom: bool) -> Seq<DrawView> {
    if stuck_to_bottom {
        Seq::empty()
    } else {
        seq![
            DrawView::Shape(Shape::Clear(area.row_up(1))),
            text_at(
                area.row_up(1),
                "More... Shift+PgDn to jump to newest"@,
                Style::plain().with_fg(Color::DarkGray),
                Alignment::Left,
            ),
        ]
    }
}

/// Draws a notice that there is more below, unless the end is in sight.
pub fn scroll_notice(area: Rect, stuck_to_bottom: bool) -> (r: Vec<Draw>)
    ensures
        crate::view::draw_views(r@) == notice_draws(area, stuck_to_bottom),
{
    let mut draws: Vec<Draw> = Vec::new();
    if !stuck_to_bottom {
        let row = area.row_from_bottom(1);
        shape(&mut draws, Shape::Clear(row));
        text(
            &mut draws,
            row,
            "More... Shift+PgDn to jump to newest".to_owned(),
            Style::new().fg(Color::DarkGray),
            Alignment::Left,
        );
    }
    assert(crate::view::draw_views(draws@) =~= notice_draws(area, stuck_to_bottom));
    draws
}

/// The header: a label for each part, and a line below.
pub open spec fn header_draws(areas: HexAreas) -> Seq<DrawView> {
    seq![
        text_at(areas.offset_label, "Offset"@, Style::plain(), Alignment::Center),
        DrawView::Shape(Shape::ByteMarkers { area: areas.bytes_label }),
        text_at(areas.ascii_label, "ASCII"@, Style::plain(), Alignment::Center),
        DrawView::Shape(
            Shape::Block { area: areas.separator, edges: Edges::Top, color: Color::DarkGray },
        ),
    ]
}

/// The crossing of a line with the one below the header, if there are both.
pub open spec fn cross_draws(x: u16, areas: HexAreas) -> Seq<DrawView> {
    if x > 0 && areas.separator.y > 0 {
        seq![DrawView::Shape(Shape::Cross { x, y: areas.separator.y })]
    } else {
        Seq::empty()
    }
}

/// A line over the whole height.
pub open spec fn line_draw(x: u16, areas: HexAreas, color: Color) -> DrawView {
    DrawView::Shape(Shape::VerticalLine { x, height: areas.area.height, color })
}

/// The frame around the digits. Where there is more than can be seen, the last line
/// gives way to the scrollbar.
pub open spec fn frame_draws(header: bool, overflows: bool, areas: HexAreas) -> Seq<DrawView> {
    (if header {
        header_draws(areas)
    } else {
        Seq::empty()
    }) + seq![
        line_draw(areas.first_line.x, areas, Color::DarkGray),
        line_draw(areas.second_line.x, areas, Color::DarkGray),
    ] + (if overflows {
        seq![line_draw(areas.scrollbar.x, areas, Color::Reset)]
    } else {
        seq![line_draw(areas.scrollbar.x, areas, Color::DarkGray)] + cross_draws(
            areas.scrollbar.x,
            areas,
        )
    }) + cross_draws(areas.first_line.x, areas) + cross_draws(areas.second_line.x, areas)
}

fn draw_cross(draws: &mut Vec<Draw>, x: u16, areas: HexAreas)
    ensures
        crate::view::draw_views(final(draws)@) == crate::view::draw_views(old(draws)@)
            + cross_draws(x, areas),
{
    if x > 0 && areas.separator.y > 0 {
        shape(draws, Shape::Cross { x, y: areas.separator.y });
    }
    assert(crate::view::draw_views(draws@) =~= crate::view::draw_views(old(draws)@) + cross_draws(
        x,
        areas,
    ));
}

fn draw_line(draws: &mut Vec<Draw>, x: u16, areas: HexAreas, color: Color)
    ensures
        crate::view::draw_views(final(draws)@) == crate::view::draw_views(old(draws)@).push(
            line_draw(x, areas, color),
        ),
{
    shape(draws, Shape::VerticalLine { x, height: areas.area.height, color });
}

/// Draws the frame around the digits.
pub fn hex_frame(header: bool, overflows: bool, areas: HexAreas) -> (r: Vec<Draw>)
    ensures
        crate::view::draw_views(r@) == frame_draws(header, overflows, areas),
{
    let mut draws: Vec<Draw> = Vec::new();
    if header {
        text(
            &mut draws,
            areas.offset_label,
            "Offset".to_owned(),
            Style::new(),
            Alignment::Center,
        );
        shape(&mut draws, Shape::ByteMarkers { area: areas.bytes_label });
        text(
            &mut draws,
            areas.ascii_label,
            "ASCII".to_owned(),
            Style::new(),
            Alignment::Center,
        );
        shape(
            &mut draws,
            Shape::Block { area: areas.separator, edges: Edges::Top, color: Color::DarkGray },
        );
    }
    draw_line(&mut draws, areas.first_line.x, areas, Color::DarkGray);
    draw_line(&mut draws, areas.second_line.x, areas, Color::DarkGray);
    if overflows {
        draw_line(&mut draws, areas.scrollbar.x, areas, Color::Reset);
    } else {
        draw_line(&mut draws, areas.scrollbar.x, areas, Color::DarkGray);
        draw_cross(&mut draws, areas.scrollbar.x, areas);
    }
    draw_cross(&mut draws, areas.first_line.x, areas);
    draw_cross(&mut draws, areas.second_line.x, areas);
    assert(crate::view::draw_views(draws@) =~= frame_draws(header, overflows, areas));
    draws
}

impl Buffer {
    /// Draws the frame around the digits of what was received, and a notice if there is
    /// more below.
    pub fn render_hex(&mut self, areas: HexAreas) -> (r: Vec<Draw>)
        ensures
            crate::view::draw_views(r@) == frame_draws(
                old(self).rendering.hex_view_header,
                old(self).known_height() > areas.bytes.height,
                areas,
            ) + notice_draws(areas.area, old(self).state.stuck_to_bottom),
            *final(self) == (Buffer {
                cached_combined_height: old(self).asked_height(),
                ..*old(self)
            }),
    {
        let overflows = self.combined_height() > areas.bytes.height as usize;
        let mut draws = hex_frame(self.rendering.hex_view_header, overflows, areas);
        let mut notice = scroll_notice(areas.area, self.state.stuck_to_bottom);
        let ghost frame = draws@;
        let ghost more = notice@;
        draws.append(&mut notice);
        assert(crate::view::draw_views(draws@) =~= crate::view::draw_views(frame)
            + crate::view::draw_views(more));
        draws
    }
}

} // verus!
