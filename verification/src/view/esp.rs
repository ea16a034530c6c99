//! What is shown while a device is worked on.

use vstd::prelude::*;
use vstd::string::*;

use crate::buffer::tui::Size;
use crate::line::{Alignment, Color, Style};
use crate::text::concat3;
use crate::tui::esp::{EspFlashHelper, EspPopup, Flashing};
use crate::tui::{centered_rect_size, Rect};
use crate::view::{note, shape, text, Draw, DrawView, Edges, Shape};

verus! {

/// The rows inside the box.
#[derive(Clone, Copy, Debug, PartialEq, Eq, Structural)]
pub struct EspRows {
    pub title: Rect,
    pub upper: Rect,
    /// The row that takes the room that is left.
    pub middle: Rect,
    pub chunks: Rect,
    pub bytes: Rect,
    pub bar: Rect,
}

/// A text in the middle of a place.
pub open spec fn plain_at(area: Rect, text: Seq<char>) -> DrawView {
    crate::view::text_at(area, text, Style::plain(), Alignment::Center)
}

/// What is shown of how far a file is.
pub open spec fn flashing_draws(flashing: Flashing, rows: EspRows) -> Seq<DrawView> {
    seq![
        plain_at(rows.title, flashing.target()),
        plain_at(rows.chunks, "Chunks: "@),
        plain_at(rows.bytes, flashing.chunks()),
        DrawView::Shape(
            Shape::Gauge {
                area: rows.bar,
                done: flashing.current_progress,
                whole: flashing.current_file_len,
                color: flashing.bar_color(),
            },
        ),
    ]
}

/// What is shown inside the box.
pub open spec fn inner_draws(popup: EspPopup, inner: Rect, rows: EspRows) -> Seq<DrawView> {
    match popup {
        EspPopup::Flashing(flashing) => flashing_draws(flashing, rows),
        EspPopup::Connecting => seq![
            plain_at(rows.upper, "Connecting to Espressif device..."@),
            crate::view::note_at(rows.chunks, "Try holding down BOOT/IO0"@, Color::DarkGray),
            crate::view::note_at(rows.bytes, "during connection if unreliable."@, Color::DarkGray),
        ],
        EspPopup::Connected { chip } => seq![
            plain_at(rows.middle, "Connected to "@ + chip@ + "!"@),
        ],
        EspPopup::Erasing { chip } => seq![
            plain_at(rows.middle, "Erasing "@ + chip@ + " flash contents..."@),
        ],
        EspPopup::DeviceInfo(_) => seq![DrawView::Shape(Shape::DeviceInfo { area: inner })],
    }
}

/// The box, and what is shown inside.
pub open spec fn esp_draws(popup: EspPopup, screen: Rect, rows: EspRows) -> Seq<DrawView> {
    let center = crate::tui::centered(Size { width: 60, height: 8 }, screen);
    seq![
        DrawView::Shape(Shape::Clear(center)),
        DrawView::Shape(Shape::Block { area: center, edges: Edges::All, color: popup.color() }),
        plain_at(Rect { height: 1, ..center }, popup.title()),
    ] + inner_draws(popup, center.inside(), rows)
}

fn plain(draws: &mut Vec<Draw>, area: Rect, content: String)
    ensures
        crate::view::draw_views(final(draws)@) == crate::view::draw_views(old(draws)@).push(
            plain_at(area, content@),
        ),
{
    text(draws, area, content, Style::new(), Alignment::Center);
}

fn draw_flashing(draws: &mut Vec<Draw>, flashing: &Flashing, rows: EspRows)
    ensures
        crate::view::draw_views(final(draws)@) == crate::view::draw_views(old(draws)@)
            + flashing_draws(*flashing, rows),
{
    plain(draws, rows.title, flashing.target_text());
    plain(draws, rows.chunks, "Chunks: ".to_owned());
    plain(draws, rows.bytes, flashing.chunks_text());
    shape(
        draws,
        Shape::Gauge {
            area: rows.bar,
            done: flashing.current_progress,
            whole: flashing.current_file_len,
            color: flashing.gauge_color(),
        },
    );
    assert(crate::view::draw_views(draws@) =~= crate::view::draw_views(old(draws)@)
        + flashing_draws(*flashing, rows));
}

fn draw_inner(draws: &mut Vec<Draw>, popup: &EspPopup, inner: Rect, rows: EspRows)
    ensures
        crate::view::draw_views(final(draws)@) == crate::view::draw_views(old(draws)@)
            + inner_draws(*popup, inner, rows),
{
    match popup {
        EspPopup::Flashing(flashing) => {
            draw_flashing(draws, flashing, rows);
        },
        EspPopup::Connecting => {
            plain(draws, rows.upper, "Connecting to Espressif device...".to_owned());
            note(draws, rows.chunks, "Try holding down BOOT/IO0", Color::DarkGray);
            note(draws, rows.bytes, "during connection if unreliable.", Color::DarkGray);
        },
        EspPopup::Connected { chip } => {
            plain(draws, rows.middle, concat3("Connected to ", chip.as_str(), "!"));
        },
        EspPopup::Erasing { chip } => {
            plain(draws, rows.middle, concat3("Erasing ", chip.as_str(), " flash contents..."));
        },
        EspPopup::DeviceInfo(_) => {
            shape(draws, Shape::DeviceInfo { area: inner });
        },
    }
    assert(crate::view::draw_views(draws@) =~= crate::view::draw_views(old(draws)@) + inner_draws(
        *popup,
        inner,
        rows,
    ));
}

impl EspFlashHelper {
    /// What is drawn of the work on a device, over everything else.
    pub fn render_espflash_popups(&self, screen: Rect, rows: EspRows) -> (r: Vec<Draw>)
        ensures
            crate::view::draw_views(r@) == (match self.popup {
                Some(popup) => esp_draws(popup, screen, rows),
                None => Seq::empty(),
            }),
    {
        let mut draws: Vec<Draw> = Vec::new();
        assert(crate::view::draw_views(draws@) =~= Seq::empty());
        if let Some(popup) = &self.popup {
            let center = centered_rect_size(Size { width: 60, height: 8 }, screen);
            shape(&mut draws, Shape::Clear(center));
            shape(
                &mut draws,
                Shape::Block { area: center, edges: Edges::All, color: popup.border_color() },
            );
            plain(&mut draws, Rect { height: 1, ..center }, popup.block_title());
            draw_inner(&mut draws, popup, center.block_inner(), rows);
            assert(crate::view::draw_views(draws@) =~= esp_draws(*popup, screen, rows));
        }
        draws
    }
}

} // verus!
