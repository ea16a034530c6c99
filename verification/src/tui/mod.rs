//! What is drawn, and where.

pub mod esp;
pub mod laws;
pub mod prompts;

use vstd::prelude::*;

use crate::buffer::tui::Size;

verus! {

/// The number of entries in front of those of a pop-up itself: the selectors of
/// the kind of menu and of the menu.
pub const POPUP_MENU_SELECTOR_COUNT: usize = 2;

/// A rectangle of cells.
#[derive(Clone, Copy, Debug, PartialEq, Eq, Structural)]
pub struct Rect {
    pub x: u16,
    pub y: u16,
    pub width: u16,
    pub height: u16,
}

/// The smaller of two numbers.
pub open spec fn smaller(a: int, b: int) -> int {
    if a <= b {
        a
    } else {
        b
    }
}

/// Where something of a length starts in the middle of something that starts
/// elsewhere, as far as there are coordinates.
pub open spec fn middle(start: u16, length: u16, whole: u16) -> u16 {
    smaller(
        if whole > length {
            start + (whole - length) / 2
        } else {
            start as int
        },
        u16::MAX as int,
    ) as u16
}

/// A rectangle of the given size in the middle of another, which it does not leave.
pub open spec fn centered(size: Size, parent: Rect) -> Rect {
    Rect {
        width: smaller(size.width as int, parent.width as int) as u16,
        height: smaller(size.height as int, parent.height as int) as u16,
        x: middle(parent.x, size.width, parent.width),
        y: middle(parent.y, size.height, parent.height),
    }
}

/// A rectangle of the given size in the middle of another, which it does not leave.
pub fn centered_rect_size(size: Size, parent: Rect) -> (r: Rect)
    ensures
        r == centered(size, parent),
{
    Rect {
        width: if size.width <= parent.width {
            size.width
        } else {
            parent.width
        },
        height: if size.height <= parent.height {
            size.height
        } else {
            parent.height
        },
        x: parent.x.saturating_add(parent.width.saturating_sub(size.width) / 2),
        y: parent.y.saturating_add(parent.height.saturating_sub(size.height) / 2),
    }
}

/// A centered rectangle lies within its parent, with the same room on both sides, up
/// to one cell.
pub proof fn law_centered_stays_inside(size: Size, parent: Rect)
    requires
        parent.x + parent.width <= u16::MAX,
        parent.y + parent.height <= u16::MAX,
    ensures
        ({
            let r = centered(size, parent);
            let right = parent.x + parent.width - (r.x + r.width);
            let below = parent.y + parent.height - (r.y + r.height);
            &&& parent.x <= r.x && parent.y <= r.y
            &&& r.x - parent.x <= right <= r.x - parent.x + 1
            &&& r.y - parent.y <= below <= r.y - parent.y + 1
        }),
{
}

} // verus!
