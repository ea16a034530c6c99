//! Texts that are too long for their place, the line below the terminal, and clocks.

use vstd::prelude::*;
use vstd::string::*;

use crate::foreign::text_width;
use crate::line::Color;
use crate::serial::port_status::InnerPortStatus;
use crate::text::{concat2, concat3, number, padded};
use crate::tui::Rect;
use crate::view::menus::cut;

verus! {

/// Where a moving text stands: how many of its columns are hidden on the left, and
/// how many columns of it have come in on the right.
#[derive(Clone, Copy, Debug, PartialEq, Eq, Structural)]
pub struct Motion {
    pub hidden: u16,
    pub entered: u16,
    /// It starts over.
    pub restart: bool,
}

/// Where a text of some columns stands in a place of some columns after some steps.
/// One that is a little too long moves to its end and back, with a rest at either;
/// any other leaves on the left and comes in again on the right.
pub open spec fn motion(columns: u16, room: u16, step: i32) -> Motion {
    let over = columns - room;
    let still = Motion { hidden: 0, entered: 0, restart: false };
    if columns <= room || step <= 0 {
        still
    } else if over < 10 {
        if step <= over {
            Motion { hidden: step as u16, ..still }
        } else if step <= over + 3 {
            Motion { hidden: over as u16, ..still }
        } else if step <= 2 * over + 3 {
            Motion { hidden: (2 * over + 3 - step) as u16, ..still }
        } else {
            Motion { restart: true, ..still }
        }
    } else if step <= columns {
        Motion { hidden: step as u16, ..still }
    } else if step < columns + room {
        Motion { entered: (step - columns) as u16, ..still }
    } else {
        Motion { restart: true, ..still }
    }
}

fn move_text(columns: u16, room: u16, step: i32) -> (r: Motion)
    ensures
        r == motion(columns, room, step),
{
    let still = Motion { hidden: 0, entered: 0, restart: false };
    if columns <= room || step <= 0 {
        return still;
    }
    let over: i32 = columns as i32 - room as i32;
    if over < 10 {
        if step <= over {
            Motion { hidden: step as u16, entered: 0, restart: false }
        } else if step <= over + 3 {
            Motion { hidden: over as u16, entered: 0, restart: false }
        } else if step <= 2 * over + 3 {
            Motion { hidden: (2 * over + 3 - step) as u16, entered: 0, restart: false }
        } else {
            Motion { hidden: 0, entered: 0, restart: true }
        }
    } else if step <= columns as i32 {
        Motion { hidden: step as u16, entered: 0, restart: false }
    } else if step < columns as i32 + room as i32 {
        Motion { hidden: 0, entered: (step - columns as i32) as u16, restart: false }
    } else {
        Motion { hidden: 0, entered: 0, restart: true }
    }
}

/// Where a moving text is drawn: the place, and how many columns are hidden on the
/// left.
#[derive(Clone, Copy, Debug, PartialEq, Eq, Structural)]
pub struct MovedText {
    pub area: Rect,
    pub hidden: u16,
}

/// Where a moving text is drawn.
pub open spec fn moved_text(area: Rect, moved: Motion) -> MovedText {
    if moved.entered > 0 {
        MovedText {
            area: (Rect {
                width: (if moved.entered < area.width {
                    moved.entered
                } else {
                    area.width
                }),
                ..area
            }).shifted(crate::view::floored(area.width - moved.entered) as u16),
            hidden: 0,
        }
    } else {
        MovedText { area: area.shifted(0), hidden: moved.hidden }
    }
}

/// Draws a text in a row, moved on if it is too long. A text that has come all the way
/// round starts over.
pub fn render_scrolling_line(text: &str, area: Rect, scroll: &mut i32) -> (r: MovedText)
    requires
        area.height == 1,
    ensures
        ({
            let width = crate::view::menus::cut16(crate::foreign::columns(text@) as int);
            let moved = motion(width, area.width, *old(scroll));
            &&& r == moved_text(area, moved)
            &&& *final(scroll) == (if moved.restart {
                (-2) as i32
            } else {
                *old(scroll)
            })
        }),
{
    place_line(text_width(text), area, scroll)
}

/// Where a text of some columns is drawn in a row.
pub fn place_line(total_width: usize, area: Rect, scroll: &mut i32) -> (r: MovedText)
    ensures
        ({
            let width = crate::view::menus::cut16(total_width as int);
            let moved = motion(width, area.width, *old(scroll));
            &&& r == moved_text(area, moved)
            &&& *final(scroll) == (if moved.restart {
                (-2) as i32
            } else {
                *old(scroll)
            })
        }),
{
    let columns: u16 = cut(total_width);
    let moved = move_text(columns, area.width, *scroll);
    if moved.restart {
        *scroll = -2;
    }
    if moved.entered > 0 {
        let width: u16 = if moved.entered < area.width {
            moved.entered
        } else {
            area.width
        };
        let place = Rect { width, ..area };
        MovedText { area: place.shift(area.width.saturating_sub(moved.entered)), hidden: 0 }
    } else {
        MovedText { area: area.shift(0), hidden: moved.hidden }
    }
}

/// A text that fits is never moved, and one that does not is back at its start after
/// its last step.
pub proof fn law_fitting_text_rests(columns: u16, room: u16, step: i32)
    ensures
        columns <= room ==> motion(columns, room, step) == (Motion {
            hidden: 0,
            entered: 0,
            restart: false,
        }),
        motion(columns, room, step).hidden <= columns,
        motion(columns, room, step).entered > 0 ==> motion(columns, room, step).hidden == 0,
        columns > room && step > 2 * columns + 3 ==> motion(columns, room, step).restart,
{
}

/// Pairs of two characters, as many as fit.
pub open spec fn pattern(width: u16, swap: bool) -> Seq<char> {
    Seq::new(
        width as nat,
        |i: int|
            if (i % 2 == 0) != swap {
                '~'
            } else {
                '-'
            },
    )
}

/// The line below the terminal: tildes and dashes in turn.
pub fn repeating_pattern(width: u16, swap: bool) -> (r: String)
    ensures
        r@ == pattern(width, swap),
{
    let mut r = String::new();
    let mut i: u16 = 0;
    while i < width
        invariant
            i <= width,
            r@ == pattern(width, swap).take(i as int),
        decreases width - i,
    {
        let even = i % 2 == 0;
        let c = if even != swap {
            '~'
        } else {
            '-'
        };
        let ghost before = r@;
        r.push(c);
        assert(r@ =~= pattern(width, swap).take(i + 1));
        i += 1;
    }
    assert(r@ =~= pattern(width, swap));
    r
}

/// The color of the line below the terminal.
pub fn pattern_color(status: InnerPortStatus) -> (r: Color)
    ensures
        r == (match status {
            InnerPortStatus::Connected { .. } => Color::Green,
            InnerPortStatus::LentOut { .. } => Color::Yellow,
            _ => Color::Red,
        }),
{
    match status {
        InnerPortStatus::Connected { .. } => Color::Green,
        InnerPortStatus::LentOut { .. } => Color::Yellow,
        _ => Color::Red,
    }
}

/// A number with at least two digits.
pub open spec fn two_digits(n: nat) -> Seq<char> {
    crate::text::pad_left(crate::text::digits(n, 10), 2, '0')
}

/// Seconds as days, hours, minutes and seconds; days only if there are any.
pub open spec fn clock(secs: u64) -> Seq<char> {
    let day = (secs / 86400) as nat;
    let hour = ((secs % 86400) / 3600) as nat;
    let min = ((secs % 3600) / 60) as nat;
    let sec = (secs % 60) as nat;
    let time = two_digits(hour) + ":"@ + two_digits(min) + (":"@ + two_digits(sec));
    if day > 0 {
        two_digits(day) + ":"@ + time
    } else {
        time
    }
}

fn two(n: u64) -> (r: String)
    ensures
        r@ == two_digits(n as nat),
{
    let digits = number(n, 10);
    padded(digits.as_str(), 2, '0')
}

fn clock_text(secs: u64) -> (r: String)
    ensures
        r@ == clock(secs),
{
    let hour = two((secs % 86400) / 3600);
    let min = two((secs % 3600) / 60);
    let tail = concat2(":", two(secs % 60).as_str());
    let head = concat3(hour.as_str(), ":", min.as_str());
    let time = concat2(head.as_str(), tail.as_str());
    assert(time@ =~= hour@ + ":"@ + min@ + tail@);
    if secs / 86400 > 0 {
        concat3(two(secs / 86400).as_str(), ":", time.as_str())
    } else {
        time
    }
}

/// A clock on the screen: what it shows, its color, and how many rows it stands from
/// the top.
#[derive(Debug)]
pub struct Stopwatch {
    pub text: String,
    pub color: Color,
    pub row: u16,
}

/// What a clock on the screen is.
#[verifier::ext_equal]
pub struct StopwatchView {
    pub text: Seq<char>,
    pub color: Color,
    pub row: u16,
}

impl View for Stopwatch {
    type V = StopwatchView;

    open spec fn view(&self) -> StopwatchView {
        StopwatchView { text: self.text@, color: self.color, row: self.row }
    }
}

/// How long ago something was, in whole seconds.
pub open spec fn seconds_since(then: u64, now: u64) -> u64 {
    (if now > then {
        (now - then) / 1000
    } else {
        0
    }) as u64
}

/// The clocks for a connection: since when it is there, and since when it is lent.
pub open spec fn clocks(status: InnerPortStatus, now: u64) -> Seq<StopwatchView> {
    match status {
        InnerPortStatus::Connected { connected_at } => seq![
            StopwatchView {
                text: clock(seconds_since(connected_at, now)),
                color: Color::DarkGray,
                row: 0,
            },
        ],
        InnerPortStatus::LentOut { initial_connection_at, lent_out_at } => seq![
            StopwatchView {
                text: clock(seconds_since(initial_connection_at, now)),
                color: Color::DarkGray,
                row: 0,
            },
            StopwatchView {
                text: "("@ + clock(seconds_since(lent_out_at, now)) + ")"@,
                color: Color::Yellow,
                row: 1,
            },
        ],
        _ => seq![StopwatchView { text: "XX:XX:XX"@, color: Color::DarkGray, row: 0 }],
    }
}

/// What some clocks are.
pub open spec fn stopwatch_views(clocks: Seq<Stopwatch>) -> Seq<StopwatchView> {
    clocks.map_values(|c: Stopwatch| c@)
}

fn elapsed(then: u64, now: u64) -> (r: u64)
    ensures
        r == seconds_since(then, now),
{
    now.saturating_sub(then) / 1000
}

/// The clocks for a connection.
pub fn connection_timers(status: InnerPortStatus, now: u64) -> (r: Vec<Stopwatch>)
    ensures
        stopwatch_views(r@) == clocks(status, now),
{
    let mut r: Vec<Stopwatch> = Vec::new();
    match status {
        InnerPortStatus::Connected { connected_at } => {
            let text = clock_text(elapsed(connected_at, now));
            r.push(Stopwatch { text, color: Color::DarkGray, row: 0 });
        },
        InnerPortStatus::LentOut { initial_connection_at, lent_out_at } => {
            let text = clock_text(elapsed(initial_connection_at, now));
            r.push(Stopwatch { text, color: Color::DarkGray, row: 0 });
            let lent = clock_text(elapsed(lent_out_at, now));
            r.push(
                Stopwatch {
                    text: concat3("(", lent.as_str(), ")"),
                    color: Color::Yellow,
                    row: 1,
                },
            );
        },
        _ => {
            r.push(Stopwatch { text: "XX:XX:XX".to_owned(), color: Color::DarkGray, row: 0 });
        },
    }
    assert(stopwatch_views(r@) =~= clocks(status, now));
    r
}

} // verus!
