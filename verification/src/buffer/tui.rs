//! Which lines are on screen, and scrolling through them.

use vstd::prelude::*;

use crate::buffer::buf_line::{BufLine, LineType, RenderSettings, WIDEST_TERMINAL};
use crate::buffer::hex_view::{fit_row, hex_digits};
use crate::line::Line;
use crate::settings::{Defmt, Rendering, UserEcho};
use crate::time::Timestamp;
use crate::traits::interleave_by;

verus! {

/// A width and a height.
#[derive(Clone, Copy, Debug, PartialEq, Eq, Structural)]
pub struct Size {
    pub width: u16,
    pub height: u16,
}

/// Where the view of the received data stands.
#[derive(Clone, Copy, Debug, PartialEq, Eq, Structural)]
pub struct BufferState {
    pub vert_scroll: usize,
    pub stuck_to_bottom: bool,
    pub scrollbar_position: usize,
    pub scrollbar_length: usize,
    pub hex_bytes_per_line: u8,
    pub hex_section_width: u16,
}

/// Everything that was received and sent, and how it is being viewed.
pub struct Buffer {
    pub raw: Vec<u8>,
    pub rx: Vec<BufLine>,
    pub tx: Vec<BufLine>,
    pub rendering: Rendering,
    pub defmt_settings: Defmt,
    pub last_terminal_size: Size,
    pub state: BufferState,
    pub cached_combined_height: Option<usize>,
}

/// One of the lines of the port or of the user.
#[derive(Clone, Copy, Debug, PartialEq, Eq, Structural)]
pub struct LineKey {
    /// Where the line starts among the received bytes.
    pub start: usize,
    pub time: Timestamp,
    pub is_user: bool,
    /// The position among the lines of its kind.
    pub index: usize,
    /// How many rows it takes.
    pub height: u16,
}

/// Whether a line of the port comes before one of the user: by where it starts,
/// and then by time.
pub open spec fn port_first(port: LineKey, user: LineKey) -> bool {
    port.start < user.start || (port.start == user.start && port.time.not_after(user.time))
}

/// The lines of the port and of the user in the order they are shown in.
pub open spec fn merged(port: Seq<LineKey>, user: Seq<LineKey>) -> Seq<LineKey>
    decreases port.len() + user.len(),
{
    if port.len() == 0 {
        user
    } else if user.len() == 0 {
        port
    } else if port_first(port[0], user[0]) {
        seq![port[0]] + merged(port.drop_first(), user)
    } else {
        seq![user[0]] + merged(port, user.drop_first())
    }
}

/// The rows that some lines take.
pub open spec fn rows_of(keys: Seq<LineKey>) -> nat
    decreases keys.len(),
{
    if keys.len() == 0 {
        0
    } else {
        rows_of(keys.drop_last()) + keys.last().height as nat
    }
}

/// `n`, or the largest machine number if that is smaller.
pub open spec fn capped(n: int) -> int {
    if n <= usize::MAX {
        n
    } else {
        usize::MAX as int
    }
}

proof fn lemma_rows_concat(a: Seq<LineKey>, b: Seq<LineKey>)
    ensures
        rows_of(a + b) == rows_of(a) + rows_of(b),
    decreases b.len(),
{
    if b.len() == 0 {
        assert(a + b =~= a);
    } else {
        lemma_rows_concat(a, b.drop_last());
        assert((a + b).drop_last() =~= a + b.drop_last());
    }
}

proof fn lemma_interleaves_is_merged<F: Fn(&LineKey, &LineKey) -> bool>(
    port: Seq<LineKey>,
    user: Seq<LineKey>,
    decider: F,
    out: Seq<LineKey>,
)
    requires
        crate::traits::interleaves(port, user, decider, out),
        forall|a: &LineKey, b: &LineKey, r: bool| #[trigger]
            call_ensures(decider, (a, b), r) ==> r == port_first(*a, *b),
    ensures
        out == merged(port, user),
    decreases port.len() + user.len(),
{
    if port.len() > 0 && user.len() > 0 {
        assert(out =~= seq![out[0]] + out.drop_first());
        if port_first(port[0], user[0]) {
            lemma_interleaves_is_merged(port.drop_first(), user, decider, out.drop_first());
        } else {
            lemma_interleaves_is_merged(port, user.drop_first(), decider, out.drop_first());
        }
    }
}

/// The first line that reaches below row `scroll`; the last one if none does.
pub open spec fn top_line(keys: Seq<LineKey>, scroll: int) -> int
    decreases keys.len(),
{
    if keys.len() <= 1 {
        0
    } else if rows_of(keys.drop_last()) > scroll {
        top_line(keys.drop_last(), scroll)
    } else {
        keys.len() - 1
    }
}

/// How many rows of the top line are scrolled out of view.
pub open spec fn rows_cut_off(keys: Seq<LineKey>, scroll: int) -> int {
    let top = top_line(keys, scroll);
    if keys.len() == 0 {
        0
    } else {
        let reached = rows_of(keys.take(top + 1));
        let visible = if reached > scroll {
            reached - scroll
        } else {
            0
        };
        keys[top].height - visible
    }
}

/// How many of some lines are taken so that more than `rows` rows follow the
/// first of them; all of them if there are not that many.
pub open spec fn lines_to_fill(keys: Seq<LineKey>, rows: int) -> int
    decreases keys.len(),
{
    if keys.len() <= 1 {
        keys.len() as int
    } else if rows_of(keys.drop_last()) - keys[0].height > rows {
        lines_to_fill(keys.drop_last(), rows)
    } else {
        keys.len() as int
    }
}

pub proof fn lemma_top_line(keys: Seq<LineKey>, scroll: int)
    requires
        keys.len() > 0,
        scroll >= 0,
    ensures
        0 <= top_line(keys, scroll) < keys.len(),
        rows_of(keys.take(top_line(keys, scroll))) <= scroll,
        top_line(keys, scroll) + 1 < keys.len() ==> rows_of(keys.take(top_line(keys, scroll) + 1))
            > scroll,
    decreases keys.len(),
{
    let top = top_line(keys, scroll);
    if keys.len() == 1 {
        assert(keys.take(0) =~= Seq::<LineKey>::empty());
    } else if rows_of(keys.drop_last()) > scroll {
        let init = keys.drop_last();
        lemma_top_line(init, scroll);
        assert(init.take(top) =~= keys.take(top));
        assert(init.take(top + 1) =~= keys.take(top + 1));
        if top + 1 == init.len() {
            assert(init.take(top + 1) =~= init);
        }
    } else {
        assert(keys.take(top) =~= keys.drop_last());
    }
}

pub proof fn lemma_rows_of_prefix(keys: Seq<LineKey>, i: int)
    requires
        0 <= i <= keys.len(),
    ensures
        rows_of(keys.take(i)) <= rows_of(keys),
        i < keys.len() ==> rows_of(keys.take(i + 1)) == rows_of(keys.take(i)) + keys[i].height,
{
    lemma_rows_concat(keys.take(i), keys.skip(i));
    assert(keys.take(i) + keys.skip(i) =~= keys);
    if i < keys.len() {
        assert(keys.take(i + 1).drop_last() =~= keys.take(i));
        assert(keys.take(i + 1).last() == keys[i]);
    }
}

proof fn lemma_top_line_is(keys: Seq<LineKey>, scroll: int, i: int)
    requires
        0 <= i < keys.len(),
        rows_of(keys.take(i)) <= scroll,
        rows_of(keys.take(i + 1)) > scroll || i + 1 == keys.len(),
        scroll >= 0,
    ensures
        top_line(keys, scroll) == i,
{
    lemma_top_line(keys, scroll);
    let top = top_line(keys, scroll);
    if top < i {
        lemma_rows_of_prefix(keys.take(i), top + 1);
        assert(keys.take(i).take(top + 1) =~= keys.take(top + 1));
    } else if top > i {
        lemma_rows_of_prefix(keys.take(top), i + 1);
        assert(keys.take(top).take(i + 1) =~= keys.take(i + 1));
    }
}

proof fn lemma_lines_to_fill_is(keys: Seq<LineKey>, rows: int, n: int)
    requires
        0 < n <= keys.len(),
        rows_of(keys.take(n)) - keys[0].height > rows || n == keys.len(),
        forall|m: int|
            0 < m < n ==> rows_of(#[trigger] keys.take(m)) - keys[0].height <= rows,
    ensures
        lines_to_fill(keys, rows) == n,
    decreases keys.len(),
{
    if keys.len() > 1 {
        let init = keys.drop_last();
        assert(keys.take(keys.len() - 1) =~= init);
        if n == keys.len() {
            assert(rows_of(keys.take(keys.len() - 1)) - keys[0].height <= rows);
        } else {
            lemma_rows_of_prefix(init, n);
            assert(init.take(n) =~= keys.take(n));
            assert forall|m: int| 0 < m < n implies rows_of(#[trigger] init.take(m))
                - init[0].height <= rows by {
                assert(init.take(m) =~= keys.take(m));
            }
            lemma_lines_to_fill_is(init, rows, n);
        }
    }
}

/// Where scrolling by `up` rows leads, before it is brought into range.
pub open spec fn moved(scroll: int, up: i32, total: int) -> int {
    if up == i32::MAX {
        0
    } else if up == i32::MIN {
        total
    } else if up >= 0 {
        if scroll <= up {
            0
        } else {
            scroll - up
        }
    } else {
        capped(scroll - up)
    }
}

/// How many rows do not fit on screen.
pub open spec fn overhang(total: int, height: int) -> int {
    if total <= height {
        0
    } else {
        total - height
    }
}

/// The view after scrolling by `up` rows among `total`.
///
/// The largest and the smallest number lead to the very top and bottom. Who
/// reaches the bottom stays there.
pub open spec fn scrolled(state: BufferState, up: i32, total: int, height: int) -> BufferState {
    let to = moved(state.vert_scroll as int, up, total);
    let left = up > 0 && total > height;
    let reaches = !left && capped(to + height) >= total;
    let stuck = if left {
        false
    } else {
        reaches || (state.stuck_to_bottom && up != i32::MAX)
    };
    let position = if stuck {
        overhang(total, height)
    } else {
        to
    };
    BufferState {
        vert_scroll: position as usize,
        stuck_to_bottom: stuck,
        scrollbar_position: position as usize,
        scrollbar_length: overhang(total, height) as usize,
        ..state
    }
}

/// Whether a line of the port is shown.
pub open spec fn port_line_shown(line: BufLine, rendering: Rendering, defmt: Defmt) -> bool {
    match line.line_type {
        LineType::PortHidden(_) => rendering.show_hidden_lines,
        LineType::PortDefmt { level: Some(level), .. } => defmt.max_log_level.severity()
            <= level.severity(),
        _ => true,
    }
}

/// Whether a line of the user is shown.
pub open spec fn user_line_shown(line: BufLine, rendering: Rendering) -> bool {
    rendering.echo_user_input.shows(line.line_type.bytes_sent(), line.line_type.macro_sent())
}

/// The key of a line.
pub open spec fn key_of(line: BufLine, is_user: bool, index: int) -> LineKey {
    LineKey {
        start: line.range_in_raw_buffer.start,
        time: line.timestamp,
        is_user,
        index: index as usize,
        height: line.rendered_line_height,
    }
}

/// The lines of the port that are shown.
pub open spec fn port_keys(lines: Seq<BufLine>, rendering: Rendering, defmt: Defmt) -> Seq<LineKey>
    decreases lines.len(),
{
    if lines.len() == 0 {
        Seq::empty()
    } else {
        let init = port_keys(lines.drop_last(), rendering, defmt);
        if port_line_shown(lines.last(), rendering, defmt) {
            init.push(key_of(lines.last(), false, lines.len() - 1))
        } else {
            init
        }
    }
}

/// The lines of the user that are shown.
pub open spec fn user_keys(lines: Seq<BufLine>, rendering: Rendering) -> Seq<LineKey>
    decreases lines.len(),
{
    if lines.len() == 0 {
        Seq::empty()
    } else {
        let init = user_keys(lines.drop_last(), rendering);
        if user_line_shown(lines.last(), rendering) {
            init.push(key_of(lines.last(), true, lines.len() - 1))
        } else {
            init
        }
    }
}

/// The rows of `len` bytes in the hex view.
pub open spec fn hex_height(len: int, bytes_per_line: int, header: bool) -> int {
    capped(
        (if bytes_per_line == 0 {
            usize::MAX as int
        } else {
            (len + bytes_per_line - 1) / bytes_per_line
        }) + (if header {
            2int
        } else {
            0int
        }),
    )
}

impl Buffer {
    /// All lines that are shown, in order.
    pub open spec fn ordered(&self) -> Seq<LineKey> {
        if self.rendering.echo_user_input is Off {
            port_keys(self.rx@, self.rendering, self.defmt_settings)
        } else {
            merged(
                port_keys(self.rx@, self.rendering, self.defmt_settings),
                user_keys(self.tx@, self.rendering),
            )
        }
    }

    /// The number of rows that can be shown.
    pub open spec fn content_height(&self) -> int {
        if self.raw@.len() == 0 {
            0
        } else if self.rendering.hex_view {
            hex_height(
                self.raw@.len() as int,
                self.state.hex_bytes_per_line as int,
                self.rendering.hex_view_header,
            )
        } else if self.rendering.wrap_text {
            capped(rows_of(self.ordered()) as int)
        } else {
            capped(self.ordered().len() as int)
        }
    }

    /// The number of rows that can be shown, as far as it is remembered.
    pub open spec fn known_height(&self) -> int {
        match self.cached_combined_height {
            Some(height) => height as int,
            None => self.content_height(),
        }
    }

    /// What is remembered of the height once it has been asked for.
    pub open spec fn asked_height(&self) -> Option<usize> {
        match self.cached_combined_height {
            Some(height) => Some(height),
            None => if self.raw@.len() == 0 {
                None
            } else {
                Some(self.content_height() as usize)
            },
        }
    }

    /// Every line is valid, and the remembered height is the right one.
    pub open spec fn wf(&self) -> bool {
        &&& forall|i: int| 0 <= i < self.rx@.len() ==> (#[trigger] self.rx@[i]).wf()
        &&& forall|i: int| 0 <= i < self.tx@.len() ==> (#[trigger] self.tx@[i]).wf()
        &&& self.cached_combined_height matches Some(height) ==> height == self.content_height()
    }

    fn shown_port_lines(&self) -> (r: Vec<LineKey>)
        ensures
            r@ == port_keys(self.rx@, self.rendering, self.defmt_settings),
    {
        let mut keys: Vec<LineKey> = Vec::new();
        let mut i: usize = 0;
        while i < self.rx.len()
            invariant
                i <= self.rx.len(),
                keys@ == port_keys(self.rx@.take(i as int), self.rendering, self.defmt_settings),
            decreases self.rx.len() - i,
        {
            let line = &self.rx[i];
            let shown = match &line.line_type {
                LineType::PortHidden(_) => self.rendering.show_hidden_lines,
                LineType::PortDefmt { level: Some(level), .. } => {
                    self.defmt_settings.max_log_level.admits(*level)
                },
                _ => true,
            };
            assert(self.rx@.take(i + 1).drop_last() =~= self.rx@.take(i as int));
            if shown {
                keys.push(
                    LineKey {
                        start: line.range().start,
                        time: line.timestamp,
                        is_user: false,
                        index: i,
                        height: line.get_line_height(),
                    },
                );
            }
            i += 1;
        }
        assert(self.rx@.take(i as int) =~= self.rx@);
        keys
    }

    fn shown_user_lines(&self) -> (r: Vec<LineKey>)
        ensures
            r@ == user_keys(self.tx@, self.rendering),
    {
        let mut keys: Vec<LineKey> = Vec::new();
        let mut i: usize = 0;
        while i < self.tx.len()
            invariant
                i <= self.tx.len(),
                keys@ == user_keys(self.tx@.take(i as int), self.rendering),
            decreases self.tx.len() - i,
        {
            let line = &self.tx[i];
            let shown = self.rendering.echo_user_input.filter_user_line(
                line.line_type.is_bytes(),
                line.line_type.is_macro(),
            );
            assert(self.tx@.take(i + 1).drop_last() =~= self.tx@.take(i as int));
            if shown {
                keys.push(
                    LineKey {
                        start: line.range().start,
                        time: line.timestamp,
                        is_user: true,
                        index: i,
                        height: line.get_line_height(),
                    },
                );
            }
            i += 1;
        }
        assert(self.tx@.take(i as int) =~= self.tx@);
        keys
    }

    /// All lines that are shown, in order.
    pub fn buflines(&self) -> (r: Vec<LineKey>)
        ensures
            r@ == self.ordered(),
    {
        let port = self.shown_port_lines();
        let echo_off = match self.rendering.echo_user_input {
            UserEcho::Off => true,
            _ => false,
        };
        if echo_off {
            return port;
        }
        let user = self.shown_user_lines();
        let decider = |a: &LineKey, b: &LineKey| -> (r: bool)
            ensures
                r == port_first(*a, *b),
            {
                a.start < b.start || (a.start == b.start && a.time.is_not_after(b.time))
            };
        let out = interleave_by(port.as_slice(), user.as_slice(), decider);
        proof {
            lemma_interleaves_is_merged(port@, user@, decider, out@);
        }
        out
    }

    /// The number of rows that can be shown, whether text is wrapped or not.
    ///
    /// It is remembered until it is invalidated.
    pub fn combined_height(&mut self) -> (r: usize)
        ensures
            r == old(self).known_height(),
            *final(self) == (Buffer { cached_combined_height: old(self).asked_height(), ..*old(self) }),
    {
        match self.cached_combined_height {
            Some(cached) => {
                return cached;
            },
            None => (),
        }
        if self.raw.len() == 0 {
            return 0;
        }
        let result: usize = if self.rendering.hex_view {
            let header_margin: usize = if self.rendering.hex_view_header {
                2
            } else {
                0
            };
            let per: usize = self.state.hex_bytes_per_line as usize;
            let rows: usize = if per == 0 {
                usize::MAX
            } else {
                proof {
                    crate::buffer::hex_view::lemma_ceil_div(self.raw@.len() as int, per as int);
                    assert(self.raw@.len() % (per as nat) != 0 ==> self.raw@.len() / (per as nat)
                        < self.raw@.len()) by (nonlinear_arith)
                        requires
                            per > 0,
                    ;
                }
                if self.raw.len() % per == 0 {
                    self.raw.len() / per
                } else {
                    self.raw.len() / per + 1
                }
            };
            rows.saturating_add(header_margin)
        } else {
            let keys = self.buflines();
            if self.rendering.wrap_text {
                sum_heights(&keys)
            } else {
                keys.len()
            }
        };
        self.cached_combined_height = Some(result);
        result
    }

    /// Forgets the height.
    pub fn invalidate_height_cache(&mut self)
        ensures
            *final(self) == (Buffer { cached_combined_height: None, ..*old(self) }),
    {
        self.cached_combined_height = None;
    }

    /// The number of lines from the port.
    pub fn port_lines_len(&self) -> (r: usize)
        ensures
            r == self.rx@.len(),
    {
        self.rx.len()
    }

    /// Scrolls by a number of rows: up if it is positive, down if it is negative.
    ///
    /// With zero the view is only brought into range.
    pub fn scroll_by(&mut self, up: i32)
        ensures
            *final(self) == (Buffer {
                cached_combined_height: old(self).asked_height(),
                state: scrolled(
                    old(self).state,
                    up,
                    old(self).known_height(),
                    old(self).last_terminal_size.height as int,
                ),
                ..*old(self)
            }),
    {
        let total_lines: usize = self.combined_height();
        if up == i32::MAX {
            self.state.vert_scroll = 0;
            self.state.stuck_to_bottom = false;
        } else if up == i32::MIN {
            self.state.vert_scroll = total_lines;
        } else if up > 0 {
            self.state.vert_scroll = self.state.vert_scroll.saturating_sub(up as usize);
        } else if up < 0 {
            self.state.vert_scroll = self.state.vert_scroll.saturating_add((-up) as usize);
        }
        let height: usize = self.last_terminal_size.height as usize;
        let more_lines_than_height = total_lines > height;
        if up > 0 && more_lines_than_height {
            self.state.stuck_to_bottom = false;
        } else if self.state.vert_scroll.saturating_add(height) >= total_lines {
            self.state.vert_scroll = total_lines;
            self.state.stuck_to_bottom = true;
        }
        if self.state.stuck_to_bottom {
            self.state.vert_scroll = total_lines.saturating_sub(height);
        }
        self.state.scrollbar_position = self.state.vert_scroll;
        self.state.scrollbar_length = total_lines.saturating_sub(height);
    }

    /// Scrolls up by a page less two rows.
    pub fn scroll_page_up(&mut self)
        requires
            old(self).last_terminal_size.height >= 2,
        ensures
            *final(self) == (Buffer {
                cached_combined_height: old(self).asked_height(),
                state: scrolled(
                    old(self).state,
                    (old(self).last_terminal_size.height - 2) as i32,
                    old(self).known_height(),
                    old(self).last_terminal_size.height as int,
                ),
                ..*old(self)
            }),
    {
        let amount: u16 = self.last_terminal_size.height - 2;
        self.scroll_by(amount as i32);
    }

    /// Scrolls down by a page less two rows.
    pub fn scroll_page_down(&mut self)
        requires
            old(self).last_terminal_size.height >= 2,
        ensures
            *final(self) == (Buffer {
                cached_combined_height: old(self).asked_height(),
                state: scrolled(
                    old(self).state,
                    (2 - old(self).last_terminal_size.height) as i32,
                    old(self).known_height(),
                    old(self).last_terminal_size.height as int,
                ),
                ..*old(self)
            }),
    {
        let amount: u16 = self.last_terminal_size.height - 2;
        let amount: i32 = -(amount as i32);
        self.scroll_by(amount);
    }
}

fn sum_heights(keys: &Vec<LineKey>) -> (r: usize)
    ensures
        r == capped(rows_of(keys@) as int),
{
    let mut sum: usize = 0;
    let mut i: usize = 0;
    while i < keys.len()
        invariant
            i <= keys.len(),
            sum == capped(rows_of(keys@.take(i as int)) as int),
        decreases keys.len() - i,
    {
        assert(keys@.take(i + 1).drop_last() =~= keys@.take(i as int));
        sum = sum.saturating_add(keys[i].height as usize);
        i += 1;
    }
    assert(keys@.take(i as int) =~= keys@);
    sum
}

/// Scrolling keeps the view within the rows there are, and a view that is stuck
/// to the bottom shows the last row.
pub proof fn law_scroll_stays_in_range(state: BufferState, up: i32, total: int, height: int)
    requires
        0 <= total <= usize::MAX,
        0 <= height <= u16::MAX,
        state.vert_scroll <= overhang(total, height),
    ensures
        scrolled(state, up, total, height).vert_scroll <= overhang(total, height),
        scrolled(state, up, total, height).stuck_to_bottom ==> scrolled(
            state,
            up,
            total,
            height,
        ).vert_scroll == overhang(total, height),
{
}

/// Scrolling to the very bottom shows the last row and stays there.
pub proof fn law_scroll_to_bottom(state: BufferState, total: int, height: int)
    requires
        0 <= total <= usize::MAX,
        0 <= height <= u16::MAX,
    ensures
        scrolled(state, i32::MIN, total, height).stuck_to_bottom,
        scrolled(state, i32::MIN, total, height).vert_scroll == overhang(total, height),
        forall|more: int|
            total <= more <= usize::MAX ==> (#[trigger] scrolled(
                scrolled(state, i32::MIN, total, height),
                0,
                more,
                height,
            )).vert_scroll == overhang(more, height),
{
}

/// Scrolling to the very top shows the first row.
pub proof fn law_scroll_to_top(state: BufferState, total: int, height: int)
    requires
        0 <= total <= usize::MAX,
        0 <= height <= u16::MAX,
    ensures
        scrolled(state, i32::MAX, total, height).vert_scroll == 0,
{
}


/// Which lines are on screen: how many are skipped, how many follow, and how many
/// rows of the first are scrolled out of view.
pub open spec fn window(
    keys: Seq<LineKey>,
    port_lines: int,
    total: int,
    scroll: int,
    height: int,
    wrap: bool,
) -> (int, int, int) {
    if height < port_lines || height < total {
        if wrap {
            let top = top_line(keys, scroll);
            (top, lines_to_fill(keys.skip(top), height), rows_cut_off(keys, scroll))
        } else {
            (scroll, height, 0)
        }
    } else {
        (0, keys.len() as int, 0)
    }
}

/// The part of a list that is left after skipping some and taking others.
pub open spec fn part_of(keys: Seq<LineKey>, skip: int, take: int) -> Seq<LineKey> {
    let start = if skip <= keys.len() {
        skip
    } else {
        keys.len() as int
    };
    let end = if start + take <= keys.len() {
        start + take
    } else {
        keys.len() as int
    };
    keys.subrange(start, end)
}

/// Looks for the top line, and how many of its rows are scrolled out of view.
fn find_top(keys: &Vec<LineKey>, vert_scroll: usize) -> (r: (usize, u16))
    ensures
        r.0 == top_line(keys@, vert_scroll as int),
        r.1 == rows_cut_off(keys@, vert_scroll as int),
        r.0 <= keys@.len(),
{
    if keys.len() == 0 {
        return (0, 0);
    }
    let mut index: usize = 0;
    let mut above: usize = 0;
    assert(keys@.take(0) =~= Seq::<LineKey>::empty());
    while index < keys.len() - 1 && vert_scroll - above >= keys[index].height as usize
        invariant
            index < keys@.len(),
            above == rows_of(keys@.take(index as int)),
            above <= vert_scroll,
        decreases keys@.len() - index,
    {
        proof {
            lemma_rows_of_prefix(keys@, index as int);
        }
        above = above + keys[index].height as usize;
        index += 1;
    }
    proof {
        lemma_rows_of_prefix(keys@, index as int);
        lemma_top_line_is(keys@, vert_scroll as int, index as int);
    }
    let current: u16 = keys[index].height;
    let below: usize = vert_scroll - above;
    let cut: u16 = if below < current as usize {
        below as u16
    } else {
        current
    };
    (index, cut)
}

/// Counts how many lines from `from` on fill the screen.
fn count_to_fill(keys: &Vec<LineKey>, from: usize, rows: u16) -> (r: usize)
    requires
        from <= keys@.len(),
    ensures
        r == lines_to_fill(keys@.skip(from as int), rows as int),
        from + r <= keys@.len(),
{
    let ghost rest = keys@.skip(from as int);
    if from == keys.len() {
        return 0;
    }
    let mut taken: usize = 1;
    let mut below: usize = 0;
    proof {
        assert(rest.take(1).drop_last() =~= Seq::<LineKey>::empty());
        assert(rest.take(1).last() == rest[0]);
        assert(rows_of(rest.take(1).drop_last()) == 0);
    }
    while below <= rows as usize && taken < keys.len() - from
        invariant
            rest == keys@.skip(from as int),
            1 <= taken <= rest.len(),
            from + taken <= keys@.len(),
            below == rows_of(rest.take(taken as int)) - rest[0].height,
            below <= rows + u16::MAX,
            forall|m: int|
                0 < m < taken ==> rows_of(#[trigger] rest.take(m)) - rest[0].height <= rows,
        decreases rest.len() - taken,
    {
        proof {
            lemma_rows_of_prefix(rest, taken as int);
            assert(rest[taken as int] == keys@[from + taken]);
        }
        below = below + keys[from + taken].height as usize;
        taken += 1;
    }
    proof {
        lemma_lines_to_fill_is(rest, rows as int, taken as int);
    }
    taken
}

impl Buffer {
    /// The lines on screen, and how many rows of the first are scrolled out of view.
    pub open spec fn visible(&self) -> (Seq<LineKey>, int) {
        let (skip, take, cut) = window(
            self.ordered(),
            self.rx@.len() as int,
            self.known_height(),
            self.state.vert_scroll as int,
            self.last_terminal_size.height as int,
            self.rendering.wrap_text,
        );
        (part_of(self.ordered(), skip, take), cut)
    }

    /// What is remembered of the height once the lines on screen have been asked for.
    pub open spec fn height_after_view(&self) -> Option<usize> {
        if self.last_terminal_size.height < self.rx@.len() {
            self.cached_combined_height
        } else {
            self.asked_height()
        }
    }

    /// The lines on screen, and how many rows of the first are scrolled out of view.
    pub fn visible_buflines(&mut self) -> (r: (Vec<LineKey>, u16))
        ensures
            r.0@ == old(self).visible().0,
            r.1 == old(self).visible().1,
            *final(self) == (Buffer {
                cached_combined_height: old(self).height_after_view(),
                ..*old(self)
            }),
    {
        let height: u16 = self.last_terminal_size.height;
        let area_height: usize = height as usize;
        let more_lines_than_height = area_height < self.rx.len() || area_height
            < self.combined_height();
        let keys = self.buflines();
        let mut skip: usize = 0;
        let mut take: usize = keys.len();
        let mut wrapped_scroll: u16 = 0;
        if more_lines_than_height {
            if self.rendering.wrap_text {
                let (top, cut) = find_top(&keys, self.state.vert_scroll);
                skip = top;
                take = count_to_fill(&keys, top, height);
                wrapped_scroll = cut;
            } else {
                skip = self.state.vert_scroll;
                take = area_height;
            }
        }
        let start: usize = if skip <= keys.len() {
            skip
        } else {
            keys.len()
        };
        let end: usize = if keys.len() - start >= take {
            start + take
        } else {
            keys.len()
        };
        let mut shown: Vec<LineKey> = Vec::new();
        let mut i: usize = start;
        while i < end
            invariant
                start <= i <= end <= keys@.len(),
                shown@ =~= keys@.subrange(start as int, i as int),
            decreases end - i,
        {
            shown.push(keys[i]);
            i += 1;
        }
        (shown, wrapped_scroll)
    }

    /// The line that a key stands for.
    pub open spec fn line_at(&self, key: LineKey) -> BufLine {
        if key.is_user {
            self.tx@[key.index as int]
        } else {
            self.rx@[key.index as int]
        }
    }

    /// The lines on screen as they are shown, and how many rows of the first are
    /// scrolled out of view.
    pub fn lines(&mut self) -> (r: (Vec<Line>, u16))
        requires
            old(self).wf(),
        ensures
            r.0@.len() == old(self).visible().0.len(),
            forall|i: int|
                0 <= i < r.0@.len() ==> (#[trigger] r.0@[i])@ == old(self).line_at(
                    old(self).visible().0[i],
                ).shown(old(self).rendering, old(self).defmt_settings),
            r.1 == old(self).visible().1,
            *final(self) == (Buffer {
                cached_combined_height: old(self).height_after_view(),
                ..*old(self)
            }),
    {
        let (keys, wrapped_scroll) = self.visible_buflines();
        let mut lines: Vec<Line> = Vec::new();
        let mut i: usize = 0;
        proof {
            assert(self.rx.len() == self.rx@.len() && self.tx.len() == self.tx@.len());
            lemma_visible_keys(*old(self));
        }
        while i < keys.len()
            invariant
                i <= keys.len(),
                keys@ == old(self).visible().0,
                old(self).wf(),
                *self == (Buffer {
                    cached_combined_height: old(self).height_after_view(),
                    ..*old(self)
                }),
                forall|j: int|
                    0 <= j < keys@.len() ==> valid_key(#[trigger] keys@[j], self.rx@, self.tx@),
                lines@.len() == i,
                forall|j: int|
                    0 <= j < i ==> (#[trigger] lines@[j])@ == old(self).line_at(keys@[j]).shown(
                        old(self).rendering,
                        old(self).defmt_settings,
                    ),
            decreases keys.len() - i,
        {
            let key = keys[i];
            assert(valid_key(keys@[i as int], self.rx@, self.tx@));
            let line = if key.is_user {
                &self.tx[key.index]
            } else {
                &self.rx[key.index]
            };
            lines.push(line.as_line(self.line_render_settings()));
            i += 1;
        }
        (lines, wrapped_scroll)
    }

    /// The settings that lines are shown by.
    pub fn line_render_settings(&self) -> (r: RenderSettings<'_>)
        ensures
            *r.rendering == self.rendering,
            *r.defmt == self.defmt_settings,
    {
        RenderSettings { rendering: &self.rendering, defmt: &self.defmt_settings }
    }

    /// Determines anew how many rows each line takes, and returns their sum.
    pub fn update_wrapped_line_heights(&mut self) -> (r: usize)
        requires
            forall|i: int| 0 <= i < old(self).rx@.len() ==> (#[trigger] old(self).rx@[i]).wf(),
            forall|i: int| 0 <= i < old(self).tx@.len() ==> (#[trigger] old(self).tx@[i]).wf(),
            old(self).last_terminal_size.width <= WIDEST_TERMINAL,
        ensures
            resized(
                old(self).rx@,
                final(self).rx@,
                old(self).last_terminal_size.width,
                old(self).rendering,
                old(self).defmt_settings,
            ),
            resized(
                old(self).tx@,
                final(self).tx@,
                old(self).last_terminal_size.width,
                old(self).rendering,
                old(self).defmt_settings,
            ),
            *final(self) == (Buffer { rx: final(self).rx, tx: final(self).tx, ..*old(self) }),
            r == capped(
                capped(
                    heights_at(
                        old(self).rx@,
                        old(self).last_terminal_size.width,
                        old(self).rendering,
                        old(self).defmt_settings,
                    ),
                ) + capped(
                    heights_at(
                        old(self).tx@,
                        old(self).last_terminal_size.width,
                        old(self).rendering,
                        old(self).defmt_settings,
                    ),
                ),
            ),
    {
        let rendering = self.rendering;
        let defmt = self.defmt_settings;
        let settings = RenderSettings { rendering: &rendering, defmt: &defmt };
        let width: u16 = self.last_terminal_size.width;
        let rx_sum: usize = resize_lines(&mut self.rx, width, settings);
        let tx_sum: usize = resize_lines(&mut self.tx, width, settings);
        rx_sum.saturating_add(tx_sum)
    }

    /// How many digits an offset is shown with.
    pub fn buffer_hex_digits(&self) -> (r: u16)
        ensures
            r == offset_digits(self.raw@.len() as int),
    {
        let digits: usize = hex_digits(self.raw.len());
        if digits < 8 {
            8
        } else {
            digits as u16
        }
    }

    /// Determines how many bytes fit into a row of the hex view. Where there is no
    /// room at all, nothing changes.
    pub fn determine_bytes_per_line(&mut self, max_bytes: Option<u8>)
        requires
            hex_fit(
                old(self).last_terminal_size.width as int,
                old(self).raw@.len() as int,
                max_bytes,
            ).0 <= u8::MAX,
        ensures
            *final(self) == (Buffer {
                state: with_hex_fit(
                    old(self).state,
                    old(self).last_terminal_size.width as int,
                    old(self).raw@.len() as int,
                    max_bytes,
                ),
                ..*old(self)
            }),
    {
        let buffer_hex_digits: u16 = self.buffer_hex_digits();
        let remaining_width: u16 = self.last_terminal_size.width.saturating_sub(2).saturating_sub(
            buffer_hex_digits,
        ).saturating_sub(1).saturating_sub(2).saturating_sub(1).saturating_sub(1);
        if remaining_width == 0 {
            return ;
        }
        let (bytes_per_line, hex_area_width) = fit_row(remaining_width, max_bytes);
        self.state.hex_bytes_per_line = bytes_per_line;
        self.state.hex_section_width = hex_area_width;
    }

    /// Takes over a new size of the terminal, of which two rows are not for lines.
    pub fn update_terminal_size(&mut self, terminal_size: Size)
        requires
            forall|i: int| 0 <= i < old(self).rx@.len() ==> (#[trigger] old(self).rx@[i]).wf(),
            forall|i: int| 0 <= i < old(self).tx@.len() ==> (#[trigger] old(self).tx@[i]).wf(),
            terminal_size.width <= WIDEST_TERMINAL,
            hex_fit(
                terminal_size.width as int,
                old(self).raw@.len() as int,
                old(self).rendering.bytes_per_line,
            ).0 <= u8::MAX,
        ensures
            resized(
                old(self).rx@,
                final(self).rx@,
                terminal_size.width,
                old(self).rendering,
                old(self).defmt_settings,
            ),
            resized(
                old(self).tx@,
                final(self).tx@,
                terminal_size.width,
                old(self).rendering,
                old(self).defmt_settings,
            ),
            final(self).last_terminal_size == (Size {
                width: terminal_size.width,
                height: overhang(terminal_size.height as int, 2) as u16,
            }),
            ({
                let before = Buffer {
                    rx: final(self).rx,
                    tx: final(self).tx,
                    last_terminal_size: final(self).last_terminal_size,
                    state: with_hex_fit(
                        old(self).state,
                        terminal_size.width as int,
                        old(self).raw@.len() as int,
                        old(self).rendering.bytes_per_line,
                    ),
                    ..*old(self)
                };
                *final(self) == (Buffer {
                    cached_combined_height: before.asked_height(),
                    state: scrolled(
                        before.state,
                        0,
                        before.known_height(),
                        before.last_terminal_size.height as int,
                    ),
                    ..before
                })
            }),
    {
        let mut terminal_size = terminal_size;
        terminal_size.height = terminal_size.height.saturating_sub(2);
        self.last_terminal_size = terminal_size;
        let _total: usize = self.update_wrapped_line_heights();
        self.determine_bytes_per_line(self.rendering.bytes_per_line);
        self.scroll_by(0);
    }

    /// Where the text view continues at row `scroll` of the hex view: the rows
    /// above the first line that starts at or before that row's first byte and is
    /// followed by one that does not start before it.
    pub open spec fn line_near(lines: Seq<BufLine>, index: int, n: int) -> Option<int>
        decreases lines.len() - n,
    {
        if n < 0 || n + 1 >= lines.len() {
            None
        } else if lines[n].range_in_raw_buffer.start <= index && index
            <= lines[n + 1].range_in_raw_buffer.start {
            Some(n)
        } else {
            Self::line_near(lines, index, n + 1)
        }
    }

    /// The view after switching into or out of the hex view; the setting has
    /// already changed.
    pub open spec fn hex_view_switched(&self) -> BufferState {
        let loose = BufferState { stuck_to_bottom: false, ..self.state };
        if self.raw@.len() == 0 {
            loose
        } else if !self.rendering.hex_view {
            match Self::line_near(
                self.rx@,
                self.state.vert_scroll * self.state.hex_bytes_per_line,
                0,
            ) {
                Some(n) => BufferState {
                    vert_scroll: capped(line_rows(self.rx@.take(n)) as int) as usize,
                    ..loose
                },
                None => scrolled(
                    loose,
                    i32::MIN,
                    self.known_height(),
                    self.last_terminal_size.height as int,
                ),
            }
        } else if self.visible().0.len() == 0 {
            loose
        } else {
            BufferState {
                vert_scroll: hex_row_of(
                    self.visible().0[0].start,
                    self.state.hex_bytes_per_line,
                ),
                ..loose
            }
        }
    }

    /// Keeps the place when the hex view is switched on or off.
    pub fn correct_hex_view_scroll(&mut self)
        requires
            old(self).state.vert_scroll * old(self).state.hex_bytes_per_line <= usize::MAX,
        ensures
            final(self).state == old(self).hex_view_switched(),
            *final(self) == (Buffer {
                state: final(self).state,
                cached_combined_height: final(self).cached_combined_height,
                ..*old(self)
            }),
            ({
                let cached = final(self).cached_combined_height;
                cached == old(self).cached_combined_height || cached == old(self).asked_height()
            }),
    {
        self.state.stuck_to_bottom = false;
        if self.raw.len() == 0 {
            return ;
        }
        if !self.rendering.hex_view {
            let closest_index: usize = self.state.vert_scroll
                * self.state.hex_bytes_per_line as usize;
            match self.find_line_near(closest_index) {
                Some(n) => {
                    self.state.vert_scroll = sum_line_heights(&self.rx, n);
                },
                None => {
                    proof {
                        assert(self.known_height() == old(self).known_height());
                    }
                    self.scroll_by(i32::MIN);
                },
            }
        } else {
            proof {
                assert(self.ordered() == old(self).ordered());
                assert(self.known_height() == old(self).known_height());
                assert(self.visible() == old(self).visible());
            }
            let (shown, _cut) = self.visible_buflines();
            if shown.len() == 0 {
                return ;
            }
            let start: usize = shown[0].start;
            let per: usize = self.state.hex_bytes_per_line as usize;
            self.state.vert_scroll = if per > 0 {
                start / per
            } else if start == 0 {
                0
            } else {
                usize::MAX
            };
        }
    }

    fn find_line_near(&self, index: usize) -> (r: Option<usize>)
        ensures
            match Self::line_near(self.rx@, index as int, 0) {
                Some(n) => r is Some && r->0 == n && 0 <= n < self.rx@.len(),
                None => r is None,
            },
    {
        let mut n: usize = 0;
        while n < self.rx.len() && self.rx.len() - n >= 2
            invariant
                n <= self.rx@.len(),
                Self::line_near(self.rx@, index as int, 0) == Self::line_near(
                    self.rx@,
                    index as int,
                    n as int,
                ),
            decreases self.rx@.len() - n,
        {
            if self.rx[n].range().start <= index && index <= self.rx[n + 1].range().start {
                return Some(n);
            }
            n += 1;
        }
        None
    }
}

/// The rows that some lines take.
pub open spec fn line_rows(lines: Seq<BufLine>) -> nat
    decreases lines.len(),
{
    if lines.len() == 0 {
        0
    } else {
        line_rows(lines.drop_last()) + lines.last().rendered_line_height as nat
    }
}

fn sum_line_heights(lines: &Vec<BufLine>, n: usize) -> (r: usize)
    requires
        n <= lines@.len(),
    ensures
        r == capped(line_rows(lines@.take(n as int)) as int),
{
    let mut sum: usize = 0;
    let mut i: usize = 0;
    while i < n
        invariant
            i <= n <= lines@.len(),
            sum == capped(line_rows(lines@.take(i as int)) as int),
        decreases n - i,
    {
        assert(lines@.take(i + 1).drop_last() =~= lines@.take(i as int));
        sum = sum.saturating_add(lines[i].get_line_height() as usize);
        i += 1;
    }
    sum
}

/// The row of the hex view that a byte is in. Where rows hold no bytes, every
/// byte but the first is beyond all rows.
pub open spec fn hex_row_of(start: usize, bytes_per_line: u8) -> usize {
    if bytes_per_line > 0 {
        start / (bytes_per_line as usize)
    } else if start == 0 {
        0
    } else {
        usize::MAX
    }
}

/// How many digits an offset into `len` bytes is shown with.
pub open spec fn offset_digits(len: int) -> int {
    let digits = crate::buffer::hex_view::hex_digit_count(len as nat) as int;
    if digits < 8 {
        8
    } else {
        digits
    }
}

/// How many bytes fit into a row, and how wide their hexadecimal part is.
pub open spec fn hex_fit(terminal_width: int, len: int, max_bytes: Option<u8>) -> (int, int) {
    crate::buffer::hex_view::fit_bytes(
        crate::buffer::hex_view::hex_space(terminal_width, offset_digits(len)),
        0,
        0,
        max_bytes,
    )
}

/// The view with its hex rows fitted to the terminal.
pub open spec fn with_hex_fit(
    state: BufferState,
    terminal_width: int,
    len: int,
    max_bytes: Option<u8>,
) -> BufferState {
    if crate::buffer::hex_view::hex_space(terminal_width, offset_digits(len)) == 0 {
        state
    } else {
        BufferState {
            hex_bytes_per_line: hex_fit(terminal_width, len, max_bytes).0 as u8,
            hex_section_width: hex_fit(terminal_width, len, max_bytes).1 as u16,
            ..state
        }
    }
}

/// The lines are the same but for their heights, which are those at `width`.
pub open spec fn resized(
    before: Seq<BufLine>,
    after: Seq<BufLine>,
    width: u16,
    rendering: Rendering,
    defmt: Defmt,
) -> bool {
    &&& after.len() == before.len()
    &&& forall|i: int|
        0 <= i < after.len() ==> (#[trigger] after[i]) == (BufLine {
            rendered_line_height: before[i].height_at(width, rendering, defmt) as u16,
            ..before[i]
        })
}

/// The sum of the heights of some lines at `width`.
pub open spec fn heights_at(
    lines: Seq<BufLine>,
    width: u16,
    rendering: Rendering,
    defmt: Defmt,
) -> int
    decreases lines.len(),
{
    if lines.len() == 0 {
        0
    } else {
        heights_at(lines.drop_last(), width, rendering, defmt) + lines.last().height_at(
            width,
            rendering,
            defmt,
        )
    }
}

proof fn lemma_heights_at_bound(lines: Seq<BufLine>, width: u16, rendering: Rendering, defmt: Defmt)
    ensures
        heights_at(lines, width, rendering, defmt) >= 0,
    decreases lines.len(),
{
    if lines.len() > 0 {
        lemma_heights_at_bound(lines.drop_last(), width, rendering, defmt);
    }
}

fn resize_lines(lines: &mut Vec<BufLine>, width: u16, settings: RenderSettings) -> (r: usize)
    requires
        forall|i: int| 0 <= i < old(lines)@.len() ==> (#[trigger] old(lines)@[i]).wf(),
        width <= WIDEST_TERMINAL,
    ensures
        resized(old(lines)@, final(lines)@, width, *settings.rendering, *settings.defmt),
        r == capped(heights_at(old(lines)@, width, *settings.rendering, *settings.defmt)),
{
    let mut sum: usize = 0;
    let mut i: usize = 0;
    let ghost before = lines@;
    while i < lines.len()
        invariant
            i <= lines@.len(),
            width <= WIDEST_TERMINAL,
            before == old(lines)@,
            lines@.len() == before.len(),
            forall|j: int| 0 <= j < before.len() ==> (#[trigger] before[j]).wf(),
            forall|j: int|
                0 <= j < i ==> (#[trigger] lines@[j]) == (BufLine {
                    rendered_line_height: before[j].height_at(
                        width,
                        *settings.rendering,
                        *settings.defmt,
                    ) as u16,
                    ..before[j]
                }),
            forall|j: int| i <= j < lines@.len() ==> (#[trigger] lines@[j]) == before[j],
            sum == capped(
                heights_at(
                    before.take(i as int),
                    width,
                    *settings.rendering,
                    *settings.defmt,
                ),
            ),
        decreases before.len() - i,
    {
        proof {
            assert(before.take(i + 1).drop_last() =~= before.take(i as int));
            assert(lines@[i as int] == before[i as int]);
            lemma_heights_at_bound(
                before.take(i as int),
                width,
                *settings.rendering,
                *settings.defmt,
            );
        }
        let height: usize = lines[i].update_line_height(width, settings);
        sum = sum.saturating_add(height);
        i += 1;
    }
    assert(before.take(i as int) =~= before);
    sum
}

/// Whether a key stands for one of the lines.
pub open spec fn valid_key(key: LineKey, rx: Seq<BufLine>, tx: Seq<BufLine>) -> bool {
    if key.is_user {
        key.index < tx.len()
    } else {
        key.index < rx.len()
    }
}

proof fn lemma_port_keys_valid(lines: Seq<BufLine>, rendering: Rendering, defmt: Defmt)
    requires
        lines.len() <= usize::MAX,
    ensures
        forall|j: int|
            0 <= j < port_keys(lines, rendering, defmt).len() ==> !(#[trigger] port_keys(
                lines,
                rendering,
                defmt,
            )[j]).is_user && port_keys(lines, rendering, defmt)[j].index < lines.len(),
    decreases lines.len(),
{
    if lines.len() > 0 {
        lemma_port_keys_valid(lines.drop_last(), rendering, defmt);
        let init = port_keys(lines.drop_last(), rendering, defmt);
        let all = port_keys(lines, rendering, defmt);
        assert forall|j: int| 0 <= j < all.len() implies !(#[trigger] all[j]).is_user
            && all[j].index < lines.len() by {
            if j < init.len() {
                assert(all[j] == init[j]);
            }
        }
    }
}

proof fn lemma_user_keys_valid(lines: Seq<BufLine>, rendering: Rendering)
    requires
        lines.len() <= usize::MAX,
    ensures
        forall|j: int|
            0 <= j < user_keys(lines, rendering).len() ==> (#[trigger] user_keys(
                lines,
                rendering,
            )[j]).is_user && user_keys(lines, rendering)[j].index < lines.len(),
    decreases lines.len(),
{
    if lines.len() > 0 {
        lemma_user_keys_valid(lines.drop_last(), rendering);
        let init = user_keys(lines.drop_last(), rendering);
        let all = user_keys(lines, rendering);
        assert forall|j: int| 0 <= j < all.len() implies (#[trigger] all[j]).is_user
            && all[j].index < lines.len() by {
            if j < init.len() {
                assert(all[j] == init[j]);
            }
        }
    }
}

proof fn lemma_merged_valid(
    port: Seq<LineKey>,
    user: Seq<LineKey>,
    rx: Seq<BufLine>,
    tx: Seq<BufLine>,
)
    requires
        forall|j: int| 0 <= j < port.len() ==> valid_key(#[trigger] port[j], rx, tx),
        forall|j: int| 0 <= j < user.len() ==> valid_key(#[trigger] user[j], rx, tx),
    ensures
        forall|j: int|
            0 <= j < merged(port, user).len() ==> valid_key(
                #[trigger] merged(port, user)[j],
                rx,
                tx,
            ),
    decreases port.len() + user.len(),
{
    if port.len() > 0 && user.len() > 0 {
        let all = merged(port, user);
        let (p, u) = if port_first(port[0], user[0]) {
            (port.drop_first(), user)
        } else {
            (port, user.drop_first())
        };
        lemma_merged_valid(p, u, rx, tx);
        assert forall|j: int| 0 <= j < all.len() implies valid_key(#[trigger] all[j], rx, tx) by {
            if j > 0 {
                assert(all[j] == merged(p, u)[j - 1]);
            }
        }
    }
}

proof fn lemma_visible_keys(b: Buffer)
    requires
        b.rx@.len() <= usize::MAX,
        b.tx@.len() <= usize::MAX,
    ensures
        forall|j: int|
            0 <= j < b.visible().0.len() ==> valid_key(#[trigger] b.visible().0[j], b.rx@, b.tx@),
{
    lemma_port_keys_valid(b.rx@, b.rendering, b.defmt_settings);
    lemma_user_keys_valid(b.tx@, b.rendering);
    lemma_merged_valid(
        port_keys(b.rx@, b.rendering, b.defmt_settings),
        user_keys(b.tx@, b.rendering),
        b.rx@,
        b.tx@,
    );
    let (skip, take, _cut) = window(
        b.ordered(),
        b.rx@.len() as int,
        b.known_height(),
        b.state.vert_scroll as int,
        b.last_terminal_size.height as int,
        b.rendering.wrap_text,
    );
    let keys = b.ordered();
    let start = if skip <= keys.len() {
        skip
    } else {
        keys.len() as int
    };
    assert forall|j: int| 0 <= j < b.visible().0.len() implies valid_key(
        #[trigger] b.visible().0[j],
        b.rx@,
        b.tx@,
    ) by {
        lemma_window_bounds(b);
        assert(b.visible().0[j] == keys[start + j]);
    }
}

proof fn lemma_window_bounds(b: Buffer)
    ensures
        ({
            let (skip, take, _cut) = window(
                b.ordered(),
                b.rx@.len() as int,
                b.known_height(),
                b.state.vert_scroll as int,
                b.last_terminal_size.height as int,
                b.rendering.wrap_text,
            );
            skip >= 0 && take >= 0
        }),
{
    let keys = b.ordered();
    let scroll = b.state.vert_scroll as int;
    if keys.len() > 0 {
        lemma_top_line(keys, scroll);
    }
    lemma_fill_bounds(keys.skip(top_line(keys, scroll)), b.last_terminal_size.height as int);
}

proof fn lemma_fill_bounds(keys: Seq<LineKey>, rows: int)
    ensures
        0 <= lines_to_fill(keys, rows) <= keys.len(),
        keys.len() > 0 ==> lines_to_fill(keys, rows) >= 1,
        lines_to_fill(keys, rows) < keys.len() ==> rows_of(keys.take(lines_to_fill(keys, rows)))
            - keys[0].height > rows,
    decreases keys.len(),
{
    if keys.len() > 1 {
        let init = keys.drop_last();
        lemma_fill_bounds(init, rows);
        let n = lines_to_fill(keys, rows);
        if rows_of(init) - keys[0].height > rows {
            assert(init.take(n) =~= keys.take(n));
            if n == init.len() {
                assert(init.take(n) =~= init);
            }
        }
    }
}

/// While text is wrapped, the lines on screen fill it: either rows enough are
/// there below the part of the top line that is scrolled out of view, or the last
/// line is on screen.
pub proof fn law_window_is_filled(
    keys: Seq<LineKey>,
    port_lines: int,
    total: int,
    scroll: int,
    height: int,
)
    requires
        keys.len() > 0,
        scroll >= 0,
        height >= 0,
        height < port_lines || height < total,
    ensures
        ({
            let (skip, take, cut) = window(keys, port_lines, total, scroll, height, true);
            let shown = part_of(keys, skip, take);
            &&& 0 <= cut <= keys[skip].height
            &&& rows_of(keys.take(skip)) <= scroll
            &&& rows_of(shown) - cut >= height || shown.last() == keys.last()
            &&& shown.len() > 0
        }),
{
    lemma_top_line(keys, scroll);
    let top = top_line(keys, scroll);
    let rest = keys.skip(top);
    lemma_fill_bounds(rest, height);
    lemma_rows_of_prefix(keys, top);
    let take = lines_to_fill(rest, height);
    assert(part_of(keys, top, take) =~= rest.take(take));
    assert(rest[0] == keys[top]);
    if take == rest.len() {
        assert(rest.take(take) =~= rest);
        assert(rest.last() == keys.last());
    }
}

} // verus!
