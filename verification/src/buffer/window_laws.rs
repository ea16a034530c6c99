//! What holds of the part of the lines that is on the screen.

use vstd::prelude::*;

use crate::buffer::buf_line::BufLine;
use crate::buffer::tui::{Buffer, LineKey};

verus! {

/// The top line is the one that the first row on the screen belongs to; as many of its rows
/// are cut off as lie above that row.
pub proof fn law_top_line(keys: Seq<LineKey>, scroll: int)
    requires
        scroll >= 0,
        scroll < crate::buffer::tui::rows_of(keys),
    ensures
        ({
            let top = crate::buffer::tui::top_line(keys, scroll);
            let above = crate::buffer::tui::rows_of(keys.take(top));
            &&& 0 <= top < keys.len()
            &&& above <= scroll < above + keys[top].height
            &&& crate::buffer::tui::rows_cut_off(keys, scroll) == scroll - above
        }),
{
    assert(keys.len() > 0);
    crate::buffer::tui::lemma_top_line(keys, scroll);
    let top = crate::buffer::tui::top_line(keys, scroll);
    crate::buffer::tui::lemma_rows_of_prefix(keys, top);
    if top + 1 == keys.len() {
        assert(keys.take(top + 1) =~= keys);
    }
}

/// Where each line takes one row, the lines on the screen are as many as fit, from the one
/// that was scrolled to on.
pub proof fn law_unwrapped_lines_on_the_screen(
    keys: Seq<LineKey>,
    port_lines: int,
    total: int,
    scroll: int,
    height: int,
)
    requires
        0 <= scroll,
        0 <= height < total,
        scroll + height <= keys.len(),
    ensures
        ({
            let (skip, take, cut) = crate::buffer::tui::window(
                keys,
                port_lines,
                total,
                scroll,
                height,
                false,
            );
            &&& crate::buffer::tui::part_of(keys, skip, take) == keys.subrange(
                scroll,
                scroll + height,
            )
            &&& cut == 0
        }),
{
}

/// If everything fits, everything is on the screen.
pub proof fn law_everything_is_on_the_screen(
    keys: Seq<LineKey>,
    port_lines: int,
    total: int,
    scroll: int,
    height: int,
    wrap: bool,
)
    requires
        port_lines <= height,
        total <= height,
    ensures
        ({
            let (skip, take, cut) = crate::buffer::tui::window(
                keys,
                port_lines,
                total,
                scroll,
                height,
                wrap,
            );
            &&& crate::buffer::tui::part_of(keys, skip, take) == keys
            &&& cut == 0
        }),
{
    assert(keys.subrange(0, keys.len() as int) =~= keys);
}

/// The hex view has as many rows as it takes to show every byte, and two more for its
/// header.
pub proof fn law_rows_of_the_hex_view(len: int, bytes_per_line: int, header: bool)
    requires
        0 <= len,
        0 < bytes_per_line,
        len + bytes_per_line + 2 <= usize::MAX,
    ensures
        ({
            let rows = crate::buffer::tui::hex_height(len, bytes_per_line, header) - (if header {
                2int
            } else {
                0
            });
            &&& rows >= 0
            &&& rows * bytes_per_line >= len
            &&& rows > 0 ==> (rows - 1) * bytes_per_line < len
        }),
{
    let rows = (len + bytes_per_line - 1) / bytes_per_line;
    vstd::arithmetic::div_mod::lemma_fundamental_div_mod(len + bytes_per_line - 1, bytes_per_line);
    vstd::arithmetic::div_mod::lemma_mod_bound(len + bytes_per_line - 1, bytes_per_line);
    assert(0 <= rows <= len + bytes_per_line - 1) by (nonlinear_arith)
        requires
            rows == (len + bytes_per_line - 1) / bytes_per_line,
            len >= 0,
            bytes_per_line > 0,
    ;
    assert(rows * bytes_per_line == bytes_per_line * rows) by (nonlinear_arith);
    assert((rows - 1) * bytes_per_line == rows * bytes_per_line - bytes_per_line)
        by (nonlinear_arith);
}

/// A byte is looked for in the row that holds it.
pub proof fn law_row_of_a_byte(start: usize, bytes_per_line: u8)
    requires
        bytes_per_line > 0,
    ensures
        ({
            let row = crate::buffer::tui::hex_row_of(start, bytes_per_line) as int;
            row * bytes_per_line <= start < (row + 1) * bytes_per_line
        }),
{
    let row = crate::buffer::tui::hex_row_of(start, bytes_per_line) as int;
    vstd::arithmetic::div_mod::lemma_fundamental_div_mod(start as int, bytes_per_line as int);
    vstd::arithmetic::div_mod::lemma_mod_bound(start as int, bytes_per_line as int);
    assert(row * bytes_per_line == bytes_per_line * row) by (nonlinear_arith);
    assert((row + 1) * bytes_per_line == row * bytes_per_line + bytes_per_line)
        by (nonlinear_arith);
}

/// Out of the hex view one comes to a line that starts at or before the byte that was on top,
/// and is followed by one that does not start before it.
pub proof fn law_line_near_a_byte(lines: Seq<BufLine>, index: int)
    ensures
        match Buffer::line_near(lines, index, 0) {
            Some(n) => 0 <= n < lines.len() - 1 && lines[n].range_in_raw_buffer.start <= index
                <= lines[n + 1].range_in_raw_buffer.start,
            None => forall|n: int|
                0 <= n < lines.len() - 1 ==> !((#[trigger] lines[n]).range_in_raw_buffer.start
                    <= index <= lines[n + 1].range_in_raw_buffer.start),
        },
{
    lemma_line_near(lines, index, 0);
}

proof fn lemma_line_near(lines: Seq<BufLine>, index: int, from: int)
    requires
        0 <= from,
    ensures
        match Buffer::line_near(lines, index, from) {
            Some(n) => from <= n < lines.len() - 1 && lines[n].range_in_raw_buffer.start <= index
                <= lines[n + 1].range_in_raw_buffer.start,
            None => forall|n: int|
                from <= n < lines.len() - 1 ==> !((#[trigger] lines[n]).range_in_raw_buffer.start
                    <= index <= lines[n + 1].range_in_raw_buffer.start),
        },
    decreases lines.len() - from,
{
    if from + 1 < lines.len() {
        lemma_line_near(lines, index, from + 1);
    }
}

/// What can be scrolled through is the rows of the hex view, the rows of the lines where they
/// are wrapped, and the lines where they are not; nothing while nothing was received.
pub proof fn law_height_of_the_content(buffer: Buffer)
    requires
        crate::buffer::tui::rows_of(buffer.ordered()) <= usize::MAX,
        buffer.ordered().len() <= usize::MAX,
    ensures
        buffer.raw@.len() == 0 ==> buffer.content_height() == 0,
        buffer.raw@.len() > 0 && !buffer.rendering.hex_view ==> buffer.content_height() == (
        if buffer.rendering.wrap_text {
            crate::buffer::tui::rows_of(buffer.ordered()) as int
        } else {
            buffer.ordered().len() as int
        }),
        buffer.raw@.len() > 0 && buffer.rendering.hex_view ==> buffer.content_height()
            == crate::buffer::tui::hex_height(
            buffer.raw@.len() as int,
            buffer.state.hex_bytes_per_line as int,
            buffer.rendering.hex_view_header,
        ),
{
}

} // verus!
