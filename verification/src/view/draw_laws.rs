//! What holds of the screens, the menus and the list of keys.

use vstd::prelude::*;
use vstd::string::*;
use vstd::utf8::*;

use crate::app::{AppView, SettingsMenu};
use crate::line::{Color, Style, REVERSED};
use crate::serial::port_status::InnerPortStatus;
use crate::tui::Rect;
use crate::tui::esp::{EspPopup, EspProfile, Flashing};
use crate::view::esp::EspRows;
use crate::view::hex::HexAreas;
use crate::view::keybinds::EntryView;
use crate::view::ports::PortContext;
use crate::view::scroll::Motion;
use crate::view::terminal::TerminalContext;
use crate::view::{DrawView, Shape, TableId};

verus! {

/// What was received is drawn first, as digits if that is set; the clocks only if they are
/// asked for.
pub proof fn law_terminal_shows_what_was_received(app: AppView, context: TerminalContext)
    ensures
        app.terminal_draws(context)[0] == DrawView::Shape(
            Shape::Received {
                area: context.terminal_area,
                hex: app.edit.settings.rendering.hex_view,
            },
        ),
        !app.edit.settings.rendering.show_connection_time ==> app.clock_draws(context).len() == 0,
        app.edit.settings.rendering.show_connection_time ==> app.clock_draws(context).len() == (
        if context.status is LentOut {
            2int
        } else {
            1
        }),
{
}

/// The clocks tell for how long the connection is there, and for how long it is lent.
pub proof fn law_clocks_of_a_connection(status: InnerPortStatus, now: u64)
    ensures
        ({
            let clocks = crate::view::scroll::clocks(status, now);
            &&& status matches InnerPortStatus::Connected { connected_at } ==> clocks.len() == 1
                && clocks[0].text == crate::view::scroll::clock(
                crate::view::scroll::seconds_since(connected_at, now),
            )
            &&& status matches InnerPortStatus::LentOut { initial_connection_at, lent_out_at } ==> {
                &&& clocks.len() == 2
                &&& clocks[0].text == crate::view::scroll::clock(
                    crate::view::scroll::seconds_since(initial_connection_at, now),
                )
                &&& clocks[1].text == "("@ + crate::view::scroll::clock(
                    crate::view::scroll::seconds_since(lent_out_at, now),
                ) + ")"@
                &&& clocks[0].row != clocks[1].row
            }
            &&& status is Idle || status is PrematureDisconnect ==> clocks.len() == 1
                && clocks[0].text == "XX:XX:XX"@
        }),
{
}

/// The line below the terminal is green while there is a connection, yellow while it is lent
/// and red without one; it tells how many lines were received, and what waits or which port
/// it is.
#[verifier::rlimit(40)]
pub proof fn law_line_below_the_terminal(app: AppView, context: TerminalContext)
    ensures
        ({
            let draws = app.line_draws(context);
            &&& draws[0] matches DrawView::Text { style, .. } && {
                &&& style.fg == Some(Color::Green) <==> context.status is Connected
                &&& style.fg == Some(Color::Yellow) <==> context.status is LentOut
                &&& style.fg == Some(Color::Red) <==> context.status is Idle
                    || context.status is PrematureDisconnect
            }
            &&& draws[1] matches DrawView::Text { text, .. } && text == "Lines: "@
                + crate::text::digits(context.lines as nat, 10)
            &&& draws[2] matches DrawView::Text { text, .. } && {
                &&& app.kept.queue.len() == 0 ==> text == crate::view::terminal::port_text(
                    context.port,
                    context.status,
                    context.baud_rate,
                )
                &&& app.kept.queue.len() > 0 ==> text == "Queued Actions: "@ + crate::text::digits(
                    app.kept.queue.len(),
                    10,
                )
            }
            &&& draws[3] matches DrawView::Spans { spans, .. } && spans
                == crate::view::terminal::signal_spans(context.signals)
            &&& draws.len() == 4
        }),
{
}

/// The sign in front of what is typed tells text from bytes, and is green while there is a
/// connection. Without a shell of its own the terminal shows what was last sent.
pub proof fn law_sign_in_front_of_the_text(app: AppView, context: TerminalContext)
    ensures
        ({
            let draws = app.prefix_draws(context);
            &&& app.edit.settings.behavior.pseudo_shell ==> draws.len() == 1 && (
            draws[0] matches DrawView::Text { text, style, .. } && {
                &&& text == (if app.kept.text_input.bytes_input {
                    "§"@
                } else {
                    ">"@
                })
                &&& context.status is Connected ==> style.fg == Some(Color::Green)
                &&& !(context.status is Connected) ==> style.fg == Some(Color::Red)
            })
            &&& !app.edit.settings.behavior.pseudo_shell && app.ui.popup is None ==> draws.len()
                == 1 && (draws[0] matches DrawView::Text { text, .. } && text == "Last sent: "@ + (
            if app.kept.last_raw_sequence.len() == 0 {
                "N/A"@
            } else {
                crate::view::terminal::escapes(app.kept.last_raw_sequence)
            }))
        }),
{
}

/// What is typed is shown as it is, bytes in pairs of digits, and an invitation while there is
/// nothing; the cursor is only shown where nothing lies above the terminal.
#[verifier::rlimit(40)]
pub proof fn law_typed_text_is_shown(app: AppView, context: TerminalContext)
    requires
        app.edit.settings.behavior.pseudo_shell,
    ensures
        ({
            let draws = app.input_draws(context);
            let typed = app.kept.text_input.text;
            &&& typed.len() > 0 && !app.kept.text_input.bytes_input ==> (
            draws[0] matches DrawView::Input { text, area, .. } && text == typed && area
                == context.input_area)
            &&& typed.len() > 0 && app.kept.text_input.bytes_input ==> (
            draws[0] matches DrawView::Input { text, .. } && text
                == crate::view::terminal::in_pairs(typed))
            &&& typed.len() == 0 ==> (draws[0] matches DrawView::Text { text, .. } && text
                == app.invitation())
            &&& app.ui.popup is Some ==> draws.len() == 1
            &&& app.ui.popup is None ==> draws.len() == 2 && draws[1] matches DrawView::Shape(
                Shape::Cursor { .. },
            )
        }),
{
}

/// What is hidden of a text on its left is at least what is asked for, unless that is more
/// than there is.
pub proof fn law_columns_are_hidden(s: Seq<char>, wanted: int, so_far: int)
    requires
        0 <= so_far <= usize::MAX,
    ensures
        crate::view::terminal::columns_hidden(s, wanted, so_far) >= so_far,
        so_far >= wanted ==> crate::view::terminal::columns_hidden(s, wanted, so_far) == so_far,
        s.len() == 0 ==> crate::view::terminal::columns_hidden(s, wanted, so_far) == so_far,
    decreases s.len(),
{
    if so_far < wanted && s.len() > 0 {
        let columns = match crate::foreign::char_columns(s[0]) {
            Some(n) => n as int,
            None => 0,
        };
        law_columns_are_hidden(s.skip(1), wanted, crate::buffer::tui::capped(so_far + columns));
    }
}

/// A text that comes in on the right ends where its place does.
pub proof fn law_entering_text_stands_on_the_right(area: Rect, moved: Motion)
    requires
        0 < moved.entered <= area.width,
        area.x + area.width <= u16::MAX,
        area.y + area.height <= u16::MAX,
    ensures
        ({
            let place = crate::view::scroll::moved_text(area, moved);
            &&& place.area.width == moved.entered
            &&& place.area.x + place.area.width == area.x + area.width
            &&& place.area.y == area.y
            &&& place.hidden == 0
        }),
{
}

/// The port that is selected is marked in the table unless something lies above it; the
/// options are reversed while they are selected.
#[verifier::rlimit(40)]
pub proof fn law_screen_for_ports(app: AppView, context: PortContext)
    ensures
        ({
            let draws = app.port_draws(context);
            &&& draws[3] == DrawView::Shape(
                Shape::Table {
                    area: context.table_area,
                    table: TableId::Ports,
                    selected: if app.ui.popup is None && app.ui.screen.port_selection_scroll
                        < app.kept.ports.len() {
                        Some(app.ui.screen.port_selection_scroll)
                    } else {
                        None
                    },
                },
            )
            &&& draws[1] matches DrawView::Spans { spans, .. } && {
                &&& spans[0].0 == "v"@ + context.version@
                &&& spans.len() == 2 <==> app.kept.update_found_version is Some
                &&& app.kept.update_found_version matches Some(new) ==> spans[1].0 == " -> v"@
                    + new@ + "! [U]pdate found!"@
            }
            &&& draws[draws.len() - 2] matches DrawView::Text { text, style, .. } && text
                == "[More options]"@ && (style == Style::plain().with_modifier(REVERSED)
                <==> app.ui.screen.port_selection_scroll == app.port_items() - 1)
        }),
{
    assert(0u16 | REVERSED != 0u16) by (bit_vector);
}

/// The user is told how many bindings name something that is not known.
pub proof fn law_unknown_bindings_are_counted(app: AppView, n: int)
    requires
        0 <= n < app.kept.keybinds.keybindings@.len(),
    ensures
        ({
            let names = app.kept.keybinds.keybindings@[n].actions@;
            app.unknown_bindings(n + 1) == app.unknown_bindings(n) + (if exists|j: int|
                0 <= j < names.len() && app.action_named((#[trigger] names[j])@) is None {
                1int
            } else {
                0
            })
        }),
        app.unknown_bindings(0) == 0,
        app.bindings_note().1 == Color::Yellow <==> app.unknown_bindings(
            app.kept.keybinds.keybindings@.len() as int,
        ) > 0,
{
    let names = app.kept.keybinds.keybindings@[n].actions@;
    crate::app::keyboard::lemma_first_unknown(app, names, 0);
}

/// A menu's place among its kind follows the order in which one steps through them, and each
/// has its own table.
pub proof fn law_places_of_menus(a: SettingsMenu, b: SettingsMenu)
    ensures
        a.turned(true).place() == (a.place() + 1) % 5,
        a.table() == b.table() <==> a == b,
        a.place() == b.place() <==> a == b,
{
}

/// The line that explains a profile names memory only where a file goes there, and the chip
/// that it is for.
pub proof fn law_profiles_are_explained(profile: EspProfile)
    ensures
        profile matches EspProfile::Elf(elf) ==> ({
            let chip = match elf.expected_chip {
                Some(chip) => crate::text::ascii_upper(chip@),
                None => "ESP"@,
            };
            crate::view::menus::profile_hint(profile) == (if elf.ram {
                "Load selected profile ELF into "@ + chip + " RAM."@
            } else {
                "Flash selected profile ELF to "@ + chip + " Flash."@
            })
        }),
{
}

/// While a file is flashed the bar shows how much of it is done.
pub proof fn law_progress_on_the_bar(flashing: Flashing, inner: Rect, rows: EspRows)
    ensures
        ({
            let draws = crate::view::esp::inner_draws(EspPopup::Flashing(flashing), inner, rows);
            draws.contains(
                DrawView::Shape(
                    Shape::Gauge {
                        area: rows.bar,
                        done: flashing.current_progress,
                        whole: flashing.current_file_len,
                        color: flashing.bar_color(),
                    },
                ),
            )
        }),
{
    let draws = crate::view::esp::inner_draws(EspPopup::Flashing(flashing), inner, rows);
    assert(draws[3] matches DrawView::Shape(_));
}

/// The header of the digits is drawn if it is asked for; a notice stands below what was
/// received unless its end is in sight.
pub proof fn law_frame_around_digits(header: bool, overflows: bool, areas: HexAreas, area: Rect, stuck: bool)
    ensures
        header ==> crate::view::hex::frame_draws(header, overflows, areas)[1] == DrawView::Shape(
            Shape::ByteMarkers { area: areas.bytes_label },
        ),
        !header ==> crate::view::hex::frame_draws(header, overflows, areas)[0] == DrawView::Shape(
            Shape::VerticalLine {
                x: areas.first_line.x,
                height: areas.area.height,
                color: Color::DarkGray,
            },
        ),
        crate::view::hex::notice_draws(area, stuck).len() == 0 <==> stuck,
{
}

/// A list that is longer than its place can be scrolled to its end and no further.
pub proof fn law_list_is_scrolled(columns: int, rows: int, area: Rect, scroll: u16)
    requires
        columns >= 0,
        0 <= rows <= usize::MAX,
    ensures
        ({
            let place = crate::view::keybinds::list_place(columns, rows, area, scroll);
            &&& place.scroll <= place.length
            &&& place.scroll <= scroll
            &&& place.area.width <= area.width && place.area.height <= area.height
            &&& place.area.height <= 20
            &&& place.area.x + place.area.width <= area.width
            &&& place.area.y + place.area.height <= area.height
        }),
{
}

/// A combination that does one thing is listed with its label, filled up to one width, and
/// with what it does.
pub proof fn law_row_of_a_combination(entry: EntryView, width: nat)
    ensures
        ({
            let row = crate::view::keybinds::single_row(entry, width);
            let filled = crate::view::keybinds::pad_right(entry.label, width);
            &&& row.spans.len() == 2
            &&& row.spans[0].0 == filled + " - "@
            &&& filled.len() >= width
            &&& filled.take(entry.label.len() as int) == entry.label
            &&& forall|i: int|
                entry.label.len() <= i < filled.len() ==> #[trigger] filled[i] == ' '
            &&& entry.options.len() > 0 ==> row.spans[1].0 == entry.options[0].words()
        }),
{
    let filled = crate::view::keybinds::pad_right(entry.label, width);
    assert(filled.take(entry.label.len() as int) =~= entry.label);
}

/// A combination that does several things is listed with each of them, in order.
pub proof fn law_rows_of_a_chain(entry: EntryView, width: nat)
    ensures
        ({
            let rows = crate::view::keybinds::chain_rows(entry, width);
            &&& rows.len() == 1 + entry.options.len()
            &&& rows[0].spans[0].0 == entry.label
            &&& forall|i: int|
                0 <= i < entry.options.len() ==> (#[trigger] rows[i + 1]).spans[1].0
                    == entry.options[i].words()
        }),
{
}

/// Every combination that does one thing is listed, under what is known or under what is
/// not.
pub proof fn law_every_combination_has_a_row(
    entries: Seq<EntryView>,
    singles: Seq<usize>,
    order: Seq<usize>,
    chains: Seq<usize>,
    k: int,
)
    requires
        0 <= k < order.len(),
    ensures
        crate::view::keybinds::list_rows(entries, singles, order, chains).contains(
            crate::view::keybinds::single_row(
                entries[singles[order[k] as int] as int],
                crate::view::keybinds::longest_label(entries),
            ),
        ),
{
    let width = crate::view::keybinds::longest_label(entries);
    let entry = entries[singles[order[k] as int] as int];
    let known = crate::view::keybinds::single_option(entry) is Recognized;
    lemma_single_rows(entries, singles, order, width, known, k);
    let row = crate::view::keybinds::single_row(entry, width);
    let list = crate::view::keybinds::list_rows(entries, singles, order, chains);
    let part = crate::view::keybinds::single_rows(entries, singles, order, width, known);
    let unknown = crate::view::keybinds::single_rows(entries, singles, order, width, false);
    let at = part.index_of(row);
    assert(part[at] == row);
    if known {
        if unknown.len() == 0 {
            assert(list[at] == row);
        } else {
            assert(list[unknown.len() + 2 + at] == row);
        }
    } else {
        assert(unknown.len() > 0);
        assert(list[1 + at] == row);
    }
}

proof fn lemma_single_rows(
    entries: Seq<EntryView>,
    singles: Seq<usize>,
    order: Seq<usize>,
    width: nat,
    known: bool,
    k: int,
)
    requires
        0 <= k < order.len(),
        (crate::view::keybinds::single_option(entries[singles[order[k] as int] as int])
            is Recognized) == known,
    ensures
        crate::view::keybinds::single_rows(entries, singles, order, width, known).contains(
            crate::view::keybinds::single_row(entries[singles[order[k] as int] as int], width),
        ),
    decreases order.len(),
{
    let rows = crate::view::keybinds::single_rows(entries, singles, order, width, known);
    let before = crate::view::keybinds::single_rows(
        entries,
        singles,
        order.drop_last(),
        width,
        known,
    );
    let row = crate::view::keybinds::single_row(entries[singles[order[k] as int] as int], width);
    if k == order.len() - 1 {
        assert(rows[rows.len() - 1] == row);
    } else {
        assert(order.drop_last()[k] == order[k]);
        lemma_single_rows(entries, singles, order.drop_last(), width, known, k);
        let at = before.index_of(row);
        assert(rows[at] == row);
    }
}

/// A pause of less than a second is told in milliseconds, one of whole seconds in seconds.
pub proof fn law_pauses_are_told(ms: u64)
    ensures
        0 < ms < 1000 ==> crate::view::keybinds::duration_text(ms) == crate::text::digits(
            ms as nat,
            10,
        ) + "ms"@,
        ms >= 1000 && ms % 1000 == 0 ==> crate::view::keybinds::duration_text(ms)
            == crate::text::digits((ms / 1000) as nat, 10) + "s"@,
{
    if ms >= 1000 && ms % 1000 == 0 {
        let whole = crate::text::digits((ms / 1000) as nat, 10);
        assert(whole + Seq::<char>::empty() + "s"@ =~= whole + "s"@);
    }
}

} // verus!
