//! What holds of what is drawn.

use vstd::prelude::*;
use vstd::string::*;

use crate::app::{AppView, PopupView, SettingsMenu, ToolMenu};
use crate::keybinds::ActionView;
use crate::laws::{value_of_digit, value_of_digits};
use crate::line::{Color, Style, REVERSED};
use crate::serial::port_status::InnerPortStatus;
use crate::serial::{SerialPortInfo, SerialSignals, UsbView};
use crate::tui::Rect;
use crate::view::DrawView;
use crate::view::keybinds::{EntryView, OptionView};

verus! {

/// Each line of the port is shown under its name, and reversed while it is set.
pub proof fn law_signals_are_shown(signals: SerialSignals)
    ensures
        ({
            let spans = crate::view::terminal::signal_spans(signals);
            let on = Style::plain().with_modifier(REVERSED);
            let shown = |name: Seq<char>, set: bool|
                spans.contains(
                    (
                        name,
                        if set {
                            on
                        } else {
                            Style::plain()
                        },
                    ),
                );
            &&& shown("DTR"@, signals.dtr)
            &&& shown("RTS"@, signals.rts)
            &&& shown("CTS"@, signals.cts)
            &&& shown("DSR"@, signals.dsr)
            &&& shown("RI"@, signals.ri)
            &&& shown("CD"@, signals.cd)
            &&& spans.len() == 13
        }),
{
    let spans = crate::view::terminal::signal_spans(signals);
    assert(spans[1].0 == "DTR"@ && spans[3].0 == "RTS"@ && spans[5].0 == "CTS"@ && spans[7].0
        == "DSR"@ && spans[9].0 == "RI"@ && spans[11].0 == "CD"@);
}

/// What was last sent for a key is shown byte by byte, each by an escape of four
/// characters that reads as the byte.
pub proof fn law_last_sent_reads_back(bytes: Seq<u8>)
    ensures
        crate::view::terminal::escapes(bytes).len() == 4 * bytes.len(),
        forall|i: int|
            0 <= i < bytes.len() ==> reads_as(
                crate::view::terminal::escapes(bytes).subrange(4 * i, 4 * i + 4),
                #[trigger] bytes[i],
            ),
    decreases bytes.len(),
{
    let text = crate::view::terminal::escapes(bytes);
    if bytes.len() > 0 {
        let front = bytes.drop_last();
        law_last_sent_reads_back(front);
        reveal_strlit("\\x");
        let before = crate::view::terminal::escapes(front);
        let one = "\\x"@ + crate::text::byte_digits(bytes.last());
        assert(text == before + one);
        assert(bytes.last() == 16 * (bytes.last() / 16) + bytes.last() % 16);
        assert(reads_as(one, bytes.last()));
        assert forall|i: int| 0 <= i < bytes.len() implies reads_as(
            text.subrange(4 * i, 4 * i + 4),
            #[trigger] bytes[i],
        ) by {
            if i < front.len() {
                assert(front[i] == bytes[i]);
                assert(text.subrange(4 * i, 4 * i + 4) =~= before.subrange(4 * i, 4 * i + 4));
            } else {
                assert(text.subrange(4 * i, 4 * i + 4) =~= one);
            }
        }
    }
}

/// Whether an escape stands for a byte.
pub open spec fn reads_as(escape: Seq<char>, byte: u8) -> bool {
    &&& escape.len() == 4
    &&& escape[0] == '\\' && escape[1] == 'x'
    &&& 16 * value_of_digit(escape[2]) + value_of_digit(escape[3]) == byte
}

/// Digits that are typed are shown in pairs, none of them lost, with a space behind every
/// second one.
pub proof fn law_typed_digits_are_paired(s: Seq<char>)
    ensures
        ({
            let shown = crate::view::terminal::in_pairs(s);
            &&& s.len() == 0 ==> shown.len() == 0
            &&& s.len() > 0 ==> shown.len() == s.len() + (s.len() - 1) / 2
            &&& forall|i: int|
                #![trigger s[i]]
                0 <= i < s.len() ==> 3 * (i / 2) + i % 2 < shown.len() && shown[3 * (i / 2) + i % 2]
                    == s[i]
            &&& forall|k: int|
                #![trigger shown[3 * k + 2]]
                0 <= k && 3 * k + 2 < shown.len() ==> shown[3 * k + 2] == ' '
        }),
    decreases s.len(),
{
    reveal_strlit(" ");
    let shown = crate::view::terminal::in_pairs(s);
    if s.len() > 2 {
        let rest = s.skip(2);
        law_typed_digits_are_paired(rest);
        let tail = crate::view::terminal::in_pairs(rest);
        assert(shown == s.take(2) + " "@ + tail);
        assert forall|i: int| #![trigger s[i]] 0 <= i < s.len() implies 3 * (i / 2) + i % 2
            < shown.len() && shown[3 * (i / 2) + i % 2] == s[i] by {
            if i >= 2 {
                assert(rest[i - 2] == s[i]);
                assert((i - 2) / 2 == i / 2 - 1 && (i - 2) % 2 == i % 2);
                assert(shown[3 * (i / 2) + i % 2] == tail[3 * ((i - 2) / 2) + (i - 2) % 2]);
            }
        }
        assert forall|k: int|
            #![trigger shown[3 * k + 2]]
            0 <= k && 3 * k + 2 < shown.len() implies shown[3 * k + 2] == ' ' by {
            if k > 0 {
                assert(shown[3 * k + 2] == tail[3 * (k - 1) + 2]);
            }
        }
    }
}

/// A port that is there is described with its rate; one that was lost is marked.
pub proof fn law_port_is_described(port: SerialPortInfo, status: InnerPortStatus, baud_rate: u32)
    ensures
        ({
            let text = crate::view::terminal::port_text(Some(port), status, baud_rate);
            &&& status is Connected || status is LentOut ==> text == crate::serial::port_summary(
                port,
                Some(baud_rate),
            )
            &&& status is Idle || status is PrematureDisconnect ==> text == "[!] "@
                + crate::serial::port_summary(port, None) + " [!]"@
        }),
{
}

/// What is typed is red for as long as a failure to send is shown, and not longer.
pub proof fn law_failure_is_red(app: AppView, now: u64)
    ensures
        app.input_style(now).bg == Some(Color::Red) <==> (
        app.ui.screen.failed_send_at matches Some(since) && now < since + 750),
        app.ui.screen.failed_send_at is None && app.kept.text_input.all_text_selected
            ==> app.input_style(now) == Style::plain().with_modifier(REVERSED),
        app.ui.screen.failed_send_at is None && !app.kept.text_input.all_text_selected
            ==> app.input_style(now) == Style::plain(),
{
}

proof fn lemma_two_digits(n: nat)
    requires
        n < 100,
    ensures
        crate::view::scroll::two_digits(n).len() == 2,
        value_of_digits(crate::view::scroll::two_digits(n), 10) == n,
{
    crate::laws::law_digits_have_the_value(n, 10);
    let digits = crate::text::digits(n, 10);
    assert(digits.len() <= 2) by {
        reveal_with_fuel(crate::text::digits, 3);
    }
    if digits.len() < 2 {
        crate::buffer::shown_laws::lemma_padded_value(digits, (2 - digits.len()) as nat, 10);
    }
}

/// A clock that runs for less than a day shows hours, minutes and seconds, which together
/// are the time that it runs for.
pub proof fn law_clock_tells_the_time(secs: u64)
    requires
        secs < 86400,
    ensures
        ({
            let text = crate::view::scroll::clock(secs);
            &&& text.len() == 8
            &&& text[2] == ':' && text[5] == ':'
            &&& 3600 * value_of_digits(text.subrange(0, 2), 10) + 60 * value_of_digits(
                text.subrange(3, 5),
                10,
            ) + value_of_digits(text.subrange(6, 8), 10) == secs
            &&& value_of_digits(text.subrange(3, 5), 10) < 60
            &&& value_of_digits(text.subrange(6, 8), 10) < 60
        }),
{
    reveal_strlit(":");
    let hour = (secs / 3600) as nat;
    let min = ((secs % 3600) / 60) as nat;
    let sec = (secs % 60) as nat;
    assert(secs % 86400 == secs);
    lemma_two_digits(hour);
    lemma_two_digits(min);
    lemma_two_digits(sec);
    let text = crate::view::scroll::clock(secs);
    assert(text.subrange(0, 2) =~= crate::view::scroll::two_digits(hour));
    assert(text.subrange(3, 5) =~= crate::view::scroll::two_digits(min));
    assert(text.subrange(6, 8) =~= crate::view::scroll::two_digits(sec));
    assert(secs == 3600 * (secs / 3600) + secs % 3600);
    assert(secs % 3600 == 60 * ((secs % 3600) / 60) + (secs % 3600) % 60);
    assert((secs % 3600) % 60 == secs % 60);
}

/// Clocks count whole seconds, and start at nothing.
pub proof fn law_clocks_count_seconds(then: u64, now: u64)
    ensures
        ({
            let secs = crate::view::scroll::seconds_since(then, now);
            &&& now >= then ==> secs * 1000 <= now - then < secs * 1000 + 1000
            &&& now <= then ==> secs == 0
        }),
{
}

/// A text that is a little too long moves by a column at a time, never further than to its
/// end; a longer one leaves by a column at a time.
pub proof fn law_texts_move_by_columns(columns: u16, room: u16, step: i32)
    requires
        columns > room,
        0 <= step < i32::MAX,
    ensures
        ({
            let now = crate::view::scroll::motion(columns, room, step);
            let next = crate::view::scroll::motion(columns, room, (step + 1) as i32);
            let over = columns - room;
            &&& over < 10 ==> now.hidden <= over && now.entered == 0
            &&& over < 10 && !next.restart ==> next.hidden - now.hidden <= 1 && now.hidden
                - next.hidden <= 1
            &&& over >= 10 && step < columns ==> now.hidden == step && next.hidden == step + 1
            &&& over >= 10 && columns < step && step + 1 < columns + room ==> next.entered
                == now.entered + 1
            &&& over < 10 && step == over ==> now.hidden == over
        }),
{
}

/// The pattern below the terminal takes turns, and is the other way round when it is
/// swapped.
pub proof fn law_pattern_takes_turns(width: u16, swap: bool, i: int)
    requires
        0 <= i < width,
    ensures
        ({
            let pattern = crate::view::scroll::pattern(width, swap);
            &&& pattern.len() == width
            &&& pattern[i] == '~' || pattern[i] == '-'
            &&& i + 1 < width ==> pattern[i] != pattern[i + 1]
            &&& pattern[i] != crate::view::scroll::pattern(width, !swap)[i]
            &&& pattern[0] == (if swap {
                '-'
            } else {
                '~'
            })
        }),
{
}

/// A rate is shown with all its digits, in the middle of its columns.
pub proof fn law_rates_are_shown(baud_rate: u32)
    requires
        0 < baud_rate < 1000000,
    ensures
        ({
            let text = crate::view::ports::baud_text(baud_rate);
            let digits = crate::text::digits(baud_rate as nat, 10);
            exists|left: int|
                {
                    &&& 0 <= left
                    &&& text.len() == 6
                    &&& left + digits.len() <= 6
                    &&& #[trigger] text.subrange(left, left + digits.len()) == digits
                    &&& forall|i: int|
                        0 <= i < left || left + digits.len() <= i < 6 ==> #[trigger] text[i] == ' '
                    &&& 0 <= (6 - digits.len() - left) - left <= 1
                }
        }),
{
    let text = crate::view::ports::baud_text(baud_rate);
    let digits = crate::text::digits(baud_rate as nat, 10);
    assert(digits.len() <= 6) by {
        reveal_with_fuel(crate::text::digits, 7);
    }
    let left = (6 - digits.len()) / 2;
    assert(text.subrange(left, left + digits.len()) =~= digits);
}

/// Exactly one entry of the screen for ports is selected: a port, the rates, the box for a
/// rate of one's own, or the options.
pub proof fn law_one_entry_is_selected(app: AppView)
    requires
        app.kept.ports.len() + 3 <= usize::MAX,
        app.ui.screen.port_selection_scroll < app.port_items(),
    ensures
        ({
            let state = app.port_selection_state();
            let at = app.ui.screen.port_selection_scroll;
            let n = app.kept.ports.len();
            &&& state.ports_selected <==> at < n
            &&& state.baud_active <==> at == n
            &&& state.custom_visible <==> app.ui.screen.baud_index == 10
            &&& state.custom_visible ==> (state.baud_selected <==> at == n + 1)
            &&& !state.custom_visible ==> (state.baud_selected <==> at == n)
            &&& state.options_selected <==> at == app.port_items() - 1
        }),
{
}

/// A sensitive macro is never shown before it is sent; any other is, as it is written.
pub proof fn law_sensitive_macros_are_hidden(app: AppView, area: Rect, row: int)
    requires
        app.corrected() == Some(row),
        0 <= row < app.kept.macros.visible().len(),
    ensures
        ({
            let content = app.kept.macros.all[app.kept.macros.visible()[row] as int].content;
            &&& app.macro_hint(area) matches DrawView::Hint { text, .. } && text == (
            if content.sensitive {
                "[SENSITIVE]"@
            } else {
                content.content@
            })
        }),
{
}

/// Every menu has a color of its own, and nothing else has one.
pub proof fn law_menus_have_colors(a: PopupView, b: PopupView)
    ensures
        crate::view::menus::menu_color(Some(a)) is Some <==> a is SettingsMenu || a is ToolMenu,
        crate::view::menus::menu_color(Some(a)) is Some && crate::view::menus::menu_color(Some(a))
            == crate::view::menus::menu_color(Some(b)) ==> a == b,
{
}

/// A button is reversed while it is selected.
pub proof fn law_buttons(selected: bool)
    ensures
        crate::view::menus::button_style(selected) == Style::plain() <==> !selected,
        selected ==> crate::view::menus::button_style(selected) == Style::plain().with_modifier(
            REVERSED,
        ),
{
    assert(0u16 | REVERSED != 0u16) by (bit_vector);
}

/// The scrollbar of a menu is as long as what does not fit, and there is none where all
/// does.
pub proof fn law_overlength(app: AppView, height: u16)
    ensures
        app.overlength(height) >= 0,
        app.item_count() <= height + 2 ==> app.overlength(height) == 0,
        app.item_count() > height + 2 ==> app.overlength(height) == app.item_count() - height - 2,
{
}

/// A menu fits on the screen, and is no larger than it has to be.
pub proof fn law_menus_fit(area: Rect)
    ensures
        crate::view::menus::menu_size(area).width <= area.width,
        crate::view::menus::menu_size(area).height <= area.height,
        crate::view::menus::menu_size(area).width <= 60,
        crate::view::menus::menu_size(area).height <= 17,
        area.width >= 60 ==> crate::view::menus::menu_size(area).width == 60,
        area.height >= 17 ==> crate::view::menus::menu_size(area).height == 17,
{
}

/// The inside of a block lies within it, and so does what is left within a margin.
pub proof fn law_places_lie_within(area: Rect, horizontal: u16, vertical: u16)
    requires
        area.x + area.width <= u16::MAX,
        area.y + area.height <= u16::MAX,
        area.width >= 2,
        area.height >= 2,
        2 * horizontal <= area.width,
        2 * vertical <= area.height,
    ensures
        ({
            let inside = area.inside();
            let left = area.without_margin(horizontal, vertical);
            &&& inside.x == area.x + 1 && inside.y == area.y + 1
            &&& inside.width == area.width - 2 && inside.height == area.height - 2
            &&& left.x == area.x + horizontal && left.y == area.y + vertical
            &&& left.width == area.width - 2 * horizontal
            &&& left.height == area.height - 2 * vertical
        }),
{
}

/// Rows are counted from the top down, and from the row behind the last one up.
pub proof fn law_rows_of_a_place(area: Rect, rows: u16)
    requires
        area.y + area.height <= u16::MAX,
        rows <= area.height,
    ensures
        area.row_down(rows).y == area.y + rows,
        area.row_up(rows).y == area.y + area.height - rows,
        area.row_down(rows).height == 1,
        area.row_up(rows).height == 1,
        area.row_down(rows).x == area.x && area.row_down(rows).width == area.width,
{
}

/// The heading of the question about a port names it, and that about a device tells its ids
/// as well.
pub proof fn law_headings_name_the_port(
    app: AppView,
    status: InnerPortStatus,
    version: Seq<char>,
    name: Seq<char>,
    usb: UsbView,
)
    ensures
        app.ui.popup == Some(PopupView::IgnoreByName(name)) ==> {
            let heading = app.heading(status, version);
            heading is Some && (heading->0).subtitle == Some(name) && (heading->0).title == "Hide "@
                + name + " from Port Selection?"@
        },
        app.ui.popup == Some(PopupView::IgnoreByUsb(name, usb)) ==> {
            let heading = app.heading(status, version);
            heading is Some && (heading->0).title == "Hide "@ + name
                + " (USB) from Port Selection?"@ && (heading->0).subtitle == Some(
                "VID: "@ + crate::serial::hex_id(usb.vid) + ", PID: "@ + crate::serial::hex_id(
                    usb.pid,
                ) + ", Serial #: "@ + (match usb.serial_number {
                    Some(serial_number) => serial_number,
                    None => "N/A"@,
                }),
            )
        },
        app.ui.popup == Some(PopupView::AttemptReconnectPrompt) ==> {
            let heading = app.heading(status, version);
            heading is Some && ((heading->0).subtitle is Some
                <==> app.ui.screen.user_broke_connection)
        },
        app.ui.popup == Some(PopupView::DisconnectPrompt) ==> {
            let heading = app.heading(status, version);
            heading is Some && ((heading->0).subtitle is Some <==> status is PrematureDisconnect
                && !(app.edit.settings.serial.reconnections is Disabled))
        },
{
}

/// What is listed is ordered: no two things come before each other, and whatever is unknown
/// comes last.
pub proof fn law_list_is_ordered(a: OptionView, b: OptionView)
    ensures
        a is Recognized && b is Unrecognized ==> a.before(b) && !b.before(a),
        (a matches OptionView::Recognized(ActionView::BuiltinAction(_))) && (
        b matches OptionView::Recognized(ActionView::MacroInvocation(_))) ==> a.before(b),
        (a matches OptionView::Recognized(ActionView::MacroInvocation(_))) && (
        b matches OptionView::Recognized(ActionView::EspFlashProfile(_))) ==> a.before(b),
        (a matches OptionView::Recognized(ActionView::EspFlashProfile(_))) && (
        b matches OptionView::Recognized(ActionView::Pause(_))) ==> a.before(b),
{
}

/// A combination is listed with what it does; a name that is not known is put between
/// question marks.
pub proof fn law_names_in_the_list(app: AppView, text: Seq<char>)
    ensures
        app.action_named(text) is None ==> app.option_named(text).words() == "?"@ + text + "?"@
            && app.option_named(text).color() == Color::Yellow,
        app.action_named(text) matches Some(ActionView::BuiltinAction(action))
            ==> app.option_named(text).words() == action.title(),
        app.action_named(text) matches Some(ActionView::EspFlashProfile(name))
            ==> app.option_named(text).words() == "[ESP] "@ + name,
{
}

/// Combinations that do one thing are told apart from those that do several, and none is
/// left out of both.
pub proof fn law_every_combination_is_listed(entries: Seq<EntryView>, i: int)
    requires
        0 <= i < entries.len() <= usize::MAX,
    ensures
        ({
            let singles = crate::view::keybinds::positions_of(entries, entries.len() as int, true);
            let chains = crate::view::keybinds::positions_of(entries, entries.len() as int, false);
            &&& singles.contains(i as usize) <==> entries[i].options.len() == 1
            &&& chains.contains(i as usize) <==> entries[i].options.len() != 1
            &&& singles.len() + chains.len() == entries.len()
        }),
{
    lemma_positions(entries, entries.len() as int, true);
    lemma_positions(entries, entries.len() as int, false);
    lemma_split(entries, entries.len() as int);
    let singles = crate::view::keybinds::positions_of(entries, entries.len() as int, true);
    let chains = crate::view::keybinds::positions_of(entries, entries.len() as int, false);
    if entries[i].options.len() != 1 && singles.contains(i as usize) {
        let k = singles.index_of(i as usize);
        assert(singles[k] == i);
    }
    if entries[i].options.len() == 1 && chains.contains(i as usize) {
        let k = chains.index_of(i as usize);
        assert(chains[k] == i);
    }
}

proof fn lemma_split(entries: Seq<EntryView>, n: int)
    requires
        0 <= n <= entries.len(),
    ensures
        crate::view::keybinds::positions_of(entries, n, true).len()
            + crate::view::keybinds::positions_of(entries, n, false).len() == n,
    decreases n,
{
    if n > 0 {
        lemma_split(entries, n - 1);
    }
}

proof fn lemma_positions(entries: Seq<EntryView>, n: int, single: bool)
    requires
        0 <= n <= entries.len() <= usize::MAX,
    ensures
        ({
            let at = crate::view::keybinds::positions_of(entries, n, single);
            &&& forall|k: int|
                0 <= k < at.len() ==> (#[trigger] at[k]) < n && (entries[at[k] as int].options.len()
                    == 1) == single
            &&& forall|i: int|
                #![trigger entries[i]]
                0 <= i < n && (entries[i].options.len() == 1) == single ==> at.contains(i as usize)
        }),
    decreases n,
{
    if n > 0 {
        lemma_positions(entries, n - 1, single);
        let before = crate::view::keybinds::positions_of(entries, n - 1, single);
        let at = crate::view::keybinds::positions_of(entries, n, single);
        assert forall|i: int|
            #![trigger entries[i]]
            0 <= i < n && (entries[i].options.len() == 1) == single implies at.contains(
            i as usize,
        ) by {
            if i == n - 1 {
                assert(at[at.len() - 1] == i);
            } else {
                assert(before.contains(i as usize));
                let k = before.index_of(i as usize);
                assert(at[k] == i);
            }
        }
    }
}

} // verus!
