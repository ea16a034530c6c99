//! The terminal.

use vstd::prelude::*;
use vstd::string::*;
use vstd::utf8::*;

use crate::app::{App, AppView, FAILED_SEND_VISUAL_TIME_MS};
use crate::foreign::char_width;
use crate::line::{Alignment, Color, Style, ITALIC, REVERSED};
use crate::serial::port_status::InnerPortStatus;
use crate::serial::{PrintablePortInfo, SerialPortInfo, SerialSignals};
use crate::text::{concat2, concat3, hex_pair, number};
use crate::tui::Rect;
use crate::view::menus::cut;
use crate::view::scroll::{connection_timers, pattern_color, repeating_pattern};
use crate::view::{put, shape, text, text_at, Draw, DrawView, Shape};

verus! {

/// What the terminal is drawn with that is known elsewhere.
pub struct TerminalContext {
    pub area: Rect,
    /// For what was received.
    pub terminal_area: Rect,
    /// For the line below it.
    pub line_area: Rect,
    /// For the last row, and its parts.
    pub whole_input_area: Rect,
    pub symbol_area: Rect,
    pub input_area: Rect,
    pub now: u64,
    pub status: InnerPortStatus,
    pub signals: SerialSignals,
    pub port: Option<SerialPortInfo>,
    pub baud_rate: u32,
    /// How many lines were received.
    pub lines: usize,
}

/// What is told of the port.
pub open spec fn port_text(port: Option<SerialPortInfo>, status: InnerPortStatus, baud_rate: u32) -> Seq<
    char,
> {
    match port {
        Some(port) => if status is Connected || status is LentOut {
            crate::serial::port_summary(port, Some(baud_rate))
        } else {
            "[!] "@ + crate::serial::port_summary(port, None) + " [!]"@
        },
        None => "Port info missing!"@,
    }
}

fn describe_port(port: &Option<SerialPortInfo>, status: InnerPortStatus, baud_rate: u32) -> (r:
    String)
    ensures
        r@ == port_text(*port, status, baud_rate),
{
    match port {
        Some(port) => if status.is_connected() || status.is_lent_out() {
            port.info_as_string(Some(baud_rate))
        } else {
            concat3("[!] ", port.info_as_string(None).as_str(), " [!]")
        },
        None => "Port info missing!".to_owned(),
    }
}

/// The style of a signal.
pub open spec fn signal_style(on: bool) -> Style {
    if on {
        Style::plain().with_modifier(REVERSED)
    } else {
        Style::plain()
    }
}

/// The signals of a port, ours before the bar; those that are set are reversed.
pub open spec fn signal_spans(signals: SerialSignals) -> Seq<(Seq<char>, Style)> {
    seq![
        ("["@, Style::plain()),
        ("DTR"@, signal_style(signals.dtr)),
        (" "@, Style::plain()),
        ("RTS"@, signal_style(signals.rts)),
        ("|"@, Style::plain()),
        ("CTS"@, signal_style(signals.cts)),
        (" "@, Style::plain()),
        ("DSR"@, signal_style(signals.dsr)),
        (" "@, Style::plain()),
        ("RI"@, signal_style(signals.ri)),
        (" "@, Style::plain()),
        ("CD"@, signal_style(signals.cd)),
        ("]"@, Style::plain()),
    ]
}

fn piece(spans: &mut Vec<(String, Style)>, text: &str, on: bool)
    ensures
        crate::view::piece_views(final(spans)@) == crate::view::piece_views(old(spans)@).push(
            (text@, signal_style(on)),
        ),
{
    let style = if on {
        Style::new().add(REVERSED)
    } else {
        Style::new()
    };
    let ghost before = spans@;
    spans.push((text.to_owned(), style));
    assert(crate::view::piece_views(spans@) =~= crate::view::piece_views(before).push(
        (text@, signal_style(on)),
    ));
}

/// The signals of a port.
pub fn signals_line(signals: SerialSignals) -> (r: Vec<(String, Style)>)
    ensures
        crate::view::piece_views(r@) == signal_spans(signals),
{
    let mut r: Vec<(String, Style)> = Vec::new();
    assert(crate::view::piece_views(r@) =~= Seq::empty());
    piece(&mut r, "[", false);
    piece(&mut r, "DTR", signals.dtr);
    piece(&mut r, " ", false);
    piece(&mut r, "RTS", signals.rts);
    piece(&mut r, "|", false);
    piece(&mut r, "CTS", signals.cts);
    piece(&mut r, " ", false);
    piece(&mut r, "DSR", signals.dsr);
    piece(&mut r, " ", false);
    piece(&mut r, "RI", signals.ri);
    piece(&mut r, " ", false);
    piece(&mut r, "CD", signals.cd);
    piece(&mut r, "]", false);
    assert(crate::view::piece_views(r@) =~= signal_spans(signals));
    r
}

/// Bytes as escapes, from a place on.
pub open spec fn escapes(bytes: Seq<u8>) -> Seq<char>
    decreases bytes.len(),
{
    if bytes.len() == 0 {
        Seq::empty()
    } else {
        escapes(bytes.drop_last()) + ("\\x"@ + crate::text::byte_digits(bytes.last()))
    }
}

fn escape_all(bytes: &Vec<u8>) -> (r: String)
    ensures
        r@ == escapes(bytes@),
{
    let mut r = String::new();
    let mut i: usize = 0;
    assert(bytes@.take(0) =~= Seq::empty());
    assert(r@ =~= Seq::<char>::empty());
    while i < bytes.len()
        invariant
            i <= bytes@.len(),
            r@ == escapes(bytes@.take(i as int)),
        decreases bytes@.len() - i,
    {
        proof {
            assert(bytes@.take(i + 1).drop_last() =~= bytes@.take(i as int));
        }
        let one = concat2("\\x", hex_pair(bytes[i]).as_str());
        r.append(one.as_str());
        i += 1;
    }
    assert(bytes@.take(i as int) =~= bytes@);
    r
}

/// What was last sent for a key.
pub open spec fn last_sent_text(bytes: Seq<u8>) -> Seq<char> {
    "Last sent: "@ + (if bytes.len() == 0 {
        "N/A"@
    } else {
        escapes(bytes)
    })
}

/// How many columns of the first characters of a text are hidden so that as many
/// columns as are asked for are: a character is hidden as a whole.
pub open spec fn columns_hidden(s: Seq<char>, wanted: int, so_far: int) -> int
    decreases s.len(),
{
    if so_far >= wanted || s.len() == 0 {
        so_far
    } else {
        let columns = match crate::foreign::char_columns(s[0]) {
            Some(n) => n as int,
            None => 0,
        };
        columns_hidden(s.skip(1), wanted, crate::buffer::tui::capped(so_far + columns))
    }
}

fn hide_columns(s: &str, wanted: usize) -> (r: usize)
    ensures
        r == columns_hidden(s@, wanted as int, 0),
{
    let len: usize = s.unicode_len();
    let mut hidden: usize = 0;
    let mut i: usize = 0;
    assert(s@.skip(0) =~= s@);
    while i < len && hidden < wanted
        invariant
            len == s@.len(),
            i <= len,
            columns_hidden(s@, wanted as int, 0) == columns_hidden(
                s@.skip(i as int),
                wanted as int,
                hidden as int,
            ),
        decreases len - i,
    {
        assert(s@.skip(i as int).skip(1) =~= s@.skip(i + 1));
        let columns: usize = match char_width(s.get_char(i)) {
            Some(n) => n,
            None => 0,
        };
        hidden = hidden.saturating_add(columns);
        i += 1;
    }
    hidden
}

/// Digits in pairs, with a space between them.
pub open spec fn in_pairs(s: Seq<char>) -> Seq<char>
    decreases s.len(),
{
    if s.len() <= 2 {
        s
    } else {
        s.take(2) + " "@ + in_pairs(s.skip(2))
    }
}

fn spaced_digits(s: &str) -> (r: String)
    ensures
        r@ == in_pairs(s@),
{
    let len: usize = s.unicode_len();
    let mut r = String::new();
    let mut i: usize = 0;
    assert(s@.skip(0) =~= s@);
    assert(r@ + in_pairs(s@) =~= in_pairs(s@));
    while len - i > 2
        invariant
            len == s@.len(),
            i <= len,
            in_pairs(s@) == r@ + in_pairs(s@.skip(i as int)),
        decreases len - i,
    {
        let ghost rest = s@.skip(i as int);
        let ghost before = r@;
        let pair = s.substring_char(i, i + 2);
        assert(pair@ =~= rest.take(2));
        assert(rest.skip(2) =~= s@.skip(i + 2));
        r.append(pair);
        r.append(" ");
        i += 2;
        assert(in_pairs(s@) =~= r@ + in_pairs(s@.skip(i as int)));
    }
    let ghost rest = s@.skip(i as int);
    let tail = s.substring_char(i, len);
    assert(tail@ =~= rest);
    r.append(tail);
    assert(r@ =~= in_pairs(s@));
    r
}

impl AppView {
    /// The style of what is typed: red for a while after sending failed, reversed if
    /// it is marked.
    pub open spec fn input_style(self, now: u64) -> Style {
        if self.ui.screen.failed_send_at matches Some(since) && now - since
            < FAILED_SEND_VISUAL_TIME_MS {
            Style::plain().with_bg(Color::Red)
        } else if self.kept.text_input.all_text_selected {
            Style::plain().with_modifier(REVERSED)
        } else {
            Style::plain()
        }
    }

    /// What is in the middle of the line below the terminal.
    pub open spec fn middle_text(self, context: TerminalContext) -> Seq<char> {
        if self.kept.queue.len() == 0 {
            port_text(context.port, context.status, context.baud_rate)
        } else {
            "Queued Actions: "@ + crate::text::digits(self.kept.queue.len(), 10)
        }
    }

    /// The margin of what stands in the line below the terminal.
    pub open spec fn line_margin(area: Rect) -> u16 {
        if area.width >= 100 {
            3
        } else {
            0
        }
    }

    /// The line below the terminal.
    pub open spec fn line_draws(self, context: TerminalContext) -> Seq<DrawView> {
        let margin = Self::line_margin(context.area);
        seq![
            text_at(
                context.line_area,
                crate::view::scroll::pattern(
                    context.line_area.width,
                    self.ui.screen.repeating_line_flip,
                ),
                Style::plain().with_fg(
                    match context.status {
                        InnerPortStatus::Connected { .. } => Color::Green,
                        InnerPortStatus::LentOut { .. } => Color::Yellow,
                        _ => Color::Red,
                    },
                ),
                Alignment::Left,
            ),
            text_at(
                context.line_area.without_margin(margin, 0),
                "Lines: "@ + crate::text::digits(context.lines as nat, 10),
                Style::plain(),
                Alignment::Right,
            ),
            text_at(
                context.line_area,
                self.middle_text(context),
                Style::plain(),
                Alignment::Center,
            ),
            DrawView::Spans {
                area: context.line_area.shifted(margin),
                spans: signal_spans(context.signals),
                alignment: Alignment::Left,
            },
        ]
    }

    /// What stands in front of what is typed, or what was last sent for a key.
    pub open spec fn prefix_draws(self, context: TerminalContext) -> Seq<DrawView> {
        let style = self.input_style(context.now);
        if self.edit.settings.behavior.pseudo_shell {
            seq![
                text_at(
                    context.symbol_area,
                    if self.kept.text_input.bytes_input {
                        "§"@
                    } else {
                        ">"@
                    },
                    if context.status is Connected {
                        style.without_modifier(REVERSED).with_fg(Color::Green)
                    } else {
                        style.with_fg(Color::Red)
                    },
                    Alignment::Left,
                ),
            ]
        } else if self.ui.popup is None {
            seq![
                text_at(
                    context.whole_input_area,
                    last_sent_text(self.kept.last_raw_sequence),
                    Style::plain().with_fg(Color::DarkGray),
                    Alignment::Left,
                ),
            ]
        } else {
            Seq::empty()
        }
    }

    /// The cursor, unless something lies above the terminal.
    pub open spec fn cursor_draws(self, x: u16, y: u16) -> Seq<DrawView> {
        if self.ui.popup is None {
            seq![DrawView::Shape(Shape::Cursor { x, y })]
        } else {
            Seq::empty()
        }
    }

    /// What is shown while nothing is typed.
    pub open spec fn invitation(self) -> Seq<char> {
        " "@ + (if self.kept.text_input.bytes_input {
            "Hex Bytes input goes here."@
        } else {
            "Text input goes here."@
        }) + (" `"@ + crate::keybinds::hint_for(
            self.kept.keybinds.keybindings@,
            crate::keybinds::BuiltinAction::Popup(
                crate::keybinds::ShowPopupAction::ShowPortSettings,
            ),
        ) + "` for port settings."@)
    }

    /// What is typed, with the cursor: how many columns are hidden on the left, and
    /// how many stand before the cursor.
    pub open spec fn typed_draws(
        self,
        context: TerminalContext,
        shown: Seq<char>,
        cursor: int,
        hidden: int,
    ) -> Seq<DrawView> {
        let area = context.input_area;
        seq![
            DrawView::Input {
                area,
                text: shown,
                style: self.input_style(context.now),
                alignment: Alignment::Left,
                hidden: crate::view::menus::cut16(hidden),
            },
        ] + self.cursor_draws(
            crate::view::clipped(
                area.x + crate::view::clipped(crate::view::floored(cursor - hidden)),
            ) as u16,
            area.y,
        )
    }

    /// How many columns what is typed may take, so that the cursor has room.
    pub open spec fn typing_room(area: Rect) -> usize {
        (if area.width > 1 {
            area.width - 1
        } else {
            0
        }) as usize
    }

    /// The hint where keys are sent as they are.
    pub open spec fn direct_hint(self) -> (Seq<char>, Color) {
        if self.ui.screen.escape_next_keypress {
            ("Escaping next keypress, will not be sent to connected device."@, Color::Yellow)
        } else if self.ui.popup is Some {
            ("Popup is active, not sending keypresses."@, Color::DarkGray)
        } else {
            (
                "Keyboard input is being sent directly. Press `"@ + crate::keybinds::hint_for(
                    self.kept.keybinds.keybindings@,
                    crate::keybinds::BuiltinAction::Base(
                        crate::keybinds::BaseAction::EscapeKeypress,
                    ),
                ) + "` to escape a keypress."@,
                Color::DarkGray,
            )
        }
    }

    /// How far along the cursor is in digits that are shown in pairs.
    pub open spec fn paired_cursor(self) -> int {
        let cursor = crate::input_box::cursor_column(
            self.kept.text_input.text,
            self.kept.text_input.cursor,
        );
        crate::buffer::tui::capped(cursor + cursor / 2)
    }

    /// What is typed in digits.
    pub open spec fn bytes_draws(self, context: TerminalContext) -> Seq<DrawView> {
        let shown = in_pairs(self.kept.text_input.text);
        let hidden = columns_hidden(
            shown,
            crate::view::floored(self.paired_cursor() - Self::typing_room(context.input_area)),
            0,
        );
        self.typed_draws(context, shown, self.paired_cursor(), hidden)
    }

    /// What is typed as text.
    pub open spec fn text_draws(self, context: TerminalContext) -> Seq<DrawView> {
        let shown = self.kept.text_input.text;
        let cursor = self.kept.text_input.cursor;
        self.typed_draws(
            context,
            shown,
            crate::input_box::cursor_column(shown, cursor) as int,
            crate::input_box::hidden_columns(
                shown,
                cursor,
                Self::typing_room(context.input_area),
            ) as int,
        )
    }

    /// The last row of the terminal.
    pub open spec fn input_draws(self, context: TerminalContext) -> Seq<DrawView> {
        let style = self.input_style(context.now);
        if !self.edit.settings.behavior.pseudo_shell {
            seq![
                text_at(
                    context.whole_input_area,
                    self.direct_hint().0,
                    style.with_fg(self.direct_hint().1),
                    Alignment::Center,
                ),
            ]
        } else if self.kept.text_input.text.len() == 0 {
            seq![
                text_at(
                    context.input_area,
                    self.invitation(),
                    style.with_fg(Color::DarkGray).with_modifier(ITALIC),
                    Alignment::Left,
                ),
            ] + self.cursor_draws(context.input_area.x, context.input_area.y)
        } else if self.kept.text_input.bytes_input {
            self.bytes_draws(context)
        } else {
            self.text_draws(context)
        }
    }

    /// The clocks of the connection.
    pub open spec fn clock_draws(self, context: TerminalContext) -> Seq<DrawView> {
        if self.edit.settings.rendering.show_connection_time {
            crate::view::scroll::clocks(context.status, context.now).map_values(
                |clock: crate::view::scroll::StopwatchView|
                    text_at(
                        context.area.without_margin(1, clock.row).first_row(),
                        clock.text,
                        Style::plain().with_fg(clock.color),
                        Alignment::Right,
                    ),
            )
        } else {
            Seq::empty()
        }
    }

    /// The terminal.
    pub open spec fn terminal_draws(self, context: TerminalContext) -> Seq<DrawView> {
        seq![
            DrawView::Shape(
                Shape::Received {
                    area: context.terminal_area,
                    hex: self.edit.settings.rendering.hex_view,
                },
            ),
        ] + self.clock_draws(context) + self.line_draws(context) + self.prefix_draws(context)
            + self.input_draws(context)
    }
}

impl App {
    fn style_of_input(&self, now: u64) -> (r: Style)
        ensures
            r == self@.input_style(now),
    {
        let failed = match self.screen.failed_send_at {
            Some(since) => now < since || now - since < FAILED_SEND_VISUAL_TIME_MS,
            None => false,
        };
        if failed {
            Style::new().bg(Color::Red)
        } else if self.text_input.all_selected() {
            Style::new().add(REVERSED)
        } else {
            Style::new()
        }
    }

    fn middle_of_line(&self, context: &TerminalContext) -> (r: String)
        ensures
            r@ == self@.middle_text(*context),
    {
        assert(self@.kept.queue.len() == self.action_queue@.len());
        if self.action_queue.len() == 0 {
            describe_port(&context.port, context.status, context.baud_rate)
        } else {
            concat2("Queued Actions: ", number(self.action_queue.len() as u64, 10).as_str())
        }
    }

    fn draw_line(&self, draws: &mut Vec<Draw>, context: &TerminalContext)
        ensures
            crate::view::draw_views(final(draws)@) == crate::view::draw_views(old(draws)@)
                + self@.line_draws(*context),
    {
        let margin: u16 = if context.area.width >= 100 {
            3
        } else {
            0
        };
        let line = context.line_area;
        text(
            draws,
            line,
            repeating_pattern(line.width, self.screen.repeating_line_flip),
            Style::new().fg(pattern_color(context.status)),
            Alignment::Left,
        );
        text(
            draws,
            line.margin(margin, 0),
            concat2("Lines: ", number(context.lines as u64, 10).as_str()),
            Style::new(),
            Alignment::Right,
        );
        text(draws, line, self.middle_of_line(context), Style::new(), Alignment::Center);
        put(
            draws,
            Draw::Spans {
                area: line.shift(margin),
                spans: signals_line(context.signals),
                alignment: Alignment::Left,
            },
        );
        assert(crate::view::draw_views(draws@) =~= crate::view::draw_views(old(draws)@)
            + self@.line_draws(*context));
    }

    fn draw_prefix(&self, draws: &mut Vec<Draw>, context: &TerminalContext)
        ensures
            crate::view::draw_views(final(draws)@) == crate::view::draw_views(old(draws)@)
                + self@.prefix_draws(*context),
    {
        let style = self.style_of_input(context.now);
        if self.settings.behavior.pseudo_shell {
            let symbol = if self.text_input.byte_entry_active() {
                "§"
            } else {
                ">"
            };
            let symbol_style = if context.status.is_connected() {
                style.remove(REVERSED).fg(Color::Green)
            } else {
                style.fg(Color::Red)
            };
            text(draws, context.symbol_area, symbol.to_owned(), symbol_style, Alignment::Left);
        } else if self.popup.is_none() {
            let sent = if self.last_raw_sequence.len() == 0 {
                "N/A".to_owned()
            } else {
                escape_all(&self.last_raw_sequence)
            };
            text(
                draws,
                context.whole_input_area,
                concat2("Last sent: ", sent.as_str()),
                Style::new().fg(Color::DarkGray),
                Alignment::Left,
            );
        }
        assert(crate::view::draw_views(draws@) =~= crate::view::draw_views(old(draws)@)
            + self@.prefix_draws(*context));
    }

    fn draw_cursor(&self, draws: &mut Vec<Draw>, x: u16, y: u16)
        ensures
            crate::view::draw_views(final(draws)@) == crate::view::draw_views(old(draws)@)
                + self@.cursor_draws(x, y),
    {
        if self.popup.is_none() {
            shape(draws, Shape::Cursor { x, y });
        }
        assert(crate::view::draw_views(draws@) =~= crate::view::draw_views(old(draws)@)
            + self@.cursor_draws(x, y));
    }

    fn invite(&self) -> (r: String)
        ensures
            r@ == self@.invitation(),
    {
        let kind = if self.text_input.byte_entry_active() {
            "Hex Bytes input goes here."
        } else {
            "Text input goes here."
        };
        let keys = concat3(" `", self.keybinds.port_settings_hint().as_str(), "` for port settings.");
        concat3(" ", kind, keys.as_str())
    }

    fn draw_typed(
        &self,
        draws: &mut Vec<Draw>,
        context: &TerminalContext,
        shown: String,
        cursor: usize,
        hidden: usize,
    )
        ensures
            crate::view::draw_views(final(draws)@) == crate::view::draw_views(old(draws)@)
                + self@.typed_draws(*context, shown@, cursor as int, hidden as int),
    {
        let area = context.input_area;
        put(
            draws,
            Draw::Input {
                area,
                text: shown,
                style: self.style_of_input(context.now),
                alignment: Alignment::Left,
                hidden: cut(hidden),
            },
        );
        let along: usize = cursor.saturating_sub(hidden);
        let steps: u16 = if along > 0xffff {
            0xffff
        } else {
            along as u16
        };
        self.draw_cursor(draws, area.x.saturating_add(steps), area.y);
        assert(crate::view::draw_views(draws@) =~= crate::view::draw_views(old(draws)@)
            + self@.typed_draws(*context, shown@, cursor as int, hidden as int));
    }

    fn direct_words(&self) -> (r: (String, Color))
        ensures
            r.0@ == self@.direct_hint().0,
            r.1 == self@.direct_hint().1,
    {
        if self.screen.escape_next_keypress {
            (
                "Escaping next keypress, will not be sent to connected device.".to_owned(),
                Color::Yellow,
            )
        } else if self.popup.is_some() {
            ("Popup is active, not sending keypresses.".to_owned(), Color::DarkGray)
        } else {
            (
                concat3(
                    "Keyboard input is being sent directly. Press `",
                    self.keybinds.escape_keypress_hint().as_str(),
                    "` to escape a keypress.",
                ),
                Color::DarkGray,
            )
        }
    }

    fn draw_bytes(&self, draws: &mut Vec<Draw>, context: &TerminalContext, room: usize)
        requires
            room == AppView::typing_room(context.input_area),
        ensures
            crate::view::draw_views(final(draws)@) == crate::view::draw_views(old(draws)@)
                + self@.bytes_draws(*context),
    {
        let (cursor, _hidden): (usize, usize) = self.text_input.cursor_and_scroll(room);
        let along: usize = cursor.saturating_add(cursor / 2);
        let shown = spaced_digits(self.text_input.value());
        let hidden: usize = hide_columns(shown.as_str(), along.saturating_sub(room));
        self.draw_typed(draws, context, shown, along, hidden);
    }

    fn draw_input(&self, draws: &mut Vec<Draw>, context: &TerminalContext)
        ensures
            crate::view::draw_views(final(draws)@) == crate::view::draw_views(old(draws)@)
                + self@.input_draws(*context),
    {
        let style = self.style_of_input(context.now);
        if !self.settings.behavior.pseudo_shell {
            let (words, color) = self.direct_words();
            text(
                draws,
                context.whole_input_area,
                words,
                style.fg(color),
                Alignment::Center,
            );
        } else if self.text_input.value().is_empty() {
            text(
                draws,
                context.input_area,
                self.invite(),
                style.fg(Color::DarkGray).add(ITALIC),
                Alignment::Left,
            );
            self.draw_cursor(draws, context.input_area.x, context.input_area.y);
        } else {
            let room: usize = if context.input_area.width > 1 {
                context.input_area.width as usize - 1
            } else {
                0
            };
            if self.text_input.byte_entry_active() {
                self.draw_bytes(draws, context, room);
            } else {
                let (cursor, hidden): (usize, usize) = self.text_input.cursor_and_scroll(room);
                let shown = self.text_input.value().to_owned();
                self.draw_typed(draws, context, shown, cursor, hidden);
            }
        }
        assert(crate::view::draw_views(draws@) =~= crate::view::draw_views(old(draws)@)
            + self@.input_draws(*context));
    }

    fn draw_clocks(&self, draws: &mut Vec<Draw>, context: &TerminalContext)
        ensures
            crate::view::draw_views(final(draws)@) == crate::view::draw_views(old(draws)@)
                + self@.clock_draws(*context),
    {
        let ghost start = crate::view::draw_views(draws@);
        let ghost all = self@.clock_draws(*context);
        if self.settings.rendering.show_connection_time {
            let clocks = connection_timers(context.status, context.now);
            let ghost views = crate::view::scroll::stopwatch_views(clocks@);
            let mut i: usize = 0;
            assert(start + all.take(0) =~= start);
            while i < clocks.len()
                invariant
                    i <= clocks@.len(),
                    views == crate::view::scroll::stopwatch_views(clocks@),
                    views == crate::view::scroll::clocks(context.status, context.now),
                    self@.edit.settings.rendering.show_connection_time,
                    all == self@.clock_draws(*context),
                    all.len() == clocks@.len(),
                    crate::view::draw_views(draws@) == start + all.take(i as int),
                decreases clocks@.len() - i,
            {
                let clock = &clocks[i];
                assert(views[i as int] == clock@);
                text(
                    draws,
                    context.area.margin(1, clock.row).top_row(),
                    clock.text.clone(),
                    Style::new().fg(clock.color),
                    Alignment::Right,
                );
                assert(start + all.take(i + 1) =~= (start + all.take(i as int)).push(
                    all[i as int],
                ));
                i += 1;
            }
            assert(all.take(i as int) =~= all);
        } else {
            assert(start + all =~= start);
        }
    }

    /// Draws the terminal.
    pub fn terminal_menu(&self, context: &TerminalContext) -> (r: Vec<Draw>)
        ensures
            crate::view::draw_views(r@) == self@.terminal_draws(*context),
    {
        let mut draws: Vec<Draw> = Vec::new();
        shape(
            &mut draws,
            Shape::Received {
                area: context.terminal_area,
                hex: self.settings.rendering.hex_view,
            },
        );
        self.draw_clocks(&mut draws, context);
        self.draw_line(&mut draws, context);
        self.draw_prefix(&mut draws, context);
        self.draw_input(&mut draws, context);
        assert(crate::view::draw_views(draws@) =~= self@.terminal_draws(*context));
        draws
    }
}

} // verus!
