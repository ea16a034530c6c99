//! The prompts and boxes above the main screens.

use vstd::prelude::*;
use vstd::string::*;

use crate::app::{App, AppView, Popup, PopupView, Screen};
use crate::buffer::tui::Size;
use crate::line::{Alignment, Color, Style};
use crate::serial::port_status::InnerPortStatus;
use crate::serial::{hex_id_string, UsbPortInfo, UsbView};
use crate::text::{byte_len, concat2, concat3};
use crate::tui::prompts::{
    labels, PromptTable, AttemptReconnectPrompt, DisconnectPrompt, IgnorePortByNamePrompt,
    IgnoreUsbDevicePrompt, UpdateBeginPrompt, UpdateCheckConsentPrompt, UpdateLaunchPrompt,
};
use crate::tui::{centered_rect_size, Rect};
use crate::view::keybinds::{KeyRow, ListPlace};
use crate::view::menus::{cut, MenuContext};
use crate::view::{shape, text, text_at, Draw, DrawView, Edges, Shape, TableId};

verus! {

/// A prompt as it is drawn.
pub struct PromptBox {
    pub title: String,
    pub subtitle: Option<String>,
    pub color: Color,
    /// What the choices read, from the top down.
    pub choices: Vec<&'static str>,
    pub selected: usize,
}

/// What heads a prompt.
#[verifier::ext_equal]
pub struct Heading {
    pub title: Seq<char>,
    pub subtitle: Option<Seq<char>>,
    pub color: Color,
}

/// What a USB device says of itself.
pub open spec fn usb_text(usb: UsbView) -> Seq<char> {
    "VID: "@ + crate::serial::hex_id(usb.vid) + ", PID: "@ + crate::serial::hex_id(usb.pid)
        + ", Serial #: "@ + (match usb.serial_number {
        Some(serial_number) => serial_number,
        None => "N/A"@,
    })
}

fn describe_usb(usb: &UsbPortInfo) -> (r: String)
    ensures
        r@ == usb_text(usb@),
{
    let mut r = concat2("VID: ", hex_id_string(usb.vid).as_str());
    r.append(", PID: ");
    r.append(hex_id_string(usb.pid).as_str());
    r.append(", Serial #: ");
    match &usb.serial_number {
        Some(serial_number) => r.append(serial_number.as_str()),
        None => r.append("N/A"),
    }
    r
}

impl AppView {
    /// What heads the prompt that is open.
    pub open spec fn heading(self, status: InnerPortStatus, version: Seq<char>) -> Option<Heading> {
        match self.ui.popup {
            Some(PopupView::AttemptReconnectPrompt) => Some(
                Heading {
                    title: "Reconnect to port?"@,
                    subtitle: if self.ui.screen.user_broke_connection {
                        Some("(Reconnections paused!)"@)
                    } else {
                        None
                    },
                    color: Color::Red,
                },
            ),
            Some(PopupView::DisconnectPrompt) => Some(
                Heading {
                    title: "Disconnect from port?"@,
                    subtitle: if !(self.edit.settings.serial.reconnections is Disabled)
                        && status is PrematureDisconnect {
                        Some("(Auto-reconnections paused while open)"@)
                    } else {
                        None
                    },
                    color: Color::Blue,
                },
            ),
            Some(PopupView::IgnoreByUsb(name, usb)) => Some(
                Heading {
                    title: "Hide "@ + name + " (USB) from Port Selection?"@,
                    subtitle: Some(usb_text(usb)),
                    color: Color::Yellow,
                },
            ),
            Some(PopupView::IgnoreByName(name)) => Some(
                Heading {
                    title: "Hide "@ + name + " from Port Selection?"@,
                    subtitle: Some(name),
                    color: Color::Yellow,
                },
            ),
            Some(PopupView::UpdateCheckConsentPrompt) => Some(
                Heading {
                    title: "Allow checking for updates on startup?"@,
                    subtitle: None,
                    color: Color::Yellow,
                },
            ),
            Some(PopupView::UpdateBeginPrompt) => Some(
                Heading {
                    title: "New version found! v"@ + version,
                    subtitle: match self.kept.update_found_version {
                        Some(new) => Some("v"@ + version + (" -> v"@ + new@)),
                        None => None,
                    },
                    color: Color::Green,
                },
            ),
            Some(PopupView::UpdateLaunchPrompt) => Some(
                Heading { title: "Launch new version now?"@, subtitle: None, color: Color::Green },
            ),
            _ => None,
        }
    }
}

/// What heads a prompt, out of its box.
pub open spec fn heading_of(prompt: PromptBox) -> Heading {
    Heading {
        title: prompt.title@,
        subtitle: match prompt.subtitle {
            Some(s) => Some(s@),
            None => None,
        },
        color: prompt.color,
    }
}

/// Whether some texts are what the choices of a prompt read.
pub open spec fn reads<P: PromptTable>(choices: Seq<&'static str>) -> bool {
    &&& choices.len() == P::choices().len()
    &&& forall|i: int| 0 <= i < choices.len() ==> (#[trigger] choices[i])@ == P::choices()[i].label()
}

/// Whether some texts are what the choices of the prompt that is open read.
pub open spec fn prompt_reads(popup: Option<PopupView>, choices: Seq<&'static str>) -> bool {
    match popup {
        Some(PopupView::AttemptReconnectPrompt) => reads::<AttemptReconnectPrompt>(choices),
        Some(PopupView::DisconnectPrompt) => reads::<DisconnectPrompt>(choices),
        Some(PopupView::IgnoreByUsb(_, _)) => reads::<IgnoreUsbDevicePrompt>(choices),
        Some(PopupView::IgnoreByName(_)) => reads::<IgnorePortByNamePrompt>(choices),
        Some(PopupView::UpdateCheckConsentPrompt) => reads::<UpdateCheckConsentPrompt>(choices),
        Some(PopupView::UpdateBeginPrompt) => reads::<UpdateBeginPrompt>(choices),
        Some(PopupView::UpdateLaunchPrompt) => reads::<UpdateLaunchPrompt>(choices),
        _ => false,
    }
}

/// The lines of a text: they end at a line feed, and a carriage return before one
/// belongs to it.
pub open spec fn text_lines(s: Seq<char>) -> Seq<Seq<char>>
    decreases s.len(),
{
    if s.len() == 0 {
        Seq::empty()
    } else {
        let n = line_len(s);
        let line = without_return(s.take(n));
        if n < 0 || n >= s.len() {
            seq![s]
        } else {
            seq![line] + text_lines(s.skip(n + 1))
        }
    }
}

/// How many characters a text has before a line feed.
pub open spec fn line_len(s: Seq<char>) -> int
    decreases s.len(),
{
    if s.len() == 0 || s[0] == '\n' {
        0
    } else {
        1 + line_len(s.skip(1))
    }
}

/// A line without a carriage return at its end.
pub open spec fn without_return(s: Seq<char>) -> Seq<char> {
    if s.len() > 0 && s.last() == '\r' {
        s.drop_last()
    } else {
        s
    }
}

fn find_line_end(s: &str, from: usize) -> (r: usize)
    requires
        from <= s@.len(),
    ensures
        from <= r <= s@.len(),
        r - from == line_len(s@.skip(from as int)),
{
    let len: usize = s.unicode_len();
    let mut at: usize = from;
    while at < len && s.get_char(at) != '\n'
        invariant
            len == s@.len(),
            from <= at <= len,
            line_len(s@.skip(from as int)) == (at - from) + line_len(s@.skip(at as int)),
        decreases len - at,
    {
        assert(s@.skip(at as int).skip(1) =~= s@.skip(at + 1));
        at += 1;
    }
    at
}

/// The lines of a text.
pub fn lines_of(s: &str) -> (r: Vec<String>)
    ensures
        crate::text::texts(r@) == text_lines(s@),
{
    let len: usize = s.unicode_len();
    let mut r: Vec<String> = Vec::new();
    let mut at: usize = 0;
    assert(s@.skip(0) =~= s@);
    assert(crate::text::texts(r@) + text_lines(s@) =~= text_lines(s@));
    while at < len
        invariant
            len == s@.len(),
            at <= len,
            text_lines(s@) == crate::text::texts(r@) + text_lines(s@.skip(at as int)),
        decreases len - at,
    {
        let end: usize = find_line_end(s, at);
        let ghost rest = s@.skip(at as int);
        let ghost before = crate::text::texts(r@);
        let ghost held = r@;
        if end == len {
            assert(s@.subrange(at as int, end as int) =~= rest);
            r.push(s.substring_char(at, end).to_owned());
            at = len;
            proof {
                assert(crate::text::texts(r@) =~= before.push(rest));
                assert(s@.skip(len as int) =~= Seq::<char>::empty());
                assert(text_lines(s@) =~= crate::text::texts(r@) + text_lines(s@.skip(at as int)));
            }
        } else {
            let stop: usize = if end > at && s.get_char(end - 1) == '\r' {
                end - 1
            } else {
                end
            };
            let ghost line = without_return(rest.take(end - at));
            proof {
                assert(rest.take(end - at) =~= s@.subrange(at as int, end as int));
                if end > at {
                    assert(rest.take(end - at).last() == s@[end - 1]);
                }
                assert(s@.subrange(at as int, stop as int) =~= line);
                assert(rest.skip(end - at + 1) =~= s@.skip(end + 1));
            }
            r.push(s.substring_char(at, stop).to_owned());
            at = end + 1;
            proof {
                assert(crate::text::texts(r@) =~= before.push(line));
                assert(text_lines(s@) =~= crate::text::texts(r@) + text_lines(s@.skip(at as int)));
            }
        }
    }
    assert(s@.skip(at as int) =~= Seq::<char>::empty());
    assert(crate::text::texts(r@) =~= text_lines(s@));
    r
}

/// The most bytes in any of some lines.
pub open spec fn widest(lines: Seq<Seq<char>>) -> nat
    decreases lines.len(),
{
    if lines.len() == 0 {
        0
    } else {
        let rest = widest(lines.drop_last());
        let own = vstd::utf8::encode_utf8(lines.last()).len();
        if own > rest {
            own
        } else {
            rest
        }
    }
}

/// The place of a box with an error.
pub open spec fn error_area(error: Seq<char>, area: Rect) -> Rect {
    let lines = text_lines(error);
    let title = "Error connecting to port!"@;
    let columns = if widest(lines) > vstd::utf8::encode_utf8(title).len() {
        widest(lines)
    } else {
        vstd::utf8::encode_utf8(title).len()
    };
    crate::tui::centered(
        Size {
            width: crate::view::clipped((columns + 6) as int) as u16,
            height: crate::view::clipped((lines.len() + 3) as int) as u16,
        },
        area,
    )
}

fn clip(n: usize, more: u16) -> (r: u16)
    ensures
        r == crate::view::clipped(n + more),
{
    if n > 0xffff {
        0xffff
    } else {
        (n as u16).saturating_add(more)
    }
}

/// Draws the box about a connection that failed: its place, and its lines.
pub fn error_box(error: &str, area: Rect) -> (r: (Rect, Vec<String>))
    ensures
        r.0 == error_area(error@, area),
        crate::text::texts(r.1@) == text_lines(error@),
{
    let lines = lines_of(error);
    let title = "Error connecting to port!";
    let mut columns: usize = 0;
    let ghost all = crate::text::texts(lines@);
    let mut i: usize = 0;
    assert(all.take(0) =~= Seq::empty());
    while i < lines.len()
        invariant
            all == crate::text::texts(lines@),
            i <= lines@.len(),
            columns == widest(all.take(i as int)),
        decreases lines@.len() - i,
    {
        let own: usize = byte_len(lines[i].as_str());
        proof {
            assert(all.take(i + 1).drop_last() =~= all.take(i as int));
            assert(all.take(i + 1).last() == lines@[i as int]@);
        }
        if own > columns {
            columns = own;
        }
        i += 1;
    }
    assert(all.take(i as int) =~= all);
    assert(all.len() == lines@.len());
    let title_len: usize = byte_len(title);
    if title_len >= columns {
        columns = title_len;
    }
    let size = Size { width: clip(columns, 6), height: clip(lines.len(), 3) };
    (centered_rect_size(size, area), lines)
}

impl AppView {
    /// The list of files used before.
    pub open spec fn recent_draws(self, area: Rect) -> Seq<DrawView> {
        let center = crate::tui::centered(Size { width: 80, height: 15 }, area);
        seq![
            DrawView::Shape(Shape::Clear(center)),
            DrawView::Shape(
                Shape::Block { area: center, edges: Edges::All, color: Color::LightRed },
            ),
            text_at(
                Rect { height: 1, ..center },
                " Select from recently used ELFs: "@,
                Style::plain().with_fg(Color::Reset),
                Alignment::Center,
            ),
            DrawView::Shape(
                Shape::Table {
                    area: center.inside(),
                    table: TableId::RecentElfs,
                    selected: Some(self.ui.screen.popup_menu_scroll),
                },
            ),
        ]
    }
}

/// The place of the file explorer.
pub fn explorer_area(area: Rect) -> (r: Rect)
    ensures
        r == crate::tui::centered(Size { width: 70, height: 20 }, area),
{
    centered_rect_size(Size { width: 70, height: 20 }, area)
}

/// The place of the progress of a download, and its inside.
pub fn download_area(area: Rect) -> (r: (Rect, Rect))
    ensures
        r.0 == crate::tui::centered(Size { width: 60, height: 8 }, area),
        r.1 == r.0.inside(),
{
    let center = centered_rect_size(Size { width: 60, height: 8 }, area);
    (center, center.block_inner())
}

impl App {
    fn prompt_of(
        &self,
        title: String,
        subtitle: Option<String>,
        color: Color,
        choices: Vec<&'static str>,
    ) -> (r: Option<PromptBox>)
        ensures
            r is Some,
            r->0.title == title,
            r->0.subtitle == subtitle,
            r->0.color == color,
            r->0.choices == choices,
            r->0.selected == self@.ui.screen.popup_menu_scroll,
    {
        Some(
            PromptBox {
                title,
                subtitle,
                color,
                choices,
                selected: self.screen.popup_menu_scroll,
            },
        )
    }

    fn pause_note(&self, paused: bool, words: &str) -> (r: Option<String>)
        ensures
            match r {
                Some(s) => paused && s@ == words@,
                None => !paused,
            },
    {
        if paused {
            Some(words.to_owned())
        } else {
            None
        }
    }

    fn update_note(&self, version: &str) -> (r: Option<String>)
        ensures
            (match r {
                Some(s) => Some(s@),
                None => None,
            }) == (match self@.kept.update_found_version {
                Some(new) => Some("v"@ + version@ + (" -> v"@ + new@)),
                None => None,
            }),
    {
        match &self.update_found_version {
            Some(new) => {
                let rest = concat2(" -> v", new.as_str());
                Some(concat3("v", version, rest.as_str()))
            },
            None => None,
        }
    }

    /// The prompt that is open.
    pub fn prompt_box(&self, status: InnerPortStatus, version: &str) -> (r: Option<PromptBox>)
        ensures
            match self@.heading(status, version@) {
                Some(heading) => {
                    &&& r is Some
                    &&& heading_of(r->0) == heading
                    &&& r->0.selected == self@.ui.screen.popup_menu_scroll
                    &&& prompt_reads(self@.ui.popup, r->0.choices@)
                },
                None => r is None,
            },
    {
        match &self.popup {
            Some(Popup::AttemptReconnectPrompt) => self.prompt_of(
                "Reconnect to port?".to_owned(),
                self.pause_note(self.screen.user_broke_connection, "(Reconnections paused!)"),
                Color::Red,
                labels::<AttemptReconnectPrompt>(),
            ),
            Some(Popup::DisconnectPrompt) => self.prompt_of(
                "Disconnect from port?".to_owned(),
                self.pause_note(
                    self.settings.serial.reconnections.allowed()
                        && status.is_premature_disconnect(),
                    "(Auto-reconnections paused while open)",
                ),
                Color::Blue,
                labels::<DisconnectPrompt>(),
            ),
            Some(Popup::IgnoreByUsb(name, usb)) => self.prompt_of(
                concat3("Hide ", name.as_str(), " (USB) from Port Selection?"),
                Some(describe_usb(usb)),
                Color::Yellow,
                labels::<IgnoreUsbDevicePrompt>(),
            ),
            Some(Popup::IgnoreByName(name)) => self.prompt_of(
                concat3("Hide ", name.as_str(), " from Port Selection?"),
                Some(name.clone()),
                Color::Yellow,
                labels::<IgnorePortByNamePrompt>(),
            ),
            Some(Popup::UpdateCheckConsentPrompt) => self.prompt_of(
                "Allow checking for updates on startup?".to_owned(),
                None,
                Color::Yellow,
                labels::<UpdateCheckConsentPrompt>(),
            ),
            Some(Popup::UpdateBeginPrompt) => self.prompt_of(
                concat2("New version found! v", version),
                self.update_note(version),
                Color::Green,
                labels::<UpdateBeginPrompt>(),
            ),
            Some(Popup::UpdateLaunchPrompt) => self.prompt_of(
                "Launch new version now?".to_owned(),
                None,
                Color::Green,
                labels::<UpdateLaunchPrompt>(),
            ),
            _ => None,
        }
    }

    /// Draws the list of files used before.
    pub fn recent_elfs_box(&self, area: Rect) -> (r: Vec<Draw>)
        ensures
            crate::view::draw_views(r@) == self@.recent_draws(area),
    {
        let center = centered_rect_size(Size { width: 80, height: 15 }, area);
        let mut draws: Vec<Draw> = Vec::new();
        shape(&mut draws, Shape::Clear(center));
        shape(
            &mut draws,
            Shape::Block { area: center, edges: Edges::All, color: Color::LightRed },
        );
        text(
            &mut draws,
            Rect { height: 1, ..center },
            " Select from recently used ELFs: ".to_owned(),
            Style::new().fg(Color::Reset),
            Alignment::Center,
        );
        shape(
            &mut draws,
            Shape::Table {
                area: center.block_inner(),
                table: TableId::RecentElfs,
                selected: Some(self.screen.popup_menu_scroll),
            },
        );
        assert(crate::view::draw_views(draws@) =~= self@.recent_draws(area));
        draws
    }
}

/// What lies above the main screen, as it is drawn.
pub enum PopupDraw {
    Nothing,
    /// A menu, or the list of files used before.
    Draws(Vec<Draw>),
    Prompt(PromptBox),
    /// The list of combinations of keys, and where it stands.
    Keybinds(Vec<KeyRow>, ListPlace),
    /// The place of the file explorer.
    Explorer(Rect),
    /// The place of an error, and its lines.
    Error(Rect, Vec<String>),
    /// The place of the progress of a download, and its inside.
    Download(Rect, Rect),
}

impl AppView {
    /// Whether something is what lies above the main screen.
    pub open spec fn popup_drawn(
        self,
        area: Rect,
        status: InnerPortStatus,
        version: Seq<char>,
        context: MenuContext,
        drawn: PopupDraw,
    ) -> bool {
        match self.ui.popup {
            None => drawn is Nothing,
            Some(PopupView::SettingsMenu(_)) => drawn matches PopupDraw::Draws(draws)
                && crate::view::draw_views(draws@) == self.menu_draws(area, context),
            Some(PopupView::ToolMenu(_)) => drawn matches PopupDraw::Draws(draws)
                && crate::view::draw_views(draws@) == self.menu_draws(area, context),
            Some(PopupView::CurrentKeybinds) => match drawn {
                PopupDraw::Keybinds(rows, place) => {
                    &&& crate::view::keybinds::rows_of(rows@) == crate::view::keybinds::list_of(
                        self.entries(),
                    )
                    &&& place == crate::view::keybinds::list_place(
                        crate::view::keybinds::list_columns(
                            crate::view::keybinds::rows_of(rows@),
                        ),
                        rows@.len() as int,
                        area,
                        crate::view::menus::cut16(self.ui.screen.popup_menu_scroll as int),
                    )
                },
                _ => drawn is Nothing && crate::view::keybinds::longest_label(self.entries())
                    == usize::MAX,
            },
            Some(PopupView::DefmtNewElf) => drawn == PopupDraw::Explorer(
                crate::tui::centered(Size { width: 70, height: 20 }, area),
            ),
            Some(PopupView::DefmtRecentElf) => drawn matches PopupDraw::Draws(draws)
                && crate::view::draw_views(draws@) == self.recent_draws(area),
            Some(PopupView::SerialConnectionFailed(error)) => drawn matches PopupDraw::Error(
                place,
                lines,
            ) && place == error_area(error, area) && crate::text::texts(lines@) == text_lines(
                error,
            ),
            Some(PopupView::UpdateDownloading) => ({
                let place = crate::tui::centered(Size { width: 60, height: 8 }, area);
                drawn == PopupDraw::Download(place, place.inside())
            }),
            _ => drawn matches PopupDraw::Prompt(prompt) && self.heading(status, version) == Some(
                heading_of(prompt),
            ) && prompt.selected == self.ui.screen.popup_menu_scroll && prompt_reads(
                self.ui.popup,
                prompt.choices@,
            ),
        }
    }
}

impl App {
    fn keybinds_popup(&self, area: Rect) -> (r: PopupDraw)
        requires
            self@.wf(),
            self@.ui.popup == Some(PopupView::CurrentKeybinds),
        ensures
            forall|status: InnerPortStatus, version: Seq<char>, context: MenuContext|
                #[trigger] self@.popup_drawn(area, status, version, context, r),
    {
        match self.show_keybinds(area, cut(self.screen.popup_menu_scroll)) {
            Some((rows, place)) => PopupDraw::Keybinds(rows, place),
            None => PopupDraw::Nothing,
        }
    }

    /// Draws what lies above the main screen.
    pub fn render_popups(
        &self,
        area: Rect,
        status: InnerPortStatus,
        version: &str,
        context: &MenuContext,
    ) -> (r: PopupDraw)
        requires
            self@.wf(),
        ensures
            self@.popup_drawn(area, status, version@, *context, r),
    {
        match &self.popup {
            None => PopupDraw::Nothing,
            Some(Popup::SettingsMenu(_)) => PopupDraw::Draws(
                self.render_popup_menus(area, context),
            ),
            Some(Popup::ToolMenu(_)) => PopupDraw::Draws(self.render_popup_menus(area, context)),
            Some(Popup::CurrentKeybinds) => self.keybinds_popup(area),
            Some(Popup::DefmtNewElf) => PopupDraw::Explorer(explorer_area(area)),
            Some(Popup::DefmtRecentElf) => PopupDraw::Draws(self.recent_elfs_box(area)),
            Some(Popup::SerialConnectionFailed(error)) => {
                let (place, lines) = error_box(error.as_str(), area);
                PopupDraw::Error(place, lines)
            },
            Some(Popup::UpdateDownloading) => {
                let (place, inside) = download_area(area);
                PopupDraw::Download(place, inside)
            },
            _ => match self.prompt_box(status, version) {
                Some(prompt) => PopupDraw::Prompt(prompt),
                None => PopupDraw::Nothing,
            },
        }
    }

    /// Keeps the list of combinations from being scrolled beyond its end.
    pub fn clamp_keybinds_scroll(&mut self, scroll: u16)
        ensures
            final(self)@ == old(self)@.on_row(scroll as int),
            old(self)@.wf() ==> final(self)@.wf(),
    {
        self.screen.popup_menu_scroll = scroll as usize;
    }

    /// Takes up where the hint of the pop-up stands once it was drawn.
    pub fn set_hint_scroll(&mut self, scroll: i32)
        ensures
            final(self)@ == old(self)@.with_screen(
                Screen { popup_hint_scroll: scroll, ..old(self)@.ui.screen },
            ),
            old(self)@.wf() ==> final(self)@.wf(),
    {
        self.screen.popup_hint_scroll = scroll;
    }
}

} // verus!
