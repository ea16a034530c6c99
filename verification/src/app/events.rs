//! What follows from events.

use vstd::prelude::*;
use vstd::string::*;

use crate::app::effects::{Effect, EffectView, Request};
use crate::app::{
    App, AppView, Fault, Menu, Moment, Popup, PopupView, Screen, ShownNotice, Tick, Timer,
    FAILED_SEND_VISUAL_TIME_MS,
};
use crate::buffer::logging::LoggingEvent;
use crate::keys::KeyEvent;
use crate::line::Color;
use crate::serial::{
    PortView, ReconnectType, ReconnectionStrictness, SerialDisconnectReason, SerialPortInfo,
};
use crate::text::{concat2, concat3, str_eq};
use crate::tui::esp::{EspEvent, EspFlashHelper, ERASE_FLASH_CONFIRM_PERIOD_MS};

verus! {

/// What the port tells.
#[derive(Debug)]
pub enum SerialEvent {
    /// A connection was made, or made again in some way.
    Connected(Option<ReconnectType>),
    Disconnected(SerialDisconnectReason),
    PortScan(Vec<SerialPortInfo>),
    /// Some data could not be sent.
    UnsentTx,
    EspFlash(EspEvent),
}

/// What is told about updates.
#[derive(Debug)]
pub enum UpdateEvent {
    UpToDate,
    UpdateFound(String),
    UpdateCheckError,
    DownloadProgress,
    ReadyToLaunch,
    UpdateError,
}

/// Something that happened.
#[derive(Debug)]
pub enum Event {
    /// The window has another size.
    Resize,
    KeyPress(KeyEvent),
    MouseScroll { up: bool },
    RightClick,
    Serial(SerialEvent),
    /// Bytes were received.
    RxBuffer,
    Tick(Tick),
    Logging(LoggingEvent),
    /// The file with `defmt` messages changed.
    ElfUpdated(String),
    /// The file with `defmt` messages cannot be watched.
    ElfWatchError(String),
    DefmtFromFilePicker(String),
    Updates(UpdateEvent),
    Quit,
}

/// How long a hint rests before it moves on.
pub open spec fn scroll_delay(speed: i16) -> int {
    if speed < 0 {
        400 + 200 * -speed
    } else if 800int / (2 + speed) < 40 {
        40
    } else {
        800int / (2 + speed)
    }
}

fn hint_delay(speed: i16) -> (r: u64)
    ensures
        r == scroll_delay(speed),
{
    if speed < 0 {
        (400 + 200 * (0 - speed as i64)) as u64
    } else {
        let ms: u64 = 800 / (2 + speed as u64);
        if ms < 40 {
            40
        } else {
            ms
        }
    }
}

/// When a notification changes next.
pub open spec fn notice_delay(notice: ShownNotice) -> int {
    if notice.shown_for <= notice.emerge || notice.shown_for >= notice.pause_and_show {
        50
    } else if notice.replaced && notice.shown_for <= notice.expand {
        notice.expand - notice.shown_for
    } else {
        notice.pause_and_show - notice.shown_for
    }
}

fn notification_delay(notice: ShownNotice) -> (r: u64)
    ensures
        r == notice_delay(notice),
{
    if notice.shown_for <= notice.emerge || notice.shown_for >= notice.pause_and_show {
        50
    } else if notice.replaced && notice.shown_for <= notice.expand {
        notice.expand - notice.shown_for
    } else {
        notice.pause_and_show - notice.shown_for
    }
}

/// What is told about a connection that was made again.
pub open spec fn reconnect_text(kind: ReconnectType) -> Seq<char> {
    match kind {
        ReconnectType::PerfectMatch => "Reconnected to same device!"@,
        ReconnectType::UsbStrict => "Reconnected to same device?"@,
        ReconnectType::UsbLoose => "Connected to similar USB device."@,
        ReconnectType::LastDitch => "Connected to COM port by name."@,
    }
}

fn reconnect_notice(kind: ReconnectType) -> (r: &'static str)
    ensures
        r@ == reconnect_text(kind),
{
    match kind {
        ReconnectType::PerfectMatch => "Reconnected to same device!",
        ReconnectType::UsbStrict => "Reconnected to same device?",
        ReconnectType::UsbLoose => "Connected to similar USB device.",
        ReconnectType::LastDitch => "Connected to COM port by name.",
    }
}

/// What is told about what follows a lost connection.
pub open spec fn outlook_text(reconnections: ReconnectionStrictness) -> Seq<char> {
    match reconnections {
        ReconnectionStrictness::Disabled => "Not attempting to reconnect"@,
        ReconnectionStrictness::High => "Attempting to reconnect (strict checks)"@,
        _ => "Attempting to reconnect (loose checks)"@,
    }
}

fn outlook(reconnections: ReconnectionStrictness) -> (r: &'static str)
    ensures
        r@ == outlook_text(reconnections),
{
    match reconnections {
        ReconnectionStrictness::Disabled => "Not attempting to reconnect",
        ReconnectionStrictness::High => "Attempting to reconnect (strict checks)",
        _ => "Attempting to reconnect (loose checks)",
    }
}

/// How loading a file with `defmt` messages ended.
#[derive(Debug)]
pub enum ElfOutcome {
    Loaded,
    /// It was loaded, but for the places that its messages come from.
    LocationError(String),
    Failed(String),
}

/// Why a file with `defmt` messages was not loaded.
#[derive(Debug)]
pub enum YapLoadDefmtError {
    /// It could not be added to those used before; the reason is given.
    Recents(String),
    /// It could not be read; the reason is given.
    DefmtLoad(String),
    /// The log could not be told.
    LoggingWorker(crate::buffer::logging::LoggingWorkerMissing),
    /// It cannot be watched; the reason is given.
    ElfWatcher(String),
}

impl YapLoadDefmtError {
    /// What went wrong, in words.
    pub open spec fn words(self) -> Seq<char> {
        match self {
            YapLoadDefmtError::Recents(_) => "error adding elf to recents"@,
            YapLoadDefmtError::DefmtLoad(_) => "failed parsing defmt from elf"@,
            YapLoadDefmtError::LoggingWorker(_) => "failed to send logging worker new defmt table"@,
            YapLoadDefmtError::ElfWatcher(reason) => reason@,
        }
    }

    /// What went wrong, in words.
    pub fn as_text(&self) -> (r: &str)
        ensures
            r@ == self.words(),
    {
        match self {
            YapLoadDefmtError::Recents(_) => "error adding elf to recents",
            YapLoadDefmtError::DefmtLoad(_) => "failed parsing defmt from elf",
            YapLoadDefmtError::LoggingWorker(_) => "failed to send logging worker new defmt table",
            YapLoadDefmtError::ElfWatcher(reason) => reason.as_str(),
        }
    }
}

/// Since when something lasts, unless its time is up.
pub open spec fn lasting(since: Option<u64>, now: u64, period: u64) -> Option<u64> {
    match since {
        Some(since) => if now - since >= period {
            None
        } else {
            Some(since)
        },
        None => None,
    }
}

fn outlasting(since: Option<u64>, now: u64, period: u64) -> (r: Option<u64>)
    ensures
        r == lasting(since, now, period),
{
    match since {
        Some(since) => if now >= since && now - since >= period {
            None
        } else {
            Some(since)
        },
        None => None,
    }
}

impl AppView {
    /// After bytes were received.
    #[verifier::opaque]
    pub open spec fn received(self) -> AppView {
        self.asked(Request::TakeReceived).asked(Request::ScrollBuffer(0)).flipped()
    }

    /// After the wheel of the mouse was turned.
    #[verifier::opaque]
    pub open spec fn wheeled(self, up: bool) -> AppView {
        if self.ui.popup == Some(PopupView::CurrentKeybinds) {
            self.on_row(self.next_row(crate::app::navigate::RowKind::Free, !up))
        } else if up {
            self.asked(Request::ScrollBuffer(1))
        } else {
            self.asked(Request::ScrollBuffer((-1) as i32))
        }
    }

    /// After a click that pastes.
    #[verifier::opaque]
    pub open spec fn clicked(self) -> AppView {
        if self.ui.screen.menu is Terminal && self.ui.popup is None {
            self.asked(Request::Paste)
        } else {
            self
        }
    }

    /// With the prompt about a lost connection closed.
    #[verifier::opaque]
    pub open spec fn reconnect_unasked(self) -> AppView {
        if self.ui.popup == Some(PopupView::AttemptReconnectPrompt) {
            self.with_popup(None)
        } else {
            self
        }
    }

    /// With the user told how a connection was made again.
    #[verifier::opaque]
    pub open spec fn reconnect_told(self, kind: Option<ReconnectType>) -> AppView {
        match kind {
            Some(kind) => self.said(reconnect_text(kind), Color::Green),
            None => self,
        }
    }

    /// After a connection was made.
    #[verifier::opaque]
    pub open spec fn connected(self, kind: Option<ReconnectType>, at: Moment) -> AppView {
        let told = self.asked(
            Request::Repeat { timer: Timer::PerSecond, tick: Tick::PerSecond, every_ms: 1000 },
        ).reconnect_told(kind);
        if at.has_port {
            told.asked(Request::LogConnected(kind)).reconnect_unasked().asked(
                Request::ScrollBuffer(0),
            ).paused(false)
        } else {
            told.asked(Request::Fail(Fault::NoCurrentPort))
        }
    }

    /// With the right one of the prompts about a connection.
    #[verifier::opaque]
    pub open spec fn reasked(self, at: Moment) -> AppView {
        if self.ui.popup == Some(PopupView::DisconnectPrompt) && self.reconnect_instead(at) {
            self.shown(PopupView::AttemptReconnectPrompt)
        } else {
            self
        }
    }

    /// With the user told why a connection ended.
    #[verifier::opaque]
    pub open spec fn loss_told(self, reason: SerialDisconnectReason) -> AppView {
        match reason {
            SerialDisconnectReason::Intentional => self,
            SerialDisconnectReason::UserBrokeConnection => self.paused(true).said(
                "Broke serial connection! (Reconnections paused!)"@,
                Color::Red,
            ),
            SerialDisconnectReason::Error(error) => self.said(
                "Port error: "@ + error@ + (" - "@ + outlook_text(
                    self.edit.settings.serial.reconnections,
                )),
                Color::Red,
            ),
        }
    }

    /// After a connection ended.
    #[verifier::opaque]
    pub open spec fn disconnected(self, reason: SerialDisconnectReason, at: Moment) -> AppView {
        self.device_closed().asked(Request::LogDisconnected).reasked(at).loss_told(reason)
    }

    /// Where the selection stands once other ports were found: it moves with their
    /// number.
    pub open spec fn moved_selection(self, count: nat) -> int {
        let moved = self.ui.screen.port_selection_scroll + count - self.kept.ports.len();
        if 0 <= moved <= usize::MAX {
            moved
        } else {
            0
        }
    }

    /// After ports were found.
    #[verifier::opaque]
    pub open spec fn scanned(self, ports: Seq<PortView>) -> AppView {
        self.with_screen(
            Screen {
                port_selection_scroll: self.moved_selection(ports.len()) as usize,
                ..self.ui.screen
            },
        ).with_ports(ports)
    }

    /// With nothing waiting for its turn.
    pub open spec fn unqueued(self) -> AppView {
        self.with_queue(Seq::empty())
    }

    /// With another pop-up about a device.
    pub open spec fn with_device(self, popup: Option<crate::tui::esp::EspPopup>) -> AppView {
        self.with_espflash(EspFlashHelper { popup, ..self.kept.espflash })
    }

    /// What is told, and asked, about the work on a device.
    #[verifier::opaque]
    pub open spec fn device_told(self, event: EspEvent) -> AppView {
        let told = match crate::tui::esp::event_notice(event) {
            Some((text, color)) => self.said(text, color),
            None => self,
        };
        if event is PortReturned {
            told.asked(Request::AcknowledgeInterrupt)
        } else {
            told
        }
    }

    /// Whether `after` is what comes of the work on a device.
    #[verifier::opaque]
    pub open spec fn device_worked(self, event: EspEvent, after: AppView) -> bool {
        match event {
            EspEvent::Error(error) => after == self.said(error@, Color::Red).unqueued(),
            _ => if crate::tui::esp::event_fits(self.kept.espflash.popup, event) {
                exists|popup: Option<crate::tui::esp::EspPopup>|
                    #[trigger] crate::tui::esp::popup_after(
                        self.kept.espflash.popup,
                        event,
                        popup,
                    ) && after == self.with_device(popup).device_told(event)
            } else {
                after == self.asked(Request::Fail(Fault::StrayProgress))
            },
        }
    }

    /// After what the log tells.
    #[verifier::opaque]
    pub open spec fn log_told(self, event: LoggingEvent) -> AppView {
        match event {
            LoggingEvent::FinishedReconsumption => self.said(
                "Finished syncing contents to log!"@,
                Color::Green,
            ),
            LoggingEvent::Error(error) => self.said("Logging error: "@ + error@, Color::Red),
        }
    }

    /// Whether a lost connection is sought again without being asked.
    pub open spec fn seeks_connection(self, at: Moment) -> bool {
        !(at.status is Connected) && !(at.status is LentOut) && !(at.reconnections is Disabled)
            && !self.ui.screen.user_broke_connection
    }

    /// After another second.
    #[verifier::opaque]
    pub open spec fn second_passed(self, at: Moment) -> AppView {
        match self.ui.screen.menu {
            Menu::PortSelection => self.asked(Request::ScanPorts),
            Menu::Terminal => if self.connection_asked() {
                self
            } else if self.seeks_connection(at) {
                self.flipped().asked(Request::Reconnect(None))
            } else {
                self
            },
        }
    }

    /// With the hint of the pop-up moved on.
    #[verifier::opaque]
    pub open spec fn hint_moved(self) -> AppView {
        let moved = self.with_screen(
            Screen {
                popup_hint_scroll: (if self.ui.screen.popup_hint_scroll < i32::MAX {
                    self.ui.screen.popup_hint_scroll + 1
                } else {
                    i32::MAX as int
                }) as i32,
                ..self.ui.screen
            },
        );
        if self.ui.popup is Some {
            moved.asked(
                Request::Oneshot {
                    timer: Timer::ScrollText,
                    tick: Tick::Scroll,
                    after_ms: scroll_delay(
                        self.edit.settings.behavior.text_scroll_speed,
                    ) as u64,
                },
            )
        } else {
            moved
        }
    }

    /// With the next change of a notification timed.
    #[verifier::opaque]
    pub open spec fn notice_timed(self, at: Moment) -> AppView {
        match at.notice {
            Some(notice) => self.asked(
                Request::Oneshot {
                    timer: Timer::Notification,
                    tick: Tick::Notification,
                    after_ms: notice_delay(notice) as u64,
                },
            ),
            None => self,
        }
    }

    /// With what lasts for a while only ended if its time is up.
    #[verifier::opaque]
    pub open spec fn expired(self, now: u64) -> AppView {
        self.with_screen(
            Screen {
                failed_send_at: lasting(
                    self.ui.screen.failed_send_at,
                    now,
                    FAILED_SEND_VISUAL_TIME_MS,
                ),
                ..self.ui.screen
            },
        ).erase_pressed(
            lasting(self.kept.espflash.first_erase_press, now, ERASE_FLASH_CONFIRM_PERIOD_MS),
        )
    }

    /// After a tick.
    #[verifier::opaque]
    pub open spec fn ticked(self, tick: Tick, at: Moment) -> AppView {
        match tick {
            Tick::PerSecond => self.second_passed(at),
            Tick::Scroll => self.hint_moved(),
            Tick::Action => self.advanced(at),
            Tick::Notification => self.notice_timed(at),
            Tick::Requested(_) => self.expired(at.now),
            Tick::Tx => self.flipped(),
        }
    }

    /// After the file with messages changed.
    #[verifier::opaque]
    pub open spec fn elf_updated(self, path: Seq<char>) -> AppView {
        if self.edit.settings.defmt.watch_elf_for_changes {
            self.effected(EffectView::LoadElf { path, reload: true })
        } else {
            self
        }
    }

    /// With a newer version known, unless the user wants to skip it.
    #[verifier::opaque]
    pub open spec fn update_noticed(self, version: String) -> AppView {
        if version@ == self.kept.updates.skipped_version@ {
            self
        } else {
            self.with_update_found_version(Some(version))
        }
    }

    /// After what is told about updates.
    #[verifier::opaque]
    pub open spec fn update_told(self, event: UpdateEvent) -> AppView {
        match event {
            UpdateEvent::UpToDate => self,
            UpdateEvent::UpdateFound(version) => self.update_noticed(version),
            UpdateEvent::UpdateCheckError => self,
            UpdateEvent::DownloadProgress => self.with_popup(Some(PopupView::UpdateDownloading)),
            UpdateEvent::ReadyToLaunch => if self.kept.layout.new_window {
                self.with_popup(Some(PopupView::UpdateLaunchPrompt))
            } else {
                self.asked(Request::StartNewVersion)
            },
            UpdateEvent::UpdateError => self.asked(Request::Fail(Fault::UpdateFailed)),
        }
    }

    /// Whether `after` is what comes of what the port tells.
    #[verifier::opaque]
    pub open spec fn port_told(self, event: SerialEvent, at: Moment, after: AppView) -> bool {
        match event {
            SerialEvent::Connected(kind) => after == self.connected(kind, at),
            SerialEvent::Disconnected(reason) => after == self.disconnected(reason, at),
            SerialEvent::PortScan(ports) => after == self.scanned(
                crate::serial::port_views(ports@),
            ),
            SerialEvent::UnsentTx => after == self.send_failed(at.now),
            SerialEvent::EspFlash(event) => self.device_worked(event, after),
        }
    }

    /// Whether `after` is what comes of an event.
    #[verifier::opaque]
    pub open spec fn event_handled(self, event: Event, at: Moment, after: AppView) -> bool {
        match event {
            Event::Quit => after == self.ended(),
            Event::RxBuffer => after == self.received(),
            Event::Resize => after == self.asked(Request::Resize),
            Event::KeyPress(key) => self.key_pressed(key, at, after),
            Event::MouseScroll { up } => after == self.wheeled(up),
            Event::RightClick => after == self.clicked(),
            Event::Serial(event) => self.port_told(event, at, after),
            Event::Logging(event) => after == self.log_told(event),
            Event::Tick(tick) => after == self.ticked(tick, at),
            Event::DefmtFromFilePicker(path) => after == self.effected(
                EffectView::LoadElf { path: path@, reload: false },
            ),
            Event::ElfUpdated(path) => after == self.elf_updated(path@),
            Event::ElfWatchError(error) => after == self.said(error@, Color::Red),
            Event::Updates(event) => after == self.update_told(event),
        }
    }
}

impl App {
    fn take_received(&mut self)
        ensures
            final(self)@ == old(self)@.received(),
            old(self)@.wf() ==> final(self)@.wf(),
    {
        proof {
            reveal(AppView::received);
        }
        self.ask(Request::TakeReceived);
        self.ask(Request::ScrollBuffer(0));
        self.flip_line();
    }

    fn shows_keybinds(&self) -> (r: bool)
        ensures
            r == (self@.ui.popup == Some(PopupView::CurrentKeybinds)),
    {
        match &self.popup {
            Some(Popup::CurrentKeybinds) => true,
            _ => false,
        }
    }

    fn scroll_wheel(&mut self, up: bool)
        ensures
            final(self)@ == old(self)@.wheeled(up),
            old(self)@.wf() ==> final(self)@.wf(),
    {
        proof {
            reveal(AppView::wheeled);
        }
        if self.shows_keybinds() {
            let row: usize = self.screen.popup_menu_scroll;
            self.screen.popup_menu_scroll = if up {
                row.saturating_sub(1)
            } else {
                row.saturating_add(1)
            };
        } else if up {
            self.ask(Request::ScrollBuffer(1));
        } else {
            self.ask(Request::ScrollBuffer(-1));
        }
    }

    fn click_right(&mut self)
        ensures
            final(self)@ == old(self)@.clicked(),
            old(self)@.wf() ==> final(self)@.wf(),
    {
        proof {
            reveal(AppView::clicked);
        }
        if self.screen.menu == Menu::Terminal && self.popup.is_none() {
            self.ask(Request::Paste);
        }
    }

    /// Adds a text to what was typed.
    pub fn paste(&mut self, text: &str)
        ensures
            final(self)@ == old(self)@.with_text_input(
                old(self)@.kept.text_input.appended(text@),
            ),
            old(self)@.wf() ==> final(self)@.wf(),
    {
        proof {
            reveal(crate::app::valid);
        }
        self.text_input.append_to_input(text);
    }

    fn tell_reconnect(&mut self, kind: Option<ReconnectType>)
        ensures
            final(self)@ == old(self)@.reconnect_told(kind),
            old(self)@.wf() ==> final(self)@.wf(),
    {
        proof {
            reveal(AppView::reconnect_told);
        }
        match kind {
            Some(kind) => self.say(reconnect_notice(kind).to_owned(), Color::Green),
            None => {},
        }
    }

    fn close_reconnect_prompt(&mut self)
        ensures
            final(self)@ == old(self)@.reconnect_unasked(),
            old(self)@.wf() ==> final(self)@.wf(),
    {
        proof {
            reveal(AppView::reconnect_unasked);
        }
        let open = match &self.popup {
            Some(Popup::AttemptReconnectPrompt) => true,
            _ => false,
        };
        if open {
            self.popup = None;
        }
    }

    fn on_connected(&mut self, kind: Option<ReconnectType>, at: Moment)
        ensures
            final(self)@ == old(self)@.connected(kind, at),
            old(self)@.wf() ==> final(self)@.wf(),
    {
        proof {
            reveal(AppView::connected);
        }
        self.ask(
            Request::Repeat { timer: Timer::PerSecond, tick: Tick::PerSecond, every_ms: 1000 },
        );
        self.tell_reconnect(kind);
        if !at.has_port {
            self.ask(Request::Fail(Fault::NoCurrentPort));
            return;
        }
        self.ask(Request::LogConnected(kind));
        self.close_reconnect_prompt();
        self.ask(Request::ScrollBuffer(0));
        self.screen.user_broke_connection = false;
    }

    fn ask_again(&mut self, at: Moment)
        ensures
            final(self)@ == old(self)@.reasked(at),
            old(self)@.wf() ==> final(self)@.wf(),
    {
        proof {
            reveal(AppView::reasked);
        }
        let asked = match &self.popup {
            Some(Popup::DisconnectPrompt) => true,
            _ => false,
        };
        if asked && self.reconnect_prompt_instead(at) {
            self.show_popup(Popup::AttemptReconnectPrompt);
        }
    }

    fn tell_loss(&mut self, reason: SerialDisconnectReason)
        ensures
            final(self)@ == old(self)@.loss_told(reason),
            old(self)@.wf() ==> final(self)@.wf(),
    {
        proof {
            reveal(AppView::loss_told);
        }
        match reason {
            SerialDisconnectReason::Intentional => {},
            SerialDisconnectReason::UserBrokeConnection => {
                self.screen.user_broke_connection = true;
                self.say(
                    "Broke serial connection! (Reconnections paused!)".to_owned(),
                    Color::Red,
                );
            },
            SerialDisconnectReason::Error(error) => {
                let rest = concat2(" - ", outlook(self.settings.serial.reconnections));
                self.say(
                    concat3("Port error: ", error.as_str(), rest.as_str()),
                    Color::Red,
                );
            },
        }
    }

    fn on_disconnected(&mut self, reason: SerialDisconnectReason, at: Moment)
        ensures
            final(self)@ == old(self)@.disconnected(reason, at),
            old(self)@.wf() ==> final(self)@.wf(),
    {
        proof {
            reveal(AppView::disconnected);
        }
        self.close_esp_popup();
        self.ask(Request::LogDisconnected);
        self.ask_again(at);
        self.tell_loss(reason);
    }

    fn on_scanned(&mut self, ports: Vec<SerialPortInfo>)
        ensures
            final(self)@ == old(self)@.scanned(crate::serial::port_views(ports@)),
            old(self)@.wf() ==> final(self)@.wf(),
    {
        proof {
            reveal(AppView::scanned);
        }
        let at: usize = self.screen.port_selection_scroll;
        let before: usize = self.ports.len();
        let now: usize = ports.len();
        assert(self@.kept.ports.len() == before);
        assert(crate::serial::port_views(ports@).len() == now);
        self.screen.port_selection_scroll = if now >= before {
            match at.checked_add(now - before) {
                Some(moved) => moved,
                None => 0,
            }
        } else if at >= before - now {
            at - (before - now)
        } else {
            0
        };
        self.ports = ports;
    }

    fn clear_waiting(&mut self)
        ensures
            final(self)@ == old(self)@.unqueued(),
            old(self)@.wf() ==> final(self)@.wf(),
    {
        self.action_queue.clear();
        assert(crate::app::queue_views(self.action_queue@) =~= Seq::empty());
    }

    fn tell_device(&mut self, notice: Option<(String, Color)>, acknowledge: bool)
        ensures
            ({
                let told = match notice {
                    Some((text, color)) => old(self)@.said(text@, color),
                    None => old(self)@,
                };
                final(self)@ == (if acknowledge {
                    told.asked(Request::AcknowledgeInterrupt)
                } else {
                    told
                })
            }),
            old(self)@.wf() ==> final(self)@.wf(),
    {
        match notice {
            Some((text, color)) => self.say(text, color),
            None => {},
        }
        if acknowledge {
            self.ask(Request::AcknowledgeInterrupt);
        }
    }

    fn work_on_device(&mut self, event: EspEvent)
        requires
            crate::tui::esp::event_fits(old(self)@.kept.espflash.popup, event),
        ensures
            exists|popup: Option<crate::tui::esp::EspPopup>|
                #[trigger] crate::tui::esp::popup_after(
                    old(self)@.kept.espflash.popup,
                    event,
                    popup,
                ) && final(self)@ == old(self)@.with_device(popup).device_told(event),
            old(self)@.wf() ==> final(self)@.wf(),
    {
        proof {
            reveal(AppView::device_told);
        }
        let reaction = self.espflash.consume_event(event);
        let ghost popup = self.espflash.popup;
        assert(self@ == old(self)@.with_device(popup));
        assert(crate::tui::esp::popup_after(old(self)@.kept.espflash.popup, event, popup));
        self.tell_device(reaction.notification, reaction.acknowledge_interrupt);
    }

    fn on_device_event(&mut self, event: EspEvent)
        ensures
            old(self)@.device_worked(event, final(self)@),
            old(self)@.wf() ==> final(self)@.wf(),
    {
        proof {
            reveal(AppView::device_worked);
        }
        let error = match &event {
            EspEvent::Error(error) => Some(error.clone()),
            _ => None,
        };
        match error {
            Some(error) => {
                self.say(error, Color::Red);
                self.clear_waiting();
            },
            None => {
                if self.espflash.accepts(&event) {
                    self.work_on_device(event);
                } else {
                    self.ask(Request::Fail(Fault::StrayProgress));
                }
            },
        }
    }

    fn on_log_event(&mut self, event: LoggingEvent)
        ensures
            final(self)@ == old(self)@.log_told(event),
            old(self)@.wf() ==> final(self)@.wf(),
    {
        proof {
            reveal(AppView::log_told);
        }
        match event {
            LoggingEvent::FinishedReconsumption => self.say(
                "Finished syncing contents to log!".to_owned(),
                Color::Green,
            ),
            LoggingEvent::Error(error) => self.say(
                concat2("Logging error: ", error.as_str()),
                Color::Red,
            ),
        }
    }

    fn pass_second(&mut self, at: Moment)
        ensures
            final(self)@ == old(self)@.second_passed(at),
            old(self)@.wf() ==> final(self)@.wf(),
    {
        proof {
            reveal(AppView::second_passed);
        }
        if self.screen.menu == Menu::PortSelection {
            self.ask(Request::ScanPorts);
            return;
        }
        if self.asks_about_connection() {
            return;
        }
        if !at.status.is_connected() && !at.status.is_lent_out() && at.reconnections.allowed()
            && !self.screen.user_broke_connection {
            self.flip_line();
            self.ask(Request::Reconnect(None));
        }
    }

    fn move_hint(&mut self)
        ensures
            final(self)@ == old(self)@.hint_moved(),
            old(self)@.wf() ==> final(self)@.wf(),
    {
        proof {
            reveal(AppView::hint_moved);
        }
        if self.screen.popup_hint_scroll < i32::MAX {
            self.screen.popup_hint_scroll += 1;
        }
        let after_ms: u64 = hint_delay(self.settings.behavior.text_scroll_speed);
        if self.popup.is_some() {
            self.ask(
                Request::Oneshot { timer: Timer::ScrollText, tick: Tick::Scroll, after_ms },
            );
        }
    }

    fn time_notice(&mut self, at: Moment)
        ensures
            final(self)@ == old(self)@.notice_timed(at),
            old(self)@.wf() ==> final(self)@.wf(),
    {
        proof {
            reveal(AppView::notice_timed);
        }
        match at.notice {
            Some(notice) => {
                let after_ms: u64 = notification_delay(notice);
                self.ask(
                    Request::Oneshot {
                        timer: Timer::Notification,
                        tick: Tick::Notification,
                        after_ms,
                    },
                );
            },
            None => {},
        }
    }

    fn expire(&mut self, now: u64)
        ensures
            final(self)@ == old(self)@.expired(now),
            old(self)@.wf() ==> final(self)@.wf(),
    {
        proof {
            reveal(AppView::expired);
        }
        self.screen.failed_send_at = outlasting(
            self.screen.failed_send_at,
            now,
            FAILED_SEND_VISUAL_TIME_MS,
        );
        self.espflash.first_erase_press = outlasting(
            self.espflash.first_erase_press,
            now,
            ERASE_FLASH_CONFIRM_PERIOD_MS,
        );
    }

    fn on_tick(&mut self, tick: Tick, at: Moment)
        requires
            old(self)@.wf(),
        ensures
            final(self)@ == old(self)@.ticked(tick, at),
            final(self)@.wf(),
    {
        proof {
            reveal(AppView::ticked);
        }
        match tick {
            Tick::PerSecond => self.pass_second(at),
            Tick::Scroll => self.move_hint(),
            Tick::Action => self.consume_one_queued_action(at),
            Tick::Notification => self.time_notice(at),
            Tick::Requested(_) => self.expire(at.now),
            Tick::Tx => self.flip_line(),
        }
    }

    fn on_elf_update(&mut self, path: String)
        ensures
            final(self)@ == old(self)@.elf_updated(path@),
            old(self)@.wf() ==> final(self)@.wf(),
    {
        proof {
            reveal(AppView::elf_updated);
        }
        if self.settings.defmt.watch_elf_for_changes {
            self.effect(Effect::LoadElf { path, reload: true });
        }
    }

    fn notice_update(&mut self, version: String)
        ensures
            final(self)@ == old(self)@.update_noticed(version),
            old(self)@.wf() ==> final(self)@.wf(),
    {
        proof {
            reveal(AppView::update_noticed);
        }
        if !str_eq(version.as_str(), self.updates.skipped_version.as_str()) {
            self.update_found_version = Some(version);
        }
    }

    fn on_update_event(&mut self, event: UpdateEvent)
        ensures
            final(self)@ == old(self)@.update_told(event),
            old(self)@.wf() ==> final(self)@.wf(),
    {
        proof {
            reveal(AppView::update_told);
        }
        match event {
            UpdateEvent::UpToDate => {},
            UpdateEvent::UpdateFound(version) => self.notice_update(version),
            UpdateEvent::UpdateCheckError => {},
            UpdateEvent::DownloadProgress => {
                self.popup = Some(Popup::UpdateDownloading);
            },
            UpdateEvent::ReadyToLaunch => {
                if self.layout.new_window {
                    self.popup = Some(Popup::UpdateLaunchPrompt);
                } else {
                    self.ask(Request::StartNewVersion);
                }
            },
            UpdateEvent::UpdateError => self.ask(Request::Fail(Fault::UpdateFailed)),
        }
    }

    fn on_serial_event(&mut self, event: SerialEvent, at: Moment)
        ensures
            old(self)@.port_told(event, at, final(self)@),
            old(self)@.wf() ==> final(self)@.wf(),
    {
        proof {
            reveal(AppView::port_told);
        }
        match event {
            SerialEvent::Connected(kind) => self.on_connected(kind, at),
            SerialEvent::Disconnected(reason) => self.on_disconnected(reason, at),
            SerialEvent::PortScan(ports) => self.on_scanned(ports),
            SerialEvent::UnsentTx => self.trigger_send_failed_visual(at.now),
            SerialEvent::EspFlash(event) => self.on_device_event(event),
        }
    }

    /// Acts on an event.
    pub fn handle_event(&mut self, event: Event, at: Moment)
        requires
            old(self)@.wf(),
        ensures
            old(self)@.event_handled(event, at, final(self)@),
            final(self)@.wf(),
    {
        proof {
            reveal(AppView::event_handled);
        }
        match event {
            Event::Quit => self.shutdown(),
            Event::RxBuffer => self.take_received(),
            Event::Resize => self.ask(Request::Resize),
            Event::KeyPress(key) => self.handle_key_press(key, at),
            Event::MouseScroll { up } => self.scroll_wheel(up),
            Event::RightClick => self.click_right(),
            Event::Serial(event) => self.on_serial_event(event, at),
            Event::Logging(event) => self.on_log_event(event),
            Event::Tick(tick) => self.on_tick(tick, at),
            Event::DefmtFromFilePicker(path) => self.effect(
                Effect::LoadElf { path, reload: false },
            ),
            Event::ElfUpdated(path) => self.on_elf_update(path),
            Event::ElfWatchError(error) => self.say(error, Color::Red),
            Event::Updates(event) => self.on_update_event(event),
        }
    }
}

} // verus!
