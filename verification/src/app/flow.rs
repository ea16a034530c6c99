//! What events and keys lead to, from where they come in to what is done about them.

use vstd::prelude::*;
use vstd::string::*;

use crate::app::effects::{EffectView, ExplorerInput, Request};
use crate::app::events::{ElfOutcome, Event, SerialEvent, UpdateEvent};
use crate::app::press::{Deed, Flow};
use crate::app::rules::{added, asks, sends};
use crate::app::{AppView, Moment, PopupView, SettingsMenu, Tick, Timer, ToolMenu};
use crate::buffer::logging::LoggingEvent;
use crate::keybinds::{BuiltinAction, KeyBinding};
use crate::keys::{KeyCode, KeyEvent};
use crate::line::Color;
use crate::serial::{ReconnectType, ReconnectionStrictness, SerialDisconnectReason};
use crate::settings::SettingsView;
use crate::tui::esp::EspEvent;

verus! {

/// Quitting ends the program, a resized window is followed, received bytes are taken, and a
/// file that was picked is loaded.
#[verifier::rlimit(40)]
pub proof fn law_events(app: AppView, event: Event, at: Moment, after: AppView)
    requires
        app.event_handled(event, at, after),
    ensures
        event is Quit ==> after.ui.screen.state is Finished && after.outbox == app.outbox,
        event is Resize ==> after.outbox == app.outbox.push(EffectView::Request(Request::Resize)),
        event is RxBuffer ==> asks(app, after, Request::TakeReceived),
        event matches Event::DefmtFromFilePicker(path) ==> after.outbox == app.outbox.push(
            EffectView::LoadElf { path: path@, reload: false },
        ),
        event matches Event::ElfWatchError(error) ==> after.outbox == app.outbox.push(
            EffectView::Notify { italic: Seq::empty(), text: error@, color: Color::Red },
        ),
        event matches Event::KeyPress(key) ==> app.key_pressed(key, at, after),
        event matches Event::Tick(tick) ==> after == app.ticked(tick, at),
        event matches Event::MouseScroll { up } ==> after == app.wheeled(up),
        event is RightClick ==> after == app.clicked(),
        event matches Event::ElfUpdated(path) ==> after == app.elf_updated(path@),
        event matches Event::Logging(told) ==> after == app.log_told(told),
        event matches Event::Updates(told) ==> after == app.update_told(told),
        event matches Event::Serial(told) ==> app.port_told(told, at, after),
{
    reveal(AppView::event_handled);
    reveal(AppView::asked);
    reveal(AppView::effected);
    reveal(AppView::said);
    if event is RxBuffer {
        crate::app::conduct::law_received_bytes_are_taken(app);
    }
}

/// What the port tells is taken for what it is: a connection was made or lost, ports were
/// found, or something could not be sent.
pub proof fn law_what_the_port_tells(app: AppView, event: SerialEvent, at: Moment, after: AppView)
    requires
        app.port_told(event, at, after),
    ensures
        event matches SerialEvent::Connected(kind) ==> after == app.connected(kind, at),
        event matches SerialEvent::Disconnected(reason) ==> after == app.disconnected(reason, at),
        event matches SerialEvent::PortScan(ports) ==> after.kept.ports
            == crate::serial::port_views(ports@) && after.outbox == app.outbox,
        event is UnsentTx ==> after.ui.screen.failed_send_at == Some(at.now) && !sends(app, after),
        event matches SerialEvent::EspFlash(told) ==> app.device_worked(told, after),
{
    reveal(AppView::port_told);
    reveal(AppView::scanned);
    reveal(AppView::send_failed);
    reveal(AppView::asked);
}

/// Each tick does what it was asked for.
pub proof fn law_ticks(app: AppView, tick: Tick, at: Moment)
    ensures
        ({
            let after = app.ticked(tick, at);
            &&& tick is PerSecond ==> after == app.second_passed(at)
            &&& tick is Action ==> after == app.advanced(at)
            &&& tick is Scroll ==> after == app.hint_moved()
            &&& tick is Requested ==> after == app.expired(at.now)
            &&& tick is Notification ==> after.ui == app.ui && after.kept == app.kept
            &&& tick is Tx ==> after.outbox == app.outbox && after.kept == app.kept
        }),
{
    reveal(AppView::ticked);
    reveal(AppView::notice_timed);
    reveal(AppView::flipped);
    reveal(AppView::asked);
}

/// A notification changes next when the phase it is in ends, and often while it comes or
/// goes; without one nothing is timed.
pub proof fn law_notifications_are_timed(app: AppView, at: Moment)
    ensures
        at.notice is None ==> app.notice_timed(at) == app,
        at.notice matches Some(notice) ==> ({
            let delay = crate::app::events::notice_delay(notice);
            &&& notice.shown_for <= notice.emerge ==> delay == 50
            &&& notice.shown_for >= notice.pause_and_show ==> delay == 50
            &&& notice.emerge < notice.shown_for < notice.pause_and_show && !notice.replaced
                ==> notice.shown_for + delay == notice.pause_and_show
            &&& notice.emerge < notice.shown_for <= notice.expand && notice.shown_for
                < notice.pause_and_show && notice.replaced ==> notice.shown_for + delay
                == notice.expand
            &&& app.notice_timed(at).outbox == app.outbox.push(
                EffectView::Request(
                    Request::Oneshot {
                        timer: Timer::Notification,
                        tick: Tick::Notification,
                        after_ms: delay as u64,
                    },
                ),
            )
        }),
{
    reveal(AppView::notice_timed);
    reveal(AppView::asked);
}

/// A newer version is noted, a download shown, and an update that is ready started, or asked
/// about where a window can be opened for it.
pub proof fn law_what_is_told_about_updates(app: AppView, event: UpdateEvent)
    ensures
        ({
            let after = app.update_told(event);
            &&& event is UpToDate || event is UpdateCheckError ==> after == app
            &&& event matches UpdateEvent::UpdateFound(version) ==> version@
                != app.kept.updates.skipped_version@ ==> after.kept.update_found_version == Some(
                version,
            )
            &&& event matches UpdateEvent::UpdateFound(version) ==> version@
                == app.kept.updates.skipped_version@ ==> after == app
            &&& event is DownloadProgress ==> after.ui.popup == Some(PopupView::UpdateDownloading)
            &&& event is ReadyToLaunch && app.kept.layout.new_window ==> after.ui.popup == Some(
                PopupView::UpdateLaunchPrompt,
            ) && after.outbox == app.outbox
            &&& event is ReadyToLaunch && !app.kept.layout.new_window ==> after.outbox
                == app.outbox.push(EffectView::Request(Request::StartNewVersion))
        }),
{
    reveal(AppView::update_told);
    reveal(AppView::update_noticed);
    reveal(AppView::asked);
}

/// What the log tells is told to the user.
pub proof fn law_what_the_log_tells(app: AppView, event: LoggingEvent)
    ensures
        ({
            let after = app.log_told(event);
            &&& after.outbox.len() == app.outbox.len() + 1
            &&& after.outbox.last() matches EffectView::Notify { text, color, .. } && (
            event is Error <==> color == Color::Red) && (event matches LoggingEvent::Error(error)
                ==> text == "Logging error: "@ + error@)
            &&& after.kept == app.kept && after.ui == app.ui && after.edit == app.edit
        }),
{
    reveal(AppView::log_told);
    reveal(AppView::said);
    reveal(AppView::effected);
}

/// If work on a device fails, nothing that waits is done any more, and the reason is told.
/// Once the port is back, interruptions work again.
#[verifier::rlimit(40)]
pub proof fn law_work_on_a_device(app: AppView, event: EspEvent, after: AppView)
    requires
        app.device_worked(event, after),
    ensures
        event matches EspEvent::Error(error) ==> {
            &&& after.kept.queue.len() == 0
            &&& after.outbox == app.outbox.push(
                EffectView::Notify { italic: Seq::empty(), text: error@, color: Color::Red },
            )
        },
        !(event is Error) ==> after.kept.queue == app.kept.queue,
        event is PortReturned ==> asks(app, after, Request::AcknowledgeInterrupt),
        after.edit == app.edit,
        after.ui == app.ui,
{
    reveal(AppView::device_worked);
    reveal(AppView::device_told);
    reveal(AppView::said);
    reveal(AppView::effected);
    reveal(AppView::asked);
    if event is PortReturned {
        assert(added(app, after)[0] == EffectView::Request(Request::AcknowledgeInterrupt));
    }
}

/// What the keys that always work do: they end the program, scroll what was received, and
/// the like.
#[verifier::rlimit(40)]
pub proof fn law_deeds(app: AppView, at: Moment, ctrl: bool, shift: bool, action: BuiltinAction)
    ensures
        app.deed_done(Deed::End, at).ui.screen.state is Finished,
        app.deed_done(Deed::ScrollTop, at).outbox == app.outbox.push(
            EffectView::Request(Request::ScrollBuffer(i32::MAX)),
        ),
        app.deed_done(Deed::ScrollBottom, at).outbox == app.outbox.push(
            EffectView::Request(Request::ScrollBuffer(i32::MIN)),
        ),
        app.deed_done(Deed::PageUp, at).outbox == app.outbox.push(
            EffectView::Request(Request::PageUp),
        ),
        app.deed_done(Deed::PageDown, at).outbox == app.outbox.push(
            EffectView::Request(Request::PageDown),
        ),
        app.deed_done(Deed::AskUpdate, at).ui.popup == Some(PopupView::UpdateBeginPrompt),
        app.deed_done(Deed::ClearText, at).kept.text_input.text.len() == 0,
        app.deed_done(Deed::ClearText, at).kept.text_input.history.entries
            == app.kept.text_input.history.entries,
        app.deed_done(Deed::SelectAll, at).kept.text_input.all_text_selected,
        app.deed_done(Deed::SelectAll, at).kept.text_input.text == app.kept.text_input.text,
        app.deed_done(Deed::RowZero, at).ui.screen.popup_menu_scroll == 0,
        app.deed_done(Deed::Enter { ctrl, shift }, at) == app.entered(ctrl, shift, at),
        app.deed_done(Deed::Escape, at) == app.escaped(at),
        app.deed_done(Deed::Interrupt, at) == app.interrupted(),
        app.deed_done(Deed::Up, at) == app.stepped(false),
        app.deed_done(Deed::Down, at) == app.stepped(true),
        app.deed_done(Deed::Left, at) == app.sidestepped(false),
        app.deed_done(Deed::Right, at) == app.sidestepped(true),
        app.deed_done(Deed::AskIgnore, at) == app.ignore_asked(),
        app.deed_done(Deed::Reload(action), at) == app.builtin_done(action, at),
{
    reveal(AppView::deed_done);
    reveal(AppView::shown);
    reveal(AppView::refreshed);
    reveal(AppView::text_cleared);
    reveal(AppView::marked);
    reveal(AppView::on_first_row);
    reveal(AppView::asked);
}

/// A key that always does something does it before anything that it is bound to.
pub proof fn law_own_keys_come_first(app: AppView, combo: KeyEvent, flow: Flow, at: Moment)
    ensures
        match crate::app::press::deed_of(combo, app.context(flow)) {
            Some(deed) => app.key_run(combo, flow, at) == app.deed_done(deed, at),
            None => app.key_run(combo, flow, at) == app.bound_done(combo, at),
        },
{
    reveal(AppView::key_run);
}

/// Interrupting where ports are selected ends the program, and that is acknowledged.
#[verifier::rlimit(40)]
pub proof fn law_interruption_on_the_screen_for_ports(app: AppView, at: Moment, after: AppView)
    requires
        app.kept.espflash.popup is None,
        app.ui.popup is None,
        app.ui.screen.menu is PortSelection,
        !app.own_baud_selected(),
        app.key_pressed(KeyEvent { code: KeyCode::Char('c'), modifiers: 2 }, at, after),
    ensures
        after.ui.screen.state is Finished,
        after.outbox == app.outbox.push(EffectView::Request(Request::AcknowledgeInterrupt)),
{
    let key = KeyEvent { code: KeyCode::Char('c'), modifiers: 2 };
    reveal(AppView::key_pressed);
    reveal(AppView::heard);
    reveal(AppView::key_handled);
    reveal(AppView::key_typed);
    reveal(AppView::key_run);
    reveal(AppView::deed_done);
    reveal(AppView::interrupted);
    reveal(AppView::connection_asked);
    reveal(AppView::asked);
    assert(key.combination() == key);
}

/// Interrupting in the terminal asks about the connection, and sends nothing, where lines
/// are edited here.
#[verifier::rlimit(40)]
pub proof fn law_interruption_in_the_terminal(app: AppView, at: Moment, after: AppView)
    requires
        app.kept.espflash.popup is None,
        app.ui.popup is None,
        app.ui.screen.menu is Terminal,
        app.ui.screen.state is Running,
        app.edit.settings.behavior.pseudo_shell,
        app.key_pressed(KeyEvent { code: KeyCode::Char('c'), modifiers: 2 }, at, after),
    ensures
        after.ui.popup == Some(PopupView::DisconnectPrompt),
        after.ui.screen.state is Running,
        after.outbox == app.outbox.push(EffectView::Request(Request::AcknowledgeInterrupt)),
{
    let key = KeyEvent { code: KeyCode::Char('c'), modifiers: 2 };
    reveal(AppView::key_pressed);
    reveal(AppView::heard);
    reveal(AppView::key_handled);
    reveal(AppView::key_typed);
    reveal(AppView::terminal_typed);
    reveal(AppView::text_edited);
    reveal(AppView::key_run);
    reveal(AppView::deed_done);
    reveal(AppView::interrupted);
    reveal(AppView::connection_asked);
    reveal(AppView::shown);
    reveal(AppView::refreshed);
    reveal(AppView::asked);
    assert(key.combination() == key);
}

/// Where keys go straight to the port, a letter is sent and does nothing else.
#[verifier::rlimit(40)]
pub proof fn law_letter_is_sent(app: AppView, c: char, at: Moment, after: AppView)
    requires
        app.kept.espflash.popup is None,
        app.ui.popup is None,
        app.ui.screen.menu is Terminal,
        !app.edit.settings.behavior.pseudo_shell,
        !app.ui.screen.escape_next_keypress,
        'a' <= c <= 'z',
        !app.escapes(KeyEvent { code: KeyCode::Char(c), modifiers: 0 }),
        app.key_pressed(KeyEvent { code: KeyCode::Char(c), modifiers: 0 }, at, after),
    ensures
        after == app.key_to_port(KeyEvent { code: KeyCode::Char(c), modifiers: 0 }, at),
{
    let key = KeyEvent { code: KeyCode::Char(c), modifiers: 0 };
    reveal(AppView::key_pressed);
    reveal(AppView::heard);
    reveal(AppView::key_handled);
    reveal(AppView::key_typed);
    reveal(AppView::terminal_typed);
    assert(key.combination() == key);
}

/// Any key closes the description of a device, and does nothing else.
pub proof fn law_description_is_closed(app: AppView, key: KeyEvent, at: Moment, after: AppView)
    requires
        app.kept.espflash.popup is Some,
        app.kept.espflash.popup->0 is DeviceInfo,
        app.key_pressed(key, at, after),
    ensures
        after.kept.espflash.popup is None,
        after.ui == app.ui,
        after.edit == app.edit,
        !sends(app, after),
{
    reveal(AppView::key_pressed);
    reveal(AppView::heard);
    reveal(AppView::device_closed);
    reveal(AppView::asked);
}

/// A key in a prompt picks the choice that it belongs to.
pub proof fn law_keys_in_prompts(app: AppView, key: KeyEvent, at: Moment, after: AppView, flow: Flow)
    requires
        app.ui.popup is Some,
        !(app.ui.popup->0 is ToolMenu),
        !(app.ui.popup->0 is SettingsMenu),
        !(app.ui.popup->0 is DefmtNewElf),
        !crate::keys::interrupts(key),
        app.key_typed(key, at, after, flow),
    ensures
        after == app.chosen(
            crate::app::press::key_choice(app.ui.popup, key.code),
            key.ctrl_held(),
            key.shift_held(),
        ),
        !flow.done && !flow.port_actions && !flow.terminal_actions,
{
    reveal(AppView::key_typed);
}

/// In the menu of settings for the port only digits, and what removes them, go into the box
/// for the rate, and only where it is selected.
pub proof fn law_keys_for_the_rate(app: AppView, key: KeyEvent, at: Moment, after: AppView, flow: Flow)
    requires
        app.ui.popup == Some(PopupView::SettingsMenu(SettingsMenu::SerialPort)),
        app.key_typed(key, at, after, flow),
    ensures
        app.ui.screen.popup_menu_scroll != 2 ==> after == app,
        app.ui.screen.popup_menu_scroll == 2 ==> (key.code matches KeyCode::Char(c) ==> !('0' <= c
            && c <= '9') ==> after == app),
        after.edit.settings == app.edit.settings,
        after.outbox == app.outbox,
{
    reveal(AppView::key_typed);
    reveal(AppView::baud_edited);
}

/// What is typed among the macros goes into the search, and nothing else changes.
pub proof fn law_keys_in_the_search(app: AppView, key: KeyEvent, at: Moment, after: AppView, flow: Flow)
    requires
        app.ui.popup == Some(PopupView::ToolMenu(ToolMenu::Macros)),
        app.key_typed(key, at, after, flow),
        crate::input_box::types_char(key),
        app.kept.macros.cursor <= app.kept.macros.query.len(),
    ensures
        after.kept.macros.query == app.kept.macros.query.insert(
            app.kept.macros.cursor as int,
            key.code->Char_0,
        ),
        after.kept.macros.all == app.kept.macros.all,
        after.kept.text_input == app.kept.text_input,
        after.ui == app.ui && after.edit == app.edit && after.outbox == app.outbox,
{
    reveal(AppView::key_typed);
    reveal(AppView::search_edited);
}

/// The keys of the file explorer move its cursor where they point; the others do nothing
/// there.
pub proof fn law_keys_in_the_explorer(app: AppView, key: KeyEvent, at: Moment, after: AppView, flow: Flow)
    requires
        app.ui.popup == Some(PopupView::DefmtNewElf),
        app.key_typed(key, at, after, flow),
    ensures
        after.outbox.len() == app.outbox.len() + 1,
        after.outbox.last() matches EffectView::Request(Request::Explore(way)) && {
            &&& key.code is Left || key.code == KeyCode::Char('h') ==> way == ExplorerInput::Left
            &&& key.code is Right || key.code == KeyCode::Char('l') || key.code is Enter ==> way
                == ExplorerInput::Right
            &&& key.code is Up || key.code == KeyCode::Char('k') ==> way == ExplorerInput::Up
            &&& key.code is Down || key.code == KeyCode::Char('j') ==> way == ExplorerInput::Down
            &&& key.code is Esc ==> way == ExplorerInput::Ignored && !flow.done
            &&& flow.done <==> way != ExplorerInput::Ignored
        },
{
    reveal(AppView::key_typed);
    reveal(AppView::asked);
}

/// A step to the side changes what the selected row stands for: the kind of menu, the menu,
/// a setting that is being edited, or the rate where ports are selected.
#[verifier::rlimit(40)]
pub proof fn law_steps_to_the_side(app: AppView, right: bool)
    ensures
        ({
            let after = app.sidestepped(right);
            let row = app.ui.screen.popup_menu_scroll;
            &&& app.ui.popup is None && app.ui.screen.menu is PortSelection
                && app.ui.screen.port_selection_scroll == app.kept.ports.len()
                ==> after.ui.screen.baud_index == app.next_baud(right) as usize
            &&& app.ui.popup is None && !(app.ui.screen.menu is PortSelection
                && app.ui.screen.port_selection_scroll == app.kept.ports.len()) ==> after == app
            &&& row == 0 ==> (app.ui.popup matches Some(PopupView::SettingsMenu(_))
                ==> after.ui.popup == Some(PopupView::ToolMenu(ToolMenu::Macros)))
            &&& row == 0 ==> (app.ui.popup matches Some(PopupView::ToolMenu(_)) ==> after.ui.popup
                == Some(PopupView::SettingsMenu(SettingsMenu::SerialPort)))
            &&& row == 1 ==> (app.ui.popup matches Some(PopupView::SettingsMenu(menu))
                ==> after.ui.popup == Some(PopupView::SettingsMenu(menu.turned(right))))
            &&& row >= 2 ==> (app.ui.popup matches Some(PopupView::SettingsMenu(menu))
                ==> menu is SerialPort || menu is Rendering || menu is Behavior ==> after.outbox
                == app.outbox.push(
                EffectView::Request(
                    Request::EditScratch { menu, row: (row - 2) as usize, right },
                ),
            ))
            &&& row >= 4 ==> (app.ui.popup == Some(PopupView::SettingsMenu(SettingsMenu::Defmt))
                ==> after.outbox == app.outbox.push(
                EffectView::Request(
                    Request::EditScratch {
                        menu: SettingsMenu::Defmt,
                        row: (row - 4) as usize,
                        right,
                    },
                ),
            ))
            &&& app.ui.popup == Some(PopupView::ToolMenu(ToolMenu::EspFlash)) && row == 3
                ==> after.kept.espflash.unchecked_bootloader
                == !app.kept.espflash.unchecked_bootloader
            &&& after.edit.settings == app.edit.settings
        }),
{
    reveal(AppView::sidestepped);
    reveal(AppView::cycled_menu_type);
    reveal(AppView::cycled_sub_menu);
    reveal(AppView::in_menu);
    reveal(AppView::refreshed);
    reveal(AppView::setting_stepped);
    reveal(AppView::category_stepped);
    reveal(AppView::asked);
}

/// A row that was edited changes what is being edited, and never the settings themselves;
/// the rate stands in its box then.
pub proof fn law_edited_row(app: AppView, menu: SettingsMenu, row: usize, scratch: SettingsView)
    ensures
        app.row_edited(menu, row, scratch).edit.scratch == scratch,
        app.row_edited(menu, row, scratch).edit.settings == app.edit.settings,
        menu is SerialPort && row == 0 ==> app.row_edited(menu, row, scratch).edit.baud_text
            == crate::text::digits(scratch.serial.baud_rate as nat, 10),
        !(menu is SerialPort && row == 0) ==> app.row_edited(menu, row, scratch).edit.baud_text
            == app.edit.baud_text,
{
    reveal(AppView::row_edited);
}

/// Whether a file was loaded is told: in green if it was, in yellow if only in part, and in
/// red, with the reason, if it was not.
pub proof fn law_loaded_file_is_told(app: AppView, outcome: ElfOutcome, reload: bool)
    ensures
        ({
            let after = app.elf_taken(outcome, reload);
            &&& after.outbox.len() == app.outbox.len() + 1
            &&& after.outbox.last() matches EffectView::Notify { text, color, .. } && {
                &&& outcome is Loaded ==> color == Color::Green
                &&& outcome is LocationError ==> color == Color::Yellow
                &&& outcome is Failed ==> color == Color::Red
                &&& outcome matches ElfOutcome::Failed(error) ==> text.skip(
                    text.len() - error@.len(),
                ) == error@
            }
            &&& after.kept == app.kept && after.ui == app.ui && after.edit == app.edit
        }),
{
    reveal(AppView::elf_taken);
    reveal(AppView::said);
    reveal(AppView::effected);
    if let ElfOutcome::Failed(error) = outcome {
        let start = if reload {
            "defmt ELF auto-reload failed! "@
        } else {
            "defmt ELF load failed! "@
        };
        let text = start + error@;
        assert(text.skip(text.len() - error@.len()) =~= error@);
    }
}

/// Bindings that do nothing are dropped, and no others.
pub proof fn law_useful_bindings(bindings: Seq<KeyBinding>)
    ensures
        ({
            let kept = crate::app::outcomes::useful_bindings(bindings);
            &&& kept.len() <= bindings.len()
            &&& forall|i: int|
                0 <= i < kept.len() ==> bindings.contains(#[trigger] kept[i])
                    && kept[i].actions@.len() > 0
            &&& forall|i: int|
                0 <= i < bindings.len() && (#[trigger] bindings[i]).actions@.len() > 0
                    ==> kept.contains(bindings[i])
        }),
    decreases bindings.len(),
{
    if bindings.len() > 0 {
        let front = bindings.drop_last();
        law_useful_bindings(front);
        let before = crate::app::outcomes::useful_bindings(front);
        let kept = crate::app::outcomes::useful_bindings(bindings);
        assert forall|i: int| 0 <= i < kept.len() implies bindings.contains(#[trigger] kept[i])
            && kept[i].actions@.len() > 0 by {
            if i < before.len() {
                assert(kept[i] == before[i]);
                let j = front.index_of(before[i]);
                assert(bindings[j] == before[i]);
            } else {
                assert(kept[i] == bindings[bindings.len() - 1]);
            }
        }
        assert forall|i: int|
            0 <= i < bindings.len() && (#[trigger] bindings[i]).actions@.len()
                > 0 implies kept.contains(bindings[i]) by {
            if i < front.len() {
                assert(front[i] == bindings[i]);
                assert(before.contains(front[i]));
                let j = before.index_of(front[i]);
                assert(kept[j] == before[j]);
            } else {
                assert(kept[kept.len() - 1] == bindings[i]);
            }
        }
    }
}

/// The user is told how a port was found again, and what follows when it is lost.
pub proof fn law_what_is_told_of_connections(app: AppView, kind: ReconnectType, error: String)
    ensures
        app.reconnect_told(Some(kind)).outbox == app.outbox.push(
            EffectView::Notify {
                italic: Seq::empty(),
                text: match kind {
                    ReconnectType::PerfectMatch => "Reconnected to same device!"@,
                    ReconnectType::UsbStrict => "Reconnected to same device?"@,
                    ReconnectType::UsbLoose => "Connected to similar USB device."@,
                    ReconnectType::LastDitch => "Connected to COM port by name."@,
                },
                color: Color::Green,
            },
        ),
        app.reconnect_told(None) == app,
        app.loss_told(SerialDisconnectReason::Error(error)).outbox == app.outbox.push(
            EffectView::Notify {
                italic: Seq::empty(),
                text: "Port error: "@ + error@ + (" - "@ + (
                match app.edit.settings.serial.reconnections {
                    ReconnectionStrictness::Disabled => "Not attempting to reconnect"@,
                    ReconnectionStrictness::High => "Attempting to reconnect (strict checks)"@,
                    ReconnectionStrictness::Med => "Attempting to reconnect (loose checks)"@,
                    ReconnectionStrictness::Low => "Attempting to reconnect (loose checks)"@,
                })),
                color: Color::Red,
            },
        ),
{
    reveal(AppView::reconnect_told);
    reveal(AppView::loss_told);
    reveal(AppView::said);
    reveal(AppView::effected);
}

/// A pause is asked for by its prefix, in any case of its letters, and the milliseconds
/// behind it.
pub proof fn law_pauses_are_asked_for(prefix: Seq<char>, ms: u64)
    requires
        prefix.len() == 9,
        crate::text::same_ignoring_ascii_case(prefix, "pause_ms:"@),
    ensures
        crate::app::actions::pause_asked(prefix + crate::text::digits(ms as nat, 10)) == Some(ms),
{
    reveal_strlit("pause_ms:");
    let text = prefix + crate::text::digits(ms as nat, 10);
    assert(text.take(9) =~= prefix);
    assert(text.skip(9) =~= crate::text::digits(ms as nat, 10));
    crate::laws::law_number_reads_back(ms as nat, u64::MAX as int);
}

/// Everything is written to the log again only once there was a port.
pub proof fn law_log_is_written_again(app: AppView, at: Moment)
    ensures
        asks(app, app.sync_done(at), Request::SyncLog) <==> at.has_port,
{
    reveal(AppView::sync_done);
    reveal(AppView::said);
    reveal(AppView::effected);
    reveal(AppView::asked);
    let after = app.sync_done(at);
    assert(added(app, after)[0] == after.outbox[app.outbox.len() as int]);
    if !at.has_port {
        assert(added(app, after).len() == 1);
    }
}

} // verus!
