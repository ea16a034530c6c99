//! What holds of the program as a whole.

use vstd::prelude::*;
use vstd::string::*;

use crate::app::actions::Switch;
use crate::app::effects::{EffectView, Request};
use crate::app::navigate::RowKind;
use crate::app::{AppView, Moment, PopupView, SettingsMenu, ToolMenu};
use crate::keybinds::{ActionView, ShowPopupAction};
use crate::keys::KeyEvent;
use crate::serial::worker::MOCK_PORT_NAME;
use crate::settings::Rendering;

verus! {

/// An update that is being installed, or waits to be started, cannot be dismissed.
pub proof fn law_update_is_not_dismissed(app: AppView, at: Moment)
    requires
        app.ui.popup == Some(PopupView::UpdateDownloading) || app.ui.popup == Some(
            PopupView::UpdateLaunchPrompt,
        ),
    ensures
        app.dismissed() == app,
        app.escaped(at) == app,
        app.interrupted() == app,
{
    reveal(AppView::dismissed);
    reveal(AppView::escaped);
    reveal(AppView::interrupted);
    reveal(AppView::connection_asked);
}

/// Closing a pop-up gives up what was being edited in it: the settings stay as they
/// were, and nothing is left of the edits.
pub proof fn law_dismissal_discards_edits(app: AppView)
    requires
        app.ui.popup != Some(PopupView::UpdateDownloading),
        app.ui.popup != Some(PopupView::UpdateLaunchPrompt),
    ensures
        app.dismissed().ui.popup is None,
        app.dismissed().edit.settings == app.edit.settings,
        app.dismissed().edit.scratch == app.edit.settings,
        app.dismissed().edit.baud_text == crate::text::digits(
            app.edit.settings.serial.baud_rate as nat,
            10,
        ),
        app.dismissed().outbox == app.outbox,
{
    reveal(AppView::dismissed);
    reveal(AppView::refreshed);
}

/// Opening a pop-up starts with the settings as they are, and never changes them.
pub proof fn law_opening_keeps_settings(app: AppView, popup: PopupView)
    ensures
        app.shown(popup).edit.settings == app.edit.settings,
        app.kept.recent_elfs.len() > 0 || !(popup is DefmtRecentElf) ==> {
            &&& app.shown(popup).ui.popup == Some(popup)
            &&& app.shown(popup).edit.scratch == app.edit.settings
        },
{
    reveal(AppView::shown);
    reveal(AppView::refreshed);
    reveal(AppView::asked);
    reveal(AppView::said);
    reveal(AppView::effected);
}

/// The keys that open a pop-up also close it.
pub proof fn law_same_keys_close(app: AppView, action: ShowPopupAction)
    requires
        app.ui.popup != Some(crate::app::navigate::popup_of(action)),
    ensures
        app.toggled_popup(action).ui.popup == Some(crate::app::navigate::popup_of(action)),
        app.toggled_popup(action).toggled_popup(action).ui.popup is None,
{
    reveal(AppView::toggled_popup);
    law_opening_keeps_settings(app, crate::app::navigate::popup_of(action));
    law_dismissal_discards_edits(app.toggled_popup(action));
}

/// A step down undoes a step up, and the other way round, as long as the row is one
/// of those there are.
pub proof fn law_steps_undo_each_other(app: AppView, down: bool)
    requires
        app.ui.screen.popup_menu_scroll <= app.last_row(),
    ensures
        ({
            let there = app.on_row(app.next_row(RowKind::Round, down));
            &&& there.ui.screen.popup_menu_scroll <= there.last_row()
            &&& there.next_row(RowKind::Round, !down) == app.ui.screen.popup_menu_scroll
        }),
{
    let there = app.on_row(app.next_row(RowKind::Round, down));
    assert(there.item_count() == app.item_count());
}

/// Going through the menus of a kind in one direction and back leads to where one
/// was.
pub proof fn law_menus_go_round(menu: SettingsMenu, next: bool)
    ensures
        menu.turned(next).turned(!next) == menu,
        menu.turned(next).turned(next).turned(next).turned(next).turned(next) == menu,
{
}

/// Changing between menus gives up what was being edited, and what was searched for.
pub proof fn law_menu_change_discards_edits(app: AppView, next: bool)
    requires
        app.ui.popup is Some,
        app.ui.popup->0 is SettingsMenu || app.ui.popup->0 is ToolMenu,
    ensures
        app.cycled_sub_menu(next).edit.scratch == app.edit.settings,
        app.cycled_sub_menu(next).kept.macros.query.len() == 0,
        app.cycled_menu_type().edit.scratch == app.edit.settings,
        app.cycled_menu_type().kept.macros.query.len() == 0,
        app.cycled_menu_type().ui.popup != app.ui.popup,
{
    reveal(AppView::cycled_sub_menu);
    reveal(AppView::cycled_menu_type);
    reveal(AppView::in_menu);
    reveal(AppView::refreshed);
}

/// Flipping a switch twice changes nothing, and flipping it once changes only that.
pub proof fn law_switches_flip(switch: Switch, other: Switch, now: Rendering)
    ensures
        switch.flipped(switch.flipped(now)) == now,
        switch.state(switch.flipped(now)) == !switch.state(now),
        switch != other ==> other.state(switch.flipped(now)) == other.state(now),
{
}

/// While a device is being worked on, no key does anything.
pub proof fn law_keys_rest_during_flashing(app: AppView, key: KeyEvent, at: Moment, after: AppView)
    requires
        app.kept.espflash.popup is Some,
        !(app.kept.espflash.popup->0 is DeviceInfo),
        app.key_pressed(key, at, after),
    ensures
        after == app,
{
    reveal(AppView::key_pressed);
}

/// Once the user broke the connection, or while they are being asked about it, no
/// connection is sought without being asked.
pub proof fn law_broken_connection_rests(app: AppView, at: Moment)
    requires
        app.ui.screen.menu is Terminal,
        app.ui.screen.user_broke_connection || app.connection_asked(),
    ensures
        app.second_passed(at) == app,
{
    reveal(AppView::second_passed);
}

/// The port that is always there is never ignored by its name.
pub proof fn law_mock_port_is_not_ignored(app: AppView, name: Seq<char>)
    requires
        !app.kept.ignored.names.contains(MOCK_PORT_NAME@),
    ensures
        !app.ignoring_name(name).kept.ignored.names.contains(MOCK_PORT_NAME@),
{
    reveal(AppView::ignoring_name);
    reveal(AppView::ignoring);
    reveal(AppView::asked);
    let names = app.kept.ignored.names;
    if name != MOCK_PORT_NAME@ {
        let new = names.push(name);
        assert(app.ignoring_name(name).kept.ignored.names == new);
        assert forall|i: int| 0 <= i < new.len() implies new[i] != MOCK_PORT_NAME@ by {
            if i < names.len() {
                assert(names.contains(names[i]));
            }
        }
    }
}

/// Ports that come or go do not move the selection away from the entries below
/// them.
pub proof fn law_scan_keeps_the_selection(app: AppView, ports: Seq<crate::serial::PortView>)
    requires
        app.ui.screen.port_selection_scroll >= app.kept.ports.len(),
        app.ui.screen.port_selection_scroll + ports.len() - app.kept.ports.len() <= usize::MAX,
    ensures
        app.scanned(ports).ui.screen.port_selection_scroll - ports.len()
            == app.ui.screen.port_selection_scroll - app.kept.ports.len(),
        app.scanned(ports).kept.ports == ports,
{
    reveal(AppView::scanned);
}

/// Leaving the terminal gives up what was being typed, but not the history of what
/// was sent.
pub proof fn law_leaving_keeps_the_history(app: AppView)
    ensures
        app.left_terminal().kept.text_input.text.len() == 0,
        app.left_terminal().kept.text_input.history.entries
            == app.kept.text_input.history.entries,
        app.left_terminal().ui.screen.menu is PortSelection,
{
    reveal(AppView::left_terminal);
    reveal(AppView::dismissed);
    reveal(AppView::refreshed);
    reveal(AppView::asked);
}

/// No action waits of its own before one that says how long to wait.
pub proof fn law_pause_replaces_the_delay(app: AppView, action: ActionView)
    requires
        app.kept.queue.len() > 0,
        app.kept.queue[0].action is Pause,
        !(action is Pause),
    ensures
        app.wait_after(action) is None,
{
}

/// Nothing that was asked for is forgotten when more is asked for, told or done.
pub proof fn law_requests_are_kept(app: AppView, request: Request, effect: EffectView)
    ensures
        app.asked(request).outbox.take(app.outbox.len() as int) == app.outbox,
        app.asked(request).outbox.last() == EffectView::Request(request),
        app.effected(effect).outbox.take(app.outbox.len() as int) == app.outbox,
        app.effected(effect).outbox.last() == effect,
{
    reveal(AppView::asked);
    reveal(AppView::effected);
    assert(app.asked(request).outbox.take(app.outbox.len() as int) =~= app.outbox);
    assert(app.effected(effect).outbox.take(app.outbox.len() as int) =~= app.outbox);
}

} // verus!
