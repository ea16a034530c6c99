//! What keys do, wherever the program is.

use vstd::prelude::*;
use vstd::string::*;

use crate::app::press::{deed_of, Context, Deed, Flow};
use crate::app::rules::{asks, sends};
use crate::app::{AppView, Moment, PopupView, SettingsMenu, ToolMenu, COMMON_BAUD};
use crate::keybinds::{ActionView, BuiltinAction, ShowPopupAction};
use crate::keys::{KeyCode, KeyEvent};
use crate::tui::prompts::{
    AttemptReconnectPrompt, DisconnectPrompt, IgnoreUsbDevicePrompt, PromptTable, UpdateBeginPrompt,
    UpdateLaunchPrompt,
};

verus! {

/// Interrupting closes what is open. The program only ends where nothing is, and not out of
/// the terminal before the user was asked.
#[verifier::rlimit(40)]
pub proof fn law_interruption(app: AppView)
    requires
        app.ui.screen.state is Running,
        app.ui.popup != Some(PopupView::UpdateDownloading),
        app.ui.popup != Some(PopupView::UpdateLaunchPrompt),
    ensures
        ({
            let after = app.interrupted();
            let asked = app.ui.popup == Some(PopupView::AttemptReconnectPrompt) || app.ui.popup
                == Some(PopupView::DisconnectPrompt);
            &&& after.ui.screen.state is Finished <==> asked || (app.ui.popup is None
                && app.ui.screen.menu is PortSelection)
            &&& app.ui.popup is Some && !asked ==> after.ui.popup is None
            &&& app.ui.popup is None && app.ui.screen.menu is Terminal ==> after.ui.popup == Some(
                PopupView::DisconnectPrompt,
            )
            &&& after.outbox == app.outbox
            &&& after.edit.settings == app.edit.settings
        }),
{
    reveal(AppView::interrupted);
    reveal(AppView::connection_asked);
    reveal(AppView::dismissed);
    reveal(AppView::refreshed);
    reveal(AppView::shown);
    reveal(AppView::asked);
}

/// Escape closes what is open. In the terminal it asks about the connection: how to get it
/// back if it is lost for good, and otherwise what to do with it.
#[verifier::rlimit(40)]
pub proof fn law_escape(app: AppView, at: Moment)
    requires
        app.ui.screen.state is Running,
        app.ui.popup != Some(PopupView::UpdateDownloading),
        app.ui.popup != Some(PopupView::UpdateLaunchPrompt),
    ensures
        ({
            let after = app.escaped(at);
            let gone = !(at.status is Connected) && !(at.status is LentOut);
            let lost = app.ui.screen.user_broke_connection || (gone && at.reconnections is Disabled);
            &&& app.ui.popup is Some ==> after.ui.popup is None && after.ui.screen.state is Running
            &&& app.ui.popup is None && app.ui.screen.menu is PortSelection
                ==> after.ui.screen.state is Finished
            &&& app.ui.popup is None && app.ui.screen.menu is Terminal && lost ==> after.ui.popup
                == Some(PopupView::AttemptReconnectPrompt)
            &&& app.ui.popup is None && app.ui.screen.menu is Terminal && !lost ==> after.ui.popup
                == Some(PopupView::DisconnectPrompt)
            &&& after.outbox == app.outbox
            &&& after.edit.settings == app.edit.settings
        }),
{
    reveal(AppView::escaped);
    reveal(AppView::dismissed);
    reveal(AppView::refreshed);
    reveal(AppView::shown);
    reveal(AppView::asked);
}

/// Control with `c` interrupts, control and shift with `C` end the program, and escape and
/// enter do the same wherever they are pressed.
pub proof fn law_keys_that_always_work(context: Context)
    ensures
        deed_of(KeyEvent { code: KeyCode::Char('c'), modifiers: 2 }, context) == Some(
            Deed::Interrupt,
        ),
        deed_of(KeyEvent { code: KeyCode::Char('C'), modifiers: 3 }, context) == Some(Deed::End),
        deed_of(KeyEvent { code: KeyCode::Esc, modifiers: 0 }, context) == Some(Deed::Escape),
        deed_of(KeyEvent { code: KeyCode::Enter, modifiers: 0 }, context) == Some(
            Deed::Enter { ctrl: false, shift: false },
        ),
        deed_of(KeyEvent { code: KeyCode::Enter, modifiers: 1 }, context) == Some(
            Deed::Enter { ctrl: false, shift: true },
        ),
        deed_of(KeyEvent { code: KeyCode::Enter, modifiers: 2 }, context) == Some(
            Deed::Enter { ctrl: true, shift: false },
        ),
        deed_of(KeyEvent { code: KeyCode::Enter, modifiers: 3 }, context) == Some(
            Deed::Enter { ctrl: true, shift: true },
        ),
        deed_of(KeyEvent { code: KeyCode::Up, modifiers: 0 }, context) == Some(Deed::Up),
        deed_of(KeyEvent { code: KeyCode::Down, modifiers: 0 }, context) == Some(Deed::Down),
        deed_of(KeyEvent { code: KeyCode::Left, modifiers: 0 }, context) == Some(Deed::Left),
        deed_of(KeyEvent { code: KeyCode::Right, modifiers: 0 }, context) == Some(Deed::Right),
        deed_of(KeyEvent { code: KeyCode::PageUp, modifiers: 0 }, context) == Some(Deed::PageUp),
        deed_of(KeyEvent { code: KeyCode::PageDown, modifiers: 0 }, context) == Some(
            Deed::PageDown,
        ),
        deed_of(KeyEvent { code: KeyCode::PageUp, modifiers: 2 }, context) == Some(
            Deed::ScrollTop,
        ),
        deed_of(KeyEvent { code: KeyCode::PageDown, modifiers: 2 }, context) == Some(
            Deed::ScrollBottom,
        ),
{
}

/// A letter that is typed without control does nothing of its own in the terminal.
pub proof fn law_letters_are_only_typed_in_the_terminal(
    app: AppView,
    flow: Flow,
    c: char,
    modifiers: u8,
)
    requires
        app.ui.popup is None,
        app.ui.screen.menu is Terminal,
        !flow.port_actions,
        modifiers == 0 || modifiers == 1,
    ensures
        deed_of(KeyEvent { code: KeyCode::Char(c), modifiers }, app.context(flow)) is None,
{
    reveal(AppView::context);
}

/// The program is only ended by `q` where ports are selected and nothing is open; the
/// letters of an editor move through menus, and nowhere where a text is typed.
pub proof fn law_letters_in_menus(app: AppView, flow: Flow)
    ensures
        ({
            let letter = |c: char| deed_of(
                KeyEvent { code: KeyCode::Char(c), modifiers: 0 },
                app.context(flow),
            );
            let searching = app.ui.popup == Some(PopupView::ToolMenu(ToolMenu::Macros));
            let typing = app.ui.popup is None && app.ui.screen.menu is Terminal;
            &&& letter('q') == Some(Deed::End) <==> flow.port_actions && app.ui.popup is None
            &&& letter('u') == Some(Deed::AskUpdate) <==> flow.port_actions && app.ui.popup is None
                && app.kept.update_found_version is Some
            &&& letter('h') == Some(Deed::Left) <==> !searching && !typing
            &&& letter('j') == Some(Deed::Down) <==> !searching && !typing
            &&& letter('k') == Some(Deed::Up) <==> !searching && !typing
            &&& letter('l') == Some(Deed::Right) <==> !searching && !typing
            &&& letter('i') == Some(Deed::AskIgnore) <==> flow.port_actions
                && app.ui.screen.port_selection_scroll < app.kept.ports.len()
        }),
{
    reveal(AppView::context);
}

/// Without a shell of its own the terminal sends every key on at once, unless it follows
/// the one that keeps it back; then it does what it does here. Nothing goes into the box.
pub proof fn law_keys_go_straight_to_the_port(
    app: AppView,
    key: KeyEvent,
    at: Moment,
    after: AppView,
    done: bool,
)
    requires
        app.terminal_typed(key, at, after, done),
        !app.edit.settings.behavior.pseudo_shell,
        !app.left_alone(key.combination()),
    ensures
        !app.escapes(key.combination()) && !app.ui.screen.escape_next_keypress ==> after
            == app.key_to_port(key, at) && done,
        !app.escapes(key.combination()) && app.ui.screen.escape_next_keypress ==> {
            &&& !done
            &&& after.outbox == app.outbox
            &&& !after.ui.screen.escape_next_keypress
        },
        app.escapes(key.combination()) ==> {
            &&& done
            &&& !app.ui.screen.escape_next_keypress ==> after.outbox == app.outbox
                && after.ui.screen.escape_next_keypress
            &&& app.ui.screen.escape_next_keypress ==> after == app.escaping(false).key_to_port(
                key,
                at,
            )
        },
        after.kept.text_input == app.kept.text_input,
{
    reveal(AppView::terminal_typed);
    crate::app::rules::law_keys_go_to_the_port(app, key, at);
    crate::app::rules::law_keys_go_to_the_port(app.escaping(false), key, at);
}

/// With a shell of its own the terminal sends nothing for a key: it goes into the box.
pub proof fn law_keys_go_into_the_box(
    app: AppView,
    key: KeyEvent,
    at: Moment,
    after: AppView,
    done: bool,
)
    requires
        app.terminal_typed(key, at, after, done),
        app.edit.settings.behavior.pseudo_shell,
    ensures
        after.outbox == app.outbox,
        !done,
        after.ui == app.ui,
        after.edit == app.edit,
{
    reveal(AppView::terminal_typed);
    reveal(AppView::text_edited);
}

/// A combination that is bound does what its actions say, in their order, unless one of
/// them is unknown; then none of them is done, and the user is told.
pub proof fn law_bound_keys(app: AppView, combo: KeyEvent, at: Moment, i: int)
    requires
        crate::keybinds::binding_of(app.kept.keybinds.keybindings@, combo, 0) == Some(i),
    ensures
        ({
            let binding = app.kept.keybinds.keybindings@[i];
            let names = binding.actions@;
            let after = app.bound_done(combo, at);
            let known = forall|j: int|
                0 <= j < names.len() ==> app.action_named((#[trigger] names[j])@) is Some;
            &&& known ==> exists|actions: Seq<ActionView>|
                {
                    &&& actions.len() == names.len()
                    &&& forall|j: int|
                        0 <= j < names.len() ==> app.action_named((#[trigger] names[j])@) == Some(
                            actions[j],
                        )
                    &&& after == #[trigger] app.queued(actions, binding.label@, at)
                }
            &&& !known ==> {
                &&& after.kept == app.kept
                &&& after.ui == app.ui
                &&& after.edit == app.edit
                &&& after.outbox.len() == app.outbox.len() + 1
                &&& after.outbox.last() is Notify
            }
        }),
{
    reveal(AppView::bound_done);
    reveal(AppView::said);
    reveal(AppView::effected);
    let binding = app.kept.keybinds.keybindings@[i];
    let names = binding.actions@;
    lemma_first_unknown(app, names, 0);
    if app.first_unknown(names, 0) is None {
        let actions = app.actions_named(names);
        assert forall|j: int| 0 <= j < names.len() implies app.action_named(
            (#[trigger] names[j])@,
        ) == Some(actions[j]) by {}
        assert(app.bound_done(combo, at) == app.queued(actions, binding.label@, at));
    }
}

pub proof fn lemma_first_unknown(app: AppView, names: Seq<String>, from: int)
    requires
        0 <= from,
    ensures
        match app.first_unknown(names, from) {
            Some(bad) => from <= bad < names.len() && app.action_named(names[bad]@) is None,
            None => forall|j: int|
                from <= j < names.len() ==> app.action_named((#[trigger] names[j])@) is Some,
        },
    decreases names.len() - from,
{
    if from < names.len() {
        lemma_first_unknown(app, names, from + 1);
    }
}

/// A name stands for an action that is always there before anything else, then for a
/// profile, then for a macro, and for a pause last. White space around it does not count.
pub proof fn law_names_of_actions(app: AppView, text: Seq<char>)
    ensures
        ({
            let name = crate::text::trimmed(text);
            let found = app.action_named(text);
            &&& name.len() == 0 ==> found is None
            &&& found matches Some(ActionView::BuiltinAction(action)) ==> BuiltinAction::called(
                name,
                0,
            ) == Some(action)
            &&& found matches Some(ActionView::EspFlashProfile(profile)) ==> profile == name
                && app.kept.espflash.index_of_name(name, 0) is Some && BuiltinAction::called(
                name,
                0,
            ) is None
            &&& found matches Some(ActionView::MacroInvocation(tag)) ==> {
                &&& exists|j: int|
                    0 <= j < app.kept.macros.all.len() && (#[trigger] app.kept.macros.all[j]).tag@
                        == tag
                &&& app.kept.espflash.index_of_name(name, 0) is None
                &&& BuiltinAction::called(name, 0) is None
            }
        }),
{
    if app.macro_named(crate::text::trimmed(text)) is Some {
        let name = crate::text::trimmed(text);
        let tag = crate::macros::parsed_tag(name)->0;
        crate::macros::laws::law_macro_is_found(app.kept.macros, tag, true);
        crate::macros::laws::law_macro_is_found(app.kept.macros, tag, false);
    }
}

/// Every choice of a prompt is picked by its own key, and a key that belongs to none picks
/// nothing.
pub proof fn law_keys_pick_their_choices<P: PromptTable>(code: KeyCode)
    ensures
        match crate::tui::prompts::picked::<P>(code, 0) {
            Some(choice) => P::choices().contains(choice) && choice.shortcut() == code,
            None => forall|i: int|
                0 <= i < P::choices().len() ==> (#[trigger] P::choices()[i]).shortcut() != code,
        },
{
    lemma_picked::<P>(code, 0);
}

proof fn lemma_picked<P: PromptTable>(code: KeyCode, from: int)
    requires
        0 <= from,
    ensures
        match crate::tui::prompts::picked::<P>(code, from) {
            Some(choice) => P::choices().contains(choice) && choice.shortcut() == code,
            None => forall|i: int|
                from <= i < P::choices().len() ==> (#[trigger] P::choices()[i]).shortcut() != code,
        },
    decreases P::choices().len() - from,
{
    if from < P::choices().len() {
        lemma_picked::<P>(code, from + 1);
        assert(P::choices().contains(P::choices()[from]));
    }
}

/// Each prompt offers each of its choices once, under keys and names of their own.
#[verifier::rlimit(40)]
pub proof fn law_prompts_offer_every_choice(
    disconnect: DisconnectPrompt,
    other_disconnect: DisconnectPrompt,
    reconnect: AttemptReconnectPrompt,
    other_reconnect: AttemptReconnectPrompt,
    usb: IgnoreUsbDevicePrompt,
    other_usb: IgnoreUsbDevicePrompt,
    begin: UpdateBeginPrompt,
    other_begin: UpdateBeginPrompt,
)
    ensures
        DisconnectPrompt::choices().contains(disconnect),
        AttemptReconnectPrompt::choices().contains(reconnect),
        IgnoreUsbDevicePrompt::choices().contains(usb),
        UpdateBeginPrompt::choices().contains(begin),
        disconnect != other_disconnect ==> disconnect.shortcut() != other_disconnect.shortcut(),
        reconnect != other_reconnect ==> reconnect.shortcut() != other_reconnect.shortcut(),
        usb != other_usb ==> usb.shortcut() != other_usb.shortcut(),
        begin != other_begin ==> begin.shortcut() != other_begin.shortcut(),
        DisconnectPrompt::choices().no_duplicates(),
        AttemptReconnectPrompt::choices().no_duplicates(),
        IgnoreUsbDevicePrompt::choices().no_duplicates(),
        UpdateBeginPrompt::choices().no_duplicates(),
{
    let d = DisconnectPrompt::choices();
    let r = AttemptReconnectPrompt::choices();
    let u = IgnoreUsbDevicePrompt::choices();
    let b = UpdateBeginPrompt::choices();
    assert(d[0] == d[0] && d[1] == d[1] && d[2] == d[2] && d[3] == d[3] && d[4] == d[4]);
    assert(r[0] == r[0] && r[1] == r[1] && r[2] == r[2] && r[3] == r[3] && r[4] == r[4]);
    assert(u[0] == u[0] && u[1] == u[1] && u[2] == u[2] && u[3] == u[3]);
    assert(b[0] == b[0] && b[1] == b[1] && b[2] == b[2] && b[3] == b[3]);
}

/// The actions that open something open what they are called after.
#[verifier::rlimit(40)]
pub proof fn law_actions_open_their_menus(app: AppView, action: ShowPopupAction)
    requires
        app.ui.popup is None,
    ensures
        ({
            let open = app.toggled_popup(action).ui.popup;
            &&& open is Some
            &&& open->0 is CurrentKeybinds <==> action is ShowKeybinds
            &&& open == Some(PopupView::SettingsMenu(SettingsMenu::SerialPort))
                <==> action is ShowPortSettings
            &&& open == Some(PopupView::SettingsMenu(SettingsMenu::Behavior))
                <==> action is ShowBehavior
            &&& open == Some(PopupView::SettingsMenu(SettingsMenu::Rendering))
                <==> action is ShowRendering
            &&& open == Some(PopupView::SettingsMenu(SettingsMenu::Logging))
                <==> action is ShowLogging
            &&& open == Some(PopupView::SettingsMenu(SettingsMenu::Defmt)) <==> action is ShowDefmt
            &&& open == Some(PopupView::ToolMenu(ToolMenu::Macros)) <==> action is ShowMacros
            &&& open == Some(PopupView::ToolMenu(ToolMenu::EspFlash)) <==> action is ShowEspFlash
        }),
{
    reveal(AppView::toggled_popup);
    reveal(AppView::shown);
    reveal(AppView::refreshed);
    reveal(AppView::asked);
}

/// A step down among the entries of the screen for ports goes to the next one, and from the
/// last to the first; a step up goes back.
pub proof fn law_steps_among_ports(app: AppView)
    requires
        app.ui.popup is None,
        app.ui.screen.menu is PortSelection,
        app.ui.screen.port_selection_scroll < app.port_items(),
    ensures
        ({
            let at = app.ui.screen.port_selection_scroll as int;
            let down = app.stepped(true);
            let up = app.stepped(false);
            &&& at + 1 < app.port_items() ==> down.ui.screen.port_selection_scroll == at + 1
            &&& at + 1 == app.port_items() ==> down.ui.screen.port_selection_scroll == 0
            &&& at > 0 ==> up.ui.screen.port_selection_scroll == at - 1
            &&& at == 0 ==> up.ui.screen.port_selection_scroll == app.port_items() - 1
            &&& down.stepped(false).ui.screen.port_selection_scroll == at
            &&& down.outbox == app.outbox
            &&& down.kept.ports == app.kept.ports
        }),
{
    reveal(AppView::stepped);
}

/// The baud rates go round, and each of them can be reached from any other.
pub proof fn law_steps_among_baud_rates(app: AppView)
    requires
        app.ui.screen.baud_index <= 10,
    ensures
        0 <= app.next_baud(true) <= 10,
        0 <= app.next_baud(false) <= 10,
        app.ui.screen.baud_index < 10 ==> app.next_baud(true) == app.ui.screen.baud_index + 1,
        app.ui.screen.baud_index == 10 ==> app.next_baud(true) == 0,
        app.ui.screen.baud_index > 0 ==> app.next_baud(false) == app.ui.screen.baud_index - 1,
        app.ui.screen.baud_index == 0 ==> app.next_baud(false) == 10,
{
}

/// The rate that is set is selected at first if it is on offer; any other stands in the box
/// for one's own.
pub proof fn law_first_baud_rate(baud_rate: u32)
    ensures
        ({
            let at = crate::app::outcomes::baud_position(baud_rate, 0);
            &&& 0 <= at <= 10
            &&& at < 10 ==> COMMON_BAUD@[at] == baud_rate
            &&& at == 10 ==> forall|i: int| 0 <= i < 10 ==> #[trigger] COMMON_BAUD@[i] != baud_rate
            &&& crate::app::outcomes::first_screen(baud_rate).baud_index == at
        }),
{
    lemma_baud_position(baud_rate, 0);
}

proof fn lemma_baud_position(baud_rate: u32, from: int)
    requires
        0 <= from <= 10,
    ensures
        ({
            let at = crate::app::outcomes::baud_position(baud_rate, from);
            &&& from <= at <= 10
            &&& at < 10 ==> COMMON_BAUD@[at] == baud_rate
            &&& at == 10 ==> forall|i: int|
                from <= i < 10 ==> #[trigger] COMMON_BAUD@[i] != baud_rate
        }),
    decreases 10 - from,
{
    if from < 10 {
        lemma_baud_position(baud_rate, from + 1);
    }
}

} // verus!
