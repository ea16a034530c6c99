//! Where the selection stands, and where it goes.

use vstd::prelude::*;
use vstd::string::*;

use crate::app::effects::{EffectView, Request};
use crate::app::outcomes::Start;
use crate::app::{AppView, Moment, PopupView, SettingsMenu, Tick, ToolMenu};
use crate::keys::{KeyCode, KeyEvent};

verus! {

/// In a menu the first two rows select the menu; the rows of its table follow, behind the
/// search among macros and behind the buttons elsewhere.
pub proof fn law_rows_of_menus(app: AppView)
    ensures
        ({
            let row = app.ui.screen.popup_menu_scroll;
            let entry = app.corrected();
            &&& row < 2 ==> entry is None
            &&& row >= 2 ==> (app.ui.popup matches Some(PopupView::SettingsMenu(menu))
                ==> !(menu is Defmt) ==> entry == Some(row - 2))
            &&& row >= 4 && app.ui.popup == Some(PopupView::SettingsMenu(SettingsMenu::Defmt))
                ==> entry == Some(row - 4)
            &&& row == 2 && app.ui.popup == Some(PopupView::ToolMenu(ToolMenu::Macros))
                ==> entry is None
            &&& row >= 3 && app.ui.popup == Some(PopupView::ToolMenu(ToolMenu::Macros)) ==> entry
                == Some(row - 3)
            &&& row >= 6 && app.ui.popup == Some(PopupView::ToolMenu(ToolMenu::EspFlash)) ==> entry
                == Some(row - 6)
            &&& app.ui.popup is None ==> entry is None
        }),
{
}

/// There are as many rows as there are entries: those of the table and the buttons, behind
/// the rows that select the menu.
pub proof fn law_numbers_of_rows(app: AppView)
    requires
        app.kept.macros.visible().len() + 3 <= usize::MAX,
        app.kept.espflash.count() + 6 <= usize::MAX,
        app.kept.recent_elfs.len() <= usize::MAX,
    ensures
        app.ui.popup == Some(PopupView::ToolMenu(ToolMenu::Macros)) ==> app.item_count() == 3
            + app.kept.macros.visible().len(),
        app.ui.popup == Some(PopupView::ToolMenu(ToolMenu::EspFlash)) ==> app.item_count() == 6
            + app.kept.espflash.count(),
        app.ui.popup == Some(PopupView::SettingsMenu(SettingsMenu::SerialPort)) ==> app.item_count()
            == 2 + app.kept.layout.serial_rows,
        app.ui.popup == Some(PopupView::SettingsMenu(SettingsMenu::Logging)) ==> app.item_count()
            == 3 + app.kept.layout.logging_rows,
        app.ui.popup == Some(PopupView::SettingsMenu(SettingsMenu::Defmt)) ==> app.item_count() == 4
            + app.kept.layout.defmt_rows,
        app.ui.popup == Some(PopupView::DefmtRecentElf) ==> app.item_count()
            == app.kept.recent_elfs.len(),
        app.ui.popup == Some(PopupView::DisconnectPrompt) ==> app.item_count() == 5,
        app.ui.popup == Some(PopupView::AttemptReconnectPrompt) ==> app.item_count() == 5,
        app.ui.popup is None ==> app.item_count() == 0,
{
}

/// The entries of the screen for ports are the ports, the rates, the box for a rate of one's
/// own if that is chosen, and the options.
pub proof fn law_entries_of_the_screen_for_ports(app: AppView)
    requires
        app.kept.ports.len() + 3 <= usize::MAX,
    ensures
        app.ui.screen.baud_index == 10 ==> app.port_items() == app.kept.ports.len() + 3,
        app.ui.screen.baud_index != 10 ==> app.port_items() == app.kept.ports.len() + 2,
{
}

/// A step through a pop-up goes to the next row, and from the last to the first; where there
/// is nothing to select it goes nowhere. In the terminal it goes through the history.
#[verifier::rlimit(40)]
pub proof fn law_steps(app: AppView, down: bool)
    ensures
        ({
            let after = app.stepped(down);
            let row = app.ui.screen.popup_menu_scroll;
            &&& app.ui.popup is None && app.ui.screen.menu is Terminal ==> after.ui.popup is None
                && after.kept.text_input.history.entries
                == app.kept.text_input.history.entries
            &&& app.ui.popup == Some(PopupView::UpdateDownloading) || app.ui.popup == Some(
                PopupView::DefmtNewElf,
            ) ==> after.ui.screen.popup_menu_scroll == row
            &&& app.ui.popup == Some(PopupView::DisconnectPrompt) && row < 5 ==> {
                &&& down && row < 4 ==> after.ui.screen.popup_menu_scroll == row + 1
                &&& down && row == 4 ==> after.ui.screen.popup_menu_scroll == 0
                &&& !down && row > 0 ==> after.ui.screen.popup_menu_scroll == row - 1
                &&& !down && row == 0 ==> after.ui.screen.popup_menu_scroll == 4
            }
            &&& after.ui.popup == app.ui.popup
            &&& !after.kept.text_input.all_text_selected
            &&& after.outbox == app.outbox
            &&& after.edit == app.edit
        }),
{
    reveal(AppView::stepped);
}

/// A prompt opens at its first choice, a menu at the row that selects the menu.
#[verifier::rlimit(40)]
pub proof fn law_where_popups_open(app: AppView, popup: PopupView)
    requires
        !(popup is DefmtRecentElf) || app.kept.recent_elfs.len() > 0,
    ensures
        ({
            let after = app.shown(popup);
            &&& popup is SettingsMenu || popup is ToolMenu ==> after.ui.screen.popup_menu_scroll
                == 1 && after.outbox == app.outbox.push(
                EffectView::Request(Request::Emit(Tick::Scroll)),
            )
            &&& popup is DisconnectPrompt || popup is AttemptReconnectPrompt
                || popup is IgnoreByName || popup is IgnoreByUsb || popup is UpdateBeginPrompt
                || popup is UpdateCheckConsentPrompt || popup is DefmtRecentElf
                ==> after.ui.screen.popup_menu_scroll == 0 && after.outbox == app.outbox
            &&& after.ui.screen.popup_hint_scroll == -2
        }),
{
    reveal(AppView::shown);
    reveal(AppView::refreshed);
    reveal(AppView::asked);
}

/// Another category is only gone to while nothing is searched for.
pub proof fn law_categories_and_searches(app: AppView, right: bool)
    ensures
        app.kept.macros.query.len() > 0 ==> app.category_stepped(right) == app,
        app.kept.macros.query.len() == 0 ==> app.category_stepped(right).kept.macros
            == app.kept.macros.stepped(right),
        app.kept.macros.query.len() == 0 && app.ui.screen.popup_menu_scroll >= 2
            && app.kept.macros.stepped(right).visible().len() > 0 ==> app.category_stepped(
            right,
        ).ui.screen.popup_menu_scroll == 2,
{
    reveal(AppView::category_stepped);
}

/// The program begins where ports are selected, with nothing open, nothing typed and nothing
/// asked for, and with its settings as they were read.
pub proof fn law_beginning(start: Start)
    ensures
        ({
            let app = start.state();
            &&& app.ui.screen.state is Running
            &&& app.ui.screen.menu is PortSelection
            &&& app.ui.popup is None
            &&& app.outbox.len() == 0
            &&& app.kept.queue.len() == 0
            &&& app.kept.text_input.text.len() == 0
            &&& app.kept.text_input.history.entries.len() == 0
            &&& app.edit.settings == start.settings@
            &&& app.edit.scratch == start.settings@
            &&& !app.ui.screen.user_broke_connection
            &&& app.kept.update_found_version is None
            &&& app.kept.ports == crate::serial::port_views(start.ports@)
        }),
{
}

/// A rate of one's own is there from the beginning if it was set, so that the same port is
/// opened with it again.
pub proof fn law_own_rate_is_kept(start: Start)
    ensures
        ({
            let app = start.state();
            let rate = start.settings.serial.baud_rate;
            let at = app.ui.screen.baud_index;
            &&& at < 10 ==> crate::app::COMMON_BAUD@[at as int] == rate
            &&& at == 10 && rate != 0 ==> crate::parse::decimal(
                app.edit.baud_text,
                u32::MAX as int,
            ) == Ok::<int, crate::parse::NumberError>(rate as int)
            &&& at <= 10
        }),
{
    let rate = start.settings.serial.baud_rate;
    crate::app::keyboard::law_first_baud_rate(rate);
    crate::laws::law_number_reads_back(rate as nat, u32::MAX as int);
}

/// A digit that is typed into the box for the rate is put where the cursor is, and the rate
/// that is being edited follows if there is one in the box; the one in use does not.
pub proof fn law_typed_rate(app: AppView, key: KeyEvent, after: AppView)
    requires
        app.baud_edited(key, after),
        crate::input_box::types_char(key),
        app.edit.baud_cursor <= app.edit.baud_text.len(),
    ensures
        after.edit.baud_text == app.edit.baud_text.insert(
            app.edit.baud_cursor as int,
            key.code->Char_0,
        ),
        after.edit.settings == app.edit.settings,
        crate::parse::decimal(after.edit.baud_text, u32::MAX as int) matches Ok(rate)
            ==> after.edit.scratch.serial.baud_rate == rate as u32,
        crate::parse::decimal(after.edit.baud_text, u32::MAX as int) is Err ==> after.edit.scratch
            == app.edit.scratch,
        after.outbox == app.outbox && after.ui == app.ui && after.kept == app.kept,
{
    reveal(AppView::baud_edited);
}

/// Where ports are selected, digits go into the box for a rate of one's own while it is
/// selected, and letters do not.
pub proof fn law_keys_where_ports_are_selected(
    app: AppView,
    key: KeyEvent,
    at: Moment,
    after: AppView,
    flow: crate::app::press::Flow,
)
    requires
        app.ui.popup is None,
        app.ui.screen.menu is PortSelection,
        app.key_typed(key, at, after, flow),
    ensures
        !app.own_baud_selected() ==> after == app && flow.port_actions && !flow.done,
        app.own_baud_selected() ==> !flow.port_actions && !flow.done && (
        key.code matches KeyCode::Char(c) ==> crate::foreign::alphabetic(c) ==> after == app),
        app.own_baud_selected() <==> app.ui.screen.baud_index == 10
            && app.ui.screen.port_selection_scroll == app.port_items() - 2,
        after.edit.settings == app.edit.settings,
        after.outbox == app.outbox,
{
    reveal(AppView::key_typed);
    reveal(AppView::baud_edited);
}

/// A macro with escaped bytes is put into the box as the digits of its bytes, which read as
/// what would be sent; any other as its text. Nothing is sent.
pub proof fn law_macro_is_taken_over(app: AppView, index: int)
    requires
        0 <= index < app.kept.macros.all.len(),
        app.kept.macros.all[index].content.content@.len() > 0,
        app.ui.popup == Some(PopupView::ToolMenu(ToolMenu::Macros)),
    ensures
        ({
            let content = app.kept.macros.all[index].content;
            let after = app.macro_taken(index);
            let input = after.kept.text_input;
            &&& content.has_escaped_bytes ==> input.bytes_input && crate::foreign::hex_decoded(
                vstd::utf8::encode_utf8(input.text),
            ) == crate::foreign::unescaped(content.content@)
            &&& !content.has_escaped_bytes ==> !input.bytes_input && input.text
                == content.content@
            &&& after.outbox == app.outbox
            &&& after.ui.popup is None
        }),
{
    reveal(AppView::macro_taken);
    reveal(AppView::dismissed);
    reveal(AppView::refreshed);
    crate::foreign::law_hex_round_trip(
        crate::foreign::unescaped(app.kept.macros.all[index].content.content@),
    );
}

/// Control with `a`, and what removes a text that is marked as a whole, is never sent to the
/// port; any other key may be.
pub proof fn law_keys_that_are_left_alone(app: AppView, key: KeyEvent)
    ensures
        app.left_alone(KeyEvent { code: KeyCode::Char('a'), modifiers: 2 }),
        app.kept.text_input.all_text_selected ==> app.left_alone(
            KeyEvent { code: KeyCode::Delete, modifiers: 0 },
        ) && app.left_alone(KeyEvent { code: KeyCode::Backspace, modifiers: 0 }),
        !app.kept.text_input.all_text_selected && !(key.code == KeyCode::Char('a') && key.modifiers
            == 2) ==> !app.left_alone(key),
{
}

/// The next key is kept from the port by a combination that is bound to that alone.
pub proof fn law_keys_that_keep_the_next_one_back(app: AppView, combo: KeyEvent)
    ensures
        app.escapes(combo) ==> exists|i: int|
            {
                &&& 0 <= i < app.kept.keybinds.keybindings@.len()
                &&& (#[trigger] app.kept.keybinds.keybindings@[i]).combo == combo
                &&& app.kept.keybinds.keybindings@[i].actions@.len() == 1
            },
{
    crate::laws::law_bindings_are_found(app.kept.keybinds.keybindings@, combo);
}

/// Cutting a word, searching the history and clearing the box change what is typed, and
/// nothing else.
pub proof fn law_editing_what_is_typed(app: AppView)
    ensures
        app.text_cleared().kept.text_input.text.len() == 0,
        app.history_searched().kept.text_input == app.kept.text_input.searched(),
        app.kept.text_input.can_remove_word() ==> app.word_cut().kept.text_input
            == app.kept.text_input.word_removed(),
        !app.kept.text_input.bytes_input ==> app.kept.text_input.can_remove_word(),
        app.text_cleared().outbox == app.outbox && app.text_cleared().ui == app.ui,
        app.history_searched().outbox == app.outbox && app.history_searched().ui == app.ui,
{
    reveal(AppView::text_cleared);
    reveal(AppView::history_searched);
    reveal(AppView::word_cut);
}

/// Leaving the terminal gives up the connection and what was received, looks for ports again,
/// and selects the first entry.
pub proof fn law_leaving_the_terminal(app: AppView)
    requires
        app.ui.popup != Some(PopupView::UpdateDownloading),
        app.ui.popup != Some(PopupView::UpdateLaunchPrompt),
    ensures
        ({
            let after = app.left_terminal();
            let n = app.outbox.len() as int;
            &&& after.ui.screen.menu is PortSelection
            &&& after.ui.screen.port_selection_scroll == 0
            &&& after.ui.popup is None
            &&& after.outbox.len() == n + 3
            &&& after.outbox[n] == EffectView::Request(Request::Disconnect)
            &&& after.outbox[n + 1] == EffectView::Request(Request::ScanPortsNow)
            &&& after.outbox[n + 2] == EffectView::Request(Request::ForgetBuffer)
        }),
{
    reveal(AppView::left_terminal);
    reveal(AppView::dismissed);
    reveal(AppView::refreshed);
    reveal(AppView::asked);
}

/// Bytes are typed in place of text, or text in place of bytes, where what is typed can be
/// written in the other way; the program only gives up where that cannot be.
pub proof fn law_switching_between_text_and_bytes(app: AppView)
    ensures
        !app.kept.text_input.bytes_input ==> app.bytes_toggled().kept.text_input.bytes_input
            && app.bytes_toggled().outbox == app.outbox,
        app.kept.text_input.bytes_input && app.kept.text_input.can_toggle()
            ==> !app.bytes_toggled().kept.text_input.bytes_input,
{
    reveal(AppView::bytes_toggled);
    reveal(AppView::asked);
}

/// Only what is no key at all counts as a failure to send. A key without a code is passed
/// over: nothing is sent, and nothing turns red.
pub proof fn law_keys_without_a_code(app: AppView, key: KeyEvent, at: Moment)
    requires
        at.status is Connected,
        !crate::key_codes::beyond_code(key),
    ensures
        ({
            let after = app.key_to_port(key, at);
            &&& key.code is Null ==> after.ui.screen.failed_send_at == Some(at.now)
                && after.kept.last_raw_sequence.len() == 0 && !crate::app::rules::sends(app, after)
            &&& !(key.code is Null) && crate::key_codes::terminal_code(key) is None ==> {
                &&& after.outbox == app.outbox
                &&& after.ui.screen.failed_send_at == app.ui.screen.failed_send_at
                &&& after.kept == app.kept
            }
            &&& !(key.code is Null) ==> (crate::key_codes::terminal_code(key) matches Some(bytes)
                ==> after.outbox == app.outbox.push(EffectView::Send(bytes)))
        }),
{
    reveal(AppView::key_to_port);
    reveal(AppView::key_encoded);
    reveal(AppView::send_failed);
    reveal(AppView::effected);
    reveal(AppView::asked);
    reveal(AppView::flipped);
}

} // verus!
