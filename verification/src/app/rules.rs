//! What the program does with what is typed, chosen and asked for, in terms of what it then
//! asks of the world.

use vstd::prelude::*;
use vstd::string::*;
use vstd::utf8::*;

use crate::app::effects::{EffectView, Request};
use crate::app::{AppView, Fault, Moment, PopupView, SettingsMenu, Tick, TickOrigin, Timer};
use crate::keybinds::{EspBuiltinAction, PortAction};
use crate::keys::KeyEvent;
use crate::macros::{Macro, TagView};
use crate::serial::ReconnectionStrictness;
use crate::serial::esp::EspRestartType;
use crate::settings::line_ending::EndingView;
use crate::settings::{PortSettings, Rendering, SettingsView};

verus! {

/// What is newly asked for.
pub open spec fn added(before: AppView, after: AppView) -> Seq<EffectView> {
    after.outbox.skip(before.outbox.len() as int)
}

/// Whether something is newly asked for.
pub open spec fn asks(before: AppView, after: AppView, request: Request) -> bool {
    added(before, after).contains(EffectView::Request(request))
}

/// Whether bytes are newly sent.
pub open spec fn sends(before: AppView, after: AppView) -> bool {
    exists|i: int|
        before.outbox.len() <= i < after.outbox.len() && (#[trigger] after.outbox[i]) is Send
}

/// A macro that has a line ending of its own is sent as its text, without escapes, and that
/// ending, whatever the settings for line endings are; its text is shown along with it.
#[verifier::rlimit(40)]
pub proof fn law_macro_is_sent_with_its_own_ending(
    app: AppView,
    settings: SettingsView,
    tag: TagView,
    label: Option<Seq<char>>,
    i: int,
)
    requires
        0 <= i < app.kept.macros.all.len(),
        app.kept.macros.all[i].tag@ == tag,
        forall|j: int| 0 <= j < i ==> (#[trigger] app.kept.macros.all[j]).tag@ != tag,
        app.kept.macros.all[i].content.content@.len() > 0,
        app.kept.macros.all[i].content.escaped_line_ending is Some,
    ensures
        ({
            let content = app.kept.macros.all[i].content;
            let own = content.escaped_line_ending->0@;
            let after = app.with_settings(settings).sent_macro(tag, label);
            let n = app.outbox.len() as int;
            &&& after.outbox.len() == n + 4
            &&& after.outbox.take(n) == app.outbox
            &&& after.outbox[n] == EffectView::Send(
                crate::foreign::unescaped(content.content@) + crate::foreign::unescaped(own),
            )
            &&& content.has_escaped_bytes ==> after.outbox[n + 1] == (EffectView::EchoBytes {
                bytes: crate::foreign::unescaped(content.content@),
                ending: crate::foreign::unescaped(own),
                sensitive: Some(content.sensitive),
            })
            &&& !content.has_escaped_bytes ==> after.outbox[n + 1] == (EffectView::EchoText {
                text: content.content@,
                ending: crate::foreign::unescaped(own),
                sensitive: Some(content.sensitive),
            })
        }),
{
    reveal(AppView::sent_macro);
    reveal(AppView::effected);
    reveal(AppView::asked);
    lemma_first_macro(app.kept.macros.all, tag, 0, i);
    let after = app.with_settings(settings).sent_macro(tag, label);
    assert(after.outbox.take(app.outbox.len() as int) =~= app.outbox);
}

proof fn lemma_first_macro(all: Seq<Macro>, tag: TagView, from: int, i: int)
    requires
        0 <= from <= i < all.len(),
        all[i].tag@ == tag,
        forall|j: int| 0 <= j < i ==> (#[trigger] all[j]).tag@ != tag,
    ensures
        crate::macros::first_tag(
            crate::macros::tags_of(all),
            crate::macros::tag_is(tag),
            from,
        ) == Some(i),
    decreases i - from,
{
    assert(crate::macros::tags_of(all)[from] == all[from].tag@);
    if from < i {
        lemma_first_macro(all, tag, from + 1, i);
    }
}

/// The bytes that end what is sent: those of the setting, or those that end what is received
/// if the setting says so.
pub open spec fn ending_of(own: EndingView, rx: EndingView) -> Seq<u8> {
    match own {
        EndingView::Preset(_, bytes) => bytes,
        EndingView::Custom(_, bytes) => bytes,
        _ => match rx {
            EndingView::Preset(_, bytes) => bytes,
            EndingView::Custom(_, bytes) => bytes,
            _ => Seq::empty(),
        },
    }
}

/// Any other macro is sent with the ending for macros; that may be the one for what is
/// received, or the one for what is sent.
#[verifier::rlimit(40)]
pub proof fn law_macro_is_sent_with_the_general_ending(
    app: AppView,
    tag: TagView,
    label: Option<Seq<char>>,
    i: int,
)
    requires
        0 <= i < app.kept.macros.all.len(),
        app.kept.macros.all[i].tag@ == tag,
        forall|j: int| 0 <= j < i ==> (#[trigger] app.kept.macros.all[j]).tag@ != tag,
        app.kept.macros.all[i].content.content@.len() > 0,
        app.kept.macros.all[i].content.escaped_line_ending is None,
    ensures
        ({
            let content = app.kept.macros.all[i].content;
            let endings = app.edit.settings.line_endings;
            let after = app.sent_macro(tag, label);
            let text = crate::foreign::unescaped(content.content@);
            let n = app.outbox.len() as int;
            &&& after.outbox.len() == n + 4
            &&& endings.macros is InheritRx ==> after.outbox[n] == EffectView::Send(
                text + ending_of(endings.rx, endings.rx),
            )
            &&& endings.macros is InheritTx ==> after.outbox[n] == EffectView::Send(
                text + ending_of(endings.tx, endings.rx),
            ) || endings.tx is InheritTx
            &&& endings.macros is Preset || endings.macros is Custom ==> after.outbox[n]
                == EffectView::Send(text + ending_of(endings.macros, endings.rx))
        }),
{
    reveal(AppView::sent_macro);
    reveal(AppView::effected);
    reveal(AppView::asked);
    lemma_first_macro(app.kept.macros.all, tag, 0, i);
}

/// A macro that is not there, or that is empty, is not sent.
pub proof fn law_missing_macro_is_not_sent(app: AppView, tag: TagView, label: Option<Seq<char>>)
    requires
        forall|j: int|
            0 <= j < app.kept.macros.all.len() ==> (#[trigger] app.kept.macros.all[j]).tag@ != tag
                || app.kept.macros.all[j].content.content@.len() == 0,
    ensures
        app.sent_macro(tag, label).outbox.len() == app.outbox.len() + 1,
        app.sent_macro(tag, label).outbox.last() == EffectView::Request(
            Request::Fail(Fault::MacroNotFound),
        ) || app.sent_macro(tag, label).outbox.last() == EffectView::Request(
            Request::Fail(Fault::MacroEmpty),
        ),
{
    reveal(AppView::sent_macro);
    reveal(AppView::asked);
    lemma_found_macro(app.kept.macros.all, tag, 0);
}

proof fn lemma_found_macro(all: Seq<Macro>, tag: TagView, from: int)
    requires
        0 <= from,
    ensures
        crate::macros::first_tag(
            crate::macros::tags_of(all),
            crate::macros::tag_is(tag),
            from,
        ) matches Some(i) ==> from <= i < all.len() && all[i].tag@ == tag,
    decreases all.len() - from,
{
    if from < all.len() {
        assert(crate::macros::tags_of(all)[from] == all[from].tag@);
        lemma_found_macro(all, tag, from + 1);
    }
}

/// Enter in the terminal sends what is in the box, with the line ending for what is sent, and
/// shows it; the box is empty then. Escapes in it are only taken for what they stand for if
/// that is set.
#[verifier::rlimit(40)]
pub proof fn law_typed_text_is_sent(app: AppView, ctrl: bool, shift: bool, at: Moment)
    requires
        app.ui.popup is None,
        app.ui.screen.menu is Terminal,
        at.status is Connected,
        app.edit.settings.behavior.pseudo_shell,
        !app.kept.text_input.bytes_input,
        app.kept.text_input.text.len() > 0,
        !(app.edit.settings.line_endings.tx is InheritTx),
        !(app.edit.settings.line_endings.rx is InheritRx),
        !(app.edit.settings.line_endings.rx is InheritTx),
    ensures
        ({
            let after = app.entered(ctrl, shift, at);
            let text = app.kept.text_input.text;
            let ending = ending_of(
                app.edit.settings.line_endings.tx,
                app.edit.settings.line_endings.rx,
            );
            let n = app.outbox.len() as int;
            &&& after.outbox.len() >= n + 2
            &&& app.edit.settings.behavior.unescape_typed_bytes ==> after.outbox[n]
                == EffectView::Send(crate::foreign::unescaped(text) + ending)
            &&& !app.edit.settings.behavior.unescape_typed_bytes ==> after.outbox[n]
                == EffectView::Send(encode_utf8(text) + ending)
            &&& after.outbox[n + 1] == (EffectView::EchoText { text, ending, sensitive: None })
            &&& after.kept.text_input.text.len() == 0
        }),
{
    reveal(AppView::entered);
    reveal(AppView::screen_entered);
    reveal(AppView::input_sent);
    reveal(AppView::text_sent);
    reveal(AppView::input_done);
    reveal(AppView::effected);
    reveal(AppView::asked);
    reveal(AppView::flipped);
}

/// Bytes that were typed as digits are sent as those bytes, with a line ending only if that
/// is set.
pub proof fn law_typed_bytes_are_sent(app: AppView, now: u64)
    requires
        app.kept.text_input.bytes_input,
        crate::foreign::is_hex(encode_utf8(app.kept.text_input.text)),
        encode_utf8(app.kept.text_input.text).len() > 0,
        !(app.edit.settings.line_endings.tx is InheritTx),
        !(app.edit.settings.line_endings.rx is InheritRx),
        !(app.edit.settings.line_endings.rx is InheritTx),
    ensures
        ({
            let after = app.input_sent(now);
            let bytes = crate::foreign::hex_decoded(encode_utf8(app.kept.text_input.text));
            let ending = ending_of(
                app.edit.settings.line_endings.tx,
                app.edit.settings.line_endings.rx,
            );
            let n = app.outbox.len() as int;
            &&& app.edit.settings.behavior.send_line_ending_with_bytes ==> after.outbox[n]
                == EffectView::Send(bytes + ending)
            &&& !app.edit.settings.behavior.send_line_ending_with_bytes ==> after.outbox[n]
                == EffectView::Send(bytes)
            &&& after.kept.text_input.text.len() == 0
        }),
{
    reveal(AppView::input_sent);
    reveal(AppView::bytes_sent);
    reveal(AppView::input_done);
    reveal(AppView::effected);
    reveal(AppView::asked);
    reveal(AppView::flipped);
    let bytes = crate::foreign::hex_decoded(encode_utf8(app.kept.text_input.text));
    assert(bytes + Seq::<u8>::empty() =~= bytes);
    assert(bytes.len() == encode_utf8(app.kept.text_input.text).len() / 2);
}

/// Half a byte is not sent, and stays in the box.
pub proof fn law_half_a_byte_is_not_sent(app: AppView, now: u64)
    requires
        app.kept.text_input.bytes_input,
        encode_utf8(app.kept.text_input.text).len() % 2 != 0,
    ensures
        app.input_sent(now).kept.text_input == app.kept.text_input,
        app.input_sent(now).ui.screen.failed_send_at == Some(now),
        !sends(app, app.input_sent(now)),
{
    reveal(AppView::input_sent);
    reveal(AppView::send_failed);
    reveal(AppView::asked);
}

/// Enter in the terminal sends what is in the box if lines are edited here, and nothing of
/// its own if they are not.
pub proof fn law_enter_in_the_terminal(app: AppView, ctrl: bool, shift: bool, at: Moment)
    requires
        app.ui.popup is None,
        app.ui.screen.menu is Terminal,
        at.status is Connected,
    ensures
        app.edit.settings.behavior.pseudo_shell ==> app.entered(ctrl, shift, at) == app.input_sent(
            at.now,
        ),
        !app.edit.settings.behavior.pseudo_shell ==> app.entered(ctrl, shift, at) == app,
{
    reveal(AppView::entered);
    reveal(AppView::screen_entered);
}

/// Nothing is sent while there is no connection: what was typed stays, and the input turns
/// red for a while.
pub proof fn law_nothing_is_sent_without_a_connection(
    app: AppView,
    ctrl: bool,
    shift: bool,
    at: Moment,
)
    requires
        app.ui.popup is None,
        app.ui.screen.menu is Terminal,
        !(at.status is Connected),
    ensures
        ({
            let after = app.entered(ctrl, shift, at);
            &&& !sends(app, after)
            &&& after.kept == app.kept
            &&& after.ui.screen.failed_send_at == Some(at.now)
            &&& asks(
                app,
                after,
                Request::Oneshot {
                    timer: Timer::UnhealthyTxUi,
                    tick: Tick::Requested(TickOrigin::FailedSend),
                    after_ms: 750,
                },
            )
        }),
{
    reveal(AppView::entered);
    reveal(AppView::screen_entered);
    reveal(AppView::send_failed);
    reveal(AppView::asked);
    let after = app.entered(ctrl, shift, at);
    assert(added(app, after)[0] == EffectView::Request(
        Request::Oneshot {
            timer: Timer::UnhealthyTxUi,
            tick: Tick::Requested(TickOrigin::FailedSend),
            after_ms: 750,
        },
    ));
}

/// A key that goes to the port is sent as a terminal would send it, if the port is there and
/// the key has a code; otherwise nothing is.
pub proof fn law_keys_go_to_the_port(app: AppView, key: KeyEvent, at: Moment)
    ensures
        ({
            let after = app.key_to_port(key, at);
            &&& at.status is Connected && !crate::key_codes::beyond_code(key) ==> (
            crate::key_codes::encoding_of(key) matches
                crate::key_codes::EncodingView::Bytes(bytes) ==> {
                &&& after.outbox == app.outbox.push(EffectView::Send(bytes))
                &&& after.kept.last_raw_sequence == bytes
            })
            &&& !(at.status is Connected) ==> {
                &&& !sends(app, after)
                &&& after.kept.last_raw_sequence.len() == 0
                &&& after.ui.screen.failed_send_at == Some(at.now)
            }
            &&& after.kept.text_input == app.kept.text_input
            &&& after.ui.popup == app.ui.popup
            &&& after.edit == app.edit
        }),
{
    reveal(AppView::key_to_port);
    reveal(AppView::key_encoded);
    reveal(AppView::send_failed);
    reveal(AppView::effected);
    reveal(AppView::asked);
    reveal(AppView::flipped);
}

/// Saving how the program behaves takes over what was edited of it, and nothing else.
pub proof fn law_behavior_is_saved(app: AppView, alt: bool, at: Moment)
    requires
        app.ui.popup == Some(PopupView::SettingsMenu(SettingsMenu::Behavior)),
    ensures
        ({
            let after = app.settings_entered(SettingsMenu::Behavior, alt, at);
            let n = app.outbox.len() as int;
            &&& after.edit.settings == (SettingsView {
                behavior: app.edit.scratch.behavior,
                ..app.edit.settings
            })
            &&& after.outbox[n + 0] == EffectView::Request(Request::SaveSettings)
            &&& after.ui.popup is None
        }),
{
    reveal(AppView::settings_entered);
    reveal(AppView::behavior_saved);
    reveal(AppView::dismissed);
    reveal(AppView::refreshed);
    reveal(AppView::asked);
    reveal(AppView::said);
    reveal(AppView::effected);
}

/// Saving how received data is shown takes over what was edited of it, and nothing else; it
/// is shown in that way at once.
pub proof fn law_rendering_is_saved(app: AppView, alt: bool, at: Moment)
    requires
        app.ui.popup == Some(PopupView::SettingsMenu(SettingsMenu::Rendering)),
    ensures
        ({
            let after = app.settings_entered(SettingsMenu::Rendering, alt, at);
            let n = app.outbox.len() as int;
            &&& after.edit.settings == (SettingsView {
                rendering: app.edit.scratch.rendering,
                ..app.edit.settings
            })
            &&& after.outbox[n + 0] == EffectView::Request(Request::ApplyRendering)
            &&& after.outbox[n + 1] == EffectView::Request(Request::SaveSettings)
            &&& after.ui.popup is None
        }),
{
    reveal(AppView::settings_entered);
    reveal(AppView::rendering_saved);
    reveal(AppView::rendered);
    reveal(AppView::dismissed);
    reveal(AppView::refreshed);
    reveal(AppView::asked);
    reveal(AppView::said);
    reveal(AppView::effected);
}

/// Saving what is logged takes over what was edited of it, and nothing else.
pub proof fn law_logging_is_saved(app: AppView, alt: bool, at: Moment)
    requires
        app.ui.popup == Some(PopupView::SettingsMenu(SettingsMenu::Logging)),
        app.ui.screen.popup_menu_scroll - 2 != app.kept.layout.logging_rows,
    ensures
        ({
            let after = app.settings_entered(SettingsMenu::Logging, alt, at);
            let n = app.outbox.len() as int;
            &&& after.edit.settings == (SettingsView {
                logging: app.edit.scratch.logging,
                ..app.edit.settings
            })
            &&& after.outbox[n + 0] == EffectView::Request(Request::ApplyLogging)
            &&& after.outbox[n + 1] == EffectView::Request(Request::SaveSettings)
            &&& after.ui.popup is None
        }),
{
    reveal(AppView::settings_entered);
    reveal(AppView::logging_saved);
    reveal(AppView::dismissed);
    reveal(AppView::refreshed);
    reveal(AppView::asked);
    reveal(AppView::said);
    reveal(AppView::effected);
}

/// Saving how messages are shown takes over what was edited of it, and nothing else.
pub proof fn law_defmt_is_saved(app: AppView, alt: bool, at: Moment)
    requires
        app.ui.popup == Some(PopupView::SettingsMenu(SettingsMenu::Defmt)),
        app.ui.screen.popup_menu_scroll >= 4,
    ensures
        ({
            let after = app.settings_entered(SettingsMenu::Defmt, alt, at);
            let n = app.outbox.len() as int;
            &&& after.edit.settings == (SettingsView {
                defmt: app.edit.scratch.defmt,
                ..app.edit.settings
            })
            &&& after.outbox[n + 0] == EffectView::Request(Request::ApplyDefmt)
            &&& after.outbox[n + 1] == EffectView::Request(Request::SaveSettings)
            &&& after.ui.popup is None
        }),
{
    reveal(AppView::settings_entered);
    reveal(AppView::defmt_saved);
    reveal(AppView::dismissed);
    reveal(AppView::refreshed);
    reveal(AppView::asked);
    reveal(AppView::said);
    reveal(AppView::effected);
}

/// The settings of the port are saved with the baud rate in the box for it. If that is no
/// number, nothing is saved, and the menu stays.
#[verifier::rlimit(40)]
pub proof fn law_port_settings_are_saved(app: AppView)
    ensures
        ({
            let after = app.serial_saved();
            match crate::parse::decimal(app.edit.baud_text, u32::MAX as int) {
                Ok(baud) => {
                    &&& after.edit.settings == (SettingsView {
                        serial: PortSettings {
                            baud_rate: baud as u32,
                            ..app.edit.scratch.serial
                        },
                        line_endings: app.edit.scratch.line_endings,
                        ..app.edit.settings
                    })
                    &&& asks(app, after, Request::ApplyPortSettings)
                    &&& asks(app, after, Request::ApplyLineEnding)
                    &&& asks(app, after, Request::SaveSettings)
                },
                Err(_) => {
                    &&& after.edit == app.edit
                    &&& after.ui == app.ui
                    &&& after.kept == app.kept
                    &&& after.outbox.len() == app.outbox.len() + 1
                    &&& after.outbox.last() is Notify
                },
            }
        }),
{
    reveal(AppView::serial_saved);
    reveal(AppView::baud_refused);
    reveal(AppView::dismissed);
    reveal(AppView::refreshed);
    reveal(AppView::asked);
    reveal(AppView::said);
    reveal(AppView::effected);
    let after = app.serial_saved();
    if crate::parse::decimal(app.edit.baud_text, u32::MAX as int) is Ok {
        assert(added(app, after)[0] == EffectView::Request(Request::ApplyLineEnding));
        assert(added(app, after)[1] == EffectView::Request(Request::ApplyPortSettings));
        assert(added(app, after)[2] == EffectView::Request(Request::SaveSettings));
    }
}

/// Enter on a port connects to it, with the baud rate that is selected, or the one that was
/// typed; that rate is kept. Without one, nothing is connected.
#[verifier::rlimit(40)]
pub proof fn law_selected_port_is_connected(app: AppView, ctrl: bool, shift: bool, at: Moment)
    requires
        app.ui.popup is None,
        app.ui.screen.menu is PortSelection,
        app.ui.screen.port_selection_scroll < app.kept.ports.len(),
        app.ui.screen.baud_index <= 10,
    ensures
        ({
            let after = app.entered(ctrl, shift, at);
            let port = app.ui.screen.port_selection_scroll;
            let offered = crate::app::COMMON_BAUD@[app.ui.screen.baud_index as int];
            let typed = crate::parse::decimal(app.edit.baud_text, u32::MAX as int);
            &&& app.ui.screen.baud_index < 10 ==> asks(
                app,
                after,
                Request::Connect { port, baud: offered },
            ) && after.edit.settings.serial.baud_rate == offered
            &&& app.ui.screen.baud_index == 10 ==> match typed {
                Ok(baud) => asks(app, after, Request::Connect { port, baud: baud as u32 })
                    && after.edit.settings.serial.baud_rate == baud as u32,
                Err(_) => after.edit == app.edit && after.outbox.len() == app.outbox.len() + 1
                    && after.outbox.last() is Notify,
            }
        }),
{
    reveal(AppView::entered);
    reveal(AppView::screen_entered);
    reveal(AppView::port_entered);
    reveal(AppView::baud_refused);
    reveal(AppView::asked);
    reveal(AppView::said);
    reveal(AppView::effected);
    let after = app.entered(ctrl, shift, at);
    if after.outbox.len() == app.outbox.len() + 2 {
        assert(added(app, after)[1] == after.outbox.last());
    }
}

/// The actions on our lines: each sets or flips its own line and no other.
pub proof fn law_port_actions(app: AppView, action: PortAction)
    ensures
        ({
            let after = app.port_done(action);
            let request = match action {
                PortAction::ToggleDtr => Request::ToggleSignals { dtr: true, rts: false },
                PortAction::ToggleRts => Request::ToggleSignals { dtr: false, rts: true },
                PortAction::AssertDtr => Request::WriteSignals { dtr: Some(true), rts: None },
                PortAction::DeassertDtr => Request::WriteSignals { dtr: Some(false), rts: None },
                PortAction::AssertRts => Request::WriteSignals { dtr: None, rts: Some(true) },
                PortAction::DeassertRts => Request::WriteSignals { dtr: None, rts: Some(false) },
                PortAction::AttemptReconnectStrict => Request::Reconnect(
                    Some(ReconnectionStrictness::High),
                ),
                PortAction::AttemptReconnectLoose => Request::Reconnect(
                    Some(ReconnectionStrictness::Low),
                ),
            };
            &&& after.outbox == app.outbox.push(EffectView::Request(request))
            &&& after.ui == app.ui
            &&& after.edit == app.edit
            &&& after.kept == app.kept
        }),
{
    reveal(AppView::port_done);
    reveal(AppView::asked);
}

/// The actions on a device, each of which asks for what it is called.
pub proof fn law_device_actions(app: AppView, action: EspBuiltinAction)
    ensures
        ({
            let after = app.esp_done(action);
            let request = match action {
                EspBuiltinAction::EspHardReset => Request::EspRestart(EspRestartType::UserCode),
                EspBuiltinAction::EspBootloader => Request::EspRestart(
                    EspRestartType::Bootloader { active: true },
                ),
                EspBuiltinAction::EspBootloaderUnchecked => Request::EspRestart(
                    EspRestartType::Bootloader { active: false },
                ),
                EspBuiltinAction::EspDeviceInfo => Request::EspDeviceInfo,
                EspBuiltinAction::EspEraseFlash => Request::EspEraseFlash,
                EspBuiltinAction::ReloadProfiles => Request::ReloadProfiles,
            };
            &&& app.kept.espflash.popup is None ==> after.outbox == app.outbox.push(
                EffectView::Request(request),
            )
            &&& after.kept == app.kept
            &&& after.edit == app.edit
        }),
{
    reveal(AppView::esp_done);
    reveal(AppView::asked);
}

/// The flash is only erased at once if no confirmation is needed; otherwise on a second
/// request that follows the first soon enough.
#[verifier::rlimit(40)]
pub proof fn law_erasing_is_confirmed(app: AppView, alt: bool, now: u64)
    ensures
        ({
            let after = app.erase_entered(alt, now);
            let soon = app.kept.espflash.first_erase_press matches Some(first) && now <= first
                + 1500;
            &&& asks(app, after, Request::EspEraseFlash) <==> alt || app.kept.skip_erase_confirm
                || soon
            &&& !asks(app, after, Request::EspEraseFlash) ==> after.kept.espflash.first_erase_press
                == Some(now)
            &&& asks(app, after, Request::EspEraseFlash)
                ==> after.kept.espflash.first_erase_press is None
        }),
{
    reveal(AppView::erase_entered);
    reveal(AppView::esp_done);
    reveal(AppView::asked);
    reveal(AppView::said);
    reveal(AppView::effected);
    let after = app.erase_entered(alt, now);
    assert(added(app, after).len() == 2);
    assert(added(app, after)[0] == after.outbox[app.outbox.len() as int]);
    assert(added(app, after)[1] == after.outbox.last());
    if asks(app, after, Request::EspEraseFlash) {
        let i = choose|i: int|
            0 <= i < added(app, after).len() && added(app, after)[i] == EffectView::Request(
                Request::EspEraseFlash,
            );
        assert(i == 1);
    }
}

/// A profile that is selected is flashed, and no other.
pub proof fn law_selected_profile_is_flashed(app: AppView, profile: int)
    requires
        0 <= profile <= usize::MAX,
    ensures
        ({
            let after = app.flashed(profile);
            &&& after.outbox.len() > app.outbox.len()
            &&& after.outbox[app.outbox.len() as int] == EffectView::Request(
                Request::EspFlash { profile: profile as usize },
            )
            &&& after.kept == app.kept
        }),
{
    reveal(AppView::flashed);
    reveal(AppView::asked);
    reveal(AppView::effected);
}

/// The entries of the menu for devices: a restart, one into the bootloader, the description,
/// the erasure, and then the profiles; none of them while there is no connection.
#[verifier::rlimit(40)]
pub proof fn law_device_menu(app: AppView, alt: bool, at: Moment)
    requires
        app.ui.screen.popup_menu_scroll >= 2,
        app.kept.espflash.popup is None,
    ensures
        ({
            let after = app.esp_entered(alt, at);
            let row = app.ui.screen.popup_menu_scroll;
            let first = after.outbox[app.outbox.len() as int];
            &&& !(at.status is Connected) ==> after.kept == app.kept && after.outbox.len()
                == app.outbox.len() + 1 && first is Notify
            &&& at.status is Connected && row == 2 ==> first == EffectView::Request(
                Request::EspRestart(EspRestartType::UserCode),
            )
            &&& at.status is Connected && row == 3 ==> first == EffectView::Request(
                Request::EspRestart(
                    EspRestartType::Bootloader {
                        active: !(alt || app.kept.espflash.unchecked_bootloader),
                    },
                ),
            )
            &&& at.status is Connected && row == 4 ==> first == EffectView::Request(
                Request::EspDeviceInfo,
            )
            &&& at.status is Connected && row == 5 ==> after == app.erase_entered(alt, at.now)
            &&& at.status is Connected && row >= 6 && row - 6 < app.kept.espflash.count() ==> first
                == EffectView::Request(Request::EspFlash { profile: (row - 6) as usize })
        }),
{
    reveal(AppView::esp_entered);
    reveal(AppView::esp_done);
    reveal(AppView::flashed);
    reveal(AppView::asked);
    reveal(AppView::said);
    reveal(AppView::effected);
}

} // verus!
