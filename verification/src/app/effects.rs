//! What the program asks of the world around it.

use vstd::prelude::*;
use vstd::string::*;

use crate::app::{Fault, SettingsMenu, Tick, Timer};
use crate::line::Color;
use crate::serial::esp::EspRestartType;
use crate::serial::{ReconnectType, ReconnectionStrictness};

verus! {

/// Where the cursor of the file explorer goes.
#[derive(Clone, Copy, Debug, PartialEq, Eq, Structural)]
pub enum ExplorerInput {
    Left,
    Down,
    Up,
    Right,
    PageUp,
    PageDown,
    Home,
    End,
    Ignored,
}

/// Something that is asked of the world.
#[derive(Clone, Copy, Debug, PartialEq, Eq, Structural)]
pub enum Request {
    /// Write the settings to disk.
    SaveSettings,
    /// Use the settings for what is shown.
    ApplyRendering,
    /// Use the line ending for what is received.
    ApplyLineEnding,
    /// Use the settings of the port.
    ApplyPortSettings,
    /// Use the settings of the log.
    ApplyLogging,
    /// Use the settings for `defmt` messages.
    ApplyDefmt,
    /// Use the list of ignored devices.
    ApplyIgnored,
    /// Scroll what was received by some rows, up if positive.
    ScrollBuffer(i32),
    PageUp,
    PageDown,
    /// Add what was received to what is shown.
    TakeReceived,
    /// Drop what was received.
    ForgetBuffer,
    /// Follow the size of the window.
    Resize,
    Reconnect(Option<ReconnectionStrictness>),
    BreakConnection,
    Disconnect,
    ScanPorts,
    /// Look for ports and wait until they are found.
    ScanPortsNow,
    /// Connect to one of the ports that are listed.
    Connect { port: usize, baud: u32 },
    ToggleSignals { dtr: bool, rts: bool },
    WriteSignals { dtr: Option<bool>, rts: Option<bool> },
    EspRestart(EspRestartType),
    EspDeviceInfo,
    EspEraseFlash,
    /// Flash one of the profiles.
    EspFlash { profile: usize },
    ReloadMacros,
    ReloadColors,
    ReloadKeybinds,
    ReloadProfiles,
    /// Write everything to the log again.
    SyncLog,
    LogConnected(Option<ReconnectType>),
    LogDisconnected,
    /// Let the user choose a file in a window of its own.
    PickElf,
    /// Start to explore files.
    OpenExplorer,
    Explore(ExplorerInput),
    /// Change a row of a settings menu that is being edited.
    EditScratch { menu: SettingsMenu, row: usize, right: bool },
    /// Come back with a tick after some milliseconds.
    Oneshot { timer: Timer, tick: Tick, after_ms: u64 },
    /// Come back with a tick again and again.
    Repeat { timer: Timer, tick: Tick, every_ms: u64 },
    /// Come back with a tick at once.
    Emit(Tick),
    AcknowledgeInterrupt,
    /// Add what is on the clipboard to the text.
    Paste,
    QueryUpdate { pre_releases: bool },
    DownloadUpdate,
    OpenRepository,
    StartNewVersion,
    /// Give up: something that must not happen did.
    Fail(Fault),
}

/// Something that is asked of the world, or told to the user.
#[derive(Debug)]
pub enum Effect {
    Request(Request),
    /// Send bytes to the port.
    Send(Vec<u8>),
    /// Show bytes that were sent; whether they came from a macro, and if so,
    /// whether that is sensitive.
    EchoBytes { bytes: Vec<u8>, ending: Vec<u8>, sensitive: Option<bool> },
    /// Show a text that was sent.
    EchoText { text: String, ending: Vec<u8>, sensitive: Option<bool> },
    /// Load a file with `defmt` messages.
    LoadElf { path: String, reload: bool },
    /// Tell the user something; a part in front may be in italics.
    Notify { italic: String, text: String, color: Color },
}

/// An effect, as plain values.
#[verifier::ext_equal]
pub enum EffectView {
    Request(Request),
    Send(Seq<u8>),
    EchoBytes { bytes: Seq<u8>, ending: Seq<u8>, sensitive: Option<bool> },
    EchoText { text: Seq<char>, ending: Seq<u8>, sensitive: Option<bool> },
    LoadElf { path: Seq<char>, reload: bool },
    Notify { italic: Seq<char>, text: Seq<char>, color: Color },
}

impl View for Effect {
    type V = EffectView;

    open spec fn view(&self) -> EffectView {
        match self {
            Effect::Request(r) => EffectView::Request(*r),
            Effect::Send(bytes) => EffectView::Send(bytes@),
            Effect::EchoBytes { bytes, ending, sensitive } => EffectView::EchoBytes {
                bytes: bytes@,
                ending: ending@,
                sensitive: *sensitive,
            },
            Effect::EchoText { text, ending, sensitive } => EffectView::EchoText {
                text: text@,
                ending: ending@,
                sensitive: *sensitive,
            },
            Effect::LoadElf { path, reload } => EffectView::LoadElf {
                path: path@,
                reload: *reload,
            },
            Effect::Notify { italic, text, color } => EffectView::Notify {
                italic: italic@,
                text: text@,
                color: *color,
            },
        }
    }
}

/// Some effects, as plain values.
pub open spec fn effect_views(effects: Seq<Effect>) -> Seq<EffectView> {
    effects.map_values(|e: Effect| e@)
}

/// Adds an effect at the end.
pub fn push_effect(effects: &mut Vec<Effect>, effect: Effect)
    ensures
        effect_views(final(effects)@) == effect_views(old(effects)@).push(effect@),
{
    let ghost before = effects@;
    effects.push(effect);
    assert(effect_views(effects@) =~= effect_views(before).push(effect@));
}

} // verus!
