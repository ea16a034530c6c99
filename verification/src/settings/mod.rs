//! What can be configured.

pub mod laws;
pub mod line_ending;

use vstd::prelude::*;

use crate::buffer::logging::Logging;
use crate::serial::ReconnectionStrictness;
use crate::settings::line_ending::{EndingView, MacroTxLineEnding, RxLineEnding, TxLineEnding};

verus! {

/// Which of the user's own lines are shown among those of the port.
#[derive(Clone, Copy, Debug, PartialEq, Eq, Structural)]
pub enum UserEcho {
    Off,
    All,
    NoBytes,
    NoMacros,
    NoMacrosOrBytes,
}

impl UserEcho {
    /// Whether a line of the user is shown.
    pub open spec fn shows(self, is_bytes: bool, is_macro: bool) -> bool {
        match self {
            UserEcho::Off => false,
            UserEcho::All => true,
            UserEcho::NoBytes => !is_bytes,
            UserEcho::NoMacros => !is_macro,
            UserEcho::NoMacrosOrBytes => !is_macro && !is_bytes,
        }
    }

    /// Whether a line of the user is shown.
    pub fn filter_user_line(self, is_bytes: bool, is_macro: bool) -> (r: bool)
        ensures
            r == self.shows(is_bytes, is_macro),
    {
        match self {
            UserEcho::Off => false,
            UserEcho::All => true,
            UserEcho::NoBytes => !is_bytes,
            UserEcho::NoMacros => !is_macro,
            UserEcho::NoMacrosOrBytes => !is_macro && !is_bytes,
        }
    }
}

/// How bytes are coloured in the hex view.
#[derive(Clone, Copy, Debug, PartialEq, Eq, Structural)]
pub enum HexHighlightStyle {
    Plain,
    DarkenNulls,
    HighlightAsciiSymbols,
    StyleA,
    StyleB,
}

/// How severe a log message is.
#[derive(Clone, Copy, Debug, PartialEq, Eq, Structural)]
pub enum Level {
    Trace,
    Debug,
    Info,
    Warn,
    Error,
}

impl Level {
    /// The levels in ascending order of severity.
    pub open spec fn severity(self) -> int {
        match self {
            Level::Trace => 0,
            Level::Debug => 1,
            Level::Info => 2,
            Level::Warn => 3,
            Level::Error => 4,
        }
    }

    fn rank(self) -> (r: u8)
        ensures
            r == self.severity(),
    {
        match self {
            Level::Trace => 0,
            Level::Debug => 1,
            Level::Info => 2,
            Level::Warn => 3,
            Level::Error => 4,
        }
    }

    /// Whether this level lets a message of another one through.
    pub fn admits(self, level: Level) -> (r: bool)
        ensures
            r == (self.severity() <= level.severity()),
    {
        self.rank() <= level.rank()
    }
}

/// How much of a source location is shown.
#[derive(Clone, Copy, Debug, PartialEq, Eq, Structural)]
pub enum DefmtLocation {
    Hidden,
    Shortened,
    Full,
}

/// How received data is shown.
#[derive(Clone, Copy, Debug, PartialEq, Eq, Structural)]
pub struct Rendering {
    pub echo_user_input: UserEcho,
    pub timestamps: bool,
    pub show_connection_time: bool,
    pub show_indices: bool,
    pub indices_as_hex: bool,
    pub show_line_ending: bool,
    pub show_hidden_lines: bool,
    pub wrap_text: bool,
    pub hex_view: bool,
    pub hex_view_header: bool,
    pub hex_view_highlights: HexHighlightStyle,
    /// The most bytes shown in a row of the hex view, if there is a limit.
    pub bytes_per_line: Option<u8>,
}

/// How `defmt` messages are shown.
#[derive(Clone, Copy, Debug, PartialEq, Eq, Structural)]
pub struct Defmt {
    pub max_log_level: Level,
    pub device_timestamp: bool,
    pub show_module: DefmtLocation,
    pub show_file: DefmtLocation,
    pub show_line_number: bool,
    pub watch_elf_for_changes: bool,
}


/// The number of data bits in a character.
#[derive(Clone, Copy, Debug, PartialEq, Eq, Structural)]
pub enum DataBits {
    Five,
    Six,
    Seven,
    Eight,
}

/// How the flow of data is controlled.
#[derive(Clone, Copy, Debug, PartialEq, Eq, Structural)]
pub enum FlowControl {
    Off,
    Software,
    Hardware,
}

/// How characters are checked.
#[derive(Clone, Copy, Debug, PartialEq, Eq, Structural)]
pub enum Parity {
    Off,
    Odd,
    Even,
}

/// The number of stop bits after a character.
#[derive(Clone, Copy, Debug, PartialEq, Eq, Structural)]
pub enum StopBits {
    One,
    Two,
}

/// How a port is opened and used.
#[derive(Clone, Copy, Debug, PartialEq, Eq, Structural)]
pub struct PortSettings {
    pub baud_rate: u32,
    pub data_bits: DataBits,
    pub flow_control: FlowControl,
    pub parity_bits: Parity,
    pub stop_bits: StopBits,
    pub dtr_on_connect: bool,
    pub rts_on_connect: bool,
    pub limit_tx_speed: bool,
    pub reconnections: ReconnectionStrictness,
}

/// How the program behaves.
#[derive(Clone, Copy, Debug, PartialEq, Eq, Structural)]
pub struct Behavior {
    /// Lines are edited here and sent as a whole, rather than key by key.
    pub pseudo_shell: bool,
    pub fuzzy_macro_match: bool,
    pub send_line_ending_with_bytes: bool,
    pub unescape_typed_bytes: bool,
    pub action_chain_delay_ms: u64,
    /// Below zero, long hints scroll slower; above, faster.
    pub text_scroll_speed: i16,
}

/// The line endings in use.
#[derive(Debug)]
pub struct LineEndings {
    pub rx: RxLineEnding,
    pub tx: TxLineEnding,
    pub macros: MacroTxLineEnding,
}

/// The line endings in use, as plain values.
#[verifier::ext_equal]
pub struct EndingsView {
    pub rx: EndingView,
    pub tx: EndingView,
    pub macros: EndingView,
}

impl View for LineEndings {
    type V = EndingsView;

    open spec fn view(&self) -> EndingsView {
        EndingsView { rx: self.rx@, tx: self.tx@, macros: self.macros@ }
    }
}

impl LineEndings {
    /// The same endings again.
    pub fn duplicate(&self) -> (r: LineEndings)
        ensures
            r@ == self@,
    {
        LineEndings {
            rx: match &self.rx {
                RxLineEnding::Preset(text, bytes) => RxLineEnding::Preset(text, bytes),
                RxLineEnding::Custom(text, bytes) => RxLineEnding::Custom(
                    text.clone(),
                    bytes.clone(),
                ),
            },
            tx: match &self.tx {
                TxLineEnding::InheritRx => TxLineEnding::InheritRx,
                TxLineEnding::Preset(text, bytes) => TxLineEnding::Preset(text, bytes),
                TxLineEnding::Custom(text, bytes) => TxLineEnding::Custom(
                    text.clone(),
                    bytes.clone(),
                ),
            },
            macros: match &self.macros {
                MacroTxLineEnding::InheritRx => MacroTxLineEnding::InheritRx,
                MacroTxLineEnding::InheritTx => MacroTxLineEnding::InheritTx,
                MacroTxLineEnding::Preset(text, bytes) => MacroTxLineEnding::Preset(text, bytes),
                MacroTxLineEnding::Custom(text, bytes) => MacroTxLineEnding::Custom(
                    text.clone(),
                    bytes.clone(),
                ),
            },
        }
    }
}

/// What can be edited in the menus.
#[derive(Debug)]
pub struct Settings {
    pub serial: PortSettings,
    pub line_endings: LineEndings,
    pub rendering: Rendering,
    pub behavior: Behavior,
    pub logging: Logging,
    pub defmt: Defmt,
}

/// What can be edited in the menus, as plain values.
#[verifier::ext_equal]
pub struct SettingsView {
    pub serial: PortSettings,
    pub line_endings: EndingsView,
    pub rendering: Rendering,
    pub behavior: Behavior,
    pub logging: Logging,
    pub defmt: Defmt,
}

impl View for Settings {
    type V = SettingsView;

    open spec fn view(&self) -> SettingsView {
        SettingsView {
            serial: self.serial,
            line_endings: self.line_endings@,
            rendering: self.rendering,
            behavior: self.behavior,
            logging: self.logging,
            defmt: self.defmt,
        }
    }
}

impl Settings {
    /// The same settings again.
    pub fn duplicate(&self) -> (r: Settings)
        ensures
            r@ == self@,
    {
        Settings {
            serial: self.serial,
            line_endings: self.line_endings.duplicate(),
            rendering: self.rendering,
            behavior: self.behavior,
            logging: self.logging.duplicate(),
            defmt: self.defmt,
        }
    }
}

/// What was decided about updates.
#[derive(Debug)]
pub struct Updates {
    pub allow_checking_for_updates: bool,
    pub allow_pre_releases: bool,
    pub user_dismissed_prompt: bool,
    pub skipped_version: String,
}

} // verus!
