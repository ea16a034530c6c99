//! The prompts, and what can be chosen in each.

use vstd::prelude::*;
use vstd::string::*;

use crate::keys::KeyCode;

verus! {

/// What a prompt offers.
pub trait PromptTable: Sized {
    /// The choices, from the top down.
    spec fn choices() -> Seq<Self>;

    /// What a choice reads.
    spec fn label(self) -> Seq<char>;

    /// The key that picks a choice.
    spec fn shortcut(self) -> KeyCode;

    /// The number of choices.
    fn count() -> (r: usize)
        ensures
            r == Self::choices().len(),
    ;

    /// The choice in a row.
    fn at(row: usize) -> (r: Option<Self>)
        ensures
            r == (if row < Self::choices().len() {
                Some(Self::choices()[row as int])
            } else {
                None
            }),
    ;

    /// What the choice reads.
    fn as_text(&self) -> (r: &'static str)
        ensures
            r@ == self.label(),
    ;

    /// The key that picks the choice.
    fn key(&self) -> (r: KeyCode)
        ensures
            r == self.shortcut(),
    ;
}

/// The first of the choices from a row on that a key picks.
pub open spec fn picked<P: PromptTable>(code: KeyCode, from: int) -> Option<P>
    decreases P::choices().len() - from,
{
    if from < 0 || from >= P::choices().len() {
        None
    } else if P::choices()[from].shortcut() == code {
        Some(P::choices()[from])
    } else {
        picked::<P>(code, from + 1)
    }
}

/// The choice that a key picks.
pub fn from_key_code<P: PromptTable>(code: KeyCode) -> (r: Option<P>)
    ensures
        r == picked::<P>(code, 0),
{
    let count: usize = P::count();
    let mut row: usize = 0;
    while row < count
        invariant
            count == P::choices().len(),
            row <= count,
            picked::<P>(code, 0) == picked::<P>(code, row as int),
        decreases count - row,
    {
        match P::at(row) {
            Some(choice) => {
                if choice.key() == code {
                    return Some(choice);
                }
            },
            None => {},
        }
        row += 1;
    }
    None
}

/// What all choices of a prompt read, from the top down.
pub fn labels<P: PromptTable>() -> (r: Vec<&'static str>)
    ensures
        r@.len() == P::choices().len(),
        forall|i: int| 0 <= i < r@.len() ==> (#[trigger] r@[i])@ == P::choices()[i].label(),
{
    let count: usize = P::count();
    let mut r: Vec<&'static str> = Vec::new();
    let mut row: usize = 0;
    while row < count
        invariant
            count == P::choices().len(),
            row <= count,
            r@.len() == row,
            forall|i: int| 0 <= i < r@.len() ==> (#[trigger] r@[i])@ == P::choices()[i].label(),
        decreases count - row,
    {
        match P::at(row) {
            Some(choice) => r.push(choice.as_text()),
            None => {},
        }
        row += 1;
    }
    r
}

/// What to do about an open connection.
#[derive(Clone, Copy, Debug, PartialEq, Eq, Structural)]
pub enum DisconnectPrompt {
    Cancel,
    OpenPortSettings,
    DisconnectFromPort,
    BackToPortSelection,
    ExitApp,
}

impl PromptTable for DisconnectPrompt {
    open spec fn choices() -> Seq<DisconnectPrompt> {
        seq![
            DisconnectPrompt::Cancel,
            DisconnectPrompt::OpenPortSettings,
            DisconnectPrompt::DisconnectFromPort,
            DisconnectPrompt::BackToPortSelection,
            DisconnectPrompt::ExitApp,
        ]
    }

    open spec fn label(self) -> Seq<char> {
        match self {
            DisconnectPrompt::Cancel => "Cancel"@,
            DisconnectPrompt::OpenPortSettings => "Open Port Settings"@,
            DisconnectPrompt::DisconnectFromPort => "Disconnect From Port"@,
            DisconnectPrompt::BackToPortSelection => "Back To Port Selection"@,
            DisconnectPrompt::ExitApp => "Exit App"@,
        }
    }

    open spec fn shortcut(self) -> KeyCode {
        match self {
            DisconnectPrompt::Cancel => KeyCode::Esc,
            DisconnectPrompt::OpenPortSettings => KeyCode::Char('s'),
            DisconnectPrompt::DisconnectFromPort => KeyCode::Char('d'),
            DisconnectPrompt::BackToPortSelection => KeyCode::Char('b'),
            DisconnectPrompt::ExitApp => KeyCode::Char('e'),
        }
    }

    fn count() -> (r: usize) {
        5
    }

    fn at(row: usize) -> (r: Option<DisconnectPrompt>) {
        match row {
            0 => Some(DisconnectPrompt::Cancel),
            1 => Some(DisconnectPrompt::OpenPortSettings),
            2 => Some(DisconnectPrompt::DisconnectFromPort),
            3 => Some(DisconnectPrompt::BackToPortSelection),
            4 => Some(DisconnectPrompt::ExitApp),
            _ => None,
        }
    }

    fn as_text(&self) -> (r: &'static str) {
        match self {
            DisconnectPrompt::Cancel => "Cancel",
            DisconnectPrompt::OpenPortSettings => "Open Port Settings",
            DisconnectPrompt::DisconnectFromPort => "Disconnect From Port",
            DisconnectPrompt::BackToPortSelection => "Back To Port Selection",
            DisconnectPrompt::ExitApp => "Exit App",
        }
    }

    fn key(&self) -> (r: KeyCode) {
        match self {
            DisconnectPrompt::Cancel => KeyCode::Esc,
            DisconnectPrompt::OpenPortSettings => KeyCode::Char('s'),
            DisconnectPrompt::DisconnectFromPort => KeyCode::Char('d'),
            DisconnectPrompt::BackToPortSelection => KeyCode::Char('b'),
            DisconnectPrompt::ExitApp => KeyCode::Char('e'),
        }
    }
}

/// What to do about a lost connection.
#[derive(Clone, Copy, Debug, PartialEq, Eq, Structural)]
pub enum AttemptReconnectPrompt {
    Cancel,
    AttemptReconnect,
    OpenPortSettings,
    BackToPortSelection,
    ExitApp,
}

impl PromptTable for AttemptReconnectPrompt {
    open spec fn choices() -> Seq<AttemptReconnectPrompt> {
        seq![
            AttemptReconnectPrompt::Cancel,
            AttemptReconnectPrompt::AttemptReconnect,
            AttemptReconnectPrompt::OpenPortSettings,
            AttemptReconnectPrompt::BackToPortSelection,
            AttemptReconnectPrompt::ExitApp,
        ]
    }

    open spec fn label(self) -> Seq<char> {
        match self {
            AttemptReconnectPrompt::Cancel => "Cancel"@,
            AttemptReconnectPrompt::AttemptReconnect => "Attempt Reconnect"@,
            AttemptReconnectPrompt::OpenPortSettings => "Open Port Settings"@,
            AttemptReconnectPrompt::BackToPortSelection => "Back To Port Selection"@,
            AttemptReconnectPrompt::ExitApp => "Exit App"@,
        }
    }

    open spec fn shortcut(self) -> KeyCode {
        match self {
            AttemptReconnectPrompt::Cancel => KeyCode::Esc,
            AttemptReconnectPrompt::AttemptReconnect => KeyCode::Char('r'),
            AttemptReconnectPrompt::OpenPortSettings => KeyCode::Char('s'),
            AttemptReconnectPrompt::BackToPortSelection => KeyCode::Char('b'),
            AttemptReconnectPrompt::ExitApp => KeyCode::Char('e'),
        }
    }

    fn count() -> (r: usize) {
        5
    }

    fn at(row: usize) -> (r: Option<AttemptReconnectPrompt>) {
        match row {
            0 => Some(AttemptReconnectPrompt::Cancel),
            1 => Some(AttemptReconnectPrompt::AttemptReconnect),
            2 => Some(AttemptReconnectPrompt::OpenPortSettings),
            3 => Some(AttemptReconnectPrompt::BackToPortSelection),
            4 => Some(AttemptReconnectPrompt::ExitApp),
            _ => None,
        }
    }

    fn as_text(&self) -> (r: &'static str) {
        match self {
            AttemptReconnectPrompt::Cancel => "Cancel",
            AttemptReconnectPrompt::AttemptReconnect => "Attempt Reconnect",
            AttemptReconnectPrompt::OpenPortSettings => "Open Port Settings",
            AttemptReconnectPrompt::BackToPortSelection => "Back To Port Selection",
            AttemptReconnectPrompt::ExitApp => "Exit App",
        }
    }

    fn key(&self) -> (r: KeyCode) {
        match self {
            AttemptReconnectPrompt::Cancel => KeyCode::Esc,
            AttemptReconnectPrompt::AttemptReconnect => KeyCode::Char('r'),
            AttemptReconnectPrompt::OpenPortSettings => KeyCode::Char('s'),
            AttemptReconnectPrompt::BackToPortSelection => KeyCode::Char('b'),
            AttemptReconnectPrompt::ExitApp => KeyCode::Char('e'),
        }
    }
}

/// How to ignore a USB device.
#[derive(Clone, Copy, Debug, PartialEq, Eq, Structural)]
pub enum IgnoreUsbDevicePrompt {
    Cancel,
    IgnoreByName,
    IgnoreByVidPid,
    IgnoreByVidPidSerial,
}

impl PromptTable for IgnoreUsbDevicePrompt {
    open spec fn choices() -> Seq<IgnoreUsbDevicePrompt> {
        seq![
            IgnoreUsbDevicePrompt::Cancel,
            IgnoreUsbDevicePrompt::IgnoreByName,
            IgnoreUsbDevicePrompt::IgnoreByVidPid,
            IgnoreUsbDevicePrompt::IgnoreByVidPidSerial,
        ]
    }

    open spec fn label(self) -> Seq<char> {
        match self {
            IgnoreUsbDevicePrompt::Cancel => "Cancel"@,
            IgnoreUsbDevicePrompt::IgnoreByName => "Ignore By Name"@,
            IgnoreUsbDevicePrompt::IgnoreByVidPid => "Ignore By Vid Pid"@,
            IgnoreUsbDevicePrompt::IgnoreByVidPidSerial => "Ignore By Vid Pid Serial"@,
        }
    }

    open spec fn shortcut(self) -> KeyCode {
        match self {
            IgnoreUsbDevicePrompt::Cancel => KeyCode::Esc,
            IgnoreUsbDevicePrompt::IgnoreByName => KeyCode::Char('n'),
            IgnoreUsbDevicePrompt::IgnoreByVidPid => KeyCode::Char('v'),
            IgnoreUsbDevicePrompt::IgnoreByVidPidSerial => KeyCode::Char('s'),
        }
    }

    fn count() -> (r: usize) {
        4
    }

    fn at(row: usize) -> (r: Option<IgnoreUsbDevicePrompt>) {
        match row {
            0 => Some(IgnoreUsbDevicePrompt::Cancel),
            1 => Some(IgnoreUsbDevicePrompt::IgnoreByName),
            2 => Some(IgnoreUsbDevicePrompt::IgnoreByVidPid),
            3 => Some(IgnoreUsbDevicePrompt::IgnoreByVidPidSerial),
            _ => None,
        }
    }

    fn as_text(&self) -> (r: &'static str) {
        match self {
            IgnoreUsbDevicePrompt::Cancel => "Cancel",
            IgnoreUsbDevicePrompt::IgnoreByName => "Ignore By Name",
            IgnoreUsbDevicePrompt::IgnoreByVidPid => "Ignore By Vid Pid",
            IgnoreUsbDevicePrompt::IgnoreByVidPidSerial => "Ignore By Vid Pid Serial",
        }
    }

    fn key(&self) -> (r: KeyCode) {
        match self {
            IgnoreUsbDevicePrompt::Cancel => KeyCode::Esc,
            IgnoreUsbDevicePrompt::IgnoreByName => KeyCode::Char('n'),
            IgnoreUsbDevicePrompt::IgnoreByVidPid => KeyCode::Char('v'),
            IgnoreUsbDevicePrompt::IgnoreByVidPidSerial => KeyCode::Char('s'),
        }
    }
}

/// Whether to ignore a port.
#[derive(Clone, Copy, Debug, PartialEq, Eq, Structural)]
pub enum IgnorePortByNamePrompt {
    Cancel,
    IgnoreByName,
}

impl PromptTable for IgnorePortByNamePrompt {
    open spec fn choices() -> Seq<IgnorePortByNamePrompt> {
        seq![
            IgnorePortByNamePrompt::Cancel,
            IgnorePortByNamePrompt::IgnoreByName,
        ]
    }

    open spec fn label(self) -> Seq<char> {
        match self {
            IgnorePortByNamePrompt::Cancel => "Cancel"@,
            IgnorePortByNamePrompt::IgnoreByName => "Ignore By Name"@,
        }
    }

    open spec fn shortcut(self) -> KeyCode {
        match self {
            IgnorePortByNamePrompt::Cancel => KeyCode::Esc,
            IgnorePortByNamePrompt::IgnoreByName => KeyCode::Char('n'),
        }
    }

    fn count() -> (r: usize) {
        2
    }

    fn at(row: usize) -> (r: Option<IgnorePortByNamePrompt>) {
        match row {
            0 => Some(IgnorePortByNamePrompt::Cancel),
            1 => Some(IgnorePortByNamePrompt::IgnoreByName),
            _ => None,
        }
    }

    fn as_text(&self) -> (r: &'static str) {
        match self {
            IgnorePortByNamePrompt::Cancel => "Cancel",
            IgnorePortByNamePrompt::IgnoreByName => "Ignore By Name",
        }
    }

    fn key(&self) -> (r: KeyCode) {
        match self {
            IgnorePortByNamePrompt::Cancel => KeyCode::Esc,
            IgnorePortByNamePrompt::IgnoreByName => KeyCode::Char('n'),
        }
    }
}

/// Whether to look for updates.
#[derive(Clone, Copy, Debug, PartialEq, Eq, Structural)]
pub enum UpdateCheckConsentPrompt {
    Yes,
    AskAgainLater,
    Never,
}

impl PromptTable for UpdateCheckConsentPrompt {
    open spec fn choices() -> Seq<UpdateCheckConsentPrompt> {
        seq![
            UpdateCheckConsentPrompt::Yes,
            UpdateCheckConsentPrompt::AskAgainLater,
            UpdateCheckConsentPrompt::Never,
        ]
    }

    open spec fn label(self) -> Seq<char> {
        match self {
            UpdateCheckConsentPrompt::Yes => "Yes"@,
            UpdateCheckConsentPrompt::AskAgainLater => "Ask Again Later"@,
            UpdateCheckConsentPrompt::Never => "Never"@,
        }
    }

    open spec fn shortcut(self) -> KeyCode {
        match self {
            UpdateCheckConsentPrompt::Yes => KeyCode::Char('y'),
            UpdateCheckConsentPrompt::AskAgainLater => KeyCode::Char('a'),
            UpdateCheckConsentPrompt::Never => KeyCode::Char('n'),
        }
    }

    fn count() -> (r: usize) {
        3
    }

    fn at(row: usize) -> (r: Option<UpdateCheckConsentPrompt>) {
        match row {
            0 => Some(UpdateCheckConsentPrompt::Yes),
            1 => Some(UpdateCheckConsentPrompt::AskAgainLater),
            2 => Some(UpdateCheckConsentPrompt::Never),
            _ => None,
        }
    }

    fn as_text(&self) -> (r: &'static str) {
        match self {
            UpdateCheckConsentPrompt::Yes => "Yes",
            UpdateCheckConsentPrompt::AskAgainLater => "Ask Again Later",
            UpdateCheckConsentPrompt::Never => "Never",
        }
    }

    fn key(&self) -> (r: KeyCode) {
        match self {
            UpdateCheckConsentPrompt::Yes => KeyCode::Char('y'),
            UpdateCheckConsentPrompt::AskAgainLater => KeyCode::Char('a'),
            UpdateCheckConsentPrompt::Never => KeyCode::Char('n'),
        }
    }
}

/// What to do about an update.
#[derive(Clone, Copy, Debug, PartialEq, Eq, Structural)]
pub enum UpdateBeginPrompt {
    DownloadAndInstall,
    OpenGithubRepo,
    AskAgainLater,
    SkipVersion,
}

impl PromptTable for UpdateBeginPrompt {
    open spec fn choices() -> Seq<UpdateBeginPrompt> {
        seq![
            UpdateBeginPrompt::DownloadAndInstall,
            UpdateBeginPrompt::OpenGithubRepo,
            UpdateBeginPrompt::AskAgainLater,
            UpdateBeginPrompt::SkipVersion,
        ]
    }

    open spec fn label(self) -> Seq<char> {
        match self {
            UpdateBeginPrompt::DownloadAndInstall => "Download And Install"@,
            UpdateBeginPrompt::OpenGithubRepo => "Open Github Repo"@,
            UpdateBeginPrompt::AskAgainLater => "Ask Again Later"@,
            UpdateBeginPrompt::SkipVersion => "Skip Version"@,
        }
    }

    open spec fn shortcut(self) -> KeyCode {
        match self {
            UpdateBeginPrompt::DownloadAndInstall => KeyCode::Char('d'),
            UpdateBeginPrompt::OpenGithubRepo => KeyCode::Char('g'),
            UpdateBeginPrompt::AskAgainLater => KeyCode::Char('a'),
            UpdateBeginPrompt::SkipVersion => KeyCode::Char('s'),
        }
    }

    fn count() -> (r: usize) {
        4
    }

    fn at(row: usize) -> (r: Option<UpdateBeginPrompt>) {
        match row {
            0 => Some(UpdateBeginPrompt::DownloadAndInstall),
            1 => Some(UpdateBeginPrompt::OpenGithubRepo),
            2 => Some(UpdateBeginPrompt::AskAgainLater),
            3 => Some(UpdateBeginPrompt::SkipVersion),
            _ => None,
        }
    }

    fn as_text(&self) -> (r: &'static str) {
        match self {
            UpdateBeginPrompt::DownloadAndInstall => "Download And Install",
            UpdateBeginPrompt::OpenGithubRepo => "Open Github Repo",
            UpdateBeginPrompt::AskAgainLater => "Ask Again Later",
            UpdateBeginPrompt::SkipVersion => "Skip Version",
        }
    }

    fn key(&self) -> (r: KeyCode) {
        match self {
            UpdateBeginPrompt::DownloadAndInstall => KeyCode::Char('d'),
            UpdateBeginPrompt::OpenGithubRepo => KeyCode::Char('g'),
            UpdateBeginPrompt::AskAgainLater => KeyCode::Char('a'),
            UpdateBeginPrompt::SkipVersion => KeyCode::Char('s'),
        }
    }
}

/// What to do once an update is installed.
#[derive(Clone, Copy, Debug, PartialEq, Eq, Structural)]
pub enum UpdateLaunchPrompt {
    OpenInNewWindow,
    Close,
}

impl PromptTable for UpdateLaunchPrompt {
    open spec fn choices() -> Seq<UpdateLaunchPrompt> {
        seq![
            UpdateLaunchPrompt::OpenInNewWindow,
            UpdateLaunchPrompt::Close,
        ]
    }

    open spec fn label(self) -> Seq<char> {
        match self {
            UpdateLaunchPrompt::OpenInNewWindow => "Open In New Window"@,
            UpdateLaunchPrompt::Close => "Close"@,
        }
    }

    open spec fn shortcut(self) -> KeyCode {
        match self {
            UpdateLaunchPrompt::OpenInNewWindow => KeyCode::Char('o'),
            UpdateLaunchPrompt::Close => KeyCode::Char('c'),
        }
    }

    fn count() -> (r: usize) {
        2
    }

    fn at(row: usize) -> (r: Option<UpdateLaunchPrompt>) {
        match row {
            0 => Some(UpdateLaunchPrompt::OpenInNewWindow),
            1 => Some(UpdateLaunchPrompt::Close),
            _ => None,
        }
    }

    fn as_text(&self) -> (r: &'static str) {
        match self {
            UpdateLaunchPrompt::OpenInNewWindow => "Open In New Window",
            UpdateLaunchPrompt::Close => "Close",
        }
    }

    fn key(&self) -> (r: KeyCode) {
        match self {
            UpdateLaunchPrompt::OpenInNewWindow => KeyCode::Char('o'),
            UpdateLaunchPrompt::Close => KeyCode::Char('c'),
        }
    }
}

} // verus!
