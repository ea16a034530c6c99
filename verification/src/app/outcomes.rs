//! How the program begins, and how it takes up the outcome of what it asked for.

use vstd::prelude::*;
use vstd::string::*;

use crate::app::effects::{Effect, EffectView};
use crate::app::events::ElfOutcome;
use crate::app::{
    App, AppView, EditView, IgnoredView, KeptView, Layout, Menu, RunningState, Screen,
    SettingsMenu, UiView, COMMON_BAUD, CUSTOM_BAUD,
};
use crate::input_box::{new_input, Cut};
use crate::keybinds::{KeyBinding, Keybinds};
use crate::line::Color;
use crate::macros::Macros;
use crate::serial::worker::Ignored;
use crate::serial::SerialPortInfo;
use crate::settings::{Settings, SettingsView, Updates};
use crate::text::{concat2, concat3, number};
use crate::text_input::TextInput;
use crate::tui::esp::EspFlashHelper;

verus! {

/// The position of a baud rate among those on offer, from a place on; the entry
/// for any other rate if it is not there.
pub open spec fn baud_position(baud_rate: u32, from: int) -> int
    decreases CUSTOM_BAUD - from,
{
    if from < 0 || from >= CUSTOM_BAUD {
        CUSTOM_BAUD as int
    } else if COMMON_BAUD[from] == baud_rate {
        from
    } else {
        baud_position(baud_rate, from + 1)
    }
}

/// The position of a baud rate among those on offer.
pub fn find_baud(baud_rate: u32) -> (r: usize)
    ensures
        r == baud_position(baud_rate, 0),
        r <= CUSTOM_BAUD,
{
    let mut i: usize = 0;
    while i < CUSTOM_BAUD
        invariant
            i <= CUSTOM_BAUD,
            baud_position(baud_rate, 0) == baud_position(baud_rate, i as int),
        decreases CUSTOM_BAUD - i,
    {
        if COMMON_BAUD[i] == baud_rate {
            return i;
        }
        i += 1;
    }
    CUSTOM_BAUD
}

/// What the box for a baud rate of one's own holds at first: a rate that is not on
/// offer.
pub open spec fn first_baud_text(baud_rate: u32) -> Seq<char> {
    if baud_position(baud_rate, 0) == CUSTOM_BAUD && baud_rate != 0 {
        crate::text::digits(baud_rate as nat, 10)
    } else {
        Seq::empty()
    }
}

/// Where everything on the screens stands at first.
pub open spec fn first_screen(baud_rate: u32) -> Screen {
    Screen {
        state: RunningState::Running,
        menu: Menu::PortSelection,
        port_selection_scroll: 0,
        baud_index: baud_position(baud_rate, 0) as usize,
        popup_menu_scroll: 0,
        popup_hint_scroll: -2i32,
        repeating_line_flip: false,
        failed_send_at: None,
        escape_next_keypress: false,
        user_broke_connection: false,
    }
}

/// The bindings from a place on that do something.
pub open spec fn useful_bindings(bindings: Seq<KeyBinding>) -> Seq<KeyBinding>
    decreases bindings.len(),
{
    if bindings.len() == 0 {
        Seq::empty()
    } else if bindings.last().actions@.len() > 0 {
        useful_bindings(bindings.drop_last()).push(bindings.last())
    } else {
        useful_bindings(bindings.drop_last())
    }
}

proof fn lemma_useful_bindings(bindings: Seq<KeyBinding>)
    ensures
        forall|i: int|
            0 <= i < useful_bindings(bindings).len() ==> (#[trigger] useful_bindings(
                bindings,
            )[i]).actions@.len() > 0,
    decreases bindings.len(),
{
    if bindings.len() > 0 {
        lemma_useful_bindings(bindings.drop_last());
    }
}

impl Keybinds {
    /// The bindings that do something; the others are dropped.
    pub fn from_bindings(bindings: Vec<KeyBinding>) -> (r: Keybinds)
        ensures
            r.keybindings@ == useful_bindings(bindings@),
            r.wf(),
    {
        let mut rest = bindings;
        let mut kept: Vec<KeyBinding> = Vec::new();
        let total: usize = rest.len();
        let mut done: usize = 0;
        while rest.len() > 0
            invariant
                total == bindings@.len(),
                done + rest@.len() == total,
                rest@ == bindings@.skip(done as int),
                kept@ == useful_bindings(bindings@.take(done as int)),
            decreases rest@.len(),
        {
            let ghost taken = bindings@.take(done + 1);
            assert(taken.drop_last() =~= bindings@.take(done as int));
            assert(taken.last() == rest@[0]);
            let binding = rest.remove(0);
            if binding.actions.len() > 0 {
                kept.push(binding);
            }
            assert(rest@ =~= bindings@.skip(done + 1));
            done += 1;
        }
        assert(bindings@.take(done as int) =~= bindings@);
        proof {
            lemma_useful_bindings(bindings@);
        }
        Keybinds { keybindings: kept }
    }
}

/// What the program begins with.
pub struct Start {
    pub settings: Settings,
    pub ports: Vec<SerialPortInfo>,
    pub keybinds: Keybinds,
    pub macros: Macros,
    pub espflash: EspFlashHelper,
    pub skip_erase_confirm: bool,
    pub recent_elfs: Vec<String>,
    pub ignored_devices: Ignored,
    pub updates: Updates,
    pub layout: Layout,
}

impl Start {
    /// The state that the program begins in.
    pub open spec fn state(&self) -> AppView {
        let baud_text = first_baud_text(self.settings.serial.baud_rate);
        AppView {
            ui: UiView { screen: first_screen(self.settings.serial.baud_rate), popup: None },
            edit: EditView {
                settings: self.settings@,
                scratch: self.settings@,
                baud_text,
                baud_cursor: baud_text.len(),
                baud_cut: Cut::nothing(),
            },
            kept: KeptView {
                ports: crate::serial::port_views(self.ports@),
                text_input: crate::text_input::TextInputView {
                    text: Seq::empty(),
                    cursor: 0,
                    cut: Cut::nothing(),
                    bytes_input: false,
                    all_text_selected: false,
                    history: crate::text_input::HistoryView {
                        selected: None,
                        entries: Seq::empty(),
                    },
                    preserved: None,
                    search_result: None,
                },
                keybinds: self.keybinds,
                macros: self.macros@,
                queue: Seq::empty(),
                espflash: self.espflash,
                skip_erase_confirm: self.skip_erase_confirm,
                recent_elfs: crate::text::texts(self.recent_elfs@),
                ignored: IgnoredView {
                    names: crate::text::texts(self.ignored_devices.name@),
                    usb: crate::app::usb_views(self.ignored_devices.usb@),
                    show_ttys_ports: self.ignored_devices.show_ttys_ports,
                    hide_loopback_port: self.ignored_devices.hide_loopback_port,
                },
                updates: self.updates,
                update_found_version: None,
                last_raw_sequence: Seq::empty(),
                layout: self.layout,
            },
            outbox: Seq::empty(),
        }
    }
}

fn first_baud_input(baud_rate: u32) -> (r: String)
    ensures
        r@ == first_baud_text(baud_rate),
{
    if find_baud(baud_rate) == CUSTOM_BAUD && baud_rate != 0 {
        number(baud_rate as u64, 10)
    } else {
        let r = String::new();
        assert(r@ =~= Seq::<char>::empty());
        r
    }
}

impl AppView {
    /// With a row of a settings menu changed.
    #[verifier::opaque]
    pub open spec fn row_edited(self, menu: SettingsMenu, row: usize, scratch: SettingsView) -> AppView {
        let edited = self.with_scratch(scratch);
        if menu is SerialPort && row == 0 {
            edited.with_baud(crate::text::digits(scratch.serial.baud_rate as nat, 10))
        } else {
            edited
        }
    }

    /// With a complaint about something that could not be loaded again.
    pub open spec fn reload_failed(self, what: Seq<char>, error: Seq<char>) -> AppView {
        self.said(
            "Error reloading "@ + what + (": "@ + error + "! See log for details."@),
            Color::Red,
        )
    }

    /// After a file with messages was loaded, or was not.
    #[verifier::opaque]
    pub open spec fn elf_taken(self, outcome: ElfOutcome, reload: bool) -> AppView {
        match outcome {
            ElfOutcome::Loaded => self.said(
                if reload {
                    "defmt ELF reloaded due to file update!"@
                } else {
                    "defmt ELF loaded successfully!"@
                },
                Color::Green,
            ),
            ElfOutcome::LocationError(error) => self.said(
                "defmt ELF had location data err: "@ + error@,
                Color::Yellow,
            ),
            ElfOutcome::Failed(error) => self.said(
                (if reload {
                    "defmt ELF auto-reload failed! "@
                } else {
                    "defmt ELF load failed! "@
                }) + error@,
                Color::Red,
            ),
        }
    }
}

impl App {
    /// The program as it begins.
    pub fn build(start: Start) -> (r: App)
        requires
            start.keybinds.wf(),
            start.espflash.count() <= usize::MAX,
        ensures
            r@ == start.state(),
            r@.wf(),
    {
        proof {
            reveal(crate::app::valid);
        }
        let baud_rate: u32 = start.settings.serial.baud_rate;
        let baud_index: usize = find_baud(baud_rate);
        let scratch = start.settings.duplicate();
        let r = App {
            screen: Screen {
                state: RunningState::Running,
                menu: Menu::PortSelection,
                port_selection_scroll: 0,
                baud_index,
                popup_menu_scroll: 0,
                popup_hint_scroll: -2,
                repeating_line_flip: false,
                failed_send_at: None,
                escape_next_keypress: false,
                user_broke_connection: false,
            },
            popup: None,
            settings: start.settings,
            scratch,
            baud_input: new_input(first_baud_input(baud_rate)),
            ports: start.ports,
            text_input: TextInput::new(),
            keybinds: start.keybinds,
            macros: start.macros,
            action_queue: Vec::new(),
            espflash: start.espflash,
            skip_erase_confirm: start.skip_erase_confirm,
            recent_elfs: start.recent_elfs,
            ignored_devices: start.ignored_devices,
            updates: start.updates,
            update_found_version: None,
            last_raw_sequence: Vec::new(),
            layout: start.layout,
            outbox: Vec::new(),
        };
        assert(crate::app::queue_views(r.action_queue@) =~= Seq::empty());
        assert(r.last_raw_sequence@ =~= Seq::<u8>::empty());
        assert(crate::app::effects::effect_views(r.outbox@) =~= Seq::empty());
        r
    }

    /// Takes up the change of a row in a settings menu.
    pub fn settings_row_edited(&mut self, menu: SettingsMenu, row: usize, scratch: Settings)
        ensures
            final(self)@ == old(self)@.row_edited(menu, row, scratch@),
            old(self)@.wf() ==> final(self)@.wf(),
    {
        proof {
            reveal(AppView::row_edited);
        }
        let baud_rate: u32 = scratch.serial.baud_rate;
        self.scratch = scratch;
        if menu == SettingsMenu::SerialPort && row == 0 {
            self.baud_input = new_input(number(baud_rate as u64, 10));
        }
    }

    /// Takes up the macros that were loaded, and how many files had errors; or why none
    /// could be loaded.
    pub fn macros_reloaded(&mut self, outcome: Result<(Macros, usize), String>)
        ensures
            final(self)@ == (match outcome {
                Ok((macros, errors)) => {
                    let taken = old(self)@.with_macros(macros@);
                    if errors == 0 {
                        taken.said("Reloaded Macros Successfully!"@, Color::Green)
                    } else {
                        taken.said(
                            "Reloaded Macros! "@ + crate::text::digits(errors as nat, 10)
                                + " files had errors!"@,
                            Color::Yellow,
                        )
                    }
                },
                Err(error) => old(self)@.said("Error opening macros: "@ + error@ + "!"@, Color::Red),
            }),
            old(self)@.wf() ==> final(self)@.wf(),
    {
        match outcome {
            Ok((macros, errors)) => {
                self.macros = macros;
                if errors == 0 {
                    self.say("Reloaded Macros Successfully!".to_owned(), Color::Green);
                } else {
                    let count = number(errors as u64, 10);
                    self.say(
                        concat3("Reloaded Macros! ", count.as_str(), " files had errors!"),
                        Color::Yellow,
                    );
                }
            },
            Err(error) => {
                self.say(concat3("Error opening macros: ", error.as_str(), "!"), Color::Red);
            },
        }
    }

    fn fail_reload(&mut self, what: &str, error: &str)
        ensures
            final(self)@ == old(self)@.reload_failed(what@, error@),
            old(self)@.wf() ==> final(self)@.wf(),
    {
        let rest = concat3(": ", error, "! See log for details.");
        self.say(concat3("Error reloading ", what, rest.as_str()), Color::Red);
    }

    /// Takes up that the color rules were loaded, or why they were not.
    pub fn colors_reloaded(&mut self, error: Option<String>)
        ensures
            final(self)@ == (match error {
                None => old(self)@.said("Reloaded Color Rules!"@, Color::Green),
                Some(error) => old(self)@.reload_failed("Color Rules"@, error@),
            }),
            old(self)@.wf() ==> final(self)@.wf(),
    {
        match error {
            None => self.say("Reloaded Color Rules!".to_owned(), Color::Green),
            Some(error) => self.fail_reload("Color Rules", error.as_str()),
        }
    }

    fn set_keybinds(&mut self, keybinds: Keybinds)
        requires
            keybinds.wf(),
        ensures
            final(self)@ == (AppView {
                kept: KeptView { keybinds, ..old(self)@.kept },
                ..old(self)@
            }),
            old(self)@.wf() ==> final(self)@.wf(),
    {
        proof {
            reveal(crate::app::valid);
        }
        self.keybinds = keybinds;
    }

    /// Takes up the bindings that were loaded, or why they were not.
    pub fn keybinds_reloaded(&mut self, outcome: Result<Keybinds, String>)
        requires
            outcome matches Ok(keybinds) ==> keybinds.wf(),
        ensures
            final(self)@ == (match outcome {
                Ok(keybinds) => (AppView {
                    kept: KeptView { keybinds, ..old(self)@.kept },
                    ..old(self)@
                }).said("Reloaded Keybinds!"@, Color::Green),
                Err(error) => old(self)@.reload_failed("Keybinds"@, error@),
            }),
            old(self)@.wf() ==> final(self)@.wf(),
    {
        match outcome {
            Ok(keybinds) => {
                self.set_keybinds(keybinds);
                self.say("Reloaded Keybinds!".to_owned(), Color::Green);
            },
            Err(error) => self.fail_reload("Keybinds", error.as_str()),
        }
    }

    fn set_profiles(&mut self, espflash: EspFlashHelper)
        requires
            espflash.count() <= usize::MAX,
        ensures
            final(self)@ == old(self)@.with_espflash(espflash),
            old(self)@.wf() ==> final(self)@.wf(),
    {
        proof {
            reveal(crate::app::valid);
        }
        self.espflash = espflash;
    }

    /// Takes up the profiles that were loaded, or why they were not.
    pub fn profiles_reloaded(&mut self, outcome: Result<EspFlashHelper, String>)
        requires
            outcome matches Ok(espflash) ==> espflash.count() <= usize::MAX,
        ensures
            final(self)@ == (match outcome {
                Ok(espflash) => old(self)@.with_espflash(espflash).said(
                    "Reloaded espflash profiles!"@,
                    Color::Green,
                ),
                Err(error) => old(self)@.reload_failed("espflash profiles"@, error@),
            }),
            old(self)@.wf() ==> final(self)@.wf(),
    {
        match outcome {
            Ok(espflash) => {
                self.set_profiles(espflash);
                self.say("Reloaded espflash profiles!".to_owned(), Color::Green);
            },
            Err(error) => self.fail_reload("espflash profiles", error.as_str()),
        }
    }

    /// Takes up how loading a file with `defmt` messages ended.
    pub fn elf_loaded(&mut self, outcome: ElfOutcome, reload: bool)
        ensures
            final(self)@ == old(self)@.elf_taken(outcome, reload),
            old(self)@.wf() ==> final(self)@.wf(),
    {
        proof {
            reveal(AppView::elf_taken);
        }
        match outcome {
            ElfOutcome::Loaded => {
                let text = if reload {
                    "defmt ELF reloaded due to file update!"
                } else {
                    "defmt ELF loaded successfully!"
                };
                self.say(text.to_owned(), Color::Green);
            },
            ElfOutcome::LocationError(error) => {
                self.say(
                    concat2("defmt ELF had location data err: ", error.as_str()),
                    Color::Yellow,
                );
            },
            ElfOutcome::Failed(error) => {
                let text = if reload {
                    "defmt ELF auto-reload failed! "
                } else {
                    "defmt ELF load failed! "
                };
                self.say(concat2(text, error.as_str()), Color::Red);
            },
        }
    }

    /// Takes up the list of files with `defmt` messages that were used before.
    pub fn set_recent_elfs(&mut self, recent_elfs: Vec<String>)
        ensures
            final(self)@ == (AppView {
                kept: KeptView {
                    recent_elfs: crate::text::texts(recent_elfs@),
                    ..old(self)@.kept
                },
                ..old(self)@
            }),
            old(self)@.wf() ==> final(self)@.wf(),
    {
        self.recent_elfs = recent_elfs;
    }

    /// Takes up an error of the file explorer: it is closed.
    pub fn explorer_failed(&mut self, error: &str)
        ensures
            final(self)@ == old(self)@.said("Explorer Error: "@ + error@, Color::Red).dismissed(),
            old(self)@.wf() ==> final(self)@.wf(),
    {
        self.say(concat2("Explorer Error: ", error), Color::Red);
        self.dismiss_popup();
    }

    /// Takes up the file that was chosen in the explorer, if its path is text.
    pub fn explorer_chose(&mut self, path: Option<String>)
        ensures
            final(self)@ == (match path {
                Some(path) => old(self)@.effected(
                    EffectView::LoadElf { path: path@, reload: false },
                ).dismissed(),
                None => old(self)@.said("Path is not valid UTF-8!"@, Color::Red),
            }),
            old(self)@.wf() ==> final(self)@.wf(),
    {
        match path {
            Some(path) => {
                self.effect(Effect::LoadElf { path, reload: false });
                self.dismiss_popup();
            },
            None => self.say("Path is not valid UTF-8!".to_owned(), Color::Red),
        }
    }

    /// Takes up that the repository could not be shown.
    pub fn repository_failed(&mut self, error: &str)
        ensures
            final(self)@ == old(self)@.said(
                "Failed to open app repository! "@ + error@,
                Color::Red,
            ),
            old(self)@.wf() ==> final(self)@.wf(),
    {
        self.say(concat2("Failed to open app repository! ", error), Color::Red);
    }
}

} // verus!
