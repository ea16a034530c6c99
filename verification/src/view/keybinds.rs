//! The list of all combinations of keys.

use vstd::prelude::*;
use vstd::string::*;

use crate::app::{App, AppView};
use crate::foreign::text_width;
use crate::keybinds::{Action, ActionView, KeyBinding};
use crate::line::{Color, Style, BOLD};
use crate::macros::MacroNameTag;
use crate::text::{byte_len, concat2, concat3, number, padded, relate, repeat_char, Relation};
use crate::tui::Rect;
use crate::view::arrange::{arrange, Precedence};

verus! {

/// What a text in a binding stands for.
#[derive(Debug)]
pub enum ActionOption {
    Recognized(Action),
    Unrecognized(String),
}

/// What a text in a binding stands for, as plain values.
#[verifier::ext_equal]
pub enum OptionView {
    Recognized(ActionView),
    Unrecognized(Seq<char>),
}

impl View for ActionOption {
    type V = OptionView;

    open spec fn view(&self) -> OptionView {
        match self {
            ActionOption::Recognized(action) => OptionView::Recognized(action@),
            ActionOption::Unrecognized(text) => OptionView::Unrecognized(text@),
        }
    }
}

/// A fraction of a second in thousandths, without zeros at its end.
pub open spec fn fraction(thousandths: nat) -> Seq<char> {
    let digits = crate::text::pad_left(crate::text::digits(thousandths, 10), 3, '0');
    if thousandths == 0 {
        Seq::empty()
    } else if thousandths % 100 == 0 {
        "."@ + digits.take(1)
    } else if thousandths % 10 == 0 {
        "."@ + digits.take(2)
    } else {
        "."@ + digits
    }
}

/// A time in milliseconds, in the greatest unit that it fills.
pub open spec fn duration_text(ms: u64) -> Seq<char> {
    if ms == 0 {
        "0ns"@
    } else if ms < 1000 {
        crate::text::digits(ms as nat, 10) + "ms"@
    } else {
        crate::text::digits((ms / 1000) as nat, 10) + fraction((ms % 1000) as nat) + "s"@
    }
}

proof fn lemma_three_digits(n: nat)
    requires
        n < 1000,
    ensures
        crate::text::pad_left(crate::text::digits(n, 10), 3, '0').len() == 3,
{
    reveal_with_fuel(crate::text::digits, 4);
}

fn describe_fraction(thousandths: u64) -> (r: String)
    requires
        thousandths < 1000,
    ensures
        r@ == fraction(thousandths as nat),
{
    let all = number(thousandths, 10);
    let digits = padded(all.as_str(), 3, '0');
    proof {
        lemma_three_digits(thousandths as nat);
    }
    if thousandths == 0 {
        let r = String::new();
        assert(r@ =~= Seq::<char>::empty());
        r
    } else if thousandths % 100 == 0 {
        let kept = digits.as_str().substring_char(0, 1);
        assert(kept@ =~= digits@.take(1));
        concat2(".", kept)
    } else if thousandths % 10 == 0 {
        let kept = digits.as_str().substring_char(0, 2);
        assert(kept@ =~= digits@.take(2));
        concat2(".", kept)
    } else {
        concat2(".", digits.as_str())
    }
}

fn describe_duration(ms: u64) -> (r: String)
    ensures
        r@ == duration_text(ms),
{
    if ms == 0 {
        "0ns".to_owned()
    } else if ms < 1000 {
        concat2(number(ms, 10).as_str(), "ms")
    } else {
        concat3(number(ms / 1000, 10).as_str(), describe_fraction(ms % 1000).as_str(), "s")
    }
}

impl OptionView {
    /// What is shown of it.
    pub open spec fn words(self) -> Seq<char> {
        match self {
            OptionView::Recognized(ActionView::BuiltinAction(action)) => action.title(),
            OptionView::Recognized(ActionView::MacroInvocation(tag)) => match tag.category {
                Some(category) => "[Macro] "@ + tag.name + (" ("@ + category + ")"@),
                None => "[Macro] "@ + tag.name,
            },
            OptionView::Recognized(ActionView::EspFlashProfile(name)) => "[ESP] "@ + name,
            OptionView::Recognized(ActionView::Pause(ms)) => "Pause: "@ + duration_text(ms),
            OptionView::Unrecognized(text) => "?"@ + text + "?"@,
        }
    }

    /// The color that it is shown in.
    pub open spec fn color(self) -> Color {
        match self {
            OptionView::Recognized(ActionView::Pause(_)) => Color::LightBlue,
            OptionView::Recognized(ActionView::MacroInvocation(_)) => Color::Green,
            OptionView::Recognized(ActionView::EspFlashProfile(_)) => Color::Magenta,
            OptionView::Recognized(_) => Color::Cyan,
            OptionView::Unrecognized(_) => Color::Yellow,
        }
    }

    /// What is listed first, by kind.
    pub open spec fn kind(self) -> int {
        match self {
            OptionView::Recognized(ActionView::BuiltinAction(_)) => 0,
            OptionView::Recognized(ActionView::MacroInvocation(_)) => 1,
            OptionView::Recognized(ActionView::EspFlashProfile(_)) => 2,
            OptionView::Recognized(ActionView::Pause(_)) => 3,
            OptionView::Unrecognized(_) => 4,
        }
    }

    /// Whether it is listed before another: by kind, then by place, name or time.
    pub open spec fn before(self, other: OptionView) -> bool {
        if self.kind() != other.kind() {
            self.kind() < other.kind()
        } else {
            match (self, other) {
                (
                    OptionView::Recognized(ActionView::BuiltinAction(a)),
                    OptionView::Recognized(ActionView::BuiltinAction(b)),
                ) => a.place() < b.place(),
                (
                    OptionView::Recognized(ActionView::MacroInvocation(a)),
                    OptionView::Recognized(ActionView::MacroInvocation(b)),
                ) => crate::macros::tag_before(a, b),
                (
                    OptionView::Recognized(ActionView::EspFlashProfile(a)),
                    OptionView::Recognized(ActionView::EspFlashProfile(b)),
                ) => crate::text::text_before(a, b),
                (
                    OptionView::Recognized(ActionView::Pause(a)),
                    OptionView::Recognized(ActionView::Pause(b)),
                ) => a < b,
                (OptionView::Unrecognized(a), OptionView::Unrecognized(b)) => {
                    crate::text::text_before(a, b)
                },
                _ => false,
            }
        }
    }
}

fn text_comes_before(a: &str, b: &str) -> (r: bool)
    ensures
        r == crate::text::text_before(a@, b@),
{
    match relate(a, b) {
        Relation::Before => true,
        _ => false,
    }
}

fn describe_macro(tag: &MacroNameTag) -> (r: String)
    ensures
        r@ == OptionView::Recognized(ActionView::MacroInvocation(tag@)).words(),
{
    match &tag.category {
        Some(category) => {
            let rest = concat3(" (", category.as_str(), ")");
            concat3("[Macro] ", tag.name.as_str(), rest.as_str())
        },
        None => concat2("[Macro] ", tag.name.as_str()),
    }
}

impl ActionOption {
    /// What is shown of it.
    pub fn as_text(&self) -> (r: String)
        ensures
            r@ == self@.words(),
    {
        match self {
            ActionOption::Recognized(Action::BuiltinAction(action)) => action.as_text().to_owned(),
            ActionOption::Recognized(Action::MacroInvocation(tag)) => describe_macro(tag),
            ActionOption::Recognized(Action::EspFlashProfile(name)) => concat2(
                "[ESP] ",
                name.as_str(),
            ),
            ActionOption::Recognized(Action::Pause(ms)) => concat2(
                "Pause: ",
                describe_duration(*ms).as_str(),
            ),
            ActionOption::Unrecognized(text) => concat3("?", text.as_str(), "?"),
        }
    }

    fn shade(&self) -> (r: Color)
        ensures
            r == self@.color(),
    {
        match self {
            ActionOption::Recognized(Action::Pause(_)) => Color::LightBlue,
            ActionOption::Recognized(Action::MacroInvocation(_)) => Color::Green,
            ActionOption::Recognized(Action::EspFlashProfile(_)) => Color::Magenta,
            ActionOption::Recognized(Action::BuiltinAction(_)) => Color::Cyan,
            ActionOption::Unrecognized(_) => Color::Yellow,
        }
    }

    fn sort(&self) -> (r: u8)
        ensures
            r == self@.kind(),
    {
        match self {
            ActionOption::Recognized(Action::BuiltinAction(_)) => 0,
            ActionOption::Recognized(Action::MacroInvocation(_)) => 1,
            ActionOption::Recognized(Action::EspFlashProfile(_)) => 2,
            ActionOption::Recognized(Action::Pause(_)) => 3,
            ActionOption::Unrecognized(_) => 4,
        }
    }

    fn is_recognized(&self) -> (r: bool)
        ensures
            r == (self@ is Recognized),
    {
        match self {
            ActionOption::Recognized(_) => true,
            ActionOption::Unrecognized(_) => false,
        }
    }

    fn is_pause(&self) -> (r: bool)
        ensures
            r == (self@ matches OptionView::Recognized(ActionView::Pause(_))),
    {
        match self {
            ActionOption::Recognized(Action::Pause(_)) => true,
            _ => false,
        }
    }

    fn listed_before(&self, other: &ActionOption) -> (r: bool)
        ensures
            r == self@.before(other@),
    {
        if self.sort() != other.sort() {
            return self.sort() < other.sort();
        }
        match (self, other) {
            (
                ActionOption::Recognized(Action::BuiltinAction(a)),
                ActionOption::Recognized(Action::BuiltinAction(b)),
            ) => a.rank() < b.rank(),
            (
                ActionOption::Recognized(Action::MacroInvocation(a)),
                ActionOption::Recognized(Action::MacroInvocation(b)),
            ) => match a.relate_to(b) {
                Relation::Before => true,
                _ => false,
            },
            (
                ActionOption::Recognized(Action::EspFlashProfile(a)),
                ActionOption::Recognized(Action::EspFlashProfile(b)),
            ) => text_comes_before(a.as_str(), b.as_str()),
            (
                ActionOption::Recognized(Action::Pause(a)),
                ActionOption::Recognized(Action::Pause(b)),
            ) => *a < *b,
            (ActionOption::Unrecognized(a), ActionOption::Unrecognized(b)) => {
                text_comes_before(a.as_str(), b.as_str())
            },
            _ => false,
        }
    }
}

/// A combination of keys, and what it does.
pub struct Entry {
    pub label: String,
    pub options: Vec<ActionOption>,
}

/// A combination of keys, and what it does, as plain values.
#[verifier::ext_equal]
pub struct EntryView {
    pub label: Seq<char>,
    pub options: Seq<OptionView>,
}

impl View for Entry {
    type V = EntryView;

    open spec fn view(&self) -> EntryView {
        EntryView {
            label: self.label@,
            options: self.options@.map_values(|o: ActionOption| o@),
        }
    }
}

/// Some combinations of keys, as plain values.
pub open spec fn entries_of(entries: Seq<Entry>) -> Seq<EntryView> {
    entries.map_values(|e: Entry| e@)
}

/// The bindings, by the first thing that they do, the last in the alphabet first.
pub struct ByFirstAction<'a> {
    pub bindings: &'a Vec<KeyBinding>,
}

/// The first thing that a binding does.
pub open spec fn first_action(binding: KeyBinding) -> Seq<char> {
    if binding.actions@.len() > 0 {
        binding.actions@[0]@
    } else {
        Seq::empty()
    }
}

/// Which bindings are listed before which: by the first thing that they do, the last
/// in the alphabet first.
pub open spec fn by_first_action(bindings: Seq<KeyBinding>) -> spec_fn(int, int) -> bool {
    |a: int, b: int|
        crate::text::text_before(first_action(bindings[b]), first_action(bindings[a]))
}

fn first_name(binding: &KeyBinding) -> (r: &str)
    ensures
        r@ == first_action(*binding),
{
    if binding.actions.len() > 0 {
        binding.actions[0].as_str()
    } else {
        proof {
            reveal_strlit("");
            assert(""@ =~= Seq::<char>::empty());
        }
        ""
    }
}

impl<'a> Precedence for ByFirstAction<'a> {
    open spec fn size(&self) -> nat {
        self.bindings@.len()
    }

    open spec fn relation(&self) -> spec_fn(int, int) -> bool {
        by_first_action(self.bindings@)
    }

    fn count(&self) -> (r: usize) {
        self.bindings.len()
    }

    fn comes_before(&self, a: usize, b: usize) -> (r: bool) {
        text_comes_before(first_name(&self.bindings[b]), first_name(&self.bindings[a]))
    }
}

impl AppView {
    /// What a text in a binding stands for.
    pub open spec fn option_named(self, text: Seq<char>) -> OptionView {
        match self.action_named(text) {
            Some(action) => OptionView::Recognized(action),
            None => OptionView::Unrecognized(text),
        }
    }

    /// A binding, and what it does.
    pub open spec fn entry(self, binding: KeyBinding) -> EntryView {
        EntryView {
            label: binding.label@,
            options: binding.actions@.map_values(|a: String| self.option_named(a@)),
        }
    }

    /// All bindings, and what they do, in the order in which they are listed.
    pub open spec fn entries(self) -> Seq<EntryView> {
        let bindings = self.kept.keybinds.keybindings@;
        crate::view::arrange::arranged(
            by_first_action(bindings),
            bindings.len() as int,
        ).map_values(|i: usize| self.entry(bindings[i as int]))
    }
}

/// The greatest length of a label, in bytes.
pub open spec fn longest_label(entries: Seq<EntryView>) -> nat
    decreases entries.len(),
{
    if entries.len() == 0 {
        0
    } else {
        let rest = longest_label(entries.drop_last());
        let own = vstd::utf8::encode_utf8(entries.last().label).len();
        if own > rest {
            own
        } else {
            rest
        }
    }
}

/// The positions of those of the first `n` combinations that do one thing, or of
/// those that do several.
pub open spec fn positions_of(entries: Seq<EntryView>, n: int, single: bool) -> Seq<usize>
    decreases n,
{
    if n <= 0 {
        Seq::empty()
    } else {
        let before = positions_of(entries, n - 1, single);
        if (entries[n - 1].options.len() == 1) == single {
            before.push((n - 1) as usize)
        } else {
            before
        }
    }
}

/// The combinations that do one thing, by what that is.
pub struct BySingleAction<'a> {
    pub entries: &'a Vec<Entry>,
    pub singles: &'a Vec<usize>,
}

/// What the first thing is that a combination does.
pub open spec fn single_option(entry: EntryView) -> OptionView {
    if entry.options.len() > 0 {
        entry.options[0]
    } else {
        OptionView::Unrecognized(Seq::empty())
    }
}

/// Which of the combinations that do one thing are listed before which.
pub open spec fn by_single_action(entries: Seq<EntryView>, singles: Seq<usize>) -> spec_fn(
    int,
    int,
) -> bool {
    |a: int, b: int|
        single_option(entries[singles[a] as int]).before(single_option(entries[singles[b] as int]))
}

impl<'a> BySingleAction<'a> {
    /// Each of the combinations does one thing.
    pub open spec fn valid(&self) -> bool {
        forall|i: int|
            0 <= i < self.singles@.len() ==> (#[trigger] self.singles@[i]) < self.entries@.len()
                && self.entries@[self.singles@[i] as int].options@.len() == 1
    }
}

impl<'a> Precedence for BySingleAction<'a> {
    open spec fn size(&self) -> nat {
        if self.valid() {
            self.singles@.len()
        } else {
            0
        }
    }

    open spec fn relation(&self) -> spec_fn(int, int) -> bool {
        by_single_action(entries_of(self.entries@), self.singles@)
    }

    fn count(&self) -> (r: usize) {
        let mut i: usize = 0;
        while i < self.singles.len()
            invariant
                i <= self.singles@.len(),
                forall|j: int|
                    0 <= j < i ==> (#[trigger] self.singles@[j]) < self.entries@.len()
                        && self.entries@[self.singles@[j] as int].options@.len() == 1,
            decreases self.singles@.len() - i,
        {
            let at: usize = self.singles[i];
            if at >= self.entries.len() || self.entries[at].options.len() != 1 {
                return 0;
            }
            i += 1;
        }
        self.singles.len()
    }

    fn comes_before(&self, a: usize, b: usize) -> (r: bool) {
        let first = &self.entries[self.singles[a]];
        assert(entries_of(self.entries@)[self.singles@[a as int] as int] == first@);
        assert(entries_of(self.entries@)[self.singles@[b as int] as int]
            == self.entries@[self.singles@[b as int] as int]@);
        let second = &self.entries[self.singles[b]];
        assert(first@.options[0] == first.options@[0]@);
        assert(second@.options[0] == second.options@[0]@);
        first.options[0].listed_before(&second.options[0])
    }
}

/// A row of the list: texts after each other, and whether they are centered.
pub struct KeyRow {
    pub spans: Vec<(String, Style)>,
    pub centered: bool,
}

/// A row of the list, as plain values.
#[verifier::ext_equal]
pub struct RowView {
    pub spans: Seq<(Seq<char>, Style)>,
    pub centered: bool,
}

impl View for KeyRow {
    type V = RowView;

    open spec fn view(&self) -> RowView {
        RowView { spans: crate::view::piece_views(self.spans@), centered: self.centered }
    }
}

/// Some rows, as plain values.
pub open spec fn rows_of(rows: Seq<KeyRow>) -> Seq<RowView> {
    rows.map_values(|r: KeyRow| r@)
}

/// A text, filled up with spaces at its end.
pub open spec fn pad_right(s: Seq<char>, width: nat) -> Seq<char> {
    if s.len() >= width {
        s
    } else {
        s + crate::text::repeated(' ', (width - s.len()) as nat)
    }
}

fn filled(s: &str, width: usize) -> (r: String)
    ensures
        r@ == pad_right(s@, width as nat),
{
    let len: usize = s.unicode_len();
    if len >= width {
        s.to_owned()
    } else {
        concat2(s, repeat_char(' ', width - len).as_str())
    }
}

/// The row of a combination that does one thing.
pub open spec fn single_row(entry: EntryView, width: nat) -> RowView {
    let option = single_option(entry);
    RowView {
        spans: seq![
            (
                pad_right(entry.label, width) + " - "@,
                if option is Recognized {
                    Style::plain()
                } else {
                    Style::plain().with_fg(Color::Yellow)
                },
            ),
            (option.words(), Style::plain().with_fg(option.color())),
        ],
        centered: false,
    }
}

/// The row of one of the things that a combination does.
pub open spec fn chain_row(option: OptionView, width: nat) -> RowView {
    let indent: nat = if option matches OptionView::Recognized(ActionView::Pause(_)) {
        width + 1
    } else {
        width
    };
    RowView {
        spans: seq![
            (pad_right(" "@, indent) + " - "@, Style::plain()),
            (option.words(), Style::plain().with_fg(option.color())),
        ],
        centered: false,
    }
}

/// Whether one of some things is not known.
pub open spec fn any_unknown(options: Seq<OptionView>) -> bool {
    exists|i: int| 0 <= i < options.len() && !((#[trigger] options[i]) is Recognized)
}

/// The rows of a combination that does several things.
pub open spec fn chain_rows(entry: EntryView, width: nat) -> Seq<RowView> {
    seq![
        RowView {
            spans: seq![
                (
                    entry.label,
                    if any_unknown(entry.options) {
                        Style::plain().with_fg(Color::Yellow)
                    } else {
                        Style::plain()
                    },
                ),
            ],
            centered: false,
        },
    ] + entry.options.map_values(|o: OptionView| chain_row(o, width))
}

/// The rows of all combinations at some positions that do several things.
pub open spec fn all_chain_rows(entries: Seq<EntryView>, at: Seq<usize>, width: nat) -> Seq<RowView>
    decreases at.len(),
{
    if at.len() == 0 {
        Seq::empty()
    } else {
        all_chain_rows(entries, at.drop_last(), width) + chain_rows(
            entries[at.last() as int],
            width,
        )
    }
}

/// A row with nothing in it.
pub open spec fn empty_row() -> RowView {
    RowView { spans: Seq::empty(), centered: false }
}

/// A row that heads a part of the list.
pub open spec fn heading_row(text: Seq<char>, style: Style) -> RowView {
    RowView { spans: seq![(text, style)], centered: true }
}

/// The rows of those of some combinations, in order, whose action is known, or of
/// those whose action is not.
pub open spec fn single_rows(
    entries: Seq<EntryView>,
    singles: Seq<usize>,
    order: Seq<usize>,
    width: nat,
    known: bool,
) -> Seq<RowView>
    decreases order.len(),
{
    if order.len() == 0 {
        Seq::empty()
    } else {
        let before = single_rows(entries, singles, order.drop_last(), width, known);
        let entry = entries[singles[order.last() as int] as int];
        if (single_option(entry) is Recognized) == known {
            before.push(single_row(entry, width))
        } else {
            before
        }
    }
}

/// The whole list: first what is not known, then what does one thing, then what does
/// several.
pub open spec fn list_rows(
    entries: Seq<EntryView>,
    singles: Seq<usize>,
    order: Seq<usize>,
    chains: Seq<usize>,
) -> Seq<RowView> {
    let width = longest_label(entries);
    let unknown = single_rows(entries, singles, order, width, false);
    (if unknown.len() == 0 {
        Seq::empty()
    } else {
        seq![
            heading_row(
                "Unrecognized Keybinds:"@,
                Style::plain().with_modifier(BOLD).with_fg(Color::Yellow),
            ),
        ] + unknown + seq![empty_row()]
    }) + single_rows(entries, singles, order, width, true) + (if chains.len() == 0 {
        Seq::empty()
    } else {
        seq![
            empty_row(),
            heading_row("Action Chain Keybinds:"@, Style::plain().with_modifier(BOLD)),
            empty_row(),
        ] + all_chain_rows(entries, chains, width)
    })
}

fn push_row(rows: &mut Vec<KeyRow>, row: KeyRow)
    ensures
        rows_of(final(rows)@) == rows_of(old(rows)@).push(row@),
{
    let ghost before = rows@;
    rows.push(row);
    assert(rows_of(rows@) =~= rows_of(before).push(row@));
}

fn row_of_two(first: String, first_style: Style, second: String, second_style: Style) -> (r: KeyRow)
    ensures
        r@ == (RowView {
            spans: seq![(first@, first_style), (second@, second_style)],
            centered: false,
        }),
{
    let mut spans: Vec<(String, Style)> = Vec::new();
    spans.push((first, first_style));
    spans.push((second, second_style));
    let r = KeyRow { spans, centered: false };
    assert(r@.spans =~= seq![(first@, first_style), (second@, second_style)]);
    r
}

fn row_of_one(text: String, style: Style, centered: bool) -> (r: KeyRow)
    ensures
        r@ == (RowView { spans: seq![(text@, style)], centered }),
{
    let mut spans: Vec<(String, Style)> = Vec::new();
    spans.push((text, style));
    let r = KeyRow { spans, centered };
    assert(r@.spans =~= seq![(text@, style)]);
    r
}

fn blank_row() -> (r: KeyRow)
    ensures
        r@ == empty_row(),
{
    let r = KeyRow { spans: Vec::new(), centered: false };
    assert(r@.spans =~= Seq::empty());
    r
}

fn make_single_row(entry: &Entry, width: usize) -> (r: KeyRow)
    requires
        entry.options@.len() == 1,
    ensures
        r@ == single_row(entry@, width as nat),
{
    let option = &entry.options[0];
    assert(entry@.options[0] == option@);
    let style = if option.is_recognized() {
        Style::new()
    } else {
        Style::new().fg(Color::Yellow)
    };
    row_of_two(
        concat2(filled(entry.label.as_str(), width).as_str(), " - "),
        style,
        option.as_text(),
        Style::new().fg(option.shade()),
    )
}

fn make_chain_row(option: &ActionOption, width: usize) -> (r: KeyRow)
    requires
        width < usize::MAX,
    ensures
        r@ == chain_row(option@, width as nat),
{
    let indent: usize = if option.is_pause() {
        width + 1
    } else {
        width
    };
    row_of_two(
        concat2(filled(" ", indent).as_str(), " - "),
        Style::new(),
        option.as_text(),
        Style::new().fg(option.shade()),
    )
}

fn has_unknown(entry: &Entry) -> (r: bool)
    ensures
        r == any_unknown(entry@.options),
{
    let mut i: usize = 0;
    while i < entry.options.len()
        invariant
            i <= entry.options@.len(),
            forall|j: int| 0 <= j < i ==> (#[trigger] entry@.options[j]) is Recognized,
        decreases entry.options@.len() - i,
    {
        assert(entry@.options[i as int] == entry.options@[i as int]@);
        if !entry.options[i].is_recognized() {
            return true;
        }
        i += 1;
    }
    false
}

fn add_chain(rows: &mut Vec<KeyRow>, entry: &Entry, width: usize)
    requires
        width < usize::MAX,
    ensures
        rows_of(final(rows)@) == rows_of(old(rows)@) + chain_rows(entry@, width as nat),
{
    let style = if has_unknown(entry) {
        Style::new().fg(Color::Yellow)
    } else {
        Style::new()
    };
    let ghost start = rows_of(rows@);
    let ghost all = chain_rows(entry@, width as nat);
    push_row(rows, row_of_one(entry.label.clone(), style, false));
    let mut i: usize = 0;
    assert(rows_of(rows@) =~= start + all.take(1));
    while i < entry.options.len()
        invariant
            width < usize::MAX,
            i <= entry.options@.len(),
            all == chain_rows(entry@, width as nat),
            all.len() == entry.options@.len() + 1,
            rows_of(rows@) == start + all.take(i + 1),
        decreases entry.options@.len() - i,
    {
        assert(all[i + 1] == chain_row(entry.options@[i as int]@, width as nat));
        push_row(rows, make_chain_row(&entry.options[i], width));
        assert(start + all.take(i + 2) =~= (start + all.take(i + 1)).push(all[i + 1]));
        i += 1;
    }
    assert(all.take(i + 1) =~= all);
}

fn add_chains(rows: &mut Vec<KeyRow>, entries: &Vec<Entry>, at: &Vec<usize>, width: usize)
    requires
        width < usize::MAX,
        forall|i: int| 0 <= i < at@.len() ==> (#[trigger] at@[i]) < entries@.len(),
    ensures
        rows_of(final(rows)@) == rows_of(old(rows)@) + all_chain_rows(
            entries_of(entries@),
            at@,
            width as nat,
        ),
{
    let ghost start = rows_of(rows@);
    let mut i: usize = 0;
    assert(start + all_chain_rows(entries_of(entries@), at@.take(0), width as nat) =~= start);
    while i < at.len()
        invariant
            width < usize::MAX,
            forall|j: int| 0 <= j < at@.len() ==> (#[trigger] at@[j]) < entries@.len(),
            i <= at@.len(),
            rows_of(rows@) == start + all_chain_rows(
                entries_of(entries@),
                at@.take(i as int),
                width as nat,
            ),
        decreases at@.len() - i,
    {
        let ghost before = all_chain_rows(entries_of(entries@), at@.take(i as int), width as nat);
        add_chain(rows, &entries[at[i]], width);
        proof {
            let taken = at@.take(i + 1);
            assert(taken.drop_last() =~= at@.take(i as int));
            assert(entries_of(entries@)[taken.last() as int] == entries@[at@[i as int] as int]@);
            assert(rows_of(rows@) =~= start + all_chain_rows(
                entries_of(entries@),
                taken,
                width as nat,
            ));
        }
        i += 1;
    }
    assert(at@.take(i as int) =~= at@);
}

fn make_single_rows(
    entries: &Vec<Entry>,
    singles: &Vec<usize>,
    order: &Vec<usize>,
    width: usize,
    known: bool,
) -> (r: Vec<KeyRow>)
    requires
        forall|i: int|
            0 <= i < singles@.len() ==> (#[trigger] singles@[i]) < entries@.len()
                && entries@[singles@[i] as int].options@.len() == 1,
        forall|i: int| 0 <= i < order@.len() ==> (#[trigger] order@[i]) < singles@.len(),
    ensures
        rows_of(r@) == single_rows(
            entries_of(entries@),
            singles@,
            order@,
            width as nat,
            known,
        ),
{
    let mut rows: Vec<KeyRow> = Vec::new();
    let mut i: usize = 0;
    assert(rows_of(rows@) =~= Seq::empty());
    assert(order@.take(0) =~= Seq::empty());
    while i < order.len()
        invariant
            forall|j: int|
                0 <= j < singles@.len() ==> (#[trigger] singles@[j]) < entries@.len()
                    && entries@[singles@[j] as int].options@.len() == 1,
            forall|j: int| 0 <= j < order@.len() ==> (#[trigger] order@[j]) < singles@.len(),
            i <= order@.len(),
            rows_of(rows@) == single_rows(
                entries_of(entries@),
                singles@,
                order@.take(i as int),
                width as nat,
                known,
            ),
        decreases order@.len() - i,
    {
        let entry = &entries[singles[order[i]]];
        proof {
            let taken = order@.take(i + 1);
            assert(taken.drop_last() =~= order@.take(i as int));
            assert(entries_of(entries@)[singles@[taken.last() as int] as int] == entry@);
            assert(entry@.options[0] == entry.options@[0]@);
        }
        if entry.options[0].is_recognized() == known {
            push_row(&mut rows, make_single_row(entry, width));
        }
        i += 1;
    }
    assert(order@.take(i as int) =~= order@);
    rows
}

fn append_rows(rows: &mut Vec<KeyRow>, more: Vec<KeyRow>)
    ensures
        rows_of(final(rows)@) == rows_of(old(rows)@) + rows_of(more@),
{
    let ghost before = rows@;
    let mut more = more;
    let ghost added = more@;
    rows.append(&mut more);
    assert(rows@ =~= before + added);
    assert(rows_of(rows@) =~= rows_of(before) + rows_of(added));
}

fn measure_labels(entries: &Vec<Entry>) -> (r: usize)
    ensures
        r == longest_label(entries_of(entries@)),
{
    let ghost all = entries_of(entries@);
    let mut longest: usize = 0;
    let mut i: usize = 0;
    assert(all.take(0) =~= Seq::empty());
    while i < entries.len()
        invariant
            all == entries_of(entries@),
            i <= entries@.len(),
            longest == longest_label(all.take(i as int)),
        decreases entries@.len() - i,
    {
        let own: usize = byte_len(entries[i].label.as_str());
        proof {
            assert(all.take(i + 1).drop_last() =~= all.take(i as int));
            assert(all.take(i + 1).last() == entries@[i as int]@);
        }
        if own > longest {
            longest = own;
        }
        i += 1;
    }
    assert(all.take(i as int) =~= all);
    longest
}

fn find_positions(entries: &Vec<Entry>, single: bool) -> (r: Vec<usize>)
    ensures
        r@ == positions_of(entries_of(entries@), entries@.len() as int, single),
        forall|i: int|
            0 <= i < r@.len() ==> (#[trigger] r@[i]) < entries@.len() && (entries@[r@[i] as int]
                .options@.len() == 1) == single,
{
    let mut r: Vec<usize> = Vec::new();
    let mut i: usize = 0;
    while i < entries.len()
        invariant
            i <= entries@.len(),
            r@ == positions_of(entries_of(entries@), i as int, single),
            forall|j: int|
                0 <= j < r@.len() ==> (#[trigger] r@[j]) < i && (entries@[r@[j] as int]
                    .options@.len() == 1) == single,
        decreases entries@.len() - i,
    {
        assert(entries_of(entries@)[i as int] == entries@[i as int]@);
        if (entries[i].options.len() == 1) == single {
            r.push(i);
        }
        i += 1;
    }
    r
}

/// The whole list of combinations.
pub open spec fn list_of(entries: Seq<EntryView>) -> Seq<RowView> {
    let n = entries.len() as int;
    let singles = positions_of(entries, n, true);
    list_rows(
        entries,
        singles,
        crate::view::arrange::arranged(
            by_single_action(entries, singles),
            singles.len() as int,
        ),
        positions_of(entries, n, false),
    )
}

/// Makes the list of combinations.
fn make_list(entries: &Vec<Entry>) -> (r: Vec<KeyRow>)
    requires
        longest_label(entries_of(entries@)) < usize::MAX,
    ensures
        rows_of(r@) == list_of(entries_of(entries@)),
{
    let width: usize = measure_labels(entries);
    let singles = find_positions(entries, true);
    let chains = find_positions(entries, false);
    let by_action = BySingleAction { entries, singles: &singles };
    let order = arrange(&by_action);
    let unknown = make_single_rows(entries, &singles, &order, width, false);
    let known = make_single_rows(entries, &singles, &order, width, true);
    let mut rows: Vec<KeyRow> = Vec::new();
    assert(rows_of(rows@) =~= Seq::empty());
    let ghost unknown_rows = rows_of(unknown@);
    let ghost known_rows = rows_of(known@);
    if unknown.len() > 0 {
        push_row(
            &mut rows,
            row_of_one(
                "Unrecognized Keybinds:".to_owned(),
                Style::new().add(BOLD).fg(Color::Yellow),
                true,
            ),
        );
        append_rows(&mut rows, unknown);
        push_row(&mut rows, blank_row());
    }
    append_rows(&mut rows, known);
    if chains.len() > 0 {
        push_row(&mut rows, blank_row());
        push_row(
            &mut rows,
            row_of_one("Action Chain Keybinds:".to_owned(), Style::new().add(BOLD), true),
        );
        push_row(&mut rows, blank_row());
        add_chains(&mut rows, entries, &chains, width);
    }
    proof {
        let list = list_of(entries_of(entries@));
        assert(entries_of(entries@).len() == entries@.len());
        assert(unknown_rows.len() == unknown@.len());
        assert(rows_of(rows@) =~= list);
    }
    rows
}

/// The columns of a row.
pub open spec fn row_columns(row: RowView) -> int {
    crate::buffer::tui::capped(
        if row.spans.len() == 0 {
            0
        } else if row.spans.len() == 1 {
            crate::foreign::columns(row.spans[0].0) as int
        } else {
            crate::foreign::columns(row.spans[0].0) + crate::foreign::columns(row.spans[1].0)
        },
    )
}

/// The most columns that any row with an action takes.
pub open spec fn list_columns(rows: Seq<RowView>) -> int
    decreases rows.len(),
{
    if rows.len() == 0 {
        0
    } else {
        let rest = list_columns(rows.drop_last());
        let own = if rows.last().spans.len() == 2 {
            row_columns(rows.last())
        } else {
            0
        };
        if own > rest {
            own
        } else {
            rest
        }
    }
}

fn measure_rows(rows: &Vec<KeyRow>) -> (r: usize)
    ensures
        r == list_columns(rows_of(rows@)),
{
    let ghost all = rows_of(rows@);
    let mut most: usize = 0;
    let mut i: usize = 0;
    assert(all.take(0) =~= Seq::empty());
    while i < rows.len()
        invariant
            all == rows_of(rows@),
            i <= rows@.len(),
            most == list_columns(all.take(i as int)),
        decreases rows@.len() - i,
    {
        let row = &rows[i];
        proof {
            assert(all.take(i + 1).drop_last() =~= all.take(i as int));
            assert(all.take(i + 1).last() == row@);
            assert(row@.spans.len() == row.spans@.len());
        }
        if row.spans.len() == 2 {
            assert(row@.spans[0].0 == row.spans@[0].0@);
            assert(row@.spans[1].0 == row.spans@[1].0@);
            let own: usize = text_width(row.spans[0].0.as_str()).saturating_add(
                text_width(row.spans[1].0.as_str()),
            );
            if own > most {
                most = own;
            }
        }
        i += 1;
    }
    assert(all.take(i as int) =~= all);
    most
}

/// Where the list is drawn, how far it is scrolled, and how far it can be.
#[derive(Clone, Copy, Debug, PartialEq, Eq, Structural)]
pub struct ListPlace {
    pub area: Rect,
    pub scroll: u16,
    pub length: usize,
}

/// The smaller of two coordinates.
pub open spec fn lesser(a: int, b: int) -> int {
    if a < b {
        a
    } else {
        b
    }
}

/// The place of the list: as wide as it needs to be, at most twenty rows high, in the
/// middle.
pub open spec fn list_area(columns: int, rows: int, area: Rect) -> Rect {
    let width = lesser(area.width as int, crate::view::clipped(columns + 2));
    let height = lesser(lesser(area.height as int, 20), crate::view::clipped(rows + 2));
    Rect {
        x: ((area.width - width) / 2) as u16,
        y: ((area.height - height) / 2) as u16,
        width: width as u16,
        height: height as u16,
    }
}

/// How the list stands: it cannot be scrolled beyond its end.
pub open spec fn list_place(columns: int, rows: int, area: Rect, scroll: u16) -> ListPlace {
    let place = list_area(columns, rows, area);
    let length = crate::view::floored(rows - place.inside().height);
    ListPlace {
        area: place,
        scroll: lesser(crate::view::clipped(length), scroll as int) as u16,
        length: length as usize,
    }
}

fn clip(n: usize, more: u16) -> (r: u16)
    ensures
        r == crate::view::clipped(n + more),
{
    if n > 0xffff {
        0xffff
    } else {
        (n as u16).saturating_add(more)
    }
}

fn place_list(columns: usize, rows: usize, area: Rect, scroll: u16) -> (r: ListPlace)
    ensures
        r == list_place(columns as int, rows as int, area, scroll),
{
    let wanted: u16 = clip(columns, 2);
    let width: u16 = if area.width < wanted {
        area.width
    } else {
        wanted
    };
    let tall: u16 = clip(rows, 2);
    let most: u16 = if area.height < 20 {
        area.height
    } else {
        20
    };
    let height: u16 = if most < tall {
        most
    } else {
        tall
    };
    let place = Rect {
        x: (area.width - width) / 2,
        y: (area.height - height) / 2,
        width,
        height,
    };
    let length: usize = rows.saturating_sub(place.block_inner().height as usize);
    let limit: u16 = clip(length, 0);
    ListPlace {
        area: place,
        scroll: if limit < scroll {
            limit
        } else {
            scroll
        },
        length,
    }
}

impl App {
    fn resolve_option(&self, name: &str) -> (r: ActionOption)
        requires
            self@.wf(),
        ensures
            r@ == self@.option_named(name@),
    {
        match self.get_action_from_string(name) {
            Some(action) => ActionOption::Recognized(action),
            None => ActionOption::Unrecognized(name.to_owned()),
        }
    }

    fn resolve_entry(&self, binding: &KeyBinding) -> (r: Entry)
        requires
            self@.wf(),
        ensures
            r@ == self@.entry(*binding),
    {
        let mut options: Vec<ActionOption> = Vec::new();
        let mut i: usize = 0;
        while i < binding.actions.len()
            invariant
                self@.wf(),
                i <= binding.actions@.len(),
                options@.len() == i,
                forall|j: int|
                    0 <= j < i ==> (#[trigger] options@[j])@ == self@.option_named(
                        binding.actions@[j]@,
                    ),
            decreases binding.actions@.len() - i,
        {
            options.push(self.resolve_option(binding.actions[i].as_str()));
            i += 1;
        }
        let r = Entry { label: binding.label.clone(), options };
        assert(r@.options =~= self@.entry(*binding).options);
        r
    }

    fn resolve_entries(&self) -> (r: Vec<Entry>)
        requires
            self@.wf(),
        ensures
            entries_of(r@) == self@.entries(),
    {
        let bindings = &self.keybinds.keybindings;
        let order = arrange(&ByFirstAction { bindings });
        let ghost all = self@.entries();
        let mut entries: Vec<Entry> = Vec::new();
        let mut i: usize = 0;
        while i < order.len()
            invariant
                self@.wf(),
                bindings == &self.keybinds.keybindings,
                order@ == crate::view::arrange::arranged(
                    by_first_action(bindings@),
                    bindings@.len() as int,
                ),
                all == self@.entries(),
                forall|j: int| 0 <= j < order@.len() ==> (#[trigger] order@[j]) < bindings@.len(),
                i <= order@.len(),
                entries@.len() == i,
                forall|j: int| 0 <= j < i ==> (#[trigger] entries@[j])@ == all[j],
            decreases order@.len() - i,
        {
            entries.push(self.resolve_entry(&bindings[order[i]]));
            i += 1;
        }
        assert(entries_of(entries@) =~= all);
        entries
    }

    /// The list of all combinations of keys, and where it stands. Nothing if a label
    /// is longer than can be counted.
    pub fn show_keybinds(&self, area: Rect, scroll: u16) -> (r: Option<(Vec<KeyRow>, ListPlace)>)
        requires
            self@.wf(),
        ensures
            ({
                let entries = self@.entries();
                match r {
                    Some((rows, place)) => {
                        &&& longest_label(entries) < usize::MAX
                        &&& rows_of(rows@) == list_of(entries)
                        &&& place == list_place(
                            list_columns(rows_of(rows@)),
                            rows@.len() as int,
                            area,
                            scroll,
                        )
                    },
                    None => longest_label(entries) == usize::MAX,
                }
            }),
    {
        let entries = self.resolve_entries();
        if measure_labels(&entries) == usize::MAX {
            return None;
        }
        let rows = make_list(&entries);
        let place = place_list(measure_rows(&rows), rows.len(), area, scroll);
        Some((rows, place))
    }
}

} // verus!
