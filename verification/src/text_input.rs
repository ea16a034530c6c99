//! The text the user types, and the history of what they sent.

use tui_input::Input;
use vstd::prelude::*;
use vstd::string::*;
use vstd::utf8::*;

use crate::foreign::{find_first, hex_decode, hex_encode_upper, valid_prefix};
use crate::input_box::{
    handle_key, input_value, new_input, reset_input, visual_cursor, visual_scroll, Cut,
};
use crate::keys::{KeyCode, KeyEvent};
use crate::text::{byte_len, byte_slice, eq_ignore_ascii_case, str_eq};
use crate::traits::LastIndex;

verus! {

/// Something that was sent: text, or bytes as the digits that were typed.
#[derive(Debug)]
pub enum HistoryEntry {
    Text(String),
    Bytes(String),
}

/// What a history entry holds.
#[verifier::ext_equal]
pub struct EntryView {
    pub bytes: bool,
    pub text: Seq<char>,
}

impl View for HistoryEntry {
    type V = EntryView;

    open spec fn view(&self) -> EntryView {
        match self {
            HistoryEntry::Text(text) => EntryView { bytes: false, text: text@ },
            HistoryEntry::Bytes(text) => EntryView { bytes: true, text: text@ },
        }
    }
}

/// What some history entries hold.
pub open spec fn entry_views(entries: Seq<HistoryEntry>) -> Seq<EntryView> {
    entries.map_values(|e: HistoryEntry| e@)
}

impl HistoryEntry {
    /// An entry of the given kind.
    pub fn new(entry: &str, bytes: bool) -> (r: HistoryEntry)
        ensures
            r@ == (EntryView { bytes, text: entry@ }),
    {
        if bytes {
            HistoryEntry::Bytes(entry.to_owned())
        } else {
            HistoryEntry::Text(entry.to_owned())
        }
    }

    /// Whether the entry is this text.
    pub fn eq_text(&self, other: &str) -> (r: bool)
        ensures
            r == (self@ == EntryView { bytes: false, text: other@ }),
    {
        match self {
            HistoryEntry::Text(text) => str_eq(text.as_str(), other),
            _ => false,
        }
    }

    /// Whether the entry is these bytes.
    pub fn eq_bytes(&self, other: &str) -> (r: bool)
        ensures
            r == (self@ == EntryView { bytes: true, text: other@ }),
    {
        match self {
            HistoryEntry::Bytes(bytes) => str_eq(bytes.as_str(), other),
            _ => false,
        }
    }

    /// Whether the entry holds bytes.
    pub fn is_bytes(&self) -> (r: bool)
        ensures
            r == self@.bytes,
    {
        match self {
            HistoryEntry::Bytes(_) => true,
            _ => false,
        }
    }

    /// The entry as it was typed.
    pub fn as_str(&self) -> (r: &str)
        ensures
            r@ == self@.text,
    {
        match self {
            HistoryEntry::Text(text) => text.as_str(),
            HistoryEntry::Bytes(bytes) => bytes.as_str(),
        }
    }

    /// A copy of the entry.
    pub fn as_ref(&self) -> (r: HistoryEntry)
        ensures
            r == *self,
    {
        match self {
            HistoryEntry::Text(text) => HistoryEntry::Text(text.clone()),
            HistoryEntry::Bytes(bytes) => HistoryEntry::Bytes(bytes.clone()),
        }
    }
}

/// What was sent, oldest first, and which entry is selected.
#[derive(Debug)]
pub struct History {
    selected: Option<usize>,
    inner: Vec<HistoryEntry>,
}

/// What a history holds.
#[verifier::ext_equal]
pub struct HistoryView {
    pub selected: Option<usize>,
    pub entries: Seq<EntryView>,
}

impl View for History {
    type V = HistoryView;

    closed spec fn view(&self) -> HistoryView {
        HistoryView { selected: self.selected, entries: entry_views(self.inner@) }
    }
}

/// No entry is empty or occurs twice, and the selection is one of them.
pub open spec fn history_wf(h: HistoryView) -> bool {
    &&& forall|i: int| 0 <= i < h.entries.len() ==> (#[trigger] h.entries[i]).text.len() > 0
    &&& h.entries.no_duplicates()
    &&& h.selected matches Some(i) ==> i < h.entries.len()
    &&& h.entries.len() <= usize::MAX
}

/// The history after an entry was added: it comes last, and only there. One that
/// can hold no more stays as it is.
pub open spec fn pushed(h: HistoryView, entry: EntryView) -> HistoryView {
    if entry.text.len() == 0 {
        h
    } else if h.entries.contains(entry) {
        HistoryView { entries: h.entries.remove(h.entries.index_of(entry)).push(entry), ..h }
    } else if h.entries.len() >= usize::MAX {
        h
    } else {
        HistoryView { entries: h.entries.push(entry), ..h }
    }
}

/// The selection after a step through the history.
pub open spec fn stepped(h: HistoryView, up: bool) -> Option<usize> {
    let last = h.entries.len() - 1;
    if h.entries.len() == 0 {
        h.selected
    } else if up {
        match h.selected {
            Some(i) => if i == 0 {
                Some(0)
            } else {
                Some((i - 1) as usize)
            },
            None => Some(last as usize),
        }
    } else {
        match h.selected {
            Some(i) => if i < last {
                Some((i + 1) as usize)
            } else {
                None
            },
            None => None,
        }
    }
}

/// The selected entry.
pub open spec fn selected_entry(h: HistoryView) -> Option<EntryView> {
    match h.selected {
        Some(i) => if i < h.entries.len() {
            Some(h.entries[i as int])
        } else {
            None
        },
        None => None,
    }
}

impl History {
    /// An empty history.
    pub fn new() -> (r: History)
        ensures
            r@ == (HistoryView { selected: None, entries: Seq::empty() }),
            history_wf(r@),
    {
        let r = History { selected: None, inner: Vec::new() };
        assert(entry_views(r.inner@) =~= Seq::empty());
        r
    }

    /// The position of an entry.
    fn position(&self, entry: &str, bytes: bool) -> (r: Option<usize>)
        requires
            history_wf(self@),
        ensures
            ({
                let wanted = EntryView { bytes, text: entry@ };
                match r {
                    Some(i) => self@.entries.contains(wanted) && i == self@.entries.index_of(wanted)
                        && i < self@.entries.len(),
                    None => !self@.entries.contains(wanted),
                }
            }),
    {
        let ghost wanted = EntryView { bytes, text: entry@ };
        let mut i: usize = 0;
        while i < self.inner.len()
            invariant
                history_wf(self@),
                wanted == (EntryView { bytes, text: entry@ }),
                i <= self.inner.len(),
                forall|j: int| 0 <= j < i ==> self@.entries[j] != wanted,
            decreases self.inner.len() - i,
        {
            let same = if bytes {
                self.inner[i].eq_bytes(entry)
            } else {
                self.inner[i].eq_text(entry)
            };
            assert(self@.entries[i as int] == self.inner@[i as int]@);
            if same {
                assert(self@.entries[i as int] == wanted);
                assert(self@.entries.contains(wanted));
                return Some(i);
            }
            i += 1;
        }
        None
    }

    /// Adds an entry. One that is already there moves to the end.
    ///
    /// Bytes are kept as the digits that were typed.
    pub fn push(&mut self, entry: &str, bytes: bool)
        requires
            history_wf(old(self)@),
        ensures
            final(self)@ == pushed(old(self)@, EntryView { bytes, text: entry@ }),
            history_wf(final(self)@),
    {
        let ghost wanted = EntryView { bytes, text: entry@ };
        let ghost before = self@;
        if entry.is_empty() {
            return;
        }
        proof {
            if before.entries.len() < usize::MAX {
                law_push_keeps_history_valid(before, wanted);
            } else if before.entries.contains(wanted) {
                lemma_moved_history_is_valid(before, wanted);
            }
        }
        assert(self.inner.len() == self@.entries.len());
        match self.position(entry, bytes) {
            Some(index) => {
                let existing = self.inner.remove(index);
                assert(before.entries[index as int] == existing@);
                self.inner.push(existing);
                assert(entry_views(self.inner@) =~= before.entries.remove(index as int).push(
                    wanted,
                ));
            },
            None => {
                if self.inner.len() == usize::MAX {
                    return;
                }
                self.inner.push(HistoryEntry::new(entry, bytes));
                assert(entry_views(self.inner@) =~= before.entries.push(wanted));
            },
        }
    }

    /// The selected entry.
    pub fn get_selected(&self) -> (r: Option<HistoryEntry>)
        ensures
            r is Some <==> selected_entry(self@) is Some,
            r matches Some(e) ==> e@ == selected_entry(self@)->0,
    {
        match self.selected {
            Some(index) => if index < self.inner.len() {
                assert(self@.entries[index as int] == self.inner@[index as int]@);
                Some(self.inner[index].as_ref())
            } else {
                None
            },
            None => None,
        }
    }

    /// Selects nothing.
    pub fn clear_selection(&mut self)
        ensures
            final(self)@ == (HistoryView { selected: None, ..old(self)@ }),
    {
        self.selected = None;
    }

    /// Selects an entry, or nothing.
    fn select(&mut self, index: Option<usize>)
        ensures
            final(self)@ == (HistoryView { selected: index, ..old(self)@ }),
    {
        self.selected = index;
    }

    /// Steps through the history and returns what is selected then. Up goes to
    /// older entries and stops at the oldest; down leaves the history behind the
    /// newest.
    pub fn scroll(&mut self, up: bool) -> (r: Option<HistoryEntry>)
        requires
            history_wf(old(self)@),
        ensures
            final(self)@ == (HistoryView { selected: stepped(old(self)@, up), ..old(self)@ }),
            history_wf(final(self)@),
            old(self)@.entries.len() == 0 ==> r is None,
            r is Some <==> selected_entry(final(self)@) is Some,
            r matches Some(e) ==> e@ == selected_entry(final(self)@)->0,
    {
        if self.inner.len() == 0 {
            return None;
        }
        let last: usize = self.inner.as_slice().last_index();
        if up {
            match self.selected {
                Some(0) => (),
                Some(x) => {
                    self.selected = Some(x - 1);
                },
                None => {
                    self.selected = Some(last);
                },
            }
        } else {
            match self.selected {
                Some(x) => {
                    if x < last {
                        self.selected = Some(x + 1);
                    } else {
                        self.clear_selection();
                    }
                },
                None => (),
            }
        }
        self.get_selected()
    }
}

proof fn lemma_moved_history_is_valid(h: HistoryView, entry: EntryView)
    requires
        history_wf(h),
        h.entries.contains(entry),
    ensures
        history_wf(
            HistoryView { entries: h.entries.remove(h.entries.index_of(entry)).push(entry), ..h },
        ),
{
    let p = h.entries.index_of(entry);
    let cut = h.entries.remove(p);
    let new = cut.push(entry);
    assert(h.entries[p] == entry);
    assert forall|i: int| 0 <= i < cut.len() implies #[trigger] cut[i] != entry
        && cut[i].text.len() > 0 by {
        if i < p {
            assert(cut[i] == h.entries[i]);
        } else {
            assert(cut[i] == h.entries[i + 1]);
        }
    }
    assert forall|i: int, j: int| 0 <= i < cut.len() && 0 <= j < cut.len() && i != j implies cut[i]
        != cut[j] by {
        let a = if i < p {
            i
        } else {
            i + 1
        };
        let b = if j < p {
            j
        } else {
            j + 1
        };
        assert(cut[i] == h.entries[a] && cut[j] == h.entries[b]);
    }
}

/// Adding to a history keeps it free of empty and repeated entries, and keeps
/// every other entry.
pub proof fn law_push_keeps_history_valid(h: HistoryView, entry: EntryView)
    requires
        history_wf(h),
        h.entries.len() < usize::MAX,
    ensures
        history_wf(pushed(h, entry)),
        entry.text.len() > 0 ==> pushed(h, entry).entries.len() > 0 && pushed(h, entry).entries.last()
            == entry,
        forall|e: EntryView| h.entries.contains(e) ==> #[trigger] pushed(h, entry).entries.contains(e),
{
    let new = pushed(h, entry).entries;
    if entry.text.len() == 0 {
    } else if h.entries.contains(entry) {
        let p = h.entries.index_of(entry);
        lemma_moved_history_is_valid(h, entry);
        assert forall|e: EntryView| h.entries.contains(e) implies #[trigger] new.contains(e) by {
            let i = choose|i: int| 0 <= i < h.entries.len() && h.entries[i] == e;
            if i < p {
                assert(new[i] == e);
            } else if i == p {
                assert(new[new.len() - 1] == e);
            } else {
                assert(new[i - 1] == e);
            }
        }
    } else {
        assert forall|i: int| 0 <= i < h.entries.len() implies #[trigger] h.entries[i] != entry by {
            assert(h.entries.contains(h.entries[i]));
        }
        assert forall|e: EntryView| h.entries.contains(e) implies #[trigger] new.contains(e) by {
            let i = choose|i: int| 0 <= i < h.entries.len() && h.entries[i] == e;
            assert(new[i] == e);
        }
    }
}


/// The input box of the terminal.
pub struct TextInput {
    input_box: Input,
    bytes_input: bool,
    pub all_text_selected: bool,
    history: History,
    /// What the user had typed when they started to go through the history.
    preserved_input: Option<HistoryEntry>,
    search_result: Option<usize>,
}

/// What the input box of the terminal holds.
#[verifier::ext_equal]
pub struct TextInputView {
    pub text: Seq<char>,
    pub cursor: nat,
    pub cut: Cut,
    pub bytes_input: bool,
    pub all_text_selected: bool,
    pub history: HistoryView,
    pub preserved: Option<EntryView>,
    pub search_result: Option<usize>,
}

/// What an optional entry holds.
pub open spec fn entry_option(e: Option<HistoryEntry>) -> Option<EntryView> {
    match e {
        Some(e) => Some(e@),
        None => None,
    }
}

impl View for TextInput {
    type V = TextInputView;

    closed spec fn view(&self) -> TextInputView {
        TextInputView {
            text: crate::input_box::input_text(self.input_box),
            cursor: crate::input_box::input_cursor(self.input_box),
            cut: crate::input_box::input_cut(self.input_box),
            bytes_input: self.bytes_input,
            all_text_selected: self.all_text_selected,
            history: self.history@,
            preserved: entry_option(self.preserved_input),
            search_result: self.search_result,
        }
    }
}

impl TextInputView {
    /// The history is valid, a search result is one of its entries, and one
    /// never comes with an empty box.
    pub open spec fn wf(self) -> bool {
        &&& history_wf(self.history)
        &&& self.search_result matches Some(i) ==> i < self.history.entries.len()
            && self.text.len() > 0
        &&& self.cursor <= self.text.len()
    }

    /// With nothing selected from the history.
    pub open spec fn unselected(self) -> TextInputView {
        TextInputView {
            all_text_selected: false,
            history: HistoryView { selected: None, ..self.history },
            preserved: None,
            search_result: None,
            ..self
        }
    }

    /// With another text, and the cursor behind it.
    pub open spec fn with_text(self, text: Seq<char>) -> TextInputView {
        TextInputView { text, cursor: text.len(), cut: Cut::nothing(), ..self }
    }

    /// With an empty box; what was cut stays.
    pub open spec fn cleared(self) -> TextInputView {
        TextInputView { text: Seq::empty(), cursor: 0, ..self.unselected() }
    }

    /// With a text in place of what was typed.
    pub open spec fn replaced_with_text(self, text: Seq<char>) -> TextInputView {
        TextInputView { bytes_input: false, ..self.unselected().with_text(text) }
    }

    /// With the digits of some bytes in place of what was typed.
    pub open spec fn replaced_with_bytes(self, bytes: Seq<u8>) -> TextInputView {
        TextInputView {
            bytes_input: true,
            ..self.with_text(crate::foreign::hex_encoded(bytes))
        }
    }

    /// What is in the box, as a history entry.
    pub open spec fn as_entry(self) -> EntryView {
        EntryView { bytes: self.bytes_input, text: self.text }
    }

    /// What the user typed themselves.
    pub open spec fn own_input(self) -> EntryView {
        match self.preserved {
            Some(e) => e,
            None => self.as_entry(),
        }
    }

    /// With an entry in the box.
    pub open spec fn with_entry(self, entry: EntryView) -> TextInputView {
        TextInputView { bytes_input: entry.bytes, ..self.with_text(entry.text) }
    }

    /// After a step through the history.
    pub open spec fn scrolled(self, up: bool) -> TextInputView {
        let start = if self.history.selected is None {
            HistoryView { selected: self.search_result, ..self.history }
        } else {
            self.history
        };
        let after = TextInputView {
            history: HistoryView { selected: stepped(start, up), ..start },
            ..self
        };
        match selected_entry(after.history) {
            Some(entry) => TextInputView {
                preserved: Some(self.own_input()),
                ..after.with_entry(entry)
            },
            None => match self.preserved {
                Some(own) => TextInputView {
                    preserved: None,
                    search_result: None,
                    ..after.with_entry(own)
                },
                None => after,
            },
        }
    }

    /// After the text was added to the history.
    pub open spec fn committed(self) -> TextInputView {
        TextInputView { history: pushed(self.history, self.as_entry()), ..self }.cleared()
    }

    /// After some text was added at the end.
    pub open spec fn appended(self, text: Seq<char>) -> TextInputView {
        self.unselected().with_text(self.text + text)
    }

    /// Whether an entry starts with what was typed, up to the case of ASCII letters.
    pub open spec fn matches_query(entry: EntryView, query: EntryView) -> bool {
        let bytes = encode_utf8(entry.text);
        let len = encode_utf8(query.text).len() as int;
        &&& entry.bytes == query.bytes
        &&& is_char_boundary(bytes, len)
        &&& bytes.take(len).map_values(|b: u8| crate::text::ascii_lower(b)) == encode_utf8(
            query.text,
        ).map_values(|b: u8| crate::text::ascii_lower(b))
    }

    /// The newest of the first `n` entries that starts with what was typed.
    pub open spec fn newest_match(entries: Seq<EntryView>, n: int, query: EntryView) -> Option<int>
        decreases n,
    {
        if n <= 0 {
            None
        } else if Self::matches_query(entries[n - 1], query) {
            Some(n - 1)
        } else {
            Self::newest_match(entries, n - 1, query)
        }
    }

    /// After looking for the next older entry that starts with what was typed.
    pub open spec fn searched(self) -> TextInputView {
        let end = match self.search_result {
            Some(i) => i as int,
            None => self.history.entries.len() as int,
        };
        if self.text.len() == 0 {
            self
        } else {
            match Self::newest_match(self.history.entries, end, self.own_input()) {
                Some(i) => TextInputView {
                    preserved: Some(self.own_input()),
                    search_result: Some(i as usize),
                    history: HistoryView { selected: Some(i as usize), ..self.history },
                    ..self.with_text(self.history.entries[i].text)
                },
                None => self,
            }
        }
    }

    /// The digits in the box without the last one, if their number is odd.
    pub open spec fn whole_digits(self) -> Seq<u8> {
        let bytes = encode_utf8(self.text);
        bytes.take(bytes.len() - bytes.len() % 2)
    }
}

impl TextInputView {
    /// Whether the last digit can be told from the rest.
    pub open spec fn can_toggle(self) -> bool {
        self.bytes_input && encode_utf8(self.text).len() % 2 == 1 ==> is_char_boundary(
            encode_utf8(self.text),
            encode_utf8(self.text).len() - 1,
        )
    }

    /// After a switch between text and bytes: what was typed is written in the other
    /// way, as far as it can be.
    pub open spec fn toggled(self) -> TextInputView {
        let off = TextInputView { bytes_input: false, ..self };
        let digits = self.whole_digits();
        if !self.bytes_input {
            self.replaced_with_bytes(encode_utf8(self.text))
        } else if !crate::foreign::is_hex(digits) || digits.len() == 0 {
            off.cleared()
        } else {
            off.replaced_with_text(longest_valid(crate::foreign::hex_decoded(digits)))
        }
    }

    /// Whether the last byte can be told from the rest.
    pub open spec fn can_remove_word(self) -> bool {
        self.bytes_input ==> encode_utf8(self.text).len() > 0 && is_char_boundary(
            encode_utf8(self.text),
            shorter_by_a_byte(encode_utf8(self.text).len() as int),
        )
    }

    /// Without the last word, or without the last byte.
    pub open spec fn word_removed(self) -> TextInputView {
        let before = self.unselected();
        if before.bytes_input {
            before.with_text(
                decode_utf8(
                    encode_utf8(before.text).take(
                        shorter_by_a_byte(encode_utf8(before.text).len() as int),
                    ),
                ),
            )
        } else {
            match crate::foreign::last_word(before.text) {
                Some(start) => before.with_text(before.text.take(start)),
                None => before.cleared(),
            }
        }
    }
}

/// The longest text that some bytes start with.
pub open spec fn longest_valid(bytes: Seq<u8>) -> Seq<char> {
    choose|text: Seq<char>| longest_text(text, bytes)
}

pub proof fn lemma_longest_is_unique(a: Seq<char>, bytes: Seq<u8>)
    requires
        longest_text(a, bytes),
    ensures
        a == longest_valid(bytes),
{
    let b = longest_valid(bytes);
    assert(longest_text(b, bytes));
    let (x, y) = (encode_utf8(a), encode_utf8(b));
    assert(x =~= bytes.take(x.len() as int));
    assert(y =~= bytes.take(y.len() as int));
    encode_utf8_valid_utf8(a);
    encode_utf8_valid_utf8(b);
    assert(x.len() == y.len());
    crate::text::lemma_encoding_is_injective(a, b);
}

/// Whether `text` is the longest valid UTF-8 that some bytes start with.
pub open spec fn longest_text(text: Seq<char>, bytes: Seq<u8>) -> bool {
    &&& encode_utf8(text).is_prefix_of(bytes)
    &&& forall|n: int|
        encode_utf8(text).len() < n <= bytes.len() ==> !valid_utf8(#[trigger] bytes.take(n))
}

impl TextInput {
    /// An empty input box with an empty history.
    pub fn new() -> (r: TextInput)
        ensures
            r@ == (TextInputView {
                text: Seq::empty(),
                cursor: 0,
                cut: Cut::nothing(),
                bytes_input: false,
                all_text_selected: false,
                history: HistoryView { selected: None, entries: Seq::empty() },
                preserved: None,
                search_result: None,
            }),
            r@.wf(),
    {
        TextInput {
            input_box: new_input(String::new()),
            bytes_input: false,
            all_text_selected: false,
            history: History::new(),
            preserved_input: None,
            search_result: None,
        }
    }

    /// Empties the box; the history stays.
    pub fn clear(&mut self)
        ensures
            final(self)@ == old(self)@.cleared(),
            old(self)@.wf() ==> final(self)@.wf(),
    {
        reset_input(&mut self.input_box);
        self.clear_history_selection();
        self.preserved_input = None;
        self.all_text_selected = false;
    }

    /// Steps through the history, with what was typed put aside. Behind the
    /// newest entry it comes back.
    pub fn scroll_history(&mut self, up: bool)
        requires
            old(self)@.wf(),
        ensures
            final(self)@ == old(self)@.scrolled(up),
            final(self)@.wf(),
    {
        if self.history.selected.is_none() && self.search_result.is_some() {
            self.history.select(self.search_result);
        }
        let entry = self.history.scroll(up);
        if entry.is_some() && self.preserved_input.is_none() {
            self.preserved_input = Some(
                HistoryEntry::new(input_value(&self.input_box), self.bytes_input),
            );
        }
        match entry {
            Some(entry) => {
                self.bytes_input = entry.is_bytes();
                self.input_box = new_input(entry.as_str().to_owned());
            },
            None => {
                match self.preserved_input.take() {
                    Some(preserved) => {
                        self.search_result = None;
                        self.bytes_input = preserved.is_bytes();
                        self.input_box = new_input(preserved.as_str().to_owned());
                    },
                    None => (),
                }
            },
        }
    }

    /// Looks for an entry of the same kind, from the newest on, that starts with
    /// what was typed; a second time, for the next older one.
    pub fn find_input_in_history(&mut self)
        requires
            old(self)@.wf(),
        ensures
            final(self)@ == old(self)@.searched(),
            final(self)@.wf(),
    {
        if input_value(&self.input_box).is_empty() {
            return;
        }
        let end: usize = match self.search_result {
            Some(i) => i,
            None => self.history.inner.len(),
        };
        let query = match &self.preserved_input {
            Some(own) => own.as_ref(),
            None => HistoryEntry::new(input_value(&self.input_box), self.bytes_input),
        };
        assert(query@ == self@.own_input());
        assert(end as int == match self@.search_result {
            Some(i) => i as int,
            None => self@.history.entries.len() as int,
        });
        let mut n: usize = end;
        while n > 0
            invariant_except_break
                self@ == old(self)@,
                self@.wf(),
                query@ == self@.own_input(),
                self@.text.len() > 0,
                n <= end <= self@.history.entries.len(),
                TextInputView::newest_match(self@.history.entries, end as int, query@)
                    == TextInputView::newest_match(self@.history.entries, n as int, query@),
            ensures
                self@ == old(self)@,
                self@.wf(),
                query@ == self@.own_input(),
                self@.text.len() > 0,
                n <= end,
                match TextInputView::newest_match(self@.history.entries, end as int, query@) {
                    Some(i) => n == i + 1,
                    None => n == 0,
                },
            decreases n,
        {
            let entry = &self.history.inner[n - 1];
            assert(self@.history.entries[n - 1] == entry@);
            if entry_starts_with(entry, &query) {
                break;
            }
            n -= 1;
        }
        if n > 0 {
            if self.preserved_input.is_none() {
                self.preserved_input = Some(
                    HistoryEntry::new(input_value(&self.input_box), self.bytes_input),
                );
            }
            let found = self.history.inner[n - 1].as_ref();
            assert(self@.history.entries[n - 1] == found@);
            self.search_result = Some(n - 1);
            self.history.select(Some(n - 1));
            self.input_box = new_input(found.as_str().to_owned());
            assert(self@ =~= old(self)@.searched());
        } else {
            proof {
                lemma_newest_match(self@.history.entries, end as int, query@);
            }
        }
    }

    /// The digits in the box, one byte at a time.
    pub fn entered_bytes(&self) -> (r: Vec<&str>)
        requires
            self@.bytes_input,
            is_ascii_chars(self@.text),
        ensures
            r@.len() == (self@.text.len() + 1) / 2,
            forall|i: int|
                0 <= i < r@.len() ==> (#[trigger] r@[i])@ == self@.text.subrange(
                    2 * i,
                    if 2 * i + 2 <= self@.text.len() {
                        2 * i + 2
                    } else {
                        self@.text.len() as int
                    },
                ),
    {
        let value = input_value(&self.input_box);
        let len: usize = value.unicode_len();
        let mut chunks: Vec<&str> = Vec::new();
        let mut at: usize = 0;
        while at < len
            invariant
                value@ == self@.text,
                len == value@.len(),
                value.is_ascii(),
                at == 2 * chunks@.len() || (at == len && at + 1 == 2 * chunks@.len()),
                at <= len,
                forall|i: int|
                    0 <= i < chunks@.len() ==> (#[trigger] chunks@[i])@ == value@.subrange(
                        2 * i,
                        if 2 * i + 2 <= value@.len() {
                            2 * i + 2
                        } else {
                            value@.len() as int
                        },
                    ),
            decreases len - at,
        {
            let end: usize = if len - at >= 2 {
                at + 2
            } else {
                len
            };
            chunks.push(value.substring_ascii(at, end));
            at = end;
        }
        chunks
    }

    /// Switches between typing text and typing bytes, and translates what is in
    /// the box.
    ///
    /// Text becomes its digits. Digits become the text they start with; if they
    /// are not digits, or none, the box is emptied.
    pub fn toggle_bytes_entry(&mut self)
        requires
            old(self)@.wf(),
            old(self)@.can_toggle(),
        ensures
            final(self)@ == old(self)@.toggled(),
            final(self)@.wf(),
    {
        self.bytes_input = !self.bytes_input;
        if self.bytes_input {
            let mut input_bytes: Vec<u8> = Vec::new();
            input_bytes.extend_from_slice(input_value(&self.input_box).as_bytes());
            assert(input_bytes@ =~= encode_utf8(old(self)@.text));
            proof {
                lemma_empty_encoding(old(self)@.text);
            }
            self.replace_input_with_bytes(input_bytes.as_slice());
        } else {
            let value = input_value(&self.input_box);
            let len: usize = byte_len(value);
            proof {
                encode_utf8_valid_utf8(value@);
                is_char_boundary_start_end_of_seq(value.spec_bytes());
            }
            let even = byte_slice(value, 0, len - len % 2);
            assert(even.spec_bytes() =~= old(self)@.whole_digits());
            match hex_decode(even) {
                Ok(bytes) => {
                    match valid_prefix(bytes.as_slice()) {
                        Some(text) => {
                            proof {
                                lemma_longest_is_unique(text@, bytes@);
                            }
                            self.replace_input_with_text(text.as_str());
                        },
                        None => {
                            self.clear();
                        },
                    }
                },
                Err(_) => {
                    self.clear();
                },
            }
        }
    }

    /// Whether the last digit can be told from the rest. It cannot where something
    /// other than digits was put between them.
    pub fn toggle_possible(&self) -> (r: bool)
        ensures
            r == self@.can_toggle(),
    {
        let value = input_value(&self.input_box);
        let len: usize = byte_len(value);
        !self.bytes_input || len % 2 == 0 || value.is_char_boundary(len - 1)
    }

    /// Whether the last byte can be told from the rest.
    pub fn word_removal_possible(&self) -> (r: bool)
        ensures
            r == self@.can_remove_word(),
    {
        let value = input_value(&self.input_box);
        let len: usize = byte_len(value);
        if !self.bytes_input {
            return true;
        }
        if len == 0 {
            return false;
        }
        let kept: usize = if len % 2 == 0 {
            len - 2
        } else {
            len - 1
        };
        value.is_char_boundary(kept)
    }

    /// Whether bytes are being typed.
    pub fn byte_entry_active(&self) -> (r: bool)
        ensures
            r == self@.bytes_input,
    {
        self.bytes_input
    }

    /// Forgets the selection and what was put aside for it.
    pub fn clear_history_selection(&mut self)
        ensures
            final(self)@ == old(self)@.unselected(),
            old(self)@.wf() ==> final(self)@.wf(),
    {
        self.history.clear_selection();
        self.preserved_input = None;
        self.search_result = None;
        self.all_text_selected = false;
    }

    /// Puts a text into the box.
    pub fn replace_input_with_text(&mut self, text: &str)
        ensures
            final(self)@ == old(self)@.replaced_with_text(text@),
            old(self)@.wf() ==> final(self)@.wf(),
    {
        self.clear_history_selection();
        self.input_box = new_input(text.to_owned());
        self.bytes_input = false;
    }

    /// Puts the digits of some bytes into the box.
    pub fn replace_input_with_bytes(&mut self, bytes: &[u8])
        ensures
            final(self)@ == old(self)@.replaced_with_bytes(bytes@),
            old(self)@.wf() && (bytes@.len() > 0 || old(self)@.search_result is None)
                ==> final(self)@.wf(),
    {
        let hex = hex_encode_upper(bytes);
        self.input_box = new_input(hex);
        self.bytes_input = true;
    }

    /// Adds a text at the end.
    pub fn append_to_input(&mut self, text: &str)
        ensures
            final(self)@ == old(self)@.appended(text@),
            old(self)@.wf() ==> final(self)@.wf(),
    {
        self.clear_history_selection();
        let mut joined = input_value(&self.input_box).to_owned();
        joined.append(text);
        self.input_box = new_input(joined);
    }

    /// Lets a key act on the box. While bytes are typed, only hexadecimal digits
    /// are, in upper case.
    pub fn consume_typing_event(&mut self, key: KeyEvent)
        requires
            old(self)@.wf(),
        ensures
            match accepted_key(key, old(self)@.bytes_input) {
                None => final(self)@ == old(self)@,
                Some(key) => final(self)@ == typed(old(self)@, key) && typing_effect(
                    old(self)@,
                    key,
                ),
            },
            final(self)@.wf(),
    {
        let mut key = key;
        if self.bytes_input {
            match key.code {
                KeyCode::Char(c) => {
                    match hex_digit(c) {
                        Some(upper) => {
                            key = KeyEvent { code: KeyCode::Char(upper), modifiers: key.modifiers };
                        },
                        None => {
                            return ;
                        },
                    }
                },
                _ => (),
            }
        }
        assert(accepted_key(key, old(self)@.bytes_input) == Some(key));
        let changed = handle_key(&mut self.input_box, key);
        match changed {
            Some((true, _)) => {
                self.clear_history_selection();
            },
            Some((false, true)) => {
                self.all_text_selected = false;
            },
            _ => (),
        }
    }

    /// Takes the last word off, with the space behind it; while bytes are typed,
    /// the last byte.
    pub fn remove_one_word(&mut self)
        requires
            old(self)@.wf(),
            old(self)@.can_remove_word(),
        ensures
            final(self)@ == old(self)@.word_removed(),
            final(self)@.wf(),
    {
        self.clear_history_selection();
        let value = input_value(&self.input_box);
        let value_len: usize = byte_len(value);
        proof {
            encode_utf8_valid_utf8(value@);
            is_char_boundary_start_end_of_seq(value.spec_bytes());
        }
        if self.bytes_input {
            let remove_amount: usize = if value_len % 2 == 0 {
                2
            } else {
                1
            };
            let shorter = byte_slice(value, 0, value_len - remove_amount).to_owned();
            proof {
                let kept = shorter_by_a_byte(value_len as int);
                assert(encode_utf8(shorter@) =~= encode_utf8(value@).take(kept));
                encode_utf8_decode_utf8(shorter@);
            }
            self.input_box = new_input(shorter);
        } else {
            match find_first("\\S+(?:\\s+)?$", value) {
                Some(start) => {
                    let shorter = byte_slice(value, 0, start).to_owned();
                    proof {
                        let n = crate::foreign::last_word(value@)->0;
                        lemma_last_word_bounds(value@);
                        lemma_take_encoding(value@, n);
                        assert(encode_utf8(shorter@) =~= encode_utf8(value@.take(n)));
                        crate::text::lemma_encoding_is_injective(shorter@, value@.take(n));
                    }
                    self.input_box = new_input(shorter);
                },
                None => {
                    self.clear();
                },
            }
        }
    }

    /// Marks the whole text, or not.
    pub fn select_all(&mut self, selected: bool)
        ensures
            final(self)@ == (TextInputView { all_text_selected: selected, ..old(self)@ }),
            old(self)@.wf() ==> final(self)@.wf(),
    {
        self.all_text_selected = selected;
    }

    /// Whether the whole text is marked.
    pub fn all_selected(&self) -> (r: bool)
        ensures
            r == self@.all_text_selected,
    {
        self.all_text_selected
    }

    /// The text in the box.
    pub fn value(&self) -> (r: &str)
        ensures
            r@ == self@.text,
    {
        input_value(&self.input_box)
    }

    /// The box itself.
    pub fn input_box(&self) -> (r: &Input)
        ensures
            crate::input_box::input_text(*r) == self@.text,
            crate::input_box::input_cursor(*r) == self@.cursor,
            crate::input_box::input_cut(*r) == self@.cut,
    {
        &self.input_box
    }

    /// The column of the cursor, and how many columns are scrolled out of a box
    /// of the given width.
    pub fn cursor_and_scroll(&self, width: usize) -> (r: (usize, usize))
        ensures
            r.0 == crate::input_box::cursor_column(self@.text, self@.cursor),
            r.1 == crate::input_box::hidden_columns(self@.text, self@.cursor, width),
    {
        (visual_cursor(&self.input_box), visual_scroll(&self.input_box, width))
    }

    /// Adds what is in the box to the history, and empties the box.
    pub fn commit_input_to_history(&mut self)
        requires
            old(self)@.wf(),
        ensures
            final(self)@ == old(self)@.committed(),
            final(self)@.wf(),
    {
        let value = input_value(&self.input_box);
        self.history.push(value, self.bytes_input);
        self.clear();
    }
}

/// The number of bytes without the last byte's digits, or digit.
pub open spec fn shorter_by_a_byte(len: int) -> int {
    len - (if len % 2 == 0 {
        2int
    } else {
        1int
    })
}

/// The upper-case form of a hexadecimal digit; `None` for any other character.
pub open spec fn upper_hex(c: char) -> Option<char> {
    let v = c as u32;
    if 0x30 <= v <= 0x39 || 0x41 <= v <= 0x46 {
        Some(c)
    } else if 0x61 <= v <= 0x66 {
        Some((v - 32) as char)
    } else {
        None
    }
}

/// The key that acts on the box: while bytes are typed, characters other than
/// hexadecimal digits do nothing.
pub open spec fn accepted_key(key: KeyEvent, bytes_input: bool) -> Option<KeyEvent> {
    match key.code {
        KeyCode::Char(c) => if bytes_input {
            match upper_hex(c) {
                Some(upper) => Some(
                    KeyEvent { code: KeyCode::Char(upper), modifiers: key.modifiers },
                ),
                None => None,
            }
        } else {
            Some(key)
        },
        _ => Some(key),
    }
}

/// What a key does to the box: an edit drops the selection from the history, and
/// a move of the cursor the selection of the text.
pub open spec fn typed(before: TextInputView, key: KeyEvent) -> TextInputView {
    let new = crate::input_box::edited(key, before.text, before.cursor, before.cut);
    let edited = TextInputView { text: new.text, cursor: new.cursor, cut: new.cut, ..before };
    match new.changed {
        Some((true, _)) => edited.unselected(),
        Some((false, true)) => TextInputView { all_text_selected: false, ..edited },
        _ => edited,
    }
}

/// What is known of what a key does to the box.
pub open spec fn typing_effect(before: TextInputView, key: KeyEvent) -> bool {
    crate::input_box::key_effect(
        key,
        before.text,
        before.cursor,
        crate::input_box::edited(key, before.text, before.cursor, before.cut),
    )
}

fn hex_digit(c: char) -> (r: Option<char>)
    ensures
        r == upper_hex(c),
{
    let v: u32 = c as u32;
    if (0x30 <= v && v <= 0x39) || (0x41 <= v && v <= 0x46) {
        Some(c)
    } else if 0x61 <= v && v <= 0x66 {
        Some(((v - 32) as u8) as char)
    } else {
        None
    }
}

fn entry_starts_with(entry: &HistoryEntry, query: &HistoryEntry) -> (r: bool)
    ensures
        r == TextInputView::matches_query(entry@, query@),
{
    if entry.is_bytes() != query.is_bytes() {
        return false;
    }
    let text = entry.as_str();
    let wanted = query.as_str();
    let len: usize = byte_len(wanted);
    if !text.is_char_boundary(len) {
        return false;
    }
    proof {
        encode_utf8_valid_utf8(text@);
        is_char_boundary_start_end_of_seq(text.spec_bytes());
        lemma_boundary_in_range(text.spec_bytes(), len as int);
    }
    let start = byte_slice(text, 0, len);
    assert(start.spec_bytes() =~= text.spec_bytes().take(len as int));
    eq_ignore_ascii_case(start, wanted)
}

proof fn lemma_boundary_in_range(bytes: Seq<u8>, index: int)
    requires
        is_char_boundary(bytes, index),
        valid_utf8(bytes),
    ensures
        0 <= index <= bytes.len(),
{
    reveal(is_char_boundary);
}

proof fn lemma_empty_encoding(text: Seq<char>)
    ensures
        encode_utf8(text).len() == 0 <==> text.len() == 0,
{
    if text.len() > 0 {
        encode_utf8_first_scalar(text);
        char_is_scalar(text[0]);
        assert(encode_utf8(text) =~= encode_scalar(text[0] as u32) + encode_utf8(
            text.drop_first(),
        ));
        assert(encode_scalar(text[0] as u32).len() > 0);
    }
}

proof fn lemma_take_encoding(text: Seq<char>, n: int)
    requires
        0 <= n <= text.len(),
    ensures
        encode_utf8(text.take(n)) == encode_utf8(text).take(encode_utf8(text.take(n)).len() as int),
        encode_utf8(text.take(n)).len() <= encode_utf8(text).len(),
{
    crate::text::lemma_encoding_of_concat(text.take(n), text.skip(n));
    assert(text.take(n) + text.skip(n) =~= text);
    assert(encode_utf8(text.take(n)) =~= encode_utf8(text).take(
        encode_utf8(text.take(n)).len() as int,
    ));
}

proof fn lemma_run_bounds(s: Seq<char>)
    ensures
        0 <= crate::foreign::last_run(s) <= s.len(),
        0 <= crate::text::past_last_visible(s) <= s.len(),
    decreases s.len(),
{
    if s.len() > 0 {
        lemma_run_bounds(s.drop_last());
    }
}

proof fn lemma_last_word_bounds(s: Seq<char>)
    ensures
        crate::foreign::last_word(s) matches Some(start) ==> 0 <= start <= s.len(),
{
    lemma_run_bounds(s);
    lemma_run_bounds(s.take(crate::text::past_last_visible(s)));
}

/// After `n` steps through the history in one direction.
pub open spec fn scrolled_steps(v: TextInputView, up: bool, n: nat) -> TextInputView
    decreases n,
{
    if n == 0 {
        v
    } else {
        scrolled_steps(v, up, (n - 1) as nat).scrolled(up)
    }
}

proof fn lemma_first_step(v: TextInputView, up: bool, n: nat)
    requires
        n > 0,
    ensures
        scrolled_steps(v, up, n) == scrolled_steps(v.scrolled(up), up, (n - 1) as nat),
    decreases n,
{
    if n > 1 {
        lemma_first_step(v, up, (n - 1) as nat);
    } else {
        assert(scrolled_steps(v, up, 0) == v);
        assert(scrolled_steps(v.scrolled(up), up, 0) == v.scrolled(up));
    }
}

proof fn lemma_steps_up(v: TextInputView, n: nat)
    requires
        v.wf(),
        v.history.selected is None,
        v.search_result is None,
        v.preserved is None,
        v.history.entries.len() > 0,
        n > 0,
    ensures
        ({
            let u = scrolled_steps(v, true, n);
            &&& u.history.entries == v.history.entries
            &&& u.history.selected == Some(
                (if n < v.history.entries.len() {
                    v.history.entries.len() - n
                } else {
                    0
                }) as usize,
            )
            &&& u.search_result is None
            &&& u.preserved == Some(v.own_input())
        }),
    decreases n,
{
    assert(scrolled_steps(v, true, 0) == v);
    if n > 1 {
        lemma_steps_up(v, (n - 1) as nat);
    }
}

proof fn lemma_steps_down(u: TextInputView, own: EntryView, n: nat)
    requires
        u.history.entries.len() <= usize::MAX,
        u.search_result is None,
        u.history.selected is None ==> u.preserved is None && u.text == own.text && u.bytes_input
            == own.bytes,
        u.history.selected matches Some(i) ==> i < u.history.entries.len() && u.preserved == Some(
            own,
        ) && n >= u.history.entries.len() - i,
    ensures
        ({
            let d = scrolled_steps(u, false, n);
            &&& d.text == own.text
            &&& d.bytes_input == own.bytes
            &&& d.history.entries == u.history.entries
            &&& d.history.selected is None
            &&& d.preserved is None
        }),
    decreases n,
{
    if n > 0 {
        lemma_first_step(u, false, n);
        lemma_steps_down(u.scrolled(false), own, (n - 1) as nat);
    }
}

proof fn lemma_staying(v: TextInputView, up: bool, n: nat)
    requires
        v.scrolled(up) == v,
    ensures
        scrolled_steps(v, up, n) == v,
    decreases n,
{
    if n > 0 {
        lemma_staying(v, up, (n - 1) as nat);
    }
}

/// Going any number of steps up into the history, and as many down again, brings back
/// what was typed.
pub proof fn law_history_returns_own_input(v: TextInputView, n: nat)
    requires
        v.wf(),
        v.history.selected is None,
        v.search_result is None,
        v.preserved is None,
    ensures
        ({
            let back = scrolled_steps(scrolled_steps(v, true, n), false, n);
            &&& back.text == v.text
            &&& back.bytes_input == v.bytes_input
            &&& back.history == v.history
            &&& back.preserved is None
        }),
{
    if v.history.entries.len() == 0 {
        lemma_staying(v, true, n);
        lemma_staying(v, false, n);
    } else if n > 0 {
        lemma_steps_up(v, n);
        lemma_steps_down(scrolled_steps(v, true, n), v.own_input(), n);
    } else {
        assert(scrolled_steps(v, true, 0) == v);
        assert(scrolled_steps(v, false, 0) == v);
    }
}

/// What was sent is the newest entry, and the box is empty.
pub proof fn law_commit_remembers_the_input(v: TextInputView)
    requires
        v.wf(),
        v.history.entries.len() < usize::MAX,
        v.text.len() > 0,
    ensures
        v.committed().history.entries.last() == v.as_entry(),
        v.committed().text.len() == 0,
        v.committed().scrolled(true).as_entry() == v.as_entry(),
{
    law_push_keeps_history_valid(v.history, v.as_entry());
}

/// What a search puts into the box starts with what was typed.
pub proof fn law_search_result_starts_with_the_input(v: TextInputView)
    requires
        v.wf(),
        v.text.len() > 0,
        v.searched() != v,
    ensures
        TextInputView::matches_query(
            EntryView { bytes: v.own_input().bytes, text: v.searched().text },
            v.own_input(),
        ),
        v.history.entries.contains(
            EntryView { bytes: v.own_input().bytes, text: v.searched().text },
        ),
        v.searched().own_input() == v.own_input(),
{
    let end = match v.search_result {
        Some(i) => i as int,
        None => v.history.entries.len() as int,
    };
    lemma_newest_match(v.history.entries, end, v.own_input());
    let i = TextInputView::newest_match(v.history.entries, end, v.own_input())->0;
    assert(v.history.entries[i] == EntryView {
        bytes: v.own_input().bytes,
        text: v.searched().text,
    });
}

proof fn lemma_newest_match(entries: Seq<EntryView>, n: int, query: EntryView)
    requires
        n <= entries.len(),
    ensures
        TextInputView::newest_match(entries, n, query) matches Some(i) ==> 0 <= i < n
            && TextInputView::matches_query(entries[i], query),
    decreases n,
{
    if n > 0 {
        lemma_newest_match(entries, n - 1, query);
    }
}

} // verus!
