//! Texts that are kept to be sent again and again.

pub mod laws;

use tui_input::Input;
use vstd::prelude::*;
use vstd::string::*;
use vstd::utf8::*;

use crate::foreign::unescape_bytes;
use crate::input_box::{input_value, new_input, Cut};
use crate::keybinds::{KeyBinding, Keybinds};
use crate::text::{byte_len, byte_slice, concat3, eq_ignore_ascii_case, relate, str_eq, trim, Relation};
use crate::traits::{HasEscapedBytes, LastIndex};

verus! {

/// Where macros are kept.
pub const MACROS_DIR_PATH: &'static str = "macros";

/// There is no such macro.
#[derive(Clone, Copy, Debug, PartialEq, Eq, Structural)]
pub struct MacroNotFound;

/// The macros could not be read; the reason is given.
#[derive(Debug)]
pub struct MacrosLoadError(pub String);

/// Which macros are shown.
#[derive(Debug)]
pub enum MacroCategorySelection {
    AllMacros,
    StringsOnly,
    WithBytes,
    NoCategory,
    Category(String),
}

/// What a macro is called.
#[derive(Debug)]
pub struct MacroNameTag {
    pub name: String,
    pub category: Option<String>,
}

/// What a macro sends.
#[derive(Debug)]
pub struct MacroContent {
    pub content: String,
    pub has_escaped_bytes: bool,
    pub escaped_line_ending: Option<String>,
    pub sensitive: bool,
}

/// What a macro is called, as plain texts.
#[verifier::ext_equal]
pub struct TagView {
    pub name: Seq<char>,
    pub category: Option<Seq<char>>,
}

impl View for MacroNameTag {
    type V = TagView;

    open spec fn view(&self) -> TagView {
        TagView {
            name: self.name@,
            category: match self.category {
                Some(c) => Some(c@),
                None => None,
            },
        }
    }
}

/// Whether an optional text comes before another; none comes first.
pub open spec fn option_before(a: Option<Seq<char>>, b: Option<Seq<char>>) -> bool {
    match (a, b) {
        (None, Some(_)) => true,
        (Some(a), Some(b)) => crate::text::text_before(a, b),
        _ => false,
    }
}

/// Whether a macro is listed before another: by name, then by category.
pub open spec fn tag_before(a: TagView, b: TagView) -> bool {
    crate::text::text_before(a.name, b.name) || (a.name == b.name && option_before(
        a.category,
        b.category,
    ))
}

proof fn lemma_text_order(a: Seq<char>, b: Seq<char>)
    ensures
        !crate::text::text_before(a, a),
        crate::text::text_before(a, b) ==> !crate::text::text_before(b, a) && a != b,
        !crate::text::text_before(a, b) && !crate::text::text_before(b, a) ==> a == b,
{
    crate::text::lemma_bytes_before_is_total(encode_utf8(a), encode_utf8(b));
    if !crate::text::text_before(a, b) && !crate::text::text_before(b, a) {
        crate::text::lemma_encoding_is_injective(a, b);
    }
}

proof fn lemma_text_transitive(a: Seq<char>, b: Seq<char>, c: Seq<char>)
    requires
        crate::text::text_before(a, b),
        crate::text::text_before(b, c),
    ensures
        crate::text::text_before(a, c),
{
    crate::text::lemma_bytes_before_is_transitive(encode_utf8(a), encode_utf8(b), encode_utf8(c));
}

pub proof fn lemma_tag_order(a: TagView, b: TagView)
    ensures
        !tag_before(a, a),
        tag_before(a, b) ==> !tag_before(b, a) && a != b,
        !tag_before(a, b) && !tag_before(b, a) ==> a == b,
{
    lemma_text_order(a.name, b.name);
    match (a.category, b.category) {
        (Some(x), Some(y)) => {
            lemma_text_order(x, y);
        },
        _ => {},
    }
    match a.category {
        Some(x) => {
            lemma_text_order(x, x);
        },
        None => {},
    }
    if !tag_before(a, b) && !tag_before(b, a) {
        assert(a =~= b);
    }
}

proof fn lemma_tag_transitive(a: TagView, b: TagView, c: TagView)
    requires
        tag_before(a, b),
        tag_before(b, c),
    ensures
        tag_before(a, c),
{
    if crate::text::text_before(a.name, b.name) && crate::text::text_before(b.name, c.name) {
        lemma_text_transitive(a.name, b.name, c.name);
    } else if a.name == b.name && b.name == c.name {
        match (a.category, b.category, c.category) {
            (Some(x), Some(y), Some(z)) => {
                lemma_text_transitive(x, y, z);
            },
            _ => {},
        }
    }
}

fn relate_options(a: &Option<String>, b: &Option<String>) -> (r: Relation)
    ensures
        ({
            let x = match *a {
                Some(s) => Some(s@),
                None => None,
            };
            let y = match *b {
                Some(s) => Some(s@),
                None => None,
            };
            &&& r is Before <==> option_before(x, y)
            &&& r is Same <==> x == y
        }),
{
    match (a, b) {
        (None, None) => Relation::Same,
        (None, Some(_)) => Relation::Before,
        (Some(_), None) => Relation::After,
        (Some(a), Some(b)) => {
            proof {
                lemma_text_order(a@, b@);
            }
            relate(a.as_str(), b.as_str())
        },
    }
}

/// How the name of a macro is written.
pub open spec fn tag_text(tag: TagView) -> Seq<char> {
    match tag.category {
        Some(category) => category + "|"@ + tag.name,
        None => tag.name,
    }
}

impl MacroNameTag {
    /// How the name is written.
    pub fn as_text(&self) -> (r: String)
        ensures
            r@ == tag_text(self@),
    {
        match &self.category {
            Some(category) => concat3(category.as_str(), "|", self.name.as_str()),
            None => self.name.clone(),
        }
    }

    /// How two macros stand to each other in the list.
    pub fn relate_to(&self, other: &MacroNameTag) -> (r: Relation)
        ensures
            r is Before <==> tag_before(self@, other@),
            r is Same <==> self@ == other@,
    {
        proof {
            lemma_text_order(self.name@, other.name@);
        }
        match relate(self.name.as_str(), other.name.as_str()) {
            Relation::Before => Relation::Before,
            Relation::After => Relation::After,
            Relation::Same => relate_options(&self.category, &other.category),
        }
    }

    /// Whether two macros have the same name, whatever their categories.
    pub fn eq_fuzzy(&self, other: &MacroNameTag) -> (r: bool)
        ensures
            r == (self@.name == other@.name),
    {
        str_eq(self.name.as_str(), other.name.as_str())
    }

    /// The same name again.
    pub fn duplicate(&self) -> (r: MacroNameTag)
        ensures
            r == *self,
    {
        MacroNameTag {
            name: self.name.clone(),
            category: match &self.category {
                Some(c) => Some(c.clone()),
                None => None,
            },
        }
    }

    /// Reads a name, with a category in front of it if there is a bar between them.
    /// A name must not be blank.
    pub fn parse(text: &str) -> (r: Option<MacroNameTag>)
        ensures
            match parsed_tag(text@) {
                Some(tag) => r is Some && r->0@ == tag,
                None => r is None,
            },
    {
        let len: usize = text.unicode_len();
        let mut bar: usize = 0;
        assert(text@.skip(0) =~= text@);
        while bar < len && text.get_char(bar) != '|'
            invariant
                len == text@.len(),
                bar <= len,
                first_bar(text@) == bar + first_bar(text@.skip(bar as int)),
            decreases len - bar,
        {
            assert(text@.skip(bar as int)[0] == text@[bar as int]);
            assert(text@.skip(bar as int).drop_first() =~= text@.skip(bar + 1));
            bar += 1;
        }
        proof {
            if bar < len {
                assert(text@.skip(bar as int)[0] == text@[bar as int]);
            }
            assert(first_bar(text@) == bar);
        }
        if bar == len {
            let name = trim(text);
            if name.is_empty() {
                return None;
            }
            let tag = MacroNameTag { name: name.to_owned(), category: None };
            assert(tag@ =~= parsed_tag(text@)->0);
            Some(tag)
        } else {
            let category = trim(text.substring_char(0, bar));
            let name = trim(text.substring_char(bar + 1, len));
            proof {
                assert(text@.subrange(0, bar as int) =~= text@.take(bar as int));
                assert(text@.subrange(bar + 1, len as int) =~= text@.skip(bar + 1));
            }
            if name.is_empty() {
                return None;
            }
            let tag = MacroNameTag {
                name: name.to_owned(),
                category: if category.is_empty() {
                    None
                } else {
                    Some(category.to_owned())
                },
            };
            assert(tag@ =~= parsed_tag(text@)->0);
            Some(tag)
        }
    }
}

/// Where the first bar of a text is; its length where there is none.
pub open spec fn first_bar(s: Seq<char>) -> int
    decreases s.len(),
{
    if s.len() == 0 || s[0] == '|' {
        0
    } else {
        1 + first_bar(s.drop_first())
    }
}

/// The name that a text stands for.
pub open spec fn parsed_tag(text: Seq<char>) -> Option<TagView> {
    let bar = first_bar(text);
    if bar == text.len() {
        if crate::text::trimmed(text).len() == 0 {
            None
        } else {
            Some(TagView { name: crate::text::trimmed(text), category: None })
        }
    } else {
        let category = crate::text::trimmed(text.take(bar));
        let name = crate::text::trimmed(text.skip(bar + 1));
        if name.len() == 0 {
            None
        } else {
            Some(
                TagView {
                    name,
                    category: if category.len() == 0 {
                        None
                    } else {
                        Some(category)
                    },
                },
            )
        }
    }
}

/// Whether a text has escapes in it that stand for other bytes.
pub open spec fn has_escapes(text: Seq<char>) -> bool {
    encode_utf8(text).contains(0x5c) && crate::foreign::unescaped(text) != encode_utf8(text)
}

impl MacroContent {
    /// A macro that sends `value`, with a line ending of its own if there is one.
    pub fn new_with_line_ending(
        value: &str,
        escaped_line_ending: Option<String>,
        sensitive: bool,
    ) -> (r: MacroContent)
        ensures
            r.content@ == value@,
            r.has_escaped_bytes == has_escapes(value@),
            r.escaped_line_ending == escaped_line_ending,
            r.sensitive == sensitive,
    {
        MacroContent {
            has_escaped_bytes: value.has_escaped_bytes(),
            content: value.to_owned(),
            escaped_line_ending,
            sensitive,
        }
    }

    /// Whether the macro sends nothing.
    pub fn is_empty(&self) -> (r: bool)
        ensures
            r == (self.content@.len() == 0),
    {
        self.content.as_str().is_empty()
    }

    /// The bytes that the macro sends, with escapes taken for what they stand for.
    pub fn unescape_bytes(&self) -> (r: Vec<u8>)
        ensures
            r@ == crate::foreign::unescaped(self.content@),
            self.content@.len() > 0 ==> r@.len() > 0,
    {
        unescape_bytes(self.content.as_str())
    }

    /// The text that the macro sends.
    pub fn as_str(&self) -> (r: &str)
        ensures
            r@ == self.content@,
    {
        self.content.as_str()
    }
}

/// A macro as it stands in a file.
#[derive(Debug)]
pub struct SerializedMacro {
    pub name: String,
    pub category: Option<String>,
    pub content: String,
    pub line_ending: Option<String>,
    pub sensitive: bool,
}

/// A file of macros.
#[derive(Debug)]
pub struct MacroFile {
    /// The category of those that name none.
    pub category_override: Option<String>,
    pub macros: Vec<SerializedMacro>,
}

/// A macro: what it is called, and what it sends.
#[derive(Debug)]
pub struct Macro {
    pub tag: MacroNameTag,
    pub content: MacroContent,
}

/// The names of some macros.
pub open spec fn tags_of(all: Seq<Macro>) -> Seq<TagView> {
    all.map_values(|m: Macro| m.tag@)
}

/// The list is in order, and no macro occurs twice.
pub open spec fn in_order(tags: Seq<TagView>) -> bool {
    forall|i: int, j: int|
        #![trigger tags[i], tags[j]]
        0 <= i < j < tags.len() ==> tag_before(tags[i], tags[j])
}

/// How many of the first macros are listed before a name.
pub open spec fn rank(tags: Seq<TagView>, tag: TagView) -> int
    decreases tags.len(),
{
    if tags.len() == 0 || !tag_before(tags[0], tag) {
        0
    } else {
        1 + rank(tags.drop_first(), tag)
    }
}

/// The list after a macro was added; one of the same name gives way.
pub open spec fn with_macro(all: Seq<Macro>, added: Macro) -> Seq<Macro> {
    let at = rank(tags_of(all), added.tag@);
    if at < all.len() && all[at].tag@ == added.tag@ {
        all.update(at, added)
    } else {
        all.insert(at, added)
    }
}

pub proof fn lemma_rank_bounds(tags: Seq<TagView>, tag: TagView)
    ensures
        0 <= rank(tags, tag) <= tags.len(),
        forall|i: int| 0 <= i < rank(tags, tag) ==> tag_before(#[trigger] tags[i], tag),
        rank(tags, tag) < tags.len() ==> !tag_before(tags[rank(tags, tag)], tag),
    decreases tags.len(),
{
    if tags.len() > 0 && tag_before(tags[0], tag) {
        let rest = tags.drop_first();
        lemma_rank_bounds(rest, tag);
        assert forall|i: int| 0 <= i < rank(tags, tag) implies tag_before(
            #[trigger] tags[i],
            tag,
        ) by {
            if i > 0 {
                assert(rest[i - 1] == tags[i]);
            }
        }
    }
}

/// Adding a macro keeps the list in order and free of repetitions, and the macro is
/// then in it.
pub proof fn law_adding_keeps_order(all: Seq<Macro>, added: Macro)
    requires
        in_order(tags_of(all)),
    ensures
        in_order(tags_of(with_macro(all, added))),
        with_macro(all, added).contains(added),
        forall|i: int|
            0 <= i < all.len() && all[i].tag@ != added.tag@ ==> #[trigger] with_macro(
                all,
                added,
            ).contains(all[i]),
{
    let tags = tags_of(all);
    let at = rank(tags, added.tag@);
    lemma_rank_bounds(tags, added.tag@);
    let new = with_macro(all, added);
    let new_tags = tags_of(new);
    if at < all.len() && all[at].tag@ == added.tag@ {
        assert(new_tags =~= tags);
        assert(new[at] == added);
        assert forall|i: int| 0 <= i < all.len() && all[i].tag@ != added.tag@ implies
            #[trigger] new.contains(all[i]) by {
            assert(new[i] == all[i]);
        }
    } else {
        assert(new[at] == added);
        assert forall|i: int, j: int|
            #![trigger new_tags[i], new_tags[j]]
            0 <= i < j < new_tags.len() implies tag_before(new_tags[i], new_tags[j]) by {
            let a = if i < at {
                i
            } else {
                i - 1
            };
            let b = if j < at {
                j
            } else {
                j - 1
            };
            if i != at && j != at {
                assert(new_tags[i] == tags[a] && new_tags[j] == tags[b]);
            } else if j == at {
                assert(new_tags[i] == tags[i]);
            } else {
                assert(new_tags[j] == tags[b]);
                lemma_tag_order(tags[at], added.tag@);
                assert(tags[at] == all[at].tag@);
                assert(tag_before(added.tag@, tags[at]));
                if b > at {
                    lemma_tag_transitive(added.tag@, tags[at], tags[b]);
                }
            }
        }
        assert forall|i: int| 0 <= i < all.len() && all[i].tag@ != added.tag@ implies
            #[trigger] new.contains(all[i]) by {
            if i < at {
                assert(new[i] == all[i]);
            } else {
                assert(new[i + 1] == all[i]);
            }
        }
    }
}

/// The category of a macro from a file: its own, or that of the file; none if it is
/// blank.
pub open spec fn file_category(own: Option<Seq<char>>, file: Seq<char>) -> Option<Seq<char>> {
    let category = match own {
        Some(c) => c,
        None => file,
    };
    if crate::text::trimmed(category).len() == 0 {
        None
    } else {
        Some(category)
    }
}


/// How many of the first texts come before another.
pub open spec fn text_rank(list: Seq<Seq<char>>, text: Seq<char>) -> int
    decreases list.len(),
{
    if list.len() == 0 || !crate::text::text_before(list[0], text) {
        0
    } else {
        1 + text_rank(list.drop_first(), text)
    }
}

/// A sorted list with a text added, unless it is there already.
pub open spec fn with_text(list: Seq<Seq<char>>, text: Seq<char>) -> Seq<Seq<char>> {
    let at = text_rank(list, text);
    if at < list.len() && list[at] == text {
        list
    } else {
        list.insert(at, text)
    }
}

/// The categories of some macros, in order and without repetition.
pub open spec fn sorted_categories(tags: Seq<TagView>) -> Seq<Seq<char>>
    decreases tags.len(),
{
    if tags.len() == 0 {
        Seq::empty()
    } else {
        let init = sorted_categories(tags.drop_last());
        match tags.last().category {
            Some(c) => with_text(init, c),
            None => init,
        }
    }
}

/// Whether any of some macros has no category.
pub open spec fn any_uncategorized(tags: Seq<TagView>) -> bool {
    exists|i: int| 0 <= i < tags.len() && (#[trigger] tags[i]).category is None
}

/// The entries of the selector behind the fixed ones.
pub open spec fn category_entries(tags: Seq<TagView>) -> Seq<Seq<char>> {
    (if any_uncategorized(tags) {
        seq!["No Category"@]
    } else {
        Seq::empty()
    }) + sorted_categories(tags)
}

/// A list in dictionary order, without repetition.
pub open spec fn texts_in_order(list: Seq<Seq<char>>) -> bool {
    forall|i: int, j: int|
        #![trigger list[i], list[j]]
        0 <= i < j < list.len() ==> crate::text::text_before(list[i], list[j])
}

proof fn lemma_text_rank(list: Seq<Seq<char>>, text: Seq<char>)
    ensures
        0 <= text_rank(list, text) <= list.len(),
        forall|i: int|
            0 <= i < text_rank(list, text) ==> crate::text::text_before(#[trigger] list[i], text),
        text_rank(list, text) < list.len() ==> !crate::text::text_before(
            list[text_rank(list, text)],
            text,
        ),
    decreases list.len(),
{
    if list.len() > 0 && crate::text::text_before(list[0], text) {
        let rest = list.drop_first();
        lemma_text_rank(rest, text);
        assert forall|i: int| 0 <= i < text_rank(list, text) implies crate::text::text_before(
            #[trigger] list[i],
            text,
        ) by {
            if i > 0 {
                assert(rest[i - 1] == list[i]);
            }
        }
    }
}

proof fn lemma_with_text(list: Seq<Seq<char>>, text: Seq<char>)
    requires
        texts_in_order(list),
    ensures
        texts_in_order(with_text(list, text)),
        forall|t: Seq<char>|
            with_text(list, text).contains(t) <==> list.contains(t) || t == text,
{
    lemma_text_rank(list, text);
    let at = text_rank(list, text);
    let new = with_text(list, text);
    if at < list.len() && list[at] == text {
        assert(list.contains(text));
    } else {
        assert forall|i: int, j: int|
            #![trigger new[i], new[j]]
            0 <= i < j < new.len() implies crate::text::text_before(new[i], new[j]) by {
            let a = if i < at {
                i
            } else {
                i - 1
            };
            let b = if j < at {
                j
            } else {
                j - 1
            };
            if i != at && j != at {
                assert(new[i] == list[a] && new[j] == list[b]);
            } else if j == at {
                assert(new[i] == list[i]);
            } else {
                assert(new[j] == list[b]);
                lemma_text_order(list[at], text);
                if b > at {
                    lemma_text_transitive(text, list[at], list[b]);
                }
            }
        }
        assert forall|t: Seq<char>| new.contains(t) <==> list.contains(t) || t == text by {
            if new.contains(t) {
                let i = choose|i: int| 0 <= i < new.len() && new[i] == t;
                if i < at {
                    assert(list[i] == t);
                } else if i > at {
                    assert(list[i - 1] == t);
                }
            }
            if list.contains(t) {
                let i = choose|i: int| 0 <= i < list.len() && list[i] == t;
                if i < at {
                    assert(new[i] == t);
                } else {
                    assert(new[i + 1] == t);
                }
            }
            if t == text {
                assert(new[at] == t);
            }
        }
    }
}

/// The categories are listed in order, each once, and none is left out.
pub proof fn law_categories_are_listed(tags: Seq<TagView>)
    ensures
        texts_in_order(sorted_categories(tags)),
        forall|c: Seq<char>|
            sorted_categories(tags).contains(c) <==> exists|i: int|
                0 <= i < tags.len() && (#[trigger] tags[i]).category == Some(c),
    decreases tags.len(),
{
    if tags.len() > 0 {
        let init = tags.drop_last();
        law_categories_are_listed(init);
        match tags.last().category {
            Some(own) => {
                lemma_with_text(sorted_categories(init), own);
            },
            None => {},
        }
        assert forall|c: Seq<char>|
            sorted_categories(tags).contains(c) <==> exists|i: int|
                0 <= i < tags.len() && (#[trigger] tags[i]).category == Some(c) by {
            if sorted_categories(tags).contains(c) {
                if sorted_categories(init).contains(c) {
                    let i = choose|i: int|
                        0 <= i < init.len() && (#[trigger] init[i]).category == Some(c);
                    assert(tags[i].category == Some(c));
                } else {
                    assert(tags[tags.len() - 1].category == Some(c));
                }
            }
            if exists|i: int| 0 <= i < tags.len() && (#[trigger] tags[i]).category == Some(c) {
                let i = choose|i: int|
                    0 <= i < tags.len() && (#[trigger] tags[i]).category == Some(c);
                if i < init.len() {
                    assert(init[i].category == Some(c));
                }
            }
        }
    }
}

/// The macros, and which of them are shown.
pub struct Macros {
    pub all: Vec<Macro>,
    pub category_index: usize,
    pub search_input: Input,
}

/// Which macros are shown, as plain values.
#[verifier::ext_equal]
pub enum SelectionView {
    AllMacros,
    StringsOnly,
    WithBytes,
    NoCategory,
    Category(Seq<char>),
}

impl View for MacroCategorySelection {
    type V = SelectionView;

    open spec fn view(&self) -> SelectionView {
        match self {
            MacroCategorySelection::AllMacros => SelectionView::AllMacros,
            MacroCategorySelection::StringsOnly => SelectionView::StringsOnly,
            MacroCategorySelection::WithBytes => SelectionView::WithBytes,
            MacroCategorySelection::NoCategory => SelectionView::NoCategory,
            MacroCategorySelection::Category(c) => SelectionView::Category(c@),
        }
    }
}

/// What an entry of the selector stands for.
pub open spec fn selection_at(index: int, tags: Seq<TagView>) -> SelectionView {
    if index == 0 {
        SelectionView::WithBytes
    } else if index == 1 {
        SelectionView::StringsOnly
    } else if index == 2 {
        SelectionView::AllMacros
    } else if index == 3 && any_uncategorized(tags) {
        SelectionView::NoCategory
    } else if 0 <= index - 3 < category_entries(tags).len() {
        SelectionView::Category(category_entries(tags)[index - 3])
    } else {
        SelectionView::Category("?????"@)
    }
}

/// Whether a macro belongs to a selection.
pub open spec fn selected(m: Macro, selection: SelectionView) -> bool {
    match selection {
        SelectionView::AllMacros => true,
        SelectionView::StringsOnly => !m.content.has_escaped_bytes,
        SelectionView::WithBytes => m.content.has_escaped_bytes,
        SelectionView::NoCategory => m.tag@.category is None,
        SelectionView::Category(c) => m.tag@.category == Some(c),
    }
}

/// Whether a name starts with a query, up to the case of ASCII letters.
pub open spec fn name_starts_with(name: Seq<char>, query: Seq<char>) -> bool {
    let bytes = encode_utf8(name);
    let len = encode_utf8(query).len() as int;
    is_char_boundary(bytes, len) && bytes.take(len).map_values(
        |b: u8| crate::text::ascii_lower(b),
    ) == encode_utf8(query).map_values(|b: u8| crate::text::ascii_lower(b))
}

/// The positions of the first `n` macros that satisfy a condition.
pub open spec fn positions(all: Seq<Macro>, wanted: spec_fn(Macro) -> bool, n: int) -> Seq<usize>
    decreases n,
{
    if n <= 0 {
        Seq::empty()
    } else if wanted(all[n - 1]) {
        positions(all, wanted, n - 1).push((n - 1) as usize)
    } else {
        positions(all, wanted, n - 1)
    }
}

/// The macros, and which of them are shown, as plain values.
#[verifier::ext_equal]
pub struct MacrosView {
    pub all: Seq<Macro>,
    pub category_index: usize,
    pub query: Seq<char>,
    pub cursor: nat,
    pub cut: Cut,
}

impl View for Macros {
    type V = MacrosView;

    open spec fn view(&self) -> MacrosView {
        MacrosView {
            all: self.all@,
            category_index: self.category_index,
            query: crate::input_box::input_text(self.search_input),
            cursor: crate::input_box::input_cursor(self.search_input),
            cut: crate::input_box::input_cut(self.search_input),
        }
    }
}

pub proof fn lemma_positions_in_range(all: Seq<Macro>, wanted: spec_fn(Macro) -> bool, n: int)
    requires
        0 <= n <= all.len(),
        n <= usize::MAX,
    ensures
        forall|i: int|
            0 <= i < positions(all, wanted, n).len() ==> (#[trigger] positions(all, wanted, n)[i])
                < n,
    decreases n,
{
    if n > 0 {
        lemma_positions_in_range(all, wanted, n - 1);
        let before = positions(all, wanted, n - 1);
        assert forall|i: int| 0 <= i < positions(all, wanted, n).len() implies (#[trigger] positions(
            all,
            wanted,
            n,
        )[i]) < n by {
            if i < before.len() {
                assert(positions(all, wanted, n)[i] == before[i]);
            }
        }
    }
}

impl MacrosView {
    /// Which macros are shown: those that a search finds; without one, those of the
    /// selected category.
    pub open spec fn wanted(self) -> spec_fn(Macro) -> bool {
        if self.query.len() == 0 {
            |m: Macro| selected(m, selection_at(self.category_index as int, tags_of(self.all)))
        } else {
            |m: Macro| name_starts_with(m.tag@.name, self.query)
        }
    }

    /// The positions of the macros that are shown.
    pub open spec fn visible(self) -> Seq<usize> {
        positions(self.all, self.wanted(), self.all.len() as int)
    }

    /// The number of entries of the selector.
    pub open spec fn entries(self) -> nat {
        3 + category_entries(tags_of(self.all)).len()
    }

    /// With the entry of the selector before or behind the selected one.
    pub open spec fn stepped(self, next: bool) -> MacrosView {
        MacrosView {
            category_index: if next {
                if self.category_index + 1 < self.entries() {
                    crate::buffer::tui::capped(self.category_index + 1) as usize
                } else {
                    crate::buffer::tui::capped(self.entries() - 1) as usize
                }
            } else if self.category_index > 0 {
                (self.category_index - 1) as usize
            } else {
                0
            },
            ..self
        }
    }

    /// The position of the macro with a name; failing that, and if names may be
    /// matched loosely, of the first with the same name in any category.
    pub open spec fn found(self, query: TagView, fuzzy: bool) -> Option<int> {
        match first_tag(tags_of(self.all), tag_is(query), 0) {
            Some(i) => Some(i),
            None => if fuzzy {
                first_tag(tags_of(self.all), name_is(query.name), 0)
            } else {
                None
            },
        }
    }
}

impl Macros {
    /// The names of all macros.
    pub open spec fn tags(&self) -> Seq<TagView> {
        tags_of(self.all@)
    }

    /// What is searched for.
    pub open spec fn query(&self) -> Seq<char> {
        crate::input_box::input_text(self.search_input)
    }

    /// The macros are in order.
    pub open spec fn wf(&self) -> bool {
        in_order(self.tags())
    }

    /// The positions of the macros that are shown.
    pub open spec fn visible(&self) -> Seq<usize> {
        self@.visible()
    }

    /// No macros, with all of them shown.
    pub fn empty() -> (r: Macros)
        ensures
            r.all@ == Seq::<Macro>::empty(),
            r.category_index == 2,
            r.query() == Seq::<char>::empty(),
            r.wf(),
    {
        Macros { all: Vec::new(), category_index: 2, search_input: new_input(String::new()) }
    }

    /// Whether there are no macros.
    pub fn is_empty(&self) -> (r: bool)
        ensures
            r == (self.all@.len() == 0),
    {
        self.all.len() == 0
    }

    /// Adds a macro; one of the same name gives way.
    pub fn insert(&mut self, added: Macro)
        requires
            old(self).wf(),
        ensures
            final(self).all@ == with_macro(old(self).all@, added),
            final(self).category_index == old(self).category_index,
            final(self).search_input == old(self).search_input,
            final(self).wf(),
    {
        let ghost tags = self.tags();
        let ghost tag = added.tag@;
        let mut at: usize = 0;
        assert(tags.skip(0) =~= tags);
        let mut found = false;
        while at < self.all.len()
            invariant_except_break
                *self == *old(self),
                tags == self.tags(),
                tag == added.tag@,
                at <= self.all@.len(),
                rank(tags, tag) == at + rank(tags.skip(at as int), tag),
                !found,
            ensures
                *self == *old(self),
                at <= self.all@.len(),
                rank(tags, tag) == at,
                found == (at < self.all@.len() && self.all@[at as int].tag@ == tag),
            decreases self.all@.len() - at,
        {
            assert(tags.skip(at as int)[0] == self.all@[at as int].tag@);
            match self.all[at].tag.relate_to(&added.tag) {
                Relation::Before => {
                    assert(tags.skip(at as int).drop_first() =~= tags.skip(at + 1));
                },
                Relation::Same => {
                    proof {
                        lemma_tag_order(tag, tag);
                    }
                    found = true;
                    break;
                },
                Relation::After => {
                    break;
                },
            }
            at += 1;
        }
        proof {
            law_adding_keeps_order(self.all@, added);
        }
        if found {
            self.all.set(at, added);
        } else {
            self.all.insert(at, added);
        }
    }

    /// Whether any macro has no category.
    pub fn has_no_category_macros(&self) -> (r: bool)
        ensures
            r == any_uncategorized(self.tags()),
    {
        let mut i: usize = 0;
        while i < self.all.len()
            invariant
                i <= self.all@.len(),
                forall|j: int| 0 <= j < i ==> !((#[trigger] self.tags()[j]).category is None),
            decreases self.all@.len() - i,
        {
            if self.all[i].tag.category.is_none() {
                assert(self.tags()[i as int].category is None);
                return true;
            }
            i += 1;
        }
        false
    }

    /// The entries of the selector behind the fixed ones.
    pub fn categories(&self) -> (r: Vec<String>)
        ensures
            crate::text::texts(r@) == category_entries(self.tags()),
    {
        let mut list: Vec<String> = Vec::new();
        let mut i: usize = 0;
        let ghost tags = self.tags();
        assert(crate::text::texts(list@) =~= sorted_categories(tags.take(0)));
        while i < self.all.len()
            invariant
                i <= self.all@.len(),
                tags == self.tags(),
                crate::text::texts(list@) == sorted_categories(tags.take(i as int)),
            decreases self.all@.len() - i,
        {
            proof {
                assert(tags.take(i + 1).drop_last() =~= tags.take(i as int));
                assert(tags.take(i + 1).last() == self.all@[i as int].tag@);
            }
            match &self.all[i].tag.category {
                Some(category) => {
                    insert_text(&mut list, category.as_str());
                },
                None => (),
            }
            i += 1;
        }
        assert(tags.take(i as int) =~= tags);
        if self.has_no_category_macros() {
            let ghost before = list@;
            let label = "No Category".to_owned();
            list.insert(0, label);
            assert(crate::text::texts(list@) =~= seq!["No Category"@] + crate::text::texts(before));
        } else {
            assert(crate::text::texts(list@) =~= Seq::<Seq<char>>::empty() + crate::text::texts(
                list@,
            ));
        }
        list
    }

    /// The selected category.
    pub fn selected_category(&self) -> (r: MacroCategorySelection)
        ensures
            r@ == selection_at(self.category_index as int, self.tags()),
    {
        if self.category_index == 0 {
            MacroCategorySelection::WithBytes
        } else if self.category_index == 1 {
            MacroCategorySelection::StringsOnly
        } else if self.category_index == 2 {
            MacroCategorySelection::AllMacros
        } else if self.category_index == 3 && self.has_no_category_macros() {
            MacroCategorySelection::NoCategory
        } else {
            let entries = self.categories();
            let n: usize = self.category_index - 3;
            assert(crate::text::texts(entries@).len() == entries@.len());
            if n < entries.len() {
                assert(crate::text::texts(entries@)[n as int] == entries@[n as int]@);
                MacroCategorySelection::Category(entries[n].clone())
            } else {
                MacroCategorySelection::Category("?????".to_owned())
            }
        }
    }

    /// The positions of the macros that are shown.
    pub fn filtered_macros(&self) -> (r: Vec<usize>)
        ensures
            r@ == self.visible(),
    {
        let query = input_value(&self.search_input);
        let selection = self.selected_category();
        let searching = !query.is_empty();
        let mut shown: Vec<usize> = Vec::new();
        let ghost wanted = self@.wanted();
        let mut i: usize = 0;
        while i < self.all.len()
            invariant
                i <= self.all@.len(),
                wanted == self@.wanted(),
                query@ == self.query(),
                searching == (self.query().len() != 0),
                selection@ == selection_at(self.category_index as int, self.tags()),
                shown@ == positions(self.all@, wanted, i as int),
            decreases self.all@.len() - i,
        {
            let fits = if searching {
                starts_with_query(self.all[i].tag.name.as_str(), query)
            } else {
                belongs(&self.all[i], &selection)
            };
            assert(fits == wanted(self.all@[i as int]));
            if fits {
                shown.push(i);
            }
            i += 1;
        }
        shown
    }

    /// Selects the entry before or behind the selected one.
    pub fn step_category(&mut self, next: bool)
        ensures
            final(self)@ == old(self)@.stepped(next),
            final(self).all == old(self).all,
    {
        if next {
            let categories = self.categories();
            let named: usize = categories.len();
            assert(named == crate::text::texts(categories@).len());
            let room = self.category_index < named || self.category_index - named < 2;
            if room {
                self.category_index = self.category_index.saturating_add(1);
            } else {
                self.category_index = named.saturating_add(2);
            }
        } else if self.category_index > 0 {
            self.category_index -= 1;
        }
    }

    /// How many macros are shown.
    pub fn visible_len(&self) -> (r: usize)
        ensures
            r == self.visible().len(),
    {
        self.filtered_macros().len()
    }

    /// Whether no macro is shown.
    pub fn none_visible(&self) -> (r: bool)
        ensures
            r == (self.visible().len() == 0),
    {
        self.visible_len() == 0
    }

    /// The macro that a text names.
    pub fn get_by_string(&self, query: &str, fuzzy_macro_name_match: bool) -> (r: Option<
        MacroNameTag,
    >)
        ensures
            match parsed_tag(query@) {
                Some(tag) => match self@.found(tag, fuzzy_macro_name_match) {
                    Some(i) => r is Some && 0 <= i < self.all@.len() && r->0
                        == self.all@[i].tag,
                    None => r is None,
                },
                None => r is None,
            },
    {
        let tag = match MacroNameTag::parse(query) {
            Some(tag) => tag,
            None => {
                return None;
            },
        };
        match self.find_tag(&tag, false) {
            Some(i) => Some(self.all[i].tag.duplicate()),
            None => {
                if fuzzy_macro_name_match {
                    match self.find_tag(&tag, true) {
                        Some(i) => Some(self.all[i].tag.duplicate()),
                        None => None,
                    }
                } else {
                    None
                }
            },
        }
    }

    fn find_tag(&self, query: &MacroNameTag, by_name: bool) -> (r: Option<usize>)
        ensures
            ({
                let wanted = if by_name {
                    name_is(query@.name)
                } else {
                    tag_is(query@)
                };
                match first_tag(self.tags(), wanted, 0) {
                    Some(i) => r is Some && r->0 == i && 0 <= i < self.all@.len(),
                    None => r is None,
                }
            }),
    {
        let ghost wanted = if by_name {
            name_is(query@.name)
        } else {
            tag_is(query@)
        };
        let mut i: usize = 0;
        while i < self.all.len()
            invariant
                i <= self.all@.len(),
                wanted == (if by_name {
                    name_is(query@.name)
                } else {
                    tag_is(query@)
                }),
                first_tag(self.tags(), wanted, 0) == first_tag(self.tags(), wanted, i as int),
            decreases self.all@.len() - i,
        {
            let fits = if by_name {
                self.all[i].tag.eq_fuzzy(query)
            } else {
                match self.all[i].tag.relate_to(query) {
                    Relation::Same => true,
                    _ => false,
                }
            };
            assert(self.tags()[i as int] == self.all@[i as int].tag@);
            assert(fits == wanted(self.tags()[i as int]));
            if fits {
                return Some(i);
            }
            i += 1;
        }
        None
    }

    /// The content of the macro with exactly this name.
    pub fn content_of(&self, tag: &MacroNameTag) -> (r: Option<&MacroContent>)
        ensures
            match first_tag(self.tags(), tag_is(tag@), 0) {
                Some(i) => r is Some && 0 <= i < self.all@.len() && *(r->0) == self.all@[i].content,
                None => r is None,
            },
    {
        match self.find_tag(tag, false) {
            Some(i) => Some(&self.all[i].content),
            None => None,
        }
    }
}

/// A macro of exactly this name and category.
pub open spec fn tag_is(tag: TagView) -> spec_fn(TagView) -> bool {
    |t: TagView| t == tag
}

/// A macro of this name in any category.
pub open spec fn name_is(name: Seq<char>) -> spec_fn(TagView) -> bool {
    |t: TagView| t.name == name
}

/// The first name that satisfies a condition, from position `from` on.
pub open spec fn first_tag(tags: Seq<TagView>, wanted: spec_fn(TagView) -> bool, from: int) -> Option<
    int,
>
    decreases tags.len() - from,
{
    if from < 0 || from >= tags.len() {
        None
    } else if wanted(tags[from]) {
        Some(from)
    } else {
        first_tag(tags, wanted, from + 1)
    }
}

impl LastIndex for Macros {
    open spec fn element_count(&self) -> nat {
        self.visible().len()
    }

    fn last_index_checked(&self) -> (r: Option<usize>) {
        let visible: usize = self.visible_len();
        if visible == 0 {
            None
        } else {
            Some(visible - 1)
        }
    }
}

fn insert_text(list: &mut Vec<String>, text: &str)
    ensures
        crate::text::texts(final(list)@) == with_text(crate::text::texts(old(list)@), text@),
{
    let ghost before = crate::text::texts(list@);
    let mut at: usize = 0;
    assert(before.skip(0) =~= before);
    while at < list.len()
        invariant_except_break
            list@ == old(list)@,
            before == crate::text::texts(list@),
            at <= list@.len(),
            text_rank(before, text@) == at + text_rank(before.skip(at as int), text@),
        ensures
            list@ == old(list)@,
            at <= list@.len(),
            text_rank(before, text@) == at,
            !(at < list@.len() && list@[at as int]@ == text@),
        decreases list@.len() - at,
    {
        assert(before.skip(at as int)[0] == list@[at as int]@);
        match relate(list[at].as_str(), text) {
            Relation::Before => {
                assert(before.skip(at as int).drop_first() =~= before.skip(at + 1));
            },
            Relation::Same => {
                proof {
                    lemma_text_order(text@, text@);
                    assert(with_text(before, text@) == before);
                }
                return ;
            },
            Relation::After => {
                proof {
                    lemma_text_order(text@, list@[at as int]@);
                }
                break;
            },
        }
        at += 1;
    }
    let owned = text.to_owned();
    list.insert(at, owned);
    assert(crate::text::texts(list@) =~= before.insert(at as int, text@));
}

fn starts_with_query(name: &str, query: &str) -> (r: bool)
    ensures
        r == name_starts_with(name@, query@),
{
    let len: usize = byte_len(query);
    if !name.is_char_boundary(len) {
        return false;
    }
    proof {
        encode_utf8_valid_utf8(name@);
        is_char_boundary_start_end_of_seq(name.spec_bytes());
    }
    let start = byte_slice(name, 0, len);
    assert(start.spec_bytes() =~= name.spec_bytes().take(len as int));
    eq_ignore_ascii_case(start, query)
}

fn belongs(m: &Macro, selection: &MacroCategorySelection) -> (r: bool)
    ensures
        r == selected(*m, selection@),
{
    match selection {
        MacroCategorySelection::AllMacros => true,
        MacroCategorySelection::StringsOnly => !m.content.has_escaped_bytes,
        MacroCategorySelection::WithBytes => m.content.has_escaped_bytes,
        MacroCategorySelection::NoCategory => m.tag.category.is_none(),
        MacroCategorySelection::Category(c) => match &m.tag.category {
            Some(own) => str_eq(own.as_str(), c.as_str()),
            None => false,
        },
    }
}

/// Whether a macro is what an entry of a file stands for.
pub open spec fn loaded_from(entry: SerializedMacro, fallback_category: Seq<char>, m: Macro) -> bool {
    &&& m.tag@ == (TagView {
        name: entry.name@,
        category: file_category(
            match entry.category {
                Some(c) => Some(c@),
                None => None,
            },
            fallback_category,
        ),
    })
    &&& m.content.content@ == entry.content@
    &&& m.content.has_escaped_bytes == has_escapes(entry.content@)
    &&& m.content.escaped_line_ending == entry.line_ending
    &&& m.content.sensitive == entry.sensitive
}

/// The macros after some were added, one after another.
pub open spec fn with_all(all: Seq<Macro>, added: Seq<Macro>) -> Seq<Macro>
    decreases added.len(),
{
    if added.len() == 0 {
        all
    } else {
        with_macro(with_all(all, added.drop_last()), added.last())
    }
}

/// The category of those macros of a file that name none: the one that the file
/// names, or the name of the file.
pub open spec fn fallback_of(file: MacroFile, stem: Seq<char>) -> Seq<char> {
    match file.category_override {
        Some(category) => category@,
        None => stem,
    }
}

/// Whether some macros are those of a file.
pub open spec fn file_macros(file: MacroFile, stem: Seq<char>, loaded: Seq<Macro>) -> bool {
    &&& loaded.len() == file.macros@.len()
    &&& forall|i: int|
        0 <= i < loaded.len() ==> loaded_from(
            file.macros@[i],
            fallback_of(file, stem),
            #[trigger] loaded[i],
        )
}

impl Macros {
    /// Adds the macros of a file with the given name. One that was there before gives
    /// way to one of the same name.
    pub fn add_file(&mut self, file: MacroFile, stem: &str)
        requires
            old(self).wf(),
        ensures
            exists|loaded: Seq<Macro>| #[trigger]
                file_macros(file, stem@, loaded) && final(self).all@ == with_all(
                    old(self).all@,
                    loaded,
                ),
            final(self).category_index == old(self).category_index,
            final(self).search_input == old(self).search_input,
            final(self).wf(),
    {
        let fallback = match &file.category_override {
            Some(category) => category.clone(),
            None => stem.to_owned(),
        };
        let mut rest = file.macros;
        let total: usize = rest.len();
        let ghost entries = rest@;
        let ghost mut loaded: Seq<Macro> = Seq::empty();
        let mut done: usize = 0;
        while rest.len() > 0
            invariant
                total == entries.len(),
                done + rest@.len() == total,
                rest@ == entries.skip(done as int),
                loaded.len() == done,
                forall|i: int|
                    0 <= i < loaded.len() ==> loaded_from(
                        entries[i],
                        fallback@,
                        #[trigger] loaded[i],
                    ),
                self.wf(),
                self.all@ == with_all(old(self).all@, loaded),
                self.category_index == old(self).category_index,
                self.search_input == old(self).search_input,
            decreases rest@.len(),
        {
            assert(rest@[0] == entries[done as int]);
            let entry = rest.remove(0);
            let added = from_serialized(entry, fallback.as_str());
            self.insert(added);
            proof {
                let before = loaded;
                loaded = loaded.push(added);
                assert(loaded.drop_last() =~= before);
                assert(rest@ =~= entries.skip(done + 1));
            }
            done += 1;
        }
        assert(file_macros(file, stem@, loaded));
    }
}

/// How the keys are written that a macro alone is bound to; nothing if there are
/// none.
pub open spec fn keys_for(bindings: Seq<KeyBinding>, tag: TagView, from: int) -> Seq<char>
    decreases bindings.len() - from,
{
    if from < 0 || from >= bindings.len() {
        Seq::empty()
    } else if bindings[from].actions@.len() == 1 && parsed_tag(bindings[from].actions@[0]@) == Some(
        tag,
    ) {
        bindings[from].label@
    } else {
        keys_for(bindings, tag, from + 1)
    }
}

fn find_keys(keybinds: &Keybinds, tag: &MacroNameTag) -> (r: String)
    ensures
        r@ == keys_for(keybinds.keybindings@, tag@, 0),
{
    let mut i: usize = 0;
    while i < keybinds.keybindings.len()
        invariant
            i <= keybinds.keybindings@.len(),
            keys_for(keybinds.keybindings@, tag@, 0) == keys_for(
                keybinds.keybindings@,
                tag@,
                i as int,
            ),
        decreases keybinds.keybindings@.len() - i,
    {
        let binding = &keybinds.keybindings[i];
        if binding.actions.len() == 1 {
            match MacroNameTag::parse(binding.actions[0].as_str()) {
                Some(named) => match named.relate_to(tag) {
                    Relation::Same => {
                        return binding.label.clone();
                    },
                    _ => {},
                },
                None => {},
            }
        }
        i += 1;
    }
    let r = String::new();
    assert(r@ =~= Seq::<char>::empty());
    r
}

impl Macros {
    /// The macros that are shown, each with the keys that it alone is bound to. Keys
    /// count only for the macro that they name in full, however names are matched.
    pub fn as_table(&self, keybinds: &Keybinds, _fuzzy_macro_name_match: bool) -> (r: Vec<
        (String, String),
    >)
        ensures
            r@.len() == self.visible().len(),
            forall|i: int|
                0 <= i < r@.len() ==> {
                    let shown = self.all@[self.visible()[i] as int];
                    &&& (#[trigger] r@[i]).0@ == shown.tag.name@
                    &&& r@[i].1@ == keys_for(keybinds.keybindings@, shown.tag@, 0)
                },
    {
        let shown = self.filtered_macros();
        assert(self.all.len() == self.all@.len());
        proof {
            lemma_positions_in_range(self.all@, self@.wanted(), self.all@.len() as int);
        }
        let mut rows: Vec<(String, String)> = Vec::new();
        let mut i: usize = 0;
        while i < shown.len()
            invariant
                i <= shown@.len(),
                shown@ == self.visible(),
                forall|j: int|
                    0 <= j < shown@.len() ==> (#[trigger] self.visible()[j]) < self.all@.len(),
                rows@.len() == i,
                forall|j: int|
                    0 <= j < i ==> {
                        let shown = self.all@[self.visible()[j] as int];
                        &&& (#[trigger] rows@[j]).0@ == shown.tag.name@
                        &&& rows@[j].1@ == keys_for(keybinds.keybindings@, shown.tag@, 0)
                    },
            decreases shown@.len() - i,
        {
            assert(self.visible()[i as int] < self.all@.len());
            let tag = &self.all[shown[i]].tag;
            rows.push((tag.name.clone(), find_keys(keybinds, tag)));
            i += 1;
        }
        rows
    }
}

/// The macro that an entry of a file stands for.
pub fn from_serialized(entry: SerializedMacro, fallback_category: &str) -> (r: Macro)
    ensures
        loaded_from(entry, fallback_category@, r),
{
    let category = match entry.category {
        Some(c) => c,
        None => fallback_category.to_owned(),
    };
    let tag = MacroNameTag {
        name: entry.name,
        category: if trim(category.as_str()).is_empty() {
            None
        } else {
            Some(category)
        },
    };
    let content = MacroContent::new_with_line_ending(
        entry.content.as_str(),
        entry.line_ending,
        entry.sensitive,
    );
    assert(tag@ =~= (TagView {
        name: entry.name@,
        category: file_category(
            match entry.category {
                Some(c) => Some(c@),
                None => None,
            },
            fallback_category@,
        ),
    }));
    Macro { tag, content }
}

} // verus!
