//! What holds of macros: how they are named, found, listed and loaded.

use vstd::prelude::*;
use vstd::string::*;
use vstd::utf8::*;

use crate::macros::{Macro, MacroFile, MacrosView, TagView};

verus! {

/// Whether some bytes come before others in a dictionary: at the first place where they
/// differ stands a smaller byte, or they end there.
pub proof fn law_dictionary_order(a: Seq<u8>, b: Seq<u8>, n: int)
    requires
        0 <= n <= a.len(),
        n <= b.len(),
        a.take(n) == b.take(n),
        n == a.len() || n == b.len() || a[n] != b[n],
    ensures
        crate::text::bytes_before(a, b) <==> n < b.len() && (n == a.len() || a[n] < b[n]),
    decreases n,
{
    if n > 0 {
        assert(a.take(n)[0] == a[0] && b.take(n)[0] == b[0]);
        assert(a.drop_first().take(n - 1) =~= a.take(n).drop_first());
        assert(b.drop_first().take(n - 1) =~= b.take(n).drop_first());
        law_dictionary_order(a.drop_first(), b.drop_first(), n - 1);
    }
}

/// Macros are listed by name; those of one name by category, with none in front.
pub proof fn law_order_of_macros(a: TagView, b: TagView)
    ensures
        ({
            let before = crate::macros::tag_before(a, b);
            &&& crate::text::bytes_before(encode_utf8(a.name), encode_utf8(b.name)) ==> before
            &&& a.name == b.name && a.category is None && b.category is Some ==> before
            &&& a.name == b.name && a.category is Some && b.category is Some ==> (before
                <==> crate::text::bytes_before(
                encode_utf8(a.category->0),
                encode_utf8(b.category->0),
            ))
            &&& a.name == b.name && b.category is None ==> !before
            &&& a.name != b.name && crate::text::bytes_before(
                encode_utf8(b.name),
                encode_utf8(a.name),
            ) ==> !before
        }),
{
    crate::text::lemma_bytes_before_is_total(encode_utf8(a.name), encode_utf8(b.name));
    crate::text::lemma_bytes_before_is_total(encode_utf8(b.name), encode_utf8(a.name));
}

proof fn lemma_first_tag(tags: Seq<TagView>, wanted: spec_fn(TagView) -> bool, from: int)
    requires
        0 <= from,
    ensures
        match crate::macros::first_tag(tags, wanted, from) {
            Some(i) => from <= i < tags.len() && wanted(tags[i]) && forall|j: int|
                from <= j < i ==> !wanted(#[trigger] tags[j]),
            None => forall|j: int| from <= j < tags.len() ==> !wanted(#[trigger] tags[j]),
        },
    decreases tags.len() - from,
{
    if from < tags.len() && !wanted(tags[from]) {
        lemma_first_tag(tags, wanted, from + 1);
    }
}

/// The macro that is found has the name that is asked for, and the category too; only if
/// there is none of that category, and names may be matched loosely, one of any other.
/// Nothing is found only if there is nothing to be found.
pub proof fn law_macro_is_found(macros: MacrosView, query: TagView, fuzzy: bool)
    ensures
        match macros.found(query, fuzzy) {
            Some(i) => {
                &&& 0 <= i < macros.all.len()
                &&& macros.all[i].tag@.name == query.name
                &&& macros.all[i].tag@.category != query.category ==> fuzzy && forall|j: int|
                    0 <= j < macros.all.len() ==> (#[trigger] macros.all[j]).tag@ != query
                &&& macros.all[i].tag@.category != query.category ==> forall|j: int|
                    0 <= j < i ==> (#[trigger] macros.all[j]).tag@.name != query.name
            },
            None => forall|j: int|
                0 <= j < macros.all.len() ==> (#[trigger] macros.all[j]).tag@ != query && (fuzzy
                    ==> macros.all[j].tag@.name != query.name),
        },
{
    let tags = crate::macros::tags_of(macros.all);
    lemma_first_tag(tags, crate::macros::tag_is(query), 0);
    lemma_first_tag(tags, crate::macros::name_is(query.name), 0);
    assert forall|j: int| 0 <= j < macros.all.len() implies tags[j] == (
    #[trigger] macros.all[j]).tag@ by {}
}

proof fn lemma_bar_at(text: Seq<char>, n: int)
    requires
        0 <= n <= text.len(),
        forall|i: int| 0 <= i < n ==> #[trigger] text[i] != '|',
        n == text.len() || text[n] == '|',
    ensures
        crate::macros::first_bar(text) == n,
    decreases n,
{
    if n > 0 {
        assert(text[0] != '|');
        assert forall|i: int| 0 <= i < n - 1 implies #[trigger] text.drop_first()[i] != '|' by {
            assert(text[i + 1] != '|');
        }
        lemma_bar_at(text.drop_first(), n - 1);
    }
}

/// A name that is written down is read as the same name and category, unless a bar in it, or
/// blanks around its parts, make it read otherwise.
pub proof fn law_names_read_back(tag: TagView)
    requires
        tag.name.len() > 0,
        crate::text::trimmed(tag.name) == tag.name,
        tag.category is None ==> !tag.name.contains('|'),
        tag.category matches Some(c) ==> c.len() > 0 && crate::text::trimmed(c) == c && !c.contains(
            '|',
        ),
    ensures
        crate::macros::parsed_tag(crate::macros::tag_text(tag)) == Some(tag),
{
    let text = crate::macros::tag_text(tag);
    match tag.category {
        None => {
            assert forall|i: int| 0 <= i < text.len() implies #[trigger] text[i] != '|' by {
                assert(tag.name.contains(text[i]));
            }
            lemma_bar_at(text, text.len() as int);
        },
        Some(c) => {
            reveal_strlit("|");
            assert forall|i: int| 0 <= i < c.len() implies #[trigger] text[i] != '|' by {
                assert(c.contains(c[i]));
            }
            assert(text[c.len() as int] == '|');
            lemma_bar_at(text, c.len() as int);
            assert(text.take(c.len() as int) =~= c);
            assert(text.skip((c.len() + 1) as int) =~= tag.name);
        },
    }
}

proof fn lemma_positions(all: Seq<Macro>, wanted: spec_fn(Macro) -> bool, n: int, i: int)
    requires
        0 <= n <= all.len() <= usize::MAX,
        0 <= i < all.len(),
    ensures
        crate::macros::positions(all, wanted, n).contains(i as usize) <==> i < n && wanted(all[i]),
    decreases n,
{
    if n > 0 {
        lemma_positions(all, wanted, n - 1, i);
        crate::macros::lemma_positions_in_range(all, wanted, n - 1);
        let before = crate::macros::positions(all, wanted, n - 1);
        let now = crate::macros::positions(all, wanted, n);
        if wanted(all[n - 1]) {
            assert(now[before.len() as int] == (n - 1) as usize);
            if before.contains(i as usize) {
                let k = choose|k: int| 0 <= k < before.len() && before[k] == i as usize;
                assert(now[k] == i as usize);
            }
            if now.contains(i as usize) && i != n - 1 {
                let k = choose|k: int| 0 <= k < now.len() && now[k] == i as usize;
                assert(before[k] == i as usize);
            }
        }
    }
}

/// Which macros are listed while nothing is searched for: those with escaped bytes, those
/// without, or all of them; and behind these entries those of a category.
pub proof fn law_listed_macros(macros: MacrosView, i: int)
    requires
        0 <= i < macros.all.len() <= usize::MAX,
        macros.query.len() == 0,
    ensures
        ({
            let listed = macros.visible().contains(i as usize);
            let m = macros.all[i];
            &&& macros.category_index == 0 ==> (listed <==> m.content.has_escaped_bytes)
            &&& macros.category_index == 1 ==> (listed <==> !m.content.has_escaped_bytes)
            &&& macros.category_index == 2 ==> listed
            &&& macros.category_index >= 3 && listed ==> {
                ||| macros.category_index == 3 && m.tag@.category is None
                ||| m.tag@.category is Some
            }
        }),
{
    lemma_positions(macros.all, macros.wanted(), macros.all.len() as int, i);
}

/// Behind the fixed entries come the macros without a category, if there are any, and then
/// one category after the other; each lists all macros of that category, and no others.
pub proof fn law_macros_of_a_category(macros: MacrosView)
    requires
        macros.all.len() <= usize::MAX,
        macros.query.len() == 0,
        3 <= macros.category_index < macros.entries(),
    ensures
        ({
            let without = exists|j: int|
                0 <= j < macros.all.len() && (#[trigger] macros.all[j]).tag@.category is None;
            &&& without && macros.category_index == 3 ==> forall|j: int|
                0 <= j < macros.all.len() ==> (macros.visible().contains(j as usize) <==> (
                #[trigger] macros.all[j]).tag@.category is None)
            &&& !(without && macros.category_index == 3) ==> exists|c: Seq<char>|
                {
                    &&& #[trigger] has_category(macros.all, c)
                    &&& forall|j: int|
                        0 <= j < macros.all.len() ==> (macros.visible().contains(j as usize) <==> (
                        #[trigger] macros.all[j]).tag@.category == Some(c))
                }
        }),
{
    let tags = crate::macros::tags_of(macros.all);
    let at = macros.category_index - 3;
    let entries = crate::macros::category_entries(tags);
    assert forall|j: int| 0 <= j < macros.all.len() implies tags[j] == (
    #[trigger] macros.all[j]).tag@ by {}
    assert forall|j: int| 0 <= j < macros.all.len() implies (macros.visible().contains(
        j as usize,
    ) <==> macros.wanted()(#[trigger] macros.all[j])) by {
        lemma_positions(macros.all, macros.wanted(), macros.all.len() as int, j);
    }
    let without = exists|j: int|
        0 <= j < macros.all.len() && (#[trigger] macros.all[j]).tag@.category is None;
    assert(without == crate::macros::any_uncategorized(tags)) by {
        if without {
            let j = choose|j: int|
                0 <= j < macros.all.len() && (#[trigger] macros.all[j]).tag@.category is None;
            assert(tags[j].category is None);
        }
        if crate::macros::any_uncategorized(tags) {
            let j = choose|j: int| 0 <= j < tags.len() && (#[trigger] tags[j]).category is None;
            assert(macros.all[j].tag@.category is None);
        }
    }
    if !(without && macros.category_index == 3) {
        let c = entries[at];
        crate::macros::law_categories_are_listed(tags);
        let sorted = crate::macros::sorted_categories(tags);
        let k = if without {
            at - 1
        } else {
            at
        };
        assert(sorted[k] == c);
        assert(sorted.contains(c));
        let j = choose|j: int| 0 <= j < tags.len() && (#[trigger] tags[j]).category == Some(c);
        assert(macros.all[j].tag@.category == Some(c));
        assert(has_category(macros.all, c));
    }
}

/// Whether one of some macros belongs to a category.
pub open spec fn has_category(all: Seq<Macro>, category: Seq<char>) -> bool {
    exists|j: int| 0 <= j < all.len() && (#[trigger] all[j]).tag@.category == Some(category)
}

/// Every macro that has a category can be found under an entry of the selector for it.
pub proof fn law_every_category_has_an_entry(macros: MacrosView, i: int)
    requires
        0 <= i < macros.all.len() <= usize::MAX,
        macros.query.len() == 0,
        macros.all[i].tag@.category is Some,
        macros.entries() <= usize::MAX,
    ensures
        exists|k: usize|
            3 <= k < macros.entries() && (#[trigger] (MacrosView {
                category_index: k,
                ..macros
            }).visible()).contains(i as usize),
{
    let tags = crate::macros::tags_of(macros.all);
    let c = macros.all[i].tag@.category->0;
    assert(tags[i].category == Some(c));
    crate::macros::law_categories_are_listed(tags);
    let sorted = crate::macros::sorted_categories(tags);
    assert(sorted.contains(c));
    let at = sorted.index_of(c);
    let without = crate::macros::any_uncategorized(tags);
    let k: usize = (3 + at + (if without {
        1int
    } else {
        0
    })) as usize;
    let there = MacrosView { category_index: k, ..macros };
    assert(crate::macros::category_entries(tags)[k - 3] == c);
    lemma_positions(there.all, there.wanted(), there.all.len() as int, i);
    assert(there.wanted()(macros.all[i]));
    assert(there.visible().contains(i as usize));
}

/// Stepping through the entries of the selector goes to the next one, and stays at either
/// end.
pub proof fn law_steps_through_categories(macros: MacrosView)
    requires
        macros.category_index < macros.entries() <= usize::MAX,
    ensures
        macros.stepped(true).category_index < macros.entries(),
        macros.stepped(false).category_index < macros.entries(),
        macros.category_index + 1 < macros.entries() ==> macros.stepped(true).category_index
            == macros.category_index + 1,
        macros.category_index + 1 == macros.entries() ==> macros.stepped(true).category_index
            == macros.category_index,
        macros.category_index > 0 ==> macros.stepped(false).category_index
            == macros.category_index - 1,
        macros.category_index == 0 ==> macros.stepped(false).category_index == 0,
{
}

/// A search lists the macros whose name starts with what is searched for, whatever the case
/// of ASCII letters, and no others.
pub proof fn law_searched_macros(macros: MacrosView, i: int)
    requires
        0 <= i < macros.all.len() <= usize::MAX,
        macros.query.len() > 0,
    ensures
        ({
            let listed = macros.visible().contains(i as usize);
            let name = encode_utf8(macros.all[i].tag@.name);
            let query = encode_utf8(macros.query);
            &&& listed ==> query.len() <= name.len() && forall|k: int|
                0 <= k < query.len() ==> crate::text::ascii_lower(#[trigger] query[k])
                    == crate::text::ascii_lower(name[k])
            &&& macros.all[i].tag@.name == macros.query ==> listed
        }),
{
    lemma_positions(macros.all, macros.wanted(), macros.all.len() as int, i);
    let name = encode_utf8(macros.all[i].tag@.name);
    let query = encode_utf8(macros.query);
    encode_utf8_valid_utf8(macros.all[i].tag@.name);
    is_char_boundary_start_end_of_seq(name);
    if macros.all[i].tag@.name == macros.query {
        assert(name.take(query.len() as int) =~= name);
    }
    if macros.visible().contains(i as usize) {
        assert(query.len() <= name.len()) by {
            reveal(is_char_boundary);
        }
        let a = name.take(query.len() as int).map_values(|b: u8| crate::text::ascii_lower(b));
        let b = query.map_values(|b: u8| crate::text::ascii_lower(b));
        assert(a == b);
        assert forall|k: int| 0 <= k < query.len() implies crate::text::ascii_lower(
            #[trigger] query[k],
        ) == crate::text::ascii_lower(name[k]) by {
            assert(a[k] == b[k]);
            assert(a[k] == crate::text::ascii_lower(name[k]));
            assert(b[k] == crate::text::ascii_lower(query[k]));
        }
    }
}

/// A macro from a file keeps its name, text, line ending and whether it is sensitive. Its
/// category is its own, else the one that the file names, else the name of the file; a blank
/// one is none.
pub proof fn law_loaded_macros(file: MacroFile, stem: Seq<char>, loaded: Seq<Macro>, i: int)
    requires
        crate::macros::file_macros(file, stem, loaded),
        0 <= i < file.macros@.len(),
    ensures
        loaded.len() == file.macros@.len(),
        ({
            let (entry, m) = (file.macros@[i], loaded[i]);
            let category = if entry.category is Some {
                entry.category->0@
            } else if file.category_override is Some {
                file.category_override->0@
            } else {
                stem
            };
            &&& m.tag@.name == entry.name@
            &&& m.content.content@ == entry.content@
            &&& m.content.escaped_line_ending == entry.line_ending
            &&& m.content.sensitive == entry.sensitive
            &&& m.tag@.category == (if crate::text::trimmed(category).len() == 0 {
                None
            } else {
                Some(category)
            })
            &&& m.content.has_escaped_bytes ==> crate::foreign::unescaped(entry.content@)
                != encode_utf8(entry.content@)
            &&& encode_utf8(entry.content@).contains(0x5c) && crate::foreign::unescaped(
                entry.content@,
            ) != encode_utf8(entry.content@) ==> m.content.has_escaped_bytes
        }),
{
    assert(crate::macros::loaded_from(
        file.macros@[i],
        crate::macros::fallback_of(file, stem),
        loaded[i],
    ));
}

/// A macro that is added is there, in place of one of the same name and category, and all
/// others stay as they are.
pub proof fn law_added_macro_replaces_its_namesake(all: Seq<Macro>, added: Macro, i: int)
    requires
        crate::macros::in_order(crate::macros::tags_of(all)),
        0 <= i < all.len(),
    ensures
        crate::macros::with_macro(all, added).contains(added),
        all[i].tag@ != added.tag@ ==> crate::macros::with_macro(all, added).contains(all[i]),
        forall|k: int|
            0 <= k < crate::macros::with_macro(all, added).len() ==> {
                let m = #[trigger] crate::macros::with_macro(all, added)[k];
                m == added || (m.tag@ != added.tag@ && all.contains(m))
            },
{
    let tags = crate::macros::tags_of(all);
    let at = crate::macros::rank(tags, added.tag@);
    crate::macros::lemma_rank_bounds(tags, added.tag@);
    let new = crate::macros::with_macro(all, added);
    assert(new[at] == added);
    assert forall|k: int| 0 <= k < all.len() implies tags[k] == (#[trigger] all[k]).tag@ by {}
    if all[i].tag@ != added.tag@ {
        if at < all.len() && all[at].tag@ == added.tag@ {
            assert(new[i] == all[i]);
        } else if i < at {
            assert(new[i] == all[i]);
        } else {
            assert(new[i + 1] == all[i]);
        }
    }
    assert forall|k: int| 0 <= k < new.len() implies ({
        let m = #[trigger] new[k];
        m == added || (m.tag@ != added.tag@ && all.contains(m))
    }) by {
        crate::macros::lemma_tag_order(added.tag@, added.tag@);
        if k != at {
            let j = if at < all.len() && all[at].tag@ == added.tag@ {
                k
            } else if k < at {
                k
            } else {
                k - 1
            };
            assert(new[k] == all[j]);
            assert(all.contains(all[j]));
            if all[j].tag@ == added.tag@ {
                if j < at {
                    assert(crate::macros::tag_before(tags[j], added.tag@));
                } else if at < all.len() && j > at {
                    assert(crate::macros::tag_before(tags[at], tags[j]));
                    assert(!crate::macros::tag_before(tags[at], added.tag@));
                }
            }
        }
    }
}

} // verus!
