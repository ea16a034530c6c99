//! What holds of texts and numbers, of what is typed and bound, and of updates.

use vstd::prelude::*;
use vstd::string::*;
use vstd::utf8::*;

use crate::keybinds::{ActionView, BuiltinAction, KeyBinding};
use crate::keys::{KeyCode, KeyEvent};
use crate::parse::NumberError;
use crate::text_input::{EntryView, HistoryView, TextInputView};
use crate::updates::{Release, ReleaseAsset};
use crate::watch::InterruptWatch;

verus! {

/// The value of a digit, in either case.
pub open spec fn value_of_digit(c: char) -> int {
    let v = c as u32;
    if 0x30 <= v <= 0x39 {
        v - 0x30
    } else if 0x41 <= v <= 0x46 {
        v - 0x41 + 10
    } else {
        v - 0x61 + 10
    }
}

/// The value of some digits, the most significant one first.
pub open spec fn value_of_digits(s: Seq<char>, base: int) -> int
    decreases s.len(),
{
    if s.len() == 0 {
        0
    } else {
        base * value_of_digits(s.drop_last(), base) + value_of_digit(s.last())
    }
}

/// The digits of a number have its value, and no needless zero in front.
pub proof fn law_digits_have_the_value(n: nat, base: nat)
    requires
        2 <= base <= 16,
    ensures
        value_of_digits(crate::text::digits(n, base), base as int) == n,
        crate::text::digits(n, base).len() > 0,
        n > 0 ==> crate::text::digits(n, base)[0] != '0',
    decreases n,
{
    let s = crate::text::digits(n, base);
    if n < base {
        assert(s.drop_last() =~= Seq::<char>::empty());
        assert(value_of_digits(s.drop_last(), base as int) == 0);
        assert(value_of_digits(s, base as int) == base * 0 + value_of_digit(s.last()));
    } else {
        assert(0 < n / base < n) by (nonlinear_arith)
            requires
                n >= base,
                base >= 2,
        ;
        law_digits_have_the_value(n / base, base);
        let front = crate::text::digits(n / base, base);
        assert(s.drop_last() =~= front);
        assert(s[0] == front[0]);
        assert(0 <= n % base < base);
        vstd::arithmetic::div_mod::lemma_fundamental_div_mod(n as int, base as int);
    }
}

/// Both digits of a byte together have its value.
pub proof fn law_digits_of_a_byte(b: u8)
    ensures
        crate::text::byte_digits(b).len() == 2,
        value_of_digits(crate::text::byte_digits(b), 16) == b,
{
    let s = crate::text::byte_digits(b);
    assert(s.drop_last().drop_last() =~= Seq::<char>::empty());
    assert(value_of_digits(s.drop_last().drop_last(), 16) == 0);
    assert(s.drop_last().last() == s[0]);
    assert(value_of_digits(s.drop_last(), 16) == value_of_digit(s[0]));
}

proof fn lemma_read_one_more(s: Seq<char>, c: char, so_far: int, max: int)
    ensures
        crate::parse::digits_read(s.push(c), so_far, max) == match crate::parse::digits_read(
            s,
            so_far,
            max,
        ) {
            Err(e) => Err(e),
            Ok(v) => match crate::parse::digit_value(c) {
                None => Err(NumberError::InvalidDigit),
                Some(d) => if v * 10 + d > max {
                    Err(NumberError::TooLarge)
                } else {
                    Ok(v * 10 + d)
                },
            },
        },
    decreases s.len(),
{
    reveal_with_fuel(crate::parse::digits_read, 2);
    if s.len() == 0 {
        assert(s.push(c).skip(1) =~= Seq::<char>::empty());
        assert(s.push(c)[0] == c);
    } else {
        assert(s.push(c).skip(1) =~= s.skip(1).push(c));
        assert(s.push(c)[0] == s[0]);
        match crate::parse::digit_value(s[0]) {
            Some(d) => {
                lemma_read_one_more(s.skip(1), c, so_far * 10 + d, max);
            },
            None => {},
        }
    }
}

/// A number that fits is read back from its digits, and one that does not is refused.
pub proof fn law_number_reads_back(n: nat, max: int)
    requires
        max >= 0,
    ensures
        n <= max ==> crate::parse::decimal(crate::text::digits(n, 10), max) == Ok::<
            int,
            NumberError,
        >(n as int),
        n > max ==> crate::parse::decimal(crate::text::digits(n, 10), max) == Err::<
            int,
            NumberError,
        >(NumberError::TooLarge),
{
    lemma_digits_read_back(n, max);
    lemma_digits_are_digits(n);
    let s = crate::text::digits(n, 10);
    assert(s[0] != '+');
}

proof fn lemma_digits_are_digits(n: nat)
    ensures
        crate::text::digits(n, 10).len() > 0,
        forall|i: int|
            0 <= i < crate::text::digits(n, 10).len() ==> '0' <= #[trigger] crate::text::digits(
                n,
                10,
            )[i] <= '9',
    decreases n,
{
    if n >= 10 {
        lemma_digits_are_digits(n / 10);
    }
}

proof fn lemma_digits_read_back(n: nat, max: int)
    requires
        max >= 0,
    ensures
        n <= max ==> crate::parse::digits_read(crate::text::digits(n, 10), 0, max) == Ok::<
            int,
            NumberError,
        >(n as int),
        n > max ==> crate::parse::digits_read(crate::text::digits(n, 10), 0, max) == Err::<
            int,
            NumberError,
        >(NumberError::TooLarge),
    decreases n,
{
    let s = crate::text::digits(n, 10);
    reveal_with_fuel(crate::parse::digits_read, 2);
    if n < 10 {
        assert(s.skip(1) =~= Seq::<char>::empty());
    } else {
        lemma_digits_read_back(n / 10, max);
        let c = crate::text::digit(n % 10);
        lemma_read_one_more(crate::text::digits(n / 10, 10), c, 0, max);
        assert(crate::parse::digit_value(c) == Some((n % 10) as int));
        assert(n == (n / 10) * 10 + n % 10);
    }
}

/// What is read as a number has that value: it holds nothing but digits, behind a plus sign
/// or not, and is not too large. Only an empty text is empty.
pub proof fn law_read_number_has_its_value(s: Seq<char>, max: int)
    ensures
        crate::parse::decimal(s, max) matches Ok(n) ==> {
            let digits = if s[0] == '+' {
                s.skip(1)
            } else {
                s
            };
            &&& n == value_of_digits(digits, 10)
            &&& n <= max
            &&& digits.len() > 0
            &&& forall|i: int| 0 <= i < digits.len() ==> '0' <= #[trigger] digits[i] <= '9'
        },
        crate::parse::decimal(s, max) == Err::<int, NumberError>(NumberError::Empty) <==> s.len()
            == 0,
{
    if s.len() > 0 {
        let digits = if s[0] == '+' && s.len() > 1 {
            s.skip(1)
        } else {
            s
        };
        lemma_read_value(digits, max);
        if s[0] == '+' && s.len() == 1 {
            assert(crate::parse::digit_value('+') is None);
            reveal_with_fuel(crate::parse::digits_read, 2);
        }
    }
}

proof fn lemma_read_value(s: Seq<char>, max: int)
    ensures
        crate::parse::digits_read(s, 0, max) != Err::<int, NumberError>(NumberError::Empty),
        crate::parse::digits_read(s, 0, max) matches Ok(n) ==> {
            &&& n == value_of_digits(s, 10)
            &&& s.len() > 0 ==> n <= max
            &&& forall|i: int| 0 <= i < s.len() ==> '0' <= #[trigger] s[i] <= '9'
        },
    decreases s.len(),
{
    if s.len() > 0 {
        let front = s.drop_last();
        lemma_read_value(front, max);
        lemma_read_one_more(front, s.last(), 0, max);
        assert(front.push(s.last()) =~= s);
        assert forall|i: int|
            crate::parse::digits_read(s, 0, max) is Ok && 0 <= i < s.len() implies '0'
            <= #[trigger] s[i] <= '9' by {
            if i < front.len() {
                assert(s[i] == front[i]);
            }
        }
    }
}

/// Trimming takes white space away from both ends, all of it, and nothing else.
pub proof fn law_trimming(s: Seq<char>)
    ensures
        ({
            let t = crate::text::trimmed(s);
            &&& t.len() > 0 ==> !crate::text::white_space(t[0]) && !crate::text::white_space(
                t.last(),
            )
            &&& exists|from: int, to: int|
                {
                    &&& 0 <= from <= to <= s.len()
                    &&& t == #[trigger] s.subrange(from, to)
                    &&& forall|i: int|
                        0 <= i < from || to <= i < s.len() ==> crate::text::white_space(
                            #[trigger] s[i],
                        )
                }
        }),
{
    let from = crate::text::first_visible(s);
    lemma_first_visible(s);
    let tail = s.subrange(from, s.len() as int);
    let end = crate::text::past_last_visible(tail);
    lemma_past_last_visible(tail);
    let t = crate::text::trimmed(s);
    assert(t =~= s.subrange(from, from + end));
    if t.len() > 0 {
        assert(t[0] == s[from]);
        assert(t.last() == tail[end - 1]);
    }
    assert forall|i: int| 0 <= i < from || from + end <= i < s.len() implies crate::text::white_space(
        #[trigger] s[i],
    ) by {
        if i >= from {
            assert(s[i] == tail[i - from]);
        }
    }
}

proof fn lemma_first_visible(s: Seq<char>)
    ensures
        0 <= crate::text::first_visible(s) <= s.len(),
        forall|i: int|
            0 <= i < crate::text::first_visible(s) ==> crate::text::white_space(#[trigger] s[i]),
        crate::text::first_visible(s) < s.len() ==> !crate::text::white_space(
            s[crate::text::first_visible(s)],
        ),
    decreases s.len(),
{
    if s.len() > 0 && crate::text::white_space(s[0]) {
        lemma_first_visible(s.drop_first());
        assert forall|i: int| 0 <= i < crate::text::first_visible(s) implies crate::text::white_space(
            #[trigger] s[i],
        ) by {
            if i > 0 {
                assert(s.drop_first()[i - 1] == s[i]);
            }
        }
    }
}

pub proof fn lemma_past_last_visible(s: Seq<char>)
    ensures
        0 <= crate::text::past_last_visible(s) <= s.len(),
        forall|i: int|
            crate::text::past_last_visible(s) <= i < s.len() ==> crate::text::white_space(
                #[trigger] s[i],
            ),
        crate::text::past_last_visible(s) > 0 ==> !crate::text::white_space(
            s[crate::text::past_last_visible(s) - 1],
        ),
    decreases s.len(),
{
    if s.len() > 0 && crate::text::white_space(s.last()) {
        lemma_past_last_visible(s.drop_last());
        assert forall|i: int|
            crate::text::past_last_visible(s) <= i < s.len() implies crate::text::white_space(
            #[trigger] s[i],
        ) by {
            if i < s.len() - 1 {
                assert(s.drop_last()[i] == s[i]);
            }
        }
    }
}

/// A padded text ends with the text, has the width that was asked for unless it is longer
/// itself, and nothing but padding in front.
pub proof fn law_padding(s: Seq<char>, width: nat, fill: char)
    ensures
        ({
            let p = crate::text::pad_left(s, width, fill);
            &&& p.len() >= s.len()
            &&& s.len() <= width ==> p.len() == width
            &&& s.len() > width ==> p == s
            &&& p.skip(p.len() - s.len()) == s
            &&& forall|i: int| 0 <= i < p.len() - s.len() ==> #[trigger] p[i] == fill
        }),
{
    let p = crate::text::pad_left(s, width, fill);
    assert(p.skip(p.len() - s.len()) =~= s);
}

/// What was sent last comes last in the history, once; everything else stays in its order.
pub proof fn law_history_keeps_its_order(h: HistoryView, entry: EntryView)
    requires
        crate::text_input::history_wf(h),
        h.entries.len() < usize::MAX,
        entry.text.len() > 0,
    ensures
        ({
            let after = crate::text_input::pushed(h, entry).entries;
            &&& after.last() == entry
            &&& forall|i: int| 0 <= i < after.len() - 1 ==> #[trigger] after[i] != entry
            &&& forall|i: int|
                0 <= i < h.entries.len() ==> after.contains(#[trigger] h.entries[i])
            &&& forall|i: int, j: int|
                0 <= i < j < after.len() - 1 ==> h.entries.index_of(#[trigger] after[i])
                    < h.entries.index_of(#[trigger] after[j])
        }),
{
    let after = crate::text_input::pushed(h, entry).entries;
    let at = h.entries.index_of(entry);
    assert forall|i: int| 0 <= i < after.len() - 1 implies {
        &&& #[trigger] after[i] != entry
        &&& h.entries.index_of(after[i]) == (if h.entries.contains(entry) && i >= at {
            i + 1
        } else {
            i
        })
    } by {
        let from: int = if h.entries.contains(entry) && i >= at {
            i + 1
        } else {
            i
        };
        assert(after[i] == h.entries[from]);
        assert(h.entries.contains(h.entries[from]));
    }
    assert forall|i: int| 0 <= i < h.entries.len() implies after.contains(
        #[trigger] h.entries[i],
    ) by {
        if h.entries[i] == entry {
            assert(after[after.len() - 1] == entry);
        } else if h.entries.contains(entry) && i > at {
            assert(after[i - 1] == h.entries[i]);
        } else {
            assert(after[i] == h.entries[i]);
        }
    }
}

/// A step up through the history goes to the next older entry, and stays at the oldest; a
/// step down goes to the next newer one, and from the newest out of the history.
pub proof fn law_steps_through_the_history(h: HistoryView)
    requires
        crate::text_input::history_wf(h),
        h.entries.len() > 0,
    ensures
        h.selected is None ==> crate::text_input::stepped(h, true) == Some(
            (h.entries.len() - 1) as usize,
        ),
        h.selected is None ==> crate::text_input::stepped(h, false) is None,
        h.selected matches Some(i) ==> {
            &&& i > 0 ==> crate::text_input::stepped(h, true) == Some((i - 1) as usize)
            &&& i == 0 ==> crate::text_input::stepped(h, true) == Some(0usize)
            &&& i + 1 < h.entries.len() ==> crate::text_input::stepped(h, false) == Some(
                (i + 1) as usize,
            )
            &&& i + 1 == h.entries.len() ==> crate::text_input::stepped(h, false) is None
        },
{
}

/// A search goes to the newest entry before the one found last that starts with what was
/// typed; if there is none, nothing changes.
pub proof fn law_search_goes_back(v: TextInputView)
    requires
        v.wf(),
        v.text.len() > 0,
    ensures
        ({
            let end = match v.search_result {
                Some(i) => i as int,
                None => v.history.entries.len() as int,
            };
            let query = v.own_input();
            let after = v.searched();
            ||| {
                &&& after == v
                &&& forall|i: int|
                    0 <= i < end ==> !TextInputView::matches_query(
                        #[trigger] v.history.entries[i],
                        query,
                    )
            }
            ||| exists|found: int|
                {
                    &&& 0 <= found < end
                    &&& after.search_result == Some(found as usize)
                    &&& after.text == (#[trigger] v.history.entries[found]).text
                    &&& TextInputView::matches_query(v.history.entries[found], query)
                    &&& forall|i: int|
                        found < i < end ==> !TextInputView::matches_query(
                            #[trigger] v.history.entries[i],
                            query,
                        )
                }
        }),
{
    let end = match v.search_result {
        Some(i) => i as int,
        None => v.history.entries.len() as int,
    };
    lemma_newest_match(v.history.entries, end, v.own_input());
}

proof fn lemma_newest_match(entries: Seq<EntryView>, n: int, query: EntryView)
    requires
        0 <= n <= entries.len(),
    ensures
        match TextInputView::newest_match(entries, n, query) {
            Some(found) => 0 <= found < n && TextInputView::matches_query(entries[found], query)
                && forall|i: int|
                found < i < n ==> !TextInputView::matches_query(#[trigger] entries[i], query),
            None => forall|i: int|
                0 <= i < n ==> !TextInputView::matches_query(#[trigger] entries[i], query),
        },
    decreases n,
{
    if n > 0 {
        lemma_newest_match(entries, n - 1, query);
    }
}

/// A text that is turned into bytes and back is the same text again.
pub proof fn law_text_and_bytes(v: TextInputView)
    requires
        !v.bytes_input,
    ensures
        v.toggled().bytes_input,
        crate::foreign::hex_decoded(encode_utf8(v.toggled().text)) == encode_utf8(v.text),
        !v.toggled().toggled().bytes_input,
        v.toggled().toggled().text == v.text,
{
    let bytes = encode_utf8(v.text);
    crate::foreign::law_hex_round_trip(bytes);
    let there = v.toggled();
    let digits = encode_utf8(there.text);
    assert(digits.len() % 2 == 0);
    assert(digits.len() / 2 == bytes.len());
    assert(digits.take(digits.len() as int) =~= digits);
    if digits.len() > 0 {
        encode_utf8_valid_utf8(v.text);
        assert(bytes.take(bytes.len() as int) =~= bytes);
        assert(crate::text_input::longest_text(v.text, bytes));
        crate::text_input::lemma_longest_is_unique(v.text, bytes);
    } else {
        assert(bytes.len() == 0);
        assert(v.text.len() == 0) by {
            if v.text.len() > 0 {
                encode_utf8_decode_utf8(v.text);
                encode_utf8_decode_utf8(Seq::<char>::empty());
                assert(encode_utf8(Seq::<char>::empty()) =~= bytes);
            }
        }
        assert(there.toggled().text =~= v.text);
    }
}

/// While bytes are typed, only hexadecimal digits go into the box, in upper case; keys that
/// are no characters are let through, and while a text is typed, every key is.
pub proof fn law_digits_are_let_through(key: KeyEvent, bytes_input: bool)
    ensures
        ({
            let let_through = crate::text_input::accepted_key(key, bytes_input);
            &&& !bytes_input ==> let_through == Some(key)
            &&& !(key.code is Char) ==> let_through == Some(key)
            &&& bytes_input ==> (key.code matches KeyCode::Char(c) ==> match let_through {
                Some(new) => new.modifiers == key.modifiers && new.code == KeyCode::Char(
                    crate::text::upper_char(c),
                ) && (('0' <= c <= '9') || ('a' <= c <= 'f') || ('A' <= c <= 'F')),
                None => !(('0' <= c <= '9') || ('a' <= c <= 'f') || ('A' <= c <= 'F')),
            })
        }),
{
}

/// A combination stands for its first binding; one that is not bound has none.
pub proof fn law_bindings_are_found(bindings: Seq<KeyBinding>, combo: KeyEvent)
    ensures
        match crate::keybinds::binding_of(bindings, combo, 0) {
            Some(i) => 0 <= i < bindings.len() && bindings[i].combo == combo && forall|j: int|
                0 <= j < i ==> (#[trigger] bindings[j]).combo != combo,
            None => forall|j: int|
                0 <= j < bindings.len() ==> (#[trigger] bindings[j]).combo != combo,
        },
{
    lemma_binding_of(bindings, combo, 0);
}

proof fn lemma_binding_of(bindings: Seq<KeyBinding>, combo: KeyEvent, from: int)
    requires
        0 <= from,
    ensures
        match crate::keybinds::binding_of(bindings, combo, from) {
            Some(i) => from <= i < bindings.len() && bindings[i].combo == combo && forall|j: int|
                from <= j < i ==> (#[trigger] bindings[j]).combo != combo,
            None => forall|j: int|
                from <= j < bindings.len() ==> (#[trigger] bindings[j]).combo != combo,
        },
    decreases bindings.len() - from,
{
    if from < bindings.len() {
        lemma_binding_of(bindings, combo, from + 1);
    }
}

/// An action is found by its name in any case, and only by its name.
pub proof fn law_actions_have_names(text: Seq<char>)
    ensures
        match BuiltinAction::called(text, 0) {
            Some(found) => crate::text::same_ignoring_ascii_case(found.title(), text),
            None => forall|i: int|
                0 <= i < crate::keybinds::builtin_actions().len()
                    ==> !crate::text::same_ignoring_ascii_case(
                    (#[trigger] crate::keybinds::builtin_actions()[i]).title(),
                    text,
                ),
        },
{
    lemma_called(text, 0);
}

/// Every action is in the list, at its place.
#[verifier::rlimit(40)]
pub proof fn law_actions_have_places(action: BuiltinAction)
    ensures
        0 <= action.place() < crate::keybinds::builtin_actions().len(),
        crate::keybinds::builtin_actions()[action.place()] == action,
{
}

/// White space is what separates words: a space, a tabulator, line feeds and their like, and
/// no letter, digit or sign.
pub proof fn law_white_space(c: char)
    ensures
        crate::text::white_space(' '),
        crate::text::white_space('\t'),
        crate::text::white_space('\n'),
        crate::text::white_space('\r'),
        0x21 <= c as u32 <= 0x7e ==> !crate::text::white_space(c),
        (c as u32) < 0x9 || 0xd < (c as u32) < 0x20 ==> !crate::text::white_space(c),
{
}

#[verifier::rlimit(40)]
proof fn lemma_called(text: Seq<char>, from: int)
    requires
        0 <= from,
    ensures
        match BuiltinAction::called(text, from) {
            Some(found) => crate::text::same_ignoring_ascii_case(found.title(), text),
            None => forall|i: int|
                from <= i < crate::keybinds::builtin_actions().len()
                    ==> !crate::text::same_ignoring_ascii_case(
                    (#[trigger] crate::keybinds::builtin_actions()[i]).title(),
                    text,
                ),
        },
    decreases crate::keybinds::builtin_actions().len() - from,
{
    if from < crate::keybinds::builtin_actions().len() {
        lemma_called(text, from + 1);
    }
}

/// Whatever sends bytes, or works on a device, needs a connection; whatever needs a
/// connection needs the terminal.
pub proof fn law_what_needs_a_connection(action: ActionView)
    ensures
        action is MacroInvocation || action is EspFlashProfile ==> action.needs_connection(),
        action is Pause ==> !action.needs_connection() && !action.needs_terminal(),
        action.needs_connection() ==> action.needs_terminal(),
        action matches ActionView::BuiltinAction(BuiltinAction::EspBuiltin(esp)) ==> (
        action.needs_connection() <==> !(esp is ReloadProfiles)),
        action matches ActionView::BuiltinAction(BuiltinAction::Port(port)) ==> (
        action.needs_connection() <==> !(port is AttemptReconnectStrict
            || port is AttemptReconnectLoose)),
        action matches ActionView::BuiltinAction(BuiltinAction::Popup(_))
            ==> !action.needs_terminal(),
{
}

/// With shift a letter is the upper-case one, and an upper-case letter is one with shift;
/// so both ways of typing it are one combination. Anything else stays as it is.
pub proof fn law_combinations(key: KeyEvent, c: char)
    requires
        'a' <= c <= 'z',
    ensures
        (KeyEvent { code: KeyCode::Char(c), modifiers: 1 }).combination() == (KeyEvent {
            code: KeyCode::Char(crate::text::upper_char(c)),
            modifiers: 0,
        }).combination(),
        key.combination().combination() == key.combination(),
        !(key.code is Char) ==> key.combination() == key,
        (KeyEvent { code: KeyCode::Char(c), modifiers: 0 }).combination().code == KeyCode::Char(c),
{
}

/// Of the releases that may be chosen a newest one is; one that may be is newer than this
/// program, and no pre-release unless those are allowed.
pub proof fn law_release_is_chosen(
    releases: Seq<Release>,
    current: Seq<char>,
    allow_pre_releases: bool,
)
    ensures
        match crate::updates::newest(releases, releases.len() as int, current, allow_pre_releases) {
            Some(i) => {
                &&& 0 <= i < releases.len()
                &&& crate::foreign::newer_version(releases[i].version@, current)
                &&& crate::foreign::is_version(releases[i].version@)
                &&& allow_pre_releases || !crate::updates::text_contains(
                    releases[i].version@,
                    "pre"@,
                )
            },
            None => forall|j: int|
                0 <= j < releases.len() ==> {
                    ||| !crate::foreign::is_version((#[trigger] releases[j]).version@)
                    ||| !crate::foreign::newer_version(releases[j].version@, current)
                    ||| !allow_pre_releases && crate::updates::text_contains(
                        releases[j].version@,
                        "pre"@,
                    )
                },
        },
{
    lemma_newest(releases, releases.len() as int, current, allow_pre_releases);
}

proof fn lemma_newest(releases: Seq<Release>, n: int, current: Seq<char>, allow_pre_releases: bool)
    requires
        0 <= n <= releases.len(),
    ensures
        match crate::updates::newest(releases, n, current, allow_pre_releases) {
            Some(i) => 0 <= i < n && crate::updates::eligible(
                releases[i].version@,
                current,
                allow_pre_releases,
            ),
            None => forall|j: int|
                0 <= j < n ==> !crate::updates::eligible(
                    (#[trigger] releases[j]).version@,
                    current,
                    allow_pre_releases,
                ),
        },
    decreases n,
{
    if n > 0 {
        lemma_newest(releases, n - 1, current, allow_pre_releases);
    }
}

/// What is downloaded is for this kind of build: an archive, and a file that ends as
/// checksums do. Both are the first of their kind.
pub proof fn law_files_of_an_update(
    assets: Seq<ReleaseAsset>,
    flavor: Seq<char>,
    target: Seq<char>,
    one_pair: bool,
)
    ensures
        crate::updates::pair_for(assets, flavor, target, one_pair) matches Some(
            (archive, checksum),
        ) ==> {
            &&& 0 <= archive < assets.len()
            &&& 0 <= checksum < assets.len()
            &&& crate::updates::text_contains(assets[archive].name@, flavor)
            &&& crate::updates::text_contains(assets[archive].name@, target)
            &&& crate::updates::text_contains(assets[checksum].name@, flavor)
            &&& crate::updates::text_contains(assets[checksum].name@, target)
            &&& crate::updates::is_checksum(assets[checksum])
            &&& !crate::updates::is_checksum(assets[archive])
            &&& one_pair ==> forall|j: int|
                0 <= j < assets.len() && j != archive && j != checksum ==> !(
                crate::updates::text_contains((#[trigger] assets[j]).name@, flavor)
                    && crate::updates::text_contains(assets[j].name@, target))
        },
{
    lemma_files(assets, assets.len() as int, flavor, target, true);
    lemma_files(assets, assets.len() as int, flavor, target, false);
    let archives = crate::updates::files_for(assets, assets.len() as int, flavor, target, false);
    let checksums = crate::updates::files_for(assets, assets.len() as int, flavor, target, true);
    if archives.len() > 0 && checksums.len() > 0 {
        assert(archives.contains(archives[0]));
        assert(checksums.contains(checksums[0]));
    }
}

proof fn lemma_files(
    assets: Seq<ReleaseAsset>,
    n: int,
    flavor: Seq<char>,
    target: Seq<char>,
    checksums: bool,
)
    requires
        0 <= n <= assets.len(),
    ensures
        ({
            let found = crate::updates::files_for(assets, n, flavor, target, checksums);
            &&& forall|k: int|
                0 <= k < found.len() ==> {
                    let at = #[trigger] found[k];
                    0 <= at < n && crate::updates::fits(assets[at], flavor, target)
                        && crate::updates::is_checksum(assets[at]) == checksums
                }
            &&& forall|j: int|
                0 <= j < n && crate::updates::fits(#[trigger] assets[j], flavor, target)
                    && crate::updates::is_checksum(assets[j]) == checksums ==> found.contains(j)
        }),
    decreases n,
{
    if n > 0 {
        lemma_files(assets, n - 1, flavor, target, checksums);
        let before = crate::updates::files_for(assets, n - 1, flavor, target, checksums);
        let found = crate::updates::files_for(assets, n, flavor, target, checksums);
        if found.len() > before.len() {
            assert(found[found.len() - 1] == n - 1);
            assert forall|j: int| before.contains(j) implies found.contains(j) by {
                let k = before.index_of(j);
                assert(found[k] == j);
            }
        }
    }
}

/// The first word of a text stands behind white space only, holds none, and ends where
/// there is some, or with the text.
pub proof fn law_first_word(s: Seq<char>)
    ensures
        ({
            let word = crate::updates::first_word(s);
            exists|from: int|
                {
                    &&& 0 <= from <= from + word.len() <= s.len()
                    &&& word == #[trigger] s.subrange(from, from + word.len())
                    &&& forall|i: int| 0 <= i < from ==> crate::text::white_space(#[trigger] s[i])
                    &&& forall|i: int|
                        0 <= i < word.len() ==> !crate::text::white_space(#[trigger] word[i])
                    &&& from + word.len() < s.len() ==> crate::text::white_space(
                        s[from + word.len()],
                    )
                }
        }),
{
    lemma_unindented(s);
    let rest = crate::updates::unindented(s);
    let from = s.len() - rest.len();
    lemma_word_len(rest);
    let word = crate::updates::first_word(s);
    assert(word =~= s.subrange(from, from + word.len()));
    assert forall|i: int| 0 <= i < word.len() implies !crate::text::white_space(
        #[trigger] word[i],
    ) by {
        assert(word[i] == rest[i]);
    }
    if from + word.len() < s.len() {
        assert(s[from + word.len()] == rest[word.len() as int]);
    }
}

proof fn lemma_unindented(s: Seq<char>)
    ensures
        ({
            let rest = crate::updates::unindented(s);
            let from = s.len() - rest.len();
            &&& 0 <= from <= s.len()
            &&& rest == s.skip(from)
            &&& forall|i: int| 0 <= i < from ==> crate::text::white_space(#[trigger] s[i])
        }),
    decreases s.len(),
{
    if s.len() > 0 && crate::text::white_space(s[0]) {
        lemma_unindented(s.skip(1));
        let rest = crate::updates::unindented(s);
        let from = s.len() - rest.len();
        assert(s.skip(1).skip(from - 1) =~= s.skip(from));
        assert forall|i: int| 0 <= i < from implies crate::text::white_space(#[trigger] s[i]) by {
            if i > 0 {
                assert(s.skip(1)[i - 1] == s[i]);
            }
        }
    } else {
        assert(s.skip(0) =~= s);
    }
}

proof fn lemma_word_len(s: Seq<char>)
    ensures
        ({
            let n = crate::updates::word_len(s);
            &&& 0 <= n <= s.len()
            &&& forall|i: int| 0 <= i < n ==> !crate::text::white_space(#[trigger] s[i])
            &&& n < s.len() ==> crate::text::white_space(s[n])
        }),
    decreases s.len(),
{
    if s.len() > 0 && !crate::text::white_space(s[0]) {
        lemma_word_len(s.skip(1));
        let n = crate::updates::word_len(s);
        assert forall|i: int| 0 <= i < n implies !crate::text::white_space(#[trigger] s[i]) by {
            if i > 0 {
                assert(s.skip(1)[i - 1] == s[i]);
            }
        }
        if n < s.len() {
            assert(s.skip(1)[n - 1] == s[n]);
        }
    }
}

/// Interruptions that are not acknowledged are counted from the first of them on.
pub proof fn law_interruptions_are_counted(watch: InterruptWatch, now: u64)
    ensures
        watch.pending is None ==> watch.interrupted_at(now) == (1u8, now),
        watch.pending matches Some((count, since)) ==> {
            &&& watch.interrupted_at(now).1 == since
            &&& count < 255 ==> watch.interrupted_at(now).0 == count + 1
            &&& count == 255 ==> watch.interrupted_at(now).0 == 255
        },
{
}

/// A device is asked for by its ids, and by its serial number behind a second colon; what
/// the digits of the ids stand for is what is looked for.
pub proof fn law_usb_query(vid: Seq<char>, pid: Seq<char>, serial: Seq<char>)
    requires
        0 < vid.len() <= 4,
        0 < pid.len() <= 4,
        forall|i: int|
            0 <= i < vid.len() ==> crate::tui::esp::hex_digit_value(#[trigger] vid[i]) is Some,
        forall|i: int|
            0 <= i < pid.len() ==> crate::tui::esp::hex_digit_value(#[trigger] pid[i]) is Some,
    ensures
        crate::startup::usb_query(vid + seq![':'] + pid) == Some(
            (value_of_digits(vid, 16) as u16, value_of_digits(pid, 16) as u16, None::<Seq<char>>),
        ),
        crate::startup::usb_query(vid + seq![':'] + pid + seq![':'] + serial) == Some(
            (value_of_digits(vid, 16) as u16, value_of_digits(pid, 16) as u16, Some(serial)),
        ),
{
    lemma_hex_number(vid);
    lemma_hex_number(pid);
    let short = vid + seq![':'] + pid;
    lemma_before_colon(short, vid.len() as int);
    assert(short.take(vid.len() as int) =~= vid);
    assert(short.skip(vid.len() as int + 1) =~= pid);
    lemma_before_colon(pid, pid.len() as int);
    assert(pid.take(pid.len() as int) =~= pid);
    let long = short + seq![':'] + serial;
    lemma_before_colon(long, vid.len() as int);
    assert(long.take(vid.len() as int) =~= vid);
    let rest = long.skip(vid.len() as int + 1);
    assert(rest =~= pid + seq![':'] + serial);
    lemma_before_colon(rest, pid.len() as int);
    assert(rest.take(pid.len() as int) =~= pid);
    assert(rest.skip(pid.len() as int + 1) =~= serial);
}

pub proof fn lemma_hex_number(s: Seq<char>)
    requires
        forall|i: int|
            0 <= i < s.len() ==> crate::tui::esp::hex_digit_value(#[trigger] s[i]) is Some,
    ensures
        crate::tui::esp::hex_number(s) == Some(value_of_digits(s, 16)),
    decreases s.len(),
{
    if s.len() > 0 {
        assert forall|i: int| 0 <= i < s.drop_last().len() implies crate::tui::esp::hex_digit_value(
            #[trigger] s.drop_last()[i],
        ) is Some by {
            assert(s.drop_last()[i] == s[i]);
        }
        lemma_hex_number(s.drop_last());
        assert(crate::tui::esp::hex_digit_value(s[s.len() - 1]) is Some);
    }
}

proof fn lemma_before_colon(s: Seq<char>, n: int)
    requires
        0 <= n <= s.len(),
        forall|i: int| 0 <= i < n ==> #[trigger] s[i] != ':',
        n == s.len() || s[n] == ':',
    ensures
        crate::startup::before_colon(s) == n,
    decreases n,
{
    if n > 0 {
        assert(s[0] != ':');
        assert forall|i: int| 0 <= i < n - 1 implies #[trigger] s.skip(1)[i] != ':' by {
            assert(s[i + 1] != ':');
        }
        lemma_before_colon(s.skip(1), n - 1);
    }
}

/// A path that starts at the root stays as it is; any other lies below the directory.
pub proof fn law_paths(directory: Seq<char>, path: Seq<char>)
    ensures
        path.len() > 0 && path[0] == '/' ==> crate::startup::adjacent(directory, path) == path,
        !(path.len() > 0 && path[0] == '/') && directory.len() > 0 ==> {
            let full = crate::startup::adjacent(directory, path);
            &&& full.take(directory.len() as int) == directory
            &&& full.skip(full.len() - path.len()) == path
            &&& full[full.len() - path.len() - 1] == '/'
            &&& full.len() <= directory.len() + 1 + path.len()
        },
{
    reveal_strlit("/");
    let full = crate::startup::adjacent(directory, path);
    if !(path.len() > 0 && path[0] == '/') && directory.len() > 0 {
        assert(full.take(directory.len() as int) =~= directory);
        assert(full.skip(full.len() - path.len()) =~= path);
    }
}

} // verus!
