//! Helper traits and functions used throughout.

use vstd::prelude::*;
use vstd::slice::*;
use vstd::string::*;
use vstd::utf8::*;

use crate::buffer::LineEnding;
use crate::foreign::{find_byte, unescape_bytes};

verus! {

/// The last valid index of a collection.
pub trait LastIndex {
    /// The number of elements in the collection.
    spec fn element_count(&self) -> nat;

    /// The index of the last element, or `None` if the collection is empty.
    fn last_index_checked(&self) -> (r: Option<usize>)
        ensures
            r == (if self.element_count() == 0 {
                None::<usize>
            } else {
                Some((self.element_count() - 1) as usize)
            }),
            self.element_count() <= usize::MAX,
    ;

    /// Whether `index` is that of the last element; never, in an empty collection.
    fn last_index_eq(&self, index: usize) -> (r: bool)
        ensures
            r == (index + 1 == self.element_count()),
    {
        match self.last_index_checked() {
            Some(last) => last == index,
            None => false,
        }
    }

    /// Whether `index` is that of the last element or beyond it; never, in an
    /// empty collection.
    fn last_index_eq_or_under(&self, index: usize) -> (r: bool)
        ensures
            r == (0 < self.element_count() <= index + 1),
    {
        match self.last_index_checked() {
            Some(last) => index >= last,
            None => false,
        }
    }

    /// The index of the last element of a collection that is not empty.
    fn last_index(&self) -> (r: usize)
        requires
            self.element_count() > 0,
        ensures
            r + 1 == self.element_count(),
    {
        match self.last_index_checked() {
            Some(last) => last,
            None => 0,
        }
    }
}

impl<T> LastIndex for [T] {
    open spec fn element_count(&self) -> nat {
        self@.len()
    }

    fn last_index_checked(&self) -> (r: Option<usize>) {
        if self.len() == 0 {
            None
        } else {
            Some(self.len() - 1)
        }
    }
}

/// Whether a sequence ends with another.
pub open spec fn has_suffix(s: Seq<u8>, suffix: Seq<u8>) -> bool {
    suffix.len() <= s.len() && s.skip(s.len() - suffix.len()) == suffix
}

/// Checks on how a byte slice ends.
pub trait ByteSuffixCheck {
    /// The bytes to check.
    spec fn bytes_of(&self) -> Seq<u8>;

    /// Whether the bytes end with `expected`.
    fn has_byte_suffix(&self, expected: &[u8]) -> (r: bool)
        ensures
            r == has_suffix(self.bytes_of(), expected@),
    ;

    /// Whether the bytes end with `line_ending`; never, if that is unset.
    fn has_line_ending(&self, line_ending: &LineEnding) -> (r: bool)
        ensures
            r == (!(line_ending is Unset) && has_suffix(self.bytes_of(), line_ending@)),
    ;
}

impl ByteSuffixCheck for [u8] {
    open spec fn bytes_of(&self) -> Seq<u8> {
        self@
    }

    fn has_byte_suffix(&self, expected: &[u8]) -> (r: bool) {
        if self.len() < expected.len() {
            false
        } else {
            let start: usize = self.len() - expected.len();
            let mut i: usize = 0;
            while i < expected.len()
                invariant
                    start + expected.len() == self.len(),
                    i <= expected.len(),
                    forall|j: int| 0 <= j < i ==> self@[start + j] == expected@[j],
                decreases expected.len() - i,
            {
                if self[start + i] != expected[i] {
                    assert(self@.skip(start as int)[i as int] != expected@[i as int]);
                    return false;
                }
                i += 1;
            }
            assert(self@.skip(start as int) =~= expected@);
            true
        }
    }

    fn has_line_ending(&self, line_ending: &LineEnding) -> (r: bool) {
        match line_ending {
            LineEnding::Unset => false,
            LineEnding::Byte(byte) => {
                let one: [u8; 1] = [*byte];
                assert(one@ =~= seq![*byte]);
                self.has_byte_suffix(one.as_slice())
            },
            LineEnding::MultiByte(needle) => self.has_byte_suffix(needle.as_slice()),
        }
    }
}

/// The first characters of a text.
pub trait FirstChars {
    /// The text itself.
    spec fn chars_of(&self) -> Seq<char>;

    /// The first `char_count` characters, or `None` if there are fewer.
    fn first_chars(&self, char_count: usize) -> (r: Option<&str>)
        ensures
            r is Some <==> char_count <= self.chars_of().len(),
            r matches Some(s) ==> s@ == self.chars_of().take(char_count as int),
    ;
}

impl FirstChars for str {
    open spec fn chars_of(&self) -> Seq<char> {
        self@
    }

    fn first_chars(&self, char_count: usize) -> (r: Option<&str>) {
        let actual_count: usize = self.unicode_len();
        if actual_count < char_count {
            None
        } else if actual_count == char_count {
            assert(self@.take(char_count as int) =~= self@);
            Some(self)
        } else {
            Some(self.substring_char(0, char_count))
        }
    }
}

/// An empty text as `None`.
pub trait StrAsOption {
    /// The text itself.
    spec fn text_of(&self) -> Seq<char>;

    /// `None` for an empty text, otherwise the text.
    fn as_option(&self) -> (r: Option<&str>)
        ensures
            r is Some <==> self.text_of().len() > 0,
            r matches Some(s) ==> s@ == self.text_of(),
    ;
}

impl StrAsOption for str {
    open spec fn text_of(&self) -> Seq<char> {
        self@
    }

    fn as_option(&self) -> (r: Option<&str>) {
        if self.is_empty() {
            None
        } else {
            Some(self)
        }
    }
}

/// Flipping a boolean in place.
pub trait ToggleBool: Sized {
    /// The value as a boolean.
    spec fn truth(&self) -> bool;

    /// Flips the value and returns the new one.
    fn flip(&mut self) -> (r: bool)
        ensures
            final(self).truth() == !old(self).truth(),
            r == final(self).truth(),
    ;
}

impl ToggleBool for bool {
    open spec fn truth(&self) -> bool {
        *self
    }

    fn flip(&mut self) -> (r: bool) {
        *self = !*self;
        *self
    }
}

/// Looking for escapes in a text.
pub trait HasEscapedBytes {
    /// The text itself.
    spec fn escapable(&self) -> Seq<char>;

    /// Whether the text contains escaped bytes: it has a backslash, and
    /// unescaping it gives other bytes than its own.
    fn has_escaped_bytes(&self) -> (r: bool)
        ensures
            r == (encode_utf8(self.escapable()).contains(0x5c) && crate::foreign::unescaped(
                self.escapable(),
            ) != encode_utf8(self.escapable())),
    ;
}

/// Whether two slices hold the same bytes.
pub fn same_bytes(a: &[u8], b: &[u8]) -> (r: bool)
    ensures
        r == (a@ == b@),
{
    if a.len() != b.len() {
        return false;
    }
    let r = a.has_byte_suffix(b);
    assert(a@.skip(0) =~= a@);
    r
}

impl HasEscapedBytes for str {
    open spec fn escapable(&self) -> Seq<char> {
        self@
    }

    fn has_escaped_bytes(&self) -> (r: bool) {
        if find_byte(0x5c, self.as_bytes()).is_none() {
            return false;
        }
        let plain = unescape_bytes(self);
        !same_bytes(plain.as_slice(), self.as_bytes())
    }
}

/// Which actions may run in which state of the port.
pub trait RequiresPort {
    /// Whether the action needs a healthy connection to the port.
    spec fn needs_connection(&self) -> bool;

    /// Whether the action requires an active, healthy connection to the port.
    fn requires_connection(&self) -> (r: bool)
        ensures
            r == self.needs_connection(),
    ;

    /// Whether the action requires at least the terminal view to be active (the
    /// port can be lent out or disconnected). Defined only where that differs
    /// from `requires_connection`.
    fn requires_terminal_view(&self) -> (r: bool)
        default_ensures
            r == self.needs_connection(),
    {
        self.requires_connection()
    }
}

/// Merges two lists by asking `decider` each time both have an item left:
/// `true` takes the next item of `left`, `false` that of `right`.
pub open spec fn interleaves<I, F: Fn(&I, &I) -> bool>(
    left: Seq<I>,
    right: Seq<I>,
    decider: F,
    out: Seq<I>,
) -> bool
    decreases left.len() + right.len(),
{
    if left.len() == 0 {
        out == right
    } else if right.len() == 0 {
        out == left
    } else {
        ||| {
            &&& call_ensures(decider, (&left[0], &right[0]), true)
            &&& out.len() > 0 && out[0] == left[0]
            &&& interleaves(left.drop_first(), right, decider, out.drop_first())
        }
        ||| {
            &&& call_ensures(decider, (&left[0], &right[0]), false)
            &&& out.len() > 0 && out[0] == right[0]
            &&& interleaves(left, right.drop_first(), decider, out.drop_first())
        }
    }
}

/// Something that decides between two items, and may change as it is asked.
pub trait Decider<I> {
    /// What it was asked so far, one after the other: the two items, and its answer.
    spec fn asked(&self) -> Seq<(I, I, bool)>;

    /// Which answers are in order.
    spec fn rule(&self) -> spec_fn(I, I, bool) -> bool;

    /// Whether it can be asked about any items.
    spec fn ready(&self) -> bool;

    /// Asks whether the item on the left comes first.
    fn decide(&mut self, left: &I, right: &I) -> (answer: bool)
        requires
            old(self).ready(),
        ensures
            final(self).ready(),
            final(self).asked() == old(self).asked().push((*left, *right, answer)),
            final(self).rule() == old(self).rule(),
            (old(self).rule())(*left, *right, answer),
    ;
}

/// A function that decides between two items.
pub struct Asking<I, F> {
    decider: F,
    record: Ghost<Seq<(I, I, bool)>>,
}

impl<I, F: Fn(&I, &I) -> bool> Asking<I, F> {
    /// The function.
    pub closed spec fn function(&self) -> F {
        self.decider
    }

    /// A function that has not been asked yet.
    pub fn new(decider: F) -> (r: Asking<I, F>)
        requires
            forall|a: &I, b: &I| #[trigger] call_requires(decider, (a, b)),
        ensures
            r.function() == decider,
            r.asked() == Seq::<(I, I, bool)>::empty(),
            r.rule() == (|a: I, b: I, answer: bool| call_ensures(decider, (&a, &b), answer)),
            r.ready(),
    {
        Asking { decider, record: Ghost(Seq::empty()) }
    }
}

impl<I, F: Fn(&I, &I) -> bool> Decider<I> for Asking<I, F> {
    closed spec fn asked(&self) -> Seq<(I, I, bool)> {
        self.record@
    }

    closed spec fn rule(&self) -> spec_fn(I, I, bool) -> bool {
        |a: I, b: I, answer: bool| call_ensures(self.decider, (&a, &b), answer)
    }

    closed spec fn ready(&self) -> bool {
        forall|a: &I, b: &I| #[trigger] call_requires(self.decider, (a, b))
    }

    fn decide(&mut self, left: &I, right: &I) -> (answer: bool) {
        let answer = (self.decider)(left, right);
        self.record = Ghost(self.record@.push((*left, *right, answer)));
        answer
    }
}

/// Whether `out` is what comes of two lists if the questions and answers in `trace` are
/// all there were. As long as both lists have items left, their next items are asked
/// about once, the left one first, and the answer says which of them comes next; the
/// other stays next in its list. Once a list is exhausted, nothing is asked any more,
/// and the rest of the other follows.
pub open spec fn consulted<I>(
    left: Seq<I>,
    right: Seq<I>,
    trace: Seq<(I, I, bool)>,
    out: Seq<I>,
) -> bool
    decreases left.len() + right.len(),
{
    if left.len() == 0 {
        trace.len() == 0 && out == right
    } else if right.len() == 0 {
        trace.len() == 0 && out == left
    } else {
        &&& trace.len() > 0 && trace[0].0 == left[0] && trace[0].1 == right[0]
        &&& out.len() > 0
        &&& if trace[0].2 {
            out[0] == left[0] && consulted(
                left.drop_first(),
                right,
                trace.drop_first(),
                out.drop_first(),
            )
        } else {
            out[0] == right[0] && consulted(
                left,
                right.drop_first(),
                trace.drop_first(),
                out.drop_first(),
            )
        }
    }
}

/// All answers are in order.
pub open spec fn in_order<I>(trace: Seq<(I, I, bool)>, rule: spec_fn(I, I, bool) -> bool) -> bool {
    forall|i: int|
        0 <= i < trace.len() ==> rule((#[trigger] trace[i]).0, trace[i].1, trace[i].2)
}

/// Interleaves two lists by asking which of their next items comes first.
///
/// The decider is asked exactly once for each item that comes out while both lists have
/// some left, with the next item of each in the same place every time, and not at all
/// once one of them is exhausted.
pub fn interleave_with<I: Copy, D: Decider<I>>(left: &[I], right: &[I], decider: &mut D) -> (out:
    Vec<I>)
    requires
        old(decider).ready(),
    ensures
        ({
            let trace = final(decider).asked().skip(old(decider).asked().len() as int);
            &&& final(decider).asked() == old(decider).asked() + trace
            &&& consulted(left@, right@, trace, out@)
            &&& in_order(trace, old(decider).rule())
        }),
        final(decider).rule() == old(decider).rule(),
        final(decider).ready(),
{
    let mut out: Vec<I> = Vec::new();
    let mut l: usize = 0;
    let mut r: usize = 0;
    let ghost asked = decider.asked();
    let ghost mut trace: Seq<(I, I, bool)> = Seq::empty();
    proof {
        assert(left@.skip(0) =~= left@ && right@.skip(0) =~= right@);
        assert(decider.asked() =~= asked + trace);
        assert forall|more: Seq<(I, I, bool)>, rest: Seq<I>|
            consulted(left@, right@, more, rest) implies #[trigger] consulted(
            left@,
            right@,
            trace + more,
            out@ + rest,
        ) by {
            assert(trace + more =~= more && out@ + rest =~= rest);
        }
    }
    while l < left.len() && r < right.len()
        invariant
            l <= left.len(),
            r <= right.len(),
            decider.ready(),
            decider.rule() == old(decider).rule(),
            asked == old(decider).asked(),
            decider.asked() == asked + trace,
            in_order(trace, old(decider).rule()),
            forall|more: Seq<(I, I, bool)>, rest: Seq<I>|
                consulted(left@.skip(l as int), right@.skip(r as int), more, rest)
                    ==> #[trigger] consulted(left@, right@, trace + more, out@ + rest),
        decreases left.len() - l + right.len() - r,
    {
        let ghost written = out@;
        let ghost before = trace;
        let ghost ls = left@.skip(l as int);
        let ghost rs = right@.skip(r as int);
        let answer = decider.decide(&left[l], &right[r]);
        let ghost question = (left@[l as int], right@[r as int], answer);
        proof {
            trace = before.push(question);
            assert(decider.asked() =~= asked + trace);
        }
        if answer {
            out.push(left[l]);
            l += 1;
            assert(ls.drop_first() =~= left@.skip(l as int));
        } else {
            out.push(right[r]);
            r += 1;
            assert(rs.drop_first() =~= right@.skip(r as int));
        }
        assert forall|more: Seq<(I, I, bool)>, rest: Seq<I>|
            consulted(left@.skip(l as int), right@.skip(r as int), more, rest)
                implies #[trigger] consulted(left@, right@, trace + more, out@ + rest) by {
            let taken = if answer {
                ls[0]
            } else {
                rs[0]
            };
            let all = seq![question] + more;
            let longer = seq![taken] + rest;
            assert(all.drop_first() =~= more && longer.drop_first() =~= rest);
            assert(consulted(ls, rs, all, longer));
            assert(before + all =~= trace + more);
            assert(written + longer =~= out@ + rest);
        }
    }
    let ghost written = out@;
    let ghost rest = if l < left.len() {
        left@.skip(l as int)
    } else {
        right@.skip(r as int)
    };
    proof {
        let none = Seq::<(I, I, bool)>::empty();
        if l == left.len() {
            assert(left@.skip(l as int).len() == 0);
        } else {
            assert(right@.skip(r as int).len() == 0);
        }
        assert(consulted(left@.skip(l as int), right@.skip(r as int), none, rest));
        assert(consulted(left@, right@, trace + none, written + rest));
        assert(trace + none =~= trace);
        assert(decider.asked().skip(asked.len() as int) =~= trace);
    }
    let ghost l0 = l;
    while l < left.len()
        invariant
            l0 <= l <= left.len(),
            out@ == written + left@.subrange(l0 as int, l as int),
        decreases left.len() - l,
    {
        out.push(left[l]);
        l += 1;
        assert(out@ =~= written + left@.subrange(l0 as int, l as int));
    }
    let ghost middle = out@;
    let ghost r0 = r;
    while r < right.len()
        invariant
            r0 <= r <= right.len(),
            out@ == middle + right@.subrange(r0 as int, r as int),
        decreases right.len() - r,
    {
        out.push(right[r]);
        r += 1;
        assert(out@ =~= middle + right@.subrange(r0 as int, r as int));
    }
    assert(out@ =~= written + rest);
    out
}

proof fn lemma_consulted_interleaves<I, F: Fn(&I, &I) -> bool>(
    left: Seq<I>,
    right: Seq<I>,
    decider: F,
    trace: Seq<(I, I, bool)>,
    out: Seq<I>,
)
    requires
        consulted(left, right, trace, out),
        in_order(trace, |a: I, b: I, answer: bool| call_ensures(decider, (&a, &b), answer)),
    ensures
        interleaves(left, right, decider, out),
    decreases left.len() + right.len(),
{
    if left.len() > 0 && right.len() > 0 {
        let rule = |a: I, b: I, answer: bool| call_ensures(decider, (&a, &b), answer);
        assert(rule(trace[0].0, trace[0].1, trace[0].2));
        assert forall|i: int| 0 <= i < trace.drop_first().len() implies rule(
            (#[trigger] trace.drop_first()[i]).0,
            trace.drop_first()[i].1,
            trace.drop_first()[i].2,
        ) by {
            assert(trace.drop_first()[i] == trace[i + 1]);
        }
        if trace[0].2 {
            lemma_consulted_interleaves(
                left.drop_first(),
                right,
                decider,
                trace.drop_first(),
                out.drop_first(),
            );
        } else {
            lemma_consulted_interleaves(
                left,
                right.drop_first(),
                decider,
                trace.drop_first(),
                out.drop_first(),
            );
        }
    }
}

/// Interleaves two lists using a closure to determine which to pull from next.
///
/// The `decider` receives the next element of each list and returns `true` to
/// select that of `left`. The item not chosen stays next in its list. Once one
/// list is exhausted, the rest of the other follows.
pub fn interleave_by<I: Copy, F: Fn(&I, &I) -> bool>(
    left: &[I],
    right: &[I],
    decider: F,
) -> (out: Vec<I>)
    requires
        forall|a: &I, b: &I| #[trigger] call_requires(decider, (a, b)),
    ensures
        interleaves(left@, right@, decider, out@),
{
    let ghost function = decider;
    let mut asking: Asking<I, F> = Asking::new(decider);
    let out = interleave_with(left, right, &mut asking);
    proof {
        lemma_consulted_interleaves(left@, right@, function, asking.asked().skip(0), out@);
    }
    out
}

/// Until one list is exhausted, one question is asked for each item that comes out, and
/// the item is the one of the pair that the answer picks.
pub proof fn law_each_pair_is_asked_about_once<I>(
    left: Seq<I>,
    right: Seq<I>,
    trace: Seq<(I, I, bool)>,
    out: Seq<I>,
)
    requires
        consulted(left, right, trace, out),
    ensures
        out.len() == left.len() + right.len(),
        trace.len() <= out.len(),
        forall|i: int|
            #![trigger trace[i]]
            0 <= i < trace.len() ==> out[i] == (if trace[i].2 {
                trace[i].0
            } else {
                trace[i].1
            }),
        trace.len() == 0 <==> left.len() == 0 || right.len() == 0,
    decreases left.len() + right.len(),
{
    if left.len() > 0 && right.len() > 0 {
        if trace[0].2 {
            law_each_pair_is_asked_about_once(
                left.drop_first(),
                right,
                trace.drop_first(),
                out.drop_first(),
            );
        } else {
            law_each_pair_is_asked_about_once(
                left,
                right.drop_first(),
                trace.drop_first(),
                out.drop_first(),
            );
        }
        assert forall|i: int|
            #![trigger trace[i]]
            0 <= i < trace.len() implies out[i] == (if trace[i].2 {
            trace[i].0
        } else {
            trace[i].1
        }) by {
            if i > 0 {
                assert(trace.drop_first()[i - 1] == trace[i]);
                assert(out.drop_first()[i - 1] == out[i]);
            }
        }
    }
}

/// Every interleaving keeps all items of both lists.
pub proof fn law_interleaving_keeps_every_item<I, F: Fn(&I, &I) -> bool>(
    left: Seq<I>,
    right: Seq<I>,
    decider: F,
    out: Seq<I>,
)
    requires
        interleaves(left, right, decider, out),
    ensures
        out.len() == left.len() + right.len(),
        out.to_multiset() == left.to_multiset().add(right.to_multiset()),
    decreases left.len() + right.len(),
{
    broadcast use vstd::seq_lib::group_to_multiset_ensures;

    if left.len() == 0 {
        assert(left =~= Seq::<I>::empty());
        assert(out.to_multiset() =~= left.to_multiset().add(right.to_multiset()));
    } else if right.len() == 0 {
        assert(right =~= Seq::<I>::empty());
        assert(out.to_multiset() =~= left.to_multiset().add(right.to_multiset()));
    } else {
        assert(out =~= seq![out[0]] + out.drop_first());
        assert(left =~= seq![left[0]] + left.drop_first());
        assert(right =~= seq![right[0]] + right.drop_first());
        vstd::seq_lib::lemma_multiset_commutative(seq![out[0]], out.drop_first());
        vstd::seq_lib::lemma_multiset_commutative(seq![left[0]], left.drop_first());
        vstd::seq_lib::lemma_multiset_commutative(seq![right[0]], right.drop_first());
        if call_ensures(decider, (&left[0], &right[0]), true) && out[0] == left[0] && interleaves(
            left.drop_first(),
            right,
            decider,
            out.drop_first(),
        ) {
            law_interleaving_keeps_every_item(left.drop_first(), right, decider, out.drop_first());
            assert(out.to_multiset() =~= left.to_multiset().add(right.to_multiset()));
        } else {
            law_interleaving_keeps_every_item(left, right.drop_first(), decider, out.drop_first());
            assert(out.to_multiset() =~= left.to_multiset().add(right.to_multiset()));
        }
    }
}

} // verus!
