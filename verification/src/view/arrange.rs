//! Putting things in order.

use vstd::prelude::*;

verus! {

/// An order of things that are numbered.
pub trait Precedence {
    /// How many things there are.
    spec fn size(&self) -> nat;

    /// Which things have to come before which others.
    spec fn relation(&self) -> spec_fn(int, int) -> bool;

    /// How many things there are.
    fn count(&self) -> (r: usize)
        ensures
            r == self.size(),
    ;

    /// Whether one thing has to come before another.
    fn comes_before(&self, a: usize, b: usize) -> (r: bool)
        requires
            a < self.size(),
            b < self.size(),
        ensures
            r == (self.relation())(a as int, b as int),
    ;
}

/// How many of the things already in place stay before another: all up to the first
/// that it has to come before.
pub open spec fn place_for(
    precedes: spec_fn(int, int) -> bool,
    placed: Seq<usize>,
    thing: int,
    from: int,
) -> int
    decreases placed.len() - from,
{
    if from < 0 || from >= placed.len() {
        placed.len() as int
    } else if precedes(thing, placed[from] as int) {
        from
    } else {
        place_for(precedes, placed, thing, from + 1)
    }
}

/// The first `n` things in order. Of two that need not come before each other, the
/// one with the lower number stays first.
pub open spec fn arranged(precedes: spec_fn(int, int) -> bool, n: int) -> Seq<usize>
    decreases n,
{
    if n <= 0 {
        Seq::empty()
    } else {
        let placed = arranged(precedes, n - 1);
        placed.insert(place_for(precedes, placed, n - 1, 0), (n - 1) as usize)
    }
}

proof fn lemma_place_for(precedes: spec_fn(int, int) -> bool, placed: Seq<usize>, thing: int, from: int)
    requires
        0 <= from <= placed.len(),
    ensures
        from <= place_for(precedes, placed, thing, from) <= placed.len(),
        forall|i: int|
            from <= i < place_for(precedes, placed, thing, from) ==> !precedes(
                thing,
                #[trigger] placed[i] as int,
            ),
        place_for(precedes, placed, thing, from) < placed.len() ==> precedes(
            thing,
            placed[place_for(precedes, placed, thing, from)] as int,
        ),
    decreases placed.len() - from,
{
    if from < placed.len() && !precedes(thing, placed[from] as int) {
        lemma_place_for(precedes, placed, thing, from + 1);
    }
}

/// Everything is there once things are in order.
pub proof fn law_arranging_keeps_everything(precedes: spec_fn(int, int) -> bool, n: int)
    requires
        0 <= n <= usize::MAX,
    ensures
        arranged(precedes, n).len() == n,
        forall|i: int| 0 <= i < n ==> (#[trigger] arranged(precedes, n)[i]) < n,
        forall|k: usize| k < n ==> #[trigger] arranged(precedes, n).contains(k),
    decreases n,
{
    if n > 0 {
        law_arranging_keeps_everything(precedes, n - 1);
        let placed = arranged(precedes, n - 1);
        let at = place_for(precedes, placed, n - 1, 0);
        let all = arranged(precedes, n);
        lemma_place_for(precedes, placed, n - 1, 0);
        assert(all == placed.insert(at, (n - 1) as usize));
        assert forall|i: int| 0 <= i < n implies (#[trigger] all[i]) < n by {
            if i < at {
                assert(all[i] == placed[i]);
            } else if i > at {
                assert(all[i] == placed[i - 1]);
            }
        }
        assert forall|k: usize| k < n implies #[trigger] all.contains(k) by {
            if k == n - 1 {
                assert(all[at] == k);
            } else {
                assert(placed.contains(k));
                let i = choose|i: int| 0 <= i < placed.len() && placed[i] == k;
                if i < at {
                    assert(all[i] == k);
                } else {
                    assert(all[i + 1] == k);
                }
            }
        }
    }
}

/// Things are in order: none stands behind one that it has to come before, provided
/// that the order is one. (What comes before something comes before all that need
/// not come before that.)
pub proof fn law_arranged_is_in_order(precedes: spec_fn(int, int) -> bool, n: int)
    requires
        0 <= n <= usize::MAX,
        forall|a: int, b: int, c: int|
            #![trigger precedes(a, b), precedes(c, b)]
            precedes(a, b) && !precedes(c, b) ==> precedes(a, c),
        forall|a: int, b: int| #[trigger] precedes(a, b) ==> !precedes(b, a),
    ensures
        forall|i: int, j: int|
            #![trigger arranged(precedes, n)[i], arranged(precedes, n)[j]]
            0 <= i < j < arranged(precedes, n).len() ==> !precedes(
                arranged(precedes, n)[j] as int,
                arranged(precedes, n)[i] as int,
            ),
    decreases n,
{
    if n > 0 {
        law_arranged_is_in_order(precedes, n - 1);
        let placed = arranged(precedes, n - 1);
        let at = place_for(precedes, placed, n - 1, 0);
        let all = arranged(precedes, n);
        lemma_place_for(precedes, placed, n - 1, 0);
        assert forall|i: int, j: int|
            #![trigger all[i], all[j]]
            0 <= i < j < all.len() implies !precedes(all[j] as int, all[i] as int) by {
            let thing = n - 1;
            if i < at && j < at {
                assert(all[i] == placed[i] && all[j] == placed[j]);
            } else if i > at && j > at {
                assert(all[i] == placed[i - 1] && all[j] == placed[j - 1]);
            } else if i < at && j > at {
                assert(all[i] == placed[i] && all[j] == placed[j - 1]);
            } else if j == at {
                assert(all[i] == placed[i]);
                assert(all[j] == thing);
            } else {
                assert(i == at);
                assert(all[j] == placed[j - 1]);
                assert(precedes(thing, placed[at] as int));
                if j - 1 > at {
                    assert(!precedes(placed[j - 1] as int, placed[at] as int));
                    assert(precedes(thing, placed[j - 1] as int));
                }
            }
        }
    }
}

/// Puts things in order.
pub fn arrange<P: Precedence>(order: &P) -> (r: Vec<usize>)
    ensures
        r@ == arranged(order.relation(), order.size() as int),
        r@.len() == order.size(),
        forall|i: int| 0 <= i < r@.len() ==> (#[trigger] r@[i]) < order.size(),
{
    let count: usize = order.count();
    let mut placed: Vec<usize> = Vec::new();
    let mut n: usize = 0;
    while n < count
        invariant
            count == order.size(),
            n <= count,
            placed@ == arranged(order.relation(), n as int),
            placed@.len() == n,
            forall|i: int| 0 <= i < n ==> (#[trigger] placed@[i]) < n,
        decreases count - n,
    {
        let mut at: usize = 0;
        while at < placed.len() && !order.comes_before(n, placed[at])
            invariant
                count == order.size(),
                n < count,
                at <= placed@.len(),
                forall|i: int| 0 <= i < placed@.len() ==> (#[trigger] placed@[i]) < n,
                place_for(order.relation(), placed@, n as int, 0) == place_for(
                    order.relation(),
                    placed@,
                    n as int,
                    at as int,
                ),
            decreases placed@.len() - at,
        {
            at += 1;
        }
        placed.insert(at, n);
        n += 1;
        proof {
            law_arranging_keeps_everything(order.relation(), n as int);
        }
    }
    proof {
        law_arranging_keeps_everything(order.relation(), n as int);
    }
    placed
}

} // verus!
