//! Bounded selections: the first few elements of a sequence that pass a test.

use vstd::prelude::*;

verus! {

/// The beginning of `s`, `limit` elements long at most.
pub open spec fn at_most<A>(s: Seq<A>, limit: int) -> Seq<A> {
    if s.len() <= limit {
        s
    } else {
        s.take(limit)
    }
}

/// Once the limit is reached, what follows cannot change the selection.
pub proof fn lemma_selection_settled<A>(
    seen: Seq<A>,
    rest: Seq<A>,
    test: spec_fn(A) -> bool,
    limit: int,
)
    requires
        seen.filter(test).len() == limit,
        0 <= limit,
    ensures
        at_most((seen + rest).filter(test), limit) == seen.filter(test),
{
    Seq::filter_distributes_over_add(seen, rest, test);
    let all = (seen + rest).filter(test);
    assert(all == seen.filter(test) + rest.filter(test));
    assert(all.take(limit) =~= seen.filter(test));
}

/// Filtering nothing gives nothing.
pub proof fn lemma_filter_empty<A>(test: spec_fn(A) -> bool)
    ensures
        Seq::<A>::empty().filter(test) == Seq::<A>::empty(),
{
    reveal(Seq::filter);
}

} // verus!
