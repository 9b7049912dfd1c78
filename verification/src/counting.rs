//! Counting the positions of a finite range at which a predicate holds.

use vstd::prelude::*;

verus! {

/// The positions below `n` at which `p` holds.
pub open spec fn positions_where(n: nat, p: spec_fn(int) -> bool) -> Set<int> {
    Set::new(|i: int| 0 <= i < n && p(i))
}

/// How many positions below `n` satisfy `p`.
pub open spec fn count_where(n: nat, p: spec_fn(int) -> bool) -> nat {
    positions_where(n, p).len()
}

/// Nothing is counted in an empty range.
pub proof fn lemma_count_none(p: spec_fn(int) -> bool)
    ensures
        count_where(0, p) == 0,
{
    assert(positions_where(0, p) =~= Set::<int>::empty());
}

/// The positions form a finite set, and no more than `n` of them are counted.
pub proof fn lemma_count_bounded(n: nat, p: spec_fn(int) -> bool)
    ensures
        positions_where(n, p).finite(),
        count_where(n, p) <= n,
    decreases n,
{
    if n == 0 {
        assert(positions_where(n, p) =~= Set::<int>::empty());
    } else {
        let shorter = (n - 1) as nat;
        lemma_count_bounded(shorter, p);
        if p(shorter as int) {
            assert(positions_where(n, p) =~= positions_where(shorter, p).insert(shorter as int));
        } else {
            assert(positions_where(n, p) =~= positions_where(shorter, p));
        }
    }
}

/// Extending the range by one position adds one to the count exactly when
/// the predicate holds at the new position.
pub proof fn lemma_count_step(n: nat, p: spec_fn(int) -> bool)
    ensures
        count_where(n + 1, p) == count_where(n, p) + if p(n as int) { 1nat } else { 0nat },
{
    lemma_count_bounded(n, p);
    if p(n as int) {
        assert(positions_where(n + 1, p) =~= positions_where(n, p).insert(n as int));
        assert(!positions_where(n, p).contains(n as int));
    } else {
        assert(positions_where(n + 1, p) =~= positions_where(n, p));
    }
}

} // verus!
