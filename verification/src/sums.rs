//! Sums over sequences of natural numbers.

use vstd::prelude::*;

verus! {

/// The sum of the first `n` items of `s`.
pub open spec fn prefix_sum(s: Seq<nat>, n: nat) -> nat
    decreases n,
{
    if n == 0 {
        0
    } else {
        prefix_sum(s, (n - 1) as nat) + s[n - 1]
    }
}

/// The sum of all items of `s`.
pub open spec fn sum(s: Seq<nat>) -> nat {
    prefix_sum(s, s.len())
}

/// A longer prefix has no smaller sum.
pub proof fn lemma_prefix_sum_monotone(s: Seq<nat>, i: nat, j: nat)
    requires
        i <= j,
    ensures
        prefix_sum(s, i) <= prefix_sum(s, j),
    decreases j,
{
    if i < j {
        lemma_prefix_sum_monotone(s, i, (j - 1) as nat);
    }
}

/// A sequence that is item by item no larger than another has no larger
/// sum.
pub proof fn lemma_prefix_sum_le(s: Seq<nat>, t: Seq<nat>, n: nat)
    requires
        forall|k: int| 0 <= k < n ==> s[k] <= t[k],
    ensures
        prefix_sum(s, n) <= prefix_sum(t, n),
    decreases n,
{
    if n > 0 {
        lemma_prefix_sum_le(s, t, (n - 1) as nat);
    }
}

} // verus!
