//! Counting and summing over finite ranges.

use vstd::prelude::*;

verus! {

/// How many of the numbers `0 <= i < n` satisfy `p`.
pub open spec fn count(p: spec_fn(int) -> bool, n: nat) -> nat
    decreases n,
{
    if n == 0 {
        0
    } else {
        count(p, (n - 1) as nat) + if p(n - 1) {
            1nat
        } else {
            0nat
        }
    }
}

/// The sum of a sequence.
pub open spec fn sum(s: Seq<int>) -> int
    decreases s.len(),
{
    if s.len() == 0 {
        0
    } else {
        sum(s.drop_last()) + s.last()
    }
}

/// Over an interval on which `p` holds throughout, the count grows by its length.
pub proof fn lemma_count_all(p: spec_fn(int) -> bool, lo: nat, hi: nat)
    requires
        lo <= hi,
        forall|i: int| lo <= i < hi ==> #[trigger] p(i),
    ensures
        count(p, hi) == count(p, lo) + (hi - lo),
    decreases hi,
{
    if lo < hi {
        lemma_count_all(p, lo, (hi - 1) as nat);
        assert(p(hi - 1));
    }
}

/// Over an interval on which `p` holds nowhere, the count does not grow.
pub proof fn lemma_count_none(p: spec_fn(int) -> bool, lo: nat, hi: nat)
    requires
        lo <= hi,
        forall|i: int| lo <= i < hi ==> !#[trigger] p(i),
    ensures
        count(p, hi) == count(p, lo),
    decreases hi,
{
    if lo < hi {
        lemma_count_none(p, lo, (hi - 1) as nat);
        assert(!p(hi - 1));
    }
}

/// Predicates that agree below `n` have the same count.
pub proof fn lemma_count_same(p: spec_fn(int) -> bool, q: spec_fn(int) -> bool, n: nat)
    requires
        forall|i: int| 0 <= i < n ==> #[trigger] p(i) == q(i),
    ensures
        count(p, n) == count(q, n),
    decreases n,
{
    if n > 0 {
        lemma_count_same(p, q, (n - 1) as nat);
        assert(p(n - 1) == q(n - 1));
    }
}

/// A stronger predicate has no larger count.
pub proof fn lemma_count_implies(p: spec_fn(int) -> bool, q: spec_fn(int) -> bool, n: nat)
    requires
        forall|i: int| 0 <= i < n && #[trigger] p(i) ==> q(i),
    ensures
        count(p, n) <= count(q, n),
    decreases n,
{
    if n > 0 {
        lemma_count_implies(p, q, (n - 1) as nat);
        assert(p(n - 1) ==> q(n - 1));
    }
}

/// A predicate that splits into two disjoint ones is counted by their sum.
pub proof fn lemma_count_split(
    p: spec_fn(int) -> bool,
    q: spec_fn(int) -> bool,
    r: spec_fn(int) -> bool,
    n: nat,
)
    requires
        forall|i: int| 0 <= i < n ==> #[trigger] p(i) == (q(i) || r(i)),
        forall|i: int| 0 <= i < n ==> !(#[trigger] q(i) && r(i)),
    ensures
        count(p, n) == count(q, n) + count(r, n),
    decreases n,
{
    if n > 0 {
        lemma_count_split(p, q, r, (n - 1) as nat);
        assert(p(n - 1) == (q(n - 1) || r(n - 1)));
        assert(!(q(n - 1) && r(n - 1)));
    }
}

/// Changing one entry changes the sum by the difference.
pub proof fn lemma_sum_update(s: Seq<int>, i: int, v: int)
    requires
        0 <= i < s.len(),
    ensures
        sum(s.update(i, v)) == sum(s) - s[i] + v,
    decreases s.len(),
{
    let t = s.update(i, v);
    if i == s.len() - 1 {
        assert(t.drop_last() =~= s.drop_last());
    } else {
        lemma_sum_update(s.drop_last(), i, v);
        assert(t.drop_last() =~= s.drop_last().update(i, v));
    }
}

/// An entry of a sequence without negative entries is at most its sum.
pub proof fn lemma_sum_bounds_entry(s: Seq<int>, i: int)
    requires
        0 <= i < s.len(),
        forall|j: int| 0 <= j < s.len() ==> #[trigger] s[j] >= 0,
    ensures
        0 <= s[i] <= sum(s),
    decreases s.len(),
{
    let front = s.drop_last();
    assert forall|j: int| 0 <= j < front.len() implies #[trigger] front[j] >= 0 by {
        assert(front[j] == s[j]);
    }
    lemma_sum_nonneg(front);
    if i < s.len() - 1 {
        lemma_sum_bounds_entry(front, i);
    }
}

/// The sum of a sequence without negative entries is not negative.
pub proof fn lemma_sum_nonneg(s: Seq<int>)
    requires
        forall|j: int| 0 <= j < s.len() ==> #[trigger] s[j] >= 0,
    ensures
        sum(s) >= 0,
    decreases s.len(),
{
    if s.len() > 0 {
        let front = s.drop_last();
        assert forall|j: int| 0 <= j < front.len() implies #[trigger] front[j] >= 0 by {
            assert(front[j] == s[j]);
        }
        lemma_sum_nonneg(front);
    }
}

/// A sequence of zeros sums to zero.
pub proof fn lemma_sum_zero(s: Seq<int>)
    requires
        forall|j: int| 0 <= j < s.len() ==> #[trigger] s[j] == 0,
    ensures
        sum(s) == 0,
    decreases s.len(),
{
    if s.len() > 0 {
        let front = s.drop_last();
        assert forall|j: int| 0 <= j < front.len() implies #[trigger] front[j] == 0 by {
            assert(front[j] == s[j]);
        }
        lemma_sum_zero(front);
    }
}

/// Counting is the size of a set: that of the numbers below `n` that satisfy `p`.
pub proof fn law_count_is_size(p: spec_fn(int) -> bool, n: nat)
    ensures
        Set::new(|i: int| 0 <= i < n && p(i)).finite(),
        Set::new(|i: int| 0 <= i < n && p(i)).len() == count(p, n),
    decreases n,
{
    let all = Set::new(|i: int| 0 <= i < n && p(i));
    if n == 0 {
        assert(all =~= Set::empty());
    } else {
        let m = (n - 1) as nat;
        let below = Set::new(|i: int| 0 <= i < m && p(i));
        law_count_is_size(p, m);
        if p(n - 1) {
            assert(all =~= below.insert(n - 1));
        } else {
            assert(all =~= below);
        }
    }
}

/// Summing is adding up from the left.
pub proof fn law_sum_adds_up(s: Seq<int>)
    ensures
        sum(s) == s.fold_left(0int, |total: int, x: int| total + x),
    decreases s.len(),
{
    if s.len() > 0 {
        law_sum_adds_up(s.drop_last());
    }
}

} // verus!
