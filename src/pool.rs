//! The pool of rolled values: its sum, its ascending order, and the facts
//! about both that the totals rest on.

use vstd::prelude::*;
use vstd::relations::{sorted_by, total_ordering};

verus! {

broadcast use vstd::seq_lib::group_to_multiset_ensures;

/// The ordering the pool is sorted by.
pub open spec fn value_leq() -> spec_fn(u64, u64) -> bool {
    |a: u64, b: u64| a <= b
}

/// `s` is sorted from the smallest value to the largest.
pub open spec fn ascending(s: Seq<u64>) -> bool {
    forall|i: int, j: int| 0 <= i < j < s.len() ==> s[i] <= s[j]
}

/// The values of `p`, smallest first.
pub open spec fn sorted_pool(p: Seq<u64>) -> Seq<u64> {
    p.sort_by(value_leq())
}

/// The sum of the values of `s`.
pub open spec fn seq_sum(s: Seq<u64>) -> int
    decreases s.len(),
{
    if s.len() == 0 {
        0
    } else {
        seq_sum(s.drop_last()) + s.last()
    }
}

pub proof fn lemma_sorted_pool(p: Seq<u64>)
    ensures
        ascending(sorted_pool(p)),
        sorted_pool(p).to_multiset() == p.to_multiset(),
        sorted_pool(p).len() == p.len(),
{
    let leq = value_leq();
    assert(total_ordering(leq));
    p.lemma_sort_by_ensures(leq);
    let s = sorted_pool(p);
    assert(sorted_by(s, leq));
    assert forall|i: int, j: int| 0 <= i < j < s.len() implies s[i] <= s[j] by {
        assert(leq(s[i], s[j]));
    }
    assert(s.len() == s.to_multiset().len());
}

/// Two ascending sequences that hold the same values are the same sequence.
pub proof fn lemma_ascending_unique(a: Seq<u64>, b: Seq<u64>)
    requires
        ascending(a),
        ascending(b),
        a.to_multiset() == b.to_multiset(),
    ensures
        a == b,
    decreases a.len(),
{
    assert(a.len() == a.to_multiset().len());
    assert(b.len() == b.to_multiset().len());
    if a.len() > 0 {
        assert(a.contains(a[0]));
        assert(a.to_multiset().count(a[0]) > 0);
        assert(b.to_multiset().count(a[0]) > 0);
        assert(b.contains(a[0]));
        let j = choose|j: int| 0 <= j < b.len() && b[j] == a[0];
        assert(b[0] <= a[0]);
        assert(b.contains(b[0]));
        assert(b.to_multiset().count(b[0]) > 0);
        assert(a.to_multiset().count(b[0]) > 0);
        assert(a.contains(b[0]));
        let k = choose|k: int| 0 <= k < a.len() && a[k] == b[0];
        assert(a[0] <= b[0]);
        assert(a.remove(0) =~= a.drop_first());
        assert(b.remove(0) =~= b.drop_first());
        lemma_ascending_unique(a.drop_first(), b.drop_first());
        assert forall|i: int| 0 <= i < a.len() implies a[i] == b[i] by {
            if i > 0 {
                assert(a[i] == a.drop_first()[i - 1]);
                assert(b[i] == b.drop_first()[i - 1]);
            }
        }
        assert(a =~= b);
    } else {
        assert(a =~= b);
    }
}

/// A sum of values is never negative.
pub proof fn lemma_sum_nonneg(s: Seq<u64>)
    ensures
        seq_sum(s) >= 0,
    decreases s.len(),
{
    if s.len() > 0 {
        lemma_sum_nonneg(s.drop_last());
    }
}

/// The sum of a concatenation is the sum of its parts.
pub proof fn lemma_sum_concat(a: Seq<u64>, b: Seq<u64>)
    ensures
        seq_sum(a + b) == seq_sum(a) + seq_sum(b),
    decreases b.len(),
{
    if b.len() == 0 {
        assert(a + b =~= a);
    } else {
        assert((a + b).drop_last() =~= a + b.drop_last());
        lemma_sum_concat(a, b.drop_last());
    }
}

/// A sequence whose every value is at least the matching value of another
/// has at least its sum.
pub proof fn lemma_sum_pointwise(a: Seq<u64>, b: Seq<u64>)
    requires
        a.len() == b.len(),
        forall|i: int| 0 <= i < a.len() ==> a[i] >= b[i],
    ensures
        seq_sum(a) >= seq_sum(b),
    decreases a.len(),
{
    if a.len() > 0 {
        lemma_sum_pointwise(a.drop_last(), b.drop_last());
    }
}

/// Reversing values does not change their sum.
pub proof fn lemma_sum_reverse(s: Seq<u64>)
    ensures
        seq_sum(s.reverse()) == seq_sum(s),
    decreases s.len(),
{
    if s.len() > 0 {
        let r = s.reverse();
        let rest = s.drop_last().reverse();
        assert(r =~= seq![s.last()] + rest);
        lemma_sum_concat(seq![s.last()], rest);
        let one = seq![s.last()];
        assert(one.drop_last() =~= Seq::<u64>::empty());
        assert(seq_sum(one.drop_last()) == 0);
        assert(seq_sum(one) == s.last());
        lemma_sum_reverse(s.drop_last());
    }
}

/// A contiguous part of a sequence sums to at most the whole.
pub proof fn lemma_sum_subrange(s: Seq<u64>, lo: int, hi: int)
    requires
        0 <= lo <= hi <= s.len(),
    ensures
        seq_sum(s.subrange(lo, hi)) <= seq_sum(s),
{
    let a = s.subrange(0, lo);
    let b = s.subrange(lo, hi);
    let c = s.subrange(hi, s.len() as int);
    assert(s =~= a + (b + c));
    lemma_sum_concat(a, b + c);
    lemma_sum_concat(b, c);
    lemma_sum_nonneg(a);
    lemma_sum_nonneg(c);
}

/// Removing one value from a sequence takes that value off its sum.
pub proof fn lemma_sum_remove(s: Seq<u64>, j: int)
    requires
        0 <= j < s.len(),
    ensures
        seq_sum(s) == seq_sum(s.remove(j)) + s[j],
{
    let pre = s.subrange(0, j);
    let post = s.subrange(j + 1, s.len() as int);
    assert(s =~= pre + (seq![s[j]] + post));
    assert(s.remove(j) =~= pre + post);
    lemma_sum_concat(pre, seq![s[j]] + post);
    lemma_sum_concat(seq![s[j]], post);
    lemma_sum_concat(pre, post);
    let one = seq![s[j]];
    assert(one.drop_last() =~= Seq::<u64>::empty());
    assert(seq_sum(one.drop_last()) == 0);
    assert(seq_sum(one) == s[j]);
}

/// Reordering values does not change their sum.
pub proof fn lemma_sum_permutation(a: Seq<u64>, b: Seq<u64>)
    requires
        a.to_multiset() == b.to_multiset(),
    ensures
        seq_sum(a) == seq_sum(b),
    decreases a.len(),
{
    assert(a.len() == a.to_multiset().len());
    assert(b.len() == b.to_multiset().len());
    if a.len() > 0 {
        let x = a.last();
        assert(a.contains(x));
        assert(a.to_multiset().count(x) > 0);
        assert(b.to_multiset().count(x) > 0);
        assert(b.contains(x));
        let j = choose|j: int| 0 <= j < b.len() && b[j] == x;
        lemma_sum_remove(b, j);
        assert(a.drop_last().push(x) =~= a);
        assert(a.drop_last().to_multiset() =~= a.to_multiset().remove(x));
        lemma_sum_permutation(a.drop_last(), b.remove(j));
    }
}

/// The pool sorted holds the same sum as the pool.
pub proof fn lemma_sorted_pool_sum(p: Seq<u64>)
    ensures
        seq_sum(sorted_pool(p)) == seq_sum(p),
{
    lemma_sorted_pool(p);
    lemma_sum_permutation(sorted_pool(p), p);
}

/// Relies on `slice::sort_unstable`: it leaves the same values in ascending order.
#[verifier::external_body]
fn sort_unstable_u64(v: &mut Vec<u64>)
    ensures
        ascending(final(v)@),
        final(v)@.to_multiset() == old(v)@.to_multiset(),
{
    v.sort_unstable()
}

/// Sorts `v` from the smallest value to the largest.
pub fn sort_ascending(v: &mut Vec<u64>)
    ensures
        final(v)@ == sorted_pool(old(v)@),
{
    sort_unstable_u64(v);
    proof {
        lemma_sorted_pool(old(v)@);
        lemma_ascending_unique(v@, sorted_pool(old(v)@));
    }
}

} // verus!
