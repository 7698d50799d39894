//! A roll result: the history of every value that went into it, a total
//! cached behind a freshness flag, and an optional reason.

use vstd::prelude::*;

use vstd::arithmetic::div_mod::{lemma_div_basics_5, lemma_div_is_ordered_by_denominator};

use crate::pool::{
    ascending, lemma_sorted_pool, lemma_sorted_pool_sum, lemma_sum_concat, lemma_sum_pointwise,
    lemma_sum_reverse, lemma_sum_subrange, lemma_sum_nonneg, seq_sum, sort_ascending, sorted_pool,
};

verus! {

/// One step of a roll's history. `1d6 + 1d6` is a `Roll`, a `Separator`
/// and another `Roll`.
#[derive(Debug, Clone)]
pub enum RollHistory {
    /// The faces of one group of dice, largest first.
    Roll(Vec<u64>),
    /// The faces of one group of fudge dice, largest first.
    Fudge(Vec<u64>),
    /// A constant.
    Value(u64),
    /// The operator between two combined results.
    Separator(&'static str),
}

/// How the pool of values becomes a total.
#[derive(Debug, Clone, Copy, PartialEq, Eq)]
pub enum TotalModifier {
    /// The sum of the whole pool.
    Sum,
    /// The sum of the `n` largest values.
    KeepHi(usize),
    /// The sum of the `n` smallest values.
    KeepLo(usize),
    /// The sum of all but the `n` largest values.
    DropHi(usize),
    /// The sum of all but the `n` smallest values.
    DropLo(usize),
    /// One point for each value at least the first threshold, minus one for
    /// each other value at most the second.
    TargetFailure(u64, u64),
    /// Minus one for each value up to 2, nothing for 3 and 4, one for each
    /// value from 5.
    Fudge,
}

/// Carries the total of a roll and the history of the steps that led to it.
#[derive(Debug, Clone)]
pub struct RollResult {
    total: i64,
    history: Vec<RollHistory>,
    reason: Option<String>,
    dirty: bool,
}

/// What a `RollResult` holds. `dirty` is true while `total` has not yet been
/// computed from the history.
pub struct RollModel {
    pub total: i64,
    pub history: Seq<RollHistory>,
    pub reason: Option<Seq<char>>,
    pub dirty: bool,
}

impl View for RollResult {
    type V = RollModel;

    closed spec fn view(&self) -> RollModel {
        RollModel {
            total: self.total,
            history: self.history@,
            reason: match self.reason {
                Option::Some(s) => Option::Some(s@),
                Option::None => Option::None,
            },
            dirty: self.dirty,
        }
    }
}

/// The values that one history entry adds to the pool.
pub open spec fn entry_values(h: RollHistory) -> Seq<u64> {
    match h {
        RollHistory::Roll(v) => v@,
        RollHistory::Fudge(v) => v@,
        RollHistory::Value(x) => seq![x],
        RollHistory::Separator(_) => Seq::empty(),
    }
}

/// Every value of a history, in the order of its entries.
pub open spec fn pool_of(hist: Seq<RollHistory>) -> Seq<u64>
    decreases hist.len(),
{
    if hist.len() == 0 {
        Seq::empty()
    } else {
        pool_of(hist.drop_last()) + entry_values(hist.last())
    }
}

/// The part of the ascending pool `s` that a modifier keeps.
pub open spec fn selected(m: TotalModifier, s: Seq<u64>) -> Seq<u64> {
    match m {
        TotalModifier::KeepHi(n) => s.subrange(s.len() - n, s.len() as int),
        TotalModifier::KeepLo(n) => s.subrange(0, n as int),
        TotalModifier::DropHi(n) => s.subrange(0, s.len() - n),
        TotalModifier::DropLo(n) => s.subrange(n as int, s.len() as int),
        _ => s,
    }
}

/// The score of one value against the success and failure thresholds.
pub open spec fn target_point(x: u64, t: u64, f: u64) -> int {
    if x >= t {
        1
    } else if x <= f {
        -1
    } else {
        0
    }
}

/// The score of one fudge face.
pub open spec fn fudge_point(x: u64) -> int {
    if x <= 2 {
        -1
    } else if x <= 4 {
        0
    } else {
        1
    }
}

/// The sum of the target scores of the values of `s`.
pub open spec fn target_score(s: Seq<u64>, t: u64, f: u64) -> int
    decreases s.len(),
{
    if s.len() == 0 {
        0
    } else {
        target_score(s.drop_last(), t, f) + target_point(s.last(), t, f)
    }
}

/// The sum of the fudge scores of the values of `s`.
pub open spec fn fudge_score(s: Seq<u64>) -> int
    decreases s.len(),
{
    if s.len() == 0 {
        0
    } else {
        fudge_score(s.drop_last()) + fudge_point(s.last())
    }
}

/// The total that modifier `m` gives for the ascending pool `s`.
pub open spec fn modifier_total(m: TotalModifier, s: Seq<u64>) -> int {
    match m {
        TotalModifier::TargetFailure(t, f) => target_score(s, t, f),
        TotalModifier::Fudge => fudge_score(s),
        _ => seq_sum(selected(m, s)),
    }
}

/// The count that `m` keeps or drops is at most the size of the pool.
pub open spec fn modifier_fits(m: TotalModifier, len: nat) -> bool {
    match m {
        TotalModifier::KeepHi(n) => n <= len,
        TotalModifier::KeepLo(n) => n <= len,
        TotalModifier::DropHi(n) => n <= len,
        TotalModifier::DropLo(n) => n <= len,
        _ => true,
    }
}

/// `m` applies to the pool `p` and its total fits an `i64`: a count kept or
/// dropped is at most the size of the pool, and a sum of the pool fits.
pub open spec fn total_computable(m: TotalModifier, p: Seq<u64>) -> bool {
    &&& modifier_fits(m, p.len())
    &&& match m {
        TotalModifier::TargetFailure(_, _) => p.len() <= i64::MAX,
        TotalModifier::Fudge => p.len() <= i64::MAX,
        _ => seq_sum(p) <= i64::MAX,
    }
}

/// The absolute value of `a`.
pub open spec fn magnitude(a: int) -> int {
    if a < 0 {
        -a
    } else {
        a
    }
}

/// Rust's `/` on integers: the quotient of the magnitudes, rounded toward
/// zero, negated when exactly one operand is negative.
pub open spec fn trunc_div(a: int, b: int) -> int {
    let q = magnitude(a) / magnitude(b);
    if (a < 0) != (b < 0) {
        -q
    } else {
        q
    }
}

/// The history after `rhs` is appended to `lhs` behind the separator `op`.
pub open spec fn joined(lhs: Seq<RollHistory>, op: &'static str, rhs: Seq<RollHistory>) -> Seq<
    RollHistory,
> {
    if rhs.len() == 0 {
        lhs
    } else {
        lhs.push(RollHistory::Separator(op)) + rhs
    }
}

/// Keeping the `n` largest values of a pool never totals less than keeping
/// its `n` smallest.
pub proof fn keep_high_at_least_keep_low(pool: Seq<u64>, n: usize)
    requires
        n <= pool.len(),
    ensures
        modifier_total(TotalModifier::KeepHi(n), sorted_pool(pool)) >= modifier_total(
            TotalModifier::KeepLo(n),
            sorted_pool(pool),
        ),
{
    lemma_sorted_pool(pool);
    let s = sorted_pool(pool);
    let len = s.len() as int;
    let hi = s.subrange(len - n, len);
    let lo = s.subrange(0, n as int);
    assert forall|i: int| 0 <= i < hi.len() implies hi[i] >= lo[i] by {
        assert(ascending(s));
        assert(hi[i] == s[len - n + i]);
        assert(lo[i] == s[i]);
    }
    lemma_sum_pointwise(hi, lo);
}

/// Dropping the `n` largest values of a pool, then adding back the sum of
/// those `n` values, gives the sum of the whole pool.
pub proof fn drop_high_plus_kept_is_whole(pool: Seq<u64>, n: usize)
    requires
        n <= pool.len(),
    ensures
        modifier_total(TotalModifier::DropHi(n), sorted_pool(pool)) + modifier_total(
            TotalModifier::KeepHi(n),
            sorted_pool(pool),
        ) == seq_sum(pool),
{
    lemma_sorted_pool(pool);
    lemma_sorted_pool_sum(pool);
    let s = sorted_pool(pool);
    let len = s.len() as int;
    assert(s =~= s.subrange(0, len - n) + s.subrange(len - n, len));
    lemma_sum_concat(s.subrange(0, len - n), s.subrange(len - n, len));
}

/// Appends every value of `v` to `flat`.
fn append_values(flat: &mut Vec<u64>, v: &Vec<u64>)
    ensures
        final(flat)@ == old(flat)@ + v@,
{
    let mut j: usize = 0;
    while j < v.len()
        invariant
            j <= v.len(),
            flat@ == old(flat)@ + v@.subrange(0, j as int),
        decreases v.len() - j,
    {
        flat.push(v[j]);
        j = j + 1;
        assert(v@.subrange(0, j as int) =~= v@.subrange(0, j - 1) + seq![v@[j - 1]]);
    }
    assert(v@.subrange(0, v.len() as int) =~= v@);
}

/// The sum of `s[lo..hi]`, which fits an `i64`.
fn sum_range(s: &Vec<u64>, lo: usize, hi: usize) -> (r: i64)
    requires
        lo <= hi <= s.len(),
        seq_sum(s@.subrange(lo as int, hi as int)) <= i64::MAX,
    ensures
        r == seq_sum(s@.subrange(lo as int, hi as int)),
{
    let mut acc: u64 = 0;
    let mut k: usize = lo;
    while k < hi
        invariant
            lo <= k <= hi <= s.len(),
            seq_sum(s@.subrange(lo as int, hi as int)) <= i64::MAX,
            acc == seq_sum(s@.subrange(lo as int, k as int)),
        decreases hi - k,
    {
        proof {
            let whole = s@.subrange(lo as int, hi as int);
            let head = s@.subrange(lo as int, k as int + 1);
            let tail = s@.subrange(k as int + 1, hi as int);
            assert(whole =~= head + tail);
            lemma_sum_concat(head, tail);
            lemma_sum_nonneg(tail);
            assert(head.drop_last() =~= s@.subrange(lo as int, k as int));
        }
        acc = acc + s[k];
        k = k + 1;
    }
    acc as i64
}

/// The target score of every value of `s`.
fn target_count(s: &Vec<u64>, t: u64, f: u64) -> (r: i64)
    requires
        s.len() <= i64::MAX,
    ensures
        r == target_score(s@, t, f),
{
    let mut acc: i64 = 0;
    let mut k: usize = 0;
    while k < s.len()
        invariant
            k <= s.len() <= i64::MAX,
            acc == target_score(s@.subrange(0, k as int), t, f),
            -(k as int) <= acc <= k,
        decreases s.len() - k,
    {
        assert(s@.subrange(0, k as int + 1).drop_last() =~= s@.subrange(0, k as int));
        if s[k] >= t {
            acc = acc + 1;
        } else if s[k] <= f {
            acc = acc - 1;
        }
        k = k + 1;
    }
    assert(s@.subrange(0, s.len() as int) =~= s@);
    acc
}

/// The fudge score of every value of `s`.
fn fudge_count(s: &Vec<u64>) -> (r: i64)
    requires
        s.len() <= i64::MAX,
    ensures
        r == fudge_score(s@),
{
    let mut acc: i64 = 0;
    let mut k: usize = 0;
    while k < s.len()
        invariant
            k <= s.len() <= i64::MAX,
            acc == fudge_score(s@.subrange(0, k as int)),
            -(k as int) <= acc <= k,
        decreases s.len() - k,
    {
        assert(s@.subrange(0, k as int + 1).drop_last() =~= s@.subrange(0, k as int));
        if s[k] <= 2 {
            acc = acc - 1;
        } else if s[k] >= 5 {
            acc = acc + 1;
        }
        k = k + 1;
    }
    assert(s@.subrange(0, s.len() as int) =~= s@);
    acc
}

impl RollResult {
    /// An empty result whose total is still to be computed.
    pub fn new() -> (r: Self)
        ensures
            r@.total == 0,
            r@.history.len() == 0,
            r@.reason is None,
            r@.dirty,
    {
        RollResult { total: 0, history: Vec::new(), reason: Option::None, dirty: true }
    }

    /// A constant: its total is set and its history is that one value.
    pub fn with_total(total: i64) -> (r: Self)
        ensures
            r@.total == total,
            r@.history == seq![RollHistory::Value(total as u64)],
            r@.reason is None,
            !r@.dirty,
    {
        let mut history: Vec<RollHistory> = Vec::new();
        history.push(RollHistory::Value(total as u64));
        RollResult { total, history, reason: Option::None, dirty: false }
    }

    /// Attaches a comment to the result.
    pub fn add_reason(&mut self, reason: String)
        ensures
            final(self)@.reason == Option::Some(reason@),
            final(self)@.total == old(self)@.total,
            final(self)@.history == old(self)@.history,
            final(self)@.dirty == old(self)@.dirty,
    {
        self.reason = Option::Some(reason);
    }

    /// The comment, if any.
    pub fn get_reason(&self) -> (r: Option<&String>)
        ensures
            match r {
                Option::Some(s) => self@.reason == Option::Some(s@),
                Option::None => self@.reason is None,
            },
    {
        self.reason.as_ref()
    }

    /// The history of the result.
    pub fn get_history(&self) -> (r: &Vec<RollHistory>)
        ensures
            r@ == self@.history,
    {
        &self.history
    }

    /// The cached total.
    pub fn get_total(&self) -> (r: i64)
        ensures
            r == self@.total,
    {
        self.total
    }

    /// Computes the total from the history under `modifier`, unless it is
    /// already computed: then the cached total is returned unchanged.
    pub fn compute_total(&mut self, modifier: TotalModifier) -> (r: i64)
        requires
            old(self)@.dirty ==> total_computable(modifier, pool_of(old(self)@.history)),
        ensures
            r == final(self)@.total,
            !final(self)@.dirty,
            final(self)@.history == old(self)@.history,
            final(self)@.reason == old(self)@.reason,
            !old(self)@.dirty ==> final(self)@.total == old(self)@.total,
            old(self)@.dirty ==> final(self)@.total == modifier_total(
                modifier,
                sorted_pool(pool_of(old(self)@.history)),
            ),
    {
        if self.dirty {
            self.dirty = false;
            let mut flat: Vec<u64> = Vec::new();
            let mut i: usize = 0;
            while i < self.history.len()
                invariant
                    i <= self.history.len(),
                    flat@ == pool_of(self.history@.subrange(0, i as int)),
                decreases self.history.len() - i,
            {
                assert(self.history@.subrange(0, i as int + 1).drop_last() =~= self.history@.subrange(0, i as int));
                match &self.history[i] {
                    RollHistory::Roll(v) => append_values(&mut flat, v),
                    RollHistory::Fudge(v) => append_values(&mut flat, v),
                    RollHistory::Value(x) => flat.push(*x),
                    RollHistory::Separator(_) => {
                        assert(flat@ + Seq::<u64>::empty() =~= flat@);
                    },
                }
                i = i + 1;
            }
            assert(self.history@.subrange(0, i as int) =~= self.history@);
            sort_ascending(&mut flat);
            let len = flat.len();
            proof {
                lemma_sorted_pool(pool_of(self.history@));
                lemma_sorted_pool_sum(pool_of(self.history@));
                assert(flat@.subrange(0, len as int) =~= flat@);
                match modifier {
                    TotalModifier::KeepHi(n) => lemma_sum_subrange(flat@, len - n, len as int),
                    TotalModifier::KeepLo(n) => lemma_sum_subrange(flat@, 0, n as int),
                    TotalModifier::DropHi(n) => lemma_sum_subrange(flat@, 0, len - n),
                    TotalModifier::DropLo(n) => lemma_sum_subrange(flat@, n as int, len as int),
                    _ => {},
                }
            }
            self.total = match modifier {
                TotalModifier::KeepHi(n) => sum_range(&flat, len - n, len),
                TotalModifier::KeepLo(n) => sum_range(&flat, 0, n),
                TotalModifier::DropHi(n) => sum_range(&flat, 0, len - n),
                TotalModifier::DropLo(n) => sum_range(&flat, n, len),
                TotalModifier::Sum => sum_range(&flat, 0, len),
                TotalModifier::TargetFailure(t, f) => target_count(&flat, t, f),
                TotalModifier::Fudge => fudge_count(&flat),
            };
        }
        self.total
    }

    /// Records one group of dice, its faces largest first, and marks the
    /// total as needing to be computed again.
    pub fn add_history(&mut self, history: Vec<u64>, is_fudge: bool)
        ensures
            final(self)@.dirty,
            final(self)@.total == old(self)@.total,
            final(self)@.reason == old(self)@.reason,
            final(self)@.history.len() == old(self)@.history.len() + 1,
            final(self)@.history.drop_last() == old(self)@.history,
            is_fudge ==> final(self)@.history.last() is Fudge,
            !is_fudge ==> final(self)@.history.last() is Roll,
            entry_values(final(self)@.history.last()) == sorted_pool(history@).reverse(),
            seq_sum(entry_values(final(self)@.history.last())) == seq_sum(history@),
            entry_values(final(self)@.history.last()).len() == history@.len(),
    {
        self.dirty = true;
        let mut ascending = history;
        sort_ascending(&mut ascending);
        let len = ascending.len();
        let mut faces: Vec<u64> = Vec::new();
        let mut k: usize = 0;
        while k < len
            invariant
                k <= len == ascending.len(),
                faces@ =~= ascending@.reverse().subrange(0, k as int),
            decreases len - k,
        {
            faces.push(ascending[len - 1 - k]);
            k = k + 1;
        }
        assert(faces@ =~= ascending@.reverse());
        proof {
            lemma_sorted_pool(history@);
            lemma_sorted_pool_sum(history@);
            lemma_sum_reverse(ascending@);
        }
        let entry = if is_fudge {
            RollHistory::Fudge(faces)
        } else {
            RollHistory::Roll(faces)
        };
        self.history.push(entry);
        assert(self.history@.drop_last() =~= old(self).history@);
    }

    /// Appends `rhs`'s history behind the separator `op` and sets the total.
    fn join(self, op: &'static str, rhs: Self, total: i64) -> (r: Self)
        ensures
            r@.total == total,
            r@.history == joined(self@.history, op, rhs@.history),
            r@.reason == self@.reason,
            !r@.dirty,
    {
        let mut history = self.history;
        let mut tail = rhs.history;
        if tail.len() > 0 {
            history.push(RollHistory::Separator(op));
        }
        history.append(&mut tail);
        RollResult { total, history, reason: self.reason, dirty: false }
    }

    /// `self + rhs`: the totals are added and the histories joined by `+`.
    pub fn add(self, rhs: Self) -> (r: Self)
        requires
            i64::MIN <= self@.total + rhs@.total <= i64::MAX,
        ensures
            r@.total == self@.total + rhs@.total,
            r@.history == joined(self@.history, "+", rhs@.history),
            r@.reason == self@.reason,
            !r@.dirty,
    {
        let total = self.total + rhs.total;
        self.join("+", rhs, total)
    }

    /// `self - rhs`: the totals are subtracted and the histories joined by `-`.
    pub fn sub(self, rhs: Self) -> (r: Self)
        requires
            i64::MIN <= self@.total - rhs@.total <= i64::MAX,
        ensures
            r@.total == self@.total - rhs@.total,
            r@.history == joined(self@.history, "-", rhs@.history),
            r@.reason == self@.reason,
            !r@.dirty,
    {
        let total = self.total - rhs.total;
        self.join("-", rhs, total)
    }

    /// `self * rhs`: the totals are multiplied and the histories joined by `*`.
    pub fn mul(self, rhs: Self) -> (r: Self)
        requires
            i64::MIN <= self@.total * rhs@.total <= i64::MAX,
        ensures
            r@.total == self@.total * rhs@.total,
            r@.history == joined(self@.history, "*", rhs@.history),
            r@.reason == self@.reason,
            !r@.dirty,
    {
        let total = self.total * rhs.total;
        self.join("*", rhs, total)
    }

    /// `self / rhs`: the totals are divided, rounding toward zero, and the
    /// histories joined by `/`.
    pub fn div(self, rhs: Self) -> (r: Self)
        requires
            rhs@.total != 0,
            !(self@.total == i64::MIN && rhs@.total == -1),
        ensures
            r@.total == trunc_div(self@.total as int, rhs@.total as int),
            r@.history == joined(self@.history, "/", rhs@.history),
            r@.reason == self@.reason,
            !r@.dirty,
    {
        let a = self.total;
        let b = rhs.total;
        let ua: u64 = if a < 0 { (0 - (a as i128)) as u64 } else { a as u64 };
        let ub: u64 = if b < 0 { (0 - (b as i128)) as u64 } else { b as u64 };
        let q: u64 = ua / ub;
        proof {
            lemma_div_basics_5(ua as int, ub as int);
            if ub >= 2 {
                lemma_div_is_ordered_by_denominator(ua as int, 2, ub as int);
            }
        }
        let total: i64 = if (a < 0) != (b < 0) {
            (0 - (q as i128)) as i64
        } else {
            q as i64
        };
        self.join("/", rhs, total)
    }
}

} // verus!
