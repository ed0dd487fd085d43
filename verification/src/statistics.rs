//! Statistics primitives: exact rational values, sums, and ranking.

use vstd::prelude::*;
use vstd::arithmetic::div_mod::lemma_fundamental_div_mod;
use vstd::arithmetic::div_mod::lemma_fundamental_div_mod_converse;

pub mod chi_squared;
pub mod correlation;

verus! {

/// The sum of a sequence of counters.
pub open spec fn sum_of(s: Seq<u64>) -> int
    decreases s.len(),
{
    if s.len() == 0 {
        0
    } else {
        sum_of(s.drop_last()) + s.last()
    }
}

/// The sum of the squares of a sequence of counters.
pub open spec fn sum_sq_of(s: Seq<u64>) -> int
    decreases s.len(),
{
    if s.len() == 0 {
        0
    } else {
        sum_sq_of(s.drop_last()) + s.last() * s.last()
    }
}

/// The sum of a sequence is never negative.
pub proof fn lemma_sum_of_nonneg(s: Seq<u64>)
    ensures
        sum_of(s) >= 0,
    decreases s.len(),
{
    if s.len() > 0 {
        lemma_sum_of_nonneg(s.drop_last());
    }
}

/// Extending a sequence by one element adds that element to its sum.
pub proof fn lemma_sum_of_push(s: Seq<u64>, v: u64)
    ensures
        sum_of(s.push(v)) == sum_of(s) + v,
{
    assert(s.push(v).drop_last() =~= s);
}

/// Extending a sequence by one element adds its square to the sum of squares.
pub proof fn lemma_sum_sq_of_push(s: Seq<u64>, v: u64)
    ensures
        sum_sq_of(s.push(v)) == sum_sq_of(s) + v * v,
{
    assert(s.push(v).drop_last() =~= s);
}

/// A sequence of zeros sums to zero.
pub proof fn lemma_sum_of_zeros(s: Seq<u64>)
    requires
        forall|i: int| 0 <= i < s.len() ==> #[trigger] s[i] == 0,
    ensures
        sum_of(s) == 0,
    decreases s.len(),
{
    if s.len() > 0 {
        lemma_sum_of_zeros(s.drop_last());
    }
}

/// Replacing one element moves the sum by the difference.
pub proof fn lemma_sum_of_update(s: Seq<u64>, i: int, v: u64)
    requires
        0 <= i < s.len(),
    ensures
        sum_of(s.update(i, v)) == sum_of(s) - s[i] + v,
    decreases s.len(),
{
    if i == s.len() - 1 {
        assert(s.update(i, v).drop_last() =~= s.drop_last());
    } else {
        assert(s.update(i, v).drop_last() =~= s.drop_last().update(i, v));
        lemma_sum_of_update(s.drop_last(), i, v);
    }
}

/// A prefix of a sequence has a sum no larger than the whole.
pub proof fn lemma_sum_of_prefix_le(s: Seq<u64>, i: int)
    requires
        0 <= i <= s.len(),
    ensures
        sum_of(s.subrange(0, i)) <= sum_of(s),
    decreases s.len() - i,
{
    if i == s.len() {
        assert(s.subrange(0, i) =~= s);
    } else {
        lemma_sum_of_prefix_le(s, i + 1);
        lemma_sum_of_push(s.subrange(0, i), s[i]);
        assert(s.subrange(0, i + 1) =~= s.subrange(0, i).push(s[i]));
        lemma_sum_of_nonneg(s.subrange(0, i));
    }
}

/// Each element of a sequence of counters is at most the sum of the sequence.
pub proof fn lemma_element_le_sum(s: Seq<u64>, i: int)
    requires
        0 <= i < s.len(),
    ensures
        s[i] <= sum_of(s),
    decreases s.len(),
{
    if i == s.len() - 1 {
        lemma_sum_of_nonneg(s.drop_last());
    } else {
        lemma_element_le_sum(s.drop_last(), i);
    }
}

/// The number of distinct values in `s` that are smaller than `v`: a value
/// is counted at its first occurrence and never again.
pub open spec fn count_distinct_less(s: Seq<i64>, v: i64) -> int
    decreases s.len(),
{
    if s.len() == 0 {
        0
    } else {
        count_distinct_less(s.drop_last(), v) + if s.last() < v && !s.drop_last().contains(
            s.last(),
        ) {
            1int
        } else {
            0int
        }
    }
}

/// There are at most `len` distinct values smaller than anything.
pub proof fn lemma_count_distinct_less_le_len(s: Seq<i64>, v: i64)
    ensures
        0 <= count_distinct_less(s, v) <= s.len(),
    decreases s.len(),
{
    if s.len() > 0 {
        lemma_count_distinct_less_le_len(s.drop_last(), v);
    }
}

/// Ranks the inputs by their sort order: the smallest distinct value gets
/// rank 1, the next distinct value rank 2, and so on; equal values share a
/// rank. In other words, the rank of an element is one more than the number
/// of distinct values smaller than it.
pub fn rank(data: &Vec<i64>) -> (r: Vec<usize>)
    requires
        data@.len() < usize::MAX,
    ensures
        r@.len() == data@.len(),
        forall|i: int|
            0 <= i < data@.len() ==> #[trigger] r@[i] == 1 + count_distinct_less(
                data@,
                data@[i],
            ),
{
    let n: usize = data.len();
    let mut out: Vec<usize> = Vec::new();
    let mut i: usize = 0;
    while i < n
        invariant
            0 <= i <= n,
            n == data@.len(),
            n < usize::MAX,
            out@.len() == i,
            forall|k: int|
                0 <= k < i ==> #[trigger] out@[k] == 1 + count_distinct_less(data@, data@[k]),
        decreases n - i,
    {
        let v: i64 = data[i];
        let mut cnt: usize = 0;
        let mut j: usize = 0;
        while j < n
            invariant
                0 <= j <= n,
                n == data@.len(),
                v == data@[i as int],
                0 <= i < n,
                cnt == count_distinct_less(data@.subrange(0, j as int), v),
                cnt <= j,
            decreases n - j,
        {
            let x: i64 = data[j];
            let mut seen = false;
            let mut k: usize = 0;
            while k < j
                invariant
                    0 <= k <= j <= n,
                    n == data@.len(),
                    x == data@[j as int],
                    seen == data@.subrange(0, k as int).contains(x),
                decreases j - k,
            {
                proof {
                    let pk = data@.subrange(0, k as int);
                    let pk1 = data@.subrange(0, k + 1);
                    assert(pk1 =~= pk.push(data@[k as int]));
                    if pk.contains(x) {
                        let w = choose|w: int| 0 <= w < pk.len() && pk[w] == x;
                        assert(pk1[w] == x);
                    }
                    if data@[k as int] == x {
                        assert(pk1[k as int] == x);
                    }
                    if pk1.contains(x) && data@[k as int] != x {
                        let w = choose|w: int| 0 <= w < pk1.len() && pk1[w] == x;
                        assert(w < k ==> pk[w] == x);
                    }
                }
                if data[k] == x {
                    seen = true;
                }
                k = k + 1;
            }
            proof {
                assert(data@.subrange(0, j as int) =~= data@.subrange(0, j as int));
                let pj = data@.subrange(0, j as int);
                let pj1 = data@.subrange(0, j + 1);
                assert(pj1 =~= pj.push(x));
                assert(pj1.drop_last() =~= pj);
                lemma_count_distinct_less_le_len(pj1, v);
            }
            if x < v && !seen {
                cnt = cnt + 1;
            }
            j = j + 1;
        }
        proof {
            assert(data@.subrange(0, n as int) =~= data@);
        }
        out.push(cnt + 1);
        i = i + 1;
    }
    out
}

/// The sum of squares is at most the square of the sum.
pub proof fn lemma_sum_sq_le_sq_of_sum(s: Seq<u64>)
    ensures
        sum_sq_of(s) <= sum_of(s) * sum_of(s),
    decreases s.len(),
{
    if s.len() > 0 {
        let t = s.drop_last();
        let v = s.last();
        lemma_sum_sq_le_sq_of_sum(t);
        lemma_sum_of_nonneg(t);
        assert(sum_sq_of(t) + v * v <= (sum_of(t) + v) * (sum_of(t) + v)) by (nonlinear_arith)
            requires
                sum_sq_of(t) <= sum_of(t) * sum_of(t),
                sum_of(t) >= 0,
                v >= 0,
        ;
    }
}

/// An exact rational number with a positive denominator.
///
/// Statistics in this library (the chi-squared statistic, the Spearman
/// coefficient, speed means and medians) are exact ratios of integers, so
/// they are carried as such rather than rounded early.
#[derive(Clone, Copy, Debug, PartialEq, Eq, Structural)]
pub struct Ratio {
    /// The numerator.
    pub num: i128,
    /// The denominator.
    pub den: i128,
}

impl Ratio {
    /// A well-formed ratio has a positive denominator.
    pub open spec fn wf(&self) -> bool {
        self.den > 0
    }

    /// The ratio expressed in millionths, rounded toward negative infinity.
    pub open spec fn spec_millionths(&self) -> int {
        (self.num * 1_000_000) / (self.den as int)
    }

    /// Returns the ratio in millionths (floor).
    pub fn millionths(&self) -> (r: i128)
        requires
            self.wf(),
            -0x8000_0000_0000_0000 < self.num < 0x8000_0000_0000_0000,
            self.den < 0x8000_0000_0000_0000,
        ensures
            r == self.spec_millionths(),
    {
        if self.num >= 0 {
            (self.num * 1_000_000) / self.den
        } else {
            let mag: i128 = (-self.num) * 1_000_000;
            let q: i128 = mag / self.den;
            let rem: i128 = mag % self.den;
            proof {
                lemma_fundamental_div_mod(mag as int, self.den as int);
                assert(self.num * 1_000_000 == -(mag as int)) by (nonlinear_arith)
                    requires
                        mag == (-self.num) * 1_000_000,
                ;
                if rem == 0 {
                    assert(-(mag as int) == (-q) * self.den + 0) by (nonlinear_arith)
                        requires
                            mag == self.den * q + rem,
                            rem == 0,
                    ;
                    lemma_fundamental_div_mod_converse(
                        self.num * 1_000_000,
                        self.den as int,
                        -q as int,
                        0,
                    );
                } else {
                    assert(-(mag as int) == (-q - 1) * self.den + (self.den - rem))
                        by (nonlinear_arith)
                        requires
                            mag == self.den * q + rem,
                    ;
                    lemma_fundamental_div_mod_converse(
                        self.num * 1_000_000,
                        self.den as int,
                        -q - 1,
                        self.den - rem,
                    );
                }
            }
            if rem == 0 {
                -q
            } else {
                -q - 1
            }
        }
    }
}

} // verus!
