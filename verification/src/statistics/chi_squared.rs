//! The chi-squared goodness-of-fit statistic against a uniform distribution.
//!
//! For observed bucket counters `o_0, ..., o_{B-1}` with total `S`, the
//! uniform expectation per bucket is `S / B` and the statistic is
//!
//! ```text
//!     chi^2 = sum_i (o_i - S/B)^2 / (S/B)
//! ```
//!
//! Multiplying numerator and denominator by `B^2` shows that the statistic
//! is the exact rational `sum_i (B*o_i - S)^2 / (B*S)`, which is what this
//! module computes. Turning the statistic into a p-value requires the CDF of
//! the chi-squared distribution, a transcendental function that this library
//! does not provide; callers hand the exact ratio to whatever CDF
//! implementation they trust.

use vstd::prelude::*;

use crate::statistics::Ratio;
use crate::statistics::lemma_element_le_sum;
use crate::statistics::lemma_sum_of_nonneg;
use crate::statistics::lemma_sum_of_prefix_le;
use crate::statistics::lemma_sum_of_push;
use crate::statistics::lemma_sum_sq_le_sq_of_sum;
use crate::statistics::lemma_sum_sq_of_push;
use crate::statistics::sum_of;
use crate::statistics::sum_sq_of;

verus! {

/// The numerator of the uniform chi-squared statistic scaled by `b^2`:
/// the sum of `(b*o_i - total)^2` over the counters.
pub open spec fn sum_sq_dev(s: Seq<u64>, b: int, total: int) -> int
    decreases s.len(),
{
    if s.len() == 0 {
        0
    } else {
        sum_sq_dev(s.drop_last(), b, total) + (b * s.last() - total) * (b * s.last() - total)
    }
}

/// The sum of squared deviations is never negative.
proof fn lemma_dev_nonneg(s: Seq<u64>, b: int, total: int)
    ensures
        sum_sq_dev(s, b, total) >= 0,
    decreases s.len(),
{
    if s.len() > 0 {
        lemma_dev_nonneg(s.drop_last(), b, total);
        let v = s.last();
        assert((b * v - total) * (b * v - total) >= 0) by (nonlinear_arith);
    }
}

/// Expanding each square shows that the sum of squared deviations equals
/// `b^2 * sum_sq - 2*b*total*sum + len*total^2`.
proof fn lemma_dev_expansion(s: Seq<u64>, b: int, total: int)
    ensures
        sum_sq_dev(s, b, total) == b * b * sum_sq_of(s) - 2 * b * total * sum_of(s) + s.len()
            * total * total,
    decreases s.len(),
{
    if s.len() > 0 {
        let t = s.drop_last();
        let v = s.last();
        lemma_dev_expansion(t, b, total);
        let n1 = t.len() as int;
        assert((b * b * sum_sq_of(t) - 2 * b * total * sum_of(t) + n1 * total * total) + (b * v
            - total) * (b * v - total) == b * b * (sum_sq_of(t) + v * v) - 2 * b * total * (sum_of(
            t,
        ) + v) + (n1 + 1) * total * total) by (nonlinear_arith);
    }
}

/// The square of the sum is at most the length times the sum of squares
/// (the Cauchy-Schwarz inequality against the all-ones vector); this is
/// what makes `len * sum_sq - sum^2`, the scaled sample variance, a
/// non-negative quantity.
pub proof fn lemma_sq_of_sum_le_len_times_sum_sq(s: Seq<u64>)
    ensures
        sum_of(s) * sum_of(s) <= s.len() * sum_sq_of(s),
{
    let n = s.len() as int;
    let total = sum_of(s);
    if n == 0 {
    } else {
        lemma_dev_expansion(s, n, total);
        lemma_dev_nonneg(s, n, total);
        assert(sum_sq_dev(s, n, total) == n * (n * sum_sq_of(s) - total * total))
            by (nonlinear_arith)
            requires
                sum_sq_dev(s, n, total) == n * n * sum_sq_of(s) - 2 * n * total * sum_of(s) + n
                    * total * total,
                total == sum_of(s),
        ;
        assert(total * total <= n * sum_sq_of(s)) by (nonlinear_arith)
            requires
                n >= 1,
                n * (n * sum_sq_of(s) - total * total) >= 0,
        ;
    }
}

/// Computes the uniform chi-squared statistic for the observed counters as
/// an exact ratio.
///
/// Following the usual rule of thumb for the test's validity, the statistic
/// is only defined when the expected count per bucket, `sum / len`, is at
/// least five; otherwise no result is returned.
pub fn chi_squared_uniform(observations: &Vec<u64>) -> (r: Option<Ratio>)
    requires
        observations@.len() >= 1,
        observations@.len() * sum_of(observations@) <= 0x8000_0000_0000,
    ensures
        r.is_some() <==> sum_of(observations@) >= 5 * observations@.len(),
        match r {
            Some(c) => c.wf() && c.num == sum_sq_dev(
                observations@,
                observations@.len() as int,
                sum_of(observations@),
            ) && c.den == observations@.len() * sum_of(observations@),
            None => true,
        },
{
    let b: usize = observations.len();
    let ghost total: int = sum_of(observations@);

    proof {
        lemma_sum_of_nonneg(observations@);
    }

    // First pass: the total of all counters.
    let mut sum: u64 = 0;
    let mut i: usize = 0;
    while i < b
        invariant
            0 <= i <= b,
            b == observations@.len(),
            sum == sum_of(observations@.subrange(0, i as int)),
            b * sum_of(observations@) <= 0x8000_0000_0000,
            b >= 1,
            sum_of(observations@) >= 0,
        decreases b - i,
    {
        proof {
            lemma_sum_of_push(observations@.subrange(0, i as int), observations@[i as int]);
            assert(observations@.subrange(0, i + 1) =~= observations@.subrange(
                0,
                i as int,
            ).push(observations@[i as int]));
            lemma_sum_of_prefix_le(observations@, i + 1);
            assert(sum_of(observations@) <= b * sum_of(observations@)) by (nonlinear_arith)
                requires
                    b >= 1,
                    sum_of(observations@) >= 0,
            ;
        }
        sum = sum + observations[i];
        i = i + 1;
    }
    proof {
        assert(observations@.subrange(0, b as int) =~= observations@);
    }

    // The statistic is undefined when the expected count per bucket
    // falls below five.
    if (sum as u128) < 5 * (b as u128) {
        return None;
    }

    proof {
        assert(sum_of(observations@) <= b * sum_of(observations@)) by (nonlinear_arith)
            requires
                b >= 1,
                sum_of(observations@) >= 0,
        ;
    }

    // Second pass: the sum of the squares of the counters.
    let mut sq: u128 = 0;
    let mut j: usize = 0;
    while j < b
        invariant
            0 <= j <= b,
            b == observations@.len(),
            sq == sum_sq_of(observations@.subrange(0, j as int)),
            sq <= total * total,
            total == sum_of(observations@),
            0 < total <= 0x8000_0000_0000,
        decreases b - j,
    {
        let v: u64 = observations[j];
        proof {
            lemma_element_le_sum(observations@, j as int);
            lemma_sum_sq_of_push(observations@.subrange(0, j as int), v);
            assert(observations@.subrange(0, j + 1) =~= observations@.subrange(
                0,
                j as int,
            ).push(v));
            lemma_sum_sq_le_sq_of_sum(observations@.subrange(0, j + 1));
            lemma_sum_of_prefix_le(observations@, j + 1);
            let ps = sum_of(observations@.subrange(0, j + 1));
            lemma_sum_of_nonneg(observations@.subrange(0, j + 1));
            assert(ps * ps <= total * total) by (nonlinear_arith)
                requires
                    0 <= ps <= total,
            ;
            assert(total * total <= 0x8000_0000_0000 * 0x8000_0000_0000) by (nonlinear_arith)
                requires
                    0 <= total <= 0x8000_0000_0000,
            ;
            assert((v as int) * (v as int) <= total * total) by (nonlinear_arith)
                requires
                    0 <= v <= total,
            ;
        }
        sq = sq + (v as u128) * (v as u128);
        j = j + 1;
    }
    proof {
        assert(observations@.subrange(0, b as int) =~= observations@);
    }

    // chi^2 * (B*S) scaled by B^2: B^2 * sum_sq - B * S^2.
    let bw: u128 = b as u128;
    let sw: u128 = sum as u128;
    proof {
        assert(bw * sw <= 0x8000_0000_0000);
        assert(sw <= bw * sw) by (nonlinear_arith)
            requires
                bw >= 1,
                sw >= 0,
        ;
        assert(bw * bw <= 0x8000_0000_0000) by (nonlinear_arith)
            requires
                bw >= 1,
                sw >= 5 * bw,
                bw * sw <= 0x8000_0000_0000,
        ;
        assert(bw * bw * sq <= (bw * sw) * (bw * sw) && (bw * sw) * (bw * sw) <= 0x8000_0000_0000
            * 0x8000_0000_0000 && bw * sw * sw <= 0x8000_0000_0000 * 0x8000_0000_0000)
            by (nonlinear_arith)
            requires
                0 <= sq <= sw * sw,
                bw >= 0,
                sw >= 0,
                0 <= bw * sw <= 0x8000_0000_0000,
                sw <= 0x8000_0000_0000,
        ;
        lemma_dev_expansion(observations@, b as int, total);
        lemma_dev_nonneg(observations@, b as int, total);
        assert(sum_sq_dev(observations@, b as int, total) == bw * bw * sq - 2 * bw * sw * sw + bw
            * sw * sw);
        assert(bw * bw * sq - 2 * bw * sw * sw + bw * sw * sw == bw * bw * sq - bw * sw * sw)
            by (nonlinear_arith);
    }
    let num: u128 = bw * bw * sq - bw * sw * sw;
    proof {
        assert(num == sum_sq_dev(observations@, b as int, total));
    }

    Some(Ratio { num: num as i128, den: (bw * sw) as i128 })
}

/// Pearson's chi-squared test against a theoretical uniform distribution.
///
/// Only the goodness-of-fit statistic is provided; converting it to a
/// p-value takes the chi-squared CDF, which callers supply from outside
/// the library.
pub struct UniformPearsonTest;

impl UniformPearsonTest {
    /// The goodness-of-fit statistic for the observed counters, as an exact
    /// ratio, or nothing when the sample density is too low.
    pub fn statistic(observations: &Vec<u64>) -> (r: Option<Ratio>)
        requires
            observations@.len() >= 1,
            observations@.len() * sum_of(observations@) <= 0x8000_0000_0000,
        ensures
            r.is_some() <==> sum_of(observations@) >= 5 * observations@.len(),
            match r {
                Some(c) => c.wf() && c.num == sum_sq_dev(
                    observations@,
                    observations@.len() as int,
                    sum_of(observations@),
                ) && c.den == observations@.len() * sum_of(observations@),
                None => true,
            },
    {
        chi_squared_uniform(observations)
    }
}

} // verus!
