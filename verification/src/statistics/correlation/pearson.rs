//! Pearson's correlation coefficient, carried exactly.
//!
//! For equal-length samples `a` and `b` of length `n`, the coefficient is
//!
//! ```text
//!     rho = (n*sum(a*b) - sum(a)*sum(b))
//!           / (sqrt(n*sum(a^2) - sum(a)^2) * sqrt(n*sum(b^2) - sum(b)^2))
//! ```
//!
//! The numerator and the two squared denominator factors are integers, so a
//! [`Correlation`] stores them exactly; square roots only enter when a
//! fixed-point reading in millionths is requested, and threshold comparisons
//! are made exactly on the squares.

use vstd::prelude::*;

use crate::math::isqrt_u128;
use crate::math::lemma_sqrt_floor_bounds;
use crate::math::lemma_sqrt_floor_unique;
use crate::math::sqrt_floor;

verus! {

/// The sum of a sequence of samples.
pub open spec fn sum_i(s: Seq<i64>) -> int
    decreases s.len(),
{
    if s.len() == 0 {
        0
    } else {
        sum_i(s.drop_last()) + s.last()
    }
}

/// The sum of the squares of a sequence of samples.
pub open spec fn sum_sq_i(s: Seq<i64>) -> int
    decreases s.len(),
{
    if s.len() == 0 {
        0
    } else {
        sum_sq_i(s.drop_last()) + s.last() * s.last()
    }
}

/// The sum of the pairwise products of two equal-length sequences.
pub open spec fn sum_prod(a: Seq<i64>, b: Seq<i64>) -> int
    decreases a.len(),
{
    if a.len() == 0 || b.len() == 0 {
        0
    } else {
        sum_prod(a.drop_last(), b.drop_last()) + a.last() * b.last()
    }
}

/// Every sample lies within `[-m, m]`.
pub open spec fn mag_le(s: Seq<i64>, m: int) -> bool {
    forall|i: int| 0 <= i < s.len() ==> -m <= #[trigger] s[i] <= m
}

/// The numerator of the Pearson coefficient, `n*sum(a*b) - sum(a)*sum(b)`.
pub open spec fn pearson_num(a: Seq<i64>, b: Seq<i64>) -> int {
    a.len() * sum_prod(a, b) - sum_i(a) * sum_i(b)
}

/// A squared denominator factor, `n*sum(s^2) - sum(s)^2`; this is `n^2`
/// times the sample variance of `s`.
pub open spec fn pearson_var(s: Seq<i64>) -> int {
    s.len() * sum_sq_i(s) - sum_i(s) * sum_i(s)
}

/// The inputs are small enough that every intermediate value of the exact
/// computation fits the machine integers used: some magnitude bound `m`
/// covers both sequences and `len * m` stays within `2^19`.
pub open spec fn pearson_fits(a: Seq<i64>, b: Seq<i64>) -> bool {
    exists|m: int|
        0 <= m && #[trigger] mag_le(a, m) && mag_le(b, m) && a.len() * m <= 0x80000 && b.len() * m
            <= 0x80000
}

/// Sums of a magnitude-bounded sequence are bounded by `len * m`, and sums
/// of squares by `len * m^2`.
proof fn lemma_sums_bounded(s: Seq<i64>, m: int)
    requires
        mag_le(s, m),
        m >= 0,
    ensures
        -(s.len() * m) <= sum_i(s) <= s.len() * m,
        0 <= sum_sq_i(s) <= s.len() * (m * m),
    decreases s.len(),
{
    if s.len() > 0 {
        let t = s.drop_last();
        let v = s.last();
        assert(mag_le(t, m));
        lemma_sums_bounded(t, m);
        assert(-m <= v <= m);
        assert((s.len() - 1) * m + m == s.len() * m) by (nonlinear_arith);
        assert(0 <= v * v <= m * m) by (nonlinear_arith)
            requires
                -m <= v <= m,
        ;
        assert((s.len() - 1) * (m * m) + m * m == s.len() * (m * m)) by (nonlinear_arith);
    }
}

/// The sum of pairwise products of magnitude-bounded sequences is bounded
/// by `len * m^2`.
proof fn lemma_sum_prod_bounded(a: Seq<i64>, b: Seq<i64>, m: int)
    requires
        a.len() == b.len(),
        mag_le(a, m),
        mag_le(b, m),
        m >= 0,
    ensures
        -(a.len() * (m * m)) <= sum_prod(a, b) <= a.len() * (m * m),
    decreases a.len(),
{
    if a.len() > 0 {
        let ta = a.drop_last();
        let tb = b.drop_last();
        assert(mag_le(ta, m));
        assert(mag_le(tb, m));
        lemma_sum_prod_bounded(ta, tb, m);
        assert(-(m * m) <= a.last() * b.last() <= m * m) by (nonlinear_arith)
            requires
                -m <= a.last() <= m,
                -m <= b.last() <= m,
        ;
        assert((a.len() - 1) * (m * m) + m * m == a.len() * (m * m)) by (nonlinear_arith);
    }
}

/// Extending both sequences by one element each adds the product of the new
/// elements to the sum of products.
proof fn lemma_sum_prod_push(a: Seq<i64>, b: Seq<i64>, x: i64, y: i64)
    requires
        a.len() == b.len(),
    ensures
        sum_prod(a.push(x), b.push(y)) == sum_prod(a, b) + x * y,
{
    assert(a.push(x).drop_last() =~= a);
    assert(b.push(y).drop_last() =~= b);
}

/// Extending a sequence by one element adds it to the sum.
proof fn lemma_sum_i_push(s: Seq<i64>, v: i64)
    ensures
        sum_i(s.push(v)) == sum_i(s) + v,
        sum_sq_i(s.push(v)) == sum_sq_i(s) + v * v,
{
    assert(s.push(v).drop_last() =~= s);
}

/// A pair of samples correlated against itself multiplies each sample with
/// itself, so the sum of products is the sum of squares.
pub proof fn lemma_sum_prod_self(s: Seq<i64>)
    ensures
        sum_prod(s, s) == sum_sq_i(s),
    decreases s.len(),
{
    if s.len() > 0 {
        lemma_sum_prod_self(s.drop_last());
    }
}

/// A correlation of a sample vector with itself always reads exactly one
/// (when it is defined at all, that is, when the vector has nonzero
/// variance): the numerator of the self-correlation equals both squared
/// denominator factors, and the millionths reading of such a coefficient is
/// exactly one million.
pub proof fn lemma_self_correlation_is_one(c: Correlation, s: Seq<i64>)
    requires
        c.wf(),
        c.num == pearson_num(s, s),
        c.var_a == pearson_var(s),
        c.var_b == pearson_var(s),
    ensures
        c.num == c.var_a == c.var_b,
        c.spec_millionths() == 1_000_000,
{
    lemma_sum_prod_self(s);
    let v = c.var_a as int;
    assert(sqrt_floor(v * v) == v) by {
        assert(v * v < (v + 1) * (v + 1)) by (nonlinear_arith)
            requires
                v > 0,
        ;
        lemma_sqrt_floor_unique(v * v, v);
    }
    assert((c.num * 1_000_000) / v == 1_000_000) by {
        vstd::arithmetic::div_mod::lemma_div_multiples_vanish(1_000_000, v);
        assert(v * 1_000_000 == c.num * 1_000_000);
    }
}

/// An exactly represented Pearson correlation coefficient: the coefficient
/// equals `num / (sqrt(var_a) * sqrt(var_b))`.
#[derive(Clone, Copy, Debug, PartialEq, Eq, Structural)]
pub struct Correlation {
    /// The numerator `n*sum(a*b) - sum(a)*sum(b)`.
    pub num: i128,
    /// The first squared denominator factor, `n*sum(a^2) - sum(a)^2`.
    pub var_a: i128,
    /// The second squared denominator factor, `n*sum(b^2) - sum(b)^2`.
    pub var_b: i128,
}

impl Correlation {
    /// A coefficient is only formed when both samples have nonzero
    /// variance, and the inputs were small enough that the fields stay
    /// within fixed bounds.
    pub open spec fn wf(&self) -> bool {
        &&& 0 < self.var_a <= 0x40_0000_0000
        &&& 0 < self.var_b <= 0x40_0000_0000
        &&& -0x80_0000_0000 <= self.num <= 0x80_0000_0000
    }

    /// The coefficient in millionths, rounded toward zero, using the
    /// integer square root of the denominator product.
    pub open spec fn spec_millionths(&self) -> int {
        let s = sqrt_floor(self.var_a * self.var_b);
        if self.num >= 0 {
            (self.num * 1_000_000) / s
        } else {
            -(((-self.num) * 1_000_000) / s)
        }
    }

    /// Returns the coefficient in millionths (magnitude rounded down).
    pub fn millionths(&self) -> (r: i128)
        requires
            self.wf(),
        ensures
            r == self.spec_millionths(),
    {
        proof {
            assert(0 < self.var_a * self.var_b <= 0x40_0000_0000 * 0x40_0000_0000)
                by (nonlinear_arith)
                requires
                    0 < self.var_a <= 0x40_0000_0000,
                    0 < self.var_b <= 0x40_0000_0000,
            ;
        }
        let d: u128 = (self.var_a as u128) * (self.var_b as u128);
        let s: u128 = isqrt_u128(d);
        proof {
            lemma_sqrt_floor_bounds(d as int);
            assert(s >= 1) by (nonlinear_arith)
                requires
                    d >= 1,
                    s >= 0,
                    (d as int) < (s + 1) * (s + 1),
            ;
        }
        let mag: u128 = if self.num >= 0 {
            self.num as u128
        } else {
            (-self.num) as u128
        };
        let q: u128 = (mag * 1_000_000) / s;
        proof {
            assert(mag * 1_000_000 <= 0x80_0000_0000 * 1_000_000) by (nonlinear_arith)
                requires
                    0 <= mag <= 0x80_0000_0000,
            ;
            assert(q <= mag * 1_000_000) by (nonlinear_arith)
                requires
                    s >= 1,
                    q == ((mag * 1_000_000) as int) / (s as int),
                    mag >= 0,
            ;
        }
        if self.num >= 0 {
            q as i128
        } else {
            -(q as i128)
        }
    }

    /// Decides exactly whether the absolute coefficient is at least
    /// `threshold` millionths: squaring both sides of
    /// `|num| * 10^6 >= threshold * sqrt(var_a * var_b)` gives an integer
    /// comparison, stated here without rounding.
    pub fn abs_ge_millionths(&self, threshold: u32) -> (r: bool)
        requires
            self.wf(),
            threshold <= 1_000_000,
        ensures
            r == (self.num * self.num * 1_000_000_000_000 >= threshold * threshold * self.var_a
                * self.var_b),
    {
        let mag: u128 = if self.num >= 0 {
            self.num as u128
        } else {
            (-self.num) as u128
        };
        proof {
            assert(0 <= mag * 1_000_000 <= 0x80_0000_0000 * 1_000_000) by (nonlinear_arith)
                requires
                    0 <= mag <= 0x80_0000_0000,
            ;
        }
        let scaled: u128 = mag * 1_000_000;
        proof {
            assert(scaled * scaled <= (0x80_0000_0000 * 1_000_000) * (0x80_0000_0000 * 1_000_000))
                by (nonlinear_arith)
                requires
                    0 <= scaled <= 0x80_0000_0000 * 1_000_000,
            ;
            assert(scaled * scaled == self.num * self.num * 1_000_000_000_000) by (nonlinear_arith)
                requires
                    scaled == mag * 1_000_000,
                    mag == if self.num >= 0 {
                        self.num as int
                    } else {
                        (-self.num) as int
                    },
            ;
        }
        let lhs: u128 = scaled * scaled;
        proof {
            assert(0 <= (threshold as int) * (threshold as int) <= 1_000_000 * 1_000_000)
                by (nonlinear_arith)
                requires
                    0 <= threshold <= 1_000_000,
            ;
            assert(0 < self.var_a * self.var_b <= 0x40_0000_0000 * 0x40_0000_0000)
                by (nonlinear_arith)
                requires
                    0 < self.var_a <= 0x40_0000_0000,
                    0 < self.var_b <= 0x40_0000_0000,
            ;
        }
        let t2: u128 = (threshold as u128) * (threshold as u128);
        let vv: u128 = (self.var_a as u128) * (self.var_b as u128);
        proof {
            assert(t2 * vv <= (1_000_000 * 1_000_000) * (0x40_0000_0000 * 0x40_0000_0000))
                by (nonlinear_arith)
                requires
                    0 <= t2 <= 1_000_000 * 1_000_000,
                    0 <= vv <= 0x40_0000_0000 * 0x40_0000_0000,
            ;
            assert(t2 * vv == threshold * threshold * self.var_a * self.var_b)
                by (nonlinear_arith)
                requires
                    t2 == (threshold as int) * (threshold as int),
                    vv == self.var_a * self.var_b,
            ;
        }
        let rhs: u128 = t2 * vv;
        lhs >= rhs
    }
}

/// Computes the Pearson correlation coefficient between the provided sample
/// slices, exactly.
///
/// No result is returned when the slices differ in length, are empty, or
/// either side has zero variance (the coefficient is undefined there); in
/// every other case the returned value carries the exact numerator and the
/// two squared denominator factors of the coefficient.
pub fn correlation(a: &Vec<i64>, b: &Vec<i64>) -> (r: Option<Correlation>)
    requires
        pearson_fits(a@, b@),
    ensures
        r.is_some() <==> (a@.len() == b@.len() && a@.len() > 0 && pearson_var(a@) > 0
            && pearson_var(b@) > 0),
        match r {
            Some(c) => c.wf() && c.num == pearson_num(a@, b@) && c.var_a == pearson_var(a@)
                && c.var_b == pearson_var(b@),
            None => true,
        },
{
    if a.len() != b.len() || a.len() == 0 {
        return None;
    }

    let ghost m: int = choose|m: int|
        0 <= m && #[trigger] mag_le(a@, m) && mag_le(b@, m) && a@.len() * m <= 0x80000 && b@.len()
            * m <= 0x80000;
    proof {
        assert(m <= a@.len() * m) by (nonlinear_arith)
            requires
                a@.len() >= 1,
                m >= 0,
        ;
    }

    let n: usize = a.len();
    let mut sa: i128 = 0;
    let mut sb: i128 = 0;
    let mut qa: i128 = 0;
    let mut qb: i128 = 0;
    let mut sab: i128 = 0;
    let mut i: usize = 0;
    while i < n
        invariant
            0 <= i <= n,
            n == a@.len() == b@.len(),
            mag_le(a@, m),
            mag_le(b@, m),
            0 <= m <= 0x80000,
            n * m <= 0x80000,
            sa == sum_i(a@.subrange(0, i as int)),
            sb == sum_i(b@.subrange(0, i as int)),
            qa == sum_sq_i(a@.subrange(0, i as int)),
            qb == sum_sq_i(b@.subrange(0, i as int)),
            sab == sum_prod(a@.subrange(0, i as int), b@.subrange(0, i as int)),
            -0x80000 <= sa <= 0x80000,
            -0x80000 <= sb <= 0x80000,
            0 <= qa <= 0x40_0000_0000,
            0 <= qb <= 0x40_0000_0000,
            -0x40_0000_0000 <= sab <= 0x40_0000_0000,
        decreases n - i,
    {
        let x: i64 = a[i];
        let y: i64 = b[i];
        proof {
            let pa = a@.subrange(0, i as int);
            let pb = b@.subrange(0, i as int);
            let pa1 = a@.subrange(0, i + 1);
            let pb1 = b@.subrange(0, i + 1);
            assert(pa1 =~= pa.push(x));
            assert(pb1 =~= pb.push(y));
            lemma_sum_i_push(pa, x);
            lemma_sum_i_push(pb, y);
            lemma_sum_prod_push(pa, pb, x, y);
            assert(mag_le(pa1, m));
            assert(mag_le(pb1, m));
            lemma_sums_bounded(pa1, m);
            lemma_sums_bounded(pb1, m);
            lemma_sum_prod_bounded(pa1, pb1, m);
            assert(pa1.len() * m <= 0x80000) by (nonlinear_arith)
                requires
                    pa1.len() <= n,
                    m >= 0,
                    n * m <= 0x80000,
            ;
            assert(pa1.len() * (m * m) <= 0x80000 * 0x80000) by (nonlinear_arith)
                requires
                    pa1.len() * m <= 0x80000,
                    0 <= m <= 0x80000,
                    pa1.len() >= 0,
            ;
        }
        sa = sa + (x as i128);
        sb = sb + (y as i128);
        qa = qa + (x as i128) * (x as i128);
        qb = qb + (y as i128) * (y as i128);
        sab = sab + (x as i128) * (y as i128);
        i = i + 1;
    }
    proof {
        assert(a@.subrange(0, n as int) =~= a@);
        assert(b@.subrange(0, n as int) =~= b@);
        lemma_sums_bounded(a@, m);
        lemma_sums_bounded(b@, m);
        lemma_sum_prod_bounded(a@, b@, m);
        // Each of `n*sab`, `n*qa`, `n*qb`, `sa*sb`, `sa*sa`, `sb*sb` is
        // bounded by `(n*m)^2 <= 0x80000^2`.
        assert(-(0x80000 * 0x80000) <= n * sab <= 0x80000 * 0x80000 && 0 <= n * qa <= 0x80000
            * 0x80000 && 0 <= n * qb <= 0x80000 * 0x80000 && -(0x80000 * 0x80000) <= sa * sb
            <= 0x80000 * 0x80000 && 0 <= sa * sa <= 0x80000 * 0x80000 && 0 <= sb * sb <= 0x80000
            * 0x80000) by (nonlinear_arith)
            requires
                n >= 1,
                m >= 0,
                n * m <= 0x80000,
                -(n * (m * m)) <= sab <= n * (m * m),
                0 <= qa <= n * (m * m),
                0 <= qb <= n * (m * m),
                -(n * m) <= sa <= n * m,
                -(n * m) <= sb <= n * m,
        ;
    }
    let num: i128 = (n as i128) * sab - sa * sb;
    let var_a: i128 = (n as i128) * qa - sa * sa;
    let var_b: i128 = (n as i128) * qb - sb * sb;

    if var_a <= 0 || var_b <= 0 {
        return None;
    }

    assert(var_a <= 0x40_0000_0000 && var_b <= 0x40_0000_0000 && -0x80_0000_0000 <= num
        <= 0x80_0000_0000);

    Some(Correlation { num, var_a, var_b })
}

} // verus!
