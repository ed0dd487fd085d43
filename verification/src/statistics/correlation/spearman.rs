//! Spearman's rank correlation coefficient, carried exactly.
//!
//! For equal-length samples of length `n`, the samples are replaced by their
//! ranks and the coefficient is
//!
//! ```text
//!     rho = 1 - 6 * sum(d_i^2) / (n * (n^2 - 1))
//! ```
//!
//! where `d_i` is the difference of the ranks of the two samples at
//! position `i`. With integer samples the coefficient is an exact rational,
//! returned as a [`Ratio`].

use vstd::prelude::*;

use crate::statistics::Ratio;
use crate::statistics::count_distinct_less;
use crate::statistics::lemma_count_distinct_less_le_len;
use crate::statistics::rank;

verus! {

/// The rank of the element at position `i`: one more than the number of
/// distinct values smaller than it.
pub open spec fn rank_of(s: Seq<i64>, i: int) -> int {
    1 + count_distinct_less(s, s[i])
}

/// The sum over the first `k` positions of the squared rank differences.
pub open spec fn sum_sq_rank_diff(a: Seq<i64>, b: Seq<i64>, k: int) -> int
    decreases k,
{
    if k <= 0 {
        0
    } else {
        let d = rank_of(a, k - 1) - rank_of(b, k - 1);
        sum_sq_rank_diff(a, b, k - 1) + d * d
    }
}

/// Computes the Spearman rank correlation coefficient between the provided
/// sample slices, exactly.
///
/// No result is returned when the slices differ in length, are empty, or
/// hold a single element (the denominator `n*(n^2-1)` is then zero and the
/// coefficient undefined).
pub fn correlation(a: &Vec<i64>, b: &Vec<i64>) -> (r: Option<Ratio>)
    requires
        a@.len() <= 0x10_0000,
        b@.len() <= 0x10_0000,
    ensures
        r.is_some() <==> (a@.len() == b@.len() && a@.len() >= 2),
        match r {
            Some(c) => {
                let n = a@.len() as int;
                c.wf() && c.den == n * (n * n - 1) && c.num == n * (n * n - 1) - 6
                    * sum_sq_rank_diff(a@, b@, n)
            },
            None => true,
        },
{
    if a.len() != b.len() || a.len() < 2 {
        return None;
    }

    let n: usize = a.len();
    let ra: Vec<usize> = rank(a);
    let rb: Vec<usize> = rank(b);

    let mut dsq: i128 = 0;
    let mut i: usize = 0;
    while i < n
        invariant
            0 <= i <= n,
            2 <= n <= 0x10_0000,
            n == a@.len() == b@.len() == ra@.len() == rb@.len(),
            forall|k: int| 0 <= k < n ==> #[trigger] ra@[k] == rank_of(a@, k),
            forall|k: int| 0 <= k < n ==> #[trigger] rb@[k] == rank_of(b@, k),
            dsq == sum_sq_rank_diff(a@, b@, i as int),
            0 <= dsq <= i * ((n + 1) * (n + 1)),
        decreases n - i,
    {
        let x: usize = ra[i];
        let y: usize = rb[i];
        proof {
            lemma_count_distinct_less_le_len(a@, a@[i as int]);
            lemma_count_distinct_less_le_len(b@, b@[i as int]);
            let d = rank_of(a@, i as int) - rank_of(b@, i as int);
            assert(0 <= d * d <= (n + 1) * (n + 1)) by (nonlinear_arith)
                requires
                    -(n as int) <= d <= n + 1,
            ;
            assert(i * ((n + 1) * (n + 1)) + (n + 1) * (n + 1) == (i + 1) * ((n + 1) * (n + 1)))
                by (nonlinear_arith);
            assert((i + 1) * ((n + 1) * (n + 1)) <= (0x10_0000 + 1) * ((0x10_0000 + 1) * (0x10_0000
                + 1))) by (nonlinear_arith)
                requires
                    0 <= i + 1 <= 0x10_0000 + 1,
                    0 <= n + 1 <= 0x10_0000 + 1,
            ;
        }
        let d: i128 = (x as i128) - (y as i128);
        dsq = dsq + d * d;
        i = i + 1;
    }

    let nw: i128 = n as i128;
    proof {
        assert(0 <= nw * nw <= 0x10_0000 * 0x10_0000 && 0 < nw * (nw * nw - 1) <= 0x10_0000 * (
        0x10_0000 * 0x10_0000)) by (nonlinear_arith)
            requires
                2 <= nw <= 0x10_0000,
        ;
        assert(0 <= dsq <= 0x2000_0000_0000_0000) by (nonlinear_arith)
            requires
                0 <= dsq <= nw * ((nw + 1) * (nw + 1)),
                2 <= nw <= 0x10_0000,
        ;
    }
    let den: i128 = nw * (nw * nw - 1);
    let num: i128 = den - 6 * dsq;

    Some(Ratio { num, den })
}

} // verus!
