//! The speed test.
//!
//! Each iteration rebuilds a payload buffer from the provider to at least
//! the desired size, feeds it to a freshly built hasher between two readings
//! of the monotonic clock, and stores one throughput sample. The samples
//! reduce to their mean and median, each compared exactly against the
//! configured threshold as an independent pass/fail module.
//!
//! Throughput is carried in bytes per second, which is the same number as
//! the throughput in megabytes per second expressed in millionths.

use vstd::prelude::*;
use vstd::pervasive::unreached;

use crate::clock;
use crate::hash::HashCapability;
use crate::providers::Provider;
use crate::report::section::test::Builder;
use crate::statistics::Ratio;

verus! {

/// An error constructing a speed [`Test`].
#[derive(Clone, Copy, Debug, PartialEq, Eq, Structural)]
pub enum Error {
    /// The desired payload size must be non-zero.
    InvalidDataSize,
}

/// Throughput samples are capped at this many bytes per second (one
/// terabyte per second, far beyond any real hash), so that sums of squares
/// of samples cannot overflow.
pub const THROUGHPUT_CAP: u64 = 1_000_000_000_000;

/// The throughput, in bytes per second, of hashing `bytes` bytes in `nanos`
/// nanoseconds: `bytes * 10^9 / nanos`, with a zero duration read as one
/// nanosecond, capped at [`THROUGHPUT_CAP`].
pub open spec fn throughput_of(bytes: int, nanos: int) -> int {
    let d = if nanos <= 0 {
        1int
    } else {
        nanos
    };
    let raw = (bytes * 1_000_000_000) / d;
    if raw > THROUGHPUT_CAP {
        THROUGHPUT_CAP as int
    } else {
        raw
    }
}

/// A sequence is sorted in ascending order.
pub open spec fn sorted(s: Seq<u64>) -> bool {
    forall|i: int, j: int| 0 <= i <= j < s.len() ==> s[i] <= s[j]
}

/// The median of a sorted sequence, as a ratio: the middle element, or the
/// mean of the two middle elements when the length is even (one formula
/// covers both cases).
pub open spec fn median_of(s: Seq<u64>) -> Ratio {
    Ratio { num: (s[(s.len() - 1) as int / 2] + s[s.len() as int / 2]) as i128, den: 2 }
}

/// Computes the throughput, in bytes per second, for `bytes` bytes hashed
/// in `nanos` nanoseconds.
pub fn compute_throughput(bytes: usize, nanos: u128) -> (r: u64)
    ensures
        r == throughput_of(bytes as int, nanos as int),
        r <= THROUGHPUT_CAP,
{
    let d: u128 = if nanos == 0 {
        1
    } else {
        nanos
    };
    let scaled: u128 = (bytes as u128) * 1_000_000_000;
    let raw: u128 = scaled / d;
    if raw > (THROUGHPUT_CAP as u128) {
        THROUGHPUT_CAP
    } else {
        raw as u64
    }
}

/// Sorts the samples ascending: the result is a sorted rearrangement of the
/// input.
fn sort_ascending(v: &Vec<u64>) -> (r: Vec<u64>)
    ensures
        r@.len() == v@.len(),
        sorted(r@),
        r@.to_multiset() == v@.to_multiset(),
{
    broadcast use vstd::seq_lib::group_to_multiset_ensures;

    let mut src: Vec<u64> = Vec::new();
    let mut c: usize = 0;
    while c < v.len()
        invariant
            0 <= c <= v@.len(),
            src@ == v@.subrange(0, c as int),
        decreases v@.len() - c,
    {
        proof {
            assert(v@.subrange(0, c + 1) =~= v@.subrange(0, c as int).push(v@[c as int]));
        }
        src.push(v[c]);
        c = c + 1;
    }
    proof {
        assert(v@.subrange(0, v@.len() as int) =~= v@);
    }
    let mut out: Vec<u64> = Vec::new();
    while src.len() > 0
        invariant
            sorted(out@),
            out@.to_multiset().add(src@.to_multiset()) == v@.to_multiset(),
            out@.len() + src@.len() == v@.len(),
            v@.len() <= usize::MAX,
            forall|i: int, j: int|
                0 <= i < out@.len() && 0 <= j < src@.len() ==> out@[i] <= src@[j],
        decreases src@.len(),
    {
        let mut m: usize = 0;
        let mut k: usize = 1;
        while k < src.len()
            invariant
                0 <= m < k <= src@.len(),
                src@.len() > 0,
                forall|t: int| 0 <= t < k ==> src@[m as int] <= #[trigger] src@[t],
            decreases src@.len() - k,
        {
            if src[k] < src[m] {
                m = k;
            }
            k = k + 1;
        }
        let x: u64 = src[m];
        let ghost src_before = src@;
        let ghost out_before = out@;
        out.push(x);
        src.remove(m);
        proof {
            assert(src@ =~= src_before.remove(m as int));
            vstd::seq_lib::to_multiset_build(out_before, x);
            vstd::seq_lib::to_multiset_remove(src_before, m as int);
            assert(out@.to_multiset().add(src@.to_multiset()) =~= v@.to_multiset()) by {
                broadcast use vstd::multiset::group_multiset_axioms;

                assert(out@.to_multiset() == out_before.to_multiset().insert(x));
                assert(src@.to_multiset() == src_before.to_multiset().remove(x));
                vstd::seq_lib::to_multiset_contains(src_before, x);
                assert(src_before.contains(x));
                assert(src_before.to_multiset().count(x) >= 1);
            }
            assert(forall|j: int|
                0 <= j < src@.len() ==> x <= #[trigger] src@[j]) by {
                assert(forall|j: int|
                    0 <= j < src@.len() ==> src@[j] == src_before[if j < m {
                        j
                    } else {
                        j + 1
                    }]);
            }
        }
    }
    out
}

/// A summary of the accumulated throughput samples: the exact mean, median
/// and variance, and whether the mean and the median each clear the
/// configured threshold.
#[derive(Clone, Copy, Debug, PartialEq, Eq, Structural)]
pub struct Summary {
    /// The mean throughput, in bytes per second.
    pub mean: Ratio,
    /// The median throughput, in bytes per second.
    pub median: Ratio,
    /// The variance of the throughput samples, in squared bytes per second.
    pub variance: Ratio,
    /// Whether the mean is at least the threshold.
    pub mean_passed: bool,
    /// Whether the median is at least the threshold.
    pub median_passed: bool,
}

/// A speed test.
#[derive(Debug)]
pub struct Test<P: Provider> {
    /// The data provider.
    provider: P,
    /// The payload currently being hashed.
    data: Vec<u8>,
    /// The desired payload size in bytes.
    desired_data_size: usize,
    /// The throughput samples, in bytes per second, one per iteration.
    results: Vec<u64>,
    /// The throughput threshold, in bytes per second, for the test to be
    /// considered successful.
    threshold: u64,
}

impl<P: Provider> Test<P> {
    /// A well-formed test: a non-zero desired payload size and samples
    /// below the throughput cap. Constructors establish this and every
    /// method preserves it.
    pub closed spec fn wf(&self) -> bool {
        &&& self.desired_data_size >= 1
        &&& forall|i: int|
            0 <= i < self.results@.len() ==> #[trigger] self.results@[i] <= THROUGHPUT_CAP
    }

    /// The throughput samples recorded so far, in bytes per second.
    pub closed spec fn spec_results(&self) -> Seq<u64> {
        self.results@
    }

    /// The payload bytes currently held.
    pub closed spec fn spec_data(&self) -> Seq<u8> {
        self.data@
    }

    /// The configured desired payload size in bytes.
    pub closed spec fn spec_desired_data_size(&self) -> usize {
        self.desired_data_size
    }

    /// The configured threshold in bytes per second.
    pub closed spec fn spec_threshold(&self) -> u64 {
        self.threshold
    }

    /// The fixed byte length of the sequences the test's provider hands
    /// out.
    pub closed spec fn spec_bytes_per_input(&self) -> usize {
        self.provider.spec_bytes_per_input()
    }

    /// Creates a new [`Test`] with an empty payload buffer and no samples.
    ///
    /// The desired payload size must be non-zero; the threshold may be any
    /// number of bytes per second.
    pub fn new(provider: P, desired_data_size: usize, threshold: u64) -> (r: Result<
        Test<P>,
        Error,
    >)
        ensures
            match r {
                Ok(t) => {
                    &&& desired_data_size >= 1
                    &&& t.wf()
                    &&& t.spec_results().len() == 0
                    &&& t.spec_data().len() == 0
                    &&& t.spec_desired_data_size() == desired_data_size
                    &&& t.spec_threshold() == threshold
                    &&& t.spec_bytes_per_input() == provider.spec_bytes_per_input()
                },
                Err(e) => desired_data_size == 0 && e == Error::InvalidDataSize,
            },
    {
        if desired_data_size == 0 {
            return Err(Error::InvalidDataSize);
        }
        Ok(Test { provider, data: Vec::new(), desired_data_size, results: Vec::new(), threshold })
    }

    /// Gets the data provider for this [`Test`].
    pub fn provider(&self) -> (r: &P)
        ensures
            r.spec_bytes_per_input() == self.spec_bytes_per_input(),
    {
        &self.provider
    }

    /// Gets the payload currently held by the [`Test`].
    pub fn data(&self) -> (r: &Vec<u8>)
        ensures
            r@ == self.spec_data(),
    {
        &self.data
    }

    /// Gets the desired payload size, in bytes, of the [`Test`].
    pub fn desired_data_size(&self) -> (r: usize)
        ensures
            r == self.spec_desired_data_size(),
    {
        self.desired_data_size
    }

    /// Gets the throughput samples, in bytes per second, of the [`Test`].
    pub fn results(&self) -> (r: &Vec<u64>)
        ensures
            r@ == self.spec_results(),
    {
        &self.results
    }

    /// Gets the threshold, in bytes per second, of the [`Test`].
    pub fn threshold(&self) -> (r: u64)
        ensures
            r == self.spec_threshold(),
    {
        self.threshold
    }

    /// Clears and refills the payload from the provider until it reaches at
    /// least the desired size; the realized size may exceed the desired
    /// size by up to one provider unit.
    fn rehydrate(&mut self)
        requires
            old(self).wf(),
            old(self).spec_bytes_per_input() >= 1,
            old(self).spec_desired_data_size() + old(self).spec_bytes_per_input() <= usize::MAX,
        ensures
            final(self).wf(),
            final(self).spec_results() == old(self).spec_results(),
            final(self).spec_threshold() == old(self).spec_threshold(),
            final(self).spec_desired_data_size() == old(self).spec_desired_data_size(),
            final(self).spec_bytes_per_input() == old(self).spec_bytes_per_input(),
            final(self).spec_desired_data_size() <= final(self).spec_data().len(),
            final(self).spec_data().len() < final(self).spec_desired_data_size()
                + final(self).spec_bytes_per_input(),
    {
        self.data = Vec::new();
        while self.data.len() < self.desired_data_size
            invariant
                self.wf(),
                self.spec_bytes_per_input() >= 1,
                self.desired_data_size + self.spec_bytes_per_input() <= usize::MAX,
                self.spec_results() == old(self).spec_results(),
                self.spec_threshold() == old(self).spec_threshold(),
                self.spec_desired_data_size() == old(self).spec_desired_data_size(),
                self.spec_bytes_per_input() == old(self).spec_bytes_per_input(),
                self.data@.len() < self.desired_data_size + self.spec_bytes_per_input(),
            decreases self.desired_data_size + self.spec_bytes_per_input() - self.data@.len(),
        {
            let mut batch = self.provider.provide(1);
            let mut chunk = match batch.pop() {
                Some(c) => c,
                None => unreached(),
            };
            self.data.append(&mut chunk);
        }
    }

    /// Runs `iterations` timed hashes over freshly rebuilt payloads and
    /// stores one throughput sample for each.
    pub fn run<H: HashCapability>(&mut self, build_hasher: &H, iterations: u64)
        requires
            old(self).wf(),
            old(self).spec_bytes_per_input() >= 1,
            old(self).spec_desired_data_size() + old(self).spec_bytes_per_input() <= usize::MAX,
            old(self).spec_results().len() + iterations <= usize::MAX,
        ensures
            final(self).wf(),
            final(self).spec_threshold() == old(self).spec_threshold(),
            final(self).spec_desired_data_size() == old(self).spec_desired_data_size(),
            final(self).spec_bytes_per_input() == old(self).spec_bytes_per_input(),
            final(self).spec_results().len() == old(self).spec_results().len() + iterations,
            final(self).spec_results().subrange(
                0,
                old(self).spec_results().len() as int,
            ) == old(self).spec_results(),
    {
        let mut it: u64 = 0;
        while it < iterations
            invariant
                0 <= it <= iterations,
                self.wf(),
                self.spec_bytes_per_input() >= 1,
                self.spec_desired_data_size() + self.spec_bytes_per_input() <= usize::MAX,
                old(self).spec_results().len() + iterations <= usize::MAX,
                self.spec_threshold() == old(self).spec_threshold(),
                self.spec_desired_data_size() == old(self).spec_desired_data_size(),
                self.spec_bytes_per_input() == old(self).spec_bytes_per_input(),
                self.spec_results().len() == old(self).spec_results().len() + it,
                self.spec_results().subrange(0, old(self).spec_results().len() as int) == old(
                    self,
                ).spec_results(),
            decreases iterations - it,
        {
            self.rehydrate();
            let sample: u64 = precision_timed_hash(build_hasher, &self.data);
            let ghost before = self.results@;
            self.results.push(sample);
            proof {
                assert(self.results@.subrange(0, old(self).spec_results().len() as int)
                    =~= before.subrange(0, old(self).spec_results().len() as int));
            }
            it = it + 1;
        }
    }

    /// Reduces the samples to their summary: the exact mean, median and
    /// variance, and the two independent threshold verdicts.
    ///
    /// At least one sample must have been recorded.
    pub fn summary(&self) -> (r: Summary)
        requires
            self.wf(),
            1 <= self.spec_results().len() <= 0x40_0000,
        ensures
            ({
                let s = self.spec_results();
                let n = s.len() as int;
                &&& r.mean.wf() && r.mean.den == n && r.mean.num == crate::statistics::sum_of(s)
                &&& r.mean_passed == (crate::statistics::sum_of(s) >= n
                    * self.spec_threshold())
                &&& r.variance.wf() && r.variance.den == n * n && r.variance.num == n
                    * crate::statistics::sum_sq_of(s) - crate::statistics::sum_of(s)
                    * crate::statistics::sum_of(s)
                &&& exists|t: Seq<u64>|
                    sorted(t) && #[trigger] t.to_multiset() == s.to_multiset() && t.len() == n
                        && r.median == median_of(t) && r.median_passed == (t[(n - 1) / 2] + t[n
                        / 2] >= 2 * self.spec_threshold())
                &&& r.median.wf()
            }),
    {
        let n: usize = self.results.len();
        let mut sum: u128 = 0;
        let mut sq: u128 = 0;
        let mut i: usize = 0;
        while i < n
            invariant
                0 <= i <= n,
                self.wf(),
                n == self.spec_results().len() <= 0x40_0000,
                sum == crate::statistics::sum_of(self.spec_results().subrange(0, i as int)),
                sq == crate::statistics::sum_sq_of(self.spec_results().subrange(0, i as int)),
                sum <= i * (THROUGHPUT_CAP as int),
                sq <= i * ((THROUGHPUT_CAP as int) * (THROUGHPUT_CAP as int)),
            decreases n - i,
        {
            let v: u64 = self.results[i];
            proof {
                let pref = self.spec_results().subrange(0, i as int);
                crate::statistics::lemma_sum_of_push(pref, v);
                crate::statistics::lemma_sum_sq_of_push(pref, v);
                assert(self.spec_results().subrange(0, i + 1) =~= pref.push(v));
                assert(0 <= (v as int) * (v as int) <= (THROUGHPUT_CAP as int) * (THROUGHPUT_CAP
                    as int)) by (nonlinear_arith)
                    requires
                        0 <= v <= THROUGHPUT_CAP,
                ;
                let cap = THROUGHPUT_CAP as int;
                assert((i + 1) * (cap * cap) <= 0x40_0000 * (cap * cap) && (i + 1) * cap
                    <= 0x40_0000 * cap && i * (cap * cap) + cap * cap == (i + 1) * (cap * cap)
                    && i * cap + cap == (i + 1) * cap) by (nonlinear_arith)
                    requires
                        0 <= i + 1 <= 0x40_0000,
                        cap >= 0,
                ;
            }
            sum = sum + (v as u128);
            sq = sq + (v as u128) * (v as u128);
            i = i + 1;
        }
        proof {
            assert(self.spec_results().subrange(0, n as int) =~= self.spec_results());
        }

        let nw: u128 = n as u128;
        proof {
            crate::statistics::chi_squared::lemma_sq_of_sum_le_len_times_sum_sq(
                self.spec_results(),
            );
            let cap = THROUGHPUT_CAP as int;
            assert(nw * sq <= 0x40_0000 * (0x40_0000 * (1_000_000_000_000 * 1_000_000_000_000))
                && 1 <= nw * nw <= 0x40_0000 * 0x40_0000 && sum * sum <= nw * sq && sum <= 0x40_0000
                * 1_000_000_000_000) by (nonlinear_arith)
                requires
                    cap == 1_000_000_000_000,
                    1 <= nw <= 0x40_0000,
                    0 <= sum <= nw * cap,
                    0 <= sq <= nw * (cap * cap),
                    sum == crate::statistics::sum_of(self.spec_results()),
                    sq == crate::statistics::sum_sq_of(self.spec_results()),
                    crate::statistics::sum_of(self.spec_results()) * crate::statistics::sum_of(
                        self.spec_results(),
                    ) <= self.spec_results().len() * crate::statistics::sum_sq_of(
                        self.spec_results(),
                    ),
                    nw == self.spec_results().len(),
            ;
        }
        let var_num: u128 = nw * sq - sum * sum;

        let mean = Ratio { num: sum as i128, den: n as i128 };
        let variance = Ratio { num: var_num as i128, den: (nw * nw) as i128 };
        proof {
            assert(nw * (self.spec_threshold() as int) <= 0x40_0000 * 0xffff_ffff_ffff_ffff)
                by (nonlinear_arith)
                requires
                    0 <= nw <= 0x40_0000,
                    0 <= self.spec_threshold() <= 0xffff_ffff_ffff_ffff,
            ;
        }
        let mean_passed: bool = (sum as u128) >= nw * (self.threshold as u128);

        let sorted_samples = sort_ascending(&self.results);
        let lo: u64 = sorted_samples[(n - 1) / 2];
        let hi: u64 = sorted_samples[n / 2];
        let median = Ratio { num: (lo as i128) + (hi as i128), den: 2 };
        let median_passed: bool = (lo as u128) + (hi as u128) >= 2 * (self.threshold as u128);

        proof {
            let t = sorted_samples@;
            assert(sorted(t) && t.to_multiset() == self.spec_results().to_multiset() && t.len()
                == self.spec_results().len() && median == median_of(t) && median_passed == (t[(
            t.len() - 1) as int / 2] + t[t.len() as int / 2] >= 2 * self.spec_threshold()));
        }
        Summary { mean, median, variance, mean_passed, median_passed }
    }
}

/// Hashes the payload once with a freshly built hasher, timing just the
/// digest computation between two monotonic clock readings, and returns the
/// throughput in bytes per second. Whatever the clock reads, the sample
/// never exceeds [`THROUGHPUT_CAP`].
pub fn precision_timed_hash<H: HashCapability>(build_hasher: &H, data: &Vec<u8>) -> (r: u64)
    ensures
        r <= THROUGHPUT_CAP,
{
    let start = clock::instant_now();
    let digest = build_hasher.hash_one(data.as_slice());
    black_box_u64(digest);
    let end = clock::instant_now();
    let elapsed = clock::saturating_duration_since(&end, &start);
    let nanos: u128 = clock::duration_as_nanos(&elapsed);
    compute_throughput(data.len(), nanos)
}

/// Relies on `std::hint::black_box`: consumes its argument while keeping
/// the compiler from optimizing the computation of that argument away, so
/// the timed digest is really computed.
#[verifier::external_body]
fn black_box_u64(x: u64) {
    std::hint::black_box(x);
}

/// Populates the boilerplate report information for a speed test section:
/// its title and its description, with the modules left for the caller to
/// push.
pub fn get_report_base() -> (r: Builder)
    ensures
        r.title is Some,
        r.description is Some,
        r.modules@.len() == 0,
{
    let builder = Builder::new();
    let builder = match builder.title("Speed Test".to_owned()) {
        Ok(b) => b,
        Err(_) => unreached(),
    };
    let description =
        "Runs a set of speed tests for a hash function. Each iteration rebuilds a payload of at least the desired size from the data provider and times a single hash of it; the throughput samples are then summarized, and the mean and the median are each compared against the configured threshold as independent pass/fail modules.".to_owned();
    let builder = match builder.description(description) {
        Ok(b) => b,
        Err(_) => unreached(),
    };
    builder
}

} // verus!
