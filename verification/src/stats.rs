//! Streaming statistics and latency-summary assembly. `OnlineStats` keeps
//! exact integer accumulators (count, sum, sum of squares) for a stream of
//! samples; a proof shows they determine the two-pass sum of squared
//! deviations exactly, so the standard deviation a presentation layer
//! derives from them agrees with the two-pass computation.

use crate::metrics::{compute_metrics, sort_samples, sorted_of, sum_of};
use crate::model::{spec_loss_ppm, LatencySummary};
use vstd::prelude::*;

verus! {

/// Sum of the squares of all samples.
pub open spec fn sum_sq_of(s: Seq<u64>) -> int
    decreases s.len(),
{
    if s.len() == 0 {
        0
    } else {
        sum_sq_of(s.drop_last()) + s.last() * s.last()
    }
}

/// Sum of `(n * x - scaled_mean)^2` over the samples `x` of `s`, with `n`
/// and `scaled_mean` fixed: the two-pass sum of squared deviations, scaled
/// by `n^2` to stay in integers.
pub open spec fn scaled_deviation_sum(s: Seq<u64>, scaled_mean: int, n: int) -> int
    decreases s.len(),
{
    if s.len() == 0 {
        0
    } else {
        scaled_deviation_sum(s.drop_last(), scaled_mean, n) + (n * s.last() - scaled_mean) * (n
            * s.last() - scaled_mean)
    }
}

/// The two-pass sum of squared deviations of `s`, scaled by `len^2`:
/// `sum_i (len * s[i] - sum_of(s))^2`.
pub open spec fn two_pass_ssd_scaled(s: Seq<u64>) -> int {
    scaled_deviation_sum(s, sum_of(s), s.len() as int)
}

proof fn lemma_scaled_deviation_sum_expanded(s: Seq<u64>, m: int, n: int)
    ensures
        scaled_deviation_sum(s, m, n) == n * n * sum_sq_of(s) - 2 * n * m * sum_of(s) + s.len() * m
            * m,
    decreases s.len(),
{
    if s.len() > 0 {
        lemma_scaled_deviation_sum_expanded(s.drop_last(), m, n);
        let x = s.last() as int;
        assert((n * x - m) * (n * x - m) == n * n * (x * x) - 2 * n * m * x + m * m)
            by (nonlinear_arith);
        assert(n * n * (sum_sq_of(s.drop_last()) + x * x) == n * n * sum_sq_of(s.drop_last()) + n
            * n * (x * x)) by (nonlinear_arith);
        assert(2 * n * m * (sum_of(s.drop_last()) + x) == 2 * n * m * sum_of(s.drop_last()) + 2 * n
            * m * x) by (nonlinear_arith);
        assert((s.len() - 1) * m * m + m * m == s.len() * m * m) by (nonlinear_arith);
    }
}

/// Streaming statistics over a sample stream, kept as exact integer
/// accumulators. The mean is `sum / count`; the population variance is
/// `(count * sum_sq - sum^2) / count^2`, which the presentation layer takes
/// a square root of in floating point.
pub struct OnlineStats {
    count: u64,
    sum: u128,
    sum_sq: u128,
    samples: Ghost<Seq<u64>>,
}

impl OnlineStats {
    /// The stream of samples pushed so far.
    pub closed spec fn samples(self) -> Seq<u64> {
        self.samples@
    }

    pub closed spec fn spec_count(self) -> u64 {
        self.count
    }

    pub closed spec fn spec_sum(self) -> u128 {
        self.sum
    }

    pub closed spec fn spec_sum_sq(self) -> u128 {
        self.sum_sq
    }

    /// The accumulators agree exactly with the pushed samples.
    pub closed spec fn wf(self) -> bool {
        &&& self.count == self.samples@.len()
        &&& self.sum == sum_of(self.samples@)
        &&& self.sum_sq == sum_sq_of(self.samples@)
    }

    /// One more sample can be accepted without overflowing an accumulator.
    pub open spec fn can_push(self, x: u64) -> bool {
        &&& self.samples().len() < u64::MAX
        &&& sum_of(self.samples()) + x <= u128::MAX
        &&& sum_sq_of(self.samples()) + x * x <= u128::MAX
    }

    pub fn new() -> (r: Self)
        ensures
            r.wf(),
            r.samples() == Seq::<u64>::empty(),
    {
        OnlineStats { count: 0, sum: 0, sum_sq: 0, samples: Ghost(Seq::empty()) }
    }

    /// Record one sample, updating count, sum and sum of squares exactly.
    pub fn push(&mut self, x: u64)
        requires
            old(self).wf(),
            old(self).can_push(x),
        ensures
            final(self).wf(),
            final(self).samples() == old(self).samples().push(x),
    {
        proof {
            lemma_sum_sq_of_nonneg(self.samples@);
            crate::metrics::lemma_sum_of_bounds(self.samples@);
            assert((x as int) * (x as int) <= u64::MAX * u64::MAX) by (nonlinear_arith)
                requires
                    x <= u64::MAX,
            ;
            assert(self.samples@.push(x).drop_last() =~= self.samples@);
        }
        self.count = self.count + 1;
        self.sum = self.sum + x as u128;
        self.sum_sq = self.sum_sq + (x as u128) * (x as u128);
        proof {
            self.samples@ = self.samples@.push(x);
        }
    }

    /// Number of samples pushed so far.
    pub fn count(&self) -> (r: u64)
        requires
            self.wf(),
        ensures
            r == self.samples().len(),
    {
        self.count
    }

    /// Exact sum of the samples.
    pub fn sum(&self) -> (r: u128)
        requires
            self.wf(),
        ensures
            r == sum_of(self.samples()),
    {
        self.sum
    }

    /// Exact sum of the squares of the samples.
    pub fn sum_sq(&self) -> (r: u128)
        requires
            self.wf(),
        ensures
            r == sum_sq_of(self.samples()),
    {
        self.sum_sq
    }

    /// The population variance as an exact ratio `(count * sum_sq - sum^2,
    /// count^2)`; its square root is the standard deviation. `None` for
    /// fewer than two samples, where no deviation is defined, or when the
    /// numerator's product would not fit in 128 bits.
    pub fn variance_ratio(&self) -> (r: Option<(u128, u128)>)
        requires
            self.wf(),
        ensures
            r is Some <==> {
                &&& self.samples().len() >= 2
                &&& self.samples().len() * sum_sq_of(self.samples()) <= u128::MAX
            },
            r matches Some(v) ==> {
                &&& v.0 == self.samples().len() * sum_sq_of(self.samples()) - sum_of(
                    self.samples(),
                ) * sum_of(self.samples())
                &&& v.1 == self.samples().len() * self.samples().len()
            },
    {
        if self.count < 2 {
            return None;
        }
        let n = self.count as u128;
        let nq = match n.checked_mul(self.sum_sq) {
            Some(v) => v,
            None => {
                return None;
            },
        };
        proof {
            lemma_variance_numerator_nonneg(*self);
            crate::metrics::lemma_sum_of_bounds(self.samples());
            assert(sum_of(self.samples()) * sum_of(self.samples()) <= self.samples().len()
                * sum_sq_of(self.samples()));
            assert(self.count as int * self.count as int <= u128::MAX) by (nonlinear_arith)
                requires
                    self.count <= u64::MAX,
            ;
        }
        let s2 = self.sum * self.sum;
        Some((nq - s2, n * n))
    }
}

/// A sum of squares is never negative.
proof fn lemma_scaled_deviation_sum_nonneg(s: Seq<u64>, m: int, n: int)
    ensures
        scaled_deviation_sum(s, m, n) >= 0,
    decreases s.len(),
{
    if s.len() > 0 {
        lemma_scaled_deviation_sum_nonneg(s.drop_last(), m, n);
        let x = s.last() as int;
        assert((n * x - m) * (n * x - m) >= 0) by (nonlinear_arith);
    }
}

/// The variance numerator `count * sum_sq - sum^2` is never negative: it is
/// the two-pass sum of squared deviations divided by the positive count.
proof fn lemma_variance_numerator_nonneg(stats: OnlineStats)
    requires
        stats.wf(),
        stats.samples().len() >= 1,
    ensures
        stats.samples().len() * sum_sq_of(stats.samples()) >= sum_of(stats.samples()) * sum_of(
            stats.samples(),
        ),
{
    let s = stats.samples();
    let n = s.len() as int;
    let q = sum_sq_of(s);
    let m = sum_of(s);
    lemma_streaming_matches_two_pass(stats);
    lemma_scaled_deviation_sum_nonneg(s, m, n);
    assert(n * (n * q - m * m) >= 0 && n >= 1 ==> n * q - m * m >= 0) by (nonlinear_arith);
}

proof fn lemma_sum_sq_of_nonneg(s: Seq<u64>)
    ensures
        sum_sq_of(s) >= 0,
    decreases s.len(),
{
    if s.len() > 0 {
        lemma_sum_sq_of_nonneg(s.drop_last());
        assert(s.last() * s.last() >= 0) by (nonlinear_arith);
    }
}

/// The streaming accumulators determine the two-pass sum of squared
/// deviations exactly: for `n` samples with sum `S` and sum of squares `Q`,
/// `sum_i (n * x_i - S)^2 == n * (n * Q - S^2)`. Dividing both sides by
/// `n^3` shows the streaming population variance `(n * Q - S^2) / n^2`
/// equals the two-pass variance `sum_i (x_i - S/n)^2 / n`, so the standard
/// deviations agree as well.
pub proof fn lemma_streaming_matches_two_pass(stats: OnlineStats)
    requires
        stats.wf(),
    ensures
        two_pass_ssd_scaled(stats.samples()) == stats.samples().len() * (stats.samples().len()
            * sum_sq_of(stats.samples()) - sum_of(stats.samples()) * sum_of(stats.samples())),
{
    let s = stats.samples();
    let n = s.len() as int;
    let m = sum_of(s);
    lemma_scaled_deviation_sum_expanded(s, m, n);
    assert(n * n * sum_sq_of(s) - 2 * n * m * m + n * m * m == n * (n * sum_sq_of(s) - m * m))
        by (nonlinear_arith);
}

proof fn lemma_div_le(a: int, n: int, b: int)
    requires
        n >= 1,
        0 <= a <= n * b,
    ensures
        0 <= a / n <= b,
{
    assert(a / n <= b) by (nonlinear_arith)
        requires
            n >= 1,
            a <= n * b,
    ;
}

/// Loss ratio in parts per million: the complement of `received / sent`,
/// or 0 when nothing was sent.
pub fn loss_ppm(sent: u64, received: u64) -> (r: u64)
    requires
        received <= sent,
    ensures
        r == spec_loss_ppm(sent, received),
        r <= 1_000_000,
{
    if sent == 0 {
        0
    } else {
        let d = (sent - received) as u128;
        proof {
            assert(d * 1_000_000 <= (sent as u128) * 1_000_000) by (nonlinear_arith)
                requires
                    d <= sent as u128,
            ;
            lemma_div_le((d * 1_000_000) as int, sent as int, 1_000_000);
        }
        ((d * 1_000_000) / (sent as u128)) as u64
    }
}

/// Build a `LatencySummary` from probe counts, the successful round-trip
/// samples in microseconds, and a jitter value the caller derived from the
/// same stream. Minimum and maximum need one sample; mean and the
/// nearest-rank percentiles need two.
pub fn latency_summary_from_samples(
    sent: u64,
    received: u64,
    samples: &Vec<u64>,
    jitter_us: Option<u64>,
) -> (r: LatencySummary)
    requires
        received <= sent,
    ensures
        r.sent == sent,
        r.received == received,
        r.loss_ppm == spec_loss_ppm(sent, received),
        r.jitter_us == jitter_us,
        samples@.len() == 0 ==> r.min_us is None && r.max_us is None,
        samples@.len() >= 1 ==> {
            &&& r.min_us matches Some(v) && v == sorted_of(samples@)[0]
            &&& r.max_us matches Some(v) && v == sorted_of(samples@)[samples@.len() - 1]
        },
        samples@.len() < 2 ==> r.mean_us is None && r.median_us is None && r.p25_us is None
            && r.p75_us is None,
        samples@.len() >= 2 ==> {
            &&& r.mean_us matches Some(v) && v == sum_of(samples@) / (samples@.len() as int)
            &&& r.median_us matches Some(v) && v == sorted_of(samples@)[(samples@.len() / 2) as int]
            &&& r.p25_us matches Some(v) && v == sorted_of(samples@)[(samples@.len() / 4) as int]
            &&& r.p75_us matches Some(v) && v == sorted_of(samples@)[(3 * samples@.len()
                / 4) as int]
        },
        r.wf(),
{
    let loss = loss_ppm(sent, received);
    let mut min_us: Option<u64> = None;
    let mut max_us: Option<u64> = None;
    if samples.len() > 0 {
        let sorted = sort_samples(samples);
        min_us = Some(sorted[0]);
        max_us = Some(sorted[sorted.len() - 1]);
    }
    let (mean_us, median_us, p25_us, p75_us) = match compute_metrics(samples) {
        Some(m) => (Some(m.mean), Some(m.median), Some(m.p25), Some(m.p75)),
        None => (None, None, None, None),
    };
    LatencySummary {
        sent,
        received,
        loss_ppm: loss,
        min_us,
        mean_us,
        median_us,
        p25_us,
        p75_us,
        max_us,
        jitter_us,
    }
}

} // verus!
