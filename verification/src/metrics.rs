//! Batch sample statistics: exact sum and mean, and nearest-rank median /
//! 25th / 75th percentiles taken by indexing the ascending reordering of the
//! samples with truncating division, exactly as presentation layers expect.

use vstd::multiset::Multiset;
use vstd::prelude::*;
use vstd::relations::{sorted_by, total_ordering};
use vstd::seq_lib::lemma_sorted_unique;

verus! {

broadcast use vstd::seq_lib::group_to_multiset_ensures;

/// Ascending order on unsigned samples.
pub open spec fn sample_leq() -> spec_fn(u64, u64) -> bool {
    |x: u64, y: u64| x <= y
}

/// The ascending reordering of a sample sequence; nearest-rank percentiles
/// index into it.
pub open spec fn sorted_of(s: Seq<u64>) -> Seq<u64> {
    s.sort_by(sample_leq())
}

/// Sum of all samples.
pub open spec fn sum_of(s: Seq<u64>) -> int
    decreases s.len(),
{
    if s.len() == 0 {
        0
    } else {
        sum_of(s.drop_last()) + s.last()
    }
}

proof fn lemma_sample_leq_total()
    ensures
        total_ordering(sample_leq()),
{
    assert(vstd::relations::reflexive(sample_leq()));
    assert(vstd::relations::antisymmetric(sample_leq()));
    assert(vstd::relations::transitive(sample_leq()));
    assert(vstd::relations::strongly_connected(sample_leq()));
}

pub proof fn lemma_sum_of_bounds(s: Seq<u64>)
    ensures
        0 <= sum_of(s) <= s.len() * u64::MAX,
    decreases s.len(),
{
    if s.len() > 0 {
        lemma_sum_of_bounds(s.drop_last());
        assert((s.len() - 1) * u64::MAX + u64::MAX == s.len() * u64::MAX) by (nonlinear_arith);
    }
}

/// Exact sum of the samples; a 128-bit total cannot overflow, since there
/// are fewer than 2^64 samples of at most 2^64 - 1 each.
fn sum_samples(samples: &Vec<u64>) -> (s: u128)
    ensures
        s == sum_of(samples@),
{
    let mut s: u128 = 0;
    let mut i: usize = 0;
    while i < samples.len()
        invariant
            i <= samples@.len(),
            s == sum_of(samples@.subrange(0, i as int)),
        decreases samples@.len() - i,
    {
        proof {
            lemma_sum_of_bounds(samples@.subrange(0, i as int));
            assert(i * u64::MAX <= samples@.len() * u64::MAX) by (nonlinear_arith)
                requires
                    0 <= i <= samples@.len(),
            ;
            assert(samples@.len() * u64::MAX + u64::MAX < u128::MAX) by (nonlinear_arith)
                requires
                    samples@.len() <= u64::MAX,
            ;
            assert(samples@.subrange(0, i + 1).drop_last() =~= samples@.subrange(0, i as int));
        }
        s = s + samples[i] as u128;
        i = i + 1;
    }
    proof {
        assert(samples@.subrange(0, samples@.len() as int) =~= samples@);
    }
    s
}

/// Ascending copy of the samples: same multiset of values, in the unique
/// sorted order.
pub fn sort_samples(samples: &Vec<u64>) -> (r: Vec<u64>)
    ensures
        r@ == sorted_of(samples@),
        r@.len() == samples@.len(),
{
    let mut rest: Vec<u64> = Vec::new();
    let mut i: usize = 0;
    while i < samples.len()
        invariant
            i <= samples@.len(),
            rest@ == samples@.subrange(0, i as int),
        decreases samples@.len() - i,
    {
        rest.push(samples[i]);
        proof {
            assert(rest@ =~= samples@.subrange(0, i + 1));
        }
        i = i + 1;
    }
    proof {
        assert(rest@ =~= samples@);
    }

    let ghost all = samples@.to_multiset();
    let mut out: Vec<u64> = Vec::new();
    while rest.len() > 0
        invariant
            out@.to_multiset().add(rest@.to_multiset()) =~= all,
            sorted_by(out@, sample_leq()),
            forall|a: int, b: int|
                0 <= a < out@.len() && 0 <= b < rest@.len() ==> out@[a] <= rest@[b],
        decreases rest@.len(),
    {
        let mut m: usize = 0;
        let mut j: usize = 1;
        while j < rest.len()
            invariant
                m < j <= rest@.len(),
                rest@.len() > 0,
                forall|k: int| 0 <= k < j ==> rest@[m as int] <= rest@[k],
            decreases rest@.len() - j,
        {
            if rest[j] < rest[m] {
                m = j;
            }
            j = j + 1;
        }
        let ghost old_out = out@;
        let ghost old_rest = rest@;
        let x = rest.remove(m);
        out.push(x);
        proof {
            assert(out@.to_multiset() =~= old_out.to_multiset().insert(x));
            assert(rest@.to_multiset() =~= old_rest.to_multiset().remove(x));
            assert(old_rest.to_multiset().contains(x));
            assert(out@.to_multiset().add(rest@.to_multiset()) =~= old_out.to_multiset().add(
                old_rest.to_multiset(),
            ));
            assert forall|a: int, b: int|
                0 <= a < out@.len() && 0 <= b < rest@.len() implies out@[a] <= rest@[b] by {
                assert(rest@[b] == if b < m { old_rest[b] } else { old_rest[b + 1] });
            }
            assert(sorted_by(out@, sample_leq()));
        }
    }
    proof {
        lemma_sample_leq_total();
        assert(rest@.to_multiset() =~= Multiset::empty());
        assert(out@.to_multiset() =~= samples@.to_multiset());
        samples@.lemma_sort_by_ensures(sample_leq());
        lemma_sorted_unique(out@, sorted_of(samples@), sample_leq());
        assert(out@.to_multiset().len() == samples@.to_multiset().len());
    }
    out
}

/// Batch metrics over one snapshot of samples. `sum` and `count` carry the
/// mean exactly; `mean` is the truncating integer quotient of the two.
pub struct SampleMetrics {
    /// Exact sum of all samples.
    pub sum: u128,
    /// Number of samples the metrics were computed from.
    pub count: usize,
    /// `sum / count`, truncated.
    pub mean: u64,
    /// `sorted[count / 2]`, nearest-rank.
    pub median: u64,
    /// `sorted[count / 4]`, nearest-rank.
    pub p25: u64,
    /// `sorted[3 * count / 4]`, nearest-rank.
    pub p75: u64,
}

/// Mean and nearest-rank median / p25 / p75 of a snapshot of samples, or
/// `None` when fewer than two samples exist. The percentile indices use
/// truncating division into the ascending reordering, not interpolation.
pub fn compute_metrics(samples: &Vec<u64>) -> (r: Option<SampleMetrics>)
    ensures
        r is Some <==> samples@.len() >= 2,
        r matches Some(m) ==> {
            &&& m.count == samples@.len()
            &&& m.sum == sum_of(samples@)
            &&& m.mean == sum_of(samples@) / (samples@.len() as int)
            &&& m.median == sorted_of(samples@)[(samples@.len() / 2) as int]
            &&& m.p25 == sorted_of(samples@)[(samples@.len() / 4) as int]
            &&& m.p75 == sorted_of(samples@)[(3 * samples@.len() / 4) as int]
        },
{
    let n = samples.len();
    if n < 2 {
        return None;
    }
    let sum = sum_samples(samples);
    let sorted = sort_samples(samples);
    proof {
        lemma_sum_of_bounds(samples@);
        lemma_mean_fits(sum_of(samples@), samples@.len() as int);
    }
    let mean = (sum / n as u128) as u64;
    let p75_idx = ((3 * n as u128) / 4) as usize;
    Some(SampleMetrics {
        sum,
        count: n,
        mean,
        median: sorted[n / 2],
        p25: sorted[n / 4],
        p75: sorted[p75_idx],
    })
}

proof fn lemma_mean_fits(sum: int, n: int)
    requires
        n >= 1,
        0 <= sum <= n * u64::MAX,
    ensures
        0 <= sum / n <= u64::MAX,
{
    assert(sum / n <= u64::MAX) by (nonlinear_arith)
        requires
            n >= 1,
            sum <= n * u64::MAX,
    ;
}

/// Latency metrics over round-trip samples, as `compute_metrics`.
pub fn compute_latency_metrics(samples: &Vec<u64>) -> (r: Option<SampleMetrics>)
    ensures
        r is Some <==> samples@.len() >= 2,
        r matches Some(m) ==> {
            &&& m.count == samples@.len()
            &&& m.sum == sum_of(samples@)
            &&& m.mean == sum_of(samples@) / (samples@.len() as int)
            &&& m.median == sorted_of(samples@)[(samples@.len() / 2) as int]
            &&& m.p25 == sorted_of(samples@)[(samples@.len() / 4) as int]
            &&& m.p75 == sorted_of(samples@)[(3 * samples@.len() / 4) as int]
        },
{
    compute_metrics(samples)
}

/// The rate values of a series of `(timestamp, rate)` points.
pub open spec fn rates_of(points: Seq<(u64, u64)>) -> Seq<u64> {
    points.map_values(|p: (u64, u64)| p.1)
}

/// Throughput metrics over the rate values of `(timestamp, rate)` points,
/// as `compute_metrics` on the rates alone.
pub fn compute_throughput_metrics(points: &Vec<(u64, u64)>) -> (r: Option<SampleMetrics>)
    ensures
        r is Some <==> points@.len() >= 2,
        r matches Some(m) ==> {
            &&& m.count == points@.len()
            &&& m.sum == sum_of(rates_of(points@))
            &&& m.mean == sum_of(rates_of(points@)) / (points@.len() as int)
            &&& m.median == sorted_of(rates_of(points@))[(points@.len() / 2) as int]
            &&& m.p25 == sorted_of(rates_of(points@))[(points@.len() / 4) as int]
            &&& m.p75 == sorted_of(rates_of(points@))[(3 * points@.len() / 4) as int]
        },
{
    let mut values: Vec<u64> = Vec::new();
    let mut i: usize = 0;
    while i < points.len()
        invariant
            i <= points@.len(),
            values@ == rates_of(points@.subrange(0, i as int)),
        decreases points@.len() - i,
    {
        values.push(points[i].1);
        proof {
            assert(values@ =~= rates_of(points@.subrange(0, i + 1)));
        }
        i = i + 1;
    }
    proof {
        assert(points@.subrange(0, points@.len() as int) =~= points@);
    }
    compute_metrics(&values)
}

/// Absolute difference of two samples.
pub open spec fn abs_diff(a: u64, b: u64) -> int {
    if a >= b {
        a - b
    } else {
        b - a
    }
}

/// Sum of absolute differences of consecutive samples, in input order.
pub open spec fn jitter_sum(s: Seq<u64>) -> int
    decreases s.len(),
{
    if s.len() < 2 {
        0
    } else {
        jitter_sum(s.drop_last()) + abs_diff(s[s.len() - 2], s.last())
    }
}

proof fn lemma_jitter_sum_bounds(s: Seq<u64>)
    ensures
        0 <= jitter_sum(s),
        s.len() >= 1 ==> jitter_sum(s) <= (s.len() - 1) * u64::MAX,
    decreases s.len(),
{
    if s.len() >= 2 {
        lemma_jitter_sum_bounds(s.drop_last());
        assert((s.len() - 2) * u64::MAX + u64::MAX == (s.len() - 1) * u64::MAX)
            by (nonlinear_arith);
    }
}

/// Jitter: the mean absolute difference between consecutive samples in
/// input order (not sorted order), truncated; `None` for fewer than two
/// samples.
pub fn compute_jitter(samples: &Vec<u64>) -> (r: Option<u64>)
    ensures
        r is Some <==> samples@.len() >= 2,
        r matches Some(j) ==> j == jitter_sum(samples@) / (samples@.len() - 1),
{
    let n = samples.len();
    if n < 2 {
        return None;
    }
    let mut acc: u128 = 0;
    let mut i: usize = 1;
    while i < n
        invariant
            1 <= i <= n,
            n == samples@.len(),
            acc == jitter_sum(samples@.subrange(0, i as int)),
        decreases n - i,
    {
        proof {
            lemma_jitter_sum_bounds(samples@.subrange(0, i as int));
            assert((i - 1) * u64::MAX + u64::MAX < u128::MAX) by (nonlinear_arith)
                requires
                    1 <= i <= u64::MAX,
            ;
            assert(samples@.subrange(0, i + 1).drop_last() =~= samples@.subrange(0, i as int));
        }
        let prev = samples[i - 1];
        let cur = samples[i];
        let d = if prev >= cur {
            prev - cur
        } else {
            cur - prev
        };
        acc = acc + d as u128;
        i = i + 1;
    }
    proof {
        assert(samples@.subrange(0, n as int) =~= samples@);
        lemma_jitter_sum_bounds(samples@);
        lemma_mean_fits(jitter_sum(samples@), samples@.len() - 1);
    }
    Some((acc / (n as u128 - 1)) as u64)
}

} // verus!
