//! Throughput-phase logic: adaptive request-size backoff under server
//! throttling, the tick sampler, steady-state window estimation, and the
//! final throughput summary.

use crate::metrics::{compute_metrics, sorted_of, sum_of};
use crate::model::ThroughputSummary;
use vstd::prelude::*;

verus! {

/// Smallest request size a download worker may back off to, in bytes.
pub const MIN_DOWNLOAD_BYTES_PER_REQ: u64 = 100_000;

/// Size of the chunks an upload worker streams, in bytes (64 KiB).
pub const UPLOAD_CHUNK_SIZE: u64 = 64 * 1024;

/// Milliseconds between two throughput sampler ticks.
pub const SAMPLER_INTERVAL_MS: u64 = 200;

/// Outer deadline, in milliseconds, on collecting the loaded-latency
/// result after a throughput phase; exceeding it is fatal to the phase.
pub const LOADED_LATENCY_COLLECT_TIMEOUT_MS: u64 = 30_000;

/// HTTP status code signalling server-side rate limiting.
pub const STATUS_TOO_MANY_REQUESTS: u16 = 429;

/// Request size a download worker uses after seeing a response with the
/// given HTTP status: a 429 halves the size, floored at
/// `MIN_DOWNLOAD_BYTES_PER_REQ`, and only ever shrinks it; any other status
/// leaves the size unchanged.
pub open spec fn spec_next_bytes_per_req(current: u64, status: u16) -> u64 {
    if status == 429 {
        let halved = if current / 2 > 100_000 {
            current / 2
        } else {
            100_000
        };
        if halved < current {
            halved
        } else {
            current
        }
    } else {
        current
    }
}

/// Adaptive backoff for download workers: on HTTP 429 the per-request byte
/// count is halved, floored at `MIN_DOWNLOAD_BYTES_PER_REQ`; every other
/// status keeps it as it is. The flag reports whether the size actually
/// decreased (the caller emits an informational event exactly then).
pub fn next_bytes_per_req(current: u64, status: u16) -> (r: (u64, bool))
    ensures
        r.0 == spec_next_bytes_per_req(current, status),
        r.1 == (r.0 != current),
        r.0 <= current,
        current >= MIN_DOWNLOAD_BYTES_PER_REQ ==> r.0 >= MIN_DOWNLOAD_BYTES_PER_REQ,
        status != 429 ==> r.0 == current,
{
    if status == STATUS_TOO_MANY_REQUESTS {
        let halved = current / 2;
        let next = if halved > MIN_DOWNLOAD_BYTES_PER_REQ {
            halved
        } else {
            MIN_DOWNLOAD_BYTES_PER_REQ
        };
        if next < current {
            (next, true)
        } else {
            (current, false)
        }
    } else {
        (current, false)
    }
}

/// Request size after a whole sequence of responses, oldest first.
pub open spec fn spec_bytes_per_req_after(start: u64, statuses: Seq<u16>) -> u64
    decreases statuses.len(),
{
    if statuses.len() == 0 {
        start
    } else {
        spec_next_bytes_per_req(spec_bytes_per_req_after(start, statuses.drop_last()), statuses.last())
    }
}

/// Across any sequence of responses, the request size never grows, and it
/// never falls below `MIN_DOWNLOAD_BYTES_PER_REQ` when it started at or
/// above that floor.
pub proof fn lemma_backoff_bounded(start: u64, statuses: Seq<u16>)
    ensures
        spec_bytes_per_req_after(start, statuses) <= start,
        start >= MIN_DOWNLOAD_BYTES_PER_REQ ==> spec_bytes_per_req_after(start, statuses)
            >= MIN_DOWNLOAD_BYTES_PER_REQ,
    decreases statuses.len(),
{
    if statuses.len() > 0 {
        lemma_backoff_bounded(start, statuses.drop_last());
    }
}

/// A response that is not a 429 never changes the request size, whatever
/// came before it.
pub proof fn lemma_no_backoff_without_429(start: u64, statuses: Seq<u16>)
    requires
        statuses.len() > 0,
        statuses.last() != 429,
    ensures
        spec_bytes_per_req_after(start, statuses) == spec_bytes_per_req_after(
            start,
            statuses.drop_last(),
        ),
{
}

/// Span of samples discarded at the start of a throughput phase to exclude
/// ramp-up bias: a fifth of the phase duration, but at least one second.
pub open spec fn spec_ignore_ms(total_duration_ms: u64) -> int {
    if total_duration_ms / 5 > 1000 {
        (total_duration_ms / 5) as int
    } else {
        1000
    }
}

/// Index of the first sample whose timestamp is at or after `t0`.
pub open spec fn first_index_at_or_after(s: Seq<(u64, u64)>, t0: int) -> Option<int>
    decreases s.len(),
{
    if s.len() == 0 {
        None
    } else if s[0].0 >= t0 {
        Some(0int)
    } else {
        match first_index_at_or_after(s.drop_first(), t0) {
            Some(i) => Some(i + 1),
            None => None,
        }
    }
}

proof fn lemma_first_index_found(s: Seq<(u64, u64)>, t0: int, i: int)
    requires
        0 <= i < s.len(),
        forall|j: int| 0 <= j < i ==> (#[trigger] s[j]).0 < t0,
        s[i].0 >= t0,
    ensures
        first_index_at_or_after(s, t0) == Some(i),
    decreases i,
{
    if i > 0 {
        lemma_first_index_found(s.drop_first(), t0, i - 1);
    }
}

proof fn lemma_first_index_none(s: Seq<(u64, u64)>, t0: int)
    requires
        forall|j: int| 0 <= j < s.len() ==> (#[trigger] s[j]).0 < t0,
    ensures
        first_index_at_or_after(s, t0) is None,
    decreases s.len(),
{
    if s.len() > 0 {
        lemma_first_index_none(s.drop_first(), t0);
    }
}

/// The steady-state window of a `(timestamp, bytes_total)` series: drop the
/// first `spec_ignore_ms` of samples, then report bytes moved and time
/// spanned between the first remaining sample and the last sample. `None`
/// when fewer than two samples exist or the remaining span is under 200 ms.
pub open spec fn spec_steady_window(s: Seq<(u64, u64)>, total_duration_ms: u64) -> Option<
    (u64, u64),
> {
    if s.len() < 2 {
        None
    } else {
        let t0 = s[0].0 + spec_ignore_ms(total_duration_ms);
        let start = match first_index_at_or_after(s, t0) {
            Some(i) => i,
            None => 0int,
        };
        let t_start = s[start].0;
        let b_start = s[start].1;
        let t_end = s.last().0;
        let b_end = s.last().1;
        let dt = if t_end >= t_start {
            t_end - t_start
        } else {
            0int
        };
        if dt < 200 {
            None
        } else {
            let db = if b_end >= b_start {
                b_end - b_start
            } else {
                0int
            };
            Some((db as u64, dt as u64))
        }
    }
}

/// Estimate the steady-state `(bytes, duration_ms)` window of a sampled
/// byte-counter series, discarding the ramp-up described by
/// `spec_ignore_ms`; `None` when no usable window exists.
pub fn estimate_steady_window(samples: &Vec<(u64, u64)>, total_duration_ms: u64) -> (r: Option<
    (u64, u64),
>)
    ensures
        r == spec_steady_window(samples@, total_duration_ms),
{
    if samples.len() < 2 {
        return None;
    }
    let ignore = {
        let fifth = total_duration_ms / 5;
        if fifth > 1000 {
            fifth
        } else {
            1000
        }
    };
    let t0 = samples[0].0 as u128 + ignore as u128;
    let mut start: usize = 0;
    let mut i: usize = 0;
    let mut found = false;
    while i < samples.len()
        invariant
            i <= samples@.len(),
            !found ==> start == 0,
            !found ==> forall|j: int| 0 <= j < i ==> (#[trigger] samples@[j]).0 < t0,
            found ==> {
                &&& 0 <= start < i
                &&& samples@[start as int].0 >= t0
                &&& forall|j: int| 0 <= j < start ==> (#[trigger] samples@[j]).0 < t0
            },
        decreases samples@.len() - i,
    {
        if !found && samples[i].0 as u128 >= t0 {
            start = i;
            found = true;
        }
        i = i + 1;
    }
    proof {
        if found {
            lemma_first_index_found(samples@, t0 as int, start as int);
        } else {
            lemma_first_index_none(samples@, t0 as int);
        }
    }
    let (t_start, b_start) = (samples[start].0, samples[start].1);
    let last = samples.len() - 1;
    let (t_end, b_end) = (samples[last].0, samples[last].1);
    let dt = if t_end >= t_start {
        t_end - t_start
    } else {
        0
    };
    if dt < 200 {
        return None;
    }
    let db = if b_end >= b_start {
        b_end - b_start
    } else {
        0
    };
    Some((db, dt))
}

/// The steady-state window when one exists, else the raw totals of the
/// whole phase: the fallback callers use when the estimator reports no
/// usable window.
pub fn steady_window_or_total(
    samples: &Vec<(u64, u64)>,
    total_duration_ms: u64,
    bytes_total: u64,
    elapsed_ms: u64,
) -> (r: (u64, u64))
    ensures
        spec_steady_window(samples@, total_duration_ms) matches Some(w) ==> r == w,
        spec_steady_window(samples@, total_duration_ms) is None ==> r == (
            bytes_total,
            elapsed_ms,
        ),
{
    match estimate_steady_window(samples, total_duration_ms) {
        Some(w) => w,
        None => (bytes_total, elapsed_ms),
    }
}

/// The body stream plan of one upload request: how many full
/// `UPLOAD_CHUNK_SIZE` chunks to produce, and the size of the remainder
/// chunk, together totalling exactly `bytes_per_req`. Workers count bytes
/// as each chunk is produced.
pub fn upload_chunk_plan(bytes_per_req: u64) -> (r: (u64, u64))
    ensures
        r.0 == bytes_per_req / UPLOAD_CHUNK_SIZE,
        r.1 == bytes_per_req % UPLOAD_CHUNK_SIZE,
        r.0 * UPLOAD_CHUNK_SIZE + r.1 == bytes_per_req,
{
    proof {
        assert((bytes_per_req / 65536) * 65536 + bytes_per_req % 65536 == bytes_per_req)
            by (nonlinear_arith);
    }
    (bytes_per_req / UPLOAD_CHUNK_SIZE, bytes_per_req % UPLOAD_CHUNK_SIZE)
}

/// Aggregate rate in bits per second over a whole span: `bytes * 8000 /
/// duration_ms`, over a duration floored at one millisecond, saturating at
/// `u64::MAX`.
pub open spec fn spec_aggregate_bps(bytes: u64, duration_ms: u64) -> u64 {
    let dur = if duration_ms == 0 {
        1int
    } else {
        duration_ms as int
    };
    let raw = (bytes * 8000) / dur;
    if raw > u64::MAX {
        u64::MAX as u64
    } else {
        raw as u64
    }
}

/// Instantaneous rate of one sampler tick in bits per second, from the byte
/// delta since the previous tick (a counter that moved backwards counts as
/// zero) over the elapsed time floored at one millisecond, saturating at
/// `u64::MAX`.
pub open spec fn spec_tick_bps(
    prev_t_ms: u64,
    prev_bytes: u64,
    now_ms: u64,
    bytes_total: u64,
) -> u64 {
    let db = if bytes_total >= prev_bytes {
        (bytes_total - prev_bytes) as u64
    } else {
        0u64
    };
    let dt = if now_ms > prev_t_ms {
        (now_ms - prev_t_ms) as u64
    } else {
        1u64
    };
    spec_aggregate_bps(db, dt)
}

fn aggregate_bps(bytes: u64, duration_ms: u64) -> (r: u64)
    ensures
        r == spec_aggregate_bps(bytes, duration_ms),
{
    let dur: u128 = if duration_ms == 0 {
        1
    } else {
        duration_ms as u128
    };
    let raw = (bytes as u128 * 8000) / dur;
    if raw > u64::MAX as u128 {
        u64::MAX
    } else {
        raw as u64
    }
}

/// The per-200ms sampler of one throughput phase: records `(timestamp,
/// bytes_total)` samples for the steady-window estimate and the per-tick
/// rate series the final statistics are computed from.
pub struct ThroughputSampler {
    samples: Vec<(u64, u64)>,
    rates: Vec<u64>,
    last_t_ms: u64,
    last_bytes: u64,
}

impl ThroughputSampler {
    /// The `(timestamp, bytes_total)` samples recorded so far.
    pub closed spec fn samples(self) -> Seq<(u64, u64)> {
        self.samples@
    }

    /// The per-tick rates recorded so far, in bits per second.
    pub closed spec fn rates(self) -> Seq<u64> {
        self.rates@
    }

    pub closed spec fn spec_last_t_ms(self) -> u64 {
        self.last_t_ms
    }

    pub closed spec fn spec_last_bytes(self) -> u64 {
        self.last_bytes
    }

    /// A fresh sampler with no samples, measuring deltas from time zero and
    /// byte count zero.
    pub fn new() -> (r: Self)
        ensures
            r.samples() == Seq::<(u64, u64)>::empty(),
            r.rates() == Seq::<u64>::empty(),
            r.spec_last_t_ms() == 0,
            r.spec_last_bytes() == 0,
    {
        ThroughputSampler { samples: Vec::new(), rates: Vec::new(), last_t_ms: 0, last_bytes: 0 }
    }

    /// Record one tick: compute the instantaneous rate from the deltas
    /// since the previous tick, append the sample and the rate, and return
    /// the rate for the tick event.
    pub fn tick(&mut self, now_ms: u64, bytes_total: u64) -> (bps: u64)
        ensures
            bps == spec_tick_bps(
                old(self).spec_last_t_ms(),
                old(self).spec_last_bytes(),
                now_ms,
                bytes_total,
            ),
            final(self).samples() == old(self).samples().push((now_ms, bytes_total)),
            final(self).rates() == old(self).rates().push(bps),
            final(self).spec_last_t_ms() == now_ms,
            final(self).spec_last_bytes() == bytes_total,
    {
        let db = if bytes_total >= self.last_bytes {
            bytes_total - self.last_bytes
        } else {
            0
        };
        let dt = if now_ms > self.last_t_ms {
            now_ms - self.last_t_ms
        } else {
            1
        };
        let bps = aggregate_bps(db, dt);
        self.samples.push((now_ms, bytes_total));
        self.rates.push(bps);
        self.last_t_ms = now_ms;
        self.last_bytes = bytes_total;
        bps
    }

    /// Read-only view of the recorded `(timestamp, bytes_total)` samples.
    pub fn samples_vec(&self) -> (r: &Vec<(u64, u64)>)
        ensures
            r@ == self.samples(),
    {
        &self.samples
    }

    /// Read-only view of the recorded per-tick rates.
    pub fn rates_vec(&self) -> (r: &Vec<u64>)
        ensures
            r@ == self.rates(),
    {
        &self.rates
    }
}

/// Final summary of one throughput phase. `bytes` and `duration_ms` come
/// from the steady window (or raw totals); the headline rate and the four
/// statistics are the mean and nearest-rank percentiles of the per-tick
/// rate series, all falling back to the aggregate `bytes`-over-duration
/// rate when fewer than two ticks exist.
pub fn throughput_summary(bytes: u64, duration_ms: u64, rate_samples: &Vec<u64>) -> (r:
    ThroughputSummary)
    ensures
        r.bytes == bytes,
        r.duration_ms == duration_ms,
        rate_samples@.len() >= 2 ==> {
            &&& r.bps == sum_of(rate_samples@) / (rate_samples@.len() as int)
            &&& r.mean_bps == Some(r.bps)
            &&& r.median_bps matches Some(v) && v == sorted_of(rate_samples@)[(rate_samples@.len()
                / 2) as int]
            &&& r.p25_bps matches Some(v) && v == sorted_of(rate_samples@)[(rate_samples@.len()
                / 4) as int]
            &&& r.p75_bps matches Some(v) && v == sorted_of(rate_samples@)[(3 * rate_samples@.len()
                / 4) as int]
        },
        rate_samples@.len() < 2 ==> {
            &&& r.bps == spec_aggregate_bps(bytes, duration_ms)
            &&& r.mean_bps == Some(r.bps)
            &&& r.median_bps == Some(r.bps)
            &&& r.p25_bps == Some(r.bps)
            &&& r.p75_bps == Some(r.bps)
        },
{
    let (mean, median, p25, p75) = match compute_metrics(rate_samples) {
        Some(m) => (m.mean, m.median, m.p25, m.p75),
        None => {
            let agg = aggregate_bps(bytes, duration_ms);
            (agg, agg, agg, agg)
        },
    };
    ThroughputSummary {
        bytes,
        duration_ms,
        bps: mean,
        mean_bps: Some(mean),
        median_bps: Some(median),
        p25_bps: Some(p25),
        p75_bps: Some(p75),
    }
}

} // verus!
