//! The latency prober's accumulator: per-attempt bookkeeping for the probe
//! loop that sends one timed round-trip probe per interval, honouring the
//! shared pause/cancel flags, and the summary built from what it gathered.
//! The loop's waiting and network I/O live with the caller; every decision
//! and every count lives here.

use crate::model::{LatencySummary, Phase};
use crate::stats::latency_summary_from_samples;
use vstd::prelude::*;

verus! {

/// Accumulated state of one latency probe loop: how many probes were sent
/// and answered, the successful round-trip samples in microseconds, and
/// whether inline server metadata was already forwarded.
pub struct LatencyProbe {
    phase: Phase,
    sent: u64,
    received: u64,
    samples_us: Vec<u64>,
    meta_forwarded: bool,
}

impl LatencyProbe {
    /// The phase this prober measures.
    pub closed spec fn phase(self) -> Phase {
        self.phase
    }

    pub closed spec fn sent(self) -> u64 {
        self.sent
    }

    pub closed spec fn received(self) -> u64 {
        self.received
    }

    /// The successful round-trip samples, in arrival order.
    pub closed spec fn samples(self) -> Seq<u64> {
        self.samples_us@
    }

    /// Whether inline server metadata was already forwarded once.
    pub closed spec fn meta_forwarded(self) -> bool {
        self.meta_forwarded
    }

    pub open spec fn wf(self) -> bool {
        &&& self.received() <= self.sent()
        &&& self.samples().len() == self.received()
    }

    /// A fresh prober for one phase: nothing sent, nothing received, no
    /// metadata forwarded.
    pub fn new(phase: Phase) -> (r: Self)
        ensures
            r.wf(),
            r.phase() == phase,
            r.sent() == 0,
            r.received() == 0,
            r.samples() =~= Seq::<u64>::empty(),
            !r.meta_forwarded(),
    {
        LatencyProbe { phase, sent: 0, received: 0, samples_us: Vec::new(), meta_forwarded: false }
    }

    /// Count one probe as sent, before its outcome is known.
    pub fn begin_attempt(&mut self)
        requires
            old(self).wf(),
            old(self).sent() < u64::MAX,
        ensures
            final(self).wf(),
            final(self).sent() == old(self).sent() + 1,
            final(self).received() == old(self).received(),
            final(self).samples() == old(self).samples(),
            final(self).phase() == old(self).phase(),
            final(self).meta_forwarded() == old(self).meta_forwarded(),
    {
        self.sent = self.sent + 1;
    }

    /// Record a successful probe: one more answer and its round-trip
    /// sample. The result says whether the caller forwards inline server
    /// metadata now: only the idle-phase prober does, only on its first
    /// success that carries any, and only once.
    pub fn record_success(&mut self, rtt_us: u64, has_meta: bool) -> (emit_meta: bool)
        requires
            old(self).wf(),
            old(self).received() < old(self).sent(),
        ensures
            final(self).wf(),
            final(self).received() == old(self).received() + 1,
            final(self).samples() == old(self).samples().push(rtt_us),
            final(self).sent() == old(self).sent(),
            final(self).phase() == old(self).phase(),
            emit_meta == (old(self).phase() == Phase::IdleLatency && !old(self).meta_forwarded()
                && has_meta),
            final(self).meta_forwarded() == (old(self).meta_forwarded() || emit_meta),
    {
        self.received = self.received + 1;
        self.samples_us.push(rtt_us);
        let emit_meta = !self.meta_forwarded && matches!(self.phase, Phase::IdleLatency)
            && has_meta;
        if emit_meta {
            self.meta_forwarded = true;
        }
        emit_meta
    }

    /// The summary of the whole loop, over every successful sample, with
    /// the jitter value the caller derived from the same stream; exactly
    /// `latency_summary_from_samples` over the recorded state.
    pub fn finish(&self, jitter_us: Option<u64>) -> (r: LatencySummary)
        requires
            self.wf(),
        ensures
            r.sent == self.sent(),
            r.received == self.received(),
            r.loss_ppm == crate::model::spec_loss_ppm(self.sent(), self.received()),
            r.jitter_us == jitter_us,
            self.samples().len() == 0 ==> r.min_us is None && r.max_us is None,
            self.samples().len() >= 1 ==> {
                &&& r.min_us matches Some(v) && v == crate::metrics::sorted_of(self.samples())[0]
                &&& r.max_us matches Some(v) && v == crate::metrics::sorted_of(self.samples())[
                    self.samples().len() - 1]
            },
            self.samples().len() < 2 ==> r.mean_us is None && r.median_us is None && r.p25_us
                is None && r.p75_us is None,
            self.samples().len() >= 2 ==> {
                &&& r.mean_us matches Some(v) && v == crate::metrics::sum_of(self.samples()) / (
                self.samples().len() as int)
                &&& r.median_us matches Some(v) && v == crate::metrics::sorted_of(self.samples())[(
                self.samples().len() / 2) as int]
                &&& r.p25_us matches Some(v) && v == crate::metrics::sorted_of(self.samples())[(
                self.samples().len() / 4) as int]
                &&& r.p75_us matches Some(v) && v == crate::metrics::sorted_of(self.samples())[(3
                    * self.samples().len() / 4) as int]
            },
            r.wf(),
    {
        latency_summary_from_samples(self.sent, self.received, &self.samples_us, jitter_us)
    }

    /// Read-only view of the successful round-trip samples.
    pub fn samples_vec(&self) -> (r: &Vec<u64>)
        ensures
            r@ == self.samples(),
    {
        &self.samples_us
    }
}

} // verus!
