//! The experimental UDP loss/quality probe: STUN binding-request framing
//! and response validation, out-of-order accounting over per-packet
//! sequence numbers, and assembly of the probe summary. The socket work
//! itself stays outside the engine; this module decides what goes on the
//! wire and what each received datagram means.

use crate::model::{ExperimentalUdpSummary, QualityLabel, TurnInfo};
use crate::stats::latency_summary_from_samples;
use vstd::prelude::*;
use vstd::slice::slice_index_get;

verus! {

/// Number of binding requests one probe run sends.
pub const UDP_PROBE_ATTEMPTS: u64 = 50;

/// Spacing between binding requests, in milliseconds.
pub const UDP_PROBE_INTERVAL_MS: u64 = 80;

/// Per-attempt response timeout, in milliseconds.
pub const UDP_PROBE_TIMEOUT_MS: u64 = 600;

/// Port a STUN/TURN URL without an explicit port uses.
pub const DEFAULT_STUN_PORT: u16 = 3478;

/// The 20-byte STUN binding request for a transaction id: type 0x0001,
/// length 0, magic cookie 0x2112A442, then the 12 id bytes.
pub open spec fn spec_stun_request(txid: Seq<u8>) -> Seq<u8> {
    seq![0x00u8, 0x01u8, 0x00u8, 0x00u8, 0x21u8, 0x12u8, 0xA4u8, 0x42u8] + txid
}

/// A datagram counts as the binding success response for a transaction id
/// exactly when it has at least 20 bytes, type 0x0101, the magic cookie at
/// offset 4, and the sent transaction id at offset 8.
pub open spec fn spec_valid_stun_response(buf: Seq<u8>, txid: Seq<u8>) -> bool {
    &&& buf.len() >= 20
    &&& buf[0] == 0x01u8
    &&& buf[1] == 0x01u8
    &&& buf[4] == 0x21u8
    &&& buf[5] == 0x12u8
    &&& buf[6] == 0xA4u8
    &&& buf[7] == 0x42u8
    &&& buf.subrange(8, 20) == txid
}

/// Build the binding request frame for a 12-byte transaction id.
pub fn build_stun_binding_request(txid: &[u8]) -> (r: Vec<u8>)
    requires
        txid@.len() == 12,
    ensures
        r@ == spec_stun_request(txid@),
        r@.len() == 20,
{
    let mut b: Vec<u8> = Vec::new();
    b.push(0x00);
    b.push(0x01);
    b.push(0x00);
    b.push(0x00);
    b.push(0x21);
    b.push(0x12);
    b.push(0xA4);
    b.push(0x42);
    let mut i: usize = 0;
    while i < 12
        invariant
            i <= 12,
            txid@.len() == 12,
            b@.len() == 8 + i,
            b@.subrange(0, 8) =~= spec_stun_request(txid@).subrange(0, 8),
            b@.subrange(8, b@.len() as int) =~= txid@.subrange(0, i as int),
        decreases 12 - i,
    {
        b.push(txid[i]);
        proof {
            assert(b@.subrange(0, 8) =~= spec_stun_request(txid@).subrange(0, 8));
            assert(b@.subrange(8, b@.len() as int) =~= txid@.subrange(0, i + 1));
        }
        i = i + 1;
    }
    proof {
        assert(txid@.subrange(0, 12) =~= txid@);
        assert forall|j: int| 0 <= j < 20 implies b@[j] == spec_stun_request(txid@)[j] by {
            if j < 8 {
                assert(b@[j] == b@.subrange(0, 8)[j]);
                assert(spec_stun_request(txid@)[j] == spec_stun_request(txid@).subrange(0, 8)[j]);
            } else {
                assert(b@[j] == b@.subrange(8, 20)[j - 8]);
            }
        }
        assert(b@ =~= spec_stun_request(txid@));
    }
    b
}

/// Validate a received datagram against the transaction id it must answer.
pub fn is_stun_binding_response(buf: &[u8], txid: &[u8]) -> (r: bool)
    requires
        txid@.len() == 12,
    ensures
        r == spec_valid_stun_response(buf@, txid@),
{
    if buf.len() < 20 {
        return false;
    }
    if *slice_index_get(buf, 0) != 0x01 || *slice_index_get(buf, 1) != 0x01 {
        return false;
    }
    if *slice_index_get(buf, 4) != 0x21 || *slice_index_get(buf, 5) != 0x12 || *slice_index_get(
        buf,
        6,
    ) != 0xA4 || *slice_index_get(buf, 7) != 0x42 {
        return false;
    }
    let mut i: usize = 0;
    while i < 12
        invariant
            i <= 12,
            buf@.len() >= 20,
            txid@.len() == 12,
            forall|j: int| 0 <= j < i ==> buf@[8 + j] == txid@[j],
        decreases 12 - i,
    {
        if *slice_index_get(buf, 8 + i) != *slice_index_get(txid, i) {
            proof {
                assert(buf@.subrange(8, 20)[i as int] != txid@[i as int]);
            }
            return false;
        }
        i = i + 1;
    }
    proof {
        assert(buf@.subrange(8, 20) =~= txid@);
    }
    true
}

/// Corrupting any single checked byte of a valid binding response — the
/// type bytes, a magic-cookie byte, or a transaction-id byte — makes it
/// invalid. (Bytes 2 and 3, the length field, are not checked.)
pub proof fn lemma_stun_corrupted_byte_rejected(buf: Seq<u8>, txid: Seq<u8>, i: int, v: u8)
    requires
        spec_valid_stun_response(buf, txid),
        0 <= i < 20,
        i != 2,
        i != 3,
        v != buf[i],
    ensures
        !spec_valid_stun_response(buf.update(i, v), txid),
{
    if 8 <= i < 20 {
        assert(buf.update(i, v).subrange(8, 20)[i - 8] == v);
        assert(txid[i - 8] == buf.subrange(8, 20)[i - 8]);
    }
}

/// A datagram shorter than 20 bytes is never a valid binding response.
pub proof fn lemma_stun_short_buffer_rejected(buf: Seq<u8>, txid: Seq<u8>)
    requires
        buf.len() < 20,
    ensures
        !spec_valid_stun_response(buf, txid),
{
}

/// Quality label of a loss ratio in parts per million: lossless is
/// excellent; under 1% good; under 2.5% acceptable; under 5% poor;
/// anything worse is bad.
pub open spec fn spec_quality_of_loss(loss_ppm: int) -> QualityLabel {
    if loss_ppm == 0 {
        QualityLabel::Excellent
    } else if loss_ppm < 10_000 {
        QualityLabel::Good
    } else if loss_ppm < 25_000 {
        QualityLabel::Acceptable
    } else if loss_ppm < 50_000 {
        QualityLabel::Poor
    } else {
        QualityLabel::Bad
    }
}

/// Call-quality label for a loss ratio, per `spec_quality_of_loss`.
pub fn quality_label(loss_ppm: u64) -> (r: QualityLabel)
    ensures
        r == spec_quality_of_loss(loss_ppm as int),
{
    if loss_ppm == 0 {
        QualityLabel::Excellent
    } else if loss_ppm < 10_000 {
        QualityLabel::Good
    } else if loss_ppm < 25_000 {
        QualityLabel::Acceptable
    } else if loss_ppm < 50_000 {
        QualityLabel::Poor
    } else {
        QualityLabel::Bad
    }
}

/// Relies on `rand::thread_rng` and `rand_core::RngCore::fill_bytes`: the
/// buffer keeps its length and is filled with random bytes, of whose values
/// nothing can be promised.
#[verifier::external_body]
fn fresh_txid() -> (r: Vec<u8>)
    ensures
        r@.len() == 12,
{
    let mut b = vec![0u8; 12];
    rand::RngCore::fill_bytes(&mut rand::thread_rng(), &mut b[..]);
    b
}

/// Index of the last registered transaction id equal to `t`; a repeated id
/// resolves to its most recent registration, as a map insert would.
pub open spec fn last_index_matching(s: Seq<(Seq<u8>, u64)>, t: Seq<u8>) -> Option<int>
    decreases s.len(),
{
    if s.len() == 0 {
        None
    } else if s.last().0 == t {
        Some(s.len() - 1)
    } else {
        last_index_matching(s.drop_last(), t)
    }
}

proof fn lemma_last_index_found(s: Seq<(Seq<u8>, u64)>, t: Seq<u8>, i: int)
    requires
        0 <= i < s.len(),
        s[i].0 == t,
        forall|j: int| i < j < s.len() ==> (#[trigger] s[j]).0 != t,
    ensures
        last_index_matching(s, t) == Some(i),
    decreases s.len(),
{
    if i < s.len() - 1 {
        lemma_last_index_found(s.drop_last(), t, i);
    }
}

proof fn lemma_last_index_in_range(s: Seq<(Seq<u8>, u64)>, t: Seq<u8>)
    ensures
        last_index_matching(s, t) matches Some(i) ==> 0 <= i < s.len(),
    decreases s.len(),
{
    if s.len() > 0 {
        lemma_last_index_in_range(s.drop_last(), t);
    }
}

proof fn lemma_last_index_none(s: Seq<(Seq<u8>, u64)>, t: Seq<u8>)
    requires
        forall|j: int| 0 <= j < s.len() ==> (#[trigger] s[j]).0 != t,
    ensures
        last_index_matching(s, t) is None,
    decreases s.len(),
{
    if s.len() > 0 {
        lemma_last_index_none(s.drop_last(), t);
    }
}

/// The `(transaction id, sequence number)` pairs a registration list holds,
/// with the ids as byte sequences.
pub open spec fn txid_view(s: Seq<(Vec<u8>, u64)>) -> Seq<(Seq<u8>, u64)> {
    s.map_values(|p: (Vec<u8>, u64)| (p.0@, p.1))
}

fn lookup_seq(txids: &Vec<(Vec<u8>, u64)>, txid: &Vec<u8>) -> (r: Option<u64>)
    ensures
        match last_index_matching(txid_view(txids@), txid@) {
            Some(i) => r == Some(txid_view(txids@)[i].1),
            None => r is None,
        },
{
    let ghost view = txid_view(txids@);
    let mut i: usize = txids.len();
    while i > 0
        invariant
            i <= txids@.len(),
            view == txid_view(txids@),
            forall|j: int| i <= j < view.len() ==> (#[trigger] view[j]).0 != txid@,
        decreases i,
    {
        i = i - 1;
        let entry = &txids[i];
        if eq_bytes(&entry.0, txid) {
            proof {
                assert(view[i as int].0 == txid@);
                lemma_last_index_found(view, txid@, i as int);
            }
            return Some(entry.1);
        }
        proof {
            assert(view[i as int].0 != txid@);
        }
    }
    proof {
        lemma_last_index_none(view, txid@);
    }
    None
}

/// State of one UDP probe run: counts, the registered transaction ids with
/// their 1-based send sequence numbers, the successful round-trip samples,
/// and the out-of-order tracker (`next_expected` starts at 1; a valid
/// response whose sequence number is below it arrived after the response
/// of a later-sent packet).
pub struct UdpProbeState {
    sent: u64,
    received: u64,
    out_of_order: u64,
    next_expected: u64,
    txids: Vec<(Vec<u8>, u64)>,
    samples_us: Vec<u64>,
}

impl UdpProbeState {
    pub closed spec fn sent(self) -> u64 {
        self.sent
    }

    pub closed spec fn received(self) -> u64 {
        self.received
    }

    pub closed spec fn out_of_order(self) -> u64 {
        self.out_of_order
    }

    pub closed spec fn next_expected(self) -> u64 {
        self.next_expected
    }

    /// Registered `(transaction id, sequence number)` pairs, oldest first.
    pub closed spec fn txids(self) -> Seq<(Seq<u8>, u64)> {
        txid_view(self.txids@)
    }

    /// Round-trip samples of the valid responses, in microseconds.
    pub closed spec fn samples(self) -> Seq<u64> {
        self.samples_us@
    }

    pub open spec fn wf(self) -> bool {
        &&& self.received() <= self.sent()
        &&& self.out_of_order() <= self.received()
        &&& self.samples().len() == self.received()
        &&& self.txids().len() == self.sent()
        &&& self.next_expected() >= 1
        &&& forall|j: int|
            0 <= j < self.txids().len() ==> (#[trigger] self.txids()[j]).1 == j + 1
    }

    /// A fresh probe: nothing sent, nothing received, expecting the first
    /// sequence number.
    pub fn new() -> (r: Self)
        ensures
            r.wf(),
            r.sent() == 0,
            r.received() == 0,
            r.out_of_order() == 0,
            r.next_expected() == 1,
            r.txids() =~= Seq::<(Seq<u8>, u64)>::empty(),
            r.samples() =~= Seq::<u64>::empty(),
    {
        UdpProbeState {
            sent: 0,
            received: 0,
            out_of_order: 0,
            next_expected: 1,
            txids: Vec::new(),
            samples_us: Vec::new(),
        }
    }

    /// Start one attempt: draw a fresh transaction id, register it under
    /// the next sequence number, and build the binding request to send.
    pub fn begin_attempt(&mut self) -> (r: (Vec<u8>, Vec<u8>))
        requires
            old(self).wf(),
            old(self).sent() < u64::MAX,
        ensures
            final(self).wf(),
            r.0@.len() == 12,
            r.1@ == spec_stun_request(r.0@),
            final(self).sent() == old(self).sent() + 1,
            final(self).txids() =~= old(self).txids().push((r.0@, final(self).sent())),
            final(self).received() == old(self).received(),
            final(self).out_of_order() == old(self).out_of_order(),
            final(self).next_expected() == old(self).next_expected(),
            final(self).samples() == old(self).samples(),
    {
        let txid = fresh_txid();
        let pkt = build_stun_binding_request(txid.as_slice());
        self.sent = self.sent + 1;
        let txid_copy = copy_bytes(&txid);
        self.txids.push((txid_copy, self.sent));
        proof {
            assert(self.txids() =~= old(self).txids().push((txid@, self.sent)));
        }
        (txid, pkt)
    }

    /// Record a validated response: one more received probe, its round-trip
    /// sample, and the out-of-order bookkeeping for the sequence number the
    /// transaction id was registered under. An id that was never registered
    /// (which a validated response cannot carry) leaves the sequencing
    /// state unchanged.
    pub fn record_valid_response(&mut self, txid: &Vec<u8>, rtt_us: u64)
        requires
            old(self).wf(),
            old(self).received() < old(self).sent(),
            old(self).sent() < u64::MAX,
        ensures
            final(self).wf(),
            final(self).received() == old(self).received() + 1,
            final(self).samples() == old(self).samples().push(rtt_us),
            final(self).sent() == old(self).sent(),
            final(self).txids() == old(self).txids(),
            match last_index_matching(old(self).txids(), txid@) {
                Some(i) => {
                    let seq = old(self).txids()[i].1;
                    if seq < old(self).next_expected() {
                        &&& final(self).out_of_order() == old(self).out_of_order() + 1
                        &&& final(self).next_expected() == old(self).next_expected()
                    } else {
                        &&& final(self).out_of_order() == old(self).out_of_order()
                        &&& final(self).next_expected() == seq + 1
                    }
                },
                None => {
                    &&& final(self).out_of_order() == old(self).out_of_order()
                    &&& final(self).next_expected() == old(self).next_expected()
                },
            },
    {
        self.received = self.received + 1;
        self.samples_us.push(rtt_us);
        match lookup_seq(&self.txids, txid) {
            Some(seq) => {
                proof {
                    lemma_last_index_in_range(self.txids(), txid@);
                }
                if seq < self.next_expected {
                    self.out_of_order = self.out_of_order + 1;
                } else {
                    self.next_expected = seq + 1;
                }
            },
            None => {},
        }
    }

    pub fn sent_count(&self) -> (r: u64)
        ensures
            r == self.sent(),
    {
        self.sent
    }

    pub fn received_count(&self) -> (r: u64)
        ensures
            r == self.received(),
    {
        self.received
    }

    pub fn out_of_order_count(&self) -> (r: u64)
        ensures
            r == self.out_of_order(),
    {
        self.out_of_order
    }

    /// Read-only view of the recorded round-trip samples.
    pub fn samples_vec(&self) -> (r: &Vec<u64>)
        ensures
            r@ == self.samples(),
    {
        &self.samples_us
    }

    /// Assemble the probe summary: the latency summary over the recorded
    /// samples, the out-of-order share of the received packets in parts per
    /// million, and the quality label for the loss ratio. The caller passes
    /// the resolved target, the jitter it derived from the sample stream,
    /// and the externally computed quality score, if any.
    pub fn summarize(
        &self,
        target: Option<String>,
        jitter_us: Option<u64>,
        mos_micro: Option<u64>,
    ) -> (r: ExperimentalUdpSummary)
        requires
            self.wf(),
        ensures
            r.latency.sent == self.sent(),
            r.latency.received == self.received(),
            r.latency.loss_ppm == crate::model::spec_loss_ppm(self.sent(), self.received()),
            r.latency.jitter_us == jitter_us,
            r.out_of_order == self.out_of_order(),
            self.received() == 0 ==> r.out_of_order_ppm == 0,
            self.received() > 0 ==> r.out_of_order_ppm == (self.out_of_order() * 1_000_000) / (
            self.received() as int),
            r.quality == spec_quality_of_loss(
                crate::model::spec_loss_ppm(self.sent(), self.received()),
            ),
            r.mos_micro == mos_micro,
            r.target == target,
            r.latency.wf(),
    {
        let latency = latency_summary_from_samples(
            self.sent,
            self.received,
            &self.samples_us,
            jitter_us,
        );
        let ooo_ppm = out_of_order_ppm(self.out_of_order, self.received);
        let quality = quality_label(latency.loss_ppm);
        ExperimentalUdpSummary {
            target,
            latency,
            out_of_order: self.out_of_order,
            out_of_order_ppm: ooo_ppm,
            mos_micro,
            quality,
        }
    }
}

/// Share of received packets that arrived out of order, in parts per
/// million; zero when nothing was received.
pub fn out_of_order_ppm(out_of_order: u64, received: u64) -> (r: u64)
    requires
        out_of_order <= received,
    ensures
        received == 0 ==> r == 0,
        received > 0 ==> r == (out_of_order * 1_000_000) / (received as int),
        r <= 1_000_000,
{
    if received == 0 {
        0
    } else {
        let n = (out_of_order as u128) * 1_000_000;
        proof {
            assert((out_of_order as int) * 1_000_000 <= (received as int) * 1_000_000)
                by (nonlinear_arith)
                requires
                    out_of_order <= received,
            ;
            assert(((out_of_order as int) * 1_000_000) / (received as int) <= 1_000_000)
                by (nonlinear_arith)
                requires
                    received >= 1,
                    (out_of_order as int) * 1_000_000 <= (received as int) * 1_000_000,
            ;
        }
        (n / received as u128) as u64
    }
}

/// Index of the first occurrence of a character in a sequence.
pub open spec fn find_char(s: Seq<char>, c: char) -> Option<int>
    decreases s.len(),
{
    if s.len() == 0 {
        None
    } else if s[0] == c {
        Some(0int)
    } else {
        match find_char(s.drop_first(), c) {
            Some(i) => Some(i + 1),
            None => None,
        }
    }
}

proof fn lemma_find_char_found(s: Seq<char>, c: char, i: int)
    requires
        0 <= i < s.len(),
        forall|j: int| 0 <= j < i ==> s[j] != c,
        s[i] == c,
    ensures
        find_char(s, c) == Some(i),
    decreases i,
{
    if i > 0 {
        lemma_find_char_found(s.drop_first(), c, i - 1);
    }
}

proof fn lemma_find_char_props(s: Seq<char>, c: char)
    ensures
        find_char(s, c) matches Some(i) ==> 0 <= i < s.len() && s[i] == c,
    decreases s.len(),
{
    if s.len() > 0 && s[0] != c {
        lemma_find_char_props(s.drop_first(), c);
    }
}

proof fn lemma_find_char_none(s: Seq<char>, c: char)
    requires
        forall|j: int| 0 <= j < s.len() ==> s[j] != c,
    ensures
        find_char(s, c) is None,
    decreases s.len(),
{
    if s.len() > 0 {
        lemma_find_char_none(s.drop_first(), c);
    }
}

/// Find a character within the index range `[from, to)` of a string,
/// returning its absolute index.
fn find_char_in(s: &str, from: usize, to: usize, c: char) -> (r: Option<usize>)
    requires
        from <= to <= s@.len(),
    ensures
        match find_char(s@.subrange(from as int, to as int), c) {
            Some(k) => r matches Some(a) && a == from + k,
            None => r is None,
        },
        r matches Some(a) ==> from <= a < to,
{
    let ghost sub = s@.subrange(from as int, to as int);
    let mut i: usize = from;
    while i < to
        invariant
            from <= i <= to <= s@.len(),
            sub == s@.subrange(from as int, to as int),
            forall|j: int| 0 <= j < i - from ==> sub[j] != c,
        decreases to - i,
    {
        if s.get_char(i) == c {
            proof {
                assert(sub[i - from] == c);
                lemma_find_char_found(sub, c, i - from);
            }
            return Some(i);
        }
        proof {
            assert(sub[i - from] != c);
        }
        i = i + 1;
    }
    proof {
        lemma_find_char_none(sub, c);
    }
    None
}

/// Whether a sequence starts with the given prefix.
pub open spec fn has_url_prefix(s: Seq<char>, p: Seq<char>) -> bool {
    p.len() <= s.len() && s.subrange(0, p.len() as int) == p
}

/// Index of the first URL carrying the given prefix.
pub open spec fn first_with_prefix(urls: Seq<Seq<char>>, p: Seq<char>) -> Option<int>
    decreases urls.len(),
{
    if urls.len() == 0 {
        None
    } else if has_url_prefix(urls[0], p) {
        Some(0int)
    } else {
        match first_with_prefix(urls.drop_first(), p) {
            Some(i) => Some(i + 1),
            None => None,
        }
    }
}

proof fn lemma_first_with_prefix_found(urls: Seq<Seq<char>>, p: Seq<char>, i: int)
    requires
        0 <= i < urls.len(),
        forall|j: int| 0 <= j < i ==> !has_url_prefix(#[trigger] urls[j], p),
        has_url_prefix(urls[i], p),
    ensures
        first_with_prefix(urls, p) == Some(i),
    decreases i,
{
    if i > 0 {
        lemma_first_with_prefix_found(urls.drop_first(), p, i - 1);
    }
}

proof fn lemma_first_with_prefix_none(urls: Seq<Seq<char>>, p: Seq<char>)
    requires
        forall|j: int| 0 <= j < urls.len() ==> !has_url_prefix(#[trigger] urls[j], p),
    ensures
        first_with_prefix(urls, p) is None,
    decreases urls.len(),
{
    if urls.len() > 0 {
        lemma_first_with_prefix_none(urls.drop_first(), p);
    }
}

fn has_prefix(s: &String, p: &str) -> (r: bool)
    ensures
        r == has_url_prefix(s@, p@),
{
    let plen = p.unicode_len();
    let slen = s.as_str().unicode_len();
    if slen < plen {
        return false;
    }
    let mut i: usize = 0;
    while i < plen
        invariant
            i <= plen,
            plen == p@.len(),
            s@.len() >= plen,
            forall|j: int| 0 <= j < i ==> s@[j] == p@[j],
        decreases plen - i,
    {
        if s.as_str().get_char(i) != p.get_char(i) {
            proof {
                assert(s@.subrange(0, p@.len() as int)[i as int] != p@[i as int]);
            }
            return false;
        }
        i = i + 1;
    }
    proof {
        assert(s@.subrange(0, p@.len() as int) =~= p@);
    }
    true
}

/// The STUN target a TURN-info answer designates: the first `stun:` URL if
/// any exists, else the first `turn:` URL, else nothing.
pub open spec fn spec_pick_stun_target(urls: Seq<Seq<char>>) -> Option<Seq<char>> {
    match first_with_prefix(urls, "stun:"@) {
        Some(i) => Some(urls[i]),
        None => match first_with_prefix(urls, "turn:"@) {
            Some(i) => Some(urls[i]),
            None => None,
        },
    }
}

/// Pick the probe target out of the TURN info: prefer the first `stun:`
/// URL; fall back to the first `turn:` URL; report nothing when neither
/// exists.
pub fn pick_stun_target(turn: &TurnInfo) -> (r: Option<String>)
    ensures
        match spec_pick_stun_target(turn.urls.deep_view()) {
            Some(u) => r matches Some(s) && s@ == u,
            None => r is None,
        },
{
    let ghost urls = turn.urls.deep_view();
    let mut i: usize = 0;
    while i < turn.urls.len()
        invariant
            i <= turn.urls@.len(),
            urls == turn.urls.deep_view(),
            urls.len() == turn.urls@.len(),
            forall|j: int| 0 <= j < urls.len() ==> #[trigger] urls[j] == turn.urls@[j]@,
            forall|j: int| 0 <= j < i ==> !has_url_prefix(#[trigger] urls[j], "stun:"@),
        decreases turn.urls@.len() - i,
    {
        let u = &turn.urls[i];
        if has_prefix(u, "stun:") {
            proof {
                lemma_first_with_prefix_found(urls, "stun:"@, i as int);
            }
            return Some(u.clone());
        }
        i = i + 1;
    }
    proof {
        lemma_first_with_prefix_none(urls, "stun:"@);
    }
    let mut i: usize = 0;
    while i < turn.urls.len()
        invariant
            i <= turn.urls@.len(),
            urls == turn.urls.deep_view(),
            urls.len() == turn.urls@.len(),
            forall|j: int| 0 <= j < urls.len() ==> #[trigger] urls[j] == turn.urls@[j]@,
            first_with_prefix(urls, "stun:"@) is None,
            forall|j: int| 0 <= j < i ==> !has_url_prefix(#[trigger] urls[j], "turn:"@),
        decreases turn.urls@.len() - i,
    {
        let u = &turn.urls[i];
        if has_prefix(u, "turn:") {
            proof {
                lemma_first_with_prefix_found(urls, "turn:"@, i as int);
            }
            return Some(u.clone());
        }
        i = i + 1;
    }
    proof {
        lemma_first_with_prefix_none(urls, "turn:"@);
    }
    None
}

/// Errors of STUN/TURN URL parsing.
#[derive(Clone, Copy, Debug, PartialEq, Eq, Structural)]
pub enum UrlError {
    /// The URL has no `scheme:` separator.
    MissingScheme,
    /// The host between scheme and port is empty.
    EmptyHost,
    /// The port is not a decimal number below 65536.
    InvalidPort,
}

/// Whether every character of the sequence is a decimal digit.
pub open spec fn all_digits(s: Seq<char>) -> bool {
    forall|i: int| 0 <= i < s.len() ==> 48 <= (#[trigger] s[i]) as u32 <= 57
}

/// Numeric value of a sequence of decimal digits.
pub open spec fn digits_value(s: Seq<char>) -> int
    decreases s.len(),
{
    if s.len() == 0 {
        0
    } else {
        digits_value(s.drop_last()) * 10 + (s.last() as u32 - 48)
    }
}

/// The port number a port string denotes, as the standard library parses
/// it: an optional leading `+`, then at least one decimal digit, with a
/// value of at most 65535; anything else is no port.
pub open spec fn spec_parse_port(s: Seq<char>) -> Option<u16> {
    let digits = if s.len() > 0 && s[0] == '+' {
        s.drop_first()
    } else {
        s
    };
    if digits.len() == 0 {
        None
    } else if !all_digits(digits) {
        None
    } else if digits_value(digits) > 65535 {
        None
    } else {
        Some(digits_value(digits) as u16)
    }
}

proof fn lemma_digits_value_nonneg(s: Seq<char>)
    requires
        all_digits(s),
    ensures
        digits_value(s) >= 0,
    decreases s.len(),
{
    if s.len() > 0 {
        assert(all_digits(s.drop_last()));
        lemma_digits_value_nonneg(s.drop_last());
    }
}

proof fn lemma_digits_value_prefix(s: Seq<char>, k: int)
    requires
        all_digits(s),
        0 <= k <= s.len(),
    ensures
        digits_value(s.subrange(0, k)) <= digits_value(s),
    decreases s.len() - k,
{
    if k == s.len() {
        assert(s.subrange(0, k) =~= s);
    } else {
        lemma_digits_value_prefix(s, k + 1);
        assert(s.subrange(0, k + 1).drop_last() =~= s.subrange(0, k));
        assert(all_digits(s.subrange(0, k)));
        lemma_digits_value_nonneg(s.subrange(0, k));
        let v = digits_value(s.subrange(0, k));
        assert(v <= v * 10 + (s[k] as u32 - 48)) by (nonlinear_arith)
            requires
                v >= 0,
                48 <= s[k] as u32,
        ;
    }
}

/// Parse a port string as the standard library would: an optional leading
/// `+`, then decimal digits, rejecting empty digits, non-digits, and
/// values above 65535.
fn parse_port(p: &str) -> (r: Option<u16>)
    ensures
        r == spec_parse_port(p@),
{
    let n = p.unicode_len();
    if n == 0 {
        return None;
    }
    let start: usize = if p.get_char(0) == '+' {
        1
    } else {
        0
    };
    if n == start {
        return None;
    }
    let ghost digits = if p@[0] == '+' {
        p@.drop_first()
    } else {
        p@
    };
    proof {
        assert(digits =~= p@.subrange(start as int, n as int));
    }
    let mut acc: u32 = 0;
    let mut i: usize = start;
    while i < n
        invariant
            start <= i <= n,
            n == p@.len(),
            0 < n,
            start < n,
            start <= 1,
            (p@[0] == '+') <==> (start == 1),
            digits == (if p@[0] == '+' {
                p@.drop_first()
            } else {
                p@
            }),
            digits =~= p@.subrange(start as int, n as int),
            acc == digits_value(p@.subrange(start as int, i as int)),
            acc <= 65535,
            forall|j: int| start <= j < i ==> 48 <= (#[trigger] p@[j]) as u32 <= 57,
        decreases n - i,
    {
        let c = p.get_char(i);
        let cv = c as u32;
        if cv < 48 || cv > 57 {
            proof {
                assert(digits[i - start] == p@[i as int]);
                assert(!all_digits(digits));
            }
            return None;
        }
        let d = cv - 48;
        acc = acc * 10 + d;
        proof {
            assert(p@.subrange(start as int, i + 1).drop_last() =~= p@.subrange(
                start as int,
                i as int,
            ));
        }
        if acc > 65535 {
            proof {
                if all_digits(digits) {
                    lemma_digits_value_prefix(digits, i + 1 - start);
                    assert(digits.subrange(0, i + 1 - start) =~= p@.subrange(start as int, i + 1));
                }
            }
            return None;
        }
        i = i + 1;
    }
    proof {
        assert forall|k: int| 0 <= k < digits.len() implies 48 <= (#[trigger] digits[k]) as u32
            <= 57 by {
            assert(digits[k] == p@[start + k]);
        }
        assert(all_digits(digits));
        assert(p@.subrange(start as int, n as int) =~= digits);
    }
    Some(acc as u16)
}

/// The `(host, port)` a STUN/TURN URL of the form
/// `scheme:host[:port][?query]` designates, with the default STUN port
/// when none is given, or the error that makes it unusable.
pub open spec fn spec_parse_host_port(url: Seq<char>) -> Result<(Seq<char>, u16), UrlError> {
    match find_char(url, ':') {
        None => Err(UrlError::MissingScheme),
        Some(ci) => {
            let rest = url.subrange(ci + 1, url.len() as int);
            let hostport = match find_char(rest, '?') {
                Some(qi) => rest.subrange(0, qi),
                None => rest,
            };
            let split = match find_char(hostport, ':') {
                Some(hi) => (hostport.subrange(0, hi), hostport.subrange(
                    hi + 1,
                    hostport.len() as int,
                )),
                None => (hostport, Seq::<char>::empty()),
            };
            if split.0.len() == 0 {
                Err(UrlError::EmptyHost)
            } else if split.1.len() == 0 {
                Ok((split.0, 3478u16))
            } else {
                match spec_parse_port(split.1) {
                    Some(p) => Ok((split.0, p)),
                    None => Err(UrlError::InvalidPort),
                }
            }
        },
    }
}

/// Split a STUN/TURN URL into host and port: everything after the first
/// `:` up to an optional `?query` is `host[:port]`; a missing port falls
/// back to 3478.
#[verifier::rlimit(100)]
#[verifier::spinoff_prover]
pub fn parse_host_port(url: &str) -> (r: Result<(String, u16), UrlError>)
    ensures
        match spec_parse_host_port(url@) {
            Ok(hp) => r matches Ok(e) && e.0@ == hp.0 && e.1 == hp.1,
            Err(err) => r matches Err(e) && e == err,
        },
{
    let n = url.unicode_len();
    let ci = match find_char_in(url, 0, n, ':') {
        Some(ci) => ci,
        None => {
            proof {
                assert(url@.subrange(0, n as int) =~= url@);
            }
            return Err(UrlError::MissingScheme);
        },
    };
    proof {
        assert(url@.subrange(0, n as int) =~= url@);
    }
    let ghost rest = url@.subrange(ci + 1, n as int);
    let hp_end = match find_char_in(url, ci + 1, n, '?') {
        Some(qi) => qi,
        None => n,
    };
    let ghost hostport = match find_char(rest, '?') {
        Some(qi) => rest.subrange(0, qi),
        None => rest,
    };
    proof {
        lemma_find_char_props(rest, '?');
        assert(hostport =~= url@.subrange(ci + 1, hp_end as int));
    }
    let (host_end, port_start) = match find_char_in(url, ci + 1, hp_end, ':') {
        Some(hi) => (hi, hi + 1),
        None => (hp_end, hp_end),
    };
    let ghost host = url@.subrange(ci + 1, host_end as int);
    let ghost port_str = url@.subrange(port_start as int, hp_end as int);
    proof {
        lemma_find_char_props(hostport, ':');
        match find_char(hostport, ':') {
            Some(hi) => {
                assert(host_end == ci + 1 + hi);
                assert(hostport.subrange(0, hi) =~= host);
                assert(hostport.subrange(hi + 1, hostport.len() as int) =~= port_str);
            },
            None => {
                assert(hostport =~= host);
                assert(port_str =~= Seq::<char>::empty());
            },
        }
    }
    if host_end == ci + 1 {
        return Err(UrlError::EmptyHost);
    }
    let host_str = String::from_str(url.substring_char(ci + 1, host_end));
    if port_start == hp_end {
        return Ok((host_str, DEFAULT_STUN_PORT));
    }
    match parse_port(url.substring_char(port_start, hp_end)) {
        Some(p) => Ok((host_str, p)),
        None => Err(UrlError::InvalidPort),
    }
}

fn eq_bytes(a: &Vec<u8>, b: &Vec<u8>) -> (r: bool)
    ensures
        r == (a@ == b@),
{
    if a.len() != b.len() {
        return false;
    }
    let mut i: usize = 0;
    while i < a.len()
        invariant
            i <= a@.len(),
            a@.len() == b@.len(),
            forall|j: int| 0 <= j < i ==> a@[j] == b@[j],
        decreases a@.len() - i,
    {
        if a[i] != b[i] {
            return false;
        }
        i = i + 1;
    }
    proof {
        assert(a@ =~= b@);
    }
    true
}

fn copy_bytes(a: &Vec<u8>) -> (r: Vec<u8>)
    ensures
        r@ == a@,
{
    let mut out: Vec<u8> = Vec::new();
    let mut i: usize = 0;
    while i < a.len()
        invariant
            i <= a@.len(),
            out@ =~= a@.subrange(0, i as int),
        decreases a@.len() - i,
    {
        out.push(a[i]);
        proof {
            assert(out@ =~= a@.subrange(0, i + 1));
        }
        i = i + 1;
    }
    proof {
        assert(out@ =~= a@);
    }
    out
}

} // verus!
