//! Data model of the measurement engine: run configuration, phases, events,
//! and the summaries a run produces. Round-trip times are integer
//! microseconds, rates integer bits per second, and ratios integer parts per
//! million; presentation layers convert for display.

use vstd::prelude::*;

verus! {

/// Immutable per-run parameters, created once by the caller and never
/// mutated by the engine.
#[derive(Clone, Debug)]
pub struct RunConfig {
    pub base_url: String,
    pub meas_id: String,
    pub comments: Option<String>,
    pub download_bytes_per_req: u64,
    pub upload_bytes_per_req: u64,
    pub concurrency: usize,
    pub idle_latency_duration_ms: u64,
    pub download_duration_ms: u64,
    pub upload_duration_ms: u64,
    pub probe_interval_ms: u64,
    pub probe_timeout_ms: u64,
    pub user_agent: String,
    pub experimental: bool,
    pub interface: Option<String>,
    pub source_ip: Option<String>,
    pub certificate_path: Option<String>,
}

/// The phase a measurement belongs to.
#[derive(Clone, Copy, Debug, PartialEq, Eq, Structural)]
pub enum Phase {
    IdleLatency,
    Download,
    Upload,
    Summary,
}

impl Phase {
    /// Query-string value tagging latency probes issued during a throughput
    /// phase; only the download and upload phases have one.
    pub fn as_query_str(self) -> (r: Option<&'static str>)
        ensures
            match self {
                Phase::Download => r matches Some(s) && s@ == "download"@,
                Phase::Upload => r matches Some(s) && s@ == "upload"@,
                _ => r is None,
            },
    {
        match self {
            Phase::Download => Some("download"),
            Phase::Upload => Some("upload"),
            _ => None,
        }
    }
}

/// Structured informational events surfaced to presentation layers.
#[derive(Clone, Debug)]
pub enum InfoEvent {
    Message(String),
    BindInterface { iface: String, ip: String },
    BindSourceIp { ip: String },
    FetchingTurn,
}

impl InfoEvent {
    /// Render a human-readable message for presentation layers.
    pub fn to_message(&self) -> (r: String)
        ensures
            match self {
                InfoEvent::Message(msg) => r@ == msg@,
                InfoEvent::BindInterface { iface, ip } => r@
                    == "Binding HTTP connections to interface "@ + iface@ + " (IP: "@ + ip@
                    + ")"@,
                InfoEvent::BindSourceIp { ip } => r@ == "Binding HTTP connections to source IP: "@
                    + ip@,
                InfoEvent::FetchingTurn => r@ == "Fetching TURN info (experimental)"@,
            },
    {
        match self {
            InfoEvent::Message(msg) => msg.clone(),
            InfoEvent::BindInterface { iface, ip } => {
                let mut out = String::from_str("Binding HTTP connections to interface ");
                out.append(iface.as_str());
                out.append(" (IP: ");
                out.append(ip.as_str());
                out.append(")");
                out
            },
            InfoEvent::BindSourceIp { ip } => {
                let mut out = String::from_str("Binding HTTP connections to source IP: ");
                out.append(ip.as_str());
                out
            },
            InfoEvent::FetchingTurn => String::from_str("Fetching TURN info (experimental)"),
        }
    }
}

/// Loss ratio in parts per million: `(sent - received) / sent`, or 0 when
/// nothing was sent.
pub open spec fn spec_loss_ppm(sent: u64, received: u64) -> int {
    if sent == 0 {
        0
    } else {
        ((sent - received) * 1_000_000) / (sent as int)
    }
}

/// Latency summary over one probe loop. `loss_ppm` is the complement of
/// `received / sent`, in parts per million; round-trip statistics are in
/// microseconds and absent when too few samples exist.
#[derive(Clone, Debug)]
pub struct LatencySummary {
    pub sent: u64,
    pub received: u64,
    pub loss_ppm: u64,
    pub min_us: Option<u64>,
    pub mean_us: Option<u64>,
    pub median_us: Option<u64>,
    pub p25_us: Option<u64>,
    pub p75_us: Option<u64>,
    pub max_us: Option<u64>,
    pub jitter_us: Option<u64>,
}

impl LatencySummary {
    /// A sane summary never reports more received probes than sent ones,
    /// nor a loss above 100%.
    pub open spec fn wf(self) -> bool {
        &&& self.received <= self.sent
        &&& self.loss_ppm <= 1_000_000
    }
}

impl Default for LatencySummary {
    /// The empty summary: nothing sent, nothing received, no loss, no
    /// round-trip statistics.
    fn default() -> (r: Self)
        ensures
            r.sent == 0 && r.received == 0 && r.loss_ppm == 0,
            r.min_us is None && r.mean_us is None && r.median_us is None,
            r.p25_us is None && r.p75_us is None && r.max_us is None,
            r.jitter_us is None,
            r.wf(),
    {
        LatencySummary {
            sent: 0,
            received: 0,
            loss_ppm: 0,
            min_us: None,
            mean_us: None,
            median_us: None,
            p25_us: None,
            p75_us: None,
            max_us: None,
            jitter_us: None,
        }
    }
}

impl LatencySummary {
    /// The summary of a failed or empty measurement: total loss and no
    /// round-trip statistics.
    pub fn failed() -> (r: Self)
        ensures
            r.sent == 0 && r.received == 0 && r.loss_ppm == 1_000_000,
            r.min_us is None && r.mean_us is None && r.median_us is None,
            r.p25_us is None && r.p75_us is None && r.max_us is None,
            r.jitter_us is None,
            r.wf(),
    {
        LatencySummary { loss_ppm: 1_000_000, ..Default::default() }
    }
}

/// Throughput summary of one phase. `bytes` and `duration_ms` come from the
/// steady-state window (or the raw totals when no window exists); `bps` and
/// the four statistics come from the per-tick rate series.
#[derive(Clone, Debug)]
pub struct ThroughputSummary {
    pub bytes: u64,
    pub duration_ms: u64,
    pub bps: u64,
    pub mean_bps: Option<u64>,
    pub median_bps: Option<u64>,
    pub p25_bps: Option<u64>,
    pub p75_bps: Option<u64>,
}

/// Candidate STUN/TURN endpoints returned by the remote service; opaque to
/// the engine beyond URL parsing.
#[derive(Clone, Debug)]
pub struct TurnInfo {
    pub urls: Vec<String>,
    pub username: Option<String>,
    pub credential: Option<String>,
}

/// Call-quality label derived from the loss ratio of the UDP probe.
#[derive(Clone, Copy, Debug, PartialEq, Eq, Structural)]
pub enum QualityLabel {
    Excellent,
    Good,
    Acceptable,
    Poor,
    Bad,
}

impl QualityLabel {
    /// Human-readable text of the label.
    pub fn text(&self) -> (r: String)
        ensures
            match self {
                QualityLabel::Excellent => r@ == "Excellent"@,
                QualityLabel::Good => r@ == "Good"@,
                QualityLabel::Acceptable => r@ == "Acceptable"@,
                QualityLabel::Poor => r@ == "Poor"@,
                QualityLabel::Bad => r@ == "Bad"@,
            },
    {
        match self {
            QualityLabel::Excellent => String::from_str("Excellent"),
            QualityLabel::Good => String::from_str("Good"),
            QualityLabel::Acceptable => String::from_str("Acceptable"),
            QualityLabel::Poor => String::from_str("Poor"),
            QualityLabel::Bad => String::from_str("Bad"),
        }
    }
}

/// Result of the experimental UDP-like loss probe. `mos_micro` is a Mean
/// Opinion Score in millionths, computed by the floating-point scoring
/// collaborator outside the engine and absent when no score exists.
#[derive(Clone, Debug)]
pub struct ExperimentalUdpSummary {
    pub target: Option<String>,
    pub latency: LatencySummary,
    pub out_of_order: u64,
    pub out_of_order_ppm: u64,
    pub mos_micro: Option<u64>,
    pub quality: QualityLabel,
}

/// Aggregate of one completed run: all summaries, server metadata, and
/// network-enrichment fields an external collaborator fills in afterwards.
#[derive(Clone, Debug)]
pub struct RunResult {
    pub timestamp_utc: String,
    pub base_url: String,
    pub meas_id: String,
    pub comments: Option<String>,
    /// Raw JSON metadata text from the server, if any was obtained.
    pub meta: Option<String>,
    pub server: Option<String>,
    pub idle_latency: LatencySummary,
    pub download: ThroughputSummary,
    pub upload: ThroughputSummary,
    pub loaded_latency_download: LatencySummary,
    pub loaded_latency_upload: LatencySummary,
    pub turn: Option<TurnInfo>,
    pub experimental_udp: Option<ExperimentalUdpSummary>,
    pub ip: Option<String>,
    pub colo: Option<String>,
    pub asn: Option<String>,
    pub as_org: Option<String>,
    pub interface_name: Option<String>,
    pub network_name: Option<String>,
    pub is_wireless: Option<bool>,
    pub interface_mac: Option<String>,
    pub link_speed_mbps: Option<u64>,
}

/// Events streamed to presentation layers, in the emission order of the
/// single engine task that owns the run.
#[derive(Clone, Debug)]
pub enum TestEvent {
    PhaseStarted { phase: Phase },
    LatencySample { phase: Phase, during: Option<Phase>, rtt_us: Option<u64>, ok: bool },
    ThroughputTick { phase: Phase, bytes_total: u64, bps_instant: u64 },
    Info(InfoEvent),
    MetaInfo { meta: String },
    UdpLossProgress { sent: u64, received: u64, total: u64, rtt_us: Option<u64> },
    RunCompleted { result: Box<RunResult> },
}

} // verus!
