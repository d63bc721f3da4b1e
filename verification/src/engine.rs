//! The measurement engine: per-run control messages, the translation of
//! those messages into the two shared flags every subtask polls, and the
//! cooperative pause/cancel decision each loop takes once per iteration.
//! The engine's network work and task spawning live with the caller; the
//! run's phase results are assembled into a `RunResult` here.

use crate::model::{LatencySummary, RunConfig, RunResult, ThroughputSummary, TurnInfo};
use vstd::prelude::*;

verus! {

/// The only mutations an external caller may apply to a running engine.
#[derive(Clone, Copy, Debug, PartialEq, Eq, Structural)]
pub enum EngineControl {
    /// Pause (true) or resume (false) the running test.
    Pause(bool),
    /// Cancel the test entirely.
    Cancel,
}

/// What the control-listener task does with one message: the new values of
/// the shared `paused` and `cancelled` flags, and whether the listener is
/// done. It exits exactly on `Cancel`; channel closure ends it outside this
/// function.
pub fn apply_control(paused: bool, cancelled: bool, msg: EngineControl) -> (r: (bool, bool, bool))
    ensures
        match msg {
            EngineControl::Pause(p) => r == (p, cancelled, false),
            EngineControl::Cancel => r == (paused, true, true),
        },
{
    match msg {
        EngineControl::Pause(p) => (p, cancelled, false),
        EngineControl::Cancel => (paused, true, true),
    }
}

/// What a probe or sampler loop does next under the shared flags: stop at
/// once when cancelled, sleep briefly when paused, otherwise proceed with
/// the next unit of work.
#[derive(Clone, Copy, Debug, PartialEq, Eq, Structural)]
pub enum PollAction {
    Proceed,
    Sleep,
    Stop,
}

/// Milliseconds a paused loop sleeps before polling the flags again.
pub const PAUSE_POLL_MS: u64 = 50;

/// The cooperative pause/cancel decision every loop takes once per
/// iteration; cancellation wins over pause.
pub fn poll_action(paused: bool, cancelled: bool) -> (r: PollAction)
    ensures
        cancelled ==> r == PollAction::Stop,
        !cancelled && paused ==> r == PollAction::Sleep,
        !cancelled && !paused ==> r == PollAction::Proceed,
{
    if cancelled {
        PollAction::Stop
    } else if paused {
        PollAction::Sleep
    } else {
        PollAction::Proceed
    }
}

/// One engine instance, bound to the immutable configuration of its run.
pub struct TestEngine {
    cfg: RunConfig,
}

impl TestEngine {
    /// The configuration this engine runs with.
    pub closed spec fn cfg(self) -> RunConfig {
        self.cfg
    }

    pub fn new(cfg: RunConfig) -> (r: Self)
        ensures
            r.cfg() == cfg,
    {
        TestEngine { cfg }
    }

    /// Read-only access to the run configuration.
    pub fn config(&self) -> (r: &RunConfig)
        ensures
            r == self.cfg(),
    {
        &self.cfg
    }
}

/// Assemble the result of one completed run from its phase summaries. The
/// network-enrichment fields start empty; an external collaborator fills
/// them in afterwards.
pub fn assemble_run_result(
    timestamp_utc: String,
    cfg: &RunConfig,
    meta: Option<String>,
    server: Option<String>,
    idle_latency: LatencySummary,
    download: ThroughputSummary,
    upload: ThroughputSummary,
    loaded_latency_download: LatencySummary,
    loaded_latency_upload: LatencySummary,
    turn: Option<TurnInfo>,
    experimental_udp: Option<crate::model::ExperimentalUdpSummary>,
) -> (r: RunResult)
    ensures
        r.timestamp_utc == timestamp_utc,
        r.base_url@ == cfg.base_url@,
        r.meas_id@ == cfg.meas_id@,
        r.comments is Some <==> cfg.comments is Some,
        cfg.comments matches Some(v) ==> (r.comments matches Some(w) && w@ == v@),
        r.meta == meta,
        r.server == server,
        r.idle_latency == idle_latency,
        r.download == download,
        r.upload == upload,
        r.loaded_latency_download == loaded_latency_download,
        r.loaded_latency_upload == loaded_latency_upload,
        r.turn == turn,
        r.experimental_udp == experimental_udp,
        r.ip is None && r.colo is None && r.asn is None && r.as_org is None,
        r.interface_name is None && r.network_name is None && r.is_wireless is None,
        r.interface_mac is None && r.link_speed_mbps is None,
{
    RunResult {
        timestamp_utc,
        base_url: clone_string(&cfg.base_url),
        meas_id: clone_string(&cfg.meas_id),
        comments: clone_opt_string(&cfg.comments),
        meta,
        server,
        idle_latency,
        download,
        upload,
        loaded_latency_download,
        loaded_latency_upload,
        turn,
        experimental_udp,
        ip: None,
        colo: None,
        asn: None,
        as_org: None,
        interface_name: None,
        network_name: None,
        is_wireless: None,
        interface_mac: None,
        link_speed_mbps: None,
    }
}

fn clone_string(s: &String) -> (r: String)
    ensures
        r@ == s@,
{
    s.clone()
}

fn clone_opt_string(s: &Option<String>) -> (r: Option<String>)
    ensures
        r is Some <==> s is Some,
        s matches Some(v) ==> r matches Some(w) && w@ == v@,
{
    match s {
        Some(v) => Some(v.clone()),
        None => None,
    }
}

} // verus!
