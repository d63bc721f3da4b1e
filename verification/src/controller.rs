//! The run-lifecycle controller: a state machine that serializes start,
//! pause, restart and quit of engine instances, so that no two runs are
//! ever active at once. Each step maps one input — a command, the observed
//! completion of the active run, or a watchdog tick — to a new state and
//! the actions the surrounding loop performs: forwarding a pause, sending a
//! cancel, emitting a status, starting the next run, or terminating. A new
//! run starts only from a completion observation, never from a command
//! while a run is active.

use vstd::prelude::*;

verus! {

/// Mode of the lifecycle controller.
#[derive(Clone, Copy, Debug, PartialEq, Eq, Structural)]
pub enum LifecycleMode {
    /// No run active; waiting for commands.
    Idle,
    /// One run active.
    Running,
    /// One run active and told to cancel; a new run starts when its
    /// completion is observed.
    CancellingForRestart,
    /// One run active and told to cancel; the controller terminates when
    /// its completion is observed.
    CancellingForQuit,
    /// The controller has terminated.
    Terminated,
}

/// Commands the presentation layer sends to the controller.
#[derive(Clone, Copy, Debug, PartialEq, Eq, Structural)]
pub enum LifecycleCommand {
    /// Pause (true) or resume (false) the active run.
    Pause(bool),
    /// Cancel the active run and start a new one once it has completed;
    /// start one immediately when none is active.
    Restart,
    /// Cancel the active run and terminate once it has completed;
    /// terminate immediately when none is active.
    Quit,
    /// The command channel closed: as `Quit`, but silently.
    Closed,
}

/// How the active run's task ended.
#[derive(Clone, Copy, Debug, PartialEq, Eq, Structural)]
pub enum RunOutcome {
    /// The run produced a result.
    Completed,
    /// The run returned an error.
    Failed,
    /// The run's task could not be joined.
    JoinFailed,
}

/// What the surrounding loop does after a step, in order.
#[derive(Clone, Copy, Debug, PartialEq, Eq, Structural)]
pub enum LifecycleAction {
    /// Forward a pause or resume to the active run's control channel.
    ForwardPause(bool),
    /// Send `Cancel` to the active run's control channel.
    CancelRun,
    /// Emit a "cancelling" status.
    EmitCancelling,
    /// Emit a "restarting" status.
    EmitRestarting,
    /// Emit a "still cancelling" status (the watchdog fired).
    EmitStillCancelling,
    /// Emit the completed run's result.
    EmitRunCompleted,
    /// Emit a "run failed" status.
    EmitRunFailed,
    /// Emit a "run join failed" status.
    EmitJoinFailed,
    /// Spawn a new engine instance.
    StartRun,
    /// Exit the control loop.
    Terminate,
}

/// Milliseconds the cancellation watchdog waits before reporting a cancel
/// that has not completed.
pub const CANCEL_WATCHDOG_MS: u64 = 3000;

/// The lifecycle controller's state: its mode and the armed watchdog
/// deadline, if any.
pub struct LifecycleController {
    pub mode: LifecycleMode,
    pub cancel_deadline_ms: Option<u64>,
}

/// Whether a mode has an active run.
pub open spec fn mode_active(mode: LifecycleMode) -> bool {
    ||| mode == LifecycleMode::Running
    ||| mode == LifecycleMode::CancellingForRestart
    ||| mode == LifecycleMode::CancellingForQuit
}

/// The watchdog deadline armed `CANCEL_WATCHDOG_MS` after `now_ms`,
/// saturating.
pub open spec fn spec_deadline(now_ms: u64) -> u64 {
    if now_ms + 3000 > u64::MAX {
        u64::MAX as u64
    } else {
        (now_ms + 3000) as u64
    }
}

impl LifecycleController {
    /// Whether a run is active: exactly one is, in the running and
    /// cancelling modes, and none otherwise.
    pub open spec fn run_active(self) -> bool {
        mode_active(self.mode)
    }

    /// A deadline is armed only while a cancellation is pending.
    pub open spec fn wf(self) -> bool {
        self.cancel_deadline_ms is Some ==> (self.mode == LifecycleMode::CancellingForRestart
            || self.mode == LifecycleMode::CancellingForQuit)
    }
}

/// State and actions after one command. A command never starts a run while
/// one is active: a restart only sends a cancel and waits for the
/// completion observation.
pub open spec fn spec_on_command(
    st: LifecycleController,
    cmd: LifecycleCommand,
    now_ms: u64,
) -> (LifecycleController, Seq<LifecycleAction>) {
    match cmd {
        LifecycleCommand::Pause(p) => {
            if mode_active(st.mode) {
                (st, seq![LifecycleAction::ForwardPause(p)])
            } else {
                (st, Seq::empty())
            }
        },
        LifecycleCommand::Restart => {
            if mode_active(st.mode) {
                let mode = if st.mode == LifecycleMode::CancellingForQuit {
                    LifecycleMode::CancellingForQuit
                } else {
                    LifecycleMode::CancellingForRestart
                };
                (
                    LifecycleController {
                        mode,
                        cancel_deadline_ms: Some(spec_deadline(now_ms)),
                    },
                    seq![LifecycleAction::CancelRun, LifecycleAction::EmitCancelling],
                )
            } else if st.mode == LifecycleMode::Idle {
                (
                    LifecycleController { mode: LifecycleMode::Running, cancel_deadline_ms: None },
                    seq![LifecycleAction::StartRun, LifecycleAction::EmitRestarting],
                )
            } else {
                (st, Seq::empty())
            }
        },
        LifecycleCommand::Quit => {
            if mode_active(st.mode) {
                (
                    LifecycleController {
                        mode: LifecycleMode::CancellingForQuit,
                        cancel_deadline_ms: Some(spec_deadline(now_ms)),
                    },
                    seq![LifecycleAction::CancelRun, LifecycleAction::EmitCancelling],
                )
            } else {
                (
                    LifecycleController {
                        mode: LifecycleMode::Terminated,
                        cancel_deadline_ms: None,
                    },
                    seq![LifecycleAction::Terminate],
                )
            }
        },
        LifecycleCommand::Closed => {
            if mode_active(st.mode) {
                (
                    LifecycleController {
                        mode: LifecycleMode::CancellingForQuit,
                        cancel_deadline_ms: st.cancel_deadline_ms,
                    },
                    seq![LifecycleAction::CancelRun],
                )
            } else {
                (
                    LifecycleController {
                        mode: LifecycleMode::Terminated,
                        cancel_deadline_ms: None,
                    },
                    seq![LifecycleAction::Terminate],
                )
            }
        },
    }
}

/// The status the controller emits for how a run ended.
pub open spec fn spec_outcome_action(outcome: RunOutcome) -> LifecycleAction {
    match outcome {
        RunOutcome::Completed => LifecycleAction::EmitRunCompleted,
        RunOutcome::Failed => LifecycleAction::EmitRunFailed,
        RunOutcome::JoinFailed => LifecycleAction::EmitJoinFailed,
    }
}

/// State and actions after the active run's completion is observed: report
/// the outcome, clear the watchdog, then terminate if a quit was pending,
/// start the next run if a restart was pending, or fall back to idle. This
/// is the only step that starts a run while the controller is underway.
pub open spec fn spec_on_run_done(st: LifecycleController, outcome: RunOutcome) -> (
    LifecycleController,
    Seq<LifecycleAction>,
) {
    let report = spec_outcome_action(outcome);
    if st.mode == LifecycleMode::CancellingForQuit {
        (
            LifecycleController { mode: LifecycleMode::Terminated, cancel_deadline_ms: None },
            seq![report, LifecycleAction::Terminate],
        )
    } else if st.mode == LifecycleMode::CancellingForRestart {
        (
            LifecycleController { mode: LifecycleMode::Running, cancel_deadline_ms: None },
            seq![report, LifecycleAction::StartRun],
        )
    } else {
        (
            LifecycleController { mode: LifecycleMode::Idle, cancel_deadline_ms: None },
            seq![report],
        )
    }
}

/// State and actions after one watchdog tick: when a deadline is armed and
/// has passed while a run is still cancelling, say so once and disarm it.
pub open spec fn spec_on_tick(st: LifecycleController, now_ms: u64) -> (
    LifecycleController,
    Seq<LifecycleAction>,
) {
    match st.cancel_deadline_ms {
        Some(deadline) => {
            if now_ms >= deadline && mode_active(st.mode) {
                (
                    LifecycleController { mode: st.mode, cancel_deadline_ms: None },
                    seq![LifecycleAction::EmitStillCancelling],
                )
            } else {
                (st, Seq::empty())
            }
        },
        None => (st, Seq::empty()),
    }
}

impl LifecycleController {
    /// A fresh controller: running (with a start action) when configured to
    /// start a run at launch, else idle.
    pub fn new(auto_start: bool) -> (r: (LifecycleController, Vec<LifecycleAction>))
        ensures
            r.0.wf(),
            r.0.cancel_deadline_ms is None,
            auto_start ==> r.0.mode == LifecycleMode::Running && r.1@ =~= seq![
                LifecycleAction::StartRun,
            ],
            !auto_start ==> r.0.mode == LifecycleMode::Idle && r.1@ =~= Seq::<
                LifecycleAction,
            >::empty(),
    {
        if auto_start {
            let mut actions: Vec<LifecycleAction> = Vec::new();
            actions.push(LifecycleAction::StartRun);
            (
                LifecycleController { mode: LifecycleMode::Running, cancel_deadline_ms: None },
                actions,
            )
        } else {
            (LifecycleController { mode: LifecycleMode::Idle, cancel_deadline_ms: None }, Vec::new())
        }
    }

    /// Step the controller on one command.
    pub fn on_command(&mut self, cmd: LifecycleCommand, now_ms: u64) -> (actions: Vec<
        LifecycleAction,
    >)
        requires
            old(self).wf(),
        ensures
            final(self).wf(),
            (*final(self), actions@) == spec_on_command(*old(self), cmd, now_ms),
    {
        let mut actions: Vec<LifecycleAction> = Vec::new();
        match cmd {
            LifecycleCommand::Pause(p) => {
                if self.is_active() {
                    actions.push(LifecycleAction::ForwardPause(p));
                }
            },
            LifecycleCommand::Restart => {
                if self.is_active() {
                    if !matches!(self.mode, LifecycleMode::CancellingForQuit) {
                        self.mode = LifecycleMode::CancellingForRestart;
                    }
                    self.cancel_deadline_ms = Some(watchdog_deadline(now_ms));
                    actions.push(LifecycleAction::CancelRun);
                    actions.push(LifecycleAction::EmitCancelling);
                } else if matches!(self.mode, LifecycleMode::Idle) {
                    self.mode = LifecycleMode::Running;
                    self.cancel_deadline_ms = None;
                    actions.push(LifecycleAction::StartRun);
                    actions.push(LifecycleAction::EmitRestarting);
                }
            },
            LifecycleCommand::Quit => {
                if self.is_active() {
                    self.mode = LifecycleMode::CancellingForQuit;
                    self.cancel_deadline_ms = Some(watchdog_deadline(now_ms));
                    actions.push(LifecycleAction::CancelRun);
                    actions.push(LifecycleAction::EmitCancelling);
                } else {
                    self.mode = LifecycleMode::Terminated;
                    self.cancel_deadline_ms = None;
                    actions.push(LifecycleAction::Terminate);
                }
            },
            LifecycleCommand::Closed => {
                if self.is_active() {
                    self.mode = LifecycleMode::CancellingForQuit;
                    actions.push(LifecycleAction::CancelRun);
                } else {
                    self.mode = LifecycleMode::Terminated;
                    self.cancel_deadline_ms = None;
                    actions.push(LifecycleAction::Terminate);
                }
            },
        }
        proof {
            assert(actions@ =~= spec_on_command(*old(self), cmd, now_ms).1);
        }
        actions
    }

    /// Step the controller on the observed completion of the active run.
    pub fn on_run_done(&mut self, outcome: RunOutcome) -> (actions: Vec<LifecycleAction>)
        requires
            old(self).wf(),
            old(self).run_active(),
        ensures
            final(self).wf(),
            (*final(self), actions@) == spec_on_run_done(*old(self), outcome),
    {
        let mut actions: Vec<LifecycleAction> = Vec::new();
        let report = match outcome {
            RunOutcome::Completed => LifecycleAction::EmitRunCompleted,
            RunOutcome::Failed => LifecycleAction::EmitRunFailed,
            RunOutcome::JoinFailed => LifecycleAction::EmitJoinFailed,
        };
        actions.push(report);
        self.cancel_deadline_ms = None;
        match self.mode {
            LifecycleMode::CancellingForQuit => {
                self.mode = LifecycleMode::Terminated;
                actions.push(LifecycleAction::Terminate);
            },
            LifecycleMode::CancellingForRestart => {
                self.mode = LifecycleMode::Running;
                actions.push(LifecycleAction::StartRun);
            },
            _ => {
                self.mode = LifecycleMode::Idle;
            },
        }
        proof {
            assert(actions@ =~= spec_on_run_done(*old(self), outcome).1);
        }
        actions
    }

    /// Step the controller on one watchdog tick.
    pub fn on_tick(&mut self, now_ms: u64) -> (actions: Vec<LifecycleAction>)
        requires
            old(self).wf(),
        ensures
            final(self).wf(),
            (*final(self), actions@) == spec_on_tick(*old(self), now_ms),
    {
        let mut actions: Vec<LifecycleAction> = Vec::new();
        match self.cancel_deadline_ms {
            Some(deadline) => {
                if now_ms >= deadline && self.is_active() {
                    self.cancel_deadline_ms = None;
                    actions.push(LifecycleAction::EmitStillCancelling);
                }
            },
            None => {},
        }
        proof {
            assert(actions@ =~= spec_on_tick(*old(self), now_ms).1);
        }
        actions
    }

    /// Whether a run is active.
    pub fn is_active(&self) -> (r: bool)
        ensures
            r == self.run_active(),
    {
        matches!(
            self.mode,
            LifecycleMode::Running | LifecycleMode::CancellingForRestart
                | LifecycleMode::CancellingForQuit
        )
    }

    /// The controller's mode.
    pub fn current_mode(&self) -> (r: LifecycleMode)
        ensures
            r == self.mode,
    {
        self.mode
    }
}

/// The watchdog deadline armed after `now_ms`, saturating.
fn watchdog_deadline(now_ms: u64) -> (r: u64)
    ensures
        r == spec_deadline(now_ms),
{
    if now_ms > u64::MAX - CANCEL_WATCHDOG_MS {
        u64::MAX
    } else {
        now_ms + CANCEL_WATCHDOG_MS
    }
}

/// A restart issued while a run is active cancels that run and starts
/// nothing: the cancel is delivered before any new run can exist, because
/// only a later completion observation emits `StartRun`.
pub proof fn lemma_restart_cancels_before_start(
    st: LifecycleController,
    now_ms: u64,
)
    requires
        st.wf(),
        st.run_active(),
    ensures
        spec_on_command(st, LifecycleCommand::Restart, now_ms).1.contains(
            LifecycleAction::CancelRun,
        ),
        !spec_on_command(st, LifecycleCommand::Restart, now_ms).1.contains(
            LifecycleAction::StartRun,
        ),
        spec_on_command(st, LifecycleCommand::Restart, now_ms).0.run_active(),
{
    let acts = spec_on_command(st, LifecycleCommand::Restart, now_ms).1;
    assert(acts[0] == LifecycleAction::CancelRun);
    assert(forall|i: int| 0 <= i < acts.len() ==> acts[i] != LifecycleAction::StartRun);
}

/// No command ever starts a run while one is active, and it stays active:
/// a second restart before the first cancellation completes cannot create
/// a second run.
pub proof fn lemma_no_start_while_active(
    st: LifecycleController,
    cmd: LifecycleCommand,
    now_ms: u64,
)
    requires
        st.wf(),
        st.run_active(),
    ensures
        !spec_on_command(st, cmd, now_ms).1.contains(LifecycleAction::StartRun),
        spec_on_command(st, cmd, now_ms).0.run_active(),
{
    let acts = spec_on_command(st, cmd, now_ms).1;
    assert(forall|i: int| 0 <= i < acts.len() ==> acts[i] != LifecycleAction::StartRun);
}

/// Two restarts in a row before the first cancellation completes leave
/// exactly the one original run active and start nothing.
pub proof fn lemma_restart_twice_no_overlap(st: LifecycleController, t1: u64, t2: u64)
    requires
        st.wf(),
        st.run_active(),
    ensures
        ({
            let step1 = spec_on_command(st, LifecycleCommand::Restart, t1);
            let step2 = spec_on_command(step1.0, LifecycleCommand::Restart, t2);
            &&& !step1.1.contains(LifecycleAction::StartRun)
            &&& !step2.1.contains(LifecycleAction::StartRun)
            &&& step2.0.run_active()
        }),
{
    let step1 = spec_on_command(st, LifecycleCommand::Restart, t1);
    lemma_no_start_while_active(st, LifecycleCommand::Restart, t1);
    lemma_no_start_while_active(step1.0, LifecycleCommand::Restart, t2);
}

/// The whole restart serialization, end to end: a restart while a run is
/// running delivers the cancel in its own step and starts nothing; the one
/// new run starts only in the later step that observes the cancelled run's
/// completion, after the outcome is reported. So the cancel always reaches
/// the old run strictly before any event of the new run can exist.
pub proof fn lemma_restart_serialized(
    st: LifecycleController,
    now_ms: u64,
    outcome: RunOutcome,
)
    requires
        st.wf(),
        st.mode == LifecycleMode::Running,
    ensures
        ({
            let restart = spec_on_command(st, LifecycleCommand::Restart, now_ms);
            let completion = spec_on_run_done(restart.0, outcome);
            &&& restart.1.contains(LifecycleAction::CancelRun)
            &&& !restart.1.contains(LifecycleAction::StartRun)
            &&& restart.0.mode == LifecycleMode::CancellingForRestart
            &&& completion.1 =~= seq![spec_outcome_action(outcome), LifecycleAction::StartRun]
            &&& completion.0.mode == LifecycleMode::Running
        }),
{
    lemma_restart_cancels_before_start(st, now_ms);
    let restart = spec_on_command(st, LifecycleCommand::Restart, now_ms);
    lemma_completion_starts_next_run(restart.0, outcome);
}

/// Once the cancelled run's completion is observed while a restart is
/// pending, exactly one new run starts, after the outcome is reported.
pub proof fn lemma_completion_starts_next_run(st: LifecycleController, outcome: RunOutcome)
    requires
        st.wf(),
        st.mode == LifecycleMode::CancellingForRestart,
    ensures
        spec_on_run_done(st, outcome).1 =~= seq![
            spec_outcome_action(outcome),
            LifecycleAction::StartRun,
        ],
        spec_on_run_done(st, outcome).0.mode == LifecycleMode::Running,
{
}

} // verus!
