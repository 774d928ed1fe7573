//! The outer supervision loop and the per-generation shutdown signal.
//!
//! The loop retries tunnel establishment with a fixed backoff, runs one full
//! generation per tunnel, and starts the next generation when one ends for
//! any reason but operator cancellation — the only path to process exit.

use vstd::prelude::*;

verus! {

/// Seconds to wait before retrying a failed tunnel establishment.
pub const ESTABLISH_RETRY_DELAY_SECONDS: u64 = 10;

/// Seconds to wait between one generation's end and the next attempt.
pub const GENERATION_RESTART_DELAY_SECONDS: u64 = 5;

/// The level-triggered broadcast cancellation signal one generation shares:
/// any component may trigger it, every observation after that sees it fired,
/// and triggering it again changes nothing.
#[derive(Debug, Clone, Copy, PartialEq, Eq)]
pub struct ShutdownCoordinator {
    pub fired: bool,
}

impl ShutdownCoordinator {
    /// A fresh generation's signal has not fired.
    pub fn new() -> (s: Self)
        ensures
            !s.fired,
    {
        ShutdownCoordinator { fired: false }
    }

    /// Trigger the signal. Idempotent: fired stays fired.
    pub fn trigger(&mut self)
        ensures
            final(self).fired,
    {
        self.fired = true;
    }

    /// Observe the signal: true exactly when it has fired.
    pub fn is_cancelled(&self) -> (r: bool)
        ensures
            r == self.fired,
    {
        self.fired
    }
}

/// Where the outer loop stands.
#[derive(Debug, Clone, Copy, PartialEq, Eq)]
pub enum SupervisorPhase {
    /// No tunnel is up; the loop is (re)establishing one.
    Establishing,
    /// One generation — tunnel, server, sweeper, tunnel supervisor — runs.
    Running,
    /// The operator cancelled; the process exits.
    Stopped,
}

/// What the outer loop observes.
#[derive(Debug, Clone, Copy, PartialEq, Eq)]
pub enum SupervisorEvent {
    /// Tunnel establishment succeeded.
    TunnelUp,
    /// Tunnel establishment failed.
    TunnelFailed,
    /// The running generation's server exited (tunnel closed or errored).
    ServerExited,
    /// The operator asked the process to stop.
    OperatorCancelled,
}

/// What the outer loop does next.
#[derive(Debug, Clone, Copy, PartialEq, Eq)]
pub enum SupervisorDirective {
    /// Bind a fresh shutdown signal and presence record, spawn the server,
    /// the sweeper and the tunnel supervisor.
    StartGeneration,
    /// Wait `ESTABLISH_RETRY_DELAY_SECONDS`, then try to establish again.
    RetryEstablish,
    /// Tear the generation down, wait `GENERATION_RESTART_DELAY_SECONDS`,
    /// then establish anew.
    RestartGeneration,
    /// Tear everything down and exit the process.
    Exit,
    /// Nothing: the event does not concern this phase.
    NoChange,
}

/// The outer loop's transition: which phase follows an event, and what to do.
pub open spec fn spec_supervisor_step(phase: SupervisorPhase, event: SupervisorEvent) -> (
    SupervisorPhase,
    SupervisorDirective,
) {
    match (phase, event) {
        (SupervisorPhase::Establishing, SupervisorEvent::TunnelUp) => (
            SupervisorPhase::Running,
            SupervisorDirective::StartGeneration,
        ),
        (SupervisorPhase::Establishing, SupervisorEvent::TunnelFailed) => (
            SupervisorPhase::Establishing,
            SupervisorDirective::RetryEstablish,
        ),
        (SupervisorPhase::Running, SupervisorEvent::ServerExited) => (
            SupervisorPhase::Establishing,
            SupervisorDirective::RestartGeneration,
        ),
        (_, SupervisorEvent::OperatorCancelled) => (
            SupervisorPhase::Stopped,
            SupervisorDirective::Exit,
        ),
        (p, _) => (p, SupervisorDirective::NoChange),
    }
}

/// Take one outer-loop step.
pub fn supervisor_step(phase: SupervisorPhase, event: SupervisorEvent) -> (r: (
    SupervisorPhase,
    SupervisorDirective,
))
    ensures
        r == spec_supervisor_step(phase, event),
{
    match (phase, event) {
        (SupervisorPhase::Establishing, SupervisorEvent::TunnelUp) => (
            SupervisorPhase::Running,
            SupervisorDirective::StartGeneration,
        ),
        (SupervisorPhase::Establishing, SupervisorEvent::TunnelFailed) => (
            SupervisorPhase::Establishing,
            SupervisorDirective::RetryEstablish,
        ),
        (SupervisorPhase::Running, SupervisorEvent::ServerExited) => (
            SupervisorPhase::Establishing,
            SupervisorDirective::RestartGeneration,
        ),
        (_, SupervisorEvent::OperatorCancelled) => (
            SupervisorPhase::Stopped,
            SupervisorDirective::Exit,
        ),
        (p, _) => (p, SupervisorDirective::NoChange),
    }
}

/// Operator cancellation is the only path to process exit: every other event
/// leaves the loop running, and cancellation always stops it.
pub proof fn lemma_exit_only_on_operator_cancel(phase: SupervisorPhase, event: SupervisorEvent)
    ensures
        spec_supervisor_step(phase, event).0 is Stopped <==> (event is OperatorCancelled || phase
            is Stopped),
        spec_supervisor_step(phase, event).1 is Exit <==> event is OperatorCancelled,
{
}

} // verus!
