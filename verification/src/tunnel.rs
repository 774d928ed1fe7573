//! Tunnel health supervision: the self-probe's verdict and the supervisor
//! that turns probe verdicts into at most one shutdown trigger per
//! generation. The tunnel provider can silently black-hole traffic without
//! tearing the session down locally, so an external self-probe against the
//! public URL is the only reliable detector.

use vstd::prelude::*;
use vstd::string::StringExecFns;

verus! {

/// The probe period, in seconds.
pub const PROBE_PERIOD_SECONDS: u64 = 15;

/// What one self-probe came to: the status the public endpoint answered, or
/// `None` when the request errored transport-side.
pub type ProbeResult = Option<u16>;

/// A probe fails unless the endpoint answered exactly 200.
pub open spec fn spec_probe_failed(outcome: ProbeResult) -> bool {
    outcome != Option::Some(200u16)
}

/// Decide one probe outcome: failure unless the answer was status 200.
pub fn probe_failed(outcome: &ProbeResult) -> (r: bool)
    ensures
        r == spec_probe_failed(*outcome),
{
    match outcome {
        Option::Some(status) => *status != 200,
        Option::None => true,
    }
}

/// The public URL the probe targets: the webhook path under the tunnel's
/// configured domain.
pub fn probe_url(domain: &str) -> (r: String)
    ensures
        r@ == "https://"@ + domain@ + "/webhook"@,
{
    let mut url: String = "https://".to_owned();
    url.append(domain);
    url.append("/webhook");
    url
}

/// One generation's tunnel supervisor. Once it has stopped — because a probe
/// failed and it fired the shutdown signal, or because it observed the
/// generation's cancellation — it never fires again.
#[derive(Debug, Clone, Copy, PartialEq, Eq)]
pub struct TunnelSupervisor {
    pub stopped: bool,
}

/// The supervisor after one probe outcome, and whether that outcome fires the
/// shutdown signal: it fires exactly when the supervisor was still running
/// and the probe failed, and every failure stops the supervisor.
pub open spec fn spec_on_probe(s: TunnelSupervisor, outcome: ProbeResult) -> (
    TunnelSupervisor,
    bool,
) {
    if !s.stopped && spec_probe_failed(outcome) {
        (TunnelSupervisor { stopped: true }, true)
    } else {
        (s, false)
    }
}

impl TunnelSupervisor {
    /// A generation starts with its supervisor running.
    pub fn new() -> (s: Self)
        ensures
            !s.stopped,
    {
        TunnelSupervisor { stopped: false }
    }

    /// Digest one probe outcome. The result says whether to fire the
    /// generation's shutdown signal; a stopped supervisor ignores every
    /// outcome, so the signal fires at most once per generation.
    pub fn on_probe(&mut self, outcome: &ProbeResult) -> (fire: bool)
        ensures
            (*final(self), fire) == spec_on_probe(*old(self), *outcome),
            fire ==> final(self).stopped,
            old(self).stopped ==> !fire && final(self).stopped,
    {
        if !self.stopped && probe_failed(outcome) {
            self.stopped = true;
            true
        } else {
            false
        }
    }

    /// Observe the generation's cancellation: stop ticking without treating
    /// it as a failure, so nothing more fires.
    pub fn on_cancelled(&mut self)
        ensures
            final(self).stopped,
    {
        self.stopped = true;
    }
}

/// How many of a run of probe outcomes fire the shutdown signal, starting
/// from a given supervisor.
pub open spec fn spec_fire_count(s: TunnelSupervisor, outcomes: Seq<ProbeResult>) -> nat
    decreases outcomes.len(),
{
    if outcomes.len() == 0 {
        0
    } else {
        let (s2, fire) = spec_on_probe(s, outcomes[0]);
        (if fire {
            1nat
        } else {
            0nat
        }) + spec_fire_count(s2, outcomes.drop_first())
    }
}

/// A stopped supervisor never fires, whatever run of probe outcomes it sees.
pub proof fn lemma_stopped_never_fires(s: TunnelSupervisor, outcomes: Seq<ProbeResult>)
    requires
        s.stopped,
    ensures
        spec_fire_count(s, outcomes) == 0,
    decreases outcomes.len(),
{
    if outcomes.len() > 0 {
        lemma_stopped_never_fires(s, outcomes.drop_first());
    }
}

/// Over any run of probe outcomes a generation sees, the shutdown signal
/// fires at most once: the first failing probe fires it and stops the
/// supervisor, and a stopped supervisor never fires.
pub proof fn lemma_shutdown_fires_at_most_once(s: TunnelSupervisor, outcomes: Seq<ProbeResult>)
    ensures
        spec_fire_count(s, outcomes) <= 1,
    decreases outcomes.len(),
{
    if outcomes.len() > 0 {
        let (s2, fire) = spec_on_probe(s, outcomes[0]);
        if fire {
            lemma_stopped_never_fires(s2, outcomes.drop_first());
        } else {
            lemma_shutdown_fires_at_most_once(s2, outcomes.drop_first());
        }
    }
}

} // verus!
