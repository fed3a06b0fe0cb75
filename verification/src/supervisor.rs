//! The SteamVR supervisor's decisions: when to check what, when to relaunch SteamVR, and how
//! recovery outcomes feed the backoff. The caller performs the checks and the relaunch (sleeping
//! `HEALTH_POLL_INTERVAL_MS` before each poll) and hands the results back.

use vstd::prelude::*;
use crate::backoff::{
    backoff_delay_spec, backoff_ready, lemma_backoff_delay_bounded, next_failure_count, BackoffState,
    MAX_BACKOFF_MS,
};
use crate::health::{health_of, recovery_succeeded, steamvr_health, HealthProbe, HealthStatus, RecoveryProbe};
use crate::text::{append_decimal, append_str, decimal};

verus! {

/// Pause between health polls, in milliseconds.
pub const HEALTH_POLL_INTERVAL_MS: u64 = 3000;

/// After a launch, health checks wait this long (milliseconds) for SteamVR to come up.
pub const STEAMVR_STARTUP_GRACE_MS: u64 = 45000;

/// Consecutive unhealthy polls needed before a recovery.
pub const UNHEALTHY_STREAK_REQUIRED: u32 = 3;

/// Pause between killing SteamVR and relaunching it, in milliseconds.
pub const RELAUNCH_PAUSE_MS: u64 = 2000;

/// Pause between relaunching SteamVR and checking the outcome, in milliseconds.
pub const RECOVERY_CHECK_DELAY_MS: u64 = 5000;

/// Why SteamVR is being relaunched.
pub enum RecoveryReason {
    ManualRestart,
    /// The stream-health monitor asked, with its own reason.
    StreamRecovery(String),
    SteamVrNotRunning,
    CompositorMissing,
    CompositorUnhealthy,
    DriverBlocked,
    ForeignProcess,
}

/// The text logged and recorded for a recovery reason.
pub open spec fn reason_text_spec(r: RecoveryReason) -> Seq<char> {
    match r {
        RecoveryReason::ManualRestart => "manual restart"@,
        RecoveryReason::StreamRecovery(s) => "stream recovery ("@ + s@ + ")"@,
        RecoveryReason::SteamVrNotRunning => "SteamVR not running"@,
        RecoveryReason::CompositorMissing => "vrcompositor not running"@,
        RecoveryReason::CompositorUnhealthy => "compositor unhealthy (log signature)"@,
        RecoveryReason::DriverBlocked => "ALVR driver blocked (safe mode)"@,
        RecoveryReason::ForeignProcess => "SteamVR not launched by ALVR supervisor"@,
    }
}

impl RecoveryReason {
    /// The text logged and recorded for this reason.
    pub fn text(&self) -> (r: String)
        ensures
            r@ == reason_text_spec(*self),
    {
        let mut out = String::new();
        match self {
            RecoveryReason::ManualRestart => append_str(&mut out, "manual restart"),
            RecoveryReason::StreamRecovery(s) => {
                append_str(&mut out, "stream recovery (");
                append_str(&mut out, s.as_str());
                append_str(&mut out, ")");
            },
            RecoveryReason::SteamVrNotRunning => append_str(&mut out, "SteamVR not running"),
            RecoveryReason::CompositorMissing => append_str(&mut out, "vrcompositor not running"),
            RecoveryReason::CompositorUnhealthy => append_str(
                &mut out,
                "compositor unhealthy (log signature)",
            ),
            RecoveryReason::DriverBlocked => append_str(&mut out, "ALVR driver blocked (safe mode)"),
            RecoveryReason::ForeignProcess => append_str(
                &mut out,
                "SteamVR not launched by ALVR supervisor",
            ),
        }
        out
    }
}

/// The JSON line recorded for a recovery: `{"reason":"<reason>","at_ms":<at_unix_ms>}` and a
/// newline. The reason is written as given, without escaping.
pub open spec fn recovery_record_spec(reason: Seq<char>, at_unix_ms: nat) -> Seq<char> {
    "{\"reason\":\""@ + reason + "\",\"at_ms\":"@ + decimal(at_unix_ms) + "}\n"@
}

/// The JSON line recorded for a recovery (see `recovery_record_spec`).
pub fn recovery_record(reason: &str, at_unix_ms: u128) -> (r: String)
    ensures
        r@ == recovery_record_spec(reason@, at_unix_ms as nat),
{
    let mut out = String::new();
    append_str(&mut out, "{\"reason\":\"");
    append_str(&mut out, reason);
    append_str(&mut out, "\",\"at_ms\":");
    append_decimal(&mut out, at_unix_ms);
    append_str(&mut out, "}\n");
    out
}

/// What the supervisor asks its caller to do next.
pub enum SupervisorAction {
    /// Nothing until the next poll.
    Wait,
    /// Read (and remove) a pending stream-recovery request, then call `on_stream_request`.
    CheckStreamRequest,
    /// Probe SteamVR's health, then call `on_health`.
    CheckHealth,
    /// Start a recovery: call `begin_recovery`, and if it allows, kill SteamVR, pause
    /// `RELAUNCH_PAUSE_MS`, clear the launch marker, relaunch, write the marker, call
    /// `record_launch_attempt`, pause `RECOVERY_CHECK_DELAY_MS`, probe, and call `finish_recovery`.
    Recover(RecoveryReason),
}

/// The supervisor's state between polls.
pub struct Supervisor {
    pub backoff: BackoffState,
    /// Consecutive unhealthy polls seen so far (always below `UNHEALTHY_STREAK_REQUIRED`).
    pub unhealthy_streak: u32,
    /// A restart was requested by the user and not yet acted on.
    pub manual_restart: bool,
    /// Monotonic time in milliseconds of the last SteamVR launch.
    pub last_launch_ms: Option<u64>,
}

/// `s` with no recorded failures and no unhealthy streak.
pub open spec fn cleared(s: Supervisor) -> Supervisor {
    Supervisor {
        backoff: BackoffState { consecutive_failures: 0, next_attempt_at_ms: None },
        unhealthy_streak: 0,
        manual_restart: s.manual_restart,
        last_launch_ms: s.last_launch_ms,
    }
}

/// `s` with its backoff cleared and everything else kept.
pub open spec fn backoff_cleared(s: Supervisor) -> Supervisor {
    Supervisor {
        backoff: BackoffState { consecutive_failures: 0, next_attempt_at_ms: None },
        unhealthy_streak: s.unhealthy_streak,
        manual_restart: s.manual_restart,
        last_launch_ms: s.last_launch_ms,
    }
}

/// SteamVR was launched less than `STEAMVR_STARTUP_GRACE_MS` before `now_ms` (an earlier clock
/// reading than the launch counts as no time elapsed).
pub open spec fn within_grace(s: Supervisor, now_ms: u64) -> bool {
    match s.last_launch_ms {
        Some(t) => now_ms < t + STEAMVR_STARTUP_GRACE_MS,
        None => false,
    }
}

/// State after the start of a poll.
pub open spec fn poll_next(s: Supervisor, supervise: bool) -> Supervisor {
    if !supervise {
        cleared(s)
    } else if s.manual_restart {
        Supervisor { manual_restart: false, ..cleared(s) }
    } else {
        s
    }
}

/// Action at the start of a poll: nothing when SteamVR need not be supervised, a restart
/// the user asked for, or else a look for a stream-recovery request.
pub open spec fn poll_action(s: Supervisor, supervise: bool) -> SupervisorAction {
    if !supervise {
        SupervisorAction::Wait
    } else if s.manual_restart {
        SupervisorAction::Recover(RecoveryReason::ManualRestart)
    } else {
        SupervisorAction::CheckStreamRequest
    }
}

/// State after a stream-recovery request check.
pub open spec fn stream_request_next(s: Supervisor, request: Option<String>) -> Supervisor {
    match request {
        Some(_) => cleared(s),
        None => s,
    }
}

/// Action after a stream-recovery request check: recover on a request; otherwise wait out the
/// start-up grace, then check health.
pub open spec fn stream_request_action(s: Supervisor, request: Option<String>, now_ms: u64) -> SupervisorAction {
    match request {
        Some(r) => SupervisorAction::Recover(RecoveryReason::StreamRecovery(r)),
        None => if within_grace(s, now_ms) {
            SupervisorAction::Wait
        } else {
            SupervisorAction::CheckHealth
        },
    }
}

/// State after a health check.
pub open spec fn health_next(s: Supervisor, p: HealthProbe) -> Supervisor {
    if health_of(p) == HealthStatus::Healthy {
        cleared(s)
    } else if s.unhealthy_streak + 1 < UNHEALTHY_STREAK_REQUIRED {
        Supervisor { unhealthy_streak: (s.unhealthy_streak + 1) as u32, ..s }
    } else {
        Supervisor { unhealthy_streak: 0, ..s }
    }
}

/// The recovery for an unhealthy status, if one is made: a stopped SteamVR is relaunched
/// only when a client needs it or autostart is enabled.
pub open spec fn recovery_for(p: HealthProbe) -> SupervisorAction {
    match health_of(p) {
        HealthStatus::NotRunning => if p.client_needs_steamvr || p.autostart_enabled {
            SupervisorAction::Recover(RecoveryReason::SteamVrNotRunning)
        } else {
            SupervisorAction::Wait
        },
        HealthStatus::CompositorMissing => SupervisorAction::Recover(RecoveryReason::CompositorMissing),
        HealthStatus::CompositorUnhealthy => SupervisorAction::Recover(
            RecoveryReason::CompositorUnhealthy,
        ),
        HealthStatus::DriverBlocked => SupervisorAction::Recover(RecoveryReason::DriverBlocked),
        HealthStatus::ForeignProcess => SupervisorAction::Recover(RecoveryReason::ForeignProcess),
        HealthStatus::Healthy => SupervisorAction::Wait,
    }
}

/// Action after a health check: only the third consecutive unhealthy poll leads to a recovery.
pub open spec fn health_action(s: Supervisor, p: HealthProbe) -> SupervisorAction {
    if health_of(p) == HealthStatus::Healthy {
        SupervisorAction::Wait
    } else if s.unhealthy_streak + 1 < UNHEALTHY_STREAK_REQUIRED {
        SupervisorAction::Wait
    } else {
        recovery_for(p)
    }
}

/// State after asking to start a recovery: a pending manual restart is consumed and clears
/// the backoff.
pub open spec fn begin_next(s: Supervisor, now_ms: u64) -> Supervisor {
    if !backoff_ready(s.backoff, now_ms) {
        s
    } else if s.manual_restart {
        Supervisor { manual_restart: false, ..backoff_cleared(s) }
    } else {
        s
    }
}

/// State after a recovery's outcome: success clears the backoff, failure counts one more
/// failure at `now_ms`.
pub open spec fn finish_next(s: Supervisor, p: RecoveryProbe, now_ms: u64) -> Supervisor {
    if recovery_succeeded(p) {
        backoff_cleared(s)
    } else {
        let f = next_failure_count(s.backoff.consecutive_failures);
        Supervisor {
            backoff: BackoffState {
                consecutive_failures: f,
                next_attempt_at_ms: Some((now_ms + backoff_delay_spec(f)) as u64),
            },
            ..s
        }
    }
}

impl Supervisor {
    /// The supervisor's invariant: the unhealthy streak stays below the threshold.
    pub open spec fn wf(self) -> bool {
        self.unhealthy_streak < UNHEALTHY_STREAK_REQUIRED
    }

    /// A fresh supervisor: no failures, no streak, no pending restart, no launch seen.
    pub fn new() -> (r: Self)
        ensures
            r.wf(),
            r.backoff.consecutive_failures == 0,
            r.backoff.next_attempt_at_ms is None,
            r.unhealthy_streak == 0,
            !r.manual_restart,
            r.last_launch_ms is None,
    {
        Supervisor {
            backoff: BackoffState::new(),
            unhealthy_streak: 0,
            manual_restart: false,
            last_launch_ms: None,
        }
    }

    /// Whether SteamVR is still within its start-up grace at `now_ms`.
    pub fn within_startup_grace(&self, now_ms: u64) -> (r: bool)
        ensures
            r == within_grace(*self, now_ms),
    {
        match self.last_launch_ms {
            Some(t) => now_ms < t || now_ms - t < STEAMVR_STARTUP_GRACE_MS,
            None => false,
        }
    }

    /// Notes a SteamVR launch at `now_ms`.
    pub fn record_launch_attempt(&mut self, now_ms: u64)
        ensures
            *final(self) == (Supervisor { last_launch_ms: Some(now_ms), ..*old(self) }),
    {
        self.last_launch_ms = Some(now_ms);
    }

    fn clear(&mut self)
        ensures
            *final(self) == cleared(*old(self)),
    {
        self.backoff.reset();
        self.unhealthy_streak = 0;
    }

    /// Starts a poll, given whether SteamVR should be supervised now.
    pub fn poll(&mut self, supervise: bool) -> (r: SupervisorAction)
        requires
            old(self).wf(),
        ensures
            final(self).wf(),
            *final(self) == poll_next(*old(self), supervise),
            r == poll_action(*old(self), supervise),
    {
        if !supervise {
            self.clear();
            return SupervisorAction::Wait;
        }
        if self.manual_restart {
            self.manual_restart = false;
            self.clear();
            return SupervisorAction::Recover(RecoveryReason::ManualRestart);
        }
        SupervisorAction::CheckStreamRequest
    }

    /// Continues a poll with the stream-recovery request that was found (and removed), if any.
    pub fn on_stream_request(&mut self, request: Option<String>, now_ms: u64) -> (r: SupervisorAction)
        requires
            old(self).wf(),
        ensures
            final(self).wf(),
            *final(self) == stream_request_next(*old(self), request),
            r == stream_request_action(*old(self), request, now_ms),
    {
        match request {
            Some(reason) => {
                self.clear();
                SupervisorAction::Recover(RecoveryReason::StreamRecovery(reason))
            },
            None => if self.within_startup_grace(now_ms) {
                SupervisorAction::Wait
            } else {
                SupervisorAction::CheckHealth
            },
        }
    }

    /// Finishes a poll with a health probe.
    pub fn on_health(&mut self, probe: &HealthProbe) -> (r: SupervisorAction)
        requires
            old(self).wf(),
        ensures
            final(self).wf(),
            *final(self) == health_next(*old(self), *probe),
            r == health_action(*old(self), *probe),
            // On the third unhealthy poll a stopped SteamVR is relaunched exactly when a client
            // needs it or autostart is on.
            old(self).unhealthy_streak == 2 && !probe.driver_blocked && !probe.steamvr_running ==> (
            r == SupervisorAction::Recover(RecoveryReason::SteamVrNotRunning) <==> (
            probe.client_needs_steamvr || probe.autostart_enabled)),
    {
        let status = steamvr_health(probe);
        if status == HealthStatus::Healthy {
            self.clear();
            return SupervisorAction::Wait;
        }
        self.unhealthy_streak = self.unhealthy_streak + 1;
        if self.unhealthy_streak < UNHEALTHY_STREAK_REQUIRED {
            return SupervisorAction::Wait;
        }
        self.unhealthy_streak = 0;
        match status {
            HealthStatus::NotRunning => if probe.client_needs_steamvr || probe.autostart_enabled {
                SupervisorAction::Recover(RecoveryReason::SteamVrNotRunning)
            } else {
                SupervisorAction::Wait
            },
            HealthStatus::CompositorMissing => SupervisorAction::Recover(RecoveryReason::CompositorMissing),
            HealthStatus::CompositorUnhealthy => SupervisorAction::Recover(
                RecoveryReason::CompositorUnhealthy,
            ),
            HealthStatus::DriverBlocked => SupervisorAction::Recover(RecoveryReason::DriverBlocked),
            HealthStatus::ForeignProcess => SupervisorAction::Recover(RecoveryReason::ForeignProcess),
            HealthStatus::Healthy => SupervisorAction::Wait,
        }
    }

    /// Whether a recovery may start at `now_ms`: not while the backoff delay runs. When it
    /// may, a pending manual restart is consumed and the backoff cleared.
    pub fn begin_recovery(&mut self, now_ms: u64) -> (r: bool)
        requires
            old(self).wf(),
        ensures
            final(self).wf(),
            r == backoff_ready(old(self).backoff, now_ms),
            *final(self) == begin_next(*old(self), now_ms),
    {
        if !self.backoff.ready(now_ms) {
            return false;
        }
        if self.manual_restart {
            self.manual_restart = false;
            self.backoff.reset();
        }
        true
    }

    /// Takes the outcome of a relaunch, checked at `now_ms`; returns whether it succeeded.
    pub fn finish_recovery(&mut self, probe: &RecoveryProbe, now_ms: u64) -> (r: bool)
        requires
            old(self).wf(),
            now_ms <= u64::MAX - MAX_BACKOFF_MS,
        ensures
            final(self).wf(),
            r == recovery_succeeded(*probe),
            *final(self) == finish_next(*old(self), *probe, now_ms),
    {
        let ok = probe.steamvr_running && (!probe.client_needs_steamvr || probe.compositor_running)
            && !probe.log_unhealthy && !probe.driver_blocked;
        if ok {
            self.backoff.reset();
        } else {
            self.backoff.record_failure(now_ms);
        }
        ok
    }
}

/// Notes a SteamVR launch made outside recovery (by the dashboard or at server start), so
/// health checks wait out the start-up grace.
pub fn record_steamvr_launch(supervisor: &mut Supervisor, now_ms: u64)
    ensures
        *final(supervisor) == (Supervisor { last_launch_ms: Some(now_ms), ..*old(supervisor) }),
{
    supervisor.record_launch_attempt(now_ms);
}

/// Asks for a restart that bypasses the current backoff wait.
pub fn request_immediate_restart(supervisor: &mut Supervisor)
    ensures
        *final(supervisor) == (Supervisor { manual_restart: true, ..*old(supervisor) }),
{
    supervisor.manual_restart = true;
}

/// A health-triggered recovery needs three consecutive unhealthy polls: from no streak, the
/// first two unhealthy polls only count, the third acts; and no single poll acts unless two
/// unhealthy ones came right before it.
pub proof fn law_recovery_needs_three_unhealthy_polls(
    s: Supervisor,
    p1: HealthProbe,
    p2: HealthProbe,
    p3: HealthProbe,
)
    requires
        s.wf(),
        s.unhealthy_streak == 0,
        health_of(p1) != HealthStatus::Healthy,
        health_of(p2) != HealthStatus::Healthy,
        health_of(p3) != HealthStatus::Healthy,
    ensures
        health_action(s, p1) is Wait,
        health_action(health_next(s, p1), p2) is Wait,
        health_action(health_next(health_next(s, p1), p2), p3) == recovery_for(p3),
        health_next(health_next(health_next(s, p1), p2), p3).unhealthy_streak == 0,
        forall|t: Supervisor, p: HealthProbe|
            t.wf() && #[trigger] health_action(t, p) is Recover ==> t.unhealthy_streak == 2,
{
}

/// On the third consecutive unhealthy poll the recovery matches the problem: a blocked driver,
/// a stopped SteamVR (relaunched only when a client needs it or autostart is on, and left down
/// otherwise), a compositor missing while a client needs it, crash lines in the log, or a
/// SteamVR the supervisor did not launch.
pub proof fn law_third_unhealthy_poll_recovers(s: Supervisor, p: HealthProbe)
    requires
        s.wf(),
        s.unhealthy_streak == 2,
    ensures
        p.driver_blocked ==> health_action(s, p) == SupervisorAction::Recover(RecoveryReason::DriverBlocked),
        !p.driver_blocked && !p.steamvr_running && (p.client_needs_steamvr || p.autostart_enabled)
            ==> health_action(s, p) == SupervisorAction::Recover(RecoveryReason::SteamVrNotRunning),
        !p.driver_blocked && !p.steamvr_running && !p.client_needs_steamvr && !p.autostart_enabled
            ==> health_action(s, p) is Wait,
        !p.driver_blocked && p.steamvr_running && p.client_needs_steamvr && !p.compositor_running
            ==> health_action(s, p) == SupervisorAction::Recover(RecoveryReason::CompositorMissing),
        !p.driver_blocked && p.steamvr_running && !(p.client_needs_steamvr && !p.compositor_running)
            && p.log_unhealthy && !(p.client_needs_steamvr && p.log_has_healthy_warp_mesh)
            ==> health_action(s, p) == SupervisorAction::Recover(RecoveryReason::CompositorUnhealthy),
        !p.driver_blocked && p.steamvr_running && !(p.client_needs_steamvr && !p.compositor_running)
            && !(p.log_unhealthy && !(p.client_needs_steamvr && p.log_has_healthy_warp_mesh))
            && !p.launch_marker_exists ==> health_action(s, p) == SupervisorAction::Recover(
            RecoveryReason::ForeignProcess),
        !p.driver_blocked && p.steamvr_running && !(p.client_needs_steamvr && !p.compositor_running)
            && !(p.log_unhealthy && !(p.client_needs_steamvr && p.log_has_healthy_warp_mesh))
            && p.launch_marker_exists ==> health_action(s, p) is Wait && health_next(s, p).unhealthy_streak
            == 0,
        health_next(s, p).unhealthy_streak == 0,
{
}

/// A requested restart is acted on at the next supervised poll, whatever the backoff: the poll
/// asks for a recovery and the recovery may start at any time.
pub proof fn law_manual_restart_bypasses_backoff(s: Supervisor, now_ms: u64)
    requires
        s.wf(),
    ensures
        ({
            let requested = Supervisor { manual_restart: true, ..s };
            &&& poll_action(requested, true) == SupervisorAction::Recover(RecoveryReason::ManualRestart)
            &&& backoff_ready(poll_next(requested, true).backoff, now_ms)
            &&& !poll_next(requested, true).manual_restart
        }),
{
}

/// A stream-recovery request is acted on at once: it asks for a recovery with the request's
/// reason, and the recovery may start at any time.
pub proof fn law_stream_request_bypasses_backoff(s: Supervisor, reason: String, now_ms: u64, t: u64)
    requires
        s.wf(),
    ensures
        stream_request_action(s, Some(reason), now_ms) == SupervisorAction::Recover(
            RecoveryReason::StreamRecovery(reason),
        ),
        backoff_ready(stream_request_next(s, Some(reason)).backoff, t),
{
}

/// When SteamVR need not be supervised, nothing is done and all failures are forgotten.
pub proof fn law_unsupervised_poll_resets(s: Supervisor, t: u64)
    requires
        s.wf(),
    ensures
        poll_action(s, false) is Wait,
        poll_next(s, false).backoff.consecutive_failures == 0,
        poll_next(s, false).unhealthy_streak == 0,
        backoff_ready(poll_next(s, false).backoff, t),
{
}

/// A failed recovery at `now_ms` blocks the next one for exactly the backoff delay of the new
/// failure count; a successful one clears all failures.
pub proof fn law_recovery_outcome_drives_backoff(s: Supervisor, p: RecoveryProbe, now_ms: u64, t: u64)
    requires
        s.wf(),
        now_ms <= u64::MAX - MAX_BACKOFF_MS,
    ensures
        recovery_succeeded(p) ==> finish_next(s, p, now_ms).backoff.consecutive_failures == 0
            && backoff_ready(finish_next(s, p, now_ms).backoff, t),
        !recovery_succeeded(p) ==> {
            let f = next_failure_count(s.backoff.consecutive_failures);
            &&& finish_next(s, p, now_ms).backoff.consecutive_failures == f
            &&& (backoff_ready(finish_next(s, p, now_ms).backoff, t) <==> t >= now_ms + backoff_delay_spec(f))
        },
        !backoff_ready(s.backoff, t) ==> begin_next(s, t) == s,
{
    lemma_backoff_delay_bounded(next_failure_count(s.backoff.consecutive_failures));
}

/// After a launch at `t`, health checks are skipped until 45 s have passed.
pub proof fn law_startup_grace(s: Supervisor, t: u64, now_ms: u64)
    requires
        s.wf(),
        t <= now_ms,
    ensures
        ({
            let launched = Supervisor { last_launch_ms: Some(t), ..s };
            &&& within_grace(launched, now_ms) <==> now_ms - t < STEAMVR_STARTUP_GRACE_MS
            &&& within_grace(launched, now_ms) ==> stream_request_action(launched, None, now_ms)
                is Wait
            &&& !within_grace(launched, now_ms) ==> stream_request_action(launched, None, now_ms)
                is CheckHealth
        }),
{
}

} // verus!
