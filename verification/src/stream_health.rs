//! Compositor / SteamVR health while clients are streaming: a stream is torn down when the
//! compositor stays unhealthy for the whole grace period.

use vstd::prelude::*;
use crate::paths::{path_join, stream_recovery_request_path};
use crate::supervisor::{recovery_record, recovery_record_spec};

verus! {

/// Pause between checks, in milliseconds.
pub const STREAM_HEALTH_POLL_INTERVAL_MS: u64 = 3000;

/// How long (milliseconds) the compositor may stay unhealthy during a stream before the
/// stream is torn down.
pub const COMPOSITOR_ABSENT_GRACE_MS: u64 = 5000;

/// The facts one check is made from.
pub struct StreamProbe {
    /// Some client is streaming.
    pub any_client_streaming: bool,
    /// `vrcompositor` runs.
    pub compositor_running: bool,
    /// `vrserver` runs.
    pub vrserver_running: bool,
    /// The recent compositor log shows a crash.
    pub log_unhealthy: bool,
}

/// The compositor is fine: it and `vrserver` run and the log shows no crash.
pub open spec fn stream_compositor_ok(p: StreamProbe) -> bool {
    p.compositor_running && p.vrserver_running && !p.log_unhealthy
}

/// Since when (monotonic milliseconds) the compositor has been unhealthy during a stream.
pub struct StreamHealthMonitor {
    pub compositor_missing_since_ms: Option<u64>,
}

/// When the current unhealthy spell began, counting this check if it is the first.
pub open spec fn unhealthy_since(m: StreamHealthMonitor, now_ms: u64) -> u64 {
    match m.compositor_missing_since_ms {
        Some(t) => t,
        None => now_ms,
    }
}

/// Whether a check at `now_ms` tears the stream down: only while streaming, with the
/// compositor unhealthy, and once the spell has lasted the grace period.
pub open spec fn monitor_teardown(m: StreamHealthMonitor, p: StreamProbe, now_ms: u64) -> bool {
    p.any_client_streaming && !stream_compositor_ok(p) && now_ms >= unhealthy_since(m, now_ms)
        + COMPOSITOR_ABSENT_GRACE_MS
}

/// The monitor after a check: the spell start is kept only while it goes on without a
/// teardown.
pub open spec fn monitor_next(m: StreamHealthMonitor, p: StreamProbe, now_ms: u64) -> StreamHealthMonitor {
    if !p.any_client_streaming || stream_compositor_ok(p) || monitor_teardown(m, p, now_ms) {
        StreamHealthMonitor { compositor_missing_since_ms: None }
    } else {
        StreamHealthMonitor { compositor_missing_since_ms: Some(unhealthy_since(m, now_ms)) }
    }
}

impl StreamHealthMonitor {
    /// A monitor that has seen no unhealthy compositor.
    pub fn new() -> (r: Self)
        ensures
            r.compositor_missing_since_ms is None,
    {
        StreamHealthMonitor { compositor_missing_since_ms: None }
    }

    /// One check at `now_ms`; returns whether the stream must be torn down (forcing the
    /// client to reconnect).
    pub fn check(&mut self, probe: &StreamProbe, now_ms: u64) -> (r: bool)
        ensures
            r == monitor_teardown(*old(self), *probe, now_ms),
            *final(self) == monitor_next(*old(self), *probe, now_ms),
            // While streaming, a missing compositor, a missing vrserver or crash lines make the
            // check unhealthy: the spell is kept until it has lasted the grace period.
            probe.any_client_streaming && (!probe.compositor_running || !probe.vrserver_running
                || probe.log_unhealthy) ==> (r <==> now_ms >= unhealthy_since(*old(self), now_ms)
                + COMPOSITOR_ABSENT_GRACE_MS) && (!r ==> final(self).compositor_missing_since_ms
                == Some(unhealthy_since(*old(self), now_ms))),
    {
        if !probe.any_client_streaming {
            self.compositor_missing_since_ms = None;
            return false;
        }
        let ok = probe.compositor_running && probe.vrserver_running && !probe.log_unhealthy;
        if ok {
            self.compositor_missing_since_ms = None;
            return false;
        }
        let first = match self.compositor_missing_since_ms {
            Some(t) => t,
            None => now_ms,
        };
        self.compositor_missing_since_ms = Some(first);
        if now_ms < first || now_ms - first < COMPOSITOR_ABSENT_GRACE_MS {
            return false;
        }
        self.compositor_missing_since_ms = None;
        true
    }
}

/// A teardown needs an unhealthy spell that started at least the grace period earlier: the
/// first unhealthy check never tears down, and a healthy check or the end of streaming ends
/// the spell.
pub proof fn law_teardown_needs_lasting_failure(m: StreamHealthMonitor, p: StreamProbe, now_ms: u64)
    ensures
        monitor_teardown(m, p, now_ms) ==> (m.compositor_missing_since_ms matches Some(t) && now_ms
            >= t + COMPOSITOR_ABSENT_GRACE_MS),
        (!p.any_client_streaming || stream_compositor_ok(p)) ==> !monitor_teardown(m, p, now_ms)
            && monitor_next(m, p, now_ms).compositor_missing_since_ms is None,
{
}

/// While a client streams and the compositor, vrserver or log is bad, a fresh monitor records
/// the spell at the first check and tears the stream down at a check the grace period later,
/// returning to no spell; a fully healthy probe never tears down.
pub proof fn law_unhealthy_spell_tears_down(p: StreamProbe, t: u64, later: u64)
    requires
        p.any_client_streaming,
        !p.compositor_running || !p.vrserver_running || p.log_unhealthy,
        t + COMPOSITOR_ABSENT_GRACE_MS <= later,
    ensures
        ({
            let fresh = StreamHealthMonitor { compositor_missing_since_ms: None };
            let after = monitor_next(fresh, p, t);
            &&& !monitor_teardown(fresh, p, t)
            &&& after.compositor_missing_since_ms == Some(t)
            &&& monitor_teardown(after, p, later)
            &&& monitor_next(after, p, later).compositor_missing_since_ms is None
        }),
        forall|m: StreamHealthMonitor, q: StreamProbe, now: u64|
            q.compositor_running && q.vrserver_running && !q.log_unhealthy ==> !#[trigger] monitor_teardown(
                m,
                q,
                now,
            ),
{
}

/// The stream-recovery request file and its contents, asking the supervisor to restart
/// SteamVR after the compositor was lost.
pub fn request_supervisor_recovery(runtime_dir: &str, reason: &str, at_unix_ms: u128) -> (r: (
    String,
    String,
))
    ensures
        r.0@ == path_join(runtime_dir@, "stream-recovery-request.json"@),
        r.1@ == recovery_record_spec(reason@, at_unix_ms as nat),
{
    (stream_recovery_request_path(runtime_dir), recovery_record(reason, at_unix_ms))
}

} // verus!
