//! SteamVR health classification from probes of the running system.

use vstd::prelude::*;

verus! {

/// Connection state of a headset client, as recorded in the session.
#[derive(Clone, Copy, Debug, PartialEq, Eq, Structural)]
pub enum ConnectionState {
    Disconnected,
    Connecting,
    Connected,
    Streaming,
    Disconnecting,
}

/// What the supervisor reads from the ALVR session file.
pub struct SessionSnapshot {
    /// Connection state of each known client.
    pub client_connection_states: Vec<ConnectionState>,
    /// `session_settings.extra.steamvr_launcher.open_close_steamvr_with_dashboard`.
    pub open_close_steamvr_with_dashboard: bool,
}

/// A client in this state needs a running SteamVR.
pub open spec fn state_needs_steamvr(s: ConnectionState) -> bool {
    s == ConnectionState::Streaming || s == ConnectionState::Connecting
}

/// Some client is streaming or connecting.
pub open spec fn some_client_needs_steamvr(states: Seq<ConnectionState>) -> bool {
    exists|i: int| 0 <= i < states.len() && state_needs_steamvr(states[i])
}

/// Some client is streaming.
pub open spec fn some_client_streaming(states: Seq<ConnectionState>) -> bool {
    exists|i: int| 0 <= i < states.len() && states[i] == ConnectionState::Streaming
}

/// Whether a client is streaming or connecting; an unreadable session (`None`) says no.
pub fn client_needs_steamvr(session: &Option<SessionSnapshot>) -> (r: bool)
    ensures
        r == match session {
            Some(s) => some_client_needs_steamvr(s.client_connection_states@),
            None => false,
        },
{
    match session {
        Some(s) => states_need_steamvr(&s.client_connection_states),
        None => false,
    }
}

fn states_need_steamvr(states: &Vec<ConnectionState>) -> (r: bool)
    ensures
        r == some_client_needs_steamvr(states@),
{
    let mut i: usize = 0;
    while i < states.len()
        invariant
            i <= states.len(),
            forall|k: int| 0 <= k < i ==> !state_needs_steamvr(states@[k]),
        decreases states.len() - i,
    {
        if states[i] == ConnectionState::Streaming || states[i] == ConnectionState::Connecting {
            assert(state_needs_steamvr(states@[i as int]));
            return true;
        }
        i = i + 1;
    }
    false
}

/// Whether any client is streaming.
pub fn any_client_streaming(states: &Vec<ConnectionState>) -> (r: bool)
    ensures
        r == some_client_streaming(states@),
{
    let mut i: usize = 0;
    while i < states.len()
        invariant
            i <= states.len(),
            forall|k: int| 0 <= k < i ==> states@[k] != ConnectionState::Streaming,
        decreases states.len() - i,
    {
        if states[i] == ConnectionState::Streaming {
            return true;
        }
        i = i + 1;
    }
    false
}

/// Whether SteamVR is opened and closed together with the dashboard; an unreadable session
/// says no.
pub fn autostart_steamvr_enabled(session: &Option<SessionSnapshot>) -> (r: bool)
    ensures
        r == match session {
            Some(s) => s.open_close_steamvr_with_dashboard,
            None => false,
        },
{
    match session {
        Some(s) => s.open_close_steamvr_with_dashboard,
        None => false,
    }
}

/// The `driver_alvr_server` section of SteamVR's settings.
pub struct DriverSettings {
    pub blocked_by_safe_mode: Option<bool>,
}

/// What the supervisor reads from SteamVR's `steamvr.vrsettings`.
pub struct SteamVrSettings {
    pub driver_alvr_server: Option<DriverSettings>,
}

/// Whether SteamVR's safe mode has blocked the ALVR driver; unreadable settings, a missing
/// section or a missing flag say no.
pub fn driver_blocked_in_safe_mode(settings: &Option<SteamVrSettings>) -> (r: bool)
    ensures
        r == match *settings {
            Some(SteamVrSettings { driver_alvr_server: Some(DriverSettings { blocked_by_safe_mode: Some(b) }) }) => b,
            _ => false,
        },
{
    match settings {
        Some(s) => match &s.driver_alvr_server {
            Some(d) => match d.blocked_by_safe_mode {
                Some(b) => b,
                None => false,
            },
            None => false,
        },
        None => false,
    }
}

/// SteamVR is kept running when autostart is enabled, a client needs it, or it is already up.
pub fn should_supervise(autostart_enabled: bool, client_needs_steamvr: bool, steamvr_running: bool) -> (r:
    bool)
    ensures
        r == (autostart_enabled || client_needs_steamvr || steamvr_running),
{
    autostart_enabled || client_needs_steamvr || steamvr_running
}

/// The supervisor's view of SteamVR.
#[derive(Clone, Copy, Debug, PartialEq, Eq, Structural)]
pub enum HealthStatus {
    Healthy,
    NotRunning,
    CompositorMissing,
    CompositorUnhealthy,
    DriverBlocked,
    ForeignProcess,
}

/// The facts a health check is made from, each read once per check.
pub struct HealthProbe {
    /// SteamVR's safe mode blocked the ALVR driver.
    pub driver_blocked: bool,
    /// `vrserver` runs.
    pub steamvr_running: bool,
    /// A client is streaming or connecting.
    pub client_needs_steamvr: bool,
    /// `vrcompositor` runs.
    pub compositor_running: bool,
    /// The recent compositor log shows a crash (see `compositor_log_unhealthy`).
    pub log_unhealthy: bool,
    /// The recent compositor log shows a healthy warp mesh.
    pub log_has_healthy_warp_mesh: bool,
    /// The supervisor's launch marker exists.
    pub launch_marker_exists: bool,
    /// SteamVR autostart is enabled in the session.
    pub autostart_enabled: bool,
}

/// The health classification, checked in this order: blocked driver, SteamVR down, compositor
/// missing while a client needs it, crash lines in the log (ignored while a client needs
/// SteamVR and the log shows a healthy warp mesh), and finally whether the running SteamVR was
/// launched by the supervisor.
pub open spec fn health_of(p: HealthProbe) -> HealthStatus {
    if p.driver_blocked {
        HealthStatus::DriverBlocked
    } else if !p.steamvr_running {
        HealthStatus::NotRunning
    } else if p.client_needs_steamvr && !p.compositor_running {
        HealthStatus::CompositorMissing
    } else if p.log_unhealthy && !(p.client_needs_steamvr && p.log_has_healthy_warp_mesh) {
        HealthStatus::CompositorUnhealthy
    } else if p.launch_marker_exists {
        HealthStatus::Healthy
    } else {
        HealthStatus::ForeignProcess
    }
}

/// Classifies SteamVR's health from one probe.
pub fn steamvr_health(p: &HealthProbe) -> (r: HealthStatus)
    ensures
        r == health_of(*p),
        // An idle SteamVR is not torn down for lack of a compositor.
        !p.client_needs_steamvr ==> r != HealthStatus::CompositorMissing,
        // Only a launch made by the supervisor counts as healthy.
        r == HealthStatus::Healthy ==> p.launch_marker_exists,
        // Stale crash lines are ignored while the compositor is visibly healthy.
        p.client_needs_steamvr && p.log_has_healthy_warp_mesh ==> r != HealthStatus::CompositorUnhealthy,
        // A blocked driver comes first, then a stopped SteamVR, then a missing compositor
        // that a client needs.
        p.driver_blocked ==> r == HealthStatus::DriverBlocked,
        !p.driver_blocked && !p.steamvr_running ==> r == HealthStatus::NotRunning,
        !p.driver_blocked && p.steamvr_running && p.client_needs_steamvr && !p.compositor_running
            ==> r == HealthStatus::CompositorMissing,
{
    if p.driver_blocked {
        return HealthStatus::DriverBlocked;
    }
    if !p.steamvr_running {
        return HealthStatus::NotRunning;
    }
    if p.client_needs_steamvr && !p.compositor_running {
        return HealthStatus::CompositorMissing;
    }
    if p.log_unhealthy {
        if !(p.client_needs_steamvr && p.log_has_healthy_warp_mesh) {
            return HealthStatus::CompositorUnhealthy;
        }
    }
    if p.launch_marker_exists {
        HealthStatus::Healthy
    } else {
        HealthStatus::ForeignProcess
    }
}

/// How the health classification follows from the probe: a blocked driver, then a stopped
/// SteamVR, then a compositor missing while a client needs it, then crash lines in the log
/// unless a client needs SteamVR and the log also shows a healthy warp mesh; otherwise SteamVR
/// is healthy exactly when the supervisor launched it. Autostart plays no part.
pub proof fn law_health_classification(p: HealthProbe, q: HealthProbe)
    ensures
        p.driver_blocked ==> health_of(p) == HealthStatus::DriverBlocked,
        !p.driver_blocked && !p.steamvr_running ==> health_of(p) == HealthStatus::NotRunning,
        !p.driver_blocked && p.steamvr_running && p.client_needs_steamvr && !p.compositor_running
            ==> health_of(p) == HealthStatus::CompositorMissing,
        !p.driver_blocked && p.steamvr_running && !(p.client_needs_steamvr && !p.compositor_running)
            && p.log_unhealthy && !(p.client_needs_steamvr && p.log_has_healthy_warp_mesh) ==> health_of(p)
            == HealthStatus::CompositorUnhealthy,
        !p.driver_blocked && p.steamvr_running && !(p.client_needs_steamvr && !p.compositor_running)
            && !(p.log_unhealthy && !(p.client_needs_steamvr && p.log_has_healthy_warp_mesh)) ==> (
        health_of(p) == HealthStatus::Healthy <==> p.launch_marker_exists) && (health_of(p)
            == HealthStatus::ForeignProcess <==> !p.launch_marker_exists),
        (q.driver_blocked == p.driver_blocked && q.steamvr_running == p.steamvr_running
            && q.client_needs_steamvr == p.client_needs_steamvr && q.compositor_running
            == p.compositor_running && q.log_unhealthy == p.log_unhealthy && q.log_has_healthy_warp_mesh
            == p.log_has_healthy_warp_mesh && q.launch_marker_exists == p.launch_marker_exists)
            ==> health_of(q) == health_of(p),
{
}

/// The facts checked a few seconds after a relaunch.
pub struct RecoveryProbe {
    pub steamvr_running: bool,
    pub client_needs_steamvr: bool,
    pub compositor_running: bool,
    pub log_unhealthy: bool,
    pub driver_blocked: bool,
}

/// A relaunch worked: SteamVR runs, the compositor too if a client needs it, the log shows
/// no crash and the driver is not blocked.
pub open spec fn recovery_succeeded(p: RecoveryProbe) -> bool {
    p.steamvr_running && (!p.client_needs_steamvr || p.compositor_running) && !p.log_unhealthy
        && !p.driver_blocked
}

} // verus!
