use alvr_supervisor::backoff::{backoff_delay, BackoffState, BASE_BACKOFF_MS, MAX_BACKOFF_MS};
use alvr_supervisor::health::{
    autostart_steamvr_enabled, client_needs_steamvr, driver_blocked_in_safe_mode,
    should_supervise, steamvr_health, ConnectionState, DriverSettings, HealthProbe,
    HealthStatus, RecoveryProbe, SessionSnapshot, SteamVrSettings,
};
use alvr_supervisor::supervisor::{
    record_steamvr_launch, recovery_record, request_immediate_restart, RecoveryReason,
    Supervisor, SupervisorAction, STEAMVR_STARTUP_GRACE_MS,
};

#[test]
fn backoff_schedule_doubles_to_five_minutes() {
    let expected = [
        (0, 5000),
        (1, 5000),
        (2, 10000),
        (3, 20000),
        (4, 40000),
        (5, 80000),
        (6, 160000),
        (7, 300000),
        (8, 300000),
        (1000, 300000),
        (2147483648, 300000),
    ];
    for (f, ms) in expected {
        assert_eq!(backoff_delay(f), ms, "failures {}", f);
    }
    assert_eq!(BASE_BACKOFF_MS, 5000);
    assert_eq!(MAX_BACKOFF_MS, 300000);
}

#[test]
fn backoff_stays_capped_for_huge_failure_counts() {
    for f in [2147483647u32, 2147483648, 2147483649, 2147483650, u32::MAX - 11, u32::MAX - 1, u32::MAX] {
        assert_eq!(backoff_delay(f), 300000, "failures {}", f);
    }
}

#[test]
fn backoff_state_waits_after_failure() {
    let mut b = BackoffState::new();
    assert!(b.ready(0));
    b.record_failure(1000);
    assert_eq!(b.consecutive_failures, 1);
    assert_eq!(b.next_attempt_at_ms, Some(6000));
    assert!(!b.ready(5999));
    assert!(b.ready(6000));
    b.record_failure(6000);
    assert_eq!(b.next_attempt_at_ms, Some(16000));
    b.reset();
    assert_eq!(b.consecutive_failures, 0);
    assert!(b.ready(0));
    let mut s = BackoffState { consecutive_failures: u32::MAX, next_attempt_at_ms: None };
    s.record_failure(0);
    assert_eq!(s.consecutive_failures, u32::MAX);
    assert_eq!(s.next_attempt_at_ms, Some(300000));
}

fn session(states: Vec<ConnectionState>, autostart: bool) -> Option<SessionSnapshot> {
    Some(SessionSnapshot {
        client_connection_states: states,
        open_close_steamvr_with_dashboard: autostart,
    })
}

#[test]
fn session_decisions() {
    assert!(!client_needs_steamvr(&None));
    assert!(!client_needs_steamvr(&session(vec![], true)));
    assert!(!client_needs_steamvr(&session(
        vec![ConnectionState::Disconnected, ConnectionState::Connected],
        false
    )));
    assert!(client_needs_steamvr(&session(
        vec![ConnectionState::Disconnected, ConnectionState::Connecting],
        false
    )));
    assert!(client_needs_steamvr(&session(vec![ConnectionState::Streaming], false)));
    assert!(!autostart_steamvr_enabled(&None));
    assert!(autostart_steamvr_enabled(&session(vec![], true)));
    assert!(!autostart_steamvr_enabled(&session(vec![], false)));
}

#[test]
fn safe_mode_flag() {
    assert!(!driver_blocked_in_safe_mode(&None));
    assert!(!driver_blocked_in_safe_mode(&Some(SteamVrSettings { driver_alvr_server: None })));
    assert!(!driver_blocked_in_safe_mode(&Some(SteamVrSettings {
        driver_alvr_server: Some(DriverSettings { blocked_by_safe_mode: None })
    })));
    assert!(!driver_blocked_in_safe_mode(&Some(SteamVrSettings {
        driver_alvr_server: Some(DriverSettings { blocked_by_safe_mode: Some(false) })
    })));
    assert!(driver_blocked_in_safe_mode(&Some(SteamVrSettings {
        driver_alvr_server: Some(DriverSettings { blocked_by_safe_mode: Some(true) })
    })));
}

#[test]
fn supervise_when_any_reason() {
    assert!(!should_supervise(false, false, false));
    assert!(should_supervise(true, false, false));
    assert!(should_supervise(false, true, false));
    assert!(should_supervise(false, false, true));
}

fn healthy_probe() -> HealthProbe {
    HealthProbe {
        driver_blocked: false,
        steamvr_running: true,
        client_needs_steamvr: true,
        compositor_running: true,
        log_unhealthy: false,
        log_has_healthy_warp_mesh: true,
        launch_marker_exists: true,
        autostart_enabled: true,
    }
}

#[test]
fn health_classification() {
    assert_eq!(steamvr_health(&healthy_probe()), HealthStatus::Healthy);
    assert_eq!(
        steamvr_health(&HealthProbe { driver_blocked: true, steamvr_running: false, ..healthy_probe() }),
        HealthStatus::DriverBlocked
    );
    assert_eq!(
        steamvr_health(&HealthProbe { steamvr_running: false, ..healthy_probe() }),
        HealthStatus::NotRunning
    );
    assert_eq!(
        steamvr_health(&HealthProbe { compositor_running: false, ..healthy_probe() }),
        HealthStatus::CompositorMissing
    );
    // Idle SteamVR (no client) does not need a compositor.
    assert_eq!(
        steamvr_health(&HealthProbe {
            compositor_running: false,
            client_needs_steamvr: false,
            ..healthy_probe()
        }),
        HealthStatus::Healthy
    );
    // Stale crash lines are ignored while a healthy warp mesh shows and a client is there.
    assert_eq!(
        steamvr_health(&HealthProbe { log_unhealthy: true, ..healthy_probe() }),
        HealthStatus::Healthy
    );
    assert_eq!(
        steamvr_health(&HealthProbe {
            log_unhealthy: true,
            log_has_healthy_warp_mesh: false,
            ..healthy_probe()
        }),
        HealthStatus::CompositorUnhealthy
    );
    assert_eq!(
        steamvr_health(&HealthProbe {
            log_unhealthy: true,
            client_needs_steamvr: false,
            ..healthy_probe()
        }),
        HealthStatus::CompositorUnhealthy
    );
    assert_eq!(
        steamvr_health(&HealthProbe { launch_marker_exists: false, ..healthy_probe() }),
        HealthStatus::ForeignProcess
    );
}

fn is_recover(a: &SupervisorAction) -> Option<String> {
    match a {
        SupervisorAction::Recover(r) => Some(r.text()),
        _ => None,
    }
}

#[test]
fn three_unhealthy_polls_trigger_recovery() {
    let mut s = Supervisor::new();
    let bad = HealthProbe { compositor_running: false, ..healthy_probe() };
    assert!(matches!(s.poll(true), SupervisorAction::CheckStreamRequest));
    assert!(matches!(s.on_stream_request(None, 100_000), SupervisorAction::CheckHealth));
    assert!(matches!(s.on_health(&bad), SupervisorAction::Wait));
    assert_eq!(s.unhealthy_streak, 1);
    assert!(matches!(s.on_health(&bad), SupervisorAction::Wait));
    assert_eq!(s.unhealthy_streak, 2);
    let a = s.on_health(&bad);
    assert_eq!(is_recover(&a).as_deref(), Some("vrcompositor not running"));
    assert_eq!(s.unhealthy_streak, 0);
}

#[test]
fn healthy_poll_resets_streak_and_backoff() {
    let mut s = Supervisor::new();
    let bad = HealthProbe { steamvr_running: false, ..healthy_probe() };
    s.on_health(&bad);
    s.on_health(&bad);
    s.backoff.record_failure(0);
    assert!(matches!(s.on_health(&healthy_probe()), SupervisorAction::Wait));
    assert_eq!(s.unhealthy_streak, 0);
    assert_eq!(s.backoff.consecutive_failures, 0);
}

#[test]
fn stopped_steamvr_is_relaunched_only_when_wanted() {
    let down = HealthProbe {
        steamvr_running: false,
        client_needs_steamvr: false,
        autostart_enabled: false,
        ..healthy_probe()
    };
    let mut s = Supervisor::new();
    s.on_health(&down);
    s.on_health(&down);
    assert!(matches!(s.on_health(&down), SupervisorAction::Wait));
    assert_eq!(s.unhealthy_streak, 0);

    let wanted = HealthProbe { autostart_enabled: true, ..down };
    s.on_health(&wanted);
    s.on_health(&wanted);
    assert_eq!(is_recover(&s.on_health(&wanted)).as_deref(), Some("SteamVR not running"));
}

#[test]
fn recovery_reason_texts() {
    let reasons = [
        (RecoveryReason::ManualRestart, "manual restart"),
        (RecoveryReason::StreamRecovery("compositor lost".to_string()), "stream recovery (compositor lost)"),
        (RecoveryReason::SteamVrNotRunning, "SteamVR not running"),
        (RecoveryReason::CompositorMissing, "vrcompositor not running"),
        (RecoveryReason::CompositorUnhealthy, "compositor unhealthy (log signature)"),
        (RecoveryReason::DriverBlocked, "ALVR driver blocked (safe mode)"),
        (RecoveryReason::ForeignProcess, "SteamVR not launched by ALVR supervisor"),
    ];
    for (r, t) in reasons {
        assert_eq!(r.text(), t);
    }
    let mut s = Supervisor::new();
    for (probe, t) in [
        (HealthProbe { driver_blocked: true, ..healthy_probe() }, "ALVR driver blocked (safe mode)"),
        (HealthProbe { log_unhealthy: true, log_has_healthy_warp_mesh: false, ..healthy_probe() }, "compositor unhealthy (log signature)"),
        (HealthProbe { launch_marker_exists: false, ..healthy_probe() }, "SteamVR not launched by ALVR supervisor"),
    ] {
        s.on_health(&probe);
        s.on_health(&probe);
        assert_eq!(is_recover(&s.on_health(&probe)).as_deref(), Some(t));
    }
}

#[test]
fn manual_restart_bypasses_backoff() {
    let mut s = Supervisor::new();
    s.backoff.record_failure(0);
    s.backoff.record_failure(5000);
    assert!(!s.backoff.ready(6000));
    request_immediate_restart(&mut s);
    assert!(s.manual_restart);
    let a = s.poll(true);
    assert_eq!(is_recover(&a).as_deref(), Some("manual restart"));
    assert!(!s.manual_restart);
    assert!(s.begin_recovery(6000));
}

#[test]
fn manual_restart_waits_while_unsupervised() {
    let mut s = Supervisor::new();
    request_immediate_restart(&mut s);
    assert!(matches!(s.poll(false), SupervisorAction::Wait));
    assert!(s.manual_restart);
    assert!(matches!(s.poll(true), SupervisorAction::Recover(RecoveryReason::ManualRestart)));
}

#[test]
fn unsupervised_poll_forgets_failures() {
    let mut s = Supervisor::new();
    s.backoff.record_failure(0);
    s.unhealthy_streak = 2;
    assert!(matches!(s.poll(false), SupervisorAction::Wait));
    assert_eq!(s.backoff.consecutive_failures, 0);
    assert_eq!(s.unhealthy_streak, 0);
    assert!(s.backoff.ready(0));
}

#[test]
fn stream_request_triggers_recovery() {
    let mut s = Supervisor::new();
    s.backoff.record_failure(0);
    s.unhealthy_streak = 1;
    let a = s.on_stream_request(Some("compositor lost".to_string()), 10);
    assert_eq!(is_recover(&a).as_deref(), Some("stream recovery (compositor lost)"));
    assert!(s.begin_recovery(10));
    assert_eq!(s.unhealthy_streak, 0);
}

#[test]
fn startup_grace_skips_health_checks() {
    let mut s = Supervisor::new();
    record_steamvr_launch(&mut s, 1000);
    assert_eq!(s.last_launch_ms, Some(1000));
    assert!(matches!(s.on_stream_request(None, 1000), SupervisorAction::Wait));
    assert!(matches!(
        s.on_stream_request(None, 1000 + STEAMVR_STARTUP_GRACE_MS - 1),
        SupervisorAction::Wait
    ));
    assert!(matches!(
        s.on_stream_request(None, 1000 + STEAMVR_STARTUP_GRACE_MS),
        SupervisorAction::CheckHealth
    ));
    // A clock reading before the launch counts as no time elapsed.
    assert!(s.within_startup_grace(0));
    assert!(!Supervisor::new().within_startup_grace(0));
}

#[test]
fn recovery_outcome_feeds_backoff() {
    let ok = RecoveryProbe {
        steamvr_running: true,
        client_needs_steamvr: true,
        compositor_running: true,
        log_unhealthy: false,
        driver_blocked: false,
    };
    let mut s = Supervisor::new();
    assert!(s.begin_recovery(0));
    s.record_launch_attempt(0);
    assert!(!s.finish_recovery(&RecoveryProbe { compositor_running: false, ..ok }, 7000));
    assert_eq!(s.backoff.consecutive_failures, 1);
    assert!(!s.begin_recovery(11999));
    assert!(s.begin_recovery(12000));
    assert!(!s.finish_recovery(&RecoveryProbe { log_unhealthy: true, ..ok }, 20000));
    assert_eq!(s.backoff.next_attempt_at_ms, Some(30000));
    assert!(!s.finish_recovery(&RecoveryProbe { driver_blocked: true, ..ok }, 30000));
    assert!(!s.finish_recovery(&RecoveryProbe { steamvr_running: false, ..ok }, 30000));
    // Compositor not needed without a client.
    assert!(s.finish_recovery(
        &RecoveryProbe { compositor_running: false, client_needs_steamvr: false, ..ok },
        40000
    ));
    assert_eq!(s.backoff.consecutive_failures, 0);
    assert!(s.begin_recovery(40000));
}

#[test]
fn recovery_records_are_json_lines() {
    assert_eq!(
        recovery_record("manual restart", 1720555200123),
        "{\"reason\":\"manual restart\",\"at_ms\":1720555200123}\n"
    );
    assert_eq!(recovery_record("", 0), "{\"reason\":\"\",\"at_ms\":0}\n");
    assert_eq!(
        recovery_record("x", u128::MAX),
        "{\"reason\":\"x\",\"at_ms\":340282366920938463463374607431768211455}\n"
    );
}
