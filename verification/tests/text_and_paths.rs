use alvr_supervisor::compositor_log::{
    compositor_log_has_healthy_warp_mesh, compositor_log_unhealthy, log_tail_start,
    COMPOSITOR_LOG_TAIL_BYTES,
};
use alvr_supervisor::paths::{
    compositor_log_path, daemon_marker_path, join_path, last_recovery_path, launch_marker_path,
    proc_path, runtime_dir, socket_path, stream_recovery_request_path,
};
use alvr_supervisor::text::{chars_of, line_ranges};

#[test]
fn runtime_dir_uses_xdg_or_tmp() {
    assert_eq!(runtime_dir(Some("/run/user/1000")), "/run/user/1000/alvr");
    assert_eq!(runtime_dir(Some("/run/user/1000/")), "/run/user/1000/alvr");
    assert_eq!(runtime_dir(None), "/tmp/alvr");
    assert_eq!(runtime_dir(Some("")), "alvr");
}

#[test]
fn runtime_file_paths() {
    let rd = runtime_dir(None);
    assert_eq!(daemon_marker_path(&rd), "/tmp/alvr/server-daemon.json");
    assert_eq!(socket_path(&rd), "/tmp/alvr/driver-ipc.sock");
    assert_eq!(launch_marker_path(&rd), "/tmp/alvr/steamvr-launch.json");
    assert_eq!(last_recovery_path(&rd), "/tmp/alvr/steamvr-last-recovery.json");
    assert_eq!(
        stream_recovery_request_path(&rd),
        "/tmp/alvr/stream-recovery-request.json"
    );
    assert_eq!(
        compositor_log_path("/home/joe"),
        "/home/joe/.local/share/Steam/logs/vrcompositor.txt"
    );
}

#[test]
fn join_path_follows_path_join() {
    assert_eq!(join_path("a", "b"), "a/b");
    assert_eq!(join_path("a/", "b"), "a/b");
    assert_eq!(join_path("a", "/abs"), "/abs");
    assert_eq!(join_path("a", ""), "a/");
    assert_eq!(join_path("", "b"), "b");
    assert_eq!(join_path("/", "b"), "/b");
    assert_eq!(join_path("dir", "ü.txt"), "dir/ü.txt");
}

#[test]
fn proc_path_prints_decimal_pid() {
    assert_eq!(proc_path(0), "/proc/0");
    assert_eq!(proc_path(7), "/proc/7");
    assert_eq!(proc_path(1234), "/proc/1234");
    assert_eq!(proc_path(u32::MAX), "/proc/4294967295");
}

#[test]
fn chars_of_lists_characters() {
    let v = chars_of("héllo");
    assert_eq!(v, vec!['h', 'é', 'l', 'l', 'o']);
    assert_eq!(chars_of(""), Vec::<char>::new());
}

fn lines_of(s: &str) -> Vec<String> {
    let text = chars_of(s);
    line_ranges(&text)
        .iter()
        .map(|&(a, b)| text[a..b].iter().collect())
        .collect()
}

#[test]
fn line_ranges_match_str_lines() {
    for s in [
        "",
        "a",
        "a\n",
        "a\nb",
        "a\r\nb\r\n",
        "foo\nbar\n\r\nbaz\r",
        "\n\n",
        "x\ry\n",
        "trailing\n\n",
    ] {
        let expected: Vec<String> = s.lines().map(|l| l.to_string()).collect();
        assert_eq!(lines_of(s), expected, "input {:?}", s);
    }
}

const HEALTHY_LINE: &str =
    "Tue Jul 09 2026 20:01:02.123 - Warp mesh for eye 0 covers 99.98% of the render target (shrink wrap saved 0.00%)";
const COLLAPSED_LINE: &str =
    "Tue Jul 09 2026 20:01:02.123 - Warp mesh for eye 0 covers 0.00% of the render target";

#[test]
fn healthy_warp_mesh_is_not_a_crash() {
    let log = format!("start\n{}\nother\n", HEALTHY_LINE);
    assert!(!compositor_log_unhealthy(Some(&log)));
    assert!(compositor_log_has_healthy_warp_mesh(Some(&log)));
}

#[test]
fn collapsed_warp_mesh_is_unhealthy() {
    let log = format!("start\n{}\n", COLLAPSED_LINE);
    assert!(compositor_log_unhealthy(Some(&log)));
    assert!(!compositor_log_has_healthy_warp_mesh(Some(&log)));
}

#[test]
fn crash_signatures_are_unhealthy() {
    assert!(compositor_log_unhealthy(Some("x\nVR_Init Fail (-203)\ny")));
    assert!(compositor_log_unhealthy(Some("BInit failed\n")));
    assert!(!compositor_log_unhealthy(Some("HiddenArea(0.00%)\nall good\n")));
    assert!(!compositor_log_unhealthy(Some("")));
    assert!(!compositor_log_unhealthy(None));
    assert!(!compositor_log_has_healthy_warp_mesh(None));
    assert!(!compositor_log_has_healthy_warp_mesh(Some("")));
}

#[test]
fn only_recent_lines_count() {
    // A crash 80 lines back is still seen; 81 lines back it is not.
    let mut log = String::from("Fail (-203)\n");
    for _ in 0..79 {
        log.push_str("fine\n");
    }
    assert!(compositor_log_unhealthy(Some(&log)));
    log.push_str("fine\n");
    assert!(!compositor_log_unhealthy(Some(&log)));

    // A healthy warp mesh counts within the last 40 lines only.
    let mut log = format!("{}\n", HEALTHY_LINE);
    for _ in 0..39 {
        log.push_str("fine\n");
    }
    assert!(compositor_log_has_healthy_warp_mesh(Some(&log)));
    log.push_str("fine\n");
    assert!(!compositor_log_has_healthy_warp_mesh(Some(&log)));
}

#[test]
fn log_tail_start_keeps_last_64_kib() {
    assert_eq!(COMPOSITOR_LOG_TAIL_BYTES, 65536);
    assert_eq!(log_tail_start(0), 0);
    assert_eq!(log_tail_start(65536), 0);
    assert_eq!(log_tail_start(65537), 1);
    assert_eq!(log_tail_start(1_000_000), 1_000_000 - 65536);
}
