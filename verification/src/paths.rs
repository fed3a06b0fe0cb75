//! Runtime file locations shared by the supervisor, the server daemon and the driver.

use vstd::prelude::*;
use crate::text::{append_decimal, append_str, chars_of, decimal, push_char};

verus! {

/// `base` joined with `name` the way `Path::join` does on Unix: an absolute `name` replaces
/// `base`; otherwise a `'/'` goes between them unless `base` is empty or already ends in one.
pub open spec fn path_join(base: Seq<char>, name: Seq<char>) -> Seq<char> {
    if name.len() > 0 && name[0] == '/' {
        name
    } else if base.len() > 0 && base.last() != '/' {
        base + seq!['/'] + name
    } else {
        base + name
    }
}

/// `base` joined with `name` (see `path_join`).
pub fn join_path(base: &str, name: &str) -> (r: String)
    ensures
        r@ == path_join(base@, name@),
{
    let b = chars_of(base);
    let n = chars_of(name);
    let mut out = String::new();
    if n.len() > 0 && n[0] == '/' {
        append_str(&mut out, name);
        return out;
    }
    append_str(&mut out, base);
    if b.len() > 0 && b[b.len() - 1] != '/' {
        push_char(&mut out, '/');
    }
    append_str(&mut out, name);
    out
}

/// The directory holding ALVR's runtime files: `$XDG_RUNTIME_DIR/alvr`, or `/tmp/alvr` when
/// the variable is not set.
pub open spec fn runtime_dir_spec(xdg_runtime_dir: Option<Seq<char>>) -> Seq<char> {
    match xdg_runtime_dir {
        Some(d) => path_join(d, "alvr"@),
        None => path_join("/tmp"@, "alvr"@),
    }
}

/// ALVR's runtime directory, given the value of `XDG_RUNTIME_DIR` if it is set.
pub fn runtime_dir(xdg_runtime_dir: Option<&str>) -> (r: String)
    ensures
        r@ == runtime_dir_spec(
            match xdg_runtime_dir {
                Some(d) => Some(d@),
                None => None,
            },
        ),
{
    match xdg_runtime_dir {
        Some(d) => join_path(d, "alvr"),
        None => join_path("/tmp", "alvr"),
    }
}

/// Where the server daemon advertises its pid and socket.
pub fn daemon_marker_path(runtime_dir: &str) -> (r: String)
    ensures
        r@ == path_join(runtime_dir@, "server-daemon.json"@),
{
    join_path(runtime_dir, "server-daemon.json")
}

/// The driver IPC Unix socket.
pub fn socket_path(runtime_dir: &str) -> (r: String)
    ensures
        r@ == path_join(runtime_dir@, "driver-ipc.sock"@),
{
    join_path(runtime_dir, "driver-ipc.sock")
}

/// The marker that says SteamVR was launched by the supervisor.
pub fn launch_marker_path(runtime_dir: &str) -> (r: String)
    ensures
        r@ == path_join(runtime_dir@, "steamvr-launch.json"@),
{
    join_path(runtime_dir, "steamvr-launch.json")
}

/// The record of the last successful recovery.
pub fn last_recovery_path(runtime_dir: &str) -> (r: String)
    ensures
        r@ == path_join(runtime_dir@, "steamvr-last-recovery.json"@),
{
    join_path(runtime_dir, "steamvr-last-recovery.json")
}

/// The request file through which the stream-health monitor asks the supervisor to recover.
pub fn stream_recovery_request_path(runtime_dir: &str) -> (r: String)
    ensures
        r@ == path_join(runtime_dir@, "stream-recovery-request.json"@),
{
    join_path(runtime_dir, "stream-recovery-request.json")
}

/// SteamVR's compositor log under the user's home directory.
pub fn compositor_log_path(home_dir: &str) -> (r: String)
    ensures
        r@ == path_join(home_dir@, ".local/share/Steam/logs/vrcompositor.txt"@),
{
    join_path(home_dir, ".local/share/Steam/logs/vrcompositor.txt")
}

/// The `/proc` entry of process `pid`.
pub fn proc_path(pid: u32) -> (r: String)
    ensures
        r@ == "/proc/"@ + decimal(pid as nat),
{
    let mut out = String::new();
    append_str(&mut out, "/proc/");
    append_decimal(&mut out, pid as u128);
    out
}

} // verus!
