# alvr_supervisor

Verified decision logic of ALVR's Linux SteamVR supervisor, its stream-health monitor and
the Unix-socket IPC between the always-on server daemon and the OpenVR driver.

- `src/` — the library, verified with Verus: runtime paths, compositor-log analysis,
  SteamVR health classification, the supervisor's recovery state machine with exponential
  backoff, the stream-health monitor, IPC framing, the daemon's event relay and the
  driver-side dispatch decisions.
- `app/` — plain Rust around it: reading files and the process table, sockets, threads and
  clocks. It hands the library what it read and performs what the library decides.
- `tests/` — tests of the library on concrete values.
