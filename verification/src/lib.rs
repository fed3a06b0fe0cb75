//! Verified decision logic of the ALVR SteamVR supervisor, stream-health monitor and
//! driver IPC framing.

pub mod text;
pub mod compositor_log;
pub mod paths;
pub mod backoff;
pub mod health;
pub mod supervisor;
pub mod stream_health;
pub mod ipc_frame;
pub mod daemon;
pub mod driver_ipc;
