//! The always-on server daemon: its marker file, the driver link state, waiting for the
//! driver, and relaying server events to the driver.

use vstd::prelude::*;
use crate::driver_ipc::{codec_spec, codec_type_from_wire, CodecType};

verus! {

/// The marker through which the daemon advertises its process id and socket.
#[derive(Clone, Debug)]
pub struct DaemonMarker {
    pub pid: u32,
    pub socket: String,
}

/// Whether the daemon described by the marker is alive: there is a marker, its socket
/// exists and its `/proc` entry (see `proc_path`) exists. The caller checks the two paths.
pub fn is_daemon_process_alive(marker: &Option<DaemonMarker>, socket_exists: bool, proc_exists: bool) -> (r:
    bool)
    ensures
        r == (marker is Some && socket_exists && proc_exists),
{
    match marker {
        Some(_) => socket_exists && proc_exists,
        None => false,
    }
}

/// The daemon's view of its connection to the OpenVR driver.
pub struct DriverLink {
    pub driver_connected: bool,
    /// A stream to write events to is held.
    pub has_stream: bool,
}

impl DriverLink {
    /// No driver attached.
    pub fn new() -> (r: Self)
        ensures
            !r.driver_connected,
            !r.has_stream,
    {
        DriverLink { driver_connected: false, has_stream: false }
    }

    /// A driver attached.
    pub fn on_attach(&mut self)
        ensures
            final(self).driver_connected,
            final(self).has_stream,
    {
        self.driver_connected = true;
        self.has_stream = true;
    }

    /// The driver's stream ended.
    pub fn on_detach(&mut self)
        ensures
            !final(self).driver_connected,
            !final(self).has_stream,
    {
        self.driver_connected = false;
        self.has_stream = false;
    }

    /// Whether a message is to be written: only while a stream is held.
    pub fn should_send(&self) -> (r: bool)
        ensures
            r == self.has_stream,
    {
        self.has_stream
    }

    /// The result of writing a message: a failed write drops the stream and marks the driver
    /// disconnected; a successful one changes nothing.
    pub fn on_send_result(&mut self, written: bool)
        ensures
            written ==> *final(self) == *old(self),
            !written ==> !final(self).driver_connected && !final(self).has_stream,
    {
        if !written {
            self.has_stream = false;
            self.driver_connected = false;
        }
    }
}

/// One step of waiting for the driver.
pub enum WaitPoll {
    /// The driver is attached.
    Connected,
    /// The deadline passed.
    TimedOut,
    /// Sleep `DRIVER_WAIT_POLL_MS` and poll again.
    KeepWaiting,
}

/// Pause between polls while waiting for the driver, in milliseconds.
pub const DRIVER_WAIT_POLL_MS: u64 = 100;

/// One poll while waiting for the driver until `deadline_ms`: the deadline is checked before
/// the connection, so a poll at or after it times out.
pub fn wait_for_driver_poll(driver_connected: bool, now_ms: u64, deadline_ms: u64) -> (r: WaitPoll)
    ensures
        now_ms >= deadline_ms ==> r is TimedOut,
        now_ms < deadline_ms && driver_connected ==> r is Connected,
        now_ms < deadline_ms && !driver_connected ==> r is KeepWaiting,
{
    if now_ms >= deadline_ms {
        WaitPoll::TimedOut
    } else if driver_connected {
        WaitPoll::Connected
    } else {
        WaitPoll::KeepWaiting
    }
}

/// Whether streaming must first wait for the driver: only when a driver IPC server runs and
/// no driver is attached yet.
pub fn must_wait_for_driver(server_running: bool, driver_connected: bool) -> (must_wait: bool)
    ensures
        must_wait == (server_running && !driver_connected),
{
    server_running && !driver_connected
}

/// A server-core event, with the payloads of the events that are relayed to the driver.
pub enum CoreEvent<B, P, V> {
    ClientConnected,
    ClientDisconnected,
    Battery(B),
    PlayspaceSync(P),
    ViewsConfig(V),
    RequestIdr,
    CaptureFrame,
    ShutdownPending,
    RestartPending,
    Tracking,
    Buttons,
    SetOpenvrProperty,
    GameRenderLatencyFeedback,
}

/// An event sent to the driver.
pub enum DriverEvent<B, P, V> {
    ClientConnected,
    ClientDisconnected,
    Battery(B),
    PlayspaceSync(P),
    ViewsConfig(V),
    RequestIdr,
    CaptureFrame,
    ShutdownSteamvr,
    RestartSteamvr,
}

/// The driver event for a core event, if it is relayed at all: tracking, buttons, OpenVR
/// properties and latency feedback are not.
pub open spec fn driver_event_for<B, P, V>(e: CoreEvent<B, P, V>) -> Option<DriverEvent<B, P, V>> {
    match e {
        CoreEvent::ClientConnected => Some(DriverEvent::ClientConnected),
        CoreEvent::ClientDisconnected => Some(DriverEvent::ClientDisconnected),
        CoreEvent::Battery(b) => Some(DriverEvent::Battery(b)),
        CoreEvent::PlayspaceSync(p) => Some(DriverEvent::PlayspaceSync(p)),
        CoreEvent::ViewsConfig(v) => Some(DriverEvent::ViewsConfig(v)),
        CoreEvent::RequestIdr => Some(DriverEvent::RequestIdr),
        CoreEvent::CaptureFrame => Some(DriverEvent::CaptureFrame),
        CoreEvent::ShutdownPending => Some(DriverEvent::ShutdownSteamvr),
        CoreEvent::RestartPending => Some(DriverEvent::RestartSteamvr),
        _ => None,
    }
}

/// Converts a core event to the event sent to the driver, if it is relayed.
pub fn ipc_event_from_core<B, P, V>(event: CoreEvent<B, P, V>) -> (r: Option<DriverEvent<B, P, V>>)
    ensures
        r == driver_event_for(event),
{
    match event {
        CoreEvent::ClientConnected => Some(DriverEvent::ClientConnected),
        CoreEvent::ClientDisconnected => Some(DriverEvent::ClientDisconnected),
        CoreEvent::Battery(b) => Some(DriverEvent::Battery(b)),
        CoreEvent::PlayspaceSync(p) => Some(DriverEvent::PlayspaceSync(p)),
        CoreEvent::ViewsConfig(v) => Some(DriverEvent::ViewsConfig(v)),
        CoreEvent::RequestIdr => Some(DriverEvent::RequestIdr),
        CoreEvent::CaptureFrame => Some(DriverEvent::CaptureFrame),
        CoreEvent::ShutdownPending => Some(DriverEvent::ShutdownSteamvr),
        CoreEvent::RestartPending => Some(DriverEvent::RestartSteamvr),
        CoreEvent::Tracking => None,
        CoreEvent::Buttons => None,
        CoreEvent::SetOpenvrProperty => None,
        CoreEvent::GameRenderLatencyFeedback => None,
    }
}

/// The daemon's event relay: it remembers the last views configuration so that a client that
/// connects gets it again.
pub struct EventRelay<V> {
    pub last_views: Option<V>,
}

/// The views configuration remembered after an event.
pub open spec fn relay_views_after<B, P, V>(last: Option<V>, e: CoreEvent<B, P, V>) -> Option<V> {
    match e {
        CoreEvent::ViewsConfig(v) => Some(v),
        _ => last,
    }
}

/// The driver events sent for a core event, in order: on a client connection the remembered
/// views configuration first, then the event itself if it is relayed.
pub open spec fn relay_output<B, P, V>(last: Option<V>, e: CoreEvent<B, P, V>) -> Seq<DriverEvent<B, P, V>> {
    let resend: Seq<DriverEvent<B, P, V>> = match (e, relay_views_after(last, e)) {
        (CoreEvent::ClientConnected, Some(v)) => seq![DriverEvent::ViewsConfig(v)],
        _ => seq![],
    };
    match driver_event_for(e) {
        Some(d) => resend.push(d),
        None => resend,
    }
}

impl<V: Copy> EventRelay<V> {
    /// A relay that has seen no views configuration.
    pub fn new() -> (r: Self)
        ensures
            r.last_views is None,
    {
        EventRelay { last_views: None }
    }

    /// Handles one core event; returns the driver events to send, in order.
    pub fn relay<B, P>(&mut self, event: CoreEvent<B, P, V>) -> (r: Vec<DriverEvent<B, P, V>>)
        ensures
            final(self).last_views == relay_views_after(old(self).last_views, event),
            r@ == relay_output(old(self).last_views, event),
            // Only a views configuration changes what is remembered.
            !(event is ViewsConfig) ==> final(self).last_views == old(self).last_views,
            event matches CoreEvent::ViewsConfig(v) ==> final(self).last_views == Some(v),
            // A connecting client gets the remembered configuration first.
            event is ClientConnected ==> (old(self).last_views matches Some(v) ==> r@ == seq![
                DriverEvent::<B, P, V>::ViewsConfig(v),
                DriverEvent::<B, P, V>::ClientConnected,
            ]),
    {
        let mut out: Vec<DriverEvent<B, P, V>> = Vec::new();
        if let CoreEvent::ViewsConfig(v) = &event {
            self.last_views = Some(*v);
        }
        if let CoreEvent::ClientConnected = &event {
            if let Some(v) = &self.last_views {
                out.push(DriverEvent::ViewsConfig(*v));
            }
        }
        if let Some(d) = ipc_event_from_core(event) {
            out.push(d);
        }
        out
    }
}

/// What is remembered after a run of events, applying `relay_views_after` one event at a time.
pub open spec fn views_after_all<B, P, V>(last: Option<V>, events: Seq<CoreEvent<B, P, V>>) -> Option<V>
    decreases events.len(),
{
    if events.len() == 0 {
        last
    } else {
        relay_views_after(views_after_all(last, events.drop_last()), events.last())
    }
}

/// Only a views configuration changes what the relay remembers: after any run of events the
/// relay holds the last configuration in it (or what it held before, if there is none), so a
/// client connecting after it gets that configuration before the connection event.
pub proof fn law_relay_remembers_latest_views<B, P, V>(last: Option<V>, events: Seq<CoreEvent<B, P, V>>, k: int, v: V)
    requires
        0 <= k < events.len(),
        events[k] == CoreEvent::<B, P, V>::ViewsConfig(v),
        forall|j: int| k < j < events.len() ==> !(#[trigger] events[j] is ViewsConfig),
    ensures
        views_after_all(last, events) == Some(v),
        relay_output(views_after_all(last, events), CoreEvent::<B, P, V>::ClientConnected) == seq![
            DriverEvent::<B, P, V>::ViewsConfig(v),
            DriverEvent::<B, P, V>::ClientConnected,
        ],
        forall|e: CoreEvent<B, P, V>, l: Option<V>| !(e is ViewsConfig) ==> #[trigger] relay_views_after(l, e) == l,
    decreases events.len(),
{
    if k < events.len() - 1 {
        assert(events.drop_last()[k] == events[k]);
        assert forall|j: int| k < j < events.drop_last().len() implies !(#[trigger] events.drop_last()[j] is ViewsConfig) by {
            assert(events.drop_last()[j] == events[j]);
        }
        law_relay_remembers_latest_views(last, events.drop_last(), k, v);
        assert(!(events.last() is ViewsConfig));
    }
}

/// A client that connects after a views configuration was seen gets that configuration
/// before the connection event; later configurations replace earlier ones.
pub proof fn law_connect_resends_last_views<B, P, V>(v1: V, v2: V)
    ensures
        relay_output(Some(v1), CoreEvent::<B, P, V>::ClientConnected) == seq![
            DriverEvent::<B, P, V>::ViewsConfig(v1),
            DriverEvent::<B, P, V>::ClientConnected,
        ],
        relay_views_after(Some(v1), CoreEvent::<B, P, V>::ViewsConfig(v2)) == Some(v2),
        relay_output(None::<V>, CoreEvent::<B, P, V>::ClientConnected) == seq![
            DriverEvent::<B, P, V>::ClientConnected,
        ],
{
}

/// A message from the driver, with the fields the daemon acts on. Hello, server-event and
/// encoder-parameter messages carry nothing the daemon reads.
pub enum DriverMessage<H> {
    DriverHello,
    ServerEvent,
    VideoConfig { buffer: Vec<u8>, codec: u8 },
    VideoNal { timestamp_ns: u64, buffer: Vec<u8>, is_idr: bool },
    GetEncoderParams,
    EncoderParams,
    Composed { timestamp_ns: u64, offset_ns: u64 },
    Present { timestamp_ns: u64, offset_ns: u64 },
    Haptics(H),
}

/// What the daemon does with a driver message.
pub enum DaemonCall<H> {
    SetVideoConfigNals { buffer: Vec<u8>, codec: CodecType },
    SendVideoNal { timestamp_ns: u64, buffer: Vec<u8>, is_idr: bool },
    /// Look up the dynamic encoder parameters and, if there are some and the IPC server
    /// runs, answer with an `EncoderParams` message marked updated.
    ReplyEncoderParams,
    ReportComposed { timestamp_ns: u64, offset_ns: u64 },
    ReportPresent { timestamp_ns: u64, offset_ns: u64 },
    SendHaptics(H),
    Ignore,
}

/// The daemon call for a driver message.
pub open spec fn daemon_call_spec<H>(m: DriverMessage<H>) -> DaemonCall<H> {
    match m {
        DriverMessage::VideoConfig { buffer, codec } => DaemonCall::SetVideoConfigNals {
            buffer,
            codec: codec_spec(codec),
        },
        DriverMessage::VideoNal { timestamp_ns, buffer, is_idr } => DaemonCall::SendVideoNal {
            timestamp_ns,
            buffer,
            is_idr,
        },
        DriverMessage::GetEncoderParams => DaemonCall::ReplyEncoderParams,
        DriverMessage::Composed { timestamp_ns, offset_ns } => DaemonCall::ReportComposed {
            timestamp_ns,
            offset_ns,
        },
        DriverMessage::Present { timestamp_ns, offset_ns } => DaemonCall::ReportPresent {
            timestamp_ns,
            offset_ns,
        },
        DriverMessage::Haptics(h) => DaemonCall::SendHaptics(h),
        _ => DaemonCall::Ignore,
    }
}

/// Decides what the daemon does with a message from the driver.
pub fn handle_driver_message<H>(message: DriverMessage<H>) -> (r: DaemonCall<H>)
    ensures
        r == daemon_call_spec(message),
{
    match message {
        DriverMessage::VideoConfig { buffer, codec } => DaemonCall::SetVideoConfigNals {
            buffer,
            codec: codec_type_from_wire(codec),
        },
        DriverMessage::VideoNal { timestamp_ns, buffer, is_idr } => DaemonCall::SendVideoNal {
            timestamp_ns,
            buffer,
            is_idr,
        },
        DriverMessage::GetEncoderParams => DaemonCall::ReplyEncoderParams,
        DriverMessage::Composed { timestamp_ns, offset_ns } => DaemonCall::ReportComposed {
            timestamp_ns,
            offset_ns,
        },
        DriverMessage::Present { timestamp_ns, offset_ns } => DaemonCall::ReportPresent {
            timestamp_ns,
            offset_ns,
        },
        DriverMessage::Haptics(h) => DaemonCall::SendHaptics(h),
        DriverMessage::DriverHello => DaemonCall::Ignore,
        DriverMessage::ServerEvent => DaemonCall::Ignore,
        DriverMessage::EncoderParams => DaemonCall::Ignore,
    }
}

} // verus!
