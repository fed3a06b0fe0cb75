//! Decisions of the OpenVR driver when it runs attached to the server daemon over IPC.

use vstd::prelude::*;
use crate::daemon::DriverEvent;

verus! {

/// Video codec of the encoder.
#[derive(Clone, Copy, Debug, PartialEq, Eq, Structural)]
pub enum CodecType {
    H264,
    Hevc,
    AV1,
}

/// The codec byte sent over IPC for the driver's codec number: 0 and 1 keep their value,
/// anything else becomes 2.
pub fn video_codec_to_wire(codec: i32) -> (r: u8)
    ensures
        r == if codec == 0 {
            0u8
        } else if codec == 1 {
            1u8
        } else {
            2u8
        },
{
    if codec == 0 {
        0
    } else if codec == 1 {
        1
    } else {
        2
    }
}

/// The codec for an IPC codec byte: 0 is H.264, 1 is HEVC, anything else AV1.
pub open spec fn codec_spec(codec: u8) -> CodecType {
    if codec == 0 {
        CodecType::H264
    } else if codec == 1 {
        CodecType::Hevc
    } else {
        CodecType::AV1
    }
}

/// The codec for an IPC codec byte (see `codec_spec`).
pub fn codec_type_from_wire(codec: u8) -> (r: CodecType)
    ensures
        r == codec_spec(codec),
{
    if codec == 0 {
        CodecType::H264
    } else if codec == 1 {
        CodecType::Hevc
    } else {
        CodecType::AV1
    }
}

/// The device ids involved in button registration.
pub struct HandDeviceIds {
    pub hand_left: u64,
    pub hand_right: u64,
    pub hand_tracker_left: u64,
    pub hand_tracker_right: u64,
}

/// The device whose buttons a device registers: a hand tracker registers its hand's buttons.
pub open spec fn button_device_spec(device_id: u64, ids: HandDeviceIds) -> u64 {
    if device_id == ids.hand_tracker_left {
        ids.hand_left
    } else if device_id == ids.hand_tracker_right {
        ids.hand_right
    } else {
        device_id
    }
}

/// The device whose buttons `device_id` registers.
pub fn button_device(device_id: u64, ids: &HandDeviceIds) -> (r: u64)
    ensures
        r == button_device_spec(device_id, *ids),
{
    if device_id == ids.hand_tracker_left {
        ids.hand_left
    } else if device_id == ids.hand_tracker_right {
        ids.hand_right
    } else {
        device_id
    }
}

/// The device of a button in a `(button, device)` table: the first entry for the button.
pub open spec fn button_owner(table: Seq<(u64, u64)>, button: u64) -> Option<u64>
    decreases table.len(),
{
    if table.len() == 0 {
        None
    } else if table[0].0 == button {
        Some(table[0].1)
    } else {
        button_owner(table.drop_first(), button)
    }
}

/// The buttons of `registered` (in order) that belong to `device`.
pub open spec fn buttons_for(registered: Seq<u64>, table: Seq<(u64, u64)>, device: u64) -> Seq<u64>
    decreases registered.len(),
{
    if registered.len() == 0 {
        seq![]
    } else {
        let rest = buttons_for(registered.drop_last(), table, device);
        if button_owner(table, registered.last()) == Some(device) {
            rest.push(registered.last())
        } else {
            rest
        }
    }
}

/// The buttons of `registered` (in order) missing from the table.
pub open spec fn unknown_buttons(registered: Seq<u64>, table: Seq<(u64, u64)>) -> Seq<u64>
    decreases registered.len(),
{
    if registered.len() == 0 {
        seq![]
    } else {
        let rest = unknown_buttons(registered.drop_last(), table);
        if button_owner(table, registered.last()) is None {
            rest.push(registered.last())
        } else {
            rest
        }
    }
}

fn lookup_button(table: &Vec<(u64, u64)>, button: u64) -> (r: Option<u64>)
    ensures
        r == button_owner(table@, button),
{
    let mut i: usize = 0;
    assert(table@.skip(0) == table@);
    while i < table.len()
        invariant
            i <= table.len(),
            button_owner(table@, button) == button_owner(table@.skip(i as int), button),
        decreases table.len() - i,
    {
        assert(table@.skip(i as int).drop_first() == table@.skip(i + 1));
        if table[i].0 == button {
            return Some(table[i].1);
        }
        i = i + 1;
    }
    None
}

/// Splits the registered buttons of a device: those to register (their table entry names the
/// device the buttons belong to, see `button_device`) and those the table does not know, which
/// are reported.
pub fn buttons_to_register(
    device_id: u64,
    ids: &HandDeviceIds,
    registered: &Vec<u64>,
    table: &Vec<(u64, u64)>,
) -> (r: (Vec<u64>, Vec<u64>))
    ensures
        r.0@ == buttons_for(registered@, table@, button_device_spec(device_id, *ids)),
        r.1@ == unknown_buttons(registered@, table@),
{
    let device = button_device(device_id, ids);
    let mut to_register: Vec<u64> = Vec::new();
    let mut unknown: Vec<u64> = Vec::new();
    let mut i: usize = 0;
    while i < registered.len()
        invariant
            i <= registered.len(),
            to_register@ == buttons_for(registered@.take(i as int), table@, device),
            unknown@ == unknown_buttons(registered@.take(i as int), table@),
        decreases registered.len() - i,
    {
        let b = registered[i];
        assert(registered@.take(i + 1).drop_last() == registered@.take(i as int));
        match lookup_button(table, b) {
            Some(d) => {
                if d == device {
                    to_register.push(b);
                }
            },
            None => {
                unknown.push(b);
            },
        }
        i = i + 1;
    }
    assert(registered@.take(registered.len() as int) == registered@);
    (to_register, unknown)
}

/// What the driver does for an event from the daemon.
pub enum DriverCall<B, P, V> {
    /// Start streaming; then `after_streaming_init` decides.
    InitializeStreaming,
    DeinitializeStreaming,
    SetBattery(B),
    SetChaperoneArea(P),
    SetViewsConfig(V),
    RequestIdr,
    CaptureFrame,
    ShutdownSteamvr,
    RequestDriverResync,
}

/// The driver call for an event: a restart request shuts SteamVR down (the supervisor then
/// relaunches it).
pub open spec fn driver_call_spec<B, P, V>(e: DriverEvent<B, P, V>) -> DriverCall<B, P, V> {
    match e {
        DriverEvent::ClientConnected => DriverCall::InitializeStreaming,
        DriverEvent::ClientDisconnected => DriverCall::DeinitializeStreaming,
        DriverEvent::Battery(b) => DriverCall::SetBattery(b),
        DriverEvent::PlayspaceSync(p) => DriverCall::SetChaperoneArea(p),
        DriverEvent::ViewsConfig(v) => DriverCall::SetViewsConfig(v),
        DriverEvent::RequestIdr => DriverCall::RequestIdr,
        DriverEvent::CaptureFrame => DriverCall::CaptureFrame,
        DriverEvent::ShutdownSteamvr => DriverCall::ShutdownSteamvr,
        DriverEvent::RestartSteamvr => DriverCall::ShutdownSteamvr,
    }
}

/// The driver call for an event from the daemon.
pub fn dispatch_ipc_event<B, P, V>(event: DriverEvent<B, P, V>) -> (r: DriverCall<B, P, V>)
    ensures
        r == driver_call_spec(event),
        event is ClientConnected <==> r is InitializeStreaming,
        event is ClientDisconnected <==> r is DeinitializeStreaming,
        r is ShutdownSteamvr <==> (event is ShutdownSteamvr || event is RestartSteamvr),
{
    match event {
        DriverEvent::ClientConnected => DriverCall::InitializeStreaming,
        DriverEvent::ClientDisconnected => DriverCall::DeinitializeStreaming,
        DriverEvent::Battery(b) => DriverCall::SetBattery(b),
        DriverEvent::PlayspaceSync(p) => DriverCall::SetChaperoneArea(p),
        DriverEvent::ViewsConfig(v) => DriverCall::SetViewsConfig(v),
        DriverEvent::RequestIdr => DriverCall::RequestIdr,
        DriverEvent::CaptureFrame => DriverCall::CaptureFrame,
        DriverEvent::ShutdownSteamvr => DriverCall::ShutdownSteamvr,
        DriverEvent::RestartSteamvr => DriverCall::ShutdownSteamvr,
    }
}

/// Each daemon event leads to its own driver call: a connection starts streaming, a
/// disconnection stops streaming (SteamVR keeps running), payloads are passed on unchanged,
/// and only a shutdown or restart request shuts SteamVR down.
pub proof fn law_dispatch_matches_event<B, P, V>(e: DriverEvent<B, P, V>)
    ensures
        e is ClientConnected <==> driver_call_spec(e) is InitializeStreaming,
        e is ClientDisconnected <==> driver_call_spec(e) is DeinitializeStreaming,
        driver_call_spec(e) is ShutdownSteamvr <==> (e is ShutdownSteamvr || e is RestartSteamvr),
        e is RequestIdr <==> driver_call_spec(e) is RequestIdr,
        e is CaptureFrame <==> driver_call_spec(e) is CaptureFrame,
        forall|b: B| e == DriverEvent::<B, P, V>::Battery(b) ==> driver_call_spec(e) == DriverCall::<B, P, V>::SetBattery(b),
        forall|p: P| e == DriverEvent::<B, P, V>::PlayspaceSync(p) ==> driver_call_spec(e) == DriverCall::<B, P, V>::SetChaperoneArea(p),
        forall|v: V| e == DriverEvent::<B, P, V>::ViewsConfig(v) ==> driver_call_spec(e) == DriverCall::<B, P, V>::SetViewsConfig(v),
        !(driver_call_spec(e) is RequestDriverResync),
{
}

/// After streaming initialisation: resync the driver when it worked, shut SteamVR down
/// when it did not.
pub fn after_streaming_init<B, P, V>(initialized: bool) -> (r: DriverCall<B, P, V>)
    ensures
        initialized ==> r is RequestDriverResync,
        !initialized ==> r is ShutdownSteamvr,
{
    if initialized {
        DriverCall::RequestDriverResync
    } else {
        DriverCall::ShutdownSteamvr
    }
}

} // verus!
