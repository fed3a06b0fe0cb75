//! Length-prefixed framing of the messages exchanged over the driver IPC socket: a
//! little-endian `u32` payload length followed by the payload.

use vstd::prelude::*;

verus! {

/// Largest payload a reader accepts (16 MiB).
pub const MAX_FRAME_PAYLOAD: usize = 16777216;

/// The four little-endian bytes of `v` (taken modulo `2^32`).
pub open spec fn le_u32_bytes(v: nat) -> Seq<u8> {
    seq![
        (v % 256) as u8,
        ((v / 256) % 256) as u8,
        ((v / 65536) % 256) as u8,
        ((v / 16777216) % 256) as u8,
    ]
}

/// The value of four little-endian bytes.
pub open spec fn le_u32_value(b: Seq<u8>) -> nat {
    (b[0] + 256 * b[1] + 65536 * b[2] + 16777216 * b[3]) as nat
}

/// A frame: the payload length as a little-endian `u32` (truncated to 32 bits, as a length
/// cast to `u32` is) followed by the payload.
pub open spec fn frame_spec(payload: Seq<u8>) -> Seq<u8> {
    le_u32_bytes(payload.len() % 4294967296) + payload
}

/// The payload length announced by a frame header, refused above `MAX_FRAME_PAYLOAD`.
pub open spec fn header_len_spec(header: Seq<u8>) -> Option<nat> {
    if le_u32_value(header) > MAX_FRAME_PAYLOAD {
        None
    } else {
        Some(le_u32_value(header))
    }
}

/// The payload of the frame at the start of `bytes`: `None` for a short header, an oversized
/// length or a short payload; bytes after the payload are left alone.
pub open spec fn unframe_spec(bytes: Seq<u8>) -> Option<Seq<u8>> {
    if bytes.len() < 4 {
        None
    } else {
        match header_len_spec(bytes.take(4)) {
            None => None,
            Some(n) => if bytes.len() < 4 + n {
                None
            } else {
                Some(bytes.subrange(4, (4 + n) as int))
            },
        }
    }
}

/// The bytes of a frame carrying `payload`.
pub fn encode_frame(payload: &[u8]) -> (r: Vec<u8>)
    ensures
        r@ == frame_spec(payload@),
{
    let len: u64 = (payload.len() as u64) % 4294967296;
    let mut out: Vec<u8> = Vec::new();
    out.push((len % 256) as u8);
    out.push(((len / 256) % 256) as u8);
    out.push(((len / 65536) % 256) as u8);
    out.push(((len / 16777216) % 256) as u8);
    assert(out@ == le_u32_bytes(payload@.len() % 4294967296));
    let ghost head = out@;
    let mut i: usize = 0;
    while i < payload.len()
        invariant
            i <= payload.len(),
            out@ == head + payload@.take(i as int),
        decreases payload.len() - i,
    {
        out.push(payload[i]);
        assert(payload@.take(i + 1) == payload@.take(i as int).push(payload@[i as int]));
        i = i + 1;
    }
    assert(payload@.take(payload.len() as int) == payload@);
    out
}

/// The payload length announced by a frame header, or `None` when it exceeds
/// `MAX_FRAME_PAYLOAD`.
pub fn frame_payload_len(header: [u8; 4]) -> (r: Option<usize>)
    ensures
        r matches Some(n) ==> header_len_spec(header@) == Some(n as nat),
        r is None ==> header_len_spec(header@) is None,
{
    let v: u64 = header[0] as u64 + 256 * (header[1] as u64) + 65536 * (header[2] as u64) + 16777216
        * (header[3] as u64);
    if v > MAX_FRAME_PAYLOAD as u64 {
        None
    } else {
        Some(v as usize)
    }
}

/// The payload of the frame at the start of `bytes` (see `unframe_spec`).
pub fn decode_frame(bytes: &[u8]) -> (r: Option<Vec<u8>>)
    ensures
        r matches Some(v) ==> unframe_spec(bytes@) == Some(v@),
        r is None ==> unframe_spec(bytes@) is None,
{
    if bytes.len() < 4 {
        return None;
    }
    let header: [u8; 4] = [bytes[0], bytes[1], bytes[2], bytes[3]];
    assert(header@ == bytes@.take(4));
    let n = match frame_payload_len(header) {
        None => return None,
        Some(n) => n,
    };
    if bytes.len() - 4 < n {
        return None;
    }
    let mut out: Vec<u8> = Vec::new();
    let mut i: usize = 0;
    while i < n
        invariant
            i <= n,
            4 + n <= bytes.len(),
            out@ == bytes@.subrange(4, 4 + i),
        decreases n - i,
    {
        out.push(bytes[4 + i]);
        assert(bytes@.subrange(4, 4 + i + 1) == bytes@.subrange(4, 4 + i).push(bytes@[4 + i]));
        i = i + 1;
    }
    Some(out)
}

/// The four bytes written for a length read back as that length.
pub proof fn lemma_le_u32_roundtrip(v: nat)
    requires
        v < 4294967296,
    ensures
        le_u32_value(le_u32_bytes(v)) == v,
{
    let b = le_u32_bytes(v);
    assert(b[0] == v % 256);
    assert(b[1] == (v / 256) % 256);
    assert(b[2] == (v / 65536) % 256);
    assert(b[3] == (v / 16777216) % 256);
    assert((v % 256) + 256 * ((v / 256) % 256) + 65536 * ((v / 65536) % 256) + 16777216 * ((v
        / 16777216) % 256) == v) by (nonlinear_arith)
        requires
            v < 4294967296,
    ;
}

/// Reading a frame gives back the payload that was written, for every payload a reader
/// accepts (at most `MAX_FRAME_PAYLOAD` bytes), whatever follows the frame.
pub proof fn law_frame_roundtrip(payload: Seq<u8>, rest: Seq<u8>)
    requires
        payload.len() <= MAX_FRAME_PAYLOAD,
    ensures
        unframe_spec(frame_spec(payload) + rest) == Some(payload),
{
    let f = frame_spec(payload) + rest;
    lemma_le_u32_roundtrip(payload.len());
    assert(f.take(4) == le_u32_bytes(payload.len() % 4294967296));
    assert(f.subrange(4, (4 + payload.len()) as int) == payload);
}

} // verus!
