//! The compact three-byte frame header codec, and the raw-frame decoder of
//! the signal runtime prototype.
//!
//! A header is exactly three bytes:
//! - byte 0: bit 7 is the completion flag (always set on emitted frames);
//!   bits 3..0 carry the action id; bits 6..4 are unused and zero.
//! - byte 1: the state code; the only value produced is `0xA0` ("ready").
//! - byte 2: the result code; `0` is success, `60` is failure.

use vstd::prelude::*;
use crate::runtime::SignalHandler;
use crate::runtime::SignalRuntime;

verus! {

/// Completion flag carried in bit 7 of header byte 0.
pub const FRAME_END_FLAG: u8 = 0x80;

/// The only state code this runtime ever writes into header byte 1.
pub const STATE_READY: u8 = 0xA0;

/// Result code for a successful dispatch (header byte 2).
pub const RESULT_SUCCESS: u8 = 0;

/// Result code for a failed or degraded dispatch (header byte 2).
pub const RESULT_FAILURE: u8 = 60;

/// Byte 0 of a freshly built header: the completion flag with the action id
/// in the low nibble.
pub open spec fn spec_header_byte0(action_id: u8) -> u8 {
    FRAME_END_FLAG | action_id
}

/// The action id carried by header byte 0: consumers must mask with `0x0F`
/// and may not assume bits 6..4 carry information.
pub open spec fn spec_action_of_byte0(b0: u8) -> u8 {
    b0 & 0x0F
}

/// The full header produced for `action_id`, before and after a dispatch:
/// `failed` selects the result code in byte 2.
pub open spec fn spec_header(action_id: u8, failed: bool) -> Seq<u8> {
    seq![
        spec_header_byte0(action_id),
        STATE_READY,
        if failed {
            RESULT_FAILURE
        } else {
            RESULT_SUCCESS
        },
    ]
}

/// Build the header of a fresh frame: completion flag plus action id,
/// state "ready", tentative success.
pub fn fresh_header(action_id: u8) -> (h: [u8; 3])
    ensures
        h@ == spec_header(action_id, false),
{
    let h = [FRAME_END_FLAG | action_id, STATE_READY, RESULT_SUCCESS];
    proof {
        assert(h@ =~= spec_header(action_id, false));
    }
    h
}

/// Rewrite header byte 2 to the failure code, leaving bytes 0 and 1 alone.
pub fn mark_failure(h: &mut [u8; 3])
    ensures
        final(h)@ == seq![old(h)@[0], old(h)@[1], RESULT_FAILURE],
{
    let b0 = h[0];
    let b1 = h[1];
    *h = [b0, b1, RESULT_FAILURE];
    proof {
        assert(h@ =~= seq![old(h)@[0], old(h)@[1], RESULT_FAILURE]);
    }
}

/// Recover the action id from header byte 0 by masking the low nibble.
pub fn header_action_id(b0: u8) -> (r: u8)
    ensures
        r == spec_action_of_byte0(b0),
{
    b0 & 0x0F
}

/// Encoding then decoding byte 0 yields the action id back: the codec
/// round trip is lossless for every id that fits the four-bit field.
pub proof fn lemma_header_action_id_roundtrip(action_id: u8)
    requires
        action_id < 16,
    ensures
        spec_action_of_byte0(spec_header_byte0(action_id)) == action_id,
{
    assert((0x80u8 | action_id) & 0x0F == action_id) by (bit_vector)
        requires
            action_id < 16,
    ;
}

/// The little-endian unsigned 32-bit value held in the first four bytes.
pub open spec fn spec_le32(b: Seq<u8>) -> u32
    recommends
        b.len() >= 4,
{
    (b[0] + b[1] * 0x100 + b[2] * 0x10000 + b[3] * 0x1000000) as u32
}

/// Decode the first four bytes of `b` as a little-endian unsigned 32-bit
/// integer.
pub fn le32_from_bytes(b: &[u8]) -> (r: u32)
    requires
        b@.len() >= 4,
    ensures
        r == spec_le32(b@),
{
    let b0 = *vstd::slice::slice_index_get(b, 0);
    let b1 = *vstd::slice::slice_index_get(b, 1);
    let b2 = *vstd::slice::slice_index_get(b, 2);
    let b3 = *vstd::slice::slice_index_get(b, 3);
    (b0 as u32) + (b1 as u32) * 0x100 + (b2 as u32) * 0x10000 + (b3 as u32) * 0x1000000
}

/// The big-endian unsigned 32-bit value held in the first four bytes.
pub open spec fn spec_be32(b: Seq<u8>) -> u32
    recommends
        b.len() >= 4,
{
    (b[0] * 0x1000000 + b[1] * 0x10000 + b[2] * 0x100 + b[3]) as u32
}

/// Decode the first four bytes of `b` as a big-endian unsigned 32-bit
/// integer.
pub fn be32_from_bytes(b: &[u8]) -> (r: u32)
    requires
        b@.len() >= 4,
    ensures
        r == spec_be32(b@),
{
    let b0 = *vstd::slice::slice_index_get(b, 0);
    let b1 = *vstd::slice::slice_index_get(b, 1);
    let b2 = *vstd::slice::slice_index_get(b, 2);
    let b3 = *vstd::slice::slice_index_get(b, 3);
    (b0 as u32) * 0x1000000 + (b1 as u32) * 0x10000 + (b2 as u32) * 0x100 + (b3 as u32)
}

/// A raw signal frame: a numeric signal id and its payload bytes.
pub struct Frame {
    pub id: u32,
    pub payload: Vec<u8>,
}

impl Frame {
    /// Build a frame from its id and payload.
    pub fn new(id: u32, payload: Vec<u8>) -> (r: Frame)
        ensures
            r.id == id,
            r.payload == payload,
    {
        Frame { id, payload }
    }
}

/// Split a raw frame into a big-endian signal id (first four bytes) and a
/// payload (the rest), and dispatch it against `runtime`. A frame shorter
/// than four bytes, or an id with no registered handler, yields `None`.
pub fn process_frame<H: SignalHandler>(frame: &[u8], runtime: &SignalRuntime<H>) -> (r: Option<
    u32,
>)
    ensures
        frame@.len() < 4 ==> r is None,
        frame@.len() >= 4 ==> match r {
            Some(v) => runtime.handlers@.contains_key(spec_be32(frame@))
                && v == runtime.handlers@[spec_be32(frame@)].spec_handle(
                frame@.subrange(4, frame@.len() as int),
            ),
            None => !runtime.handlers@.contains_key(spec_be32(frame@)),
        },
{
    if frame.len() < 4 {
        return None;
    }
    let signal_id = be32_from_bytes(frame);
    let payload = vstd::slice::slice_subrange(frame, 4, frame.len());
    runtime.dispatch(signal_id, payload)
}

} // verus!
