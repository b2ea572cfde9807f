//! Built-in handlers: the echo handler, which reads the first four payload
//! bytes as a little-endian number, and the plugin variant that reports the
//! payload length.

use vstd::prelude::*;
use crate::context::Context;
use crate::frame::spec_le32;
use crate::frame::le32_from_bytes;
use crate::runtime::Handler;
use crate::runtime::SignalHandler;

verus! {

/// What the echo builtin computes: the little-endian value of the first four
/// payload bytes, or zero when fewer than four bytes are available.
pub open spec fn spec_echo_value(payload: Seq<u8>) -> u32 {
    if payload.len() >= 4 {
        spec_le32(payload)
    } else {
        0u32
    }
}

/// Compute the echo value of a payload.
pub fn echo_value(payload: &[u8]) -> (r: u32)
    ensures
        r == spec_echo_value(payload@),
{
    if payload.len() >= 4 {
        le32_from_bytes(payload)
    } else {
        0
    }
}

/// The echo builtin: decodes the head of the payload as a number.
#[derive(Clone, Copy)]
pub struct Echo;

impl Handler for Echo {
    open spec fn spec_handle(&self, payload: Seq<u8>) -> u32 {
        spec_echo_value(payload)
    }

    /// Advances the context by exactly one tick and touches nothing else in
    /// it, besides returning the declared echo value.
    fn handle(&self, ctx: &mut Context, payload: &[u8]) -> (r: u32)
        ensures
            final(ctx).ticks == old(ctx).ticks + 1,
            final(ctx).frame_header == old(ctx).frame_header,
            final(ctx).frame_payload_len == old(ctx).frame_payload_len,
    {
        ctx.tick();
        echo_value(payload)
    }
}

/// A minimal signal handler that reports the payload length.
pub struct EchoPlugin;

impl SignalHandler for EchoPlugin {
    open spec fn spec_handle(&self, payload: Seq<u8>) -> u32 {
        payload.len() as u32
    }

    fn handle(&self, payload: &[u8]) -> (r: u32) {
        #[verifier::truncate]
        (payload.len() as u32)
    }
}

} // verus!
