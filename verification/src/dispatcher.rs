//! A thin dispatching front end over a borrowed signal runtime.

use vstd::prelude::*;
use crate::frame::Frame;
use crate::runtime::SignalHandler;
use crate::runtime::SignalRuntime;

verus! {

/// Dispatches whole frames against a borrowed signal runtime.
pub struct Dispatcher<'a, H> {
    pub rt: &'a SignalRuntime<H>,
}

impl<'a, H: SignalHandler> Dispatcher<'a, H> {
    /// Wrap a runtime.
    pub fn new(rt: &'a SignalRuntime<H>) -> (r: Self)
        ensures
            r.rt == rt,
    {
        Dispatcher { rt }
    }

    /// Dispatch a frame's payload to the handler registered under the frame's
    /// id; `None` when no handler is registered there.
    pub fn dispatch(&self, frame: &Frame) -> (r: Option<u32>)
        ensures
            match r {
                Some(v) => self.rt.handlers@.contains_key(frame.id)
                    && v == self.rt.handlers@[frame.id].spec_handle(frame.payload@),
                None => !self.rt.handlers@.contains_key(frame.id),
            },
    {
        self.rt.dispatch(frame.id, frame.payload.as_slice())
    }
}

} // verus!
