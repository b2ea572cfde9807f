//! Two registry runtimes: a keyed signal runtime that maps numeric signal ids
//! to handlers, and a table runtime that keeps one optional builtin handler
//! per (object id, action id) cell.

use vstd::prelude::*;
use std::collections::HashMap;
use crate::context::Context;
use crate::dispatch::SpliceError;
use crate::plugins::Echo;

verus! {

broadcast use vstd::std_specs::hash::group_hash_axioms;

/// A handler that computes a value from a payload against a dispatch context.
/// Implementors declare what they compute as `spec_handle` and must return
/// exactly that; they may advance the context's tick counter.
pub trait Handler {
    /// The value this handler computes from a payload.
    spec fn spec_handle(&self, payload: Seq<u8>) -> u32;

    /// Compute the declared value; the context is free scratch state.
    fn handle(&self, ctx: &mut Context, payload: &[u8]) -> (r: u32)
        requires
            old(ctx).ticks < u64::MAX,
        ensures
            r == self.spec_handle(payload@),
    ;
}

/// A handler that computes a value from a payload alone.
pub trait SignalHandler {
    /// The value this handler computes from a payload.
    spec fn spec_handle(&self, payload: Seq<u8>) -> u32;

    /// Compute the declared value.
    fn handle(&self, payload: &[u8]) -> (r: u32)
        ensures
            r == self.spec_handle(payload@),
    ;
}

/// The vocabulary of builtin handler kinds. `Logger` is recognized as a
/// label but deliberately has no implementation: registering it fails.
pub enum BuiltinKind {
    Echo,
    Logger,
}

/// A registry of handlers keyed by numeric signal id. Registration
/// overwrites; dispatch is a pure lookup plus one handler invocation.
pub struct SignalRuntime<H> {
    pub handlers: HashMap<u32, H>,
}

impl<H: SignalHandler> SignalRuntime<H> {
    /// An empty registry.
    pub fn new() -> (r: SignalRuntime<H>)
        ensures
            r.handlers@ == Map::<u32, H>::empty(),
    {
        SignalRuntime { handlers: HashMap::new() }
    }

    /// Register `handler` under `id`, replacing any prior handler there.
    pub fn register(&mut self, id: u32, handler: H)
        ensures
            final(self).handlers@ == old(self).handlers@.insert(id, handler),
    {
        self.handlers.insert(id, handler);
    }

    /// Invoke the handler registered under `id` on `payload`; `None` when no
    /// handler is registered there.
    pub fn dispatch(&self, id: u32, payload: &[u8]) -> (r: Option<u32>)
        ensures
            match r {
                Some(v) => self.handlers@.contains_key(id) && v == self.handlers@[id].spec_handle(
                    payload@,
                ),
                None => !self.handlers@.contains_key(id),
            },
    {
        match self.handlers.get(&id) {
            Some(h) => Some(h.handle(payload)),
            None => None,
        }
    }
}

/// A dispatch table of one optional builtin handler per
/// (object id, action id) cell, with two monotonic counters.
pub struct Runtime {
    pub handlers: Vec<Vec<Option<Echo>>>,
    pub frames: u64,
    pub dispatched: u64,
}

impl Runtime {
    /// The handler stored at a cell.
    pub open spec fn cell(self, obj_id: int, action_id: int) -> Option<Echo> {
        self.handlers@[obj_id]@[action_id]
    }

    /// Table shape: one row per object id, one cell per action id up to the
    /// bound the table was built with.
    pub open spec fn wf(self, max_action_id: int) -> bool {
        forall|i: int|
            0 <= i < self.handlers@.len() ==> (#[trigger] self.handlers@[i])@.len() == max_action_id
                + 1
    }

    /// An empty table of `object_count` rows and `max_action_id + 1` columns,
    /// with both counters at zero.
    pub fn new(object_count: usize, max_action_id: usize, _pool_size: usize) -> (r: Runtime)
        requires
            max_action_id < usize::MAX,
        ensures
            r.handlers@.len() == object_count,
            r.wf(max_action_id as int),
            forall|i: int, j: int|
                0 <= i < object_count && 0 <= j <= max_action_id ==> r.cell(i, j) is None,
            r.frames == 0,
            r.dispatched == 0,
    {
        let mut handlers: Vec<Vec<Option<Echo>>> = Vec::new();
        let mut i: usize = 0;
        while i < object_count
            invariant
                max_action_id < usize::MAX,
                i <= object_count,
                handlers@.len() == i,
                forall|k: int|
                    0 <= k < i ==> (#[trigger] handlers@[k])@.len() == max_action_id + 1,
                forall|k: int, j: int|
                    0 <= k < i && 0 <= j <= max_action_id ==> handlers@[k]@[j] is None,
            decreases object_count - i,
        {
            let mut row: Vec<Option<Echo>> = Vec::new();
            let mut j: usize = 0;
            while j < max_action_id + 1
                invariant
                    max_action_id < usize::MAX,
                    j <= max_action_id + 1,
                    row@.len() == j,
                    forall|l: int| 0 <= l < j ==> row@[l] is None,
                decreases max_action_id + 1 - j,
            {
                row.push(None);
                j = j + 1;
            }
            handlers.push(row);
            i = i + 1;
        }
        Runtime { handlers, frames: 0, dispatched: 0 }
    }

    /// Store the builtin of `kind` at the given cell, replacing any prior
    /// handler. Only the echo builtin has an implementation: the logger kind
    /// is a recognized label with none, and registering it fails fast with
    /// `UnsupportedBuiltinKind` and no other effect.
    pub fn register_builtin(&mut self, obj_id: usize, action_id: usize, kind: BuiltinKind) -> (r:
        Result<(), SpliceError<u32>>)
        requires
            obj_id < old(self).handlers@.len(),
            action_id < old(self).handlers@[obj_id as int]@.len(),
        ensures
            final(self).frames == old(self).frames,
            final(self).dispatched == old(self).dispatched,
            match kind {
                BuiltinKind::Echo => {
                    &&& r == Ok::<(), SpliceError<u32>>(())
                    &&& final(self).handlers@.len() == old(self).handlers@.len()
                    &&& final(self).cell(obj_id as int, action_id as int) == Some(Echo)
                    &&& forall|i: int|
                        0 <= i < old(self).handlers@.len() ==> (#[trigger] final(self).handlers@[i])@.len() == old(self).handlers@[i]@.len()
                    &&& forall|i: int, j: int|
                        0 <= i < old(self).handlers@.len() && 0 <= j < old(self).handlers@[i]@.len()
                            && !(i == obj_id && j == action_id) ==> final(self).cell(i, j) == old(self).cell(i, j)
                },
                BuiltinKind::Logger => r == Err::<(), SpliceError<u32>>(
                    SpliceError::UnsupportedBuiltinKind,
                ) && final(self).handlers == old(self).handlers,
            },
    {
        let handler: Echo = match kind {
            BuiltinKind::Echo => Echo,
            BuiltinKind::Logger => {
                return Err(SpliceError::UnsupportedBuiltinKind);
            },
        };
        self.handlers[obj_id][action_id] = Some(handler);
        Ok(())
    }

    /// Count the frame, count the dispatch, and run the handler at the cell;
    /// an out-of-range or empty cell yields zero.
    pub fn dispatch(&mut self, obj_id: usize, action_id: usize, payload: &[u8]) -> (r: u32)
        requires
            old(self).frames < u64::MAX,
            old(self).dispatched < u64::MAX,
        ensures
            final(self).frames == old(self).frames + 1,
            final(self).dispatched == old(self).dispatched + 1,
            final(self).handlers == old(self).handlers,
            r == (if obj_id < old(self).handlers@.len() && action_id < old(self).handlers@[obj_id
                as int]@.len() && old(self).cell(obj_id as int, action_id as int) is Some {
                old(self).cell(obj_id as int, action_id as int)->0.spec_handle(payload@)
            } else {
                0u32
            }),
    {
        self.frames = self.frames + 1;
        self.dispatched = self.dispatched + 1;

        if obj_id < self.handlers.len() {
            let row_len = self.handlers[obj_id].len();
            if action_id < row_len {
                match &self.handlers[obj_id][action_id] {
                    Some(handler) => {
                        let mut ctx = Context::default();
                        handler.handle(&mut ctx, payload)
                    },
                    None => 0,
                }
            } else {
                0
            }
        } else {
            0
        }
    }

    /// The number of frames seen so far.
    pub fn metrics_frames(&self) -> (r: u64)
        ensures
            r == self.frames,
    {
        self.frames
    }

    /// The number of dispatches completed so far.
    pub fn metrics_dispatched(&self) -> (r: u64)
        ensures
            r == self.dispatched,
    {
        self.dispatched
    }
}

} // verus!
