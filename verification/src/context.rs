//! Per-dispatch bookkeeping state and a fixed-size rotating pool of such
//! state values.

use vstd::prelude::*;

verus! {

/// Scratch state a handler may advance while it runs: a tick counter and the
/// header and payload length of the frame being worked on.
#[derive(Clone)]
pub struct Context {
    pub ticks: u64,
    pub frame_header: [u8; 3],
    pub frame_payload_len: u32,
}

impl Context {
    /// Advance the tick counter by one.
    pub fn tick(&mut self)
        requires
            old(self).ticks < u64::MAX,
        ensures
            final(self).ticks == old(self).ticks + 1,
            final(self).frame_header == old(self).frame_header,
            final(self).frame_payload_len == old(self).frame_payload_len,
    {
        self.ticks = self.ticks + 1;
    }

    /// Clear every field back to the zero state.
    pub fn reset(&mut self)
        ensures
            final(self).ticks == 0,
            final(self).frame_header@ == seq![0u8, 0u8, 0u8],
            final(self).frame_payload_len == 0,
    {
        self.frame_header = [0; 3];
        self.frame_payload_len = 0;
        self.ticks = 0;
        proof {
            assert(self.frame_header@ =~= seq![0u8, 0u8, 0u8]);
        }
    }
}

impl Default for Context {
    /// The zero state: no ticks, an all-zero header, an empty payload.
    fn default() -> (r: Context)
        ensures
            r.ticks == 0,
            r.frame_header@ == seq![0u8, 0u8, 0u8],
            r.frame_payload_len == 0,
    {
        let r = Context { ticks: 0, frame_header: [0; 3], frame_payload_len: 0 };
        proof {
            assert(r.frame_header@ =~= seq![0u8, 0u8, 0u8]);
        }
        r
    }
}

/// A fixed-size pool of reusable values handed out in rotation.
pub struct ContextPool<T> {
    pub pool: Vec<T>,
    pub index: usize,
}

impl<T: Default + Clone> ContextPool<T> {
    /// Allocate a pool of `size` default values, positioned at its start.
    pub fn new(size: usize) -> (r: ContextPool<T>)
        ensures
            r.pool@.len() == size,
            r.index == 0,
    {
        let mut pool: Vec<T> = Vec::new();
        let mut i: usize = 0;
        while i < size
            invariant
                i <= size,
                pool@.len() == i,
            decreases size - i,
        {
            pool.push(T::default());
            i = i + 1;
        }
        ContextPool { pool, index: 0 }
    }

    /// Hand out the value at the current position and advance the position by
    /// one, wrapping at the end of the pool.
    pub fn next(&mut self) -> (r: &mut T)
        requires
            old(self).pool@.len() > 0,
            old(self).index < old(self).pool@.len(),
        ensures
            *r == old(self).pool@[old(self).index as int],
            final(self).pool@ == old(self).pool@.update(old(self).index as int, *final(r)),
            final(self).index == (old(self).index + 1) as int % old(self).pool@.len() as int,
            final(self).index < final(self).pool@.len(),
    {
        let idx = self.index;
        let n = self.pool.len();
        self.index = (idx + 1) % n;
        &mut self.pool[idx]
    }
}

} // verus!
