use vstd::prelude::*;

verus! {

/// What a pool of buffers is asked for: who owns it, the size of a buffer and how many.
pub struct BufferInfo {
    pub owner: String,
    pub size: u64,
    pub count: u64,
}

/// A pool of buffers.
pub struct BufferPool {
    pub info: BufferInfo,
}

/// Hands out pools of buffers.
pub struct MemoryManager {}

impl MemoryManager {
    /// A pool for `info` on NUMA node `socket`; no pool can be made yet, so `None`.
    pub fn CreateBufferPool(&self, info: &mut BufferInfo, socket: Option<u32>) -> (r: Option<BufferPool>)
        ensures
            r is None,
            final(info).owner@ == old(info).owner@,
            final(info).size == old(info).size,
            final(info).count == old(info).count,
    {
        None
    }
}

} // verus!
