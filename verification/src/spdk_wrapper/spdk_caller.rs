use vstd::prelude::*;

verus! {

/// Calls into the block device layer of the storage framework.
pub struct SpdkCaller;

impl SpdkCaller {
    /// A caller.
    pub fn new() -> (r: SpdkCaller) {
        SpdkCaller
    }
}

} // verus!
