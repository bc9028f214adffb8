use vstd::prelude::*;
use crate::base::address_type::{StripeId, VirtualBlks};

verus! {

/// The block allocator of an array, as the I/O path sees it: it locks a volume against
/// changes to its write buffer, hands out write buffer blocks, and unlocks the volume. Nothing
/// is promised of what it answers; its users check the answers.
pub trait IBlockAllocator {
    /// Tries to lock volume `volume_id` for reading; whether it got the lock.
    fn TryRdLock(&self, volume_id: u32) -> bool;

    /// Up to `num_blks` write buffer blocks for volume `volume_id`, with their stripe; a range
    /// starting at the unmapped address when none is left.
    fn AllocateWriteBufferBlks(&self, volume_id: u32, num_blks: u32) -> (VirtualBlks, StripeId);

    /// Unlocks volume `volume_id`; whether it was locked.
    fn Unlock(&self, volume_id: u32) -> bool;
}

} // verus!
