use vstd::prelude::*;
use crate::base::pos_event_id::PosEventId;

verus! {

/// Grants ownership of block ranges of volumes to the I/Os that write them; every request is
/// granted, as no range is tracked yet.
pub struct RBAStateManager {}

impl RBAStateManager {
    /// A manager.
    pub fn new() -> (r: RBAStateManager) {
        RBAStateManager {}
    }

    /// Takes ownership of a list of ranges.
    pub fn AcquireOwnershipRbaList(&self) {
    }

    /// Gives up ownership of a list of ranges.
    pub fn ReleaseOwnershipRbaList(&self) {
    }

    /// Takes ownership of `i` blocks from `start_rba` of volume `volume_id`: granted.
    pub fn BulkAcquireOwnership(&self, volume_id: u32, start_rba: u64, i: u32) -> (r: Result<bool, PosEventId>)
        ensures
            r == Ok::<bool, PosEventId>(true),
    {
        Ok(true)
    }

    /// Gives up ownership of `i` blocks from `start_rba` of volume `volume_id`.
    pub fn BulkReleaseOwnership(&self, volume_id: u32, start_rba: u64, i: u32) -> (r: Result<(), PosEventId>)
        ensures
            r is Ok,
    {
        Ok(())
    }
}

} // verus!
