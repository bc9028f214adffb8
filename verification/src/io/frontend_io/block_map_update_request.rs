use vstd::prelude::*;
use crate::bio::volume_io::VolumeIo;
use crate::event_scheduler::callback::Callback;

verus! {

/// Updates the block map when a write is done; nothing is updated yet.
pub struct BlockMapUpdateRequest {}

impl BlockMapUpdateRequest {
    /// The update for `volume_io`.
    pub fn new(volume_io: &VolumeIo) -> (r: BlockMapUpdateRequest) {
        BlockMapUpdateRequest {}
    }

    /// This update as a callback.
    pub fn to_callback(self) -> (r: Callback)
        ensures
            r == Callback::BlockMapUpdate(self),
    {
        Callback::BlockMapUpdate(self)
    }
}

} // verus!
