use vstd::prelude::*;
use crate::bio::volume_io::VolumeIo;
use crate::event_scheduler::callback::Callback;

verus! {

/// Merges the old data read for a partial write; nothing is merged yet.
pub struct ReadCompletionForPartialWrite;

impl ReadCompletionForPartialWrite {
    /// The merge of `alignment_size` bytes at `alignment_offset` for `volume_io`.
    pub fn new(volume_io: &VolumeIo, alignment_size: u32, alignment_offset: u32) -> (r: ReadCompletionForPartialWrite) {
        ReadCompletionForPartialWrite
    }

    /// This merge as a callback.
    pub fn to_callback(self) -> (r: Callback)
        ensures
            r == Callback::PartialWriteRead(self),
    {
        Callback::PartialWriteRead(self)
    }
}

} // verus!
