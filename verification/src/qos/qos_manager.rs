use vstd::prelude::*;
use crate::bio::volume_io::VolumeIo;

verus! {

/// Quality of service; switched off, nothing is throttled yet.
pub struct QosManager;

impl QosManager {
    /// Sets up quality of service; nothing to set up yet.
    pub fn Initialize(&self) {
    }

    /// Sets up the storage framework's part; nothing to set up yet.
    pub fn InitializeSpdkManager(&self) {
    }

    /// Whether quality of service applies to front-end I/O: it does not.
    pub fn IsFeQosEnabled(&self) -> (r: bool)
        ensures
            !r,
    {
        false
    }

    /// Takes a front-end I/O to throttle; none is throttled yet.
    pub fn HandlePosIoSubmission(&self, volumeIo: VolumeIo) {
    }

    /// Counts one more stripe used by array `array_id`; nothing is counted yet.
    pub fn IncreaseUsedStripeCnt(&self, array_id: u32) {
    }
}

} // verus!
