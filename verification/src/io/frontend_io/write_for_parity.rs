use vstd::prelude::*;
use crate::bio::volume_io::VolumeIo;

verus! {

/// Copies written data for parity; nothing is copied yet.
pub struct WriteForParity;

impl WriteForParity {
    /// The copy of `volume_io`'s data.
    pub fn new(volume_io: &VolumeIo, is_frontend: bool) -> (r: WriteForParity) {
        WriteForParity
    }
}

} // verus!
