use vstd::prelude::*;
use crate::bio::volume_io::VolumeIo;

verus! {

/// Carries a read out.
pub struct ReadSubmission {
    volume_io: VolumeIo,
}

impl ReadSubmission {
    /// The sector the read starts at.
    pub closed spec fn io_sector_rba(&self) -> Option<u64> {
        self.volume_io.sector_rba
    }

    /// The buffer of the read.
    pub closed spec fn io_buffer(&self) -> Seq<u8> {
        self.volume_io.buffer@
    }

    /// The submission of read `volume_io`.
    pub fn new(volume_io: VolumeIo) -> (r: ReadSubmission)
        ensures
            r.io_sector_rba() == volume_io.sector_rba,
            r.io_buffer() == volume_io.buffer@,
    {
        ReadSubmission { volume_io }
    }

    /// Runs the read; nothing is read yet, so it is done at once.
    pub fn Execute(&mut self) -> (r: bool)
        ensures
            r,
    {
        true
    }
}

} // verus!
