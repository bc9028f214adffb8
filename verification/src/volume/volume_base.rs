use vstd::prelude::*;

verus! {

/// The most volumes an array holds.
pub const MAX_VOLUME_COUNT: usize = 256;

} // verus!

verus! {

/// The kinds of volume I/O, for counting pending I/Os.
#[derive(PartialEq, Eq, Structural, Debug, Clone, Copy)]
pub enum VolumeIoType {
    UserRead,
    UserWrite,
    InternalIo,
    MaxVolumeIoTypeCnt,
}

} // verus!
