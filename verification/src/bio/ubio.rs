use vstd::prelude::*;

verus! {

/// The most blocks one request is split into for address translation.
pub const MAX_PROCESSABLE_BLOCK_COUNT: u32 = 32;

/// The number of sectors in a block.
pub const UNITS_PER_BLOCK: u32 = 8;

/// Which way a disk I/O goes.
#[derive(PartialEq, Eq, Structural, Debug, Clone, Copy)]
pub enum UbioDir {
    Read,
    Write,
}

/// A unit of block I/O: its direction, the array and the block address it goes to, and its
/// buffer.
pub struct Ubio {
    pub dir: UbioDir,
    pub arrayId: i32,
    pub lba: u64,
    pub dataBuffer: Vec<u8>,
}

} // verus!
