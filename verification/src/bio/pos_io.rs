use vstd::prelude::*;

verus! {

/// The request type of a read.
pub const IO_TYPE_READ: i32 = 0;

/// The request type of a write.
pub const IO_TYPE_WRITE: i32 = 1;

/// The request type of a flush.
pub const IO_TYPE_FLUSH: i32 = 2;

/// The request type of an admin command; the types above it are admin commands too.
pub const IO_TYPE_ADMIN: i32 = 3;

/// A request from the block device layer, as the library reads it: its type, the array and
/// volume it is for, its buffer count, and its byte offset and length.
#[derive(PartialEq, Eq, Structural, Debug, Clone, Copy)]
pub struct pos_io {
    pub ioType: i32,
    pub array_id: u32,
    pub volume_id: u32,
    pub iovcnt: i32,
    pub offset: u64,
    pub length: u64,
}

} // verus!
