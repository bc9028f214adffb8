use vstd::prelude::*;
use crate::io::frontend_io::aio::AioCompletion;
use crate::io::frontend_io::block_map_update_request::BlockMapUpdateRequest;
use crate::io::frontend_io::read_completion_for_partial_write::ReadCompletionForPartialWrite;

verus! {

/// What runs when an I/O is done.
pub enum Callback {
    Aio(AioCompletion),
    BlockMapUpdate(BlockMapUpdateRequest),
    PartialWriteRead(ReadCompletionForPartialWrite),
}

} // verus!
