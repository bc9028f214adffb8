use vstd::prelude::*;

verus! {

/// The number of blocks in a chunk, the unit a stripe is striped in.
pub const BLOCKS_PER_CHUNK: u32 = 64;

} // verus!
