pub mod block_alignment;
pub mod bitmap;
