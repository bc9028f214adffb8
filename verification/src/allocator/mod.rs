pub mod i_block_allocator;
