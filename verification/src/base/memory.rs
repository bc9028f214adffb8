use vstd::prelude::*;

verus! {

/// Number of bytes in one sector.
pub const SECTOR_SIZE: u64 = 512;

/// Number of bytes in one block.
pub const BLOCK_SIZE: u64 = 4096;

/// Number of sectors in one block.
pub const SECTORS_PER_BLOCK: u64 = 8;

/// The number of whole sectors in `bytes` bytes.
pub fn ChangeByteToSector(bytes: u64) -> (r: u64)
    ensures
        r == bytes / SECTOR_SIZE,
{
    bytes / SECTOR_SIZE
}

/// The number of whole blocks in `bytes` bytes.
pub fn ChangeByteToBlock(bytes: u64) -> (r: u64)
    ensures
        r == bytes / BLOCK_SIZE,
{
    bytes / BLOCK_SIZE
}

/// The byte address at which sector `sector` starts.
pub fn ChangeSectorToByte(sector: u64) -> (r: u64)
    requires
        sector * SECTOR_SIZE <= u64::MAX,
    ensures
        r == sector * SECTOR_SIZE,
{
    sector * SECTOR_SIZE
}

/// The first sector of block `block`.
pub fn ChangeBlockToSector(block: u64) -> (r: u64)
    requires
        block * SECTORS_PER_BLOCK <= u64::MAX,
    ensures
        r == block * SECTORS_PER_BLOCK,
{
    block * SECTORS_PER_BLOCK
}

/// The offset of byte address `bytes` inside the block that holds it.
pub fn GetByteOffsetInBlock(bytes: u64) -> (r: u64)
    ensures
        r == bytes % BLOCK_SIZE,
        r < BLOCK_SIZE,
{
    bytes % BLOCK_SIZE
}

/// The quotient of `value` by `divider`, rounded up.
pub open spec fn divide_up(value: int, divider: int) -> int {
    (value + divider - 1) / divider
}

/// Divides `value` by `divider`, rounding up.
pub fn DivideUp(value: u64, divider: u64) -> (r: u64)
    requires
        divider > 0,
        value + divider - 1 <= u64::MAX,
    ensures
        r == divide_up(value as int, divider as int),
{
    (value + (divider - 1)) / divider
}

/// Rounds `value` up to the next multiple of `align`.
pub fn Align(value: u64, align: u64) -> (r: u64)
    requires
        align > 0,
        value + align <= u64::MAX,
        divide_up(value as int, align as int) * align <= u64::MAX,
    ensures
        r == divide_up(value as int, align as int) * align,
{
    DivideUp(value, align) * align
}

} // verus!
