use vstd::prelude::*;
use crate::base::memory;
use crate::base::memory::{BLOCK_SIZE, SECTOR_SIZE};
use crate::base::pos_event_id::PosEventId;

verus! {

/// The start of the block that holds byte address `addr`.
pub open spec fn block_floor(addr: int) -> int {
    addr - addr % (BLOCK_SIZE as int)
}

/// The end of the last block touched by a range ending at byte address `end`.
pub open spec fn block_ceil(end: int) -> int {
    if end % (BLOCK_SIZE as int) == 0 {
        end
    } else {
        end - end % (BLOCK_SIZE as int) + BLOCK_SIZE
    }
}

/// The byte range `[start, start + size)` can be widened to whole blocks within `u64`.
pub open spec fn alignment_fits(start: u64, size: u64) -> bool {
    block_ceil(start + size) <= u64::MAX
}

/// The values that describe how a byte range lies on block boundaries.
pub struct BlockAlignmentView {
    pub start_address: u64,
    pub head_size: u32,
    pub tail_size: u32,
    pub block_count: u32,
    pub head_position: u32,
}

/// What `BlockAlignment::new(start, size)` computes, field by field.
pub open spec fn spec_block_alignment(start: u64, size: u64) -> BlockAlignmentView {
    let head_position = (start as int) % (BLOCK_SIZE as int);
    let head_size = if head_position > 0 {
        if BLOCK_SIZE - head_position > size { size as int } else { BLOCK_SIZE - head_position }
    } else {
        0
    };
    let end = start + size;
    let aligned_start = block_floor(start as int);
    let aligned_end = block_ceil(end);
    BlockAlignmentView {
        start_address: aligned_start as u64,
        head_size: head_size as u32,
        tail_size: ((end as int) % (BLOCK_SIZE as int)) as u32,
        block_count: ((aligned_end - aligned_start) / (BLOCK_SIZE as int)) as u32,
        head_position: head_position as u32,
    }
}

/// How a range lies on blocks: the head is the part of the range before its first block
/// boundary (none when the range starts on a boundary or is empty), so it never holds more
/// bytes than the range; the aligned start is the boundary at or before the range's start; the
/// tail is the part of the last block the range reaches into; and the blocks counted cover
/// the range, with less than a block to spare at the end.
pub proof fn lemma_alignment_parts(start: u64, size: u64)
    requires
        start + size <= u64::MAX,
        alignment_fits(start, size),
    ensures
        ({
            let a = spec_block_alignment(start, size);
            &&& a.head_size <= size
            &&& a.head_position == start % BLOCK_SIZE
            &&& a.head_position + a.head_size <= BLOCK_SIZE
            &&& (a.head_size == 0 <==> (start % BLOCK_SIZE == 0 || size == 0))
            &&& a.head_size > 0 ==> (a.head_size == size || (start + a.head_size) % (BLOCK_SIZE as int) == 0)
            &&& a.start_address % BLOCK_SIZE == 0
            &&& a.start_address <= start < a.start_address + BLOCK_SIZE
            &&& a.tail_size == (start + size) % (BLOCK_SIZE as int)
            &&& size + 2 * BLOCK_SIZE <= u32::MAX * BLOCK_SIZE ==> {
                &&& a.start_address + a.block_count * BLOCK_SIZE >= start + size
                &&& a.start_address + a.block_count * BLOCK_SIZE < start + size + BLOCK_SIZE
            }
        }),
{
    let b = BLOCK_SIZE as int;
    let s = start as int;
    let e = s + size;
    let fl = block_floor(s);
    let ce = block_ceil(e);
    assert(s % b + (s / b) * b == s) by (nonlinear_arith) requires b > 0;
    assert(fl % b == 0) by {
        vstd::arithmetic::div_mod::lemma_mod_multiples_basic(s / b, b);
        assert(fl == (s / b) * b);
    }
    assert(e % b + (e / b) * b == e) by (nonlinear_arith) requires b > 0;
    if e % b != 0 {
        assert(ce == (e / b) * b + b);
    }
    assert(ce % b == 0) by {
        if e % b == 0 {
        } else {
            vstd::arithmetic::div_mod::lemma_mod_multiples_basic(e / b + 1, b);
            assert(ce == (e / b + 1) * b) by (nonlinear_arith) requires ce == (e / b) * b + b;
        }
    }
    let k = (ce - fl) / b;
    assert(k * b == ce - fl) by {
        vstd::arithmetic::div_mod::lemma_fundamental_div_mod(ce - fl, b);
        assert((ce - fl) % b == 0) by {
            vstd::arithmetic::div_mod::lemma_sub_mod_noop(ce, fl, b);
        }
    }
    let hp = s % b;
    if hp > 0 && size > 0 && !(b - hp > size) {
        assert((s + (b - hp)) % b == 0) by {
            assert(s + (b - hp) == (s / b) * b + b);
            vstd::arithmetic::div_mod::lemma_mod_multiples_basic(s / b + 1, b);
            assert((s / b) * b + b == (s / b + 1) * b) by (nonlinear_arith);
        }
    }
    if size + 2 * BLOCK_SIZE <= u32::MAX * BLOCK_SIZE {
        assert(ce - fl <= size + 2 * b);
        assert(k <= u32::MAX) by (nonlinear_arith)
            requires k * b == ce - fl, ce - fl <= size + 2 * b, size + 2 * b <= u32::MAX * b, b > 0;
        let a = spec_block_alignment(start, size);
        assert(a.block_count == k);
        assert(a.start_address + a.block_count * BLOCK_SIZE == ce);
    }
}

/// How a byte range `[start, start + size)` lies on block boundaries: the block-aligned start,
/// the partial head and tail, and the number of blocks it touches.
pub struct BlockAlignment {
    start_address: u64,
    head_size: u32,
    tail_size: u32,
    block_count: u32,
    head_position: u32,
}

impl View for BlockAlignment {
    type V = BlockAlignmentView;

    closed spec fn view(&self) -> BlockAlignmentView {
        BlockAlignmentView {
            start_address: self.start_address,
            head_size: self.head_size,
            tail_size: self.tail_size,
            block_count: self.block_count,
            head_position: self.head_position,
        }
    }
}

impl BlockAlignment {
    /// Describes the byte range that starts at `original_start_address` and is `size` bytes long.
    pub fn new(original_start_address: u64, size: u64) -> (r: BlockAlignment)
        requires
            original_start_address + size <= u64::MAX,
            alignment_fits(original_start_address, size),
        ensures
            r@ == spec_block_alignment(original_start_address, size),
            r@.head_size <= size,
            r@.head_position + r@.head_size <= BLOCK_SIZE,
            r@.head_size > 0 ==> (r@.head_size == size || (original_start_address + r@.head_size) % (BLOCK_SIZE as int) == 0),
    {
        proof {
            lemma_alignment_parts(original_start_address, size);
        }
        let mut start_address = original_start_address;
        let mut end_address = start_address + size;
        let head_position = memory::GetByteOffsetInBlock(start_address);
        let mut head_size: u64;
        if head_position > 0 {
            head_size = BLOCK_SIZE - head_position;
            if head_size > size {
                head_size = size;
            }
            start_address -= head_position;
        } else {
            head_size = 0;
        }

        let tail_size = memory::GetByteOffsetInBlock(end_address);
        if tail_size != 0 {
            end_address += BLOCK_SIZE - tail_size;
        }

        let block_count = memory::ChangeByteToBlock(end_address - start_address);
        BlockAlignment {
            start_address,
            head_size: head_size as u32,
            tail_size: tail_size as u32,
            block_count: block_count as u32,
            head_position: head_position as u32,
        }
    }

    /// The number of blocks the range touches.
    pub fn GetBlockCount(&self) -> (r: u32)
        ensures
            r == self@.block_count,
    {
        self.block_count
    }

    /// The sector at which the block-aligned range starts.
    pub fn GetHeadBlock(&self) -> (r: Result<u64, PosEventId>)
        ensures
            r == Ok::<u64, PosEventId>(self@.start_address / SECTOR_SIZE),
    {
        Ok(memory::ChangeByteToSector(self.start_address))
    }

    /// Whether the range starts inside a block.
    pub fn HasHead(&self) -> (r: bool)
        ensures
            r == (self@.head_size != 0),
    {
        self.head_size != 0
    }

    /// Whether the range ends inside a block.
    pub fn HasTail(&self) -> (r: bool)
        ensures
            r == (self@.tail_size != 0),
    {
        self.tail_size != 0
    }

    /// The number of bytes of the range in its last, partial block.
    pub fn GetTailSize(&self) -> (r: u32)
        ensures
            r == self@.tail_size,
    {
        self.tail_size
    }

    /// The number of bytes of the range in its first, partial block.
    pub fn GetHeadSize(&self) -> (r: u32)
        ensures
            r == self@.head_size,
    {
        self.head_size
    }

    /// The offset of the range's start inside its first block.
    pub fn GetHeadPosition(&self) -> (r: u32)
        ensures
            r == self@.head_position,
    {
        self.head_position
    }

    /// The head sector plus the block count, minus one.
    pub fn GetTailBlock(&self) -> (r: Result<u64, PosEventId>)
        requires
            self@.start_address / SECTOR_SIZE + self@.block_count >= 1,
        ensures
            r == Ok::<u64, PosEventId>(
                (self@.start_address / SECTOR_SIZE + self@.block_count - 1) as u64,
            ),
    {
        let head = match self.GetHeadBlock() {
            Ok(h) => h,
            Err(e) => {
                return Err(e);
            },
        };
        Ok(head + self.block_count as u64 - 1)
    }
}

} // verus!
