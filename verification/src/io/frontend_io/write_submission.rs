use vstd::prelude::*;
use crate::base::address_type::{StripeAddr, StripeId, StripeLoc, VirtualBlkAddr, VirtualBlks, IsUnMapVsa, is_unmap_vsa};
use crate::base::pos_event_id::PosEventId;
use crate::base::array_config::BLOCKS_PER_CHUNK;
use crate::base::memory::{ChangeSectorToByte, ChangeByteToSector, ChangeBlockToSector, SECTOR_SIZE, SECTORS_PER_BLOCK, BLOCK_SIZE};
use crate::bio::ubio::{UbioDir, UNITS_PER_BLOCK};
use crate::bio::volume_io::{VolumeIo, split_fits, split_fits_now};
use crate::event_scheduler::callback::Callback;
use crate::io::frontend_io::block_map_update_request::BlockMapUpdateRequest;
use crate::io::frontend_io::read_completion_for_partial_write::ReadCompletionForPartialWrite;
use crate::io::general_io::translator::Translator;
use crate::io::general_io::rba_state_manager::RBAStateManager;
use crate::allocator::i_block_allocator::IBlockAllocator;
use crate::util::block_alignment::{BlockAlignment, BlockAlignmentView, alignment_fits, spec_block_alignment};

verus! {

/// Whether a write submission can be made of `v`: it has a start sector, and the byte range
/// it covers, widened to whole blocks, fits in 64 bits.
pub open spec fn write_submission_fits(v: VolumeIo) -> bool {
    &&& v.sector_rba is Some
    &&& v.sector_rba->0 * SECTOR_SIZE + v.buffer@.len() <= u64::MAX
    &&& alignment_fits((v.sector_rba->0 * SECTOR_SIZE) as u64, v.buffer@.len() as u64)
}

/// Tells whether a write submission can be made of `v`, when it is a write.
pub fn write_submission_fits_now(v: &VolumeIo) -> (r: bool)
    ensures
        r == (v.dir == UbioDir::Write ==> write_submission_fits(*v)),
{
    match v.dir {
        UbioDir::Read => {
            return true;
        },
        UbioDir::Write => {},
    }
    match v.sector_rba {
        None => false,
        Some(rba) => {
            if rba > u64::MAX / SECTOR_SIZE {
                return false;
            }
            let start = rba * SECTOR_SIZE;
            let len = v.buffer.len() as u64;
            if start > u64::MAX - len {
                return false;
            }
            let end = start + len;
            let rem = end % BLOCK_SIZE;
            rem == 0 || end - rem <= u64::MAX - BLOCK_SIZE
        },
    }
}

/// The blocks from `start` on that fit before the end of its chunk, at most `n`.
pub open spec fn chunk_piece(start: VirtualBlkAddr, n: u32) -> u32 {
    let room = (BLOCKS_PER_CHUNK - start.offset as int % (BLOCKS_PER_CHUNK as int)) as u32;
    if room > n { n } else { room }
}

/// The `n` blocks from `start` cut at chunk boundaries, each piece tagged with `stripe`.
pub open spec fn chunk_split(start: VirtualBlkAddr, n: u32, stripe: StripeId) -> Seq<(VirtualBlks, StripeId)>
    decreases n,
{
    if n == 0 {
        Seq::empty()
    } else {
        let k = chunk_piece(start, n);
        if k == 0 {
            Seq::empty()
        } else {
            seq![(VirtualBlks { start_vsa: start, num_blks: k }, stripe)] + chunk_split(
                VirtualBlkAddr { stripe_id: start.stripe_id, offset: (start.offset + k) as u64 },
                (n - k) as u32,
                stripe,
            )
        }
    }
}

/// The number of blocks the pieces in `s` hold together.
pub open spec fn total_blks(s: Seq<(VirtualBlks, StripeId)>) -> nat
    decreases s.len(),
{
    if s.len() == 0 {
        0
    } else {
        (s[0].0.num_blks + total_blks(s.drop_first())) as nat
    }
}

/// Cutting `n` blocks at chunk boundaries keeps every block: the pieces are contiguous and
/// hold `n` blocks together, and no piece is empty or crosses the end of a chunk.
pub proof fn lemma_chunk_split(start: VirtualBlkAddr, n: u32, stripe: StripeId)
    requires
        start.offset + n <= u64::MAX,
    ensures
        total_blks(chunk_split(start, n, stripe)) == n,
        forall|i: int| 0 <= i < chunk_split(start, n, stripe).len() ==> {
            let p = #[trigger] chunk_split(start, n, stripe)[i].0;
            &&& p.num_blks > 0
            &&& p.start_vsa.offset as int % (BLOCKS_PER_CHUNK as int) + p.num_blks <= BLOCKS_PER_CHUNK
            &&& p.start_vsa.stripe_id == start.stripe_id
            &&& p.start_vsa.offset + p.num_blks <= start.offset + n
            &&& chunk_split(start, n, stripe)[i].1 == stripe
        },
        chunk_split(start, n, stripe).len() > 0 ==> chunk_split(start, n, stripe)[0].0.start_vsa == start,
    decreases n,
{
    if n > 0 {
        let k = chunk_piece(start, n);
        let next = VirtualBlkAddr { stripe_id: start.stripe_id, offset: (start.offset + k) as u64 };
        lemma_chunk_split(next, (n - k) as u32, stripe);
        let s = chunk_split(start, n, stripe);
        assert(s.drop_first() =~= chunk_split(next, (n - k) as u32, stripe));
    }
}

/// The blocks of `a + b` are those of `a` and those of `b`.
proof fn lemma_total_blks_concat(a: Seq<(VirtualBlks, StripeId)>, b: Seq<(VirtualBlks, StripeId)>)
    ensures
        total_blks(a + b) == total_blks(a) + total_blks(b),
    decreases a.len(),
{
    if a.len() > 0 {
        lemma_total_blks_concat(a.drop_first(), b);
        assert((a + b).drop_first() =~= a.drop_first() + b);
    }
}

/// A write buffer piece: it holds blocks, has addresses for all of them and does not cross
/// the end of a chunk.
pub open spec fn good_piece(p: (VirtualBlks, StripeId)) -> bool {
    &&& p.0.num_blks > 0
    &&& p.0.start_vsa.offset + p.0.num_blks <= u64::MAX
    &&& p.0.start_vsa.offset as int % (BLOCKS_PER_CHUNK as int) + p.0.num_blks <= BLOCKS_PER_CHUNK
}

/// Whether write `w` can take `vb` as a reply to its request for write buffer blocks: a range
/// at the unmapped address, or a non-empty range of no more blocks than `w` misses, with an
/// address for each of them.
pub open spec fn reply_usable(w: WriteSubmission, vb: VirtualBlks) -> bool {
    ||| is_unmap_vsa(vb.start_vsa)
    ||| {
        &&& vb.num_blks > 0
        &&& w.allocated() + vb.num_blks <= w.blocks()
        &&& vb.start_vsa.offset + vb.num_blks <= u64::MAX
    }
}

/// `w1` is `w0` with write buffer pieces appended: the ranges of `w0` come first, the new
/// pieces are good ones and are counted as allocated, at most as many blocks as the write
/// touches are allocated, and nothing else changes.
pub open spec fn buffer_added(w0: WriteSubmission, w1: WriteSubmission) -> bool {
    let n0 = w0.ranges().len() as int;
    let added = w1.ranges().subrange(n0, w1.ranges().len() as int);
    &&& w1.ranges().len() >= n0
    &&& w1.ranges().subrange(0, n0) == w0.ranges()
    &&& w1.allocated() == w0.allocated() + total_blks(added)
    &&& w1.allocated() <= w1.blocks()
    &&& forall|i: int| 0 <= i < added.len() ==> good_piece(#[trigger] added[i])
    &&& w1.blocks() == w0.blocks()
    &&& w1.processed() == w0.processed()
    &&& w1.alignment() == w0.alignment()
    &&& w1.io() == w0.io()
    &&& w1.queue() == w0.queue()
}

/// The first allocated range can give up its head block: there is one, it has a block, and the
/// block after its start has an address.
pub open spec fn head_pop_ok(rs: Seq<(VirtualBlks, StripeId)>) -> bool {
    &&& rs.len() > 0
    &&& rs[0].0.num_blks > 0
    &&& rs[0].0.start_vsa.offset < u64::MAX
}

/// The address handed out for the head block: the block after the start of the first range.
pub open spec fn head_vsa(rs: Seq<(VirtualBlks, StripeId)>) -> (VirtualBlkAddr, StripeId) {
    (VirtualBlkAddr { stripe_id: rs[0].0.start_vsa.stripe_id, offset: (rs[0].0.start_vsa.offset + 1) as u64 }, rs[0].1)
}

/// The ranges after the head block is handed out: the first range counts one block less, and
/// when it counts none the last range is dropped.
pub open spec fn popped_head(rs: Seq<(VirtualBlks, StripeId)>) -> Seq<(VirtualBlks, StripeId)> {
    let first = rs[0];
    let shrunk = rs.update(0, (VirtualBlks { start_vsa: first.0.start_vsa, num_blks: (first.0.num_blks - 1) as u32 }, first.1));
    if first.0.num_blks == 1 {
        shrunk.drop_last()
    } else {
        shrunk
    }
}

/// The last allocated range can give up its tail block: there is one, it has a block, and its
/// last block has an address.
pub open spec fn tail_pop_ok(rs: Seq<(VirtualBlks, StripeId)>) -> bool {
    &&& rs.len() > 0
    &&& rs.last().0.num_blks > 0
    &&& rs.last().0.start_vsa.offset + rs.last().0.num_blks - 1 <= u64::MAX
}

/// The address handed out for the tail block: the last block of the last range.
pub open spec fn tail_vsa(rs: Seq<(VirtualBlks, StripeId)>) -> (VirtualBlkAddr, StripeId) {
    let last = rs.last();
    (VirtualBlkAddr { stripe_id: last.0.start_vsa.stripe_id, offset: (last.0.start_vsa.offset + last.0.num_blks - 1) as u64 }, last.1)
}

/// The ranges after the tail block is handed out: the last range is dropped when it held a
/// single block, and kept as it is otherwise.
pub open spec fn popped_tail(rs: Seq<(VirtualBlks, StripeId)>) -> Seq<(VirtualBlks, StripeId)> {
    if rs.last().0.num_blks == 1 {
        rs.drop_last()
    } else {
        rs
    }
}

/// A read of the old data of a block that a write covers only in part: the block (as a
/// sector address), where its old data lives, whether it is the write's last block, and the
/// size and offset of the part that the read supplies.
#[derive(PartialEq, Eq, Structural, Debug, Clone, Copy)]
pub struct OldBlockRead {
    pub rba: u64,
    pub vsa: VirtualBlkAddr,
    pub user_lsid: StripeId,
    pub is_tail: bool,
    pub alignment_size: u32,
    pub alignment_offset: u32,
}

/// Whether the partial head and tail blocks of `w` can be read: the ranges can give up the
/// blocks the reads take, and the block counts and addresses fit their integers.
pub open spec fn prepare_fits(w: WriteSubmission) -> bool {
    let a = w.alignment();
    let rs1 = if a.head_size != 0 { popped_head(w.ranges()) } else { w.ranges() };
    let p1 = if a.head_size != 0 { w.processed() + 1 } else { w.processed() as int };
    let hs: u64 = if a.head_size != 0 { (a.head_size as u64) / SECTOR_SIZE } else { 0 };
    let ts: u64 = (a.tail_size as u64) / SECTOR_SIZE;
    &&& a.head_size != 0 ==> {
        &&& head_pop_ok(w.ranges())
        &&& w.processed() < u32::MAX
        &&& split_fits(w.io(), hs)
        &&& w.io().vol_id is Some
    }
    &&& a.tail_size != 0 && p1 != w.blocks() ==> {
        &&& tail_pop_ok(rs1)
        &&& p1 < u32::MAX
        &&& a.start_address / SECTOR_SIZE + a.block_count >= 1
        &&& split_fits(w.io(), (hs + ts) as u64)
        &&& w.io().vol_id is Some
    }
}

/// `n` is the read of the old data of the block that `d` describes, made for a write of volume
/// `vol_id` of array `array_id`: one block read at the block's first sector (its address taken
/// as a block number), with no buffer yet, the block's write buffer address and stripe, the
/// old stripe entry that translation gives (every block reads as unmapped in the user area's
/// first stripe, at no device address yet), merged by a partial-write completion; its origin is
/// the part of the write split off for the block, which carries the block's address and
/// updates the block map when done.
pub open spec fn old_block_read_io(n: VolumeIo, d: OldBlockRead, vol_id: Option<u32>, array_id: u32) -> bool {
    &&& n.array_id == array_id
    &&& n.vol_id == vol_id
    &&& n.sector_rba == Some((d.rba * SECTORS_PER_BLOCK) as u64)
    &&& n.sector_size == UNITS_PER_BLOCK as u64
    &&& n.dir == UbioDir::Read
    &&& n.buffer@.len() == 0
    &&& n.vsa == Some(d.vsa)
    &&& n.stripe_id == Some(d.user_lsid as u64)
    &&& n.lsid_entry is None
    &&& n.old_lsid_entry == Some(StripeAddr { stripe_loc: StripeLoc::IN_USER_AREA, stripe_id: 0 })
    &&& n.callback matches Some(Callback::PartialWriteRead(_))
    &&& n.lba == 0
    &&& n.array_dev is None
    &&& n.origin matches Some(o) && {
        &&& o.vsa == Some(d.vsa)
        &&& o.sector_size == (d.alignment_size as u64) / SECTOR_SIZE
        &&& o.vol_id == vol_id
        &&& o.callback matches Some(Callback::BlockMapUpdate(_))
    }
}

/// `io1` is `io0` with `k` sectors, and their bytes, split off its end (`from_tail`) or off its
/// start.
pub open spec fn split_off(io0: VolumeIo, io1: VolumeIo, k: u64, from_tail: bool) -> bool {
    let cut = (k * SECTOR_SIZE) as int;
    let b = io0.buffer@;
    &&& io1.sector_size == io0.sector_size - k
    &&& io1.sector_rba == Some(if from_tail { io0.sector_rba->0 } else { (io0.sector_rba->0 + k) as u64 })
    &&& io1.buffer@ == if from_tail { b.subrange(0, b.len() - cut) } else { b.subrange(cut, b.len() as int) }
    &&& io1.vol_id == io0.vol_id
    &&& io1.array_id == io0.array_id
    &&& io1.dir == io0.dir
}

/// The split I/Os of `w1` are those of `w0` followed by the reads that `reads` describe.
pub open spec fn reads_queued(w0: WriteSubmission, w1: WriteSubmission, reads: Seq<OldBlockRead>) -> bool {
    &&& w1.queue().len() == w0.queue().len() + reads.len()
    &&& w1.queue().subrange(0, w0.queue().len() as int) == w0.queue()
    &&& forall|k: int| 0 <= k < reads.len() ==> old_block_read_io(
        #[trigger] w1.queue()[w0.queue().len() + k],
        reads[k],
        w0.io().vol_id,
        w0.io().array_id,
    )
}

/// The reads `_PrepareBlockAlignment` makes for `w`, and the ranges and processed count it
/// leaves: the head block's, when the write starts inside a block, then the tail block's, when
/// it ends inside one and blocks are left to process.
pub open spec fn prepared(w: WriteSubmission) -> (Seq<OldBlockRead>, Seq<(VirtualBlks, StripeId)>, int) {
    let a = w.alignment();
    let head = if a.head_size != 0 {
        let (vsa, lsid) = head_vsa(w.ranges());
        seq![OldBlockRead {
            rba: a.start_address / SECTOR_SIZE,
            vsa,
            user_lsid: lsid,
            is_tail: false,
            alignment_size: a.head_size,
            alignment_offset: a.head_position,
        }]
    } else {
        Seq::empty()
    };
    let rs1 = if a.head_size != 0 { popped_head(w.ranges()) } else { w.ranges() };
    let p1 = if a.head_size != 0 { w.processed() + 1 } else { w.processed() as int };
    if a.tail_size != 0 && p1 != w.blocks() {
        let (vsa, lsid) = tail_vsa(rs1);
        (
            head.push(OldBlockRead {
                rba: (a.start_address / SECTOR_SIZE + a.block_count - 1) as u64,
                vsa,
                user_lsid: lsid,
                is_tail: true,
                alignment_size: a.tail_size,
                alignment_offset: 0,
            }),
            popped_tail(rs1),
            p1 + 1,
        )
    } else {
        (head, rs1, p1)
    }
}

/// Reads queued one after the other are queued together, when the write keeps its volume and
/// array in between.
proof fn lemma_reads_queued_chain(w0: WriteSubmission, w1: WriteSubmission, w2: WriteSubmission, a: Seq<OldBlockRead>, b: Seq<OldBlockRead>)
    requires
        reads_queued(w0, w1, a),
        reads_queued(w1, w2, b),
        w1.io().vol_id == w0.io().vol_id,
        w1.io().array_id == w0.io().array_id,
    ensures
        reads_queued(w0, w2, a + b),
{
    let n0 = w0.queue().len() as int;
    let n1 = w1.queue().len() as int;
    assert(w2.queue().subrange(0, n0) =~= w0.queue()) by {
        assert forall|i: int| 0 <= i < n0 implies w2.queue()[i] == w0.queue()[i] by {
            assert(w2.queue().subrange(0, n1)[i] == w2.queue()[i]);
            assert(w1.queue().subrange(0, n0)[i] == w1.queue()[i]);
        }
    }
    assert(w2.queue().len() == w0.queue().len() + (a + b).len());
    assert forall|k: int| 0 <= k < (a + b).len() implies old_block_read_io(
        #[trigger] w2.queue()[n0 + k],
        (a + b)[k],
        w0.io().vol_id,
        w0.io().array_id,
    ) by {
        if k < a.len() {
            assert(w2.queue().subrange(0, n1)[n0 + k] == w2.queue()[n0 + k]);
            assert(w1.queue()[n0 + k] == w2.queue()[n0 + k]);
            assert(old_block_read_io(w1.queue()[n0 + k], a[k], w0.io().vol_id, w0.io().array_id));
        } else {
            assert(old_block_read_io(w2.queue()[n1 + (k - a.len())], b[k - a.len()], w1.io().vol_id, w1.io().array_id));
        }
    }
}

/// Whether `w` can be planned once its blocks are owned: when every block has a write buffer
/// block, its partial blocks can be read, and a single-block write has its range left.
pub open spec fn owned_write_fits(w: WriteSubmission) -> bool {
    &&& w.blocks() <= w.allocated() ==> prepare_fits(w)
    &&& w.blocks() <= w.allocated() && prepared(w).2 == 0 && w.allocated() == 1 ==> prepared(w).1.len() > 0
}

/// `w1` and `plan` are what planning the owned write `w0` gives: wait, changing nothing, while
/// not every block has a write buffer block; else the partial blocks' reads are made and
/// queued, and the plan writes one block at once when nothing was processed and a single
/// block was allocated, or every allocated range in turn.
pub open spec fn owned_write_processed(w0: WriteSubmission, w1: WriteSubmission, plan: WritePlan) -> bool {
    &&& w0.blocks() > w0.allocated() ==> plan is Wait && w1 == w0
    &&& w0.blocks() <= w0.allocated() ==> {
        &&& reads_queued(w0, w1, prepared(w0).0)
        &&& w1.ranges() == prepared(w0).1
        &&& w1.processed() == prepared(w0).2
        &&& if prepared(w0).2 == 0 && w0.allocated() == 1 {
            plan matches WritePlan::SingleBlock { reads, range } && reads@ == prepared(w0).0
                && range == prepared(w0).1[0]
        } else {
            plan matches WritePlan::MultipleBlocks { reads, ranges } && reads@ == prepared(w0).0
                && ranges@ == prepared(w0).1
        }
    }
    &&& w1.blocks() == w0.blocks()
    &&& w1.allocated() == w0.allocated()
    &&& w1.alignment() == w0.alignment()
}

/// `w1` and `plan` are what running the owned write `w0` gives: write buffer blocks are
/// allocated for it (`w0` becomes some `mid`, see `buffer_added`); then `mid` is planned when it
/// can be, and is left as it is, stuck, when it cannot.
pub open spec fn owned_write_run(w0: WriteSubmission, w1: WriteSubmission, plan: WritePlan) -> bool {
    exists|mid: WriteSubmission| {
        &&& #[trigger] buffer_added(w0, mid)
        &&& if owned_write_fits(mid) {
            owned_write_processed(mid, w1, plan)
        } else {
            plan is Stuck && w1 == mid
        }
    }
}

/// What a write does when its event runs, given the flow-control tokens it got.
pub enum ExecuteStep {
    /// No token was granted: the write runs again later.
    NoToken,
    /// The blocks' ownership was refused: the write gives its `tokens` back and runs again
    /// later.
    ReturnTokens(i32),
    /// The blocks are owned and the write is planned; a plan to wait means the ownership was
    /// given up again.
    Planned(WritePlan),
}

/// What a write does once it owns its blocks.
pub enum WritePlan {
    /// Not every block has a write buffer block yet: try again later.
    Wait,
    /// Issue `reads` for the partial blocks, then write the single block to `range`.
    SingleBlock { reads: Vec<OldBlockRead>, range: (VirtualBlks, StripeId) },
    /// Issue `reads` for the partial blocks, then write each of `ranges`.
    MultipleBlocks { reads: Vec<OldBlockRead>, ranges: Vec<(VirtualBlks, StripeId)> },
    /// The partial blocks cannot be read with the write buffer blocks allocated (a range to
    /// take a block from is missing or empty, or the write cannot be split for them): the write
    /// goes no further.
    Stuck,
}

/// A write of a volume: its block range, the write buffer blocks allocated for it, and the
/// split I/Os made of it.
pub struct WriteSubmission {
    volume_io: VolumeIo,
    block_alignment: BlockAlignment,
    block_count: u32,
    allocated_block_count: u32,
    allocated_virtual_blks: Vec<(VirtualBlks, StripeId)>,
    processed_block_count: u32,
    split_volume_io_queue: Vec<VolumeIo>,
}

impl WriteSubmission {
    /// The sector the write starts at.
    pub closed spec fn io_sector_rba(&self) -> Option<u64> {
        self.volume_io.sector_rba
    }

    /// The data written.
    pub closed spec fn io_buffer(&self) -> Seq<u8> {
        self.volume_io.buffer@
    }

    /// How the write lies on block boundaries.
    pub closed spec fn alignment(&self) -> BlockAlignmentView {
        self.block_alignment@
    }

    /// The number of blocks the write touches.
    pub closed spec fn blocks(&self) -> u32 {
        self.block_count
    }

    /// The number of write buffer blocks allocated for it.
    pub closed spec fn allocated(&self) -> u32 {
        self.allocated_block_count
    }

    /// The write buffer ranges allocated for it, with their stripes.
    pub closed spec fn ranges(&self) -> Seq<(VirtualBlks, StripeId)> {
        self.allocated_virtual_blks@
    }

    /// The number of blocks already processed.
    pub closed spec fn processed(&self) -> u32 {
        self.processed_block_count
    }

    /// The write as it stands, less the parts split off it.
    pub closed spec fn io(&self) -> VolumeIo {
        self.volume_io
    }

    /// The I/Os split off the write, in the order they were made.
    pub closed spec fn queue(&self) -> Seq<VolumeIo> {
        self.split_volume_io_queue@
    }

    /// The submission of write `volume_io`: the blocks its bytes touch, nothing allocated or
    /// processed yet.
    pub fn new(volume_io: VolumeIo) -> (r: WriteSubmission)
        requires
            write_submission_fits(volume_io),
        ensures
            r.io_sector_rba() == volume_io.sector_rba,
            r.io_buffer() == volume_io.buffer@,
            r.alignment() == spec_block_alignment((volume_io.sector_rba->0 * SECTOR_SIZE) as u64, volume_io.buffer@.len() as u64),
            r.blocks() == r.alignment().block_count,
            r.allocated() == 0,
            r.processed() == 0,
            r.ranges() == Seq::<(VirtualBlks, StripeId)>::empty(),
            r.io() == volume_io,
            r.queue() == Seq::<VolumeIo>::empty(),
    {
        let io_size = volume_io.buffer.len() as u64;
        let sector_rba = volume_io.sector_rba.unwrap();
        let block_alignment = BlockAlignment::new(ChangeSectorToByte(sector_rba), io_size);
        let block_count = block_alignment.GetBlockCount();
        WriteSubmission {
            volume_io,
            block_alignment,
            block_count,
            allocated_block_count: 0,
            allocated_virtual_blks: Vec::new(),
            processed_block_count: 0,
            split_volume_io_queue: Vec::new(),
        }
    }

    /// Takes the write buffer range `virtual_blks` of stripe `stripe_id` that the block
    /// allocator handed out, cut at chunk boundaries (the write-through way).
    pub fn AddWriteBufferBlks(&mut self, virtual_blks: VirtualBlks, stripe_id: StripeId)
        requires
            old(self).allocated() + virtual_blks.num_blks <= u32::MAX,
            virtual_blks.start_vsa.offset + virtual_blks.num_blks <= u64::MAX,
        ensures
            final(self).ranges() == old(self).ranges() + chunk_split(virtual_blks.start_vsa, virtual_blks.num_blks, stripe_id),
            final(self).allocated() == old(self).allocated() + virtual_blks.num_blks,
            final(self).blocks() == old(self).blocks(),
            final(self).processed() == old(self).processed(),
            final(self).alignment() == old(self).alignment(),
            final(self).io_sector_rba() == old(self).io_sector_rba(),
            final(self).io_buffer() == old(self).io_buffer(),
            final(self).io() == old(self).io(),
            final(self).queue() == old(self).queue(),
    {
        let mut start_vsa = virtual_blks.start_vsa;
        let mut remaining_blks = virtual_blks.num_blks;
        while remaining_blks > 0
            invariant
                old(self).ranges() + chunk_split(virtual_blks.start_vsa, virtual_blks.num_blks, stripe_id)
                    == self.ranges() + chunk_split(start_vsa, remaining_blks, stripe_id),
                self.allocated() + remaining_blks == old(self).allocated() + virtual_blks.num_blks,
                old(self).allocated() + virtual_blks.num_blks <= u32::MAX,
                start_vsa.offset + remaining_blks <= u64::MAX,
                start_vsa.stripe_id == virtual_blks.start_vsa.stripe_id,
                self.blocks() == old(self).blocks(),
                self.processed() == old(self).processed(),
                self.alignment() == old(self).alignment(),
                self.io_sector_rba() == old(self).io_sector_rba(),
                self.io_buffer() == old(self).io_buffer(),
                self.io() == old(self).io(),
                self.queue() == old(self).queue(),
            decreases remaining_blks,
        {
            let offset = start_vsa.offset;
            let low = offset as u32;
            assert((offset as u32) % 64 == offset % 64) by (bit_vector);
            let mut num_blks = BLOCKS_PER_CHUNK - (low % BLOCKS_PER_CHUNK);
            if num_blks > remaining_blks {
                num_blks = remaining_blks;
            }
            let ghost before = self.ranges();
            let ghost rest = chunk_split(start_vsa, remaining_blks, stripe_id);
            self._AddVirtualBlks((VirtualBlks { start_vsa, num_blks }, stripe_id));
            proof {
                assert(num_blks == chunk_piece(start_vsa, remaining_blks));
                let next = VirtualBlkAddr { stripe_id: start_vsa.stripe_id, offset: (start_vsa.offset + num_blks) as u64 };
                assert(rest == seq![(VirtualBlks { start_vsa, num_blks }, stripe_id)] + chunk_split(next, (remaining_blks - num_blks) as u32, stripe_id));
                assert(before + rest =~= self.ranges() + chunk_split(next, (remaining_blks - num_blks) as u32, stripe_id));
            }
            start_vsa.offset = start_vsa.offset + num_blks as u64;
            remaining_blks = remaining_blks - num_blks;
        }
        assert(chunk_split(start_vsa, 0, stripe_id) =~= Seq::<(VirtualBlks, StripeId)>::empty());
        assert(self.ranges() + Seq::<(VirtualBlks, StripeId)>::empty() =~= self.ranges());
    }

    /// What the write asks the block allocator for: its volume and the number of blocks that
    /// have no write buffer block yet.
    pub fn write_buffer_request(&self) -> (r: (u32, u32))
        requires
            self.io().vol_id is Some,
            self.allocated() <= self.blocks(),
        ensures
            r.0 == self.io().vol_id->0,
            r.1 == self.blocks() - self.allocated(),
    {
        let volume_id = match self.volume_io.vol_id {
            Some(v) => v,
            None => 0,
        };
        (volume_id, self.block_count - self.allocated_block_count)
    }

    /// Whether the write can take `virtual_blks` as a reply to its request (see
    /// `reply_usable`): a range at the unmapped address, or a non-empty one of no more blocks
    /// than are missing and with an address for each of them.
    pub fn ReplyUsable(&self, virtual_blks: &VirtualBlks) -> (r: bool)
        requires
            self.allocated() <= self.blocks(),
        ensures
            r == reply_usable(*self, *virtual_blks),
    {
        if IsUnMapVsa(&virtual_blks.start_vsa) {
            return true;
        }
        let num_blks = virtual_blks.num_blks;
        num_blks > 0 && num_blks <= self.block_count - self.allocated_block_count
            && virtual_blks.start_vsa.offset <= u64::MAX - num_blks as u64
    }

    /// Allocates write buffer blocks from `allocator` for the blocks still missing, once it
    /// locks the write's volume (when it does not, nothing is allocated): it asks for all the
    /// missing blocks (see `write_buffer_request`), hands each reply to
    /// `OnWriteBufferAllocated`, and asks again for the rest, until none is missing or the
    /// allocator answers with the unmapped address. Such an answer fails the write with
    /// `WRHDLR_FAIL_BY_SYSTEM_STOP` when `system_stopped` (or with `WRHDLR_FAIL_TO_UNLOCK` when
    /// the volume then cannot be unlocked); else it ends the allocation for now. A reply that
    /// cannot be taken (see `ReplyUsable`) ends it the same way. The volume is unlocked at the
    /// end. What the allocator answers is up to it; whatever it answers, the ranges taken are
    /// good pieces appended to the write's ranges and counted as allocated.
    pub fn _AllocateFreeWriteBuffer<A: IBlockAllocator>(&mut self, allocator: &A, system_stopped: bool) -> (r: Result<(), PosEventId>)
        requires
            old(self).allocated() <= old(self).blocks(),
            old(self).io().vol_id is Some,
        ensures
            buffer_added(*old(self), *final(self)),
            !system_stopped ==> r is Ok,
            r is Err ==> r == Err::<(), PosEventId>(PosEventId::WRHDLR_FAIL_BY_SYSTEM_STOP)
                || r == Err::<(), PosEventId>(PosEventId::WRHDLR_FAIL_TO_UNLOCK),
    {
        let ghost n0 = self.ranges().len() as int;
        proof {
            assert(self.ranges().subrange(0, n0) =~= self.ranges());
            assert(self.ranges().subrange(n0, n0) =~= Seq::<(VirtualBlks, StripeId)>::empty());
        }
        let (volume_id, _) = self.write_buffer_request();
        if !allocator.TryRdLock(volume_id) {
            return Ok(());
        }
        loop
            invariant
                buffer_added(*old(self), *self),
                n0 == old(self).ranges().len(),
                self.io().vol_id is Some,
            decreases self.blocks() - self.allocated(),
        {
            let (volume_id, remain_block_count) = self.write_buffer_request();
            if remain_block_count == 0 {
                break;
            }
            let (virtual_blks, stripe_id) = allocator.AllocateWriteBufferBlks(volume_id, remain_block_count);
            if !self.ReplyUsable(&virtual_blks) {
                break;
            }
            let ghost before = *self;
            match self.OnWriteBufferAllocated(virtual_blks, stripe_id, system_stopped) {
                Err(e) => {
                    if !allocator.Unlock(volume_id) {
                        return Err(PosEventId::WRHDLR_FAIL_TO_UNLOCK);
                    }
                    return Err(e);
                },
                Ok(false) => {
                    break;
                },
                Ok(true) => {},
            }
            proof {
                let num_blks = virtual_blks.num_blks;
                let cs = chunk_split(virtual_blks.start_vsa, num_blks, stripe_id);
                lemma_chunk_split(virtual_blks.start_vsa, num_blks, stripe_id);
                let added0 = before.ranges().subrange(n0, before.ranges().len() as int);
                let added1 = self.ranges().subrange(n0, self.ranges().len() as int);
                assert(added1 =~= added0 + cs);
                lemma_total_blks_concat(added0, cs);
                assert(self.ranges().subrange(0, n0) =~= before.ranges().subrange(0, n0));
                assert forall|i: int| 0 <= i < added1.len() implies good_piece(#[trigger] added1[i]) by {
                    if i < added0.len() {
                        assert(added1[i] == added0[i]);
                    } else {
                        assert(added1[i] == cs[i - added0.len()]);
                        let p = cs[i - added0.len()].0;
                        assert(p.num_blks > 0);
                    }
                }
            }
        }
        let (volume_id, _) = self.write_buffer_request();
        let _ = allocator.Unlock(volume_id);
        Ok(())
    }

    /// Takes one reply of the block allocator to a request for the blocks still missing. A
    /// range that starts at the unmapped address means the write buffer is used up: the
    /// write fails with `WRHDLR_FAIL_BY_SYSTEM_STOP` when the system is stopping, else the
    /// allocation ends for now (`Ok(false)`); both leave the write as it was. Any other range
    /// is taken, cut at chunk boundaries, and the allocation goes on (`Ok(true)`).
    pub fn OnWriteBufferAllocated(&mut self, virtual_blks: VirtualBlks, stripe_id: StripeId, system_stopped: bool) -> (r: Result<bool, PosEventId>)
        requires
            !is_unmap_vsa(virtual_blks.start_vsa) ==> old(self).allocated() + virtual_blks.num_blks <= old(self).blocks(),
            !is_unmap_vsa(virtual_blks.start_vsa) ==> virtual_blks.start_vsa.offset + virtual_blks.num_blks <= u64::MAX,
        ensures
            is_unmap_vsa(virtual_blks.start_vsa) && system_stopped ==> r == Err::<bool, PosEventId>(PosEventId::WRHDLR_FAIL_BY_SYSTEM_STOP)
                && *final(self) == *old(self),
            is_unmap_vsa(virtual_blks.start_vsa) && !system_stopped ==> r == Ok::<bool, PosEventId>(false)
                && *final(self) == *old(self),
            !is_unmap_vsa(virtual_blks.start_vsa) ==> {
                &&& r == Ok::<bool, PosEventId>(true)
                &&& final(self).ranges() == old(self).ranges() + chunk_split(virtual_blks.start_vsa, virtual_blks.num_blks, stripe_id)
                &&& final(self).allocated() == old(self).allocated() + virtual_blks.num_blks
                &&& final(self).blocks() == old(self).blocks()
                &&& final(self).processed() == old(self).processed()
                &&& final(self).alignment() == old(self).alignment()
                &&& final(self).io_sector_rba() == old(self).io_sector_rba()
                &&& final(self).io_buffer() == old(self).io_buffer()
                &&& final(self).io() == old(self).io()
                &&& final(self).queue() == old(self).queue()
            },
    {
        if IsUnMapVsa(&virtual_blks.start_vsa) {
            if system_stopped {
                return Err(PosEventId::WRHDLR_FAIL_BY_SYSTEM_STOP);
            }
            return Ok(false);
        }
        self.AddWriteBufferBlks(virtual_blks, stripe_id);
        Ok(true)
    }

    /// Records one allocated range.
    fn _AddVirtualBlks(&mut self, virtual_blks: (VirtualBlks, StripeId))
        requires
            old(self).allocated() + virtual_blks.0.num_blks <= u32::MAX,
        ensures
            final(self).ranges() == old(self).ranges().push(virtual_blks),
            final(self).allocated() == old(self).allocated() + virtual_blks.0.num_blks,
            final(self).blocks() == old(self).blocks(),
            final(self).processed() == old(self).processed(),
            final(self).alignment() == old(self).alignment(),
            final(self).io_sector_rba() == old(self).io_sector_rba(),
            final(self).io_buffer() == old(self).io_buffer(),
            final(self).io() == old(self).io(),
            final(self).queue() == old(self).queue(),
    {
        self.allocated_block_count = self.allocated_block_count + virtual_blks.0.num_blks;
        self.allocated_virtual_blks.push(virtual_blks);
    }

    /// The block after the start of the first allocated range, with its stripe, taking one
    /// block off that range's count; when the count reaches zero the last range is dropped.
    pub fn _PopHeadVsa(&mut self) -> (r: (VirtualBlkAddr, StripeId))
        requires
            head_pop_ok(old(self).ranges()),
        ensures
            r == head_vsa(old(self).ranges()),
            final(self).ranges() == popped_head(old(self).ranges()),
            final(self).allocated() == old(self).allocated(),
            final(self).blocks() == old(self).blocks(),
            final(self).processed() == old(self).processed(),
            final(self).alignment() == old(self).alignment(),
            final(self).io() == old(self).io(),
            final(self).queue() == old(self).queue(),
    {
        let first = self.allocated_virtual_blks[0];
        let mut first_vsa_range = first.0;
        let stripe_id = first.1;
        let mut head_vsa = first_vsa_range.start_vsa;
        first_vsa_range.num_blks = first_vsa_range.num_blks - 1;
        head_vsa.offset = head_vsa.offset + 1;
        self.allocated_virtual_blks.set(0, (first_vsa_range, stripe_id));
        if first_vsa_range.num_blks == 0 {
            self.allocated_virtual_blks.pop();
        }
        (head_vsa, stripe_id)
    }

    /// The last block of the last allocated range, with its stripe; that range is dropped when
    /// it held a single block, and kept as it is otherwise.
    pub fn _PopTailVsa(&mut self) -> (r: (VirtualBlkAddr, StripeId))
        requires
            tail_pop_ok(old(self).ranges()),
        ensures
            r == tail_vsa(old(self).ranges()),
            final(self).ranges() == popped_tail(old(self).ranges()),
            final(self).allocated() == old(self).allocated(),
            final(self).blocks() == old(self).blocks(),
            final(self).processed() == old(self).processed(),
            final(self).alignment() == old(self).alignment(),
            final(self).io() == old(self).io(),
            final(self).queue() == old(self).queue(),
    {
        let last_idx = self.allocated_virtual_blks.len() - 1;
        let last_allocated = self.allocated_virtual_blks[last_idx];
        let mut last_vsa_range = last_allocated.0;
        let mut tail_vsa = last_vsa_range.start_vsa;
        let stripe_id = last_allocated.1;
        tail_vsa.offset = tail_vsa.offset + (last_vsa_range.num_blks as u64 - 1);
        last_vsa_range.num_blks = last_vsa_range.num_blks - 1;
        if last_vsa_range.num_blks == 0 {
            self.allocated_virtual_blks.remove(last_idx);
        }
        (tail_vsa, stripe_id)
    }

    /// Reads the old data of the blocks the write covers only in part: the head block first,
    /// then the tail block; each read takes its block from the allocated ranges and counts as
    /// processed. The reads are returned for the caller to issue.
    pub fn _PrepareBlockAlignment(&mut self) -> (r: Vec<OldBlockRead>)
        requires
            prepare_fits(*old(self)),
        ensures
            r@ == prepared(*old(self)).0,
            reads_queued(*old(self), *final(self), r@),
            final(self).ranges() == prepared(*old(self)).1,
            final(self).processed() == prepared(*old(self)).2,
            final(self).blocks() == old(self).blocks(),
            final(self).allocated() == old(self).allocated(),
            final(self).alignment() == old(self).alignment(),
    {
        let mut reads: Vec<OldBlockRead> = Vec::new();
        proof {
            assert(self.queue().subrange(0, self.queue().len() as int) =~= self.queue());
        }
        if self.block_alignment.HasHead() {
            let read = self._ReadOldHeadBlock();
            reads.push(read);
            assert(reads@ =~= seq![read]);
        }
        let ghost mid = *self;
        let ghost reads_mid = reads@;
        if self.block_alignment.HasTail() {
            if let Some(read) = self._ReadOldTailBlock() {
                reads.push(read);
                proof {
                    lemma_reads_queued_chain(*old(self), mid, *self, reads_mid, seq![read]);
                    assert(reads@ =~= reads_mid + seq![read]);
                }
            }
        }
        proof {
            let a = old(self).alignment();
            if a.head_size == 0 {
                assert(reads@ =~= prepared(*old(self)).0);
            }
        }
        reads
    }

    /// The read of the head block: its sector address and the block after the start of the
    /// first allocated range (see `_ReadOldBlock`).
    fn _ReadOldHeadBlock(&mut self) -> (r: OldBlockRead)
        requires
            head_pop_ok(old(self).ranges()),
            old(self).processed() < u32::MAX,
            split_fits(old(self).io(), (old(self).alignment().head_size as u64) / SECTOR_SIZE),
            old(self).io().vol_id is Some,
        ensures
            r == (OldBlockRead {
                rba: old(self).alignment().start_address / SECTOR_SIZE,
                vsa: head_vsa(old(self).ranges()).0,
                user_lsid: head_vsa(old(self).ranges()).1,
                is_tail: false,
                alignment_size: old(self).alignment().head_size,
                alignment_offset: old(self).alignment().head_position,
            }),
            reads_queued(*old(self), *final(self), seq![r]),
            split_off(old(self).io(), final(self).io(), (old(self).alignment().head_size as u64) / SECTOR_SIZE, false),
            final(self).ranges() == popped_head(old(self).ranges()),
            final(self).processed() == old(self).processed() + 1,
            final(self).blocks() == old(self).blocks(),
            final(self).allocated() == old(self).allocated(),
            final(self).alignment() == old(self).alignment(),
    {
        let head_rba = match self.block_alignment.GetHeadBlock() {
            Ok(h) => h,
            Err(_) => 0,
        };
        assert(head_rba * SECTORS_PER_BLOCK <= u64::MAX) by (nonlinear_arith)
            requires
                head_rba == self.block_alignment@.start_address / SECTOR_SIZE,
                self.block_alignment@.start_address <= u64::MAX,
        ;
        let vsa = self._PopHeadVsa();
        self._ReadOldBlock(head_rba, vsa, false)
    }

    /// The read of the tail block, when blocks are left to process: its sector address and
    /// the last block of the last allocated range (see `_ReadOldBlock`).
    fn _ReadOldTailBlock(&mut self) -> (r: Option<OldBlockRead>)
        requires
            old(self).processed() != old(self).blocks() ==> {
                &&& tail_pop_ok(old(self).ranges())
                &&& old(self).processed() < u32::MAX
                &&& old(self).alignment().start_address / SECTOR_SIZE + old(self).alignment().block_count >= 1
                &&& split_fits(old(self).io(), (old(self).alignment().tail_size as u64) / SECTOR_SIZE)
                &&& old(self).io().vol_id is Some
            },
        ensures
            old(self).processed() == old(self).blocks() ==> r is None && *final(self) == *old(self),
            old(self).processed() != old(self).blocks() ==> {
                &&& r == Some(OldBlockRead {
                    rba: (old(self).alignment().start_address / SECTOR_SIZE + old(self).alignment().block_count - 1) as u64,
                    vsa: tail_vsa(old(self).ranges()).0,
                    user_lsid: tail_vsa(old(self).ranges()).1,
                    is_tail: true,
                    alignment_size: old(self).alignment().tail_size,
                    alignment_offset: 0,
                })
                &&& reads_queued(*old(self), *final(self), seq![r->0])
                &&& split_off(old(self).io(), final(self).io(), (old(self).alignment().tail_size as u64) / SECTOR_SIZE, true)
                &&& final(self).ranges() == popped_tail(old(self).ranges())
                &&& final(self).processed() == old(self).processed() + 1
            },
            final(self).blocks() == old(self).blocks(),
            final(self).allocated() == old(self).allocated(),
            final(self).alignment() == old(self).alignment(),
    {
        if self.processed_block_count == self.block_count {
            return None;
        }
        let tail_rba = match self.block_alignment.GetTailBlock() {
            Ok(t) => t,
            Err(_) => 0,
        };
        assert(tail_rba * SECTORS_PER_BLOCK <= u64::MAX) by (nonlinear_arith)
            requires
                tail_rba == self.block_alignment@.start_address / SECTOR_SIZE + self.block_alignment@.block_count - 1,
                self.block_alignment@.start_address <= u64::MAX,
                self.block_alignment@.block_count <= u32::MAX,
        ;
        let vsa = self._PopTailVsa();
        Some(self._ReadOldBlock(tail_rba, vsa, true))
    }

    /// Reads the old data of block `rba`, found at `vsa_info`, for the part of the write that
    /// covers it only in part: the tail's bytes from the block's start, or the head's bytes from
    /// where the write starts. That part is split off the write (off its end for the tail, off
    /// its start for the head) and given the block's address and a block-map update; the read
    /// of the block's old data, made for that part, joins the split I/Os (see
    /// `old_block_read_io`). The block counts as processed, and its description is returned.
    fn _ReadOldBlock(&mut self, rba: u64, vsa_info: (VirtualBlkAddr, StripeId), is_tail: bool) -> (r: OldBlockRead)
        requires
            old(self).processed() < u32::MAX,
            rba * SECTORS_PER_BLOCK <= u64::MAX,
            split_fits(old(self).io(), ((if is_tail { old(self).alignment().tail_size } else { old(self).alignment().head_size }) as u64) / SECTOR_SIZE),
            old(self).io().vol_id is Some,
        ensures
            r == (OldBlockRead {
                rba,
                vsa: vsa_info.0,
                user_lsid: vsa_info.1,
                is_tail,
                alignment_size: if is_tail { old(self).alignment().tail_size } else { old(self).alignment().head_size },
                alignment_offset: if is_tail { 0 } else { old(self).alignment().head_position },
            }),
            reads_queued(*old(self), *final(self), seq![r]),
            split_off(old(self).io(), final(self).io(), (r.alignment_size as u64) / SECTOR_SIZE, is_tail),
            final(self).ranges() == old(self).ranges(),
            final(self).processed() == old(self).processed() + 1,
            final(self).blocks() == old(self).blocks(),
            final(self).allocated() == old(self).allocated(),
            final(self).alignment() == old(self).alignment(),
    {
        let vsa = vsa_info.0;
        let user_lsid = vsa_info.1;
        let (alignment_size, alignment_offset) = if is_tail {
            (self.block_alignment.GetTailSize(), 0)
        } else {
            (self.block_alignment.GetHeadSize(), self.block_alignment.GetHeadPosition())
        };
        let mut split = self.volume_io.Split(ChangeByteToSector(alignment_size as u64), is_tail);
        split.vsa = Some(vsa);
        split.callback = Some(BlockMapUpdateRequest::new(&self.volume_io).to_callback());
        let array_id = self.volume_io.array_id;
        let vol_id = match self.volume_io.vol_id {
            Some(v) => v,
            None => 0,
        };
        let mut new_volume_io = VolumeIo {
            array_id,
            vol_id: self.volume_io.vol_id,
            sector_rba: None,
            sector_size: UNITS_PER_BLOCK as u64,
            dir: UbioDir::Read,
            buffer: Vec::new(),
            callback: None,
            vsa: None,
            stripe_id: None,
            lsid_entry: None,
            old_lsid_entry: None,
            lba: 0,
            array_dev: None,
            origin: Some(Box::new(split)),
        };
        new_volume_io.stripe_id = Some(user_lsid as u64);
        let event = ReadCompletionForPartialWrite::new(&new_volume_io, alignment_size, alignment_offset).to_callback();
        new_volume_io.callback = Some(event);
        new_volume_io.sector_rba = Some(ChangeBlockToSector(rba));
        new_volume_io.vsa = Some(vsa);
        let old_data_translator = Translator::new(vol_id, rba, array_id as i32, true);
        new_volume_io.old_lsid_entry = Some(old_data_translator.GetLsidEntry(0));
        self.processed_block_count = self.processed_block_count + 1;
        if old_data_translator.IsMapped() {
            new_volume_io.dir = UbioDir::Read;
            let pba = old_data_translator.GetPba();
            new_volume_io.lba = pba.lba;
            new_volume_io.array_dev = pba.array_dev;
        }
        let ghost q0 = self.split_volume_io_queue@;
        self.split_volume_io_queue.push(new_volume_io);
        let r = OldBlockRead { rba, vsa, user_lsid, is_tail, alignment_size, alignment_offset };
        proof {
            assert(self.split_volume_io_queue@.subrange(0, q0.len() as int) =~= q0);
            assert(seq![r][0] == r);
        }
        r
    }

    /// Tells whether the write can be planned as it stands (see `owned_write_fits`).
    fn _OwnedWriteFits(&self) -> (r: bool)
        ensures
            r == owned_write_fits(*self),
    {
        let ghost w = *self;
        let ghost rs = self.ranges();
        if self.block_count > self.allocated_block_count {
            return true;
        }
        let has_head = self.block_alignment.HasHead();
        let has_tail = self.block_alignment.HasTail();
        let hs: u64 = if has_head { (self.block_alignment.GetHeadSize() as u64) / SECTOR_SIZE } else { 0 };
        let ts: u64 = (self.block_alignment.GetTailSize() as u64) / SECTOR_SIZE;
        let vol_ok = self.volume_io.vol_id.is_some();
        let len = self.allocated_virtual_blks.len();
        let ghost rs1 = if has_head { popped_head(rs) } else { rs };
        // The length of the ranges once the head block is taken, and their last range.
        let mut rs1_len: usize = len;
        let mut rs1_last: Option<(VirtualBlks, StripeId)> = if len > 0 { Some(self.allocated_virtual_blks[len - 1]) } else { None };
        let mut p1: u32 = self.processed_block_count;
        if has_head {
            if len == 0 {
                return false;
            }
            let first = self.allocated_virtual_blks[0];
            if !(first.0.num_blks > 0 && first.0.start_vsa.offset < u64::MAX) {
                return false;
            }
            if !(self.processed_block_count < u32::MAX && split_fits_now(&self.volume_io, hs) && vol_ok) {
                return false;
            }
            let shrunk_first = (VirtualBlks { start_vsa: first.0.start_vsa, num_blks: first.0.num_blks - 1 }, first.1);
            let ghost shrunk = rs.update(0, shrunk_first);
            if first.0.num_blks == 1 {
                rs1_len = len - 1;
                rs1_last = if len >= 2 {
                    if len - 2 == 0 { Some(shrunk_first) } else { Some(self.allocated_virtual_blks[len - 2]) }
                } else {
                    None
                };
                proof {
                    assert(rs1 == shrunk.drop_last());
                }
            } else {
                rs1_last = if len - 1 == 0 { Some(shrunk_first) } else { Some(self.allocated_virtual_blks[len - 1]) };
                proof {
                    assert(rs1 == shrunk);
                }
            }
            p1 = self.processed_block_count + 1;
        }
        assert(rs1.len() == rs1_len);
        assert(rs1_len > 0 ==> rs1_last == Some(rs1.last()));
        assert(rs1_len == 0 ==> rs1_last is None);
        let tail_applies = has_tail && p1 != self.block_count;
        let mut len2: usize = rs1_len;
        if tail_applies {
            let last = match rs1_last {
                Some(l) => l,
                None => {
                    return false;
                },
            };
            if !(last.0.num_blks > 0 && last.0.start_vsa.offset <= u64::MAX - (last.0.num_blks - 1) as u64) {
                return false;
            }
            let head_block = match self.block_alignment.GetHeadBlock() {
                Ok(h) => h,
                Err(_) => 0,
            };
            if !(p1 < u32::MAX && (head_block > 0 || self.block_alignment.GetBlockCount() > 0) && split_fits_now(&self.volume_io, hs + ts) && vol_ok) {
                return false;
            }
            if last.0.num_blks == 1 {
                len2 = rs1_len - 1;
            }
        }
        let p2: u32 = if tail_applies { p1 + 1 } else { p1 };
        assert(prepared(w).2 == p2);
        assert(prepared(w).1.len() == len2);
        if p2 == 0 && self.allocated_block_count == 1 {
            return len2 > 0;
        }
        true
    }

    /// Runs the write's event with the `tokens` that flow control granted for its blocks: with
    /// none, it stops (`NoToken`); else it takes ownership of its blocks from
    /// `rba_state_manager` (every request is granted), runs the owned write with `allocator`
    /// (see `_ProcessOwnedWrite`), and gives the ownership up again when the write waits or is
    /// stuck.
    pub fn Execute<A: IBlockAllocator>(&mut self, tokens: i32, rba_state_manager: &RBAStateManager, allocator: &A, system_stopped: bool) -> (r: ExecuteStep)
        requires
            tokens > 0 ==> old(self).allocated() <= old(self).blocks() && old(self).io().vol_id is Some,
        ensures
            tokens <= 0 ==> r is NoToken && *final(self) == *old(self),
            tokens > 0 ==> (r matches ExecuteStep::Planned(plan) && owned_write_run(*old(self), *final(self), plan)),
    {
        if tokens <= 0 {
            return ExecuteStep::NoToken;
        }
        let start_rba = match self.block_alignment.GetHeadBlock() {
            Ok(h) => h,
            Err(_) => 0,
        };
        let volume_id = match self.volume_io.vol_id {
            Some(v) => v,
            None => 0,
        };
        let ownership_acquired = match rba_state_manager.BulkAcquireOwnership(volume_id, start_rba, self.block_count) {
            Ok(acquired) => acquired,
            Err(_) => false,
        };
        if !ownership_acquired {
            return ExecuteStep::ReturnTokens(tokens);
        }
        let plan = self._ProcessOwnedWrite(allocator, system_stopped);
        let done = match plan {
            WritePlan::Wait => false,
            WritePlan::Stuck => false,
            _ => true,
        };
        if !done {
            let _ = rba_state_manager.BulkReleaseOwnership(volume_id, start_rba, self.block_count);
        }
        ExecuteStep::Planned(plan)
    }

    /// Runs the write once its blocks are owned: allocates write buffer blocks for it from
    /// `allocator` (see `_AllocateFreeWriteBuffer`; a failure there does not stop it), then
    /// plans it (see `owned_write_run`): wait while not every block has a write buffer block,
    /// stuck when its partial blocks cannot be read with the blocks it has, else the reads of
    /// its partial blocks and its writes.
    pub fn _ProcessOwnedWrite<A: IBlockAllocator>(&mut self, allocator: &A, system_stopped: bool) -> (r: WritePlan)
        requires
            old(self).allocated() <= old(self).blocks(),
            old(self).io().vol_id is Some,
        ensures
            owned_write_run(*old(self), *final(self), r),
    {
        let _ = self._AllocateFreeWriteBuffer(allocator, system_stopped);
        let ghost mid = *self;
        if !self._OwnedWriteFits() {
            assert(buffer_added(*old(self), mid));
            return WritePlan::Stuck;
        }
        let plan = self._PlanOwnedWrite();
        assert(buffer_added(*old(self), mid));
        plan
    }

    /// Plans the write once its blocks are owned and allocated: wait while not every block
    /// has a write buffer block; otherwise read the partial blocks, and write one block at once
    /// when nothing was processed and a single block was allocated, or every allocated range in
    /// turn.
    fn _PlanOwnedWrite(&mut self) -> (r: WritePlan)
        requires
            owned_write_fits(*old(self)),
        ensures
            owned_write_processed(*old(self), *final(self), r),
    {
        if self.block_count > self.allocated_block_count {
            return WritePlan::Wait;
        }
        let reads = self._PrepareBlockAlignment();
        if self.processed_block_count == 0 && self.allocated_block_count == 1 {
            let range = self.allocated_virtual_blks[0];
            WritePlan::SingleBlock { reads, range }
        } else {
            let mut ranges: Vec<(VirtualBlks, StripeId)> = Vec::new();
            let mut i: usize = 0;
            while i < self.allocated_virtual_blks.len()
                invariant
                    i <= self.allocated_virtual_blks@.len(),
                    ranges@ == self.allocated_virtual_blks@.subrange(0, i as int),
                decreases self.allocated_virtual_blks@.len() - i,
            {
                ranges.push(self.allocated_virtual_blks[i]);
                i = i + 1;
            }
            assert(ranges@ =~= self.allocated_virtual_blks@);
            WritePlan::MultipleBlocks { reads, ranges }
        }
    }

    /// Whether the write can go ahead: every block it touches has a write buffer block.
    pub fn _HasAllBlocks(&self) -> (r: bool)
        ensures
            r == (self.blocks() <= self.allocated()),
    {
        !(self.block_count > self.allocated_block_count)
    }

    /// Whether the write goes out as one single-block I/O (nothing processed yet and a single
    /// block allocated) rather than one I/O per allocated range.
    pub fn _IsSingleBlockWrite(&self) -> (r: bool)
        ensures
            r == (self.processed() == 0 && self.allocated() == 1),
    {
        self.processed_block_count == 0 && self.allocated_block_count == 1
    }
}

} // verus!
