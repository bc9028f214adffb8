use vstd::prelude::*;
use crate::array::array_info::ArrayInfo;
use crate::base::address_type::{BlkAddr, StripeAddr, StripeId, StripeLoc, VirtualBlkAddr};

verus! {

/// A physical block address: a sector address on a device of the array.
#[derive(PartialEq, Eq, Structural, Debug, Clone, Copy)]
pub struct PhysicalBlkAddr {
    pub lba: u64,
    pub array_dev: Option<u32>,
}

/// A run of physical blocks.
#[derive(PartialEq, Eq, Structural, Debug, Clone, Copy)]
pub struct PhysicalEntry {
    pub addr: PhysicalBlkAddr,
    pub blkCnt: u32,
}

/// Translates block addresses of a volume to stripes and physical addresses; one block at a
/// time, and every block reads as unmapped in the user area's first stripe, as no map is
/// consulted yet.
pub struct Translator {
    pub startRba: BlkAddr,
    pub blockCount: u32,
}

impl Translator {
    /// The translator of block `start_rba` of volume `volume_id`.
    pub fn new(volume_id: u32, start_rba: BlkAddr, array_id: i32, is_read: bool) -> (r: Translator)
        ensures
            r.startRba == start_rba,
            r.blockCount == 1,
    {
        Translator { startRba: start_rba, blockCount: 1 }
    }

    /// The translator of the block at `vsa` in stripe `user_lsid`.
    pub fn new_with_vsa(vsa: VirtualBlkAddr, array_id: i32, user_lsid: StripeId, array_info: Option<ArrayInfo>) -> (r: Translator)
        ensures
            r.startRba == 0,
            r.blockCount == 1,
    {
        Translator { startRba: 0, blockCount: 1 }
    }

    /// The stripe the `block_index`-th block is in.
    pub fn GetLsidEntry(&self, block_index: u32) -> (r: StripeAddr)
        ensures
            r == (StripeAddr { stripe_loc: StripeLoc::IN_USER_AREA, stripe_id: 0 }),
    {
        StripeAddr { stripe_loc: StripeLoc::IN_USER_AREA, stripe_id: 0 }
    }

    /// Whether the block is mapped.
    pub fn IsMapped(&self) -> (r: bool)
        ensures
            !r,
    {
        false
    }

    /// The physical address of the block.
    pub fn GetPba(&self) -> (r: PhysicalBlkAddr)
        ensures
            r == (PhysicalBlkAddr { lba: 0, array_dev: None }),
    {
        PhysicalBlkAddr { lba: 0, array_dev: None }
    }

    /// The physical runs of the `block_count` blocks with data `mem`; none yet. Translating
    /// more than one block at a time panics, so it is excluded.
    pub fn GetPhysicalEntries(&self, mem: &Vec<u8>, block_count: u32) -> (r: Vec<PhysicalEntry>)
        requires
            self.blockCount == 1,
        ensures
            r@ == Seq::<PhysicalEntry>::empty(),
    {
        self._CheckSingleBlock();
        Vec::new()
    }

    fn _CheckSingleBlock(&self)
        requires
            self.blockCount == 1,
    {
    }
}

} // verus!
