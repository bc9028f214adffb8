use vstd::prelude::*;
use bit_vec::BitVec;
use crate::base::address_type::{VirtualBlkAddr, IsUnMapVsa, is_unmap_vsa};
use crate::base::memory::{Align, divide_up};

verus! {

#[verifier::external_type_specification]
#[verifier::external_body]
#[verifier::reject_recursive_types(B)]
pub struct ExBitVec<B>(bit_vec::BitVec<B>);

/// The bits that a `bit_vec::BitVec` holds, in order.
pub uninterp spec fn bit_vec_bits(v: BitVec) -> Seq<bool>;

/// The number of 32-bit blocks that a `bit_vec::BitVec` stores its bits in.
pub uninterp spec fn bit_vec_blocks(v: BitVec) -> nat;

/// The number of 32-bit blocks needed for `n` bits.
pub open spec fn blocks_for_bits(n: nat) -> nat {
    if n % 32 == 0 {
        n / 32
    } else {
        n / 32 + 1
    }
}

/// `bit_vec::BitVec::new`: no bits, no blocks.
#[verifier::external_body]
fn bit_vec_new() -> (r: BitVec)
    ensures
        bit_vec_bits(r) == Seq::<bool>::empty(),
        bit_vec_blocks(r) == 0,
{
    BitVec::new()
}

/// `bit_vec::BitVec::from_elem`: `nbits` bits equal to `bit`, in the blocks that they need.
#[verifier::external_body]
fn bit_vec_from_elem(nbits: usize, bit: bool) -> (r: BitVec)
    ensures
        bit_vec_bits(r) == Seq::new(nbits as nat, |i: int| bit),
        bit_vec_blocks(r) == blocks_for_bits(nbits as nat),
{
    BitVec::from_elem(nbits, bit)
}

/// `bit_vec::BitVec::set`: bit `i` becomes `x`; the blocks stay. It panics when `i` is out of
/// range, so such an `i` is excluded (an `i` in range fits in `usize`).
#[verifier::external_body]
fn bit_vec_set(v: &mut BitVec, i: u64, x: bool)
    requires
        i < bit_vec_bits(*old(v)).len(),
    ensures
        bit_vec_bits(*final(v)) == bit_vec_bits(*old(v)).update(i as int, x),
        bit_vec_blocks(*final(v)) == bit_vec_blocks(*old(v)),
{
    v.set(i as usize, x)
}

/// `bit_vec::BitVec::get`: bit `i`, or `None` when `i` is out of range.
#[verifier::external_body]
fn bit_vec_get(v: &BitVec, i: usize) -> (r: Option<bool>)
    ensures
        i < bit_vec_bits(*v).len() ==> r == Some(bit_vec_bits(*v)[i as int]),
        i >= bit_vec_bits(*v).len() ==> r is None,
{
    v.get(i)
}

/// `bit_vec::BitVec::len`: the number of bits.
#[verifier::external_body]
fn bit_vec_len(v: &BitVec) -> (r: usize)
    ensures
        r == bit_vec_bits(*v).len(),
{
    v.len()
}

/// `bit_vec::BitVec::storage`, measured: the number of blocks.
#[verifier::external_body]
fn bit_vec_block_count(v: &BitVec) -> (r: usize)
    ensures
        r == bit_vec_blocks(*v),
{
    v.storage().len()
}

/// The number of `true` bits in `s`.
pub open spec fn count_set(s: Seq<bool>) -> nat
    decreases s.len(),
{
    if s.len() == 0 {
        0
    } else {
        count_set(s.drop_last()) + if s.last() { 1nat } else { 0nat }
    }
}

/// A prefix never holds more `true` bits than its length.
pub proof fn lemma_count_set_le_len(s: Seq<bool>)
    ensures
        count_set(s) <= s.len(),
    decreases s.len(),
{
    if s.len() > 0 {
        lemma_count_set_le_len(s.drop_last());
    }
}

/// Counts the `true` bits of `v`.
fn count_set_bits(v: &BitVec) -> (r: u64)
    ensures
        r == count_set(bit_vec_bits(*v)),
{
    let n = bit_vec_len(v);
    let ghost bits = bit_vec_bits(*v);
    let mut count: u64 = 0;
    let mut i: usize = 0;
    while i < n
        invariant
            n == bits.len(),
            bits == bit_vec_bits(*v),
            i <= n,
            count == count_set(bits.take(i as int)),
        decreases n - i,
    {
        proof {
            assert(bits.take(i as int + 1).drop_last() =~= bits.take(i as int));
            lemma_count_set_le_len(bits.take(i as int));
        }
        if let Some(b) = bit_vec_get(v, i) {
            if b {
                count = count + 1;
            }
        }
        i = i + 1;
    }
    assert(bits.take(n as int) =~= bits);
    count
}

/// The size of the fixed part of a map header: four 64-bit counters.
pub const MPAGE_INFO_SIZE: u64 = 32;

/// The bytes that the header of a map of `num_mpages` pages takes before alignment: the fixed
/// part and the blocks of the page bitmap, four bytes each.
pub open spec fn raw_header_size(num_mpages: nat) -> int {
    MPAGE_INFO_SIZE + 4 * blocks_for_bits(num_mpages)
}

/// The header of a map: which pages are allocated, which were touched, and how many blocks
/// the map uses.
pub struct MapHeader {
    age: u64,
    size: u64,
    num_used_blks: u64,
    mpage_map: BitVec,
    touched_mpages: BitVec,
    map_id: i32,
}

impl MapHeader {
    /// Which pages are allocated, one bit per page.
    pub closed spec fn valid_mpages(&self) -> Seq<bool> {
        bit_vec_bits(self.mpage_map)
    }

    /// Which pages were touched, one bit per page.
    pub closed spec fn touched(&self) -> Seq<bool> {
        bit_vec_bits(self.touched_mpages)
    }

    /// The size of the header in bytes.
    pub closed spec fn header_size(&self) -> u64 {
        self.size
    }

    /// The counter of used blocks.
    pub closed spec fn used_blks(&self) -> u64 {
        self.num_used_blks
    }

    /// The id of the map.
    pub closed spec fn id(&self) -> i32 {
        self.map_id
    }

    /// A header of no pages.
    pub fn new() -> (r: Self)
        ensures
            r.valid_mpages() == Seq::<bool>::empty(),
            r.touched() == Seq::<bool>::empty(),
            r.header_size() == 0,
            r.used_blks() == 0,
            r.id() == 0,
    {
        MapHeader {
            age: 0,
            size: 0,
            num_used_blks: 0,
            mpage_map: bit_vec_new(),
            touched_mpages: bit_vec_new(),
            map_id: 0,
        }
    }

    /// Sets the header up for `num_mpages` pages of `mpage_size` bytes: no page allocated or
    /// touched, and a size of the fixed part and the page bitmap rounded up to whole pages.
    pub fn Init(&mut self, num_mpages: u64, mpage_size: u64)
        requires
            mpage_size > 0,
            num_mpages <= usize::MAX,
            raw_header_size(num_mpages as nat) + mpage_size <= u64::MAX,
        ensures
            final(self).valid_mpages() == Seq::new(num_mpages as nat, |i: int| false),
            final(self).touched() == Seq::new(num_mpages as nat, |i: int| false),
            final(self).header_size() == divide_up(raw_header_size(num_mpages as nat), mpage_size as int) * mpage_size,
            final(self).used_blks() == old(self).used_blks(),
            final(self).id() == old(self).id(),
    {
        self.mpage_map = bit_vec_from_elem(num_mpages as usize, false);
        self.touched_mpages = bit_vec_from_elem(num_mpages as usize, false);
        let blocks = bit_vec_block_count(&self.mpage_map);
        let raw: u64 = MPAGE_INFO_SIZE + 4 * (blocks as u64);
        proof {
            let d = divide_up(raw as int, mpage_size as int);
            assert(d * mpage_size <= raw + mpage_size) by (nonlinear_arith)
                requires
                    d == (raw + mpage_size - 1) / mpage_size as int,
                    mpage_size > 0,
                    raw >= 0,
            ;
        }
        self.size = Align(raw, mpage_size);
    }

    /// The size of the header in bytes.
    pub fn GetSize(&self) -> (r: u64)
        ensures
            r == self.header_size(),
    {
        self.size
    }

    /// The number of allocated pages.
    pub fn GetNumValidMpages(&self) -> (r: u64)
        ensures
            r == count_set(self.valid_mpages()),
    {
        count_set_bits(&self.mpage_map)
    }

    /// The bitmap of allocated pages.
    pub fn GetMpageMap(&mut self) -> (r: &BitVec)
        ensures
            bit_vec_bits(*r) == old(self).valid_mpages(),
            *final(self) == *old(self),
    {
        &self.mpage_map
    }

    /// Marks page `page_num` allocated.
    pub fn SetMapAllocated(&mut self, page_num: u64)
        requires
            page_num < old(self).valid_mpages().len(),
        ensures
            final(self).valid_mpages() == old(self).valid_mpages().update(page_num as int, true),
            final(self).touched() == old(self).touched(),
            final(self).header_size() == old(self).header_size(),
            final(self).used_blks() == old(self).used_blks(),
            final(self).id() == old(self).id(),
    {
        bit_vec_set(&mut self.mpage_map, page_num, true);
    }

    /// The bitmap of touched pages.
    pub fn GetTouchedMpages(&mut self) -> (r: &BitVec)
        ensures
            bit_vec_bits(*r) == old(self).touched(),
            *final(self) == *old(self),
    {
        &self.touched_mpages
    }

    /// Counts one more used block when `vsa` is the unmapped address (the counter wraps
    /// around at its limit).
    pub fn UpdateNumUsedBlks(&mut self, vsa: VirtualBlkAddr)
        ensures
            final(self).used_blks() == if is_unmap_vsa(vsa) {
                if old(self).used_blks() == u64::MAX { 0 } else { (old(self).used_blks() + 1) as u64 }
            } else {
                old(self).used_blks()
            },
            final(self).valid_mpages() == old(self).valid_mpages(),
            final(self).touched() == old(self).touched(),
            final(self).header_size() == old(self).header_size(),
            final(self).id() == old(self).id(),
    {
        if IsUnMapVsa(&vsa) {
            self.num_used_blks = self.num_used_blks.wrapping_add(1);
        }
    }

    /// The counter of used blocks.
    pub fn GetNumUsedBlks(&self) -> (r: u64)
        ensures
            r == self.used_blks(),
    {
        self.num_used_blks
    }

    /// The id of the map.
    pub fn GetMapId(&self) -> (r: i32)
        ensures
            r == self.id(),
    {
        self.map_id
    }

    /// The number of touched pages.
    pub fn GetNumTouchedMpagesSet(&self) -> (r: u64)
        ensures
            r == count_set(self.touched()),
    {
        count_set_bits(&self.touched_mpages)
    }

    /// The number of pages that the touched bitmap covers.
    pub fn GetNumTotalTouchedMpages(&self) -> (r: u64)
        ensures
            r == self.touched().len(),
    {
        bit_vec_len(&self.touched_mpages) as u64
    }

    /// Marks page `page_num` touched.
    pub fn SetTouchedMpageBit(&mut self, page_num: u64)
        requires
            page_num < old(self).touched().len(),
        ensures
            final(self).touched() == old(self).touched().update(page_num as int, true),
            final(self).valid_mpages() == old(self).valid_mpages(),
            final(self).header_size() == old(self).header_size(),
            final(self).used_blks() == old(self).used_blks(),
            final(self).id() == old(self).id(),
    {
        bit_vec_set(&mut self.touched_mpages, page_num, true);
    }
}

} // verus!
