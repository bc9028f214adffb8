use vstd::prelude::*;
use vstd::bytes::*;
use std::collections::HashSet;
use crate::base::address_type::{VirtualBlkAddr, BlkAddr, UnmapVsa, spec_unmap_vsa, is_unmap_vsa};
use crate::base::pos_event_id::PosEventId;
use crate::base::text::i32_to_text;
use crate::mapper::map::{MpageMap, spliced, MPAGE_FILL};
use crate::mapper::map_content::{MapContent, init_fits};
use crate::mapper::mapper_address_info::MapperAddressInfo;
use crate::metafs::mf_property::MetaFileType;

verus! {

/// The bytes an entry of a volume's block map takes in a page.
pub const VSA_ENTRY_SIZE: u64 = 16;

/// The virtual block address that the entry at byte `at` of `page` holds: the stripe id in the
/// first four bytes and the offset in the last eight, both little-endian.
pub open spec fn decode_vsa(page: Seq<u8>, at: int) -> VirtualBlkAddr {
    VirtualBlkAddr {
        stripe_id: spec_u32_from_le_bytes(page.subrange(at, at + 4)),
        offset: spec_u64_from_le_bytes(page.subrange(at + 8, at + 16)),
    }
}

/// What an entry of a freshly allocated page holds before anything is written to it.
pub open spec fn fill_vsa() -> VirtualBlkAddr {
    decode_vsa(Seq::new(VSA_ENTRY_SIZE as nat, |i: int| MPAGE_FILL), 0)
}

/// A counter bumped by one when `bump` holds, wrapping around at its limit.
pub open spec fn bumped(count: u64, bump: bool) -> u64 {
    if !bump {
        count
    } else if count == u64::MAX {
        0
    } else {
        (count + 1) as u64
    }
}

/// The pages `start / per_page` up to and including the page of entry `start + n - 1`, counted
/// the way the block map counts them: every page before the end page, and the end page when
/// the range does not stop at its first entry.
pub open spec fn dirty_pages(start: u64, n: u64, per_page: u64) -> Set<u64> {
    let first = start as int / per_page as int;
    let end = (start + n) / per_page as int;
    let end_offset = (start + n) % per_page as int;
    Set::new(|p: u64| (first <= p < end) || (end_offset != 0 && p == end))
}

/// The page that entry `start + j` of a map with `per_page` entries per page is in.
pub open spec fn entry_page(start: u64, j: u64, per_page: u64) -> int {
    (start + j) / (per_page as int)
}

/// The pages counted dirty for `n` entries from `start` are exactly the pages those entries are
/// in; an empty range that starts inside a page counts that page.
pub proof fn lemma_dirty_pages_are_the_entries_pages(start: u64, n: u64, per_page: u64)
    requires
        per_page > 0,
        start + n <= u64::MAX,
    ensures
        forall|p: u64| #[trigger] dirty_pages(start, n, per_page).contains(p) <==> (
            (exists|j: u64| j < n && #[trigger] entry_page(start, j, per_page) == p)
            || (n == 0 && start % per_page != 0 && p == start / per_page)),
{
    let b = per_page as int;
    let s = start as int;
    let first = s / b;
    let end = (s + n) / b;
    let eo = (s + n) % b;
    vstd::arithmetic::div_mod::lemma_fundamental_div_mod(s, b);
    vstd::arithmetic::div_mod::lemma_fundamental_div_mod(s + n, b);
    vstd::arithmetic::div_mod::lemma_div_is_ordered(s, s + n, b);
    assert forall|p: u64| #[trigger] dirty_pages(start, n, per_page).contains(p) implies (
        (exists|j: u64| j < n && #[trigger] entry_page(start, j, per_page) == p)
        || (n == 0 && start % per_page != 0 && p == start / per_page)) by {
        if n == 0 {
            assert(end == first);
        } else if p == first {
            assert(entry_page(start, 0, per_page) == p);
        } else {
            assert(p > first);
            let j0: int = p * b - s;
            assert(p * b > s) by (nonlinear_arith)
                requires p >= first + 1, s == b * first + s % b, s % b < b, b > 0;
            assert(j0 < n) by (nonlinear_arith)
                requires
                    j0 == p * b - s,
                    (first <= p < end) || (eo != 0 && p == end),
                    s + n == b * end + eo,
                    0 <= eo < b,
                    eo != 0 || p < end,
                    b > 0;
            let j = j0 as u64;
            assert((s + j) / b == p) by {
                assert(s + j == p * b);
                vstd::arithmetic::div_mod::lemma_div_multiples_vanish(p as int, b);
            }
            assert(entry_page(start, j, per_page) == p);
        }
    }
    assert forall|p: u64| (
        (exists|j: u64| j < n && #[trigger] entry_page(start, j, per_page) == p)
        || (n == 0 && start % per_page != 0 && p == start / per_page)) implies #[trigger] dirty_pages(start, n, per_page).contains(p) by {
        if n == 0 && start % per_page != 0 && p == start / per_page {
            assert(eo == s % b);
        } else {
            let j = choose|j: u64| j < n && #[trigger] entry_page(start, j, per_page) == p;
            vstd::arithmetic::div_mod::lemma_div_is_ordered(s, s + j, b);
            vstd::arithmetic::div_mod::lemma_div_is_ordered(s + j, s + n, b);
            vstd::arithmetic::div_mod::lemma_fundamental_div_mod(s + j, b);
            if p >= end {
                assert(p == end);
                assert(eo != 0) by (nonlinear_arith)
                    requires
                        p == end,
                        s + j == b * p + (s + j) % b,
                        0 <= (s + j) % b,
                        s + n == b * end + eo,
                        j < n;
            }
        }
    }
}

/// The virtual block address that the sixteen bytes of `bytes` at `at` hold.
fn read_vsa(bytes: &[u8], at: usize) -> (r: VirtualBlkAddr)
    requires
        at + VSA_ENTRY_SIZE <= bytes@.len(),
    ensures
        r == decode_vsa(bytes@, at as int),
{
    let n = bytes.len();
    let stripe_id = u32_from_le_bytes(vstd::slice::slice_subrange(bytes, at, at + 4));
    let offset = u64_from_le_bytes(vstd::slice::slice_subrange(bytes, at + 8, at + 16));
    VirtualBlkAddr { stripe_id, offset }
}

/// Writing the stripe id of `v` at `at` and its offset at `at + 8` makes the entry at `at` hold
/// `v`, and leaves every entry that does not overlap it as it was.
proof fn lemma_write_vsa(page: Seq<u8>, at: int, v: VirtualBlkAddr)
    requires
        0 <= at,
        at + VSA_ENTRY_SIZE <= page.len(),
    ensures
        ({
            let p2 = spliced(spliced(page, at, spec_u32_to_le_bytes(v.stripe_id)), at + 8, spec_u64_to_le_bytes(v.offset));
            &&& p2.len() == page.len()
            &&& decode_vsa(p2, at) == v
            &&& forall|at2: int| 0 <= at2 && at2 + VSA_ENTRY_SIZE <= page.len() && (at2 + VSA_ENTRY_SIZE <= at || at + VSA_ENTRY_SIZE <= at2)
                ==> #[trigger] decode_vsa(p2, at2) == decode_vsa(page, at2)
        }),
{
    lemma_auto_spec_u32_to_from_le_bytes();
    lemma_auto_spec_u64_to_from_le_bytes();
    let b1 = spec_u32_to_le_bytes(v.stripe_id);
    let b2 = spec_u64_to_le_bytes(v.offset);
    let p1 = spliced(page, at, b1);
    let p2 = spliced(p1, at + 8, b2);
    assert(p2.subrange(at, at + 4) =~= b1);
    assert(p2.subrange(at + 8, at + 16) =~= b2);
    assert forall|at2: int| 0 <= at2 && at2 + VSA_ENTRY_SIZE <= page.len() && (at2 + VSA_ENTRY_SIZE <= at || at + VSA_ENTRY_SIZE <= at2)
        implies #[trigger] decode_vsa(p2, at2) == decode_vsa(page, at2) by {
        assert(p2.subrange(at2, at2 + 4) =~= page.subrange(at2, at2 + 4));
        assert(p2.subrange(at2 + 8, at2 + 16) =~= page.subrange(at2 + 8, at2 + 16));
    }
}

/// Every entry of a page that holds only the fill byte holds `fill_vsa()`.
proof fn lemma_fill_vsa(page: Seq<u8>, at: int)
    requires
        0 <= at,
        at + VSA_ENTRY_SIZE <= page.len(),
        forall|j: int| 0 <= j < page.len() ==> #[trigger] page[j] == MPAGE_FILL,
    ensures
        decode_vsa(page, at) == fill_vsa(),
{
    let f = Seq::new(VSA_ENTRY_SIZE as nat, |i: int| MPAGE_FILL);
    assert(page.subrange(at, at + 4) =~= f.subrange(0, 4));
    assert(page.subrange(at + 8, at + 16) =~= f.subrange(8, 16));
}

/// Two different blocks in the same page sit in different slots of it.
proof fn lemma_same_page_other_slot(a: u64, b: u64, per_page: u64)
    requires
        per_page > 0,
        a != b,
        a / per_page == b / per_page,
    ensures
        a % per_page != b % per_page,
{
    vstd::arithmetic::div_mod::lemma_fundamental_div_mod(a as int, per_page as int);
    vstd::arithmetic::div_mod::lemma_fundamental_div_mod(b as int, per_page as int);
}

/// The block map of one volume: for each block (RBA), the virtual block address it lives at.
pub struct VSAMapContent {
    map_content: MapContent,
    total_blks: u64,
    array_id: u32,
}

impl VSAMapContent {
    /// Entries per page.
    pub closed spec fn epp(&self) -> u64 {
        self.map_content.epp()
    }

    /// The number of pages.
    pub closed spec fn num_pages(&self) -> u64 {
        self.map_content.map().num_pages()
    }

    /// Whether the layout has been set up.
    pub closed spec fn ready(&self) -> bool {
        self.map_content.initialized()
    }

    /// Whether page `p` is allocated.
    pub closed spec fn allocated(&self, p: int) -> bool {
        self.map_content.map().pages()[p].len() != 0
    }

    /// The page that the entry of `rba` is in.
    pub open spec fn page_of(&self, rba: u64) -> u64 {
        rba / self.epp()
    }

    /// The virtual block address of block `rba`: unmapped while its page is not allocated (or
    /// past the last page), else what its bytes in the page hold.
    pub closed spec fn entry(&self, rba: u64) -> VirtualBlkAddr {
        let p = rba / self.epp();
        if p >= self.num_pages() || !self.allocated(p as int) {
            spec_unmap_vsa()
        } else {
            decode_vsa(self.map_content.map().pages()[p as int], ((rba % self.epp()) * VSA_ENTRY_SIZE) as int)
        }
    }

    /// Which pages are allocated, one bit per page.
    pub closed spec fn valid_mpages(&self) -> Seq<bool> {
        self.map_content.header().valid_mpages()
    }

    /// Which pages were touched, one bit per page.
    pub closed spec fn touched(&self) -> Seq<bool> {
        self.map_content.header().touched()
    }

    /// A well-formed map has one allocated flag and one touched flag per page.
    pub proof fn lemma_flags_cover_pages(&self)
        requires
            self.wf(),
        ensures
            self.valid_mpages().len() == self.num_pages(),
            self.touched().len() == self.num_pages(),
    {
    }

    /// The counter of used blocks.
    pub closed spec fn used_blks(&self) -> u64 {
        self.map_content.header().used_blks()
    }

    /// The number of blocks the volume has.
    pub closed spec fn total(&self) -> u64 {
        self.total_blks
    }

    /// The array the volume is in.
    pub closed spec fn array(&self) -> u32 {
        self.array_id
    }

    /// The id of the map.
    pub closed spec fn id(&self) -> i32 {
        self.map_content.id()
    }

    /// The name of the file the map is kept in.
    pub closed spec fn file_name(&self) -> Seq<char> {
        self.map_content.file_name()
    }

    /// The pages and the header agree in number, and, once laid out, every entry fits in a page
    /// and every page is either unallocated or a whole page.
    pub closed spec fn wf(&self) -> bool {
        let mc = self.map_content;
        &&& mc.map().wf()
        &&& mc.header().valid_mpages().len() == mc.map().num_pages()
        &&& mc.header().touched().len() == mc.map().num_pages()
        &&& mc.initialized() ==> {
            &&& mc.epp() > 0
            &&& mc.epp() * VSA_ENTRY_SIZE <= mc.map().page_size()
            &&& mc.map().page_size() <= usize::MAX
            &&& forall|p: int| 0 <= p < mc.map().pages().len() ==> (#[trigger] mc.map().pages()[p]).len() == 0
                || mc.map().pages()[p].len() == mc.map().page_size()
        }
    }

    /// A laid-out map holds at least one entry per page.
    pub proof fn lemma_ready_layout(&self)
        requires
            self.wf(),
            self.ready(),
        ensures
            self.epp() > 0,
    {
    }

    /// The map of volume `map_id`, kept in file `VSAMap.<map_id>.bin`, not yet laid out.
    pub fn new(map_id: i32, addr_info: &MapperAddressInfo) -> (r: Self)
        ensures
            r.wf(),
            !r.ready(),
            r.id() == map_id,
            r.array() == addr_info.array_id,
            r.total() == 0,
            r.used_blks() == 0,
            r.file_name() == seq!['V', 'S', 'A', 'M', 'a', 'p', '.'] + crate::base::text::signed_decimal(map_id as int) + seq!['.', 'b', 'i', 'n'],
    {
        let fileName = String::from_str("VSAMap.").concat(i32_to_text(map_id).as_str()).concat(".bin");
        proof {
            reveal_strlit("VSAMap.");
            reveal_strlit(".bin");
        }
        VSAMapContent {
            map_content: MapContent::new(map_id, addr_info, fileName, MetaFileType::MapFile),
            total_blks: 0,
            array_id: addr_info.array_id,
        }
    }

    /// Lays the map out for `blk_cnt` blocks in unmapped pages of `mpage_size` bytes (once; a
    /// map already laid out keeps its pages). Always succeeds.
    pub fn InMemoryInit(&mut self, vol_id: u64, blk_cnt: u64, mpage_size: u64) -> (r: Result<(), PosEventId>)
        requires
            old(self).wf(),
            !old(self).ready() ==> init_fits(blk_cnt, VSA_ENTRY_SIZE, mpage_size) && mpage_size <= usize::MAX,
        ensures
            r is Ok,
            final(self).wf(),
            final(self).ready(),
            final(self).total() == blk_cnt,
            final(self).id() == old(self).id(),
            final(self).array() == old(self).array(),
            final(self).file_name() == old(self).file_name(),
            final(self).used_blks() == old(self).used_blks(),
            old(self).ready() ==> forall|rba: u64| #[trigger] final(self).entry(rba) == old(self).entry(rba),
            old(self).ready() ==> final(self).epp() == old(self).epp() && final(self).num_pages() == old(self).num_pages(),
            !old(self).ready() ==> final(self).epp() == mpage_size / VSA_ENTRY_SIZE,
            !old(self).ready() ==> final(self).num_pages() == crate::base::memory::divide_up(blk_cnt as int, (mpage_size / VSA_ENTRY_SIZE) as int),
            !old(self).ready() ==> forall|rba: u64| #[trigger] final(self).entry(rba) == spec_unmap_vsa(),
    {
        let ghost was_ready = self.map_content.initialized();
        self.total_blks = blk_cnt;
        self.map_content.Init(self.total_blks, VSA_ENTRY_SIZE, mpage_size);
        proof {
            let mc = self.map_content;
            if !was_ready {
            assert(mc.epp() * VSA_ENTRY_SIZE <= mpage_size) by (nonlinear_arith)
                requires
                    mc.epp() == mpage_size / VSA_ENTRY_SIZE,
            ;
            }
        }
        Ok(())
    }

    /// The virtual block address of block `rba`. A page number equal to the number of pages
    /// is out of range and excluded.
    pub fn GetEntry(&mut self, rba: BlkAddr) -> (r: VirtualBlkAddr)
        requires
            old(self).wf(),
            old(self).ready(),
            old(self).page_of(rba) != old(self).num_pages(),
        ensures
            r == old(self).entry(rba),
            *final(self) == *old(self),
    {
        self.lookup(rba)
    }

    /// The virtual block address of block `rba`, read without a mutable borrow.
    pub(crate) fn lookup(&self, rba: BlkAddr) -> (r: VirtualBlkAddr)
        requires
            self.wf(),
            self.ready(),
            self.page_of(rba) != self.num_pages(),
        ensures
            r == self.entry(rba),
    {
        let entries_per_page = self.map_content.GetEntriesPerPage();
        let map = self.map_content.GetMap();
        let page_num = rba / entries_per_page;
        if page_num > map.GetNumMpages() {
            return UnmapVsa();
        }
        let page = map.page_bytes(page_num);
        if page.len() == 0 {
            return UnmapVsa();
        }
        let entry_offset = ((rba % entries_per_page) * VSA_ENTRY_SIZE) as usize;
        proof {
            let m = rba % entries_per_page;
            assert(m * VSA_ENTRY_SIZE + VSA_ENTRY_SIZE <= entries_per_page * VSA_ENTRY_SIZE) by (nonlinear_arith)
                requires
                    m < entries_per_page,
            ;
        }
        read_vsa(page.as_slice(), entry_offset)
    }

    /// Maps block `rba` to `vsa`, allocating its page when it is not yet. Every other block keeps
    /// its address, but for the other blocks of a page allocated here, which take what a fresh
    /// page holds. The page is marked allocated and touched, and the used-block counter is
    /// bumped when the entry replaced held the unmapped address.
    pub fn SetEntry(&mut self, rba: BlkAddr, vsa: VirtualBlkAddr) -> (r: Result<(), PosEventId>)
        requires
            old(self).wf(),
            old(self).ready(),
            old(self).page_of(rba) < old(self).num_pages(),
        ensures
            r is Ok,
            final(self).wf(),
            final(self).ready(),
            final(self).epp() == old(self).epp(),
            final(self).num_pages() == old(self).num_pages(),
            final(self).total() == old(self).total(),
            final(self).array() == old(self).array(),
            final(self).id() == old(self).id(),
            final(self).file_name() == old(self).file_name(),
            final(self).entry(rba) == vsa,
            forall|p: int| 0 <= p < old(self).num_pages() ==> #[trigger] final(self).allocated(p) == (p == old(self).page_of(rba) || old(self).allocated(p)),
            forall|r2: u64| r2 != rba ==> #[trigger] final(self).entry(r2) == (if old(self).page_of(r2) == old(self).page_of(rba)
                && !old(self).allocated(old(self).page_of(rba) as int) {
                fill_vsa()
            } else {
                old(self).entry(r2)
            }),
            final(self).valid_mpages() == old(self).valid_mpages().update(old(self).page_of(rba) as int, true),
            final(self).touched() == old(self).touched().update(old(self).page_of(rba) as int, true),
            final(self).valid_mpages().len() == final(self).num_pages(),
            final(self).touched().len() == final(self).num_pages(),
            final(self).valid_mpages()[old(self).page_of(rba) as int],
            final(self).touched()[old(self).page_of(rba) as int],
            final(self).used_blks() == bumped(old(self).used_blks(), is_unmap_vsa(
                if old(self).allocated(old(self).page_of(rba) as int) { old(self).entry(rba) } else { fill_vsa() },
            )),
    {
        let entries_per_page = self.map_content.GetEntriesPerPage();
        let page_num = rba / entries_per_page;
        let ghost pages0 = self.map_content.map().pages();
        let needs_page = self.map_content.GetMap().page_bytes(page_num).len() == 0;
        if needs_page {
            if self.map_content.GetMapMut().AllocateMpage(page_num).is_none() {
                return Err(PosEventId::VSAMAP_SET_FAILURE);
            }
        }
        let ghost pages1 = self.map_content.map().pages();
        let entry_offset = ((rba % entries_per_page) * VSA_ENTRY_SIZE) as usize;
        proof {
            let m = rba % entries_per_page;
            assert(m * VSA_ENTRY_SIZE + VSA_ENTRY_SIZE <= entries_per_page * VSA_ENTRY_SIZE) by (nonlinear_arith)
                requires
                    m < entries_per_page,
            ;
        }
        let old_vsa = read_vsa(self.map_content.GetMap().page_bytes(page_num).as_slice(), entry_offset);
        proof {
            if needs_page {
                lemma_fill_vsa(pages1[page_num as int], entry_offset as int);
            }
        }
        let sid_bytes = u32_to_le_bytes(vsa.stripe_id);
        self.map_content.GetMapMut().write_bytes(page_num, entry_offset, sid_bytes.as_slice());
        let off_bytes = u64_to_le_bytes(vsa.offset);
        self.map_content.GetMapMut().write_bytes(page_num, entry_offset + 8, off_bytes.as_slice());
        self.map_content.GetMapHeaderMut().SetMapAllocated(page_num);
        self.map_content.GetMapHeaderMut().UpdateNumUsedBlks(old_vsa);
        self.map_content.GetMapHeaderMut().SetTouchedMpageBit(page_num);
        proof {
            let at = entry_offset as int;
            lemma_write_vsa(pages1[page_num as int], at, vsa);
            assert forall|r2: u64| r2 != rba implies #[trigger] self.entry(r2) == (if old(self).page_of(r2) == old(self).page_of(rba)
                && !old(self).allocated(old(self).page_of(rba) as int) {
                fill_vsa()
            } else {
                old(self).entry(r2)
            }) by {
                let p2 = r2 / entries_per_page;
                if p2 == page_num {
                    lemma_same_page_other_slot(r2, rba, entries_per_page);
                    let m2 = r2 % entries_per_page;
                    assert(m2 * VSA_ENTRY_SIZE + VSA_ENTRY_SIZE <= entries_per_page * VSA_ENTRY_SIZE) by (nonlinear_arith)
                        requires
                            m2 < entries_per_page,
                    ;
                    if !old(self).allocated(page_num as int) {
                        lemma_fill_vsa(pages1[page_num as int], (m2 * VSA_ENTRY_SIZE) as int);
                    }
                }
            }
        }
        Ok(())
    }

    /// The pages that entries `start .. start + num_entries` are in, as `dirty_pages` counts
    /// them.
    pub fn GetDirtyPages(&self, start: u64, num_entries: u64) -> (r: HashSet<u64>)
        requires
            self.wf(),
            self.ready(),
            start + num_entries <= u64::MAX,
        ensures
            r@ == dirty_pages(start, num_entries, self.epp()),
            forall|p: u64| #[trigger] r@.contains(p) <==> (
                (exists|j: u64| j < num_entries && #[trigger] entry_page(start, j, self.epp()) == p)
                || (num_entries == 0 && start % self.epp() != 0 && p == start / self.epp())),
    {
        broadcast use vstd::std_specs::hash::group_hash_axioms;
        let entries_per_page = self.map_content.GetEntriesPerPage();
        let start_page_num = start / entries_per_page;
        let end_page_num = (start + num_entries) / entries_per_page;
        let end_offset = (start + num_entries) % entries_per_page;
        proof {
            vstd::arithmetic::div_mod::lemma_div_is_ordered(start as int, (start + num_entries) as int, entries_per_page as int);
        }
        let mut dirtyList: HashSet<u64> = HashSet::new();
        let mut page_num = start_page_num;
        while page_num < end_page_num
            invariant
                start_page_num <= end_page_num,
                start_page_num <= page_num <= end_page_num,
                dirtyList@ == Set::new(|p: u64| start_page_num <= p < page_num),
            decreases end_page_num - page_num,
        {
            dirtyList.insert(page_num);
            page_num = page_num + 1;
            assert(dirtyList@ =~= Set::new(|p: u64| start_page_num <= p < page_num));
        }
        if end_offset != 0 {
            dirtyList.insert(end_page_num);
        }
        assert(dirtyList@ =~= dirty_pages(start, num_entries, entries_per_page));
        proof {
            lemma_dirty_pages_are_the_entries_pages(start, num_entries, entries_per_page);
        }
        dirtyList
    }

    /// The counter of used blocks.
    pub fn GetNumUsedBlks(&self) -> (r: u64)
        ensures
            r == self.used_blks(),
    {
        self.map_content.GetMapHeader().GetNumUsedBlks()
    }

    /// Opens the file the map is kept in; the in-memory map has none to open, so this
    /// succeeds.
    pub fn OpenMapFile(&self) -> (r: Result<(), PosEventId>)
        ensures
            r is Ok,
    {
        Ok(())
    }
}

} // verus!
