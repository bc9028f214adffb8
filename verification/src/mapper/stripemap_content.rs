use vstd::prelude::*;
use vstd::bytes::*;
use std::collections::HashSet;
use crate::base::address_type::{StripeAddr, StripeId, StripeLoc, UNMAP_STRIPE};
use crate::base::pos_event_id::PosEventId;
use crate::mapper::map::{MpageMap, spliced, MPAGE_FILL};
use crate::mapper::map_content::{MapContent, init_fits};
use crate::mapper::mapper_address_info::MapperAddressInfo;
use crate::metafs::mf_property::MetaFileType;

verus! {

/// The bytes an entry of the stripe map takes in a page.
pub const STRIPE_ENTRY_SIZE: u64 = 8;

/// The number a stripe location is stored as.
pub open spec fn loc_code(loc: StripeLoc) -> u32 {
    match loc {
        StripeLoc::IN_WRITE_BUFFER_AREA => 0,
        StripeLoc::IN_USER_AREA => 1,
    }
}

/// The stripe location stored as `code`: the user area for its number, the write buffer for
/// any other.
pub open spec fn loc_of_code(code: u32) -> StripeLoc {
    if code == 1 {
        StripeLoc::IN_USER_AREA
    } else {
        StripeLoc::IN_WRITE_BUFFER_AREA
    }
}

/// The stripe address that the entry at byte `at` of `page` holds: the location's number in
/// the first four bytes and the stripe id in the next four, both little-endian.
pub open spec fn decode_stripe_addr(page: Seq<u8>, at: int) -> StripeAddr {
    StripeAddr {
        stripe_loc: loc_of_code(spec_u32_from_le_bytes(page.subrange(at, at + 4))),
        stripe_id: spec_u32_from_le_bytes(page.subrange(at + 4, at + 8)),
    }
}

/// What an entry of a freshly allocated page holds before anything is written to it.
pub open spec fn fill_stripe_addr() -> StripeAddr {
    decode_stripe_addr(Seq::new(STRIPE_ENTRY_SIZE as nat, |i: int| MPAGE_FILL), 0)
}

/// The address a stripe without an entry has: no stripe, in the write buffer area.
pub open spec fn unmapped_stripe_addr() -> StripeAddr {
    StripeAddr { stripe_id: UNMAP_STRIPE, stripe_loc: StripeLoc::IN_WRITE_BUFFER_AREA }
}

/// The stripe address that the eight bytes of `bytes` at `at` hold.
fn read_stripe_addr(bytes: &[u8], at: usize) -> (r: StripeAddr)
    requires
        at + STRIPE_ENTRY_SIZE <= bytes@.len(),
    ensures
        r == decode_stripe_addr(bytes@, at as int),
{
    let n = bytes.len();
    let code = u32_from_le_bytes(vstd::slice::slice_subrange(bytes, at, at + 4));
    let stripe_id = u32_from_le_bytes(vstd::slice::slice_subrange(bytes, at + 4, at + 8));
    let stripe_loc = if code == 1 { StripeLoc::IN_USER_AREA } else { StripeLoc::IN_WRITE_BUFFER_AREA };
    StripeAddr { stripe_loc, stripe_id }
}

/// The number a stripe location is stored as.
fn code_of_loc(loc: StripeLoc) -> (r: u32)
    ensures
        r == loc_code(loc),
{
    match loc {
        StripeLoc::IN_WRITE_BUFFER_AREA => 0,
        StripeLoc::IN_USER_AREA => 1,
    }
}

/// Writing the location's number of `a` at `at` and its stripe id at `at + 4` makes the entry
/// at `at` hold `a`, and leaves every entry that does not overlap it as it was.
proof fn lemma_write_stripe_addr(page: Seq<u8>, at: int, a: StripeAddr)
    requires
        0 <= at,
        at + STRIPE_ENTRY_SIZE <= page.len(),
    ensures
        ({
            let p2 = spliced(spliced(page, at, spec_u32_to_le_bytes(loc_code(a.stripe_loc))), at + 4, spec_u32_to_le_bytes(a.stripe_id));
            &&& p2.len() == page.len()
            &&& decode_stripe_addr(p2, at) == a
            &&& forall|at2: int| 0 <= at2 && at2 + STRIPE_ENTRY_SIZE <= page.len() && (at2 + STRIPE_ENTRY_SIZE <= at || at + STRIPE_ENTRY_SIZE <= at2)
                ==> #[trigger] decode_stripe_addr(p2, at2) == decode_stripe_addr(page, at2)
        }),
{
    lemma_auto_spec_u32_to_from_le_bytes();
    let b1 = spec_u32_to_le_bytes(loc_code(a.stripe_loc));
    let b2 = spec_u32_to_le_bytes(a.stripe_id);
    let p2 = spliced(spliced(page, at, b1), at + 4, b2);
    assert(p2.subrange(at, at + 4) =~= b1);
    assert(p2.subrange(at + 4, at + 8) =~= b2);
    assert forall|at2: int| 0 <= at2 && at2 + STRIPE_ENTRY_SIZE <= page.len() && (at2 + STRIPE_ENTRY_SIZE <= at || at + STRIPE_ENTRY_SIZE <= at2)
        implies #[trigger] decode_stripe_addr(p2, at2) == decode_stripe_addr(page, at2) by {
        assert(p2.subrange(at2, at2 + 4) =~= page.subrange(at2, at2 + 4));
        assert(p2.subrange(at2 + 4, at2 + 8) =~= page.subrange(at2 + 4, at2 + 8));
    }
}

/// Every entry of a page that holds only the fill byte holds `fill_stripe_addr()`.
proof fn lemma_fill_stripe_addr(page: Seq<u8>, at: int)
    requires
        0 <= at,
        at + STRIPE_ENTRY_SIZE <= page.len(),
        forall|j: int| 0 <= j < page.len() ==> #[trigger] page[j] == MPAGE_FILL,
    ensures
        decode_stripe_addr(page, at) == fill_stripe_addr(),
{
    let f = Seq::new(STRIPE_ENTRY_SIZE as nat, |i: int| MPAGE_FILL);
    assert(page.subrange(at, at + 4) =~= f.subrange(0, 4));
    assert(page.subrange(at + 4, at + 8) =~= f.subrange(4, 8));
}

/// Two different stripes in the same page sit in different slots of it.
proof fn lemma_same_page_other_slot(a: u64, b: u64, per_page: u64)
    requires
        per_page > 0,
        a != b,
        a / per_page == b / per_page,
    ensures
        a % per_page != b % per_page,
{
    vstd::arithmetic::div_mod::lemma_fundamental_div_mod(a as int, per_page as int);
    vstd::arithmetic::div_mod::lemma_fundamental_div_mod(b as int, per_page as int);
}

/// The stripe map: for each virtual stripe, the logical stripe it is stored in.
pub struct StripeMapContent {
    map_content: MapContent,
}

impl StripeMapContent {
    /// Entries per page.
    pub closed spec fn epp(&self) -> u64 {
        self.map_content.epp()
    }

    /// The number of pages.
    pub closed spec fn num_pages(&self) -> u64 {
        self.map_content.map().num_pages()
    }

    /// Whether the layout has been set up.
    pub closed spec fn ready(&self) -> bool {
        self.map_content.initialized()
    }

    /// Whether page `p` is allocated.
    pub closed spec fn allocated(&self, p: int) -> bool {
        self.map_content.map().pages()[p].len() != 0
    }

    /// The page that the entry of stripe `vsid` is in.
    pub open spec fn page_of(&self, vsid: StripeId) -> u64 {
        (vsid as u64) / self.epp()
    }

    /// The address of stripe `vsid`: unmapped while its page is not allocated (or past the
    /// last page), else what its bytes in the page hold.
    pub closed spec fn entry(&self, vsid: StripeId) -> StripeAddr {
        let p = (vsid as u64) / self.epp();
        if p >= self.num_pages() || !self.allocated(p as int) {
            unmapped_stripe_addr()
        } else {
            decode_stripe_addr(self.map_content.map().pages()[p as int], (((vsid as u64) % self.epp()) * STRIPE_ENTRY_SIZE) as int)
        }
    }

    /// Which pages are allocated, one bit per page.
    pub closed spec fn valid_mpages(&self) -> Seq<bool> {
        self.map_content.header().valid_mpages()
    }

    /// Which pages were touched, one bit per page.
    pub closed spec fn touched(&self) -> Seq<bool> {
        self.map_content.header().touched()
    }

    /// The id of the map.
    pub closed spec fn id(&self) -> i32 {
        self.map_content.id()
    }

    /// The name of the file the map is kept in.
    pub closed spec fn file_name(&self) -> Seq<char> {
        self.map_content.file_name()
    }

    /// The pages and the header agree in number, and, once laid out, every entry fits in a page
    /// and every page is either unallocated or a whole page.
    pub closed spec fn wf(&self) -> bool {
        let mc = self.map_content;
        &&& mc.map().wf()
        &&& mc.header().valid_mpages().len() == mc.map().num_pages()
        &&& mc.header().touched().len() == mc.map().num_pages()
        &&& mc.initialized() ==> {
            &&& mc.epp() > 0
            &&& mc.epp() * STRIPE_ENTRY_SIZE <= mc.map().page_size()
            &&& mc.map().page_size() <= usize::MAX
            &&& forall|p: int| 0 <= p < mc.map().pages().len() ==> (#[trigger] mc.map().pages()[p]).len() == 0
                || mc.map().pages()[p].len() == mc.map().page_size()
        }
    }

    /// The stripe map `map_id`, kept in file `StripeMap.bin`, not yet laid out.
    pub fn new(map_id: i32, addr_info: &MapperAddressInfo) -> (r: Self)
        ensures
            r.wf(),
            !r.ready(),
            r.id() == map_id,
            r.file_name() == seq!['S', 't', 'r', 'i', 'p', 'e', 'M', 'a', 'p', '.', 'b', 'i', 'n'],
    {
        let fileName = String::from_str("StripeMap.bin");
        proof {
            reveal_strlit("StripeMap.bin");
        }
        StripeMapContent { map_content: MapContent::new(map_id, addr_info, fileName, MetaFileType::MapFile) }
    }

    /// Lays the map out for `num_entries` stripes in unmapped pages of `mpage_size` bytes
    /// (once; a map already laid out keeps its pages).
    pub fn InMemoryInit(&mut self, num_entries: u64, mpage_size: u64)
        requires
            old(self).wf(),
            !old(self).ready() ==> init_fits(num_entries, STRIPE_ENTRY_SIZE, mpage_size) && mpage_size <= usize::MAX,
        ensures
            final(self).wf(),
            final(self).ready(),
            final(self).id() == old(self).id(),
            final(self).file_name() == old(self).file_name(),
            old(self).ready() ==> *final(self) == *old(self),
            !old(self).ready() ==> final(self).epp() == mpage_size / STRIPE_ENTRY_SIZE,
            !old(self).ready() ==> final(self).num_pages() == crate::base::memory::divide_up(num_entries as int, (mpage_size / STRIPE_ENTRY_SIZE) as int),
            !old(self).ready() ==> forall|vsid: StripeId| #[trigger] final(self).entry(vsid) == unmapped_stripe_addr(),
    {
        let ghost was_ready = self.map_content.initialized();
        self.map_content.Init(num_entries, STRIPE_ENTRY_SIZE, mpage_size);
        proof {
            let mc = self.map_content;
            if !was_ready {
                assert(mc.epp() * STRIPE_ENTRY_SIZE <= mpage_size) by (nonlinear_arith)
                    requires
                        mc.epp() == mpage_size / STRIPE_ENTRY_SIZE,
                ;
            }
        }
    }

    /// The address of stripe `vsid`. A page number equal to the number of pages is out of
    /// range and excluded.
    pub fn GetEntry(&mut self, vsid: StripeId) -> (r: StripeAddr)
        requires
            old(self).wf(),
            old(self).ready(),
            old(self).page_of(vsid) != old(self).num_pages(),
        ensures
            r == old(self).entry(vsid),
            *final(self) == *old(self),
    {
        let entries_per_mpage = self.map_content.GetEntriesPerPage();
        let page_num = vsid as u64 / entries_per_mpage;
        let map = self.map_content.GetMap();
        if page_num > map.GetNumMpages() {
            return StripeAddr { stripe_id: UNMAP_STRIPE, stripe_loc: StripeLoc::IN_WRITE_BUFFER_AREA };
        }
        let page = map.page_bytes(page_num);
        if page.len() == 0 {
            return StripeAddr { stripe_id: UNMAP_STRIPE, stripe_loc: StripeLoc::IN_WRITE_BUFFER_AREA };
        }
        let entry_offset = ((vsid as u64 % entries_per_mpage) * STRIPE_ENTRY_SIZE) as usize;
        proof {
            let m = vsid as u64 % entries_per_mpage;
            assert(m * STRIPE_ENTRY_SIZE + STRIPE_ENTRY_SIZE <= entries_per_mpage * STRIPE_ENTRY_SIZE) by (nonlinear_arith)
                requires
                    m < entries_per_mpage,
            ;
        }
        read_stripe_addr(page.as_slice(), entry_offset)
    }

    /// Maps stripe `vsid` to `entry`, allocating its page when it is not yet. Every other stripe
    /// keeps its address, but for the other stripes of a page allocated here, which take what a
    /// fresh page holds. The page is marked allocated and touched.
    pub fn SetEntry(&mut self, vsid: StripeId, entry: StripeAddr) -> (r: Result<(), PosEventId>)
        requires
            old(self).wf(),
            old(self).ready(),
            old(self).page_of(vsid) < old(self).num_pages(),
        ensures
            r is Ok,
            final(self).wf(),
            final(self).ready(),
            final(self).epp() == old(self).epp(),
            final(self).num_pages() == old(self).num_pages(),
            final(self).id() == old(self).id(),
            final(self).file_name() == old(self).file_name(),
            final(self).entry(vsid) == entry,
            forall|v2: StripeId| v2 != vsid ==> #[trigger] final(self).entry(v2) == (if old(self).page_of(v2) == old(self).page_of(vsid)
                && !old(self).allocated(old(self).page_of(vsid) as int) {
                fill_stripe_addr()
            } else {
                old(self).entry(v2)
            }),
            final(self).valid_mpages() == old(self).valid_mpages().update(old(self).page_of(vsid) as int, true),
            final(self).touched() == old(self).touched().update(old(self).page_of(vsid) as int, true),
    {
        let entries_per_mpage = self.map_content.GetEntriesPerPage();
        let page_num = vsid as u64 / entries_per_mpage;
        let needs_page = self.map_content.GetMap().page_bytes(page_num).len() == 0;
        if needs_page {
            if self.map_content.GetMapMut().AllocateMpage(page_num).is_none() {
                return Err(PosEventId::STRIPEMAP_SET_FAILURE);
            }
        }
        let ghost pages1 = self.map_content.map().pages();
        let entry_offset = ((vsid as u64 % entries_per_mpage) * STRIPE_ENTRY_SIZE) as usize;
        proof {
            let m = vsid as u64 % entries_per_mpage;
            assert(m * STRIPE_ENTRY_SIZE + STRIPE_ENTRY_SIZE <= entries_per_mpage * STRIPE_ENTRY_SIZE) by (nonlinear_arith)
                requires
                    m < entries_per_mpage,
            ;
        }
        let loc_bytes = u32_to_le_bytes(code_of_loc(entry.stripe_loc));
        self.map_content.GetMapMut().write_bytes(page_num, entry_offset, loc_bytes.as_slice());
        let id_bytes = u32_to_le_bytes(entry.stripe_id);
        self.map_content.GetMapMut().write_bytes(page_num, entry_offset + 4, id_bytes.as_slice());
        self.map_content.GetMapHeaderMut().SetMapAllocated(page_num);
        self.map_content.GetMapHeaderMut().SetTouchedMpageBit(page_num);
        proof {
            lemma_write_stripe_addr(pages1[page_num as int], entry_offset as int, entry);
            assert forall|v2: StripeId| v2 != vsid implies #[trigger] self.entry(v2) == (if old(self).page_of(v2) == old(self).page_of(vsid)
                && !old(self).allocated(old(self).page_of(vsid) as int) {
                fill_stripe_addr()
            } else {
                old(self).entry(v2)
            }) by {
                let p2 = v2 as u64 / entries_per_mpage;
                if p2 == page_num {
                    lemma_same_page_other_slot(v2 as u64, vsid as u64, entries_per_mpage);
                    let m2 = v2 as u64 % entries_per_mpage;
                    assert(m2 * STRIPE_ENTRY_SIZE + STRIPE_ENTRY_SIZE <= entries_per_mpage * STRIPE_ENTRY_SIZE) by (nonlinear_arith)
                        requires
                            m2 < entries_per_mpage,
                    ;
                    if !old(self).allocated(page_num as int) {
                        lemma_fill_stripe_addr(pages1[page_num as int], (m2 * STRIPE_ENTRY_SIZE) as int);
                    }
                }
            }
        }
        Ok(())
    }

    /// The page that the entry of stripe `start` is in. The map flushes one stripe at a time:
    /// other counts are excluded.
    pub fn GetDirtyPages(&self, start: u64, num_entries: u64) -> (r: HashSet<u64>)
        requires
            self.wf(),
            self.ready(),
            num_entries == 1,
        ensures
            r@ == set![start / self.epp()],
    {
        broadcast use vstd::std_specs::hash::group_hash_axioms;
        let entries_per_mpage = self.map_content.GetEntriesPerPage();
        let mut list: HashSet<u64> = HashSet::new();
        list.insert(start / entries_per_mpage);
        assert(list@ =~= set![start / entries_per_mpage]);
        list
    }
}

} // verus!
