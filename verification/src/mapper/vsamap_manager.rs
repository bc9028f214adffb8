use vstd::prelude::*;
use std::collections::HashMap;
use crate::base::address_type::{BlkAddr, VirtualBlks, VirtualBlkAddr, UnmapVsa, spec_unmap_vsa, is_unmap_vsa};
use crate::base::memory::{DivideUp, BLOCK_SIZE, divide_up};
use crate::base::pos_event_id::PosEventId;
use crate::bio::ubio::MAX_PROCESSABLE_BLOCK_COUNT;
use crate::mapper::map_content::init_fits;
use crate::mapper::mapper_address_info::MapperAddressInfo;
use crate::mapper::mapper_const::{MapFlushState, MapLoadState};
use crate::mapper::vsamap_content::{VSAMapContent, VSA_ENTRY_SIZE, fill_vsa, bumped};
use crate::volume::volume_base::MAX_VOLUME_COUNT;

verus! {

/// The addresses of the blocks of one request, one per block.
pub type VsaArray = [VirtualBlkAddr; 32];

/// The block maps of the volumes of an array, and whether each volume may be accessed.
pub struct VSAMapManager {
    addr_info: MapperAddressInfo,
    vsa_maps: HashMap<i32, VSAMapContent>,
    map_flush_state: Vec<MapFlushState>,
    map_load_state: Vec<MapLoadState>,
    is_vsa_map_accessable: Vec<bool>,
    is_vsa_map_internal_accessable: Vec<bool>,
    num_write_issued_count: i32,
    num_load_issued_count: i32,
}

/// Whether some block among the first `n` from `start` is in page `p` of a map with `per_page`
/// entries per page.
pub open spec fn covers_page(start: u64, n: u64, per_page: u64, p: u64) -> bool {
    exists|j: u64| j < n && #[trigger] ((start + j) / per_page as int) == p
}

/// The address the `j`-th block of `blks` goes to: offset `start_vsa.offset + j` of its stripe.
pub open spec fn block_target(blks: VirtualBlks, j: u64) -> VirtualBlkAddr {
    VirtualBlkAddr { stripe_id: blks.start_vsa.stripe_id, offset: (blks.start_vsa.offset + j) as u64 }
}

/// Whether the blocks from `start` can be mapped to `blks` in the map of volume `v`: the map
/// exists, the block numbers and offsets fit in 64 bits, and every block's page is in range.
pub open spec fn update_fits(maps: Map<i32, VSAMapContent>, v: i32, start: u64, blks: VirtualBlks) -> bool {
    &&& maps.contains_key(v)
    &&& start + blks.num_blks <= u64::MAX
    &&& blks.num_blks > 0 ==> blks.start_vsa.offset + blks.num_blks - 1 <= u64::MAX
    &&& forall|j: u64| j < blks.num_blks ==> #[trigger] maps[v].page_of((start + j) as u64) < maps[v].num_pages()
}

/// What block `r` of map `m` holds just before an update writes it: what a fresh page holds
/// where its page is not allocated yet, else its address.
pub open spec fn prior_entry(m: VSAMapContent, r: u64) -> VirtualBlkAddr {
    if m.allocated((r / m.epp()) as int) {
        m.entry(r)
    } else {
        fill_vsa()
    }
}

/// How many of the `n` blocks from `start` of map `m` hold the unmapped address just before an
/// update writes them.
pub open spec fn unmapped_before(m: VSAMapContent, start: u64, n: nat) -> nat
    decreases n,
{
    if n == 0 {
        0
    } else {
        unmapped_before(m, start, (n - 1) as nat) + if is_unmap_vsa(prior_entry(m, (start + n - 1) as u64)) {
            1nat
        } else {
            0nat
        }
    }
}

/// A 64-bit counter advanced by `k`, wrapping around at its limit.
pub open spec fn advanced(count: u64, k: nat) -> u64 {
    ((count + k) % 0x1_0000_0000_0000_0000) as u64
}

proof fn lemma_advanced_step(count: u64, k: nat, bump: bool)
    ensures
        bumped(advanced(count, k), bump) == advanced(count, k + if bump { 1nat } else { 0nat }),
{
    let m: int = 0x1_0000_0000_0000_0000;
    let x: int = (count + k) % m;
    vstd::arithmetic::div_mod::lemma_fundamental_div_mod(count + k, m);
    vstd::arithmetic::div_mod::lemma_fundamental_div_mod(count + k + 1, m);
    let q: int = (count + k) / m;
    if bump {
        if x == m - 1 {
            assert(count + k + 1 == (q + 1) * m) by (nonlinear_arith)
                requires count + k == m * q + x, x == m - 1;
            vstd::arithmetic::div_mod::lemma_mod_multiples_basic(q + 1, m);
        } else {
            assert(count + k + 1 == q * m + (x + 1)) by (nonlinear_arith)
                requires count + k == m * q + x;
            vstd::arithmetic::div_mod::lemma_mod_multiples_vanish(q, x + 1, m);
            vstd::arithmetic::div_mod::lemma_small_mod((x + 1) as nat, m as nat);
        }
    }
}

/// The maps after the blocks from `start` of volume `v` were mapped to `blks`: the same
/// volumes, the other volumes' maps unchanged, the same layout for `v`, the blocks mapped to
/// their targets, and every other block unchanged but for those in a page that was allocated by
/// the update, which hold what a fresh page holds; the used-block counter is advanced by the
/// number of mapped blocks that held the unmapped address before.
pub open spec fn updated(m0: Map<i32, VSAMapContent>, m1: Map<i32, VSAMapContent>, v: i32, start: u64, blks: VirtualBlks) -> bool {
    let a = m0[v];
    let b = m1[v];
    &&& m1.dom() == m0.dom()
    &&& forall|w: i32| w != v && #[trigger] m0.contains_key(w) ==> m1[w] == m0[w]
    &&& b.epp() == a.epp()
    &&& b.num_pages() == a.num_pages()
    &&& b.id() == a.id()
    &&& b.total() == a.total()
    &&& b.used_blks() == advanced(a.used_blks(), unmapped_before(a, start, blks.num_blks as nat))
    &&& forall|j: u64| j < blks.num_blks ==> #[trigger] b.entry((start + j) as u64) == block_target(blks, j)
    &&& forall|r2: u64| !(start <= r2 < start + blks.num_blks) ==> #[trigger] b.entry(r2) == (if !a.allocated((r2 / a.epp()) as int)
        && covers_page(start, blks.num_blks as u64, a.epp(), r2 / a.epp()) {
        fill_vsa()
    } else {
        a.entry(r2)
    })
}

impl VSAMapManager {
    /// The block map of each volume that has one.
    pub closed spec fn maps(&self) -> Map<i32, VSAMapContent> {
        self.vsa_maps@
    }

    /// Whether volume `v` may be accessed.
    pub closed spec fn accessible(&self, v: int) -> bool {
        self.is_vsa_map_accessable@[v]
    }

    /// The address geometry.
    pub closed spec fn addr_info(&self) -> MapperAddressInfo {
        self.addr_info
    }

    /// The per-volume states cover every volume, and every block map is laid out.
    pub closed spec fn wf(&self) -> bool {
        &&& self.map_flush_state@.len() == MAX_VOLUME_COUNT
        &&& self.map_load_state@.len() == MAX_VOLUME_COUNT
        &&& self.is_vsa_map_accessable@.len() == MAX_VOLUME_COUNT
        &&& self.is_vsa_map_internal_accessable@.len() == MAX_VOLUME_COUNT
        &&& forall|v: i32| #[trigger] self.vsa_maps@.contains_key(v) ==> self.vsa_maps@[v].wf() && self.vsa_maps@[v].ready()
    }

    /// A manager without block maps, no volume accessible.
    pub fn new(addr_info: MapperAddressInfo) -> (r: Self)
        ensures
            r.wf(),
            r.addr_info() == addr_info,
            r.maps() == Map::<i32, VSAMapContent>::empty(),
            forall|v: int| 0 <= v < MAX_VOLUME_COUNT ==> !#[trigger] r.accessible(v),
    {
        let r = VSAMapManager {
            addr_info,
            vsa_maps: HashMap::new(),
            map_flush_state: vec![MapFlushState::FLUSH_DONE; MAX_VOLUME_COUNT],
            map_load_state: vec![MapLoadState::LOAD_DONE; MAX_VOLUME_COUNT],
            is_vsa_map_accessable: vec![false; MAX_VOLUME_COUNT],
            is_vsa_map_internal_accessable: vec![false; MAX_VOLUME_COUNT],
            num_write_issued_count: 0,
            num_load_issued_count: 0,
        };
        r
    }

    /// Makes every volume inaccessible, every map flushed and loaded, and the issue counters
    /// zero.
    pub fn Init(&mut self)
        requires
            old(self).wf(),
        ensures
            final(self).wf(),
            final(self).maps() == old(self).maps(),
            final(self).addr_info() == old(self).addr_info(),
            forall|v: int| 0 <= v < MAX_VOLUME_COUNT ==> !#[trigger] final(self).accessible(v),
    {
        let mut volume_id: usize = 0;
        while volume_id < MAX_VOLUME_COUNT
            invariant
                volume_id <= MAX_VOLUME_COUNT,
                self.wf(),
                self.maps() == old(self).maps(),
                self.addr_info() == old(self).addr_info(),
                forall|v: int| 0 <= v < volume_id ==> !#[trigger] self.is_vsa_map_accessable@[v],
            decreases MAX_VOLUME_COUNT - volume_id,
        {
            self.is_vsa_map_accessable.set(volume_id, false);
            self.map_flush_state.set(volume_id, MapFlushState::FLUSH_DONE);
            self.map_load_state.set(volume_id, MapLoadState::LOAD_DONE);
            volume_id = volume_id + 1;
        }
        self.num_write_issued_count = 0;
        self.num_load_issued_count = 0;
    }

    /// Releases nothing: the maps live in memory only.
    pub fn Dispose(&mut self)
        ensures
            *final(self) == *old(self),
    {
    }

    /// Lays out and registers the block map of volume `volume_id`, of `vol_size_byte` bytes
    /// (whole blocks, rounded up): the map `vm` when one is given, else a new one. Always
    /// succeeds. A volume that already has a map is excluded.
    pub fn CreateVsaMapContent(&mut self, vm: Option<VSAMapContent>, volume_id: i32, vol_size_byte: u64, del_vol: bool) -> (r: Result<(), PosEventId>)
        requires
            old(self).wf(),
            !old(self).maps().contains_key(volume_id),
            vm matches Some(m) ==> m.wf(),
            vol_size_byte + BLOCK_SIZE - 1 <= u64::MAX,
            !(vm matches Some(m) && m.ready()) ==> init_fits(
                divide_up(vol_size_byte as int, BLOCK_SIZE as int) as u64,
                VSA_ENTRY_SIZE,
                old(self).addr_info().mpage_size as u64,
            ),
        ensures
            r is Ok,
            final(self).wf(),
            final(self).addr_info() == old(self).addr_info(),
            forall|v: int| #[trigger] final(self).accessible(v) == old(self).accessible(v),
            final(self).maps().dom() == old(self).maps().dom().insert(volume_id),
            forall|v: i32| v != volume_id && #[trigger] old(self).maps().contains_key(v) ==> final(self).maps()[v] == old(self).maps()[v],
            final(self).maps()[volume_id].total() == divide_up(vol_size_byte as int, BLOCK_SIZE as int),
            vm is None ==> final(self).maps()[volume_id].id() == volume_id && final(self).maps()[volume_id].used_blks() == 0,
            vm matches Some(m) ==> final(self).maps()[volume_id].id() == m.id() && final(self).maps()[volume_id].used_blks() == m.used_blks(),
            vm matches Some(m) ==> (m.ready() ==> {
                &&& final(self).maps()[volume_id].epp() == m.epp()
                &&& final(self).maps()[volume_id].num_pages() == m.num_pages()
                &&& forall|rba: u64| #[trigger] final(self).maps()[volume_id].entry(rba) == m.entry(rba)
            }),
            !(vm matches Some(m) && m.ready()) ==> {
                let epp = old(self).addr_info().mpage_size as u64 / VSA_ENTRY_SIZE;
                &&& final(self).maps()[volume_id].epp() == epp
                &&& final(self).maps()[volume_id].num_pages() == divide_up(divide_up(vol_size_byte as int, BLOCK_SIZE as int), epp as int)
                &&& forall|rba: u64| #[trigger] final(self).maps()[volume_id].entry(rba) == spec_unmap_vsa()
            },
    {
        broadcast use vstd::std_specs::hash::group_hash_axioms;
        let blk_cnt = DivideUp(vol_size_byte, BLOCK_SIZE);
        let mut map = match vm {
            Some(m) => m,
            None => VSAMapContent::new(volume_id, &self.addr_info),
        };
        match map.InMemoryInit(volume_id as u64, blk_cnt, self.addr_info.mpage_size as u64) {
            Ok(()) => {},
            Err(e) => {
                return Err(PosEventId::MAPPER_FAILED);
            },
        }
        match map.OpenMapFile() {
            Ok(()) => {},
            Err(e) => {
                return Err(PosEventId::MAPPER_FAILED);
            },
        }
        self.vsa_maps.insert(volume_id, map);
        proof {
            assert(self.maps().dom() =~= old(self).maps().dom().insert(volume_id));
        }
        Ok(())
    }

    /// The addresses of the `num_blks` blocks from `start_rba` of volume `volume_id`, the rest
    /// of the array unmapped; `VSAMAP_NOT_ACCESSIBLE` while the volume may not be accessed.
    pub fn GetVSAs(&mut self, volume_id: i32, start_rba: BlkAddr, num_blks: u32) -> (r: Result<VsaArray, PosEventId>)
        requires
            old(self).wf(),
            0 <= volume_id < MAX_VOLUME_COUNT,
            old(self).accessible(volume_id as int) ==> {
                &&& old(self).maps().contains_key(volume_id)
                &&& num_blks <= MAX_PROCESSABLE_BLOCK_COUNT
                &&& start_rba + num_blks <= u64::MAX
                &&& forall|j: u64| j < num_blks ==> #[trigger] old(self).maps()[volume_id].page_of((start_rba + j) as u64) != old(self).maps()[volume_id].num_pages()
            },
        ensures
            *final(self) == *old(self),
            !old(self).accessible(volume_id as int) ==> r == Err::<VsaArray, PosEventId>(PosEventId::VSAMAP_NOT_ACCESSIBLE),
            old(self).accessible(volume_id as int) ==> (r matches Ok(a) && forall|i: int| 0 <= i < 32 ==> #[trigger] a@[i] == (if i < num_blks {
                old(self).maps()[volume_id].entry((start_rba + i) as u64)
            } else {
                spec_unmap_vsa()
            })),
    {
        if self.is_vsa_map_accessable[volume_id as usize] == false {
            return Err(PosEventId::VSAMAP_NOT_ACCESSIBLE);
        }
        let map = match self.vsa_maps.get(&volume_id) {
            Some(m) => m,
            None => {
                return Err(PosEventId::VSAMAP_NOT_ACCESSIBLE);
            },
        };
        let unmap = UnmapVsa();
        let mut vsa_array: VsaArray = [unmap; 32];
        let mut blk_idx: u64 = 0;
        while blk_idx < num_blks as u64
            invariant
                blk_idx <= num_blks,
                num_blks <= MAX_PROCESSABLE_BLOCK_COUNT,
                start_rba + num_blks <= u64::MAX,
                map.wf(),
                map.ready(),
                forall|j: u64| j < num_blks ==> #[trigger] map.page_of((start_rba + j) as u64) != map.num_pages(),
                forall|i: int| 0 <= i < 32 ==> #[trigger] vsa_array@[i] == (if i < blk_idx {
                    map.entry((start_rba + i) as u64)
                } else {
                    spec_unmap_vsa()
                }),
            decreases num_blks - blk_idx,
        {
            let target_rba = start_rba + blk_idx;
            assert(map.page_of((start_rba + blk_idx) as u64) != map.num_pages());
            let vsa = map.lookup(target_rba);
            vsa_array[blk_idx as usize] = vsa;
            blk_idx = blk_idx + 1;
        }
        Ok(vsa_array)
    }

    /// Whether volume `volume_id` may be accessed.
    pub fn IsVsaMapAccessible(&self, volume_id: i32) -> (r: bool)
        requires
            self.wf(),
            0 <= volume_id < MAX_VOLUME_COUNT,
        ensures
            r == self.accessible(volume_id as int),
    {
        self.is_vsa_map_accessable[volume_id as usize]
    }

    /// Lets volume `volume_id` be accessed.
    pub fn EnableVsaMapAccess(&mut self, volume_id: i32)
        requires
            old(self).wf(),
            0 <= volume_id < MAX_VOLUME_COUNT,
        ensures
            final(self).wf(),
            final(self).maps() == old(self).maps(),
            final(self).addr_info() == old(self).addr_info(),
            forall|v: int| 0 <= v < MAX_VOLUME_COUNT ==> #[trigger] final(self).accessible(v) == (v == volume_id || old(self).accessible(v)),
    {
        self.is_vsa_map_accessable.set(volume_id as usize, true);
    }

    /// Stops volume `volume_id` from being accessed.
    pub fn DisableVsaMapAccess(&mut self, volume_id: i32)
        requires
            old(self).wf(),
            0 <= volume_id < MAX_VOLUME_COUNT,
        ensures
            final(self).wf(),
            final(self).maps() == old(self).maps(),
            final(self).addr_info() == old(self).addr_info(),
            forall|v: int| 0 <= v < MAX_VOLUME_COUNT ==> #[trigger] final(self).accessible(v) == (v != volume_id && old(self).accessible(v)),
    {
        self.is_vsa_map_accessable.set(volume_id as usize, false);
    }

    /// Maps the `num_blks` blocks from `start_rba` of volume `volume_id` to the consecutive
    /// addresses of `virtual_blks`; `VSAMAP_NOT_ACCESSIBLE`, changing nothing, while the volume
    /// may not be accessed. See `_UpdateVsaMap` for what happens to the other blocks.
    pub fn SetVSAs(&mut self, volume_id: i32, start_rba: BlkAddr, virtual_blks: VirtualBlks) -> (r: Result<(), PosEventId>)
        requires
            old(self).wf(),
            0 <= volume_id < MAX_VOLUME_COUNT,
            old(self).accessible(volume_id as int) ==> update_fits(old(self).maps(), volume_id, start_rba, virtual_blks),
        ensures
            final(self).wf(),
            final(self).addr_info() == old(self).addr_info(),
            forall|v: int| #[trigger] final(self).accessible(v) == old(self).accessible(v),
            !old(self).accessible(volume_id as int) ==> r == Err::<(), PosEventId>(PosEventId::VSAMAP_NOT_ACCESSIBLE)
                && final(self).maps() == old(self).maps(),
            old(self).accessible(volume_id as int) ==> r is Ok && updated(old(self).maps(), final(self).maps(), volume_id, start_rba, virtual_blks),
    {
        if self.is_vsa_map_accessable[volume_id as usize] == false {
            return Err(PosEventId::VSAMAP_NOT_ACCESSIBLE);
        }
        self._UpdateVsaMap(volume_id, start_rba, virtual_blks)
    }

    /// Maps block `start_rba + i` of volume `volume_id` to offset `start_vsa.offset + i` of
    /// stripe `start_vsa.stripe_id`, for each `i` below `num_blks`. Always succeeds. The other
    /// blocks keep their addresses, but for the blocks of pages allocated here, which take what
    /// a fresh page holds.
    pub fn _UpdateVsaMap(&mut self, volume_id: i32, start_rba: BlkAddr, virtual_blks: VirtualBlks) -> (r: Result<(), PosEventId>)
        requires
            old(self).wf(),
            update_fits(old(self).maps(), volume_id, start_rba, virtual_blks),
        ensures
            r is Ok,
            final(self).wf(),
            final(self).addr_info() == old(self).addr_info(),
            forall|v: int| #[trigger] final(self).accessible(v) == old(self).accessible(v),
            updated(old(self).maps(), final(self).maps(), volume_id, start_rba, virtual_blks),
    {
        broadcast use vstd::std_specs::hash::group_hash_axioms;
        let ghost m0 = self.vsa_maps@[volume_id];
        let ghost epp = m0.epp();
        proof {
            m0.lemma_ready_layout();
        }
        let n = virtual_blks.num_blks as u64;
        let mut map = match self.vsa_maps.remove(&volume_id) {
            Some(m) => m,
            None => {
                return Err(PosEventId::MAPPER_FAILED);
            },
        };
        let ghost removed = *self;
        let mut blk_idx: u64 = 0;
        while blk_idx < n
            invariant
                *self == removed,
                m0 == old(self).vsa_maps@[volume_id],
                epp == m0.epp(),
                removed.vsa_maps@ == old(self).vsa_maps@.remove(volume_id),
                removed.addr_info == old(self).addr_info,
                removed.is_vsa_map_accessable == old(self).is_vsa_map_accessable,
                removed.map_flush_state == old(self).map_flush_state,
                removed.map_load_state == old(self).map_load_state,
                removed.is_vsa_map_internal_accessable == old(self).is_vsa_map_internal_accessable,
                n == virtual_blks.num_blks,
                blk_idx <= n,
                start_rba + n <= u64::MAX,
                n > 0 ==> virtual_blks.start_vsa.offset + n - 1 <= u64::MAX,
                map.wf(),
                map.ready(),
                map.epp() == epp,
                map.num_pages() == m0.num_pages(),
                map.id() == m0.id(),
                map.total() == m0.total(),
                map.used_blks() == advanced(m0.used_blks(), unmapped_before(m0, start_rba, blk_idx as nat)),
                epp > 0,
                forall|j: u64| j < n ==> #[trigger] m0.page_of((start_rba + j) as u64) < m0.num_pages(),
                forall|j: u64| j < blk_idx ==> #[trigger] map.entry((start_rba + j) as u64) == block_target(virtual_blks, j),
                forall|p: int| 0 <= p < m0.num_pages() ==> #[trigger] map.allocated(p) == (m0.allocated(p)
                    || covers_page(start_rba, blk_idx, epp, p as u64)),
                forall|r2: u64| !(start_rba <= r2 < start_rba + blk_idx) ==> #[trigger] map.entry(r2) == (if !m0.allocated((r2 / epp) as int)
                    && covers_page(start_rba, blk_idx, epp, r2 / epp) {
                    fill_vsa()
                } else {
                    m0.entry(r2)
                }),
            decreases n - blk_idx,
        {
            let target_vsa = VirtualBlkAddr {
                stripe_id: virtual_blks.start_vsa.stripe_id,
                offset: virtual_blks.start_vsa.offset + blk_idx,
            };
            let target_rba = start_rba + blk_idx;
            let ghost before = map;
            assert(m0.page_of((start_rba + blk_idx) as u64) < m0.num_pages());
            assert(map.page_of(target_rba) == m0.page_of(target_rba));
            match map.SetEntry(target_rba, target_vsa) {
                Ok(()) => {},
                Err(e) => {
                    self.vsa_maps.insert(volume_id, map);
                    return Err(e);
                },
            }
            proof {
                let pg = target_rba / epp;
                assert(before.allocated(pg as int) == (m0.allocated(pg as int) || covers_page(start_rba, blk_idx, epp, pg)));
                assert((if before.allocated(pg as int) { before.entry(target_rba) } else { fill_vsa() }) == prior_entry(m0, target_rba));
                assert(unmapped_before(m0, start_rba, (blk_idx + 1) as nat) == unmapped_before(m0, start_rba, blk_idx as nat)
                    + if is_unmap_vsa(prior_entry(m0, target_rba)) { 1nat } else { 0nat });
                lemma_advanced_step(m0.used_blks(), unmapped_before(m0, start_rba, blk_idx as nat), is_unmap_vsa(prior_entry(m0, target_rba)));
                assert(covers_page(start_rba, (blk_idx + 1) as u64, epp, pg)) by {
                    assert(((start_rba + blk_idx) / epp as int) == pg);
                }
                assert forall|p: u64| #[trigger] covers_page(start_rba, (blk_idx + 1) as u64, epp, p) == (covers_page(start_rba, blk_idx, epp, p) || p == pg) by {
                    if covers_page(start_rba, blk_idx, epp, p) {
                        let j = choose|j: u64| j < blk_idx && #[trigger] ((start_rba + j) / epp as int) == p;
                        assert(((start_rba + j) / epp as int) == p);
                    }
                    if covers_page(start_rba, (blk_idx + 1) as u64, epp, p) && p != pg {
                        let j = choose|j: u64| j < blk_idx + 1 && #[trigger] ((start_rba + j) / epp as int) == p;
                        assert(((start_rba + j) / epp as int) == p);
                    }
                }
                assert forall|j: u64| j < blk_idx + 1 implies #[trigger] map.entry((start_rba + j) as u64) == block_target(virtual_blks, j) by {
                    if j < blk_idx {
                        assert(before.entry((start_rba + j) as u64) == block_target(virtual_blks, j));
                        let pj = (start_rba + j) / epp as int;
                        assert(covers_page(start_rba, blk_idx, epp, pj as u64)) by {
                            assert(((start_rba + j) / epp as int) == pj);
                        }
                        assert(m0.page_of((start_rba + j) as u64) < m0.num_pages());
                        assert(0 <= pj < m0.num_pages());
                        assert(before.allocated(pj) == (m0.allocated(pj) || covers_page(start_rba, blk_idx, epp, pj as u64)));
                        assert(before.allocated(pj));
                    }
                }
                assert forall|r2: u64| !(start_rba <= r2 < start_rba + blk_idx + 1) implies #[trigger] map.entry(r2) == (if !m0.allocated((r2 / epp) as int)
                    && covers_page(start_rba, (blk_idx + 1) as u64, epp, r2 / epp) {
                    fill_vsa()
                } else {
                    m0.entry(r2)
                }) by {
                    assert(before.entry(r2) == (if !m0.allocated((r2 / epp) as int) && covers_page(start_rba, blk_idx, epp, r2 / epp) {
                        fill_vsa()
                    } else {
                        m0.entry(r2)
                    }));
                    if r2 / epp == pg && pg < m0.num_pages() {
                        assert(before.allocated(pg as int) == (m0.allocated(pg as int) || covers_page(start_rba, blk_idx, epp, pg)));
                    }
                }
            }
            blk_idx = blk_idx + 1;
        }
        self.vsa_maps.insert(volume_id, map);
        proof {
            assert(self.maps().dom() =~= old(self).maps().dom());
        }
        Ok(())
    }
}

} // verus!
