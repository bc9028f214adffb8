use vstd::prelude::*;
use vstd::utf8::{valid_utf8, decode_utf8};
use crate::base::text::string_from_utf8;
use crate::mbr::mbr_info::{
    masterBootRecord, ArrayBootRecord, deviceInfo, lemma_mbr_round_trip, lemma_mbr_parsed_wf, MAX_ARRAY_CNT,
    MAX_ARRAY_DEVICE_CNT, ABR_DEVICE_INFO_OFFSET, DEVICE_INFO_SIZE, MBR_ABR_OFFSET, ABR_SIZE, MBR_SIZE,
};
use crate::mbr::mbr_manager::{index_map_loadable, loaded_maps, array_is_indexed, abr_device_uids, latest_image};

verus! {

impl masterBootRecord {
    /// Every field of this record, and of each of its array records, equals the other's.
    pub open spec fn same(&self, other: masterBootRecord) -> bool {
        &&& self.posVersion@ == other.posVersion@
        &&& self.pad0@ == other.pad0@
        &&& self.mbrVersion == other.mbrVersion
        &&& self.pad1@ == other.pad1@
        &&& self.systemUuid@ == other.systemUuid@
        &&& self.arrayNum == other.arrayNum
        &&& self.pad2@ == other.pad2@
        &&& self.arrayValidFlag@ == other.arrayValidFlag@
        &&& self.pad3@ == other.pad3@
        &&& self.arrayDevFlag@ == other.arrayDevFlag@
        &&& self.pad4@ == other.pad4@
        &&& self.arrayInfo@.len() == other.arrayInfo@.len()
        &&& forall|k: int| 0 <= k < self.arrayInfo@.len() ==> (#[trigger] self.arrayInfo@[k]).same(other.arrayInfo@[k])
        &&& self.reserved@ == other.reserved@
        &&& self.mbrParity == other.mbrParity
    }
}

/// Two array records read from the same bytes are the same record.
proof fn lemma_abr_parse_unique(a: ArrayBootRecord, b: ArrayBootRecord, w: Seq<u8>)
    requires
        a.parsed(w),
        b.parsed(w),
    ensures
        a.same(b),
{
    assert forall|k: int| 0 <= k < a.devInfo@.len() implies (#[trigger] a.devInfo@[k]).same(b.devInfo@[k]) by {
        assert(a.devInfo@[k].parsed_from(w, ABR_DEVICE_INFO_OFFSET + DEVICE_INFO_SIZE * k));
        assert(b.devInfo@[k].parsed_from(w, ABR_DEVICE_INFO_OFFSET + DEVICE_INFO_SIZE * k));
    }
}

/// Reading back the bytes of a saved master boot record gives that record: whatever record is
/// read from the bytes that a well-formed record is written as has every field of it.
pub proof fn lemma_mbr_read_back(saved: masterBootRecord, read: masterBootRecord)
    requires
        saved.wf(),
        read.parsed(saved.spec_bytes()),
    ensures
        read.same(saved),
{
    lemma_mbr_round_trip(saved);
    let w = saved.spec_bytes();
    assert forall|k: int| 0 <= k < read.arrayInfo@.len() implies (#[trigger] read.arrayInfo@[k]).same(saved.arrayInfo@[k]) by {
        assert(read.arrayInfo@[k].parsed_from(w, MBR_ABR_OFFSET + ABR_SIZE * k));
        assert(saved.arrayInfo@[k].parsed_from(w, MBR_ABR_OFFSET + ABR_SIZE * k));
        lemma_abr_parse_unique(read.arrayInfo@[k], saved.arrayInfo@[k], w.subrange(MBR_ABR_OFFSET + ABR_SIZE * k, MBR_ABR_OFFSET + ABR_SIZE * k + ABR_SIZE));
    }
}

/// Two master boot records read from the same bytes are the same record.
pub proof fn lemma_mbr_parse_unique(a: masterBootRecord, b: masterBootRecord, w: Seq<u8>)
    requires
        a.parsed(w),
        b.parsed(w),
    ensures
        a.same(b),
{
    assert forall|k: int| 0 <= k < a.arrayInfo@.len() implies (#[trigger] a.arrayInfo@[k]).same(b.arrayInfo@[k]) by {
        let at = MBR_ABR_OFFSET + ABR_SIZE * k;
        assert(a.arrayInfo@[k].parsed_from(w, at));
        assert(b.arrayInfo@[k].parsed_from(w, at));
        lemma_abr_parse_unique(a.arrayInfo@[k], b.arrayInfo@[k], w.subrange(at, at + ABR_SIZE));
    }
}

/// The maps built from two same records are the same, when the maps can be built from them.
proof fn lemma_loaded_maps_same(a: masterBootRecord, b: masterBootRecord, n: int)
    requires
        a.same(b),
        a.wf(),
        index_map_loadable(a),
        0 <= n <= MAX_ARRAY_CNT,
    ensures
        loaded_maps(a, n) == loaded_maps(b, n),
    decreases n,
{
    if n > 0 {
        lemma_loaded_maps_same(a, b, n - 1);
        let x = a.arrayInfo@[n - 1];
        let y = b.arrayInfo@[n - 1];
        assert(x.same(y));
        if array_is_indexed(a, n - 1) {
            assert(abr_device_uids(x) =~= abr_device_uids(y)) by {
                assert forall|j: int| 0 <= j < x.totalDevNum implies #[trigger] x.devInfo@[j].deviceUid@ == y.devInfo@[j].deviceUid@ by {
                    assert(x.devInfo@[j].same(y.devInfo@[j]));
                }
            }
        }
    }
}

/// Whether the maps can be built from a record depends only on what the record holds.
proof fn lemma_loadable_same(a: masterBootRecord, b: masterBootRecord)
    requires
        a.same(b),
        a.wf(),
        index_map_loadable(a),
    ensures
        index_map_loadable(b),
{
    assert forall|k: int| 0 <= k < MAX_ARRAY_CNT && #[trigger] array_is_indexed(b, k) implies {
        &&& b.arrayInfo@[k].totalDevNum <= MAX_ARRAY_DEVICE_CNT
        &&& forall|j: int| 0 <= j < b.arrayInfo@[k].totalDevNum ==> valid_utf8(#[trigger] b.arrayInfo@[k].devInfo@[j].deviceUid@)
    } by {
        lemma_loaded_maps_same(a, b, k);
        assert(a.arrayInfo@[k].same(b.arrayInfo@[k]));
        assert(array_is_indexed(a, k));
        assert forall|j: int| 0 <= j < b.arrayInfo@[k].totalDevNum implies valid_utf8(#[trigger] b.arrayInfo@[k].devInfo@[j].deviceUid@) by {
            assert(valid_utf8(a.arrayInfo@[k].devInfo@[j].deviceUid@));
            assert(a.arrayInfo@[k].devInfo@[j].same(b.arrayInfo@[k].devInfo@[j]));
        }
    }
}

/// Every valid array of `m` counts at most `MAX_ARRAY_DEVICE_CNT` devices, each with a UTF-8 id.
pub open spec fn devices_readable(m: masterBootRecord) -> bool {
    forall|i: int|
        0 <= i < MAX_ARRAY_CNT && #[trigger] m.arrayValidFlag@[i] == 1 ==> {
            &&& m.arrayInfo@[i].totalDevNum <= MAX_ARRAY_DEVICE_CNT
            &&& forall|j: int| 0 <= j < m.arrayInfo@[i].totalDevNum ==> valid_utf8(#[trigger] m.arrayInfo@[i].devInfo@[j].deviceUid@)
        }
}

/// Whether the devices of a record are readable depends only on what the record holds.
proof fn lemma_devices_readable_same(a: masterBootRecord, b: masterBootRecord)
    requires
        a.same(b),
        a.wf(),
        devices_readable(a),
    ensures
        devices_readable(b),
{
    assert forall|i: int| 0 <= i < MAX_ARRAY_CNT && #[trigger] b.arrayValidFlag@[i] == 1 implies {
        &&& b.arrayInfo@[i].totalDevNum <= MAX_ARRAY_DEVICE_CNT
        &&& forall|j: int| 0 <= j < b.arrayInfo@[i].totalDevNum ==> valid_utf8(#[trigger] b.arrayInfo@[i].devInfo@[j].deviceUid@)
    } by {
        assert(a.arrayValidFlag@[i] == 1);
        assert(a.arrayInfo@[i].same(b.arrayInfo@[i]));
        assert forall|j: int| 0 <= j < b.arrayInfo@[i].totalDevNum implies valid_utf8(#[trigger] b.arrayInfo@[i].devInfo@[j].deviceUid@) by {
            assert(valid_utf8(a.arrayInfo@[i].devInfo@[j].deviceUid@));
            assert(a.arrayInfo@[i].devInfo@[j].same(b.arrayInfo@[i].devInfo@[j]));
        }
    }
}

/// Checks that the maps can be built from `m`: tells whether every valid array counts at most
/// `MAX_ARRAY_DEVICE_CNT` devices, each with a UTF-8 id. (It asks this of every valid array,
/// also of one whose name is not UTF-8 or is taken, so a `false` does not mean the maps cannot
/// be built.)
pub fn mbr_loadable(m: &masterBootRecord) -> (r: bool)
    requires
        m.wf(),
    ensures
        r == devices_readable(*m),
        r ==> index_map_loadable(*m),
{
    let mut k: usize = 0;
    while k < MAX_ARRAY_CNT
        invariant
            k <= MAX_ARRAY_CNT,
            m.wf(),
            forall|i: int| 0 <= i < k && #[trigger] m.arrayValidFlag@[i] == 1 ==> {
                &&& m.arrayInfo@[i].totalDevNum <= MAX_ARRAY_DEVICE_CNT
                &&& forall|j: int| 0 <= j < m.arrayInfo@[i].totalDevNum ==> valid_utf8(#[trigger] m.arrayInfo@[i].devInfo@[j].deviceUid@)
            },
        decreases MAX_ARRAY_CNT - k,
    {
        if m.arrayValidFlag[k] == 1 {
            let total = m.arrayInfo[k].totalDevNum;
            if total as usize > MAX_ARRAY_DEVICE_CNT {
                assert(m.arrayValidFlag@[k as int] == 1);
                return false;
            }
            let mut j: u32 = 0;
            while j < total
                invariant
                    k < MAX_ARRAY_CNT,
                    m.wf(),
                    total == m.arrayInfo@[k as int].totalDevNum,
                    m.arrayValidFlag@[k as int] == 1,
                    total <= MAX_ARRAY_DEVICE_CNT,
                    j <= total,
                    forall|jj: int| 0 <= jj < j ==> valid_utf8(#[trigger] m.arrayInfo@[k as int].devInfo@[jj].deviceUid@),
                decreases total - j,
            {
                if string_from_utf8(m.arrayInfo[k].devInfo[j as usize].deviceUid.clone()).is_none() {
                    assert(m.arrayValidFlag@[k as int] == 1);
                    assert(!valid_utf8(m.arrayInfo@[k as int].devInfo@[j as int].deviceUid@));
                    return false;
                }
                j = j + 1;
            }
        }
        k = k + 1;
    }
    proof {
        assert forall|i: int| 0 <= i < MAX_ARRAY_CNT && #[trigger] array_is_indexed(*m, i) implies {
            &&& m.arrayInfo@[i].totalDevNum <= MAX_ARRAY_DEVICE_CNT
            &&& forall|j: int| 0 <= j < m.arrayInfo@[i].totalDevNum ==> valid_utf8(#[trigger] m.arrayInfo@[i].devInfo@[j].deviceUid@)
        } by {
            assert(m.arrayValidFlag@[i] == 1);
        }
    }
    true
}

/// Checks that `LoadMbr` can build its maps from whichever image it picks: tells whether every
/// image of the right size holds a record whose devices are readable (as `mbr_loadable` checks).
pub fn images_loadable(mbr_images: &Vec<Vec<u8>>) -> (r: bool)
    ensures
        r == forall|j: int, m: masterBootRecord|
            0 <= j < mbr_images@.len() && mbr_images@[j]@.len() == MBR_SIZE && #[trigger] m.parsed(mbr_images@[j]@)
                ==> devices_readable(m),
        r ==> forall|j: int, m: masterBootRecord|
            latest_image(mbr_images@.map_values(|v: Vec<u8>| v@), mbr_images@.len() as int) == Some(j)
                && #[trigger] m.parsed(mbr_images@[j]@) ==> index_map_loadable(m),
{
    let ghost imgs = mbr_images@.map_values(|v: Vec<u8>| v@);
    let mut i: usize = 0;
    while i < mbr_images.len()
        invariant
            i <= mbr_images@.len(),
            imgs == mbr_images@.map_values(|v: Vec<u8>| v@),
            forall|j: int, m: masterBootRecord| 0 <= j < i && mbr_images@[j]@.len() == MBR_SIZE && #[trigger] m.parsed(mbr_images@[j]@) ==> index_map_loadable(m) && devices_readable(m),
        decreases mbr_images@.len() - i,
    {
        if let Some(parsed) = masterBootRecord::from_vec_u8(mbr_images[i].clone()) {
            proof {
                lemma_mbr_parsed_wf(*parsed, mbr_images@[i as int]@);
            }
            if !mbr_loadable(&parsed) {
                assert(parsed.parsed(mbr_images@[i as int]@));
                return false;
            }
            proof {
                assert forall|m: masterBootRecord| #[trigger] m.parsed(mbr_images@[i as int]@) implies index_map_loadable(m) && devices_readable(m) by {
                    lemma_mbr_parse_unique(*parsed, m, mbr_images@[i as int]@);
                    lemma_loadable_same(*parsed, m);
                    lemma_devices_readable_same(*parsed, m);
                }
            }
        }
        i = i + 1;
    }
    proof {
        assert forall|j: int, m: masterBootRecord|
            latest_image(imgs, mbr_images@.len() as int) == Some(j) && #[trigger] m.parsed(mbr_images@[j]@) implies index_map_loadable(m) by {
            crate::mbr::mbr_manager::lemma_latest_image_size(imgs, mbr_images@.len() as int);
            assert(imgs[j] == mbr_images@[j]@);
        }
    }
    true
}

} // verus!
