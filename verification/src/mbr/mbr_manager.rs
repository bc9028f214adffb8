use vstd::prelude::*;
use vstd::utf8::{valid_utf8, decode_utf8, encode_utf8};
use crate::array::meta::ArrayMeta;
use crate::base::pos_event_id::PosEventId;
use crate::base::text::string_from_utf8;
use crate::bio::ubio::UbioDir;
use crate::mbr::codec::word_at;
use crate::mbr::index_map::StringIndexMap;
use crate::mbr::mbr_info::{
    ArrayBootRecord, masterBootRecord, MAX_ARRAY_CNT, MAX_ARRAY_DEVICE_CNT, MBR_SIZE,
    MBR_VERSION_OFFSET, SYSTEM_UUID_SIZE, ARRAY_NAME_SIZE, DATE_SIZE, padded_text, lemma_mbr_parsed_wf, IntoVecOfU8,
};
use crate::mbr::mbr_map_manager::{MbrMapManager, map_all_to, lemma_map_all_to_concat};

verus! {

/// What `uuid::Uuid::parse_str` gives for a text: the UUID's bytes, or nothing when the text is
/// not a UUID.
pub uninterp spec fn uuid_bytes_of(text: Seq<char>) -> Option<Seq<u8>>;

/// `uuid::Uuid::new_v4` followed by its `to_string`: a random UUID in its hyphenated text form,
/// which `Uuid::parse_str` accepts (the crate documents both forms). Nothing is said of which
/// UUID it is.
#[verifier::external_body]
fn new_uuid_text() -> (r: String)
    ensures
        uuid_bytes_of(r@) is Some,
{
    uuid::Uuid::new_v4().to_string()
}

/// `uuid::Uuid::parse_str`: the sixteen bytes of the UUID that `text` writes, or nothing when
/// `text` is not a UUID.
#[verifier::external_body]
fn parse_uuid(text: &str) -> (r: Option<Vec<u8>>)
    ensures
        match r {
            Some(v) => uuid_bytes_of(text@) == Some(v@) && v@.len() == 16,
            None => uuid_bytes_of(text@) is None,
        },
{
    match uuid::Uuid::parse_str(text) {
        Ok(u) => Some(u.as_bytes().to_vec()),
        Err(_) => None,
    }
}

/// The MBR version that an image of a master boot record holds.
pub open spec fn image_version(b: Seq<u8>) -> u32 {
    word_at(b, MBR_VERSION_OFFSET as int)
}

/// The image, among the first `n`, with the highest MBR version (the last one on ties), leaving
/// out those that are not `MBR_SIZE` bytes long.
pub open spec fn latest_image(images: Seq<Seq<u8>>, n: int) -> Option<int>
    decreases n,
{
    if n <= 0 {
        None
    } else {
        let prev = latest_image(images, n - 1);
        if images[n - 1].len() != MBR_SIZE {
            prev
        } else {
            match prev {
                None => Some(n - 1),
                Some(p) => if image_version(images[n - 1]) >= image_version(images[p]) {
                    Some(n - 1)
                } else {
                    prev
                },
            }
        }
    }
}

/// The ids (as text) of the first `totalDevNum` devices of an array record.
pub open spec fn abr_device_uids(a: ArrayBootRecord) -> Seq<Seq<char>> {
    Seq::new(a.totalDevNum as nat, |j: int| decode_utf8(a.devInfo@[j].deviceUid@))
}

/// The array-name and device maps built from the first `n` array records of `m`: a valid array
/// whose name is UTF-8 and not taken yet gets its index, and so do its devices.
pub open spec fn loaded_maps(m: masterBootRecord, n: int) -> (Map<Seq<char>, u32>, Map<Seq<char>, u32>)
    decreases n,
{
    if n <= 0 {
        (Map::empty(), Map::empty())
    } else {
        let prev = loaded_maps(m, n - 1);
        let a = m.arrayInfo@[n - 1];
        if m.arrayValidFlag@[n - 1] != 1 || !valid_utf8(a.arrayName@) || prev.0.contains_key(
            decode_utf8(a.arrayName@),
        ) {
            prev
        } else {
            (
                prev.0.insert(decode_utf8(a.arrayName@), (n - 1) as u32),
                map_all_to(prev.1, abr_device_uids(a), (n - 1) as u32),
            )
        }
    }
}

/// Array `k` is one whose devices go into the device map when the maps are built.
pub open spec fn array_is_indexed(m: masterBootRecord, k: int) -> bool {
    &&& m.arrayValidFlag@[k] == 1
    &&& valid_utf8(m.arrayInfo@[k].arrayName@)
    &&& !loaded_maps(m, k).0.contains_key(decode_utf8(m.arrayInfo@[k].arrayName@))
}

/// Every array whose devices go into the device map counts at most `MAX_ARRAY_DEVICE_CNT`
/// devices, and each of their ids is UTF-8.
pub open spec fn index_map_loadable(m: masterBootRecord) -> bool {
    forall|k: int|
        0 <= k < MAX_ARRAY_CNT ==> #[trigger] array_is_indexed(m, k) ==> {
            &&& m.arrayInfo@[k].totalDevNum <= MAX_ARRAY_DEVICE_CNT
            &&& forall|j: int|
                0 <= j < m.arrayInfo@[k].totalDevNum ==> valid_utf8(
                    #[trigger] m.arrayInfo@[k].devInfo@[j].deviceUid@,
                )
        }
}

/// The master boot record kept in memory, with the maps from array names and from device ids
/// to array indices.
pub struct MbrManager {
    pub systeminfo: masterBootRecord,
    pub version: i32,
    pub systemUuid: String,
    pub arrayIndexMap: StringIndexMap,
    pub mapMgr: MbrMapManager,
}

/// The first index whose array slot is free, if any.
pub open spec fn first_free_slot(m: masterBootRecord) -> Option<int> {
    if exists|i: int| 0 <= i < MAX_ARRAY_CNT && m.arrayValidFlag@[i] == 0 {
        Some(choose|i: int| 0 <= i < MAX_ARRAY_CNT && m.arrayValidFlag@[i] == 0 && forall|j: int| 0 <= j < i ==> m.arrayValidFlag@[j] != 0)
    } else {
        None
    }
}

impl MbrManager {
    /// The record, the maps and the system UUID are well formed, and every array index in the
    /// name map is a valid slot.
    pub open spec fn wf(&self) -> bool {
        &&& self.systeminfo.wf()
        &&& self.index_maps_wf()
    }

    /// The maps are consistent, every array index of the name map is a slot, and the system UUID
    /// parses.
    pub open spec fn index_maps_wf(&self) -> bool {
        &&& self.arrayIndexMap.wf()
        &&& self.mapMgr.wf()
        &&& forall|k: Seq<char>| #[trigger] self.arrayIndexMap@.contains_key(k) ==> self.arrayIndexMap@[k] < MAX_ARRAY_CNT
        &&& uuid_bytes_of(self.systemUuid@) is Some
    }

    /// The MBR version kept in memory.
    pub open spec fn spec_version(&self) -> i32 {
        self.version
    }

    /// The map from array names to array indices.
    pub open spec fn array_indices(&self) -> Map<Seq<char>, u32> {
        self.arrayIndexMap@
    }

    /// The system UUID, as text.
    pub open spec fn system_uuid(&self) -> Seq<char> {
        self.systemUuid@
    }

    /// A manager with a blank record (every field zero, so every array slot free), version 0,
    /// no arrays and a fresh random system UUID.
    pub fn new() -> (r: MbrManager)
        ensures
            r.wf(),
            r.systeminfo.is_blank(),
            forall|i: int| 0 <= i < MAX_ARRAY_CNT ==> r.systeminfo.arrayValidFlag@[i] == 0,
            first_free_slot(r.systeminfo) == Some(0int),
            r.spec_version() == 0,
            r.systeminfo.mbrVersion == 0,
            r.systeminfo.arrayNum == 0,
            r.array_indices() == Map::<Seq<char>, u32>::empty(),
            r.mapMgr@ == Map::<Seq<char>, u32>::empty(),
    {
        let r = MbrManager {
            systeminfo: masterBootRecord::default(),
            version: 0,
            systemUuid: new_uuid_text(),
            arrayIndexMap: StringIndexMap::new(),
            mapMgr: MbrMapManager::default(),
        };
        proof {
            let f = r.systeminfo.arrayValidFlag@;
            assert(0 <= 0 < MAX_ARRAY_CNT && f[0] == 0 && forall|j: int| 0 <= j < 0 ==> f[j] != 0);
            let c = choose|i: int| 0 <= i < MAX_ARRAY_CNT && f[i] == 0 && forall|j: int| 0 <= j < i ==> f[j] != 0;
            if c > 0 {
                assert(f[0] != 0);
            }
        }
        r
    }

    /// The master boot record kept in memory.
    pub fn GetMbr(&self) -> (r: &masterBootRecord)
        ensures
            r == &self.systeminfo,
    {
        &self.systeminfo
    }

    /// Picks, among the images read from the devices, the one with the highest MBR version (the
    /// last one on ties); images of the wrong size are left out.
    fn _ReadFromDevices(mbr_images: &Vec<Vec<u8>>) -> (r: Result<Box<masterBootRecord>, PosEventId>)
        ensures
            match latest_image(mbr_images@.map_values(|v: Vec<u8>| v@), mbr_images@.len() as int) {
                None => r == Err::<Box<masterBootRecord>, PosEventId>(PosEventId::MBR_DATA_NOT_FOUND),
                Some(j) => r matches Ok(m) && m.parsed(mbr_images@[j]@),
            },
            r is Err <==> forall|k: int| 0 <= k < mbr_images@.len() ==> #[trigger] mbr_images@[k]@.len() != MBR_SIZE,
            r matches Ok(m) ==> forall|k: int, m2: masterBootRecord|
                0 <= k < mbr_images@.len() && mbr_images@[k]@.len() == MBR_SIZE && #[trigger] m2.parsed(mbr_images@[k]@)
                    ==> m2.mbrVersion <= m.mbrVersion,
    {
        proof {
            let imgs = mbr_images@.map_values(|v: Vec<u8>| v@);
            lemma_latest_image_is_newest(imgs, imgs.len() as int);
            lemma_latest_image_size(imgs, imgs.len() as int);
            assert forall|k: int| 0 <= k < mbr_images@.len() implies #[trigger] mbr_images@[k]@ == imgs[k] by {}
        }
        let ghost imgs = mbr_images@.map_values(|v: Vec<u8>| v@);
        let mut best: Option<Box<masterBootRecord>> = None;
        let ghost mut best_idx: int = -1;
        let mut i: usize = 0;
        while i < mbr_images.len()
            invariant
                i <= mbr_images@.len(),
                imgs == mbr_images@.map_values(|v: Vec<u8>| v@),
                match latest_image(imgs, i as int) {
                    None => best is None,
                    Some(j) => best_idx == j && (best matches Some(m) && m.parsed(imgs[j])),
                },
            decreases mbr_images@.len() - i,
        {
            if !Self::_VerifyParity(&mbr_images[i]) || !Self::_VerifySystemUuid(&mbr_images[i]) {
                i = i + 1;
                continue;
            }
            let parsed = masterBootRecord::from_vec_u8(mbr_images[i].clone());
            proof {
                assert(imgs[i as int] == mbr_images@[i as int]@);
            }
            match parsed {
                Some(m) => {
                    let take = match &best {
                        None => true,
                        Some(b) => m.mbrVersion >= b.mbrVersion,
                    };
                    if take {
                        best = Some(m);
                        proof {
                            best_idx = i as int;
                        }
                    }
                },
                None => {},
            }
            i = i + 1;
        }
        proof {
            lemma_latest_image_size(imgs, mbr_images@.len() as int);
            if let Some(j) = latest_image(imgs, mbr_images@.len() as int) {
                assert(imgs[j] == mbr_images@[j]@);
            }
        }
        match best {
            Some(m) => Ok(m),
            None => Err(PosEventId::MBR_DATA_NOT_FOUND),
        }
    }

    /// Whether the parity of an image read from a device checks out; parity is not kept yet,
    /// so every image passes.
    fn _VerifyParity(mem: &Vec<u8>) -> (r: bool)
        ensures
            r,
    {
        true
    }

    /// Whether the system UUID of an image read from a device is this system's; it is not
    /// checked yet, so every image passes.
    fn _VerifySystemUuid(mem: &Vec<u8>) -> (r: bool)
        ensures
            r,
    {
        true
    }

    /// Stamps the parity of an image to be written; parity is not kept yet, so the image stays
    /// as it is.
    fn _SetParity(&self, mem: &mut Vec<u8>)
        ensures
            final(mem)@ == old(mem)@,
    {
    }

    /// Marks every device of `abr`'s first `totalDevNum` device records as belonging to array
    /// `index`.
    fn _InsertAbrDevices(mapMgr: &mut MbrMapManager, abr: &ArrayBootRecord, index: u32)
        requires
            old(mapMgr).wf(),
            abr.wf(),
            abr.totalDevNum <= MAX_ARRAY_DEVICE_CNT,
            forall|j: int| 0 <= j < abr.totalDevNum ==> valid_utf8(#[trigger] abr.devInfo@[j].deviceUid@),
        ensures
            final(mapMgr).wf(),
            final(mapMgr)@ == map_all_to(old(mapMgr)@, abr_device_uids(*abr), index),
    {
        let ghost start = mapMgr@;
        let total = abr.totalDevNum;
        let mut j: u32 = 0;
        while j < total
            invariant
                mapMgr.wf(),
                abr.wf(),
                total == abr.totalDevNum,
                total <= MAX_ARRAY_DEVICE_CNT,
                forall|jj: int| 0 <= jj < abr.totalDevNum ==> valid_utf8(#[trigger] abr.devInfo@[jj].deviceUid@),
                j <= total,
                mapMgr@ == map_all_to(start, abr_device_uids(*abr).subrange(0, j as int), index),
            decreases total - j,
        {
            let uid_bytes = abr.devInfo[j as usize].deviceUid.clone();
            let uid = match string_from_utf8(uid_bytes) {
                Some(s) => s,
                None => {
                    assert(false);
                    return;
                },
            };
            let _ = mapMgr.InsertDevice(&uid, index);
            proof {
                let a = abr_device_uids(*abr).subrange(0, j as int);
                let b = abr_device_uids(*abr).subrange(0, j as int + 1);
                let u = uid@;
                assert(b =~= a + seq![u]);
                lemma_map_all_to_concat(start, a, seq![u], index);
                assert forall|k: Seq<char>| seq![u].contains(k) == (k == u) by {
                    if k == u {
                        assert(seq![u][0] == k);
                    }
                }
                assert(map_all_to(start, b, index) =~= map_all_to(start, a, index).insert(u, index));
            }
            j = j + 1;
        }
        assert(abr_device_uids(*abr).subrange(0, total as int) =~= abr_device_uids(*abr));
    }

    /// Rebuilds the array-name map and the device map from the valid arrays of `systeminfo`.
    fn _LoadIndexMap(arrayIndexMap: &mut StringIndexMap, mapMgr: &mut MbrMapManager, systeminfo: &masterBootRecord)
        requires
            old(arrayIndexMap).wf(),
            old(mapMgr).wf(),
            systeminfo.wf(),
            index_map_loadable(*systeminfo),
        ensures
            final(arrayIndexMap).wf(),
            final(mapMgr).wf(),
            final(arrayIndexMap)@ == loaded_maps(*systeminfo, MAX_ARRAY_CNT as int).0,
            final(mapMgr)@ == loaded_maps(*systeminfo, MAX_ARRAY_CNT as int).1,
            forall|k: Seq<char>| #[trigger] final(arrayIndexMap)@.contains_key(k) ==> final(arrayIndexMap)@[k] < MAX_ARRAY_CNT,
            forall|name: Seq<char>, d: Seq<char>|
                final(arrayIndexMap)@.contains_key(name)
                    && #[trigger] abr_device_uids(systeminfo.arrayInfo@[final(arrayIndexMap)@[name] as int]).contains(d)
                    ==> final(mapMgr)@.contains_key(d) && final(mapMgr)@[d] >= final(arrayIndexMap)@[name],
            forall|d: Seq<char>| #[trigger] final(mapMgr)@.contains_key(d) ==> {
                let k = final(mapMgr)@[d] as int;
                &&& abr_device_uids(systeminfo.arrayInfo@[k]).contains(d)
                &&& final(arrayIndexMap)@.contains_key(decode_utf8(systeminfo.arrayInfo@[k].arrayName@))
                &&& final(arrayIndexMap)@[decode_utf8(systeminfo.arrayInfo@[k].arrayName@)] == k
            },
    {
        proof {
            lemma_loaded_maps_devices(*systeminfo, MAX_ARRAY_CNT as int);
        }
        arrayIndexMap.clear();
        mapMgr.ResetMap();
        let mut i: usize = 0;
        while i < MAX_ARRAY_CNT
            invariant
                i <= MAX_ARRAY_CNT,
                arrayIndexMap.wf(),
                mapMgr.wf(),
                systeminfo.wf(),
                index_map_loadable(*systeminfo),
                arrayIndexMap@ == loaded_maps(*systeminfo, i as int).0,
                mapMgr@ == loaded_maps(*systeminfo, i as int).1,
                forall|k: Seq<char>| #[trigger] arrayIndexMap@.contains_key(k) ==> arrayIndexMap@[k] < i,
            decreases MAX_ARRAY_CNT - i,
        {
            if systeminfo.arrayValidFlag[i] != 1 {
                i = i + 1;
                continue;
            }
            let name = match string_from_utf8(systeminfo.arrayInfo[i].arrayName.clone()) {
                Some(n) => n,
                None => {
                    i = i + 1;
                    continue;
                },
            };
            if arrayIndexMap.get(&name).is_none() {
                proof {
                    assert(array_is_indexed(*systeminfo, i as int));
                }
                arrayIndexMap.insert(name, i as u32);
                Self::_InsertAbrDevices(mapMgr, &systeminfo.arrayInfo[i], i as u32);
            }
            i = i + 1;
        }
    }

    /// Loads the master boot record from the images read from the devices: the image with the
    /// highest version becomes the record in memory, its version the version in memory, and the
    /// maps are rebuilt from it. Fails with `MBR_DATA_NOT_FOUND` (nothing changed) when no image
    /// has the right size, and with `MBR_WRONG_ARRAY_INDEX_MAP` when the record's array count
    /// differs from the number of named arrays.
    pub fn LoadMbr(&mut self, mbr_images: &Vec<Vec<u8>>) -> (r: Result<(), PosEventId>)
        requires
            old(self).wf(),
            forall|j: int, m: masterBootRecord|
                latest_image(mbr_images@.map_values(|v: Vec<u8>| v@), mbr_images@.len() as int) == Some(j)
                    && #[trigger] m.parsed(mbr_images@[j]@) ==> index_map_loadable(m),
        ensures
            final(self).wf(),
            final(self).system_uuid() == old(self).system_uuid(),
            match latest_image(mbr_images@.map_values(|v: Vec<u8>| v@), mbr_images@.len() as int) {
                None => {
                    &&& r == Err::<(), PosEventId>(PosEventId::MBR_DATA_NOT_FOUND)
                    &&& final(self).systeminfo == old(self).systeminfo
                    &&& final(self).spec_version() == old(self).spec_version()
                    &&& final(self).array_indices() == old(self).array_indices()
                    &&& final(self).mapMgr@ == old(self).mapMgr@
                },
                Some(j) => {
                    &&& final(self).systeminfo.parsed(mbr_images@[j]@)
                    &&& final(self).spec_version() == final(self).systeminfo.mbrVersion as i32
                    &&& final(self).array_indices() == loaded_maps(final(self).systeminfo, MAX_ARRAY_CNT as int).0
                    &&& final(self).mapMgr@ == loaded_maps(final(self).systeminfo, MAX_ARRAY_CNT as int).1
                    &&& r is Ok <==> final(self).systeminfo.arrayNum == final(self).array_indices().len() as u32
                    &&& r is Err ==> r == Err::<(), PosEventId>(PosEventId::MBR_WRONG_ARRAY_INDEX_MAP)
                },
            },
            latest_image(mbr_images@.map_values(|v: Vec<u8>| v@), mbr_images@.len() as int) is Some ==> {
                &&& forall|name: Seq<char>, d: Seq<char>|
                    final(self).array_indices().contains_key(name)
                        && #[trigger] abr_device_uids(final(self).systeminfo.arrayInfo@[final(self).array_indices()[name] as int]).contains(d)
                        ==> final(self).mapMgr@.contains_key(d) && final(self).mapMgr@[d] >= final(self).array_indices()[name]
                &&& forall|d: Seq<char>| #[trigger] final(self).mapMgr@.contains_key(d) ==> {
                    let k = final(self).mapMgr@[d] as int;
                    &&& abr_device_uids(final(self).systeminfo.arrayInfo@[k]).contains(d)
                    &&& final(self).array_indices().contains_key(decode_utf8(final(self).systeminfo.arrayInfo@[k].arrayName@))
                    &&& final(self).array_indices()[decode_utf8(final(self).systeminfo.arrayInfo@[k].arrayName@)] == k
                }
            },
            r is Ok ==> forall|k: int, m2: masterBootRecord|
                0 <= k < mbr_images@.len() && mbr_images@[k]@.len() == MBR_SIZE && #[trigger] m2.parsed(mbr_images@[k]@)
                    ==> m2.mbrVersion <= final(self).systeminfo.mbrVersion,
    {
        let read = Self::_ReadFromDevices(mbr_images);
        let ghost imgs = mbr_images@.map_values(|v: Vec<u8>| v@);
        match read {
            Err(e) => {
                return Err(e);
            },
            Ok(mbr) => {
                proof {
                    let j = latest_image(imgs, mbr_images@.len() as int)->0;
                    assert(mbr.parsed(mbr_images@[j]@));
                    lemma_latest_image_size(imgs, mbr_images@.len() as int);
                    assert(imgs[j] == mbr_images@[j]@);
                    lemma_mbr_parsed_wf(*mbr, mbr_images@[j]@);
                }
                self.version = mbr.mbrVersion as i32;
                self.systeminfo = *mbr;
            },
        }
        Self::_LoadIndexMap(&mut self.arrayIndexMap, &mut self.mapMgr, &self.systeminfo);
        proof {
            lemma_loaded_maps_devices(self.systeminfo, MAX_ARRAY_CNT as int);
        }
        if self.systeminfo.arrayNum != self.arrayIndexMap.len() as u32 {
            return Err(PosEventId::MBR_WRONG_ARRAY_INDEX_MAP);
        }
        Ok(())
    }
}

/// Loading the maps from the first `n` array records of `m` names each array by its slot, and
/// maps every device to a named array that holds it: each device of a named array is mapped,
/// to that array or to a later named array that holds it too.
pub proof fn lemma_loaded_maps_devices(m: masterBootRecord, n: int)
    requires
        0 <= n <= MAX_ARRAY_CNT,
        m.arrayInfo@.len() == MAX_ARRAY_CNT,
        m.arrayValidFlag@.len() == MAX_ARRAY_CNT,
    ensures
        forall|name: Seq<char>| #[trigger] loaded_maps(m, n).0.contains_key(name) ==> {
            let k = loaded_maps(m, n).0[name] as int;
            &&& 0 <= k < n
            &&& m.arrayValidFlag@[k] == 1
            &&& decode_utf8(m.arrayInfo@[k].arrayName@) == name
        },
        forall|d: Seq<char>| #[trigger] loaded_maps(m, n).1.contains_key(d) ==> {
            let k = loaded_maps(m, n).1[d] as int;
            &&& 0 <= k < n
            &&& abr_device_uids(m.arrayInfo@[k]).contains(d)
            &&& loaded_maps(m, n).0.contains_key(decode_utf8(m.arrayInfo@[k].arrayName@))
            &&& loaded_maps(m, n).0[decode_utf8(m.arrayInfo@[k].arrayName@)] == k
        },
        forall|name: Seq<char>, d: Seq<char>|
            loaded_maps(m, n).0.contains_key(name) && #[trigger] abr_device_uids(m.arrayInfo@[loaded_maps(m, n).0[name] as int]).contains(d)
                ==> loaded_maps(m, n).1.contains_key(d) && loaded_maps(m, n).1[d] >= loaded_maps(m, n).0[name],
    decreases n,
{
    if n > 0 {
        lemma_loaded_maps_devices(m, n - 1);
        let prev = loaded_maps(m, n - 1);
        let cur = loaded_maps(m, n);
        let i = n - 1;
        let a = m.arrayInfo@[i];
        let nm = decode_utf8(a.arrayName@);
        if m.arrayValidFlag@[i] != 1 || !valid_utf8(a.arrayName@) || prev.0.contains_key(nm) {
            assert(cur == prev);
        } else {
            let uids = abr_device_uids(a);
            assert(cur.0 == prev.0.insert(nm, i as u32));
            assert(cur.1 == map_all_to(prev.1, uids, i as u32));
            assert forall|d: Seq<char>| #[trigger] cur.1.contains_key(d) implies {
                let k = cur.1[d] as int;
                &&& 0 <= k < n
                &&& abr_device_uids(m.arrayInfo@[k]).contains(d)
                &&& cur.0.contains_key(decode_utf8(m.arrayInfo@[k].arrayName@))
                &&& cur.0[decode_utf8(m.arrayInfo@[k].arrayName@)] == k
            } by {
                if uids.contains(d) {
                    assert(cur.1[d] == i as u32);
                } else {
                    assert(prev.1.contains_key(d));
                    assert(cur.1[d] == prev.1[d]);
                    let k = prev.1[d] as int;
                    assert(prev.0.contains_key(decode_utf8(m.arrayInfo@[k].arrayName@)));
                    assert(decode_utf8(m.arrayInfo@[k].arrayName@) != nm);
                }
            }
            assert forall|name: Seq<char>, d: Seq<char>|
                cur.0.contains_key(name) && #[trigger] abr_device_uids(m.arrayInfo@[cur.0[name] as int]).contains(d)
                implies cur.1.contains_key(d) && cur.1[d] >= cur.0[name] by {
                if name == nm {
                    assert(cur.0[name] == i as u32);
                    assert(cur.1[d] == i as u32);
                } else {
                    assert(prev.0.contains_key(name));
                    assert(cur.0[name] == prev.0[name]);
                    assert(abr_device_uids(m.arrayInfo@[prev.0[name] as int]).contains(d));
                    assert(prev.1.contains_key(d) && prev.1[d] >= prev.0[name]);
                    if uids.contains(d) {
                        assert(cur.1[d] == i as u32);
                    } else {
                        assert(cur.1[d] == prev.1[d]);
                    }
                }
            }
        }
    }
}

/// The image that loading picks is the newest: no image of the right size among the first `n`
/// holds a higher MBR version, and an image is picked exactly when one of them has the right
/// size.
pub proof fn lemma_latest_image_is_newest(images: Seq<Seq<u8>>, n: int)
    requires
        0 <= n <= images.len(),
    ensures
        latest_image(images, n) is None <==> forall|k: int| 0 <= k < n ==> #[trigger] images[k].len() != MBR_SIZE,
        latest_image(images, n) matches Some(j) ==> forall|k: int|
            0 <= k < n && #[trigger] images[k].len() == MBR_SIZE ==> image_version(images[k]) <= image_version(images[j]),
    decreases n,
{
    if n > 0 {
        lemma_latest_image_is_newest(images, n - 1);
        lemma_latest_image_size(images, n - 1);
        if latest_image(images, n) is None {
            assert forall|k: int| 0 <= k < n implies #[trigger] images[k].len() != MBR_SIZE by {
                if k < n - 1 {
                } else {
                }
            }
        } else {
            if images[n - 1].len() == MBR_SIZE {
            } else {
                assert(latest_image(images, n - 1) is Some);
            }
        }
    }
}

/// The chosen latest image is one of the images, and has the master boot record's size.
pub proof fn lemma_latest_image_size(images: Seq<Seq<u8>>, n: int)
    requires
        0 <= n <= images.len(),
    ensures
        latest_image(images, n) matches Some(j) ==> 0 <= j < n && images[j].len() == MBR_SIZE,
    decreases n,
{
    if n > 0 {
        lemma_latest_image_size(images, n - 1);
    }
}


/// `m` after array `i` is recorded as created for `meta` at time `now`: its slot marked valid,
/// one more array counted, its record named after the array, given the array's unique id and
/// dated `now` as both its creation and its update.
pub open spec fn abr_created(old_m: masterBootRecord, m: masterBootRecord, meta: ArrayMeta, now: Seq<char>, i: int) -> bool {
    &&& m.arrayValidFlag@ == old_m.arrayValidFlag@.update(i, 1)
    &&& m.arrayNum == old_m.arrayNum + 1
    &&& m.arrayInfo@.len() == old_m.arrayInfo@.len()
    &&& forall|k: int| 0 <= k < m.arrayInfo@.len() && k != i ==> #[trigger] m.arrayInfo@[k] == old_m.arrayInfo@[k]
    &&& m.arrayInfo@[i].arrayName@ == encode_utf8(meta.arrayName@) + Seq::new(
        (ARRAY_NAME_SIZE - encode_utf8(meta.arrayName@).len()) as nat,
        |x: int| 0u8,
    )
    &&& m.arrayInfo@[i].uniqueId == meta.unique_id
    &&& m.arrayInfo@[i].createDatetime@ == padded_text(now, DATE_SIZE as nat)
    &&& m.arrayInfo@[i].updateDatetime@ == padded_text(now, DATE_SIZE as nat)
    &&& m.arrayInfo@[i].same_except_name_id_and_dates(old_m.arrayInfo@[i])
    &&& m.mbrVersion == old_m.mbrVersion
    &&& m.systemUuid == old_m.systemUuid
    &&& m.posVersion == old_m.posVersion
    &&& m.reserved == old_m.reserved
    &&& m.mbrParity == old_m.mbrParity
}

/// Creating an array for `meta` gets as far as taking a free slot.
pub open spec fn create_abr_takes_slot(mgr: MbrManager, meta: ArrayMeta) -> bool {
    &&& mgr.systeminfo.arrayNum <= MAX_ARRAY_CNT
    &&& !mgr.array_indices().contains_key(meta.arrayName@)
    &&& forall|i: int| 0 <= i < meta.devs.all_uids().len() ==> !mgr.mapMgr@.contains_key(#[trigger] meta.devs.all_uids()[i])
    &&& first_free_slot(mgr.systeminfo) is Some
}

/// The record with the given version and the system UUID's bytes over the start of the UUID
/// field.
pub open spec fn mbr_to_save(m: masterBootRecord, version: i32, uuid: Seq<u8>) -> bool {
    &&& m.mbrVersion == version as u32
    &&& m.systemUuid@ == uuid + m.systemUuid@.subrange(16, SYSTEM_UUID_SIZE as int)
}

impl MbrManager {
    /// Creates the boot record of a new array for `meta` in the first free slot and returns the
    /// slot's index. Fails, changing nothing, with `MBR_MAX_ARRAY_CNT_EXCEED` when more arrays
    /// than slots are counted, `MBR_ABR_ALREADY_EXIST` when the name is taken,
    /// `MBR_DEVICE_ALREADY_IN_ARRAY` when one of its devices belongs to an array, and
    /// `MBR_WRONG_ARRAY_VALID_FLAG` when no slot is free. The new record is dated `now` (the
    /// current time's text) as both its creation and its update.
    pub fn CreateAbr(&mut self, meta: ArrayMeta, now: &String) -> (r: Result<u32, PosEventId>)
        requires
            old(self).wf(),
            create_abr_takes_slot(*old(self), meta) ==> encode_utf8(meta.arrayName@).len() <= ARRAY_NAME_SIZE,
            create_abr_takes_slot(*old(self), meta) ==> encode_utf8(now@).len() <= DATE_SIZE,
        ensures
            final(self).wf(),
            final(self).spec_version() == old(self).spec_version(),
            final(self).system_uuid() == old(self).system_uuid(),
            old(self).systeminfo.arrayNum > MAX_ARRAY_CNT ==> r == Err::<u32, PosEventId>(PosEventId::MBR_MAX_ARRAY_CNT_EXCEED),
            old(self).systeminfo.arrayNum <= MAX_ARRAY_CNT && old(self).array_indices().contains_key(meta.arrayName@)
                ==> r == Err::<u32, PosEventId>(PosEventId::MBR_ABR_ALREADY_EXIST),
            old(self).systeminfo.arrayNum <= MAX_ARRAY_CNT && !old(self).array_indices().contains_key(meta.arrayName@)
                && (exists|i: int| 0 <= i < meta.devs.all_uids().len() && old(self).mapMgr@.contains_key(#[trigger] meta.devs.all_uids()[i]))
                ==> r == Err::<u32, PosEventId>(PosEventId::MBR_DEVICE_ALREADY_IN_ARRAY),
            old(self).systeminfo.arrayNum <= MAX_ARRAY_CNT && !old(self).array_indices().contains_key(meta.arrayName@)
                && (forall|i: int| 0 <= i < meta.devs.all_uids().len() ==> !old(self).mapMgr@.contains_key(#[trigger] meta.devs.all_uids()[i]))
                && first_free_slot(old(self).systeminfo) is None
                ==> r == Err::<u32, PosEventId>(PosEventId::MBR_WRONG_ARRAY_VALID_FLAG),
            r is Err ==> final(self).systeminfo == old(self).systeminfo && final(self).array_indices() == old(self).array_indices()
                && final(self).mapMgr@ == old(self).mapMgr@,
            create_abr_takes_slot(*old(self), meta) <==> r is Ok,
            r matches Ok(i) ==> {
                &&& Some(i as int) == first_free_slot(old(self).systeminfo)
                &&& abr_created(old(self).systeminfo, final(self).systeminfo, meta, now@, i as int)
                &&& final(self).array_indices() == old(self).array_indices().insert(meta.arrayName@, i)
                &&& final(self).mapMgr@ == map_all_to(old(self).mapMgr@, meta.devs.all_uids(), i)
            },
    {
        if self.systeminfo.arrayNum > MAX_ARRAY_CNT as u32 {
            return Err(PosEventId::MBR_MAX_ARRAY_CNT_EXCEED);
        }
        if self.arrayIndexMap.contains_key(&meta.arrayName) {
            return Err(PosEventId::MBR_ABR_ALREADY_EXIST);
        }
        let ret = self.mapMgr.CheckAllDevices(&meta);
        if let Err(e) = ret {
            return Err(e);
        }
        let mut i: usize = 0;
        while i < MAX_ARRAY_CNT
            invariant
                i <= MAX_ARRAY_CNT,
                *self == *old(self),
                self.wf(),
                create_abr_takes_slot(*old(self), meta) ==> encode_utf8(meta.arrayName@).len() <= ARRAY_NAME_SIZE,
                create_abr_takes_slot(*old(self), meta) ==> encode_utf8(now@).len() <= DATE_SIZE,
                self.systeminfo.arrayNum <= MAX_ARRAY_CNT,
                !self.array_indices().contains_key(meta.arrayName@),
                forall|k: int| 0 <= k < meta.devs.all_uids().len() ==> !self.mapMgr@.contains_key(#[trigger] meta.devs.all_uids()[k]),
                forall|j: int| 0 <= j < i ==> self.systeminfo.arrayValidFlag@[j] != 0,
            decreases MAX_ARRAY_CNT - i,
        {
            if self.systeminfo.arrayValidFlag[i] == 0 {
                proof {
                    assert(first_free_slot(self.systeminfo) == Some(i as int)) by {
                        let c = choose|c: int| 0 <= c < MAX_ARRAY_CNT && self.systeminfo.arrayValidFlag@[c] == 0 && forall|j: int| 0 <= j < c ==> self.systeminfo.arrayValidFlag@[j] != 0;
                        if c < i {
                        } else if c > i {
                            assert(self.systeminfo.arrayValidFlag@[i as int] != 0);
                        }
                    }
                }
                if let Some(existing_val) = self.arrayIndexMap.insert(meta.arrayName.clone(), i as u32) {
                    i = i + 1;
                    continue;
                }
                let _ = self.mapMgr.InsertDevices(&meta, i as u32);
                self.systeminfo.arrayValidFlag.set(i, 1);
                self.systeminfo.arrayNum = self.systeminfo.arrayNum + 1;
                let ghost before = self.systeminfo.arrayInfo@[i as int];
                let mut abr = self.systeminfo.arrayInfo[i].copy_record();
                let named = abr.update_array_name(&meta.arrayName);
                let dated = abr.update_datetimes(now);
                abr.uniqueId = meta.unique_id;
                self.systeminfo.arrayInfo.set(i, abr);
                proof {
                    assert(self.systeminfo.arrayInfo@[i as int].same_except_name_id_and_dates(before));
                    assert forall|k: int| 0 <= k < self.systeminfo.arrayInfo@.len() implies (#[trigger] self.systeminfo.arrayInfo@[k]).wf() by {
                        if k != i {
                            assert(self.systeminfo.arrayInfo@[k] == old(self).systeminfo.arrayInfo@[k]);
                        }
                    }
                }
                return Ok(i as u32);
            }
            i = i + 1;
        }
        proof {
            if first_free_slot(self.systeminfo) is Some {
                let c = choose|c: int| 0 <= c < MAX_ARRAY_CNT && self.systeminfo.arrayValidFlag@[c] == 0;
                assert(self.systeminfo.arrayValidFlag@[c] != 0);
            }
        }
        Err(PosEventId::MBR_WRONG_ARRAY_VALID_FLAG)
    }
}


/// The indices of the valid array slots of `m`, in order.
pub open spec fn valid_slots(m: masterBootRecord, n: int) -> Seq<int>
    decreases n,
{
    if n <= 0 {
        Seq::empty()
    } else if m.arrayValidFlag@[n - 1] == 1 {
        valid_slots(m, n - 1).push(n - 1)
    } else {
        valid_slots(m, n - 1)
    }
}

impl MbrManager {
    /// Prepares the record for writing to every device: stamps it with the next version and with
    /// the system UUID, and returns its bytes. The version in memory goes up by one;
    /// `OnMbrWritten` takes it back when the write fails.
    pub fn SaveMbr(&mut self) -> (r: Vec<u8>)
        requires
            old(self).wf(),
            old(self).spec_version() < i32::MAX,
        ensures
            final(self).wf(),
            final(self).spec_version() == old(self).spec_version() + 1,
            uuid_bytes_of(old(self).system_uuid()) matches Some(u) && mbr_to_save(final(self).systeminfo, final(self).spec_version(), u),
            final(self).systeminfo.systemUuid@.subrange(16, SYSTEM_UUID_SIZE as int) == old(self).systeminfo.systemUuid@.subrange(16, SYSTEM_UUID_SIZE as int),
            final(self).systeminfo.arrayInfo == old(self).systeminfo.arrayInfo,
            final(self).systeminfo.arrayValidFlag == old(self).systeminfo.arrayValidFlag,
            final(self).systeminfo.arrayNum == old(self).systeminfo.arrayNum,
            final(self).systeminfo.mbrParity == old(self).systeminfo.mbrParity,
            final(self).array_indices() == old(self).array_indices(),
            final(self).mapMgr@ == old(self).mapMgr@,
            final(self).system_uuid() == old(self).system_uuid(),
            r@ == final(self).systeminfo.spec_bytes(),
    {
        self.systeminfo.mbrVersion = #[verifier::truncate] (self.version as u32);
        let uuid = match parse_uuid(self.systemUuid.as_str()) {
            Some(u) => u,
            None => {
                assert(false);
                Vec::new()
            },
        };
        let mut field = self.systeminfo.systemUuid.clone();
        let ghost old_uuid_field = field@;
        let mut k: usize = 0;
        while k < uuid.len()
            invariant
                uuid@.len() == 16,
                k <= 16,
                old_uuid_field.len() == SYSTEM_UUID_SIZE,
                field@.len() == SYSTEM_UUID_SIZE,
                forall|x: int| 0 <= x < k ==> field@[x] == uuid@[x],
                forall|x: int| k <= x < SYSTEM_UUID_SIZE ==> field@[x] == old_uuid_field[x],
            decreases 16 - k,
        {
            field.set(k, uuid[k]);
            k = k + 1;
        }
        assert(field@ =~= uuid@ + field@.subrange(16, SYSTEM_UUID_SIZE as int));
        assert(field@.subrange(16, 64) =~= old_uuid_field.subrange(16, 64));
        self.systeminfo.systemUuid = field;
        self.version = self.version + 1;
        self.systeminfo.mbrVersion = #[verifier::truncate] (self.version as u32);
        let mut mbrBuffer = self.systeminfo.to_vec_u8();
        self._SetParity(&mut mbrBuffer);
        mbrBuffer
    }

    /// Takes the outcome of writing the bytes from `SaveMbr` to the devices: nothing changes when
    /// the write went through; otherwise the version goes back down by one and the error is
    /// `MBR_WRITE_ERROR`.
    pub fn OnMbrWritten(&mut self, written: bool) -> (r: Result<(), PosEventId>)
        requires
            old(self).wf(),
            old(self).spec_version() > i32::MIN,
        ensures
            final(self).wf(),
            written ==> r is Ok && *final(self) == *old(self),
            !written ==> {
                &&& r == Err::<(), PosEventId>(PosEventId::MBR_WRITE_ERROR)
                &&& final(self).spec_version() == old(self).spec_version() - 1
                &&& final(self).systeminfo.mbrVersion == final(self).spec_version() as u32
                &&& final(self).systeminfo.arrayInfo == old(self).systeminfo.arrayInfo
                &&& final(self).systeminfo.arrayValidFlag == old(self).systeminfo.arrayValidFlag
                &&& final(self).systeminfo.systemUuid == old(self).systeminfo.systemUuid
                &&& final(self).array_indices() == old(self).array_indices()
                &&& final(self).mapMgr@ == old(self).mapMgr@
            },
    {
        if written {
            return Ok(());
        }
        self.version = self.version - 1;
        self.systeminfo.mbrVersion = #[verifier::truncate] (self.version as u32);
        Err(PosEventId::MBR_WRITE_ERROR)
    }

    /// The bytes that initialize a device's master boot record: the record in memory as it is.
    pub fn InitDisk(&self) -> (r: Vec<u8>)
        requires
            self.wf(),
        ensures
            r@ == self.systeminfo.spec_bytes(),
    {
        let mut mbrBuffer = self.systeminfo.to_vec_u8();
        self._SetParity(&mut mbrBuffer);
        mbrBuffer
    }

    /// The boot record and slot of the array named `name`, if there is one.
    pub fn GetAbr(&self, name: &String) -> (r: Option<(ArrayBootRecord, u32)>)
        requires
            self.wf(),
        ensures
            match r {
                Some((abr, i)) => {
                    &&& self.array_indices().contains_key(name@)
                    &&& i == self.array_indices()[name@]
                    &&& abr.same(self.systeminfo.arrayInfo@[i as int])
                    &&& abr.wf()
                },
                None => !self.array_indices().contains_key(name@),
            },
    {
        match self.arrayIndexMap.get(name) {
            Some(i) => {
                let abr = self.systeminfo.arrayInfo[i as usize].copy_record();
                Some((abr, i))
            },
            None => None,
        }
    }

    /// The boot records of the valid array slots, in slot order.
    pub fn GetAbrList(&self) -> (r: Result<Vec<ArrayBootRecord>, PosEventId>)
        requires
            self.wf(),
        ensures
            r matches Ok(list) && list@.len() == valid_slots(self.systeminfo, MAX_ARRAY_CNT as int).len()
                && forall|k: int| 0 <= k < list@.len() ==> (#[trigger] list@[k]).same(
                    self.systeminfo.arrayInfo@[valid_slots(self.systeminfo, MAX_ARRAY_CNT as int)[k]],
                ),
    {
        let mut list: Vec<ArrayBootRecord> = Vec::new();
        let mut i: usize = 0;
        while i < MAX_ARRAY_CNT
            invariant
                i <= MAX_ARRAY_CNT,
                self.wf(),
                list@.len() == valid_slots(self.systeminfo, i as int).len(),
                forall|k: int| 0 <= k < list@.len() ==> (#[trigger] list@[k]).same(
                    self.systeminfo.arrayInfo@[valid_slots(self.systeminfo, i as int)[k]],
                ),
                forall|k: int| 0 <= k < valid_slots(self.systeminfo, i as int).len() ==> 0 <= #[trigger] valid_slots(self.systeminfo, i as int)[k] < i,
            decreases MAX_ARRAY_CNT - i,
        {
            if self.systeminfo.arrayValidFlag[i] == 1 {
                list.push(self.systeminfo.arrayInfo[i].copy_record());
            }
            i = i + 1;
        }
        Ok(list)
    }

    /// The MBR version kept in memory.
    pub fn GetMbrVersionInMemory(&self) -> (r: Result<i32, PosEventId>)
        ensures
            r == Ok::<i32, PosEventId>(self.spec_version()),
    {
        Ok(self.version)
    }

    /// Rebuilds the device map entries of the array named `arrayName` from its boot record:
    /// forgets the devices mapped to its slot, then maps its recorded devices to it. Fails with
    /// `MBR_ABR_NOT_FOUND`, changing nothing, when no array has that name.
    pub fn UpdateDeviceIndexMap(&mut self, arrayName: &String) -> (r: Result<(), PosEventId>)
        requires
            old(self).wf(),
            old(self).array_indices().contains_key(arrayName@) ==> {
                let a = old(self).systeminfo.arrayInfo@[old(self).array_indices()[arrayName@] as int];
                &&& a.totalDevNum <= MAX_ARRAY_DEVICE_CNT
                &&& forall|j: int| 0 <= j < a.totalDevNum ==> valid_utf8(#[trigger] a.devInfo@[j].deviceUid@)
            },
        ensures
            final(self).wf(),
            final(self).systeminfo == old(self).systeminfo,
            final(self).spec_version() == old(self).spec_version(),
            final(self).array_indices() == old(self).array_indices(),
            final(self).system_uuid() == old(self).system_uuid(),
            !old(self).array_indices().contains_key(arrayName@) ==> r == Err::<(), PosEventId>(PosEventId::MBR_ABR_NOT_FOUND)
                && final(self).mapMgr@ == old(self).mapMgr@,
            old(self).array_indices().contains_key(arrayName@) ==> {
                let i = old(self).array_indices()[arrayName@];
                &&& r is Ok
                &&& final(self).mapMgr@ == map_all_to(
                    old(self).mapMgr@.restrict(old(self).mapMgr@.dom().filter(|k: Seq<char>| old(self).mapMgr@[k] != i)),
                    abr_device_uids(old(self).systeminfo.arrayInfo@[i as int]),
                    i,
                )
            },
    {
        let index = match self.arrayIndexMap.get(arrayName) {
            Some(i) => i,
            None => {
                return Err(PosEventId::MBR_ABR_NOT_FOUND);
            },
        };
        let _ = self.mapMgr.DeleteDevices(index);
        Self::_InsertAbrDevices(&mut self.mapMgr, &self.systeminfo.arrayInfo[index as usize], index);
        Ok(())
    }

    /// The name of the array that device `devSN` belongs to; always empty, as no lookup is made.
    pub fn FindArrayWithDeviceSN(&self, devSN: String) -> (r: String)
        ensures
            r@ == Seq::<char>::empty(),
    {
        String::new()
    }
}

/// A disk I/O on a master boot record: its direction and its buffer.
pub struct DiskIoContext {
    pub ubioDir: UbioDir,
    pub mem: Vec<u8>,
}

impl DiskIoContext {
    /// A disk I/O going `ubioDir` with buffer `mem`.
    pub fn new(ubioDir: UbioDir, mem: Vec<u8>) -> (r: DiskIoContext)
        ensures
            r.ubioDir == ubioDir,
            r.mem@ == mem@,
    {
        DiskIoContext { ubioDir, mem }
    }

    /// A copy of this disk I/O.
    pub fn clone(&self) -> (r: DiskIoContext)
        ensures
            r.ubioDir == self.ubioDir,
            r.mem@ == self.mem@,
    {
        DiskIoContext { ubioDir: self.ubioDir, mem: self.mem.clone() }
    }
}

} // verus!
