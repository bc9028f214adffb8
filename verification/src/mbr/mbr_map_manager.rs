use vstd::prelude::*;
use crate::array::meta::{ArrayMeta, DeviceMeta, device_uids};
use crate::base::pos_event_id::PosEventId;
use crate::mbr::index_map::StringIndexMap;

verus! {

/// `m` with every id of `uids` mapped to `index`.
pub open spec fn map_all_to(m: Map<Seq<char>, u32>, uids: Seq<Seq<char>>, index: u32) -> Map<
    Seq<char>,
    u32,
> {
    m.union_prefer_right(Map::new(|k: Seq<char>| uids.contains(k), |k: Seq<char>| index))
}

/// Mapping the ids of `a` and then those of `b` to `index` maps those of `a + b`.
pub proof fn lemma_map_all_to_concat(m: Map<Seq<char>, u32>, a: Seq<Seq<char>>, b: Seq<Seq<char>>, index: u32)
    ensures
        map_all_to(map_all_to(m, a, index), b, index) == map_all_to(m, a + b, index),
{
    assert forall|k: Seq<char>| (a + b).contains(k) == (a.contains(k) || b.contains(k)) by {
        if a.contains(k) {
            let j = choose|j: int| 0 <= j < a.len() && a[j] == k;
            assert((a + b)[j] == k);
        }
        if b.contains(k) {
            let j = choose|j: int| 0 <= j < b.len() && b[j] == k;
            assert((a + b)[a.len() + j] == k);
        }
        if (a + b).contains(k) {
            let j = choose|j: int| 0 <= j < (a + b).len() && (a + b)[j] == k;
            if j < a.len() {
                assert(a[j] == k);
            } else {
                assert(b[j - a.len()] == k);
            }
        }
    }
    assert(map_all_to(map_all_to(m, a, index), b, index) =~= map_all_to(m, a + b, index));
}

/// Which array each device belongs to, by device id.
pub struct MbrMapManager {
    arrayDeviceIndexMap: StringIndexMap,
}

impl View for MbrMapManager {
    type V = Map<Seq<char>, u32>;

    closed spec fn view(&self) -> Map<Seq<char>, u32> {
        self.arrayDeviceIndexMap@
    }
}

impl MbrMapManager {
    /// The internal map is consistent.
    pub closed spec fn wf(&self) -> bool {
        self.arrayDeviceIndexMap.wf()
    }

    /// A manager that knows no device.
    pub fn default() -> (r: MbrMapManager)
        ensures
            r.wf(),
            r@ == Map::<Seq<char>, u32>::empty(),
    {
        MbrMapManager { arrayDeviceIndexMap: StringIndexMap::new() }
    }

    /// Records that every device of `devs` belongs to array `arrayIndex`.
    fn insert_list(&mut self, devs: &Vec<DeviceMeta>, arrayIndex: u32)
        requires
            old(self).wf(),
        ensures
            final(self).wf(),
            final(self)@ == map_all_to(old(self)@, device_uids(devs@), arrayIndex),
    {
        let ghost start = self@;
        let mut i: usize = 0;
        while i < devs.len()
            invariant
                self.wf(),
                i <= devs@.len(),
                self@ == map_all_to(start, device_uids(devs@.subrange(0, i as int)), arrayIndex),
            decreases devs@.len() - i,
        {
            let uid = devs[i].uid.clone();
            self.arrayDeviceIndexMap.insert(uid, arrayIndex);
            proof {
                let a = device_uids(devs@.subrange(0, i as int));
                let b = device_uids(devs@.subrange(0, i as int + 1));
                let u = devs@[i as int].uid@;
                assert(b =~= a + seq![u]);
                lemma_map_all_to_concat(start, a, seq![u], arrayIndex);
                assert forall|k: Seq<char>| seq![u].contains(k) == (k == u) by {
                    if k == u {
                        assert(seq![u][0] == k);
                    }
                }
                assert(map_all_to(start, b, arrayIndex) =~= map_all_to(start, a, arrayIndex).insert(u, arrayIndex));
            }
            i = i + 1;
        }
        assert(devs@.subrange(0, devs@.len() as int) =~= devs@);
    }

    /// Records that every device of `meta` (NVM, data and spare) belongs to array `arrayIndex`.
    pub fn InsertDevices(&mut self, meta: &ArrayMeta, arrayIndex: u32) -> (r: Result<(), PosEventId>)
        requires
            old(self).wf(),
        ensures
            final(self).wf(),
            final(self)@ == map_all_to(old(self)@, meta.devs.all_uids(), arrayIndex),
            r is Ok,
    {
        let ghost start = self@;
        self.insert_list(&meta.devs.nvm, arrayIndex);
        self.insert_list(&meta.devs.data, arrayIndex);
        self.insert_list(&meta.devs.spares, arrayIndex);
        proof {
            let u1 = device_uids(meta.devs.nvm@);
            let u2 = device_uids(meta.devs.data@);
            let u3 = device_uids(meta.devs.spares@);
            lemma_map_all_to_concat(start, u1, u2, arrayIndex);
            lemma_map_all_to_concat(start, u1 + u2, u3, arrayIndex);
        }
        Ok(())
    }

    /// Records that device `deviceUid` belongs to array `arrayIndex`.
    pub fn InsertDevice(&mut self, deviceUid: &String, arrayIndex: u32) -> (r: Result<(), PosEventId>)
        requires
            old(self).wf(),
        ensures
            final(self).wf(),
            final(self)@ == old(self)@.insert(deviceUid@, arrayIndex),
            r is Ok,
    {
        self.arrayDeviceIndexMap.insert(deviceUid.clone(), arrayIndex);
        Ok(())
    }

    /// Forgets every device of array `arrayIndex`.
    pub fn DeleteDevices(&mut self, arrayIndex: u32) -> (r: Result<(), PosEventId>)
        requires
            old(self).wf(),
        ensures
            final(self).wf(),
            final(self)@ == old(self)@.restrict(
                old(self)@.dom().filter(|k: Seq<char>| old(self)@[k] != arrayIndex),
            ),
            r is Ok,
    {
        self.arrayDeviceIndexMap.remove_value(arrayIndex);
        Ok(())
    }

    /// Fails when some device of `devs` already belongs to an array.
    fn _CheckDevices(&self, devs: &Vec<DeviceMeta>) -> (r: Result<(), PosEventId>)
        requires
            self.wf(),
        ensures
            r is Ok <==> forall|i: int| 0 <= i < devs@.len() ==> !self@.contains_key(#[trigger] devs@[i].uid@),
            r is Err ==> r == Err::<(), PosEventId>(PosEventId::MBR_DEVICE_ALREADY_IN_ARRAY),
    {
        let mut i: usize = 0;
        while i < devs.len()
            invariant
                self.wf(),
                i <= devs@.len(),
                forall|j: int| 0 <= j < i ==> !self@.contains_key(#[trigger] devs@[j].uid@),
            decreases devs@.len() - i,
        {
            if self.arrayDeviceIndexMap.contains_key(&devs[i].uid) {
                return Err(PosEventId::MBR_DEVICE_ALREADY_IN_ARRAY);
            }
            i = i + 1;
        }
        Ok(())
    }

    /// Fails with `MBR_DEVICE_ALREADY_IN_ARRAY` when some device of `meta` already belongs to an
    /// array.
    pub fn CheckAllDevices(&self, meta: &ArrayMeta) -> (r: Result<(), PosEventId>)
        requires
            self.wf(),
        ensures
            r is Ok <==> forall|i: int|
                0 <= i < meta.devs.all_uids().len() ==> !self@.contains_key(
                    #[trigger] meta.devs.all_uids()[i],
                ),
            r is Err ==> r == Err::<(), PosEventId>(PosEventId::MBR_DEVICE_ALREADY_IN_ARRAY),
    {
        let ghost all = meta.devs.all_uids();
        let ghost n1 = meta.devs.nvm@.len();
        let ghost n2 = meta.devs.data@.len();
        let r1 = self._CheckDevices(&meta.devs.nvm);
        if r1.is_err() {
            proof {
                let i = choose|i: int| 0 <= i < meta.devs.nvm@.len() && self@.contains_key(#[trigger] meta.devs.nvm@[i].uid@);
                assert(all[i] == meta.devs.nvm@[i].uid@);
            }
            return r1;
        }
        let r2 = self._CheckDevices(&meta.devs.data);
        if r2.is_err() {
            proof {
                let i = choose|i: int| 0 <= i < meta.devs.data@.len() && self@.contains_key(#[trigger] meta.devs.data@[i].uid@);
                assert(all[n1 + i] == meta.devs.data@[i].uid@);
            }
            return r2;
        }
        let r3 = self._CheckDevices(&meta.devs.spares);
        if r3.is_err() {
            proof {
                let i = choose|i: int| 0 <= i < meta.devs.spares@.len() && self@.contains_key(#[trigger] meta.devs.spares@[i].uid@);
                assert(all[n1 + n2 + i] == meta.devs.spares@[i].uid@);
            }
            return r3;
        }
        proof {
            assert forall|i: int| 0 <= i < all.len() implies !self@.contains_key(#[trigger] all[i]) by {
                if i < n1 {
                    assert(all[i] == meta.devs.nvm@[i].uid@);
                } else if i < n1 + n2 {
                    assert(all[i] == meta.devs.data@[i - n1].uid@);
                } else {
                    assert(all[i] == meta.devs.spares@[i - n1 - n2].uid@);
                }
            }
        }
        Ok(())
    }

    /// Forgets every device.
    pub fn ResetMap(&mut self)
        requires
            old(self).wf(),
        ensures
            final(self).wf(),
            final(self)@ == Map::<Seq<char>, u32>::empty(),
    {
        self.arrayDeviceIndexMap.clear();
    }

    /// The array that device `devSN` belongs to; `ERROR` when it belongs to none.
    pub fn FindArrayIndex(&self, devSN: &String) -> (r: Result<u32, PosEventId>)
        requires
            self.wf(),
        ensures
            r == (if self@.contains_key(devSN@) {
                Ok::<u32, PosEventId>(self@[devSN@])
            } else {
                Err::<u32, PosEventId>(PosEventId::ERROR)
            }),
    {
        match self.arrayDeviceIndexMap.get(devSN) {
            Some(i) => Ok(i),
            None => Err(PosEventId::ERROR),
        }
    }
}

} // verus!
