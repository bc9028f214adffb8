use vstd::prelude::*;
use vstd::utf8::{valid_utf8, decode_utf8};
use crate::array::meta::{
    ArrayMeta, DeviceMeta, DeviceSet, ArrayDeviceState, ArrayDeviceType, spec_device_state_from_code, device_uids,
};
use crate::base::pos_event_id::PosEventId;
use crate::base::text::string_from_utf8;
use crate::mbr::mbr_info::{ArrayBootRecord, masterBootRecord, MAX_ARRAY_CNT, MAX_ARRAY_DEVICE_CNT};
use crate::mbr::mbr_manager::{MbrManager, latest_image, index_map_loadable, loaded_maps, create_abr_takes_slot, first_free_slot, abr_created};
use crate::mbr::mbr_map_manager::map_all_to;

verus! {

/// Every text field of `a` that `LoadAbr` reads, and every device id it reads, is UTF-8, and its
/// device counts fit in the device records.
pub open spec fn abr_loadable(a: ArrayBootRecord) -> bool {
    &&& a.nvmDevNum + a.dataDevNum + a.spareDevNum <= MAX_ARRAY_DEVICE_CNT
    &&& forall|j: int|
        0 <= j < a.nvmDevNum + a.dataDevNum + a.spareDevNum ==> valid_utf8(#[trigger] a.devInfo@[j].deviceUid@)
    &&& valid_utf8(a.arrayName@)
    &&& valid_utf8(a.metaRaidType@)
    &&& valid_utf8(a.dataRaidType@)
    &&& valid_utf8(a.createDatetime@)
    &&& valid_utf8(a.updateDatetime@)
}

/// `devs` are the devices recorded in `a` from record `from` on, `n` of them, with ids read as
/// text and with the state given by `state`.
pub open spec fn devices_read_from(
    devs: Seq<DeviceMeta>,
    a: ArrayBootRecord,
    from: int,
    n: int,
    state: spec_fn(int) -> ArrayDeviceState,
) -> bool {
    &&& devs.len() == n
    &&& forall|k: int|
        0 <= k < n ==> (#[trigger] devs[k]).uid@ == decode_utf8(a.devInfo@[from + k].deviceUid@)
            && devs[k].state == state(from + k)
}

/// `meta` is the metadata that the boot record `a` in slot `index` describes.
pub open spec fn meta_read_from(meta: ArrayMeta, a: ArrayBootRecord, index: u32) -> bool {
    &&& meta.id == index
    &&& meta.arrayName@ == decode_utf8(a.arrayName@)
    &&& meta.metaRaidType@ == decode_utf8(a.metaRaidType@)
    &&& meta.dataRaidType@ == decode_utf8(a.dataRaidType@)
    &&& meta.createDatetime@ == decode_utf8(a.createDatetime@)
    &&& meta.updateDatetime@ == decode_utf8(a.updateDatetime@)
    &&& meta.unique_id == a.uniqueId
    &&& devices_read_from(meta.devs.nvm@, a, 0, a.nvmDevNum as int, |j: int| ArrayDeviceState::NORMAL)
    &&& devices_read_from(
        meta.devs.data@,
        a,
        a.nvmDevNum as int,
        a.dataDevNum as int,
        |j: int| spec_device_state_from_code(a.devInfo@[j].deviceState),
    )
    &&& devices_read_from(
        meta.devs.spares@,
        a,
        a.nvmDevNum + a.dataDevNum,
        a.spareDevNum as int,
        |j: int| ArrayDeviceState::NORMAL,
    )
}

/// The ids of the first `n` device records of `a`, read as text, in record order.
pub open spec fn recorded_uids(a: ArrayBootRecord, n: int) -> Seq<Seq<char>> {
    Seq::new(n as nat, |j: int| decode_utf8(a.devInfo@[j].deviceUid@))
}

/// An array's devices are recorded by role: its NVM devices first, then its data devices, then
/// its spares. So the devices read back, role after role, are the recorded devices in record
/// order, and the `k`-th spare is the record after all the NVM and data devices.
pub proof fn lemma_devices_by_role(meta: ArrayMeta, a: ArrayBootRecord, index: u32)
    requires
        meta_read_from(meta, a, index),
    ensures
        device_uids(meta.devs.nvm@) + device_uids(meta.devs.data@) + device_uids(meta.devs.spares@)
            == recorded_uids(a, a.nvmDevNum + a.dataDevNum + a.spareDevNum),
        forall|k: int| 0 <= k < a.nvmDevNum ==> #[trigger] meta.devs.nvm@[k].uid@ == decode_utf8(a.devInfo@[k].deviceUid@),
        forall|k: int| 0 <= k < a.dataDevNum ==> #[trigger] meta.devs.data@[k].uid@ == decode_utf8(a.devInfo@[a.nvmDevNum + k].deviceUid@),
        forall|k: int| 0 <= k < a.spareDevNum ==> #[trigger] meta.devs.spares@[k].uid@
            == decode_utf8(a.devInfo@[a.nvmDevNum + a.dataDevNum + k].deviceUid@),
{
    let nv = a.nvmDevNum as int;
    let dt = a.dataDevNum as int;
    let sp = a.spareDevNum as int;
    let all = device_uids(meta.devs.nvm@) + device_uids(meta.devs.data@) + device_uids(meta.devs.spares@);
    let rec = recorded_uids(a, nv + dt + sp);
    assert forall|j: int| 0 <= j < nv + dt + sp implies #[trigger] all[j] == rec[j] by {
        if j < nv {
            assert(meta.devs.nvm@[j].uid@ == decode_utf8(a.devInfo@[0 + j].deviceUid@));
        } else if j < nv + dt {
            assert(meta.devs.data@[j - nv].uid@ == decode_utf8(a.devInfo@[nv + (j - nv)].deviceUid@));
        } else {
            assert(meta.devs.spares@[j - nv - dt].uid@ == decode_utf8(a.devInfo@[nv + dt + (j - nv - dt)].deviceUid@));
        }
    }
    assert(all =~= rec);
    assert forall|k: int| 0 <= k < a.nvmDevNum implies #[trigger] meta.devs.nvm@[k].uid@ == decode_utf8(a.devInfo@[k].deviceUid@) by {
        assert(meta.devs.nvm@[k].uid@ == decode_utf8(a.devInfo@[0 + k].deviceUid@));
    }
}

/// Array boot records: reading an array's metadata out of the master boot record and writing it
/// back.
pub struct AbrManager {
    pub mbrManager: MbrManager,
}

impl AbrManager {
    /// A manager over a fresh master boot record manager.
    pub fn new() -> (r: AbrManager)
        ensures
            r.mbrManager.wf(),
            r.mbrManager.spec_version() == 0,
            r.mbrManager.array_indices() == Map::<Seq<char>, u32>::empty(),
    {
        AbrManager { mbrManager: MbrManager::new() }
    }

    /// The text of `bytes`, which are UTF-8.
    fn text_of(bytes: &Vec<u8>) -> (r: String)
        requires
            valid_utf8(bytes@),
        ensures
            r@ == decode_utf8(bytes@),
    {
        match string_from_utf8(bytes.clone()) {
            Some(s) => s,
            None => {
                assert(false);
                String::new()
            },
        }
    }

    /// Reads `n` devices from the records of `abr` starting at `from`.
    fn read_devices(abr: &ArrayBootRecord, from: u32, n: u32, with_state: bool) -> (r: Vec<DeviceMeta>)
        requires
            abr.wf(),
            from + n <= MAX_ARRAY_DEVICE_CNT,
            forall|j: int| from <= j < from + n ==> valid_utf8(#[trigger] abr.devInfo@[j].deviceUid@),
        ensures
            with_state ==> devices_read_from(r@, *abr, from as int, n as int, |j: int| spec_device_state_from_code(abr.devInfo@[j].deviceState)),
            !with_state ==> devices_read_from(r@, *abr, from as int, n as int, |j: int| ArrayDeviceState::NORMAL),
    {
        let mut devs: Vec<DeviceMeta> = Vec::new();
        let mut i: u32 = 0;
        while i < n
            invariant
                abr.wf(),
                from + n <= MAX_ARRAY_DEVICE_CNT,
                forall|j: int| from <= j < from + n ==> valid_utf8(#[trigger] abr.devInfo@[j].deviceUid@),
                i <= n,
                devs@.len() == i,
                forall|k: int| 0 <= k < i ==> (#[trigger] devs@[k]).uid@ == decode_utf8(abr.devInfo@[from + k].deviceUid@),
                forall|k: int| 0 <= k < i ==> (#[trigger] devs@[k]).state == (if with_state {
                    spec_device_state_from_code(abr.devInfo@[from + k].deviceState)
                } else {
                    ArrayDeviceState::NORMAL
                }),
            decreases n - i,
        {
            let devIndex = (from + i) as usize;
            let uid = Self::text_of(&abr.devInfo[devIndex].deviceUid);
            let state = if with_state {
                ArrayDeviceState::from_code(abr.devInfo[devIndex].deviceState)
            } else {
                ArrayDeviceState::NORMAL
            };
            devs.push(DeviceMeta::new(uid, state));
            i = i + 1;
        }
        devs
    }

    /// The metadata of the array named `name`, read from its boot record: its devices (NVM,
    /// data, spare), slot, name, RAID types, dates and unique id. Fails with
    /// `MBR_ABR_NOT_FOUND` when no array has that name.
    pub fn LoadAbr(&self, name: &String) -> (r: Result<ArrayMeta, PosEventId>)
        requires
            self.mbrManager.wf(),
            self.mbrManager.array_indices().contains_key(name@) ==> abr_loadable(
                self.mbrManager.systeminfo.arrayInfo@[self.mbrManager.array_indices()[name@] as int],
            ),
        ensures
            !self.mbrManager.array_indices().contains_key(name@) ==> r == Err::<ArrayMeta, PosEventId>(PosEventId::MBR_ABR_NOT_FOUND),
            self.mbrManager.array_indices().contains_key(name@) ==> {
                let i = self.mbrManager.array_indices()[name@];
                (r matches Ok(meta) && meta_read_from(meta, self.mbrManager.systeminfo.arrayInfo@[i as int], i))
            },
            self.mbrManager.array_indices().contains_key(name@) ==> {
                let a = self.mbrManager.systeminfo.arrayInfo@[self.mbrManager.array_indices()[name@] as int];
                (r matches Ok(meta) && {
                    &&& device_uids(meta.devs.nvm@) + device_uids(meta.devs.data@) + device_uids(meta.devs.spares@)
                        == recorded_uids(a, a.nvmDevNum + a.dataDevNum + a.spareDevNum)
                    &&& meta.devs.nvm@.len() == a.nvmDevNum
                    &&& meta.devs.data@.len() == a.dataDevNum
                    &&& meta.devs.spares@.len() == a.spareDevNum
                    &&& forall|k: int| 0 <= k < a.spareDevNum ==> #[trigger] meta.devs.spares@[k].uid@
                        == decode_utf8(a.devInfo@[a.nvmDevNum + a.dataDevNum + k].deviceUid@)
                })
            },
    {
        let (abr, index) = match self.mbrManager.GetAbr(name) {
            Some((a, i)) => (a, i),
            None => {
                return Err(PosEventId::MBR_ABR_NOT_FOUND);
            },
        };
        let nvmNum = abr.nvmDevNum;
        let dataNum = abr.dataDevNum;
        let spareNum = abr.spareDevNum;
        let nvm = Self::read_devices(&abr, 0, nvmNum, false);
        let data = Self::read_devices(&abr, nvmNum, dataNum, true);
        let spares = Self::read_devices(&abr, nvmNum + dataNum, spareNum, false);
        let arrayName = Self::text_of(&abr.arrayName);
        let metaRaidType = Self::text_of(&abr.metaRaidType);
        let dataRaidType = Self::text_of(&abr.dataRaidType);
        let createDatetime = Self::text_of(&abr.createDatetime);
        let updateDatetime = Self::text_of(&abr.updateDatetime);
        let meta = ArrayMeta {
            devs: DeviceSet::new(nvm, data, spares),
            id: index,
            arrayName,
            metaRaidType,
            dataRaidType,
            createDatetime,
            updateDatetime,
            unique_id: abr.uniqueId,
        };
        proof {
            let a = self.mbrManager.systeminfo.arrayInfo@[index as int];
            assert forall|j: int| 0 <= j < a.devInfo@.len() implies #[trigger] a.devInfo@[j].deviceUid@ == abr.devInfo@[j].deviceUid@
                && a.devInfo@[j].deviceState == abr.devInfo@[j].deviceState by {
                assert(abr.devInfo@[j].same(a.devInfo@[j]));
            }
            lemma_devices_by_role(meta, a, index);
        }
        Ok(meta)
    }
}


impl AbrManager {
    /// Writes the metadata of `meta` back: the boot record of the array named after it is looked
    /// up, `meta`'s dates are set to the recorded ones, the device map entries of the array are
    /// rebuilt, and the master boot record is prepared for writing (its bytes are returned, see
    /// `MbrManager::SaveMbr`). Fails with `MBR_ABR_NOT_FOUND`, changing nothing, when no array
    /// has that name.
    pub fn SaveAbr(&mut self, meta: &mut ArrayMeta) -> (r: Result<Vec<u8>, PosEventId>)
        requires
            old(self).mbrManager.wf(),
            old(self).mbrManager.array_indices().contains_key(old(meta).arrayName@) ==> {
                let a = old(self).mbrManager.systeminfo.arrayInfo@[old(self).mbrManager.array_indices()[old(meta).arrayName@] as int];
                &&& valid_utf8(a.createDatetime@)
                &&& valid_utf8(a.updateDatetime@)
                &&& a.totalDevNum <= MAX_ARRAY_DEVICE_CNT
                &&& forall|j: int| 0 <= j < a.totalDevNum ==> valid_utf8(#[trigger] a.devInfo@[j].deviceUid@)
                &&& old(self).mbrManager.spec_version() < i32::MAX
                &&& old(meta).devs.nvm@.len() + old(meta).devs.data@.len() + old(meta).devs.spares@.len() <= MAX_ARRAY_DEVICE_CNT
            },
        ensures
            final(self).mbrManager.wf(),
            final(meta).arrayName@ == old(meta).arrayName@,
            final(meta).devs == old(meta).devs,
            !old(self).mbrManager.array_indices().contains_key(old(meta).arrayName@) ==> {
                &&& r == Err::<Vec<u8>, PosEventId>(PosEventId::MBR_ABR_NOT_FOUND)
                &&& *final(self) == *old(self)
                &&& *final(meta) == *old(meta)
            },
            old(self).mbrManager.array_indices().contains_key(old(meta).arrayName@) ==> {
                let i = old(self).mbrManager.array_indices()[old(meta).arrayName@];
                let a = old(self).mbrManager.systeminfo.arrayInfo@[i as int];
                &&& (r matches Ok(bytes) && bytes@ == final(self).mbrManager.systeminfo.spec_bytes())
                &&& final(meta).createDatetime@ == decode_utf8(a.createDatetime@)
                &&& final(meta).updateDatetime@ == decode_utf8(a.updateDatetime@)
                &&& final(self).mbrManager.spec_version() == old(self).mbrManager.spec_version() + 1
                &&& final(self).mbrManager.systeminfo.arrayInfo == old(self).mbrManager.systeminfo.arrayInfo
                &&& final(self).mbrManager.systeminfo.mbrVersion == final(self).mbrManager.spec_version() as u32
                &&& final(self).mbrManager.array_indices() == old(self).mbrManager.array_indices()
                &&& final(self).mbrManager.mapMgr@ == map_all_to(
                    old(self).mbrManager.mapMgr@.restrict(old(self).mbrManager.mapMgr@.dom().filter(|k: Seq<char>| old(self).mbrManager.mapMgr@[k] != i)),
                    crate::mbr::mbr_manager::abr_device_uids(a),
                    i,
                )
            },
    {
        let (mut abr, index) = match self.mbrManager.GetAbr(&meta.arrayName) {
            Some((a, i)) => (a, i),
            None => {
                return Err(PosEventId::MBR_ABR_NOT_FOUND);
            },
        };
        let ghost created = abr.createDatetime@;
        let ghost updated = abr.updateDatetime@;
        let nvmNum = meta.devs.nvm.len();
        let dataNum = meta.devs.data.len();
        let spareNum = meta.devs.spares.len();
        abr.nvmDevNum = nvmNum as u32;
        abr.dataDevNum = dataNum as u32;
        abr.spareDevNum = spareNum as u32;
        abr.totalDevNum = (nvmNum + dataNum + spareNum) as u32;
        let mut i: usize = 0;
        while i < nvmNum
            invariant
                abr.devInfo@.len() == MAX_ARRAY_DEVICE_CNT,
                nvmNum + dataNum + spareNum <= MAX_ARRAY_DEVICE_CNT,
                abr.createDatetime@ == created,
                abr.updateDatetime@ == updated,
                i <= nvmNum,
            decreases nvmNum - i,
        {
            let mut d = abr.devInfo[i].copy_record();
            d.deviceType = ArrayDeviceType::NVM.to_code();
            abr.devInfo.set(i, d);
            i = i + 1;
        }
        let mut i: usize = 0;
        while i < dataNum
            invariant
                abr.devInfo@.len() == MAX_ARRAY_DEVICE_CNT,
                nvmNum + dataNum + spareNum <= MAX_ARRAY_DEVICE_CNT,
                abr.createDatetime@ == created,
                abr.updateDatetime@ == updated,
                dataNum == meta.devs.data@.len(),
                i <= dataNum,
            decreases dataNum - i,
        {
            let deviceIndex = nvmNum + i;
            let mut d = abr.devInfo[deviceIndex].copy_record();
            d.deviceType = ArrayDeviceType::DATA.to_code();
            d.deviceState = meta.devs.data[i].state.to_code();
            abr.devInfo.set(deviceIndex, d);
            i = i + 1;
        }
        let mut i: usize = 0;
        while i < spareNum
            invariant
                abr.devInfo@.len() == MAX_ARRAY_DEVICE_CNT,
                nvmNum + dataNum + spareNum <= MAX_ARRAY_DEVICE_CNT,
                abr.createDatetime@ == created,
                abr.updateDatetime@ == updated,
                i <= spareNum,
            decreases spareNum - i,
        {
            let deviceIndex = nvmNum + dataNum + i;
            let mut d = abr.devInfo[deviceIndex].copy_record();
            d.deviceType = ArrayDeviceType::SPARE.to_code();
            abr.devInfo.set(deviceIndex, d);
            i = i + 1;
        }
        meta.createDatetime = Self::text_of(&abr.createDatetime);
        meta.updateDatetime = Self::text_of(&abr.updateDatetime);
        if let Err(e) = self.mbrManager.UpdateDeviceIndexMap(&meta.arrayName) {
            return Err(e);
        }
        Ok(self.mbrManager.SaveMbr())
    }

    /// Creates the boot record of a new array for `meta`, dated `now`; see
    /// `MbrManager::CreateAbr`.
    pub fn CreateAbr(&mut self, meta: ArrayMeta, now: &String) -> (r: Result<u32, PosEventId>)
        requires
            old(self).mbrManager.wf(),
            create_abr_takes_slot(old(self).mbrManager, meta) ==> vstd::utf8::encode_utf8(meta.arrayName@).len() <= crate::mbr::mbr_info::ARRAY_NAME_SIZE,
            create_abr_takes_slot(old(self).mbrManager, meta) ==> vstd::utf8::encode_utf8(now@).len() <= crate::mbr::mbr_info::DATE_SIZE,
        ensures
            final(self).mbrManager.wf(),
            create_abr_takes_slot(old(self).mbrManager, meta) <==> r is Ok,
            r is Err ==> final(self).mbrManager.systeminfo == old(self).mbrManager.systeminfo
                && final(self).mbrManager.array_indices() == old(self).mbrManager.array_indices(),
            r matches Ok(i) ==> {
                &&& Some(i as int) == first_free_slot(old(self).mbrManager.systeminfo)
                &&& abr_created(old(self).mbrManager.systeminfo, final(self).mbrManager.systeminfo, meta, now@, i as int)
                &&& final(self).mbrManager.array_indices() == old(self).mbrManager.array_indices().insert(meta.arrayName@, i)
            },
    {
        self.mbrManager.CreateAbr(meta, now)
    }

    /// Loads the master boot record from the images read from the devices (see
    /// `MbrManager::LoadMbr`), then lists the boot records of its valid arrays.
    pub fn GetAbrList(&mut self, mbr_images: &Vec<Vec<u8>>) -> (r: Result<Vec<ArrayBootRecord>, PosEventId>)
        requires
            old(self).mbrManager.wf(),
            forall|j: int, m: masterBootRecord|
                latest_image(mbr_images@.map_values(|v: Vec<u8>| v@), mbr_images@.len() as int) == Some(j)
                    && #[trigger] m.parsed(mbr_images@[j]@) ==> index_map_loadable(m),
        ensures
            final(self).mbrManager.wf(),
            latest_image(mbr_images@.map_values(|v: Vec<u8>| v@), mbr_images@.len() as int) is None
                ==> r == Err::<Vec<ArrayBootRecord>, PosEventId>(PosEventId::MBR_DATA_NOT_FOUND),
            r matches Ok(list) ==> (list@.len() == crate::mbr::mbr_manager::valid_slots(final(self).mbrManager.systeminfo, MAX_ARRAY_CNT as int).len()
                && forall|k: int| 0 <= k < list@.len() ==> (#[trigger] list@[k]).same(
                    final(self).mbrManager.systeminfo.arrayInfo@[crate::mbr::mbr_manager::valid_slots(final(self).mbrManager.systeminfo, MAX_ARRAY_CNT as int)[k]],
                )),
            latest_image(mbr_images@.map_values(|v: Vec<u8>| v@), mbr_images@.len() as int) is Some ==> (r is Ok
                <==> final(self).mbrManager.systeminfo.arrayNum == final(self).mbrManager.array_indices().len() as u32),
    {
        if let Err(e) = self.mbrManager.LoadMbr(mbr_images) {
            return Err(e);
        }
        self.mbrManager.GetAbrList()
    }

    /// The recorded last-update date of the array named `arrayName`; `MBR_ABR_NOT_FOUND` when no
    /// array has that name.
    pub fn GetLastUpdatedDateTime(&self, arrayName: &String) -> (r: Result<String, PosEventId>)
        requires
            self.mbrManager.wf(),
            self.mbrManager.array_indices().contains_key(arrayName@) ==> valid_utf8(
                self.mbrManager.systeminfo.arrayInfo@[self.mbrManager.array_indices()[arrayName@] as int].updateDatetime@,
            ),
        ensures
            !self.mbrManager.array_indices().contains_key(arrayName@) ==> r == Err::<String, PosEventId>(PosEventId::MBR_ABR_NOT_FOUND),
            self.mbrManager.array_indices().contains_key(arrayName@) ==> (r matches Ok(s) && s@ == decode_utf8(
                self.mbrManager.systeminfo.arrayInfo@[self.mbrManager.array_indices()[arrayName@] as int].updateDatetime@,
            )),
    {
        let (abr, _) = match self.mbrManager.GetAbr(arrayName) {
            Some((a, i)) => (a, i),
            None => {
                return Err(PosEventId::MBR_ABR_NOT_FOUND);
            },
        };
        Ok(Self::text_of(&abr.updateDatetime))
    }

    /// The recorded creation date of the array named `arrayName`; `MBR_ABR_NOT_FOUND` when no
    /// array has that name.
    pub fn GetCreatedDateTime(&self, arrayName: &String) -> (r: Result<String, PosEventId>)
        requires
            self.mbrManager.wf(),
            self.mbrManager.array_indices().contains_key(arrayName@) ==> valid_utf8(
                self.mbrManager.systeminfo.arrayInfo@[self.mbrManager.array_indices()[arrayName@] as int].createDatetime@,
            ),
        ensures
            !self.mbrManager.array_indices().contains_key(arrayName@) ==> r == Err::<String, PosEventId>(PosEventId::MBR_ABR_NOT_FOUND),
            self.mbrManager.array_indices().contains_key(arrayName@) ==> (r matches Ok(s) && s@ == decode_utf8(
                self.mbrManager.systeminfo.arrayInfo@[self.mbrManager.array_indices()[arrayName@] as int].createDatetime@,
            )),
    {
        let (abr, _) = match self.mbrManager.GetAbr(arrayName) {
            Some((a, i)) => (a, i),
            None => {
                return Err(PosEventId::MBR_ABR_NOT_FOUND);
            },
        };
        Ok(Self::text_of(&abr.createDatetime))
    }

    /// The name of the array that device `devSN` belongs to; see
    /// `MbrManager::FindArrayWithDeviceSN`.
    pub fn FindArrayWithDeviceSN(&self, devSN: String) -> (r: String)
        ensures
            r@ == Seq::<char>::empty(),
    {
        self.mbrManager.FindArrayWithDeviceSN(devSN)
    }
}

} // verus!
