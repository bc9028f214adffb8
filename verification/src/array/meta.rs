use vstd::prelude::*;

verus! {

/// The state of a device that belongs to an array.
#[derive(PartialEq, Eq, Structural, Debug, Clone, Copy)]
pub enum ArrayDeviceState {
    NORMAL,
    FAULT,
    REBUILD,
}

/// The number that stands for `state` on disk.
pub open spec fn spec_device_state_code(state: ArrayDeviceState) -> u32 {
    match state {
        ArrayDeviceState::NORMAL => 0,
        ArrayDeviceState::FAULT => 1,
        ArrayDeviceState::REBUILD => 2,
    }
}

/// The state that the on-disk number `code` stands for; an unknown number reads as a fault.
pub open spec fn spec_device_state_from_code(code: u32) -> ArrayDeviceState {
    if code == 0 {
        ArrayDeviceState::NORMAL
    } else if code == 2 {
        ArrayDeviceState::REBUILD
    } else {
        ArrayDeviceState::FAULT
    }
}

impl ArrayDeviceState {
    /// The number that stands for this state on disk.
    pub fn to_code(&self) -> (r: u32)
        ensures
            r == spec_device_state_code(*self),
    {
        match self {
            ArrayDeviceState::NORMAL => 0,
            ArrayDeviceState::FAULT => 1,
            ArrayDeviceState::REBUILD => 2,
        }
    }

    /// The state that the on-disk number `code` stands for.
    pub fn from_code(code: u32) -> (r: ArrayDeviceState)
        ensures
            r == spec_device_state_from_code(code),
    {
        if code == 0 {
            ArrayDeviceState::NORMAL
        } else if code == 2 {
            ArrayDeviceState::REBUILD
        } else {
            ArrayDeviceState::FAULT
        }
    }
}

/// The role of a device in an array.
#[derive(PartialEq, Eq, Structural, Debug, Clone, Copy)]
pub enum ArrayDeviceType {
    NONE,
    NVM,
    DATA,
    SPARE,
}

/// The number that stands for `t` on disk.
pub open spec fn spec_device_type_code(t: ArrayDeviceType) -> u32 {
    match t {
        ArrayDeviceType::NONE => 0,
        ArrayDeviceType::NVM => 1,
        ArrayDeviceType::DATA => 2,
        ArrayDeviceType::SPARE => 3,
    }
}

impl ArrayDeviceType {
    /// The number that stands for this role on disk.
    pub fn to_code(&self) -> (r: u32)
        ensures
            r == spec_device_type_code(*self),
    {
        match self {
            ArrayDeviceType::NONE => 0,
            ArrayDeviceType::NVM => 1,
            ArrayDeviceType::DATA => 2,
            ArrayDeviceType::SPARE => 3,
        }
    }
}

/// A device of an array: its unique id and its state.
#[derive(Debug)]
pub struct DeviceMeta {
    pub uid: String,
    pub state: ArrayDeviceState,
}

impl DeviceMeta {
    /// A device with the given id and state.
    pub fn new(uid: String, state: ArrayDeviceState) -> (r: DeviceMeta)
        ensures
            r.uid@ == uid@,
            r.state == state,
    {
        DeviceMeta { uid, state }
    }

    /// A copy of this device.
    pub fn clone(&self) -> (r: DeviceMeta)
        ensures
            r.uid@ == self.uid@,
            r.state == self.state,
    {
        DeviceMeta { uid: self.uid.clone(), state: self.state }
    }
}

/// The devices of an array, by role.
#[derive(Debug)]
pub struct DeviceSet {
    pub nvm: Vec<DeviceMeta>,
    pub data: Vec<DeviceMeta>,
    pub spares: Vec<DeviceMeta>,
}

/// The ids of `devs`, in order.
pub open spec fn device_uids(devs: Seq<DeviceMeta>) -> Seq<Seq<char>> {
    devs.map_values(|d: DeviceMeta| d.uid@)
}

impl DeviceSet {
    /// A set made of the given devices.
    pub fn new(nvm: Vec<DeviceMeta>, data: Vec<DeviceMeta>, spares: Vec<DeviceMeta>) -> (r: DeviceSet)
        ensures
            r.nvm@ == nvm@,
            r.data@ == data@,
            r.spares@ == spares@,
    {
        DeviceSet { nvm, data, spares }
    }

    /// The ids of every device: NVM devices, then data devices, then spares.
    pub open spec fn all_uids(&self) -> Seq<Seq<char>> {
        device_uids(self.nvm@) + device_uids(self.data@) + device_uids(self.spares@)
    }
}

/// An array's metadata: its devices, index, name, RAID types, dates and unique id.
#[derive(Debug)]
pub struct ArrayMeta {
    pub devs: DeviceSet,
    pub id: u32,
    pub arrayName: String,
    pub metaRaidType: String,
    pub dataRaidType: String,
    pub createDatetime: String,
    pub updateDatetime: String,
    pub unique_id: u32,
}

impl ArrayMeta {
    /// Metadata for a new array: index 0 and no dates yet.
    pub fn new(
        arrayName: String,
        devs: DeviceSet,
        metaRaidType: String,
        dataRaidType: String,
        unique_id: u32,
    ) -> (r: ArrayMeta)
        ensures
            r.arrayName@ == arrayName@,
            r.devs == devs,
            r.metaRaidType@ == metaRaidType@,
            r.dataRaidType@ == dataRaidType@,
            r.unique_id == unique_id,
            r.id == 0,
            r.createDatetime@ == Seq::<char>::empty(),
            r.updateDatetime@ == Seq::<char>::empty(),
    {
        ArrayMeta {
            devs,
            id: 0,
            arrayName,
            metaRaidType,
            dataRaidType,
            createDatetime: String::new(),
            updateDatetime: String::new(),
            unique_id,
        }
    }
}

} // verus!
