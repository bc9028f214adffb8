use poseidonos_rtype::array::meta::{ArrayDeviceState, ArrayMeta, DeviceMeta, DeviceSet};
use poseidonos_rtype::base::pos_event_id::PosEventId;
use poseidonos_rtype::mbr::abr_manager::AbrManager;
use poseidonos_rtype::mbr::mbr_info::{
    masterBootRecord, ArrayBootRecord, deviceInfo, IntoVecOfU8, ARRAY_NAME_SIZE, DEVICE_UID_SIZE, MBR_VERSION_OFFSET, MBR_SIZE,
};
use poseidonos_rtype::mbr::mbr_laws::{images_loadable, mbr_loadable};
use poseidonos_rtype::mbr::mbr_manager::MbrManager;
use poseidonos_rtype::mbr::mbr_map_manager::MbrMapManager;

#[test]
fn test_arr_to_string() {
    let mut array_name: [u8; ARRAY_NAME_SIZE] = [0; ARRAY_NAME_SIZE];

    let input = String::from("TestArray");
    let slice = &input.as_bytes()[..];
    assert!(slice.len() < ARRAY_NAME_SIZE);

    for i in 0..slice.len() {
        array_name[i] = slice[i];
    }

    assert!(std::str::from_utf8(&array_name).unwrap().to_string().starts_with("TestArray"));
    assert_eq!(std::mem::size_of_val(&array_name), ARRAY_NAME_SIZE);
}

fn meta_for_map_test() -> ArrayMeta {
    let devs = DeviceSet {
        nvm: vec![DeviceMeta { uid: "nvm_uid".to_string(), state: ArrayDeviceState::NORMAL }],
        data: vec![
            DeviceMeta { uid: "data_0".to_string(), state: ArrayDeviceState::NORMAL },
            DeviceMeta { uid: "data_0".to_string(), state: ArrayDeviceState::NORMAL },
        ],
        spares: vec![DeviceMeta { uid: "spare_0".to_string(), state: ArrayDeviceState::NORMAL }],
    };
    ArrayMeta {
        devs,
        id: 0,
        arrayName: "test_array".to_string(),
        metaRaidType: "RAID0".to_string(),
        dataRaidType: "RAID5".to_string(),
        createDatetime: "".to_string(),
        updateDatetime: "".to_string(),
        unique_id: 0,
    }
}

#[test]
fn test_insert_and_reset_map() {
    let meta = meta_for_map_test();

    let arrayIndex = 1;
    let mut mbrMapManager = MbrMapManager::default();
    assert!(mbrMapManager.InsertDevices(&meta, arrayIndex).is_ok());

    assert_eq!(mbrMapManager.FindArrayIndex(&meta.devs.nvm[0].uid), Ok(arrayIndex));
    assert_eq!(mbrMapManager.FindArrayIndex(&meta.devs.data[0].uid), Ok(arrayIndex));
    assert_eq!(mbrMapManager.FindArrayIndex(&meta.devs.data[1].uid), Ok(arrayIndex));
    assert_eq!(mbrMapManager.FindArrayIndex(&meta.devs.spares[0].uid), Ok(arrayIndex));

    assert_eq!(mbrMapManager.CheckAllDevices(&meta).is_err(), true);

    mbrMapManager.ResetMap();
    assert_eq!(mbrMapManager.CheckAllDevices(&meta).is_ok(), true);
}

#[test]
fn map_manager_errors() {
    let meta = meta_for_map_test();
    let mut map = MbrMapManager::default();
    assert_eq!(map.FindArrayIndex(&"nvm_uid".to_string()), Err(PosEventId::ERROR));
    map.InsertDevices(&meta, 2).unwrap();
    assert_eq!(map.CheckAllDevices(&meta), Err(PosEventId::MBR_DEVICE_ALREADY_IN_ARRAY));
    map.DeleteDevices(2).unwrap();
    assert_eq!(map.FindArrayIndex(&"spare_0".to_string()), Err(PosEventId::ERROR));
}

fn version_in(image: &Vec<u8>) -> u32 {
    u32::from_le_bytes([
        image[MBR_VERSION_OFFSET],
        image[MBR_VERSION_OFFSET + 1],
        image[MBR_VERSION_OFFSET + 2],
        image[MBR_VERSION_OFFSET + 3],
    ])
}

#[test]
fn test_if_SaveMbr_increments_version_on_disk() {
    let mut mbr_manager = MbrManager::new();

    assert_eq!(0, mbr_manager.systeminfo.mbrVersion);
    let image = mbr_manager.SaveMbr();
    assert_eq!(image.len(), MBR_SIZE);
    assert_eq!(version_in(&image), 1);

    let image = mbr_manager.SaveMbr();
    assert_eq!(version_in(&image), 2);
}

#[test]
fn failed_write_takes_the_version_back() {
    let mut mbr_manager = MbrManager::new();
    let _ = mbr_manager.SaveMbr();
    assert_eq!(mbr_manager.OnMbrWritten(true), Ok(()));
    let _ = mbr_manager.SaveMbr();
    assert_eq!(mbr_manager.OnMbrWritten(false), Err(PosEventId::MBR_WRITE_ERROR));
    assert_eq!(mbr_manager.GetMbrVersionInMemory(), Ok(1));
    assert_eq!(mbr_manager.systeminfo.mbrVersion, 1);
}

#[test]
fn test_if_LoadMbr_succeeds_when_executed_with_uninitialized_devices_without_MBR_data() {
    let mut mbr_manager = MbrManager::new();
    let images: Vec<Vec<u8>> = (0..4).map(|_| vec![0u8; MBR_SIZE]).collect();

    let result = mbr_manager.LoadMbr(&images);

    result.unwrap();
    assert_eq!(0, mbr_manager.systeminfo.mbrVersion);
    assert_eq!(0, mbr_manager.systeminfo.arrayNum);
}

#[test]
fn load_mbr_without_any_image_fails() {
    let mut mbr_manager = MbrManager::new();
    let images: Vec<Vec<u8>> = vec![vec![1, 2, 3]];
    assert_eq!(mbr_manager.LoadMbr(&images), Err(PosEventId::MBR_DATA_NOT_FOUND));
}

#[test]
fn test_if_LoadMbr_extracts_MBR_written_by_SaveMbr() {
    let mut mbr_manager = MbrManager::new();

    mbr_manager.systeminfo.mbrParity = 1212;
    let first = mbr_manager.SaveMbr();

    mbr_manager.systeminfo.mbrParity = 1213;
    let second = mbr_manager.SaveMbr();

    // The devices hold the second record, but for one that missed it.
    let images = vec![second.clone(), first, second.clone(), second];
    let result = mbr_manager.LoadMbr(&images);

    result.unwrap();
    let mbr = &mbr_manager.systeminfo;
    assert_eq!(2, mbr.mbrVersion);
    assert_eq!(1213, mbr.mbrParity);
}

#[test]
fn test_if_LoadMbr_handles_MBR_with_existing_array_information() {
    let mut mbr_manager = MbrManager::new();

    let ARRAY_NAME = "POSArray1";
    let NUM_DEVICES = 4;
    mbr_manager.systeminfo.arrayValidFlag[0] = 1;
    mbr_manager.systeminfo.arrayNum = 1;
    let mut abr = ArrayBootRecord::default();
    abr.abrVersion = 17;
    abr.arrayName[..ARRAY_NAME.len()].copy_from_slice(ARRAY_NAME.as_bytes());
    abr.totalDevNum = NUM_DEVICES;
    for d in 0..4 {
        let mut devInfo = deviceInfo::default();
        devInfo.deviceUid[0..4].copy_from_slice(format!("dev{}", d).as_bytes());
        abr.devInfo[d] = devInfo;
    }
    mbr_manager.systeminfo.arrayInfo[0] = abr;

    let image = mbr_manager.SaveMbr();
    let images = vec![image.clone(), image.clone(), image.clone(), image];

    let result = mbr_manager.LoadMbr(&images);

    result.unwrap();
    assert_eq!(1, mbr_manager.systeminfo.mbrVersion);
    let mut actual_array_name = String::from_utf8(mbr_manager.systeminfo.arrayInfo[0].arrayName.to_vec()).unwrap();
    actual_array_name.truncate(ARRAY_NAME.len());
    assert_eq!(ARRAY_NAME.to_string(), actual_array_name);
    assert_eq!(1, mbr_manager.systeminfo.arrayNum);

    for dev_num in 0..4 {
        let mut actual_device_uid = [0; DEVICE_UID_SIZE];
        actual_device_uid[0..4].copy_from_slice(format!("dev{}", dev_num).as_bytes());
        let expected_array_idx = 0;
        let actual_array_idx = mbr_manager
            .mapMgr
            .FindArrayIndex(&String::from_utf8(actual_device_uid.to_vec()).unwrap())
            .unwrap();
        assert_eq!(expected_array_idx, actual_array_idx);
    }
}

fn new_devs() -> DeviceSet {
    DeviceSet {
        nvm: vec![DeviceMeta { uid: "nvm1".to_string(), state: ArrayDeviceState::NORMAL }],
        data: vec![DeviceMeta { uid: "data1".to_string(), state: ArrayDeviceState::NORMAL }],
        spares: vec![DeviceMeta { uid: "spare1".to_string(), state: ArrayDeviceState::NORMAL }],
    }
}

/// The current time as the creation of an array records it.
fn now() -> String {
    "2022-10-15 15:48:23 +0000".to_string()
}

#[test]
fn test_if_CreateAbr_returns_newly_allocated_array_idx_and_rejects_if_the_same_device_is_used_by_other_array() {
    let mut mbr_manager = MbrManager::new();

    let unique_id = 1213;
    let array_meta = ArrayMeta::new("array1".to_string(), new_devs(), "RAID10".to_string(), "RAID5".to_string(), unique_id);

    let ret = mbr_manager.CreateAbr(array_meta, &now());

    let actual_array_idx = ret.unwrap() as usize;
    assert_eq!(0, actual_array_idx);
    let mbr = &mut mbr_manager.systeminfo;
    assert_eq!(1, mbr.arrayNum);
    assert_eq!("array1".as_bytes(), &mbr.arrayInfo[actual_array_idx].arrayName[0..6]);
    assert_eq!(1, mbr.arrayValidFlag[actual_array_idx]);

    let array_meta = ArrayMeta::new("somenewarray".to_string(), new_devs(), "RAID10".to_string(), "RAID5".to_string(), unique_id);
    let ret = mbr_manager.CreateAbr(array_meta, &now());

    match ret {
        Ok(_array_idx) => {
            assert!(false);
        }
        Err(e) => {
            assert_eq!(PosEventId::MBR_DEVICE_ALREADY_IN_ARRAY, e);
        }
    }
}

#[test]
fn test_if_CreateAbr_allocates_an_empty_array_index_when_there_are_existing_arrays() {
    let mut mbr_manager = MbrManager::new();
    let mbr = &mut mbr_manager.systeminfo;
    mbr.arrayValidFlag[0] = 1;
    mbr.arrayValidFlag[1] = 1;
    mbr.arrayValidFlag[2] = 1;
    mbr.arrayValidFlag[3] = 0;
    mbr.arrayValidFlag[4] = 1;
    mbr.arrayNum = 4;

    let unique_id = 1213;
    let array_meta = ArrayMeta::new("mynewarray".to_string(), new_devs(), "RAID10".to_string(), "RAID5".to_string(), unique_id);

    let ret = mbr_manager.CreateAbr(array_meta, &now());

    let mbr = &mut mbr_manager.systeminfo;
    let actual_array_idx = ret.unwrap() as usize;
    assert_eq!(3, actual_array_idx);
    assert_eq!(1, mbr.arrayValidFlag[actual_array_idx]);
    assert_eq!("mynewarray".as_bytes(), &mbr.arrayInfo[actual_array_idx].arrayName[0..10]);
    assert_eq!(5, mbr.arrayNum);
}

#[test]
fn create_abr_rejects_a_name_in_use() {
    let mut mbr_manager = MbrManager::new();
    let meta = ArrayMeta::new("dup".to_string(), new_devs(), "RAID10".to_string(), "RAID5".to_string(), 1);
    mbr_manager.CreateAbr(meta, &now()).unwrap();
    let devs = DeviceSet {
        nvm: vec![DeviceMeta { uid: "other".to_string(), state: ArrayDeviceState::NORMAL }],
        data: vec![],
        spares: vec![],
    };
    let meta = ArrayMeta::new("dup".to_string(), devs, "RAID10".to_string(), "RAID5".to_string(), 2);
    assert_eq!(mbr_manager.CreateAbr(meta, &now()), Err(PosEventId::MBR_ABR_ALREADY_EXIST));
}

#[test]
fn record_round_trips_through_bytes() {
    let mut mbr = masterBootRecord::default();
    mbr.mbrVersion = 9;
    mbr.arrayNum = 1;
    mbr.arrayValidFlag[2] = 1;
    mbr.arrayInfo[2].uniqueId = 77;
    mbr.arrayInfo[2].devInfo[5].deviceState = 2;
    let bytes = mbr.to_vec_u8();
    assert_eq!(bytes.len(), MBR_SIZE);
    let back = masterBootRecord::from_vec_u8(bytes.clone()).unwrap();
    assert_eq!(back.to_vec_u8(), bytes);
    assert_eq!(back.mbrVersion, 9);
    assert_eq!(back.arrayInfo[2].uniqueId, 77);
    assert_eq!(back.arrayInfo[2].devInfo[5].deviceState, 2);
}

#[test]
fn mbr_description_lists_valid_arrays() {
    let mut mbr = masterBootRecord::default();
    mbr.mbrVersion = 3;
    mbr.arrayNum = 1;
    mbr.arrayValidFlag[1] = 1;
    mbr.arrayInfo[1].arrayName = b"A".to_vec();
    mbr.arrayInfo[1].arrayName.resize(ARRAY_NAME_SIZE, 0);
    mbr.arrayInfo[1].abrVersion = -2;
    mbr.arrayInfo[1].uniqueId = 5;
    let text = mbr.to_string();
    assert!(text.contains("mbr_version: 3"));
    assert!(text.contains("num_of_array: 1"));
    assert!(text.contains("array_name: A"));
    assert!(text.contains("abr_version: -2"));
    assert!(text.contains("uniqueId: 5"));
    assert_eq!(text.matches("array_name: ").count(), 1);
}

#[test]
fn abr_manager_reports_missing_arrays() {
    let abr_manager = AbrManager::new();
    assert_eq!(abr_manager.GetCreatedDateTime(&"none".to_string()), Err(PosEventId::MBR_ABR_NOT_FOUND));
    assert_eq!(abr_manager.GetLastUpdatedDateTime(&"none".to_string()), Err(PosEventId::MBR_ABR_NOT_FOUND));
    assert!(abr_manager.LoadAbr(&"none".to_string()).is_err());
}

#[test]
fn create_abr_rejects_too_many_arrays() {
    let mut mbr_manager = MbrManager::new();
    mbr_manager.systeminfo.arrayNum = 9;
    let meta = ArrayMeta::new("x".to_string(), new_devs(), "RAID10".to_string(), "RAID5".to_string(), 1);
    assert_eq!(mbr_manager.CreateAbr(meta, &now()), Err(PosEventId::MBR_MAX_ARRAY_CNT_EXCEED));
}

#[test]
fn create_abr_without_a_free_slot() {
    let mut mbr_manager = MbrManager::new();
    for i in 0..8 {
        mbr_manager.systeminfo.arrayValidFlag[i] = 1;
    }
    mbr_manager.systeminfo.arrayNum = 8;
    let meta = ArrayMeta::new("x".to_string(), new_devs(), "RAID10".to_string(), "RAID5".to_string(), 1);
    assert_eq!(mbr_manager.CreateAbr(meta, &now()), Err(PosEventId::MBR_WRONG_ARRAY_VALID_FLAG));
}

#[test]
fn load_mbr_with_a_wrong_array_count() {
    let mut mbr = masterBootRecord::default();
    mbr.arrayNum = 1;
    let image = mbr.to_vec_u8();
    let mut mbr_manager = MbrManager::new();
    assert_eq!(mbr_manager.LoadMbr(&vec![image]), Err(PosEventId::MBR_WRONG_ARRAY_INDEX_MAP));
}

#[test]
fn save_mbr_stamps_the_system_uuid() {
    let mut mbr_manager = MbrManager::new();
    let expected = uuid::Uuid::parse_str(&mbr_manager.systemUuid).unwrap();
    let image = mbr_manager.SaveMbr();
    assert_eq!(&mbr_manager.systeminfo.systemUuid[0..16], expected.as_bytes());
    let back = masterBootRecord::from_vec_u8(image).unwrap();
    assert_eq!(&back.systemUuid[0..16], expected.as_bytes());
}

#[test]
fn abr_manager_saves_and_reads_dates() {
    let mut abr_manager = AbrManager::new();
    let meta = ArrayMeta::new("arr".to_string(), new_devs(), "RAID10".to_string(), "RAID5".to_string(), 4);
    assert_eq!(abr_manager.CreateAbr(meta, &now()), Ok(0));
    assert_eq!(abr_manager.GetCreatedDateTime(&"arr".to_string()).unwrap().len(), 32);
    assert!(abr_manager.GetCreatedDateTime(&"arr".to_string()).unwrap().starts_with(&now()));
    assert!(abr_manager.GetLastUpdatedDateTime(&"arr".to_string()).unwrap().starts_with(&now()));
    let mut meta = ArrayMeta::new("arr".to_string(), new_devs(), "RAID10".to_string(), "RAID5".to_string(), 4);
    let image = abr_manager.SaveAbr(&mut meta).unwrap();
    assert_eq!(image.len(), MBR_SIZE);
    assert_eq!(version_in(&image), 1);
    let list = abr_manager.GetAbrList(&vec![image]).unwrap();
    assert_eq!(list.len(), 1);
    assert_eq!(list[0].uniqueId, 4);
}

#[test]
fn images_are_checked_before_loading() {
    let mut mbr = masterBootRecord::default();
    mbr.arrayValidFlag[0] = 1;
    mbr.arrayNum = 1;
    mbr.arrayInfo[0].totalDevNum = 1;
    mbr.arrayInfo[0].devInfo[0].deviceUid[0] = 0xFF;
    assert!(!images_loadable(&vec![mbr.to_vec_u8()]));
    mbr.arrayInfo[0].devInfo[0].deviceUid[0] = b'd';
    assert!(images_loadable(&vec![mbr.to_vec_u8()]));
}

#[test]
fn records_with_unreadable_devices_are_told_apart() {
    let mut mbr = masterBootRecord::default();
    assert!(mbr_loadable(&mbr));
    mbr.arrayValidFlag[3] = 1;
    mbr.arrayInfo[3].totalDevNum = 200;
    assert!(!mbr_loadable(&mbr));
    mbr.arrayInfo[3].totalDevNum = 2;
    assert!(mbr_loadable(&mbr));
    mbr.arrayInfo[3].devInfo[1].deviceUid[0] = 0xC0;
    assert!(!mbr_loadable(&mbr));
    // An image of the wrong size is skipped.
    assert!(images_loadable(&vec![vec![0u8; 10]]));
}

#[test]
fn create_abr_stamps_both_dates() {
    let mut mbr_manager = MbrManager::new();
    let meta = ArrayMeta::new("dated".to_string(), new_devs(), "RAID10".to_string(), "RAID5".to_string(), 7);
    assert_eq!(mbr_manager.CreateAbr(meta, &now()), Ok(0));
    let abr = &mbr_manager.systeminfo.arrayInfo[0];
    let n = now().len();
    assert_eq!(&abr.createDatetime[0..n], now().as_bytes());
    assert_eq!(&abr.updateDatetime[0..n], now().as_bytes());
    assert!(abr.createDatetime[n..].iter().all(|b| *b == 0));
}

#[test]
fn a_fresh_manager_has_every_slot_free() {
    let mbr_manager = MbrManager::new();
    assert!(mbr_manager.systeminfo.arrayValidFlag.iter().all(|f| *f == 0));
    assert_eq!(mbr_manager.systeminfo.arrayNum, 0);
}
