use vstd::prelude::*;
use vstd::bytes::*;
use vstd::utf8::encode_utf8;
use crate::mbr::codec::{le_word, words_to_bytes, word_at, bytes_to_words, read_u32_le, read_i32_le, transform_vec32_to_vec8, transform_vec8_to_vec32, lemma_words_to_bytes, lemma_words_round_trip, concat_map, all_sized, lemma_concat_map_chunks, lemma_subrange_shift};

verus! {

pub const MAX_ARRAY_CNT: usize = 8;
pub const MAX_ARRAY_DEVICE_CNT: usize = 128;
pub const POS_VERSION_SIZE: usize = 16;
pub const SYSTEM_UUID_SIZE: usize = 64;

pub const ARRAY_NAME_SIZE: usize = 64;
pub const META_RAID_TYPE_SIZE: usize = 16;
pub const DATA_RAID_TYPE_SIZE: usize = 16;
pub const DEVICE_UID_SIZE: usize = 32;
pub const DATE_SIZE: usize = 32;

pub const DEVICE_TYPE_OFFSET: usize = 0;
pub const DEVICE_INFO_PADDING_0_OFFSET: usize = DEVICE_TYPE_OFFSET + 4;
pub const DEVICE_INFO_PADDING_0_NUM: usize = 3;
pub const DEVICE_UID_OFFSET: usize = DEVICE_INFO_PADDING_0_OFFSET + 4 * DEVICE_INFO_PADDING_0_NUM;
pub const DEVICE_STATE_OFFSET: usize = DEVICE_UID_OFFSET + DEVICE_UID_SIZE;
pub const DEVICE_INFO_SIZE: usize = 128;
pub const DEVICE_INFO_PADDING_1_OFFSET: usize = DEVICE_STATE_OFFSET + 4;
pub const DEVICE_INFO_PADDING_1_NUM: usize = (DEVICE_INFO_SIZE - DEVICE_INFO_PADDING_1_OFFSET) / 4;

pub const ARRAY_NAME_OFFSET: usize = 0;
pub const ABR_VERSION_OFFSET: usize = ARRAY_NAME_OFFSET + ARRAY_NAME_SIZE;
pub const ABR_PADDING_0_OFFSET: usize = ABR_VERSION_OFFSET + 4;
pub const ABR_PADDING_0_SIZE: usize = 7;
pub const META_RAID_TYPE_OFFSET: usize = ABR_PADDING_0_OFFSET + 4 * ABR_PADDING_0_SIZE;
pub const DATA_RAID_TYPE_OFFSET: usize = META_RAID_TYPE_OFFSET + META_RAID_TYPE_SIZE;
pub const TOTAL_DEV_NUM_OFFSET: usize = DATA_RAID_TYPE_OFFSET + DATA_RAID_TYPE_SIZE;
pub const NVM_DEV_NUM_OFFSET: usize = TOTAL_DEV_NUM_OFFSET + 4;
pub const DATA_DEV_NUM_OFFSET: usize = NVM_DEV_NUM_OFFSET + 4;
pub const SPARE_DEV_NUM_OFFSET: usize = DATA_DEV_NUM_OFFSET + 4;
pub const MFS_INIT_OFFSET: usize = SPARE_DEV_NUM_OFFSET + 4;
pub const CREATE_DATE_OFFSET: usize = MFS_INIT_OFFSET + 4;
pub const MODIFIED_DATE_OFFSET: usize = CREATE_DATE_OFFSET + DATE_SIZE;
pub const INSTANCE_ID_OFFSET: usize = MODIFIED_DATE_OFFSET + DATE_SIZE;
pub const ABR_PADDING_1_OFFSET: usize = INSTANCE_ID_OFFSET + 4;
pub const ABR_DEVICE_INFO_OFFSET: usize = 1024;
pub const ABR_PADDING_1_NUM: usize = (ABR_DEVICE_INFO_OFFSET - ABR_PADDING_1_OFFSET) / 4;
pub const ABR_RESERVED_OFFSET: usize = ABR_DEVICE_INFO_OFFSET + DEVICE_INFO_SIZE * MAX_ARRAY_DEVICE_CNT;
pub const ABR_RESERVED_NUM: usize = 128;
pub const ABR_SIZE: usize = ABR_RESERVED_OFFSET + 4 * ABR_RESERVED_NUM;

pub const POS_VERSION_OFFSET: usize = 0;
pub const MBR_PADDING_0_OFFSET: usize = POS_VERSION_OFFSET + POS_VERSION_SIZE;
pub const MBR_PADDING_0_NUM: usize = 4;
pub const MBR_VERSION_OFFSET: usize = MBR_PADDING_0_OFFSET + 4 * MBR_PADDING_0_NUM;
pub const MBR_PADDING_1_OFFSET: usize = MBR_VERSION_OFFSET + 4;
pub const MBR_PADDING_1_NUM: usize = 7;
pub const SYSTEM_UUID_OFFSET: usize = MBR_PADDING_1_OFFSET + 4 * MBR_PADDING_1_NUM;
pub const ARRAY_NUM_OFFSET: usize = SYSTEM_UUID_OFFSET + SYSTEM_UUID_SIZE;
pub const MBR_PADDING_2_OFFSET: usize = ARRAY_NUM_OFFSET + 4;
pub const MBR_PADDING_2_NUM: usize = 7;
pub const ARRAY_FLAG_OFFSET: usize = MBR_PADDING_2_OFFSET + 4 * MBR_PADDING_2_NUM;
pub const MBR_PADDING_3_OFFSET: usize = ARRAY_FLAG_OFFSET + 4 * MAX_ARRAY_CNT;
pub const MBR_PADDING_3_NUM: usize = 4;
pub const ARRAY_DEVICE_FLAG_OFFSET: usize = MBR_PADDING_3_OFFSET + 4 * MBR_PADDING_3_NUM;
pub const MBR_PADDING_4_OFFSET: usize = ARRAY_DEVICE_FLAG_OFFSET + 4 * MAX_ARRAY_DEVICE_CNT;
pub const MBR_ABR_OFFSET: usize = 4096;
pub const MBR_PADDING_4_NUM: usize = (MBR_ABR_OFFSET - MBR_PADDING_4_OFFSET) / 4;
pub const MBR_RESERVED_OFFSET: usize = MBR_ABR_OFFSET + ABR_SIZE * MAX_ARRAY_CNT;
pub const MBR_SIZE: usize = 262144;
pub const MBR_PARITY_SIZE: usize = 4;
pub const MBR_RESERVED_NUM: usize = (MBR_SIZE - MBR_PARITY_SIZE - MBR_RESERVED_OFFSET) / 4;
pub const MBR_PARITY_OFFSET: usize = MBR_RESERVED_OFFSET + 4 * MBR_RESERVED_NUM;

/// Values that have an on-disk byte form.
pub trait IntoVecOfU8 {
    /// The on-disk bytes.
    fn to_vec_u8(&self) -> Vec<u8>;
}

/// One device's record in an array boot record, `DEVICE_INFO_SIZE` bytes on disk.
#[derive(Clone, Debug)]
pub struct deviceInfo {
    pub deviceType: u32,
    pub pad0: Vec<u32>,
    pub deviceUid: Vec<u8>,
    pub deviceState: u32,
    pub pad1: Vec<u32>,
}

impl deviceInfo {
    /// Every array field has its on-disk length.
    pub open spec fn wf(&self) -> bool {
        &&& self.pad0@.len() == DEVICE_INFO_PADDING_0_NUM
        &&& self.deviceUid@.len() == DEVICE_UID_SIZE
        &&& self.pad1@.len() == DEVICE_INFO_PADDING_1_NUM
    }

    /// The on-disk bytes of this record: its fields in order, words in little-endian order.
    pub open spec fn spec_bytes(&self) -> Seq<u8> {
        le_word(self.deviceType) + words_to_bytes(self.pad0@) + self.deviceUid@ + le_word(
            self.deviceState,
        ) + words_to_bytes(self.pad1@)
    }

    /// This record is what the bytes of `w` hold.
    pub open spec fn parsed(&self, w: Seq<u8>) -> bool {
        &&& self.deviceType == word_at(w, DEVICE_TYPE_OFFSET as int)
        &&& self.pad0@ == bytes_to_words(
            w.subrange(DEVICE_INFO_PADDING_0_OFFSET as int, DEVICE_UID_OFFSET as int),
        )
        &&& self.deviceUid@ == w.subrange(DEVICE_UID_OFFSET as int, DEVICE_STATE_OFFSET as int)
        &&& self.deviceState == word_at(w, DEVICE_STATE_OFFSET as int)
        &&& self.pad1@ == bytes_to_words(
            w.subrange(DEVICE_INFO_PADDING_1_OFFSET as int, DEVICE_INFO_SIZE as int),
        )
    }

    /// This record is what the `DEVICE_INFO_SIZE` bytes of `b` at `at` hold.
    pub open spec fn parsed_from(&self, b: Seq<u8>, at: int) -> bool {
        self.parsed(b.subrange(at, at + DEVICE_INFO_SIZE))
    }

    /// A record of zeros.
    pub fn default() -> (r: deviceInfo)
        ensures
            r.wf(),
            r.is_blank(),
    {
        deviceInfo {
            deviceType: 0,
            pad0: vec![0u32; DEVICE_INFO_PADDING_0_NUM],
            deviceUid: vec![0u8; DEVICE_UID_SIZE],
            deviceState: 0,
            pad1: vec![0u32; DEVICE_INFO_PADDING_1_NUM],
        }
    }

    /// Reads a record from the first `DEVICE_INFO_SIZE` bytes of `vec_u8`.
    pub fn from_vec_u8(vec_u8: &[u8]) -> (r: deviceInfo)
        requires
            vec_u8@.len() >= DEVICE_INFO_SIZE,
        ensures
            r.wf(),
            r.parsed_from(vec_u8@, 0),
    {
        let device_type = read_u32_le(vstd::slice::slice_subrange(vec_u8, DEVICE_TYPE_OFFSET, DEVICE_INFO_PADDING_0_OFFSET));
        let pad0 = transform_vec8_to_vec32(vstd::slice::slice_subrange(vec_u8, DEVICE_INFO_PADDING_0_OFFSET, DEVICE_UID_OFFSET));
        let device_uid = vstd::slice::slice_to_vec(vstd::slice::slice_subrange(vec_u8, DEVICE_UID_OFFSET, DEVICE_STATE_OFFSET));
        let device_state = read_u32_le(vstd::slice::slice_subrange(vec_u8, DEVICE_STATE_OFFSET, DEVICE_INFO_PADDING_1_OFFSET));
        let pad1 = transform_vec8_to_vec32(vstd::slice::slice_subrange(vec_u8, DEVICE_INFO_PADDING_1_OFFSET, DEVICE_INFO_SIZE));
        proof {
            let b = vec_u8@;
            let w = b.subrange(0, DEVICE_INFO_SIZE as int);
            assert(b.subrange(0, 4).subrange(0, 4) =~= w.subrange(0, 4));
            assert(b.subrange(48, 52).subrange(0, 4) =~= w.subrange(48, 52));
            assert(b.subrange(4, 16) =~= w.subrange(4, 16));
            assert(b.subrange(16, 48) =~= w.subrange(16, 48));
            assert(b.subrange(52, 128) =~= w.subrange(52, 128));
        }
        deviceInfo {
            deviceType: device_type,
            pad0,
            deviceUid: device_uid,
            deviceState: device_state,
            pad1,
        }
    }

}

impl IntoVecOfU8 for deviceInfo {
    /// The on-disk bytes of this record.
    fn to_vec_u8(&self) -> (r: Vec<u8>)
        ensures
            r@ == self.spec_bytes(),
    {
        let mut v = u32_to_le_bytes(self.deviceType);
        let mut p0 = transform_vec32_to_vec8(self.pad0.clone());
        v.append(&mut p0);
        let mut uid = self.deviceUid.clone();
        v.append(&mut uid);
        let mut st = u32_to_le_bytes(self.deviceState);
        v.append(&mut st);
        let mut p1 = transform_vec32_to_vec8(self.pad1.clone());
        v.append(&mut p1);
        v
    }
}

/// A well-formed device record takes `DEVICE_INFO_SIZE` bytes, and reading those bytes back gives
/// the record.
pub proof fn lemma_device_info_round_trip(d: deviceInfo)
    requires
        d.wf(),
    ensures
        d.spec_bytes().len() == DEVICE_INFO_SIZE,
        d.parsed(d.spec_bytes()),
{
    lemma_auto_spec_u32_to_from_le_bytes();
    lemma_words_to_bytes(d.pad0@);
    lemma_words_to_bytes(d.pad1@);
    lemma_words_round_trip(d.pad0@);
    lemma_words_round_trip(d.pad1@);
    let b = d.spec_bytes();
    assert(b.subrange(0, 4) =~= le_word(d.deviceType));
    assert(b.subrange(4, 16) =~= words_to_bytes(d.pad0@));
    assert(b.subrange(16, 48) =~= d.deviceUid@);
    assert(b.subrange(48, 52) =~= le_word(d.deviceState));
    assert(b.subrange(52, 128) =~= words_to_bytes(d.pad1@));
}


/// `deviceInfo::spec_bytes` as a function value.
pub open spec fn device_info_bytes_fn() -> spec_fn(deviceInfo) -> Seq<u8> {
    |d: deviceInfo| d.spec_bytes()
}

/// The array's record in the master boot record, `ABR_SIZE` bytes on disk.
#[derive(Clone, Debug)]
pub struct ArrayBootRecord {
    pub arrayName: Vec<u8>,
    pub abrVersion: i32,
    pub pad0: Vec<u32>,
    pub metaRaidType: Vec<u8>,
    pub dataRaidType: Vec<u8>,
    pub totalDevNum: u32,
    pub nvmDevNum: u32,
    pub dataDevNum: u32,
    pub spareDevNum: u32,
    pub mfsInit: u32,
    pub createDatetime: Vec<u8>,
    pub updateDatetime: Vec<u8>,
    pub uniqueId: u32,
    pub pad1: Vec<u32>,
    pub devInfo: Vec<deviceInfo>,
    pub reserved: Vec<u32>,
}

impl ArrayBootRecord {
    /// Every array field, and every device record, has its on-disk length.
    pub open spec fn wf(&self) -> bool {
        &&& self.arrayName@.len() == ARRAY_NAME_SIZE
        &&& self.pad0@.len() == ABR_PADDING_0_SIZE
        &&& self.metaRaidType@.len() == META_RAID_TYPE_SIZE
        &&& self.dataRaidType@.len() == DATA_RAID_TYPE_SIZE
        &&& self.createDatetime@.len() == DATE_SIZE
        &&& self.updateDatetime@.len() == DATE_SIZE
        &&& self.pad1@.len() == ABR_PADDING_1_NUM
        &&& self.devInfo@.len() == MAX_ARRAY_DEVICE_CNT
        &&& forall|k: int| 0 <= k < self.devInfo@.len() ==> (#[trigger] self.devInfo@[k]).wf()
        &&& self.reserved@.len() == ABR_RESERVED_NUM
    }

    /// The on-disk bytes of the fields before the device records.
    pub open spec fn spec_head_bytes(&self) -> Seq<u8> {
        self.arrayName@ + le_word(self.abrVersion as u32) + words_to_bytes(self.pad0@)
            + self.metaRaidType@ + self.dataRaidType@ + le_word(self.totalDevNum) + le_word(
            self.nvmDevNum,
        ) + le_word(self.dataDevNum) + le_word(self.spareDevNum) + le_word(self.mfsInit)
            + self.createDatetime@ + self.updateDatetime@ + le_word(self.uniqueId)
            + words_to_bytes(self.pad1@)
    }

    /// The on-disk bytes of this record: its fields in order, words in little-endian order.
    pub open spec fn spec_bytes(&self) -> Seq<u8> {
        self.spec_head_bytes() + concat_map(self.devInfo@, device_info_bytes_fn())
            + words_to_bytes(self.reserved@)
    }

    /// The fields before the device records are what the bytes of `w` hold.
    pub open spec fn head_parsed(&self, w: Seq<u8>) -> bool {
        &&& self.arrayName@ == w.subrange(ARRAY_NAME_OFFSET as int, ABR_VERSION_OFFSET as int)
        &&& self.abrVersion == word_at(w, ABR_VERSION_OFFSET as int) as i32
        &&& self.pad0@ == bytes_to_words(w.subrange(ABR_PADDING_0_OFFSET as int, META_RAID_TYPE_OFFSET as int))
        &&& self.metaRaidType@ == w.subrange(META_RAID_TYPE_OFFSET as int, DATA_RAID_TYPE_OFFSET as int)
        &&& self.dataRaidType@ == w.subrange(DATA_RAID_TYPE_OFFSET as int, TOTAL_DEV_NUM_OFFSET as int)
        &&& self.totalDevNum == word_at(w, TOTAL_DEV_NUM_OFFSET as int)
        &&& self.nvmDevNum == word_at(w, NVM_DEV_NUM_OFFSET as int)
        &&& self.dataDevNum == word_at(w, DATA_DEV_NUM_OFFSET as int)
        &&& self.spareDevNum == word_at(w, SPARE_DEV_NUM_OFFSET as int)
        &&& self.mfsInit == word_at(w, MFS_INIT_OFFSET as int)
        &&& self.createDatetime@ == w.subrange(CREATE_DATE_OFFSET as int, MODIFIED_DATE_OFFSET as int)
        &&& self.updateDatetime@ == w.subrange(MODIFIED_DATE_OFFSET as int, INSTANCE_ID_OFFSET as int)
        &&& self.uniqueId == word_at(w, INSTANCE_ID_OFFSET as int)
        &&& self.pad1@ == bytes_to_words(w.subrange(ABR_PADDING_1_OFFSET as int, ABR_DEVICE_INFO_OFFSET as int))
    }

    /// This record is what the bytes of `w` hold.
    pub open spec fn parsed(&self, w: Seq<u8>) -> bool {
        &&& self.head_parsed(w)
        &&& self.devInfo@.len() == MAX_ARRAY_DEVICE_CNT
        &&& forall|k: int|
            0 <= k < MAX_ARRAY_DEVICE_CNT ==> (#[trigger] self.devInfo@[k]).parsed_from(
                w,
                ABR_DEVICE_INFO_OFFSET + DEVICE_INFO_SIZE * k,
            )
        &&& self.reserved@ == bytes_to_words(w.subrange(ABR_RESERVED_OFFSET as int, ABR_SIZE as int))
    }

    /// This record is what the `ABR_SIZE` bytes of `b` at `at` hold.
    pub open spec fn parsed_from(&self, b: Seq<u8>, at: int) -> bool {
        self.parsed(b.subrange(at, at + ABR_SIZE))
    }
}

} // verus!

verus! {

/// The fields before the device records take `ABR_DEVICE_INFO_OFFSET` bytes, and reading them
/// back gives those fields.
proof fn lemma_abr_head_round_trip(abr: ArrayBootRecord)
    requires
        abr.wf(),
    ensures
        abr.spec_head_bytes().len() == ABR_DEVICE_INFO_OFFSET,
        abr.head_parsed(abr.spec_head_bytes()),
{
    lemma_auto_spec_u32_to_from_le_bytes();
    lemma_words_to_bytes(abr.pad0@);
    lemma_words_to_bytes(abr.pad1@);
    lemma_words_round_trip(abr.pad0@);
    lemma_words_round_trip(abr.pad1@);
    let b = abr.spec_head_bytes();
    assert(b.subrange(0, 64) =~= abr.arrayName@);
    assert(b.subrange(64, 68) =~= le_word(abr.abrVersion as u32));
    let v = abr.abrVersion;
    assert((v as u32) as i32 == v) by (bit_vector);
    assert(b.subrange(68, 96) =~= words_to_bytes(abr.pad0@));
    assert(b.subrange(96, 112) =~= abr.metaRaidType@);
    assert(b.subrange(112, 128) =~= abr.dataRaidType@);
    assert(b.subrange(128, 132) =~= le_word(abr.totalDevNum));
    assert(b.subrange(132, 136) =~= le_word(abr.nvmDevNum));
    assert(b.subrange(136, 140) =~= le_word(abr.dataDevNum));
    assert(b.subrange(140, 144) =~= le_word(abr.spareDevNum));
    assert(b.subrange(144, 148) =~= le_word(abr.mfsInit));
    assert(b.subrange(148, 180) =~= abr.createDatetime@);
    assert(b.subrange(180, 212) =~= abr.updateDatetime@);
    assert(b.subrange(212, 216) =~= le_word(abr.uniqueId));
    assert(b.subrange(216, 1024) =~= words_to_bytes(abr.pad1@));
}

/// The head fields of a record read from a window are read from any longer window that starts
/// with the same bytes.
proof fn lemma_abr_head_extend(abr: ArrayBootRecord, head: Seq<u8>, w: Seq<u8>)
    requires
        abr.head_parsed(head),
        head.len() == ABR_DEVICE_INFO_OFFSET,
        w.len() >= ABR_DEVICE_INFO_OFFSET,
        w.subrange(0, ABR_DEVICE_INFO_OFFSET as int) == head,
    ensures
        abr.head_parsed(w),
{
    assert(head.subrange(0, 1024) =~= head);
    lemma_subrange_shift(w, head, 0, ABR_DEVICE_INFO_OFFSET as int);
    assert(w.subrange(0, 64) == head.subrange(0, 64));
    assert(w.subrange(64, 68) == head.subrange(64, 68));
    assert(w.subrange(68, 96) == head.subrange(68, 96));
    assert(w.subrange(96, 112) == head.subrange(96, 112));
    assert(w.subrange(112, 128) == head.subrange(112, 128));
    assert(w.subrange(128, 132) == head.subrange(128, 132));
    assert(w.subrange(132, 136) == head.subrange(132, 136));
    assert(w.subrange(136, 140) == head.subrange(136, 140));
    assert(w.subrange(140, 144) == head.subrange(140, 144));
    assert(w.subrange(144, 148) == head.subrange(144, 148));
    assert(w.subrange(148, 180) == head.subrange(148, 180));
    assert(w.subrange(180, 212) == head.subrange(180, 212));
    assert(w.subrange(212, 216) == head.subrange(212, 216));
    assert(w.subrange(216, 1024) == head.subrange(216, 1024));
}

/// The device records of a well-formed array record take `DEVICE_INFO_SIZE` bytes each, and the
/// `k`-th slice of that many bytes is the `k`-th record's bytes.
proof fn lemma_device_infos_chunks(devs: Seq<deviceInfo>)
    requires
        forall|k: int| 0 <= k < devs.len() ==> (#[trigger] devs[k]).wf(),
    ensures
        concat_map(devs, device_info_bytes_fn()).len() == DEVICE_INFO_SIZE * devs.len(),
        forall|k: int|
            0 <= k < devs.len() ==> #[trigger] concat_map(devs, device_info_bytes_fn()).subrange(
                k * DEVICE_INFO_SIZE,
                k * DEVICE_INFO_SIZE + DEVICE_INFO_SIZE,
            ) == devs[k].spec_bytes(),
{
    assert(all_sized(devs, device_info_bytes_fn(), DEVICE_INFO_SIZE as nat)) by {
        assert forall|i: int| 0 <= i < devs.len() implies (#[trigger] device_info_bytes_fn()(
            devs[i],
        )).len() == DEVICE_INFO_SIZE by {
            lemma_device_info_round_trip(devs[i]);
        }
    }
    lemma_concat_map_chunks(devs, device_info_bytes_fn(), DEVICE_INFO_SIZE as nat);
}

/// A well-formed array record takes `ABR_SIZE` bytes, and reading those bytes back gives the
/// record.
pub proof fn lemma_abr_round_trip(abr: ArrayBootRecord)
    requires
        abr.wf(),
    ensures
        abr.spec_bytes().len() == ABR_SIZE,
        abr.parsed(abr.spec_bytes()),
{
    let head = abr.spec_head_bytes();
    let devs = concat_map(abr.devInfo@, device_info_bytes_fn());
    let res = words_to_bytes(abr.reserved@);
    let b = abr.spec_bytes();
    lemma_abr_head_round_trip(abr);
    lemma_device_infos_chunks(abr.devInfo@);
    lemma_words_to_bytes(abr.reserved@);
    lemma_words_round_trip(abr.reserved@);
    assert(b.subrange(0, 1024) =~= head);
    lemma_abr_head_extend(abr, head, b);
    assert forall|k: int| 0 <= k < MAX_ARRAY_DEVICE_CNT implies (#[trigger] abr.devInfo@[k]).parsed_from(
        b,
        ABR_DEVICE_INFO_OFFSET + DEVICE_INFO_SIZE * k,
    ) by {
        let d = abr.devInfo@[k];
        let at = ABR_DEVICE_INFO_OFFSET + DEVICE_INFO_SIZE * k;
        lemma_device_info_round_trip(d);
        assert(k * DEVICE_INFO_SIZE == DEVICE_INFO_SIZE * k);
        assert(b.subrange(at, at + 128) =~= devs.subrange(k * 128, k * 128 + 128));
    }
    assert(b.subrange(17408, 17920) =~= res);
}

/// Copies `len` bytes of `b` starting at `from` into a new vector.
fn copy_bytes(b: &[u8], from: usize, len: usize) -> (r: Vec<u8>)
    requires
        from + len <= b@.len(),
    ensures
        r@ == b@.subrange(from as int, from + len),
{
    let n = b.len();
    vstd::slice::slice_to_vec(vstd::slice::slice_subrange(b, from, from + len))
}

/// Reads the little-endian word at byte `from` of `b`.
fn word_from(b: &[u8], from: usize) -> (r: u32)
    requires
        from + 4 <= b@.len(),
    ensures
        r == word_at(b@, from as int),
{
    let n = b.len();
    let s = vstd::slice::slice_subrange(b, from, from + 4);
    let r = read_u32_le(s);
    assert(s@.subrange(0, 4) =~= b@.subrange(from as int, from + 4));
    r
}

/// Reads the little-endian signed word at byte `from` of `b`.
fn signed_word_from(b: &[u8], from: usize) -> (r: i32)
    requires
        from + 4 <= b@.len(),
    ensures
        r == word_at(b@, from as int) as i32,
{
    let n = b.len();
    let s = vstd::slice::slice_subrange(b, from, from + 4);
    let r = read_i32_le(s);
    assert(s@.subrange(0, 4) =~= b@.subrange(from as int, from + 4));
    r
}

/// Reads the `num` little-endian words that start at byte `from` of `b`.
fn words_from(b: &[u8], from: usize, num: usize) -> (r: Vec<u32>)
    requires
        from + 4 * num <= b@.len(),
    ensures
        r@ == bytes_to_words(b@.subrange(from as int, from + 4 * num)),
{
    let n = b.len();
    transform_vec8_to_vec32(vstd::slice::slice_subrange(b, from, from + 4 * num))
}

impl ArrayBootRecord {
    /// A record of zeros.
    pub fn default() -> (r: ArrayBootRecord)
        ensures
            r.wf(),
            r.is_blank(),
    {
        let mut devs: Vec<deviceInfo> = Vec::new();
        let mut i: usize = 0;
        while i < MAX_ARRAY_DEVICE_CNT
            invariant
                i <= MAX_ARRAY_DEVICE_CNT,
                devs@.len() == i,
                forall|k: int| 0 <= k < devs@.len() ==> (#[trigger] devs@[k]).wf() && devs@[k].is_blank(),
            decreases MAX_ARRAY_DEVICE_CNT - i,
        {
            devs.push(deviceInfo::default());
            i = i + 1;
        }
        ArrayBootRecord {
            arrayName: vec![0u8; ARRAY_NAME_SIZE],
            abrVersion: 0,
            pad0: vec![0u32; ABR_PADDING_0_SIZE],
            metaRaidType: vec![0u8; META_RAID_TYPE_SIZE],
            dataRaidType: vec![0u8; DATA_RAID_TYPE_SIZE],
            totalDevNum: 0,
            nvmDevNum: 0,
            dataDevNum: 0,
            spareDevNum: 0,
            mfsInit: 0,
            createDatetime: vec![0u8; DATE_SIZE],
            updateDatetime: vec![0u8; DATE_SIZE],
            uniqueId: 0,
            pad1: vec![0u32; ABR_PADDING_1_NUM],
            devInfo: devs,
            reserved: vec![0u32; ABR_RESERVED_NUM],
        }
    }

    /// Reads a record from the first `ABR_SIZE` bytes of `vec_u8`.
    pub fn from_vec_u8(vec_u8: &[u8]) -> (r: ArrayBootRecord)
        requires
            vec_u8@.len() >= ABR_SIZE,
        ensures
            r.parsed_from(vec_u8@, 0),
    {
        let b = vec_u8;
        let ghost w = b@.subrange(0, ABR_SIZE as int);
        let mut devs: Vec<deviceInfo> = Vec::new();
        let mut k: usize = 0;
        while k < MAX_ARRAY_DEVICE_CNT
            invariant
                k <= MAX_ARRAY_DEVICE_CNT,
                b@.len() >= ABR_SIZE,
                w == b@.subrange(0, ABR_SIZE as int),
                devs@.len() == k,
                forall|j: int|
                    0 <= j < k ==> (#[trigger] devs@[j]).parsed_from(
                        w,
                        ABR_DEVICE_INFO_OFFSET + DEVICE_INFO_SIZE * j,
                    ),
            decreases MAX_ARRAY_DEVICE_CNT - k,
        {
            let at = ABR_DEVICE_INFO_OFFSET + DEVICE_INFO_SIZE * k;
            let chunk = vstd::slice::slice_subrange(b, at, at + DEVICE_INFO_SIZE);
            let d = deviceInfo::from_vec_u8(chunk);
            proof {
                assert(chunk@.subrange(0, 128) =~= w.subrange(at as int, at + 128));
            }
            devs.push(d);
            k = k + 1;
        }
        proof {
            assert(w.subrange(0, ABR_SIZE as int) =~= w);
            lemma_subrange_shift(b@, w, 0, ABR_SIZE as int);
        }
        ArrayBootRecord {
            arrayName: copy_bytes(b, ARRAY_NAME_OFFSET, ARRAY_NAME_SIZE),
            abrVersion: signed_word_from(b, ABR_VERSION_OFFSET),
            pad0: words_from(b, ABR_PADDING_0_OFFSET, ABR_PADDING_0_SIZE),
            metaRaidType: copy_bytes(b, META_RAID_TYPE_OFFSET, META_RAID_TYPE_SIZE),
            dataRaidType: copy_bytes(b, DATA_RAID_TYPE_OFFSET, DATA_RAID_TYPE_SIZE),
            totalDevNum: word_from(b, TOTAL_DEV_NUM_OFFSET),
            nvmDevNum: word_from(b, NVM_DEV_NUM_OFFSET),
            dataDevNum: word_from(b, DATA_DEV_NUM_OFFSET),
            spareDevNum: word_from(b, SPARE_DEV_NUM_OFFSET),
            mfsInit: word_from(b, MFS_INIT_OFFSET),
            createDatetime: copy_bytes(b, CREATE_DATE_OFFSET, DATE_SIZE),
            updateDatetime: copy_bytes(b, MODIFIED_DATE_OFFSET, DATE_SIZE),
            uniqueId: word_from(b, INSTANCE_ID_OFFSET),
            pad1: words_from(b, ABR_PADDING_1_OFFSET, ABR_PADDING_1_NUM),
            devInfo: devs,
            reserved: words_from(b, ABR_RESERVED_OFFSET, ABR_RESERVED_NUM),
        }
    }

    /// The on-disk bytes of the fields before the device records.
    fn head_to_vec_u8(&self) -> (r: Vec<u8>)
        ensures
            r@ == self.spec_head_bytes(),
    {
        let mut v = self.arrayName.clone();
        let mut x = u32_to_le_bytes(self.abrVersion as u32);
        v.append(&mut x);
        let mut x = transform_vec32_to_vec8(self.pad0.clone());
        v.append(&mut x);
        let mut x = self.metaRaidType.clone();
        v.append(&mut x);
        let mut x = self.dataRaidType.clone();
        v.append(&mut x);
        let mut x = u32_to_le_bytes(self.totalDevNum);
        v.append(&mut x);
        let mut x = u32_to_le_bytes(self.nvmDevNum);
        v.append(&mut x);
        let mut x = u32_to_le_bytes(self.dataDevNum);
        v.append(&mut x);
        let mut x = u32_to_le_bytes(self.spareDevNum);
        v.append(&mut x);
        let mut x = u32_to_le_bytes(self.mfsInit);
        v.append(&mut x);
        let mut x = self.createDatetime.clone();
        v.append(&mut x);
        let mut x = self.updateDatetime.clone();
        v.append(&mut x);
        let mut x = u32_to_le_bytes(self.uniqueId);
        v.append(&mut x);
        let mut x = transform_vec32_to_vec8(self.pad1.clone());
        v.append(&mut x);
        v
    }

}

impl IntoVecOfU8 for ArrayBootRecord {
    /// The on-disk bytes of this record.
    fn to_vec_u8(&self) -> (r: Vec<u8>)
        ensures
            r@ == self.spec_bytes(),
    {
        let mut v = self.head_to_vec_u8();
        let ghost head = v@;
        let mut i: usize = 0;
        while i < self.devInfo.len()
            invariant
                i <= self.devInfo@.len(),
                head == self.spec_head_bytes(),
                v@ == head + concat_map(self.devInfo@.subrange(0, i as int), device_info_bytes_fn()),
            decreases self.devInfo@.len() - i,
        {
            let mut d = self.devInfo[i].to_vec_u8();
            v.append(&mut d);
            proof {
                let s = self.devInfo@.subrange(0, i as int + 1);
                assert(s.drop_last() =~= self.devInfo@.subrange(0, i as int));
                assert(s.last() == self.devInfo@[i as int]);
                assert(device_info_bytes_fn()(s.last()) == self.devInfo@[i as int].spec_bytes());
            }
            i = i + 1;
        }
        assert(self.devInfo@.subrange(0, self.devInfo@.len() as int) =~= self.devInfo@);
        let mut x = transform_vec32_to_vec8(self.reserved.clone());
        v.append(&mut x);
        v
    }
}


/// `ArrayBootRecord::spec_bytes` as a function value.
pub open spec fn abr_bytes_fn() -> spec_fn(ArrayBootRecord) -> Seq<u8> {
    |a: ArrayBootRecord| a.spec_bytes()
}

/// The master boot record: the system's and every array's metadata, `MBR_SIZE` bytes on disk.
#[derive(Debug)]
pub struct masterBootRecord {
    pub posVersion: Vec<u8>,
    pub pad0: Vec<u32>,
    pub mbrVersion: u32,
    pub pad1: Vec<u32>,
    pub systemUuid: Vec<u8>,
    pub arrayNum: u32,
    pub pad2: Vec<u32>,
    pub arrayValidFlag: Vec<u32>,
    pub pad3: Vec<u32>,
    pub arrayDevFlag: Vec<u32>,
    pub pad4: Vec<u32>,
    pub arrayInfo: Vec<ArrayBootRecord>,
    pub reserved: Vec<u32>,
    pub mbrParity: u32,
}

impl masterBootRecord {
    /// Every array field, and every array record, has its on-disk length.
    pub open spec fn wf(&self) -> bool {
        &&& self.posVersion@.len() == POS_VERSION_SIZE
        &&& self.pad0@.len() == MBR_PADDING_0_NUM
        &&& self.pad1@.len() == MBR_PADDING_1_NUM
        &&& self.systemUuid@.len() == SYSTEM_UUID_SIZE
        &&& self.pad2@.len() == MBR_PADDING_2_NUM
        &&& self.arrayValidFlag@.len() == MAX_ARRAY_CNT
        &&& self.pad3@.len() == MBR_PADDING_3_NUM
        &&& self.arrayDevFlag@.len() == MAX_ARRAY_DEVICE_CNT
        &&& self.pad4@.len() == MBR_PADDING_4_NUM
        &&& self.arrayInfo@.len() == MAX_ARRAY_CNT
        &&& forall|k: int| 0 <= k < self.arrayInfo@.len() ==> (#[trigger] self.arrayInfo@[k]).wf()
        &&& self.reserved@.len() == MBR_RESERVED_NUM
    }

    /// The on-disk bytes of the fields before the array records.
    pub open spec fn spec_head_bytes(&self) -> Seq<u8> {
        self.posVersion@ + words_to_bytes(self.pad0@) + le_word(self.mbrVersion) + words_to_bytes(
            self.pad1@,
        ) + self.systemUuid@ + le_word(self.arrayNum) + words_to_bytes(self.pad2@)
            + words_to_bytes(self.arrayValidFlag@) + words_to_bytes(self.pad3@) + words_to_bytes(
            self.arrayDevFlag@,
        ) + words_to_bytes(self.pad4@)
    }

    /// The on-disk bytes of this record: its fields in order, words in little-endian order.
    pub open spec fn spec_bytes(&self) -> Seq<u8> {
        self.spec_head_bytes() + concat_map(self.arrayInfo@, abr_bytes_fn()) + words_to_bytes(
            self.reserved@,
        ) + le_word(self.mbrParity)
    }

    /// The fields before the array records are what the bytes of `w` hold.
    pub open spec fn head_parsed(&self, w: Seq<u8>) -> bool {
        &&& self.posVersion@ == w.subrange(POS_VERSION_OFFSET as int, MBR_PADDING_0_OFFSET as int)
        &&& self.pad0@ == bytes_to_words(w.subrange(MBR_PADDING_0_OFFSET as int, MBR_VERSION_OFFSET as int))
        &&& self.mbrVersion == word_at(w, MBR_VERSION_OFFSET as int)
        &&& self.pad1@ == bytes_to_words(w.subrange(MBR_PADDING_1_OFFSET as int, SYSTEM_UUID_OFFSET as int))
        &&& self.systemUuid@ == w.subrange(SYSTEM_UUID_OFFSET as int, ARRAY_NUM_OFFSET as int)
        &&& self.arrayNum == word_at(w, ARRAY_NUM_OFFSET as int)
        &&& self.pad2@ == bytes_to_words(w.subrange(MBR_PADDING_2_OFFSET as int, ARRAY_FLAG_OFFSET as int))
        &&& self.arrayValidFlag@ == bytes_to_words(w.subrange(ARRAY_FLAG_OFFSET as int, MBR_PADDING_3_OFFSET as int))
        &&& self.pad3@ == bytes_to_words(w.subrange(MBR_PADDING_3_OFFSET as int, ARRAY_DEVICE_FLAG_OFFSET as int))
        &&& self.arrayDevFlag@ == bytes_to_words(w.subrange(ARRAY_DEVICE_FLAG_OFFSET as int, MBR_PADDING_4_OFFSET as int))
        &&& self.pad4@ == bytes_to_words(w.subrange(MBR_PADDING_4_OFFSET as int, MBR_ABR_OFFSET as int))
    }

    /// This record is what the bytes of `w` hold.
    pub open spec fn parsed(&self, w: Seq<u8>) -> bool {
        &&& self.head_parsed(w)
        &&& self.arrayInfo@.len() == MAX_ARRAY_CNT
        &&& forall|k: int|
            0 <= k < MAX_ARRAY_CNT ==> (#[trigger] self.arrayInfo@[k]).parsed_from(
                w,
                MBR_ABR_OFFSET + ABR_SIZE * k,
            )
        &&& self.reserved@ == bytes_to_words(w.subrange(MBR_RESERVED_OFFSET as int, MBR_PARITY_OFFSET as int))
        &&& self.mbrParity == word_at(w, MBR_PARITY_OFFSET as int)
    }
}

} // verus!

verus! {

/// The fields before the array records take `MBR_ABR_OFFSET` bytes, and reading them back gives
/// those fields.
proof fn lemma_mbr_head_round_trip(m: masterBootRecord)
    requires
        m.wf(),
    ensures
        m.spec_head_bytes().len() == MBR_ABR_OFFSET,
        m.head_parsed(m.spec_head_bytes()),
{
    lemma_auto_spec_u32_to_from_le_bytes();
    lemma_words_to_bytes(m.pad0@);
    lemma_words_to_bytes(m.pad1@);
    lemma_words_to_bytes(m.pad2@);
    lemma_words_to_bytes(m.arrayValidFlag@);
    lemma_words_to_bytes(m.pad3@);
    lemma_words_to_bytes(m.arrayDevFlag@);
    lemma_words_to_bytes(m.pad4@);
    lemma_words_round_trip(m.pad0@);
    lemma_words_round_trip(m.pad1@);
    lemma_words_round_trip(m.pad2@);
    lemma_words_round_trip(m.arrayValidFlag@);
    lemma_words_round_trip(m.pad3@);
    lemma_words_round_trip(m.arrayDevFlag@);
    lemma_words_round_trip(m.pad4@);
    let b = m.spec_head_bytes();
    assert(b.subrange(0, 16) =~= m.posVersion@);
    assert(b.subrange(16, 32) =~= words_to_bytes(m.pad0@));
    assert(b.subrange(32, 36) =~= le_word(m.mbrVersion));
    assert(b.subrange(36, 64) =~= words_to_bytes(m.pad1@));
    assert(b.subrange(64, 128) =~= m.systemUuid@);
    assert(b.subrange(128, 132) =~= le_word(m.arrayNum));
    assert(b.subrange(132, 160) =~= words_to_bytes(m.pad2@));
    assert(b.subrange(160, 192) =~= words_to_bytes(m.arrayValidFlag@));
    assert(b.subrange(192, 208) =~= words_to_bytes(m.pad3@));
    assert(b.subrange(208, 720) =~= words_to_bytes(m.arrayDevFlag@));
    assert(b.subrange(720, 4096) =~= words_to_bytes(m.pad4@));
}

/// The head fields of a master boot record read from a window are read from any longer window
/// that starts with the same bytes.
proof fn lemma_mbr_head_extend(m: masterBootRecord, head: Seq<u8>, w: Seq<u8>)
    requires
        m.head_parsed(head),
        head.len() == MBR_ABR_OFFSET,
        w.len() >= MBR_ABR_OFFSET,
        w.subrange(0, MBR_ABR_OFFSET as int) == head,
    ensures
        m.head_parsed(w),
{
    assert(head.subrange(0, 4096) =~= head);
    lemma_subrange_shift(w, head, 0, MBR_ABR_OFFSET as int);
    assert(w.subrange(0, 16) == head.subrange(0, 16));
    assert(w.subrange(16, 32) == head.subrange(16, 32));
    assert(w.subrange(32, 36) == head.subrange(32, 36));
    assert(w.subrange(36, 64) == head.subrange(36, 64));
    assert(w.subrange(64, 128) == head.subrange(64, 128));
    assert(w.subrange(128, 132) == head.subrange(128, 132));
    assert(w.subrange(132, 160) == head.subrange(132, 160));
    assert(w.subrange(160, 192) == head.subrange(160, 192));
    assert(w.subrange(192, 208) == head.subrange(192, 208));
    assert(w.subrange(208, 720) == head.subrange(208, 720));
    assert(w.subrange(720, 4096) == head.subrange(720, 4096));
}

/// The array records of a well-formed master boot record take `ABR_SIZE` bytes each, and the
/// `k`-th slice of that many bytes is the `k`-th record's bytes.
proof fn lemma_abrs_chunks(abrs: Seq<ArrayBootRecord>)
    requires
        forall|k: int| 0 <= k < abrs.len() ==> (#[trigger] abrs[k]).wf(),
    ensures
        concat_map(abrs, abr_bytes_fn()).len() == ABR_SIZE * abrs.len(),
        forall|k: int|
            0 <= k < abrs.len() ==> #[trigger] concat_map(abrs, abr_bytes_fn()).subrange(
                k * ABR_SIZE,
                k * ABR_SIZE + ABR_SIZE,
            ) == abrs[k].spec_bytes(),
{
    assert(all_sized(abrs, abr_bytes_fn(), ABR_SIZE as nat)) by {
        assert forall|i: int| 0 <= i < abrs.len() implies (#[trigger] abr_bytes_fn()(abrs[i])).len()
            == ABR_SIZE by {
            lemma_abr_round_trip(abrs[i]);
        }
    }
    lemma_concat_map_chunks(abrs, abr_bytes_fn(), ABR_SIZE as nat);
}

/// A well-formed master boot record takes `MBR_SIZE` bytes, and reading those bytes back gives
/// the record.
pub proof fn lemma_mbr_round_trip(m: masterBootRecord)
    requires
        m.wf(),
    ensures
        m.spec_bytes().len() == MBR_SIZE,
        m.parsed(m.spec_bytes()),
{
    let head = m.spec_head_bytes();
    let abrs = concat_map(m.arrayInfo@, abr_bytes_fn());
    let res = words_to_bytes(m.reserved@);
    let b = m.spec_bytes();
    lemma_auto_spec_u32_to_from_le_bytes();
    lemma_mbr_head_round_trip(m);
    lemma_abrs_chunks(m.arrayInfo@);
    lemma_words_to_bytes(m.reserved@);
    lemma_words_round_trip(m.reserved@);
    assert(b.subrange(0, 4096) =~= head);
    lemma_mbr_head_extend(m, head, b);
    assert forall|k: int| 0 <= k < MAX_ARRAY_CNT implies (#[trigger] m.arrayInfo@[k]).parsed_from(
        b,
        MBR_ABR_OFFSET + ABR_SIZE * k,
    ) by {
        let a = m.arrayInfo@[k];
        let at = MBR_ABR_OFFSET + ABR_SIZE * k;
        lemma_abr_round_trip(a);
        assert(k * ABR_SIZE == ABR_SIZE * k);
        assert(0 <= k * ABR_SIZE && k * ABR_SIZE + ABR_SIZE <= ABR_SIZE * MAX_ARRAY_CNT) by (nonlinear_arith)
            requires
                0 <= k < MAX_ARRAY_CNT,
        ;
        assert(b.subrange(at, at + ABR_SIZE) =~= abrs.subrange(k * ABR_SIZE, k * ABR_SIZE + ABR_SIZE));
    }
    assert(b.subrange(147456, 262140) =~= res);
    assert(b.subrange(262140, 262144) =~= le_word(m.mbrParity));
}


impl masterBootRecord {
    /// A record of zeros.
    pub fn default() -> (r: masterBootRecord)
        ensures
            r.wf(),
            r.is_blank(),
            r.mbrVersion == 0,
            r.arrayNum == 0,
            r.mbrParity == 0,
            forall|i: int| 0 <= i < MAX_ARRAY_CNT ==> r.arrayValidFlag@[i] == 0,
    {
        let mut abrs: Vec<ArrayBootRecord> = Vec::new();
        let mut i: usize = 0;
        while i < MAX_ARRAY_CNT
            invariant
                i <= MAX_ARRAY_CNT,
                abrs@.len() == i,
                forall|k: int| 0 <= k < abrs@.len() ==> (#[trigger] abrs@[k]).wf() && abrs@[k].is_blank(),
            decreases MAX_ARRAY_CNT - i,
        {
            abrs.push(ArrayBootRecord::default());
            i = i + 1;
        }
        masterBootRecord {
            posVersion: vec![0u8; POS_VERSION_SIZE],
            pad0: vec![0u32; MBR_PADDING_0_NUM],
            mbrVersion: 0,
            pad1: vec![0u32; MBR_PADDING_1_NUM],
            systemUuid: vec![0u8; SYSTEM_UUID_SIZE],
            arrayNum: 0,
            pad2: vec![0u32; MBR_PADDING_2_NUM],
            arrayValidFlag: vec![0u32; MAX_ARRAY_CNT],
            pad3: vec![0u32; MBR_PADDING_3_NUM],
            arrayDevFlag: vec![0u32; MAX_ARRAY_DEVICE_CNT],
            pad4: vec![0u32; MBR_PADDING_4_NUM],
            arrayInfo: abrs,
            reserved: vec![0u32; MBR_RESERVED_NUM],
            mbrParity: 0,
        }
    }

    /// Reads a master boot record from `vec_u8`, which must be exactly `MBR_SIZE` bytes long.
    pub fn from_vec_u8(vec_u8: Vec<u8>) -> (r: Option<Box<masterBootRecord>>)
        ensures
            r is None <==> vec_u8@.len() != MBR_SIZE,
            r matches Some(m) ==> m.parsed(vec_u8@),
    {
        if vec_u8.len() != MBR_SIZE {
            return None;
        }
        let b = vec_u8.as_slice();
        let mut abrs: Vec<ArrayBootRecord> = Vec::new();
        let mut k: usize = 0;
        while k < MAX_ARRAY_CNT
            invariant
                k <= MAX_ARRAY_CNT,
                b@.len() == MBR_SIZE,
                abrs@.len() == k,
                forall|j: int|
                    0 <= j < k ==> (#[trigger] abrs@[j]).parsed_from(b@, MBR_ABR_OFFSET + ABR_SIZE * j),
            decreases MAX_ARRAY_CNT - k,
        {
            assert(ABR_SIZE * k + ABR_SIZE <= ABR_SIZE * MAX_ARRAY_CNT) by (nonlinear_arith)
                requires
                    k < MAX_ARRAY_CNT,
            ;
            let at = MBR_ABR_OFFSET + ABR_SIZE * k;
            let chunk = vstd::slice::slice_subrange(b, at, at + ABR_SIZE);
            let a = ArrayBootRecord::from_vec_u8(chunk);
            proof {
                assert(chunk@.subrange(0, ABR_SIZE as int) =~= b@.subrange(at as int, at + ABR_SIZE));
            }
            abrs.push(a);
            k = k + 1;
        }
        let m = masterBootRecord {
            posVersion: copy_bytes(b, POS_VERSION_OFFSET, POS_VERSION_SIZE),
            pad0: words_from(b, MBR_PADDING_0_OFFSET, MBR_PADDING_0_NUM),
            mbrVersion: word_from(b, MBR_VERSION_OFFSET),
            pad1: words_from(b, MBR_PADDING_1_OFFSET, MBR_PADDING_1_NUM),
            systemUuid: copy_bytes(b, SYSTEM_UUID_OFFSET, SYSTEM_UUID_SIZE),
            arrayNum: word_from(b, ARRAY_NUM_OFFSET),
            pad2: words_from(b, MBR_PADDING_2_OFFSET, MBR_PADDING_2_NUM),
            arrayValidFlag: words_from(b, ARRAY_FLAG_OFFSET, MAX_ARRAY_CNT),
            pad3: words_from(b, MBR_PADDING_3_OFFSET, MBR_PADDING_3_NUM),
            arrayDevFlag: words_from(b, ARRAY_DEVICE_FLAG_OFFSET, MAX_ARRAY_DEVICE_CNT),
            pad4: words_from(b, MBR_PADDING_4_OFFSET, MBR_PADDING_4_NUM),
            arrayInfo: abrs,
            reserved: words_from(b, MBR_RESERVED_OFFSET, MBR_RESERVED_NUM),
            mbrParity: word_from(b, MBR_PARITY_OFFSET),
        };
        Some(Box::new(m))
    }

    /// The on-disk bytes of the fields before the array records.
    fn head_to_vec_u8(&self) -> (r: Vec<u8>)
        ensures
            r@ == self.spec_head_bytes(),
    {
        let mut v = self.posVersion.clone();
        let mut x = transform_vec32_to_vec8(self.pad0.clone());
        v.append(&mut x);
        let mut x = u32_to_le_bytes(self.mbrVersion);
        v.append(&mut x);
        let mut x = transform_vec32_to_vec8(self.pad1.clone());
        v.append(&mut x);
        let mut x = self.systemUuid.clone();
        v.append(&mut x);
        let mut x = u32_to_le_bytes(self.arrayNum);
        v.append(&mut x);
        let mut x = transform_vec32_to_vec8(self.pad2.clone());
        v.append(&mut x);
        let mut x = transform_vec32_to_vec8(self.arrayValidFlag.clone());
        v.append(&mut x);
        let mut x = transform_vec32_to_vec8(self.pad3.clone());
        v.append(&mut x);
        let mut x = transform_vec32_to_vec8(self.arrayDevFlag.clone());
        v.append(&mut x);
        let mut x = transform_vec32_to_vec8(self.pad4.clone());
        v.append(&mut x);
        v
    }

}

impl IntoVecOfU8 for masterBootRecord {
    /// The on-disk bytes of this record.
    fn to_vec_u8(&self) -> (r: Vec<u8>)
        ensures
            r@ == self.spec_bytes(),
    {
        let mut v = self.head_to_vec_u8();
        let ghost head = v@;
        let mut i: usize = 0;
        while i < self.arrayInfo.len()
            invariant
                i <= self.arrayInfo@.len(),
                head == self.spec_head_bytes(),
                v@ == head + concat_map(self.arrayInfo@.subrange(0, i as int), abr_bytes_fn()),
            decreases self.arrayInfo@.len() - i,
        {
            let mut a = self.arrayInfo[i].to_vec_u8();
            v.append(&mut a);
            proof {
                let s = self.arrayInfo@.subrange(0, i as int + 1);
                assert(s.drop_last() =~= self.arrayInfo@.subrange(0, i as int));
                assert(s.last() == self.arrayInfo@[i as int]);
                assert(abr_bytes_fn()(s.last()) == self.arrayInfo@[i as int].spec_bytes());
            }
            i = i + 1;
        }
        assert(self.arrayInfo@.subrange(0, self.arrayInfo@.len() as int) =~= self.arrayInfo@);
        let mut x = transform_vec32_to_vec8(self.reserved.clone());
        v.append(&mut x);
        let mut x = u32_to_le_bytes(self.mbrParity);
        v.append(&mut x);
        v
    }
}


/// Every byte of `s` is zero.
pub open spec fn all_zero_bytes(s: Seq<u8>) -> bool {
    forall|i: int| 0 <= i < s.len() ==> #[trigger] s[i] == 0
}

/// Every word of `s` is zero.
pub open spec fn all_zero_words(s: Seq<u32>) -> bool {
    forall|i: int| 0 <= i < s.len() ==> #[trigger] s[i] == 0
}

impl deviceInfo {
    /// Every field of this record is zero.
    pub open spec fn is_blank(&self) -> bool {
        &&& self.deviceType == 0
        &&& all_zero_words(self.pad0@)
        &&& all_zero_bytes(self.deviceUid@)
        &&& self.deviceState == 0
        &&& all_zero_words(self.pad1@)
    }
}

impl ArrayBootRecord {
    /// Every field of this record, and of each of its device records, is zero.
    pub open spec fn is_blank(&self) -> bool {
        &&& all_zero_bytes(self.arrayName@)
        &&& self.abrVersion == 0
        &&& all_zero_words(self.pad0@)
        &&& all_zero_bytes(self.metaRaidType@)
        &&& all_zero_bytes(self.dataRaidType@)
        &&& self.totalDevNum == 0
        &&& self.nvmDevNum == 0
        &&& self.dataDevNum == 0
        &&& self.spareDevNum == 0
        &&& self.mfsInit == 0
        &&& all_zero_bytes(self.createDatetime@)
        &&& all_zero_bytes(self.updateDatetime@)
        &&& self.uniqueId == 0
        &&& all_zero_words(self.pad1@)
        &&& forall|k: int| 0 <= k < self.devInfo@.len() ==> (#[trigger] self.devInfo@[k]).is_blank()
        &&& all_zero_words(self.reserved@)
    }
}

impl masterBootRecord {
    /// Every field of this record, and of each of its array records, is zero: no array slot is
    /// taken.
    pub open spec fn is_blank(&self) -> bool {
        &&& all_zero_bytes(self.posVersion@)
        &&& all_zero_words(self.pad0@)
        &&& self.mbrVersion == 0
        &&& all_zero_words(self.pad1@)
        &&& all_zero_bytes(self.systemUuid@)
        &&& self.arrayNum == 0
        &&& all_zero_words(self.pad2@)
        &&& all_zero_words(self.arrayValidFlag@)
        &&& all_zero_words(self.pad3@)
        &&& all_zero_words(self.arrayDevFlag@)
        &&& all_zero_words(self.pad4@)
        &&& forall|k: int| 0 <= k < self.arrayInfo@.len() ==> (#[trigger] self.arrayInfo@[k]).is_blank()
        &&& all_zero_words(self.reserved@)
        &&& self.mbrParity == 0
    }
}

impl deviceInfo {
    /// `other` holds the same values as this record.
    pub open spec fn same(&self, other: deviceInfo) -> bool {
        &&& self.deviceType == other.deviceType
        &&& self.pad0@ == other.pad0@
        &&& self.deviceUid@ == other.deviceUid@
        &&& self.deviceState == other.deviceState
        &&& self.pad1@ == other.pad1@
    }

    /// A copy of this record.
    pub fn copy_record(&self) -> (r: deviceInfo)
        ensures
            r.same(*self),
            self.wf() ==> r.wf(),
    {
        deviceInfo {
            deviceType: self.deviceType,
            pad0: self.pad0.clone(),
            deviceUid: self.deviceUid.clone(),
            deviceState: self.deviceState,
            pad1: self.pad1.clone(),
        }
    }
}

/// `text`'s UTF-8 bytes followed by zeros up to `size` bytes.
pub open spec fn padded_text(text: Seq<char>, size: nat) -> Seq<u8> {
    encode_utf8(text) + Seq::new((size - encode_utf8(text).len()) as nat, |i: int| 0u8)
}

/// `text`'s UTF-8 bytes followed by zeros up to `size` bytes, or nothing when they do not fit.
fn padded_bytes(text: &str, size: usize) -> (r: Option<Vec<u8>>)
    ensures
        r is Some <==> encode_utf8(text@).len() <= size,
        r matches Some(v) ==> v@ == padded_text(text@, size as nat),
{
    let bytes = text.as_bytes();
    if bytes.len() > size {
        return None;
    }
    let mut field: Vec<u8> = Vec::new();
    let mut i: usize = 0;
    while i < size
        invariant
            i <= size,
            bytes@.len() <= size,
            field@.len() == i,
            forall|k: int| 0 <= k < i ==> #[trigger] field@[k] == (if k < bytes@.len() { bytes@[k] } else { 0u8 }),
        decreases size - i,
    {
        if i < bytes.len() {
            field.push(bytes[i]);
        } else {
            field.push(0u8);
        }
        i = i + 1;
    }
    assert(field@ =~= bytes@ + Seq::new((size - bytes@.len()) as nat, |i: int| 0u8));
    Some(field)
}

impl ArrayBootRecord {
    /// `other` holds the same values as this record.
    pub open spec fn same(&self, other: ArrayBootRecord) -> bool {
        &&& self.arrayName@ == other.arrayName@
        &&& self.abrVersion == other.abrVersion
        &&& self.pad0@ == other.pad0@
        &&& self.metaRaidType@ == other.metaRaidType@
        &&& self.dataRaidType@ == other.dataRaidType@
        &&& self.totalDevNum == other.totalDevNum
        &&& self.nvmDevNum == other.nvmDevNum
        &&& self.dataDevNum == other.dataDevNum
        &&& self.spareDevNum == other.spareDevNum
        &&& self.mfsInit == other.mfsInit
        &&& self.createDatetime@ == other.createDatetime@
        &&& self.updateDatetime@ == other.updateDatetime@
        &&& self.uniqueId == other.uniqueId
        &&& self.pad1@ == other.pad1@
        &&& self.devInfo@.len() == other.devInfo@.len()
        &&& forall|k: int| 0 <= k < self.devInfo@.len() ==> (#[trigger] self.devInfo@[k]).same(other.devInfo@[k])
        &&& self.reserved@ == other.reserved@
    }

    /// A copy of this record.
    pub fn copy_record(&self) -> (r: ArrayBootRecord)
        ensures
            r.same(*self),
            self.wf() ==> r.wf(),
    {
        let mut devs: Vec<deviceInfo> = Vec::new();
        let mut i: usize = 0;
        while i < self.devInfo.len()
            invariant
                i <= self.devInfo@.len(),
                devs@.len() == i,
                forall|k: int| 0 <= k < i ==> (#[trigger] devs@[k]).same(self.devInfo@[k]),
                forall|k: int| 0 <= k < i ==> self.devInfo@[k].wf() ==> (#[trigger] devs@[k]).wf(),
            decreases self.devInfo@.len() - i,
        {
            devs.push(self.devInfo[i].copy_record());
            i = i + 1;
        }
        ArrayBootRecord {
            arrayName: self.arrayName.clone(),
            abrVersion: self.abrVersion,
            pad0: self.pad0.clone(),
            metaRaidType: self.metaRaidType.clone(),
            dataRaidType: self.dataRaidType.clone(),
            totalDevNum: self.totalDevNum,
            nvmDevNum: self.nvmDevNum,
            dataDevNum: self.dataDevNum,
            spareDevNum: self.spareDevNum,
            mfsInit: self.mfsInit,
            createDatetime: self.createDatetime.clone(),
            updateDatetime: self.updateDatetime.clone(),
            uniqueId: self.uniqueId,
            pad1: self.pad1.clone(),
            devInfo: devs,
            reserved: self.reserved.clone(),
        }
    }

    /// Writes `name`'s UTF-8 bytes at the start of the array name field and zeros after them;
    /// fails, leaving the record as it was, when the name does not fit.
    pub fn update_array_name(&mut self, name: &String) -> (r: Result<(), ()>)
        requires
            old(self).wf(),
        ensures
            final(self).wf(),
            r is Ok <==> encode_utf8(name@).len() <= ARRAY_NAME_SIZE,
            r is Ok ==> final(self).arrayName@ == encode_utf8(name@) + Seq::new(
                (ARRAY_NAME_SIZE - encode_utf8(name@).len()) as nat,
                |i: int| 0u8,
            ),
            r is Ok ==> final(self).same_except_name(*old(self)),
            r is Err ==> *final(self) == *old(self),
    {
        let bytes = name.as_str().as_bytes();
        if bytes.len() > ARRAY_NAME_SIZE {
            return Err(());
        }
        let mut field: Vec<u8> = Vec::new();
        let mut i: usize = 0;
        while i < ARRAY_NAME_SIZE
            invariant
                i <= ARRAY_NAME_SIZE,
                bytes@.len() <= ARRAY_NAME_SIZE,
                field@.len() == i,
                forall|k: int| 0 <= k < i ==> #[trigger] field@[k] == (if k < bytes@.len() { bytes@[k] } else { 0u8 }),
            decreases ARRAY_NAME_SIZE - i,
        {
            if i < bytes.len() {
                field.push(bytes[i]);
            } else {
                field.push(0u8);
            }
            i = i + 1;
        }
        assert(field@ =~= bytes@ + Seq::new((ARRAY_NAME_SIZE - bytes@.len()) as nat, |i: int| 0u8));
        self.arrayName = field;
        Ok(())
    }

    /// Writes `now`'s UTF-8 bytes, then zeros, as both the creation and the update date;
    /// fails, leaving the record as it was, when the text does not fit in `DATE_SIZE` bytes.
    pub fn update_datetimes(&mut self, now: &String) -> (r: Result<(), ()>)
        requires
            old(self).wf(),
        ensures
            final(self).wf(),
            r is Ok <==> encode_utf8(now@).len() <= DATE_SIZE,
            r is Ok ==> final(self).createDatetime@ == padded_text(now@, DATE_SIZE as nat),
            r is Ok ==> final(self).updateDatetime@ == padded_text(now@, DATE_SIZE as nat),
            r is Ok ==> final(self).same_except_dates(*old(self)),
            r is Err ==> *final(self) == *old(self),
    {
        match padded_bytes(now.as_str(), DATE_SIZE) {
            Some(field) => {
                self.createDatetime = field.clone();
                self.updateDatetime = field;
                Ok(())
            },
            None => Err(()),
        }
    }

    /// `other` holds the same values as this record, except perhaps the two dates.
    pub open spec fn same_except_dates(&self, other: ArrayBootRecord) -> bool {
        &&& self.arrayName@ == other.arrayName@
        &&& self.abrVersion == other.abrVersion
        &&& self.pad0@ == other.pad0@
        &&& self.metaRaidType@ == other.metaRaidType@
        &&& self.dataRaidType@ == other.dataRaidType@
        &&& self.totalDevNum == other.totalDevNum
        &&& self.nvmDevNum == other.nvmDevNum
        &&& self.dataDevNum == other.dataDevNum
        &&& self.spareDevNum == other.spareDevNum
        &&& self.mfsInit == other.mfsInit
        &&& self.uniqueId == other.uniqueId
        &&& self.pad1@ == other.pad1@
        &&& self.devInfo == other.devInfo
        &&& self.reserved@ == other.reserved@
    }

    /// `other` holds the same values as this record, except perhaps the array name.
    pub open spec fn same_except_name(&self, other: ArrayBootRecord) -> bool {
        &&& self.abrVersion == other.abrVersion
        &&& self.pad0@ == other.pad0@
        &&& self.metaRaidType@ == other.metaRaidType@
        &&& self.dataRaidType@ == other.dataRaidType@
        &&& self.totalDevNum == other.totalDevNum
        &&& self.nvmDevNum == other.nvmDevNum
        &&& self.dataDevNum == other.dataDevNum
        &&& self.spareDevNum == other.spareDevNum
        &&& self.mfsInit == other.mfsInit
        &&& self.createDatetime@ == other.createDatetime@
        &&& self.updateDatetime@ == other.updateDatetime@
        &&& self.uniqueId == other.uniqueId
        &&& self.pad1@ == other.pad1@
        &&& self.devInfo == other.devInfo
        &&& self.reserved@ == other.reserved@
    }
}


/// A device record read from `DEVICE_INFO_SIZE` bytes has every field at its on-disk length.
pub proof fn lemma_device_info_parsed_wf(d: deviceInfo, w: Seq<u8>)
    requires
        d.parsed(w),
        w.len() >= DEVICE_INFO_SIZE,
    ensures
        d.wf(),
{
}

/// An array record read from `ABR_SIZE` bytes has every field at its on-disk length.
pub proof fn lemma_abr_parsed_wf(a: ArrayBootRecord, w: Seq<u8>)
    requires
        a.parsed(w),
        w.len() >= ABR_SIZE,
    ensures
        a.wf(),
{
    assert forall|k: int| 0 <= k < a.devInfo@.len() implies (#[trigger] a.devInfo@[k]).wf() by {
        let at = ABR_DEVICE_INFO_OFFSET + DEVICE_INFO_SIZE * k;
        assert(0 <= DEVICE_INFO_SIZE * k <= DEVICE_INFO_SIZE * (MAX_ARRAY_DEVICE_CNT - 1)) by (nonlinear_arith)
            requires
                0 <= k < MAX_ARRAY_DEVICE_CNT,
        ;
        lemma_device_info_parsed_wf(a.devInfo@[k], w.subrange(at, at + DEVICE_INFO_SIZE));
    }
}

/// A master boot record read from `MBR_SIZE` bytes has every field at its on-disk length.
pub proof fn lemma_mbr_parsed_wf(m: masterBootRecord, w: Seq<u8>)
    requires
        m.parsed(w),
        w.len() == MBR_SIZE,
    ensures
        m.wf(),
{
    assert forall|k: int| 0 <= k < m.arrayInfo@.len() implies (#[trigger] m.arrayInfo@[k]).wf() by {
        let at = MBR_ABR_OFFSET + ABR_SIZE * k;
        assert(0 <= ABR_SIZE * k <= ABR_SIZE * (MAX_ARRAY_CNT - 1)) by (nonlinear_arith)
            requires
                0 <= k < MAX_ARRAY_CNT,
        ;
        lemma_abr_parsed_wf(m.arrayInfo@[k], w.subrange(at, at + ABR_SIZE));
    }
}


impl ArrayBootRecord {
    /// `other` holds the same values as this record, except perhaps the array name, the unique
    /// id and the two dates, with every field at the same length.
    pub open spec fn same_except_name_id_and_dates(&self, other: ArrayBootRecord) -> bool {
        &&& self.arrayName@.len() == other.arrayName@.len()
        &&& self.createDatetime@.len() == other.createDatetime@.len()
        &&& self.updateDatetime@.len() == other.updateDatetime@.len()
        &&& self.abrVersion == other.abrVersion
        &&& self.pad0@ == other.pad0@
        &&& self.metaRaidType@ == other.metaRaidType@
        &&& self.dataRaidType@ == other.dataRaidType@
        &&& self.totalDevNum == other.totalDevNum
        &&& self.nvmDevNum == other.nvmDevNum
        &&& self.dataDevNum == other.dataDevNum
        &&& self.spareDevNum == other.spareDevNum
        &&& self.mfsInit == other.mfsInit
        &&& self.pad1@ == other.pad1@
        &&& self.devInfo@.len() == other.devInfo@.len()
        &&& forall|k: int| 0 <= k < self.devInfo@.len() ==> (#[trigger] self.devInfo@[k]).same(other.devInfo@[k])
        &&& self.reserved@ == other.reserved@
    }
}

} // verus!
