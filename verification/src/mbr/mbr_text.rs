use vstd::prelude::*;
use vstd::utf8::{valid_utf8, decode_utf8};
use crate::base::text::{string_from_utf8, u32_to_text, i32_to_text, decimal, signed_decimal};
use crate::mbr::mbr_info::{masterBootRecord, ArrayBootRecord, MAX_ARRAY_CNT};

verus! {

/// The text that `b` encodes, or a placeholder when it is not valid UTF-8.
pub open spec fn text_or_placeholder(b: Seq<u8>) -> Seq<char> {
    if valid_utf8(b) {
        decode_utf8(b)
    } else {
        "not a string"@
    }
}

/// The description of one array's boot record.
pub open spec fn abr_text(a: ArrayBootRecord) -> Seq<char> {
    "array_name: "@ + decode_utf8(a.arrayName@)
        + "uniqueId: "@ + decimal(a.uniqueId as nat)
        + "abr_version: "@ + signed_decimal(a.abrVersion as int)
        + "total_dev_num: "@ + decimal(a.totalDevNum as nat)
        + "data_dev_num: "@ + decimal(a.dataDevNum as nat)
        + "spare_dev_num: "@ + decimal(a.spareDevNum as nat)
        + "create_datetime: "@ + decode_utf8(a.createDatetime@)
        + "update_datetime: "@ + decode_utf8(a.updateDatetime@)
}

/// The descriptions of the valid arrays among the first `n` slots, in slot order.
pub open spec fn arrays_text(m: masterBootRecord, n: int) -> Seq<char>
    decreases n,
{
    if n <= 0 {
        Seq::empty()
    } else {
        arrays_text(m, n - 1) + if m.arrayValidFlag@[n - 1] == 1 {
            abr_text(m.arrayInfo@[n - 1])
        } else {
            Seq::empty()
        }
    }
}

/// The description of a master boot record: its versions, its system id, its array count,
/// and each valid array.
pub open spec fn mbr_text(m: masterBootRecord) -> Seq<char> {
    "pos_version: "@ + text_or_placeholder(m.posVersion@)
        + "mbr_version: "@ + decimal(m.mbrVersion as nat)
        + "system_uuid: "@ + text_or_placeholder(m.systemUuid@)
        + "num_of_array: "@ + decimal(m.arrayNum as nat)
        + arrays_text(m, MAX_ARRAY_CNT as int)
}

/// The text that `bytes` encode, or the placeholder.
fn text_or_not_a_string(bytes: &Vec<u8>) -> (r: String)
    ensures
        r@ == text_or_placeholder(bytes@),
{
    match string_from_utf8(bytes.clone()) {
        Some(s) => s,
        None => String::from_str("not a string"),
    }
}

/// The text that `bytes` encode, which are valid UTF-8.
fn text_of_valid(bytes: &Vec<u8>) -> (r: String)
    requires
        valid_utf8(bytes@),
    ensures
        r@ == decode_utf8(bytes@),
{
    string_from_utf8(bytes.clone()).unwrap()
}

/// The description of `a`.
fn abr_to_string(a: &ArrayBootRecord) -> (r: String)
    requires
        valid_utf8(a.arrayName@),
        valid_utf8(a.createDatetime@),
        valid_utf8(a.updateDatetime@),
    ensures
        r@ == abr_text(*a),
{
    let mut s = String::from_str("array_name: ");
    s = s.concat(text_of_valid(&a.arrayName).as_str());
    s = s.concat("uniqueId: ");
    s = s.concat(u32_to_text(a.uniqueId).as_str());
    s = s.concat("abr_version: ");
    s = s.concat(i32_to_text(a.abrVersion).as_str());
    s = s.concat("total_dev_num: ");
    s = s.concat(u32_to_text(a.totalDevNum).as_str());
    s = s.concat("data_dev_num: ");
    s = s.concat(u32_to_text(a.dataDevNum).as_str());
    s = s.concat("spare_dev_num: ");
    s = s.concat(u32_to_text(a.spareDevNum).as_str());
    s = s.concat("create_datetime: ");
    s = s.concat(text_of_valid(&a.createDatetime).as_str());
    s = s.concat("update_datetime: ");
    s = s.concat(text_of_valid(&a.updateDatetime).as_str());
    s
}

impl masterBootRecord {
    /// A description of the record: its versions, its system id (or a placeholder where a
    /// field is not UTF-8 text), its array count, and the name, id, version, device counts and
    /// dates of each valid array, in slot order. The texts of a valid array must be UTF-8.
    pub fn to_string(&self) -> (r: String)
        requires
            self.wf(),
            forall|i: int| 0 <= i < MAX_ARRAY_CNT && #[trigger] self.arrayValidFlag@[i] == 1 ==> {
                &&& valid_utf8(self.arrayInfo@[i].arrayName@)
                &&& valid_utf8(self.arrayInfo@[i].createDatetime@)
                &&& valid_utf8(self.arrayInfo@[i].updateDatetime@)
            },
        ensures
            r@ == mbr_text(*self),
    {
        let mut str_buf = String::from_str("pos_version: ");
        str_buf = str_buf.concat(text_or_not_a_string(&self.posVersion).as_str());
        str_buf = str_buf.concat("mbr_version: ");
        str_buf = str_buf.concat(u32_to_text(self.mbrVersion).as_str());
        str_buf = str_buf.concat("system_uuid: ");
        str_buf = str_buf.concat(text_or_not_a_string(&self.systemUuid).as_str());
        str_buf = str_buf.concat("num_of_array: ");
        str_buf = str_buf.concat(u32_to_text(self.arrayNum).as_str());
        let ghost head = str_buf@;
        let mut i: usize = 0;
        while i < MAX_ARRAY_CNT
            invariant
                i <= MAX_ARRAY_CNT,
                self.wf(),
                forall|k: int| 0 <= k < MAX_ARRAY_CNT && #[trigger] self.arrayValidFlag@[k] == 1 ==> {
                    &&& valid_utf8(self.arrayInfo@[k].arrayName@)
                    &&& valid_utf8(self.arrayInfo@[k].createDatetime@)
                    &&& valid_utf8(self.arrayInfo@[k].updateDatetime@)
                },
                str_buf@ == head + arrays_text(*self, i as int),
            decreases MAX_ARRAY_CNT - i,
        {
            if self.arrayValidFlag[i] == 1 {
                str_buf = str_buf.concat(abr_to_string(&self.arrayInfo[i]).as_str());
            }
            i = i + 1;
        }
        str_buf
    }
}

} // verus!
