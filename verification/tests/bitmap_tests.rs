use bitvec::prelude::{BitVec, Lsb0};
use poseidonos_rtype::util::bitmap::BitMap;

#[test]
fn test_bitvec_first_zero_functionalities() {
    let mut arr = BitVec::<u8, Lsb0>::repeat(false, 10);
    arr.set(4, true);
    arr.set(5, true);
    arr.set(6, true);
    arr.set(7, true);
    let last_set_position = 5;
    let (_left, right) = arr.split_at(last_set_position);

    let rel_pos = right.first_zero().unwrap();

    assert_eq!(8, rel_pos + last_set_position);
}

#[test]
fn test_BitMap_FindFirstZero_functionality() {
    let mut bitmap = BitMap::new(10);
    bitmap.SetBit(4);
    bitmap.SetBit(5);
    bitmap.SetBit(6);
    bitmap.SetBit(7);
    let last_set_position = 5;

    let actual = bitmap.FindFirstZero(last_set_position);

    assert_eq!(8, actual);
}

#[test]
fn test_BitMap_FindNextZero_functionality() {
    let mut bitmap = BitMap::new(10);

    let actual = bitmap.FindNextZero();
    assert_eq!(1, actual);

    let actual = bitmap.FindNextZero();
    assert_eq!(1, actual);

    bitmap.SetBit(actual);
    let actual = bitmap.FindNextZero();
    assert_eq!(2, actual);
}

#[test]
fn bitmap_set_and_clear() {
    let mut bitmap = BitMap::new(4);
    assert!(!bitmap.SetBit(4));
    assert!(bitmap.SetBit(2));
    assert!(bitmap.IsSetBit(2));
    assert!(bitmap.SetBit(2));
    assert!(!bitmap.ClearBit(9));
    assert!(bitmap.ClearBit(2));
    assert!(!bitmap.IsSetBit(2));
    assert!(bitmap.ClearBit(2));
    assert!(!bitmap.IsSetBit(100));
}

#[test]
fn bitmap_next_zero_wraps_and_fills() {
    let mut bitmap = BitMap::new(3);
    for _ in 0..3 {
        let bit = bitmap.FindNextZero();
        assert!(bit < 3);
        assert!(bitmap.SetBit(bit));
    }
    assert_eq!(bitmap.FindNextZero(), 3);
    assert!(bitmap.ClearBit(0));
    assert_eq!(bitmap.FindNextZero(), 0);
    assert_eq!(bitmap.FindFirstZero(1), 3);
    assert_eq!(bitmap.FindFirstZero(7), 3);
}

#[test]
fn bitmap_count_overwrite() {
    let mut bitmap = BitMap::new(3);
    bitmap.SetBit(0);
    bitmap.SetBit(1);
    bitmap.SetBit(2);
    // The count claims fewer set bits than there are: the search from the start finds none.
    assert!(bitmap.SetNumBitsSet(1));
    assert_eq!(bitmap.FindNextZero(), 3);
}
