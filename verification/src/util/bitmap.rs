use vstd::prelude::*;
use bitvec::order::Lsb0;
use bitvec::vec::BitVec;
use crate::mapper::map_header::count_set;

verus! {

/// A `bitvec` bit vector of bytes, least significant bit first. Verus does not take the
/// declaration of `bitvec::vec::BitVec` (its bounds are traits of that crate), so it is held
/// here, out of Verus's sight, and read through the wrappers below.
#[verifier::external_body]
pub struct PackedBits {
    bits: BitVec<u8, Lsb0>,
}

/// The bits that a `PackedBits` holds, in order.
pub uninterp spec fn bits_of(v: PackedBits) -> Seq<bool>;

/// `bitvec::vec::BitVec::new`: no bits.
#[verifier::external_body]
fn bits_new() -> (r: PackedBits)
    ensures
        bits_of(r) == Seq::<bool>::empty(),
{
    PackedBits { bits: BitVec::<u8, Lsb0>::new() }
}

/// `bitvec::vec::BitVec::repeat`: `len` bits equal to `bit`. It asserts that `len` is at most
/// the largest bit count a `BitVec` can address (`usize::MAX >> 3`), so a longer one is
/// excluded.
#[verifier::external_body]
fn bits_repeat(bit: bool, len: usize) -> (r: PackedBits)
    requires
        len <= usize::MAX >> 3,
    ensures
        bits_of(r) == Seq::new(len as nat, |i: int| bit),
{
    PackedBits { bits: BitVec::<u8, Lsb0>::repeat(bit, len) }
}

/// `bitvec::slice::BitSlice::set`: bit `index` becomes `value`. It panics when `index` is out
/// of range, so such an index is excluded.
#[verifier::external_body]
fn bits_set(v: &mut PackedBits, index: usize, value: bool)
    requires
        index < bits_of(*old(v)).len(),
    ensures
        bits_of(*final(v)) == bits_of(*old(v)).update(index as int, value),
{
    v.bits.set(index, value)
}

/// `bitvec::slice::BitSlice::get`, read through: bit `index`, or `None` when `index` is out of
/// range.
#[verifier::external_body]
fn bits_get(v: &PackedBits, index: usize) -> (r: Option<bool>)
    ensures
        r == if index < bits_of(*v).len() { Some(bits_of(*v)[index as int]) } else { None },
{
    match v.bits.get(index) {
        Some(b) => Some(*b),
        None => None,
    }
}

/// `bitvec::slice::BitSlice::first_zero` of the bits from `mid` on (`split_at(mid)`, right
/// half): the distance from `mid` to the first `false` bit, or `None` when every bit from
/// `mid` on is `true`. `split_at` panics when `mid` is past the end, so such a `mid` is
/// excluded.
#[verifier::external_body]
fn bits_first_zero_from(v: &PackedBits, mid: usize) -> (r: Option<usize>)
    requires
        mid <= bits_of(*v).len(),
    ensures
        match r {
            Some(p) => mid + p < bits_of(*v).len() && !bits_of(*v)[mid + p]
                && forall|k: int| mid <= k < mid + p ==> #[trigger] bits_of(*v)[k],
            None => forall|k: int| mid <= k < bits_of(*v).len() ==> #[trigger] bits_of(*v)[k],
        },
{
    let (_left, right) = v.bits.split_at(mid);
    right.first_zero()
}

/// `k` is the first `false` bit of `bits` at or after `begin`.
pub open spec fn is_first_zero(bits: Seq<bool>, begin: int, k: int) -> bool {
    &&& begin <= k < bits.len()
    &&& !bits[k]
    &&& forall|j: int| begin <= j < k ==> #[trigger] bits[j]
}

/// Every bit of `bits` at or after `begin` is `true`.
pub open spec fn all_set_from(bits: Seq<bool>, begin: int) -> bool {
    forall|j: int| begin <= j < bits.len() ==> #[trigger] bits[j]
}

/// What `FindFirstZero(begin)` answers for `bits` of `n` bits: the first `false` bit at or
/// after `begin`, or `n` when there is none or `begin` is out of range.
pub open spec fn first_zero_answer(bits: Seq<bool>, n: u64, begin: u64, r: u64) -> bool {
    if begin >= n {
        r == n
    } else {
        (r < n && is_first_zero(bits, begin as int, r as int)) || (r == n && all_set_from(bits, begin as int))
    }
}

/// Setting a `false` bit adds one to the count of `true` bits; clearing a `true` bit takes one
/// away.
pub proof fn lemma_count_set_update(s: Seq<bool>, i: int, b: bool)
    requires
        0 <= i < s.len(),
        s[i] != b,
    ensures
        count_set(s.update(i, b)) as int == if b { count_set(s) as int + 1 } else { count_set(s) as int - 1 },
    decreases s.len(),
{
    let t = s.update(i, b);
    if i == s.len() - 1 {
        assert(t.drop_last() =~= s.drop_last());
    } else {
        lemma_count_set_update(s.drop_last(), i, b);
        assert(t.drop_last() =~= s.drop_last().update(i, b));
    }
}

/// A bitmap of `numBits` bits that remembers how many are set and which was set last.
pub struct BitMap {
    map: PackedBits,
    lastSetPosition: u64,
    numBits: u64,
    numBitsSet: u64,
}

impl Default for BitMap {
    fn default() -> (r: Self)
        ensures
            r.bits() == Seq::<bool>::empty(),
            r.num_bits() == 0,
            r.num_set() == 0,
            r.last_set() == 0,
    {
        BitMap { map: bits_new(), lastSetPosition: 0, numBits: 0, numBitsSet: 0 }
    }
}

impl BitMap {
    /// The bits.
    pub closed spec fn bits(&self) -> Seq<bool> {
        bits_of(self.map)
    }

    /// The number of bits.
    pub closed spec fn num_bits(&self) -> u64 {
        self.numBits
    }

    /// The recorded count of set bits.
    pub closed spec fn num_set(&self) -> u64 {
        self.numBitsSet
    }

    /// The bit set last.
    pub closed spec fn last_set(&self) -> u64 {
        self.lastSetPosition
    }

    /// There are `numBits` bits (a number that fits in `usize`), and the bit set last is one of them (or zero when there are
    /// none).
    pub open spec fn wf(&self) -> bool {
        &&& self.bits().len() == self.num_bits()
        &&& self.num_bits() <= usize::MAX
        &&& (self.last_set() < self.num_bits() || self.last_set() == 0)
    }

    /// A bitmap may have up to 2^29 - 1 bits on every target: the largest bit count a bit vector
    /// holds, `usize::MAX >> 3`, is at least that.
    pub proof fn lemma_bitmap_size_bound()
        ensures
            0x1FFF_FFFF <= usize::MAX >> 3,
    {
        let m: usize = usize::MAX;
        assert(m >= 0xFFFF_FFFF);
        assert(m >= 0xFFFF_FFFF ==> 0x1FFF_FFFF <= m >> 3usize) by (bit_vector);
    }

    /// A bitmap of `num_bits` clear bits. A bit vector holds at most `usize::MAX >> 3` bits,
    /// so a longer bitmap is excluded.
    pub fn new(num_bits: u64) -> (r: BitMap)
        requires
            num_bits <= usize::MAX >> 3,
        ensures
            r.wf(),
            r.bits() == Seq::new(num_bits as nat, |i: int| false),
            r.num_bits() == num_bits,
            r.num_set() == 0,
            r.last_set() == 0,
    {
        let mut bitmap = BitMap::default();
        bitmap.numBits = num_bits;
        bitmap.map = bits_repeat(false, num_bits as usize);
        bitmap
    }

    /// Whether `bit_offset` is one of the bits.
    pub fn IsValidBit(&self, bit_offset: u64) -> (r: bool)
        ensures
            r == (bit_offset < self.num_bits()),
    {
        bit_offset < self.numBits
    }

    /// Whether bit `bit_offset` is set; `false` for a bit out of range.
    pub fn IsSetBit(&self, bit_offset: u64) -> (r: bool)
        requires
            self.wf(),
            bit_offset <= usize::MAX,
        ensures
            r == (bit_offset < self.num_bits() && self.bits()[bit_offset as int]),
    {
        if let Some(v) = bits_get(&self.map, bit_offset as usize) {
            v
        } else {
            false
        }
    }

    /// The first clear bit at or after `begin`, or the number of bits when there is none or
    /// `begin` is out of range.
    pub fn FindFirstZero(&self, begin: u64) -> (r: u64)
        requires
            self.wf(),
        ensures
            first_zero_answer(self.bits(), self.num_bits(), begin, r),
    {
        if !self.IsValidBit(begin) {
            return self.numBits;
        }
        let relative_first_zero = bits_first_zero_from(&self.map, begin as usize);
        match relative_first_zero {
            None => self.numBits,
            Some(pos) => begin + pos as u64,
        }
    }

    /// The clear bit to hand out next: the first clear bit after the bit set last, wrapping
    /// around to the start; the number of bits when none is found after it and the count of
    /// set bits says all are set. A bitmap of no bits is excluded.
    pub fn FindNextZero(&self) -> (r: u64)
        requires
            self.wf(),
            self.num_bits() > 0,
        ensures
            ({
                let n = self.num_bits();
                let begin = ((self.last_set() + 1) % (n as int)) as u64;
                if exists|k: int| is_first_zero(self.bits(), begin as int, k) {
                    first_zero_answer(self.bits(), n, begin, r) && r < n
                } else if self.num_set() >= n {
                    r == n
                } else {
                    first_zero_answer(self.bits(), n, 0, r)
                }
            }),
    {
        let pos_to_begin = (self.lastSetPosition + 1) % self.numBits;
        let found_pos = self.FindFirstZero(pos_to_begin);
        if found_pos == self.numBits {
            if self.numBitsSet >= self.numBits {
                self.numBits
            } else {
                self.FindFirstZero(0)
            }
        } else {
            found_pos
        }
    }

    /// Sets bit `bit_offset`: `false`, changing nothing, for a bit out of range; `true`
    /// otherwise. Setting a clear bit counts it and records it as the bit set last; the count
    /// of set bits stays exact when it was.
    pub fn SetBit(&mut self, bit_offset: u64) -> (r: bool)
        requires
            old(self).wf(),
            bit_offset < old(self).num_bits() && !old(self).bits()[bit_offset as int] ==> old(self).num_set() < u64::MAX,
        ensures
            final(self).wf(),
            final(self).num_bits() == old(self).num_bits(),
            r == (bit_offset < old(self).num_bits()),
            !r || old(self).bits()[bit_offset as int] ==> *final(self) == *old(self),
            r && !old(self).bits()[bit_offset as int] ==> {
                &&& final(self).bits() == old(self).bits().update(bit_offset as int, true)
                &&& final(self).num_set() == old(self).num_set() + 1
                &&& final(self).last_set() == bit_offset
            },
            r ==> final(self).bits()[bit_offset as int],
            old(self).num_set() == count_set(old(self).bits()) ==> final(self).num_set() == count_set(final(self).bits()),
    {
        if !self.IsValidBit(bit_offset) {
            return false;
        }
        if self.IsSetBit(bit_offset) {
            return true;
        }
        bits_set(&mut self.map, bit_offset as usize, true);
        self.numBitsSet = self.numBitsSet + 1;
        self.lastSetPosition = bit_offset;
        proof {
            lemma_count_set_update(old(self).bits(), bit_offset as int, true);
        }
        true
    }

    /// Clears bit `bit_offset`: `false`, changing nothing, for a bit out of range; `true`
    /// otherwise. Clearing a set bit uncounts it; the count of set bits stays exact when it
    /// was.
    pub fn ClearBit(&mut self, bit_offset: u64) -> (r: bool)
        requires
            old(self).wf(),
            bit_offset < old(self).num_bits() && old(self).bits()[bit_offset as int] ==> old(self).num_set() > 0,
        ensures
            final(self).wf(),
            final(self).num_bits() == old(self).num_bits(),
            final(self).last_set() == old(self).last_set(),
            r == (bit_offset < old(self).num_bits()),
            !r || !old(self).bits()[bit_offset as int] ==> *final(self) == *old(self),
            r && old(self).bits()[bit_offset as int] ==> {
                &&& final(self).bits() == old(self).bits().update(bit_offset as int, false)
                &&& final(self).num_set() == old(self).num_set() - 1
            },
            r ==> !final(self).bits()[bit_offset as int],
            old(self).num_set() == count_set(old(self).bits()) ==> final(self).num_set() == count_set(final(self).bits()),
    {
        if !self.IsValidBit(bit_offset) {
            return false;
        }
        if !self.IsSetBit(bit_offset) {
            return true;
        }
        bits_set(&mut self.map, bit_offset as usize, false);
        self.numBitsSet = self.numBitsSet - 1;
        proof {
            lemma_count_set_update(old(self).bits(), bit_offset as int, false);
        }
        true
    }

    /// Overwrites the count of set bits.
    pub fn SetNumBitsSet(&mut self, num_bits: u64) -> (r: bool)
        ensures
            r,
            final(self).num_set() == num_bits,
            final(self).bits() == old(self).bits(),
            final(self).num_bits() == old(self).num_bits(),
            final(self).last_set() == old(self).last_set(),
    {
        self.numBitsSet = num_bits;
        true
    }
}

} // verus!
