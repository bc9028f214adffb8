use vstd::prelude::*;
use vstd::bytes::*;

verus! {

/// The concatenation of `f(x)` for every `x` of `s`, in order.
pub open spec fn concat_map<T>(s: Seq<T>, f: spec_fn(T) -> Seq<u8>) -> Seq<u8>
    decreases s.len(),
{
    if s.len() == 0 {
        Seq::empty()
    } else {
        concat_map(s.drop_last(), f) + f(s.last())
    }
}

/// Every `f(x)` for `x` in `s` is `n` bytes long.
pub open spec fn all_sized<T>(s: Seq<T>, f: spec_fn(T) -> Seq<u8>, n: nat) -> bool {
    forall|i: int| 0 <= i < s.len() ==> (#[trigger] f(s[i])).len() == n
}

/// The little-endian bytes of a word.
pub open spec fn le_word(w: u32) -> Seq<u8> {
    spec_u32_to_le_bytes(w)
}

/// `le_word` as a function value.
pub open spec fn le_word_fn() -> spec_fn(u32) -> Seq<u8> {
    |w: u32| le_word(w)
}

/// The little-endian bytes of a sequence of words, one after the other.
pub open spec fn words_to_bytes(s: Seq<u32>) -> Seq<u8> {
    concat_map(s, le_word_fn())
}

/// The word that the four bytes of `b` starting at `at` encode in little-endian order.
pub open spec fn word_at(b: Seq<u8>, at: int) -> u32 {
    spec_u32_from_le_bytes(b.subrange(at, at + 4))
}

/// The words that `b` encodes, four little-endian bytes each.
pub open spec fn bytes_to_words(b: Seq<u8>) -> Seq<u32> {
    Seq::new(b.len() / 4, |i: int| word_at(b, 4 * i))
}

/// Concatenating `n`-byte pieces gives `n` bytes per element, and the `k`-th slice of `n` bytes
/// is the `k`-th piece.
pub proof fn lemma_concat_map_chunks<T>(s: Seq<T>, f: spec_fn(T) -> Seq<u8>, n: nat)
    requires
        all_sized(s, f, n),
    ensures
        concat_map(s, f).len() == n * s.len(),
        forall|k: int|
            0 <= k < s.len() ==> #[trigger] concat_map(s, f).subrange(k * n, k * n + n) == f(s[k]),
    decreases s.len(),
{
    if s.len() > 0 {
        let p = s.drop_last();
        assert(all_sized(p, f, n)) by {
            assert forall|i: int| 0 <= i < p.len() implies (#[trigger] f(p[i])).len() == n by {
                assert(p[i] == s[i]);
            }
        }
        lemma_concat_map_chunks(p, f, n);
        let c = concat_map(s, f);
        let cp = concat_map(p, f);
        assert(c == cp + f(s.last()));
        assert(f(s[s.len() - 1]).len() == n);
        assert(n * s.len() == n * p.len() + n) by (nonlinear_arith)
            requires
                s.len() == p.len() + 1,
        ;
        assert forall|k: int| 0 <= k < s.len() implies #[trigger] c.subrange(k * n, k * n + n) == f(
            s[k],
        ) by {
            assert(k * n + n <= n * s.len()) by (nonlinear_arith)
                requires
                    0 <= k < s.len(),
            ;
            assert(0 <= k * n) by (nonlinear_arith)
                requires
                    0 <= k,
            ;
            if k < p.len() {
                assert(k * n + n <= n * p.len()) by (nonlinear_arith)
                    requires
                        0 <= k < p.len(),
                ;
                assert(c.subrange(k * n, k * n + n) =~= cp.subrange(k * n, k * n + n));
                assert(p[k] == s[k]);
            } else {
                assert(k * n == n * p.len()) by (nonlinear_arith)
                    requires
                        k == p.len(),
                ;
                assert(c.subrange(k * n, k * n + n) =~= f(s.last()));
            }
        }
    }
}

/// Each word's bytes are four long.
pub proof fn lemma_le_word_len(s: Seq<u32>)
    ensures
        all_sized(s, le_word_fn(), 4),
{
    lemma_auto_spec_u32_to_from_le_bytes();
    assert forall|i: int| 0 <= i < s.len() implies (#[trigger] le_word_fn()(s[i])).len() == 4 by {
        assert(spec_u32_to_le_bytes(s[i]).len() == 4);
    }
}

/// A sequence of words takes four bytes per word, and the `k`-th four bytes encode the `k`-th word.
pub proof fn lemma_words_to_bytes(s: Seq<u32>)
    ensures
        words_to_bytes(s).len() == 4 * s.len(),
        forall|k: int| 0 <= k < s.len() ==> #[trigger] word_at(words_to_bytes(s), 4 * k) == s[k],
{
    lemma_le_word_len(s);
    lemma_concat_map_chunks(s, le_word_fn(), 4);
    lemma_auto_spec_u32_to_from_le_bytes();
    assert forall|k: int| 0 <= k < s.len() implies #[trigger] word_at(words_to_bytes(s), 4 * k)
        == s[k] by {
        assert(words_to_bytes(s).subrange(k * 4, k * 4 + 4) == le_word(s[k]));
        assert(4 * k == k * 4);
    }
}

/// Decoding the bytes of a sequence of words gives back the words.
pub proof fn lemma_words_round_trip(s: Seq<u32>)
    ensures
        bytes_to_words(words_to_bytes(s)) == s,
{
    lemma_words_to_bytes(s);
    let b = words_to_bytes(s);
    assert(b.len() / 4 == s.len());
    assert(bytes_to_words(b) =~= s);
}

} // verus!

verus! {

/// `byteorder::LittleEndian::read_u32`: the first four bytes of `buf` as a little-endian word.
/// The crate panics when `buf` has fewer than four bytes, so such inputs are excluded.
#[verifier::external_body]
pub(crate) fn read_u32_le(buf: &[u8]) -> (r: u32)
    requires
        buf@.len() >= 4,
    ensures
        r == word_at(buf@, 0),
{
    <byteorder::LittleEndian as byteorder::ByteOrder>::read_u32(buf)
}

/// `byteorder::LittleEndian::read_i32`: the first four bytes of `buf` as a little-endian signed
/// word (the crate reads them as an unsigned word and casts).
#[verifier::external_body]
pub(crate) fn read_i32_le(buf: &[u8]) -> (r: i32)
    requires
        buf@.len() >= 4,
    ensures
        r == word_at(buf@, 0) as i32,
{
    <byteorder::LittleEndian as byteorder::ByteOrder>::read_i32(buf)
}

/// The little-endian bytes of each word of `from`, one word after the other.
pub fn transform_vec32_to_vec8(from: Vec<u32>) -> (r: Vec<u8>)
    ensures
        r@ == words_to_bytes(from@),
{
    let mut accumulated: Vec<u8> = Vec::new();
    let mut i: usize = 0;
    while i < from.len()
        invariant
            i <= from.len(),
            accumulated@ == words_to_bytes(from@.subrange(0, i as int)),
        decreases from.len() - i,
    {
        let mut bytes = u32_to_le_bytes(from[i]);
        accumulated.append(&mut bytes);
        proof {
            let s = from@.subrange(0, i as int + 1);
            assert(s.drop_last() =~= from@.subrange(0, i as int));
            assert(s.last() == from@[i as int]);
        }
        i = i + 1;
    }
    assert(from@.subrange(0, from.len() as int) =~= from@);
    accumulated
}

/// The words that `from` encodes, four little-endian bytes each.
pub fn transform_vec8_to_vec32(from: &[u8]) -> (r: Vec<u32>)
    requires
        from@.len() % 4 == 0,
    ensures
        r@ == bytes_to_words(from@),
{
    let mut accumulated: Vec<u32> = Vec::new();
    let mut byte_pos: usize = 0;
    while byte_pos < from.len()
        invariant
            byte_pos <= from.len(),
            byte_pos % 4 == 0,
            from@.len() % 4 == 0,
            accumulated@.len() == byte_pos / 4,
            forall|i: int| 0 <= i < byte_pos / 4 ==> accumulated@[i] == #[trigger] word_at(from@, 4 * i),
        decreases from.len() - byte_pos,
    {
        let rest = vstd::slice::slice_subrange(from, byte_pos, from.len());
        let w = read_u32_le(rest);
        proof {
            assert(rest@.subrange(0, 4) =~= from@.subrange(byte_pos as int, byte_pos + 4));
        }
        accumulated.push(w);
        byte_pos = byte_pos + 4;
    }
    assert(accumulated@ =~= bytes_to_words(from@));
    accumulated
}

} // verus!

verus! {

/// When `n` bytes of `b` at `at` equal the first `n` bytes of `c`, every slice inside them does.
pub proof fn lemma_subrange_shift(b: Seq<u8>, c: Seq<u8>, at: int, n: int)
    requires
        0 <= at,
        0 <= n,
        at + n <= b.len(),
        n <= c.len(),
        b.subrange(at, at + n) == c.subrange(0, n),
    ensures
        forall|i: int, j: int|
            0 <= i <= j <= n ==> b.subrange(at + i, at + j) == #[trigger] c.subrange(i, j),
{
    assert forall|i: int, j: int| 0 <= i <= j <= n implies b.subrange(at + i, at + j)
        == #[trigger] c.subrange(i, j) by {
        assert forall|k: int| 0 <= k < j - i implies b.subrange(at + i, at + j)[k] == c.subrange(
            i,
            j,
        )[k] by {
            assert(b.subrange(at, at + n)[i + k] == c.subrange(0, n)[i + k]);
            assert(b.subrange(at, at + n)[i + k] == b[at + i + k]);
            assert(c.subrange(0, n)[i + k] == c[i + k]);
            assert(b.subrange(at + i, at + j)[k] == b[at + i + k]);
            assert(c.subrange(i, j)[k] == c[i + k]);
        }
        assert(b.subrange(at + i, at + j) =~= c.subrange(i, j));
    }
}

} // verus!
