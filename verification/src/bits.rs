//! Bit vectors, as the `bitvec` crate gives them: the model of their contents and the calls
//! that the readers and writers of this crate make into it.
//!
//! Every function here is trusted: Verus believes its contract and does not read its body.
//! A bit vector is held in `Lsb0` order over bytes, so bit `k` of byte `j` of its storage is
//! bit `8 * j + k` of the vector.

use vstd::prelude::*;
use vstd::arithmetic::power2::{pow2, lemma_pow2_unfold, lemma2_to64};
use bitvec::order::Lsb0;
use bitvec::vec::BitVec;
use bitvec::field::BitField;

verus! {

/// A vector of bits over bytes, lowest bit first: a `bitvec` bit vector in `Lsb0` order over
/// `u8`. Verus does not read inside it; what it holds is `bits_of` it.
#[verifier::external_body]
#[derive(Debug)]
pub struct BitType {
    bits: BitVec<u8, Lsb0>,
}

impl Clone for BitType {
    /// `BitVec::clone`: a copy that holds the same bits.
    #[verifier::external_body]
    fn clone(&self) -> (res: Self)
        ensures
            bits_of(res) == bits_of(*self),
    {
        BitType { bits: self.bits.clone() }
    }
}

/// The bits that a bit vector holds, in order.
pub uninterp spec fn bits_of(v: BitType) -> Seq<bool>;

/// The most bits that a bit vector can hold: an eighth of the range of `usize`.
pub open spec fn max_bits() -> nat {
    (usize::MAX as nat) / 8
}

/// Bit `k` of `b`, counting from the least significant bit.
pub open spec fn bit_of(b: u8, k: int) -> bool {
    (b >> (k as u8)) & 1 == 1
}

/// The eight bits of a byte, least significant first.
pub open spec fn byte_bits(b: u8) -> Seq<bool> {
    Seq::new(8, |k: int| bit_of(b, k))
}

/// The bits of a sequence of bytes, byte after byte, each least significant bit first.
pub open spec fn bytes_bits(s: Seq<u8>) -> Seq<bool> {
    Seq::new(8 * s.len(), |i: int| bit_of(s[i / 8], i % 8))
}

/// The number whose binary digits are `b`, least significant first.
pub open spec fn bits_value(b: Seq<bool>) -> nat
    decreases b.len(),
{
    if b.len() == 0 {
        0
    } else {
        (if b[0] { 1nat } else { 0nat }) + 2 * bits_value(b.drop_first())
    }
}

/// The two's complement number whose digits are `b`, least significant first: the last bit is
/// the sign.
pub open spec fn bits_signed_value(b: Seq<bool>) -> int {
    if b.len() > 0 && b.last() {
        bits_value(b) - pow2(b.len())
    } else {
        bits_value(b) as int
    }
}

/// Appending a bit to a sequence of binary digits adds its place value.
pub proof fn lemma_bits_value_push(s: Seq<bool>, x: bool)
    ensures
        bits_value(s.push(x)) == bits_value(s) + if x { pow2(s.len()) } else { 0 },
    decreases s.len(),
{
    if s.len() == 0 {
        assert(s.push(x).drop_first() =~= Seq::<bool>::empty());
        assert(bits_value(Seq::<bool>::empty()) == 0);
        assert(s.push(x)[0] == x);
        lemma2_to64();
    } else {
        assert(s.push(x).drop_first() =~= s.drop_first().push(x));
        assert(s.push(x)[0] == s[0]);
        lemma_bits_value_push(s.drop_first(), x);
        lemma_pow2_unfold(s.len());
        assert(s.drop_first().len() == s.len() - 1);
    }
}

/// A number with `n` binary digits is less than two to the `n`.
pub proof fn lemma_bits_value_bound(s: Seq<bool>)
    ensures
        bits_value(s) < pow2(s.len()),
    decreases s.len(),
{
    if s.len() == 0 {
        lemma2_to64();
    } else {
        lemma_bits_value_bound(s.drop_first());
        lemma_pow2_unfold(s.len());
    }
}

/// `BitVec::new`: an empty bit vector.
#[verifier::external_body]
pub(crate) fn bv_new() -> (res: BitType)
    ensures
        bits_of(res) == Seq::<bool>::empty(),
{
    BitType { bits: BitVec::new() }
}

/// `BitVec::from_slice`: the bits of the given bytes.
#[verifier::external_body]
pub(crate) fn bv_from_slice(s: &[u8]) -> (res: BitType)
    requires
        8 * s@.len() <= max_bits(),
    ensures
        bits_of(res) == bytes_bits(s@),
{
    BitType { bits: BitVec::from_slice(s) }
}

/// `BitVec::from_element`: the eight bits of a byte.
#[verifier::external_body]
pub(crate) fn bv_from_element(b: u8) -> (res: BitType)
    ensures
        bits_of(res) == byte_bits(b),
{
    BitType { bits: BitVec::from_element(b) }
}

/// `BitVec::len`: the number of bits held, which never exceeds `BitSlice::MAX_BITS`
/// (`usize::MAX >> 3`, the largest length that a bit-span pointer can encode).
#[verifier::external_body]
pub(crate) fn bv_len(v: &BitType) -> (res: usize)
    ensures
        res == bits_of(*v).len(),
        res <= max_bits(),
{
    v.bits.len()
}

/// Indexing a bit vector: the bit at `i`.
#[verifier::external_body]
pub(crate) fn bv_get(v: &BitType, i: usize) -> (res: bool)
    requires
        i < bits_of(*v).len(),
    ensures
        res == bits_of(*v)[i as int],
{
    v.bits[i]
}

/// `BitVec::push`: appends one bit.
#[verifier::external_body]
pub(crate) fn bv_push(v: &mut BitType, b: bool)
    requires
        bits_of(*old(v)).len() < max_bits(),
    ensures
        bits_of(*final(v)) == bits_of(*old(v)).push(b),
{
    v.bits.push(b)
}

/// `BitVec::insert`: puts one bit at `i`, moving the bits from `i` on one place up.
#[verifier::external_body]
pub(crate) fn bv_insert(v: &mut BitType, i: usize, b: bool)
    requires
        i <= bits_of(*old(v)).len(),
        bits_of(*old(v)).len() < max_bits(),
    ensures
        bits_of(*final(v)) == bits_of(*old(v)).insert(i as int, b),
{
    v.bits.insert(i, b)
}

/// `BitVec::extend_from_bitslice`: appends the bits of another bit vector.
#[verifier::external_body]
pub(crate) fn bv_extend(v: &mut BitType, other: &BitType)
    requires
        bits_of(*old(v)).len() + bits_of(*other).len() <= max_bits(),
    ensures
        bits_of(*final(v)) == bits_of(*old(v)) + bits_of(*other),
{
    v.bits.extend_from_bitslice(other.bits.as_bitslice())
}

/// Slicing a bit vector and copying the slice (`BitSlice::to_bitvec`): the bits from `start` to
/// `end`.
#[verifier::external_body]
pub(crate) fn bv_range(v: &BitType, start: usize, end: usize) -> (res: BitType)
    requires
        start <= end <= bits_of(*v).len(),
    ensures
        bits_of(res) == bits_of(*v).subrange(start as int, end as int),
{
    BitType { bits: v.bits[start..end].to_bitvec() }
}

/// `BitVec::force_align` then `BitVec::into_vec`, on a copy: the bytes that hold the bits, the
/// first bit at the lowest bit of the first byte. The bits past the last one, in the last byte,
/// have a value that the crate leaves unspecified, and nothing here states it.
#[verifier::external_body]
pub(crate) fn bv_aligned_bytes(v: &BitType) -> (res: Vec<u8>)
    ensures
        res@.len() == (bits_of(*v).len() + 7) / 8,
        forall|i: int| 0 <= i < bits_of(*v).len() ==> bit_of(#[trigger] res@[i / 8], i % 8) == bits_of(*v)[i],
{
    let mut what = v.bits.to_owned();
    what.force_align();
    what.into_vec()
}

/// `BitField::load::<u8>`: the number that the bits spell, least significant first.
///
/// `load` reads in the target's byte order: on a little-endian target it is `load_le`, which
/// these contracts describe; on a big-endian target it is `load_be`, which they do not. This
/// holds of all six loads below.
#[verifier::external_body]
pub(crate) fn bv_load_u8(v: &BitType) -> (res: u8)
    requires
        1 <= bits_of(*v).len() <= 8,
    ensures
        res == bits_value(bits_of(*v)),
{
    v.bits.load::<u8>()
}

/// `BitField::load::<i8>`: the two's complement number that the bits spell, the last bit
/// giving the sign.
#[verifier::external_body]
pub(crate) fn bv_load_i8(v: &BitType) -> (res: i8)
    requires
        1 <= bits_of(*v).len() <= 8,
    ensures
        res == bits_signed_value(bits_of(*v)),
{
    v.bits.load::<i8>()
}

/// `BitField::load::<u16>`.
#[verifier::external_body]
pub(crate) fn bv_load_u16(v: &BitType) -> (res: u16)
    requires
        1 <= bits_of(*v).len() <= 16,
    ensures
        res == bits_value(bits_of(*v)),
{
    v.bits.load::<u16>()
}

/// `BitField::load::<i16>`.
#[verifier::external_body]
pub(crate) fn bv_load_i16(v: &BitType) -> (res: i16)
    requires
        1 <= bits_of(*v).len() <= 16,
    ensures
        res == bits_signed_value(bits_of(*v)),
{
    v.bits.load::<i16>()
}

/// `BitField::load::<u32>`.
#[verifier::external_body]
pub(crate) fn bv_load_u32(v: &BitType) -> (res: u32)
    requires
        1 <= bits_of(*v).len() <= 32,
    ensures
        res == bits_value(bits_of(*v)),
{
    v.bits.load::<u32>()
}

/// `BitField::load::<i32>`.
#[verifier::external_body]
pub(crate) fn bv_load_i32(v: &BitType) -> (res: i32)
    requires
        1 <= bits_of(*v).len() <= 32,
    ensures
        res == bits_signed_value(bits_of(*v)),
{
    v.bits.load::<i32>()
}

} // verus!
