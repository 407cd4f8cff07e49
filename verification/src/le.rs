//! Little-endian encodings of fixed-width integers, as sequences of bytes.

use vstd::prelude::*;

verus! {

/// The two bytes of `x`, least significant first.
pub open spec fn le_u16(x: u16) -> Seq<u8> {
    seq![(x & 0xff) as u8, ((x >> 8) & 0xff) as u8]
}

/// The four bytes of `x`, least significant first.
pub open spec fn le_u32(x: u32) -> Seq<u8> {
    seq![(x & 0xff) as u8, ((x >> 8) & 0xff) as u8, ((x >> 16) & 0xff) as u8, ((x >> 24) & 0xff) as u8]
}

pub open spec fn le_i8(x: i8) -> Seq<u8> {
    seq![x as u8]
}

pub open spec fn le_i16(x: i16) -> Seq<u8> {
    le_u16(x as u16)
}

pub open spec fn le_i32(x: i32) -> Seq<u8> {
    le_u32(x as u32)
}

/// The `u16` whose little-endian bytes are `s[at]`, `s[at + 1]`.
pub open spec fn u16_at(s: Seq<u8>, at: int) -> u16 {
    (s[at] as u16) | ((s[at + 1] as u16) << 8)
}

pub open spec fn u32_at(s: Seq<u8>, at: int) -> u32 {
    (s[at] as u32) | ((s[at + 1] as u32) << 8) | ((s[at + 2] as u32) << 16) | ((s[at + 3] as u32) << 24)
}

pub open spec fn i8_at(s: Seq<u8>, at: int) -> i8 {
    s[at] as i8
}

pub open spec fn i16_at(s: Seq<u8>, at: int) -> i16 {
    u16_at(s, at) as i16
}

pub open spec fn i32_at(s: Seq<u8>, at: int) -> i32 {
    u32_at(s, at) as i32
}

pub proof fn lemma_u16_roundtrip(x: u16)
    ensures
        le_u16(x).len() == 2,
        u16_at(le_u16(x), 0) == x,
{
    let b0 = (x & 0xff) as u8;
    let b1 = ((x >> 8) & 0xff) as u8;
    assert(((x & 0xff) as u8) as u16 | ((((x >> 8) & 0xff) as u8) as u16) << 8 == x) by (bit_vector);
    assert(le_u16(x)[0] == b0 && le_u16(x)[1] == b1);
}

pub proof fn lemma_u32_roundtrip(x: u32)
    ensures
        le_u32(x).len() == 4,
        u32_at(le_u32(x), 0) == x,
{
    assert(((x & 0xff) as u8) as u32 | ((((x >> 8) & 0xff) as u8) as u32) << 8
        | ((((x >> 16) & 0xff) as u8) as u32) << 16 | ((((x >> 24) & 0xff) as u8) as u32) << 24
        == x) by (bit_vector);
}

pub proof fn lemma_i16_roundtrip(x: i16)
    ensures
        le_i16(x).len() == 2,
        i16_at(le_i16(x), 0) == x,
{
    lemma_u16_roundtrip(x as u16);
    assert((x as u16) as i16 == x) by (bit_vector);
}

pub proof fn lemma_i32_roundtrip(x: i32)
    ensures
        le_i32(x).len() == 4,
        i32_at(le_i32(x), 0) == x,
{
    lemma_u32_roundtrip(x as u32);
    assert((x as u32) as i32 == x) by (bit_vector);
}

pub proof fn lemma_i8_roundtrip(x: i8)
    ensures
        le_i8(x).len() == 1,
        i8_at(le_i8(x), 0) == x,
{
    assert((x as u8) as i8 == x) by (bit_vector);
}

/// Reading two bytes as a `u16` and writing it back gives the same two bytes.
pub proof fn lemma_u16_bytes(s: Seq<u8>, at: int)
    requires
        0 <= at,
        at + 2 <= s.len(),
    ensures
        le_u16(u16_at(s, at)) == s.subrange(at, at + 2),
{
    let b0 = s[at];
    let b1 = s[at + 1];
    let x = (b0 as u16) | ((b1 as u16) << 8);
    assert(((x & 0xff) as u8) == b0 && (((x >> 8) & 0xff) as u8) == b1) by (bit_vector)
        requires x == (b0 as u16) | ((b1 as u16) << 8);
    assert(le_u16(u16_at(s, at)) =~= s.subrange(at, at + 2));
}

pub proof fn lemma_u32_bytes(s: Seq<u8>, at: int)
    requires
        0 <= at,
        at + 4 <= s.len(),
    ensures
        le_u32(u32_at(s, at)) == s.subrange(at, at + 4),
{
    let b0 = s[at];
    let b1 = s[at + 1];
    let b2 = s[at + 2];
    let b3 = s[at + 3];
    let x = (b0 as u32) | ((b1 as u32) << 8) | ((b2 as u32) << 16) | ((b3 as u32) << 24);
    assert(((x & 0xff) as u8) == b0 && (((x >> 8) & 0xff) as u8) == b1
        && (((x >> 16) & 0xff) as u8) == b2 && (((x >> 24) & 0xff) as u8) == b3) by (bit_vector)
        requires x == (b0 as u32) | ((b1 as u32) << 8) | ((b2 as u32) << 16) | ((b3 as u32) << 24);
    assert(le_u32(u32_at(s, at)) =~= s.subrange(at, at + 4));
}

pub proof fn lemma_i16_bytes(s: Seq<u8>, at: int)
    requires
        0 <= at,
        at + 2 <= s.len(),
    ensures
        le_i16(i16_at(s, at)) == s.subrange(at, at + 2),
{
    let x = u16_at(s, at);
    assert((x as i16) as u16 == x) by (bit_vector);
    lemma_u16_bytes(s, at);
}

pub proof fn lemma_i32_bytes(s: Seq<u8>, at: int)
    requires
        0 <= at,
        at + 4 <= s.len(),
    ensures
        le_i32(i32_at(s, at)) == s.subrange(at, at + 4),
{
    let x = u32_at(s, at);
    assert((x as i32) as u32 == x) by (bit_vector);
    lemma_u32_bytes(s, at);
}

pub proof fn lemma_i8_bytes(s: Seq<u8>, at: int)
    requires
        0 <= at,
        at + 1 <= s.len(),
    ensures
        le_i8(i8_at(s, at)) == s.subrange(at, at + 1),
{
    let b = s[at];
    assert((b as i8) as u8 == b) by (bit_vector);
    assert(le_i8(i8_at(s, at)) =~= s.subrange(at, at + 1));
}


/// Equal encodings come from equal values.
pub proof fn lemma_le_injective()
    ensures
        forall|x: u16, y: u16| le_u16(x) == le_u16(y) ==> x == y,
        forall|x: u32, y: u32| le_u32(x) == le_u32(y) ==> x == y,
        forall|x: i8, y: i8| le_i8(x) == le_i8(y) ==> x == y,
        forall|x: i16, y: i16| le_i16(x) == le_i16(y) ==> x == y,
        forall|x: i32, y: i32| le_i32(x) == le_i32(y) ==> x == y,
{
    assert forall|x: u16, y: u16| le_u16(x) == le_u16(y) implies x == y by {
        lemma_u16_roundtrip(x);
        lemma_u16_roundtrip(y);
    }
    assert forall|x: u32, y: u32| le_u32(x) == le_u32(y) implies x == y by {
        lemma_u32_roundtrip(x);
        lemma_u32_roundtrip(y);
    }
    assert forall|x: i8, y: i8| le_i8(x) == le_i8(y) implies x == y by {
        lemma_i8_roundtrip(x);
        lemma_i8_roundtrip(y);
    }
    assert forall|x: i16, y: i16| le_i16(x) == le_i16(y) implies x == y by {
        lemma_i16_roundtrip(x);
        lemma_i16_roundtrip(y);
    }
    assert forall|x: i32, y: i32| le_i32(x) == le_i32(y) implies x == y by {
        lemma_i32_roundtrip(x);
        lemma_i32_roundtrip(y);
    }
}

/// Two ways of cutting one sequence at the same place give the same two pieces.
pub proof fn lemma_concat_split<T>(a1: Seq<T>, r1: Seq<T>, a2: Seq<T>, r2: Seq<T>)
    requires
        a1.len() == a2.len(),
        a1 + r1 == a2 + r2,
    ensures
        a1 == a2,
        r1 == r2,
{
    assert(a1 =~= (a1 + r1).take(a1.len() as int));
    assert(a2 =~= (a2 + r2).take(a2.len() as int));
    assert(r1 =~= (a1 + r1).skip(a1.len() as int));
    assert(r2 =~= (a2 + r2).skip(a2.len() as int));
}

} // verus!
