//! Writers that build byte and bit buffers.

use vstd::prelude::*;
use crate::bits::{BitType, bits_of, max_bits, byte_bits, bytes_bits, bit_of, bv_new, bv_push, bv_extend, bv_len,
    bv_from_element, bv_from_slice, bv_range, bv_insert, bv_get, bv_aligned_bytes};
use crate::le::{le_u16, le_u32, le_i16, le_i32, le_i8};
use crate::bits::{bits_value, lemma_bits_value_push};
use vstd::arithmetic::power2::{pow2, lemma_pow2_pos, lemma_pow2_unfold, lemma2_to64};
use vstd::arithmetic::div_mod::lemma_mod_breakdown;
use vstd::bits::lemma_u32_shr_is_div;

pub use crate::demo_writer::DemoWriter;


verus! {

/// The little-endian bytes of each `i16` of `s`, one after another.
pub open spec fn i16s_le(s: Seq<i16>) -> Seq<u8>
    decreases s.len(),
{
    if s.len() == 0 {
        Seq::empty()
    } else {
        i16s_le(s.drop_last()) + le_i16(s.last())
    }
}

/// A growable buffer of bytes with a running count of the bytes appended.
pub struct ByteWriter {
    pub data: Vec<u8>,
    pub offset: usize,
}

impl ByteWriter {
    /// The count of bytes appended matches the bytes held.
    pub open spec fn wf(&self) -> bool {
        self.offset == self.data.len()
    }

    pub fn new() -> (res: Self)
        ensures
            res.data@ == Seq::<u8>::empty(),
            res.wf(),
    {
        Self { data: Vec::new(), offset: 0 }
    }

    fn offset(&mut self, offset: usize)
        requires
            old(self).offset + offset <= usize::MAX,
        ensures
            final(self).offset == old(self).offset + offset,
            final(self).data == old(self).data,
    {
        self.offset += offset;
    }

    pub fn append_u8(&mut self, i: u8)
        requires
            old(self).wf(),
        ensures
            final(self).data@ == old(self).data@.push(i),
            final(self).wf(),
    {
        self.data.push(i);
        assert(self.data.len() == old(self).data.len() + 1);
        self.offset(1);
    }

    pub fn append_u16(&mut self, i: u16)
        requires
            old(self).wf(),
        ensures
            final(self).data@ == old(self).data@ + le_u16(i),
            final(self).wf(),
    {
        self.data.push((i & 0xff) as u8);
        self.data.push(((i >> 8) & 0xff) as u8);
        assert(self.data@ =~= old(self).data@ + le_u16(i));
        assert(self.data.len() == old(self).data.len() + 2);
        self.offset(2);
    }
    pub fn append_u32(&mut self, i: u32)
        requires
            old(self).wf(),
        ensures
            final(self).data@ == old(self).data@ + le_u32(i),
            final(self).wf(),
    {
        self.data.push((i & 0xff) as u8);
        self.data.push(((i >> 8) & 0xff) as u8);
        self.data.push(((i >> 16) & 0xff) as u8);
        self.data.push(((i >> 24) & 0xff) as u8);
        assert(self.data@ =~= old(self).data@ + le_u32(i));
        assert(self.data.len() == old(self).data.len() + 4);
        self.offset(4);
    }

    pub fn append_i32(&mut self, i: i32)
        requires
            old(self).wf(),
        ensures
            final(self).data@ == old(self).data@ + le_i32(i),
            final(self).wf(),
    {
        self.append_u32(i as u32);
    }

    pub fn append_i8(&mut self, i: i8)
        requires
            old(self).wf(),
        ensures
            final(self).data@ == old(self).data@ + le_i8(i),
            final(self).wf(),
    {
        self.append_u8(i as u8);
        assert(final(self).data@ =~= old(self).data@ + le_i8(i));
    }

    pub fn append_i16(&mut self, i: i16)
        requires
            old(self).wf(),
        ensures
            final(self).data@ == old(self).data@ + le_i16(i),
            final(self).wf(),
    {
        self.append_u16(i as u16);
    }

    pub fn append_u8_slice(&mut self, i: &[u8])
        requires
            old(self).wf(),
        ensures
            final(self).data@ == old(self).data@ + i@,
            final(self).wf(),
    {
        let mut k: usize = 0;
        while k < i.len()
            invariant
                0 <= k <= i@.len(),
                self.data@ == old(self).data@ + i@.take(k as int),
                self.offset == old(self).offset,
                old(self).wf(),
            decreases i@.len() - k,
        {
            self.data.push(i[k]);
            k = k + 1;
            assert(self.data@ =~= old(self).data@ + i@.take(k as int));
        }
        assert(i@.take(i@.len() as int) =~= i@);
        assert(self.data.len() == old(self).data.len() + i@.len());
        self.offset(i.len());
    }

    pub fn append_i16_slice(&mut self, i: &[i16])
        requires
            old(self).wf(),
        ensures
            final(self).data@ == old(self).data@ + i16s_le(i@),
            final(self).wf(),
    {
        let mut k: usize = 0;
        while k < i.len()
            invariant
                0 <= k <= i@.len(),
                self.data@ == old(self).data@ + i16s_le(i@.take(k as int)),
                self.wf(),
            decreases i@.len() - k,
        {
            self.append_i16(i[k]);
            assert(i@.take(k + 1).drop_last() =~= i@.take(k as int));
            k = k + 1;
            assert(self.data@ =~= old(self).data@ + i16s_le(i@.take(k as int)));
        }
        assert(i@.take(i@.len() as int) =~= i@);
    }

    pub fn append_i32_array_4(&mut self, i: [i32; 4])
        requires
            old(self).wf(),
        ensures
            final(self).data@ == old(self).data@ + le_i32(i[0]) + le_i32(i[1]) + le_i32(i[2]) + le_i32(i[3]),
            final(self).wf(),
    {
        self.append_i32(i[0]);
        self.append_i32(i[1]);
        self.append_i32(i[2]);
        self.append_i32(i[3]);
    }
}

/// Each `i16` takes two bytes.
pub proof fn lemma_i16s_le_len(s: Seq<i16>)
    ensures
        i16s_le(s).len() == 2 * s.len(),
    decreases s.len(),
{
    if s.len() > 0 {
        lemma_i16s_le_len(s.drop_last());
    }
}

/// The bytes of three `i16`, one after another.
pub proof fn lemma_i16s_le_3_parts(s: Seq<i16>)
    requires
        s.len() == 3,
    ensures
        i16s_le(s) == le_i16(s[0]) + le_i16(s[1]) + le_i16(s[2]),
{
    lemma_i16s_le_3(s[0], s[1], s[2], s);
}

/// Three `i16` written one after another.
pub proof fn lemma_i16s_le_3(a0: i16, a1: i16, a2: i16, s: Seq<i16>)
    requires
        s =~= seq![a0, a1, a2],
    ensures
        i16s_le(s) == le_i16(a0) + le_i16(a1) + le_i16(a2),
{
    let s1 = s.drop_last().drop_last();
    let s2 = s.drop_last();
    assert(s1.drop_last() =~= Seq::<i16>::empty());
    assert(s1 =~= seq![a0]);
    assert(s2 =~= seq![a0, a1]);
    assert(i16s_le(s1.drop_last()) == Seq::<u8>::empty());
    assert(i16s_le(s1) =~= le_i16(a0));
    assert(i16s_le(s2) =~= le_i16(a0) + le_i16(a1));
}


/// The 32 bits of `x`, least significant first.
pub open spec fn u32_bits(x: u32) -> Seq<bool> {
    Seq::new(32, |k: int| (x >> (k as u32)) & 1 == 1)
}

/// The bits of the four little-endian bytes of `x` are the bits of `x`.
pub proof fn lemma_le_u32_bits(x: u32)
    ensures
        bytes_bits(le_u32(x)) == u32_bits(x),
{
    let b = le_u32(x);
    assert forall|t: int| 0 <= t < 32 implies #[trigger] bytes_bits(b)[t] == u32_bits(x)[t] by {
        let q = (t / 8) as u32;
        let r = (t % 8) as u32;
        let byte = b[t / 8];
        if q == 0 {
            assert(byte == (x & 0xff) as u8);
            assert((((x & 0xff) as u8 >> (r as u8)) & 1 == 1) == ((x >> r) & 1 == 1)) by (bit_vector)
                requires r < 8;
        } else if q == 1 {
            assert(byte == ((x >> 8) & 0xff) as u8);
            assert(((((x >> 8) & 0xff) as u8 >> (r as u8)) & 1 == 1) == ((x >> (8 + r)) & 1 == 1))
                by (bit_vector)
                requires r < 8;
        } else if q == 2 {
            assert(byte == ((x >> 16) & 0xff) as u8);
            assert(((((x >> 16) & 0xff) as u8 >> (r as u8)) & 1 == 1) == ((x >> (16 + r)) & 1 == 1))
                by (bit_vector)
                requires r < 8;
        } else {
            assert(byte == ((x >> 24) & 0xff) as u8);
            assert(((((x >> 24) & 0xff) as u8 >> (r as u8)) & 1 == 1) == ((x >> (24 + r)) & 1 == 1))
                by (bit_vector)
                requires r < 8;
        }
        assert(8 * q + r == t as u32);
    }
    assert(bytes_bits(b) =~= u32_bits(x));
}

/// A growable buffer of bits with a running count of the bits appended.
pub struct BitWriter {
    pub data: BitType,
    pub offset: usize,
}

impl BitWriter {
    /// The count of bits appended matches the bits held.
    pub open spec fn wf(&self) -> bool {
        &&& self.offset == bits_of(self.data).len()
        &&& bits_of(self.data).len() <= max_bits()
    }

    pub open spec fn bits(&self) -> Seq<bool> {
        bits_of(self.data)
    }

    pub fn new() -> (res: Self)
        ensures
            res.wf(),
            res.bits() == Seq::<bool>::empty(),
    {
        Self { data: bv_new(), offset: 0 }
    }

    fn offset(&mut self, i: usize)
        requires
            old(self).offset + i <= usize::MAX,
        ensures
            final(self).offset == old(self).offset + i,
            final(self).data == old(self).data,
    {
        self.offset += i;
    }

    pub fn append_bit(&mut self, i: bool)
        requires
            old(self).wf(),
            old(self).bits().len() < max_bits(),
        ensures
            final(self).wf(),
            final(self).bits() == old(self).bits().push(i),
    {
        bv_push(&mut self.data, i);
        self.offset(1);
    }

    pub fn append_slice(&mut self, i: &BitType)
        requires
            old(self).wf(),
            old(self).bits().len() + bits_of(*i).len() <= max_bits(),
        ensures
            final(self).wf(),
            final(self).bits() == old(self).bits() + bits_of(*i),
    {
        bv_extend(&mut self.data, i);
        self.offset(bv_len(i));
    }

    pub fn append_vec(&mut self, i: BitType)
        requires
            old(self).wf(),
            old(self).bits().len() + bits_of(i).len() <= max_bits(),
        ensures
            final(self).wf(),
            final(self).bits() == old(self).bits() + bits_of(i),
    {
        self.append_slice(&i)
    }

    pub fn append_u8(&mut self, i: u8)
        requires
            old(self).wf(),
            old(self).bits().len() + 8 <= max_bits(),
        ensures
            final(self).wf(),
            final(self).bits() == old(self).bits() + byte_bits(i),
    {
        let bits = bv_from_element(i);
        self.append_vec(bits);
    }

    /// Append selected bits from a u32.
    /// end = 31 means excluding the sign bit due to LE.
    pub fn append_u32_range(&mut self, i: u32, end: u32)
        requires
            old(self).wf(),
            end <= 32,
            old(self).bits().len() + end <= max_bits(),
        ensures
            final(self).wf(),
            final(self).bits() == old(self).bits() + u32_bits(i).take(end as int),
    {
        let bytes: [u8; 4] = [
            (i & 0xff) as u8,
            ((i >> 8) & 0xff) as u8,
            ((i >> 16) & 0xff) as u8,
            ((i >> 24) & 0xff) as u8,
        ];
        let bits = bv_from_slice(&bytes);
        proof {
            assert(bytes@ =~= le_u32(i));
            lemma_le_u32_bits(i);
        }
        let part = bv_range(&bits, 0, end as usize);
        self.append_slice(&part);
    }

    pub fn insert_bit(&mut self, i: bool, pos: usize)
        requires
            old(self).wf(),
            pos <= old(self).bits().len(),
            old(self).bits().len() < max_bits(),
        ensures
            final(self).wf(),
            final(self).bits() == old(self).bits().insert(pos as int, i),
    {
        bv_insert(&mut self.data, pos, i);
        self.offset(1);
    }

    pub fn insert_slice(&mut self, i: &BitType, pos: usize)
        requires
            old(self).wf(),
            pos <= old(self).bits().len(),
            old(self).bits().len() + bits_of(*i).len() <= max_bits(),
        ensures
            final(self).wf(),
            final(self).bits() == old(self).bits().take(pos as int) + bits_of(*i) + old(self).bits().skip(
                pos as int,
            ),
    {
        let n = bv_len(i);
        let ghost a = old(self).bits().take(pos as int);
        let ghost c = old(self).bits().skip(pos as int);
        let mut k: usize = 0;
        assert(old(self).bits() =~= a + bits_of(*i).take(0) + c);
        while k < n
            invariant
                k <= n,
                n == bits_of(*i).len(),
                a.len() == pos,
                self.wf(),
                self.bits() == a + bits_of(*i).take(k as int) + c,
                old(self).bits().len() + bits_of(*i).len() <= max_bits(),
                c.len() + pos == old(self).bits().len(),
            decreases n - k,
        {
            let what = bv_get(i, k);
            self.insert_bit(what, pos + k);
            assert(self.bits() =~= a + bits_of(*i).take(k + 1) + c);
            k = k + 1;
        }
        assert(bits_of(*i).take(n as int) =~= bits_of(*i));
    }

    pub fn insert_vec(&mut self, i: BitType, pos: usize)
        requires
            old(self).wf(),
            pos <= old(self).bits().len(),
            old(self).bits().len() + bits_of(i).len() <= max_bits(),
        ensures
            final(self).wf(),
            final(self).bits() == old(self).bits().take(pos as int) + bits_of(i) + old(self).bits().skip(
                pos as int,
            ),
    {
        self.insert_slice(&i, pos);
    }

    pub fn insert_u8(&mut self, i: u8, pos: usize)
        requires
            old(self).wf(),
            pos <= old(self).bits().len(),
            old(self).bits().len() + 8 <= max_bits(),
        ensures
            final(self).wf(),
            final(self).bits() == old(self).bits().take(pos as int) + byte_bits(i) + old(self).bits().skip(
                pos as int,
            ),
    {
        let bits = bv_from_element(i);
        self.insert_slice(&bits, pos);
    }

    pub fn insert_u32_range(&mut self, i: u32, end: u32, pos: usize)
        requires
            old(self).wf(),
            end <= 32,
            pos <= old(self).bits().len(),
            old(self).bits().len() + end <= max_bits(),
        ensures
            final(self).wf(),
            final(self).bits() == old(self).bits().take(pos as int) + u32_bits(i).take(end as int)
                + old(self).bits().skip(pos as int),
    {
        let bytes: [u8; 4] = [
            (i & 0xff) as u8,
            ((i >> 8) & 0xff) as u8,
            ((i >> 16) & 0xff) as u8,
            ((i >> 24) & 0xff) as u8,
        ];
        let bits = bv_from_slice(&bytes);
        proof {
            assert(bytes@ =~= le_u32(i));
            lemma_le_u32_bits(i);
        }
        let part = bv_range(&bits, 0, end as usize);
        self.insert_slice(&part, pos);
    }

    /// The bytes that hold the bits written, the first bit at the lowest bit of the first byte;
    /// the bits past the last one, in the last byte, are not stated.
    pub fn get_u8_vec(&mut self) -> (res: Vec<u8>)
        ensures
            *final(self) == *old(self),
            res@.len() == (old(self).bits().len() + 7) / 8,
            forall|i: int| 0 <= i < old(self).bits().len() ==> bit_of(#[trigger] res@[i / 8], i % 8)
                == old(self).bits()[i],
    {
        // https://github.com/ferrilab/bitvec/issues/27
        bv_aligned_bytes(&self.data)
    }

    pub fn get_offset(&self) -> (res: usize)
        ensures
            res == self.offset,
    {
        self.offset
    }
}

/// The bytes of a bit writer hold its bits from the first: a reader over them (whose bits are
/// `bytes_bits` of them) reads first what the writer wrote.
pub proof fn law_bit_writer_bytes_read_back(w: BitWriter, bytes: Seq<u8>)
    requires
        bytes.len() == (w.bits().len() + 7) / 8,
        forall|i: int| 0 <= i < w.bits().len() ==> bit_of(#[trigger] bytes[i / 8], i % 8) == w.bits()[i],
    ensures
        w.bits().len() <= bytes_bits(bytes).len(),
        bytes_bits(bytes).take(w.bits().len() as int) == w.bits(),
{
    let n = w.bits().len() as int;
    assert(n <= 8 * ((n + 7) / 8)) by (nonlinear_arith)
        requires 0 <= n;
    assert forall|i: int| 0 <= i < n implies bytes_bits(bytes).take(n)[i] == w.bits()[i] by {
        assert(bit_of(bytes[i / 8], i % 8) == w.bits()[i]);
    }
    assert(bytes_bits(bytes).take(n) =~= w.bits());
}

/// The bits that `append_u32_range(x, n)` appends spell `x` modulo two to the `n`: a reader that
/// reads those `n` bits back as a number gets the low `n` bits of `x`.
pub proof fn law_u32_range_read_back(x: u32, n: nat)
    requires
        n <= 32,
    ensures
        bits_value(u32_bits(x).take(n as int)) == (x as nat) % pow2(n),
    decreases n,
{
    if n == 0 {
        assert(u32_bits(x).take(0) =~= Seq::<bool>::empty());
        lemma2_to64();
    } else {
        let m = (n - 1) as nat;
        law_u32_range_read_back(x, m);
        let s = u32_bits(x).take(m as int);
        let b = u32_bits(x)[m as int];
        assert(u32_bits(x).take(n as int) =~= s.push(b));
        lemma_bits_value_push(s, b);
        lemma_pow2_pos(m);
        lemma_pow2_unfold(n);
        lemma_u32_shr_is_div(x, m as u32);
        let q = x >> (m as u32);
        assert((q & 1 == 1) == (q % 2 == 1)) by (bit_vector);
        let r = (x as int) / (pow2(m) as int);
        assert(q as int == r);
        assert(pow2(n) == pow2(m) * 2);
        lemma_mod_breakdown(x as int, pow2(m) as int, 2);
        assert(s.len() == m);
        let t = r % 2;
        if b {
            assert(t == 1);
            assert(pow2(m) * t == pow2(m)) by (nonlinear_arith)
                requires t == 1;
        } else {
            assert(t == 0);
            assert(pow2(m) * t == 0) by (nonlinear_arith)
                requires t == 0;
        }
    }
}

} // verus!
