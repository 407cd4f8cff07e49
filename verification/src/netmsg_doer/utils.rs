//! Reading helpers shared by the message parsers, and the field masks and decoders of
//! delta-encoded structures.

use vstd::prelude::*;
use super::{IResult, ParseError};
use crate::bits::{BitType, bits_of, bits_value, bits_signed_value, bytes_bits, max_bits, bv_len, bv_get,
    bv_range, bv_from_slice, bv_load_u8, bv_load_i8, bv_load_u16, bv_load_i16, bv_load_u32, bv_load_i32,
    lemma_bits_value_push, lemma_bits_value_bound, byte_bits, bit_of, bv_from_element};
use crate::types::{DeltaType, DeltaDecoder, DeltaDecoderS, DeltaDecoderTable};
use crate::writer::{BitWriter, ByteWriter, u32_bits, lemma_le_u32_bits, law_u32_range_read_back};
use vstd::arithmetic::power2::{pow2, lemma2_to64};
use crate::le::le_u32;
use vstd::bits::{lemma_u8_shl_is_mul, lemma_u8_pow2_no_overflow, lemma_u32_shl_is_mul,
    lemma_u32_pow2_no_overflow};

verus! {

/// `s` is a string with its terminator: it ends with a null byte and holds no other.
pub open spec fn is_c_string(s: Seq<u8>) -> bool {
    &&& s.len() >= 1
    &&& s.last() == 0
    &&& forall|k: int| 0 <= k < s.len() - 1 ==> s[k] != 0
}

/// `s` holds a null byte.
pub open spec fn has_nul(s: Seq<u8>) -> bool {
    exists|k: int| 0 <= k < s.len() && s[k] == 0
}

/// The length of the string at the front of `s`, terminator included, when `s` holds a null byte.
pub open spec fn c_string_len(s: Seq<u8>) -> int {
    choose|n: int| 0 < n <= s.len() && is_c_string(#[trigger] s.take(n))
}

/// A terminated string at the front of a sequence is the only one there.
pub proof fn lemma_c_string_prefix_unique(s: Seq<u8>, n: int, m: int)
    requires
        0 < n <= s.len(),
        0 < m <= s.len(),
        is_c_string(s.take(n)),
        is_c_string(s.take(m)),
    ensures
        n == m,
{
    if n < m {
        assert(s.take(m)[n - 1] == s.take(n)[n - 1]);
    } else if m < n {
        assert(s.take(n)[m - 1] == s.take(m)[m - 1]);
    }
}

/// The string at the front of `a + b`, when `a` is a terminated string, is `a`.
pub proof fn lemma_c_string_len_concat(a: Seq<u8>, b: Seq<u8>)
    requires
        is_c_string(a),
    ensures
        has_nul(a + b),
        c_string_len(a + b) == a.len(),
        (a + b).take(a.len() as int) == a,
{
    let s = a + b;
    assert(s.take(a.len() as int) =~= a);
    assert(s[a.len() - 1] == 0);
    let n = c_string_len(s);
    lemma_c_string_prefix_unique(s, n, a.len() as int);
}

/// Two ways of reading a terminated string off the front of one sequence agree.
pub proof fn lemma_c_string_split(a1: Seq<u8>, r1: Seq<u8>, a2: Seq<u8>, r2: Seq<u8>)
    requires
        is_c_string(a1),
        is_c_string(a2),
        a1 + r1 == a2 + r2,
    ensures
        a1 == a2,
        r1 == r2,
{
    lemma_c_string_len_concat(a1, r1);
    lemma_c_string_len_concat(a2, r2);
    crate::le::lemma_concat_split(a1, r1, a2, r2);
}

/// Reads a null-terminated string, terminator included.
pub fn null_string(i: &[u8]) -> (res: IResult<'_, &[u8]>)
    ensures
        res is Ok <==> has_nul(i@),
        res is Err ==> res == IResult::<&[u8]>::Err(ParseError::MissingNul),
        res matches Ok((rest, s)) ==> is_c_string(s@) && i@ == s@ + rest@
            && s@.len() == c_string_len(i@),
{
    let mut k: usize = 0;
    while k < i.len()
        invariant
            0 <= k <= i@.len(),
            forall|j: int| 0 <= j < k ==> i@[j] != 0,
        decreases i@.len() - k,
    {
        if i[k] == 0 {
            let (s, rest) = i.split_at(k + 1);
            assert(i@ =~= s@ + rest@);
            assert(s@.last() == i@[k as int]);
            proof {
                lemma_c_string_len_concat(s@, rest@);
            }
            return Ok((rest, s));
        }
        k = k + 1;
    }
    Err(ParseError::MissingNul)
}


/// Bit `off` of `s`, reading each byte from its most significant bit.
pub open spec fn msb_bit(s: Seq<u8>, off: int) -> bool {
    (s[off / 8] >> ((7 - off % 8) as u8)) & 1 == 1
}

/// Reads one bit from a byte input and a bit position in its first byte, the most significant
/// bit first; the input moves to the next byte once its last bit has been read.
pub fn take_1_bit(i: (&[u8], usize)) -> (res: Result<((&[u8], usize), bool), ParseError>)
    requires
        i.1 < 8,
    ensures
        res is Ok <==> i.0@.len() >= 1,
        res is Err ==> res == Result::<((&[u8], usize), bool), ParseError>::Err(ParseError::Eof),
        res matches Ok((rest, b)) ==> {
            &&& b == msb_bit(i.0@, i.1 as int)
            &&& rest.1 < 8
            &&& if i.1 + 1 == 8 {
                rest.0@ == i.0@.drop_first() && rest.1 == 0
            } else {
                rest.0@ == i.0@ && rest.1 == i.1 + 1
            }
        },
{
    let (input, offset) = i;
    if input.len() < 1 {
        return Err(ParseError::Eof);
    }
    let byte = input[0];
    let sh = (7 - offset) as u8;
    let what: u8 = (byte >> sh) & 1;
    assert((what != 0) == (what == 1)) by (bit_vector)
        requires what == (byte >> sh) & 1;
    let rest = if offset + 1 == 8 {
        let (_, r) = input.split_at(1);
        (r, 0usize)
    } else {
        (input, offset + 1)
    };
    Ok((rest, what != 0))
}

/// The bits that follow bit `off` of `s`, most significant bit of each byte first.
pub open spec fn msb_bits(s: Seq<u8>, off: int, n: int) -> Seq<bool> {
    Seq::new(n as nat, |k: int| msb_bit(s, off + k))
}

/// Reads `n` bits, as `take_1_bit` reads each of them.
pub fn take_n_bit(n: usize, i: (&[u8], usize)) -> (res: Result<((&[u8], usize), Vec<bool>), ParseError>)
    requires
        i.1 < 8,
    ensures
        res is Ok <==> n == 0 || i.0@.len() * 8 >= i.1 + n,
        res is Err ==> res == Result::<((&[u8], usize), Vec<bool>), ParseError>::Err(ParseError::Eof),
        res matches Ok((rest, bits)) ==> {
            &&& bits@ == msb_bits(i.0@, i.1 as int, n as int)
            &&& rest.1 < 8
            &&& rest.0@ == i.0@.skip((i.1 + n) / 8)
            &&& rest.1 == (i.1 + n) % 8
        },
{
    let ghost s = i.0@;
    let mut cur = i;
    let mut bits: Vec<bool> = Vec::new();
    let mut k: usize = 0;
    while k < n
        invariant
            k <= n,
            i.1 < 8,
            s == i.0@,
            cur.1 < 8,
            (i.1 + k) / 8 <= s.len(),
            k > 0 ==> i.1 + k <= s.len() * 8,
            cur.0@ == s.skip((i.1 + k) / 8),
            cur.1 == (i.1 + k) % 8,
            bits@ == msb_bits(s, i.1 as int, k as int),
        decreases n - k,
    {
        if cur.0.len() < 1 {
            return Err(ParseError::Eof);
        }
        let (next, b) = take_1_bit(cur)?;
        proof {
            let q = (i.1 + k) / 8;
            assert(cur.0@[0] == s[q]);
            assert(b == msb_bit(s, i.1 + k));
        }
        bits.push(b);
        cur = next;
        k = k + 1;
        proof {
            assert(bits@ =~= msb_bits(s, i.1 as int, k as int));
            if cur.1 == 0 {
                assert(cur.0@ =~= s.skip((i.1 + k) / 8));
            }
        }
    }
    Ok((cur, bits))
}

/// The number that the bits of `i` spell, the first bit least significant.
pub fn vec_bool_to_u8(i: Vec<bool>) -> (res: u8)
    requires
        i@.len() <= 8,
    ensures
        res == bits_value(i@),
{
    let mut acc: u8 = 0;
    let mut idx: usize = 0;
    while idx < i.len()
        invariant
            idx <= i@.len() <= 8,
            acc == bits_value(i@.take(idx as int)),
        decreases i@.len() - idx,
    {
        proof {
            assert(i@.take(idx + 1) =~= i@.take(idx as int).push(i@[idx as int]));
            lemma_bits_value_push(i@.take(idx as int), i@[idx as int]);
            lemma_bits_value_bound(i@.take(idx as int));
            lemma_u8_pow2_no_overflow(idx as nat);
            lemma_u8_shl_is_mul(1, idx as u8);
        }
        let e: u8 = if i[idx] { 1 } else { 0 };
        let shifted: u8 = e << (idx as u8);
        proof {
            let k = idx as u8;
            if e == 1 {
                assert(acc < (1u8 << k) ==> acc | (1u8 << k) == acc + (1u8 << k)) by (bit_vector)
                    requires k < 8;
            } else {
                assert(acc | (0u8 << k) == acc) by (bit_vector);
            }
        }
        acc = acc | shifted;
        idx = idx + 1;
    }
    assert(i@.take(i@.len() as int) =~= i@);
    acc
}

/// The number that the bits of `i` spell, the first bit least significant.
pub fn vec_bool_to_u32(i: Vec<bool>) -> (res: u32)
    requires
        i@.len() <= 32,
    ensures
        res == bits_value(i@),
{
    let mut acc: u32 = 0;
    let mut idx: usize = 0;
    while idx < i.len()
        invariant
            idx <= i@.len() <= 32,
            acc == bits_value(i@.take(idx as int)),
        decreases i@.len() - idx,
    {
        proof {
            assert(i@.take(idx + 1) =~= i@.take(idx as int).push(i@[idx as int]));
            lemma_bits_value_push(i@.take(idx as int), i@[idx as int]);
            lemma_bits_value_bound(i@.take(idx as int));
            lemma_u32_pow2_no_overflow(idx as nat);
            lemma_u32_shl_is_mul(1, idx as u32);
        }
        let e: u32 = if i[idx] { 1 } else { 0 };
        let shifted: u32 = e << (idx as u32);
        proof {
            let k = idx as u32;
            if e == 1 {
                assert(acc < (1u32 << k) ==> acc | (1u32 << k) == acc + (1u32 << k)) by (bit_vector)
                    requires k < 32;
            } else {
                assert(acc | (0u32 << k) == acc) by (bit_vector);
            }
        }
        acc = acc | shifted;
        idx = idx + 1;
    }
    assert(i@.take(i@.len() as int) =~= i@);
    acc
}


pub trait BitSliceCast {
    /// The bits that are cast.
    spec fn cast_bits(&self) -> Seq<bool>;

    fn to_u8(&self) -> (res: u8)
        requires
            1 <= self.cast_bits().len() <= 8,
    ;

    fn to_i8(&self) -> (res: i8)
        requires
            1 <= self.cast_bits().len() <= 8,
    ;

    fn to_u16(&self) -> (res: u16)
        requires
            1 <= self.cast_bits().len() <= 16,
    ;

    fn to_i16(&self) -> (res: i16)
        requires
            1 <= self.cast_bits().len() <= 16,
    ;

    fn to_u32(&self) -> (res: u32)
        requires
            1 <= self.cast_bits().len() <= 32,
    ;

    fn to_i32(&self) -> (res: i32)
        requires
            1 <= self.cast_bits().len() <= 32,
    ;
}

impl BitSliceCast for BitType {
    open spec fn cast_bits(&self) -> Seq<bool> {
        bits_of(*self)
    }

    // https://github.com/ferrilab/bitvec/issues/64
    fn to_u8(&self) -> (res: u8)
        ensures
            res == bits_value(bits_of(*self)),
    {
        bv_load_u8(self)
    }

    fn to_i8(&self) -> (res: i8)
        ensures
            res == bits_signed_value(bits_of(*self)),
    {
        bv_load_i8(self)
    }

    fn to_u16(&self) -> (res: u16)
        ensures
            res == bits_value(bits_of(*self)),
    {
        bv_load_u16(self)
    }

    fn to_i16(&self) -> (res: i16)
        ensures
            res == bits_signed_value(bits_of(*self)),
    {
        bv_load_i16(self)
    }

    fn to_u32(&self) -> (res: u32)
        ensures
            res == bits_value(bits_of(*self)),
    {
        bv_load_u32(self)
    }

    fn to_i32(&self) -> (res: i32)
        ensures
            res == bits_signed_value(bits_of(*self)),
    {
        bv_load_i32(self)
    }
}

/// The bytes that the bits of `i` spell, eight bits to a byte, the first bit of each byte least
/// significant; a last group of fewer than eight bits makes a byte of its own.
pub fn bitslice_to_u8_vec(i: &BitType) -> (res: Vec<u8>)
    ensures
        res@.len() == (bits_of(*i).len() + 7) / 8,
        forall|j: int| 0 <= j < res@.len() ==> #[trigger] res@[j] == bits_value(bits_of(*i).subrange(
            8 * j,
            if 8 * j + 8 <= bits_of(*i).len() { 8 * j + 8 } else { bits_of(*i).len() as int },
        )),
{
    let len = bv_len(i);
    let mut res: Vec<u8> = Vec::new();
    let mut start: usize = 0;
    while start < len
        invariant
            len == bits_of(*i).len(),
            len <= max_bits(),
            start % 8 == 0,
            start <= len + 7,
            res@.len() == start / 8,
            start < len || res@.len() == (len + 7) / 8,
            forall|j: int| 0 <= j < res@.len() ==> #[trigger] res@[j] == bits_value(bits_of(*i).subrange(
                8 * j,
                if 8 * j + 8 <= len { 8 * j + 8 } else { len as int },
            )),
        decreases len + 7 - start,
    {
        let end = if len - start >= 8 { start + 8 } else { len };
        let chunk = bv_range(i, start, end);
        let byte = chunk.to_u8();
        res.push(byte);
        start = start + 8;
    }
    res
}

pub fn check_flag(lhs: u32, rhs: DeltaType) -> (res: bool)
    ensures
        res == (lhs & rhs.spec_bits() != 0),
{
    lhs & rhs.bits() != 0
}

/// The byte whose bits are the eight bits of `bits` from `at`, least significant first.
pub open spec fn byte_at(bits: Seq<bool>, at: int) -> nat {
    bits_value(bits.subrange(at, at + 8))
}

/// The string that starts at bit `start` of `bits` ends at the `k`-th byte from there: that
/// byte is zero and is the first zero byte at a whole number of bytes from the start.
pub open spec fn string_ends_at(bits: Seq<bool>, start: int, k: int) -> bool {
    &&& 0 <= k
    &&& start + 8 * k + 8 <= bits.len()
    &&& byte_at(bits, start + 8 * k) == 0
    &&& forall|j: int| 0 <= j < k ==> #[trigger] byte_at(bits, start + 8 * j) != 0
}

proof fn lemma_first_string_end(bits: Seq<bool>, start: int, i: int, k: int) -> (m: int)
    requires
        0 <= i <= k,
        start + 8 * k + 8 <= bits.len(),
        byte_at(bits, start + 8 * k) == 0,
        forall|j: int| 0 <= j < i ==> #[trigger] byte_at(bits, start + 8 * j) != 0,
    ensures
        string_ends_at(bits, start, m),
        m <= k,
    decreases k - i,
{
    if byte_at(bits, start + 8 * i) == 0 {
        i
    } else {
        lemma_first_string_end(bits, start, i + 1, k)
    }
}

// Wraps bytes into bits because doing this with nom is a very bad idea.
pub struct BitReader {
    pub bytes: BitType,
    // Bit offset, starting from starting of `bytes`.
    offset: usize,
}

impl BitReader {
    /// The bits that the reader reads from.
    pub closed spec fn spec_bits(&self) -> Seq<bool> {
        bits_of(self.bytes)
    }

    /// How many bits have been read.
    pub closed spec fn spec_offset(&self) -> usize {
        self.offset
    }

    /// The reader has not read past its bits.
    pub closed spec fn wf(&self) -> bool {
        &&& self.offset <= bits_of(self.bytes).len()
        &&& bits_of(self.bytes).len() <= max_bits()
    }

    pub fn new(bytes: &[u8]) -> (res: Self)
        requires
            8 * bytes@.len() <= max_bits(),
        ensures
            res.wf(),
            res.spec_bits() == bytes_bits(bytes@),
            res.spec_offset() == 0,
    {
        BitReader { bytes: bv_from_slice(bytes), offset: 0 }
    }

    pub fn read_1_bit(&mut self) -> (res: bool)
        requires
            old(self).wf(),
            old(self).spec_offset() < old(self).spec_bits().len(),
        ensures
            final(self).wf(),
            final(self).spec_bits() == old(self).spec_bits(),
            final(self).spec_offset() == old(self).spec_offset() + 1,
            res == old(self).spec_bits()[old(self).spec_offset() as int],
    {
        let res = bv_get(&self.bytes, self.offset);
        self.offset += 1;
        res
    }

    pub fn read_n_bit(&mut self, n: usize) -> (res: BitType)
        requires
            old(self).wf(),
            old(self).spec_offset() + n <= old(self).spec_bits().len(),
        ensures
            final(self).wf(),
            final(self).spec_bits() == old(self).spec_bits(),
            final(self).spec_offset() == old(self).spec_offset() + n,
            bits_of(res) == old(self).spec_bits().subrange(
                old(self).spec_offset() as int,
                old(self).spec_offset() + n,
            ),
    {
        let range = self.offset + n;
        let res = bv_range(&self.bytes, self.offset, range);
        self.offset += n;
        res
    }

    /// Reads a null-terminated string, its terminator included: the bits up to the first zero
    /// byte at a whole number of bytes from where the reader stands.
    pub fn read_string(&mut self) -> (res: BitType)
        requires
            old(self).wf(),
            exists|k: int| #![trigger byte_at(old(self).spec_bits(), old(self).spec_offset() + 8 * k)]
                0 <= k && old(self).spec_offset() + 8 * k + 8 <= old(self).spec_bits().len()
                && byte_at(old(self).spec_bits(), old(self).spec_offset() + 8 * k) == 0,
        ensures
            final(self).wf(),
            final(self).spec_bits() == old(self).spec_bits(),
            string_ends_at(
                old(self).spec_bits(),
                old(self).spec_offset() as int,
                (final(self).spec_offset() - old(self).spec_offset() - 8) / 8,
            ),
            (final(self).spec_offset() - old(self).spec_offset()) % 8 == 0,
            final(self).spec_offset() >= old(self).spec_offset() + 8,
            bits_of(res) == old(self).spec_bits().subrange(
                old(self).spec_offset() as int,
                final(self).spec_offset() as int,
            ),
    {
        let start = self.offset;
        let ghost bits = bits_of(self.bytes);
        let ghost k0 = choose|k: int| #![trigger byte_at(bits, start + 8 * k)]
            0 <= k && start + 8 * k + 8 <= bits.len() && byte_at(bits, start + 8 * k) == 0;
        let ghost m = lemma_first_string_end(bits, start as int, 0, k0);

        // The second condition is to make sure we are aligned.
        while self.peek_byte() != 0 || (self.peek_byte() == 0 && (self.offset - start) % 8 != 0)
            invariant
                self.wf(),
                bits == bits_of(self.bytes),
                start <= self.offset <= start + 8 * m,
                string_ends_at(bits, start as int, m),
            decreases start + 8 * m - self.offset,
        {
            proof {
                if self.offset == start + 8 * m {
                    assert((self.offset - start) % 8 == 0);
                }
            }
            self.offset += 1;
        }
        proof {
            let k = (self.offset - start) / 8;
            assert(self.offset == start + 8 * k);
            if k < m {
                assert(byte_at(bits, start + 8 * k) != 0);
            }
            assert(k == m);
        }

        // Includes the null terminator.
        self.offset += 8;

        bv_range(&self.bytes, start, self.offset)
    }

    /// Peeks 8 bits and converts to u8.
    fn peek_byte(&self) -> (res: u8)
        requires
            self.wf(),
            self.spec_offset() + 8 <= self.spec_bits().len(),
        ensures
            res == byte_at(self.spec_bits(), self.spec_offset() as int),
    {
        self.peek_n_bits(8).to_u8()
    }

    pub fn peek_n_bits(&self, n: usize) -> (res: BitType)
        requires
            self.wf(),
            self.spec_offset() + n <= self.spec_bits().len(),
        ensures
            bits_of(res) == self.spec_bits().subrange(self.spec_offset() as int, self.spec_offset() + n),
    {
        bv_range(&self.bytes, self.offset, self.offset + n)
    }

    pub fn get_offset(&self) -> (res: usize)
        ensures
            res == self.spec_offset(),
    {
        self.offset
    }

    /// The number of bits left to read.
    pub fn remaining(&self) -> (res: usize)
        requires
            self.wf(),
        ensures
            res == self.spec_bits().len() - self.spec_offset(),
    {
        bv_len(&self.bytes) - self.offset
    }

    /// Returns the number of bits read into bytes.
    pub fn get_consumed_bytes(&self) -> (res: usize)
        requires
            self.wf(),
        ensures
            res == (self.spec_offset() + 7) / 8,
    {
        let current_bit = self.get_offset();
        let modulo = current_bit % 8;
        let remaining_bits = if modulo == 0 { 0 } else { 8 - modulo };
        let consumed_bytes = (current_bit + remaining_bits) / 8;

        consumed_bytes
    }
}

/// The bits of some bytes followed by one more byte are those bytes' bits followed by its own.
pub proof fn lemma_bytes_bits_push(s: Seq<u8>, b: u8)
    ensures
        bytes_bits(s.push(b)) == bytes_bits(s) + byte_bits(b),
{
    let l = s.len() as int;
    assert forall|j: int| 0 <= j < 8 * (l + 1) implies #[trigger] bytes_bits(s.push(b))[j]
        == (bytes_bits(s) + byte_bits(b))[j] by {
        if j < 8 * l {
            assert(j / 8 < l) by (nonlinear_arith)
                requires 0 <= j < 8 * l;
            assert(0 <= j / 8) by (nonlinear_arith)
                requires 0 <= j;
        } else {
            assert(j / 8 == l && j % 8 == j - 8 * l) by (nonlinear_arith)
                requires 8 * l <= j < 8 * (l + 1);
        }
    }
    assert(bytes_bits(s.push(b)) =~= bytes_bits(s) + byte_bits(b));
}

/// The number of mask bytes of a delta that starts at bit `at`: its first three bits.
pub open spec fn delta_mask_count(bits: Seq<bool>, at: int) -> nat {
    bits_value(bits.subrange(at, at + 3))
}

/// Reads the field mask at the front of a delta: three bits of the number of mask bytes, then
/// the mask bytes.
pub fn read_delta_mask(br: &mut BitReader) -> (res: Vec<u8>)
    requires
        old(br).wf(),
        old(br).spec_offset() + 3 <= old(br).spec_bits().len(),
        old(br).spec_offset() + 3 + 8 * delta_mask_count(old(br).spec_bits(), old(br).spec_offset() as int)
            <= old(br).spec_bits().len(),
    ensures
        ({
            let bits = old(br).spec_bits();
            let at = old(br).spec_offset() as int;
            let count = delta_mask_count(bits, at);
            &&& final(br).wf()
            &&& final(br).spec_bits() == bits
            &&& final(br).spec_offset() == at + 3 + 8 * count
            &&& res@.len() == count
            &&& forall|k: int| 0 <= k < count ==> #[trigger] res@[k] == byte_at(bits, at + 3 + 8 * k)
        }),
{
    let ghost bits = br.spec_bits();
    let ghost at = br.spec_offset() as int;
    let mask_byte_count = br.read_n_bit(3).to_u8() as usize;
    let mut mask_byte: Vec<u8> = Vec::new();
    let mut i: usize = 0;
    while i < mask_byte_count
        invariant
            br.wf(),
            br.spec_bits() == bits,
            mask_byte_count == delta_mask_count(bits, at),
            at + 3 + 8 * mask_byte_count <= bits.len(),
            i <= mask_byte_count,
            br.spec_offset() == at + 3 + 8 * i,
            mask_byte@.len() == i,
            forall|k: int| 0 <= k < i ==> #[trigger] mask_byte@[k] == byte_at(bits, at + 3 + 8 * k),
        decreases mask_byte_count - i,
    {
        let b = br.read_n_bit(8).to_u8();
        mask_byte.push(b);
        i = i + 1;
    }
    mask_byte
}

/// Bit `k` of a mask: bit `k % 8` of its byte `k / 8`.
pub open spec fn mask_bit(mask: Seq<u8>, k: int) -> bool {
    bit_of(mask[k / 8], k % 8)
}

/// The indices of the fields that a mask marks as sent, in increasing order: those below both
/// the number of fields and the number of bits of the mask whose bit is set.
pub fn delta_field_indices(mask: &Vec<u8>, field_count: usize) -> (res: Vec<usize>)
    requires
        mask@.len() <= usize::MAX / 8,
    ensures
        ({
            let limit = if field_count < 8 * mask@.len() { field_count as int } else { 8 * mask@.len() as int };
            &&& forall|j: int| 0 <= j < res@.len() ==> #[trigger] res@[j] < limit && mask_bit(mask@, res@[j] as int)
            &&& forall|j1: int, j2: int| 0 <= j1 < j2 < res@.len() ==> res@[j1] < res@[j2]
            &&& forall|k: int| 0 <= k < limit && #[trigger] mask_bit(mask@, k) ==> res@.contains(k as usize)
        }),
{
    let bit_count = 8 * mask.len();
    let limit = if field_count < bit_count { field_count } else { bit_count };
    let mut res: Vec<usize> = Vec::new();
    let mut index: usize = 0;
    while index < limit
        invariant
            limit <= 8 * mask@.len(),
            limit == (if field_count < 8 * mask@.len() { field_count as int } else { 8 * mask@.len() as int }),
            index <= limit,
            forall|j: int| 0 <= j < res@.len() ==> #[trigger] res@[j] < index && mask_bit(mask@, res@[j] as int),
            forall|j1: int, j2: int| 0 <= j1 < j2 < res@.len() ==> res@[j1] < res@[j2],
            forall|k: int| 0 <= k < index && #[trigger] mask_bit(mask@, k) ==> res@.contains(k as usize),
        decreases limit - index,
    {
        let i = index / 8;
        let j = index % 8;
        assert(i < mask@.len()) by (nonlinear_arith)
            requires index < limit, limit <= 8 * mask@.len(), i == index / 8;
        let set = (mask[i] & (1u8 << (j as u8))) != 0;
        let byte = mask[i];
        let jj = j as u8;
        assert(((byte & (1u8 << jj)) != 0) == (((byte >> jj) & 1) == 1)) by (bit_vector)
            requires jj < 8;
        if set {
            let ghost old_res = res@;
            res.push(index);
            assert forall|k: int| 0 <= k < index + 1 && #[trigger] mask_bit(mask@, k) implies res@.contains(
                k as usize,
            ) by {
                if k < index {
                    assert(old_res.contains(k as usize));
                    let w = choose|w: int| 0 <= w < old_res.len() && old_res[w] == k as usize;
                    assert(res@[w] == k as usize);
                } else {
                    assert(res@[res@.len() - 1] == index);
                }
            }
        } else {
            assert forall|k: int| 0 <= k < index + 1 && #[trigger] mask_bit(mask@, k) implies res@.contains(
                k as usize,
            ) by {
                if k == index {
                    assert(mask_bit(mask@, k) == (((byte >> jj) & 1) == 1));
                }
            }
        }
        index = index + 1;
    }
    res
}

/// Word `w` (0 or 1) of the mask of the fields from index `from` on whose flags are set. Field
/// `k` sets bit `k % 32` of word 1 when `k > 31`, and of word 0 otherwise.
pub open spec fn delta_mask_word(dd: Seq<DeltaDecoderS>, w: int, from: nat) -> u32
    decreases dd.len() - from,
{
    if from >= dd.len() {
        0
    } else {
        let rest = delta_mask_word(dd, w, from + 1);
        if dd[from as int].flags != 0 && (if from > 31 { 1int } else { 0int }) == w {
            rest | (1u32 << ((from % 32) as u32))
        } else {
            rest
        }
    }
}

/// The highest index of a field whose flags are set, or -1 when there is none.
pub open spec fn last_flagged(dd: Seq<DeltaDecoderS>) -> int
    decreases dd.len(),
{
    if dd.len() == 0 {
        -1
    } else if dd.last().flags != 0 {
        dd.len() - 1
    } else {
        last_flagged(dd.drop_last())
    }
}

/// The number of mask bytes that follow the count: none for an empty description, else one
/// more than the index of the last flagged field, taken modulo 256, divided by eight.
pub open spec fn delta_mask_len(dd: Seq<DeltaDecoderS>) -> u8 {
    if dd.len() == 0 {
        0
    } else {
        ((last_flagged(dd) % 256) / 8 + 1) as u8
    }
}

/// The two mask words as bytes, little-endian, word 0 first.
pub open spec fn delta_mask_bytes(dd: Seq<DeltaDecoderS>) -> Seq<u8> {
    le_u32(delta_mask_word(dd, 0, 0)) + le_u32(delta_mask_word(dd, 1, 0))
}

/// The last flagged field is the flagged field above which no field is flagged.
proof fn lemma_last_flagged(dd: Seq<DeltaDecoderS>, h: int)
    requires
        -1 <= h < dd.len(),
        h >= 0 ==> dd[h].flags != 0,
        forall|j: int| h < j < dd.len() ==> dd[j].flags == 0,
    ensures
        last_flagged(dd) == h,
    decreases dd.len(),
{
    if dd.len() > 0 && dd.len() - 1 != h {
        lemma_last_flagged(dd.drop_last(), h);
    }
}

/// The first `n` bits of a byte spell the byte modulo two to the `n`.
proof fn lemma_byte_bits_value(b: u8, n: nat)
    requires
        n <= 8,
    ensures
        bits_value(byte_bits(b).take(n as int)) == (b as nat) % pow2(n),
{
    assert forall|k: u8| k < 8 implies ((b >> k) & 1 == 1) == (((b as u32) >> (k as u32)) & 1 == 1) by {
        assert(k < 8 ==> ((b >> k) & 1 == 1) == (((b as u32) >> (k as u32)) & 1 == 1)) by (bit_vector);
    }
    assert(byte_bits(b).take(n as int) =~= u32_bits(b as u32).take(n as int));
    law_u32_range_read_back(b as u32, n);
}

/// Setting bit `c` of a word sets that bit and keeps the others; no bit of zero is set.
proof fn lemma_word_bits(r: u32, c: u32, b: u32)
    by (bit_vector)
    requires
        c < 32,
        b < 32,
    ensures
        (((r | (1u32 << c)) >> b) & 1 == 1) == (((r >> b) & 1 == 1) || b == c),
        ((0u32 >> b) & 1 == 1) == false,
{
}

/// The last flagged field is flagged, and no field after it is.
proof fn lemma_last_flagged_props(dd: Seq<DeltaDecoderS>)
    ensures
        -1 <= last_flagged(dd) < dd.len(),
        last_flagged(dd) >= 0 ==> dd[last_flagged(dd)].flags != 0,
        forall|j: int| last_flagged(dd) < j < dd.len() ==> dd[j].flags == 0,
    decreases dd.len(),
{
    if dd.len() > 0 && dd.last().flags == 0 {
        let d = dd.drop_last();
        lemma_last_flagged_props(d);
        assert forall|j: int| last_flagged(dd) < j < dd.len() implies dd[j].flags == 0 by {
            if j < dd.len() - 1 {
                assert(dd[j] == d[j]);
            }
        }
        if last_flagged(d) >= 0 {
            assert(dd[last_flagged(d)] == d[last_flagged(d)]);
        }
    }
}

/// Bit `b` of word `w` of the mask of the fields from `from` on is set exactly when field
/// `32 * w + b` is among them and flagged, where no field from 64 on is flagged.
proof fn lemma_mask_word_bit(dd: Seq<DeltaDecoderS>, w: int, from: nat, b: u32)
    requires
        b < 32,
        0 <= w <= 1,
        forall|j: int| 64 <= j < dd.len() ==> dd[j].flags == 0,
    ensures
        ((delta_mask_word(dd, w, from) >> b) & 1 == 1) <==> (from <= 32 * w + b < dd.len() && dd[32 * w
            + b].flags != 0),
    decreases dd.len() - from,
{
    lemma_word_bits(0, 0, b);
    if from < dd.len() {
        lemma_mask_word_bit(dd, w, from + 1, b);
        let rest = delta_mask_word(dd, w, from + 1);
        let c = (from % 32) as u32;
        lemma_word_bits(rest, c, b);
        if dd[from as int].flags != 0 && (if from > 31 { 1int } else { 0int }) == w {
            assert(from < 64);
            assert(b == c ==> 32 * w + b == from);
            assert(32 * w + b == from ==> b == c);
        }
    }
}

/// Bit `k` of the two mask words, as bytes, is bit `k % 32` of word `k / 32`.
proof fn lemma_mask_bytes_bit(w0: u32, w1: u32, k: int)
    requires
        0 <= k < 64,
    ensures
        mask_bit(le_u32(w0) + le_u32(w1), k) == if k < 32 {
            (w0 >> (k as u32)) & 1 == 1
        } else {
            (w1 >> ((k - 32) as u32)) & 1 == 1
        },
{
    lemma_le_u32_bits(w0);
    lemma_le_u32_bits(w1);
    let m = le_u32(w0) + le_u32(w1);
    if k < 32 {
        assert(m[k / 8] == le_u32(w0)[k / 8]);
        assert(bytes_bits(le_u32(w0))[k] == u32_bits(w0)[k]);
    } else {
        let t = k - 32;
        assert(t / 8 == k / 8 - 4 && t % 8 == k % 8);
        assert(m[k / 8] == le_u32(w1)[t / 8]);
        assert(bytes_bits(le_u32(w1))[t] == u32_bits(w1)[t]);
    }
}

/// Bytes read back after any bits: the byte that starts `8 * k` bits into the bits of `mask` is
/// `mask[k]`.
proof fn lemma_mask_bytes_read_back(front: Seq<bool>, mask: Seq<u8>)
    ensures
        forall|k: int| 0 <= k < mask.len() ==> byte_at(front + bytes_bits(mask), front.len() + 8 * k)
            == #[trigger] mask[k],
{
    let body = bytes_bits(mask);
    let bits = front + body;
    let at = front.len() as int;
    assert forall|k: int| 0 <= k < mask.len() implies byte_at(bits, at + 8 * k) == #[trigger] mask[k] by {
        assert forall|t: int| 0 <= t < 8 implies #[trigger] bits.subrange(at + 8 * k, at + 8 * k + 8)[t]
            == byte_bits(mask[k])[t] by {
            assert((8 * k + t) / 8 == k && (8 * k + t) % 8 == t) by (nonlinear_arith)
                requires 0 <= t < 8, 0 <= k;
            assert(8 * k + t < 8 * mask.len()) by (nonlinear_arith)
                requires 0 <= t < 8, 0 <= k < mask.len();
            assert(bits[at + 8 * k + t] == body[8 * k + t]);
        }
        assert(8 * k + 8 <= 8 * mask.len()) by (nonlinear_arith)
            requires 0 <= k < mask.len();
        assert(bits.subrange(at + 8 * k, at + 8 * k + 8) =~= byte_bits(mask[k]));
        lemma_byte_bits_value(mask[k], 8);
        lemma2_to64();
        assert(byte_bits(mask[k]).take(8) =~= byte_bits(mask[k]));
    }
}

/// Below the reach of its bytes, the written mask of a description whose flagged fields all
/// come before field 64 has the bit of a field set just when the field is flagged.
proof fn lemma_mask_bits_flagged(dd: Seq<DeltaDecoderS>, len: int)
    requires
        0 <= len <= 8,
        forall|j: int| 64 <= j < dd.len() ==> dd[j].flags == 0,
    ensures
        forall|k: int| 0 <= k < dd.len() && k < 8 * len ==> (#[trigger] mask_bit(
            delta_mask_bytes(dd).take(len),
            k,
        ) <==> dd[k].flags != 0),
{
    let mask = delta_mask_bytes(dd).take(len);
    let w0 = delta_mask_word(dd, 0, 0);
    let w1 = delta_mask_word(dd, 1, 0);
    assert forall|k: int| 0 <= k < dd.len() && k < 8 * len implies (#[trigger] mask_bit(mask, k)
        <==> dd[k].flags != 0) by {
        assert(k / 8 < len) by (nonlinear_arith)
            requires 0 <= k < 8 * len;
        assert(mask[k / 8] == delta_mask_bytes(dd)[k / 8]);
        lemma_mask_bytes_bit(w0, w1, k);
        if k < 32 {
            lemma_mask_word_bit(dd, 0, 0, k as u32);
        } else {
            lemma_mask_word_bit(dd, 1, 0, (k - 32) as u32);
        }
    }
}

/// The field mask that is written for a delta description is read back as it was written, and
/// it marks exactly the flagged fields: a reader that reads the count and the mask bytes after
/// any bits before it gets the count and the bytes, and the bit of each field below the count's
/// reach is set just when the field is flagged, while no field past it is flagged.
///
/// This holds of descriptions whose last flagged field comes before field 56: the count has
/// three bits, so a mask of eight bytes is written with a count of zero.
pub proof fn law_delta_mask_marks_flagged_fields(dd: Seq<DeltaDecoderS>, prefix: Seq<bool>)
    requires
        dd.len() > 0 ==> 0 <= last_flagged(dd) < 56,
    ensures
        ({
            let len = delta_mask_len(dd);
            let mask = delta_mask_bytes(dd).take(len as int);
            let bits = prefix + byte_bits(len).take(3) + bytes_bits(mask);
            let at = prefix.len() as int;
            &&& len <= 7
            &&& delta_mask_count(bits, at) == len
            &&& at + 3 + 8 * len == bits.len()
            &&& forall|k: int| 0 <= k < len ==> byte_at(bits, at + 3 + 8 * k) == #[trigger] mask[k]
            &&& forall|k: int| 0 <= k < dd.len() && k < 8 * len ==> (#[trigger] mask_bit(mask, k)
                <==> dd[k].flags != 0)
            &&& forall|k: int| 8 * len <= k < dd.len() ==> #[trigger] dd[k].flags == 0
        }),
{
    let len = delta_mask_len(dd);
    let mask = delta_mask_bytes(dd).take(len as int);
    let head = byte_bits(len).take(3);
    let front = prefix + head;
    let bits = front + bytes_bits(mask);
    let at = prefix.len() as int;
    lemma_last_flagged_props(dd);
    let h = last_flagged(dd);
    assert(len <= 7);
    assert(mask.len() == len);

    assert(bits.subrange(at, at + 3) =~= head);
    lemma_byte_bits_value(len, 3);
    lemma2_to64();

    lemma_mask_bytes_read_back(front, mask);
    assert forall|k: int| 0 <= k < len implies byte_at(bits, at + 3 + 8 * k) == #[trigger] mask[k] by {
        assert(front.len() + 8 * k == at + 3 + 8 * k);
    }
    lemma_mask_bits_flagged(dd, len as int);
    assert forall|k: int| 8 * len <= k < dd.len() implies #[trigger] dd[k].flags == 0 by {
        assert(h < k);
    }
}

/// Writes the field mask of a delta: three bits of the count of mask bytes, then that many
/// bytes of the mask, in which each field whose flags are set has its bit.
///
/// The fields are counted with an `i32`, so a description of more than `2^31` fields is out of
/// range; and a description whose last flagged field, taken modulo 256, is past the eight mask
/// bytes (or that has no flagged field at all) would index past the mask, so it is left out.
pub fn write_delta_bit_mask(delta_decoder: &DeltaDecoder, bw: &mut BitWriter)
    requires
        old(bw).wf(),
        old(bw).bits().len() + 3 + 64 <= max_bits(),
        delta_decoder@.len() <= 0x8000_0000,
        delta_decoder@.len() == 0 || (0 <= last_flagged(delta_decoder@) && last_flagged(delta_decoder@)
            % 256 < 64),
    ensures
        final(bw).wf(),
        final(bw).bits() == old(bw).bits() + byte_bits(delta_mask_len(delta_decoder@)).take(3)
            + bytes_bits(delta_mask_bytes(delta_decoder@).take(delta_mask_len(delta_decoder@) as int)),
{
    let ghost dd = delta_decoder@;
    let n = delta_decoder.len();
    let mut start_alt: Option<usize> = None;
    let mut word0: u32 = 0;
    let mut word1: u32 = 0;
    let mut data: u8 = 0;

    if n > 0 {
        let mut k = n;
        while k > 0
            invariant
                k <= n,
                n == dd.len(),
                dd == delta_decoder@,
                word0 == delta_mask_word(dd, 0, k as nat),
                word1 == delta_mask_word(dd, 1, k as nat),
                start_alt matches None ==> forall|j: int| k <= j < n ==> dd[j].flags == 0,
                start_alt matches Some(h) ==> k <= h < n && dd[h as int].flags != 0 && forall|j: int|
                    h < j < n ==> dd[j].flags == 0,
            decreases k,
        {
            k = k - 1;
            let curr_flag = delta_decoder[k].flags;
            if curr_flag != 0 {
                if start_alt.is_none() {
                    start_alt = Some(k);
                }
                assert((k & 0x1f) == k % 32 && k % 32 < 32) by (bit_vector);
                let bit = 1u32 << ((k & 0x1f) as u32);
                if k > 0x1f {
                    word1 = word1 | bit;
                } else {
                    word0 = word0 | bit;
                }
            }
        }
        match start_alt {
            Some(h) => {
                proof {
                    lemma_last_flagged(dd, h as int);
                }
                let low = (h % 256) as u8;
                assert(low >> 3 == low / 8) by (bit_vector);
                data = (low >> 3) + 1;
            },
            None => {
                proof {
                    lemma_last_flagged(dd, -1);
                }
            },
        }
    }
    assert(data == delta_mask_len(dd));

    let data_bit = bv_from_element(data);
    let head = bv_range(&data_bit, 0, 3);
    bw.append_slice(&head);

    let mut bytes = ByteWriter::new();
    bytes.append_u32(word0);
    bytes.append_u32(word1);
    assert(bytes.data@ == delta_mask_bytes(dd));

    let ghost mid = bw.bits();
    let mut i: u8 = 0;
    while i < data
        invariant
            i <= data <= 8,
            bytes.data@ == delta_mask_bytes(dd),
            bytes.data@.len() == 8,
            bw.wf(),
            mid.len() + 64 <= max_bits(),
            bw.bits() == mid + bytes_bits(bytes.data@.take(i as int)),
        decreases data - i,
    {
        proof {
            lemma_bytes_bits_push(bytes.data@.take(i as int), bytes.data@[i as int]);
            assert(bytes.data@.take(i as int).push(bytes.data@[i as int]) =~= bytes.data@.take(i + 1));
            assert(bytes_bits(bytes.data@.take(i as int)).len() == 8 * i);
        }
        bw.append_u8(bytes.data[i as usize]);
        assert(bw.bits() =~= mid + bytes_bits(bytes.data@.take(i + 1)));
        i = i + 1;
    }
}

/// How the value of a delta field is encoded, by the first of its type flags that is set.
#[derive(Clone, Copy, Debug, PartialEq, Eq)]
pub enum DeltaFieldKind {
    Byte,
    Short,
    Integer,
    /// A float, or a time window of either size.
    Float,
    Angle,
    String,
}

/// The kind of a delta field with the given flags: byte, short, integer, float (or time
/// window), angle and string are tried in that order; a field with none of them has no kind.
pub open spec fn delta_field_kind(flags: u32) -> Option<DeltaFieldKind> {
    if flags & DeltaType::Byte.spec_bits() != 0 {
        Some(DeltaFieldKind::Byte)
    } else if flags & DeltaType::Short.spec_bits() != 0 {
        Some(DeltaFieldKind::Short)
    } else if flags & DeltaType::Integer.spec_bits() != 0 {
        Some(DeltaFieldKind::Integer)
    } else if flags & DeltaType::Float.spec_bits() != 0 || flags & DeltaType::TimeWindow8.spec_bits() != 0
        || flags & DeltaType::TimeWindowBig.spec_bits() != 0 {
        Some(DeltaFieldKind::Float)
    } else if flags & DeltaType::Angle.spec_bits() != 0 {
        Some(DeltaFieldKind::Angle)
    } else if flags & DeltaType::String.spec_bits() != 0 {
        Some(DeltaFieldKind::String)
    } else {
        None
    }
}

/// A field of this kind and these flags is sent as a sign bit followed by the other bits of its
/// value: a byte, short, integer or float that is flagged signed.
pub open spec fn delta_field_signed(flags: u32) -> bool {
    &&& delta_field_kind(flags) matches Some(k)
    &&& k != DeltaFieldKind::Angle && k != DeltaFieldKind::String
    &&& flags & DeltaType::Signed.spec_bits() != 0
}

/// The number of value bits of a numeric field after its sign bit, if it has one.
pub open spec fn delta_field_width(d: DeltaDecoderS) -> int {
    if delta_field_signed(d.flags) {
        d.bits - 1
    } else {
        d.bits as int
    }
}

/// The kind of a delta field by the flag bits of the protocol: byte (bit `0x1`) before short
/// (`0x2`) before integer (`0x8`); then float (`0x4`) and the time windows of 8 bits (`0x20`) and
/// big (`0x40`) are all read as floats; then angle (`0x10`), then string (`0x80`); a field with
/// none of these has no kind. A field is signed when it carries the top bit and is a byte, short,
/// integer or float.
pub proof fn law_delta_field_kind_bits(flags: u32)
    ensures
        flags & 0x1 != 0 ==> delta_field_kind(flags) == Some(DeltaFieldKind::Byte),
        flags & 0x1 == 0 && flags & 0x2 != 0 ==> delta_field_kind(flags) == Some(DeltaFieldKind::Short),
        flags & 0x1 == 0 && flags & 0x2 == 0 && flags & 0x8 != 0 ==> delta_field_kind(flags) == Some(
            DeltaFieldKind::Integer,
        ),
        flags & 0x1 == 0 && flags & 0x2 == 0 && flags & 0x8 == 0 && (flags & 0x4 != 0 || flags & 0x20
            != 0 || flags & 0x40 != 0) ==> delta_field_kind(flags) == Some(DeltaFieldKind::Float),
        flags & 0x1 == 0 && flags & 0x2 == 0 && flags & 0x8 == 0 && flags & 0x4 == 0 && flags & 0x20 == 0
            && flags & 0x40 == 0 && flags & 0x10 != 0 ==> delta_field_kind(flags) == Some(
            DeltaFieldKind::Angle,
        ),
        flags & 0x1 == 0 && flags & 0x2 == 0 && flags & 0x8 == 0 && flags & 0x4 == 0 && flags & 0x20 == 0
            && flags & 0x40 == 0 && flags & 0x10 == 0 && flags & 0x80 != 0 ==> delta_field_kind(flags)
            == Some(DeltaFieldKind::String),
        flags & 0x1 == 0 && flags & 0x2 == 0 && flags & 0x8 == 0 && flags & 0x4 == 0 && flags & 0x20 == 0
            && flags & 0x40 == 0 && flags & 0x10 == 0 && flags & 0x80 == 0 ==> delta_field_kind(flags)
            is None,
        delta_field_signed(flags) <==> flags & 0x8000_0000 != 0 && (flags & 0x1 != 0 || flags & 0x2 != 0
            || flags & 0x8 != 0 || flags & 0x4 != 0 || flags & 0x20 != 0 || flags & 0x40 != 0),
{
}

/// The kind of a delta field with the given flags.
pub fn delta_field_kind_of(flags: u32) -> (res: Option<DeltaFieldKind>)
    ensures
        res == delta_field_kind(flags),
{
    if check_flag(flags, DeltaType::Byte) {
        Some(DeltaFieldKind::Byte)
    } else if check_flag(flags, DeltaType::Short) {
        Some(DeltaFieldKind::Short)
    } else if check_flag(flags, DeltaType::Integer) {
        Some(DeltaFieldKind::Integer)
    } else if check_flag(flags, DeltaType::Float) || check_flag(flags, DeltaType::TimeWindow8)
        || check_flag(flags, DeltaType::TimeWindowBig) {
        Some(DeltaFieldKind::Float)
    } else if check_flag(flags, DeltaType::Angle) {
        Some(DeltaFieldKind::Angle)
    } else if check_flag(flags, DeltaType::String) {
        Some(DeltaFieldKind::String)
    } else {
        None
    }
}

/// The bits of one delta field as they are sent, before they are taken as a number or scaled.
pub struct DeltaFieldRaw {
    /// The sign bit of a signed field (set for a negative value), and nothing for the others.
    pub sign: Option<bool>,
    /// The value bits after the sign bit; for a string, its bytes up to and with the
    /// terminator.
    pub bits: BitType,
}

/// Reads the bits of one delta field: for a number, a sign bit when the field is signed and
/// then the rest of its `bits` bits; for a string, the bytes up to the first zero byte.
pub fn read_delta_field_raw(description: &DeltaDecoderS, br: &mut BitReader) -> (res: DeltaFieldRaw)
    requires
        old(br).wf(),
        delta_field_kind(description.flags) is Some,
        delta_field_kind(description.flags) != Some(DeltaFieldKind::String) ==> {
            &&& delta_field_signed(description.flags) ==> description.bits >= 1
            &&& old(br).spec_offset() + description.bits <= old(br).spec_bits().len()
        },
        delta_field_kind(description.flags) == Some(DeltaFieldKind::String) ==> exists|k: int|
            #![trigger byte_at(old(br).spec_bits(), old(br).spec_offset() + 8 * k)]
            0 <= k && old(br).spec_offset() + 8 * k + 8 <= old(br).spec_bits().len() && byte_at(
                old(br).spec_bits(),
                old(br).spec_offset() + 8 * k,
            ) == 0,
    ensures
        final(br).wf(),
        final(br).spec_bits() == old(br).spec_bits(),
        ({
            let bits = old(br).spec_bits();
            let at = old(br).spec_offset() as int;
            let end = final(br).spec_offset() as int;
            if delta_field_kind(description.flags) == Some(DeltaFieldKind::String) {
                &&& res.sign is None
                &&& string_ends_at(bits, at, (end - at - 8) / 8)
                &&& (end - at) % 8 == 0
                &&& end >= at + 8
                &&& bits_of(res.bits) == bits.subrange(at, end)
            } else if delta_field_signed(description.flags) {
                &&& end == at + description.bits
                &&& res.sign == Some(bits[at])
                &&& bits_of(res.bits) == bits.subrange(at + 1, end)
            } else {
                &&& end == at + description.bits
                &&& res.sign is None
                &&& bits_of(res.bits) == bits.subrange(at, end)
            }
        }),
{
    let kind = delta_field_kind_of(description.flags);
    let is_signed = check_flag(description.flags, DeltaType::Signed);
    match kind {
        Some(DeltaFieldKind::String) => DeltaFieldRaw { sign: None, bits: br.read_string() },
        Some(DeltaFieldKind::Angle) => DeltaFieldRaw { sign: None, bits: br.read_n_bit(description.bits as usize) },
        _ => {
            if is_signed {
                let sign = br.read_1_bit();
                let value = br.read_n_bit((description.bits - 1) as usize);
                DeltaFieldRaw { sign: Some(sign), bits: value }
            } else {
                DeltaFieldRaw { sign: None, bits: br.read_n_bit(description.bits as usize) }
            }
        },
    }
}

/// Writes the bits of one numeric delta field: its sign bit when the field is signed, then the
/// low bits of `magnitude`, as many as the field's width.
pub fn write_delta_number_raw(description: &DeltaDecoderS, negative: bool, magnitude: u32, bw: &mut BitWriter)
    requires
        old(bw).wf(),
        delta_field_kind(description.flags) is Some,
        delta_field_kind(description.flags) != Some(DeltaFieldKind::String),
        delta_field_signed(description.flags) ==> description.bits >= 1,
        delta_field_width(*description) <= 32,
        old(bw).bits().len() + 33 <= max_bits(),
    ensures
        final(bw).wf(),
        final(bw).bits() == old(bw).bits() + (if delta_field_signed(description.flags) {
            seq![negative]
        } else {
            Seq::empty()
        }) + u32_bits(magnitude).take(delta_field_width(*description)),
{
    let kind = delta_field_kind_of(description.flags);
    let is_signed = match kind {
        Some(DeltaFieldKind::Angle) => false,
        _ => check_flag(description.flags, DeltaType::Signed),
    };
    if is_signed {
        bw.append_bit(negative);
        bw.append_u32_range(magnitude, description.bits - 1);
    } else {
        bw.append_u32_range(magnitude, description.bits);
        assert(old(bw).bits() + Seq::<bool>::empty() =~= old(bw).bits());
    }
}

/// Writes the bytes of a string delta field, each least significant bit first.
pub fn write_delta_string_raw(value: &[u8], bw: &mut BitWriter)
    requires
        old(bw).wf(),
        old(bw).bits().len() + 8 * value@.len() <= max_bits(),
    ensures
        final(bw).wf(),
        final(bw).bits() == old(bw).bits() + bytes_bits(value@),
{
    let ghost front = bw.bits();
    let mut k: usize = 0;
    while k < value.len()
        invariant
            k <= value@.len(),
            bw.wf(),
            front.len() + 8 * value@.len() <= max_bits(),
            bw.bits() == front + bytes_bits(value@.take(k as int)),
        decreases value@.len() - k,
    {
        proof {
            lemma_bytes_bits_push(value@.take(k as int), value@[k as int]);
            assert(value@.take(k as int).push(value@[k as int]) =~= value@.take(k + 1));
            assert(8 * k + 8 <= 8 * value@.len());
        }
        bw.append_u8(value[k]);
        assert(bw.bits() =~= front + bytes_bits(value@.take(k + 1)));
        k = k + 1;
    }
    assert(value@.take(k as int) =~= value@);
}

/// The bits of a numeric delta field read back as they were written: a reader that stands where
/// the writer started, whatever follows, reads the sign bit that was written (for a signed
/// field) and then value bits that spell the magnitude modulo two to the field's width.
pub proof fn law_delta_number_read_back(
    description: DeltaDecoderS,
    negative: bool,
    magnitude: u32,
    prefix: Seq<bool>,
    rest: Seq<bool>,
)
    requires
        delta_field_kind(description.flags) is Some,
        delta_field_kind(description.flags) != Some(DeltaFieldKind::String),
        delta_field_signed(description.flags) ==> description.bits >= 1,
        delta_field_width(description) <= 32,
    ensures
        ({
            let signed = delta_field_signed(description.flags);
            let w = delta_field_width(description);
            let bits = prefix + (if signed { seq![negative] } else { Seq::empty() }) + u32_bits(magnitude).take(w)
                + rest;
            let at = prefix.len() as int;
            let s: int = if signed { 1 } else { 0 };
            &&& at + description.bits <= bits.len()
            &&& signed ==> bits[at] == negative
            &&& bits.subrange(at + s, at + description.bits) == u32_bits(magnitude).take(w)
            &&& bits_value(bits.subrange(at + s, at + description.bits)) == (magnitude as nat) % pow2(
                w as nat,
            )
        }),
{
    let signed = delta_field_signed(description.flags);
    let w = delta_field_width(description);
    let head: Seq<bool> = if signed { seq![negative] } else { Seq::empty() };
    let v = u32_bits(magnitude).take(w);
    let bits = prefix + head + v + rest;
    let at = prefix.len() as int;
    let s: int = if signed { 1 } else { 0 };
    assert(bits.subrange(at + s, at + description.bits) =~= v);
    law_u32_range_read_back(magnitude, w as nat);
}

/// The decoder that reads the delta descriptions themselves: the fields of
/// `delta_description_t`, in the order in which they are sent.
pub open spec fn delta_description_fields() -> Seq<(Seq<u8>, u32, u32, u32)> {
    seq![
        (seq![102u8, 108, 97, 103, 115], 32u32, 0x3f80_0000u32, DeltaType::Integer.spec_bits()),
        (seq![110u8, 97, 109, 101], 8u32, 0x3f80_0000u32, DeltaType::String.spec_bits()),
        (seq![111u8, 102, 102, 115, 101, 116], 16u32, 0x3f80_0000u32, DeltaType::Integer.spec_bits()),
        (seq![115u8, 105, 122, 101], 8u32, 0x3f80_0000u32, DeltaType::Integer.spec_bits()),
        (seq![98u8, 105, 116, 115], 8u32, 0x3f80_0000u32, DeltaType::Integer.spec_bits()),
        (seq![100u8, 105, 118, 105, 115, 111, 114], 32u32, 0x457a_0000u32, DeltaType::Float.spec_bits()),
        (seq![112u8, 114, 101, 77, 117, 108, 116, 105, 112, 108, 105, 101, 114], 32u32, 0x457a_0000u32,
            DeltaType::Float.spec_bits()),
    ]
}

/// The decoder of `delta_description_t` reads, in order: `flags` (a 32-bit integer), `name` (a
/// string), `offset` (a 16-bit integer), `size` and `bits` (8-bit integers), `divisor` and
/// `preMultiplier` (32-bit floats divided by 4000.0); the other divisors are 1.0.
pub proof fn law_delta_description_fields()
    ensures
        delta_description_fields().len() == 7,
        delta_description_fields()[0] == (seq![102u8, 108, 97, 103, 115], 32u32, 0x3f80_0000u32, 8u32),
        delta_description_fields()[1] == (seq![110u8, 97, 109, 101], 8u32, 0x3f80_0000u32, 0x80u32),
        delta_description_fields()[2] == (seq![111u8, 102, 102, 115, 101, 116], 16u32, 0x3f80_0000u32, 8u32),
        delta_description_fields()[3] == (seq![115u8, 105, 122, 101], 8u32, 0x3f80_0000u32, 8u32),
        delta_description_fields()[4] == (seq![98u8, 105, 116, 115], 8u32, 0x3f80_0000u32, 8u32),
        delta_description_fields()[5] == (seq![100u8, 105, 118, 105, 115, 111, 114], 32u32, 0x457a_0000u32,
            4u32),
        delta_description_fields()[6] == (seq![112u8, 114, 101, 77, 117, 108, 116, 105, 112, 108, 105, 101,
            114], 32u32, 0x457a_0000u32, 4u32),
{
}

/// One field of a delta description, from its name, bit count, divisor bits and flags.
fn delta_field(name: Vec<u8>, bits: u32, divisor: u32, flags: DeltaType) -> (res: DeltaDecoderS)
    ensures
        res.name@ == name@,
        res.bits == bits,
        res.divisor == divisor,
        res.flags == flags.spec_bits(),
        !res.should_write,
{
    DeltaDecoderS { name, bits, divisor, flags: flags.bits(), should_write: false }
}

/// The decoder of `delta_description_t`, which every demo uses before it has read any delta
/// description: `flags`, `name`, `offset`, `size`, `bits`, `divisor` and `preMultiplier`. The
/// two floats have a divisor of 4000.0 (bits `0x457a0000`), the others of 1.0 (bits
/// `0x3f800000`).
pub fn delta_description_decoder() -> (res: DeltaDecoder)
    ensures
        res@.len() == delta_description_fields().len(),
        forall|k: int| 0 <= k < res@.len() ==> {
            let f = #[trigger] delta_description_fields()[k];
            &&& res@[k].name@ == f.0
            &&& res@[k].bits == f.1
            &&& res@[k].divisor == f.2
            &&& res@[k].flags == f.3
            &&& !res@[k].should_write
        },
{
    // "flags", "name", "offset", "size", "bits", "divisor", "preMultiplier"
    let e1 = delta_field(vec![102u8, 108, 97, 103, 115], 32, 0x3f80_0000, DeltaType::Integer);
    let e2 = delta_field(vec![110u8, 97, 109, 101], 8, 0x3f80_0000, DeltaType::String);
    let e3 = delta_field(vec![111u8, 102, 102, 115, 101, 116], 16, 0x3f80_0000, DeltaType::Integer);
    let e4 = delta_field(vec![115u8, 105, 122, 101], 8, 0x3f80_0000, DeltaType::Integer);
    let e5 = delta_field(vec![98u8, 105, 116, 115], 8, 0x3f80_0000, DeltaType::Integer);
    let e6 = delta_field(vec![100u8, 105, 118, 105, 115, 111, 114], 32, 0x457a_0000, DeltaType::Float);
    let e7 = delta_field(
        vec![112u8, 114, 101, 77, 117, 108, 116, 105, 112, 108, 105, 101, 114],
        32,
        0x457a_0000,
        DeltaType::Float,
    );

    let res = vec![e1, e2, e3, e4, e5, e6, e7];
    assert forall|k: int| 0 <= k < res@.len() implies {
        let f = #[trigger] delta_description_fields()[k];
        &&& res@[k].name@ == f.0
        &&& res@[k].bits == f.1
        &&& res@[k].divisor == f.2
        &&& res@[k].flags == f.3
        &&& !res@[k].should_write
    } by {
        if k == 0 {
            assert(res@[0].name@ =~= seq![102u8, 108, 97, 103, 115]);
        } else if k == 1 {
            assert(res@[1].name@ =~= seq![110u8, 97, 109, 101]);
        } else if k == 2 {
            assert(res@[2].name@ =~= seq![111u8, 102, 102, 115, 101, 116]);
        } else if k == 3 {
            assert(res@[3].name@ =~= seq![115u8, 105, 122, 101]);
        } else if k == 4 {
            assert(res@[4].name@ =~= seq![98u8, 105, 116, 115]);
        } else if k == 5 {
            assert(res@[5].name@ =~= seq![100u8, 105, 118, 105, 115, 111, 114]);
        } else {
            assert(res@[6].name@ =~= seq![112u8, 114, 101, 77, 117, 108, 116, 105, 112, 108, 105, 101, 114]);
        }
    }
    res
}

/// `d` is the decoder of `delta_description_t`: its fields are `delta_description_fields()`.
pub open spec fn is_delta_description_decoder(d: Seq<DeltaDecoderS>) -> bool {
    &&& d.len() == delta_description_fields().len()
    &&& forall|k: int| 0 <= k < d.len() ==> {
        let f = #[trigger] delta_description_fields()[k];
        &&& d[k].name@ == f.0
        &&& d[k].bits == f.1
        &&& d[k].divisor == f.2
        &&& d[k].flags == f.3
        &&& !d[k].should_write
    }
}

/// The table of delta decoders that a demo starts with: one entry, the decoder of
/// `delta_description_t` under the name `"delta_description_t\0"`.
pub fn get_initial_delta() -> (res: DeltaDecoderTable)
    ensures
        res@.len() == 1,
        res@.dom() == set!["delta_description_t\0"@],
        is_delta_description_decoder(res@["delta_description_t\0"@]@),
{
    let mut res: DeltaDecoderTable = DeltaDecoderTable::new();

    let default_decoder = delta_description_decoder();
    let ghost decoder = default_decoder;
    let key = String::from_str("delta_description_t\0");

    res.insert(key, default_decoder);

    proof {
        let k = "delta_description_t\0"@;
        assert(res@ == Map::<Seq<char>, DeltaDecoder>::empty().insert(k, decoder));
        assert(res@.dom() =~= set![k]);
        assert(res@.dom().len() == 1);
    }
    res
}

/// The description of the field named `key`, when it is the first of the decoder; there is no
/// search past the first field.
pub fn find_decoder<'a>(key: &'a [u8], delta_decoder: &'a DeltaDecoder) -> (res: Option<&'a DeltaDecoderS>)
    ensures
        res is Some <==> delta_decoder@.len() > 0 && delta_decoder@[0].name@ == key@,
        res matches Some(d) ==> *d == delta_decoder@[0],
{
    if delta_decoder.len() == 0 {
        return None;
    }
    let first = &delta_decoder[0];
    if key.len() != first.name.len() {
        return None;
    }
    let mut k: usize = 0;
    while k < key.len()
        invariant
            k <= key@.len(),
            key@.len() == first.name@.len(),
            *first == delta_decoder@[0],
            forall|j: int| 0 <= j < k ==> key@[j] == first.name@[j],
        decreases key@.len() - k,
    {
        if first.name[k] != key[k] {
            assert(first.name@[k as int] != key@[k as int]);
            return None;
        }
        k = k + 1;
    }
    assert(first.name@ =~= key@);
    Some(first)
}

} // verus!
