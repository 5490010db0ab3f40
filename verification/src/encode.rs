//! Little-endian encoding onto a growing byte stream, and bitfield packing.

use vstd::prelude::*;
use crate::bitfield::{set_bit, value_bit, write_bits};
use crate::decode::{
    aligned_up, i32_from_u32, i8_from_u8, le_value, u16_from_le, u32_from_le, u64_from_le,
};

verus! {

/// Base-256 digit `i` of `x`, for `i` from 0 (lowest) to 3.
#[verifier::opaque]
pub open spec fn le_byte(x: int, i: int) -> u8 {
    if i == 0 {
        (x % 0x100) as u8
    } else if i == 1 {
        ((x / 0x100) % 0x100) as u8
    } else if i == 2 {
        ((x / 0x1_0000) % 0x100) as u8
    } else {
        ((x / 0x100_0000) % 0x100) as u8
    }
}

/// The two bytes that spell `x` in little-endian order.
pub open spec fn u16_to_le(x: int) -> Seq<u8> {
    seq![le_byte(x, 0), le_byte(x, 1)]
}

/// The four bytes that spell `x` in little-endian order.
pub open spec fn u32_to_le(x: int) -> Seq<u8> {
    seq![le_byte(x, 0), le_byte(x, 1), le_byte(x, 2), le_byte(x, 3)]
}

/// The eight bytes that spell `x` in little-endian order.
pub open spec fn u64_to_le(x: int) -> Seq<u8> {
    u32_to_le(x % 0x1_0000_0000) + u32_to_le(x / 0x1_0000_0000)
}

/// The byte that spells the signed number `x` (two's complement).
pub open spec fn u8_from_i8(x: int) -> u8 {
    (if x >= 0 { x } else { x + 0x100 }) as u8
}

/// The word that spells the signed number `x` (two's complement).
pub open spec fn u32_from_i32(x: int) -> int {
    if x >= 0 { x } else { x + 0x1_0000_0000 }
}

/// `n` zero bytes.
pub open spec fn zeros(n: int) -> Seq<u8> {
    Seq::new(n as nat, |i: int| 0u8)
}

/// How many zero bytes bring a stream of length `len` to a multiple of `n`.
pub open spec fn padding_to(len: int, n: int) -> int {
    aligned_up(len, n) - len
}

/// Decoding a `u16` undoes encoding it.
pub proof fn lemma_u16_round_trip(x: u16)
    ensures
        u16_to_le(x as int).len() == 2,
        u16_from_le(u16_to_le(x as int)) == x,
{
    reveal(le_byte);
    reveal(le_value);
    assert(x == (x % 0x100) + 0x100 * ((x / 0x100) % 0x100)) by (bit_vector);
}

/// Decoding a `u32` undoes encoding it.
pub proof fn lemma_u32_round_trip(x: u32)
    ensures
        u32_to_le(x as int).len() == 4,
        u32_from_le(u32_to_le(x as int)) == x,
{
    reveal(le_byte);
    reveal(le_value);
    assert(x == (x % 0x100) + 0x100 * ((x / 0x100) % 0x100) + 0x1_0000 * ((x / 0x1_0000) % 0x100)
        + 0x100_0000 * ((x / 0x100_0000) % 0x100)) by (bit_vector);
}

/// Decoding a `u64` undoes encoding it.
pub proof fn lemma_u64_round_trip(x: u64)
    ensures
        u64_to_le(x as int).len() == 8,
        u64_from_le(u64_to_le(x as int)) == x,
{
    let lo: u32 = (x % 0x1_0000_0000) as u32;
    let hi: u32 = (x / 0x1_0000_0000) as u32;
    lemma_u32_round_trip(lo);
    lemma_u32_round_trip(hi);
    let s = u64_to_le(x as int);
    assert(s.subrange(0, 4) =~= u32_to_le(lo as int));
    assert(s.subrange(4, 8) =~= u32_to_le(hi as int));
}

/// The bytes of a decoded `u32` are the bytes that were decoded.
pub proof fn lemma_u32_bytes_of_value(s: Seq<u8>)
    requires
        s.len() == 4,
    ensures
        0 <= u32_from_le(s) <= u32::MAX,
        u32_to_le(u32_from_le(s)) == s,
{
    reveal(le_byte);
    reveal(le_value);
    let (a, b, c, d) = (s[0], s[1], s[2], s[3]);
    let x: u32 = (a as int + 0x100 * (b as int) + 0x1_0000 * (c as int) + 0x100_0000 * (d as int)) as u32;
    assert(x == a as u32 + 0x100 * (b as u32) + 0x1_0000 * (c as u32) + 0x100_0000 * (d as u32));
    assert(x == a as u32 + 0x100 * (b as u32) + 0x1_0000 * (c as u32) + 0x100_0000 * (d as u32) ==> {
        &&& x % 0x100 == a as u32
        &&& (x / 0x100) % 0x100 == b as u32
        &&& (x / 0x1_0000) % 0x100 == c as u32
        &&& (x / 0x100_0000) % 0x100 == d as u32
    }) by (bit_vector);
    assert(u32_to_le(u32_from_le(s)) =~= s);
}

/// The bytes of a decoded `u16` are the bytes that were decoded.
pub proof fn lemma_u16_bytes_of_value(s: Seq<u8>)
    requires
        s.len() == 2,
    ensures
        0 <= u16_from_le(s) <= u16::MAX,
        u16_to_le(u16_from_le(s)) == s,
{
    reveal(le_byte);
    reveal(le_value);
    let (a, b) = (s[0], s[1]);
    let x: u32 = (a as int + 0x100 * (b as int)) as u32;
    assert(x == a as u32 + 0x100 * (b as u32));
    assert(x == a as u32 + 0x100 * (b as u32) ==> {
        &&& x % 0x100 == a as u32
        &&& (x / 0x100) % 0x100 == b as u32
        &&& x <= 0xffff
    }) by (bit_vector);
    assert(u16_to_le(u16_from_le(s)) =~= s);
}

/// The bytes of a decoded `u64` are the bytes that were decoded.
pub proof fn lemma_u64_bytes_of_value(s: Seq<u8>)
    requires
        s.len() == 8,
    ensures
        0 <= u64_from_le(s) <= u64::MAX,
        u64_to_le(u64_from_le(s)) == s,
{
    let lo = s.subrange(0, 4);
    let hi = s.subrange(4, 8);
    lemma_u32_bytes_of_value(lo);
    lemma_u32_bytes_of_value(hi);
    let l = u32_from_le(lo);
    let h = u32_from_le(hi);
    let x = l + 0x1_0000_0000 * h;
    assert(x % 0x1_0000_0000 == l && x / 0x1_0000_0000 == h) by (nonlinear_arith)
        requires
            x == l + 0x1_0000_0000 * h,
            0 <= l < 0x1_0000_0000,
            0 <= h,
    ;
    assert(u64_to_le(x) =~= lo + hi);
    assert(lo + hi =~= s);
}

/// The unsigned and signed readings of a byte and of a word are inverse.
pub proof fn lemma_unsigned_round_trip(a: u8, b: u32)
    ensures
        u8_from_i8(i8_from_u8(a)) == a,
        u32_from_i32(i32_from_u32(b as int)) == b,
        i8::MIN <= i8_from_u8(a) <= i8::MAX,
        i32::MIN <= i32_from_u32(b as int) <= i32::MAX,
{
}

/// The signed and unsigned readings of a byte and of a word are inverse.
pub proof fn lemma_signed_round_trip(a: i8, b: i32)
    ensures
        i8_from_u8(u8_from_i8(a as int)) == a,
        i32_from_u32(u32_from_i32(b as int)) == b,
        0 <= u32_from_i32(b as int) <= u32::MAX,
{
}

/// A byte stream that only grows: what is written is appended.
#[derive(Debug, Clone, PartialEq, Eq)]
pub struct Writer {
    pub buf: Vec<u8>,
}

impl View for Writer {
    type V = Seq<u8>;

    open spec fn view(&self) -> Seq<u8> {
        self.buf@
    }
}

impl Writer {
    /// An empty stream.
    pub fn new() -> (w: Writer)
        ensures
            w@ == Seq::<u8>::empty(),
    {
        Writer { buf: Vec::new() }
    }

    /// The number of bytes written so far, which is where the next one goes.
    pub fn position(&self) -> (p: usize)
        ensures
            p == self@.len(),
    {
        self.buf.len()
    }

    /// Appends `bytes`.
    pub fn write_all(&mut self, bytes: &[u8])
        ensures
            final(self)@ == old(self)@ + bytes@,
    {
        let mut i: usize = 0;
        while i < bytes.len()
            invariant
                i <= bytes@.len(),
                self@ == old(self)@ + bytes@.subrange(0, i as int),
            decreases bytes@.len() - i,
        {
            self.buf.push(bytes[i]);
            i = i + 1;
            assert(self@ =~= old(self)@ + bytes@.subrange(0, i as int));
        }
        assert(bytes@.subrange(0, i as int) =~= bytes@);
    }

    /// Appends `n` zero bytes.
    pub fn write_zeros(&mut self, n: usize)
        ensures
            final(self)@ == old(self)@ + zeros(n as int),
    {
        let mut i: usize = 0;
        while i < n
            invariant
                i <= n,
                self@ == old(self)@ + zeros(i as int),
            decreases n - i,
        {
            self.buf.push(0u8);
            i = i + 1;
            assert(self@ =~= old(self)@ + zeros(i as int));
        }
    }

    /// Hands out the bytes written.
    pub fn into_bytes(self) -> (out: Vec<u8>)
        ensures
            out@ == self@,
    {
        self.buf
    }
}

/// A vector of `n` zero bytes.
pub fn zero_bytes(n: usize) -> (v: Vec<u8>)
    ensures
        v@ == zeros(n as int),
{
    let mut w = Writer::new();
    w.write_zeros(n);
    assert(w@ =~= zeros(n as int));
    w.into_bytes()
}

/// Appends one byte.
pub fn encode_u8(w: &mut Writer, value: u8)
    ensures
        final(w)@ == old(w)@.push(value),
{
    w.buf.push(value);
}

/// Appends a signed byte.
pub fn encode_i8(w: &mut Writer, value: i8)
    ensures
        final(w)@ == old(w)@.push(u8_from_i8(value as int)),
{
    let b: u8 = if value >= 0 { value as u8 } else { (value as i16 + 0x100) as u8 };
    w.buf.push(b);
}

/// Appends a `u16`, low byte first.
pub fn encode_u16(w: &mut Writer, value: u16)
    ensures
        final(w)@ == old(w)@ + u16_to_le(value as int),
{
    w.buf.push((value % 0x100) as u8);
    w.buf.push(((value / 0x100) % 0x100) as u8);
    proof {
        reveal(le_byte);
    }
    assert(w@ =~= old(w)@ + u16_to_le(value as int));
}

/// Appends an `i16`, low byte first.
pub fn encode_i16(w: &mut Writer, value: i16)
    ensures
        final(w)@ == old(w)@ + u16_to_le(if value >= 0 { value as int } else { value + 0x1_0000 }),
{
    let x: u16 = if value >= 0 { value as u16 } else { (value as i32 + 0x1_0000) as u16 };
    encode_u16(w, x);
}

/// Appends a `u32`, low byte first.
pub fn encode_u32(w: &mut Writer, value: u32)
    ensures
        final(w)@ == old(w)@ + u32_to_le(value as int),
{
    w.buf.push((value % 0x100) as u8);
    w.buf.push(((value / 0x100) % 0x100) as u8);
    w.buf.push(((value / 0x1_0000) % 0x100) as u8);
    w.buf.push(((value / 0x100_0000) % 0x100) as u8);
    proof {
        reveal(le_byte);
    }
    assert(w@ =~= old(w)@ + u32_to_le(value as int));
}

/// Appends an `i32`, low byte first.
pub fn encode_i32(w: &mut Writer, value: i32)
    ensures
        final(w)@ == old(w)@ + u32_to_le(u32_from_i32(value as int)),
{
    let x: u32 = if value >= 0 { value as u32 } else { (value as i64 + 0x1_0000_0000) as u32 };
    encode_u32(w, x);
}

/// Appends a `u64`, low byte first.
pub fn encode_u64(w: &mut Writer, value: u64)
    ensures
        final(w)@ == old(w)@ + u64_to_le(value as int),
{
    encode_u32(w, (value % 0x1_0000_0000) as u32);
    encode_u32(w, (value / 0x1_0000_0000) as u32);
    assert(w@ =~= old(w)@ + u64_to_le(value as int));
}

/// Stores the low `num_bits` binary digits of `value` in the field that
/// starts at bit `start_bit` of `bits`; all other bits stay as they are.
pub fn write_bitfield(bits: &mut Vec<u8>, start_bit: usize, num_bits: usize, value: u32)
    requires
        num_bits <= 32,
        start_bit + num_bits <= 8 * old(bits)@.len(),
    ensures
        final(bits)@ == write_bits(old(bits)@, start_bit as int, num_bits as nat, value),
        final(bits)@.len() == old(bits)@.len(),
{
    let mut i: usize = 0;
    while i < num_bits
        invariant
            i <= num_bits <= 32,
            bits@.len() == old(bits)@.len(),
            start_bit + num_bits <= 8 * bits@.len(),
            bits@ == write_bits(old(bits)@, start_bit as int, i as nat, value),
        decreases num_bits - i,
    {
        let ghost k: int = start_bit + i;
        let at: usize = start_bit / 8 + (start_bit % 8 + i) / 8;
        let shift: u8 = ((start_bit % 8 + i) % 8) as u8;
        assert(at == k / 8 && shift == k % 8);
        let byte: u8 = bits[at];
        let m: u8 = 1u8 << shift;
        let on: bool = (value >> (i as u32)) & 1u32 == 1u32;
        let updated: u8 = if on { byte | m } else { byte & !m };
        bits.set(at, updated);
        assert(bits@ =~= set_bit(write_bits(old(bits)@, start_bit as int, i as nat, value), k, value_bit(value, i as int)));
        i = i + 1;
    }
}

/// Appends zero bytes until the length is a multiple of `alignment`.
pub fn align_writer(w: &mut Writer, alignment: usize)
    requires
        alignment > 0,
    ensures
        final(w)@ == old(w)@ + zeros(padding_to(old(w)@.len() as int, alignment as int)),
        (final(w)@.len() as int) % (alignment as int) == 0,
{
    let len: usize = w.buf.len();
    let rem: usize = len % alignment;
    if rem != 0 {
        w.write_zeros(alignment - rem);
        assert((len + (alignment - rem)) % (alignment as int) == 0) by (nonlinear_arith)
            requires
                rem == (len as int) % (alignment as int),
                alignment > 0,
                rem != 0,
        ;
    } else {
        assert(w@ =~= old(w)@ + zeros(0));
    }
}

/// How far a number is from the two numbers whose encoding is one byte
/// of all zeros or all ones: `x` for `x >= 0`, `-x - 1` below.
pub open spec fn sleb_magnitude(x: int) -> nat {
    (if x >= 0 { x } else { -x - 1 }) as nat
}

/// The signed LEB128 encoding of `x`: seven bits at a time, lowest first,
/// each byte but the last with its high bit set. The encoding ends with the
/// first byte whose bit 6 is the sign of what is left.
pub open spec fn sleb128(x: int) -> Seq<u8>
    decreases sleb_magnitude(x),
{
    let byte = x % 128;
    let rest = x / 128;
    if (rest == 0 && byte < 64) || (rest == -1 && byte >= 64) {
        seq![byte as u8]
    } else {
        seq![(byte + 128) as u8] + sleb128(rest)
    }
}

/// Appends the signed LEB128 encoding of `value`.
pub fn encode_sleb128(w: &mut Writer, value: i64)
    ensures
        final(w)@ == old(w)@ + sleb128(value as int),
{
    let mut val: i64 = value;
    let ghost mut done: Seq<u8> = Seq::empty();
    assert(w@ =~= old(w)@ + done);
    loop
        invariant
            w@ == old(w)@ + done,
            done + sleb128(val as int) == sleb128(value as int),
        decreases sleb_magnitude(val as int),
    {
        // The floor of `val / 128` and what is left over, without dividing a negative number.
        let (rest, byte): (i64, u8) = if val >= 0 {
            (val / 128, (val % 128) as u8)
        } else {
            let m: i64 = -(val + 1);
            (-(m / 128) - 1, (127 - m % 128) as u8)
        };
        assert(rest == (val as int) / 128 && byte == (val as int) % 128);
        if (rest == 0 && byte < 64) || (rest == -1 && byte >= 64) {
            encode_u8(w, byte);
            proof {
                assert(w@ =~= old(w)@ + (done + seq![byte]));
            }
            return;
        }
        assert(sleb_magnitude(rest as int) < sleb_magnitude(val as int));
        encode_u8(w, byte + 128);
        proof {
            let first = seq![(byte + 128) as u8];
            assert((done + first) + sleb128(rest as int) =~= done + (first + sleb128(rest as int)));
            done = done + first;
            assert(w@ =~= old(w)@ + done);
        }
        val = rest;
    }
}

} // verus!
