//! Little-endian decoding from a seekable byte source, and bitfield extraction.

use vstd::prelude::*;
use crate::bitfield::bitfield_value;
use crate::error::HermesError;

verus! {

/// The number whose base-256 digits are `b0` (lowest) to `b3`.
#[verifier::opaque]
pub open spec fn le_value(b0: u8, b1: u8, b2: u8, b3: u8) -> int {
    b0 as int + 0x100 * (b1 as int) + 0x1_0000 * (b2 as int) + 0x100_0000 * (b3 as int)
}

/// The number that two bytes spell in little-endian order.
pub open spec fn u16_from_le(s: Seq<u8>) -> int {
    le_value(s[0], s[1], 0, 0)
}

/// The number that four bytes spell in little-endian order.
pub open spec fn u32_from_le(s: Seq<u8>) -> int {
    le_value(s[0], s[1], s[2], s[3])
}

/// The little-endian `u32` at offset `at` of `s`.
pub open spec fn u32_at(s: Seq<u8>, at: int) -> int {
    u32_from_le(s.subrange(at, at + 4))
}

/// The number that eight bytes spell in little-endian order.
pub open spec fn u64_from_le(s: Seq<u8>) -> int {
    u32_from_le(s.subrange(0, 4)) + 0x1_0000_0000 * u32_from_le(s.subrange(4, 8))
}

/// The signed reading of a byte (two's complement).
pub open spec fn i8_from_u8(b: u8) -> int {
    if b < 0x80 { b as int } else { b as int - 0x100 }
}

/// The signed reading of a 32-bit word (two's complement).
pub open spec fn i32_from_u32(x: int) -> int {
    if x < 0x8000_0000 { x } else { x - 0x1_0000_0000 }
}

/// A byte source with a read position. The position may be moved anywhere;
/// a read that would pass the end of the data fails and moves nothing.
#[derive(Debug, Clone, PartialEq, Eq)]
pub struct Reader {
    pub data: Vec<u8>,
    pub pos: usize,
}

impl Reader {
    /// Whether `n` bytes lie between the position and the end of the data.
    pub open spec fn can_read(&self, n: int) -> bool {
        self.pos + n <= self.data@.len()
    }

    /// The next `n` bytes at the position.
    pub open spec fn peek(&self, n: int) -> Seq<u8> {
        self.data@.subrange(self.pos as int, self.pos + n)
    }

    /// This reader is `before` moved forward by `n` bytes over the same data.
    pub open spec fn advanced_from(&self, before: &Reader, n: int) -> bool {
        self.data@ == before.data@ && self.pos == before.pos + n
    }

    /// This reader is `before`, untouched.
    pub open spec fn unmoved_from(&self, before: &Reader) -> bool {
        self.data@ == before.data@ && self.pos == before.pos
    }

    /// A reader at the start of `data`.
    pub fn new(data: Vec<u8>) -> (r: Reader)
        ensures
            r.data@ == data@,
            r.pos == 0,
    {
        Reader { data, pos: 0 }
    }

    /// The current position.
    pub fn position(&self) -> (p: usize)
        ensures
            p == self.pos,
    {
        self.pos
    }

    /// Moves the position to `pos`, which may lie past the end.
    pub fn seek(&mut self, pos: usize)
        ensures
            final(self).data@ == old(self).data@,
            final(self).pos == pos,
    {
        self.pos = pos;
    }

    /// Whether `n` more bytes can be read.
    pub fn has(&self, n: usize) -> (b: bool)
        ensures
            b == self.can_read(n as int),
            b ==> self.pos + n <= usize::MAX,
    {
        let len: usize = self.data.len();
        self.pos <= len && len - self.pos >= n
    }

    /// Reads exactly `n` bytes.
    pub fn read_exact(&mut self, n: usize) -> (res: Result<Vec<u8>, HermesError>)
        ensures
            match res {
                Ok(v) => old(self).can_read(n as int) && v@ == old(self).peek(n as int)
                    && final(self).advanced_from(old(self), n as int),
                Err(e) => e == HermesError::MalformedInput && !old(self).can_read(n as int)
                    && final(self).unmoved_from(old(self)),
            },
    {
        if !self.has(n) {
            return Err(HermesError::MalformedInput);
        }
        let mut out: Vec<u8> = Vec::new();
        let start: usize = self.pos;
        let mut i: usize = 0;
        while i < n
            invariant
                i <= n,
                start + n <= self.data@.len(),
                start + n <= usize::MAX,
                self.pos == start,
                self.data@ == old(self).data@,
                out@ == self.data@.subrange(start as int, start + i),
            decreases n - i,
        {
            out.push(self.data[start + i]);
            i = i + 1;
        }
        self.pos = start + n;
        Ok(out)
    }
}

/// Reads one byte.
pub fn decode_u8(r: &mut Reader) -> (res: Result<u8, HermesError>)
    ensures
        match res {
            Ok(v) => old(r).can_read(1) && v == old(r).data@[old(r).pos as int]
                && final(r).advanced_from(old(r), 1),
            Err(e) => e == HermesError::MalformedInput && !old(r).can_read(1)
                && final(r).unmoved_from(old(r)),
        },
{
    if !r.has(1) {
        return Err(HermesError::MalformedInput);
    }
    let b: u8 = r.data[r.pos];
    r.pos = r.pos + 1;
    Ok(b)
}

/// Reads one byte as a signed number.
pub fn decode_i8(r: &mut Reader) -> (res: Result<i8, HermesError>)
    ensures
        match res {
            Ok(v) => old(r).can_read(1) && v == i8_from_u8(old(r).data@[old(r).pos as int])
                && final(r).advanced_from(old(r), 1),
            Err(e) => e == HermesError::MalformedInput && !old(r).can_read(1)
                && final(r).unmoved_from(old(r)),
        },
{
    match decode_u8(r) {
        Ok(b) => {
            let v: i8 = if b < 0x80 { b as i8 } else { (b as i16 - 0x100) as i8 };
            Ok(v)
        },
        Err(e) => Err(e),
    }
}

/// Reads a little-endian `u16`.
pub fn decode_u16(r: &mut Reader) -> (res: Result<u16, HermesError>)
    ensures
        match res {
            Ok(v) => old(r).can_read(2) && v == u16_from_le(old(r).peek(2))
                && final(r).advanced_from(old(r), 2),
            Err(e) => e == HermesError::MalformedInput && !old(r).can_read(2)
                && final(r).unmoved_from(old(r)),
        },
{
    if !r.has(2) {
        return Err(HermesError::MalformedInput);
    }
    let p: usize = r.pos;
    proof {
        reveal(le_value);
    }
    let v: u16 = r.data[p] as u16 + 0x100 * (r.data[p + 1] as u16);
    r.pos = p + 2;
    Ok(v)
}

/// Reads a little-endian `u32`.
pub fn decode_u32(r: &mut Reader) -> (res: Result<u32, HermesError>)
    ensures
        match res {
            Ok(v) => old(r).can_read(4) && v == u32_from_le(old(r).peek(4))
                && final(r).advanced_from(old(r), 4),
            Err(e) => e == HermesError::MalformedInput && !old(r).can_read(4)
                && final(r).unmoved_from(old(r)),
        },
{
    if !r.has(4) {
        return Err(HermesError::MalformedInput);
    }
    let p: usize = r.pos;
    proof {
        reveal(le_value);
    }
    let v: u32 = r.data[p] as u32 + 0x100 * (r.data[p + 1] as u32) + 0x1_0000 * (r.data[p + 2] as u32)
        + 0x100_0000 * (r.data[p + 3] as u32);
    r.pos = p + 4;
    Ok(v)
}

/// Reads a little-endian `i32`.
pub fn decode_i32(r: &mut Reader) -> (res: Result<i32, HermesError>)
    ensures
        match res {
            Ok(v) => old(r).can_read(4) && v == i32_from_u32(u32_from_le(old(r).peek(4)))
                && final(r).advanced_from(old(r), 4),
            Err(e) => e == HermesError::MalformedInput && !old(r).can_read(4)
                && final(r).unmoved_from(old(r)),
        },
{
    match decode_u32(r) {
        Ok(x) => {
            let v: i32 = if x < 0x8000_0000 { x as i32 } else { (x as i64 - 0x1_0000_0000) as i32 };
            Ok(v)
        },
        Err(e) => Err(e),
    }
}

/// Reads a little-endian `u64`.
pub fn decode_u64(r: &mut Reader) -> (res: Result<u64, HermesError>)
    ensures
        match res {
            Ok(v) => old(r).can_read(8) && v == u64_from_le(old(r).peek(8))
                && final(r).advanced_from(old(r), 8),
            Err(e) => e == HermesError::MalformedInput && !old(r).can_read(8)
                && final(r).unmoved_from(old(r)),
        },
{
    if !r.has(8) {
        return Err(HermesError::MalformedInput);
    }
    let ghost whole = r.peek(8);
    let lo = decode_u32(r);
    let hi = decode_u32(r);
    match (lo, hi) {
        (Ok(l), Ok(h)) => {
            proof {
                assert(whole.subrange(0, 4) =~= old(r).peek(4));
                assert(whole.subrange(4, 8) =~= old(r).data@.subrange(old(r).pos + 4, old(r).pos + 8));
            }
            Ok(l as u64 + 0x1_0000_0000 * (h as u64))
        },
        _ => {
            proof { assert(false); }
            Err(HermesError::MalformedInput)
        },
    }
}

/// Moves the position forward to the next multiple of `num_bytes`, and
/// returns it. The position stays where it is if it is a multiple already.
pub fn align_reader(r: &mut Reader, num_bytes: usize) -> (res: Result<usize, HermesError>)
    ensures
        final(r).data@ == old(r).data@,
        match res {
            Ok(p) => num_bytes > 0 && p == final(r).pos && p == aligned_up(old(r).pos as int, num_bytes as int),
            Err(e) => e == HermesError::MalformedInput && final(r).pos == old(r).pos
                && (num_bytes == 0 || aligned_up(old(r).pos as int, num_bytes as int) > usize::MAX),
        },
{
    if num_bytes == 0 {
        return Err(HermesError::MalformedInput);
    }
    let rem: usize = r.pos % num_bytes;
    if rem == 0 {
        return Ok(r.pos);
    }
    let step: usize = num_bytes - rem;
    if r.pos > usize::MAX - step {
        return Err(HermesError::MalformedInput);
    }
    r.pos = r.pos + step;
    Ok(r.pos)
}

/// The least multiple of `n` that is not below `v` (for `n > 0`).
pub open spec fn aligned_up(v: int, n: int) -> int {
    if v % n == 0 { v } else { v + (n - v % n) }
}

} // verus!

verus! {

/// Reads the `num_bits`-wide field that starts at bit `start_bit` of `bits`:
/// bits are taken in little-endian order, across byte boundaries.
pub fn read_bitfield(bits: &[u8], start_bit: usize, num_bits: usize) -> (value: u32)
    requires
        num_bits <= 32,
        start_bit + num_bits <= 8 * bits@.len(),
    ensures
        value == bitfield_value(bits@, start_bit as int, num_bits as nat),
{
    let mut value: u32 = 0;
    let mut i: usize = 0;
    while i < num_bits
        invariant
            i <= num_bits <= 32,
            start_bit + num_bits <= 8 * bits@.len(),
            value == bitfield_value(bits@, start_bit as int, i as nat),
        decreases num_bits - i,
    {
        let ghost k: int = start_bit + i;
        let at: usize = start_bit / 8 + (start_bit % 8 + i) / 8;
        let shift: u8 = ((start_bit % 8 + i) % 8) as u8;
        assert(at == k / 8 && shift == k % 8);
        let byte: u8 = bits[at];
        if (byte >> shift) & 1u8 == 1u8 {
            value = value | (1u32 << (i as u32));
        }
        i = i + 1;
    }
    value
}

} // verus!
