//! The tables that locate interned strings in the string storage.

use vstd::prelude::*;
use crate::bitfield::{
    bitfield_value, lemma_field_after_write, lemma_field_limits, lemma_low_mask_fits,
    lemma_write_bits_len, write_bits,
};
use crate::codec::Serializable;
use crate::decode::{decode_u32, read_bitfield, u32_at, Reader};
use crate::encode::{encode_u32, lemma_u32_round_trip, u32_to_le, write_bitfield, zeros, Writer};
use crate::error::HermesError;
use crate::text::{chars_of, copy_range, string_from_chars, string_from_utf8};
use crate::utf16::{
    decode_utf16_lossy, decode_utf16_units_lossy, encode_utf16, encode_utf16_units,
    has_char_above_bmp, lemma_utf16_bytes_round_trip, lemma_utf16_round_trip, needs_utf16,
    push_utf16_le, utf16_le_bytes, utf16_units_of,
};
use vstd::utf8::{decode_utf8, encode_utf8, encode_utf8_decode_utf8, encode_utf8_valid_utf8, valid_utf8};

verus! {

/// The length that marks a small entry as a pointer into the overflow table.
pub const OVERFLOW_LENGTH: u32 = 255;

/// Where one string lies in the string storage, packed into four bytes:
/// one bit for the encoding, 23 bits of offset, 8 bits of length. An entry
/// of length 255 stands for a long string: its offset is then the index of
/// the overflow entry that says where the string really is.
#[derive(Debug, Clone, Copy, PartialEq, Eq, Structural)]
pub struct SmallStringTableEntry {
    /// Whether the string is stored as UTF-16 code units (else as UTF-8 bytes).
    pub is_utf_16: bool,
    /// Offset of the string's first byte, or an index into the overflow table.
    pub offset: u32,
    /// Length of the string: bytes for UTF-8, code units for UTF-16.
    pub length: u32,
}

impl SmallStringTableEntry {
    /// Whether the entry points into the overflow table.
    pub open spec fn spec_is_overflow(&self) -> bool {
        self.length == OVERFLOW_LENGTH
    }

    /// Whether the entry points into the overflow table.
    pub fn is_overflow(&self) -> (b: bool)
        ensures
            b == self.spec_is_overflow(),
    {
        self.length == OVERFLOW_LENGTH
    }
}

impl Serializable for SmallStringTableEntry {
    open spec fn spec_size() -> nat {
        4
    }

    open spec fn spec_bytes(&self) -> Seq<u8> {
        write_bits(
            write_bits(
                write_bits(zeros(4), 0, 1, if self.is_utf_16 { 1u32 } else { 0u32 }),
                1,
                23,
                self.offset,
            ),
            24,
            8,
            self.length,
        )
    }

    open spec fn spec_parse(bytes: Seq<u8>, version: u32) -> Option<Self> {
        Some(
            SmallStringTableEntry {
                is_utf_16: bitfield_value(bytes, 0, 1) == 1,
                offset: bitfield_value(bytes, 1, 23),
                length: bitfield_value(bytes, 24, 8),
            },
        )
    }

    open spec fn representable(&self, version: u32) -> bool {
        self.offset < 0x80_0000 && self.length < 0x100
    }

    proof fn lemma_size(&self) {
        let flag = if self.is_utf_16 { 1u32 } else { 0u32 };
        let a = write_bits(zeros(4), 0, 1, flag);
        let b = write_bits(a, 1, 23, self.offset);
        lemma_write_bits_len(zeros(4), 0, 1, flag);
        lemma_write_bits_len(a, 1, 23, self.offset);
        lemma_write_bits_len(b, 24, 8, self.length);
    }

    proof fn lemma_round_trip(&self, version: u32) {
        let flag = if self.is_utf_16 { 1u32 } else { 0u32 };
        let z = zeros(4);
        let a = write_bits(z, 0, 1, flag);
        let b = write_bits(a, 1, 23, self.offset);
        lemma_field_limits();
        lemma_field_after_write(z, 0, 1, flag, 0, 1);
        lemma_field_after_write(a, 1, 23, self.offset, 0, 1);
        lemma_field_after_write(a, 1, 23, self.offset, 1, 23);
        lemma_field_after_write(b, 24, 8, self.length, 0, 1);
        lemma_field_after_write(b, 24, 8, self.length, 1, 23);
        lemma_field_after_write(b, 24, 8, self.length, 24, 8);
        lemma_low_mask_fits(flag, 1);
        lemma_low_mask_fits(self.offset, 23);
        lemma_low_mask_fits(self.length, 8);
    }

    fn size(&self) -> (n: usize) {
        4
    }

    fn deserialize(r: &mut Reader, version: u32) -> (res: Result<Self, HermesError>) {
        let bytes = r.read_exact(4)?;
        let is_utf_16 = read_bitfield(bytes.as_slice(), 0, 1);
        let offset = read_bitfield(bytes.as_slice(), 1, 23);
        let length = read_bitfield(bytes.as_slice(), 24, 8);
        Ok(SmallStringTableEntry { is_utf_16: is_utf_16 == 1, offset, length })
    }

    fn serialize(&self, w: &mut Writer) {
        let mut bytes: Vec<u8> = Vec::new();
        bytes.push(0u8);
        bytes.push(0u8);
        bytes.push(0u8);
        bytes.push(0u8);
        assert(bytes@ =~= zeros(4));
        write_bitfield(&mut bytes, 0, 1, if self.is_utf_16 { 1 } else { 0 });
        write_bitfield(&mut bytes, 1, 23, self.offset);
        write_bitfield(&mut bytes, 24, 8, self.length);
        w.write_all(bytes.as_slice());
    }
}

/// Where a long string lies in the string storage.
#[derive(Debug, Clone, Copy, PartialEq, Eq, Structural)]
pub struct OverflowStringTableEntry {
    /// Offset of the string's first byte.
    pub offset: u32,
    /// Length of the string: bytes for UTF-8, code units for UTF-16.
    pub length: u32,
}

impl Serializable for OverflowStringTableEntry {
    open spec fn spec_size() -> nat {
        8
    }

    open spec fn spec_bytes(&self) -> Seq<u8> {
        u32_to_le(self.offset as int) + u32_to_le(self.length as int)
    }

    open spec fn spec_parse(bytes: Seq<u8>, version: u32) -> Option<Self> {
        Some(OverflowStringTableEntry {
            offset: u32_at(bytes, 0) as u32,
            length: u32_at(bytes, 4) as u32,
        })
    }

    open spec fn representable(&self, version: u32) -> bool {
        true
    }

    proof fn lemma_size(&self) {
    }

    proof fn lemma_round_trip(&self, version: u32) {
        let b = self.spec_bytes();
        lemma_u32_round_trip(self.offset);
        assert(b.subrange(0, 4) =~= u32_to_le(self.offset as int));
        lemma_u32_round_trip(self.length);
        assert(b.subrange(4, 8) =~= u32_to_le(self.length as int));
    }

    fn size(&self) -> (n: usize) {
        8
    }

    fn deserialize(r: &mut Reader, version: u32) -> (res: Result<Self, HermesError>) {
        if !r.has(8) {
            return Err(HermesError::MalformedInput);
        }
        let ghost whole = r.peek(8);
        assert(whole.subrange(0, 4) =~= r.peek(4));
        let offset = decode_u32(r);
        assert(whole.subrange(4, 8) =~= r.peek(4));
        let length = decode_u32(r);
        match (offset, length) {
            (Ok(offset), Ok(length)) => Ok(OverflowStringTableEntry { offset, length }),
            _ => {
                assert(false);
                Err(HermesError::MalformedInput)
            },
        }
    }

    fn serialize(&self, w: &mut Writer) {
        encode_u32(w, self.offset);
        encode_u32(w, self.length);
        assert(w@ =~= old(w)@ + self.spec_bytes());
    }
}

/// Where string `i` lies in the string storage and how long it is, after
/// following the redirection of a long string. `None` where the entry
/// points outside the overflow table.
pub open spec fn spec_location(
    storage: Seq<SmallStringTableEntry>,
    overflow: Seq<OverflowStringTableEntry>,
    i: int,
) -> Option<(int, int)> {
    let e = storage[i];
    if e.length == OVERFLOW_LENGTH {
        if e.offset < overflow.len() {
            Some((overflow[e.offset as int].offset as int, overflow[e.offset as int].length as int))
        } else {
            None
        }
    } else {
        Some((e.offset as int, e.length as int))
    }
}

/// The string stored at `offset` with the given length: `length` code
/// units of little-endian UTF-16, read leniently, or `length` bytes of
/// UTF-8. `None` where the storage ends before the string does or the bytes
/// are not valid UTF-8.
pub open spec fn spec_stored_string(bytes: Seq<u8>, utf16: bool, offset: int, length: int) -> Option<
    Seq<char>,
> {
    if utf16 {
        if offset + 2 * length <= bytes.len() {
            Some(decode_utf16_lossy(utf16_units_of(bytes.subrange(offset, offset + 2 * length))))
        } else {
            None
        }
    } else {
        if offset + length <= bytes.len() && valid_utf8(bytes.subrange(offset, offset + length)) {
            Some(decode_utf8(bytes.subrange(offset, offset + length)))
        } else {
            None
        }
    }
}

/// String `i` of the string table.
pub open spec fn spec_string_at(
    storage: Seq<SmallStringTableEntry>,
    overflow: Seq<OverflowStringTableEntry>,
    bytes: Seq<u8>,
    i: int,
) -> Option<Seq<char>> {
    match spec_location(storage, overflow, i) {
        Some((offset, length)) => spec_stored_string(bytes, storage[i].is_utf_16, offset, length),
        None => None,
    }
}

/// The bytes that a string is stored as: UTF-16 code units, low byte first,
/// if some character lies above `U+10000`, else UTF-8.
pub open spec fn spec_stored_bytes(s: Seq<char>) -> Seq<u8> {
    if needs_utf16(s) {
        utf16_le_bytes(encode_utf16(s))
    } else {
        encode_utf8(s)
    }
}

/// The length that a string's entry records: code units for UTF-16, bytes
/// for UTF-8.
pub open spec fn spec_stored_length(s: Seq<char>) -> nat {
    if needs_utf16(s) {
        encode_utf16(s).len()
    } else {
        encode_utf8(s).len()
    }
}

/// Reads string `index` of the string table. Fails with
/// `InternalConsistency` where there is no such entry, and with
/// `MalformedInput` where the entry points outside its tables or at bytes
/// that are not valid UTF-8.
pub fn read_stored_string(
    storage: &Vec<SmallStringTableEntry>,
    overflow: &Vec<OverflowStringTableEntry>,
    bytes: &Vec<u8>,
    index: usize,
) -> (res: Result<String, HermesError>)
    ensures
        match res {
            Ok(s) => index < storage@.len() && spec_string_at(
                storage@,
                overflow@,
                bytes@,
                index as int,
            ) == Some(s@),
            Err(e) => if index >= storage@.len() {
                e == HermesError::InternalConsistency
            } else {
                e == HermesError::MalformedInput && spec_string_at(
                    storage@,
                    overflow@,
                    bytes@,
                    index as int,
                ) is None
            },
        },
{
    if index >= storage.len() {
        return Err(HermesError::InternalConsistency);
    }
    let entry = storage[index];
    let mut offset: u32 = entry.offset;
    let mut length: u32 = entry.length;
    if entry.length == OVERFLOW_LENGTH {
        if entry.offset as usize >= overflow.len() {
            return Err(HermesError::MalformedInput);
        }
        let long = overflow[entry.offset as usize];
        offset = long.offset;
        length = long.length;
    }
    let total: u64 = bytes.len() as u64;
    if entry.is_utf_16 {
        if offset as u64 + 2 * (length as u64) > total {
            return Err(HermesError::MalformedInput);
        }
        let from: usize = offset as usize;
        let raw = copy_range(bytes, from, from + 2 * (length as usize));
        let mut units: Vec<u16> = Vec::new();
        let raw_len: usize = raw.len();
        let mut i: usize = 0;
        while i < length as usize
            invariant
                i <= length,
                raw_len == 2 * length,
                raw@.len() == 2 * length,
                units@ == utf16_units_of(raw@).take(i as int),
            decreases length - i,
        {
            units.push(raw[2 * i] as u16 + 0x100 * (raw[2 * i + 1] as u16));
            i = i + 1;
            assert(units@ =~= utf16_units_of(raw@).take(i as int));
        }
        assert(utf16_units_of(raw@).take(i as int) =~= utf16_units_of(raw@));
        let chars = decode_utf16_units_lossy(&units);
        Ok(string_from_chars(&chars))
    } else {
        if offset as u64 + length as u64 > total {
            return Err(HermesError::MalformedInput);
        }
        let from: usize = offset as usize;
        let raw = copy_range(bytes, from, from + length as usize);
        match string_from_utf8(raw) {
            Some(s) => Ok(s),
            None => Err(HermesError::MalformedInput),
        }
    }
}

/// What is stored reads back: the bytes a string is stored as, found at any
/// offset of a storage, read as the string.
pub proof fn lemma_stored_string_reads_back(pre: Seq<u8>, s: Seq<char>, post: Seq<u8>)
    ensures
        spec_stored_string(
            pre + spec_stored_bytes(s) + post,
            needs_utf16(s),
            pre.len() as int,
            spec_stored_length(s) as int,
        ) == Some(s),
{
    let data = pre + spec_stored_bytes(s) + post;
    let at = pre.len() as int;
    if needs_utf16(s) {
        let units = encode_utf16(s);
        lemma_utf16_bytes_round_trip(units);
        lemma_utf16_round_trip(s);
        assert(data.subrange(at, at + 2 * units.len()) =~= utf16_le_bytes(units));
    } else {
        encode_utf8_valid_utf8(s);
        encode_utf8_decode_utf8(s);
        assert(data.subrange(at, at + encode_utf8(s).len()) =~= encode_utf8(s));
    }
}

/// A string of the table reads the same after entries and bytes are added
/// behind those that were there.
pub proof fn lemma_string_at_stable(
    storage: Seq<SmallStringTableEntry>,
    overflow: Seq<OverflowStringTableEntry>,
    bytes: Seq<u8>,
    more_storage: Seq<SmallStringTableEntry>,
    more_overflow: Seq<OverflowStringTableEntry>,
    more_bytes: Seq<u8>,
    i: int,
)
    requires
        0 <= i < storage.len(),
        spec_string_at(storage, overflow, bytes, i) is Some,
    ensures
        spec_string_at(storage + more_storage, overflow + more_overflow, bytes + more_bytes, i)
            == spec_string_at(storage, overflow, bytes, i),
{
    let (offset, length) = spec_location(storage, overflow, i).unwrap();
    let all = bytes + more_bytes;
    if storage[i].is_utf_16 {
        assert(all.subrange(offset, offset + 2 * length) =~= bytes.subrange(
            offset,
            offset + 2 * length,
        ));
    } else {
        assert(all.subrange(offset, offset + length) =~= bytes.subrange(offset, offset + length));
    }
}

/// Adds a string to the table: its bytes go to the end of the storage and
/// an entry that finds them goes to the end of the table. A string whose
/// length is 255 or more gets an overflow entry, and a small entry of
/// length 255 whose offset is the index of that overflow entry. Fails, and
/// changes nothing, where the storage would outgrow what a 32-bit offset
/// can address.
pub fn intern_string(
    storage: &mut Vec<SmallStringTableEntry>,
    overflow: &mut Vec<OverflowStringTableEntry>,
    bytes: &mut Vec<u8>,
    s: &str,
) -> (res: Result<(), HermesError>)
    requires
        old(overflow)@.len() <= u32::MAX,
    ensures
        match res {
            Ok(()) => {
                let length = spec_stored_length(s@);
                &&& old(bytes)@.len() + spec_stored_bytes(s@).len() <= u32::MAX
                &&& old(overflow)@.len() < u32::MAX
                &&& final(bytes)@ == old(bytes)@ + spec_stored_bytes(s@)
                &&& final(storage)@.len() == old(storage)@.len() + 1
                &&& final(storage)@.drop_last() == old(storage)@
                &&& final(storage)@.last().is_utf_16 == needs_utf16(s@)
                &&& if length >= OVERFLOW_LENGTH {
                    &&& final(storage)@.last().length == OVERFLOW_LENGTH
                    &&& final(storage)@.last().offset == old(overflow)@.len()
                    &&& final(overflow)@ == old(overflow)@.push(
                        OverflowStringTableEntry {
                            offset: old(bytes)@.len() as u32,
                            length: length as u32,
                        },
                    )
                } else {
                    &&& final(storage)@.last().length == length
                    &&& final(storage)@.last().offset == old(bytes)@.len()
                    &&& final(overflow)@ == old(overflow)@
                }
            },
            Err(e) => {
                &&& e == HermesError::InternalConsistency
                &&& (old(bytes)@.len() + spec_stored_bytes(s@).len() > u32::MAX || old(overflow)@.len()
                    >= u32::MAX)
                &&& final(bytes)@ == old(bytes)@
                &&& final(storage)@ == old(storage)@
                &&& final(overflow)@ == old(overflow)@
            },
        },
{
    let chars = chars_of(s);
    let is_utf_16 = has_char_above_bmp(&chars);
    let offset: usize = bytes.len();
    if offset > u32::MAX as usize || overflow.len() >= u32::MAX as usize {
        return Err(HermesError::InternalConsistency);
    }
    let length: usize;
    if is_utf_16 {
        let units = encode_utf16_units(&chars);
        if units.len() > (u32::MAX as usize - offset) / 2 {
            return Err(HermesError::InternalConsistency);
        }
        length = units.len();
        proof {
            lemma_utf16_bytes_round_trip(units@);
        }
        push_utf16_le(bytes, &units);
    } else {
        let raw = s.as_bytes();
        if raw.len() > u32::MAX as usize - offset {
            return Err(HermesError::InternalConsistency);
        }
        length = raw.len();
        let ghost before = bytes@;
        let mut i: usize = 0;
        while i < raw.len()
            invariant
                i <= raw@.len(),
                bytes@ == before + raw@.take(i as int),
            decreases raw@.len() - i,
        {
            bytes.push(raw[i]);
            i = i + 1;
            assert(bytes@ =~= before + raw@.take(i as int));
        }
        assert(raw@.take(i as int) =~= raw@);
    }
    let ghost storage_before = storage@;
    if length >= OVERFLOW_LENGTH as usize {
        let index: u32 = overflow.len() as u32;
        storage.push(SmallStringTableEntry { is_utf_16, offset: index, length: OVERFLOW_LENGTH });
        overflow.push(OverflowStringTableEntry { offset: offset as u32, length: length as u32 });
    } else {
        storage.push(SmallStringTableEntry { is_utf_16, offset: offset as u32, length: length as u32 });
    }
    assert(storage@.drop_last() =~= storage_before);
    Ok(())
}

} // verus!
