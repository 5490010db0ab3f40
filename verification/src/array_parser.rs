//! The literal buffers: arrays and object keys and values, stored as
//! tagged sequences.
//!
//! A sequence opens with a tag byte. Its high bit says that the length is
//! long; the next three bits say what the elements are; the low four bits
//! are the length, or where the length is long its high four bits, with one
//! more byte for its low eight. The elements follow, each as wide as its
//! kind says.

use vstd::prelude::*;
use crate::decode::{le_value, u16_from_le, u32_from_le};
use crate::error::HermesError;

verus! {

/// One element of a literal buffer.
#[derive(Debug, Clone, Copy, PartialEq, Eq, Structural)]
pub enum ArrayTypes {
    EmptyValueSized { value: u32 },
    NullValue {  },
    TrueValue { value: bool },
    FalseValue { value: bool },
    /// A number, as the 64 bits of its IEEE-754 form.
    NumberValue { value: u64 },
    /// A string given by a two-byte index into the string table.
    ShortStringValue { value: u16 },
    /// A string given by a four-byte index into the string table.
    LongStringValue { value: u32 },
    /// A string given by a one-byte index into the string table.
    ByteStringValue { value: u8 },
    IntegerValue { value: u32 },
}

/// The kind of the elements that a tag byte announces: bits 4 to 6.
pub open spec fn spec_tag_kind(tag: u8) -> int {
    ((tag / 16) % 8) as int
}

/// Whether a tag byte is followed by one more byte of length.
pub open spec fn spec_tag_is_long(tag: u8) -> bool {
    tag >= 0x80
}

/// The number of bytes that an element of the given kind takes.
pub open spec fn spec_element_width(kind: int) -> int {
    if kind == 3 {
        8
    } else if kind == 4 || kind == 7 {
        4
    } else if kind == 5 {
        2
    } else if kind == 6 {
        1
    } else {
        0
    }
}

/// The number that eight bytes spell in little-endian order.
pub open spec fn spec_number_bits(s: Seq<u8>) -> int {
    u32_from_le(s.subrange(0, 4)) + 0x1_0000_0000 * u32_from_le(s.subrange(4, 8))
}

/// The element of the given kind that `bytes` spell.
pub open spec fn spec_element(kind: int, bytes: Seq<u8>) -> ArrayTypes {
    if kind == 0 {
        ArrayTypes::NullValue {  }
    } else if kind == 1 {
        ArrayTypes::TrueValue { value: true }
    } else if kind == 2 {
        ArrayTypes::FalseValue { value: false }
    } else if kind == 3 {
        ArrayTypes::NumberValue { value: spec_number_bits(bytes) as u64 }
    } else if kind == 4 {
        ArrayTypes::LongStringValue { value: u32_from_le(bytes) as u32 }
    } else if kind == 5 {
        ArrayTypes::ShortStringValue { value: u16_from_le(bytes) as u16 }
    } else if kind == 6 {
        ArrayTypes::ByteStringValue { value: bytes[0] }
    } else {
        ArrayTypes::IntegerValue { value: u32_from_le(bytes) as u32 }
    }
}

/// What the head of a sequence says: the kind of its elements, how many
/// there are, and how many bytes the head takes. `None` where the window
/// ends before the head does.
pub open spec fn spec_sequence_head(window: Seq<u8>) -> Option<(int, int, int)> {
    if window.len() == 0 {
        None
    } else if spec_tag_is_long(window[0]) {
        if window.len() < 2 {
            None
        } else {
            Some((spec_tag_kind(window[0]), (window[0] % 16) * 256 + window[1], 2))
        }
    } else {
        Some((spec_tag_kind(window[0]), (window[0] % 16) as int, 1))
    }
}

/// The elements of the sequence that opens `window`, and the number of
/// bytes that the sequence takes. `None` where the window ends before the
/// sequence does.
pub open spec fn spec_parse_sequence(window: Seq<u8>) -> Option<(Seq<ArrayTypes>, int)> {
    match spec_sequence_head(window) {
        None => None,
        Some((kind, count, head)) => {
            let width = spec_element_width(kind);
            if head + count * width > window.len() {
                None
            } else {
                Some(
                    (
                        Seq::new(
                            count as nat,
                            |i: int|
                                spec_element(
                                    kind,
                                    window.subrange(head + i * width, head + (i + 1) * width),
                                ),
                        ),
                        head + count * width,
                    ),
                )
            }
        },
    }
}

/// The part of a buffer that a sequence is read from: from `idx` to the end
/// of the buffer, or where `slice_size` is not zero for `slice_size` bytes.
/// `None` where that passes the end of the buffer.
pub open spec fn spec_window(buffer: Seq<u8>, idx: int, slice_size: int) -> Option<Seq<u8>> {
    let end = if slice_size > 0 { idx + slice_size } else { buffer.len() as int };
    if idx <= end <= buffer.len() {
        Some(buffer.subrange(idx, end))
    } else {
        None
    }
}

/// Reads the sequence that starts at `idx` in `buffer`. Returns the offset
/// in the buffer where the sequence ends and its elements. Fails with
/// `MalformedInput` where the sequence passes the end of the buffer or of
/// the `slice_size` bytes it is given.
pub fn parse_literal_sequence(buffer: &Vec<u8>, idx: usize, slice_size: usize) -> (res: Result<
    (usize, Vec<ArrayTypes>),
    HermesError,
>)
    ensures
        match res {
            Ok((end, values)) => {
                &&& spec_window(buffer@, idx as int, slice_size as int) is Some
                &&& spec_parse_sequence(
                    spec_window(buffer@, idx as int, slice_size as int).unwrap(),
                ) == Some((values@, end - idx))
            },
            Err(e) => {
                &&& e == HermesError::MalformedInput
                &&& (spec_window(buffer@, idx as int, slice_size as int) is None
                    || spec_parse_sequence(
                    spec_window(buffer@, idx as int, slice_size as int).unwrap(),
                ) is None)
            },
        },
{
    let total: usize = buffer.len();
    if idx > total || (slice_size > 0 && slice_size > total - idx) {
        return Err(HermesError::MalformedInput);
    }
    let end: usize = if slice_size > 0 { idx + slice_size } else { total };
    let ghost window = buffer@.subrange(idx as int, end as int);
    if idx >= end {
        return Err(HermesError::MalformedInput);
    }
    let tag: u8 = buffer[idx];
    assert(window[0] == tag);
    let kind: u8 = (tag / 16) % 8;
    let count: usize;
    let head: usize;
    if tag >= 0x80 {
        if end - idx < 2 {
            return Err(HermesError::MalformedInput);
        }
        assert(window[1] == buffer@[idx + 1]);
        count = (tag % 16) as usize * 256 + buffer[idx + 1] as usize;
        head = 2;
    } else {
        count = (tag % 16) as usize;
        head = 1;
    }
    let width: usize = if kind == 3 {
        8
    } else if kind == 4 || kind == 7 {
        4
    } else if kind == 5 {
        2
    } else if kind == 6 {
        1
    } else {
        0
    };
    assert(count * width <= 4095 * 8) by (nonlinear_arith)
        requires
            count <= 4095,
            width <= 8,
    ;
    if head + count * width > end - idx {
        return Err(HermesError::MalformedInput);
    }
    let mut values: Vec<ArrayTypes> = Vec::new();
    let mut i: usize = 0;
    while i < count
        invariant
            i <= count <= 4095,
            kind < 8,
            width == spec_element_width(kind as int),
            width <= 8,
            head <= 2,
            idx <= end <= buffer@.len(),
            end <= usize::MAX,
            window == buffer@.subrange(idx as int, end as int),
            head + count * width <= end - idx,
            values@ == Seq::new(
                i as nat,
                |k: int|
                    spec_element(
                        kind as int,
                        window.subrange(head + k * width, head + (k + 1) * width),
                    ),
            ),
        decreases count - i,
    {
        assert(i * width + width <= count * width) by (nonlinear_arith)
            requires
                i < count,
                width >= 0,
        ;
        assert((i + 1) * width == i * width + width) by (nonlinear_arith);
        let at: usize = idx + head + i * width;
        let ghost bytes = window.subrange(head + i * width, head + (i + 1) * width);
        assert(bytes =~= buffer@.subrange(at as int, at + width));
        let value = if kind == 0 {
            ArrayTypes::NullValue {  }
        } else if kind == 1 {
            ArrayTypes::TrueValue { value: true }
        } else if kind == 2 {
            ArrayTypes::FalseValue { value: false }
        } else if kind == 3 {
            assert(bytes.subrange(0, 4) =~= buffer@.subrange(at as int, at + 4));
            assert(bytes.subrange(4, 8) =~= buffer@.subrange(at + 4, at + 8));
            let low = word_at(buffer, at);
            let high = word_at(buffer, at + 4);
            ArrayTypes::NumberValue { value: low as u64 + 0x1_0000_0000 * (high as u64) }
        } else if kind == 4 {
            ArrayTypes::LongStringValue { value: word_at(buffer, at) }
        } else if kind == 5 {
            proof {
                reveal(le_value);
            }
            ArrayTypes::ShortStringValue {
                value: buffer[at] as u16 + 0x100 * (buffer[at + 1] as u16),
            }
        } else if kind == 6 {
            ArrayTypes::ByteStringValue { value: buffer[at] }
        } else {
            ArrayTypes::IntegerValue { value: word_at(buffer, at) }
        };
        values.push(value);
        i = i + 1;
        assert(values@ =~= Seq::new(
            i as nat,
            |k: int|
                spec_element(kind as int, window.subrange(head + k * width, head + (k + 1) * width)),
        ));
    }
    Ok((idx + head + count * width, values))
}

/// The little-endian word at offset `at` of `buffer`.
fn word_at(buffer: &Vec<u8>, at: usize) -> (v: u32)
    requires
        at + 4 <= buffer@.len(),
        at + 4 <= usize::MAX,
    ensures
        v == u32_from_le(buffer@.subrange(at as int, at + 4)),
{
    proof {
        reveal(le_value);
    }
    buffer[at] as u32 + 0x100 * (buffer[at + 1] as u32) + 0x1_0000 * (buffer[at + 2] as u32)
        + 0x100_0000 * (buffer[at + 3] as u32)
}

/// The elements of a sequence, as plain values.
pub open spec fn sequences_view(list: Seq<(usize, Vec<ArrayTypes>)>) -> Seq<(int, Seq<ArrayTypes>)> {
    Seq::new(list.len(), |i: int| (list[i].0 as int, list[i].1@))
}

/// The sequences that lie end to end in `buffer` from `at` on, each with
/// the offset where it ends. `None` where one of them passes the end of the
/// buffer.
pub open spec fn spec_parse_buffer(buffer: Seq<u8>, at: int) -> Option<Seq<(int, Seq<ArrayTypes>)>>
    decreases buffer.len() - at,
{
    if at < 0 || at >= buffer.len() {
        Some(Seq::empty())
    } else {
        match spec_parse_sequence(buffer.subrange(at, buffer.len() as int)) {
            Some((values, size)) => if size > 0 {
                match spec_parse_buffer(buffer, at + size) {
                    Some(rest) => Some(seq![(at + size, values)] + rest),
                    None => None,
                }
            } else {
                None
            },
            None => None,
        }
    }
}

/// Reads every sequence of a literal buffer, from its first byte to its
/// last. Fails with `MalformedInput` where a sequence passes the end of the
/// buffer.
pub fn parse_literal_buffer(buffer: &Vec<u8>) -> (res: Result<
    Vec<(usize, Vec<ArrayTypes>)>,
    HermesError,
>)
    ensures
        match res {
            Ok(list) => spec_parse_buffer(buffer@, 0) == Some(sequences_view(list@)),
            Err(e) => e == HermesError::MalformedInput && spec_parse_buffer(buffer@, 0) is None,
        },
{
    let mut list: Vec<(usize, Vec<ArrayTypes>)> = Vec::new();
    let mut at: usize = 0;
    assert(sequences_view(list@) =~= Seq::empty());
    while at < buffer.len()
        invariant
            match spec_parse_buffer(buffer@, at as int) {
                Some(rest) => spec_parse_buffer(buffer@, 0) == Some(sequences_view(list@) + rest),
                None => spec_parse_buffer(buffer@, 0) is None,
            },
        decreases buffer@.len() - at,
    {
        let ghost before = sequences_view(list@);
        match parse_literal_sequence(buffer, at, 0) {
            Ok((end, values)) => {
                assert(end > at);
                proof {
                    match spec_parse_buffer(buffer@, end as int) {
                        Some(rest) => {
                            assert(before + (seq![(end as int, values@)] + rest) =~= before.push(
                                (end as int, values@),
                            ) + rest);
                        },
                        None => {},
                    }
                }
                list.push((end, values));
                assert(sequences_view(list@) =~= before.push((end as int, values@)));
                at = end;
            },
            Err(e) => {
                return Err(e);
            },
        }
    }
    assert(sequences_view(list@) + Seq::empty() =~= sequences_view(list@));
    Ok(list)
}

} // verus!
