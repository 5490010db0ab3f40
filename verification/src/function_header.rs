//! Function headers: the packed 16-byte record, the plain 32-byte record
//! that takes over when a value does not fit the packed one, and the rule
//! that moves a header from one to the other.

use vstd::prelude::*;
use vstd::std_specs::convert::FromSpecImpl;
use crate::bitfield::{
    bitfield_value, fields_laid_out, lemma_bitfield_value_bound, lemma_field_limits,
    lemma_low_mask_fits, lemma_read_untouched_field, lemma_read_written_field,
    lemma_bitfield_value_zero, lemma_write_fields_len, lemma_write_fields_push, write_fields, Field,
};
use crate::codec::{
    lemma_table_round_trip_at, table_bytes, write_table, lemma_table_bytes_len, parse_table_at, read_aligned_table, read_table, Serializable, lemma_words_bytes_len, lemma_words_round_trip, read_words, words_at, words_bytes, write_words,
};
use crate::debug_info::DebugInfoOffsets;
use crate::decode::{align_reader, aligned_up, decode_u32, decode_u8, read_bitfield, u32_at, Reader};
use crate::encode::{
    align_writer, padding_to, encode_u32, encode_u8, lemma_u32_round_trip, u32_to_le, write_bitfield, zero_bytes, zeros, Writer,
};
use crate::error::HermesError;
use crate::exception_handler::ExceptionHandlerInfo;

verus! {

/// The largest value that a header field may hold before the header counts
/// as overflowed.
pub const SMALL_FIELD_MAX: u32 = 0x1_ffff;

/// The stream offset of a large header, put together from the two fields of
/// the small header that stands in for it: the low 16 bits come from
/// `offset`, the high 16 bits from `info_offset`.
pub open spec fn spec_large_info_offset(offset: u32, info_offset: u32) -> u32 {
    ((info_offset % 0x1_0000) * 0x1_0000 + offset % 0x1_0000) as u32
}

/// Puts the offset of a large header together from the `offset` and
/// `info_offset` of the small header that stands in for it.
pub fn get_large_info_offset(offset: u32, info_offset: u32) -> (r: u32)
    ensures
        r == spec_large_info_offset(offset, info_offset),
{
    (info_offset % 0x1_0000) * 0x1_0000 + offset % 0x1_0000
}

/// Splits the offset of a large header into the `offset` (low 16 bits) and
/// `info_offset` (high 16 bits) of the small header that stands in for it.
pub fn get_large_info_offset_pair(real_large_info_offset: u32) -> (r: (u32, u32))
    ensures
        r.0 == real_large_info_offset % 0x1_0000,
        r.1 == real_large_info_offset / 0x1_0000,
        spec_large_info_offset(r.0, r.1) == real_large_info_offset,
{
    (real_large_info_offset % 0x1_0000, real_large_info_offset / 0x1_0000)
}

/// Which ways of invoking a function are forbidden.
#[derive(Debug, Clone, Copy, PartialEq, Eq, Structural)]
pub enum FunctionHeaderFlagProhibitions {
    ProhibitCall,
    ProhibitConstruct,
    ProhibitNone,
}

impl FunctionHeaderFlagProhibitions {
    /// The two-bit number that stands for this value in the file.
    pub open spec fn spec_code(self) -> u32 {
        match self {
            FunctionHeaderFlagProhibitions::ProhibitCall => 0,
            FunctionHeaderFlagProhibitions::ProhibitConstruct => 1,
            FunctionHeaderFlagProhibitions::ProhibitNone => 2,
        }
    }

    /// The two-bit number that stands for this value in the file.
    pub fn code(self) -> (c: u32)
        ensures
            c == self.spec_code(),
    {
        match self {
            FunctionHeaderFlagProhibitions::ProhibitCall => 0,
            FunctionHeaderFlagProhibitions::ProhibitConstruct => 1,
            FunctionHeaderFlagProhibitions::ProhibitNone => 2,
        }
    }
}

/// The flag bits of a function header.
#[derive(Debug, Clone, Copy, PartialEq, Eq, Structural)]
pub struct FunctionHeaderFlag {
    pub prohibit_invoke: FunctionHeaderFlagProhibitions,
    pub strict_mode: bool,
    pub has_exception_handler: bool,
    pub has_debug_info: bool,
    pub overflowed: bool,
}

/// The numbers and flags of a function header: what its record in the file
/// holds, without the handler list and debug offsets that hang off it.
#[derive(Debug, Clone, Copy, PartialEq, Eq, Structural)]
pub struct FunctionHeaderFields {
    /// Offset of the function's bytecode in the file.
    pub offset: u32,
    /// Number of parameters, `this` included.
    pub param_count: u32,
    /// Size of the function's bytecode in bytes.
    pub byte_size: u32,
    /// Index of the string that names the function.
    pub func_name: u32,
    /// Offset of the exception handlers and debug offsets.
    pub info_offset: u32,
    /// Number of registers the function uses.
    pub frame_size: u32,
    /// Number of slots in the function's environment.
    pub env_size: u32,
    /// Highest index used in the read property cache.
    pub highest_read_cache_index: u32,
    /// Highest index used in the write property cache.
    pub highest_write_cache_index: u32,
    pub flags: FunctionHeaderFlag,
}

/// One for `true`, zero for `false`.
pub open spec fn bit(b: bool) -> u32 {
    if b { 1 } else { 0 }
}

/// The five flag fields, laid out from bit `base`.
pub open spec fn flag_layout(flags: FunctionHeaderFlag, base: int) -> Seq<Field> {
    seq![
        Field { start: base, width: 2, value: flags.prohibit_invoke.spec_code() },
        Field { start: base + 2, width: 1, value: bit(flags.strict_mode) },
        Field { start: base + 3, width: 1, value: bit(flags.has_exception_handler) },
        Field { start: base + 4, width: 1, value: bit(flags.has_debug_info) },
        Field { start: base + 5, width: 1, value: bit(flags.overflowed) },
    ]
}

/// The fourteen fields of the packed record.
pub open spec fn small_layout(c: FunctionHeaderFields) -> Seq<Field> {
    seq![
        Field { start: 0, width: 25, value: c.offset },
        Field { start: 25, width: 7, value: c.param_count },
        Field { start: 32, width: 15, value: c.byte_size },
        Field { start: 47, width: 17, value: c.func_name },
        Field { start: 64, width: 25, value: c.info_offset },
        Field { start: 89, width: 7, value: c.frame_size },
        Field { start: 96, width: 8, value: c.env_size },
        Field { start: 104, width: 8, value: c.highest_read_cache_index },
        Field { start: 112, width: 8, value: c.highest_write_cache_index },
    ] + flag_layout(c.flags, 120)
}

/// The 16 bytes of the packed record.
pub open spec fn small_header_bytes(c: FunctionHeaderFields) -> Seq<u8> {
    write_fields(zeros(16), small_layout(c))
}

/// The byte that holds the flags of the plain record.
pub open spec fn flags_byte(flags: FunctionHeaderFlag) -> Seq<u8> {
    write_fields(zeros(1), flag_layout(flags, 0))
}

/// The 32 bytes of the plain record: seven words, the two cache indices as
/// one byte each, the flags byte, and a zero byte that fills the record.
pub open spec fn large_header_bytes(c: FunctionHeaderFields) -> Seq<u8> {
    words_bytes(large_header_words(c)) + seq![
        (c.highest_read_cache_index % 0x100) as u8,
        (c.highest_write_cache_index % 0x100) as u8,
    ] + flags_byte(c.flags) + zeros(1)
}

/// The seven words that open the plain record.
pub open spec fn large_header_words(c: FunctionHeaderFields) -> Seq<u32> {
    seq![
        c.offset,
        c.param_count,
        c.byte_size,
        c.func_name,
        c.info_offset,
        c.frame_size,
        c.env_size,
    ]
}

/// The four one-bit flags from bit `base + 2`, with the given prohibition.
pub open spec fn flags_with(
    bytes: Seq<u8>,
    base: int,
    prohibit_invoke: FunctionHeaderFlagProhibitions,
) -> FunctionHeaderFlag {
    FunctionHeaderFlag {
        prohibit_invoke,
        strict_mode: bitfield_value(bytes, base + 2, 1) == 1,
        has_exception_handler: bitfield_value(bytes, base + 3, 1) == 1,
        has_debug_info: bitfield_value(bytes, base + 4, 1) == 1,
        overflowed: bitfield_value(bytes, base + 5, 1) == 1,
    }
}

/// The flags that the six bits from bit `base` read as. The two-bit code 3
/// stands for no prohibition; where `lenient` is set and the overflowed bit
/// is on, it is read as `ProhibitNone`, otherwise the flags are refused.
pub open spec fn parse_flags(bytes: Seq<u8>, base: int, lenient: bool) -> Option<
    FunctionHeaderFlag,
> {
    let code = bitfield_value(bytes, base, 2);
    let overflowed = bitfield_value(bytes, base + 5, 1) == 1;
    if code == 0 {
        Some(flags_with(bytes, base, FunctionHeaderFlagProhibitions::ProhibitCall))
    } else if code == 1 {
        Some(flags_with(bytes, base, FunctionHeaderFlagProhibitions::ProhibitConstruct))
    } else if code == 2 || (lenient && overflowed) {
        Some(flags_with(bytes, base, FunctionHeaderFlagProhibitions::ProhibitNone))
    } else {
        None
    }
}

/// The header that the 16 bytes of a packed record read as.
pub open spec fn parse_small_header(bytes: Seq<u8>) -> Option<FunctionHeaderFields> {
    match parse_flags(bytes, 120, true) {
        Some(flags) => Some(
            FunctionHeaderFields {
                offset: bitfield_value(bytes, 0, 25),
                param_count: bitfield_value(bytes, 25, 7),
                byte_size: bitfield_value(bytes, 32, 15),
                func_name: bitfield_value(bytes, 47, 17),
                info_offset: bitfield_value(bytes, 64, 25),
                frame_size: bitfield_value(bytes, 89, 7),
                env_size: bitfield_value(bytes, 96, 8),
                highest_read_cache_index: bitfield_value(bytes, 104, 8),
                highest_write_cache_index: bitfield_value(bytes, 112, 8),
                flags,
            },
        ),
        None => None,
    }
}

/// The header that the 32 bytes of a plain record read as.
pub open spec fn parse_large_header(bytes: Seq<u8>) -> Option<FunctionHeaderFields> {
    let words = words_at(bytes, 0, 7);
    match parse_flags(bytes.subrange(30, 31), 0, false) {
        Some(flags) => Some(
            FunctionHeaderFields {
                offset: words[0],
                param_count: words[1],
                byte_size: words[2],
                func_name: words[3],
                info_offset: words[4],
                frame_size: words[5],
                env_size: words[6],
                highest_read_cache_index: bytes[28] as u32,
                highest_write_cache_index: bytes[29] as u32,
                flags,
            },
        ),
        None => None,
    }
}

impl FunctionHeaderFields {
    /// Whether some field is too large for a header to stay small: above `2^17 - 1`.
    pub open spec fn overflows(&self) -> bool {
        self.offset > SMALL_FIELD_MAX
            || self.param_count > SMALL_FIELD_MAX
            || self.byte_size > SMALL_FIELD_MAX
            || self.func_name > SMALL_FIELD_MAX
            || self.info_offset > SMALL_FIELD_MAX
            || self.frame_size > SMALL_FIELD_MAX
            || self.env_size > SMALL_FIELD_MAX
            || self.highest_read_cache_index > SMALL_FIELD_MAX
            || self.highest_write_cache_index > SMALL_FIELD_MAX
    }

    /// Whether every field fits the width that the packed record gives it.
    pub open spec fn fits_small(&self) -> bool {
        self.offset < 0x2000000
            && self.param_count < 0x80
            && self.byte_size < 0x8000
            && self.func_name < 0x20000
            && self.info_offset < 0x2000000
            && self.frame_size < 0x80
            && self.env_size < 0x100
            && self.highest_read_cache_index < 0x100
            && self.highest_write_cache_index < 0x100
    }

    /// Whether both cache indices fit the single byte that the plain record
    /// gives each.
    pub open spec fn fits_large(&self) -> bool {
        self.highest_read_cache_index < 0x100 && self.highest_write_cache_index < 0x100
    }
}

/// Writes one field of a record that is being packed, and records it.
fn pack_field(
    bits: &mut Vec<u8>,
    start: usize,
    width: usize,
    value: u32,
    Ghost(base): Ghost<Seq<u8>>,
    Ghost(done): Ghost<Seq<Field>>,
)
    requires
        width <= 32,
        start + width <= 8 * old(bits)@.len(),
        old(bits)@ == write_fields(base, done),
    ensures
        final(bits)@ == write_fields(
            base,
            done.push(Field { start: start as int, width: width as nat, value }),
        ),
        final(bits)@.len() == old(bits)@.len(),
{
    proof {
        lemma_write_fields_push(
            base,
            done,
            Field { start: start as int, width: width as nat, value },
        );
    }
    write_bitfield(bits, start, width, value);
}

/// Writes the five flag fields of a record that is being packed.
fn pack_flags(
    bits: &mut Vec<u8>,
    base_bit: usize,
    flags: FunctionHeaderFlag,
    Ghost(base): Ghost<Seq<u8>>,
    Ghost(done): Ghost<Seq<Field>>,
)
    requires
        base_bit + 6 <= 8 * old(bits)@.len(),
        base_bit + 6 <= usize::MAX,
        old(bits)@ == write_fields(base, done),
    ensures
        final(bits)@ == write_fields(base, done + flag_layout(flags, base_bit as int)),
        final(bits)@.len() == old(bits)@.len(),
{
    let ghost l = flag_layout(flags, base_bit as int);
    pack_field(bits, base_bit, 2, flags.prohibit_invoke.code(), Ghost(base), Ghost(done));
    let ghost d1 = done.push(l[0]);
    pack_field(bits, base_bit + 2, 1, if flags.strict_mode { 1 } else { 0 }, Ghost(base), Ghost(d1));
    let ghost d2 = d1.push(l[1]);
    pack_field(
        bits,
        base_bit + 3,
        1,
        if flags.has_exception_handler { 1 } else { 0 },
        Ghost(base),
        Ghost(d2),
    );
    let ghost d3 = d2.push(l[2]);
    pack_field(bits, base_bit + 4, 1, if flags.has_debug_info { 1 } else { 0 }, Ghost(base), Ghost(d3));
    let ghost d4 = d3.push(l[3]);
    pack_field(bits, base_bit + 5, 1, if flags.overflowed { 1 } else { 0 }, Ghost(base), Ghost(d4));
    assert(d4.push(l[4]) =~= done + l);
}

/// Reads the flags that the six bits from bit `base_bit` hold.
fn read_flags(bits: &[u8], base_bit: usize, lenient: bool) -> (res: Option<FunctionHeaderFlag>)
    requires
        base_bit + 6 <= 8 * bits@.len(),
        base_bit + 6 <= usize::MAX,
    ensures
        res == parse_flags(bits@, base_bit as int, lenient),
{
    let code = read_bitfield(bits, base_bit, 2);
    let strict_mode = read_bitfield(bits, base_bit + 2, 1) == 1;
    let has_exception_handler = read_bitfield(bits, base_bit + 3, 1) == 1;
    let has_debug_info = read_bitfield(bits, base_bit + 4, 1) == 1;
    let overflowed = read_bitfield(bits, base_bit + 5, 1) == 1;
    let prohibit_invoke = if code == 0 {
        FunctionHeaderFlagProhibitions::ProhibitCall
    } else if code == 1 {
        FunctionHeaderFlagProhibitions::ProhibitConstruct
    } else if code == 2 || (lenient && overflowed) {
        FunctionHeaderFlagProhibitions::ProhibitNone
    } else {
        return None;
    };
    Some(
        FunctionHeaderFlag {
            prohibit_invoke,
            strict_mode,
            has_exception_handler,
            has_debug_info,
            overflowed,
        },
    )
}

/// A function header held as a packed 16-byte record.
#[derive(Debug, Clone, PartialEq, Eq)]
pub struct SmallFunctionHeader {
    pub offset: u32,
    pub param_count: u32,
    pub byte_size: u32,
    pub func_name: u32,
    pub info_offset: u32,
    pub frame_size: u32,
    pub env_size: u32,
    pub highest_read_cache_index: u32,
    pub highest_write_cache_index: u32,
    pub flags: FunctionHeaderFlag,
    /// The function's exception handlers, stored apart from the record.
    pub exception_handlers: Vec<ExceptionHandlerInfo>,
    /// Where the function's debug data lies, stored apart from the record.
    pub debug_info: Option<DebugInfoOffsets>,
}

impl SmallFunctionHeader {
    /// The numbers and flags of the header.
    pub open spec fn fields(&self) -> FunctionHeaderFields {
        FunctionHeaderFields {
            offset: self.offset,
            param_count: self.param_count,
            byte_size: self.byte_size,
            func_name: self.func_name,
            info_offset: self.info_offset,
            frame_size: self.frame_size,
            env_size: self.env_size,
            highest_read_cache_index: self.highest_read_cache_index,
            highest_write_cache_index: self.highest_write_cache_index,
            flags: self.flags,
        }
    }

    /// A header of zeros that prohibits nothing and has neither handlers
    /// nor debug offsets.
    pub fn new() -> (h: Self)
        ensures
            h.fields() == (FunctionHeaderFields {
                offset: 0,
                param_count: 0,
                byte_size: 0,
                func_name: 0,
                info_offset: 0,
                frame_size: 0,
                env_size: 0,
                highest_read_cache_index: 0,
                highest_write_cache_index: 0,
                flags: FunctionHeaderFlag {
                    prohibit_invoke: FunctionHeaderFlagProhibitions::ProhibitNone,
                    strict_mode: false,
                    has_exception_handler: false,
                    has_debug_info: false,
                    overflowed: false,
                },
            }),
            h.exception_handlers@.len() == 0,
            h.debug_info is None,
    {
        SmallFunctionHeader {
            offset: 0,
            param_count: 0,
            byte_size: 0,
            func_name: 0,
            info_offset: 0,
            frame_size: 0,
            env_size: 0,
            highest_read_cache_index: 0,
            highest_write_cache_index: 0,
            flags: FunctionHeaderFlag {
                prohibit_invoke: FunctionHeaderFlagProhibitions::ProhibitNone,
                strict_mode: false,
                has_exception_handler: false,
                has_debug_info: false,
                overflowed: false,
            },
            exception_handlers: Vec::new(),
            debug_info: None,
        }
    }

    /// Sets the size of the function's bytecode.
    pub fn set_size(&mut self, new_size: u32)
        ensures
            final(self).fields() == (FunctionHeaderFields { byte_size: new_size, ..old(self).fields() }),
            final(self).exception_handlers == old(self).exception_handlers,
            final(self).debug_info == old(self).debug_info,
    {
        self.byte_size = new_size;
    }

    /// Whether some field is above `2^17 - 1`, so that the header has to be
    /// written as a plain record.
    pub fn is_overflowed_check(&self) -> (b: bool)
        ensures
            b == self.fields().overflows(),
    {
        self.offset > SMALL_FIELD_MAX
            || self.param_count > SMALL_FIELD_MAX
            || self.byte_size > SMALL_FIELD_MAX
            || self.func_name > SMALL_FIELD_MAX
            || self.info_offset > SMALL_FIELD_MAX
            || self.frame_size > SMALL_FIELD_MAX
            || self.env_size > SMALL_FIELD_MAX
            || self.highest_read_cache_index > SMALL_FIELD_MAX
            || self.highest_write_cache_index > SMALL_FIELD_MAX
    }

    /// The packed record takes 16 bytes.
    pub fn size(&self) -> (n: usize)
        ensures
            n == 16,
    {
        16
    }

    /// Reads a packed record. The handler list and the debug offsets, which
    /// lie elsewhere in the file, are left empty.
    pub fn deserialize(r: &mut Reader, _version: u32) -> (res: Result<Self, HermesError>)
        ensures
            match res {
                Ok(v) => old(r).can_read(16) && parse_small_header(old(r).peek(16)) == Some(
                    v.fields(),
                ) && v.exception_handlers@.len() == 0 && v.debug_info is None
                    && final(r).advanced_from(old(r), 16),
                Err(e) => e == HermesError::MalformedInput && final(r).unmoved_from(old(r)) && (
                !old(r).can_read(16) || parse_small_header(old(r).peek(16)) is None),
            },
    {
        let start: usize = r.position();
        let bytes = r.read_exact(16)?;
        let offset = read_bitfield(bytes.as_slice(), 0, 25);
        let param_count = read_bitfield(bytes.as_slice(), 25, 7);
        let byte_size = read_bitfield(bytes.as_slice(), 32, 15);
        let func_name = read_bitfield(bytes.as_slice(), 47, 17);
        let info_offset = read_bitfield(bytes.as_slice(), 64, 25);
        let frame_size = read_bitfield(bytes.as_slice(), 89, 7);
        let env_size = read_bitfield(bytes.as_slice(), 96, 8);
        let highest_read_cache_index = read_bitfield(bytes.as_slice(), 104, 8);
        let highest_write_cache_index = read_bitfield(bytes.as_slice(), 112, 8);
        match read_flags(bytes.as_slice(), 120, true) {
            Some(flags) => Ok(
                SmallFunctionHeader {
                    offset,
                    param_count,
                    byte_size,
                    func_name,
                    info_offset,
                    frame_size,
                    env_size,
                    highest_read_cache_index,
                    highest_write_cache_index,
                    flags,
                    exception_handlers: Vec::new(),
                    debug_info: None,
                },
            ),
            None => {
                r.seek(start);
                Err(HermesError::MalformedInput)
            },
        }
    }

    /// Appends the packed record. Each number is cut to the width of its field.
    pub fn serialize(&self, w: &mut Writer)
        ensures
            final(w)@ == old(w)@ + small_header_bytes(self.fields()),
    {
        let mut bytes = zero_bytes(16);
        let ghost mut done: Seq<Field> = Seq::empty();
        pack_field(&mut bytes, 0, 25, self.offset, Ghost(zeros(16)), Ghost(done));
        proof {
            done = done.push(Field { start: 0, width: 25, value: self.offset });
        }
        pack_field(&mut bytes, 25, 7, self.param_count, Ghost(zeros(16)), Ghost(done));
        proof {
            done = done.push(Field { start: 25, width: 7, value: self.param_count });
        }
        pack_field(&mut bytes, 32, 15, self.byte_size, Ghost(zeros(16)), Ghost(done));
        proof {
            done = done.push(Field { start: 32, width: 15, value: self.byte_size });
        }
        pack_field(&mut bytes, 47, 17, self.func_name, Ghost(zeros(16)), Ghost(done));
        proof {
            done = done.push(Field { start: 47, width: 17, value: self.func_name });
        }
        pack_field(&mut bytes, 64, 25, self.info_offset, Ghost(zeros(16)), Ghost(done));
        proof {
            done = done.push(Field { start: 64, width: 25, value: self.info_offset });
        }
        pack_field(&mut bytes, 89, 7, self.frame_size, Ghost(zeros(16)), Ghost(done));
        proof {
            done = done.push(Field { start: 89, width: 7, value: self.frame_size });
        }
        pack_field(&mut bytes, 96, 8, self.env_size, Ghost(zeros(16)), Ghost(done));
        proof {
            done = done.push(Field { start: 96, width: 8, value: self.env_size });
        }
        pack_field(&mut bytes, 104, 8, self.highest_read_cache_index, Ghost(zeros(16)), Ghost(done));
        proof {
            done = done.push(Field { start: 104, width: 8, value: self.highest_read_cache_index });
        }
        pack_field(&mut bytes, 112, 8, self.highest_write_cache_index, Ghost(zeros(16)), Ghost(done));
        proof {
            done = done.push(Field { start: 112, width: 8, value: self.highest_write_cache_index });
        }
        pack_flags(&mut bytes, 120, self.flags, Ghost(zeros(16)), Ghost(done));
        assert(done + flag_layout(self.flags, 120) =~= small_layout(self.fields()));
        w.write_all(bytes.as_slice());
    }
}

impl Default for SmallFunctionHeader {
    fn default() -> (h: Self)
        ensures
            h.exception_handlers@.len() == 0,
            h.debug_info is None,
    {
        Self::new()
    }
}

/// A function header held as a plain 32-byte record.
#[derive(Debug, Clone, PartialEq, Eq)]
pub struct LargeFunctionHeader {
    pub offset: u32,
    pub param_count: u32,
    pub byte_size: u32,
    pub func_name: u32,
    pub info_offset: u32,
    pub frame_size: u32,
    pub env_size: u32,
    pub highest_read_cache_index: u32,
    pub highest_write_cache_index: u32,
    pub flags: FunctionHeaderFlag,
    /// The function's exception handlers, stored apart from the record.
    pub exception_handlers: Vec<ExceptionHandlerInfo>,
    /// Where the function's debug data lies, stored apart from the record.
    pub debug_info: Option<DebugInfoOffsets>,
}

impl LargeFunctionHeader {
    /// The numbers and flags of the header.
    pub open spec fn fields(&self) -> FunctionHeaderFields {
        FunctionHeaderFields {
            offset: self.offset,
            param_count: self.param_count,
            byte_size: self.byte_size,
            func_name: self.func_name,
            info_offset: self.info_offset,
            frame_size: self.frame_size,
            env_size: self.env_size,
            highest_read_cache_index: self.highest_read_cache_index,
            highest_write_cache_index: self.highest_write_cache_index,
            flags: self.flags,
        }
    }

    /// A header of zeros that prohibits nothing and has neither handlers
    /// nor debug offsets.
    pub fn new() -> (h: Self)
        ensures
            h.fields() == (FunctionHeaderFields {
                offset: 0,
                param_count: 0,
                byte_size: 0,
                func_name: 0,
                info_offset: 0,
                frame_size: 0,
                env_size: 0,
                highest_read_cache_index: 0,
                highest_write_cache_index: 0,
                flags: FunctionHeaderFlag {
                    prohibit_invoke: FunctionHeaderFlagProhibitions::ProhibitNone,
                    strict_mode: false,
                    has_exception_handler: false,
                    has_debug_info: false,
                    overflowed: false,
                },
            }),
            h.exception_handlers@.len() == 0,
            h.debug_info is None,
    {
        LargeFunctionHeader {
            offset: 0,
            param_count: 0,
            byte_size: 0,
            func_name: 0,
            info_offset: 0,
            frame_size: 0,
            env_size: 0,
            highest_read_cache_index: 0,
            highest_write_cache_index: 0,
            flags: FunctionHeaderFlag {
                prohibit_invoke: FunctionHeaderFlagProhibitions::ProhibitNone,
                strict_mode: false,
                has_exception_handler: false,
                has_debug_info: false,
                overflowed: false,
            },
            exception_handlers: Vec::new(),
            debug_info: None,
        }
    }

    /// Sets the size of the function's bytecode.
    pub fn set_size(&mut self, new_size: u32)
        ensures
            final(self).fields() == (FunctionHeaderFields { byte_size: new_size, ..old(self).fields() }),
            final(self).exception_handlers == old(self).exception_handlers,
            final(self).debug_info == old(self).debug_info,
    {
        self.byte_size = new_size;
    }

    /// Whether some field is above `2^17 - 1`, so that the header has to be
    /// written as a plain record.
    pub fn is_overflowed_check(&self) -> (b: bool)
        ensures
            b == self.fields().overflows(),
    {
        self.offset > SMALL_FIELD_MAX
            || self.param_count > SMALL_FIELD_MAX
            || self.byte_size > SMALL_FIELD_MAX
            || self.func_name > SMALL_FIELD_MAX
            || self.info_offset > SMALL_FIELD_MAX
            || self.frame_size > SMALL_FIELD_MAX
            || self.env_size > SMALL_FIELD_MAX
            || self.highest_read_cache_index > SMALL_FIELD_MAX
            || self.highest_write_cache_index > SMALL_FIELD_MAX
    }

    /// The plain record takes 32 bytes.
    pub fn size(&self) -> (n: usize)
        ensures
            n == 32,
    {
        32
    }

    /// Reads a plain record. The handler list and the debug offsets, which
    /// follow the record in the file, are left empty.
    pub fn deserialize(r: &mut Reader, _version: u32) -> (res: Result<Self, HermesError>)
        ensures
            match res {
                Ok(v) => old(r).can_read(32) && parse_large_header(old(r).peek(32)) == Some(
                    v.fields(),
                ) && v.exception_handlers@.len() == 0 && v.debug_info is None
                    && final(r).advanced_from(old(r), 32),
                Err(e) => e == HermesError::MalformedInput && final(r).unmoved_from(old(r)) && (
                !old(r).can_read(32) || parse_large_header(old(r).peek(32)) is None),
            },
    {
        let start: usize = r.position();
        let bytes = r.read_exact(32)?;
        let ghost whole = bytes@;
        let mut rest = Reader::new(bytes);
        let words = read_words(&mut rest, 7)?;
        let offset = words[0];
        let param_count = words[1];
        let byte_size = words[2];
        let func_name = words[3];
        let info_offset = words[4];
        let frame_size = words[5];
        let env_size = words[6];
        let highest_read_cache_index = decode_u8(&mut rest)?;
        let highest_write_cache_index = decode_u8(&mut rest)?;
        let flag_bytes = rest.read_exact(1)?;
        assert(flag_bytes@ =~= whole.subrange(30, 31));
        match read_flags(flag_bytes.as_slice(), 0, false) {
            Some(flags) => Ok(
                LargeFunctionHeader {
                    offset,
                    param_count,
                    byte_size,
                    func_name,
                    info_offset,
                    frame_size,
                    env_size,
                    highest_read_cache_index: highest_read_cache_index as u32,
                    highest_write_cache_index: highest_write_cache_index as u32,
                    flags,
                    exception_handlers: Vec::new(),
                    debug_info: None,
                },
            ),
            None => {
                r.seek(start);
                Err(HermesError::MalformedInput)
            },
        }
    }

    /// Appends the plain record. Each cache index is cut to one byte.
    pub fn serialize(&self, w: &mut Writer)
        ensures
            final(w)@ == old(w)@ + large_header_bytes(self.fields()),
    {
        let mut words: Vec<u32> = Vec::new();
        words.push(self.offset);
        words.push(self.param_count);
        words.push(self.byte_size);
        words.push(self.func_name);
        words.push(self.info_offset);
        words.push(self.frame_size);
        words.push(self.env_size);
        assert(words@ =~= large_header_words(self.fields()));
        write_words(w, &words);
        encode_u8(w, (self.highest_read_cache_index % 0x100) as u8);
        encode_u8(w, (self.highest_write_cache_index % 0x100) as u8);
        let mut flag_bytes = zero_bytes(1);
        pack_flags(&mut flag_bytes, 0, self.flags, Ghost(zeros(1)), Ghost(Seq::empty()));
        assert(Seq::<Field>::empty() + flag_layout(self.flags, 0) =~= flag_layout(self.flags, 0));
        w.write_all(flag_bytes.as_slice());
        encode_u8(w, 0);
        assert(w@ =~= old(w)@ + large_header_bytes(self.fields()));
    }
}

impl Default for LargeFunctionHeader {
    fn default() -> (h: Self)
        ensures
            h.exception_handlers@.len() == 0,
            h.debug_info is None,
    {
        Self::new()
    }
}

/// A function header in either of its two shapes.
#[derive(Debug, Clone, PartialEq, Eq)]
pub enum FunctionHeader {
    Small(SmallFunctionHeader),
    Large(LargeFunctionHeader),
}

impl FunctionHeader {
    /// The numbers and flags of the header.
    pub open spec fn fields(&self) -> FunctionHeaderFields {
        match self {
            FunctionHeader::Small(fh) => fh.fields(),
            FunctionHeader::Large(fh) => fh.fields(),
        }
    }

    /// The header's exception handlers.
    pub open spec fn spec_exception_handlers(&self) -> Seq<ExceptionHandlerInfo> {
        match self {
            FunctionHeader::Small(fh) => fh.exception_handlers@,
            FunctionHeader::Large(fh) => fh.exception_handlers@,
        }
    }

    /// The header's debug offsets.
    pub open spec fn spec_debug_info(&self) -> Option<DebugInfoOffsets> {
        match self {
            FunctionHeader::Small(fh) => fh.debug_info,
            FunctionHeader::Large(fh) => fh.debug_info,
        }
    }

    /// This header is `before` with its numbers and flags replaced by
    /// `fields`: the same shape, handlers and debug offsets.
    pub open spec fn is_update_of(&self, before: &FunctionHeader, fields: FunctionHeaderFields) -> bool {
        &&& (*self is Small) == (*before is Small)
        &&& self.fields() == fields
        &&& self.spec_exception_handlers() == before.spec_exception_handlers()
        &&& self.spec_debug_info() == before.spec_debug_info()
    }

    /// Returns the offset of the function's bytecode.
    pub fn offset(&self) -> (v: u32)
        ensures
            v == self.fields().offset,
    {
        match self {
            FunctionHeader::Small(fh) => fh.offset,
            FunctionHeader::Large(fh) => fh.offset,
        }
    }

    /// Sets the offset of the function's bytecode.
    pub fn set_offset(&mut self, new_offset: u32)
        ensures
            final(self).is_update_of(
                old(self),
                FunctionHeaderFields { offset: new_offset, ..old(self).fields() },
            ),
    {
        match self {
            FunctionHeader::Small(fh) => fh.offset = new_offset,
            FunctionHeader::Large(fh) => fh.offset = new_offset,
        }
    }

    /// Sets the size of the function's bytecode.
    pub fn set_size(&mut self, byte_size: u32)
        ensures
            final(self).is_update_of(
                old(self),
                FunctionHeaderFields { byte_size: byte_size, ..old(self).fields() },
            ),
    {
        match self {
            FunctionHeader::Small(fh) => fh.byte_size = byte_size,
            FunctionHeader::Large(fh) => fh.byte_size = byte_size,
        }
    }

    /// Returns the number of parameters.
    pub fn param_count(&self) -> (v: u32)
        ensures
            v == self.fields().param_count,
    {
        match self {
            FunctionHeader::Small(fh) => fh.param_count,
            FunctionHeader::Large(fh) => fh.param_count,
        }
    }

    /// Returns the size of the function's bytecode.
    pub fn byte_size(&self) -> (v: u32)
        ensures
            v == self.fields().byte_size,
    {
        match self {
            FunctionHeader::Small(fh) => fh.byte_size,
            FunctionHeader::Large(fh) => fh.byte_size,
        }
    }

    /// Sets the size of the function's bytecode.
    pub fn set_byte_size(&mut self, new_size: u32)
        ensures
            final(self).is_update_of(
                old(self),
                FunctionHeaderFields { byte_size: new_size, ..old(self).fields() },
            ),
    {
        match self {
            FunctionHeader::Small(fh) => fh.byte_size = new_size,
            FunctionHeader::Large(fh) => fh.byte_size = new_size,
        }
    }

    /// Returns the index of the string that names the function.
    pub fn func_name(&self) -> (v: u32)
        ensures
            v == self.fields().func_name,
    {
        match self {
            FunctionHeader::Small(fh) => fh.func_name,
            FunctionHeader::Large(fh) => fh.func_name,
        }
    }

    /// Sets the offset of the handlers and debug offsets.
    pub fn set_info_offset(&mut self, offset: u32)
        ensures
            final(self).is_update_of(
                old(self),
                FunctionHeaderFields { info_offset: offset, ..old(self).fields() },
            ),
    {
        match self {
            FunctionHeader::Small(fh) => fh.info_offset = offset,
            FunctionHeader::Large(fh) => fh.info_offset = offset,
        }
    }

    /// Returns the offset of the handlers and debug offsets.
    pub fn info_offset(&self) -> (v: u32)
        ensures
            v == self.fields().info_offset,
    {
        match self {
            FunctionHeader::Small(fh) => fh.info_offset,
            FunctionHeader::Large(fh) => fh.info_offset,
        }
    }

    /// Returns the number of registers.
    pub fn frame_size(&self) -> (v: u32)
        ensures
            v == self.fields().frame_size,
    {
        match self {
            FunctionHeader::Small(fh) => fh.frame_size,
            FunctionHeader::Large(fh) => fh.frame_size,
        }
    }

    /// Returns the number of environment slots.
    pub fn env_size(&self) -> (v: u32)
        ensures
            v == self.fields().env_size,
    {
        match self {
            FunctionHeader::Small(fh) => fh.env_size,
            FunctionHeader::Large(fh) => fh.env_size,
        }
    }

    /// Returns the highest read-cache index.
    pub fn highest_read_cache_index(&self) -> (v: u32)
        ensures
            v == self.fields().highest_read_cache_index,
    {
        match self {
            FunctionHeader::Small(fh) => fh.highest_read_cache_index,
            FunctionHeader::Large(fh) => fh.highest_read_cache_index,
        }
    }

    /// Returns the highest write-cache index.
    pub fn highest_write_cache_index(&self) -> (v: u32)
        ensures
            v == self.fields().highest_write_cache_index,
    {
        match self {
            FunctionHeader::Small(fh) => fh.highest_write_cache_index,
            FunctionHeader::Large(fh) => fh.highest_write_cache_index,
        }
    }

    /// Returns the flags.
    pub fn flags(&self) -> (v: FunctionHeaderFlag)
        ensures
            v == self.fields().flags,
    {
        match self {
            FunctionHeader::Small(fh) => fh.flags,
            FunctionHeader::Large(fh) => fh.flags,
        }
    }

    /// Sets the overflowed flag.
    pub fn set_overflowed(&mut self, overflowed: bool)
        ensures
            final(self).is_update_of(
                old(self),
                FunctionHeaderFields {
                    flags: FunctionHeaderFlag { overflowed, ..old(self).fields().flags },
                    ..old(self).fields()
                },
            ),
    {
        match self {
            FunctionHeader::Small(fh) => fh.flags.overflowed = overflowed,
            FunctionHeader::Large(fh) => fh.flags.overflowed = overflowed,
        }
    }

    /// Returns a copy of the exception handlers.
    pub fn exception_handlers(&self) -> (v: Vec<ExceptionHandlerInfo>)
        ensures
            v@ == self.spec_exception_handlers(),
    {
        match self {
            FunctionHeader::Small(fh) => copy_handlers(&fh.exception_handlers),
            FunctionHeader::Large(fh) => copy_handlers(&fh.exception_handlers),
        }
    }

    /// Replaces the exception handlers.
    pub fn set_exception_handlers(&mut self, new_handlers: Vec<ExceptionHandlerInfo>)
        ensures
            (*final(self) is Small) == (*old(self) is Small),
            final(self).fields() == old(self).fields(),
            final(self).spec_exception_handlers() == new_handlers@,
            final(self).spec_debug_info() == old(self).spec_debug_info(),
    {
        match self {
            FunctionHeader::Small(fh) => fh.exception_handlers = new_handlers,
            FunctionHeader::Large(fh) => fh.exception_handlers = new_handlers,
        }
    }

    /// Returns the debug offsets.
    pub fn debug_info(&self) -> (v: Option<DebugInfoOffsets>)
        ensures
            v == self.spec_debug_info(),
    {
        match self {
            FunctionHeader::Small(fh) => fh.debug_info,
            FunctionHeader::Large(fh) => fh.debug_info,
        }
    }

    /// Replaces the debug offsets.
    pub fn set_debug_info(&mut self, new_debug_info: Option<DebugInfoOffsets>)
        ensures
            (*final(self) is Small) == (*old(self) is Small),
            final(self).fields() == old(self).fields(),
            final(self).spec_exception_handlers() == old(self).spec_exception_handlers(),
            final(self).spec_debug_info() == new_debug_info,
    {
        match self {
            FunctionHeader::Small(fh) => fh.debug_info = new_debug_info,
            FunctionHeader::Large(fh) => fh.debug_info = new_debug_info,
        }
    }

    /// The bytes of the header's record: 16 for the packed shape, 32 for the plain one.
    pub open spec fn spec_bytes(&self) -> Seq<u8> {
        match self {
            FunctionHeader::Small(fh) => small_header_bytes(fh.fields()),
            FunctionHeader::Large(fh) => large_header_bytes(fh.fields()),
        }
    }

    /// Appends the header's record.
    pub fn serialize(&self, w: &mut Writer)
        ensures
            final(w)@ == old(w)@ + self.spec_bytes(),
    {
        match self {
            FunctionHeader::Small(fh) => fh.serialize(w),
            FunctionHeader::Large(fh) => fh.serialize(w),
        }
    }

    /// The number of bytes of the header's record.
    pub fn size(&self) -> (n: usize)
        ensures
            n == (if *self is Small { 16int } else { 32int }),
    {
        match self {
            FunctionHeader::Small(fh) => fh.size(),
            FunctionHeader::Large(fh) => fh.size(),
        }
    }

    /// Whether some field is above `2^17 - 1`.
    pub fn is_overflowed_check(&self) -> (b: bool)
        ensures
            b == self.fields().overflows(),
    {
        match self {
            FunctionHeader::Small(fh) => fh.is_overflowed_check(),
            FunctionHeader::Large(fh) => fh.is_overflowed_check(),
        }
    }

    /// Whether the header has the plain shape.
    pub fn is_large(&self) -> (b: bool)
        ensures
            b == (*self is Large),
    {
        match self {
            FunctionHeader::Small(_) => false,
            FunctionHeader::Large(_) => true,
        }
    }
}

/// A copy of a handler list.
pub fn copy_handlers(handlers: &Vec<ExceptionHandlerInfo>) -> (v: Vec<ExceptionHandlerInfo>)
    ensures
        v@ == handlers@,
{
    let mut v: Vec<ExceptionHandlerInfo> = Vec::new();
    let mut i: usize = 0;
    while i < handlers.len()
        invariant
            i <= handlers@.len(),
            v@ == handlers@.subrange(0, i as int),
        decreases handlers@.len() - i,
    {
        v.push(handlers[i]);
        i = i + 1;
        assert(v@ =~= handlers@.subrange(0, i as int));
    }
    assert(handlers@.subrange(0, i as int) =~= handlers@);
    v
}

impl SmallFunctionHeader {
    /// The small header that stands in for a large one: the large header's
    /// `info_offset` is split into `offset` (low 16 bits) and `info_offset`
    /// (high 16 bits); everything else is taken over.
    pub fn from_large(lfh: LargeFunctionHeader) -> (sfh: Self)
        ensures
            sfh.fields() == (FunctionHeaderFields {
                offset: lfh.info_offset % 0x1_0000,
                info_offset: lfh.info_offset / 0x1_0000,
                ..lfh.fields()
            }),
            sfh.exception_handlers == lfh.exception_handlers,
            sfh.debug_info == lfh.debug_info,
    {
        let (calculated_offset, calculated_info_offset) = get_large_info_offset_pair(lfh.info_offset);
        SmallFunctionHeader {
            offset: calculated_offset,
            param_count: lfh.param_count,
            byte_size: lfh.byte_size,
            func_name: lfh.func_name,
            info_offset: calculated_info_offset,
            frame_size: lfh.frame_size,
            env_size: lfh.env_size,
            highest_read_cache_index: lfh.highest_read_cache_index,
            highest_write_cache_index: lfh.highest_write_cache_index,
            flags: lfh.flags,
            exception_handlers: lfh.exception_handlers,
            debug_info: lfh.debug_info,
        }
    }
}

impl LargeFunctionHeader {
    /// The large header with the fields, handlers and debug offsets of a small one.
    pub fn from_small(sfh: SmallFunctionHeader) -> (lfh: Self)
        ensures
            lfh.fields() == sfh.fields(),
            lfh.exception_handlers == sfh.exception_handlers,
            lfh.debug_info == sfh.debug_info,
    {
        LargeFunctionHeader {
            offset: sfh.offset,
            param_count: sfh.param_count,
            byte_size: sfh.byte_size,
            func_name: sfh.func_name,
            info_offset: sfh.info_offset,
            frame_size: sfh.frame_size,
            env_size: sfh.env_size,
            highest_read_cache_index: sfh.highest_read_cache_index,
            highest_write_cache_index: sfh.highest_write_cache_index,
            flags: sfh.flags,
            exception_handlers: sfh.exception_handlers,
            debug_info: sfh.debug_info,
        }
    }
}

/// The flag fields lie in six bits from `base`, in order.
proof fn lemma_flag_layout(flags: FunctionHeaderFlag, base: int, len: nat)
    requires
        0 <= base,
        base + 6 <= 8 * len,
    ensures
        fields_laid_out(flag_layout(flags, base), len),
{
}

/// The flags written from bit `base` on read back as they were, whatever
/// else the record holds outside those six bits.
proof fn lemma_flags_read_back(bits: Seq<u8>, done: Seq<Field>, flags: FunctionHeaderFlag, base: int, lenient: bool)
    requires
        fields_laid_out(done + flag_layout(flags, base), bits.len()),
    ensures
        parse_flags(write_fields(bits, done + flag_layout(flags, base)), base, lenient) == Some(flags),
{
    let all = done + flag_layout(flags, base);
    let n = done.len() as int;
    lemma_field_limits();
    lemma_read_written_field(bits, all, n);
    lemma_read_written_field(bits, all, n + 1);
    lemma_read_written_field(bits, all, n + 2);
    lemma_read_written_field(bits, all, n + 3);
    lemma_read_written_field(bits, all, n + 4);
    lemma_low_mask_fits(flags.prohibit_invoke.spec_code(), 2);
    lemma_low_mask_fits(bit(flags.strict_mode), 1);
    lemma_low_mask_fits(bit(flags.has_exception_handler), 1);
    lemma_low_mask_fits(bit(flags.has_debug_info), 1);
    lemma_low_mask_fits(bit(flags.overflowed), 1);
}

/// The packed record is 16 bytes long and its flags read back as written.
pub proof fn lemma_small_header_flags(c: FunctionHeaderFields)
    ensures
        small_header_bytes(c).len() == 16,
        parse_flags(small_header_bytes(c), 120, true) == Some(c.flags),
        bitfield_value(small_header_bytes(c), 125, 1) == bit(c.flags.overflowed),
{
    let all = small_layout(c);
    assert(fields_laid_out(all, 16));
    lemma_write_fields_len(zeros(16), all);
    assert(all =~= all.subrange(0, 9) + flag_layout(c.flags, 120));
    lemma_flags_read_back(zeros(16), all.subrange(0, 9), c.flags, 120, true);
    lemma_field_limits();
    lemma_read_written_field(zeros(16), all, 13);
    lemma_low_mask_fits(bit(c.flags.overflowed), 1);
}

/// A header whose fields all fit the packed record is written as 16 bytes
/// that read back as the same header.
pub proof fn lemma_small_header_round_trip(c: FunctionHeaderFields)
    requires
        c.fits_small(),
    ensures
        small_header_bytes(c).len() == 16,
        parse_small_header(small_header_bytes(c)) == Some(c),
{
    let all = small_layout(c);
    lemma_small_header_flags(c);
    lemma_field_limits();
    lemma_read_written_field(zeros(16), all, 0);
    lemma_low_mask_fits(c.offset, 25);
    lemma_read_written_field(zeros(16), all, 1);
    lemma_low_mask_fits(c.param_count, 7);
    lemma_read_written_field(zeros(16), all, 2);
    lemma_low_mask_fits(c.byte_size, 15);
    lemma_read_written_field(zeros(16), all, 3);
    lemma_low_mask_fits(c.func_name, 17);
    lemma_read_written_field(zeros(16), all, 4);
    lemma_low_mask_fits(c.info_offset, 25);
    lemma_read_written_field(zeros(16), all, 5);
    lemma_low_mask_fits(c.frame_size, 7);
    lemma_read_written_field(zeros(16), all, 6);
    lemma_low_mask_fits(c.env_size, 8);
    lemma_read_written_field(zeros(16), all, 7);
    lemma_low_mask_fits(c.highest_read_cache_index, 8);
    lemma_read_written_field(zeros(16), all, 8);
    lemma_low_mask_fits(c.highest_write_cache_index, 8);
}

/// The `offset` and `info_offset` of a packed record read back as written
/// whenever those two fit their 25 bits, whatever the other fields hold.
pub proof fn lemma_small_header_offsets(c: FunctionHeaderFields)
    requires
        c.offset < 0x200_0000,
        c.info_offset < 0x200_0000,
    ensures
        bitfield_value(small_header_bytes(c), 0, 25) == c.offset,
        bitfield_value(small_header_bytes(c), 64, 25) == c.info_offset,
{
    let all = small_layout(c);
    assert(fields_laid_out(all, 16));
    lemma_field_limits();
    lemma_read_written_field(zeros(16), all, 0);
    lemma_read_written_field(zeros(16), all, 4);
    lemma_low_mask_fits(c.offset, 25);
    lemma_low_mask_fits(c.info_offset, 25);
}

/// The plain record takes 32 bytes, whatever its numbers.
pub proof fn lemma_large_header_flags_len(c: FunctionHeaderFields)
    ensures
        large_header_bytes(c).len() == 32,
{
    lemma_flag_layout(c.flags, 0, 1);
    lemma_write_fields_len(zeros(1), flag_layout(c.flags, 0));
    lemma_words_bytes_len(large_header_words(c));
}

/// A header whose cache indices fit one byte each is written as a 32-byte
/// plain record that reads back as the same header.
pub proof fn lemma_large_header_round_trip(c: FunctionHeaderFields)
    requires
        c.fits_large(),
    ensures
        large_header_bytes(c).len() == 32,
        parse_large_header(large_header_bytes(c)) == Some(c),
{
    let words = large_header_words(c);
    let tail = seq![
        (c.highest_read_cache_index % 0x100) as u8,
        (c.highest_write_cache_index % 0x100) as u8,
    ] + flags_byte(c.flags) + zeros(1);
    let b = large_header_bytes(c);
    lemma_flag_layout(c.flags, 0, 1);
    lemma_write_fields_len(zeros(1), flag_layout(c.flags, 0));
    assert(Seq::<Field>::empty() + flag_layout(c.flags, 0) =~= flag_layout(c.flags, 0));
    lemma_flags_read_back(zeros(1), Seq::empty(), c.flags, 0, false);
    lemma_words_bytes_len(words);
    lemma_words_round_trip(Seq::empty(), words, tail);
    assert(b =~= Seq::<u8>::empty() + words_bytes(words) + tail);
    assert(b.subrange(30, 31) =~= flags_byte(c.flags));
}

/// What a function header is, apart from how it is held: its shape, its
/// numbers and flags, its exception handlers and its debug offsets.
pub struct FunctionHeaderView {
    pub is_large: bool,
    pub fields: FunctionHeaderFields,
    pub handlers: Seq<ExceptionHandlerInfo>,
    pub debug_info: Option<DebugInfoOffsets>,
}

impl View for FunctionHeader {
    type V = FunctionHeaderView;

    open spec fn view(&self) -> FunctionHeaderView {
        FunctionHeaderView {
            is_large: *self is Large,
            fields: self.fields(),
            handlers: self.spec_exception_handlers(),
            debug_info: self.spec_debug_info(),
        }
    }
}

/// The exception handlers found from `at` on: at the next multiple of four
/// a count, then that many handlers. With them, the offset where they end.
pub open spec fn spec_handlers_at(data: Seq<u8>, at: int, version: u32) -> Option<
    (Seq<ExceptionHandlerInfo>, int),
> {
    let a = aligned_up(at, 4);
    if a + 4 <= data.len() {
        let n = u32_at(data, a);
        if a + 4 + 12 * n <= data.len() {
            Some((parse_table_at::<ExceptionHandlerInfo>(data, a + 4, n as nat, version), a + 4 + 12 * n))
        } else {
            None
        }
    } else {
        None
    }
}

/// The debug offsets found at the next multiple of four from `at` on.
pub open spec fn spec_debug_offsets_at(data: Seq<u8>, at: int, version: u32) -> Option<
    DebugInfoOffsets,
> {
    let b = aligned_up(at, 4);
    let n = DebugInfoOffsets::spec_size_for(version) as int;
    if b + n <= data.len() {
        Some(DebugInfoOffsets::spec_parse(data.subrange(b, b + n), version))
    } else {
        None
    }
}

/// What hangs off a header with the given flags, found from `at` on: the
/// exception handlers if the header has any, then the debug offsets if it
/// has them.
pub open spec fn spec_info_at(data: Seq<u8>, at: int, flags: FunctionHeaderFlag, version: u32) -> Option<
    (Seq<ExceptionHandlerInfo>, Option<DebugInfoOffsets>),
> {
    let handlers = if flags.has_exception_handler {
        spec_handlers_at(data, at, version)
    } else {
        Some((Seq::empty(), at))
    };
    match handlers {
        None => None,
        Some((list, end)) => if flags.has_debug_info {
            match spec_debug_offsets_at(data, end, version) {
                Some(d) => Some((list, Some(d))),
                None => None,
            }
        } else {
            Some((list, None))
        },
    }
}

/// The function header whose packed record lies at `at`. Where the record
/// is marked overflowed, its `offset` and `info_offset` give the place of
/// the plain record that holds the header, and what hangs off the header
/// follows that plain record; otherwise it lies at the header's `info_offset`.
#[verifier::opaque]
pub open spec fn spec_function_header_at(data: Seq<u8>, at: int, version: u32) -> Option<
    FunctionHeaderView,
> {
    if at + 16 > data.len() {
        None
    } else {
        match parse_small_header(data.subrange(at, at + 16)) {
            None => None,
            Some(small) => if !small.flags.overflowed {
                match spec_info_at(data, small.info_offset as int, small.flags, version) {
                    Some((handlers, debug_info)) => Some(
                        FunctionHeaderView { is_large: false, fields: small, handlers, debug_info },
                    ),
                    None => None,
                }
            } else {
                let lo = spec_large_info_offset(small.offset, small.info_offset) as int;
                if lo + 32 > data.len() {
                    None
                } else {
                    match parse_large_header(data.subrange(lo, lo + 32)) {
                        None => None,
                        Some(large) => match spec_info_at(data, lo + 32, large.flags, version) {
                            Some((handlers, debug_info)) => Some(
                                FunctionHeaderView {
                                    is_large: true,
                                    fields: large,
                                    handlers,
                                    debug_info,
                                },
                            ),
                            None => None,
                        },
                    }
                }
            },
        }
    }
}

/// Reads what hangs off a header with the given flags, from the reader's
/// position on. The reader ends where the last thing read ends.
pub fn read_function_info(r: &mut Reader, flags: FunctionHeaderFlag, version: u32) -> (res: Result<
    (Vec<ExceptionHandlerInfo>, Option<DebugInfoOffsets>),
    HermesError,
>)
    ensures
        final(r).data@ == old(r).data@,
        match res {
            Ok((handlers, debug_info)) => spec_info_at(
                old(r).data@,
                old(r).pos as int,
                flags,
                version,
            ) == Some((handlers@, debug_info)),
            Err(e) => e == HermesError::MalformedInput && spec_info_at(
                old(r).data@,
                old(r).pos as int,
                flags,
                version,
            ) is None,
        },
{
    let mut handlers: Vec<ExceptionHandlerInfo> = Vec::new();
    if flags.has_exception_handler {
        if r.position() > r.data.len() || align_reader(r, 4).is_err() {
            return Err(HermesError::MalformedInput);
        }
        let ghost a = r.pos as int;
        assert(r.peek(4) == r.data@.subrange(a, a + 4));
        let count = decode_u32(r)?;
        handlers = match read_table::<ExceptionHandlerInfo>(r, count, version) {
            Ok(v) => {
                proof {
                    crate::codec::lemma_table_is_parsed(v@, r.data@, a + 4, version);
                }
                v
            },
            Err(e) => {
                return Err(e);
            },
        };
    }
    let debug_info = if flags.has_debug_info {
        Some(DebugInfoOffsets::deserialize(r, version)?)
    } else {
        None
    };
    Ok((handlers, debug_info))
}

/// Reads the function header whose packed record lies at the reader's
/// position, following it to the plain record and to what hangs off the
/// header, and leaves the reader just behind the packed record. On failure
/// the reader is left where it was.
pub fn read_function_header(r: &mut Reader, version: u32) -> (res: Result<
    FunctionHeader,
    HermesError,
>)
    ensures
        final(r).data@ == old(r).data@,
        match res {
            Ok(h) => spec_function_header_at(old(r).data@, old(r).pos as int, version) == Some(h@)
                && final(r).pos == old(r).pos + 16,
            Err(e) => e == HermesError::MalformedInput && spec_function_header_at(
                old(r).data@,
                old(r).pos as int,
                version,
            ) is None && final(r).pos == old(r).pos,
        },
{
    reveal(spec_function_header_at);
    let start: usize = r.position();
    let mut sfh = SmallFunctionHeader::deserialize(r, version)?;
    let anchor: usize = r.position();
    let res: Result<FunctionHeader, HermesError> = if !sfh.flags.overflowed {
        r.seek(sfh.info_offset as usize);
        match read_function_info(r, sfh.flags, version) {
            Ok((handlers, debug_info)) => {
                sfh.exception_handlers = handlers;
                sfh.debug_info = debug_info;
                Ok(FunctionHeader::Small(sfh))
            },
            Err(e) => Err(e),
        }
    } else {
        let large_offset = get_large_info_offset(sfh.offset, sfh.info_offset);
        r.seek(large_offset as usize);
        match LargeFunctionHeader::deserialize(r, version) {
            Ok(mut lfh) => match read_function_info(r, lfh.flags, version) {
                Ok((handlers, debug_info)) => {
                    lfh.exception_handlers = handlers;
                    lfh.debug_info = debug_info;
                    Ok(FunctionHeader::Large(lfh))
                },
                Err(e) => Err(e),
            },
            Err(e) => Err(e),
        }
    };
    if res.is_ok() {
        r.seek(anchor);
    } else {
        r.seek(start);
    }
    res
}

/// Where what hangs off a header ends, when it is written from `at` on:
/// the handlers, if the header has any, take a count and 12 bytes each from
/// the next multiple of four; the debug offsets, if the header has them,
/// take `debug_size` bytes from the next multiple of four after that.
pub open spec fn info_end(at: int, flags: FunctionHeaderFlag, handler_count: int, debug_size: int) -> int {
    let after_handlers = if flags.has_exception_handler {
        aligned_up(at, 4) + 4 + 12 * handler_count
    } else {
        at
    };
    if flags.has_debug_info {
        aligned_up(after_handlers, 4) + debug_size
    } else {
        after_handlers
    }
}

/// The bytes that what hangs off a header is written as from `at` on.
/// Handlers and debug offsets that the flags do not announce are not written.
pub open spec fn info_bytes(
    at: int,
    flags: FunctionHeaderFlag,
    handlers: Seq<ExceptionHandlerInfo>,
    debug_info: Option<DebugInfoOffsets>,
) -> Seq<u8> {
    let first = if flags.has_exception_handler {
        zeros(padding_to(at, 4)) + u32_to_le(handlers.len() as int) + table_bytes(handlers)
    } else {
        Seq::empty()
    };
    let second = if flags.has_debug_info {
        zeros(padding_to(at + first.len(), 4)) + debug_info.unwrap().spec_bytes()
    } else {
        Seq::empty()
    };
    first + second
}

/// What hangs off a header is written as many bytes as `info_end` says.
pub proof fn lemma_info_bytes_len(
    at: int,
    flags: FunctionHeaderFlag,
    handlers: Seq<ExceptionHandlerInfo>,
    debug_info: Option<DebugInfoOffsets>,
)
    requires
        0 <= at,
        flags.has_debug_info ==> debug_info is Some,
    ensures
        at + info_bytes(at, flags, handlers, debug_info).len() == info_end(
            at,
            flags,
            handlers.len() as int,
            (if debug_info is Some { debug_info.unwrap().spec_bytes().len() } else { 0 }) as int,
        ),
{
    lemma_table_bytes_len(handlers);
    assert(u32_to_le(handlers.len() as int).len() == 4);
}

/// Appends what hangs off a header with the given flags.
pub fn write_function_info(
    w: &mut Writer,
    flags: FunctionHeaderFlag,
    handlers: &Vec<ExceptionHandlerInfo>,
    debug_info: Option<DebugInfoOffsets>,
)
    requires
        handlers@.len() <= u32::MAX,
        flags.has_debug_info ==> debug_info is Some,
    ensures
        final(w)@ == old(w)@ + info_bytes(old(w)@.len() as int, flags, handlers@, debug_info),
{
    let ghost at = w@.len() as int;
    if flags.has_exception_handler {
        align_writer(w, 4);
        encode_u32(w, handlers.len() as u32);
        write_table(w, handlers);
    }
    let ghost first = w@.subrange(at, w@.len() as int);
    assert(w@ =~= old(w)@ + first);
    if flags.has_debug_info {
        match debug_info {
            Some(d) => {
                d.serialize(w);
            },
            None => {},
        }
    }
    assert(w@ =~= old(w)@ + info_bytes(at, flags, handlers@, debug_info));
}

impl FunctionHeaderFields {
    /// Whether some field is above `2^17 - 1`.
    pub fn is_overflowed_check(&self) -> (b: bool)
        ensures
            b == self.overflows(),
    {
        self.offset > SMALL_FIELD_MAX || self.param_count > SMALL_FIELD_MAX || self.byte_size
            > SMALL_FIELD_MAX || self.func_name > SMALL_FIELD_MAX || self.info_offset
            > SMALL_FIELD_MAX || self.frame_size > SMALL_FIELD_MAX || self.env_size > SMALL_FIELD_MAX
            || self.highest_read_cache_index > SMALL_FIELD_MAX || self.highest_write_cache_index
            > SMALL_FIELD_MAX
    }

    /// Whether every field fits the width that the packed record gives it.
    pub fn check_fits_small(&self) -> (b: bool)
        ensures
            b == self.fits_small(),
    {
        self.offset < 0x200_0000 && self.param_count < 0x80 && self.byte_size < 0x8000
            && self.func_name < 0x2_0000 && self.info_offset < 0x200_0000 && self.frame_size < 0x80
            && self.env_size < 0x100 && self.highest_read_cache_index < 0x100
            && self.highest_write_cache_index < 0x100
    }

    /// Whether both cache indices fit one byte each.
    pub fn check_fits_large(&self) -> (b: bool)
        ensures
            b == self.fits_large(),
    {
        self.highest_read_cache_index < 0x100 && self.highest_write_cache_index < 0x100
    }
}

impl FunctionHeader {
    /// The numbers and flags of the header.
    pub fn get_fields(&self) -> (c: FunctionHeaderFields)
        ensures
            c == self.fields(),
    {
        match self {
            FunctionHeader::Small(fh) => FunctionHeaderFields {
                offset: fh.offset,
                param_count: fh.param_count,
                byte_size: fh.byte_size,
                func_name: fh.func_name,
                info_offset: fh.info_offset,
                frame_size: fh.frame_size,
                env_size: fh.env_size,
                highest_read_cache_index: fh.highest_read_cache_index,
                highest_write_cache_index: fh.highest_write_cache_index,
                flags: fh.flags,
            },
            FunctionHeader::Large(fh) => FunctionHeaderFields {
                offset: fh.offset,
                param_count: fh.param_count,
                byte_size: fh.byte_size,
                func_name: fh.func_name,
                info_offset: fh.info_offset,
                frame_size: fh.frame_size,
                env_size: fh.env_size,
                highest_read_cache_index: fh.highest_read_cache_index,
                highest_write_cache_index: fh.highest_write_cache_index,
                flags: fh.flags,
            },
        }
    }

    /// A header of the given shape with the given numbers, flags, handlers
    /// and debug offsets.
    pub fn from_parts(
        is_large: bool,
        c: FunctionHeaderFields,
        exception_handlers: Vec<ExceptionHandlerInfo>,
        debug_info: Option<DebugInfoOffsets>,
    ) -> (h: FunctionHeader)
        ensures
            h@ == (FunctionHeaderView {
                is_large,
                fields: c,
                handlers: exception_handlers@,
                debug_info,
            }),
    {
        if is_large {
            FunctionHeader::Large(
                LargeFunctionHeader {
                    offset: c.offset,
                    param_count: c.param_count,
                    byte_size: c.byte_size,
                    func_name: c.func_name,
                    info_offset: c.info_offset,
                    frame_size: c.frame_size,
                    env_size: c.env_size,
                    highest_read_cache_index: c.highest_read_cache_index,
                    highest_write_cache_index: c.highest_write_cache_index,
                    flags: c.flags,
                    exception_handlers,
                    debug_info,
                },
            )
        } else {
            FunctionHeader::Small(
                SmallFunctionHeader {
                    offset: c.offset,
                    param_count: c.param_count,
                    byte_size: c.byte_size,
                    func_name: c.func_name,
                    info_offset: c.info_offset,
                    frame_size: c.frame_size,
                    env_size: c.env_size,
                    highest_read_cache_index: c.highest_read_cache_index,
                    highest_write_cache_index: c.highest_write_cache_index,
                    flags: c.flags,
                    exception_handlers,
                    debug_info,
                },
            )
        }
    }
}

/// Where what hangs off a header ends, when it is written from `at` on.
pub fn compute_info_end(at: u64, flags: FunctionHeaderFlag, handler_count: u64, debug_size: u64) -> (end:
    u64)
    requires
        at <= 0x2_0000_0000,
        handler_count <= u32::MAX,
        debug_size <= 12,
    ensures
        end == info_end(at as int, flags, handler_count as int, debug_size as int),
        at <= end <= at + 0x10_0000_0000,
{
    let mut pos: u64 = at;
    if flags.has_exception_handler {
        if pos % 4 != 0 {
            pos = pos + (4 - pos % 4);
        }
        pos = pos + 4 + 12 * handler_count;
    }
    if flags.has_debug_info {
        if pos % 4 != 0 {
            pos = pos + (4 - pos % 4);
        }
        pos = pos + debug_size;
    }
    pos
}

/// Whether what hangs off a header agrees with the header's flags: no
/// handlers and no debug offsets without the flag that announces them,
/// debug offsets in the layout of the version where the flag is set.
pub open spec fn info_agrees(
    flags: FunctionHeaderFlag,
    handlers: Seq<ExceptionHandlerInfo>,
    debug_info: Option<DebugInfoOffsets>,
    version: u32,
) -> bool {
    &&& handlers.len() <= u32::MAX
    &&& !flags.has_exception_handler ==> handlers.len() == 0
    &&& flags.has_debug_info == (debug_info is Some)
    &&& debug_info is Some ==> debug_info.unwrap().matches_version(version)
}

/// Handlers written from `at` on read back, wherever in a file they were written.
pub proof fn lemma_handlers_round_trip(
    data: Seq<u8>,
    at: int,
    handlers: Seq<ExceptionHandlerInfo>,
    version: u32,
)
    requires
        0 <= at,
        handlers.len() <= u32::MAX,
        ({
            let written = zeros(padding_to(at, 4)) + u32_to_le(handlers.len() as int) + table_bytes(
                handlers,
            );
            at + written.len() <= data.len() && data.subrange(at, at + written.len()) == written
        }),
    ensures
        spec_handlers_at(data, at, version) == Some(
            (handlers, aligned_up(at, 4) + 4 + 12 * handlers.len()),
        ),
{
    let count = u32_to_le(handlers.len() as int);
    let table = table_bytes(handlers);
    let written = zeros(padding_to(at, 4)) + count + table;
    let a = aligned_up(at, 4);
    lemma_table_bytes_len(handlers);
    assert(count.len() == 4);
    lemma_u32_round_trip(handlers.len() as u32);
    assert(data.subrange(a, a + 4) =~= written.subrange(a - at, a - at + 4));
    assert(written.subrange(a - at, a - at + 4) =~= count);
    assert(data.subrange(a + 4, a + 4 + table.len()) =~= written.subrange(
        a + 4 - at,
        a + 4 - at + table.len(),
    ));
    assert(written.subrange(a + 4 - at, a + 4 - at + table.len()) =~= table);
    lemma_table_round_trip_at::<ExceptionHandlerInfo>(data, a + 4, handlers, version);
}

/// Debug offsets written from `at` on read back, wherever in a file they
/// were written.
pub proof fn lemma_debug_offsets_round_trip(
    data: Seq<u8>,
    at: int,
    d: DebugInfoOffsets,
    version: u32,
)
    requires
        0 <= at,
        d.matches_version(version),
        ({
            let written = zeros(padding_to(at, 4)) + d.spec_bytes();
            at + written.len() <= data.len() && data.subrange(at, at + written.len()) == written
        }),
    ensures
        spec_debug_offsets_at(data, at, version) == Some(d),
{
    let written = zeros(padding_to(at, 4)) + d.spec_bytes();
    let b = aligned_up(at, 4);
    let n = DebugInfoOffsets::spec_size_for(version) as int;
    d.lemma_round_trip(version);
    assert(data.subrange(b, b + n) =~= written.subrange(b - at, b - at + n));
    assert(written.subrange(b - at, b - at + n) =~= d.spec_bytes());
}

/// What hangs off a header reads back as it was written, wherever in a
/// file it was written.
pub proof fn lemma_info_round_trip(
    data: Seq<u8>,
    at: int,
    flags: FunctionHeaderFlag,
    handlers: Seq<ExceptionHandlerInfo>,
    debug_info: Option<DebugInfoOffsets>,
    version: u32,
)
    requires
        0 <= at,
        info_agrees(flags, handlers, debug_info, version),
        at + info_bytes(at, flags, handlers, debug_info).len() <= data.len(),
        data.subrange(at, at + info_bytes(at, flags, handlers, debug_info).len()) == info_bytes(
            at,
            flags,
            handlers,
            debug_info,
        ),
    ensures
        spec_info_at(data, at, flags, version) == Some((handlers, debug_info)),
{
    let all = info_bytes(at, flags, handlers, debug_info);
    let first = if flags.has_exception_handler {
        zeros(padding_to(at, 4)) + u32_to_le(handlers.len() as int) + table_bytes(handlers)
    } else {
        Seq::empty()
    };
    let second = if flags.has_debug_info {
        zeros(padding_to(at + first.len(), 4)) + debug_info.unwrap().spec_bytes()
    } else {
        Seq::empty()
    };
    assert(all == first + second);
    let end = at + first.len();
    if flags.has_exception_handler {
        lemma_table_bytes_len(handlers);
        assert(u32_to_le(handlers.len() as int).len() == 4);
        assert(data.subrange(at, at + first.len()) =~= first) by {
            assert(data.subrange(at, at + first.len()) =~= all.subrange(0, first.len() as int));
        }
        lemma_handlers_round_trip(data, at, handlers, version);
        assert(end == aligned_up(at, 4) + 4 + 12 * handlers.len());
    } else {
        assert(handlers =~= Seq::empty());
    }
    if flags.has_debug_info {
        assert(data.subrange(end, end + second.len()) =~= second) by {
            assert(data.subrange(end, end + second.len()) =~= all.subrange(
                first.len() as int,
                all.len() as int,
            ));
        }
        lemma_debug_offsets_round_trip(data, end, debug_info.unwrap(), version);
    }
}

/// What every shape of function header offers: its numbers, its flags,
/// its exception handlers and its debug offsets.
pub trait FunctionHeaderImpl {
    /// The numbers and flags of the header.
    spec fn header_fields(&self) -> FunctionHeaderFields;

    /// The header's exception handlers.
    spec fn header_handlers(&self) -> Seq<ExceptionHandlerInfo>;

    /// The header's debug offsets.
    spec fn header_debug_info(&self) -> Option<DebugInfoOffsets>;

    fn offset(&self) -> (v: u32)
        ensures
            v == self.header_fields().offset,
    ;

    fn param_count(&self) -> (v: u32)
        ensures
            v == self.header_fields().param_count,
    ;

    fn byte_size(&self) -> (v: u32)
        ensures
            v == self.header_fields().byte_size,
    ;

    fn func_name(&self) -> (v: u32)
        ensures
            v == self.header_fields().func_name,
    ;

    fn info_offset(&self) -> (v: u32)
        ensures
            v == self.header_fields().info_offset,
    ;

    fn frame_size(&self) -> (v: u32)
        ensures
            v == self.header_fields().frame_size,
    ;

    fn env_size(&self) -> (v: u32)
        ensures
            v == self.header_fields().env_size,
    ;

    fn highest_read_cache_index(&self) -> (v: u32)
        ensures
            v == self.header_fields().highest_read_cache_index,
    ;

    fn highest_write_cache_index(&self) -> (v: u32)
        ensures
            v == self.header_fields().highest_write_cache_index,
    ;

    fn flags(&self) -> (v: FunctionHeaderFlag)
        ensures
            v == self.header_fields().flags,
    ;

    fn exception_handlers(&self) -> (v: Vec<ExceptionHandlerInfo>)
        ensures
            v@ == self.header_handlers(),
    ;

    fn debug_info(&self) -> (v: Option<DebugInfoOffsets>)
        ensures
            v == self.header_debug_info(),
    ;
}

impl FunctionHeaderImpl for SmallFunctionHeader {
    open spec fn header_fields(&self) -> FunctionHeaderFields {
        self.fields()
    }

    open spec fn header_handlers(&self) -> Seq<ExceptionHandlerInfo> {
        self.exception_handlers@
    }

    open spec fn header_debug_info(&self) -> Option<DebugInfoOffsets> {
        self.debug_info
    }

    fn offset(&self) -> (v: u32) {
        self.offset
    }

    fn param_count(&self) -> (v: u32) {
        self.param_count
    }

    fn byte_size(&self) -> (v: u32) {
        self.byte_size
    }

    fn func_name(&self) -> (v: u32) {
        self.func_name
    }

    fn info_offset(&self) -> (v: u32) {
        self.info_offset
    }

    fn frame_size(&self) -> (v: u32) {
        self.frame_size
    }

    fn env_size(&self) -> (v: u32) {
        self.env_size
    }

    fn highest_read_cache_index(&self) -> (v: u32) {
        self.highest_read_cache_index
    }

    fn highest_write_cache_index(&self) -> (v: u32) {
        self.highest_write_cache_index
    }

    fn flags(&self) -> (v: FunctionHeaderFlag) {
        self.flags
    }

    fn exception_handlers(&self) -> (v: Vec<ExceptionHandlerInfo>) {
        copy_handlers(&self.exception_handlers)
    }

    fn debug_info(&self) -> (v: Option<DebugInfoOffsets>) {
        self.debug_info
    }
}

impl FunctionHeaderImpl for LargeFunctionHeader {
    open spec fn header_fields(&self) -> FunctionHeaderFields {
        self.fields()
    }

    open spec fn header_handlers(&self) -> Seq<ExceptionHandlerInfo> {
        self.exception_handlers@
    }

    open spec fn header_debug_info(&self) -> Option<DebugInfoOffsets> {
        self.debug_info
    }

    fn offset(&self) -> (v: u32) {
        self.offset
    }

    fn param_count(&self) -> (v: u32) {
        self.param_count
    }

    fn byte_size(&self) -> (v: u32) {
        self.byte_size
    }

    fn func_name(&self) -> (v: u32) {
        self.func_name
    }

    fn info_offset(&self) -> (v: u32) {
        self.info_offset
    }

    fn frame_size(&self) -> (v: u32) {
        self.frame_size
    }

    fn env_size(&self) -> (v: u32) {
        self.env_size
    }

    fn highest_read_cache_index(&self) -> (v: u32) {
        self.highest_read_cache_index
    }

    fn highest_write_cache_index(&self) -> (v: u32) {
        self.highest_write_cache_index
    }

    fn flags(&self) -> (v: FunctionHeaderFlag) {
        self.flags
    }

    fn exception_handlers(&self) -> (v: Vec<ExceptionHandlerInfo>) {
        copy_handlers(&self.exception_handlers)
    }

    fn debug_info(&self) -> (v: Option<DebugInfoOffsets>) {
        self.debug_info
    }
}

impl From<LargeFunctionHeader> for SmallFunctionHeader {
    fn from(lfh: LargeFunctionHeader) -> (sfh: Self) {
        SmallFunctionHeader::from_large(lfh)
    }
}

impl FromSpecImpl<LargeFunctionHeader> for SmallFunctionHeader {
    open spec fn obeys_from_spec() -> bool {
        true
    }

    open spec fn from_spec(lfh: LargeFunctionHeader) -> Self {
        SmallFunctionHeader {
            offset: lfh.info_offset % 0x1_0000,
            param_count: lfh.param_count,
            byte_size: lfh.byte_size,
            func_name: lfh.func_name,
            info_offset: lfh.info_offset / 0x1_0000,
            frame_size: lfh.frame_size,
            env_size: lfh.env_size,
            highest_read_cache_index: lfh.highest_read_cache_index,
            highest_write_cache_index: lfh.highest_write_cache_index,
            flags: lfh.flags,
            exception_handlers: lfh.exception_handlers,
            debug_info: lfh.debug_info,
        }
    }
}

impl From<SmallFunctionHeader> for LargeFunctionHeader {
    fn from(sfh: SmallFunctionHeader) -> (lfh: Self) {
        LargeFunctionHeader::from_small(sfh)
    }
}

impl FromSpecImpl<SmallFunctionHeader> for LargeFunctionHeader {
    open spec fn obeys_from_spec() -> bool {
        true
    }

    open spec fn from_spec(sfh: SmallFunctionHeader) -> Self {
        LargeFunctionHeader {
            offset: sfh.offset,
            param_count: sfh.param_count,
            byte_size: sfh.byte_size,
            func_name: sfh.func_name,
            info_offset: sfh.info_offset,
            frame_size: sfh.frame_size,
            env_size: sfh.env_size,
            highest_read_cache_index: sfh.highest_read_cache_index,
            highest_write_cache_index: sfh.highest_write_cache_index,
            flags: sfh.flags,
            exception_handlers: sfh.exception_handlers,
            debug_info: sfh.debug_info,
        }
    }
}

} // verus!
