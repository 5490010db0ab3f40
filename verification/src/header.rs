//! The container header: the fixed prelude that names the format, its
//! version and the size of every section that follows.

use vstd::prelude::*;
use crate::bytecode_options::BytecodeOptions;
use crate::codec::{
    lemma_words_bytes_len, lemma_words_round_trip, read_words, words_at, words_bytes, write_words,
};
use crate::decode::{align_reader, aligned_up, decode_u32, decode_u64, u32_at, u64_from_le, Reader};
use crate::encode::{
    align_writer, encode_u32, encode_u64, lemma_u32_round_trip, lemma_u64_round_trip, padding_to,
    u32_to_le, u64_to_le, zeros, Writer,
};
use crate::error::HermesError;

verus! {

/// The number that opens every Hermes bytecode file.
pub const MAGIC: u64 = 0x1F19_03C1_03BC_1FC6;

/// The number of bytes the header occupies at the start of a file.
pub const HEADER_SIZE: usize = 128;

/// The container header. A field that the file's version does not store
/// (`big_int_count` before version 87, say) is zero after a read.
#[derive(Debug, Clone, Copy, PartialEq, Eq)]
pub struct HermesHeader {
    pub magic: u64,
    pub version: u32,
    /// SHA-1 of the source that the file was compiled from.
    pub sha1: [u8; 20],
    pub file_length: u32,
    pub global_code_index: u32,
    pub function_count: u32,
    pub string_kind_count: u32,
    pub identifier_count: u32,
    pub string_count: u32,
    pub overflow_string_count: u32,
    pub string_storage_size: u32,
    /// Stored from version 87 on.
    pub big_int_count: u32,
    /// Stored from version 87 on.
    pub big_int_storage_size: u32,
    pub reg_exp_count: u32,
    pub reg_exp_storage_size: u32,
    pub array_buffer_size: u32,
    pub obj_key_buffer_size: u32,
    pub obj_value_buffer_size: u32,
    /// Stored from version 78 on, in the place of `cjs_module_offset`.
    pub segment_id: u32,
    /// Stored from version 84 on.
    pub cjs_module_count: u32,
    /// Stored before version 78.
    pub cjs_module_offset: u32,
    pub function_source_count: u32,
    pub debug_info_offset: u32,
    pub options: BytecodeOptions,
}

/// The number of words between the source hash and the options byte.
pub open spec fn spec_word_count(version: u32) -> nat {
    (16 + (if version >= 87 { 2int } else { 0 }) + (if version >= 84 { 1int } else { 0 })) as nat
}

/// The number of bytes from the magic number to the options byte, inclusive.
pub open spec fn spec_raw_size(version: u32) -> nat {
    33 + 4 * spec_word_count(version)
}

impl HermesHeader {
    /// The words between the source hash and the options byte, in file
    /// order, for the header's own version.
    pub open spec fn spec_words(&self) -> Seq<u32> {
        seq![
            self.file_length,
            self.global_code_index,
            self.function_count,
            self.string_kind_count,
            self.identifier_count,
            self.string_count,
            self.overflow_string_count,
            self.string_storage_size,
        ] + (if self.version >= 87 {
            seq![self.big_int_count, self.big_int_storage_size]
        } else {
            Seq::empty()
        }) + seq![
            self.reg_exp_count,
            self.reg_exp_storage_size,
            self.array_buffer_size,
            self.obj_key_buffer_size,
            self.obj_value_buffer_size,
            if self.version < 78 { self.cjs_module_offset } else { self.segment_id },
        ] + (if self.version >= 84 { seq![self.cjs_module_count] } else { Seq::empty() }) + seq![
            self.function_source_count,
            self.debug_info_offset,
        ]
    }

    /// Every field that the header's version does not store is zero.
    pub open spec fn absent_fields_zero(&self) -> bool {
        &&& self.version < 87 ==> self.big_int_count == 0 && self.big_int_storage_size == 0
        &&& self.version < 84 ==> self.cjs_module_count == 0
        &&& self.version < 78 ==> self.segment_id == 0
        &&& self.version >= 78 ==> self.cjs_module_offset == 0
    }

    /// The header's bytes from the magic number to the options byte.
    pub open spec fn spec_raw_bytes(&self) -> Seq<u8> {
        u64_to_le(self.magic as int) + u32_to_le(self.version as int) + self.sha1@ + words_bytes(
            self.spec_words(),
        ) + seq![self.options.spec_byte()]
    }

    /// The header's bytes at the start of a file: the raw bytes, then zeros
    /// up to the next multiple of 32.
    pub open spec fn spec_bytes(&self) -> Seq<u8> {
        self.spec_raw_bytes() + zeros(padding_to(spec_raw_size(self.version) as int, 32))
    }

    /// This header is what the bytes of `data` from offset `at` read as.
    pub open spec fn parses_at(&self, data: Seq<u8>, at: int) -> bool {
        &&& self.magic == u64_from_le(data.subrange(at, at + 8))
        &&& self.version == u32_at(data, at + 8)
        &&& self.sha1@ == data.subrange(at + 12, at + 32)
        &&& self.spec_words() == words_at(data, at + 32, spec_word_count(self.version))
        &&& self.options == BytecodeOptions::spec_parse(
            data[at + 32 + 4 * spec_word_count(self.version)],
        )
        &&& self.absent_fields_zero()
    }

    /// Every number of the header is zero and every option is off.
    pub open spec fn is_zero(&self) -> bool {
        &&& self.magic == 0 && self.version == 0 && self.sha1@ == zeros(20)
        &&& self.file_length == 0 && self.global_code_index == 0 && self.function_count == 0
        &&& self.string_kind_count == 0 && self.identifier_count == 0 && self.string_count == 0
        &&& self.overflow_string_count == 0 && self.string_storage_size == 0
        &&& self.big_int_count == 0 && self.big_int_storage_size == 0 && self.reg_exp_count == 0
        &&& self.reg_exp_storage_size == 0 && self.array_buffer_size == 0
        &&& self.obj_key_buffer_size == 0 && self.obj_value_buffer_size == 0 && self.segment_id == 0
        &&& self.cjs_module_count == 0 && self.cjs_module_offset == 0
        &&& self.function_source_count == 0 && self.debug_info_offset == 0
        &&& self.options == BytecodeOptions::spec_parse(0)
    }

    /// A header of zeros, with all options off.
    pub fn new() -> (h: Self)
        ensures
            h.is_zero(),
    {
        let h = HermesHeader {
            magic: 0,
            version: 0,
            sha1: [0u8; 20],
            file_length: 0,
            global_code_index: 0,
            function_count: 0,
            string_kind_count: 0,
            identifier_count: 0,
            string_count: 0,
            overflow_string_count: 0,
            string_storage_size: 0,
            big_int_count: 0,
            big_int_storage_size: 0,
            reg_exp_count: 0,
            reg_exp_storage_size: 0,
            array_buffer_size: 0,
            obj_key_buffer_size: 0,
            obj_value_buffer_size: 0,
            segment_id: 0,
            cjs_module_count: 0,
            cjs_module_offset: 0,
            function_source_count: 0,
            debug_info_offset: 0,
            options: BytecodeOptions::new(),
        };
        assert(h.sha1@ =~= zeros(20));
        h
    }

    /// Whether the header opens with the format's magic number.
    pub fn has_valid_magic(&self) -> (b: bool)
        ensures
            b == (self.magic == MAGIC),
    {
        self.magic == MAGIC
    }

    /// The header occupies 128 bytes at the start of a file.
    pub fn size(&self) -> (n: usize)
        ensures
            n == HEADER_SIZE,
    {
        HEADER_SIZE
    }

    /// The words between the source hash and the options byte.
    fn words(&self) -> (v: Vec<u32>)
        ensures
            v@ == self.spec_words(),
    {
        let mut v: Vec<u32> = Vec::new();
        v.push(self.file_length);
        v.push(self.global_code_index);
        v.push(self.function_count);
        v.push(self.string_kind_count);
        v.push(self.identifier_count);
        v.push(self.string_count);
        v.push(self.overflow_string_count);
        v.push(self.string_storage_size);
        if self.version >= 87 {
            v.push(self.big_int_count);
            v.push(self.big_int_storage_size);
        }
        v.push(self.reg_exp_count);
        v.push(self.reg_exp_storage_size);
        v.push(self.array_buffer_size);
        v.push(self.obj_key_buffer_size);
        v.push(self.obj_value_buffer_size);
        v.push(if self.version < 78 { self.cjs_module_offset } else { self.segment_id });
        if self.version >= 84 {
            v.push(self.cjs_module_count);
        }
        v.push(self.function_source_count);
        v.push(self.debug_info_offset);
        assert(v@ =~= self.spec_words());
        v
    }

    /// Reads a header and skips to the next multiple of 32. Fails exactly
    /// when the bytes end before the header does; the reader is then left
    /// where it was. The second argument is not used: the version is read
    /// from the header itself.
    pub fn deserialize(r: &mut Reader, _version: u32) -> (res: Result<Self, HermesError>)
        ensures
            final(r).data@ == old(r).data@,
            match res {
                Ok(h) => {
                    &&& old(r).can_read(spec_raw_size(h.version) as int)
                    &&& h.parses_at(old(r).data@, old(r).pos as int)
                    &&& final(r).pos == aligned_up(old(r).pos + spec_raw_size(h.version), 32)
                },
                Err(e) => {
                    &&& e == HermesError::MalformedInput
                    &&& final(r).pos == old(r).pos
                    &&& (!old(r).can_read(12) || !old(r).can_read(
                        spec_raw_size(u32_at(old(r).data@, old(r).pos + 8) as u32) as int,
                    ) || aligned_up(
                        old(r).pos + spec_raw_size(u32_at(old(r).data@, old(r).pos + 8) as u32),
                        32,
                    ) > usize::MAX)
                },
            },
    {
        let start: usize = r.position();
        if !r.has(12) {
            return Err(HermesError::MalformedInput);
        }
        let magic = decode_u64(r)?;
        let version = decode_u32(r)?;
        assert(old(r).data@.subrange(start + 8, start + 12) =~= old(r).peek(12).subrange(8, 12));
        let word_count: u32 = 16 + (if version >= 87 { 2 } else { 0 }) + (if version >= 84 {
            1
        } else {
            0
        });
        let rest: usize = 20 + 4 * (word_count as usize) + 1;
        if !r.has(rest) {
            r.seek(start);
            return Err(HermesError::MalformedInput);
        }
        let sha1_bytes = r.read_exact(20)?;
        let sha1 = to_array20(sha1_bytes.as_slice());
        let words = read_words(r, word_count)?;
        let options = BytecodeOptions::deserialize(r, version)?;
        if align_reader(r, 32).is_err() {
            r.seek(start);
            return Err(HermesError::MalformedInput);
        }
        let big: usize = if version >= 87 { 2 } else { 0 };
        let cjs_or_segment: u32 = words[13 + big];
        let h = HermesHeader {
            magic,
            version,
            sha1,
            file_length: words[0],
            global_code_index: words[1],
            function_count: words[2],
            string_kind_count: words[3],
            identifier_count: words[4],
            string_count: words[5],
            overflow_string_count: words[6],
            string_storage_size: words[7],
            big_int_count: if version >= 87 { words[8] } else { 0 },
            big_int_storage_size: if version >= 87 { words[9] } else { 0 },
            reg_exp_count: words[8 + big],
            reg_exp_storage_size: words[9 + big],
            array_buffer_size: words[10 + big],
            obj_key_buffer_size: words[11 + big],
            obj_value_buffer_size: words[12 + big],
            segment_id: if version >= 78 { cjs_or_segment } else { 0 },
            cjs_module_count: if version >= 84 { words[14 + big] } else { 0 },
            cjs_module_offset: if version < 78 { cjs_or_segment } else { 0 },
            function_source_count: words[(word_count - 2) as usize],
            debug_info_offset: words[(word_count - 1) as usize],
            options,
        };
        assert(h.spec_words() =~= words@);
        Ok(h)
    }

    /// Appends the header and pads the stream with zeros to a multiple of 32.
    pub fn serialize(&self, w: &mut Writer)
        ensures
            final(w)@ == old(w)@ + self.spec_raw_bytes() + zeros(
                padding_to((old(w)@.len() + spec_raw_size(self.version)) as int, 32),
            ),
            self.spec_raw_bytes().len() == spec_raw_size(self.version),
            (final(w)@.len() as int) % 32 == 0,
    {
        encode_u64(w, self.magic);
        encode_u32(w, self.version);
        w.write_all(self.sha1.as_slice());
        let words = self.words();
        write_words(w, &words);
        self.options.serialize(w);
        proof {
            lemma_words_bytes_len(self.spec_words());
            assert(w@ =~= old(w)@ + self.spec_raw_bytes());
            assert(self.sha1@.len() == 20);
        }
        align_writer(w, 32);
    }

    /// A header read from the bytes it was written as is the same header,
    /// provided the fields that its version does not store are zero.
    pub proof fn lemma_round_trip(&self, post: Seq<u8>)
        requires
            self.absent_fields_zero(),
        ensures
            self.spec_raw_bytes().len() == spec_raw_size(self.version),
            self.parses_at(self.spec_raw_bytes() + post, 0),
    {
        let data = self.spec_raw_bytes() + post;
        let head = u64_to_le(self.magic as int) + u32_to_le(self.version as int) + self.sha1@;
        let words = self.spec_words();
        let tail = seq![self.options.spec_byte()] + post;
        lemma_u64_round_trip(self.magic);
        lemma_u32_round_trip(self.version);
        lemma_words_bytes_len(words);
        assert(self.sha1@.len() == 20);
        assert(data =~= head + words_bytes(words) + tail);
        lemma_words_round_trip(head, words, tail);
        assert(data.subrange(0, 8) =~= u64_to_le(self.magic as int));
        assert(data.subrange(8, 12) =~= u32_to_le(self.version as int));
        assert(data.subrange(12, 32) =~= self.sha1@);
        self.options.lemma_round_trip();
    }
}

impl Default for HermesHeader {
    fn default() -> (h: Self)
        ensures
            h.is_zero(),
    {
        Self::new()
    }
}

/// The array that holds the 20 bytes of `bytes`.
pub fn to_array20(bytes: &[u8]) -> (a: [u8; 20])
    requires
        bytes@.len() == 20,
    ensures
        a@ == bytes@,
{
    let mut a: [u8; 20] = [0u8; 20];
    let mut i: usize = 0;
    while i < 20
        invariant
            i <= 20,
            bytes@.len() == 20,
            forall|j: int| 0 <= j < i ==> a@[j] == bytes@[j],
        decreases 20 - i,
    {
        a[i] = bytes[i];
        i = i + 1;
    }
    assert(a@ =~= bytes@);
    a
}

/// A part of the file that is read from the byte source and written to the
/// byte stream as a whole, and that knows its own version.
pub trait HermesStructReader: Sized {
    /// This value is what the bytes of `data` from offset `at` read as.
    spec fn struct_parses_at(&self, data: Seq<u8>, at: int) -> bool;

    /// The bytes that a stream holds after this value is written behind `before`.
    spec fn struct_written_after(&self, before: Seq<u8>) -> Seq<u8>;

    /// The number of bytes the value occupies in a file.
    spec fn struct_size(&self) -> nat;

    /// Reads the value at the reader's position. On failure the reader is
    /// left where it was.
    fn deserialize(r: &mut Reader, version: u32) -> (res: Result<Self, HermesError>)
        ensures
            final(r).data@ == old(r).data@,
            match res {
                Ok(v) => v.struct_parses_at(old(r).data@, old(r).pos as int),
                Err(e) => e == HermesError::MalformedInput && final(r).pos == old(r).pos,
            },
    ;

    /// Appends the value.
    fn serialize(&self, w: &mut Writer)
        ensures
            final(w)@ == self.struct_written_after(old(w)@),
    ;

    /// The number of bytes the value occupies in a file.
    fn size(&self) -> (n: usize)
        ensures
            n == self.struct_size(),
    ;
}

impl HermesStructReader for HermesHeader {
    open spec fn struct_parses_at(&self, data: Seq<u8>, at: int) -> bool {
        self.parses_at(data, at)
    }

    open spec fn struct_written_after(&self, before: Seq<u8>) -> Seq<u8> {
        before + self.spec_raw_bytes() + zeros(
            padding_to((before.len() + spec_raw_size(self.version)) as int, 32),
        )
    }

    open spec fn struct_size(&self) -> nat {
        HEADER_SIZE as nat
    }

    fn deserialize(r: &mut Reader, version: u32) -> (res: Result<Self, HermesError>) {
        HermesHeader::deserialize(r, version)
    }

    fn serialize(&self, w: &mut Writer) {
        HermesHeader::serialize(self, w)
    }

    fn size(&self) -> (n: usize) {
        HEADER_SIZE
    }
}

/// Bytes read as one header only.
pub proof fn lemma_header_parse_unique(a: HermesHeader, b: HermesHeader, data: Seq<u8>, at: int)
    requires
        a.parses_at(data, at),
        b.parses_at(data, at),
    ensures
        a == b,
{
    broadcast use vstd::array::axiom_array_ext_equal;

    assert(a.version == b.version);
    let wa = a.spec_words();
    let wb = b.spec_words();
    assert(wa == wb);
    assert(a.sha1@ =~= b.sha1@);
    assert(a.sha1 == b.sha1);
    assert(wa[0] == wb[0] && wa[1] == wb[1] && wa[2] == wb[2] && wa[3] == wb[3]);
    assert(wa[4] == wb[4] && wa[5] == wb[5] && wa[6] == wb[6] && wa[7] == wb[7]);
    let n = wa.len() as int;
    assert(wa[n - 1] == wb[n - 1] && wa[n - 2] == wb[n - 2]);
    if a.version >= 87 {
        assert(wa[8] == wb[8] && wa[9] == wb[9]);
        assert(wa[10] == wb[10] && wa[11] == wb[11] && wa[12] == wb[12]);
        assert(wa[13] == wb[13] && wa[14] == wb[14] && wa[15] == wb[15]);
        assert(wa[16] == wb[16]);
    } else {
        assert(wa[8] == wb[8] && wa[9] == wb[9] && wa[10] == wb[10]);
        assert(wa[11] == wb[11] && wa[12] == wb[12] && wa[13] == wb[13]);
        if a.version >= 84 {
            assert(wa[14] == wb[14]);
        }
    }
}

} // verus!
