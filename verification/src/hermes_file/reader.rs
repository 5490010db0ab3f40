//! Reading a file: the header, then each section in file order, then the
//! debug section and the footer; and looking things up in what was read.

use vstd::prelude::*;
use std::collections::HashMap;
use crate::array_parser::{
    parse_literal_sequence, spec_parse_sequence, spec_window, ArrayTypes,
};
use crate::big_int_table::BigIntTableEntry;
use crate::cjs_module::{CJSModule, CJSModuleEntry, CJSModuleInt};
use crate::codec::{
    is_table_at, has_bad_record, parse_table_at, read_aligned_bytes, read_aligned_table, read_aligned_words,
    words_at, Serializable,
};
use crate::debug_info::DebugInfo;
use crate::decode::{aligned_up, Reader};
use crate::digest::{footer_matches, sha1_of};
use crate::error::HermesError;
use crate::function_header::{read_function_header, spec_function_header_at, FunctionHeader};
use crate::function_sources::FunctionSourceEntry;
use crate::header::{to_array20, HermesHeader};
use crate::layout::{is_layout_of, spec_cjs_entry_size, spec_layout, Layout};
use crate::hermes_file::{
    pairs_view, FunctionBytecode, FunctionInstructions, HermesFile, HermesOffsets, StringTypePair,
};
use crate::instruction::{
    decode_stream, instructions_view, spec_decode_stream, spec_supported_version,
    HermesInstruction, Instruction, Operand,
};
use crate::string_kind::{expand_kinds, lemma_expand_kinds_len, lemma_expand_kinds_push, repeat_kind, total_count, StringKind};
use crate::string_table::read_stored_string;
use crate::text::copy_range;
use crate::encode::zeros;
use crate::regexp_table::RegExpTableEntry;
use crate::string_kind::StringKindEntry;
use crate::string_table::{OverflowStringTableEntry, SmallStringTableEntry};

verus! {

impl HermesFile {
    /// The reader holds the same bytes as that of `before`.
    pub open spec fn same_source(&self, before: &HermesFile) -> bool {
        self.reader.data@ == before.reader.data@
    }

    /// Nothing but the read position differs from `before`.
    pub open spec fn only_moved(&self, before: &HermesFile) -> bool {
        self.same_source(before) && *self == (HermesFile { reader: self.reader, ..*before })
    }

    /// The offset where a section starts that is read from the reader's
    /// position on: the next multiple of four.
    pub open spec fn section_start(&self) -> int {
        aligned_up(self.reader.pos as int, 4)
    }

    /// The reader has moved from `before` to the end of a section of `size`
    /// bytes that starts at the next multiple of four.
    pub open spec fn read_section(&self, before: &HermesFile, size: int) -> bool {
        &&& self.same_source(before)
        &&& before.section_start() + size <= before.reader.data@.len()
        &&& self.reader.pos == before.section_start() + size
    }

    /// A section of `size` bytes from the next multiple of four on would
    /// pass the end of the bytes.
    pub open spec fn section_missing(&self, size: int) -> bool {
        self.section_start() + size > self.reader.data@.len()
    }

    /// Reads the runs of string kinds, in the layout of the file's version.
    pub fn visit_string_kinds(&mut self) -> (res: Result<(), HermesError>)
        ensures
            match res {
                Ok(()) => {
                    let n = old(self).header.string_kind_count;
                    &&& final(self).read_section(old(self), n * StringKindEntry::spec_size())
                    &&& final(self).string_kinds@ == parse_table_at::<StringKindEntry>(
                        old(self).reader.data@,
                        old(self).section_start(),
                        n as nat,
                        old(self).header.version,
                    )
                    &&& final(self).string_kinds@.len() == n
                    &&& is_table_at(
                        final(self).string_kinds@,
                        old(self).reader.data@,
                        old(self).section_start(),
                        old(self).header.version,
                    )
                    &&& *final(self) == (HermesFile {
                        string_kinds: final(self).string_kinds,
                        reader: final(self).reader,
                        ..*old(self)
                    })
                },
                Err(e) => {
                    let n = old(self).header.string_kind_count;
                    &&& e == HermesError::MalformedInput
                    &&& (old(self).section_missing(n * StringKindEntry::spec_size()) || has_bad_record::<StringKindEntry>(
                        old(self).reader.data@,
                        old(self).section_start(),
                        n as int,
                        old(self).header.version,
                    ))
                    &&& final(self).only_moved(old(self))
                    &&& final(self).reader.pos == old(self).reader.pos
                },
            },
    {
        self.string_kinds = read_aligned_table::<StringKindEntry>(
            &mut self.reader,
            self.header.string_kind_count,
            self.header.version,
        )?;
        Ok(())
    }

    /// Reads the identifier hashes, one word each.
    pub fn visit_identifier_hashes(&mut self) -> (res: Result<(), HermesError>)
        ensures
            match res {
                Ok(()) => {
                    let n = old(self).header.identifier_count;
                    &&& final(self).read_section(old(self), 4 * n)
                    &&& final(self).identifier_hashes@ == words_at(
                        old(self).reader.data@,
                        old(self).section_start(),
                        n as nat,
                    )
                    &&& *final(self) == (HermesFile {
                        identifier_hashes: final(self).identifier_hashes,
                        reader: final(self).reader,
                        ..*old(self)
                    })
                },
                Err(e) => e == HermesError::MalformedInput && old(self).section_missing(
                    4 * old(self).header.identifier_count,
                ) && final(self).only_moved(old(self)) && final(self).reader.pos == old(self).reader.pos,
            },
    {
        self.identifier_hashes = read_aligned_words(&mut self.reader, self.header.identifier_count)?;
        Ok(())
    }

    /// Reads the small string table.
    pub fn visit_small_string_table(&mut self) -> (res: Result<(), HermesError>)
        ensures
            match res {
                Ok(()) => {
                    let n = old(self).header.string_count;
                    &&& final(self).read_section(old(self), n * SmallStringTableEntry::spec_size())
                    &&& final(self).string_storage@ == parse_table_at::<SmallStringTableEntry>(
                        old(self).reader.data@,
                        old(self).section_start(),
                        n as nat,
                        old(self).header.version,
                    )
                    &&& *final(self) == (HermesFile {
                        string_storage: final(self).string_storage,
                        reader: final(self).reader,
                        ..*old(self)
                    })
                },
                Err(e) => {
                    let n = old(self).header.string_count;
                    &&& e == HermesError::MalformedInput
                    &&& (old(self).section_missing(n * SmallStringTableEntry::spec_size()) || has_bad_record::<SmallStringTableEntry>(
                        old(self).reader.data@,
                        old(self).section_start(),
                        n as int,
                        old(self).header.version,
                    ))
                    &&& final(self).only_moved(old(self))
                    &&& final(self).reader.pos == old(self).reader.pos
                },
            },
    {
        self.string_storage = read_aligned_table::<SmallStringTableEntry>(
            &mut self.reader,
            self.header.string_count,
            self.header.version,
        )?;
        Ok(())
    }

    /// Reads the overflow string table.
    pub fn visit_overflow_string_table(&mut self) -> (res: Result<(), HermesError>)
        ensures
            match res {
                Ok(()) => {
                    let n = old(self).header.overflow_string_count;
                    &&& final(self).read_section(old(self), n * OverflowStringTableEntry::spec_size())
                    &&& final(self).overflow_string_storage@ == parse_table_at::<OverflowStringTableEntry>(
                        old(self).reader.data@,
                        old(self).section_start(),
                        n as nat,
                        old(self).header.version,
                    )
                    &&& *final(self) == (HermesFile {
                        overflow_string_storage: final(self).overflow_string_storage,
                        reader: final(self).reader,
                        ..*old(self)
                    })
                },
                Err(e) => {
                    let n = old(self).header.overflow_string_count;
                    &&& e == HermesError::MalformedInput
                    &&& (old(self).section_missing(n * OverflowStringTableEntry::spec_size()) || has_bad_record::<OverflowStringTableEntry>(
                        old(self).reader.data@,
                        old(self).section_start(),
                        n as int,
                        old(self).header.version,
                    ))
                    &&& final(self).only_moved(old(self))
                    &&& final(self).reader.pos == old(self).reader.pos
                },
            },
    {
        self.overflow_string_storage = read_aligned_table::<OverflowStringTableEntry>(
            &mut self.reader,
            self.header.overflow_string_count,
            self.header.version,
        )?;
        Ok(())
    }

    /// Reads the string storage.
    pub fn visit_string_storage(&mut self) -> (res: Result<(), HermesError>)
        ensures
            match res {
                Ok(()) => {
                    let at = old(self).section_start();
                    let n = old(self).header.string_storage_size as int;
                    &&& final(self).read_section(old(self), n)
                    &&& final(self).string_storage_bytes@ == old(self).reader.data@.subrange(at, at + n)
                    &&& *final(self) == (HermesFile {
                        string_storage_bytes: final(self).string_storage_bytes,
                        reader: final(self).reader,
                        ..*old(self)
                    })
                },
                Err(e) => e == HermesError::MalformedInput && old(self).section_missing(
                    old(self).header.string_storage_size as int,
                ) && final(self).only_moved(old(self)) && final(self).reader.pos == old(self).reader.pos,
            },
    {
        self.string_storage_bytes = read_aligned_bytes(&mut self.reader, self.header.string_storage_size)?;
        Ok(())
    }

    /// Reads the array buffer.
    pub fn visit_array_buffer(&mut self) -> (res: Result<(), HermesError>)
        ensures
            match res {
                Ok(()) => {
                    let at = old(self).section_start();
                    let n = old(self).header.array_buffer_size as int;
                    &&& final(self).read_section(old(self), n)
                    &&& final(self).array_buffer_storage@ == old(self).reader.data@.subrange(at, at + n)
                    &&& *final(self) == (HermesFile {
                        array_buffer_storage: final(self).array_buffer_storage,
                        reader: final(self).reader,
                        ..*old(self)
                    })
                },
                Err(e) => e == HermesError::MalformedInput && old(self).section_missing(
                    old(self).header.array_buffer_size as int,
                ) && final(self).only_moved(old(self)) && final(self).reader.pos == old(self).reader.pos,
            },
    {
        self.array_buffer_storage = read_aligned_bytes(&mut self.reader, self.header.array_buffer_size)?;
        Ok(())
    }

    /// Reads the object key buffer.
    pub fn visit_object_key_buffer(&mut self) -> (res: Result<(), HermesError>)
        ensures
            match res {
                Ok(()) => {
                    let at = old(self).section_start();
                    let n = old(self).header.obj_key_buffer_size as int;
                    &&& final(self).read_section(old(self), n)
                    &&& final(self).object_key_buffer@ == old(self).reader.data@.subrange(at, at + n)
                    &&& *final(self) == (HermesFile {
                        object_key_buffer: final(self).object_key_buffer,
                        reader: final(self).reader,
                        ..*old(self)
                    })
                },
                Err(e) => e == HermesError::MalformedInput && old(self).section_missing(
                    old(self).header.obj_key_buffer_size as int,
                ) && final(self).only_moved(old(self)) && final(self).reader.pos == old(self).reader.pos,
            },
    {
        self.object_key_buffer = read_aligned_bytes(&mut self.reader, self.header.obj_key_buffer_size)?;
        Ok(())
    }

    /// Reads the object value buffer.
    pub fn visit_object_value_buffer(&mut self) -> (res: Result<(), HermesError>)
        ensures
            match res {
                Ok(()) => {
                    let at = old(self).section_start();
                    let n = old(self).header.obj_value_buffer_size as int;
                    &&& final(self).read_section(old(self), n)
                    &&& final(self).object_val_buffer@ == old(self).reader.data@.subrange(at, at + n)
                    &&& *final(self) == (HermesFile {
                        object_val_buffer: final(self).object_val_buffer,
                        reader: final(self).reader,
                        ..*old(self)
                    })
                },
                Err(e) => e == HermesError::MalformedInput && old(self).section_missing(
                    old(self).header.obj_value_buffer_size as int,
                ) && final(self).only_moved(old(self)) && final(self).reader.pos == old(self).reader.pos,
            },
    {
        self.object_val_buffer = read_aligned_bytes(&mut self.reader, self.header.obj_value_buffer_size)?;
        Ok(())
    }

    /// Reads the BigInt table, which files have from version 87 on; in an older file nothing is read.
    pub fn visit_big_int_table(&mut self) -> (res: Result<(), HermesError>)
        ensures
            !(old(self).header.version >= 87) ==> res is Ok && final(self).only_moved(old(self)) && final(self).reader.pos == old(self).reader.pos,
            old(self).header.version >= 87 ==> match res {
                Ok(()) => {
                    let n = old(self).header.big_int_count;
                    &&& final(self).read_section(old(self), n * BigIntTableEntry::spec_size())
                    &&& final(self).big_int_table@ == parse_table_at::<BigIntTableEntry>(
                        old(self).reader.data@,
                        old(self).section_start(),
                        n as nat,
                        old(self).header.version,
                    )
                    &&& *final(self) == (HermesFile {
                        big_int_table: final(self).big_int_table,
                        reader: final(self).reader,
                        ..*old(self)
                    })
                },
                Err(e) => {
                    let n = old(self).header.big_int_count;
                    &&& e == HermesError::MalformedInput
                    &&& (old(self).section_missing(n * BigIntTableEntry::spec_size()) || has_bad_record::<BigIntTableEntry>(
                        old(self).reader.data@,
                        old(self).section_start(),
                        n as int,
                        old(self).header.version,
                    ))
                    &&& final(self).only_moved(old(self))
                    &&& final(self).reader.pos == old(self).reader.pos
                },
            },
    {
        if !(self.header.version >= 87) {
            return Ok(());
        }
        self.big_int_table = read_aligned_table::<BigIntTableEntry>(
            &mut self.reader,
            self.header.big_int_count,
            self.header.version,
        )?;
        Ok(())
    }

    /// Reads the BigInt storage, which files have from version 87 on; in an older file nothing is read.
    pub fn visit_big_int_storage(&mut self) -> (res: Result<(), HermesError>)
        ensures
            !(old(self).header.version >= 87) ==> res is Ok && final(self).only_moved(old(self)) && final(self).reader.pos == old(self).reader.pos,
            old(self).header.version >= 87 ==> match res {
                Ok(()) => {
                    let at = old(self).section_start();
                    let n = old(self).header.big_int_storage_size as int;
                    &&& final(self).read_section(old(self), n)
                    &&& final(self).big_int_storage@ == old(self).reader.data@.subrange(at, at + n)
                    &&& *final(self) == (HermesFile {
                        big_int_storage: final(self).big_int_storage,
                        reader: final(self).reader,
                        ..*old(self)
                    })
                },
                Err(e) => e == HermesError::MalformedInput && old(self).section_missing(
                    old(self).header.big_int_storage_size as int,
                ) && final(self).only_moved(old(self)) && final(self).reader.pos == old(self).reader.pos,
            },
    {
        if !(self.header.version >= 87) {
            return Ok(());
        }
        self.big_int_storage = read_aligned_bytes(&mut self.reader, self.header.big_int_storage_size)?;
        Ok(())
    }

    /// Reads the function source table, which files have from version 84 on; in an older file nothing is read.
    pub fn visit_function_source_table(&mut self) -> (res: Result<(), HermesError>)
        ensures
            !(old(self).header.version >= 84) ==> res is Ok && final(self).only_moved(old(self)) && final(self).reader.pos == old(self).reader.pos,
            old(self).header.version >= 84 ==> match res {
                Ok(()) => {
                    let n = old(self).header.function_source_count;
                    &&& final(self).read_section(old(self), n * FunctionSourceEntry::spec_size())
                    &&& final(self).function_source_entries@ == parse_table_at::<FunctionSourceEntry>(
                        old(self).reader.data@,
                        old(self).section_start(),
                        n as nat,
                        old(self).header.version,
                    )
                    &&& *final(self) == (HermesFile {
                        function_source_entries: final(self).function_source_entries,
                        reader: final(self).reader,
                        ..*old(self)
                    })
                },
                Err(e) => {
                    let n = old(self).header.function_source_count;
                    &&& e == HermesError::MalformedInput
                    &&& (old(self).section_missing(n * FunctionSourceEntry::spec_size()) || has_bad_record::<FunctionSourceEntry>(
                        old(self).reader.data@,
                        old(self).section_start(),
                        n as int,
                        old(self).header.version,
                    ))
                    &&& final(self).only_moved(old(self))
                    &&& final(self).reader.pos == old(self).reader.pos
                },
            },
    {
        if !(self.header.version >= 84) {
            return Ok(());
        }
        self.function_source_entries = read_aligned_table::<FunctionSourceEntry>(
            &mut self.reader,
            self.header.function_source_count,
            self.header.version,
        )?;
        Ok(())
    }

    /// A file with no content that will be read from `data`: a header of
    /// zeros, empty tables and buffers, no offsets recorded, and an empty
    /// debug section whose header has the two later offsets, both zero.
    pub fn new(data: Vec<u8>) -> (f: HermesFile)
        ensures
            f.reader.data@ == data@,
            f.reader.pos == 0,
            f.header.is_zero(),
            f.counts_in_sync(),
            f.function_headers@.len() == 0,
            f.function_bytecode@.len() == 0,
            f.string_kinds@.len() == 0,
            f.string_storage@.len() == 0,
            f.bytecode_storage@.len() == 0,
            f.cjs_module_offset == 0,
            f.offsets.small_string_table_offsets@ == Map::<u32, u32>::empty(),
            f.offsets.overflow_string_table_offsets@ == Map::<u32, u32>::empty(),
            f.offsets.bytecode_offsets@ == Map::<u32, u32>::empty(),
            f.offsets.debug_info_offset == 0,
            f.offsets.file_length == 0,
            f.debug_info.header == (crate::debug_info::DebugInfoHeader {
                filename_count: 0,
                filename_storage_size: 0,
                file_region_count: 0,
                scope_desc_data_offset: 0,
                textified_callee_offset: Some(0u32),
                string_table_offset: Some(0u32),
                debug_data_size: 0,
            }),
            f.debug_info.string_table@.len() == 0,
            f.debug_info.string_storage@.len() == 0,
            f.debug_info.file_regions@.len() == 0,
            f.debug_info.sources_data_storage@.len() == 0,
            f.debug_info.scope_desc_data_storage@.len() == 0,
            f.debug_info.textified_callee_storage@.len() == 0,
            f.debug_info.string_table_storage@.len() == 0,
            f.footer@ == zeros(20),
    {
        let f = HermesFile {
            reader: Reader::new(data),
            offsets: HermesOffsets {
                small_string_table_offsets: HashMap::new(),
                overflow_string_table_offsets: HashMap::new(),
                bytecode_offsets: HashMap::new(),
                debug_info_offset: 0,
                file_length: 0,
            },
            function_bytecode: Vec::new(),
            header: HermesHeader::new(),
            function_headers: Vec::new(),
            string_kinds: Vec::new(),
            identifier_hashes: Vec::new(),
            string_storage: Vec::new(),
            string_storage_bytes: Vec::new(),
            overflow_string_storage: Vec::new(),
            bytecode_storage: Vec::new(),
            array_buffer_storage: Vec::new(),
            object_key_buffer: Vec::new(),
            object_val_buffer: Vec::new(),
            cjs_module_offset: 0,
            big_int_table: Vec::new(),
            big_int_storage: Vec::new(),
            reg_exp_table: Vec::new(),
            reg_exp_storage: Vec::new(),
            cjs_modules: Vec::new(),
            function_source_entries: Vec::new(),
            debug_info: DebugInfo::empty(91),
            footer: [0u8; 20],
        };
        assert(f.footer@ =~= zeros(20));
        f
    }

    /// Reads the header at the reader's position and skips to the next
    /// multiple of 32.
    pub fn visit_header(&mut self) -> (res: Result<(), HermesError>)
        ensures
            match res {
                Ok(()) => {
                    let h = final(self).header;
                    &&& final(self).same_source(old(self))
                    &&& old(self).reader.can_read(crate::header::spec_raw_size(h.version) as int)
                    &&& h.parses_at(old(self).reader.data@, old(self).reader.pos as int)
                    &&& final(self).reader.pos == aligned_up(
                        old(self).reader.pos + crate::header::spec_raw_size(h.version),
                        32,
                    )
                    &&& *final(self) == (HermesFile {
                        header: final(self).header,
                        reader: final(self).reader,
                        ..*old(self)
                    })
                },
                Err(e) => {
                    let r = old(self).reader;
                    let version = crate::decode::u32_at(r.data@, r.pos + 8) as u32;
                    &&& e == HermesError::MalformedInput
                    &&& (!r.can_read(12) || !r.can_read(crate::header::spec_raw_size(version) as int)
                        || aligned_up(r.pos + crate::header::spec_raw_size(version), 32)
                        > usize::MAX)
                    &&& final(self).only_moved(old(self))
                    &&& final(self).reader.pos == old(self).reader.pos
                },
            },
    {
        self.header = HermesHeader::deserialize(&mut self.reader, 0)?;
        Ok(())
    }

    /// Reads the function headers: one packed record each, end to end from
    /// the reader's position, each followed to its plain record and to the
    /// handlers and debug offsets that hang off it.
    pub fn visit_function_headers(&mut self) -> (res: Result<(), HermesError>)
        ensures
            match res {
                Ok(()) => {
                    let n = old(self).header.function_count;
                    &&& final(self).same_source(old(self))
                    &&& final(self).function_headers@.len() == n
                    &&& forall|i: int|
                        0 <= i < n ==> spec_function_header_at(
                            old(self).reader.data@,
                            old(self).reader.pos + 16 * i,
                            old(self).header.version,
                        ) == Some((#[trigger] final(self).function_headers@[i])@)
                    &&& final(self).reader.pos == old(self).reader.pos + 16 * n
                    &&& *final(self) == (HermesFile {
                        function_headers: final(self).function_headers,
                        reader: final(self).reader,
                        ..*old(self)
                    })
                },
                Err(e) => {
                    &&& e == HermesError::MalformedInput
                    &&& exists|i: int|
                        0 <= i < old(self).header.function_count && (#[trigger] spec_function_header_at(
                            old(self).reader.data@,
                            old(self).reader.pos + 16 * i,
                            old(self).header.version,
                        )) is None
                    &&& final(self).only_moved(old(self))
                    &&& final(self).reader.pos == old(self).reader.pos
                },
            },
    {
        let start: usize = self.reader.position();
        let count: u32 = self.header.function_count;
        let version: u32 = self.header.version;
        let mut headers: Vec<FunctionHeader> = Vec::new();
        let mut i: u32 = 0;
        while i < count
            invariant
                i <= count,
                count == old(self).header.function_count,
                version == old(self).header.version,
                start == old(self).reader.pos,
                self.reader.data@ == old(self).reader.data@,
                self.reader.pos == start + 16 * i,
                headers@.len() == i,
                forall|k: int|
                    0 <= k < i ==> spec_function_header_at(
                        old(self).reader.data@,
                        start + 16 * k,
                        version,
                    ) == Some((#[trigger] headers@[k])@),
                *self == (HermesFile { reader: self.reader, ..*old(self) }),
            decreases count - i,
        {
            match read_function_header(&mut self.reader, version) {
                Ok(h) => {
                    headers.push(h);
                },
                Err(e) => {
                    self.reader.seek(start);
                    return Err(e);
                },
            }
            i = i + 1;
        }
        self.function_headers = headers;
        Ok(())
    }

    /// Reads the regular-expression table at the next multiple of four and,
    /// right behind it, the regular-expression storage. Where the header
    /// counts no regular expressions, only the position is aligned.
    pub fn visit_reg_exp_table(&mut self) -> (res: Result<(), HermesError>)
        ensures
            match res {
                Ok(()) => {
                    let n = old(self).header.reg_exp_count;
                    let size = old(self).header.reg_exp_storage_size;
                    let at = old(self).section_start();
                    if n > 0 {
                        &&& final(self).read_section(old(self), 8 * n + size)
                        &&& final(self).reg_exp_table@ == parse_table_at::<RegExpTableEntry>(
                            old(self).reader.data@,
                            at,
                            n as nat,
                            old(self).header.version,
                        )
                        &&& final(self).reg_exp_storage@ == old(self).reader.data@.subrange(
                            at + 8 * n,
                            at + 8 * n + size,
                        )
                        &&& *final(self) == (HermesFile {
                            reg_exp_table: final(self).reg_exp_table,
                            reg_exp_storage: final(self).reg_exp_storage,
                            reader: final(self).reader,
                            ..*old(self)
                        })
                    } else {
                        final(self).only_moved(old(self)) && final(self).reader.pos == at
                    }
                },
                Err(e) => {
                    let n = old(self).header.reg_exp_count;
                    &&& e == HermesError::MalformedInput
                    &&& (if n > 0 {
                        old(self).section_missing(8 * n + old(self).header.reg_exp_storage_size)
                    } else {
                        old(self).section_start() > usize::MAX
                    })
                    &&& final(self).only_moved(old(self))
                    &&& final(self).reader.pos == old(self).reader.pos
                },
            },
    {
        let start: usize = self.reader.position();
        if self.header.reg_exp_count > 0 {
            let table = read_aligned_table::<RegExpTableEntry>(
                &mut self.reader,
                self.header.reg_exp_count,
                self.header.version,
            )?;
            match self.reader.read_exact(self.header.reg_exp_storage_size as usize) {
                Ok(storage) => {
                    self.reg_exp_table = table;
                    self.reg_exp_storage = storage;
                    Ok(())
                },
                Err(e) => {
                    self.reader.seek(start);
                    Err(e)
                },
            }
        } else {
            match crate::decode::align_reader(&mut self.reader, 4) {
                Ok(_) => Ok(()),
                Err(e) => Err(e),
            }
        }
    }

    /// Reads the regular-expression storage at the reader's position.
    pub fn visit_reg_exp_storage(&mut self) -> (res: Result<(), HermesError>)
        ensures
            match res {
                Ok(()) => {
                    let at = old(self).reader.pos as int;
                    let n = old(self).header.reg_exp_storage_size as int;
                    &&& final(self).same_source(old(self))
                    &&& at + n <= old(self).reader.data@.len()
                    &&& final(self).reg_exp_storage@ == old(self).reader.data@.subrange(at, at + n)
                    &&& final(self).reader.pos == at + n
                    &&& *final(self) == (HermesFile {
                        reg_exp_storage: final(self).reg_exp_storage,
                        reader: final(self).reader,
                        ..*old(self)
                    })
                },
                Err(e) => e == HermesError::MalformedInput && !old(self).reader.can_read(
                    old(self).header.reg_exp_storage_size as int,
                ) && final(self).only_moved(old(self)) && final(self).reader.pos == old(self).reader.pos,
            },
    {
        self.reg_exp_storage = self.reader.read_exact(self.header.reg_exp_storage_size as usize)?;
        Ok(())
    }

    /// Whether the CommonJS modules of the file are stored as single
    /// integers: a file before version 77 whose modules are statically resolved.
    pub open spec fn spec_cjs_as_integers(&self) -> bool {
        self.header.options.cjs_modules_statically_resolved && self.header.version < 77
    }

    /// Reads the CommonJS module table at the next multiple of four, in the
    /// layout that the file's version and options call for.
    pub fn visit_cjs_module_table(&mut self) -> (res: Result<(), HermesError>)
        ensures
            match res {
                Ok(()) => {
                    let n = old(self).header.cjs_module_count;
                    let at = old(self).section_start();
                    let data = old(self).reader.data@;
                    let version = old(self).header.version;
                    &&& final(self).read_section(
                        old(self),
                        n * (if old(self).spec_cjs_as_integers() { 4int } else { 8int }),
                    )
                    &&& final(self).cjs_modules@ == (if old(self).spec_cjs_as_integers() {
                        Seq::new(
                            n as nat,
                            |i: int|
                                CJSModule::CJSModuleInt(
                                    parse_table_at::<CJSModuleInt>(data, at, n as nat, version)[i],
                                ),
                        )
                    } else {
                        Seq::new(
                            n as nat,
                            |i: int|
                                CJSModule::CJSModuleEntry(
                                    parse_table_at::<CJSModuleEntry>(data, at, n as nat, version)[i],
                                ),
                        )
                    })
                    &&& *final(self) == (HermesFile {
                        cjs_modules: final(self).cjs_modules,
                        reader: final(self).reader,
                        ..*old(self)
                    })
                },
                Err(e) => e == HermesError::MalformedInput && old(self).section_missing(
                    old(self).header.cjs_module_count * (if old(self).spec_cjs_as_integers() {
                        4int
                    } else {
                        8int
                    }),
                ) && final(self).only_moved(old(self)) && final(self).reader.pos == old(self).reader.pos,
            },
    {
        let count = self.header.cjs_module_count;
        let version = self.header.version;
        let mut modules: Vec<CJSModule> = Vec::new();
        if self.header.options.cjs_modules_statically_resolved && version < 77 {
            let table = read_aligned_table::<CJSModuleInt>(&mut self.reader, count, version)?;
            let mut i: usize = 0;
            while i < table.len()
                invariant
                    i <= table@.len(),
                    modules@ == Seq::new(i as nat, |k: int| CJSModule::CJSModuleInt(table@[k])),
                decreases table@.len() - i,
            {
                modules.push(CJSModule::CJSModuleInt(table[i]));
                i = i + 1;
                assert(modules@ =~= Seq::new(i as nat, |k: int| CJSModule::CJSModuleInt(table@[k])));
            }
            assert(modules@ =~= Seq::new(
                count as nat,
                |k: int|
                    CJSModule::CJSModuleInt(
                        parse_table_at::<CJSModuleInt>(
                            old(self).reader.data@,
                            old(self).section_start(),
                            count as nat,
                            version,
                        )[k],
                    ),
            ));
        } else {
            let table = read_aligned_table::<CJSModuleEntry>(&mut self.reader, count, version)?;
            let mut i: usize = 0;
            while i < table.len()
                invariant
                    i <= table@.len(),
                    modules@ == Seq::new(i as nat, |k: int| CJSModule::CJSModuleEntry(table@[k])),
                decreases table@.len() - i,
            {
                modules.push(CJSModule::CJSModuleEntry(table[i]));
                i = i + 1;
                assert(modules@ =~= Seq::new(i as nat, |k: int| CJSModule::CJSModuleEntry(table@[k])));
            }
            assert(modules@ =~= Seq::new(
                count as nat,
                |k: int|
                    CJSModule::CJSModuleEntry(
                        parse_table_at::<CJSModuleEntry>(
                            old(self).reader.data@,
                            old(self).section_start(),
                            count as nat,
                            version,
                        )[k],
                    ),
            ));
        }
        self.cjs_modules = modules;
        Ok(())
    }

    /// Whether the debug section cannot be read from `data` at the offset
    /// that the header gives for it: its header passes the end of the
    /// bytes, the header's offsets do not rise from one blob to the next, or
    /// the section passes the end of the bytes.
    pub open spec fn debug_unreadable(h: HermesHeader, data: Seq<u8>) -> bool {
        let at = h.debug_info_offset as int;
        let hs = crate::debug_info::DebugInfoHeader::spec_size_for(h.version) as int;
        let d = crate::debug_info::DebugInfoHeader::spec_parse(data.subrange(at, at + hs), h.version);
        at + hs > data.len() || crate::debug_info::spec_blob_sizes(d) is None || at + hs
            + crate::debug_info::spec_debug_body_size(d) > data.len()
    }

    /// Reads the debug section at the offset that the header gives for it.
    pub fn visit_debug_info(&mut self) -> (res: Result<(), HermesError>)
        ensures
            match res {
                Ok(()) => {
                    let at = old(self).header.debug_info_offset as int;
                    let version = old(self).header.version;
                    let hs = crate::debug_info::DebugInfoHeader::spec_size_for(version) as int;
                    let d = final(self).debug_info;
                    &&& final(self).same_source(old(self))
                    &&& d.header.matches_version(version)
                    &&& d.parses_at(old(self).reader.data@, at, version)
                    &&& final(self).reader.pos == at + hs + crate::debug_info::spec_debug_body_size(
                        d.header,
                    )
                    &&& final(self).reader.pos <= old(self).reader.data@.len()
                    &&& *final(self) == (HermesFile {
                        debug_info: final(self).debug_info,
                        reader: final(self).reader,
                        ..*old(self)
                    })
                },
                Err(e) => e == HermesError::MalformedInput && Self::debug_unreadable(
                    old(self).header,
                    old(self).reader.data@,
                ) && final(self).only_moved(old(self)) && final(self).reader.pos == old(
                    self,
                ).reader.pos,
            },
    {
        let start: usize = self.reader.position();
        self.reader.seek(self.header.debug_info_offset as usize);
        match DebugInfo::deserialize(&mut self.reader, self.header.version) {
            Ok(d) => {
                self.debug_info = d;
                Ok(())
            },
            Err(e) => {
                self.reader.seek(start);
                Err(e)
            },
        }
    }

    /// Reads the 20 bytes of the footer at the reader's position.
    pub fn visit_footer(&mut self) -> (res: Result<(), HermesError>)
        ensures
            match res {
                Ok(()) => {
                    let at = old(self).reader.pos as int;
                    &&& final(self).same_source(old(self))
                    &&& at + 20 <= old(self).reader.data@.len()
                    &&& final(self).footer@ == old(self).reader.data@.subrange(at, at + 20)
                    &&& final(self).reader.pos == at + 20
                    &&& *final(self) == (HermesFile {
                        footer: final(self).footer,
                        reader: final(self).reader,
                        ..*old(self)
                    })
                },
                Err(e) => e == HermesError::MalformedInput && !old(self).reader.can_read(20)
                    && final(self).only_moved(old(self)) && final(self).reader.pos == old(self).reader.pos,
            },
    {
        let bytes = self.reader.read_exact(20)?;
        self.footer = to_array20(bytes.as_slice());
        Ok(())
    }
}

impl HermesFile {
    /// The function headers are what the bytes of `data` read as: one
    /// packed record each, end to end from the offset that `l` gives them.
    pub open spec fn headers_at(&self, data: Seq<u8>, l: Layout) -> bool {
        &&& self.function_headers@.len() == self.header.function_count
        &&& forall|i: int|
            0 <= i < self.header.function_count ==> spec_function_header_at(
                data,
                l.function_headers + 16 * i,
                self.header.version,
            ) == Some((#[trigger] self.function_headers@[i])@)
    }

    /// Every section from the string kinds to the function sources is what
    /// the bytes of `data` read as at the offset that the layout `l` gives
    /// it. A section that the file's version lacks is empty.
    pub open spec fn tables_at(&self, data: Seq<u8>, l: Layout) -> bool {
        let h = self.header;
        let v = h.version;
        &&& l.end <= data.len()
        &&& self.string_kinds@.len() == h.string_kind_count
        &&& is_table_at(self.string_kinds@, data, l.string_kinds as int, v)
        &&& self.identifier_hashes@ == words_at(
            data,
            l.identifier_hashes as int,
            h.identifier_count as nat,
        )
        &&& self.string_storage@ == parse_table_at::<SmallStringTableEntry>(
            data,
            l.small_string_table as int,
            h.string_count as nat,
            v,
        )
        &&& self.overflow_string_storage@ == parse_table_at::<OverflowStringTableEntry>(
            data,
            l.overflow_string_table as int,
            h.overflow_string_count as nat,
            v,
        )
        &&& self.string_storage_bytes@ == data.subrange(
            l.string_storage as int,
            l.string_storage + h.string_storage_size,
        )
        &&& self.array_buffer_storage@ == data.subrange(
            l.array_buffer as int,
            l.array_buffer + h.array_buffer_size,
        )
        &&& self.object_key_buffer@ == data.subrange(
            l.object_key_buffer as int,
            l.object_key_buffer + h.obj_key_buffer_size,
        )
        &&& self.object_val_buffer@ == data.subrange(
            l.object_value_buffer as int,
            l.object_value_buffer + h.obj_value_buffer_size,
        )
        &&& if v >= 87 {
            &&& self.big_int_table@ == parse_table_at::<BigIntTableEntry>(
                data,
                l.big_int_table as int,
                h.big_int_count as nat,
                v,
            )
            &&& self.big_int_storage@ == data.subrange(
                l.big_int_storage as int,
                l.big_int_storage + h.big_int_storage_size,
            )
        } else {
            self.big_int_table@.len() == 0 && self.big_int_storage@.len() == 0
        }
        &&& if h.reg_exp_count > 0 {
            &&& self.reg_exp_table@ == parse_table_at::<RegExpTableEntry>(
                data,
                l.reg_exp_table as int,
                h.reg_exp_count as nat,
                v,
            )
            &&& self.reg_exp_storage@ == data.subrange(
                l.reg_exp_storage as int,
                l.reg_exp_storage + h.reg_exp_storage_size,
            )
        } else {
            self.reg_exp_table@.len() == 0 && self.reg_exp_storage@.len() == 0
        }
        &&& self.cjs_modules@ == (if self.spec_cjs_as_integers() {
            Seq::new(
                h.cjs_module_count as nat,
                |i: int|
                    CJSModule::CJSModuleInt(
                        parse_table_at::<CJSModuleInt>(
                            data,
                            l.cjs_modules as int,
                            h.cjs_module_count as nat,
                            v,
                        )[i],
                    ),
            )
        } else {
            Seq::new(
                h.cjs_module_count as nat,
                |i: int|
                    CJSModule::CJSModuleEntry(
                        parse_table_at::<CJSModuleEntry>(
                            data,
                            l.cjs_modules as int,
                            h.cjs_module_count as nat,
                            v,
                        )[i],
                    ),
            )
        })
        &&& if v >= 84 {
            self.function_source_entries@ == parse_table_at::<FunctionSourceEntry>(
                data,
                l.function_sources as int,
                h.function_source_count as nat,
                v,
            )
        } else {
            self.function_source_entries@.len() == 0
        }
    }

    /// The debug section and the footer are what the bytes of `data` read
    /// as: the debug section at the offset that the header gives for it,
    /// the footer right behind the debug section.
    pub open spec fn tail_at(&self, data: Seq<u8>) -> bool {
        let at = self.header.debug_info_offset as int;
        let end = at + crate::debug_info::DebugInfoHeader::spec_size_for(self.header.version)
            + crate::debug_info::spec_debug_body_size(self.debug_info.header);
        &&& self.debug_info.header.matches_version(self.header.version)
        &&& self.debug_info.parses_at(data, at, self.header.version)
        &&& end + 20 <= data.len()
        &&& self.footer@ == data.subrange(end, end + 20)
    }

    /// Whether the sections from the string kinds to the function sources
    /// cannot be read from `data`: they pass its end, or a run of string
    /// kinds spells no kind.
    pub open spec fn tables_unreadable(h: HermesHeader, data: Seq<u8>) -> bool {
        let l = spec_layout(h);
        l.end > data.len() || has_bad_record::<StringKindEntry>(
            data,
            l.string_kinds as int,
            h.string_kind_count as int,
            h.version,
        )
    }

    /// Reads the sections from the string kinds to the function sources,
    /// in file order, from the reader's position on, and returns the
    /// layout that the header calls for.
    pub fn visit_tables(&mut self) -> (res: Result<Layout, HermesError>)
        requires
            old(self).reader.pos == 128 + 16 * old(self).header.function_count,
            old(self).big_int_table@.len() == 0,
            old(self).big_int_storage@.len() == 0,
            old(self).reg_exp_table@.len() == 0,
            old(self).reg_exp_storage@.len() == 0,
            old(self).function_source_entries@.len() == 0,
        ensures
            final(self).same_source(old(self)),
            final(self).header == old(self).header,
            final(self).function_headers == old(self).function_headers,
            final(self).function_bytecode == old(self).function_bytecode,
            final(self).debug_info == old(self).debug_info,
            final(self).footer == old(self).footer,
            final(self).cjs_module_offset == old(self).cjs_module_offset,
            match res {
                Ok(l) => l == spec_layout(old(self).header) && final(self).tables_at(
                    old(self).reader.data@,
                    l,
                ) && final(self).reader.pos == l.end,
                Err(e) => e == HermesError::MalformedInput && Self::tables_unreadable(
                    old(self).header,
                    old(self).reader.data@,
                ),
            },
    {
        let l = crate::layout::plan_sections(&self.header);
        let total: usize = self.reader.data.len();
        proof {
            crate::layout::lemma_spec_layout(self.header);
            crate::layout::lemma_layout_ordered(self.header);
        }
        assert(aligned_up(self.reader.pos as int, 4) == l.string_kinds);
        self.visit_string_kinds()?;
        assert(aligned_up(self.reader.pos as int, 4) == l.identifier_hashes);
        self.visit_identifier_hashes()?;
        assert(aligned_up(self.reader.pos as int, 4) == l.small_string_table);
        self.visit_small_string_table()?;
        assert(aligned_up(self.reader.pos as int, 4) == l.overflow_string_table);
        self.visit_overflow_string_table()?;
        assert(aligned_up(self.reader.pos as int, 4) == l.string_storage);
        self.visit_string_storage()?;
        assert(aligned_up(self.reader.pos as int, 4) == l.array_buffer);
        self.visit_array_buffer()?;
        assert(aligned_up(self.reader.pos as int, 4) == l.object_key_buffer);
        self.visit_object_key_buffer()?;
        assert(aligned_up(self.reader.pos as int, 4) == l.object_value_buffer);
        self.visit_object_value_buffer()?;
        assert(aligned_up(self.reader.pos as int, 4) == l.big_int_table);
        self.visit_big_int_table()?;
        self.visit_big_int_storage()?;
        assert(aligned_up(self.reader.pos as int, 4) == l.reg_exp_table);
        self.visit_reg_exp_table()?;
        assert(aligned_up(self.reader.pos as int, 4) == l.cjs_modules);
        self.visit_cjs_module_table()?;
        assert(self.header.version >= 84 ==> aligned_up(self.reader.pos as int, 4)
            == l.function_sources);
        self.visit_function_source_table()?;
        Ok(l)
    }
}

impl HermesFile {
    /// This file is what `data` reads as: the header at the start, every
    /// section where the layout that the header calls for puts it, the debug
    /// section where the header says, and the footer behind it.
    pub open spec fn read_from(&self, data: Seq<u8>) -> bool {
        let l = spec_layout(self.header);
        &&& self.reader.data@ == data
        &&& self.header.parses_at(data, 0)
        &&& self.headers_at(data, l)
        &&& self.tables_at(data, l)
        &&& self.tail_at(data)
        &&& self.function_bytecode@.len() == 0
    }

    /// Whether one of the function headers that `h` counts cannot be read
    /// from `data`.
    pub open spec fn headers_unreadable(h: HermesHeader, data: Seq<u8>) -> bool {
        exists|i: int|
            0 <= i < h.function_count && (#[trigger] spec_function_header_at(
                data,
                128 + 16 * i,
                h.version,
            )) is None
    }

    /// Whether `data` ends before the footer does, which lies behind the
    /// debug section.
    pub open spec fn footer_missing(h: HermesHeader, data: Seq<u8>) -> bool {
        let at = h.debug_info_offset as int;
        let hs = crate::debug_info::DebugInfoHeader::spec_size_for(h.version) as int;
        let d = crate::debug_info::DebugInfoHeader::spec_parse(data.subrange(at, at + hs), h.version);
        at + hs + crate::debug_info::spec_debug_body_size(d) + 20 > data.len()
    }

    /// Whether what lies behind the header `h` in `data` cannot be read:
    /// one of the function headers, the sections, the debug section or the
    /// footer.
    pub open spec fn unreadable_behind(h: HermesHeader, data: Seq<u8>) -> bool {
        Self::headers_unreadable(h, data) || Self::tables_unreadable(h, data)
            || Self::debug_unreadable(h, data) || Self::footer_missing(h, data)
    }

    /// Whether `data` cannot be read as a file: there are fewer than 128
    /// bytes, or what lies behind the header cannot be read.
    pub open spec fn spec_unreadable(data: Seq<u8>) -> bool {
        data.len() < 128 || exists|h: HermesHeader|
            #[trigger] h.parses_at(data, 0) && Self::unreadable_behind(h, data)
    }

    /// Reads the function headers and every section from the string kinds to
    /// the function sources, behind the header, which has been read from the
    /// start of the bytes. Returns the layout that the header calls for.
    fn read_front(&mut self) -> (res: Result<Layout, HermesError>)
        requires
            old(self).header.parses_at(old(self).reader.data@, 0),
            old(self).reader.pos == 128,
            old(self).big_int_table@.len() == 0,
            old(self).big_int_storage@.len() == 0,
            old(self).reg_exp_table@.len() == 0,
            old(self).reg_exp_storage@.len() == 0,
            old(self).function_source_entries@.len() == 0,
        ensures
            final(self).reader.data@ == old(self).reader.data@,
            final(self).header == old(self).header,
            final(self).function_bytecode == old(self).function_bytecode,
            final(self).debug_info == old(self).debug_info,
            final(self).footer == old(self).footer,
            final(self).cjs_module_offset == old(self).cjs_module_offset,
            match res {
                Ok(l) => l == spec_layout(old(self).header) && final(self).headers_at(
                    old(self).reader.data@,
                    l,
                ) && final(self).tables_at(old(self).reader.data@, l),
                Err(e) => e == HermesError::MalformedInput && (Self::headers_unreadable(
                    old(self).header,
                    old(self).reader.data@,
                ) || Self::tables_unreadable(old(self).header, old(self).reader.data@)) && forall|
                    f: HermesFile,
                | !(#[trigger] f.read_from(old(self).reader.data@)),
            },
    {
        let ghost h = self.header;
        let ghost data = self.reader.data@;
        match self.visit_function_headers() {
            Ok(()) => {},
            Err(e) => {
                proof {
                    lemma_unreadable_headers(data, h);
                }
                return Err(e);
            },
        }
        let ghost headed = *self;
        match self.visit_tables() {
            Ok(l) => {
                proof {
                    crate::layout::lemma_spec_layout(h);
                    assert(headed.headers_at(data, l));
                    crate::hermes_file::read_back::lemma_headers_kept(&headed, self, data, l);
                }
                Ok(l)
            },
            Err(e) => {
                proof {
                    lemma_unreadable_tables(data, h);
                }
                Err(e)
            },
        }
    }

    /// Reads everything behind the header, which has been read from the
    /// start of the bytes.
    fn read_behind_header(&mut self) -> (res: Result<(), HermesError>)
        requires
            old(self).header.parses_at(old(self).reader.data@, 0),
            old(self).reader.pos == 128,
            old(self).function_bytecode@.len() == 0,
            old(self).big_int_table@.len() == 0,
            old(self).big_int_storage@.len() == 0,
            old(self).reg_exp_table@.len() == 0,
            old(self).reg_exp_storage@.len() == 0,
            old(self).function_source_entries@.len() == 0,
        ensures
            final(self).cjs_module_offset == old(self).cjs_module_offset,
            match res {
                Ok(()) => final(self).read_from(old(self).reader.data@),
                Err(e) => e == HermesError::MalformedInput && Self::unreadable_behind(
                    old(self).header,
                    old(self).reader.data@,
                ) && forall|f: HermesFile| !(#[trigger] f.read_from(old(self).reader.data@)),
            },
    {
        let ghost h = self.header;
        let ghost data = self.reader.data@;
        let l = match self.read_front() {
            Ok(l) => l,
            Err(e) => {
                return Err(e);
            },
        };
        let ghost fronted = *self;
        match self.visit_debug_info() {
            Ok(()) => {},
            Err(e) => {
                proof {
                    lemma_unreadable_debug(data, h);
                }
                return Err(e);
            },
        }
        match self.visit_footer() {
            Ok(()) => {},
            Err(e) => {
                proof {
                    lemma_unreadable_footer(data, h);
                    assert(Self::footer_missing(h, data));
                }
                return Err(e);
            },
        }
        proof {
            assert(self.tail_at(data));
            crate::hermes_file::read_back::lemma_front_kept(&fronted, self, data, l);
        }
        Ok(())
    }

    /// Reads a whole file: the header, the function headers, every table
    /// and buffer, the debug section and the footer. The bytecode stays in
    /// the bytes, from which each function is decoded when it is asked for.
    /// The offset of the CommonJS modules that the file itself keeps, apart
    /// from its header, stays zero. Fails with `MalformedInput` exactly
    /// where the bytes read as no file.
    pub fn deserialize(data: Vec<u8>) -> (res: Result<HermesFile, HermesError>)
        ensures
            match res {
                Ok(f) => f.read_from(data@) && f.cjs_module_offset == 0,
                Err(e) => e == HermesError::MalformedInput && Self::spec_unreadable(data@)
                    && forall|f: HermesFile| !(#[trigger] f.read_from(data@)),
            },
    {
        let mut f = HermesFile::new(data);
        match f.visit_header() {
            Ok(()) => {},
            Err(e) => {
                proof {
                    assert(data@.len() < 128);
                    lemma_unreadable_short(data@);
                }
                return Err(e);
            },
        }
        let ghost h = f.header;
        match f.read_behind_header() {
            Ok(()) => Ok(f),
            Err(e) => {
                assert(h.parses_at(data@, 0) && Self::unreadable_behind(h, data@));
                Err(e)
            },
        }
    }

    /// Checks the footer against the bytes that the file was read from: it
    /// is to be the SHA-1 digest of all of them but the last 20. Fails with
    /// `MalformedInput` where there are fewer than 20 bytes, and with
    /// `IntegrityFailure` where the footer is not that digest.
    pub fn verify_footer(&self) -> (res: Result<(), HermesError>)
        ensures
            match res {
                Ok(()) => self.reader.data@.len() >= 20 && self.footer@ == sha1_of(
                    self.reader.data@.subrange(0, self.reader.data@.len() - 20),
                ),
                Err(e) => if self.reader.data@.len() < 20 {
                    e == HermesError::MalformedInput
                } else {
                    e == HermesError::IntegrityFailure && self.footer@ != sha1_of(
                        self.reader.data@.subrange(0, self.reader.data@.len() - 20),
                    )
                },
            },
    {
        let total: usize = self.reader.data.len();
        if total < 20 {
            return Err(HermesError::MalformedInput);
        }
        let body = copy_range(&self.reader.data, 0, total - 20);
        if footer_matches(&body, &self.footer) {
            Ok(())
        } else {
            Err(HermesError::IntegrityFailure)
        }
    }

    /// String `index` of the string table. Fails with `InternalConsistency`
    /// where the table has no such entry, and with `MalformedInput` where
    /// the entry points outside its tables or at bytes that are not valid UTF-8.
    pub fn get_string_from_storage_by_index(&self, index: usize) -> (res: Result<String, HermesError>)
        ensures
            match res {
                Ok(s) => index < self.string_storage@.len() && self.spec_string(index as int) == Some(
                    s@,
                ),
                Err(e) => if index >= self.string_storage@.len() {
                    e == HermesError::InternalConsistency
                } else {
                    e == HermesError::MalformedInput && self.spec_string(index as int) is None
                },
            },
    {
        read_stored_string(
            &self.string_storage,
            &self.overflow_string_storage,
            &self.string_storage_bytes,
            index,
        )
    }

    /// Every string of the string table, in table order. Fails with
    /// `MalformedInput` where one of them cannot be read.
    pub fn get_strings(&self) -> (res: Result<Vec<String>, HermesError>)
        ensures
            match res {
                Ok(v) => v@.len() == self.string_storage@.len() && forall|i: int|
                    0 <= i < v@.len() ==> self.spec_string(i) == Some((#[trigger] v@[i])@),
                Err(e) => e == HermesError::MalformedInput && exists|i: int|
                    0 <= i < self.string_storage@.len() && (#[trigger] self.spec_string(i)) is None,
            },
    {
        let mut out: Vec<String> = Vec::new();
        let mut i: usize = 0;
        while i < self.string_storage.len()
            invariant
                i <= self.string_storage@.len(),
                out@.len() == i,
                forall|k: int| 0 <= k < i ==> self.spec_string(k) == Some((#[trigger] out@[k])@),
            decreases self.string_storage@.len() - i,
        {
            match self.get_string_from_storage_by_index(i) {
                Ok(s) => {
                    out.push(s);
                },
                Err(e) => {
                    assert(self.spec_string(i as int) is None);
                    return Err(HermesError::MalformedInput);
                },
            }
            i = i + 1;
        }
        Ok(out)
    }

    /// The strings that the runs of string kinds cover, each with its kind,
    /// in table order. Fails with `MalformedInput` where the runs cover
    /// more strings than the table has or one of them cannot be read.
    pub fn get_strings_by_kind(&self) -> (res: Result<Vec<StringTypePair>, HermesError>)
        ensures
            match res {
                Ok(v) => self.kinds_readable() && pairs_view(v@) == self.spec_strings_by_kind(),
                Err(e) => e == HermesError::MalformedInput && !self.kinds_readable(),
            },
    {
        let kinds = match expand_runs(&self.string_kinds, self.string_storage.len()) {
            Some(k) => k,
            None => {
                return Err(HermesError::MalformedInput);
            },
        };
        let mut out: Vec<StringTypePair> = Vec::new();
        let mut i: usize = 0;
        assert(pairs_view(out@) =~= self.spec_strings_by_kind().take(0));
        while i < kinds.len()
            invariant
                i <= kinds@.len() <= self.string_storage@.len(),
                kinds@ == expand_kinds(self.string_kinds@),
                forall|k: int| 0 <= k < i ==> (#[trigger] self.spec_string(k)) is Some,
                pairs_view(out@) == self.spec_strings_by_kind().take(i as int),
            decreases kinds@.len() - i,
        {
            match self.get_string_from_storage_by_index(i) {
                Ok(s) => {
                    let ghost before = pairs_view(out@);
                    out.push(StringTypePair { string: s, kind: kinds[i] });
                    assert(pairs_view(out@) =~= before.push((s@, kinds@[i as int])));
                    assert(pairs_view(out@) =~= self.spec_strings_by_kind().take(i + 1));
                },
                Err(e) => {
                    assert(self.spec_string(i as int) is None);
                    return Err(HermesError::MalformedInput);
                },
            }
            i = i + 1;
        }
        assert(self.spec_strings_by_kind().take(i as int) =~= self.spec_strings_by_kind());
        Ok(out)
    }

    /// The bytes of function `idx`, as its header locates them.
    pub open spec fn spec_function_bytes(&self, idx: int) -> Option<Seq<u8>> {
        let fields = self.function_headers@[idx].fields();
        if fields.offset + fields.byte_size <= self.reader.data@.len() {
            Some(
                self.reader.data@.subrange(fields.offset as int, fields.offset + fields.byte_size),
            )
        } else {
            None
        }
    }

    /// The raw bytecode of function `idx`.
    fn function_bytes(&self, idx: usize) -> (res: Option<Vec<u8>>)
        requires
            idx < self.function_headers@.len(),
        ensures
            match res {
                Some(v) => self.spec_function_bytes(idx as int) == Some(v@),
                None => self.spec_function_bytes(idx as int) is None,
            },
    {
        let fh = &self.function_headers[idx];
        let offset: u64 = fh.offset() as u64;
        let size: u64 = fh.byte_size() as u64;
        let total: u64 = self.reader.data.len() as u64;
        if offset + size > total {
            return None;
        }
        Some(copy_range(&self.reader.data, offset as usize, (offset + size) as usize))
    }

    /// The raw bytecode of every function, read from the file's bytes where
    /// each function's header locates it. Fails with `MalformedInput` where
    /// a header points past the end of the bytes.
    pub fn get_bytecode(&self) -> (res: Result<Vec<FunctionBytecode>, HermesError>)
        ensures
            match res {
                Ok(v) => v@.len() == self.function_headers@.len() && forall|i: int|
                    0 <= i < v@.len() ==> (#[trigger] v@[i]).func_index == i
                        && self.spec_function_bytes(i) == Some(v@[i].bytecode@),
                Err(e) => e == HermesError::MalformedInput && (self.function_headers@.len()
                    > u32::MAX || exists|i: int|
                    0 <= i < self.function_headers@.len() && (#[trigger] self.spec_function_bytes(
                        i,
                    )) is None),
            },
    {
        if self.function_headers.len() > u32::MAX as usize {
            return Err(HermesError::MalformedInput);
        }
        let mut out: Vec<FunctionBytecode> = Vec::new();
        let mut i: usize = 0;
        while i < self.function_headers.len()
            invariant
                i <= self.function_headers@.len() <= u32::MAX,
                out@.len() == i,
                forall|k: int|
                    0 <= k < i ==> (#[trigger] out@[k]).func_index == k && self.spec_function_bytes(k)
                        == Some(out@[k].bytecode@),
            decreases self.function_headers@.len() - i,
        {
            match self.function_bytes(i) {
                Some(bytecode) => {
                    out.push(FunctionBytecode { func_index: i as u32, bytecode });
                },
                None => {
                    assert(self.spec_function_bytes(i as int) is None);
                    return Err(HermesError::MalformedInput);
                },
            }
            i = i + 1;
        }
        Ok(out)
    }

    /// The instructions of function `idx`, decoded from the file's bytes by
    /// the opcode table of the file's version. Fails with
    /// `InternalConsistency` where there is no such function, with
    /// `UnsupportedVersion` where the version has no table here, and with
    /// `MalformedInput` where the function's bytes are not all there or end
    /// in the middle of an instruction.
    pub fn decode_function(&self, idx: usize) -> (res: Result<Vec<HermesInstruction>, HermesError>)
        ensures
            match res {
                Ok(list) => {
                    &&& idx < self.function_headers@.len()
                    &&& spec_supported_version(self.header.version)
                    &&& self.spec_function_bytes(idx as int) is Some
                    &&& spec_decode_stream(
                        self.spec_function_bytes(idx as int).unwrap(),
                        self.header.version,
                    ) == Some(instructions_view(list@))
                    &&& forall|i: int|
                        0 <= i < list@.len() ==> (#[trigger] list@[i])@.operands.len() <= 6
                            && list@[i]@.version == self.header.version
                },
                Err(e) => if idx >= self.function_headers@.len() {
                    e == HermesError::InternalConsistency
                } else if !spec_supported_version(self.header.version) {
                    e == HermesError::UnsupportedVersion
                } else {
                    e == HermesError::MalformedInput && (self.spec_function_bytes(idx as int) is None
                        || spec_decode_stream(
                        self.spec_function_bytes(idx as int).unwrap(),
                        self.header.version,
                    ) is None)
                },
            },
    {
        if idx >= self.function_headers.len() {
            return Err(HermesError::InternalConsistency);
        }
        if !crate::instruction::supported_version(self.header.version) {
            return Err(HermesError::UnsupportedVersion);
        }
        match self.function_bytes(idx) {
            Some(bytes) => decode_stream(bytes, self.header.version),
            None => Err(HermesError::MalformedInput),
        }
    }

    /// The instructions of function `idx`, decoded from the file's bytes by
    /// the opcode table of the file's version. Fails with
    /// `InternalConsistency` where there is no such function, with
    /// `UnsupportedVersion` where the version has no table here, and with
    /// `MalformedInput` where the function's bytes are not all there or end
    /// in the middle of an instruction.
    pub fn get_func_bytecode(&self, idx: u32) -> (res: Result<Vec<HermesInstruction>, HermesError>)
        ensures
            match res {
                Ok(list) => {
                    &&& idx < self.function_headers@.len()
                    &&& spec_supported_version(self.header.version)
                    &&& self.spec_function_bytes(idx as int) is Some
                    &&& spec_decode_stream(
                        self.spec_function_bytes(idx as int).unwrap(),
                        self.header.version,
                    ) == Some(instructions_view(list@))
                    &&& forall|i: int|
                        0 <= i < list@.len() ==> (#[trigger] list@[i])@.operands.len() <= 6
                            && list@[i]@.version == self.header.version
                },
                Err(e) => if idx >= self.function_headers@.len() {
                    e == HermesError::InternalConsistency
                } else if !spec_supported_version(self.header.version) {
                    e == HermesError::UnsupportedVersion
                } else {
                    e == HermesError::MalformedInput && (self.spec_function_bytes(idx as int) is None
                        || spec_decode_stream(
                        self.spec_function_bytes(idx as int).unwrap(),
                        self.header.version,
                    ) is None)
                },
            },
    {
        self.decode_function(idx as usize)
    }

    /// Whether `list` holds the instructions of every function of the
    /// file, decoded from the file's bytes: one entry for each function
    /// header, numbered by its place.
    pub open spec fn is_decoded_list(&self, list: Seq<FunctionInstructions>) -> bool {
        &&& list.len() == self.function_headers@.len()
        &&& forall|i: int|
            0 <= i < self.function_headers@.len() ==> {
                let entry = #[trigger] list[i];
                &&& entry.func_index == i
                &&& entry.is_large == (self.function_headers@[i] is Large)
                &&& self.spec_function_bytes(i) is Some
                &&& spec_decode_stream(self.spec_function_bytes(i).unwrap(), self.header.version)
                    == Some(instructions_view(entry.bytecode@))
            }
    }

    /// Whether `self` is `before` with the instructions of every function
    /// decoded from the file's bytes and kept in the file, behind those
    /// that the file kept already.
    pub open spec fn decoded_from(&self, before: &HermesFile) -> bool {
        let had = before.function_bytecode@.len() as int;
        let all = self.function_bytecode@;
        &&& spec_supported_version(before.header.version)
        &&& had <= all.len()
        &&& all.subrange(0, had) == before.function_bytecode@
        &&& before.is_decoded_list(all.subrange(had, all.len() as int))
        &&& *self == (HermesFile { function_bytecode: self.function_bytecode, ..*before })
    }

    /// Decodes the instructions of every function and keeps them in the
    /// file, behind any that were there. Returns a copy of all that the file
    /// then keeps. Fails, and then changes nothing, with
    /// `UnsupportedVersion` where the version has no table here, and with
    /// `MalformedInput` where there are more than `2^32 - 1` functions or
    /// the bytes of one of them are not all there or end in the middle of an
    /// instruction.
    pub fn get_instructions(&mut self) -> (res: Result<Vec<FunctionInstructions>, HermesError>)
        ensures
            match res {
                Ok(list) => final(self).decoded_from(old(self)) && functions_view(list@)
                    == functions_view(final(self).function_bytecode@),
                Err(e) => {
                    &&& *final(self) == *old(self)
                    &&& if !spec_supported_version(old(self).header.version) {
                        e == HermesError::UnsupportedVersion
                    } else {
                        e == HermesError::MalformedInput && (old(self).function_headers@.len()
                            > u32::MAX || exists|i: int|
                            0 <= i < old(self).function_headers@.len() && (#[trigger] old(
                                self,
                            ).spec_function_bytes(i) is None || spec_decode_stream(
                                old(self).spec_function_bytes(i).unwrap(),
                                old(self).header.version,
                            ) is None))
                    }
                },
            },
    {
        let mut out = match self.decode_all() {
            Ok(out) => out,
            Err(e) => {
                return Err(e);
            },
        };
        let ghost had = self.function_bytecode@;
        let ghost decoded = out@;
        self.function_bytecode.append(&mut out);
        proof {
            let all = self.function_bytecode@;
            assert(all.subrange(0, had.len() as int) =~= had);
            assert(all.subrange(had.len() as int, all.len() as int) =~= decoded);
        }
        Ok(copy_functions(&self.function_bytecode))
    }

    /// The instructions of every function, decoded from the file's bytes.
    fn decode_all(&self) -> (res: Result<Vec<FunctionInstructions>, HermesError>)
        ensures
            match res {
                Ok(list) => spec_supported_version(self.header.version) && self.is_decoded_list(
                    list@,
                ),
                Err(e) => if !spec_supported_version(self.header.version) {
                    e == HermesError::UnsupportedVersion
                } else {
                    e == HermesError::MalformedInput && (self.function_headers@.len() > u32::MAX
                        || exists|i: int|
                        0 <= i < self.function_headers@.len() && (
                        #[trigger] self.spec_function_bytes(i) is None || spec_decode_stream(
                            self.spec_function_bytes(i).unwrap(),
                            self.header.version,
                        ) is None))
                },
            },
    {
        if !crate::instruction::supported_version(self.header.version) {
            return Err(HermesError::UnsupportedVersion);
        }
        if self.function_headers.len() > u32::MAX as usize {
            return Err(HermesError::MalformedInput);
        }
        let mut out: Vec<FunctionInstructions> = Vec::new();
        let mut i: usize = 0;
        while i < self.function_headers.len()
            invariant
                i <= self.function_headers@.len() <= u32::MAX,
                spec_supported_version(self.header.version),
                out@.len() == i,
                forall|k: int|
                    0 <= k < i ==> {
                        let entry = #[trigger] out@[k];
                        &&& entry.func_index == k
                        &&& entry.is_large == (self.function_headers@[k] is Large)
                        &&& self.spec_function_bytes(k) is Some
                        &&& spec_decode_stream(
                            self.spec_function_bytes(k).unwrap(),
                            self.header.version,
                        ) == Some(instructions_view(entry.bytecode@))
                    },
            decreases self.function_headers@.len() - i,
        {
            let bytecode = match self.get_func_bytecode(i as u32) {
                Ok(b) => b,
                Err(e) => {
                    assert(self.spec_function_bytes(i as int) is None || spec_decode_stream(
                        self.spec_function_bytes(i as int).unwrap(),
                        self.header.version,
                    ) is None);
                    return Err(e);
                },
            };
            let is_large = self.function_headers[i].is_large();
            out.push(FunctionInstructions { func_index: i as u32, is_large, bytecode });
            i = i + 1;
        }
        Ok(out)
    }
}

/// The plain values of each function's instructions, with the function's
/// number and whether its header is held as a plain record.
pub open spec fn functions_view(list: Seq<FunctionInstructions>) -> Seq<
    (u32, bool, Seq<crate::instruction::HermesInstructionView>),
> {
    Seq::new(
        list.len(),
        |i: int| (list[i].func_index, list[i].is_large, instructions_view(list[i].bytecode@)),
    )
}

/// A copy of a row of instructions.
pub fn copy_instructions(list: &Vec<HermesInstruction>) -> (out: Vec<HermesInstruction>)
    ensures
        instructions_view(out@) == instructions_view(list@),
{
    let mut out: Vec<HermesInstruction> = Vec::new();
    let mut i: usize = 0;
    while i < list.len()
        invariant
            i <= list@.len(),
            instructions_view(out@) == instructions_view(list@).take(i as int),
        decreases list@.len() - i,
    {
        let inner = list[i].instruction();
        let mut operands: Vec<Operand> = Vec::new();
        let mut k: usize = 0;
        while k < inner.operands.len()
            invariant
                k <= inner.operands@.len(),
                operands@ == inner.operands@.take(k as int),
            decreases inner.operands@.len() - k,
        {
            operands.push(inner.operands[k]);
            k = k + 1;
            assert(operands@ =~= inner.operands@.take(k as int));
        }
        assert(inner.operands@.take(k as int) =~= inner.operands@);
        let copy = match &list[i] {
            HermesInstruction::V84(_) => HermesInstruction::V84(Instruction { op: inner.op, operands }),
            HermesInstruction::V95(_) => HermesInstruction::V95(Instruction { op: inner.op, operands }),
        };
        assert(copy@ == list@[i as int]@);
        let ghost before = instructions_view(out@);
        out.push(copy);
        i = i + 1;
        assert(instructions_view(out@) =~= before.push(copy@));
        assert(instructions_view(out@) =~= instructions_view(list@).take(i as int));
    }
    assert(instructions_view(list@).take(i as int) =~= instructions_view(list@));
    out
}

/// A copy of the instructions of a row of functions.
pub fn copy_functions(list: &Vec<FunctionInstructions>) -> (out: Vec<FunctionInstructions>)
    ensures
        functions_view(out@) == functions_view(list@),
{
    let mut out: Vec<FunctionInstructions> = Vec::new();
    let mut i: usize = 0;
    while i < list.len()
        invariant
            i <= list@.len(),
            functions_view(out@) == functions_view(list@).take(i as int),
        decreases list@.len() - i,
    {
        let entry = FunctionInstructions {
            func_index: list[i].func_index,
            is_large: list[i].is_large,
            bytecode: copy_instructions(&list[i].bytecode),
        };
        let ghost before = functions_view(out@);
        let ghost added = (entry.func_index, entry.is_large, instructions_view(entry.bytecode@));
        out.push(entry);
        i = i + 1;
        assert(functions_view(out@) =~= before.push(added));
        assert(functions_view(out@) =~= functions_view(list@).take(i as int));
    }
    assert(functions_view(list@).take(i as int) =~= functions_view(list@));
    out
}

/// The kind of every string that the runs cover, or `None` where the runs
/// cover more than `limit` strings.
pub fn expand_runs(runs: &Vec<StringKindEntry>, limit: usize) -> (res: Option<Vec<StringKind>>)
    ensures
        match res {
            Some(kinds) => kinds@ == expand_kinds(runs@) && kinds@.len() <= limit,
            None => expand_kinds(runs@).len() > limit,
        },
{
    let mut kinds: Vec<StringKind> = Vec::new();
    let mut i: usize = 0;
    assert(runs@.take(0) =~= Seq::<StringKindEntry>::empty());
    while i < runs.len()
        invariant
            i <= runs@.len(),
            kinds@ == expand_kinds(runs@.take(i as int)),
            kinds@.len() <= limit,
        decreases runs@.len() - i,
    {
        let kind = runs[i].kind();
        let count = runs[i].count();
        proof {
            assert(runs@.take(i + 1) =~= runs@.take(i as int).push(runs@[i as int]));
            lemma_expand_kinds_push(runs@.take(i as int), runs@[i as int]);
            lemma_expand_monotone(runs@, i + 1);
        }
        if count as u64 > (limit - kinds.len()) as u64 {
            return None;
        }
        let ghost before = kinds@;
        let mut k: u32 = 0;
        while k < count
            invariant
                k <= count,
                kinds@ == before + repeat_kind(kind, k as nat),
                before.len() + count <= limit,
            decreases count - k,
        {
            kinds.push(kind);
            k = k + 1;
            assert(kinds@ =~= before + repeat_kind(kind, k as nat));
        }
        i = i + 1;
    }
    assert(runs@.take(i as int) =~= runs@);
    Some(kinds)
}

/// The runs up to some point cover no more strings than all of them.
pub proof fn lemma_expand_monotone(runs: Seq<StringKindEntry>, i: int)
    requires
        0 <= i <= runs.len(),
    ensures
        expand_kinds(runs.take(i)).len() <= expand_kinds(runs).len(),
    decreases runs.len() - i,
{
    if i < runs.len() {
        lemma_expand_monotone(runs, i + 1);
        assert(runs.take(i + 1).drop_last() =~= runs.take(i));
    } else {
        assert(runs.take(i) =~= runs);
    }
}

impl HermesFile {
    /// Reads the sequence of array elements that starts at `idx` in the array buffer storage,
    /// reading no further than `slice_size` bytes if that is not zero.
    /// Returns the offset where the sequence ends and its elements. Fails
    /// with `MalformedInput` where the sequence passes the end of the bytes
    /// it may read.
    pub fn get_array_buffer(&self, idx: usize, slice_size: usize) -> (res: Result<
        (usize, Vec<ArrayTypes>),
        HermesError,
    >)
        ensures
            match res {
                Ok((end, values)) => {
                    &&& spec_window(self.array_buffer_storage@, idx as int, slice_size as int) is Some
                    &&& spec_parse_sequence(
                        spec_window(self.array_buffer_storage@, idx as int, slice_size as int).unwrap(),
                    ) == Some((values@, end - idx))
                },
                Err(e) => {
                    &&& e == HermesError::MalformedInput
                    &&& (spec_window(self.array_buffer_storage@, idx as int, slice_size as int) is None
                        || spec_parse_sequence(
                        spec_window(self.array_buffer_storage@, idx as int, slice_size as int).unwrap(),
                    ) is None)
                },
            },
    {
        parse_literal_sequence(&self.array_buffer_storage, idx, slice_size)
    }

    /// Reads the sequence of object keys that starts at `idx` in the object key buffer,
    /// reading no further than `slice_size` bytes if that is not zero.
    /// Returns the offset where the sequence ends and its elements. Fails
    /// with `MalformedInput` where the sequence passes the end of the bytes
    /// it may read.
    pub fn get_object_key_buffer(&self, idx: usize, slice_size: usize) -> (res: Result<
        (usize, Vec<ArrayTypes>),
        HermesError,
    >)
        ensures
            match res {
                Ok((end, values)) => {
                    &&& spec_window(self.object_key_buffer@, idx as int, slice_size as int) is Some
                    &&& spec_parse_sequence(
                        spec_window(self.object_key_buffer@, idx as int, slice_size as int).unwrap(),
                    ) == Some((values@, end - idx))
                },
                Err(e) => {
                    &&& e == HermesError::MalformedInput
                    &&& (spec_window(self.object_key_buffer@, idx as int, slice_size as int) is None
                        || spec_parse_sequence(
                        spec_window(self.object_key_buffer@, idx as int, slice_size as int).unwrap(),
                    ) is None)
                },
            },
    {
        parse_literal_sequence(&self.object_key_buffer, idx, slice_size)
    }

    /// Reads the sequence of object values that starts at `idx` in the object val buffer,
    /// reading no further than `slice_size` bytes if that is not zero.
    /// Returns the offset where the sequence ends and its elements. Fails
    /// with `MalformedInput` where the sequence passes the end of the bytes
    /// it may read.
    pub fn get_object_val_buffer(&self, idx: usize, slice_size: usize) -> (res: Result<
        (usize, Vec<ArrayTypes>),
        HermesError,
    >)
        ensures
            match res {
                Ok((end, values)) => {
                    &&& spec_window(self.object_val_buffer@, idx as int, slice_size as int) is Some
                    &&& spec_parse_sequence(
                        spec_window(self.object_val_buffer@, idx as int, slice_size as int).unwrap(),
                    ) == Some((values@, end - idx))
                },
                Err(e) => {
                    &&& e == HermesError::MalformedInput
                    &&& (spec_window(self.object_val_buffer@, idx as int, slice_size as int) is None
                        || spec_parse_sequence(
                        spec_window(self.object_val_buffer@, idx as int, slice_size as int).unwrap(),
                    ) is None)
                },
            },
    {
        parse_literal_sequence(&self.object_val_buffer, idx, slice_size)
    }
}

/// Fewer than 128 bytes read as no file.
pub proof fn lemma_unreadable_short(data: Seq<u8>)
    requires
        data.len() < 128,
    ensures
        forall|f: HermesFile| !(#[trigger] f.read_from(data)),
{
    assert forall|f: HermesFile| !(#[trigger] f.read_from(data)) by {
        crate::layout::lemma_spec_layout(f.header);
    }
}

/// Bytes in which one of the function headers cannot be read, read as no file.
pub proof fn lemma_unreadable_headers(data: Seq<u8>, h: HermesHeader)
    requires
        h.parses_at(data, 0),
        exists|i: int|
            0 <= i < h.function_count && (#[trigger] spec_function_header_at(
                data,
                128 + 16 * i,
                h.version,
            )) is None,
    ensures
        forall|f: HermesFile| !(#[trigger] f.read_from(data)),
{
    let i = choose|i: int|
        0 <= i < h.function_count && (#[trigger] spec_function_header_at(
            data,
            128 + 16 * i,
            h.version,
        )) is None;
    assert forall|f: HermesFile| !(#[trigger] f.read_from(data)) by {
        if f.read_from(data) {
            crate::header::lemma_header_parse_unique(f.header, h, data, 0);
            crate::layout::lemma_spec_layout(h);
            assert(spec_function_header_at(data, spec_layout(h).function_headers + 16 * i, h.version)
                == Some(f.function_headers@[i]@));
        }
    }
}

/// Bytes in which the tables cannot be read, read as no file.
pub proof fn lemma_unreadable_tables(data: Seq<u8>, h: HermesHeader)
    requires
        h.parses_at(data, 0),
        HermesFile::tables_unreadable(h, data),
    ensures
        forall|f: HermesFile| !(#[trigger] f.read_from(data)),
{
    assert forall|f: HermesFile| !(#[trigger] f.read_from(data)) by {
        if f.read_from(data) {
            crate::header::lemma_header_parse_unique(f.header, h, data, 0);
            let l = spec_layout(h);
            if l.end <= data.len() {
                let i = choose|i: int|
                    0 <= i < h.string_kind_count && StringKindEntry::spec_parse(
                        #[trigger] crate::codec::record_at::<StringKindEntry>(
                            data,
                            l.string_kinds as int,
                            i,
                        ),
                        h.version,
                    ) is None;
                assert(StringKindEntry::spec_parse(
                    crate::codec::record_at::<StringKindEntry>(data, l.string_kinds as int, i),
                    h.version,
                ) == Some(f.string_kinds@[i]));
            }
        }
    }
}

/// Bytes in which the debug section cannot be read, read as no file.
pub proof fn lemma_unreadable_debug(data: Seq<u8>, h: HermesHeader)
    requires
        h.parses_at(data, 0),
        HermesFile::debug_unreadable(h, data),
    ensures
        forall|f: HermesFile| !(#[trigger] f.read_from(data)),
{
    assert forall|f: HermesFile| !(#[trigger] f.read_from(data)) by {
        if f.read_from(data) {
            crate::header::lemma_header_parse_unique(f.header, h, data, 0);
        }
    }
}

/// Bytes that end before the footer does, read as no file.
pub proof fn lemma_unreadable_footer(data: Seq<u8>, h: HermesHeader)
    requires
        h.parses_at(data, 0),
        ({
            let at = h.debug_info_offset as int;
            let hs = crate::debug_info::DebugInfoHeader::spec_size_for(h.version) as int;
            let d = crate::debug_info::DebugInfoHeader::spec_parse(
                data.subrange(at, at + hs),
                h.version,
            );
            at + hs + crate::debug_info::spec_debug_body_size(d) + 20 > data.len()
        }),
    ensures
        forall|f: HermesFile| !(#[trigger] f.read_from(data)),
{
    assert forall|f: HermesFile| !(#[trigger] f.read_from(data)) by {
        if f.read_from(data) {
            crate::header::lemma_header_parse_unique(f.header, h, data, 0);
        }
    }
}

} // verus!
