//! Writing a file: laying it out, then emitting the header, every
//! section in file order, the bytecode, the plain function headers with
//! what hangs off each header, the debug section and the footer.

use vstd::prelude::*;
use std::collections::HashMap;
use crate::big_int_table::BigIntTableEntry;
use crate::cjs_module::CJSModule;
use crate::codec::{table_bytes, words_bytes, write_table, write_words, Serializable};
use crate::digest::{digest_of, sha1_of};
use crate::encode::{align_writer, padding_to, zeros, Writer};
use crate::decode::aligned_up;
use crate::error::HermesError;
use crate::function_header::{
    info_agrees, lemma_info_round_trip, lemma_large_header_round_trip,
    lemma_small_header_flags, lemma_small_header_offsets, lemma_small_header_round_trip,
    parse_small_header, spec_function_header_at, spec_info_at, spec_large_info_offset, info_bytes, info_end, large_header_bytes, lemma_info_bytes_len, small_header_bytes,
    write_function_info, FunctionHeader, FunctionHeaderFields, FunctionHeaderFlag,
    FunctionHeaderView, LargeFunctionHeader, SmallFunctionHeader,
};
use crate::hermes_file::builder::spec_bytecode_size;
use crate::hermes_file::FunctionInstructions;
use crate::instruction::HermesInstruction;
use crate::layout::{
    align4, align_offset, is_layout_of, lemma_align4_bounds, plan_sections, spec_layout, Layout,
};
use crate::debug_info::DebugInfoOffsets;
use crate::function_sources::FunctionSourceEntry;
use crate::header::{spec_raw_size, HermesHeader};
use crate::hermes_file::{HermesFile, HermesOffsets};
use crate::regexp_table::RegExpTableEntry;
use crate::string_kind::StringKindEntry;
use crate::string_table::{OverflowStringTableEntry, SmallStringTableEntry};

verus! {

/// `s` followed by the zeros that bring its length to a multiple of four.
pub open spec fn pad4(s: Seq<u8>) -> Seq<u8> {
    s + zeros(padding_to(s.len() as int, 4))
}

/// The bytes of every entry of a CommonJS module table, in order.
pub open spec fn cjs_bytes(modules: Seq<CJSModule>) -> Seq<u8>
    decreases modules.len(),
{
    if modules.len() == 0 {
        Seq::empty()
    } else {
        cjs_bytes(modules.drop_last()) + modules.last().spec_bytes()
    }
}

impl HermesFile {
    /// Appends the header and pads the stream to a multiple of 32.
    pub fn write_header(&self, w: &mut Writer)
        ensures
            final(w)@ == old(w)@ + self.header.spec_raw_bytes() + zeros(
                padding_to((old(w)@.len() + spec_raw_size(self.header.version)) as int, 32),
            ),
            self.header.spec_raw_bytes().len() == spec_raw_size(self.header.version),
            (final(w)@.len() as int) % 32 == 0,
    {
        self.header.serialize(w);
        let ghost written = w@;
        align_writer(w, 4);
        assert(w@ =~= written);
    }

    /// Pads the stream to a multiple of four and appends the runs of string kinds.
    pub fn write_string_kinds(&self, w: &mut Writer)
        ensures
            final(w)@ == pad4(old(w)@) + table_bytes(self.string_kinds@),
            final(w)@.len() == align4(old(w)@.len() as int) + 4 * self.string_kinds@.len(),
    {
        proof {
            lemma_pad4_len(w@);
            crate::codec::lemma_table_bytes_len(self.string_kinds@);
            let count = self.string_kinds@.len();
            let size = StringKindEntry::spec_size();
            assert(count * size == 4 * count) by (nonlinear_arith)
                requires
                    size == 4,
            ;
        }
        align_writer(w, 4);
        write_table(w, &self.string_kinds);
    }

    /// Pads the stream to a multiple of four and appends the identifier hashes.
    pub fn write_identifier_hashes(&self, w: &mut Writer)
        ensures
            final(w)@ == pad4(old(w)@) + words_bytes(self.identifier_hashes@),
            final(w)@.len() == align4(old(w)@.len() as int) + 4 * self.identifier_hashes@.len(),
    {
        proof {
            lemma_pad4_len(w@);
            crate::codec::lemma_words_bytes_len(self.identifier_hashes@);
        }
        align_writer(w, 4);
        write_words(w, &self.identifier_hashes);
    }

    /// Pads the stream to a multiple of four and appends the small string
    /// table. Sets the header's count of strings to the number of entries
    /// and records the offset of each entry; nothing else changes.
    pub fn write_small_string_table(&mut self, w: &mut Writer)
        requires
            align4(old(w)@.len() as int) + 4 * old(self).string_storage@.len() <= u32::MAX,
        ensures
            final(w)@ == pad4(old(w)@) + table_bytes(old(self).string_storage@),
            final(w)@.len() == align4(old(w)@.len() as int) + 4 * old(self).string_storage@.len(),
            final(self).header.string_count == old(self).string_storage@.len(),
            final(self).offsets.small_string_table_offsets@ == spec_entry_offsets(
                align4(old(w)@.len() as int),
                4,
                old(self).string_storage@.len() as int,
            ),
            *final(self) == (HermesFile {
                header: HermesHeader {
                    string_count: final(self).header.string_count,
                    ..old(self).header
                },
                offsets: HermesOffsets {
                    small_string_table_offsets: final(self).offsets.small_string_table_offsets,
                    ..old(self).offsets
                },
                ..*old(self)
            }),
    {
        proof {
            lemma_pad4_len(w@);
            lemma_align4_bounds(w@.len() as int);
            crate::codec::lemma_table_bytes_len(self.string_storage@);
            let count = self.string_storage@.len();
            let size = SmallStringTableEntry::spec_size();
            assert(count * size == 4 * count) by (nonlinear_arith)
                requires
                    size == 4,
            ;
        }
        align_writer(w, 4);
        let start: usize = w.buf.len();
        let count: usize = self.string_storage.len();
        write_table(w, &self.string_storage);
        self.offsets.small_string_table_offsets = entry_offsets(start as u64, 4, count);
        self.header.string_count = count as u32;
    }

    /// Pads the stream to a multiple of four and appends the overflow
    /// string table. Sets the header's count of overflow strings to the
    /// number of entries and records the offset of each entry; nothing else
    /// changes.
    pub fn write_overflow_string_table(&mut self, w: &mut Writer)
        requires
            align4(old(w)@.len() as int) + 8 * old(self).overflow_string_storage@.len() <= u32::MAX,
        ensures
            final(w)@ == pad4(old(w)@) + table_bytes(old(self).overflow_string_storage@),
            final(w)@.len() == align4(old(w)@.len() as int) + 8 * old(
                self,
            ).overflow_string_storage@.len(),
            final(self).header.overflow_string_count == old(self).overflow_string_storage@.len(),
            final(self).offsets.overflow_string_table_offsets@ == spec_entry_offsets(
                align4(old(w)@.len() as int),
                8,
                old(self).overflow_string_storage@.len() as int,
            ),
            *final(self) == (HermesFile {
                header: HermesHeader {
                    overflow_string_count: final(self).header.overflow_string_count,
                    ..old(self).header
                },
                offsets: HermesOffsets {
                    overflow_string_table_offsets: final(self).offsets.overflow_string_table_offsets,
                    ..old(self).offsets
                },
                ..*old(self)
            }),
    {
        proof {
            lemma_pad4_len(w@);
            lemma_align4_bounds(w@.len() as int);
            crate::codec::lemma_table_bytes_len(self.overflow_string_storage@);
            let count = self.overflow_string_storage@.len();
            let size = OverflowStringTableEntry::spec_size();
            assert(count * size == 8 * count) by (nonlinear_arith)
                requires
                    size == 8,
            ;
        }
        align_writer(w, 4);
        let start: usize = w.buf.len();
        let count: usize = self.overflow_string_storage.len();
        write_table(w, &self.overflow_string_storage);
        self.offsets.overflow_string_table_offsets = entry_offsets(start as u64, 8, count);
        self.header.overflow_string_count = count as u32;
    }

    /// Pads the stream to a multiple of four and appends the string
    /// storage. Sets the header's size of the string storage to the number
    /// of bytes; nothing else changes.
    pub fn write_string_storage(&mut self, w: &mut Writer)
        requires
            old(self).string_storage_bytes@.len() <= u32::MAX,
        ensures
            final(w)@ == pad4(old(w)@) + old(self).string_storage_bytes@,
            final(w)@.len() == align4(old(w)@.len() as int) + old(self).string_storage_bytes@.len(),
            final(self).header.string_storage_size == old(self).string_storage_bytes@.len(),
            *final(self) == (HermesFile {
                header: HermesHeader {
                    string_storage_size: final(self).header.string_storage_size,
                    ..old(self).header
                },
                ..*old(self)
            }),
    {
        proof {
            lemma_pad4_len(w@);
        }
        align_writer(w, 4);
        w.write_all(self.string_storage_bytes.as_slice());
        self.header.string_storage_size = self.string_storage_bytes.len() as u32;
    }

    /// Pads the stream to a multiple of four and appends the array buffer.
    pub fn write_array_buffer(&self, w: &mut Writer)
        ensures
            final(w)@ == pad4(old(w)@) + self.array_buffer_storage@,
            final(w)@.len() == align4(old(w)@.len() as int) + self.array_buffer_storage@.len(),
    {
        proof {
            lemma_pad4_len(w@);
        }
        align_writer(w, 4);
        w.write_all(self.array_buffer_storage.as_slice());
    }

    /// Pads the stream to a multiple of four and appends the object key buffer.
    pub fn write_object_key_buffer(&self, w: &mut Writer)
        ensures
            final(w)@ == pad4(old(w)@) + self.object_key_buffer@,
            final(w)@.len() == align4(old(w)@.len() as int) + self.object_key_buffer@.len(),
    {
        proof {
            lemma_pad4_len(w@);
        }
        align_writer(w, 4);
        w.write_all(self.object_key_buffer.as_slice());
    }

    /// Pads the stream to a multiple of four and appends the object value buffer.
    pub fn write_object_value_buffer(&self, w: &mut Writer)
        ensures
            final(w)@ == pad4(old(w)@) + self.object_val_buffer@,
            final(w)@.len() == align4(old(w)@.len() as int) + self.object_val_buffer@.len(),
    {
        proof {
            lemma_pad4_len(w@);
        }
        align_writer(w, 4);
        w.write_all(self.object_val_buffer.as_slice());
    }

    /// Pads the stream to a multiple of four and appends the BigInt table.
    pub fn write_big_int_table(&self, w: &mut Writer)
        ensures
            final(w)@ == pad4(old(w)@) + table_bytes(self.big_int_table@),
            final(w)@.len() == align4(old(w)@.len() as int) + 8 * self.big_int_table@.len(),
    {
        proof {
            lemma_pad4_len(w@);
            crate::codec::lemma_table_bytes_len(self.big_int_table@);
            let count = self.big_int_table@.len();
            let size = BigIntTableEntry::spec_size();
            assert(count * size == 8 * count) by (nonlinear_arith)
                requires
                    size == 8,
            ;
        }
        align_writer(w, 4);
        write_table(w, &self.big_int_table);
    }

    /// Pads the stream to a multiple of four and appends the BigInt storage.
    pub fn write_big_int_storage(&self, w: &mut Writer)
        ensures
            final(w)@ == pad4(old(w)@) + self.big_int_storage@,
            final(w)@.len() == align4(old(w)@.len() as int) + self.big_int_storage@.len(),
    {
        proof {
            lemma_pad4_len(w@);
        }
        align_writer(w, 4);
        w.write_all(self.big_int_storage.as_slice());
    }

    /// Pads the stream to a multiple of four and appends the
    /// regular-expression table with its storage right behind it. Where the
    /// table is empty, nothing but the padding is written.
    pub fn write_reg_exp_table(&self, w: &mut Writer)
        ensures
            final(w)@ == pad4(old(w)@) + (if self.reg_exp_table@.len() > 0 {
                table_bytes(self.reg_exp_table@) + self.reg_exp_storage@
            } else {
                Seq::empty()
            }),
            final(w)@.len() == align4(old(w)@.len() as int) + (if self.reg_exp_table@.len() > 0 {
                8 * self.reg_exp_table@.len() + self.reg_exp_storage@.len()
            } else {
                0
            }),
    {
        proof {
            lemma_pad4_len(w@);
            crate::codec::lemma_table_bytes_len(self.reg_exp_table@);
            let count = self.reg_exp_table@.len();
            let size = RegExpTableEntry::spec_size();
            assert(count * size == 8 * count) by (nonlinear_arith)
                requires
                    size == 8,
            ;
        }
        align_writer(w, 4);
        if self.reg_exp_table.len() > 0 {
            write_table(w, &self.reg_exp_table);
            w.write_all(self.reg_exp_storage.as_slice());
            assert(w@ =~= pad4(old(w)@) + (table_bytes(self.reg_exp_table@) + self.reg_exp_storage@));
        } else {
            assert(w@ =~= pad4(old(w)@) + Seq::<u8>::empty());
        }
    }

    /// Pads the stream to a multiple of four and appends the CommonJS
    /// module table.
    pub fn write_cjs_module_table(&self, w: &mut Writer)
        ensures
            final(w)@ == pad4(old(w)@) + cjs_bytes(self.cjs_modules@),
            (forall|i: int|
                0 <= i < self.cjs_modules@.len() ==> ((#[trigger] self.cjs_modules@[i]) is CJSModuleInt)
                    == self.spec_cjs_as_integers()) ==> final(w)@.len() == align4(
                old(w)@.len() as int,
            ) + self.cjs_modules@.len() * (if self.spec_cjs_as_integers() { 4int } else { 8int }),
    {
        proof {
            lemma_pad4_len(w@);
            if forall|i: int|
                0 <= i < self.cjs_modules@.len() ==> ((#[trigger] self.cjs_modules@[i]) is CJSModuleInt)
                    == self.spec_cjs_as_integers() {
                lemma_cjs_bytes_len(self.cjs_modules@, self.spec_cjs_as_integers());
            }
        }
        align_writer(w, 4);
        let ghost base = w@;
        let mut i: usize = 0;
        while i < self.cjs_modules.len()
            invariant
                i <= self.cjs_modules@.len(),
                w@ == base + cjs_bytes(self.cjs_modules@.take(i as int)),
            decreases self.cjs_modules@.len() - i,
        {
            self.cjs_modules[i].serialize(w);
            proof {
                let next = self.cjs_modules@.take(i + 1);
                assert(next.drop_last() =~= self.cjs_modules@.take(i as int));
                assert(w@ =~= base + cjs_bytes(next));
            }
            i = i + 1;
        }
        assert(self.cjs_modules@.take(i as int) =~= self.cjs_modules@);
    }

    /// Pads the stream to a multiple of four and appends the function source table.
    pub fn write_function_source_table(&self, w: &mut Writer)
        ensures
            final(w)@ == pad4(old(w)@) + table_bytes(self.function_source_entries@),
            final(w)@.len() == align4(old(w)@.len() as int) + 8 * self.function_source_entries@.len(),
    {
        proof {
            lemma_pad4_len(w@);
            crate::codec::lemma_table_bytes_len(self.function_source_entries@);
            let count = self.function_source_entries@.len();
            let size = FunctionSourceEntry::spec_size();
            assert(count * size == 8 * count) by (nonlinear_arith)
                requires
                    size == 8,
            ;
        }
        align_writer(w, 4);
        write_table(w, &self.function_source_entries);
    }

    /// Appends the debug section and records the offset at which it was
    /// put; nothing else changes.
    pub fn write_debug_info(&mut self, w: &mut Writer)
        requires
            old(w)@.len() <= u32::MAX,
        ensures
            final(w)@ == old(w)@ + old(self).debug_info.spec_bytes(),
            final(self).offsets.debug_info_offset == old(w)@.len(),
            *final(self) == (HermesFile {
                offsets: HermesOffsets {
                    debug_info_offset: final(self).offsets.debug_info_offset,
                    ..old(self).offsets
                },
                ..*old(self)
            }),
    {
        self.offsets.debug_info_offset = w.buf.len() as u32;
        self.debug_info.serialize(w);
    }

    /// Sets the footer to the SHA-1 digest of everything written so far,
    /// and appends it.
    pub fn write_footer(&mut self, w: &mut Writer)
        ensures
            final(self).footer@ == sha1_of(old(w)@),
            final(w)@ == old(w)@ + final(self).footer@,
            final(w)@.len() == old(w)@.len() + 20,
            *final(self) == (HermesFile { footer: final(self).footer, ..*old(self) }),
    {
        self.footer = digest_of(&w.buf);
        w.write_all(self.footer.as_slice());
    }
}

/// The packed record that stands in the header table for a header held as
/// a plain record: the plain record's place, which is its `info_offset`,
/// split into `offset` (low 16 bits) and `info_offset` (high 16 bits), the
/// overflowed flag set, and the other numbers as they are.
pub open spec fn spec_proxy_fields(c: FunctionHeaderFields) -> FunctionHeaderFields {
    FunctionHeaderFields {
        offset: c.info_offset % 0x1_0000,
        info_offset: c.info_offset / 0x1_0000,
        flags: FunctionHeaderFlag { overflowed: true, ..c.flags },
        ..c
    }
}

/// The 16 bytes that a header takes in the header table.
pub open spec fn slot_bytes(h: FunctionHeaderView) -> Seq<u8> {
    if h.is_large {
        small_header_bytes(spec_proxy_fields(h.fields))
    } else {
        small_header_bytes(h.fields)
    }
}

/// The header table: the slot of each header, in order.
pub open spec fn slots_bytes(views: Seq<FunctionHeaderView>) -> Seq<u8>
    decreases views.len(),
{
    if views.len() == 0 {
        Seq::empty()
    } else {
        slots_bytes(views.drop_last()) + slot_bytes(views.last())
    }
}

/// The plain values of each header.
pub open spec fn views_of(headers: Seq<FunctionHeader>) -> Seq<FunctionHeaderView> {
    Seq::new(headers.len(), |i: int| headers[i]@)
}

/// The number of bytes that a header's debug offsets take.
pub open spec fn debug_size_of(d: Option<DebugInfoOffsets>) -> int {
    match d {
        Some(x) => x.spec_bytes().len() as int,
        None => 0,
    }
}

/// Where that part of the tail ends that belongs to a header: behind what
/// hangs off the header, which for a header held as a plain record follows
/// the 32 bytes of that record.
pub open spec fn chunk_end(h: FunctionHeaderView) -> int {
    info_end(
        if h.is_large { h.fields.info_offset + 32 } else { h.fields.info_offset as int },
        h.fields.flags,
        h.handlers.len() as int,
        debug_size_of(h.debug_info),
    )
}

/// The part of the tail that belongs to a header, written behind
/// `prev_end`: zeros up to the header's `info_offset`, then the plain
/// record if the header is held as one, then what hangs off the header.
pub open spec fn chunk_bytes(h: FunctionHeaderView, prev_end: int) -> Seq<u8> {
    zeros(h.fields.info_offset - prev_end) + (if h.is_large {
        large_header_bytes(h.fields) + info_bytes(
            h.fields.info_offset + 32,
            h.fields.flags,
            h.handlers,
            h.debug_info,
        )
    } else {
        info_bytes(h.fields.info_offset as int, h.fields.flags, h.handlers, h.debug_info)
    })
}

/// Where the tail of the first `count` headers ends, when it starts at `start`.
pub open spec fn tail_end(views: Seq<FunctionHeaderView>, count: int, start: int) -> int {
    if count <= 0 {
        start
    } else {
        chunk_end(views[count - 1])
    }
}

/// The tail: the part of each header, in order, from `start` on.
pub open spec fn tail_bytes(views: Seq<FunctionHeaderView>, start: int) -> Seq<u8>
    decreases views.len(),
{
    if views.len() == 0 {
        Seq::empty()
    } else {
        let front = views.drop_last();
        tail_bytes(front, start) + chunk_bytes(views.last(), tail_end(front, front.len() as int, start))
    }
}

/// Whether header `i` of `views` is placed: its bytecode lies right behind
/// that of the header before it (the first at `bytecode_start`) and is as
/// long as its instructions; its part of the tail lies right behind that of
/// the header before it (the first at `tail_start`), at the next multiple
/// of four if the header is held as a plain record; and its shape is fit to
/// hold its numbers.
pub open spec fn header_placed_in(
    views: Seq<FunctionHeaderView>,
    functions: Seq<FunctionInstructions>,
    version: u32,
    bytecode_start: int,
    tail_start: int,
    i: int,
) -> bool {
    let h = views[i];
    let prev_end = tail_end(views, i, tail_start);
    &&& functions[i].func_index == i
    &&& h.fields.byte_size == spec_bytecode_size(functions[i].bytecode@)
    &&& h.fields.offset == (if i == 0 {
        bytecode_start
    } else {
        views[i - 1].fields.offset + views[i - 1].fields.byte_size
    })
    &&& h.handlers.len() <= u32::MAX
    &&& h.fields.flags.has_debug_info ==> h.debug_info is Some
    &&& h.debug_info is Some ==> h.debug_info.unwrap().matches_version(version)
    &&& if h.is_large {
        h.fields.info_offset == align4(prev_end) && h.fields.flags.overflowed && h.fields.fits_large()
    } else {
        h.fields.info_offset == prev_end && !h.fields.flags.overflowed && h.fields.fits_small()
            && !h.fields.overflows()
    }
}

/// The bytes that a row of instructions is written as.
pub open spec fn instructions_bytes(list: Seq<HermesInstruction>) -> Seq<u8>
    decreases list.len(),
{
    if list.len() == 0 {
        Seq::empty()
    } else {
        instructions_bytes(list.drop_last()) + list.last().spec_instruction().spec_bytes()
    }
}

/// The bytecode of every function, end to end.
pub open spec fn bytecode_bytes(functions: Seq<FunctionInstructions>) -> Seq<u8>
    decreases functions.len(),
{
    if functions.len() == 0 {
        Seq::empty()
    } else {
        bytecode_bytes(functions.drop_last()) + instructions_bytes(functions.last().bytecode@)
    }
}

/// Instructions are written as many bytes as their sizes add up to.
pub proof fn lemma_instructions_bytes_len(list: Seq<HermesInstruction>)
    ensures
        instructions_bytes(list).len() == spec_bytecode_size(list),
    decreases list.len(),
{
    if list.len() > 0 {
        lemma_instructions_bytes_len(list.drop_last());
    }
}

/// The header table takes 16 bytes for each header.
pub proof fn lemma_slots_bytes_len(views: Seq<FunctionHeaderView>)
    ensures
        slots_bytes(views).len() == 16 * views.len(),
    decreases views.len(),
{
    if views.len() > 0 {
        lemma_slots_bytes_len(views.drop_last());
        crate::function_header::lemma_small_header_flags(views.last().fields);
        crate::function_header::lemma_small_header_flags(spec_proxy_fields(views.last().fields));
    }
}

/// Appends the instructions of one function.
pub fn write_instructions(w: &mut Writer, list: &Vec<HermesInstruction>)
    ensures
        final(w)@ == old(w)@ + instructions_bytes(list@),
{
    let mut i: usize = 0;
    while i < list.len()
        invariant
            i <= list@.len(),
            w@ == old(w)@ + instructions_bytes(list@.take(i as int)),
        decreases list@.len() - i,
    {
        list[i].serialize(w);
        proof {
            let next = list@.take(i + 1);
            assert(next.drop_last() =~= list@.take(i as int));
            assert(w@ =~= old(w)@ + instructions_bytes(next));
        }
        i = i + 1;
    }
    assert(list@.take(i as int) =~= list@);
}

/// Appends the part of the tail that belongs to a header, behind `prev_end`.
pub(crate) fn write_chunk(w: &mut Writer, h: &FunctionHeader, Ghost(prev_end): Ghost<int>)
    requires
        old(w)@.len() == prev_end,
        h@.handlers.len() <= u32::MAX,
        h@.fields.flags.has_debug_info ==> h@.debug_info is Some,
        h@.fields.info_offset == (if h@.is_large { align4(prev_end) } else { prev_end }),
    ensures
        final(w)@ == old(w)@ + chunk_bytes(h@, prev_end),
        final(w)@.len() == chunk_end(h@),
{
    match h {
        FunctionHeader::Small(sfh) => {
            proof {
                lemma_info_bytes_len(prev_end, sfh.flags, sfh.exception_handlers@, sfh.debug_info);
            }
            write_function_info(w, sfh.flags, &sfh.exception_handlers, sfh.debug_info);
            assert(zeros(0) =~= Seq::<u8>::empty());
            assert(w@ =~= old(w)@ + chunk_bytes(h@, prev_end));
        },
        FunctionHeader::Large(lfh) => {
            proof {
                lemma_pad4_len(w@);
            }
            align_writer(w, 4);
            lfh.serialize(w);
            proof {
                crate::function_header::lemma_large_header_flags_len(lfh.fields());
                lemma_info_bytes_len(
                    lfh.info_offset + 32,
                    lfh.flags,
                    lfh.exception_handlers@,
                    lfh.debug_info,
                );
            }
            write_function_info(w, lfh.flags, &lfh.exception_handlers, lfh.debug_info);
            assert(w@ =~= old(w)@ + chunk_bytes(h@, prev_end));
        },
    }
}

/// Appends the slot that a header takes in the header table.
pub fn write_slot(w: &mut Writer, h: &FunctionHeader)
    ensures
        final(w)@ == old(w)@ + slot_bytes(h@),
{
    match h {
        FunctionHeader::Small(s) => s.serialize(w),
        FunctionHeader::Large(l) => {
            let (low, high) = crate::function_header::get_large_info_offset_pair(l.info_offset);
            let proxy = SmallFunctionHeader {
                offset: low,
                param_count: l.param_count,
                byte_size: l.byte_size,
                func_name: l.func_name,
                info_offset: high,
                frame_size: l.frame_size,
                env_size: l.env_size,
                highest_read_cache_index: l.highest_read_cache_index,
                highest_write_cache_index: l.highest_write_cache_index,
                flags: FunctionHeaderFlag { overflowed: true, ..l.flags },
                exception_handlers: Vec::new(),
                debug_info: None,
            };
            proxy.serialize(w);
        },
    }
}

impl HermesFile {
    /// The plain values of the file's function headers.
    pub open spec fn header_views(&self) -> Seq<FunctionHeaderView> {
        views_of(self.function_headers@)
    }

    /// Where the bytecode starts in a file with the section layout `l`.
    pub open spec fn bytecode_start(l: Layout) -> int {
        align4(l.end as int)
    }

    /// Where the bytecode ends in a file with the section layout `l`.
    pub open spec fn bytecode_end(&self, l: Layout) -> int {
        let n = self.function_headers@.len() as int;
        if n == 0 {
            Self::bytecode_start(l)
        } else {
            self.function_headers@[n - 1].fields().offset + self.function_headers@[n - 1].fields().byte_size
        }
    }

    /// Whether header `i` is placed as the layout calls for: its bytecode
    /// right behind that of the header before it, its part of the tail right
    /// behind that of the header before it, its shape fit to hold its numbers.
    pub open spec fn header_placed(&self, l: Layout, i: int) -> bool {
        header_placed_in(
            self.header_views(),
            self.function_bytecode@,
            self.header.version,
            Self::bytecode_start(l),
            align4(self.bytecode_end(l)),
            i,
        )
    }

    /// Whether the file is ready to be written with the section layout `l`:
    /// the header counts what the tables hold, a section that the version
    /// lacks is empty, the regular-expression storage is empty where the
    /// table is, every function header is placed, and the header gives the
    /// debug section's offset and the file's length as they will be.
    pub open spec fn laid_out(&self, l: Layout) -> bool {
        let n = self.function_headers@.len() as int;
        let tail_start = align4(self.bytecode_end(l));
        &&& is_layout_of(l, self.header)
        &&& self.counts_in_sync()
        &&& self.header.absent_fields_zero()
        &&& self.function_bytecode@.len() == n
        &&& (self.reg_exp_table@.len() == 0 ==> self.reg_exp_storage@.len() == 0)
        &&& (self.header.version < 84 ==> self.function_source_entries@.len() == 0)
        &&& forall|i: int|
            0 <= i < self.cjs_modules@.len() ==> ((#[trigger] self.cjs_modules@[i]) is CJSModuleInt)
                == self.spec_cjs_as_integers()
        &&& forall|i: int| 0 <= i < n ==> #[trigger] self.header_placed(l, i)
        &&& self.header.debug_info_offset == align4(tail_end(self.header_views(), n, tail_start))
        &&& self.header.file_length == self.header.debug_info_offset + self.debug_info.spec_size()
            + 20
    }

    /// Whether the file records the offset of each entry of the two string
    /// tables, and of the debug section, as a file with the section layout
    /// `l` has them.
    pub open spec fn offsets_recorded(&self, l: Layout) -> bool {
        &&& self.offsets.small_string_table_offsets@ == spec_entry_offsets(
            l.small_string_table as int,
            4,
            self.string_storage@.len() as int,
        )
        &&& self.offsets.overflow_string_table_offsets@ == spec_entry_offsets(
            l.overflow_string_table as int,
            8,
            self.overflow_string_storage@.len() as int,
        )
        &&& self.offsets.debug_info_offset == self.header.debug_info_offset
    }

    /// Whether `self` is `before` with the same offsets recorded anew.
    pub open spec fn same_but_offsets(&self, before: &HermesFile) -> bool {
        &&& *self == (HermesFile { offsets: self.offsets, ..*before })
        &&& self.offsets.small_string_table_offsets@ == before.offsets.small_string_table_offsets@
        &&& self.offsets.overflow_string_table_offsets@
            == before.offsets.overflow_string_table_offsets@
        &&& self.offsets.bytecode_offsets@ == before.offsets.bytecode_offsets@
        &&& self.offsets.debug_info_offset == before.offsets.debug_info_offset
        &&& self.offsets.file_length == before.offsets.file_length
    }

    /// `s` followed by the string sections, each at the next multiple of
    /// four: the runs of string kinds, the identifier hashes, the small and
    /// the overflow string table, the string storage.
    pub open spec fn spec_with_strings(&self, s: Seq<u8>) -> Seq<u8> {
        let s2 = pad4(s) + table_bytes(self.string_kinds@);
        let s3 = pad4(s2) + words_bytes(self.identifier_hashes@);
        let s4 = pad4(s3) + table_bytes(self.string_storage@);
        let s5 = pad4(s4) + table_bytes(self.overflow_string_storage@);
        pad4(s5) + self.string_storage_bytes@
    }

    /// `s` followed by the literal buffers, each at the next multiple of
    /// four: the array buffer, the object key and value buffers, and from
    /// version 87 the BigInt table and storage.
    pub open spec fn spec_with_buffers(&self, s: Seq<u8>) -> Seq<u8> {
        let s7 = pad4(s) + self.array_buffer_storage@;
        let s8 = pad4(s7) + self.object_key_buffer@;
        let s9 = pad4(s8) + self.object_val_buffer@;
        if self.header.version >= 87 {
            pad4(pad4(s9) + table_bytes(self.big_int_table@)) + self.big_int_storage@
        } else {
            s9
        }
    }

    /// `s` followed by the remaining tables, each at the next multiple of
    /// four: the regular expressions with their storage, the CommonJS
    /// modules, and from version 84 the function sources.
    pub open spec fn spec_with_modules(&self, s: Seq<u8>) -> Seq<u8> {
        let s11 = pad4(s) + (if self.reg_exp_table@.len() > 0 {
            table_bytes(self.reg_exp_table@) + self.reg_exp_storage@
        } else {
            Seq::empty()
        });
        let s12 = pad4(s11) + cjs_bytes(self.cjs_modules@);
        if self.header.version >= 84 {
            pad4(s12) + table_bytes(self.function_source_entries@)
        } else {
            s12
        }
    }

    /// `s1` followed by every section from the string kinds to the
    /// function sources, each at the next multiple of four.
    pub open spec fn spec_with_tables(&self, s1: Seq<u8>) -> Seq<u8> {
        self.spec_with_modules(self.spec_with_buffers(self.spec_with_strings(s1)))
    }

    /// Every byte of the file before the footer: the header, the header
    /// table, each section at the next multiple of four, the bytecode, the
    /// tail, and the debug section.
    pub open spec fn spec_body(&self) -> Seq<u8> {
        let s1 = self.header.spec_bytes() + slots_bytes(self.header_views());
        let s13 = self.spec_with_tables(s1);
        let s14 = pad4(s13) + bytecode_bytes(self.function_bytecode@);
        let s15 = pad4(s14);
        let s16 = s15 + tail_bytes(self.header_views(), s15.len() as int);
        pad4(s16) + self.debug_info.spec_bytes()
    }

    /// The whole file: everything before the footer, then the SHA-1 digest of that.
    pub open spec fn spec_image(&self) -> Seq<u8> {
        self.spec_body() + sha1_of(self.spec_body())
    }
}

/// Padding brings a length to the next multiple of four.
pub proof fn lemma_pad4_len(s: Seq<u8>)
    ensures
        pad4(s).len() == align4(s.len() as int),
        s.len() % 4 == 0 ==> pad4(s) == s,
{
    if s.len() % 4 == 0 {
        assert(pad4(s) =~= s);
    }
}

/// A CommonJS module table whose entries all have one layout takes the
/// same number of bytes for each.
pub proof fn lemma_cjs_bytes_len(modules: Seq<CJSModule>, as_integers: bool)
    requires
        forall|i: int|
            0 <= i < modules.len() ==> ((#[trigger] modules[i]) is CJSModuleInt) == as_integers,
    ensures
        cjs_bytes(modules).len() == modules.len() * (if as_integers { 4int } else { 8int }),
    decreases modules.len(),
{
    if modules.len() > 0 {
        let front = modules.drop_last();
        assert forall|i: int| 0 <= i < front.len() implies ((#[trigger] front[i]) is CJSModuleInt)
            == as_integers by {
            assert(front[i] == modules[i]);
        }
        lemma_cjs_bytes_len(front, as_integers);
        match modules.last() {
            CJSModule::CJSModuleInt(m) => m.lemma_size(),
            CJSModule::CJSModuleEntry(m) => m.lemma_size(),
        }
    }
}

impl HermesFile {
    /// Writes the header and the header table to an empty stream.
    pub fn emit_head(&self, w: &mut Writer)
        requires
            old(w)@.len() == 0,
        ensures
            final(w)@ == self.header.spec_bytes() + slots_bytes(self.header_views()),
            final(w)@.len() == 128 + 16 * self.function_headers@.len(),
    {
        self.write_header(w);
        assert(w@ =~= self.header.spec_bytes());
        assert(w@.len() == 128) by {
            assert(w@.len() == spec_raw_size(self.header.version) + padding_to(
                spec_raw_size(self.header.version) as int,
                32,
            ));
        }
        let ghost base = w@;
        let mut i: usize = 0;
        while i < self.function_headers.len()
            invariant
                i <= self.function_headers@.len(),
                base.len() == 128,
                w@ == base + slots_bytes(self.header_views().take(i as int)),
                w@.len() == 128 + 16 * i,
            decreases self.function_headers@.len() - i,
        {
            write_slot(w, &self.function_headers[i]);
            proof {
                let next = self.header_views().take(i + 1);
                assert(next.drop_last() =~= self.header_views().take(i as int));
                assert(next.last() == self.function_headers@[i as int]@);
                assert(w@ =~= base + slots_bytes(next));
                lemma_slots_bytes_len(next);
            }
            i = i + 1;
        }
        assert(self.header_views().take(i as int) =~= self.header_views());
    }

    /// Writes the string sections.
    pub(crate) fn emit_strings(&mut self, w: &mut Writer, Ghost(l): Ghost<Layout>)
        requires
            old(w)@.len() == 128 + 16 * old(self).header.function_count,
            is_layout_of(l, old(self).header),
            old(self).counts_in_sync(),
            old(self).offsets_recorded(l),
            l.end <= u32::MAX,
        ensures
            final(w)@ == old(self).spec_with_strings(old(w)@),
            final(w)@.len() == l.string_storage + old(self).header.string_storage_size,
            final(self).same_but_offsets(old(self)),
    {
        proof {
            crate::layout::lemma_spec_layout(self.header);
            crate::layout::lemma_layout_ordered(self.header);
        }
        self.write_string_kinds(w);
        assert(w@.len() == l.string_kinds + 4 * self.header.string_kind_count);
        self.write_identifier_hashes(w);
        assert(w@.len() == l.identifier_hashes + 4 * self.header.identifier_count);
        self.write_small_string_table(w);
        assert(w@.len() == l.small_string_table + 4 * self.header.string_count);
        self.write_overflow_string_table(w);
        assert(w@.len() == l.overflow_string_table + 8 * self.header.overflow_string_count);
        self.write_string_storage(w);
        assert(self.header == old(self).header);
    }

    /// Writes the literal buffers.
    pub(crate) fn emit_buffers(&self, w: &mut Writer, Ghost(l): Ghost<Layout>)
        requires
            old(w)@.len() == l.string_storage + self.header.string_storage_size,
            is_layout_of(l, self.header),
            self.counts_in_sync(),
            self.header.absent_fields_zero(),
        ensures
            final(w)@ == self.spec_with_buffers(old(w)@),
            (final(w)@.len() as int) == (if self.header.version >= 87 {
                l.big_int_storage + self.header.big_int_storage_size
            } else {
                l.object_value_buffer + self.header.obj_value_buffer_size
            }),
    {
        self.write_array_buffer(w);
        assert(w@.len() == l.array_buffer + self.header.array_buffer_size);
        self.write_object_key_buffer(w);
        assert(w@.len() == l.object_key_buffer + self.header.obj_key_buffer_size);
        self.write_object_value_buffer(w);
        assert(w@.len() == l.object_value_buffer + self.header.obj_value_buffer_size);
        if self.header.version >= 87 {
                self.write_big_int_table(w);
            assert(w@.len() == l.big_int_table + 8 * self.header.big_int_count);
                self.write_big_int_storage(w);
        }
    }

    /// Writes the regular expressions, the CommonJS modules and the
    /// function sources.
    pub(crate) fn emit_modules(&self, w: &mut Writer, Ghost(l): Ghost<Layout>)
        requires
            (old(w)@.len() as int) == (if self.header.version >= 87 {
                l.big_int_storage + self.header.big_int_storage_size
            } else {
                l.object_value_buffer + self.header.obj_value_buffer_size
            }),
            is_layout_of(l, self.header),
            self.counts_in_sync(),
            self.reg_exp_table@.len() == 0 ==> self.reg_exp_storage@.len() == 0,
            forall|i: int|
                0 <= i < self.cjs_modules@.len() ==> ((#[trigger] self.cjs_modules@[i]) is CJSModuleInt)
                    == self.spec_cjs_as_integers(),
        ensures
            final(w)@ == self.spec_with_modules(old(w)@),
            final(w)@.len() == l.end,
    {
        self.write_reg_exp_table(w);
        assert(w@.len() == l.reg_exp_storage + crate::layout::spec_reg_exp_storage_size(self.header));
        self.write_cjs_module_table(w);
        assert(w@.len() == l.cjs_modules + crate::layout::spec_cjs_entry_size(self.header)
            * self.header.cjs_module_count);
        if self.header.version >= 84 {
                self.write_function_source_table(w);
        }
    }

    /// Writes every section from the string kinds to the function sources.
    pub(crate) fn emit_tables(&mut self, w: &mut Writer, Ghost(l): Ghost<Layout>)
        requires
            old(w)@.len() == 128 + 16 * old(self).function_headers@.len(),
            old(self).laid_out(l),
            old(self).offsets_recorded(l),
            l.end <= u32::MAX,
        ensures
            final(w)@ == old(self).spec_with_tables(old(w)@),
            final(w)@.len() == l.end,
            final(self).same_but_offsets(old(self)),
    {
        self.emit_strings(w, Ghost(l));
        self.emit_buffers(w, Ghost(l));
        self.emit_modules(w, Ghost(l));
    }

    /// Writes the bytecode of every function at the next multiple of four.
    pub(crate) fn emit_bytecode(&self, w: &mut Writer, Ghost(l): Ghost<Layout>)
        requires
            old(w)@.len() == l.end,
            self.laid_out(l),
        ensures
            final(w)@ == pad4(old(w)@) + bytecode_bytes(self.function_bytecode@),
            final(w)@.len() == self.bytecode_end(l),
    {
        proof { lemma_pad4_len(w@); }
        align_writer(w, 4);
        let ghost base = w@;
        let mut i: usize = 0;
        assert(self.function_bytecode@.take(0) =~= Seq::<FunctionInstructions>::empty());
        while i < self.function_bytecode.len()
            invariant
                i <= self.function_bytecode@.len(),
                self.laid_out(l),
                base.len() == Self::bytecode_start(l),
                w@ == base + bytecode_bytes(self.function_bytecode@.take(i as int)),
                w@.len() == (if i == 0 {
                    Self::bytecode_start(l)
                } else {
                    self.function_headers@[i - 1].fields().offset + self.function_headers@[i
                        - 1].fields().byte_size
                }),
            decreases self.function_bytecode@.len() - i,
        {
            assert(self.header_placed(l, i as int));
            write_instructions(w, &self.function_bytecode[i].bytecode);
            proof {
                let next = self.function_bytecode@.take(i + 1);
                assert(next.drop_last() =~= self.function_bytecode@.take(i as int));
                assert(w@ =~= base + bytecode_bytes(next));
                lemma_instructions_bytes_len(self.function_bytecode@[i as int].bytecode@);
            }
            i = i + 1;
        }
        assert(self.function_bytecode@.take(i as int) =~= self.function_bytecode@);
    }

    /// Writes the tail at the next multiple of four: for each header in
    /// order, the plain record if the header is held as one, and what hangs
    /// off the header.
    pub(crate) fn emit_tail(&self, w: &mut Writer, Ghost(l): Ghost<Layout>)
        requires
            old(w)@.len() == self.bytecode_end(l),
            self.laid_out(l),
        ensures
            final(w)@ == pad4(old(w)@) + tail_bytes(
                self.header_views(),
                pad4(old(w)@).len() as int,
            ),
            final(w)@.len() == tail_end(
                self.header_views(),
                self.function_headers@.len() as int,
                align4(self.bytecode_end(l)),
            ),
    {
        proof { lemma_pad4_len(w@); }
        align_writer(w, 4);
        let ghost base = w@;
        let ghost start = base.len() as int;
        let ghost views = self.header_views();
        let ghost functions = self.function_bytecode@;
        let ghost version = self.header.version;
        let ghost bytecode_start = Self::bytecode_start(l);
        let mut i: usize = 0;
        assert(views.take(0) =~= Seq::<FunctionHeaderView>::empty());
        assert forall|k: int| 0 <= k < views.len() implies #[trigger] header_placed_in(
            views,
            functions,
            version,
            bytecode_start,
            start,
            k,
        ) by {
            assert(self.header_placed(l, k));
        }
        while i < self.function_headers.len()
            invariant
                i <= self.function_headers@.len(),
                views == views_of(self.function_headers@),
                start == base.len(),
                forall|k: int|
                    0 <= k < views.len() ==> #[trigger] header_placed_in(
                        views,
                        functions,
                        version,
                        bytecode_start,
                        start,
                        k,
                    ),
                w@ == base + tail_bytes(views.take(i as int), start),
                w@.len() == tail_end(views, i as int, start),
            decreases self.function_headers@.len() - i,
        {
            let ghost prev_end = w@.len() as int;
            let ghost before = w@;
            let h = &self.function_headers[i];
            proof {
                assert(header_placed_in(views, functions, version, bytecode_start, start, i as int));
                assert(views[i as int] == h@);
                let next = views.take(i + 1);
                assert(next.drop_last() =~= views.take(i as int));
                assert(next.last() == h@);
                if i > 0 {
                    assert(views.take(i as int)[i - 1] == views[i - 1]);
                }
                assert(tail_end(views.take(i as int), i as int, start) == prev_end);
            }
            write_chunk(w, h, Ghost(prev_end));
            assert(w@ =~= base + tail_bytes(views.take(i + 1), start));
            i = i + 1;
        }
        assert(views.take(i as int) =~= views);
    }

    /// Writes every byte of the file before the footer, and records anew
    /// where the entries of the string tables and the debug section were put.
    pub(crate) fn emit_body(&mut self, Ghost(l): Ghost<Layout>) -> (w: Writer)
        requires
            old(self).laid_out(l),
            old(self).offsets_recorded(l),
        ensures
            w@ == old(self).spec_body(),
            w@.len() + 20 == old(self).header.file_length,
            final(self).same_but_offsets(old(self)),
    {
        proof {
            lemma_layout_fits(self, l);
        }
        let mut w = Writer::new();
        self.emit_head(&mut w);
        self.emit_tables(&mut w, Ghost(l));
        proof {
            lemma_offsets_apart(*old(self), *self, l);
        }
        self.emit_bytecode(&mut w, Ghost(l));
        self.emit_tail(&mut w, Ghost(l));
        proof {
            lemma_pad4_len(w@);
            self.debug_info.lemma_size();
        }
        align_writer(&mut w, 4);
        self.write_debug_info(&mut w);
        w
    }
}

/// Whether `new` is `old` placed behind `prev_end`: the same numbers,
/// flags, handlers and debug offsets, but for where its bytecode and its
/// part of the tail lie; held as a plain record, and marked overflowed,
/// exactly if `old` was, or some number is above `2^17 - 1`, as `old` has it
/// or once the header is placed, or does not fit its field of the packed
/// record once the header is placed.
pub open spec fn placed_from(new: FunctionHeaderView, old: FunctionHeaderView, prev_end: int) -> bool {
    let candidate = FunctionHeaderFields {
        offset: new.fields.offset,
        byte_size: new.fields.byte_size,
        info_offset: prev_end as u32,
        ..old.fields
    };
    &&& new.handlers == old.handlers
    &&& new.debug_info == old.debug_info
    &&& new.is_large == (old.is_large || old.fields.flags.overflowed || old.fields.overflows()
        || candidate.overflows() || !candidate.fits_small())
    &&& new.fields == (FunctionHeaderFields {
        info_offset: new.fields.info_offset,
        flags: FunctionHeaderFlag { overflowed: new.is_large, ..old.fields.flags },
        ..candidate
    })
}

/// Where the bytecode of the first `i` functions ends when the first starts
/// at `start`. `None` where one of those functions is not numbered by its
/// place in the list or the bytecode passes offset `2^32 - 1`.
pub open spec fn planned_code_end(functions: Seq<FunctionInstructions>, start: int, i: int) -> Option<
    int,
>
    decreases i,
{
    if i <= 0 {
        if start <= u32::MAX {
            Some(start)
        } else {
            None
        }
    } else {
        match planned_code_end(functions, start, i - 1) {
            Some(pos) => if functions[i - 1].func_index == i - 1 && pos + spec_bytecode_size(
                functions[i - 1].bytecode@,
            ) <= u32::MAX {
                Some(pos + spec_bytecode_size(functions[i - 1].bytecode@))
            } else {
                None
            },
            None => None,
        }
    }
}

/// Once the bytecode cannot be placed, it cannot be placed further on.
pub proof fn lemma_planned_code_none(functions: Seq<FunctionInstructions>, start: int, i: int, n: int)
    requires
        0 <= i <= n,
        planned_code_end(functions, start, i) is None,
    ensures
        planned_code_end(functions, start, n) is None,
    decreases n - i,
{
    if i < n {
        lemma_planned_code_step(functions, start, i);
        lemma_planned_code_none(functions, start, i + 1, n);
    }
}

/// Where the bytecode ends after one more function.
pub proof fn lemma_planned_code_step(functions: Seq<FunctionInstructions>, start: int, i: int)
    requires
        0 <= i,
    ensures
        planned_code_end(functions, start, 0) == (if start <= u32::MAX {
            Some(start)
        } else {
            None
        }),
        planned_code_end(functions, start, i + 1) == (match planned_code_end(functions, start, i) {
            Some(pos) => if functions[i].func_index == i && pos + spec_bytecode_size(
                functions[i].bytecode@,
            ) <= u32::MAX {
                Some(pos + spec_bytecode_size(functions[i].bytecode@))
            } else {
                None
            },
            None => None,
        }),
{
    reveal_with_fuel(planned_code_end, 2);
}

/// The header `old` placed behind `pos`, with its bytecode of `size` bytes
/// at `offset`, and the offset where its part of the tail ends. `None`
/// where the header has debug offsets that are not those of the version or
/// announces debug offsets that it lacks, a cache index of a plain record
/// is above 255, or its part of the tail passes offset `2^32 - 1`.
pub open spec fn place_step(old: FunctionHeaderView, offset: int, size: int, pos: int, version: u32) -> Option<
    (FunctionHeaderView, int),
> {
    let debug_agrees = match old.debug_info {
        Some(d) => d.matches_version(version),
        None => !old.fields.flags.has_debug_info,
    };
    let candidate = FunctionHeaderFields {
        offset: offset as u32,
        byte_size: size as u32,
        info_offset: pos as u32,
        ..old.fields
    };
    let is_large = old.is_large || old.fields.flags.overflowed || old.fields.overflows()
        || candidate.overflows() || !candidate.fits_small();
    let start = if is_large { align4(pos) } else { pos };
    let placed = FunctionHeaderView {
        is_large,
        fields: FunctionHeaderFields {
            info_offset: start as u32,
            flags: FunctionHeaderFlag { overflowed: is_large, ..old.fields.flags },
            ..candidate
        },
        handlers: old.handlers,
        debug_info: old.debug_info,
    };
    if old.handlers.len() <= u32::MAX && pos <= u32::MAX && debug_agrees && start <= u32::MAX && (
    is_large ==> placed.fields.fits_large()) && chunk_end(placed) <= u32::MAX {
        Some((placed, chunk_end(placed)))
    } else {
        None
    }
}

/// Where the tail of the first `i` headers ends when it starts at
/// `tail_start` and the bytecode starts at `code_start`. `None` where one
/// of those headers cannot be placed.
pub open spec fn planned_tail_end(
    views: Seq<FunctionHeaderView>,
    functions: Seq<FunctionInstructions>,
    code_start: int,
    tail_start: int,
    version: u32,
    i: int,
) -> Option<int>
    decreases i,
{
    if i <= 0 {
        Some(tail_start)
    } else {
        match (
            planned_tail_end(views, functions, code_start, tail_start, version, i - 1),
            planned_code_end(functions, code_start, i - 1),
        ) {
            (Some(pos), Some(offset)) => match place_step(
                views[i - 1],
                offset,
                spec_bytecode_size(functions[i - 1].bytecode@) as int,
                pos,
                version,
            ) {
                Some((_, end)) => Some(end),
                None => None,
            },
            _ => None,
        }
    }
}

/// Once a header cannot be placed, the tail cannot be placed further on.
pub proof fn lemma_planned_tail_none(
    views: Seq<FunctionHeaderView>,
    functions: Seq<FunctionInstructions>,
    code_start: int,
    tail_start: int,
    version: u32,
    i: int,
    n: int,
)
    requires
        0 <= i <= n,
        planned_tail_end(views, functions, code_start, tail_start, version, i) is None,
    ensures
        planned_tail_end(views, functions, code_start, tail_start, version, n) is None,
    decreases n - i,
{
    if i < n {
        lemma_planned_tail_step(views, functions, code_start, tail_start, version, i);
        lemma_planned_tail_none(views, functions, code_start, tail_start, version, i + 1, n);
    }
}

/// Where the tail ends after one more header.
pub proof fn lemma_planned_tail_step(
    views: Seq<FunctionHeaderView>,
    functions: Seq<FunctionInstructions>,
    code_start: int,
    tail_start: int,
    version: u32,
    i: int,
)
    requires
        0 <= i,
    ensures
        planned_tail_end(views, functions, code_start, tail_start, version, 0) == Some(tail_start),
        planned_tail_end(views, functions, code_start, tail_start, version, i + 1) == (match (
            planned_tail_end(views, functions, code_start, tail_start, version, i),
            planned_code_end(functions, code_start, i),
        ) {
            (Some(pos), Some(offset)) => match place_step(
                views[i],
                offset,
                spec_bytecode_size(functions[i].bytecode@) as int,
                pos,
                version,
            ) {
                Some((_, end)) => Some(end),
                None => None,
            },
            _ => None,
        }),
{
    reveal_with_fuel(planned_tail_end, 2);
}

/// Where each function's bytecode goes when the first goes to `start`, and
/// how long each is. `None` where a function is not numbered by its place
/// in the list, or the bytecode would pass offset `2^32 - 1`.
pub fn plan_bytecode(functions: &Vec<FunctionInstructions>, start: u64) -> (res: Option<
    (Vec<u32>, Vec<u32>),
>)
    ensures
        match res {
            Some((offsets, sizes)) => {
                &&& start <= u32::MAX
                &&& planned_code_end(functions@, start as int, functions@.len() as int) is Some
                &&& offsets@.len() == functions@.len()
                &&& sizes@.len() == functions@.len()
                &&& forall|i: int|
                    0 <= i < functions@.len() ==> {
                        &&& (#[trigger] functions@[i]).func_index == i
                        &&& sizes@[i] == spec_bytecode_size(functions@[i].bytecode@)
                        &&& planned_code_end(functions@, start as int, i) == Some(offsets@[i] as int)
                        &&& planned_code_end(functions@, start as int, i + 1) == Some(
                            offsets@[i] + sizes@[i],
                        )
                        &&& offsets@[i] + sizes@[i] <= u32::MAX
                    }
            },
            None => planned_code_end(functions@, start as int, functions@.len() as int) is None,
        },
{
    proof {
        lemma_planned_code_step(functions@, start as int, 0);
    }
    if start > u32::MAX as u64 {
        proof {
            lemma_planned_code_none(functions@, start as int, 0, functions@.len() as int);
        }
        return None;
    }
    let mut offsets: Vec<u32> = Vec::new();
    let mut sizes: Vec<u32> = Vec::new();
    let mut pos: u64 = start;
    let mut i: usize = 0;
    while i < functions.len()
        invariant
            i <= functions@.len(),
            offsets@.len() == i,
            sizes@.len() == i,
            start <= u32::MAX,
            pos <= u32::MAX,
            planned_code_end(functions@, start as int, i as int) == Some(pos as int),
            forall|k: int|
                0 <= k < i ==> {
                    &&& (#[trigger] functions@[k]).func_index == k
                    &&& sizes@[k] == spec_bytecode_size(functions@[k].bytecode@)
                    &&& planned_code_end(functions@, start as int, k) == Some(offsets@[k] as int)
                    &&& planned_code_end(functions@, start as int, k + 1) == Some(
                        offsets@[k] + sizes@[k],
                    )
                    &&& offsets@[k] + sizes@[k] <= u32::MAX
                },
        decreases functions@.len() - i,
    {
        proof {
            lemma_planned_code_step(functions@, start as int, i as int);
        }
        if functions[i].func_index as u64 != i as u64 {
            proof {
                lemma_planned_code_none(functions@, start as int, i + 1, functions@.len() as int);
            }
            return None;
        }
        let size = match crate::hermes_file::builder::bytecode_size(&functions[i].bytecode) {
            Some(n) => n,
            None => {
                proof {
                    lemma_planned_code_none(functions@, start as int, i + 1, functions@.len() as int);
                }
                return None;
            },
        };
        if pos + size as u64 > u32::MAX as u64 {
            proof {
                lemma_planned_code_none(functions@, start as int, i + 1, functions@.len() as int);
            }
            return None;
        }
        let ghost offsets_before = offsets@;
        let ghost sizes_before = sizes@;
        offsets.push(pos as u32);
        sizes.push(size);
        proof {
            assert forall|k: int| 0 <= k < i + 1 implies {
                &&& (#[trigger] functions@[k]).func_index == k
                &&& sizes@[k] == spec_bytecode_size(functions@[k].bytecode@)
                &&& planned_code_end(functions@, start as int, k) == Some(offsets@[k] as int)
                &&& planned_code_end(functions@, start as int, k + 1) == Some(offsets@[k] + sizes@[k])
                &&& offsets@[k] + sizes@[k] <= u32::MAX
            } by {
                if k < i {
                    assert(offsets@[k] == offsets_before[k]);
                    assert(sizes@[k] == sizes_before[k]);
                }
            }
        }
        pos = pos + size as u64;
        i = i + 1;
    }
    Some((offsets, sizes))
}

/// The offsets of `count` entries of `step` bytes each that lie end to end
/// from `start` on, each under the entry's index.
pub open spec fn spec_entry_offsets(start: int, step: int, count: int) -> Map<u32, u32> {
    Map::new(|k: u32| (k as int) < count, |k: u32| (start + step * k) as u32)
}

/// The offsets of `count` entries of `step` bytes each that lie end to end
/// from `start` on, each under the entry's index.
pub fn entry_offsets(start: u64, step: u64, count: usize) -> (m: HashMap<u32, u32>)
    requires
        1 <= step <= 8,
        start + step * count <= u32::MAX,
    ensures
        m@ == spec_entry_offsets(start as int, step as int, count as int),
{
    broadcast use vstd::std_specs::hash::group_hash_axioms;

    let mut m: HashMap<u32, u32> = HashMap::new();
    let mut i: usize = 0;
    assert(m@ =~= spec_entry_offsets(start as int, step as int, 0));
    while i < count
        invariant
            i <= count,
            1 <= step <= 8,
            start + step * count <= u32::MAX,
            m@ == spec_entry_offsets(start as int, step as int, i as int),
        decreases count - i,
    {
        assert(step * i <= step * count) by (nonlinear_arith)
            requires
                i <= count,
                0 <= step,
        ;
        assert(count <= u32::MAX) by (nonlinear_arith)
            requires
                start + step * count <= u32::MAX,
                1 <= step,
                0 <= start,
        ;
        let at: u64 = start + step * (i as u64);
        m.insert(i as u32, at as u32);
        i = i + 1;
        assert(m@ =~= spec_entry_offsets(start as int, step as int, i as int));
    }
    m
}

/// The offsets of a row, each under its place in the row.
pub open spec fn spec_offsets_map(offsets: Seq<u32>) -> Map<u32, u32> {
    Map::new(|k: u32| (k as int) < offsets.len(), |k: u32| offsets[k as int])
}

/// The offsets of a row, each under its place in the row.
pub fn offsets_map(offsets: &Vec<u32>) -> (m: HashMap<u32, u32>)
    requires
        offsets@.len() <= u32::MAX,
    ensures
        m@ == spec_offsets_map(offsets@),
{
    broadcast use vstd::std_specs::hash::group_hash_axioms;

    let mut m: HashMap<u32, u32> = HashMap::new();
    let mut i: usize = 0;
    assert(m@ =~= spec_offsets_map(offsets@.take(0)));
    while i < offsets.len()
        invariant
            i <= offsets@.len() <= u32::MAX,
            m@ == spec_offsets_map(offsets@.take(i as int)),
        decreases offsets@.len() - i,
    {
        m.insert(i as u32, offsets[i]);
        i = i + 1;
        assert(m@ =~= spec_offsets_map(offsets@.take(i as int)));
    }
    assert(offsets@.take(i as int) =~= offsets@);
    m
}

/// Whether debug offsets have the layout that files of `version` use.
pub fn debug_offsets_match(d: &DebugInfoOffsets, version: u32) -> (b: bool)
    ensures
        b == d.matches_version(version),
{
    match d {
        DebugInfoOffsets::Old(_) => version < 91,
        DebugInfoOffsets::New(_) => version >= 91,
    }
}

/// Places every header: gives it the offset and size of its bytecode and
/// the offset of its part of the tail, which starts at `tail_start`, and
/// holds it as a plain record where it does not fit the packed one. With
/// the headers, the offset where the tail ends. `None` where a header
/// announces debug offsets that it lacks or that are not those of the
/// version, a cache index of a plain record is above 255, or the tail would
/// pass offset `2^32 - 1`.
pub fn place_headers(
    headers: &Vec<FunctionHeader>,
    functions: &Vec<FunctionInstructions>,
    offsets: &Vec<u32>,
    sizes: &Vec<u32>,
    bytecode_start: u64,
    tail_start: u64,
    version: u32,
) -> (res: Option<(Vec<FunctionHeader>, u64)>)
    requires
        headers@.len() == functions@.len(),
        offsets@.len() == functions@.len(),
        sizes@.len() == functions@.len(),
        tail_start <= u32::MAX as u64 + 3,
        forall|i: int|
            0 <= i < functions@.len() ==> {
                &&& (#[trigger] functions@[i]).func_index == i
                &&& sizes@[i] == spec_bytecode_size(functions@[i].bytecode@)
                &&& planned_code_end(functions@, bytecode_start as int, i) == Some(offsets@[i] as int)
                &&& planned_code_end(functions@, bytecode_start as int, i + 1) == Some(
                    offsets@[i] + sizes@[i],
                )
            },
    ensures
        match res {
            Some((placed, end)) => {
                let views = views_of(placed@);
                &&& placed@.len() == headers@.len()
                &&& planned_tail_end(
                    views_of(headers@),
                    functions@,
                    bytecode_start as int,
                    tail_start as int,
                    version,
                    headers@.len() as int,
                ) == Some(end as int)
                &&& end == tail_end(views, headers@.len() as int, tail_start as int)
                &&& end <= u32::MAX as u64 + 3
                &&& forall|i: int|
                    0 <= i < headers@.len() ==> #[trigger] header_placed_in(
                        views,
                        functions@,
                        version,
                        bytecode_start as int,
                        tail_start as int,
                        i,
                    )
                &&& forall|i: int|
                    0 <= i < headers@.len() ==> placed_from(
                        #[trigger] views[i],
                        headers@[i]@,
                        tail_end(views, i, tail_start as int),
                    )
                &&& forall|i: int|
                    0 <= i < headers@.len() ==> (#[trigger] views[i]).fields.offset == offsets@[i]
                        && views[i].fields.byte_size == sizes@[i]
            },
            None => planned_tail_end(
                views_of(headers@),
                functions@,
                bytecode_start as int,
                tail_start as int,
                version,
                headers@.len() as int,
            ) is None,
        },
{
    let ghost given = views_of(headers@);
    let ghost cs = bytecode_start as int;
    let ghost ts = tail_start as int;
    let ghost n = headers@.len() as int;
    let mut placed: Vec<FunctionHeader> = Vec::new();
    let mut pos: u64 = tail_start;
    let mut i: usize = 0;
    proof {
        lemma_planned_tail_step(given, functions@, cs, ts, version, 0);
    }
    while i < headers.len()
        invariant
            i <= headers@.len(),
            n == headers@.len(),
            given == views_of(headers@),
            cs == bytecode_start,
            ts == tail_start,
            headers@.len() == functions@.len(),
            offsets@.len() == functions@.len(),
            sizes@.len() == functions@.len(),
            placed@.len() == i,
            pos <= u32::MAX as u64 + 3,
            pos == tail_end(views_of(placed@), i as int, ts),
            planned_tail_end(given, functions@, cs, ts, version, i as int) == Some(pos as int),
            forall|k: int|
                0 <= k < functions@.len() ==> {
                    &&& (#[trigger] functions@[k]).func_index == k
                    &&& sizes@[k] == spec_bytecode_size(functions@[k].bytecode@)
                    &&& planned_code_end(functions@, cs, k) == Some(offsets@[k] as int)
                    &&& planned_code_end(functions@, cs, k + 1) == Some(offsets@[k] + sizes@[k])
                },
            forall|k: int|
                0 <= k < i ==> #[trigger] header_placed_in(
                    views_of(placed@),
                    functions@,
                    version,
                    cs,
                    ts,
                    k,
                ),
            forall|k: int|
                0 <= k < i ==> placed_from(
                    #[trigger] views_of(placed@)[k],
                    headers@[k]@,
                    tail_end(views_of(placed@), k, ts),
                ),
            forall|k: int|
                0 <= k < i ==> (#[trigger] views_of(placed@)[k]).fields.offset == offsets@[k]
                    && views_of(placed@)[k].fields.byte_size == sizes@[k],
        decreases headers@.len() - i,
    {
        let old_header = &headers[i];
        let ghost old_view = old_header@;
        assert(given[i as int] == old_view);
        assert(functions@[i as int].func_index == i);
        let ghost step = place_step(old_view, offsets@[i as int] as int, sizes@[i as int] as int, pos as int, version);
        proof {
            lemma_planned_tail_step(given, functions@, cs, ts, version, i as int);
            if step is None {
                lemma_planned_tail_none(given, functions@, cs, ts, version, i + 1, n);
            }
        }
        let old_fields = old_header.get_fields();
        let handlers = old_header.exception_handlers();
        let debug_info = old_header.debug_info();
        if handlers.len() > u32::MAX as usize || pos > u32::MAX as u64 {
            return None;
        }
        let debug_size: u64 = match &debug_info {
            Some(d) => {
                if !debug_offsets_match(d, version) {
                    return None;
                }
                d.size() as u64
            },
            None => {
                if old_fields.flags.has_debug_info {
                    return None;
                }
                0
            },
        };
        let candidate = FunctionHeaderFields {
            offset: offsets[i],
            byte_size: sizes[i],
            info_offset: pos as u32,
            ..old_fields
        };
        let is_large = old_header.is_large() || old_fields.flags.overflowed
            || old_fields.is_overflowed_check() || candidate.is_overflowed_check()
            || !candidate.check_fits_small();
        let start: u64 = if is_large { align_offset(pos) } else { pos };
        if start > u32::MAX as u64 {
            return None;
        }
        let fields = FunctionHeaderFields {
            info_offset: start as u32,
            flags: FunctionHeaderFlag { overflowed: is_large, ..old_fields.flags },
            ..candidate
        };
        if is_large && !fields.check_fits_large() {
            return None;
        }
        let end = crate::function_header::compute_info_end(
            if is_large { start + 32 } else { start },
            fields.flags,
            handlers.len() as u64,
            debug_size,
        );
        let ghost placed_view = FunctionHeaderView {
            is_large,
            fields,
            handlers: handlers@,
            debug_info,
        };
        assert(end == chunk_end(placed_view));
        if end > u32::MAX as u64 {
            return None;
        }
        assert(step == Some((placed_view, end as int)));
        let ghost before = views_of(placed@);
        let new_header = FunctionHeader::from_parts(is_large, fields, handlers, debug_info);
        placed.push(new_header);
        proof {
            let after = views_of(placed@);
            assert(after =~= before.push(new_header@));
            lemma_placed_prefix(before, after, headers@, functions@, version, cs, ts, i as int);
            if i > 0 {
                assert(after[i - 1] == before[i - 1]);
                assert(functions@[i - 1].func_index == i - 1);
                assert(before[i - 1].fields.offset == offsets@[i - 1]);
                assert(offsets@[i as int] == offsets@[i - 1] + sizes@[i - 1]);
            }
            assert(tail_end(after, i as int, ts) == pos);
            lemma_planned_code_step(functions@, cs, 0);
            assert(after[i as int] == placed_view);
            assert(header_placed_in(after, functions@, version, cs, ts, i as int));
            assert(placed_from(after[i as int], headers@[i as int]@, pos as int));
        }
        pos = end;
        i = i + 1;
    }
    Some((placed, pos))
}

/// What holds of the headers placed so far holds of them after one more
/// is placed behind them.
pub proof fn lemma_placed_prefix(
    before: Seq<FunctionHeaderView>,
    after: Seq<FunctionHeaderView>,
    headers: Seq<FunctionHeader>,
    functions: Seq<FunctionInstructions>,
    version: u32,
    cs: int,
    ts: int,
    i: int,
)
    requires
        0 <= i == before.len(),
        after.len() == i + 1,
        forall|k: int| 0 <= k < i ==> after[k] == before[k],
        forall|k: int| 0 <= k < i ==> #[trigger] header_placed_in(before, functions, version, cs, ts, k),
        forall|k: int|
            0 <= k < i ==> placed_from(#[trigger] before[k], headers[k]@, tail_end(before, k, ts)),
    ensures
        forall|k: int| 0 <= k < i ==> #[trigger] header_placed_in(after, functions, version, cs, ts, k),
        forall|k: int|
            0 <= k < i ==> placed_from(#[trigger] after[k], headers[k]@, tail_end(after, k, ts)),
{
    assert forall|k: int| 0 <= k < i implies #[trigger] header_placed_in(
        after,
        functions,
        version,
        cs,
        ts,
        k,
    ) by {
        assert(header_placed_in(before, functions, version, cs, ts, k));
        assert(after[k] == before[k]);
        if k > 0 {
            assert(after[k - 1] == before[k - 1]);
        }
    }
    assert forall|k: int| 0 <= k < i implies placed_from(
        #[trigger] after[k],
        headers[k]@,
        tail_end(after, k, ts),
    ) by {
        assert(after[k] == before[k]);
        if k > 0 {
            assert(after[k - 1] == before[k - 1]);
        }
        assert(placed_from(before[k], headers[k]@, tail_end(before, k, ts)));
    }
}

impl HermesFile {
    /// The header with every count and size set to that of the table or
    /// buffer it describes.
    pub open spec fn spec_synced_header(&self) -> HermesHeader {
        HermesHeader {
            function_count: self.function_headers@.len() as u32,
            string_kind_count: self.string_kinds@.len() as u32,
            identifier_count: self.identifier_hashes@.len() as u32,
            string_count: self.string_storage@.len() as u32,
            overflow_string_count: self.overflow_string_storage@.len() as u32,
            string_storage_size: self.string_storage_bytes@.len() as u32,
            big_int_count: self.big_int_table@.len() as u32,
            big_int_storage_size: self.big_int_storage@.len() as u32,
            reg_exp_count: self.reg_exp_table@.len() as u32,
            reg_exp_storage_size: self.reg_exp_storage@.len() as u32,
            array_buffer_size: self.array_buffer_storage@.len() as u32,
            obj_key_buffer_size: self.object_key_buffer@.len() as u32,
            obj_value_buffer_size: self.object_val_buffer@.len() as u32,
            cjs_module_count: self.cjs_modules@.len() as u32,
            cjs_module_offset: self.cjs_module_offset,
            function_source_count: self.function_source_entries@.len() as u32,
            ..self.header
        }
    }

    /// Whether every table and blob of the debug section has at most
    /// `2^32 - 1` entries or bytes.
    pub open spec fn debug_sizes_fit(&self) -> bool {
        let d = self.debug_info;
        &&& d.string_table@.len() <= u32::MAX
        &&& d.string_storage@.len() <= u32::MAX
        &&& d.file_regions@.len() <= u32::MAX
        &&& d.sources_data_storage@.len() <= u32::MAX
        &&& d.scope_desc_data_storage@.len() <= u32::MAX
        &&& d.textified_callee_storage@.len() <= u32::MAX
        &&& d.string_table_storage@.len() <= u32::MAX
    }

    /// Whether the file can be written: every size fits 32 bits; the
    /// functions' instructions are in step with their headers; the file has
    /// nothing that its version has no place for; the entries of the
    /// CommonJS module table all have the layout that the version and the
    /// options call for; every function header can be placed; and the file
    /// is no longer than `2^32 - 1` bytes.
    pub open spec fn spec_writable(&self) -> bool {
        let h = self.spec_synced_header();
        let v = h.version;
        let n = self.function_headers@.len() as int;
        let code_start = align4(spec_layout(h).end as int);
        &&& self.sizes_fit()
        &&& self.function_bytecode@.len() == n
        &&& v < 87 ==> h.big_int_count == 0 && h.big_int_storage_size == 0
        &&& v < 84 ==> h.cjs_module_count == 0 && h.function_source_count == 0
        &&& v < 78 ==> h.segment_id == 0
        &&& v >= 78 ==> h.cjs_module_offset == 0
        &&& self.reg_exp_table@.len() == 0 ==> self.reg_exp_storage@.len() == 0
        &&& forall|i: int|
            0 <= i < self.cjs_modules@.len() ==> ((#[trigger] self.cjs_modules@[i]) is CJSModuleInt)
                == (h.options.cjs_modules_statically_resolved && v < 77)
        &&& self.debug_sizes_fit()
        &&& match planned_code_end(self.function_bytecode@, code_start, n) {
            Some(code_end) => match planned_tail_end(
                self.header_views(),
                self.function_bytecode@,
                code_start,
                align4(code_end),
                v,
                n,
            ) {
                Some(end) => align4(end) + self.debug_info.spec_size() + 20 <= u32::MAX,
                None => false,
            },
            None => false,
        }
    }

    /// The header with every count and size set to that of the table or
    /// buffer it describes, or `None` where one of them has more than
    /// `2^32 - 1` entries or bytes.
    pub fn synced_header(&self) -> (res: Option<HermesHeader>)
        ensures
            match res {
                Some(h) => self.sizes_fit() && h == self.spec_synced_header(),
                None => !self.sizes_fit(),
            },
    {
        let max: usize = u32::MAX as usize;
        if self.function_headers.len() > max || self.string_kinds.len() > max
            || self.identifier_hashes.len() > max || self.string_storage.len() > max
            || self.overflow_string_storage.len() > max || self.string_storage_bytes.len() > max
            || self.big_int_table.len() > max || self.big_int_storage.len() > max
            || self.reg_exp_table.len() > max || self.reg_exp_storage.len() > max
            || self.array_buffer_storage.len() > max || self.object_key_buffer.len() > max
            || self.object_val_buffer.len() > max || self.cjs_modules.len() > max
            || self.function_source_entries.len() > max {
            return None;
        }
        let mut h = self.header;
        h.function_count = self.function_headers.len() as u32;
        h.string_kind_count = self.string_kinds.len() as u32;
        h.identifier_count = self.identifier_hashes.len() as u32;
        h.string_count = self.string_storage.len() as u32;
        h.overflow_string_count = self.overflow_string_storage.len() as u32;
        h.string_storage_size = self.string_storage_bytes.len() as u32;
        h.big_int_count = self.big_int_table.len() as u32;
        h.big_int_storage_size = self.big_int_storage.len() as u32;
        h.reg_exp_count = self.reg_exp_table.len() as u32;
        h.reg_exp_storage_size = self.reg_exp_storage.len() as u32;
        h.array_buffer_size = self.array_buffer_storage.len() as u32;
        h.obj_key_buffer_size = self.object_key_buffer.len() as u32;
        h.obj_value_buffer_size = self.object_val_buffer.len() as u32;
        h.cjs_module_count = self.cjs_modules.len() as u32;
        h.cjs_module_offset = self.cjs_module_offset;
        h.function_source_count = self.function_source_entries.len() as u32;
        Some(h)
    }

    /// Whether every entry of the CommonJS module table has the layout that
    /// the given header calls for.
    fn cjs_modules_uniform(&self, h: &HermesHeader) -> (b: bool)
        ensures
            b == (forall|i: int|
                0 <= i < self.cjs_modules@.len() ==> ((#[trigger] self.cjs_modules@[i]) is CJSModuleInt)
                    == (h.options.cjs_modules_statically_resolved && h.version < 77)),
    {
        let as_integers = h.options.cjs_modules_statically_resolved && h.version < 77;
        let mut i: usize = 0;
        while i < self.cjs_modules.len()
            invariant
                i <= self.cjs_modules@.len(),
                as_integers == (h.options.cjs_modules_statically_resolved && h.version < 77),
                forall|k: int|
                    0 <= k < i ==> ((#[trigger] self.cjs_modules@[k]) is CJSModuleInt) == as_integers,
            decreases self.cjs_modules@.len() - i,
        {
            let is_integer = match self.cjs_modules[i] {
                CJSModule::CJSModuleInt(_) => true,
                CJSModule::CJSModuleEntry(_) => false,
            };
            if is_integer != as_integers {
                return false;
            }
            i = i + 1;
        }
        true
    }

    /// The number of bytes that the debug section is written as, or `None`
    /// where one of its tables or blobs has more than `2^32 - 1` entries or bytes.
    fn debug_section_size(&self) -> (res: Option<u64>)
        ensures
            match res {
                Some(n) => self.debug_sizes_fit() && n == self.debug_info.spec_size() && n
                    <= 0x20_0000_0000,
                None => !self.debug_sizes_fit(),
            },
    {
        let d = &self.debug_info;
        let max: usize = u32::MAX as usize;
        if d.string_table.len() > max || d.string_storage.len() > max || d.file_regions.len() > max
            || d.sources_data_storage.len() > max || d.scope_desc_data_storage.len() > max
            || d.textified_callee_storage.len() > max || d.string_table_storage.len() > max {
            return None;
        }
        let a: u64 = d.header.size() as u64 + 8 * (d.string_table.len() as u64);
        let b: u64 = a + d.string_storage.len() as u64 + 12 * (d.file_regions.len() as u64);
        let c: u64 = b + d.sources_data_storage.len() as u64 + d.scope_desc_data_storage.len() as u64;
        Some(c + d.textified_callee_storage.len() as u64 + d.string_table_storage.len() as u64)
    }

    /// Whether `self` is `before` made ready to be written: nothing has
    /// changed but the header, the function headers and the recorded
    /// offsets; the header keeps what it does not count and takes the
    /// offset of the CommonJS modules that the file keeps; each function
    /// header is the one that was there, placed; the recorded offsets are
    /// those of the debug section, of each function's bytecode and of each
    /// entry of the two string tables, with the length of the file.
    pub open spec fn is_prepared_from(&self, before: &HermesFile, l: Layout) -> bool {
        let views = self.header_views();
        let tail_start = align4(self.bytecode_end(l));
        &&& *self == (HermesFile {
            header: self.header,
            function_headers: self.function_headers,
            offsets: self.offsets,
            ..*before
        })
        &&& self.header.magic == before.header.magic
        &&& self.header.version == before.header.version
        &&& self.header.sha1 == before.header.sha1
        &&& self.header.global_code_index == before.header.global_code_index
        &&& self.header.segment_id == before.header.segment_id
        &&& self.header.options == before.header.options
        &&& self.header.cjs_module_offset == before.cjs_module_offset
        &&& self.function_headers@.len() == before.function_headers@.len()
        &&& forall|i: int|
            0 <= i < views.len() ==> placed_from(
                #[trigger] views[i],
                before.function_headers@[i]@,
                tail_end(views, i, tail_start),
            )
        &&& self.offsets.debug_info_offset == self.header.debug_info_offset
        &&& self.offsets.file_length == self.header.file_length
        &&& self.offsets.bytecode_offsets@ == spec_offsets_map(
            Seq::new(views.len(), |i: int| views[i].fields.offset),
        )
        &&& self.offsets.small_string_table_offsets@ == spec_entry_offsets(
            l.small_string_table as int,
            4,
            self.string_storage@.len() as int,
        )
        &&& self.offsets.overflow_string_table_offsets@ == spec_entry_offsets(
            l.overflow_string_table as int,
            8,
            self.overflow_string_storage@.len() as int,
        )
    }

    /// Whether `self` is `before` after it was written: laid out, and but
    /// for the footer what `before` is when made ready to be written.
    pub open spec fn is_written_from(&self, before: &HermesFile) -> bool {
        exists|l: Layout|
            self.laid_out(l) && (#[trigger] (HermesFile {
                footer: before.footer,
                ..*self
            }).is_prepared_from(before, l))
    }

    /// Makes the file ready to be written: sets the header's counts and
    /// sizes, places every function header, and sets the offset of the
    /// debug section and the length of the file. Returns the layout of the
    /// sections. Fails with `InternalConsistency`, and changes nothing,
    /// where the model contradicts itself or the file would be longer than
    /// `2^32 - 1` bytes.
    pub fn prepare(&mut self) -> (res: Result<Layout, HermesError>)
        ensures
            match res {
                Ok(l) => old(self).spec_writable() && final(self).laid_out(l)
                    && final(self).is_prepared_from(old(self), l),
                Err(e) => e == HermesError::InternalConsistency && !old(self).spec_writable()
                    && *final(self) == *old(self),
            },
    {
        let mut h = match self.synced_header() {
            Some(h) => h,
            None => {
                return Err(HermesError::InternalConsistency);
            },
        };
        let v = h.version;
        if self.function_bytecode.len() != self.function_headers.len() {
            return Err(HermesError::InternalConsistency);
        }
        if (v < 87 && (h.big_int_count != 0 || h.big_int_storage_size != 0)) || (v < 84
            && h.cjs_module_count != 0) || (v < 78 && h.segment_id != 0) || (v >= 78
            && h.cjs_module_offset != 0) || (v < 84 && h.function_source_count != 0) {
            return Err(HermesError::InternalConsistency);
        }
        if self.reg_exp_table.len() == 0 && self.reg_exp_storage.len() != 0 {
            return Err(HermesError::InternalConsistency);
        }
        if !self.cjs_modules_uniform(&h) {
            return Err(HermesError::InternalConsistency);
        }
        let l = plan_sections(&h);
        proof {
            crate::layout::lemma_spec_layout(h);
            crate::layout::lemma_layout_ordered(h);
        }
        let bytecode_start = align_offset(l.end);
        let (offsets, sizes) = match plan_bytecode(&self.function_bytecode, bytecode_start) {
            Some(plan) => plan,
            None => {
                return Err(HermesError::InternalConsistency);
            },
        };
        let n: usize = self.function_headers.len();
        proof {
            lemma_planned_code_step(self.function_bytecode@, bytecode_start as int, 0);
            if n > 0 {
                assert(self.function_bytecode@[n - 1].func_index == n - 1);
            }
        }
        let bytecode_end: u64 = if n == 0 {
            bytecode_start
        } else {
            offsets[n - 1] as u64 + sizes[n - 1] as u64
        };
        assert(planned_code_end(self.function_bytecode@, bytecode_start as int, n as int) == Some(
            bytecode_end as int,
        ));
        let tail_start = align_offset(bytecode_end);
        let (placed, tail_end_at) = match place_headers(
            &self.function_headers,
            &self.function_bytecode,
            &offsets,
            &sizes,
            bytecode_start,
            tail_start,
            v,
        ) {
            Some(p) => p,
            None => {
                return Err(HermesError::InternalConsistency);
            },
        };
        let debug_size = match self.debug_section_size() {
            Some(n) => n,
            None => {
                return Err(HermesError::InternalConsistency);
            },
        };
        let debug_at = align_offset(tail_end_at);
        let file_length: u64 = debug_at + debug_size + 20;
        if file_length > u32::MAX as u64 {
            return Err(HermesError::InternalConsistency);
        }
        h.debug_info_offset = debug_at as u32;
        h.file_length = file_length as u32;
        proof {
            let views = views_of(placed@);
            assert(is_layout_of(l, h));
            assert(views.len() == n);
            if n > 0 {
                assert(views[n - 1].fields.offset == offsets@[n - 1]);
                assert(views[n - 1] == placed@[n - 1]@);
            }
            assert(offsets@ =~= Seq::new(views.len(), |i: int| views[i].fields.offset)) by {
                assert forall|i: int| 0 <= i < n implies offsets@[i] == views[i].fields.offset by {
                    assert(views[i].fields.offset == offsets@[i]);
                }
            }
        }
        let small_offsets = entry_offsets(l.small_string_table, 4, self.string_storage.len());
        let overflow_offsets = entry_offsets(
            l.overflow_string_table,
            8,
            self.overflow_string_storage.len(),
        );
        self.header = h;
        self.function_headers = placed;
        self.offsets.bytecode_offsets = offsets_map(&offsets);
        self.offsets.small_string_table_offsets = small_offsets;
        self.offsets.overflow_string_table_offsets = overflow_offsets;
        self.offsets.debug_info_offset = debug_at as u32;
        self.offsets.file_length = file_length as u32;
        proof {
            assert(self.bytecode_end(l) == bytecode_end);
            assert forall|i: int| 0 <= i < n implies #[trigger] self.header_placed(l, i) by {
                assert(header_placed_in(
                    self.header_views(),
                    self.function_bytecode@,
                    v,
                    bytecode_start as int,
                    tail_start as int,
                    i,
                ));
            }
        }
        Ok(l)
    }

    /// Writes a file that is ready to be written: every byte before the
    /// footer, then the footer, which it sets.
    fn write_prepared(&mut self, Ghost(l): Ghost<Layout>) -> (out: Vec<u8>)
        requires
            old(self).laid_out(l),
            old(self).offsets_recorded(l),
        ensures
            out@ == old(self).spec_body() + final(self).footer@,
            out@.len() == old(self).header.file_length,
            final(self).footer@ == sha1_of(old(self).spec_body()),
            (HermesFile { footer: old(self).footer, ..*final(self) }).same_but_offsets(old(self)),
    {
        let mut w = self.emit_body(Ghost(l));
        self.write_footer(&mut w);
        w.into_bytes()
    }

    /// Writes the file: lays it out, emits every byte before the footer,
    /// and closes it with the SHA-1 digest of those bytes, which becomes the
    /// file's footer. The file's header, function headers and recorded
    /// offsets are brought in step with what is written. Fails with
    /// `InternalConsistency`, and changes nothing, where the model
    /// contradicts itself or the file would be longer than `2^32 - 1` bytes.
    #[verifier::rlimit(40)]
    pub fn serialize(&mut self) -> (res: Result<Vec<u8>, HermesError>)
        ensures
            match res {
                Ok(out) => {
                    let body = out@.subrange(0, out@.len() - 20);
                    &&& out@ == final(self).spec_image()
                    &&& out@.len() == final(self).header.file_length
                    &&& body == final(self).spec_body()
                    &&& final(self).footer@ == sha1_of(body)
                    &&& out@.subrange(out@.len() - 20, out@.len() as int) == final(self).footer@
                    &&& final(self).is_written_from(old(self))
                    &&& old(self).spec_writable()
                },
                Err(e) => e == HermesError::InternalConsistency && !old(self).spec_writable()
                    && *final(self) == *old(self),
            },
    {
        let l = match self.prepare() {
            Ok(l) => l,
            Err(e) => {
                return Err(e);
            },
        };
        let ghost prepared = *self;
        let out = self.write_prepared(Ghost(l));
        proof {
            lemma_serialized(*old(self), prepared, *self, l, out@);
        }
        Ok(out)
    }
}

/// The footer and the recorded offsets have no part in how a file is laid
/// out nor in the bytes before the footer.
pub proof fn lemma_offsets_apart(a: HermesFile, b: HermesFile, l: Layout)
    requires
        a.laid_out(l),
        b == (HermesFile { footer: b.footer, offsets: b.offsets, ..a }),
    ensures
        b.laid_out(l),
        b.spec_body() == a.spec_body(),
{
    assert forall|i: int| 0 <= i < b.function_headers@.len() implies #[trigger] b.header_placed(l, i) by {
        assert(a.header_placed(l, i));
    }
}

/// The sections of a file that is laid out end within the first
/// `2^32 - 1` bytes.
pub proof fn lemma_layout_fits(f: &HermesFile, l: Layout)
    requires
        f.laid_out(l),
    ensures
        l.end <= u32::MAX,
        tail_end(
            f.header_views(),
            f.function_headers@.len() as int,
            align4(f.bytecode_end(l)),
        ) <= u32::MAX,
{
    crate::hermes_file::read_back::lemma_code_and_tail_len(f, l);
    lemma_align4_bounds(l.end as int);
    lemma_align4_bounds(f.bytecode_end(l));
    lemma_align4_bounds(
        tail_end(f.header_views(), f.function_headers@.len() as int, align4(f.bytecode_end(l))),
    );
}

/// A file that was made ready, written, and given its footer is what its
/// former state is after writing.
pub proof fn lemma_written_from(before: HermesFile, prepared: HermesFile, after: HermesFile, l: Layout)
    requires
        prepared.laid_out(l),
        prepared.is_prepared_from(&before, l),
        after.laid_out(l),
        (HermesFile { footer: prepared.footer, ..after }).same_but_offsets(&prepared),
    ensures
        after.is_written_from(&before),
{
    let back = HermesFile { footer: before.footer, ..after };
    assert(back == (HermesFile { offsets: after.offsets, ..prepared }));
    assert(back.header_views() =~= prepared.header_views());
    assert(back.bytecode_end(l) == prepared.bytecode_end(l));
    assert(back.is_prepared_from(&before, l));
}

/// What holds of a file and of the bytes it was written as, once it was
/// made ready, written, and given its footer.
pub proof fn lemma_serialized(
    before: HermesFile,
    prepared: HermesFile,
    after: HermesFile,
    l: Layout,
    out: Seq<u8>,
)
    requires
        prepared.laid_out(l),
        prepared.is_prepared_from(&before, l),
        out == prepared.spec_body() + after.footer@,
        out.len() == prepared.header.file_length,
        after.footer@ == sha1_of(prepared.spec_body()),
        (HermesFile { footer: prepared.footer, ..after }).same_but_offsets(&prepared),
    ensures
        out == after.spec_image(),
        out.len() == after.header.file_length,
        out.subrange(0, out.len() - 20) == after.spec_body(),
        after.footer@ == sha1_of(after.spec_body()),
        out.subrange(out.len() - 20, out.len() as int) == after.footer@,
        after.is_written_from(&before),
{
    lemma_offsets_apart(prepared, after, l);
    lemma_written_from(before, prepared, after, l);
    assert(after.footer@.len() == 20);
    assert(out.subrange(0, out.len() - 20) =~= prepared.spec_body());
    assert(out.subrange(out.len() - 20, out.len() as int) =~= after.footer@);
}

/// The slot that stands for a header held as a plain record reads as a
/// header that is marked overflowed and gives the place of the plain record.
pub proof fn lemma_proxy_slot(c: FunctionHeaderFields)
    ensures
        small_header_bytes(spec_proxy_fields(c)).len() == 16,
        parse_small_header(small_header_bytes(spec_proxy_fields(c))) is Some,
        parse_small_header(small_header_bytes(spec_proxy_fields(c))).unwrap().flags.overflowed,
        ({
            let read = parse_small_header(small_header_bytes(spec_proxy_fields(c))).unwrap();
            spec_large_info_offset(read.offset, read.info_offset) == c.info_offset
        }),
{
    let proxy = spec_proxy_fields(c);
    lemma_small_header_flags(proxy);
    lemma_small_header_offsets(proxy);
}

/// A written function header that fits the packed record reads back from
/// its slot and what hangs off it.
pub proof fn lemma_small_header_reads_back(data: Seq<u8>, at: int, h: FunctionHeaderView, version: u32)
    requires
        0 <= at,
        at + 16 <= data.len(),
        !h.is_large,
        !h.fields.flags.overflowed,
        h.fields.fits_small(),
        data.subrange(at, at + 16) == small_header_bytes(h.fields),
        spec_info_at(data, h.fields.info_offset as int, h.fields.flags, version) == Some(
            (h.handlers, h.debug_info),
        ),
    ensures
        spec_function_header_at(data, at, version) == Some(h),
{
    reveal(spec_function_header_at);
    lemma_small_header_round_trip(h.fields);
}

/// A written function header that is held as a plain record reads back
/// from its slot, the plain record and what follows it.
pub proof fn lemma_large_header_reads_back(data: Seq<u8>, at: int, h: FunctionHeaderView, version: u32)
    requires
        0 <= at,
        at + 16 <= data.len(),
        h.is_large,
        h.fields.fits_large(),
        h.fields.info_offset + 32 <= data.len(),
        data.subrange(at, at + 16) == small_header_bytes(spec_proxy_fields(h.fields)),
        data.subrange(h.fields.info_offset as int, h.fields.info_offset + 32) == large_header_bytes(
            h.fields,
        ),
        spec_info_at(data, h.fields.info_offset + 32, h.fields.flags, version) == Some(
            (h.handlers, h.debug_info),
        ),
    ensures
        spec_function_header_at(data, at, version) == Some(h),
{
    reveal(spec_function_header_at);
    lemma_proxy_slot(h.fields);
    lemma_large_header_round_trip(h.fields);
}

/// A written function header reads back. Where the slot of a header lies
/// at `at` in a file and what the slot points to lies where it points, the
/// header read at `at` is the header that was written: for a header that
/// fits the packed record, from the slot and what hangs off it; for a
/// header held as a plain record, from the slot, which is marked overflowed
/// and gives the place of the plain record, that 32-byte record, and what
/// follows it.
pub proof fn lemma_header_reads_back(data: Seq<u8>, at: int, h: FunctionHeaderView, version: u32)
    requires
        0 <= at,
        at + 16 <= data.len(),
        data.subrange(at, at + 16) == slot_bytes(h),
        info_agrees(h.fields.flags, h.handlers, h.debug_info, version),
        ({
            let from = if h.is_large { h.fields.info_offset + 32 } else { h.fields.info_offset as int };
            let hung = info_bytes(from, h.fields.flags, h.handlers, h.debug_info);
            &&& from + hung.len() <= data.len()
            &&& data.subrange(from, from + hung.len()) == hung
        }),
        if h.is_large {
            &&& h.fields.flags.overflowed
            &&& h.fields.fits_large()
            &&& data.subrange(h.fields.info_offset as int, h.fields.info_offset + 32)
                == large_header_bytes(h.fields)
        } else {
            !h.fields.flags.overflowed && h.fields.fits_small()
        },
    ensures
        spec_function_header_at(data, at, version) == Some(h),
{
    let c = h.fields;
    if h.is_large {
        lemma_info_round_trip(data, c.info_offset + 32, c.flags, h.handlers, h.debug_info, version);
        lemma_large_header_reads_back(data, at, h, version);
    } else {
        lemma_info_round_trip(data, c.info_offset as int, c.flags, h.handlers, h.debug_info, version);
        lemma_small_header_reads_back(data, at, h, version);
    }
}

} // verus!
