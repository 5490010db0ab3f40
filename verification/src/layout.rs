//! Where each section of a file lies.
//!
//! The header takes the first 128 bytes. Every section after it starts at
//! a multiple of four: the packed function headers, the runs of string
//! kinds, the identifier hashes, the small and the overflow string table,
//! the string storage, the array buffer, the object key and value buffers,
//! from version 87 the BigInt table and storage, the regular-expression
//! table with its storage right behind it, the CommonJS module table, and
//! from version 84 the function source table.

use vstd::prelude::*;
use crate::decode::aligned_up;
use crate::header::{HermesHeader, HEADER_SIZE};

verus! {

/// The offset of each section that lies between the header and the
/// bytecode, and the offset where the last of them ends.
#[derive(Debug, Clone, Copy, PartialEq, Eq, Structural)]
pub struct Layout {
    pub function_headers: u64,
    pub string_kinds: u64,
    pub identifier_hashes: u64,
    pub small_string_table: u64,
    pub overflow_string_table: u64,
    pub string_storage: u64,
    pub array_buffer: u64,
    pub object_key_buffer: u64,
    pub object_value_buffer: u64,
    /// Where the BigInt table starts; before version 87, where it would.
    pub big_int_table: u64,
    /// Where the BigInt storage starts; before version 87, where it would.
    pub big_int_storage: u64,
    pub reg_exp_table: u64,
    pub reg_exp_storage: u64,
    pub cjs_modules: u64,
    /// Where the function source table starts; before version 84, where it would.
    pub function_sources: u64,
    /// Where the last of these sections ends.
    pub end: u64,
}

/// The next multiple of four from `v` on.
pub open spec fn align4(v: int) -> int {
    aligned_up(v, 4)
}

/// The number of bytes that an entry of the CommonJS module table takes:
/// four where the modules are stored as single integers, else eight.
pub open spec fn spec_cjs_entry_size(h: HermesHeader) -> int {
    if h.options.cjs_modules_statically_resolved && h.version < 77 { 4 } else { 8 }
}

/// The number of bytes of regular-expression storage that the file holds:
/// none where the header counts no regular expressions.
pub open spec fn spec_reg_exp_storage_size(h: HermesHeader) -> int {
    if h.reg_exp_count > 0 { h.reg_exp_storage_size as int } else { 0 }
}

/// Whether `l` is the layout that the counts and sizes of `h` call for.
pub open spec fn is_layout_of(l: Layout, h: HermesHeader) -> bool {
    &&& l.function_headers == HEADER_SIZE
    &&& l.string_kinds == align4(l.function_headers + 16 * h.function_count)
    &&& l.identifier_hashes == align4(l.string_kinds + 4 * h.string_kind_count)
    &&& l.small_string_table == align4(l.identifier_hashes + 4 * h.identifier_count)
    &&& l.overflow_string_table == align4(l.small_string_table + 4 * h.string_count)
    &&& l.string_storage == align4(l.overflow_string_table + 8 * h.overflow_string_count)
    &&& l.array_buffer == align4(l.string_storage + h.string_storage_size)
    &&& l.object_key_buffer == align4(l.array_buffer + h.array_buffer_size)
    &&& l.object_value_buffer == align4(l.object_key_buffer + h.obj_key_buffer_size)
    &&& l.big_int_table == align4(l.object_value_buffer + h.obj_value_buffer_size)
    &&& l.big_int_storage == (if h.version >= 87 {
        align4(l.big_int_table + 8 * h.big_int_count)
    } else {
        l.big_int_table as int
    })
    &&& l.reg_exp_table == (if h.version >= 87 {
        align4(l.big_int_storage + h.big_int_storage_size)
    } else {
        l.big_int_table as int
    })
    &&& l.reg_exp_storage == l.reg_exp_table + 8 * h.reg_exp_count
    &&& l.cjs_modules == align4(l.reg_exp_storage + spec_reg_exp_storage_size(h))
    &&& l.function_sources == align4(l.cjs_modules + spec_cjs_entry_size(h) * h.cjs_module_count)
    &&& l.end == (if h.version >= 84 {
        l.function_sources + 8 * h.function_source_count
    } else {
        l.cjs_modules + spec_cjs_entry_size(h) * h.cjs_module_count
    })
}

/// The next multiple of four from `v` on.
pub fn align_offset(v: u64) -> (r: u64)
    requires
        v <= u64::MAX - 3,
    ensures
        r == align4(v as int),
        v <= r < v + 4,
        r % 4 == 0,
{
    if v % 4 == 0 {
        v
    } else {
        v + (4 - v % 4)
    }
}

/// The layout that the counts and sizes of a header call for.
pub fn plan_sections(h: &HermesHeader) -> (l: Layout)
    ensures
        is_layout_of(l, *h),
        l.end <= 0x100_0000_0000,
{
    let function_headers: u64 = HEADER_SIZE as u64;
    let string_kinds = align_offset(function_headers + 16 * (h.function_count as u64));
    let identifier_hashes = align_offset(string_kinds + 4 * (h.string_kind_count as u64));
    let small_string_table = align_offset(identifier_hashes + 4 * (h.identifier_count as u64));
    let overflow_string_table = align_offset(small_string_table + 4 * (h.string_count as u64));
    let string_storage = align_offset(overflow_string_table + 8 * (h.overflow_string_count as u64));
    let array_buffer = align_offset(string_storage + h.string_storage_size as u64);
    let object_key_buffer = align_offset(array_buffer + h.array_buffer_size as u64);
    let object_value_buffer = align_offset(object_key_buffer + h.obj_key_buffer_size as u64);
    let big_int_table = align_offset(object_value_buffer + h.obj_value_buffer_size as u64);
    let big_int_storage = if h.version >= 87 {
        align_offset(big_int_table + 8 * (h.big_int_count as u64))
    } else {
        big_int_table
    };
    let reg_exp_table = if h.version >= 87 {
        align_offset(big_int_storage + h.big_int_storage_size as u64)
    } else {
        big_int_table
    };
    let reg_exp_storage = reg_exp_table + 8 * (h.reg_exp_count as u64);
    let reg_exp_size: u64 = if h.reg_exp_count > 0 { h.reg_exp_storage_size as u64 } else { 0 };
    let cjs_modules = align_offset(reg_exp_storage + reg_exp_size);
    let cjs_entry: u64 = if h.options.cjs_modules_statically_resolved && h.version < 77 {
        4
    } else {
        8
    };
    let cjs_end = cjs_modules + cjs_entry * (h.cjs_module_count as u64);
    let function_sources = align_offset(cjs_end);
    let end = if h.version >= 84 {
        function_sources + 8 * (h.function_source_count as u64)
    } else {
        cjs_end
    };
    Layout {
        function_headers,
        string_kinds,
        identifier_hashes,
        small_string_table,
        overflow_string_table,
        string_storage,
        array_buffer,
        object_key_buffer,
        object_value_buffer,
        big_int_table,
        big_int_storage,
        reg_exp_table,
        reg_exp_storage,
        cjs_modules,
        function_sources,
        end,
    }
}

/// A header calls for one layout only.
pub proof fn lemma_layout_unique(a: Layout, b: Layout, h: HermesHeader)
    requires
        is_layout_of(a, h),
        is_layout_of(b, h),
    ensures
        a == b,
{
}

/// The layout that the counts and sizes of `h` call for.
pub open spec fn spec_layout(h: HermesHeader) -> Layout {
    let function_headers = HEADER_SIZE as int;
    let string_kinds = align4(function_headers + 16 * h.function_count);
    let identifier_hashes = align4(string_kinds + 4 * h.string_kind_count);
    let small_string_table = align4(identifier_hashes + 4 * h.identifier_count);
    let overflow_string_table = align4(small_string_table + 4 * h.string_count);
    let string_storage = align4(overflow_string_table + 8 * h.overflow_string_count);
    let array_buffer = align4(string_storage + h.string_storage_size);
    let object_key_buffer = align4(array_buffer + h.array_buffer_size);
    let object_value_buffer = align4(object_key_buffer + h.obj_key_buffer_size);
    let big_int_table = align4(object_value_buffer + h.obj_value_buffer_size);
    let big_int_storage = if h.version >= 87 {
        align4(big_int_table + 8 * h.big_int_count)
    } else {
        big_int_table
    };
    let reg_exp_table = if h.version >= 87 {
        align4(big_int_storage + h.big_int_storage_size)
    } else {
        big_int_table
    };
    let reg_exp_storage = reg_exp_table + 8 * h.reg_exp_count;
    let cjs_modules = align4(reg_exp_storage + spec_reg_exp_storage_size(h));
    let cjs_end = cjs_modules + spec_cjs_entry_size(h) * h.cjs_module_count;
    let function_sources = align4(cjs_end);
    let end = if h.version >= 84 { function_sources + 8 * h.function_source_count } else { cjs_end };
    Layout {
        function_headers: function_headers as u64,
        string_kinds: string_kinds as u64,
        identifier_hashes: identifier_hashes as u64,
        small_string_table: small_string_table as u64,
        overflow_string_table: overflow_string_table as u64,
        string_storage: string_storage as u64,
        array_buffer: array_buffer as u64,
        object_key_buffer: object_key_buffer as u64,
        object_value_buffer: object_value_buffer as u64,
        big_int_table: big_int_table as u64,
        big_int_storage: big_int_storage as u64,
        reg_exp_table: reg_exp_table as u64,
        reg_exp_storage: reg_exp_storage as u64,
        cjs_modules: cjs_modules as u64,
        function_sources: function_sources as u64,
        end: end as u64,
    }
}

/// Aligning moves an offset forward by at most three.
pub proof fn lemma_align4_bounds(v: int)
    requires
        0 <= v,
    ensures
        v <= align4(v) <= v + 3,
        align4(v) % 4 == 0,
{
}

/// `spec_layout` gives the one layout that a header calls for, in which
/// the sections follow one another from offset 128 on.
pub proof fn lemma_spec_layout(h: HermesHeader)
    ensures
        is_layout_of(spec_layout(h), h),
        forall|l: Layout| is_layout_of(l, h) ==> l == spec_layout(h),
        128 <= spec_layout(h).string_kinds <= spec_layout(h).end <= 0x100_0000_0000,
{
    let m = 0x1_0000_0000int;
    let a1 = 128 + 16 * h.function_count;
    let s1 = align4(a1);
    lemma_align4_bounds(a1);
    assert(128 <= s1 <= 131 + 16 * m);
    let a2 = s1 + 4 * h.string_kind_count;
    let s2 = align4(a2);
    lemma_align4_bounds(a2);
    assert(s1 <= s2 <= 134 + 20 * m);
    let a3 = s2 + 4 * h.identifier_count;
    let s3 = align4(a3);
    lemma_align4_bounds(a3);
    assert(s2 <= s3 <= 137 + 24 * m);
    let a4 = s3 + 4 * h.string_count;
    let s4 = align4(a4);
    lemma_align4_bounds(a4);
    assert(s3 <= s4 <= 140 + 28 * m);
    let a5 = s4 + 8 * h.overflow_string_count;
    let s5 = align4(a5);
    lemma_align4_bounds(a5);
    assert(s4 <= s5 <= 143 + 36 * m);
    let a6 = s5 + h.string_storage_size;
    let s6 = align4(a6);
    lemma_align4_bounds(a6);
    assert(s5 <= s6 <= 146 + 37 * m);
    let a7 = s6 + h.array_buffer_size;
    let s7 = align4(a7);
    lemma_align4_bounds(a7);
    assert(s6 <= s7 <= 149 + 38 * m);
    let a8 = s7 + h.obj_key_buffer_size;
    let s8 = align4(a8);
    lemma_align4_bounds(a8);
    assert(s7 <= s8 <= 152 + 39 * m);
    let a9 = s8 + h.obj_value_buffer_size;
    let s9 = align4(a9);
    lemma_align4_bounds(a9);
    assert(s8 <= s9 <= 155 + 40 * m);
    let a10 = s9 + 8 * h.big_int_count;
    let s10 = if h.version >= 87 { align4(a10) } else { s9 };
    lemma_align4_bounds(a10);
    assert(s9 <= s10 <= 158 + 48 * m);
    let a11 = s10 + h.big_int_storage_size;
    let s11 = if h.version >= 87 { align4(a11) } else { s9 };
    lemma_align4_bounds(a11);
    assert(s9 <= s11 <= 161 + 49 * m);
    let s12 = s11 + 8 * h.reg_exp_count;
    let a13 = s12 + spec_reg_exp_storage_size(h);
    let s13 = align4(a13);
    lemma_align4_bounds(a13);
    assert(s12 <= s13 <= 164 + 58 * m);
    let e = spec_cjs_entry_size(h);
    assert(0 <= e * h.cjs_module_count <= 8 * m) by (nonlinear_arith)
        requires
            e == 4 || e == 8,
            0 <= h.cjs_module_count < m,
            m == 0x1_0000_0000int,
    ;
    let a14 = s13 + e * h.cjs_module_count;
    let s14 = align4(a14);
    lemma_align4_bounds(a14);
    assert(s13 <= a14 <= s14 <= 167 + 66 * m);
    let l = spec_layout(h);
    assert(l.function_headers == 128);
    assert(l.string_kinds == s1);
    assert(l.identifier_hashes == s2);
    assert(l.small_string_table == s3);
    assert(l.overflow_string_table == s4);
    assert(l.string_storage == s5);
    assert(l.array_buffer == s6);
    assert(l.object_key_buffer == s7);
    assert(l.object_value_buffer == s8);
    assert(l.big_int_table == s9);
    assert(l.big_int_storage == s10);
    assert(l.reg_exp_table == s11);
    assert(l.reg_exp_storage == s12);
    assert(l.cjs_modules == s13);
    assert(l.function_sources == s14);
}

/// No section ends behind the last one.
pub proof fn lemma_layout_ordered(h: HermesHeader)
    ensures
        ({
            let l = spec_layout(h);
            &&& l.string_kinds + 4 * h.string_kind_count <= l.end
            &&& l.identifier_hashes + 4 * h.identifier_count <= l.end
            &&& l.small_string_table + 4 * h.string_count <= l.end
            &&& l.overflow_string_table + 8 * h.overflow_string_count <= l.end
            &&& l.string_storage + h.string_storage_size <= l.end
            &&& l.array_buffer + h.array_buffer_size <= l.end
            &&& l.object_key_buffer + h.obj_key_buffer_size <= l.end
            &&& l.object_value_buffer + h.obj_value_buffer_size <= l.end
            &&& h.version >= 87 ==> l.big_int_table + 8 * h.big_int_count <= l.end
                && l.big_int_storage + h.big_int_storage_size <= l.end
            &&& l.reg_exp_storage + spec_reg_exp_storage_size(h) <= l.end
            &&& l.reg_exp_table <= l.end
            &&& l.cjs_modules + spec_cjs_entry_size(h) * h.cjs_module_count <= l.end
            &&& h.version >= 84 ==> l.function_sources + 8 * h.function_source_count <= l.end
        }),
{
    lemma_spec_layout(h);
    let l = spec_layout(h);
    lemma_align4_bounds(l.function_headers + 16 * h.function_count);
    lemma_align4_bounds(l.string_kinds + 4 * h.string_kind_count);
    lemma_align4_bounds(l.identifier_hashes + 4 * h.identifier_count);
    lemma_align4_bounds(l.small_string_table + 4 * h.string_count);
    lemma_align4_bounds(l.overflow_string_table + 8 * h.overflow_string_count);
    lemma_align4_bounds(l.string_storage + h.string_storage_size);
    lemma_align4_bounds(l.array_buffer + h.array_buffer_size);
    lemma_align4_bounds(l.object_key_buffer + h.obj_key_buffer_size);
    lemma_align4_bounds(l.object_value_buffer + h.obj_value_buffer_size);
    lemma_align4_bounds(l.big_int_table + 8 * h.big_int_count);
    lemma_align4_bounds(l.big_int_storage + h.big_int_storage_size);
    lemma_align4_bounds(l.reg_exp_storage + spec_reg_exp_storage_size(h));
    let e = spec_cjs_entry_size(h);
    assert(0 <= e * h.cjs_module_count) by (nonlinear_arith)
        requires
            e == 4 || e == 8,
            0 <= h.cjs_module_count,
    ;
    lemma_align4_bounds(l.cjs_modules + e * h.cjs_module_count);
}

} // verus!
