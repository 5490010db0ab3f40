//! Reading a written file.
//!
//! Every part of a written file stands in its bytes where a reader looks
//! for it, so a file that is read from those bytes is the file they were
//! written from.

use vstd::prelude::*;
use crate::codec::{
    is_table_at, lemma_table_bytes_len, lemma_table_round_trip, lemma_table_round_trip_at,
    lemma_words_bytes_len, lemma_words_round_trip, parse_table_at, record_at, table_bytes,
    words_at, words_bytes, Serializable,
};
use crate::debug_info::{spec_debug_body_size, DebugInfo, DebugInfoHeader};
use crate::cjs_module::{CJSModuleEntry, CJSModuleInt};
use crate::function_header::{FunctionHeaderFields, FunctionHeaderFlag};
use crate::hermes_file::writer::placed_from;
use crate::function_header::{
    info_agrees, info_bytes, large_header_bytes, lemma_info_bytes_len,
    lemma_large_header_flags_len, spec_function_header_at, FunctionHeaderView,
};
use crate::hermes_file::writer::lemma_header_reads_back;
use crate::hermes_file::writer::{
    bytecode_bytes, chunk_bytes, chunk_end, cjs_bytes, header_placed_in, lemma_cjs_bytes_len,
    lemma_instructions_bytes_len, lemma_pad4_len, lemma_slots_bytes_len, pad4, slot_bytes,
    slots_bytes, tail_bytes, tail_end,
};
use crate::hermes_file::FunctionInstructions;
use crate::digest::sha1_of;
use crate::encode::zeros;
use crate::cjs_module::CJSModule;
use crate::big_int_table::BigIntTableEntry;
use crate::function_sources::FunctionSourceEntry;
use crate::header::{lemma_header_parse_unique, HermesHeader};
use crate::regexp_table::RegExpTableEntry;
use crate::string_kind::StringKindEntry;
use crate::string_table::{OverflowStringTableEntry, SmallStringTableEntry};
use crate::hermes_file::HermesFile;
use crate::layout::{align4, is_layout_of, lemma_layout_unique, lemma_spec_layout, spec_layout, Layout};

verus! {

/// Whether `part` stands in `data` from offset `at` on.
#[verifier::opaque]
pub open spec fn holds_at(data: Seq<u8>, at: int, part: Seq<u8>) -> bool {
    0 <= at && at + part.len() <= data.len() && data.subrange(at, at + part.len()) == part
}

/// Bytes start with themselves.
pub proof fn lemma_holds_itself(s: Seq<u8>)
    ensures
        holds_at(s, 0, s),
{
    reveal(holds_at);
    assert(s.subrange(0, s.len() as int) =~= s);
}

/// Where a part stands, there is room for it.
pub proof fn lemma_holds_room(data: Seq<u8>, at: int, part: Seq<u8>)
    requires
        holds_at(data, at, part),
    ensures
        0 <= at,
        at + part.len() <= data.len(),
        data.subrange(at, at + part.len()) == part,
{
    reveal(holds_at);
}

/// What stands in the front of some bytes stands at the same offset in the
/// bytes as a whole.
pub proof fn lemma_holds_in_whole(front: Seq<u8>, whole: Seq<u8>, at: int, part: Seq<u8>)
    requires
        holds_at(front, at, part),
        holds_at(whole, 0, front),
    ensures
        holds_at(whole, at, part),
{
    reveal(holds_at);
    let got = whole.subrange(at, at + part.len());
    assert forall|k: int| 0 <= k < part.len() implies got[k] == part[k] by {
        assert(front.subrange(at, at + part.len())[k] == front[at + k]);
        assert(whole.subrange(0, front.len() as int)[at + k] == whole[at + k]);
    }
    assert(got =~= part);
}

/// Where bytes start with `prev`, padded to a multiple of four and followed
/// by `part`, they start with `prev` and hold `part` at the next multiple
/// of four behind it.
pub proof fn lemma_holds_padded(prev: Seq<u8>, part: Seq<u8>, whole: Seq<u8>)
    requires
        holds_at(whole, 0, pad4(prev) + part),
    ensures
        holds_at(whole, 0, prev),
        holds_at(whole, align4(prev.len() as int), part),
        (pad4(prev) + part).len() == align4(prev.len() as int) + part.len(),
{
    reveal(holds_at);
    let front = pad4(prev) + part;
    lemma_pad4_len(prev);
    assert(front.subrange(0, prev.len() as int) =~= prev);
    assert(front.subrange(align4(prev.len() as int), align4(prev.len() as int) + part.len()) =~= part);
    lemma_holds_in_whole(front, whole, 0, prev);
    lemma_holds_in_whole(front, whole, align4(prev.len() as int), part);
}

/// Where bytes start with `prev` followed by `part`, they start with `prev`
/// and hold `part` right behind it.
pub proof fn lemma_holds_joined(prev: Seq<u8>, part: Seq<u8>, whole: Seq<u8>)
    requires
        holds_at(whole, 0, prev + part),
    ensures
        holds_at(whole, 0, prev),
        holds_at(whole, prev.len() as int, part),
{
    reveal(holds_at);
    let front = prev + part;
    assert(front.subrange(0, prev.len() as int) =~= prev);
    assert(front.subrange(prev.len() as int, (prev.len() + part.len()) as int) =~= part);
    lemma_holds_in_whole(front, whole, 0, prev);
    lemma_holds_in_whole(front, whole, prev.len() as int, part);
}

/// Where two parts stand one behind the other, each of them stands.
pub proof fn lemma_holds_both(whole: Seq<u8>, at: int, first: Seq<u8>, second: Seq<u8>)
    requires
        holds_at(whole, at, first + second),
    ensures
        holds_at(whole, at, first),
        holds_at(whole, at + first.len(), second),
{
    reveal(holds_at);
    let both = first + second;
    let got = whole.subrange(at, at + both.len());
    assert(whole.subrange(at, at + first.len()) =~= got.subrange(0, first.len() as int));
    assert(got.subrange(0, first.len() as int) =~= first);
    assert(whole.subrange(at + first.len(), at + first.len() + second.len()) =~= got.subrange(
        first.len() as int,
        both.len() as int,
    ));
    assert(got.subrange(first.len() as int, both.len() as int) =~= second);
}

/// A table of records of `size` bytes takes `size` bytes for each item.
pub proof fn lemma_table_len<T: Serializable>(items: Seq<T>, size: int)
    requires
        T::spec_size() == size,
    ensures
        table_bytes(items).len() == size * items.len(),
{
    lemma_table_bytes_len(items);
    assert(items.len() * T::spec_size() == size * items.len()) by (nonlinear_arith)
        requires
            T::spec_size() == size,
    ;
}

/// Whether the string sections of `f` stand in `data` where the layout `l`
/// puts them.
pub open spec fn strings_hold(f: &HermesFile, data: Seq<u8>, l: Layout) -> bool {
    &&& holds_at(data, l.string_kinds as int, table_bytes(f.string_kinds@))
    &&& holds_at(data, l.identifier_hashes as int, words_bytes(f.identifier_hashes@))
    &&& holds_at(data, l.small_string_table as int, table_bytes(f.string_storage@))
    &&& holds_at(data, l.overflow_string_table as int, table_bytes(f.overflow_string_storage@))
    &&& holds_at(data, l.string_storage as int, f.string_storage_bytes@)
}

/// The string sections stand where the layout puts them in bytes that
/// start with what was written up to them.
pub proof fn lemma_strings_hold(f: &HermesFile, s: Seq<u8>, whole: Seq<u8>, l: Layout)
    requires
        s.len() == 128 + 16 * f.header.function_count,
        is_layout_of(l, f.header),
        f.counts_in_sync(),
        holds_at(whole, 0, f.spec_with_strings(s)),
    ensures
        holds_at(whole, 0, s),
        strings_hold(f, whole, l),
        f.spec_with_strings(s).len() == l.string_storage + f.header.string_storage_size,
{
    let s2 = pad4(s) + table_bytes(f.string_kinds@);
    let s3 = pad4(s2) + words_bytes(f.identifier_hashes@);
    let s4 = pad4(s3) + table_bytes(f.string_storage@);
    let s5 = pad4(s4) + table_bytes(f.overflow_string_storage@);
    assert(f.spec_with_strings(s) == pad4(s5) + f.string_storage_bytes@);
    lemma_table_len(f.string_kinds@, 4);
    lemma_words_bytes_len(f.identifier_hashes@);
    lemma_table_len(f.string_storage@, 4);
    lemma_table_len(f.overflow_string_storage@, 8);
    lemma_holds_padded(s5, f.string_storage_bytes@, whole);
    lemma_holds_padded(s4, table_bytes(f.overflow_string_storage@), whole);
    lemma_holds_padded(s3, table_bytes(f.string_storage@), whole);
    lemma_holds_padded(s2, words_bytes(f.identifier_hashes@), whole);
    lemma_holds_padded(s, table_bytes(f.string_kinds@), whole);
}

/// Whether the literal buffers of `f`, and from version 87 the BigInt
/// table and storage, stand in `data` where the layout `l` puts them.
pub open spec fn buffers_hold(f: &HermesFile, data: Seq<u8>, l: Layout) -> bool {
    &&& holds_at(data, l.array_buffer as int, f.array_buffer_storage@)
    &&& holds_at(data, l.object_key_buffer as int, f.object_key_buffer@)
    &&& holds_at(data, l.object_value_buffer as int, f.object_val_buffer@)
    &&& f.header.version >= 87 ==> {
        &&& holds_at(data, l.big_int_table as int, table_bytes(f.big_int_table@))
        &&& holds_at(data, l.big_int_storage as int, f.big_int_storage@)
    }
}

/// Where the literal buffers end in a file with the layout `l`.
pub open spec fn buffers_end(f: &HermesFile, l: Layout) -> int {
    if f.header.version >= 87 {
        l.big_int_storage + f.header.big_int_storage_size
    } else {
        l.object_value_buffer + f.header.obj_value_buffer_size
    }
}

/// The literal buffers stand where the layout puts them in bytes that
/// start with what was written up to them.
pub proof fn lemma_buffers_hold(f: &HermesFile, s: Seq<u8>, whole: Seq<u8>, l: Layout)
    requires
        s.len() == l.string_storage + f.header.string_storage_size,
        is_layout_of(l, f.header),
        f.counts_in_sync(),
        holds_at(whole, 0, f.spec_with_buffers(s)),
    ensures
        holds_at(whole, 0, s),
        buffers_hold(f, whole, l),
        f.spec_with_buffers(s).len() == buffers_end(f, l),
{
    let s7 = pad4(s) + f.array_buffer_storage@;
    let s8 = pad4(s7) + f.object_key_buffer@;
    let s9 = pad4(s8) + f.object_val_buffer@;
    if f.header.version >= 87 {
        let s10 = pad4(s9) + table_bytes(f.big_int_table@);
        assert(f.spec_with_buffers(s) == pad4(s10) + f.big_int_storage@);
        lemma_table_len(f.big_int_table@, 8);
        lemma_holds_padded(s10, f.big_int_storage@, whole);
        lemma_holds_padded(s9, table_bytes(f.big_int_table@), whole);
    } else {
        assert(f.spec_with_buffers(s) == s9);
    }
    lemma_holds_padded(s8, f.object_val_buffer@, whole);
    lemma_holds_padded(s7, f.object_key_buffer@, whole);
    lemma_holds_padded(s, f.array_buffer_storage@, whole);
}

/// Whether the regular expressions, the CommonJS modules and from version
/// 84 the function sources of `f` stand in `data` where the layout `l`
/// puts them.
pub open spec fn modules_hold(f: &HermesFile, data: Seq<u8>, l: Layout) -> bool {
    &&& f.reg_exp_table@.len() > 0 ==> {
        &&& holds_at(data, l.reg_exp_table as int, table_bytes(f.reg_exp_table@))
        &&& holds_at(data, l.reg_exp_storage as int, f.reg_exp_storage@)
    }
    &&& holds_at(data, l.cjs_modules as int, cjs_bytes(f.cjs_modules@))
    &&& f.header.version >= 84 ==> holds_at(
        data,
        l.function_sources as int,
        table_bytes(f.function_source_entries@),
    )
}

/// The regular expressions, the CommonJS modules and the function sources
/// stand where the layout puts them in bytes that start with what was
/// written up to them.
pub proof fn lemma_modules_hold(f: &HermesFile, s: Seq<u8>, whole: Seq<u8>, l: Layout)
    requires
        s.len() == buffers_end(f, l),
        is_layout_of(l, f.header),
        f.counts_in_sync(),
        f.header.absent_fields_zero(),
        f.reg_exp_table@.len() == 0 ==> f.reg_exp_storage@.len() == 0,
        forall|i: int|
            0 <= i < f.cjs_modules@.len() ==> ((#[trigger] f.cjs_modules@[i]) is CJSModuleInt)
                == f.spec_cjs_as_integers(),
        holds_at(whole, 0, f.spec_with_modules(s)),
    ensures
        holds_at(whole, 0, s),
        modules_hold(f, whole, l),
        f.spec_with_modules(s).len() == l.end,
{
    let regs = if f.reg_exp_table@.len() > 0 {
        table_bytes(f.reg_exp_table@) + f.reg_exp_storage@
    } else {
        Seq::empty()
    };
    let s11 = pad4(s) + regs;
    let s12 = pad4(s11) + cjs_bytes(f.cjs_modules@);
    lemma_table_len(f.reg_exp_table@, 8);
    lemma_table_len(f.function_source_entries@, 8);
    lemma_cjs_bytes_len(f.cjs_modules@, f.spec_cjs_as_integers());
    let entry = crate::layout::spec_cjs_entry_size(f.header);
    let count = f.cjs_modules@.len() as int;
    assert(cjs_bytes(f.cjs_modules@).len() == entry * count) by {
        assert(count * entry == entry * count) by (nonlinear_arith);
    }
    assert(s11.len() == l.reg_exp_storage + crate::layout::spec_reg_exp_storage_size(f.header));
    assert(s12.len() == l.cjs_modules + entry * count);
    if f.header.version >= 84 {
        assert(f.spec_with_modules(s) == pad4(s12) + table_bytes(f.function_source_entries@));
        lemma_holds_padded(s12, table_bytes(f.function_source_entries@), whole);
    } else {
        assert(f.spec_with_modules(s) == s12);
    }
    lemma_holds_padded(s11, cjs_bytes(f.cjs_modules@), whole);
    lemma_holds_padded(s, regs, whole);
    if f.reg_exp_table@.len() > 0 {
        lemma_holds_both(whole, align4(s.len() as int), table_bytes(f.reg_exp_table@), f.reg_exp_storage@);
    }
}

/// Whether every header of `views` is placed.
pub open spec fn all_placed(
    views: Seq<FunctionHeaderView>,
    functions: Seq<FunctionInstructions>,
    version: u32,
    code_start: int,
    tail_start: int,
) -> bool {
    &&& views.len() == functions.len()
    &&& 0 <= code_start
    &&& 0 <= tail_start
    &&& forall|k: int|
        0 <= k < views.len() ==> #[trigger] header_placed_in(
            views,
            functions,
            version,
            code_start,
            tail_start,
            k,
        )
}

/// The bytecode of the first `i` placed functions ends where the header of
/// the last of them says.
pub proof fn lemma_bytecode_bytes_len(
    views: Seq<FunctionHeaderView>,
    functions: Seq<FunctionInstructions>,
    version: u32,
    code_start: int,
    tail_start: int,
    i: int,
)
    requires
        all_placed(views, functions, version, code_start, tail_start),
        0 <= i <= views.len(),
    ensures
        code_start + bytecode_bytes(functions.take(i)).len() == (if i == 0 {
            code_start
        } else {
            views[i - 1].fields.offset + views[i - 1].fields.byte_size
        }),
    decreases i,
{
    if i > 0 {
        lemma_bytecode_bytes_len(views, functions, version, code_start, tail_start, i - 1);
        assert(header_placed_in(views, functions, version, code_start, tail_start, i - 1));
        assert(functions.take(i).drop_last() =~= functions.take(i - 1));
        assert(functions.take(i).last() == functions[i - 1]);
        lemma_instructions_bytes_len(functions[i - 1].bytecode@);
    }
}

/// The part of the tail that belongs to a placed header ends where
/// `chunk_end` says.
pub proof fn lemma_chunk_bytes_len(h: FunctionHeaderView, prev_end: int)
    requires
        0 <= prev_end,
        h.fields.flags.has_debug_info ==> h.debug_info is Some,
        h.fields.info_offset == (if h.is_large { align4(prev_end) } else { prev_end }),
    ensures
        prev_end + chunk_bytes(h, prev_end).len() == chunk_end(h),
        prev_end <= chunk_end(h),
{
    if h.is_large {
        lemma_large_header_flags_len(h.fields);
        lemma_info_bytes_len(h.fields.info_offset + 32, h.fields.flags, h.handlers, h.debug_info);
    } else {
        lemma_info_bytes_len(h.fields.info_offset as int, h.fields.flags, h.handlers, h.debug_info);
    }
}

/// The tail of the first `i` placed headers ends where `tail_end` says.
pub proof fn lemma_tail_bytes_len(
    views: Seq<FunctionHeaderView>,
    functions: Seq<FunctionInstructions>,
    version: u32,
    code_start: int,
    tail_start: int,
    i: int,
)
    requires
        all_placed(views, functions, version, code_start, tail_start),
        0 <= i <= views.len(),
    ensures
        tail_start + tail_bytes(views.take(i), tail_start).len() == tail_end(views, i, tail_start),
        tail_start <= tail_end(views, i, tail_start),
    decreases i,
{
    if i > 0 {
        let front = views.take(i - 1);
        lemma_tail_bytes_len(views, functions, version, code_start, tail_start, i - 1);
        assert(header_placed_in(views, functions, version, code_start, tail_start, i - 1));
        assert(views.take(i).drop_last() =~= front);
        assert(views.take(i).last() == views[i - 1]);
        if i > 1 {
            assert(front[i - 2] == views[i - 2]);
        }
        assert(tail_end(front, front.len() as int, tail_start) == tail_end(views, i - 1, tail_start));
        lemma_chunk_bytes_len(views[i - 1], tail_end(views, i - 1, tail_start));
    } else {
        assert(views.take(0) =~= Seq::<FunctionHeaderView>::empty());
    }
}

/// Where the tail of the first `i` placed headers stands from `tail_start`
/// on, the part of header `k` stands right behind the part of the header
/// before it.
pub proof fn lemma_chunk_holds(
    views: Seq<FunctionHeaderView>,
    functions: Seq<FunctionInstructions>,
    version: u32,
    code_start: int,
    tail_start: int,
    whole: Seq<u8>,
    i: int,
    k: int,
)
    requires
        all_placed(views, functions, version, code_start, tail_start),
        0 <= k < i <= views.len(),
        holds_at(whole, tail_start, tail_bytes(views.take(i), tail_start)),
    ensures
        holds_at(
            whole,
            tail_end(views, k, tail_start),
            chunk_bytes(views[k], tail_end(views, k, tail_start)),
        ),
    decreases i,
{
    let front = views.take(i - 1);
    let prev_end = tail_end(views, i - 1, tail_start);
    assert(views.take(i).drop_last() =~= front);
    assert(views.take(i).last() == views[i - 1]);
    if i > 1 {
        assert(front[i - 2] == views[i - 2]);
    }
    assert(tail_end(front, front.len() as int, tail_start) == prev_end);
    lemma_tail_bytes_len(views, functions, version, code_start, tail_start, i - 1);
    lemma_holds_both(
        whole,
        tail_start,
        tail_bytes(front, tail_start),
        chunk_bytes(views[i - 1], prev_end),
    );
    if k < i - 1 {
        lemma_chunk_holds(views, functions, version, code_start, tail_start, whole, i - 1, k);
    }
}

/// Where the slots of the first `i` headers stand from `base` on, the slot
/// of header `k` stands 16 bytes behind that of the header before it.
pub proof fn lemma_slot_holds(views: Seq<FunctionHeaderView>, whole: Seq<u8>, base: int, i: int, k: int)
    requires
        0 <= k < i <= views.len(),
        holds_at(whole, base, slots_bytes(views.take(i))),
    ensures
        holds_at(whole, base + 16 * k, slot_bytes(views[k])),
    decreases i,
{
    let front = views.take(i - 1);
    assert(views.take(i).drop_last() =~= front);
    assert(views.take(i).last() == views[i - 1]);
    lemma_slots_bytes_len(front);
    lemma_holds_both(whole, base, slots_bytes(front), slot_bytes(views[i - 1]));
    if k < i - 1 {
        lemma_slot_holds(views, whole, base, i - 1, k);
    }
}

/// Whether every part of `f` stands in `data` where a file with the
/// section layout `l` has it: the header at the start, the header table
/// behind it, every section where the layout puts it, the bytecode and the
/// tail behind the sections, the debug section where the header says, and
/// the footer in the last 20 bytes.
pub open spec fn parts_hold(f: &HermesFile, data: Seq<u8>, l: Layout) -> bool {
    let views = f.header_views();
    let tail_start = align4(f.bytecode_end(l));
    &&& data.len() == f.header.file_length
    &&& holds_at(data, 0, f.header.spec_bytes())
    &&& f.header.spec_bytes().len() == 128
    &&& holds_at(data, 128, slots_bytes(views))
    &&& strings_hold(f, data, l)
    &&& buffers_hold(f, data, l)
    &&& modules_hold(f, data, l)
    &&& holds_at(data, HermesFile::bytecode_start(l), bytecode_bytes(f.function_bytecode@))
    &&& holds_at(data, tail_start, tail_bytes(views, tail_start))
    &&& holds_at(data, f.header.debug_info_offset as int, f.debug_info.spec_bytes())
    &&& holds_at(data, f.header.file_length - 20, f.footer@)
}

/// The headers of a file that is laid out are all placed.
pub proof fn lemma_laid_out_placed(f: &HermesFile, l: Layout)
    requires
        f.laid_out(l),
    ensures
        all_placed(
            f.header_views(),
            f.function_bytecode@,
            f.header.version,
            HermesFile::bytecode_start(l),
            align4(f.bytecode_end(l)),
        ),
{
    assert forall|k: int| 0 <= k < f.header_views().len() implies #[trigger] header_placed_in(
        f.header_views(),
        f.function_bytecode@,
        f.header.version,
        HermesFile::bytecode_start(l),
        align4(f.bytecode_end(l)),
        k,
    ) by {
        assert(f.header_placed(l, k));
    }
}

/// Every section from the string kinds to the function sources stands
/// where the layout puts it in bytes that start with what was written up
/// to the last of them.
pub proof fn lemma_tables_hold(f: &HermesFile, s1: Seq<u8>, whole: Seq<u8>, l: Layout)
    requires
        f.laid_out(l),
        s1.len() == 128 + 16 * f.header.function_count,
        holds_at(whole, 0, f.spec_with_tables(s1)),
    ensures
        holds_at(whole, 0, s1),
        strings_hold(f, whole, l),
        buffers_hold(f, whole, l),
        modules_hold(f, whole, l),
        f.spec_with_tables(s1).len() == l.end,
{
    let a = f.spec_with_strings(s1);
    let b = f.spec_with_buffers(a);
    lemma_holds_itself(a);
    lemma_strings_hold(f, s1, a, l);
    lemma_holds_itself(b);
    lemma_buffers_hold(f, a, b, l);
    lemma_modules_hold(f, b, whole, l);
    lemma_buffers_hold(f, a, whole, l);
    lemma_strings_hold(f, s1, whole, l);
}

/// The bytecode and the tail of a file that is laid out end where the
/// headers say.
pub proof fn lemma_code_and_tail_len(f: &HermesFile, l: Layout)
    requires
        f.laid_out(l),
    ensures
        HermesFile::bytecode_start(l) + bytecode_bytes(f.function_bytecode@).len() == f.bytecode_end(l),
        align4(f.bytecode_end(l)) + tail_bytes(f.header_views(), align4(f.bytecode_end(l))).len()
            == tail_end(
            f.header_views(),
            f.function_headers@.len() as int,
            align4(f.bytecode_end(l)),
        ),
        0 <= HermesFile::bytecode_start(l) <= f.bytecode_end(l),
{
    let views = f.header_views();
    let n = views.len() as int;
    let code_start = HermesFile::bytecode_start(l);
    let tail_start = align4(f.bytecode_end(l));
    lemma_laid_out_placed(f, l);
    lemma_bytecode_bytes_len(views, f.function_bytecode@, f.header.version, code_start, tail_start, n);
    assert(f.function_bytecode@.take(n) =~= f.function_bytecode@);
    lemma_tail_bytes_len(views, f.function_bytecode@, f.header.version, code_start, tail_start, n);
    assert(views.take(n) =~= views);
    if n > 0 {
        assert(views[n - 1] == f.function_headers@[n - 1]@);
    }
}

/// Where the parts behind the sections stand in a file: the bytecode at the
/// next multiple of four, the tail at the next multiple of four behind the
/// bytecode, the debug section at the next multiple of four behind the tail,
/// and the footer right behind the debug section.
pub proof fn lemma_back_holds(
    front: Seq<u8>,
    code: Seq<u8>,
    tail: Seq<u8>,
    debug: Seq<u8>,
    footer: Seq<u8>,
)
    ensures
        ({
            let whole = pad4(pad4(pad4(front) + code) + tail) + debug + footer;
            let code_at = align4(front.len() as int);
            let tail_at = align4(code_at + code.len());
            let debug_at = align4(tail_at + tail.len());
            &&& holds_at(whole, 0, front)
            &&& holds_at(whole, code_at, code)
            &&& holds_at(whole, tail_at, tail)
            &&& holds_at(whole, debug_at, debug)
            &&& holds_at(whole, debug_at + debug.len(), footer)
            &&& whole.len() == debug_at + debug.len() + footer.len()
            &&& pad4(pad4(front) + code).len() == tail_at
        }),
{
    let s14 = pad4(front) + code;
    let s15 = pad4(s14);
    let s16 = s15 + tail;
    let body = pad4(s16) + debug;
    let whole = body + footer;
    lemma_holds_itself(whole);
    lemma_holds_joined(body, footer, whole);
    lemma_holds_padded(s16, debug, whole);
    lemma_holds_joined(s15, tail, whole);
    assert(pad4(s14) + Seq::<u8>::empty() =~= s15);
    lemma_holds_padded(s14, Seq::<u8>::empty(), whole);
    lemma_holds_padded(front, code, whole);
    lemma_pad4_len(front);
    lemma_pad4_len(s14);
    lemma_pad4_len(s16);
}

/// A header is written as 128 bytes.
pub proof fn lemma_header_len(h: HermesHeader)
    ensures
        h.spec_bytes().len() == 128,
{
    let words = h.spec_words();
    lemma_words_bytes_len(words);
    assert(words.len() == crate::header::spec_word_count(h.version));
    assert(h.sha1@.len() == 20);
    assert(h.spec_raw_bytes().len() == 33 + 4 * words.len());
}

/// Every part of a file that is laid out stands where the layout has it in
/// the bytes that the file is written as.
pub proof fn lemma_parts_hold(f: &HermesFile, l: Layout)
    requires
        f.laid_out(l),
    ensures
        parts_hold(f, f.spec_body() + f.footer@, l),
{
    let views = f.header_views();
    let tail_start = align4(f.bytecode_end(l));
    let whole = f.spec_body() + f.footer@;
    let s1 = f.header.spec_bytes() + slots_bytes(views);
    let s13 = f.spec_with_tables(s1);
    let code = bytecode_bytes(f.function_bytecode@);
    let tail = tail_bytes(views, tail_start);
    lemma_header_len(f.header);
    lemma_slots_bytes_len(views);
    lemma_holds_itself(s13);
    lemma_tables_hold(f, s1, s13, l);
    lemma_code_and_tail_len(f, l);
    lemma_back_holds(s13, code, tail, f.debug_info.spec_bytes(), f.footer@);
    f.debug_info.lemma_size();
    assert(pad4(pad4(s13) + code).len() == tail_start);
    assert(whole == pad4(pad4(pad4(s13) + code) + tail) + f.debug_info.spec_bytes() + f.footer@);
    lemma_tables_hold(f, s1, whole, l);
    lemma_holds_joined(f.header.spec_bytes(), slots_bytes(views), whole);
}

/// A table that stands among other bytes reads back from them as the
/// items it was written from.
pub proof fn lemma_table_reads_back<T: Serializable>(
    data: Seq<u8>,
    start: int,
    items: Seq<T>,
    version: u32,
)
    requires
        holds_at(data, start, table_bytes(items)),
        forall|i: int| 0 <= i < items.len() ==> (#[trigger] items[i]).representable(version),
    ensures
        is_table_at(items, data, start, version),
        parse_table_at::<T>(data, start, items.len(), version) == items,
{
    reveal(holds_at);
    lemma_table_round_trip_at(data, start, items, version);
    lemma_table_round_trip(items, version);
    let bytes = table_bytes(items);
    let sz = T::spec_size() as int;
    assert forall|i: int| 0 <= i < items.len() implies T::spec_parse(
        #[trigger] record_at::<T>(data, start, i),
        version,
    ) == Some(items[i]) by {
        assert((i + 1) * sz == i * sz + sz) by (nonlinear_arith);
        assert(0 <= i * sz) by (nonlinear_arith)
            requires
                0 <= i,
                0 <= sz,
        ;
        assert((i + 1) * sz <= items.len() * sz) by (nonlinear_arith)
            requires
                i + 1 <= items.len(),
                0 <= sz,
        ;
        assert(record_at::<T>(data, start, i) =~= record_at::<T>(bytes, 0, i));
        assert(T::spec_parse(record_at::<T>(bytes, 0, i), version) == Some(items[i]));
    }
}

/// A row of words that stands among other bytes reads back from them as
/// the words it was written from.
pub proof fn lemma_words_read_back(data: Seq<u8>, start: int, words: Seq<u32>)
    requires
        holds_at(data, start, words_bytes(words)),
    ensures
        words_at(data, start, words.len()) == words,
{
    reveal(holds_at);
    let bytes = words_bytes(words);
    let pre = data.subrange(0, start);
    let post = data.subrange(start + bytes.len(), data.len() as int);
    assert(data =~= pre + bytes + post);
    lemma_words_round_trip(pre, words, post);
}

/// A header that stands at the start of some bytes reads back from them.
pub proof fn lemma_header_reads_back_at_start(h: HermesHeader, data: Seq<u8>)
    requires
        holds_at(data, 0, h.spec_bytes()),
        h.absent_fields_zero(),
    ensures
        h.parses_at(data, 0),
{
    reveal(holds_at);
    let bytes = h.spec_bytes();
    let raw = h.spec_raw_bytes();
    let post = bytes.subrange(raw.len() as int, bytes.len() as int) + data.subrange(
        bytes.len() as int,
        data.len() as int,
    );
    let front = data.subrange(0, bytes.len() as int);
    assert(front == bytes);
    assert(raw.len() <= bytes.len());
    assert forall|k: int| 0 <= k < data.len() implies data[k] == (raw + post)[k] by {
        if k < bytes.len() {
            assert(data[k] == front[k]);
            if k < raw.len() {
                assert(bytes[k] == raw[k]);
            } else {
                assert(post[k - raw.len()] == bytes[k]);
            }
        }
    }
    assert(data =~= raw + post);
    h.lemma_round_trip(post);
}

/// A debug section that stands among other bytes reads back from them,
/// provided its header describes what it holds.
pub proof fn lemma_debug_reads_back(d: &DebugInfo, data: Seq<u8>, at: int, version: u32)
    requires
        d.in_step(version),
        holds_at(data, at, d.spec_bytes()),
    ensures
        d.parses_at(data, at, version),
        DebugInfoHeader::spec_size_for(version) + spec_debug_body_size(d.header) == d.spec_bytes().len(),
{
    let h = d.header;
    let hb = h.spec_bytes();
    let names = table_bytes(d.string_table@);
    let regions = table_bytes(d.file_regions@);
    let q1 = hb + names;
    let q2 = q1 + d.string_storage@;
    let q3 = q2 + regions;
    let q4 = q3 + d.sources_data_storage@;
    let q5 = q4 + d.scope_desc_data_storage@;
    let q6 = q5 + d.textified_callee_storage@;
    assert(d.spec_bytes() == q6 + d.string_table_storage@);
    h.lemma_round_trip(version);
    lemma_table_len(d.string_table@, 8);
    lemma_table_len(d.file_regions@, 12);
    lemma_holds_both(data, at, q6, d.string_table_storage@);
    lemma_holds_both(data, at, q5, d.textified_callee_storage@);
    lemma_holds_both(data, at, q4, d.scope_desc_data_storage@);
    lemma_holds_both(data, at, q3, d.sources_data_storage@);
    lemma_holds_both(data, at, q2, regions);
    lemma_holds_both(data, at, q1, d.string_storage@);
    lemma_holds_both(data, at, hb, names);
    lemma_table_reads_back(data, at + hb.len(), d.string_table@, version);
    lemma_table_reads_back(data, at + q2.len(), d.file_regions@, version);
    reveal(holds_at);
}

/// The entries of a CommonJS module table that are all single integers.
pub open spec fn cjs_integers(modules: Seq<CJSModule>) -> Seq<CJSModuleInt> {
    Seq::new(modules.len(), |i: int| modules[i]->CJSModuleInt_0)
}

/// The entries of a CommonJS module table that are all pairs.
pub open spec fn cjs_pairs(modules: Seq<CJSModule>) -> Seq<CJSModuleEntry> {
    Seq::new(modules.len(), |i: int| modules[i]->CJSModuleEntry_0)
}

/// A CommonJS module table whose entries all have one layout is written
/// as the table of those entries.
pub proof fn lemma_cjs_bytes_table(modules: Seq<CJSModule>, as_integers: bool)
    requires
        forall|i: int|
            0 <= i < modules.len() ==> ((#[trigger] modules[i]) is CJSModuleInt) == as_integers,
    ensures
        cjs_bytes(modules) == (if as_integers {
            table_bytes(cjs_integers(modules))
        } else {
            table_bytes(cjs_pairs(modules))
        }),
    decreases modules.len(),
{
    if modules.len() > 0 {
        let front = modules.drop_last();
        assert forall|i: int| 0 <= i < front.len() implies ((#[trigger] front[i]) is CJSModuleInt)
            == as_integers by {
            assert(front[i] == modules[i]);
        }
        lemma_cjs_bytes_table(front, as_integers);
        assert(modules.last() == modules[modules.len() - 1]);
        if as_integers {
            assert(cjs_integers(modules).drop_last() =~= cjs_integers(front));
        } else {
            assert(cjs_pairs(modules).drop_last() =~= cjs_pairs(front));
        }
    }
}

/// What a CommonJS module table of `count` entries reads as at `at`.
pub open spec fn cjs_at(data: Seq<u8>, at: int, count: nat, version: u32, as_integers: bool) -> Seq<
    CJSModule,
> {
    if as_integers {
        Seq::new(
            count,
            |i: int| CJSModule::CJSModuleInt(parse_table_at::<CJSModuleInt>(data, at, count, version)[i]),
        )
    } else {
        Seq::new(
            count,
            |i: int|
                CJSModule::CJSModuleEntry(parse_table_at::<CJSModuleEntry>(data, at, count, version)[i]),
        )
    }
}

/// A CommonJS module table whose entries all have one layout, and that
/// stands among other bytes, reads back from them.
pub proof fn lemma_cjs_reads_back(
    modules: Seq<CJSModule>,
    data: Seq<u8>,
    at: int,
    version: u32,
    as_integers: bool,
)
    requires
        holds_at(data, at, cjs_bytes(modules)),
        forall|i: int|
            0 <= i < modules.len() ==> ((#[trigger] modules[i]) is CJSModuleInt) == as_integers,
    ensures
        cjs_at(data, at, modules.len(), version, as_integers) == modules,
{
    lemma_cjs_bytes_table(modules, as_integers);
    if as_integers {
        lemma_table_reads_back(data, at, cjs_integers(modules), version);
        assert forall|i: int| 0 <= i < modules.len() implies cjs_at(
            data,
            at,
            modules.len(),
            version,
            as_integers,
        )[i] == modules[i] by {
            assert(modules[i] is CJSModuleInt);
        }
    } else {
        lemma_table_reads_back(data, at, cjs_pairs(modules), version);
        assert forall|i: int| 0 <= i < modules.len() implies cjs_at(
            data,
            at,
            modules.len(),
            version,
            as_integers,
        )[i] == modules[i] by {
            assert(!(modules[i] is CJSModuleInt));
        }
    }
    assert(cjs_at(data, at, modules.len(), version, as_integers) =~= modules);
}

/// A placed header reads back from bytes that hold the header table and
/// the tail, provided its flags announce what it has.
pub proof fn lemma_placed_header_reads_back(
    views: Seq<FunctionHeaderView>,
    functions: Seq<FunctionInstructions>,
    version: u32,
    code_start: int,
    tail_start: int,
    data: Seq<u8>,
    base: int,
    k: int,
)
    requires
        all_placed(views, functions, version, code_start, tail_start),
        0 <= k < views.len(),
        0 <= base,
        holds_at(data, base, slots_bytes(views)),
        holds_at(data, tail_start, tail_bytes(views, tail_start)),
        info_agrees(views[k].fields.flags, views[k].handlers, views[k].debug_info, version),
    ensures
        spec_function_header_at(data, base + 16 * k, version) == Some(views[k]),
{
    let n = views.len() as int;
    let h = views[k];
    let prev_end = tail_end(views, k, tail_start);
    assert(views.take(n) =~= views);
    lemma_slot_holds(views, data, base, n, k);
    lemma_chunk_holds(views, functions, version, code_start, tail_start, data, n, k);
    lemma_tail_bytes_len(views, functions, version, code_start, tail_start, k);
    assert(header_placed_in(views, functions, version, code_start, tail_start, k));
    let gap = zeros(h.fields.info_offset - prev_end);
    if h.is_large {
        let record = large_header_bytes(h.fields);
        let hung = info_bytes(h.fields.info_offset + 32, h.fields.flags, h.handlers, h.debug_info);
        assert(chunk_bytes(h, prev_end) == gap + (record + hung));
        lemma_large_header_flags_len(h.fields);
        lemma_holds_both(data, prev_end, gap, record + hung);
        lemma_holds_both(data, h.fields.info_offset as int, record, hung);
    } else {
        let hung = info_bytes(h.fields.info_offset as int, h.fields.flags, h.handlers, h.debug_info);
        assert(chunk_bytes(h, prev_end) == gap + hung);
        lemma_holds_both(data, prev_end, gap, hung);
    }
    crate::function_header::lemma_small_header_flags(h.fields);
    crate::function_header::lemma_small_header_flags(crate::hermes_file::writer::spec_proxy_fields(h.fields));
    reveal(holds_at);
    lemma_header_reads_back(data, base + 16 * k, h, version);
}

impl HermesFile {
    /// Whether the file can be read again once it is written: each run of
    /// string kinds and each entry of the small string table fits the bits
    /// it is written in, the flags of each function header announce what
    /// the header has, and the debug header describes the debug section.
    pub open spec fn reads_again(&self) -> bool {
        let v = self.header.version;
        let views = self.header_views();
        &&& forall|i: int|
            0 <= i < self.string_kinds@.len() ==> (#[trigger] self.string_kinds@[i]).representable(v)
        &&& forall|i: int|
            0 <= i < self.string_storage@.len() ==> (#[trigger] self.string_storage@[i]).representable(
                v,
            )
        &&& forall|i: int|
            0 <= i < views.len() ==> info_agrees(
                (#[trigger] views[i]).fields.flags,
                views[i].handlers,
                views[i].debug_info,
                v,
            )
        &&& self.debug_info.in_step(v)
    }

    /// Whether the file's content is what `data` reads as: the header at
    /// the start, every section where the layout that the header calls for
    /// puts it, the debug section where the header says, and the footer
    /// behind it.
    pub open spec fn content_at(&self, data: Seq<u8>) -> bool {
        let l = spec_layout(self.header);
        &&& self.header.parses_at(data, 0)
        &&& self.headers_at(data, l)
        &&& self.tables_at(data, l)
        &&& self.tail_at(data)
    }
}

/// The string sections that stand where the layout puts them read back.
pub proof fn lemma_strings_parse(f: &HermesFile, l: Layout, data: Seq<u8>)
    requires
        f.counts_in_sync(),
        f.reads_again(),
        strings_hold(f, data, l),
    ensures
        is_table_at(f.string_kinds@, data, l.string_kinds as int, f.header.version),
        f.identifier_hashes@ == words_at(
            data,
            l.identifier_hashes as int,
            f.header.identifier_count as nat,
        ),
        f.string_storage@ == parse_table_at::<SmallStringTableEntry>(
            data,
            l.small_string_table as int,
            f.header.string_count as nat,
            f.header.version,
        ),
        f.overflow_string_storage@ == parse_table_at::<OverflowStringTableEntry>(
            data,
            l.overflow_string_table as int,
            f.header.overflow_string_count as nat,
            f.header.version,
        ),
        f.string_storage_bytes@ == data.subrange(
            l.string_storage as int,
            l.string_storage + f.header.string_storage_size,
        ),
{
    let v = f.header.version;
    lemma_table_reads_back(data, l.string_kinds as int, f.string_kinds@, v);
    lemma_words_read_back(data, l.identifier_hashes as int, f.identifier_hashes@);
    lemma_table_reads_back(data, l.small_string_table as int, f.string_storage@, v);
    lemma_table_reads_back(data, l.overflow_string_table as int, f.overflow_string_storage@, v);
    lemma_holds_room(data, l.string_storage as int, f.string_storage_bytes@);
}

/// The literal buffers that stand where the layout puts them read back.
pub proof fn lemma_buffers_parse(f: &HermesFile, l: Layout, data: Seq<u8>)
    requires
        f.counts_in_sync(),
        buffers_hold(f, data, l),
    ensures
        f.array_buffer_storage@ == data.subrange(
            l.array_buffer as int,
            l.array_buffer + f.header.array_buffer_size,
        ),
        f.object_key_buffer@ == data.subrange(
            l.object_key_buffer as int,
            l.object_key_buffer + f.header.obj_key_buffer_size,
        ),
        f.object_val_buffer@ == data.subrange(
            l.object_value_buffer as int,
            l.object_value_buffer + f.header.obj_value_buffer_size,
        ),
        f.header.version >= 87 ==> {
            &&& f.big_int_table@ == parse_table_at::<BigIntTableEntry>(
                data,
                l.big_int_table as int,
                f.header.big_int_count as nat,
                f.header.version,
            )
            &&& f.big_int_storage@ == data.subrange(
                l.big_int_storage as int,
                l.big_int_storage + f.header.big_int_storage_size,
            )
        },
{
    lemma_holds_room(data, l.array_buffer as int, f.array_buffer_storage@);
    lemma_holds_room(data, l.object_key_buffer as int, f.object_key_buffer@);
    lemma_holds_room(data, l.object_value_buffer as int, f.object_val_buffer@);
    if f.header.version >= 87 {
        lemma_table_reads_back(data, l.big_int_table as int, f.big_int_table@, f.header.version);
        lemma_holds_room(data, l.big_int_storage as int, f.big_int_storage@);
    }
}

/// The regular expressions, the CommonJS modules and the function sources
/// that stand where the layout puts them read back.
pub proof fn lemma_modules_parse(f: &HermesFile, l: Layout, data: Seq<u8>)
    requires
        f.counts_in_sync(),
        forall|i: int|
            0 <= i < f.cjs_modules@.len() ==> ((#[trigger] f.cjs_modules@[i]) is CJSModuleInt)
                == f.spec_cjs_as_integers(),
        modules_hold(f, data, l),
    ensures
        f.header.reg_exp_count > 0 ==> {
            &&& f.reg_exp_table@ == parse_table_at::<RegExpTableEntry>(
                data,
                l.reg_exp_table as int,
                f.header.reg_exp_count as nat,
                f.header.version,
            )
            &&& f.reg_exp_storage@ == data.subrange(
                l.reg_exp_storage as int,
                l.reg_exp_storage + f.header.reg_exp_storage_size,
            )
        },
        f.cjs_modules@ == cjs_at(
            data,
            l.cjs_modules as int,
            f.header.cjs_module_count as nat,
            f.header.version,
            f.spec_cjs_as_integers(),
        ),
        f.header.version >= 84 ==> f.function_source_entries@ == parse_table_at::<FunctionSourceEntry>(
            data,
            l.function_sources as int,
            f.header.function_source_count as nat,
            f.header.version,
        ),
{
    let v = f.header.version;
    if f.header.reg_exp_count > 0 {
        lemma_table_reads_back(data, l.reg_exp_table as int, f.reg_exp_table@, v);
        lemma_holds_room(data, l.reg_exp_storage as int, f.reg_exp_storage@);
    }
    lemma_cjs_reads_back(f.cjs_modules@, data, l.cjs_modules as int, v, f.spec_cjs_as_integers());
    if v >= 84 {
        lemma_table_reads_back(data, l.function_sources as int, f.function_source_entries@, v);
    }
}

/// The sections of a file that is laid out read back from bytes in which
/// they stand where the layout puts them.
pub proof fn lemma_tables_parse(f: &HermesFile, l: Layout, data: Seq<u8>)
    requires
        f.laid_out(l),
        f.reads_again(),
        l.end <= data.len(),
        strings_hold(f, data, l),
        buffers_hold(f, data, l),
        modules_hold(f, data, l),
    ensures
        f.tables_at(data, l),
{
    lemma_strings_parse(f, l, data);
    lemma_buffers_parse(f, l, data);
    lemma_modules_parse(f, l, data);
}

/// The function headers of a file that is laid out read back from bytes
/// that hold the header table and the tail.
pub proof fn lemma_headers_parse(f: &HermesFile, l: Layout, data: Seq<u8>)
    requires
        f.laid_out(l),
        f.reads_again(),
        holds_at(data, 128, slots_bytes(f.header_views())),
        holds_at(
            data,
            align4(f.bytecode_end(l)),
            tail_bytes(f.header_views(), align4(f.bytecode_end(l))),
        ),
    ensures
        f.headers_at(data, l),
{
    let views = f.header_views();
    let tail_start = align4(f.bytecode_end(l));
    lemma_laid_out_placed(f, l);
    assert forall|i: int| 0 <= i < f.header.function_count implies spec_function_header_at(
        data,
        l.function_headers + 16 * i,
        f.header.version,
    ) == Some((#[trigger] f.function_headers@[i])@) by {
        assert(views[i] == f.function_headers@[i]@);
        lemma_placed_header_reads_back(
            views,
            f.function_bytecode@,
            f.header.version,
            HermesFile::bytecode_start(l),
            tail_start,
            data,
            128,
            i,
        );
    }
}

/// The debug section and the footer of a file read back from bytes that
/// hold them one behind the other and end with the footer.
pub proof fn lemma_tail_parse(f: &HermesFile, data: Seq<u8>)
    requires
        f.debug_info.in_step(f.header.version),
        f.header.file_length == f.header.debug_info_offset + f.debug_info.spec_size() + 20,
        data.len() == f.header.file_length,
        holds_at(data, f.header.debug_info_offset as int, f.debug_info.spec_bytes()),
        holds_at(data, f.header.file_length - 20, f.footer@),
    ensures
        f.tail_at(data),
{
    lemma_debug_reads_back(&f.debug_info, data, f.header.debug_info_offset as int, f.header.version);
    f.debug_info.lemma_size();
    lemma_holds_room(data, f.header.file_length - 20, f.footer@);
}

/// A written file reads back: the content of a file that is laid out is
/// what the bytes that the file is written as read as, provided the file
/// can be read again.
pub proof fn lemma_written_file_parses(f: &HermesFile, l: Layout)
    requires
        f.laid_out(l),
        f.reads_again(),
    ensures
        f.content_at(f.spec_body() + f.footer@),
{
    let data = f.spec_body() + f.footer@;
    lemma_parts_hold(f, l);
    lemma_spec_layout(f.header);
    lemma_layout_unique(l, spec_layout(f.header), f.header);
    lemma_header_reads_back_at_start(f.header, data);
    lemma_headers_parse(f, l, data);
    lemma_holds_room(data, HermesFile::bytecode_start(l), bytecode_bytes(f.function_bytecode@));
    lemma_tables_parse(f, l, data);
    lemma_tail_parse(f, data);
}

impl DebugInfo {
    /// Whether two debug sections hold the same: the same header, file
    /// names, file regions and data.
    pub open spec fn same_content(&self, other: &DebugInfo) -> bool {
        &&& self.header == other.header
        &&& self.string_table@ == other.string_table@
        &&& self.string_storage@ == other.string_storage@
        &&& self.file_regions@ == other.file_regions@
        &&& self.sources_data_storage@ == other.sources_data_storage@
        &&& self.scope_desc_data_storage@ == other.scope_desc_data_storage@
        &&& self.textified_callee_storage@ == other.textified_callee_storage@
        &&& self.string_table_storage@ == other.string_table_storage@
    }
}

impl HermesFile {
    /// Whether two files hold the same, but for the decoded instructions
    /// and what they keep for reading: the same header, function headers,
    /// sections, debug section and footer.
    pub open spec fn same_content(&self, other: &HermesFile) -> bool {
        &&& self.header == other.header
        &&& self.header_views() == other.header_views()
        &&& self.same_sections(other)
        &&& self.debug_info.same_content(&other.debug_info)
        &&& self.footer == other.footer
    }
}

/// Two tables that the same records read as are the same table.
pub proof fn lemma_table_unique<T: Serializable>(
    a: Seq<T>,
    b: Seq<T>,
    data: Seq<u8>,
    start: int,
    version: u32,
)
    requires
        a.len() == b.len(),
        is_table_at(a, data, start, version),
        is_table_at(b, data, start, version),
    ensures
        a == b,
{
    assert forall|i: int| 0 <= i < a.len() implies a[i] == b[i] by {
        assert(T::spec_parse(record_at::<T>(data, start, i), version) == Some(a[i]));
        assert(T::spec_parse(record_at::<T>(data, start, i), version) == Some(b[i]));
    }
    assert(a =~= b);
}

/// Bytes read as one debug section only.
pub proof fn lemma_debug_unique(a: &DebugInfo, b: &DebugInfo, data: Seq<u8>, at: int, version: u32)
    requires
        a.parses_at(data, at, version),
        b.parses_at(data, at, version),
    ensures
        a.same_content(b),
{
    let hs = DebugInfoHeader::spec_size_for(version) as int;
    let regions = at + hs + 8 * a.header.filename_count + a.header.filename_storage_size;
    lemma_table_unique(a.string_table@, b.string_table@, data, at + hs, version);
    lemma_table_unique(a.file_regions@, b.file_regions@, data, regions, version);
}

impl HermesFile {
    /// Whether two files hold the same sections from the string kinds to
    /// the function sources.
    pub open spec fn same_sections(&self, other: &HermesFile) -> bool {
        &&& self.string_kinds@ == other.string_kinds@
        &&& self.identifier_hashes@ == other.identifier_hashes@
        &&& self.string_storage@ == other.string_storage@
        &&& self.overflow_string_storage@ == other.overflow_string_storage@
        &&& self.string_storage_bytes@ == other.string_storage_bytes@
        &&& self.array_buffer_storage@ == other.array_buffer_storage@
        &&& self.object_key_buffer@ == other.object_key_buffer@
        &&& self.object_val_buffer@ == other.object_val_buffer@
        &&& self.big_int_table@ == other.big_int_table@
        &&& self.big_int_storage@ == other.big_int_storage@
        &&& self.reg_exp_table@ == other.reg_exp_table@
        &&& self.reg_exp_storage@ == other.reg_exp_storage@
        &&& self.cjs_modules@ == other.cjs_modules@
        &&& self.function_source_entries@ == other.function_source_entries@
    }
}

/// Bytes read as one row of sections only.
pub proof fn lemma_tables_unique(a: &HermesFile, b: &HermesFile, data: Seq<u8>, l: Layout)
    requires
        a.header == b.header,
        a.tables_at(data, l),
        b.tables_at(data, l),
    ensures
        a.same_sections(b),
{
    lemma_table_unique(a.string_kinds@, b.string_kinds@, data, l.string_kinds as int, a.header.version);
    assert(a.big_int_table@ =~= b.big_int_table@);
    assert(a.big_int_storage@ =~= b.big_int_storage@);
    assert(a.reg_exp_table@ =~= b.reg_exp_table@);
    assert(a.reg_exp_storage@ =~= b.reg_exp_storage@);
    assert(a.function_source_entries@ =~= b.function_source_entries@);
}

/// Bytes read as one row of function headers only.
pub proof fn lemma_headers_unique(a: &HermesFile, b: &HermesFile, data: Seq<u8>, l: Layout)
    requires
        a.header == b.header,
        a.headers_at(data, l),
        b.headers_at(data, l),
    ensures
        a.header_views() == b.header_views(),
{
    assert forall|i: int| 0 <= i < a.header_views().len() implies a.header_views()[i]
        == b.header_views()[i] by {
        assert(Some(a.function_headers@[i]@) == Some(b.function_headers@[i]@));
    }
    assert(a.header_views() =~= b.header_views());
}

/// Bytes read as one debug section and one footer only.
pub proof fn lemma_tail_unique(a: &HermesFile, b: &HermesFile, data: Seq<u8>)
    requires
        a.header == b.header,
        a.tail_at(data),
        b.tail_at(data),
    ensures
        a.debug_info.same_content(&b.debug_info),
        a.footer == b.footer,
{
    broadcast use vstd::array::axiom_array_ext_equal;

    lemma_debug_unique(
        &a.debug_info,
        &b.debug_info,
        data,
        a.header.debug_info_offset as int,
        a.header.version,
    );
    assert(a.footer@ =~= b.footer@);
}

/// Bytes read as one file only: two files whose content is what the same
/// bytes read as hold the same.
pub proof fn lemma_content_unique(a: &HermesFile, b: &HermesFile, data: Seq<u8>)
    requires
        a.content_at(data),
        b.content_at(data),
    ensures
        a.same_content(b),
{
    lemma_header_parse_unique(a.header, b.header, data, 0);
    let l = spec_layout(a.header);
    lemma_headers_unique(a, b, data, l);
    lemma_tables_unique(a, b, data, l);
    lemma_tail_unique(a, b, data);
}

/// A file that is read from the bytes that a file was written as holds
/// what the written file holds, provided the written file can be read again.
pub proof fn lemma_written_file_reads_back(f: &HermesFile, l: Layout, g: &HermesFile)
    requires
        f.laid_out(l),
        f.reads_again(),
        g.read_from(f.spec_body() + f.footer@),
    ensures
        g.same_content(f),
{
    lemma_written_file_parses(f, l);
    lemma_content_unique(g, f, f.spec_body() + f.footer@);
}

/// Where the function headers of one file are what `data` reads as, so
/// are those of every file with the same header and function headers.
pub proof fn lemma_headers_carry(a: &HermesFile, b: &HermesFile, data: Seq<u8>, l: Layout)
    requires
        a.header == b.header,
        a.header_views() == b.header_views(),
        a.headers_at(data, l),
    ensures
        b.headers_at(data, l),
{
    assert(b.header_views().len() == a.header_views().len());
    assert(b.header_views().len() == b.function_headers@.len());
    assert(a.header_views().len() == a.function_headers@.len());
    assert forall|i: int| 0 <= i < b.header.function_count implies spec_function_header_at(
        data,
        l.function_headers + 16 * i,
        b.header.version,
    ) == Some((#[trigger] b.function_headers@[i])@) by {
        assert(a.header_views()[i] == a.function_headers@[i]@);
        assert(b.header_views()[i] == b.function_headers@[i]@);
    }
}

/// Where the sections of one file are what `data` reads as, so are those
/// of every file with the same header and sections.
pub proof fn lemma_tables_carry(a: &HermesFile, b: &HermesFile, data: Seq<u8>, l: Layout)
    requires
        a.header == b.header,
        a.same_sections(b),
        a.tables_at(data, l),
    ensures
        b.tables_at(data, l),
{
}

/// Where the debug section and the footer of one file are what `data`
/// reads as, so are those of every file with the same header, debug section
/// and footer.
pub proof fn lemma_tail_carries(a: &HermesFile, b: &HermesFile, data: Seq<u8>)
    requires
        a.header == b.header,
        a.debug_info.same_content(&b.debug_info),
        a.footer == b.footer,
        a.tail_at(data),
    ensures
        b.tail_at(data),
{
}

/// Where the function headers of one file are what `data` reads as, so are
/// those of a file that has them and the header from it.
pub proof fn lemma_headers_kept(a: &HermesFile, b: &HermesFile, data: Seq<u8>, l: Layout)
    requires
        a.header == b.header,
        a.function_headers == b.function_headers,
        a.headers_at(data, l),
    ensures
        b.headers_at(data, l),
{
    assert(a.header_views() =~= b.header_views());
    lemma_headers_carry(a, b, data, l);
}

/// Where the function headers and sections of one file are what `data`
/// reads as, so are those of a file that differs from it in its debug
/// section, its footer and its reader alone.
pub proof fn lemma_front_kept(a: &HermesFile, b: &HermesFile, data: Seq<u8>, l: Layout)
    requires
        *b == (HermesFile { debug_info: b.debug_info, footer: b.footer, reader: b.reader, ..*a }),
        a.headers_at(data, l),
        a.tables_at(data, l),
    ensures
        b.headers_at(data, l),
        b.tables_at(data, l),
{
    lemma_headers_kept(a, b, data, l);
    lemma_tables_carry(a, b, data, l);
}

/// What bytes read as is a matter of content alone: where the content of
/// one file is what `data` reads as, so is that of every file that holds
/// the same.
pub proof fn lemma_content_carries(a: &HermesFile, b: &HermesFile, data: Seq<u8>)
    requires
        a.content_at(data),
        a.same_content(b),
    ensures
        b.content_at(data),
{
    let l = spec_layout(a.header);
    lemma_headers_carry(a, b, data, l);
    lemma_tables_carry(a, b, data, l);
    lemma_tail_carries(a, b, data);
}

/// A written file can be read: a file that holds what the written file
/// `f` holds, has no decoded instructions and keeps for reading the bytes
/// that `f` is written as, is read from those bytes.
pub proof fn lemma_written_file_is_read(f: &HermesFile, l: Layout, g: &HermesFile)
    requires
        f.laid_out(l),
        f.reads_again(),
        f.same_content(g),
        g.reader.data@ == f.spec_body() + f.footer@,
        g.function_bytecode@.len() == 0,
    ensures
        g.read_from(f.spec_body() + f.footer@),
{
    lemma_written_file_parses(f, l);
    lemma_content_carries(f, g, f.spec_body() + f.footer@);
}

/// The footer of a file that was read from what a file was written as
/// verifies: `verify_footer` does not fail on it.
pub proof fn lemma_written_file_verifies(f: &HermesFile, l: Layout, g: &HermesFile)
    requires
        f.laid_out(l),
        f.reads_again(),
        f.footer@ == sha1_of(f.spec_body()),
        g.read_from(f.spec_image()),
    ensures
        g.reader.data@.len() >= 20,
        g.footer@ == sha1_of(g.reader.data@.subrange(0, g.reader.data@.len() - 20)),
{
    let body = f.spec_body();
    let data = body + f.footer@;
    lemma_written_file_reads_back(f, l, g);
    assert(f.footer@.len() == 20);
    assert(data.subrange(0, data.len() - 20) =~= body);
}

/// Each function header of a written file reads back from what the file
/// is written as, at its slot in the header table.
pub proof fn lemma_written_header_reads_back(f: &HermesFile, l: Layout, i: int)
    requires
        f.laid_out(l),
        f.reads_again(),
        0 <= i < f.function_headers@.len(),
    ensures
        spec_function_header_at(f.spec_body() + f.footer@, 128 + 16 * i, f.header.version) == Some(
            f.header_views()[i],
        ),
{
    let data = f.spec_body() + f.footer@;
    lemma_parts_hold(f, l);
    lemma_headers_parse(f, l, data);
    assert(f.header_views()[i] == f.function_headers@[i]@);
    assert(spec_function_header_at(data, l.function_headers + 16 * i, f.header.version) == Some(
        f.function_headers@[i]@,
    ));
}

/// A function header with a number above `2^17 - 1` is held as a plain
/// record once the file is written: the header that `after` has in its
/// place is marked overflowed and fits the plain record, and has the
/// numbers, flags, handlers and debug offsets that the header had, but for
/// the places of its bytecode and of its part of the tail.
pub proof fn lemma_over_range_header_is_promoted(before: &HermesFile, after: &HermesFile, i: int)
    requires
        after.is_written_from(before),
        0 <= i < before.function_headers@.len(),
        before.function_headers@[i].fields().overflows(),
    ensures
        after.function_headers@.len() == before.function_headers@.len(),
        ({
            let old = before.function_headers@[i]@;
            let new = after.header_views()[i];
            &&& new.is_large
            &&& new.fields.flags.overflowed
            &&& new.fields.fits_large()
            &&& new.handlers == old.handlers
            &&& new.debug_info == old.debug_info
            &&& new.fields == (FunctionHeaderFields {
                offset: new.fields.offset,
                byte_size: new.fields.byte_size,
                info_offset: new.fields.info_offset,
                flags: FunctionHeaderFlag { overflowed: true, ..old.fields.flags },
                ..old.fields
            })
        }),
{
    let l = choose|l: Layout|
        after.laid_out(l) && (#[trigger] (HermesFile {
            footer: before.footer,
            ..*after
        }).is_prepared_from(before, l));
    let ready = HermesFile { footer: before.footer, ..*after };
    assert(ready.is_prepared_from(before, l));
    assert(ready.header_views() =~= after.header_views());
    let views = after.header_views();
    assert(placed_from(
        views[i],
        before.function_headers@[i]@,
        tail_end(views, i, align4(ready.bytecode_end(l))),
    ));
    assert(after.header_placed(l, i));
}

/// A function header with a number above `2^17 - 1` is written as a slot
/// that is marked overflowed and as a plain record, from which it reads
/// back: where the written file can be read again, the header read at the
/// slot is the header that `after` has, held as a plain record.
pub proof fn lemma_promoted_header_reads_back(before: &HermesFile, after: &HermesFile, i: int)
    requires
        after.is_written_from(before),
        after.reads_again(),
        0 <= i < before.function_headers@.len(),
        before.function_headers@[i].fields().overflows(),
    ensures
        after.header_views()[i].is_large,
        spec_function_header_at(
            after.spec_body() + after.footer@,
            128 + 16 * i,
            after.header.version,
        ) == Some(after.header_views()[i]),
{
    lemma_over_range_header_is_promoted(before, after, i);
    let l = choose|l: Layout|
        after.laid_out(l) && (#[trigger] (HermesFile {
            footer: before.footer,
            ..*after
        }).is_prepared_from(before, l));
    lemma_written_header_reads_back(after, l, i);
}

/// Files that hold the same sections hold the same strings, with the
/// same kinds: what `get_strings_by_kind` gives for a file that was read
/// from what a file was written as is what it gives for the written file.
pub proof fn lemma_same_strings(a: &HermesFile, b: &HermesFile)
    requires
        a.same_sections(b),
    ensures
        a.kinds_readable() == b.kinds_readable(),
        a.spec_strings_by_kind() == b.spec_strings_by_kind(),
        forall|i: int| a.spec_string(i) == b.spec_string(i),
{
    assert forall|i: int| a.spec_string(i) == b.spec_string(i) by {}
    assert(a.spec_strings_by_kind() =~= b.spec_strings_by_kind());
}

/// Bytes that the content of a file is read from are not unreadable
/// behind a header that they read as.
pub proof fn lemma_content_is_readable(f: &HermesFile, data: Seq<u8>, h: HermesHeader)
    requires
        f.content_at(data),
        f.debug_info.in_step(f.header.version),
        h.parses_at(data, 0),
    ensures
        !HermesFile::unreadable_behind(h, data),
{
    lemma_header_parse_unique(h, f.header, data, 0);
    lemma_spec_layout(h);
    let l = spec_layout(h);
    assert(!HermesFile::headers_unreadable(h, data)) by {
        assert forall|i: int| 0 <= i < h.function_count implies (#[trigger] spec_function_header_at(
            data,
            128 + 16 * i,
            h.version,
        )) is Some by {
            assert(spec_function_header_at(data, l.function_headers + 16 * i, h.version) == Some(
                f.function_headers@[i]@,
            ));
        }
    }
    assert(!HermesFile::tables_unreadable(h, data)) by {
        assert(l.end <= data.len());
        assert forall|i: int| 0 <= i < h.string_kind_count implies StringKindEntry::spec_parse(
            #[trigger] record_at::<StringKindEntry>(data, l.string_kinds as int, i),
            h.version,
        ) is Some by {
            assert(StringKindEntry::spec_parse(
                record_at::<StringKindEntry>(data, l.string_kinds as int, i),
                h.version,
            ) == Some(f.string_kinds@[i]));
        }
    }
    assert(f.tail_at(data));
    assert(!HermesFile::debug_unreadable(h, data));
    assert(!HermesFile::footer_missing(h, data));
}

/// What a file is written as can be read, provided the file can be read
/// again: `deserialize` does not fail on it.
pub proof fn lemma_written_file_is_readable(f: &HermesFile, l: Layout)
    requires
        f.laid_out(l),
        f.reads_again(),
    ensures
        !HermesFile::spec_unreadable(f.spec_body() + f.footer@),
{
    let data = f.spec_body() + f.footer@;
    lemma_written_file_parses(f, l);
    lemma_parts_hold(f, l);
    lemma_holds_room(data, 0, f.header.spec_bytes());
    assert forall|h: HermesHeader| #[trigger] h.parses_at(data, 0) implies !HermesFile::unreadable_behind(
        h,
        data,
    ) by {
        lemma_content_is_readable(f, data, h);
    }
}

/// Writing, then reading: where `out` is what a file was written as, the
/// written file `f` being the state in which writing left it, a file that
/// is read from `out` holds what `f` holds, provided `f` can be read again.
pub proof fn lemma_serialized_reads_back(f: &HermesFile, before: &HermesFile, out: Seq<u8>, g: &HermesFile)
    requires
        f.is_written_from(before),
        f.footer@ == sha1_of(f.spec_body()),
        out == f.spec_image(),
        f.reads_again(),
        g.read_from(out),
    ensures
        g.same_content(f),
{
    let l = choose|l: Layout|
        f.laid_out(l) && (#[trigger] (HermesFile { footer: before.footer, ..*f }).is_prepared_from(
            before,
            l,
        ));
    lemma_written_file_reads_back(f, l, g);
}

} // verus!
