//! Writing a file that was read.
//!
//! A file that is read from the bytes that a file was written as, and
//! whose instructions are decoded from those bytes, is written as the same
//! bytes again.

use vstd::prelude::*;
use crate::function_header::FunctionHeaderView;
use crate::hermes_file::read_back::{
    all_placed, holds_at, lemma_bytecode_bytes_len, lemma_holds_both, lemma_holds_room,
};
use crate::hermes_file::read_back::lemma_chunk_bytes_len;
use crate::hermes_file::writer::{
    bytecode_bytes, chunk_end, header_placed_in, instructions_bytes,
    lemma_instructions_bytes_len, lemma_planned_code_step, lemma_planned_tail_step, place_step,
    placed_from, planned_code_end, planned_tail_end, tail_end,
};
use crate::hermes_file::builder::spec_bytecode_size;
use crate::header::HermesHeader;
use crate::hermes_file::{FunctionInstructions, HermesFile};
use crate::instruction::{
    instructions_view, lemma_decoded_stream_bytes, lemma_stream_bytes_push,
    lemma_stream_round_trip, spec_decode_stream, stream_bytes, stream_well_formed,
    HermesInstruction,
};
use crate::digest::sha1_of;
use crate::hermes_file::read_back::{
    lemma_laid_out_placed, lemma_parts_hold, lemma_written_file_reads_back, parts_hold,
};
use crate::layout::{
    align4, is_layout_of, lemma_align4_bounds, lemma_layout_unique, lemma_spec_layout,
    spec_layout, Layout,
};

verus! {

/// The bytes that a row of instructions is written as are those of the
/// row's plain values.
pub proof fn lemma_instructions_bytes_of_view(list: Seq<HermesInstruction>)
    ensures
        instructions_bytes(list) == stream_bytes(instructions_view(list)),
    decreases list.len(),
{
    if list.len() > 0 {
        let front = list.drop_last();
        lemma_instructions_bytes_of_view(front);
        lemma_stream_bytes_push(instructions_view(front), list.last()@);
        assert(instructions_view(list) =~= instructions_view(front).push(list.last()@));
    } else {
        assert(instructions_view(list) =~= Seq::empty());
    }
}

/// Instructions that were decoded from some bytes are written as those bytes.
pub proof fn lemma_decoded_instructions_bytes(bytes: Seq<u8>, version: u32, list: Seq<HermesInstruction>)
    requires
        spec_decode_stream(bytes, version) == Some(instructions_view(list)),
    ensures
        instructions_bytes(list) == bytes,
{
    lemma_decoded_stream_bytes(bytes, version);
    lemma_instructions_bytes_of_view(list);
}

/// Where the bytecode of the first `i` placed functions stands from
/// `code_start` on, the bytecode of function `k` stands where its header says.
pub proof fn lemma_function_code_holds(
    views: Seq<FunctionHeaderView>,
    functions: Seq<FunctionInstructions>,
    version: u32,
    code_start: int,
    tail_start: int,
    whole: Seq<u8>,
    i: int,
    k: int,
)
    requires
        all_placed(views, functions, version, code_start, tail_start),
        0 <= k < i <= views.len(),
        holds_at(whole, code_start, bytecode_bytes(functions.take(i))),
    ensures
        holds_at(whole, views[k].fields.offset as int, instructions_bytes(functions[k].bytecode@)),
        instructions_bytes(functions[k].bytecode@).len() == views[k].fields.byte_size,
    decreases i,
{
    let front = functions.take(i - 1);
    assert(functions.take(i).drop_last() =~= front);
    assert(functions.take(i).last() == functions[i - 1]);
    lemma_bytecode_bytes_len(views, functions, version, code_start, tail_start, i - 1);
    assert(header_placed_in(views, functions, version, code_start, tail_start, i - 1));
    lemma_holds_both(
        whole,
        code_start,
        bytecode_bytes(front),
        instructions_bytes(functions[i - 1].bytecode@),
    );
    if k < i - 1 {
        lemma_function_code_holds(views, functions, version, code_start, tail_start, whole, i - 1, k);
    } else {
        lemma_instructions_bytes_len(functions[k].bytecode@);
    }
}

/// Functions whose instructions are written as the same bytes, one for
/// one, have the same bytecode.
pub proof fn lemma_bytecode_bytes_same(a: Seq<FunctionInstructions>, b: Seq<FunctionInstructions>)
    requires
        a.len() == b.len(),
        forall|i: int|
            0 <= i < a.len() ==> instructions_bytes((#[trigger] a[i]).bytecode@) == instructions_bytes(
                b[i].bytecode@,
            ),
    ensures
        bytecode_bytes(a) == bytecode_bytes(b),
    decreases a.len(),
{
    if a.len() > 0 {
        let fa = a.drop_last();
        let fb = b.drop_last();
        assert forall|i: int| 0 <= i < fa.len() implies instructions_bytes(
            (#[trigger] fa[i]).bytecode@,
        ) == instructions_bytes(fb[i].bytecode@) by {
            assert(fa[i] == a[i]);
            assert(fb[i] == b[i]);
        }
        lemma_bytecode_bytes_same(fa, fb);
        assert(a.last() == a[a.len() - 1]);
        assert(b.last() == b[b.len() - 1]);
    }
}

/// Whether the functions of two lists take the same number of bytes, one
/// for one.
pub open spec fn same_sizes(a: Seq<FunctionInstructions>, b: Seq<FunctionInstructions>) -> bool {
    &&& a.len() == b.len()
    &&& forall|i: int|
        0 <= i < a.len() ==> spec_bytecode_size((#[trigger] a[i]).bytecode@) == spec_bytecode_size(
            b[i].bytecode@,
        )
}

/// Headers that are placed over functions of the same sizes, from the same
/// offset on, give the same place to the bytecode of each function.
pub proof fn lemma_code_placed_alike(
    old_views: Seq<FunctionHeaderView>,
    old_functions: Seq<FunctionInstructions>,
    new_views: Seq<FunctionHeaderView>,
    new_functions: Seq<FunctionInstructions>,
    version: u32,
    code_start: int,
    old_tail: int,
    new_tail: int,
    k: int,
)
    requires
        all_placed(old_views, old_functions, version, code_start, old_tail),
        all_placed(new_views, new_functions, version, code_start, new_tail),
        same_sizes(new_functions, old_functions),
        0 <= k < old_views.len(),
    ensures
        new_views[k].fields.offset == old_views[k].fields.offset,
        new_views[k].fields.byte_size == old_views[k].fields.byte_size,
    decreases k,
{
    if k > 0 {
        lemma_code_placed_alike(
            old_views,
            old_functions,
            new_views,
            new_functions,
            version,
            code_start,
            old_tail,
            new_tail,
            k - 1,
        );
    }
    assert(header_placed_in(old_views, old_functions, version, code_start, old_tail, k));
    assert(header_placed_in(new_views, new_functions, version, code_start, new_tail, k));
    assert(spec_bytecode_size(new_functions[k].bytecode@) == spec_bytecode_size(
        old_functions[k].bytecode@,
    ));
}

/// Placing headers that are placed already changes nothing: headers that
/// are placed from placed headers, over functions of the same sizes and
/// from the same offsets on, are those headers.
pub proof fn lemma_placed_alike(
    old_views: Seq<FunctionHeaderView>,
    old_functions: Seq<FunctionInstructions>,
    new_views: Seq<FunctionHeaderView>,
    new_functions: Seq<FunctionInstructions>,
    version: u32,
    code_start: int,
    tail_start: int,
    k: int,
)
    requires
        all_placed(old_views, old_functions, version, code_start, tail_start),
        all_placed(new_views, new_functions, version, code_start, tail_start),
        same_sizes(new_functions, old_functions),
        forall|i: int|
            0 <= i < new_views.len() ==> placed_from(
                #[trigger] new_views[i],
                old_views[i],
                tail_end(new_views, i, tail_start),
            ),
        0 <= k < old_views.len(),
    ensures
        new_views[k] == old_views[k],
    decreases k,
{
    if k > 0 {
        lemma_placed_alike(
            old_views,
            old_functions,
            new_views,
            new_functions,
            version,
            code_start,
            tail_start,
            k - 1,
        );
    }
    lemma_code_placed_alike(
        old_views,
        old_functions,
        new_views,
        new_functions,
        version,
        code_start,
        tail_start,
        tail_start,
        k,
    );
    let prev_end = tail_end(new_views, k, tail_start);
    assert(prev_end == tail_end(old_views, k, tail_start));
    assert(header_placed_in(old_views, old_functions, version, code_start, tail_start, k));
    assert(header_placed_in(new_views, new_functions, version, code_start, tail_start, k));
    assert(placed_from(new_views[k], old_views[k], prev_end));
    let was = old_views[k];
    let now = new_views[k];
    if !was.is_large {
        assert(was.fields.info_offset == prev_end);
        assert(prev_end as u32 == was.fields.info_offset);
    }
    assert(now.is_large == was.is_large);
    assert(now.fields.info_offset == was.fields.info_offset);
    assert(now.fields == was.fields);
}

/// Whether the instructions of each function of `a` are written as the
/// bytes that those of the same function of `b` are written as.
pub open spec fn same_code(a: Seq<FunctionInstructions>, b: Seq<FunctionInstructions>) -> bool {
    &&& a.len() == b.len()
    &&& forall|i: int|
        0 <= i < a.len() ==> instructions_bytes((#[trigger] a[i]).bytecode@) == instructions_bytes(
            b[i].bytecode@,
        )
}

/// Functions whose instructions are written as the same bytes take the
/// same number of bytes.
pub proof fn lemma_same_code_sizes(a: Seq<FunctionInstructions>, b: Seq<FunctionInstructions>)
    requires
        same_code(a, b),
    ensures
        same_sizes(a, b),
{
    assert forall|i: int| 0 <= i < a.len() implies spec_bytecode_size((#[trigger] a[i]).bytecode@)
        == spec_bytecode_size(b[i].bytecode@) by {
        lemma_instructions_bytes_len(a[i].bytecode@);
        lemma_instructions_bytes_len(b[i].bytecode@);
    }
}

/// The instructions that a file keeps once they are decoded, where it kept
/// none before, are those that were decoded.
pub proof fn lemma_decoded_list(g: &HermesFile, loaded: &HermesFile)
    requires
        g.function_bytecode@.len() == 0,
        loaded.decoded_from(g),
    ensures
        g.is_decoded_list(loaded.function_bytecode@),
{
    let all = loaded.function_bytecode@;
    assert(all.subrange(0, all.len() as int) =~= all);
}

/// The instructions that are decoded from a written file are written as
/// the bytes that the instructions of the written file were written as.
pub proof fn lemma_decoded_code(f: &HermesFile, l: Layout, g: &HermesFile, loaded: &HermesFile)
    requires
        f.laid_out(l),
        g.header_views() == f.header_views(),
        g.header.version == f.header.version,
        g.reader.data@ == f.spec_body() + f.footer@,
        g.function_bytecode@.len() == 0,
        loaded.decoded_from(g),
    ensures
        same_code(loaded.function_bytecode@, f.function_bytecode@),
{
    lemma_decoded_list(g, loaded);
    assert(g.header_views().len() == g.function_headers@.len());
    assert(f.header_views().len() == f.function_headers@.len());
    assert forall|i: int| 0 <= i < loaded.function_bytecode@.len() implies instructions_bytes(
        (#[trigger] loaded.function_bytecode@[i]).bytecode@,
    ) == instructions_bytes(f.function_bytecode@[i].bytecode@) by {
        lemma_function_bytes(f, l, g, i);
        lemma_decoded_instructions_bytes(
            instructions_bytes(f.function_bytecode@[i].bytecode@),
            g.header.version,
            loaded.function_bytecode@[i].bytecode@,
        );
    }
}

/// What a file is written as before its footer is a matter of its header,
/// its function headers, its sections, the bytes of its instructions and its
/// debug section.
pub proof fn lemma_same_body(a: &HermesFile, b: &HermesFile)
    requires
        a.header == b.header,
        a.header_views() == b.header_views(),
        a.same_sections(b),
        bytecode_bytes(a.function_bytecode@) == bytecode_bytes(b.function_bytecode@),
        a.debug_info.same_content(&b.debug_info),
    ensures
        a.spec_body() == b.spec_body(),
{
    let s1 = a.header.spec_bytes() + crate::hermes_file::writer::slots_bytes(a.header_views());
    assert(a.spec_with_strings(s1) == b.spec_with_strings(s1));
    let s6 = a.spec_with_strings(s1);
    assert(a.spec_with_buffers(s6) == b.spec_with_buffers(s6));
    let s10 = a.spec_with_buffers(s6);
    assert(a.spec_with_modules(s10) == b.spec_with_modules(s10));
    assert(a.spec_with_tables(s1) == b.spec_with_tables(s1));
    assert(a.debug_info.spec_bytes() == b.debug_info.spec_bytes());
}

/// Whether two headers count the same and are of the same version, with
/// the same options.
pub open spec fn same_counts(a: HermesHeader, b: HermesHeader) -> bool {
    &&& a.version == b.version
    &&& a.options == b.options
    &&& a.function_count == b.function_count
    &&& a.string_kind_count == b.string_kind_count
    &&& a.identifier_count == b.identifier_count
    &&& a.string_count == b.string_count
    &&& a.overflow_string_count == b.overflow_string_count
    &&& a.string_storage_size == b.string_storage_size
    &&& a.big_int_count == b.big_int_count
    &&& a.big_int_storage_size == b.big_int_storage_size
    &&& a.reg_exp_count == b.reg_exp_count
    &&& a.reg_exp_storage_size == b.reg_exp_storage_size
    &&& a.array_buffer_size == b.array_buffer_size
    &&& a.obj_key_buffer_size == b.obj_key_buffer_size
    &&& a.obj_value_buffer_size == b.obj_value_buffer_size
    &&& a.cjs_module_count == b.cjs_module_count
    &&& a.function_source_count == b.function_source_count
}

/// Headers that count the same call for the same layout.
pub proof fn lemma_same_counts_layout(a: HermesHeader, b: HermesHeader, la: Layout, lb: Layout)
    requires
        same_counts(a, b),
        is_layout_of(la, a),
        is_layout_of(lb, b),
    ensures
        la == lb,
{
    assert(is_layout_of(la, b));
    lemma_layout_unique(la, lb, b);
}

/// Files in step with their headers that hold the same sections and as
/// many function headers have headers that count the same, provided the
/// headers are of the same version and have the same options.
pub proof fn lemma_same_sections_counts(a: &HermesFile, b: &HermesFile)
    requires
        a.counts_in_sync(),
        b.counts_in_sync(),
        a.same_sections(b),
        a.function_headers@.len() == b.function_headers@.len(),
        a.header.version == b.header.version,
        a.header.options == b.header.options,
    ensures
        same_counts(a.header, b.header),
{
}

/// A file that is laid out again from a file that is laid out, over
/// instructions that are written as the same bytes, has the same function
/// headers.
pub proof fn lemma_laid_out_again(f: &HermesFile, l: Layout, before: &HermesFile, again: &HermesFile)
    requires
        f.laid_out(l),
        again.laid_out(l),
        again.header.version == f.header.version,
        before.header_views() == f.header_views(),
        again.header_views().len() == f.header_views().len(),
        same_code(again.function_bytecode@, f.function_bytecode@),
        forall|i: int|
            0 <= i < again.header_views().len() ==> placed_from(
                #[trigger] again.header_views()[i],
                before.function_headers@[i]@,
                tail_end(again.header_views(), i, align4(again.bytecode_end(l))),
            ),
    ensures
        again.header_views() == f.header_views(),
{
    let old_views = f.header_views();
    let new_views = again.header_views();
    let n = old_views.len() as int;
    let version = f.header.version;
    let code_start = HermesFile::bytecode_start(l);
    let old_tail = align4(f.bytecode_end(l));
    let new_tail = align4(again.bytecode_end(l));
    lemma_laid_out_placed(f, l);
    lemma_laid_out_placed(again, l);
    lemma_same_code_sizes(again.function_bytecode@, f.function_bytecode@);
    if n > 0 {
        lemma_code_placed_alike(
            old_views,
            f.function_bytecode@,
            new_views,
            again.function_bytecode@,
            version,
            code_start,
            old_tail,
            new_tail,
            n - 1,
        );
        assert(old_views[n - 1] == f.function_headers@[n - 1]@);
        assert(new_views[n - 1] == again.function_headers@[n - 1]@);
    }
    assert(new_tail == old_tail);
    assert(before.header_views().len() == before.function_headers@.len());
    assert forall|i: int| 0 <= i < new_views.len() implies placed_from(
        #[trigger] new_views[i],
        old_views[i],
        tail_end(new_views, i, old_tail),
    ) by {
        assert(before.header_views()[i] == before.function_headers@[i]@);
    }
    assert forall|k: int| 0 <= k < n implies new_views[k] == old_views[k] by {
        lemma_placed_alike(
            old_views,
            f.function_bytecode@,
            new_views,
            again.function_bytecode@,
            version,
            code_start,
            old_tail,
            k,
        );
    }
    assert(new_views =~= old_views);
}

/// Where the bytecode of the first `i` placed functions ends.
pub open spec fn code_end(views: Seq<FunctionHeaderView>, code_start: int, i: int) -> int {
    if i <= 0 {
        code_start
    } else {
        views[i - 1].fields.offset + views[i - 1].fields.byte_size
    }
}

/// The bytecode and the tail of placed functions end no earlier with more
/// functions.
pub proof fn lemma_ends_rise(
    views: Seq<FunctionHeaderView>,
    functions: Seq<FunctionInstructions>,
    version: u32,
    code_start: int,
    tail_start: int,
    i: int,
)
    requires
        all_placed(views, functions, version, code_start, tail_start),
        0 <= i <= views.len(),
    ensures
        code_start <= code_end(views, code_start, i) <= code_end(
            views,
            code_start,
            views.len() as int,
        ),
        tail_start <= tail_end(views, i, tail_start) <= tail_end(
            views,
            views.len() as int,
            tail_start,
        ),
    decreases views.len() - i,
{
    if i < views.len() {
        lemma_ends_rise(views, functions, version, code_start, tail_start, i + 1);
        assert(header_placed_in(views, functions, version, code_start, tail_start, i));
        lemma_chunk_bytes_len(views[i], tail_end(views, i, tail_start));
        assert(tail_end(views, i, tail_start) <= chunk_end(views[i])) by {
            crate::layout::lemma_align4_bounds(tail_end(views, i, tail_start));
        }
    }
    if i > 0 {
        lemma_ends_rise_from_start(views, functions, version, code_start, tail_start, i);
    }
}

/// The bytecode and the tail of placed functions end no earlier than they start.
pub proof fn lemma_ends_rise_from_start(
    views: Seq<FunctionHeaderView>,
    functions: Seq<FunctionInstructions>,
    version: u32,
    code_start: int,
    tail_start: int,
    i: int,
)
    requires
        all_placed(views, functions, version, code_start, tail_start),
        0 <= i <= views.len(),
    ensures
        code_start <= code_end(views, code_start, i),
        tail_start <= tail_end(views, i, tail_start),
    decreases i,
{
    if i > 0 {
        lemma_ends_rise_from_start(views, functions, version, code_start, tail_start, i - 1);
        assert(header_placed_in(views, functions, version, code_start, tail_start, i - 1));
        lemma_chunk_bytes_len(views[i - 1], tail_end(views, i - 1, tail_start));
    }
}

/// The plan for the bytecode of functions that are numbered by their place
/// and take as many bytes as functions that are placed is where those are
/// placed.
pub proof fn lemma_planned_code(
    views: Seq<FunctionHeaderView>,
    placed: Seq<FunctionInstructions>,
    functions: Seq<FunctionInstructions>,
    version: u32,
    code_start: int,
    tail_start: int,
    i: int,
)
    requires
        all_placed(views, placed, version, code_start, tail_start),
        same_sizes(functions, placed),
        forall|k: int| 0 <= k < functions.len() ==> (#[trigger] functions[k]).func_index == k,
        code_end(views, code_start, views.len() as int) <= u32::MAX,
        0 <= i <= views.len(),
    ensures
        planned_code_end(functions, code_start, i) == Some(code_end(views, code_start, i)),
    decreases i,
{
    lemma_ends_rise(views, placed, version, code_start, tail_start, i);
    lemma_planned_code_step(functions, code_start, 0);
    if i > 0 {
        lemma_planned_code(views, placed, functions, version, code_start, tail_start, i - 1);
        lemma_planned_code_step(functions, code_start, i - 1);
        assert(header_placed_in(views, placed, version, code_start, tail_start, i - 1));
        assert(functions[i - 1].func_index == i - 1);
        assert(spec_bytecode_size(functions[i - 1].bytecode@) == spec_bytecode_size(
            placed[i - 1].bytecode@,
        ));
    }
}

/// Placing a header that is placed already gives that header, and the end
/// of its part of the tail.
pub proof fn lemma_place_step_fixed(
    views: Seq<FunctionHeaderView>,
    functions: Seq<FunctionInstructions>,
    version: u32,
    code_start: int,
    tail_start: int,
    i: int,
)
    requires
        all_placed(views, functions, version, code_start, tail_start),
        0 <= i < views.len(),
        tail_end(views, views.len() as int, tail_start) <= u32::MAX,
    ensures
        place_step(
            views[i],
            views[i].fields.offset as int,
            views[i].fields.byte_size as int,
            tail_end(views, i, tail_start),
            version,
        ) == Some((views[i], chunk_end(views[i]))),
{
    let h = views[i];
    let prev_end = tail_end(views, i, tail_start);
    lemma_ends_rise(views, functions, version, code_start, tail_start, i);
    lemma_ends_rise(views, functions, version, code_start, tail_start, i + 1);
    assert(header_placed_in(views, functions, version, code_start, tail_start, i));
    lemma_chunk_bytes_len(h, prev_end);
    if !h.is_large {
        assert(prev_end as u32 == h.fields.info_offset);
    }
    let candidate = crate::function_header::FunctionHeaderFields {
        offset: h.fields.offset,
        byte_size: h.fields.byte_size,
        info_offset: prev_end as u32,
        ..h.fields
    };
    let is_large = h.is_large || h.fields.flags.overflowed || h.fields.overflows()
        || candidate.overflows() || !candidate.fits_small();
    assert(is_large == h.is_large);
    let start = if is_large { align4(prev_end) } else { prev_end };
    assert(start == h.fields.info_offset);
    let placed = FunctionHeaderView {
        is_large,
        fields: crate::function_header::FunctionHeaderFields {
            info_offset: start as u32,
            flags: crate::function_header::FunctionHeaderFlag {
                overflowed: is_large,
                ..h.fields.flags
            },
            ..candidate
        },
        handlers: h.handlers,
        debug_info: h.debug_info,
    };
    assert(placed.fields == h.fields);
    assert(placed == h);
}

/// The plan for the tail of headers that are placed already is where they
/// are placed.
pub proof fn lemma_planned_tail(
    views: Seq<FunctionHeaderView>,
    placed: Seq<FunctionInstructions>,
    functions: Seq<FunctionInstructions>,
    version: u32,
    code_start: int,
    tail_start: int,
    i: int,
)
    requires
        all_placed(views, placed, version, code_start, tail_start),
        same_sizes(functions, placed),
        forall|k: int| 0 <= k < functions.len() ==> (#[trigger] functions[k]).func_index == k,
        code_end(views, code_start, views.len() as int) <= u32::MAX,
        tail_end(views, views.len() as int, tail_start) <= u32::MAX,
        0 <= i <= views.len(),
    ensures
        planned_tail_end(views, functions, code_start, tail_start, version, i) == Some(
            tail_end(views, i, tail_start),
        ),
    decreases i,
{
    lemma_planned_tail_step(views, functions, code_start, tail_start, version, 0);
    if i > 0 {
        lemma_planned_tail(views, placed, functions, version, code_start, tail_start, i - 1);
        lemma_planned_tail_step(views, functions, code_start, tail_start, version, i - 1);
        lemma_planned_code(views, placed, functions, version, code_start, tail_start, i - 1);
        lemma_place_step_fixed(views, placed, version, code_start, tail_start, i - 1);
        assert(header_placed_in(views, placed, version, code_start, tail_start, i - 1));
        assert(spec_bytecode_size(functions[i - 1].bytecode@) == spec_bytecode_size(
            placed[i - 1].bytecode@,
        ));
        assert(code_end(views, code_start, i - 1) == views[i - 1].fields.offset);
    }
}

/// Files that are laid out alike, with the same function headers and
/// debug section, and whose headers count the same and agree in what a
/// header keeps, have the same header.
pub proof fn lemma_same_header(f: &HermesFile, l: Layout, again: &HermesFile)
    requires
        f.laid_out(l),
        again.laid_out(l),
        again.header_views() == f.header_views(),
        same_counts(again.header, f.header),
        again.debug_info.same_content(&f.debug_info),
        again.header.magic == f.header.magic,
        again.header.sha1 == f.header.sha1,
        again.header.global_code_index == f.header.global_code_index,
        again.header.segment_id == f.header.segment_id,
        again.header.cjs_module_offset == f.header.cjs_module_offset,
    ensures
        again.header == f.header,
{
    let n = f.header_views().len() as int;
    assert(again.function_headers@.len() == n);
    assert(f.function_headers@.len() == n);
    if n > 0 {
        assert(f.header_views()[n - 1] == f.function_headers@[n - 1]@);
        assert(again.header_views()[n - 1] == again.function_headers@[n - 1]@);
    }
    assert(again.bytecode_end(l) == f.bytecode_end(l));
    assert(again.debug_info.spec_size() == f.debug_info.spec_size());
    assert(again.header.debug_info_offset == f.header.debug_info_offset);
    assert(again.header.file_length == f.header.file_length);
}

/// A file that holds what a written file holds, with instructions that
/// are numbered by their place and are written as the bytes of those of the
/// written file, can be written.
pub proof fn lemma_reloaded_is_writable(f: &HermesFile, l: Layout, loaded: &HermesFile)
    requires
        f.laid_out(l),
        f.debug_info.in_step(f.header.version),
        loaded.same_content(f),
        loaded.cjs_module_offset == f.header.cjs_module_offset,
        same_code(loaded.function_bytecode@, f.function_bytecode@),
        forall|k: int|
            0 <= k < loaded.function_bytecode@.len() ==> (#[trigger] loaded.function_bytecode@[k]).func_index
                == k,
    ensures
        loaded.spec_writable(),
{
    let views = f.header_views();
    let n = views.len() as int;
    let version = f.header.version;
    let code_start = HermesFile::bytecode_start(l);
    let tail_start = align4(f.bytecode_end(l));
    let h = loaded.spec_synced_header();
    assert(h == f.header);
    lemma_spec_layout(h);
    lemma_layout_unique(l, spec_layout(h), h);
    lemma_laid_out_placed(f, l);
    lemma_same_code_sizes(loaded.function_bytecode@, f.function_bytecode@);
    lemma_ends_rise(views, f.function_bytecode@, version, code_start, tail_start, n);
    if n > 0 {
        assert(views[n - 1] == f.function_headers@[n - 1]@);
    }
    assert(code_end(views, code_start, n) == f.bytecode_end(l));
    lemma_align4_bounds(f.bytecode_end(l));
    lemma_align4_bounds(tail_end(views, n, tail_start));
    lemma_planned_code(views, f.function_bytecode@, loaded.function_bytecode@, version, code_start, tail_start, n);
    lemma_planned_tail(views, f.function_bytecode@, loaded.function_bytecode@, version, code_start, tail_start, n);
    assert(loaded.debug_info.spec_size() == f.debug_info.spec_size());
    assert(loaded.debug_sizes_fit());
    assert(loaded.function_headers@.len() == n);
}

/// The instructions of each function of a file that is laid out stand,
/// in what the file is written as, where the function's header says.
pub proof fn lemma_written_function_holds(f: &HermesFile, l: Layout, i: int)
    requires
        f.laid_out(l),
        0 <= i < f.function_bytecode@.len(),
    ensures
        holds_at(
            f.spec_body() + f.footer@,
            f.header_views()[i].fields.offset as int,
            instructions_bytes(f.function_bytecode@[i].bytecode@),
        ),
        instructions_bytes(f.function_bytecode@[i].bytecode@).len()
            == f.header_views()[i].fields.byte_size,
{
    let views = f.header_views();
    let n = views.len() as int;
    lemma_parts_hold(f, l);
    lemma_laid_out_placed(f, l);
    assert(f.function_bytecode@.take(n) =~= f.function_bytecode@);
    lemma_function_code_holds(
        views,
        f.function_bytecode@,
        f.header.version,
        HermesFile::bytecode_start(l),
        align4(f.bytecode_end(l)),
        f.spec_body() + f.footer@,
        n,
        i,
    );
}

/// The bytes that a function's header locates in a file are the bytes
/// that stand there.
pub proof fn lemma_located_bytes(g: &HermesFile, i: int, part: Seq<u8>)
    requires
        0 <= i < g.function_headers@.len(),
        holds_at(g.reader.data@, g.function_headers@[i].fields().offset as int, part),
        part.len() == g.function_headers@[i].fields().byte_size,
    ensures
        g.spec_function_bytes(i) == Some(part),
{
    lemma_holds_room(g.reader.data@, g.function_headers@[i].fields().offset as int, part);
}

/// The bytes of each function of a written file are there, where the
/// function's header says, in a file that holds the function headers of the
/// written file and keeps for reading what that file was written as.
pub proof fn lemma_function_bytes(f: &HermesFile, l: Layout, g: &HermesFile, i: int)
    requires
        f.laid_out(l),
        g.header_views() == f.header_views(),
        g.reader.data@ == f.spec_body() + f.footer@,
        0 <= i < f.function_bytecode@.len(),
    ensures
        g.spec_function_bytes(i) == Some(instructions_bytes(f.function_bytecode@[i].bytecode@)),
{
    lemma_written_function_holds(f, l, i);
    assert(f.header_views().len() == f.function_headers@.len());
    assert(g.header_views().len() == g.function_headers@.len());
    assert(g.header_views()[i] == g.function_headers@[i]@);
    lemma_located_bytes(g, i, instructions_bytes(f.function_bytecode@[i].bytecode@));
}

/// The instructions of a written file can be decoded from its bytes: where
/// the instructions of function `i` of `f` belong to the file's version
/// and have the operands that its table prescribes, the bytes of that
/// function are there in a file read from what `f` was written as, and read
/// as the instructions of that function. So `get_instructions` does not
/// fail for want of such a function.
pub proof fn lemma_written_code_decodes(f: &HermesFile, l: Layout, g: &HermesFile, i: int)
    requires
        f.laid_out(l),
        g.header_views() == f.header_views(),
        g.reader.data@ == f.spec_body() + f.footer@,
        0 <= i < f.function_bytecode@.len(),
        stream_well_formed(instructions_view(f.function_bytecode@[i].bytecode@), f.header.version),
    ensures
        g.spec_function_bytes(i) == Some(instructions_bytes(f.function_bytecode@[i].bytecode@)),
        spec_decode_stream(g.spec_function_bytes(i).unwrap(), f.header.version) == Some(
            instructions_view(f.function_bytecode@[i].bytecode@),
        ),
{
    lemma_function_bytes(f, l, g, i);
    lemma_instructions_bytes_of_view(f.function_bytecode@[i].bytecode@);
    lemma_stream_round_trip(instructions_view(f.function_bytecode@[i].bytecode@), f.header.version);
}

/// A file with decoded instructions holds what it held before.
pub proof fn lemma_decoded_same_content(g: &HermesFile, loaded: &HermesFile, f: &HermesFile)
    requires
        g.same_content(f),
        g.function_bytecode@.len() == 0,
        loaded.decoded_from(g),
    ensures
        loaded.same_content(f),
        loaded.cjs_module_offset == g.cjs_module_offset,
        forall|k: int|
            0 <= k < loaded.function_bytecode@.len() ==> (#[trigger] loaded.function_bytecode@[k]).func_index
                == k,
{
    lemma_decoded_list(g, loaded);
    assert(loaded.header_views() =~= g.header_views());
}

/// A file that holds what a written file holds and keeps its bytes for
/// reading can be written once its instructions are decoded from them.
pub proof fn lemma_decoded_is_writable(f: &HermesFile, l: Layout, g: &HermesFile, loaded: &HermesFile)
    requires
        f.laid_out(l),
        f.debug_info.in_step(f.header.version),
        g.same_content(f),
        g.reader.data@ == f.spec_body() + f.footer@,
        g.cjs_module_offset == f.header.cjs_module_offset,
        g.function_bytecode@.len() == 0,
        loaded.decoded_from(g),
    ensures
        loaded.spec_writable(),
{
    lemma_decoded_code(f, l, g, loaded);
    lemma_decoded_same_content(g, loaded, f);
    lemma_reloaded_is_writable(f, l, loaded);
}

/// A file that was read from what a file was written as, and whose
/// instructions were decoded, can be written: `serialize` does not fail on it.
pub proof fn lemma_reread_is_writable(f: &HermesFile, l: Layout, g: &HermesFile, loaded: &HermesFile)
    requires
        f.laid_out(l),
        f.reads_again(),
        g.read_from(f.spec_body() + f.footer@),
        g.cjs_module_offset == f.header.cjs_module_offset,
        loaded.decoded_from(g),
    ensures
        loaded.spec_writable(),
{
    lemma_written_file_reads_back(f, l, g);
    lemma_decoded_is_writable(f, l, g, loaded);
}

/// A file that holds what a written file `f` holds and keeps its bytes
/// for reading is written, once its instructions are decoded from them,
/// with the header and function headers of `f`, and as the bytes of `f`
/// before the footer.
pub proof fn lemma_decoded_is_written_alike(
    f: &HermesFile,
    l: Layout,
    g: &HermesFile,
    loaded: &HermesFile,
    again: &HermesFile,
)
    requires
        f.laid_out(l),
        g.same_content(f),
        g.reader.data@ == f.spec_body() + f.footer@,
        g.cjs_module_offset == f.header.cjs_module_offset,
        g.function_bytecode@.len() == 0,
        loaded.decoded_from(g),
        again.is_written_from(loaded),
    ensures
        again.spec_body() == f.spec_body(),
        again.header == f.header,
        again.header_views() == f.header_views(),
{
    lemma_decoded_code(f, l, g, loaded);
    lemma_decoded_same_content(g, loaded, f);
    let la = choose|la: Layout|
        again.laid_out(la) && (#[trigger] (HermesFile { footer: loaded.footer, ..*again }).is_prepared_from(
            loaded,
            la,
        ));
    let ready = HermesFile { footer: loaded.footer, ..*again };
    assert(ready.is_prepared_from(loaded, la));
    assert(again.header_views() =~= ready.header_views());
    lemma_same_sections_counts(again, f);
    lemma_same_counts_layout(again.header, f.header, la, l);
    assert(again.bytecode_end(l) == ready.bytecode_end(l));
    lemma_laid_out_again(f, l, loaded, again);
    lemma_same_header(f, l, again);
    lemma_bytecode_bytes_same(again.function_bytecode@, f.function_bytecode@);
    lemma_same_body(again, f);
}

/// Reading, then writing. Let `f` be a file as writing left it, written
/// as `f.spec_image()`. Let `g` be read from those bytes, `loaded` be `g`
/// with its instructions decoded, and `out` be what `loaded` is written
/// as, `again` being the state in which that writing left it. Then `out`
/// is `f.spec_image()`: the bytes that were read. This holds provided `f`
/// can be read again and `g` keeps the offset of the CommonJS modules that
/// the header of `f` gives.
pub proof fn lemma_written_again_bytes(
    f: &HermesFile,
    l: Layout,
    g: &HermesFile,
    loaded: &HermesFile,
    again: &HermesFile,
    out: Seq<u8>,
)
    requires
        f.laid_out(l),
        f.reads_again(),
        f.footer@ == sha1_of(f.spec_body()),
        g.read_from(f.spec_image()),
        g.cjs_module_offset == f.header.cjs_module_offset,
        loaded.decoded_from(g),
        again.is_written_from(loaded),
        out == again.spec_image(),
    ensures
        out == f.spec_image(),
        again.header == f.header,
        again.header_views() == f.header_views(),
{
    lemma_written_file_reads_back(f, l, g);
    lemma_decoded_is_written_alike(f, l, g, loaded, again);
}

} // verus!
