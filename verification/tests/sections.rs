use hermes_rs::big_int_table::BigIntTableEntry;
use std::collections::HashMap;
use hermes_rs::cjs_module::{CJSModule, CJSModuleEntry, CJSModuleInt};
use hermes_rs::debug_info::{
    DebugInfo, DebugInfoOffsets, DebugInfoOffsetsNew, DebugInfoOffsetsOld, DebugStringTable,
};
use hermes_rs::encode::Writer;
use hermes_rs::error::HermesError;
use hermes_rs::exception_handler::ExceptionHandlerInfo;
use hermes_rs::function_header::{FunctionHeader, LargeFunctionHeader, SmallFunctionHeader};
use hermes_rs::function_sources::FunctionSourceEntry;
use hermes_rs::header::{HermesHeader, MAGIC};
use hermes_rs::hermes_file::{HermesFile, StringTypePair};
use hermes_rs::instruction::{HermesInstruction, Instruction, Operand};
use hermes_rs::layout::plan_sections;
use hermes_rs::regexp_table::RegExpTableEntry;
use hermes_rs::string_kind::StringKind;
use hermes_rs::string_table::{OverflowStringTableEntry, SmallStringTableEntry};
use hermes_rs::types::{Reg8, UInt32};

fn new_file(version: u32) -> HermesFile {
    let mut f = HermesFile::new(Vec::new());
    let mut h = HermesHeader::new();
    h.magic = MAGIC;
    h.version = version;
    f.header = h;
    f.debug_info = DebugInfo::empty(version);
    f
}

fn ret(version: u32) -> HermesInstruction {
    let op = if version == 84 { 88 } else { 92 };
    HermesInstruction::of_version(if version == 84 { 84 } else { 95 }, Instruction::new(op, vec![Operand::Reg8(Reg8(0))])).unwrap()
}

fn full_file(version: u32) -> HermesFile {
    let mut f = new_file(version);
    f.set_string_pairs_unordered(vec![
        StringTypePair { string: "global".into(), kind: StringKind::String },
        StringTypePair { string: "x".repeat(300), kind: StringKind::String },
        StringTypePair { string: "name".into(), kind: StringKind::Identifier },
    ])
    .unwrap();
    f.array_buffer_storage = vec![0x61, 5];
    f.object_key_buffer = vec![0x51, 2, 0, 0xAA, 0xBB];
    f.object_val_buffer = vec![0x71, 1, 0, 0, 0, 0xCC, 0xDD, 0xEE];
    if version >= 87 {
        f.set_big_ints(vec![1, 0x0102_0304_0506_0708]).unwrap();
    }
    f.reg_exp_table = vec![RegExpTableEntry { offset: 0, length: 3 }];
    f.reg_exp_storage = vec![9, 8, 7];
    if version >= 84 {
        f.cjs_modules = vec![
            CJSModule::CJSModuleEntry(CJSModuleEntry { symbol_id: 2, offset: 0 }),
            CJSModule::CJSModuleEntry(CJSModuleEntry { symbol_id: 0, offset: 1 }),
        ];
        f.function_source_entries = vec![FunctionSourceEntry { function_id: 1, string_id: 2 }];
    }
    let debug = if version >= 91 {
        DebugInfoOffsets::New(DebugInfoOffsetsNew { src: 1, scope_desc: 2, callee: 3 })
    } else {
        DebugInfoOffsets::Old(DebugInfoOffsetsOld { src: 1, scope_desc: 2 })
    };
    let mut a = SmallFunctionHeader::new();
    a.param_count = 2;
    a.flags.has_exception_handler = true;
    a.flags.has_debug_info = true;
    a.exception_handlers = vec![
        ExceptionHandlerInfo { start: 0, end: 1, target: 2 },
        ExceptionHandlerInfo { start: 3, end: 4, target: 5 },
    ];
    a.debug_info = Some(debug);
    let mut b = LargeFunctionHeader::new();
    b.func_name = 2;
    b.frame_size = 1000;
    b.flags.has_exception_handler = true;
    b.exception_handlers = vec![ExceptionHandlerInfo { start: 6, end: 7, target: 8 }];
    let mut c = SmallFunctionHeader::new();
    c.flags.has_debug_info = true;
    c.flags.strict_mode = true;
    c.debug_info = Some(debug);
    f.add_function(FunctionHeader::Small(a), vec![ret(version)]).unwrap();
    f.add_function(FunctionHeader::Large(b), vec![ret(version), ret(version)]).unwrap();
    f.add_function(FunctionHeader::Small(c), vec![]).unwrap();
    f.set_debug_strings(vec!["a.js".into(), "π.js".into()]).unwrap();
    f
}

#[test]
fn a_file_with_every_section_survives_writing_and_reading() {
    for version in [84u32, 87, 95] {
        let mut f = full_file(version);
        let bytes = f.serialize().unwrap();
        assert_eq!(bytes.len() as u32, f.header.file_length);
        assert_eq!(bytes.len() % 4, (f.debug_info.size() + 20) % 4);
        let mut g = HermesFile::deserialize(bytes.clone()).unwrap();
        assert_eq!(g.header, f.header);
        assert_eq!(g.function_headers, f.function_headers);
        assert_eq!(g.string_kinds, f.string_kinds);
        assert_eq!(g.identifier_hashes, f.identifier_hashes);
        assert_eq!(g.string_storage, f.string_storage);
        assert_eq!(g.overflow_string_storage, f.overflow_string_storage);
        assert_eq!(g.string_storage_bytes, f.string_storage_bytes);
        assert_eq!(g.array_buffer_storage, f.array_buffer_storage);
        assert_eq!(g.object_key_buffer, f.object_key_buffer);
        assert_eq!(g.object_val_buffer, f.object_val_buffer);
        assert_eq!(g.big_int_table, f.big_int_table);
        assert_eq!(g.big_int_storage, f.big_int_storage);
        assert_eq!(g.reg_exp_table, f.reg_exp_table);
        assert_eq!(g.reg_exp_storage, f.reg_exp_storage);
        assert_eq!(g.cjs_modules, f.cjs_modules);
        assert_eq!(g.function_source_entries, f.function_source_entries);
        assert_eq!(g.debug_info, f.debug_info);
        assert_eq!(g.footer, f.footer);
        assert!(g.function_bytecode.is_empty());
        if version != 87 {
            g.get_instructions().unwrap();
            assert_eq!(g.function_bytecode, f.function_bytecode);
            assert_eq!(g.serialize().unwrap(), bytes);
        } else {
            assert_eq!(g.get_instructions(), Err(HermesError::UnsupportedVersion));
        }
        assert_eq!(g.get_strings_by_kind().unwrap().len(), 3);
        assert_eq!(g.get_strings().unwrap()[1], "x".repeat(300));
        // The second header was given as a plain record and stays one.
        assert!(!g.function_headers[0].is_large());
        assert!(g.function_headers[1].is_large());
        assert_eq!(g.function_headers[1].frame_size(), 1000);
        assert!(!g.function_headers[2].is_large());
        assert_eq!(g.function_headers[0].byte_size(), 2);
        assert_eq!(g.function_headers[1].byte_size(), 4);
        assert_eq!(g.function_headers[2].byte_size(), 0);
        assert_eq!(
            g.function_headers[1].offset(),
            g.function_headers[0].offset() + 2
        );
        // The literal buffers read as sequences.
        assert_eq!(g.get_array_buffer(0, 0).unwrap().1.len(), 1);
        assert_eq!(g.get_object_key_buffer(0, 0).unwrap().0, 3);
        assert_eq!(g.get_object_val_buffer(0, 0).unwrap().0, 5);
        assert_eq!(g.get_object_val_buffer(0, 4), Err(HermesError::MalformedInput));
    }
}

#[test]
fn sections_lie_where_the_layout_says() {
    let mut f = full_file(95);
    let bytes = f.serialize().unwrap();
    let l = plan_sections(&f.header);
    assert_eq!(l.function_headers, 128);
    assert_eq!(l.string_kinds, 128 + 48);
    assert_eq!(l.identifier_hashes, l.string_kinds + 8);
    assert_eq!(l.small_string_table, l.identifier_hashes + 4);
    assert_eq!(l.overflow_string_table, l.small_string_table + 12);
    assert_eq!(l.string_storage, l.overflow_string_table + 8);
    assert_eq!(l.array_buffer, l.string_storage + 312);
    assert_eq!(l.object_key_buffer, l.array_buffer + 4);
    assert_eq!(l.object_value_buffer, l.object_key_buffer + 8);
    assert_eq!(l.big_int_table, l.object_value_buffer + 8);
    assert_eq!(l.big_int_storage, l.big_int_table + 16);
    assert_eq!(l.reg_exp_table, l.big_int_storage + 16);
    assert_eq!(l.reg_exp_storage, l.reg_exp_table + 8);
    assert_eq!(l.cjs_modules, l.reg_exp_storage + 4);
    assert_eq!(l.function_sources, l.cjs_modules + 16);
    assert_eq!(l.end, l.function_sources + 8);
    let at = |x: u64| x as usize;
    assert_eq!(&bytes[at(l.array_buffer)..at(l.array_buffer) + 4], &[0x61, 5, 0, 0]);
    assert_eq!(&bytes[at(l.reg_exp_storage)..at(l.reg_exp_storage) + 3], &[9, 8, 7]);
    assert_eq!(&bytes[at(l.big_int_storage)..at(l.big_int_storage) + 16], &[0, 0, 0, 0, 0, 0, 0, 1, 1, 2, 3, 4, 5, 6, 7, 8]);
    assert_eq!(f.function_headers[0].offset() as u64, l.end);
    assert_eq!(
        f.offsets.bytecode_offsets,
        HashMap::from([(0, l.end as u32), (1, l.end as u32 + 2), (2, l.end as u32 + 6)])
    );
    assert_eq!(f.offsets.debug_info_offset, f.header.debug_info_offset);
    assert_eq!(f.offsets.file_length, bytes.len() as u32);
    // The tail: handlers and debug offsets of the first header, the plain record of the second
    // with its handlers, the debug offsets of the third.
    let t = l.end as u32 + 8;
    assert_eq!(f.function_headers[0].info_offset(), t);
    assert_eq!(f.function_headers[1].info_offset(), t + 4 + 24 + 12);
    assert_eq!(f.function_headers[2].info_offset(), t + 40 + 32 + 4 + 12);
    assert_eq!(f.header.debug_info_offset, t + 40 + 48 + 12);
    assert_eq!(&bytes[t as usize..t as usize + 4], &[2, 0, 0, 0]);
}

#[test]
fn a_header_that_lands_beyond_128_kib_becomes_large() {
    let mut f = new_file(95);
    f.set_strings(vec!["global".into()]).unwrap();
    f.array_buffer_storage = vec![0; 1 << 17];
    let many: Vec<HermesInstruction> = (0..40_000)
        .map(|_| {
            HermesInstruction::V95(Instruction::new(
                109,
                vec![Operand::Reg8(Reg8(1)), Operand::UInt32(UInt32(7))],
            ))
        })
        .collect();
    f.add_function(FunctionHeader::Small(SmallFunctionHeader::new()), many.clone()).unwrap();
    // The numbers given fit; the size of the bytecode is filled in.
    assert!(!f.function_headers[0].is_large());
    assert_eq!(f.function_headers[0].byte_size(), 240_000);
    f.add_function(FunctionHeader::Small(SmallFunctionHeader::new()), vec![ret(95)]).unwrap();
    assert!(!f.function_headers[1].is_large());
    let bytes = f.serialize().unwrap();
    // 240000 bytes of bytecode are more than a packed record may say.
    assert!(f.function_headers[0].is_large());
    assert!(f.function_headers[0].flags().overflowed);
    // Its bytecode lies beyond offset 2^17, so the second header is large once it is placed.
    assert!(f.function_headers[1].is_large());
    assert!(f.function_headers[1].offset() > 1 << 17);
    let mut g = HermesFile::deserialize(bytes.clone()).unwrap();
    assert_eq!(g.function_headers, f.function_headers);
    g.get_instructions().unwrap();
    assert_eq!(g.function_bytecode[0].bytecode, many);
    assert!(g.function_bytecode[1].is_large);
    assert_eq!(g.serialize().unwrap(), bytes);
}

#[test]
fn version_76_stores_statically_resolved_modules_as_integers() {
    let mut f = new_file(76);
    f.header.options.cjs_modules_statically_resolved = true;
    f.cjs_module_offset = 5;
    f.set_strings(vec!["a".into()]).unwrap();
    // Before version 84 the header has no room for the number of modules.
    f.cjs_modules = vec![CJSModule::CJSModuleInt(CJSModuleInt { value: 3 })];
    assert_eq!(f.serialize(), Err(HermesError::InternalConsistency));
    f.cjs_modules = vec![];
    let bytes = f.serialize().unwrap();
    assert_eq!(f.header.cjs_module_offset, 5);
    let g = HermesFile::deserialize(bytes).unwrap();
    assert_eq!(g.header, f.header);
    assert_eq!(g.debug_info, DebugInfo::empty(76));
    assert!(g.cjs_modules.is_empty());
}

#[test]
fn contradictions_in_the_model_are_refused_and_change_nothing() {
    // Instructions out of step with the headers.
    let mut f = full_file(95);
    f.function_bytecode.pop();
    let before = f.clone();
    assert_eq!(f.serialize(), Err(HermesError::InternalConsistency));
    assert_eq!(f, before);
    let mut f = full_file(95);
    f.function_bytecode[1].func_index = 2;
    assert_eq!(f.serialize(), Err(HermesError::InternalConsistency));
    // Debug offsets in the layout of another version.
    let mut f = full_file(95);
    f.function_headers[2]
        .set_debug_info(Some(DebugInfoOffsets::Old(DebugInfoOffsetsOld { src: 0, scope_desc: 0 })));
    assert_eq!(f.serialize(), Err(HermesError::InternalConsistency));
    // A cache index that a plain record has no room for.
    let mut f = full_file(95);
    let mut h = LargeFunctionHeader::new();
    h.highest_read_cache_index = 256;
    f.add_function(FunctionHeader::Large(h), vec![]).unwrap();
    assert_eq!(f.serialize(), Err(HermesError::InternalConsistency));
    // Sections that the version lacks.
    let mut f = full_file(84);
    f.big_int_storage = vec![1];
    assert_eq!(f.serialize(), Err(HermesError::InternalConsistency));
    let mut f = full_file(95);
    f.cjs_module_offset = 1;
    assert_eq!(f.serialize(), Err(HermesError::InternalConsistency));
    // Regular-expression storage without a table, and modules of mixed layout.
    let mut f = full_file(95);
    f.reg_exp_table.clear();
    assert_eq!(f.serialize(), Err(HermesError::InternalConsistency));
    let mut f = full_file(95);
    f.cjs_modules.push(CJSModule::CJSModuleInt(CJSModuleInt { value: 1 }));
    assert_eq!(f.serialize(), Err(HermesError::InternalConsistency));
}

#[test]
fn builder_helpers() {
    let mut f = new_file(96);
    f.set_big_ints(vec![0x0102_0304_0506_0708, u64::MAX]).unwrap();
    assert_eq!(
        f.big_int_table,
        vec![BigIntTableEntry { offset: 0, length: 8 }, BigIntTableEntry { offset: 8, length: 8 }]
    );
    assert_eq!(f.big_int_storage, vec![1, 2, 3, 4, 5, 6, 7, 8, 255, 255, 255, 255, 255, 255, 255, 255]);
    f.set_debug_strings(vec!["yes.js".into(), "".into(), "π".into()]).unwrap();
    assert_eq!(
        f.debug_info.string_table,
        vec![
            DebugStringTable { offset: 0, length: 6 },
            DebugStringTable { offset: 6, length: 0 },
            DebugStringTable { offset: 6, length: 2 }
        ]
    );
    assert_eq!(f.debug_info.string_storage, "yes.jsπ".as_bytes());
    assert_eq!(f.debug_info.header.filename_count, 3);
    assert_eq!(f.debug_info.header.filename_storage_size, 8);
    f.set_overflow_string(vec!["abc".into(), "π".into()]).unwrap();
    assert_eq!(
        f.overflow_string_storage,
        vec![
            OverflowStringTableEntry { offset: 0, length: 3 },
            OverflowStringTableEntry { offset: 1, length: 2 }
        ]
    );
    f.array_buffer_storage = vec![1, 2, 3];
    f.offsets.debug_info_offset = 77;
    f.update_header().unwrap();
    assert_eq!(f.header.big_int_count, 2);
    assert_eq!(f.header.big_int_storage_size, 16);
    assert_eq!(f.header.overflow_string_count, 2);
    assert_eq!(f.header.array_buffer_size, 3);
    assert_eq!(f.header.function_count, 0);
    assert_eq!(f.header.debug_info_offset, 77);
    assert_eq!(f.header.version, 96);
    assert_eq!(f.synced_header().unwrap(), HermesHeader { debug_info_offset: 77, ..f.header });
}

#[test]
fn adding_a_function_sets_its_size_and_shape() {
    let mut f = new_file(95);
    let mut h = SmallFunctionHeader::new();
    h.byte_size = 999;
    h.env_size = 1 << 17;
    f.add_function(FunctionHeader::Small(h.clone()), vec![ret(95), ret(95), ret(95)]).unwrap();
    let added = &f.function_headers[0];
    assert!(added.is_large());
    assert!(added.flags().overflowed);
    assert_eq!(added.byte_size(), 6);
    assert_eq!(added.env_size(), 1 << 17);
    assert_eq!(f.function_bytecode[0].func_index, 0);
    assert!(f.function_bytecode[0].is_large);
    assert_eq!(f.function_bytecode[0].bytecode.len(), 3);
    h.env_size = (1 << 17) - 1;
    f.add_function(FunctionHeader::Small(h), vec![]).unwrap();
    assert!(!f.function_headers[1].is_large());
    assert!(!f.function_headers[1].flags().overflowed);
    assert_eq!(f.function_headers[1].byte_size(), 0);
    assert_eq!(f.function_bytecode[1].func_index, 1);
    // The header's count follows when the file is written or the header is updated.
    assert_eq!(f.header.function_count, 0);
    f.update_header().unwrap();
    assert_eq!(f.header.function_count, 2);
}

#[test]
fn visiting_section_by_section() {
    let mut f = full_file(95);
    let bytes = f.serialize().unwrap();
    let mut g = HermesFile::new(bytes.clone());
    g.visit_header().unwrap();
    assert_eq!(g.reader.position(), 128);
    g.visit_function_headers().unwrap();
    assert_eq!(g.reader.position(), 128 + 48);
    g.visit_string_kinds().unwrap();
    g.visit_identifier_hashes().unwrap();
    g.visit_small_string_table().unwrap();
    g.visit_overflow_string_table().unwrap();
    g.visit_string_storage().unwrap();
    assert_eq!(g.string_storage_bytes, f.string_storage_bytes);
    g.visit_array_buffer().unwrap();
    g.visit_object_key_buffer().unwrap();
    g.visit_object_value_buffer().unwrap();
    g.visit_big_int_table().unwrap();
    g.visit_big_int_storage().unwrap();
    g.visit_reg_exp_table().unwrap();
    assert_eq!(g.reg_exp_storage, vec![9, 8, 7]);
    g.visit_cjs_module_table().unwrap();
    g.visit_function_source_table().unwrap();
    assert_eq!(g.reader.position() as u64, plan_sections(&g.header).end);
    g.visit_debug_info().unwrap();
    g.visit_footer().unwrap();
    assert_eq!(g.reader.position(), bytes.len());
    assert_eq!(g.footer, f.footer);
    assert_eq!(g.visit_footer(), Err(HermesError::MalformedInput));
    g.reader.seek(plan_sections(&g.header).reg_exp_storage as usize);
    g.reg_exp_storage.clear();
    g.visit_reg_exp_storage().unwrap();
    assert_eq!(g.reg_exp_storage, vec![9, 8, 7]);
    g.reader.seek(bytes.len() - 2);
    assert_eq!(g.visit_reg_exp_storage(), Err(HermesError::MalformedInput));
    assert_eq!(g.visit_string_storage(), Err(HermesError::MalformedInput));
    assert_eq!(g.reader.position(), bytes.len() - 2);
}

#[test]
fn writing_section_by_section() {
    let mut f = full_file(95);
    let mut w = Writer::new();
    w.write_all(&[1]);
    f.write_string_kinds(&mut w);
    assert_eq!(w.buf.len(), 4 + 8);
    f.write_identifier_hashes(&mut w);
    f.write_small_string_table(&mut w);
    f.write_overflow_string_table(&mut w);
    f.write_string_storage(&mut w);
    assert_eq!(w.buf.len(), 12 + 4 + 12 + 8 + 310);
    f.write_array_buffer(&mut w);
    assert_eq!(&w.buf[346..], &[0, 0, 0x61, 5]);
    f.write_object_key_buffer(&mut w);
    f.write_object_value_buffer(&mut w);
    f.write_big_int_table(&mut w);
    f.write_big_int_storage(&mut w);
    f.write_reg_exp_table(&mut w);
    f.write_cjs_module_table(&mut w);
    f.write_function_source_table(&mut w);
    let before = w.buf.len();
    assert_eq!(before % 4, 0);
    f.write_debug_info(&mut w);
    assert_eq!(w.buf.len(), before + f.debug_info.size());
    assert_eq!(f.offsets.debug_info_offset as usize, before);
    let body = w.buf.clone();
    f.write_footer(&mut w);
    assert_eq!(w.buf.len(), body.len() + 20);
    assert_eq!(&w.buf[body.len()..], &f.footer);
    assert_eq!(f.footer, hermes_rs::digest::digest_of(&body));
    let mut h = Writer::new();
    f.write_header(&mut h);
    assert_eq!(h.buf.len(), 128);
    let mut none = new_file(95);
    none.reg_exp_storage = vec![1, 2];
    let mut w = Writer::new();
    w.write_all(&[1]);
    none.write_reg_exp_table(&mut w);
    assert_eq!(w.buf, vec![1, 0, 0, 0]);
}

#[test]
fn corrupting_a_byte_breaks_the_footer() {
    let mut f = full_file(95);
    let mut bytes = f.serialize().unwrap();
    let g = HermesFile::deserialize(bytes.clone()).unwrap();
    let body = bytes[..bytes.len() - 20].to_vec();
    assert!(hermes_rs::digest::footer_matches(&body, &g.footer));
    bytes[130] ^= 1;
    let body = bytes[..bytes.len() - 20].to_vec();
    assert!(!hermes_rs::digest::footer_matches(&body, &g.footer));
}

#[test]
fn string_section_writers_bring_the_model_in_step() {
    let mut f = HermesFile::new(Vec::new());
    f.string_storage.push(SmallStringTableEntry { is_utf_16: false, offset: 6, length: 11 });
    f.overflow_string_storage.push(OverflowStringTableEntry { offset: 1, length: 300 });
    f.overflow_string_storage.push(OverflowStringTableEntry { offset: 2, length: 400 });
    f.string_storage_bytes = vec![7, 8, 9];
    f.header.string_storage_size = 99;
    let before = f.clone();

    let mut w = Writer::new();
    w.write_all(&[0, 0, 0, 0]);
    f.write_small_string_table(&mut w);
    assert_eq!(&w.buf[4..], &[0x0C, 0x00, 0x00, 0x0B]);
    assert_eq!(f.header.string_count, 1);
    assert_eq!(f.offsets.small_string_table_offsets, HashMap::from([(0, 4)]));
    assert_eq!(f.string_storage, before.string_storage);

    w.write_all(&[1]);
    f.write_overflow_string_table(&mut w);
    assert_eq!(w.buf.len(), 12 + 16);
    assert_eq!(f.header.overflow_string_count, 2);
    assert_eq!(f.offsets.overflow_string_table_offsets, HashMap::from([(0, 12), (1, 20)]));

    w.write_all(&[1]);
    f.write_string_storage(&mut w);
    assert_eq!(&w.buf[28..], &[1, 0, 0, 0, 7, 8, 9]);
    assert_eq!(f.header.string_storage_size, 3);

    f.write_debug_info(&mut w);
    assert_eq!(f.offsets.debug_info_offset, 35);
    assert_eq!(w.buf.len(), 35 + 28);

    let mut expected = before;
    expected.header.string_count = 1;
    expected.header.overflow_string_count = 2;
    expected.header.string_storage_size = 3;
    expected.offsets.small_string_table_offsets = HashMap::from([(0, 4)]);
    expected.offsets.overflow_string_table_offsets = HashMap::from([(0, 12), (1, 20)]);
    expected.offsets.debug_info_offset = 35;
    assert_eq!(f, expected);
}

#[test]
fn a_fresh_file_with_magic_and_version_is_written_as_176_bytes() {
    let mut f = HermesFile::new(Vec::new());
    assert!(f.bytecode_storage.is_empty());
    assert_eq!(f.debug_info.header.textified_callee_offset, Some(0));
    assert_eq!(f.debug_info.header.string_table_offset, Some(0));
    f.header.magic = 0x1F1903C103BC1FC6;
    f.header.version = 96;
    let out = f.serialize().unwrap();
    assert_eq!(out.len(), 176);
    assert_eq!(f.header.file_length, 176);
    assert_eq!(&out[32..36], &[176, 0, 0, 0]);
    assert_eq!(f.header.debug_info_offset, 128);
    assert_eq!(f.offsets.debug_info_offset, 128);
}
