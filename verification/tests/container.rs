use hermes_rs::bytecode_options::BytecodeOptions;
use std::collections::HashMap;
use hermes_rs::codec::Serializable;
use hermes_rs::debug_info::{
    DebugFileRegion, DebugInfo, DebugInfoHeader, DebugInfoOffsets, DebugInfoOffsetsNew,
};
use hermes_rs::digest::{digest_of, footer_matches};
use hermes_rs::error::HermesError;
use hermes_rs::function_header::{
    FunctionHeader, FunctionHeaderFlag, FunctionHeaderFlagProhibitions, SmallFunctionHeader,
};
use hermes_rs::header::{HermesHeader, MAGIC};
use hermes_rs::hermes_file::HermesFile;
use hermes_rs::instruction::{HermesInstruction, Instruction, Operand};
use hermes_rs::string_kind::{StringKind, StringKindEntry, StringKindEntryNew};
use hermes_rs::types::{Reg8, StringIDUInt16, UInt8};

fn header(version: u32) -> HermesHeader {
    let mut h = HermesHeader::new();
    h.magic = MAGIC;
    h.version = version;
    h.sha1 = [
        169, 124, 131, 2, 218, 185, 11, 236, 113, 132, 169, 24, 59, 34, 180, 59, 173, 213, 122, 101,
    ];
    h.file_length = 1337;
    h.options = BytecodeOptions::new();
    h
}

fn flags(has_debug_info: bool) -> FunctionHeaderFlag {
    FunctionHeaderFlag {
        prohibit_invoke: FunctionHeaderFlagProhibitions::ProhibitNone,
        strict_mode: false,
        has_exception_handler: false,
        has_debug_info,
        overflowed: false,
    }
}

fn small(func_name: u32, highest_write_cache_index: u32, info_offset: u32) -> SmallFunctionHeader {
    let mut h = SmallFunctionHeader::new();
    h.param_count = 1;
    h.byte_size = 10;
    h.func_name = func_name;
    h.info_offset = info_offset;
    h.frame_size = 95;
    h.env_size = 96;
    h.highest_read_cache_index = 97;
    h.highest_write_cache_index = highest_write_cache_index;
    h.flags = flags(false);
    h
}

fn ins(op: u8, operands: Vec<Operand>) -> HermesInstruction {
    HermesInstruction::V95(Instruction::new(op, operands))
}

fn load_const_string(reg: u8, id: u16) -> HermesInstruction {
    ins(115, vec![Operand::Reg8(Reg8(reg)), Operand::StringIDUInt16(StringIDUInt16(id))])
}

fn direct_eval(a: u8, b: u8, c: u8) -> HermesInstruction {
    ins(94, vec![Operand::Reg8(Reg8(a)), Operand::Reg8(Reg8(b)), Operand::UInt8(UInt8(c))])
}

fn global_code() -> Vec<HermesInstruction> {
    vec![
        load_const_string(0, 1),
        direct_eval(0, 0, 0),
        load_const_string(0, 2),
        direct_eval(0, 0, 0),
        ins(98, vec![]),
        ins(92, vec![Operand::Reg8(Reg8(0))]),
    ]
}

fn minimal_file(version: u32) -> HermesFile {
    let mut f = HermesFile::new(Vec::new());
    f.header = header(version);
    f.set_strings(vec![
        "global".to_string(),
        "print(123);".to_string(),
        "print(1+1);".to_string(),
    ])
    .unwrap();
    let mut fh = small(0, 1, 0);
    fh.flags = flags(true);
    fh.debug_info =
        Some(DebugInfoOffsets::New(DebugInfoOffsetsNew { src: 1, scope_desc: 2, callee: 3 }));
    f.add_function(FunctionHeader::Small(fh), global_code()).unwrap();
    f.debug_info = DebugInfo {
        header: DebugInfoHeader {
            filename_count: 0,
            filename_storage_size: 0,
            file_region_count: 1,
            scope_desc_data_offset: 16,
            textified_callee_offset: Some(18),
            string_table_offset: Some(18),
            debug_data_size: 18,
        },
        string_table: vec![],
        string_storage: vec![],
        file_regions: vec![DebugFileRegion {
            from_address: 0,
            filename_id: 0,
            source_mapping_url_id: 0,
        }],
        sources_data_storage: vec![
            0x00, 0x01, 0x01, 0x04, 0x00, 0x04, 0x00, 0xFF, 0xFF, 0xFF, 0xFF, 0x0F, 0x7F, 0x7F, 0x00,
            0x00,
        ],
        scope_desc_data_storage: vec![0x00, 0xE0],
        textified_callee_storage: vec![],
        string_table_storage: vec![],
    };
    f.set_debug_strings(vec!["yes.js".to_string()]).unwrap();
    f
}

#[test]
fn minimal_file_v96_footer_length_and_reread() {
    let mut f = minimal_file(96);
    let bytes = f.serialize().unwrap();

    // The header's length is the number of bytes written.
    assert_eq!(bytes.len(), f.header.file_length as usize);
    assert_eq!(&bytes[32..36], &(bytes.len() as u32).to_le_bytes());
    assert_eq!(&bytes[0..8], &MAGIC.to_le_bytes());

    // The footer is the SHA-1 of everything before it.
    let body = bytes[..bytes.len() - 20].to_vec();
    assert_eq!(&bytes[bytes.len() - 20..], &digest_of(&body));
    assert!(footer_matches(&body, &f.footer));

    // What was written reads back as the model that was written.
    let g = HermesFile::deserialize(bytes.clone()).unwrap();
    assert_eq!(g.header, f.header);
    assert_eq!(g.function_headers, f.function_headers);
    assert_eq!(g.string_kinds, f.string_kinds);
    assert_eq!(g.string_storage, f.string_storage);
    assert_eq!(g.string_storage_bytes, f.string_storage_bytes);
    assert_eq!(g.debug_info, f.debug_info);
    assert_eq!(g.footer, f.footer);
    assert_eq!(
        g.get_strings().unwrap(),
        vec!["global".to_string(), "print(123);".to_string(), "print(1+1);".to_string()]
    );

    // The bytecode is where the header says, byte for byte.
    let code = g.get_bytecode().unwrap();
    assert_eq!(code.len(), 1);
    assert_eq!(code[0].func_index, 0);
    assert_eq!(
        code[0].bytecode,
        vec![115, 0, 1, 0, 94, 0, 0, 0, 115, 0, 2, 0, 94, 0, 0, 0, 98, 92, 0]
    );

    // This crate holds no opcode table for version 96.
    assert_eq!(g.get_func_bytecode(0), Err(HermesError::UnsupportedVersion));
}

#[test]
fn minimal_file_v95_round_trips_byte_for_byte() {
    let mut f = minimal_file(95);
    let bytes = f.serialize().unwrap();
    let mut g = HermesFile::deserialize(bytes.clone()).unwrap();
    g.get_instructions().unwrap();
    assert_eq!(g.function_bytecode, f.function_bytecode);
    assert_eq!(g.function_bytecode[0].bytecode, global_code());
    let again = g.serialize().unwrap();
    assert_eq!(again, bytes);
}

#[test]
fn minimal_file_layout_is_aligned() {
    let mut f = minimal_file(96);
    let bytes = f.serialize().unwrap();
    // 128-byte header, one 16-byte slot, one 4-byte run of kinds, no hashes,
    // three 4-byte string entries, 28 bytes of strings.
    assert_eq!(f.header.function_count, 1);
    assert_eq!(f.header.string_count, 3);
    assert_eq!(f.header.string_kind_count, 1);
    assert_eq!(f.header.string_storage_size, 28);
    assert_eq!(&bytes[160..188], b"globalprint(123);print(1+1);");
    let fh = &f.function_headers[0];
    assert_eq!(fh.offset(), 188);
    assert_eq!(fh.byte_size(), 19);
    assert_eq!(fh.info_offset(), 208);
    assert_eq!(f.header.debug_info_offset, 220);
    assert_eq!(f.header.debug_info_offset % 4, 0);
    assert_eq!(f.offsets.bytecode_offsets, HashMap::from([(0, 188)]));
    assert_eq!(bytes.len(), 220 + 28 + 8 + 6 + 12 + 18 + 20);
    assert_eq!(f.string_kinds, vec![StringKindEntry::New(StringKindEntryNew { count: 3, kind: StringKind::String })]);
}

#[test]
fn overflowing_header_is_promoted_and_reread() {
    let mut f = HermesFile::new(Vec::new());
    f.header = header(95);
    f.set_strings(vec!["global".to_string(), "a".to_string(), "b".to_string()]).unwrap();
    f.debug_info = DebugInfo::empty(95);
    f.add_function(FunctionHeader::Small(small(0, 98, 188)), global_code()).unwrap();
    f.add_function(FunctionHeader::Small(small(2, 1, 188)), global_code()).unwrap();
    f.add_function(FunctionHeader::Small(small(1, 1, 200000)), global_code()).unwrap();
    // A field above 2^17 - 1 makes a header large as soon as it is added.
    assert!(!f.function_headers[0].is_large());
    assert!(!f.function_headers[1].is_large());
    assert!(f.function_headers[2].is_large());
    assert!(f.function_headers[2].flags().overflowed);

    let bytes = f.serialize().unwrap();
    assert!(!f.function_headers[0].is_large());
    assert!(!f.function_headers[1].is_large());
    assert!(f.function_headers[2].is_large());

    let g = HermesFile::deserialize(bytes.clone()).unwrap();
    assert_eq!(g.function_headers, f.function_headers);
    let third = &g.function_headers[2];
    assert!(third.is_large());
    assert_eq!(third.func_name(), 1);
    assert_eq!(third.param_count(), 1);
    assert_eq!(third.frame_size(), 95);
    assert_eq!(third.env_size(), 96);
    assert_eq!(third.highest_read_cache_index(), 97);
    assert_eq!(third.byte_size(), 19);
    assert!(third.flags().overflowed);

    // The slot of the third header points at its plain record.
    let slot = 128 + 2 * 16;
    let mut r = hermes_rs::decode::Reader::new(bytes.clone());
    r.seek(slot);
    let proxy = SmallFunctionHeader::deserialize(&mut r, 95).unwrap();
    assert!(proxy.flags.overflowed);
    let at = hermes_rs::function_header::get_large_info_offset(proxy.offset, proxy.info_offset);
    assert_eq!(at, third.info_offset());
    assert_eq!(at % 4, 0);
    assert_eq!(&bytes[at as usize..at as usize + 4], &third.offset().to_le_bytes());
}

#[test]
fn announced_debug_offsets_that_are_absent_are_refused() {
    let mut f = HermesFile::new(Vec::new());
    f.header = header(95);
    f.debug_info = DebugInfo::empty(95);
    let mut fh = small(0, 1, 0);
    fh.flags = flags(true);
    f.add_function(FunctionHeader::Small(fh), global_code()).unwrap();
    assert_eq!(f.serialize(), Err(HermesError::InternalConsistency));
}

#[test]
fn truncated_file_is_malformed() {
    let mut f = minimal_file(95);
    let bytes = f.serialize().unwrap();
    for cut in [0usize, 11, 100, 127, 140, 170, 200, bytes.len() - 1] {
        let part = bytes[..cut].to_vec();
        assert_eq!(HermesFile::deserialize(part).err(), Some(HermesError::MalformedInput));
    }
}

#[test]
fn file_with_a_promoted_header_is_written_again_byte_for_byte() {
    let mut f = HermesFile::new(Vec::new());
    f.header = header(95);
    f.set_strings(vec!["global".to_string(), "a".to_string(), "b".to_string()]).unwrap();
    f.debug_info = DebugInfo::empty(95);
    f.add_function(FunctionHeader::Small(small(0, 98, 188)), global_code()).unwrap();
    f.add_function(FunctionHeader::Small(small(1, 1, 200000)), global_code()).unwrap();
    f.add_function(FunctionHeader::Small(small(2, 1, 188)), Vec::new()).unwrap();
    let bytes = f.serialize().unwrap();

    let mut g = HermesFile::deserialize(bytes.clone()).unwrap();
    assert_eq!(g.cjs_module_offset, 0);
    assert_eq!(g.header, f.header);
    assert_eq!(g.function_headers, f.function_headers);
    assert_eq!(g.string_kinds, f.string_kinds);
    assert_eq!(g.string_storage, f.string_storage);
    assert_eq!(g.debug_info, f.debug_info);
    assert_eq!(g.footer, f.footer);
    g.get_instructions().unwrap();
    assert_eq!(g.function_bytecode.len(), 3);
    assert!(g.function_bytecode[2].bytecode.is_empty());

    let again = g.serialize().unwrap();
    assert_eq!(again, bytes);
    assert_eq!(g.header, f.header);
    assert_eq!(g.function_headers, f.function_headers);
}

#[test]
fn instructions_cannot_be_decoded_without_a_table_for_the_version() {
    let mut f = minimal_file(96);
    let bytes = f.serialize().unwrap();
    let mut g = HermesFile::deserialize(bytes).unwrap();
    let before = g.clone();
    assert_eq!(g.get_instructions(), Err(HermesError::UnsupportedVersion));
    assert_eq!(g, before);
    assert_eq!(g.get_disassembled_bytecode(), Err(HermesError::UnsupportedVersion));
}

#[test]
fn writing_records_where_things_were_put() {
    let mut f = minimal_file(95);
    let bytes = f.serialize().unwrap();
    assert_eq!(
        f.offsets.small_string_table_offsets,
        HashMap::from([(0, 148), (1, 152), (2, 156)])
    );
    assert!(f.offsets.overflow_string_table_offsets.is_empty());
    assert_eq!(f.offsets.bytecode_offsets, HashMap::from([(0, f.function_headers[0].offset())]));
    assert_eq!(f.offsets.debug_info_offset, f.header.debug_info_offset);
    assert_eq!(f.offsets.file_length as usize, bytes.len());
    // Entry 1 of the small string table lies at its recorded offset.
    let mut r = hermes_rs::decode::Reader::new(bytes.clone());
    r.seek(152);
    let entry = hermes_rs::string_table::SmallStringTableEntry::deserialize(&mut r, 95).unwrap();
    assert_eq!(entry, f.string_storage[1]);

    let mut long = HermesFile::new(Vec::new());
    long.header = header(95);
    long.debug_info = DebugInfo::empty(95);
    long.set_strings(vec!["a".to_string(), "x".repeat(300), "y".repeat(256)]).unwrap();
    long.serialize().unwrap();
    assert_eq!(
        long.offsets.small_string_table_offsets,
        HashMap::from([(0, 132), (1, 136), (2, 140)])
    );
    assert_eq!(long.offsets.overflow_string_table_offsets, HashMap::from([(0, 144), (1, 152)]));
}

#[test]
fn footer_of_a_written_file_verifies_until_a_byte_changes() {
    let mut f = minimal_file(95);
    let mut bytes = f.serialize().unwrap();
    let g = HermesFile::deserialize(bytes.clone()).unwrap();
    assert_eq!(g.verify_footer(), Ok(()));

    // A changed byte of the source hash leaves the file readable.
    bytes[12] ^= 0xff;
    let changed = HermesFile::deserialize(bytes).unwrap();
    assert_eq!(changed.verify_footer(), Err(HermesError::IntegrityFailure));

    let short = HermesFile::new(vec![0u8; 19]);
    assert_eq!(short.verify_footer(), Err(HermesError::MalformedInput));
}

#[test]
fn a_packed_header_pushed_by_hand_with_a_stale_offset_is_promoted() {
    let mut f = HermesFile::new(Vec::new());
    f.header = header(95);
    f.set_strings(vec!["global".to_string()]).unwrap();
    f.debug_info = DebugInfo::empty(95);
    // Pushed by hand, not added: the header stays packed in the model.
    f.function_headers.push(FunctionHeader::Small(small(0, 1, 200000)));
    f.function_bytecode.push(hermes_rs::hermes_file::FunctionInstructions {
        func_index: 0,
        is_large: false,
        bytecode: global_code(),
    });
    assert!(!f.function_headers[0].is_large());

    let bytes = f.serialize().unwrap();
    assert!(f.function_headers[0].is_large());
    assert!(f.function_headers[0].flags().overflowed);
    assert_eq!(f.function_headers[0].highest_write_cache_index(), 1);
    let mut r = hermes_rs::decode::Reader::new(bytes.clone());
    r.seek(128);
    let proxy = SmallFunctionHeader::deserialize(&mut r, 95).unwrap();
    assert!(proxy.flags.overflowed);
    let at = hermes_rs::function_header::get_large_info_offset(proxy.offset, proxy.info_offset);
    assert_eq!(at, f.function_headers[0].info_offset());

    let g = HermesFile::deserialize(bytes).unwrap();
    assert_eq!(g.function_headers, f.function_headers);
}

#[test]
fn decoded_instructions_are_returned_and_kept_behind_those_that_were_there() {
    let mut f = minimal_file(95);
    let bytes = f.serialize().unwrap();
    let mut g = HermesFile::deserialize(bytes).unwrap();
    let first = g.get_instructions().unwrap();
    assert_eq!(first, g.function_bytecode);
    assert_eq!(first.len(), 1);
    assert_eq!(first[0].func_index, 0);
    assert_eq!(first[0].bytecode, global_code());
    let second = g.get_instructions().unwrap();
    assert_eq!(second.len(), 2);
    assert_eq!(second, g.function_bytecode);
    assert_eq!(second[1], first[0]);
    // Two lists of instructions for one header cannot be written.
    assert_eq!(g.serialize(), Err(HermesError::InternalConsistency));
}
