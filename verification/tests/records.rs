use hermes_rs::array_parser::{parse_literal_sequence, ArrayTypes};
use hermes_rs::big_int_table::BigIntTableEntry;
use hermes_rs::bytecode_options::BytecodeOptions;
use hermes_rs::cjs_module::{CJSModule, CJSModuleEntry, CJSModuleInt};
use hermes_rs::codec::{
    read_aligned_bytes, read_aligned_table, read_aligned_words, read_table, read_words, write_table,
    write_words, Serializable,
};
use hermes_rs::debug_info::{
    DebugFileRegion, DebugInfo, DebugInfoHeader, DebugInfoOffsets, DebugInfoOffsetsNew,
    DebugInfoOffsetsOld, DebugStringTable,
};
use hermes_rs::decode::Reader;
use hermes_rs::encode::Writer;
use hermes_rs::error::HermesError;
use hermes_rs::exception_handler::ExceptionHandlerInfo;
use hermes_rs::function_sources::FunctionSourceEntry;
use hermes_rs::header::{HermesHeader, HermesStructReader, MAGIC};
use hermes_rs::regexp_table::RegExpTableEntry;
use hermes_rs::string_kind::{StringKind, StringKindEntry, StringKindEntryNew, StringKindEntryOld};
use hermes_rs::string_table::{OverflowStringTableEntry, SmallStringTableEntry};

fn written<T: Serializable>(v: &T) -> Vec<u8> {
    let mut w = Writer::new();
    v.serialize(&mut w);
    w.into_bytes()
}

fn header(version: u32) -> HermesHeader {
    let mut h = HermesHeader::new();
    h.magic = MAGIC;
    h.version = version;
    h.sha1 = [7; 20];
    h.file_length = 1;
    h.global_code_index = 2;
    h.function_count = 3;
    h.string_kind_count = 4;
    h.identifier_count = 5;
    h.string_count = 6;
    h.overflow_string_count = 7;
    h.string_storage_size = 8;
    h.reg_exp_count = 11;
    h.reg_exp_storage_size = 12;
    h.array_buffer_size = 13;
    h.obj_key_buffer_size = 14;
    h.obj_value_buffer_size = 15;
    h.function_source_count = 18;
    h.debug_info_offset = 19;
    h.options = BytecodeOptions {
        static_builtins: true,
        cjs_modules_statically_resolved: false,
        has_async: true,
        flags: false,
    };
    if version >= 87 {
        h.big_int_count = 9;
        h.big_int_storage_size = 10;
    }
    if version >= 84 {
        h.cjs_module_count = 17;
    }
    if version >= 78 {
        h.segment_id = 16;
    } else {
        h.cjs_module_offset = 16;
    }
    h
}

#[test]
fn header_is_128_bytes_in_every_version_and_reads_back() {
    for version in [51u32, 76, 77, 78, 83, 84, 86, 87, 90, 96] {
        let h = header(version);
        let mut w = Writer::new();
        h.serialize(&mut w);
        let bytes = w.into_bytes();
        assert_eq!(bytes.len(), 128);
        assert_eq!(h.size(), 128);
        assert_eq!(&bytes[0..8], &[0xC6, 0x1F, 0xBC, 0x03, 0xC1, 0x03, 0x19, 0x1F]);
        assert_eq!(&bytes[8..12], &version.to_le_bytes());
        assert_eq!(&bytes[12..32], &[7; 20]);
        assert_eq!(&bytes[32..36], &[1, 0, 0, 0]);
        let raw = 97 + if version >= 87 { 8 } else { 0 } + if version >= 84 { 4 } else { 0 };
        assert_eq!(bytes[raw - 1], 0b0101);
        assert_eq!(&bytes[raw - 5..raw - 1], &[19, 0, 0, 0]);
        assert!(bytes[raw..].iter().all(|b| *b == 0));
        let mut r = Reader::new(bytes.clone());
        assert_eq!(HermesHeader::deserialize(&mut r, 0), Ok(h));
        assert_eq!(r.position(), 128);
        assert!(h.has_valid_magic());
        let mut r = Reader::new(bytes[..raw - 1].to_vec());
        assert_eq!(HermesHeader::deserialize(&mut r, 0), Err(HermesError::MalformedInput));
        assert_eq!(r.position(), 0);
        let mut r = Reader::new(bytes);
        let again: HermesHeader = HermesStructReader::deserialize(&mut r, 0).unwrap();
        assert_eq!(again, h);
    }
    let h = header(96);
    let mut w = Writer::new();
    h.serialize(&mut w);
    let bytes = w.into_bytes();
    // big_int_count at 64, segment_id at 92, cjs_module_count at 96, function_source_count at 100.
    assert_eq!(bytes[64], 9);
    assert_eq!(bytes[72], 11);
    assert_eq!(bytes[92], 16);
    assert_eq!(bytes[96], 17);
    assert_eq!(bytes[100], 18);
    assert_eq!(HermesHeader::default(), HermesHeader::new());
    assert!(!HermesHeader::new().has_valid_magic());
}

#[test]
fn options_byte_has_one_bit_for_each_flag() {
    for bits in 0..16u8 {
        let o = BytecodeOptions {
            static_builtins: bits & 1 != 0,
            cjs_modules_statically_resolved: bits & 2 != 0,
            has_async: bits & 4 != 0,
            flags: bits & 8 != 0,
        };
        let mut w = Writer::new();
        o.serialize(&mut w);
        assert_eq!(w.buf, vec![bits]);
        let mut r = Reader::new(vec![bits | 0xF0]);
        assert_eq!(BytecodeOptions::deserialize(&mut r, 96), Ok(o));
        assert_eq!(o.size(), 1);
    }
    assert_eq!(BytecodeOptions::default(), BytecodeOptions::new());
    let mut r = Reader::new(vec![]);
    assert_eq!(BytecodeOptions::deserialize(&mut r, 96), Err(HermesError::MalformedInput));
}

#[test]
fn word_records() {
    let eh = ExceptionHandlerInfo { start: 1, end: 0x0203, target: 0xFFFF_FFFF };
    assert_eq!(written(&eh), vec![1, 0, 0, 0, 3, 2, 0, 0, 255, 255, 255, 255]);
    assert_eq!(eh.size(), 12);
    let mut r = Reader::new(written(&eh));
    assert_eq!(ExceptionHandlerInfo::deserialize(&mut r, 96), Ok(eh));
    let mut r = Reader::new(vec![0; 11]);
    assert_eq!(ExceptionHandlerInfo::deserialize(&mut r, 96), Err(HermesError::MalformedInput));
    assert_eq!(r.position(), 0);

    assert_eq!(written(&BigIntTableEntry { offset: 1, length: 2 }), vec![1, 0, 0, 0, 2, 0, 0, 0]);
    assert_eq!(written(&RegExpTableEntry { offset: 3, length: 4 }), vec![3, 0, 0, 0, 4, 0, 0, 0]);
    assert_eq!(
        written(&FunctionSourceEntry { function_id: 5, string_id: 6 }),
        vec![5, 0, 0, 0, 6, 0, 0, 0]
    );
    assert_eq!(
        written(&OverflowStringTableEntry { offset: 7, length: 8 }),
        vec![7, 0, 0, 0, 8, 0, 0, 0]
    );
    assert_eq!(written(&CJSModuleEntry { symbol_id: 9, offset: 10 }), vec![9, 0, 0, 0, 10, 0, 0, 0]);
    assert_eq!(written(&CJSModuleInt { value: 11 }), vec![11, 0, 0, 0]);
    assert_eq!(written(&DebugStringTable { offset: 1, length: 2 }).len(), 8);
    assert_eq!(
        written(&DebugFileRegion { from_address: 1, filename_id: 2, source_mapping_url_id: 3 }).len(),
        12
    );
    assert_eq!(written(&DebugInfoOffsetsOld { src: 1, scope_desc: 2 }).len(), 8);
    assert_eq!(written(&DebugInfoOffsetsNew { src: 1, scope_desc: 2, callee: 3 }).len(), 12);
    let mut r = Reader::new(vec![9, 0, 0, 0, 10, 0, 0, 0]);
    assert_eq!(CJSModuleEntry::deserialize(&mut r, 96), Ok(CJSModuleEntry { symbol_id: 9, offset: 10 }));
    let mut w = Writer::new();
    CJSModule::CJSModuleInt(CJSModuleInt { value: 5 }).serialize(&mut w);
    CJSModule::CJSModuleEntry(CJSModuleEntry { symbol_id: 1, offset: 2 }).serialize(&mut w);
    assert_eq!(w.buf, vec![5, 0, 0, 0, 1, 0, 0, 0, 2, 0, 0, 0]);
    assert_eq!(CJSModule::CJSModuleInt(CJSModuleInt { value: 5 }).size(), 4);
    assert_eq!(CJSModule::CJSModuleEntry(CJSModuleEntry { symbol_id: 1, offset: 2 }).size(), 8);
}

#[test]
fn small_string_entry_is_packed_into_four_bytes() {
    let e = SmallStringTableEntry { is_utf_16: true, offset: 0x12_3456, length: 0xAB };
    let bytes = written(&e);
    // Bit 0 is the flag, bits 1 to 23 the offset, the last byte the length.
    assert_eq!(bytes, vec![0xAD, 0x68, 0x24, 0xAB]);
    let mut r = Reader::new(bytes);
    assert_eq!(SmallStringTableEntry::deserialize(&mut r, 96), Ok(e));
    assert!(!e.is_overflow());
    assert!(SmallStringTableEntry { is_utf_16: false, offset: 0, length: 255 }.is_overflow());
    let wide = SmallStringTableEntry { is_utf_16: false, offset: 0x80_0001, length: 0x101 };
    let mut r = Reader::new(written(&wide));
    assert_eq!(
        SmallStringTableEntry::deserialize(&mut r, 96),
        Ok(SmallStringTableEntry { is_utf_16: false, offset: 1, length: 1 })
    );
}

#[test]
fn string_kind_entries_in_both_layouts() {
    let new = StringKindEntryNew { count: 5, kind: StringKind::Identifier };
    let mut w = Writer::new();
    new.serialize(&mut w);
    assert_eq!(w.buf, vec![5, 0, 0, 0x80]);
    let mut r = Reader::new(w.into_bytes());
    assert_eq!(StringKindEntryNew::deserialize(&mut r, 96), Ok(new));
    assert_eq!(new.size(), 4);

    let old = StringKindEntryOld { count: 5, kind: StringKind::Predefined };
    let mut w = Writer::new();
    old.serialize(&mut w);
    assert_eq!(w.buf, vec![5, 0, 0, 0x80]);
    let mut r = Reader::new(w.into_bytes());
    assert_eq!(StringKindEntryOld::deserialize(&mut r, 70), Ok(old));

    // The same four bytes are read by the layout of the version.
    let mut r = Reader::new(vec![5, 0, 0, 0x40]);
    assert_eq!(
        StringKindEntry::deserialize(&mut r, 71),
        Ok(StringKindEntry::Old(StringKindEntryOld { count: 5, kind: StringKind::Identifier }))
    );
    let mut r = Reader::new(vec![5, 0, 0, 0x40]);
    assert_eq!(
        StringKindEntry::deserialize(&mut r, 72),
        Ok(StringKindEntry::New(StringKindEntryNew { count: 0x4000_0005, kind: StringKind::String }))
    );
    // Kind 3 of the old layout is no kind.
    let mut r = Reader::new(vec![5, 0, 0, 0xC0]);
    assert_eq!(StringKindEntry::deserialize(&mut r, 71), Err(HermesError::MalformedInput));
    assert_eq!(r.position(), 0);
    // One bit of kind has no room for `Predefined`.
    let lost = StringKindEntryNew { count: 1, kind: StringKind::Predefined };
    let mut w = Writer::new();
    lost.serialize(&mut w);
    let mut r = Reader::new(w.into_bytes());
    assert_eq!(
        StringKindEntryNew::deserialize(&mut r, 96),
        Ok(StringKindEntryNew { count: 1, kind: StringKind::String })
    );
    assert_eq!(StringKind::Predefined.code(), 2);
    assert_eq!(StringKind::from_code(1), Some(StringKind::Identifier));
    assert_eq!(StringKind::from_code(3), None);
}

#[test]
fn tables_and_words() {
    let items = vec![
        BigIntTableEntry { offset: 1, length: 2 },
        BigIntTableEntry { offset: 3, length: 4 },
        BigIntTableEntry { offset: 5, length: 6 },
    ];
    let mut w = Writer::new();
    w.write_all(&[9]);
    write_table(&mut w, &items);
    write_words(&mut w, &vec![0x0102_0304, 7]);
    let bytes = w.into_bytes();
    assert_eq!(bytes.len(), 1 + 24 + 8);
    let mut r = Reader::new(bytes.clone());
    r.seek(1);
    assert_eq!(read_table::<BigIntTableEntry>(&mut r, 3, 96), Ok(items.clone()));
    assert_eq!(read_words(&mut r, 2), Ok(vec![0x0102_0304, 7]));
    assert_eq!(read_words(&mut r, 1), Err(HermesError::MalformedInput));
    assert_eq!(r.position(), 33);
    r.seek(1);
    assert_eq!(read_table::<BigIntTableEntry>(&mut r, 5, 96), Err(HermesError::MalformedInput));
    assert_eq!(read_table::<BigIntTableEntry>(&mut r, 0, 96), Ok(vec![]));

    // Aligned reads skip to the next multiple of four first.
    let mut r = Reader::new(vec![0xAA, 0, 0, 0, 1, 0, 0, 0, 2, 0, 0, 0, 3]);
    r.seek(1);
    assert_eq!(
        read_aligned_table::<BigIntTableEntry>(&mut r, 1, 96),
        Ok(vec![BigIntTableEntry { offset: 1, length: 2 }])
    );
    assert_eq!(r.position(), 12);
    assert_eq!(read_aligned_bytes(&mut r, 1), Ok(vec![3]));
    assert_eq!(read_aligned_bytes(&mut r, 1), Err(HermesError::MalformedInput));
    assert_eq!(r.position(), 13);
    r.seek(2);
    assert_eq!(read_aligned_words(&mut r, 2), Ok(vec![1, 2]));
    r.seek(2);
    assert_eq!(read_aligned_words(&mut r, 3), Err(HermesError::MalformedInput));
    assert_eq!(r.position(), 2);
}

#[test]
fn debug_offsets_are_aligned_and_sized_by_version() {
    let new = DebugInfoOffsets::New(DebugInfoOffsetsNew { src: 1, scope_desc: 2, callee: 3 });
    let old = DebugInfoOffsets::Old(DebugInfoOffsetsOld { src: 1, scope_desc: 2 });
    assert_eq!(new.size(), 12);
    assert_eq!(old.size(), 8);
    let mut w = Writer::new();
    w.write_all(&[0xEE]);
    new.serialize(&mut w);
    assert_eq!(w.buf, vec![0xEE, 0, 0, 0, 1, 0, 0, 0, 2, 0, 0, 0, 3, 0, 0, 0]);
    let mut r = Reader::new(w.into_bytes());
    r.seek(1);
    assert_eq!(DebugInfoOffsets::deserialize(&mut r, 91), Ok(new));
    assert_eq!(r.position(), 16);
    r.seek(2);
    assert_eq!(DebugInfoOffsets::deserialize(&mut r, 90), Ok(old));
    assert_eq!(r.position(), 12);
    r.seek(5);
    assert_eq!(DebugInfoOffsets::deserialize(&mut r, 91), Err(HermesError::MalformedInput));
    assert_eq!(r.position(), 5);
}

#[test]
fn debug_header_is_20_or_28_bytes() {
    let new = DebugInfoHeader {
        filename_count: 1,
        filename_storage_size: 2,
        file_region_count: 3,
        scope_desc_data_offset: 4,
        textified_callee_offset: Some(5),
        string_table_offset: Some(6),
        debug_data_size: 7,
    };
    let mut w = Writer::new();
    new.serialize(&mut w);
    assert_eq!(w.buf.len(), 28);
    assert_eq!(new.size(), 28);
    assert_eq!(&w.buf[16..28], &[5, 0, 0, 0, 6, 0, 0, 0, 7, 0, 0, 0]);
    let mut r = Reader::new(w.into_bytes());
    assert_eq!(DebugInfoHeader::deserialize(&mut r, 91), Ok(new));
    let old = DebugInfoHeader { textified_callee_offset: None, string_table_offset: None, ..new };
    let mut w = Writer::new();
    old.serialize(&mut w);
    assert_eq!(w.buf.len(), 20);
    assert_eq!(old.size(), 20);
    let mut r = Reader::new(w.into_bytes());
    assert_eq!(DebugInfoHeader::deserialize(&mut r, 90), Ok(old));
    let mut r = Reader::new(vec![0; 27]);
    assert_eq!(DebugInfoHeader::deserialize(&mut r, 91), Err(HermesError::MalformedInput));
    let mut r = Reader::new(vec![0; 27]);
    assert!(DebugInfoHeader::deserialize(&mut r, 90).is_ok());
}

fn debug_section(version: u32) -> DebugInfo {
    let new = version >= 91;
    DebugInfo {
        header: DebugInfoHeader {
            filename_count: 2,
            filename_storage_size: 5,
            file_region_count: 1,
            scope_desc_data_offset: 3,
            textified_callee_offset: if new { Some(5) } else { None },
            string_table_offset: if new { Some(9) } else { None },
            debug_data_size: 10,
        },
        string_table: vec![
            DebugStringTable { offset: 0, length: 2 },
            DebugStringTable { offset: 2, length: 3 },
        ],
        string_storage: b"a.b.c".to_vec(),
        file_regions: vec![DebugFileRegion { from_address: 0, filename_id: 1, source_mapping_url_id: 0 }],
        sources_data_storage: vec![1, 2, 3],
        scope_desc_data_storage: if new { vec![4, 5] } else { vec![4, 5, 6, 7, 8, 9, 10] },
        textified_callee_storage: if new { vec![6, 7, 8, 9] } else { vec![] },
        string_table_storage: if new { vec![10] } else { vec![] },
    }
}

#[test]
fn debug_section_reads_back_in_both_layouts() {
    for version in [90u32, 91] {
        let d = debug_section(version);
        let mut w = Writer::new();
        w.write_all(&[0xEE; 3]);
        d.serialize(&mut w);
        let bytes = w.into_bytes();
        assert_eq!(bytes.len(), 3 + d.size());
        assert_eq!(d.size(), (if version >= 91 { 28 } else { 20 }) + 16 + 5 + 12 + 10);
        let mut r = Reader::new(bytes.clone());
        r.seek(3);
        assert_eq!(DebugInfo::deserialize(&mut r, version), Ok(d));
        assert_eq!(r.position(), bytes.len());
        let mut r = Reader::new(bytes[..bytes.len() - 1].to_vec());
        r.seek(3);
        assert_eq!(DebugInfo::deserialize(&mut r, version), Err(HermesError::MalformedInput));
    }
    // An empty section is a header of zeros.
    let empty = DebugInfo::empty(96);
    let mut w = Writer::new();
    empty.serialize(&mut w);
    assert_eq!(w.buf, vec![0; 28]);
    let mut r = Reader::new(vec![0; 28]);
    assert_eq!(DebugInfo::deserialize(&mut r, 96), Ok(empty));
    let mut r = Reader::new(vec![0; 20]);
    assert_eq!(DebugInfo::deserialize(&mut r, 84), Ok(DebugInfo::empty(84)));
}

#[test]
fn debug_section_with_offsets_out_of_order_is_malformed() {
    let mut d = debug_section(91);
    d.header.textified_callee_offset = Some(2);
    let mut w = Writer::new();
    d.serialize(&mut w);
    let mut r = Reader::new(w.into_bytes());
    assert_eq!(DebugInfo::deserialize(&mut r, 91), Err(HermesError::MalformedInput));
    let mut d = debug_section(90);
    d.header.scope_desc_data_offset = 11;
    let mut w = Writer::new();
    d.serialize(&mut w);
    let mut r = Reader::new(w.into_bytes());
    assert_eq!(DebugInfo::deserialize(&mut r, 90), Err(HermesError::MalformedInput));
}

#[test]
fn literal_sequences() {
    // Three short strings, then a sequence of two numbers, then nulls.
    let mut buffer = vec![0x53, 1, 0, 2, 0, 3, 0];
    buffer.extend([0x32]);
    buffer.extend(1.5f64.to_bits().to_le_bytes());
    buffer.extend(2u64.to_le_bytes());
    buffer.extend([0x04, 0x11, 0x21, 0x62, 9, 8, 0x71, 0x78, 0x56, 0x34, 0x12, 0x41, 1, 0, 0, 0]);
    assert_eq!(
        parse_literal_sequence(&buffer, 0, 0),
        Ok((
            7,
            vec![
                ArrayTypes::ShortStringValue { value: 1 },
                ArrayTypes::ShortStringValue { value: 2 },
                ArrayTypes::ShortStringValue { value: 3 }
            ]
        ))
    );
    assert_eq!(
        parse_literal_sequence(&buffer, 7, 0),
        Ok((
            24,
            vec![
                ArrayTypes::NumberValue { value: 1.5f64.to_bits() },
                ArrayTypes::NumberValue { value: 2 }
            ]
        ))
    );
    assert_eq!(parse_literal_sequence(&buffer, 24, 0), Ok((25, vec![ArrayTypes::NullValue {}; 4])));
    assert_eq!(
        parse_literal_sequence(&buffer, 25, 0),
        Ok((26, vec![ArrayTypes::TrueValue { value: true }]))
    );
    assert_eq!(
        parse_literal_sequence(&buffer, 26, 0),
        Ok((27, vec![ArrayTypes::FalseValue { value: false }]))
    );
    assert_eq!(
        parse_literal_sequence(&buffer, 27, 0),
        Ok((
            30,
            vec![ArrayTypes::ByteStringValue { value: 9 }, ArrayTypes::ByteStringValue { value: 8 }]
        ))
    );
    assert_eq!(
        parse_literal_sequence(&buffer, 30, 0),
        Ok((35, vec![ArrayTypes::IntegerValue { value: 0x1234_5678 }]))
    );
    assert_eq!(
        parse_literal_sequence(&buffer, 35, 0),
        Ok((40, vec![ArrayTypes::LongStringValue { value: 1 }]))
    );
    // A window that ends before the sequence does.
    assert_eq!(parse_literal_sequence(&buffer, 0, 6), Err(HermesError::MalformedInput));
    assert_eq!(parse_literal_sequence(&buffer, 0, 7).unwrap().0, 7);
    assert_eq!(parse_literal_sequence(&buffer, 40, 0), Err(HermesError::MalformedInput));
    assert_eq!(parse_literal_sequence(&buffer, 41, 0), Err(HermesError::MalformedInput));
    assert_eq!(parse_literal_sequence(&buffer, 38, 5), Err(HermesError::MalformedInput));
    assert_eq!(parse_literal_sequence(&buffer, 7, 16), Err(HermesError::MalformedInput));
}

#[test]
fn long_literal_sequence_has_a_twelve_bit_length() {
    let mut buffer = vec![0xE1, 0x04];
    buffer.extend(std::iter::repeat(7u8).take(260));
    let (end, values) = parse_literal_sequence(&buffer, 0, 0).unwrap();
    assert_eq!(end, 262);
    assert_eq!(values.len(), 260);
    assert!(values.iter().all(|v| *v == ArrayTypes::ByteStringValue { value: 7 }));
    buffer.pop();
    assert_eq!(parse_literal_sequence(&buffer, 0, 0), Err(HermesError::MalformedInput));
    assert_eq!(parse_literal_sequence(&vec![0x80], 0, 0), Err(HermesError::MalformedInput));
    assert_eq!(parse_literal_sequence(&vec![0x8F, 0xFF], 0, 0).unwrap().1.len(), 4095);
}
