use hermes_rs::debug_info::{DebugInfoOffsets, DebugInfoOffsetsNew, DebugInfoOffsetsOld};
use hermes_rs::decode::{read_bitfield, Reader};
use hermes_rs::encode::Writer;
use hermes_rs::error::HermesError;
use hermes_rs::exception_handler::ExceptionHandlerInfo;
use hermes_rs::function_header::{
    get_large_info_offset, get_large_info_offset_pair, read_function_header, write_function_info,
    FunctionHeader, FunctionHeaderFlag, FunctionHeaderFlagProhibitions, FunctionHeaderImpl,
    LargeFunctionHeader, SmallFunctionHeader,
};

fn sample_small() -> SmallFunctionHeader {
    SmallFunctionHeader {
        offset: 0x1AB_CDEF,
        param_count: 0x7F,
        byte_size: 0x7FFF,
        func_name: 0x1_2345,
        info_offset: 0x155_5555,
        frame_size: 0x55,
        env_size: 0xAA,
        highest_read_cache_index: 0x81,
        highest_write_cache_index: 0x18,
        flags: FunctionHeaderFlag {
            prohibit_invoke: FunctionHeaderFlagProhibitions::ProhibitConstruct,
            strict_mode: true,
            has_exception_handler: false,
            has_debug_info: true,
            overflowed: false,
        },
        exception_handlers: vec![],
        debug_info: None,
    }
}

fn bytes_of_small(h: &SmallFunctionHeader) -> Vec<u8> {
    let mut w = Writer::new();
    h.serialize(&mut w);
    w.into_bytes()
}

#[test]
fn small_header_is_sixteen_bytes_in_the_documented_layout() {
    let h = sample_small();
    let bytes = bytes_of_small(&h);
    assert_eq!(bytes.len(), 16);
    assert_eq!(h.size(), 16);
    assert_eq!(read_bitfield(&bytes, 0, 25), 0x1AB_CDEF);
    assert_eq!(read_bitfield(&bytes, 25, 7), 0x7F);
    assert_eq!(read_bitfield(&bytes, 32, 15), 0x7FFF);
    assert_eq!(read_bitfield(&bytes, 47, 17), 0x1_2345);
    assert_eq!(read_bitfield(&bytes, 64, 25), 0x155_5555);
    assert_eq!(read_bitfield(&bytes, 89, 7), 0x55);
    assert_eq!(read_bitfield(&bytes, 96, 8), 0xAA);
    assert_eq!(read_bitfield(&bytes, 104, 8), 0x81);
    assert_eq!(read_bitfield(&bytes, 112, 8), 0x18);
    assert_eq!(read_bitfield(&bytes, 120, 2), 1);
    assert_eq!(read_bitfield(&bytes, 122, 1), 1);
    assert_eq!(read_bitfield(&bytes, 123, 1), 0);
    assert_eq!(read_bitfield(&bytes, 124, 1), 1);
    // The overflowed bit of a header that fits is off.
    assert_eq!(read_bitfield(&bytes, 125, 1), 0);
    assert_eq!(read_bitfield(&bytes, 126, 2), 0);
    assert_eq!(bytes[15], 0b0001_0101);
}

#[test]
fn small_header_reads_back() {
    let h = sample_small();
    let mut r = Reader::new(bytes_of_small(&h));
    let back = SmallFunctionHeader::deserialize(&mut r, 96).unwrap();
    assert_eq!(back, h);
    assert_eq!(r.position(), 16);
    assert!(h.is_overflowed_check());
    let mut tiny = SmallFunctionHeader::new();
    tiny.func_name = 0x1_FFFF;
    assert!(!tiny.is_overflowed_check());
    tiny.func_name = 0x2_0000;
    assert!(tiny.is_overflowed_check());
}

#[test]
fn small_header_values_are_cut_to_their_fields() {
    let mut h = SmallFunctionHeader::new();
    h.param_count = 0x80 + 5;
    h.frame_size = 0xFFFF_FFFF;
    let mut r = Reader::new(bytes_of_small(&h));
    let back = SmallFunctionHeader::deserialize(&mut r, 96).unwrap();
    assert_eq!(back.param_count, 5);
    assert_eq!(back.frame_size, 0x7F);
    assert_eq!(back.offset, 0);
    assert_eq!(back.byte_size, 0);
}

#[test]
fn prohibit_code_three_is_refused_unless_overflowed() {
    let mut bytes = bytes_of_small(&SmallFunctionHeader::new());
    bytes[15] = 0b0000_0011;
    let mut r = Reader::new(bytes.clone());
    assert_eq!(
        SmallFunctionHeader::deserialize(&mut r, 96),
        Err(HermesError::MalformedInput)
    );
    assert_eq!(r.position(), 0);
    bytes[15] = 0b0010_0011;
    let mut r = Reader::new(bytes);
    let h = SmallFunctionHeader::deserialize(&mut r, 96).unwrap();
    assert!(h.flags.overflowed);
    assert_eq!(h.flags.prohibit_invoke, FunctionHeaderFlagProhibitions::ProhibitNone);

    let mut large = vec![0u8; 32];
    large[30] = 0b0010_0011;
    let mut r = Reader::new(large);
    assert_eq!(
        LargeFunctionHeader::deserialize(&mut r, 96),
        Err(HermesError::MalformedInput)
    );
    let mut r = Reader::new(vec![0u8; 15]);
    assert_eq!(
        SmallFunctionHeader::deserialize(&mut r, 96),
        Err(HermesError::MalformedInput)
    );
}

#[test]
fn large_header_is_thirty_two_bytes_and_reads_back() {
    let mut h = LargeFunctionHeader::new();
    h.offset = 0xDEAD_BEEF;
    h.param_count = 200_000;
    h.byte_size = 1;
    h.func_name = 0xFFFF_FFFF;
    h.info_offset = 0x0102_0304;
    h.frame_size = 300;
    h.env_size = 400;
    h.highest_read_cache_index = 255;
    h.highest_write_cache_index = 7;
    h.flags.overflowed = true;
    h.flags.strict_mode = true;
    h.flags.prohibit_invoke = FunctionHeaderFlagProhibitions::ProhibitCall;
    let mut w = Writer::new();
    h.serialize(&mut w);
    let bytes = w.into_bytes();
    assert_eq!(bytes.len(), 32);
    assert_eq!(h.size(), 32);
    assert_eq!(&bytes[0..4], &[0xEF, 0xBE, 0xAD, 0xDE]);
    assert_eq!(&bytes[16..20], &[4, 3, 2, 1]);
    assert_eq!(bytes[28], 255);
    assert_eq!(bytes[29], 7);
    assert_eq!(bytes[30], 0b0010_0100);
    assert_eq!(bytes[31], 0);
    let mut r = Reader::new(bytes);
    assert_eq!(LargeFunctionHeader::deserialize(&mut r, 96).unwrap(), h);
    assert_eq!(r.position(), 32);
    assert!(h.is_overflowed_check());
}

#[test]
fn large_offset_is_split_and_put_together() {
    assert_eq!(get_large_info_offset_pair(0x0012_3456), (0x3456, 0x12));
    assert_eq!(get_large_info_offset(0x3456, 0x12), 0x0012_3456);
    assert_eq!(get_large_info_offset(0xABCD_3456, 0x1_0012), 0x0012_3456);
    assert_eq!(get_large_info_offset_pair(u32::MAX), (0xFFFF, 0xFFFF));
    assert_eq!(get_large_info_offset(0xFFFF, 0xFFFF), u32::MAX);
    assert_eq!(get_large_info_offset_pair(0), (0, 0));
}

#[test]
fn conversions_between_shapes() {
    let mut l = LargeFunctionHeader::new();
    l.info_offset = 0x0012_3456;
    l.offset = 77;
    l.param_count = 3;
    l.exception_handlers = vec![ExceptionHandlerInfo { start: 1, end: 2, target: 3 }];
    let s = SmallFunctionHeader::from(l.clone());
    assert_eq!(s.offset, 0x3456);
    assert_eq!(s.info_offset, 0x12);
    assert_eq!(s.param_count, 3);
    assert_eq!(s.exception_handlers, l.exception_handlers);
    let back = LargeFunctionHeader::from(s.clone());
    assert_eq!(back.offset, 0x3456);
    assert_eq!(back.info_offset, 0x12);
    assert_eq!(back.exception_handlers, l.exception_handlers);
    assert_eq!(SmallFunctionHeader::default(), SmallFunctionHeader::new());
    assert_eq!(LargeFunctionHeader::default(), LargeFunctionHeader::new());
}

#[test]
fn accessors_of_either_shape() {
    let mut h = FunctionHeader::Small(sample_small());
    assert_eq!(h.offset(), 0x1AB_CDEF);
    assert_eq!(h.param_count(), 0x7F);
    assert_eq!(h.byte_size(), 0x7FFF);
    assert_eq!(h.func_name(), 0x1_2345);
    assert_eq!(h.info_offset(), 0x155_5555);
    assert_eq!(h.frame_size(), 0x55);
    assert_eq!(h.env_size(), 0xAA);
    assert_eq!(h.highest_read_cache_index(), 0x81);
    assert_eq!(h.highest_write_cache_index(), 0x18);
    assert_eq!(h.size(), 16);
    assert!(!h.is_large());
    assert!(h.is_overflowed_check());
    h.set_offset(1);
    h.set_size(2);
    assert_eq!(h.byte_size(), 2);
    h.set_byte_size(3);
    h.set_info_offset(4);
    h.set_overflowed(true);
    h.set_exception_handlers(vec![ExceptionHandlerInfo { start: 9, end: 8, target: 7 }]);
    h.set_debug_info(Some(DebugInfoOffsets::Old(DebugInfoOffsetsOld { src: 1, scope_desc: 2 })));
    assert_eq!(h.offset(), 1);
    assert_eq!(h.byte_size(), 3);
    assert_eq!(h.info_offset(), 4);
    assert!(h.flags().overflowed);
    assert!(h.flags().strict_mode);
    assert_eq!(h.exception_handlers(), vec![ExceptionHandlerInfo { start: 9, end: 8, target: 7 }]);
    assert_eq!(
        h.debug_info(),
        Some(DebugInfoOffsets::Old(DebugInfoOffsetsOld { src: 1, scope_desc: 2 }))
    );
    assert_eq!(h.param_count(), 0x7F);

    let l = FunctionHeader::Large(LargeFunctionHeader::new());
    assert_eq!(l.size(), 32);
    assert!(l.is_large());
    assert!(!l.is_overflowed_check());

    let s = sample_small();
    assert_eq!(FunctionHeaderImpl::func_name(&s), 0x1_2345);
    assert_eq!(FunctionHeaderImpl::flags(&s), s.flags);
    assert_eq!(FunctionHeaderImpl::debug_info(&s), None);
    assert_eq!(FunctionHeaderImpl::exception_handlers(&s), vec![]);
}

#[test]
fn handlers_and_debug_offsets_hang_off_the_header() {
    // A packed record at 0 whose info lies at 18: handlers from 20, debug offsets behind them.
    let mut h = SmallFunctionHeader::new();
    h.info_offset = 18;
    h.flags.has_exception_handler = true;
    h.flags.has_debug_info = true;
    let handlers = vec![
        ExceptionHandlerInfo { start: 1, end: 2, target: 3 },
        ExceptionHandlerInfo { start: 4, end: 5, target: 6 },
    ];
    let debug = DebugInfoOffsets::New(DebugInfoOffsetsNew { src: 7, scope_desc: 8, callee: 9 });
    let mut w = Writer::new();
    h.serialize(&mut w);
    w.write_all(&[0xEE, 0xEE]);
    write_function_info(&mut w, h.flags, &handlers, Some(debug));
    let bytes = w.into_bytes();
    assert_eq!(bytes.len(), 20 + 4 + 24 + 12);
    assert_eq!(&bytes[18..24], &[0, 0, 2, 0, 0, 0]);
    let mut r = Reader::new(bytes.clone());
    let back = read_function_header(&mut r, 96).unwrap();
    assert_eq!(r.position(), 16);
    assert_eq!(back.exception_handlers(), handlers);
    assert_eq!(back.debug_info(), Some(debug));
    assert!(!back.is_large());

    // The same bytes cut short do not read.
    let mut r = Reader::new(bytes[..bytes.len() - 1].to_vec());
    assert_eq!(read_function_header(&mut r, 96), Err(HermesError::MalformedInput));
    assert_eq!(r.position(), 0);

    // Before version 91 the debug offsets are two words.
    let old = DebugInfoOffsets::Old(DebugInfoOffsetsOld { src: 7, scope_desc: 8 });
    let mut w = Writer::new();
    h.serialize(&mut w);
    w.write_all(&[0xEE, 0xEE]);
    write_function_info(&mut w, h.flags, &handlers, Some(old));
    let bytes = w.into_bytes();
    assert_eq!(bytes.len(), 20 + 4 + 24 + 8);
    let mut r = Reader::new(bytes);
    let back = read_function_header(&mut r, 90).unwrap();
    assert_eq!(back.debug_info(), Some(old));
}
