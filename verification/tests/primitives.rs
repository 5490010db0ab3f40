use hermes_rs::decode::{
    align_reader, decode_i32, decode_i8, decode_u16, decode_u32, decode_u64, decode_u8,
    read_bitfield, Reader,
};
use hermes_rs::digest::{digest_of, footer_matches};
use hermes_rs::encode::{
    align_writer, encode_i16, encode_i32, encode_i8, encode_sleb128, encode_u16, encode_u32,
    encode_u64, encode_u8, write_bitfield, zero_bytes, Writer,
};
use hermes_rs::error::HermesError;
use hermes_rs::layout::align_offset;

#[test]
fn integers_are_little_endian() {
    let mut w = Writer::new();
    encode_u8(&mut w, 0xAB);
    encode_i8(&mut w, -2);
    encode_u16(&mut w, 0x1234);
    encode_i16(&mut w, -2);
    encode_u32(&mut w, 0xDEADBEEF);
    encode_i32(&mut w, -2);
    encode_u64(&mut w, 0x1F19_03C1_03BC_1FC6);
    let bytes = w.into_bytes();
    assert_eq!(
        bytes,
        vec![
            0xAB, 0xFE, 0x34, 0x12, 0xFE, 0xFF, 0xEF, 0xBE, 0xAD, 0xDE, 0xFE, 0xFF, 0xFF, 0xFF, 0xC6,
            0x1F, 0xBC, 0x03, 0xC1, 0x03, 0x19, 0x1F
        ]
    );
    let mut r = Reader::new(bytes);
    assert_eq!(decode_u8(&mut r), Ok(0xAB));
    assert_eq!(decode_i8(&mut r), Ok(-2));
    assert_eq!(decode_u16(&mut r), Ok(0x1234));
    assert_eq!(decode_u16(&mut r), Ok(0xFFFE));
    assert_eq!(decode_u32(&mut r), Ok(0xDEADBEEF));
    assert_eq!(decode_i32(&mut r), Ok(-2));
    assert_eq!(decode_u64(&mut r), Ok(0x1F19_03C1_03BC_1FC6));
    assert_eq!(r.position(), 22);
}

#[test]
fn reading_past_the_end_fails_and_moves_nothing() {
    let mut r = Reader::new(vec![1, 2, 3]);
    assert_eq!(decode_u32(&mut r), Err(HermesError::MalformedInput));
    assert_eq!(r.position(), 0);
    assert_eq!(decode_u64(&mut r), Err(HermesError::MalformedInput));
    assert_eq!(decode_u16(&mut r), Ok(0x0201));
    assert_eq!(decode_u16(&mut r), Err(HermesError::MalformedInput));
    assert_eq!(r.position(), 2);
    assert_eq!(decode_i8(&mut r), Ok(3));
    assert_eq!(decode_u8(&mut r), Err(HermesError::MalformedInput));
    assert_eq!(r.read_exact(1), Err(HermesError::MalformedInput));
    assert_eq!(r.read_exact(0), Ok(vec![]));
    r.seek(10);
    assert_eq!(r.read_exact(0), Err(HermesError::MalformedInput));
    assert_eq!(decode_u8(&mut r), Err(HermesError::MalformedInput));
    assert_eq!(r.position(), 10);
}

#[test]
fn extreme_signed_values() {
    let mut w = Writer::new();
    encode_i8(&mut w, i8::MIN);
    encode_i8(&mut w, i8::MAX);
    encode_i32(&mut w, i32::MIN);
    encode_i32(&mut w, i32::MAX);
    let mut r = Reader::new(w.into_bytes());
    assert_eq!(r.data, vec![0x80, 0x7F, 0, 0, 0, 0x80, 0xFF, 0xFF, 0xFF, 0x7F]);
    assert_eq!(decode_i8(&mut r), Ok(i8::MIN));
    assert_eq!(decode_i8(&mut r), Ok(i8::MAX));
    assert_eq!(decode_i32(&mut r), Ok(i32::MIN));
    assert_eq!(decode_i32(&mut r), Ok(i32::MAX));
}

#[test]
fn bitfield_reads_across_byte_boundaries() {
    let bytes = [0b1010_1101u8, 0b0110_0011, 0xFF, 0x00];
    assert_eq!(read_bitfield(&bytes, 0, 1), 1);
    assert_eq!(read_bitfield(&bytes, 1, 1), 0);
    assert_eq!(read_bitfield(&bytes, 0, 8), 0b1010_1101);
    assert_eq!(read_bitfield(&bytes, 4, 8), 0b0011_1010);
    assert_eq!(read_bitfield(&bytes, 6, 12), 0b1111_0110_0011_10 & 0xFFF);
    assert_eq!(read_bitfield(&bytes, 0, 32), 0x00FF_63AD);
    assert_eq!(read_bitfield(&bytes, 3, 0), 0);
    assert_eq!(read_bitfield(&bytes, 1, 31), 0x007F_B1D6);
    assert_eq!(read_bitfield(&bytes, 8, 24), 0x0000_FF63);
}

#[test]
fn bitfield_write_keeps_the_bits_around_it() {
    let mut bytes = vec![0xFFu8; 4];
    write_bitfield(&mut bytes, 5, 10, 0);
    assert_eq!(bytes, vec![0b0001_1111, 0b1000_0000, 0xFF, 0xFF]);
    write_bitfield(&mut bytes, 5, 10, 0b10_0000_0001);
    assert_eq!(bytes, vec![0b0011_1111, 0b1100_0000, 0xFF, 0xFF]);
    assert_eq!(read_bitfield(&bytes, 5, 10), 0b10_0000_0001);
    assert_eq!(read_bitfield(&bytes, 0, 5), 0b1_1111);
    assert_eq!(read_bitfield(&bytes, 15, 17), 0x1FFFF);
}

#[test]
fn bitfield_write_cuts_the_value_to_the_width() {
    let mut bytes = zero_bytes(2);
    write_bitfield(&mut bytes, 4, 4, 0xABCD);
    assert_eq!(bytes, vec![0xD0, 0x00]);
    write_bitfield(&mut bytes, 0, 0, 0xFFFF_FFFF);
    assert_eq!(bytes, vec![0xD0, 0x00]);
    write_bitfield(&mut bytes, 0, 16, 0xFFFF_1234);
    assert_eq!(bytes, vec![0x34, 0x12]);
}

#[test]
fn alignment_of_reader_and_writer() {
    let mut r = Reader::new(vec![0; 40]);
    assert_eq!(align_reader(&mut r, 4), Ok(0));
    r.seek(1);
    assert_eq!(align_reader(&mut r, 4), Ok(4));
    assert_eq!(align_reader(&mut r, 4), Ok(4));
    r.seek(33);
    assert_eq!(align_reader(&mut r, 32), Ok(64));
    assert_eq!(align_reader(&mut r, 0), Err(HermesError::MalformedInput));

    let mut w = Writer::new();
    align_writer(&mut w, 4);
    assert_eq!(w.position(), 0);
    encode_u8(&mut w, 7);
    align_writer(&mut w, 4);
    assert_eq!(w.buf, vec![7, 0, 0, 0]);
    align_writer(&mut w, 4);
    assert_eq!(w.position(), 4);
    align_writer(&mut w, 32);
    assert_eq!(w.position(), 32);
    assert!(w.buf[4..].iter().all(|b| *b == 0));

    assert_eq!(align_offset(0), 0);
    assert_eq!(align_offset(1), 4);
    assert_eq!(align_offset(7), 8);
    assert_eq!(align_offset(8), 8);
}

#[test]
fn signed_leb128_known_encodings() {
    fn enc(x: i64) -> Vec<u8> {
        let mut w = Writer::new();
        encode_sleb128(&mut w, x);
        w.into_bytes()
    }
    assert_eq!(enc(0), vec![0x00]);
    assert_eq!(enc(1), vec![0x01]);
    assert_eq!(enc(-1), vec![0x7F]);
    assert_eq!(enc(63), vec![0x3F]);
    assert_eq!(enc(64), vec![0xC0, 0x00]);
    assert_eq!(enc(-64), vec![0x40]);
    assert_eq!(enc(-65), vec![0xBF, 0x7F]);
    assert_eq!(enc(127), vec![0xFF, 0x00]);
    assert_eq!(enc(128), vec![0x80, 0x01]);
    assert_eq!(enc(-123456), vec![0xC0, 0xBB, 0x78]);
    assert_eq!(enc(624485), vec![0xE5, 0x8E, 0x26]);
    assert_eq!(enc(i64::MAX).len(), 10);
    assert_eq!(enc(i64::MIN), vec![0x80, 0x80, 0x80, 0x80, 0x80, 0x80, 0x80, 0x80, 0x80, 0x7F]);
}

#[test]
fn sha1_of_known_messages() {
    let hello = digest_of(&b"hello world".to_vec());
    assert_eq!(
        hello,
        [
            0x2a, 0xae, 0x6c, 0x35, 0xc9, 0x4f, 0xcf, 0xb4, 0x15, 0xdb, 0xe9, 0x5f, 0x40, 0x8b, 0x9c,
            0xe9, 0x1e, 0xe8, 0x46, 0xed
        ]
    );
    let empty = digest_of(&Vec::new());
    assert_eq!(
        empty,
        [
            0xda, 0x39, 0xa3, 0xee, 0x5e, 0x6b, 0x4b, 0x0d, 0x32, 0x55, 0xbf, 0xef, 0x95, 0x60, 0x18,
            0x90, 0xaf, 0xd8, 0x07, 0x09
        ]
    );
    assert!(footer_matches(&b"hello world".to_vec(), &hello));
    assert!(!footer_matches(&b"hello world!".to_vec(), &hello));
}

#[test]
fn error_messages() {
    assert_eq!(HermesError::MalformedInput.message(), "malformed input");
    assert_eq!(HermesError::UnsupportedVersion.message(), "unsupported bytecode version");
    assert_eq!(HermesError::IntegrityFailure.message(), "footer hash mismatch");
    assert_eq!(HermesError::InternalConsistency.message(), "inconsistent file model");
}
