use aiocogeo::cursor::{
    decode_u16, decode_u32, decode_u64, to_i16, to_i32, to_i64, to_i8, ByteRange, ByteRangeCursor,
    Endianness,
};
use aiocogeo::error::AiocogeoError;

const BYTES: [u8; 8] = [0x01, 0x23, 0x45, 0x67, 0x89, 0xab, 0xcd, 0xef];

#[test]
fn default_byte_order_is_little_endian() {
    assert_eq!(Endianness::default(), Endianness::LittleEndian);
}

#[test]
fn decode_u16_in_both_byte_orders() {
    assert_eq!(decode_u16(&BYTES, Endianness::LittleEndian), 0x2301);
    assert_eq!(decode_u16(&BYTES, Endianness::BigEndian), 0x0123);
}

#[test]
fn decode_u32_in_both_byte_orders() {
    assert_eq!(decode_u32(&BYTES, Endianness::LittleEndian), 0x6745_2301);
    assert_eq!(decode_u32(&BYTES, Endianness::BigEndian), 0x0123_4567);
}

#[test]
fn decode_u64_in_both_byte_orders() {
    assert_eq!(decode_u64(&BYTES, Endianness::LittleEndian), 0xefcd_ab89_6745_2301);
    assert_eq!(decode_u64(&BYTES, Endianness::BigEndian), 0x0123_4567_89ab_cdef);
}

#[test]
fn decode_takes_only_the_leading_bytes() {
    let bytes = [0x2a, 0x00, 0xff, 0xff, 0xff];
    assert_eq!(decode_u16(&bytes, Endianness::LittleEndian), 42);
}

#[test]
fn bit_patterns_read_as_twos_complement() {
    assert_eq!(to_i8(0x7f), 127);
    assert_eq!(to_i8(0x80), -128);
    assert_eq!(to_i8(0xff), -1);
    assert_eq!(to_i16(0xfffe), -2);
    assert_eq!(to_i16(0x8000), i16::MIN);
    assert_eq!(to_i16(12), 12);
    assert_eq!(to_i32(0xffff_ec78), -5000);
    assert_eq!(to_i32(0x8000_0000), i32::MIN);
    assert_eq!(to_i64(u64::MAX), -1);
    assert_eq!(to_i64(0x8000_0000_0000_0000), i64::MIN);
    assert_eq!(to_i64(7), 7);
}

#[test]
fn twos_complement_agrees_with_the_cast() {
    for x in 0..=u8::MAX {
        assert_eq!(to_i8(x), x as i8);
    }
    for x in 0..=u16::MAX {
        assert_eq!(to_i16(x), x as i16);
    }
}

#[test]
fn byte_range_length() {
    assert_eq!(ByteRange { start: 10, end: 22 }.len(), 12);
    assert_eq!(ByteRange { start: 10, end: 10 }.len(), 0);
    assert_eq!(ByteRange { start: 10, end: 3 }.len(), 0);
}

#[test]
fn read_advances_by_width() {
    let bytes = [0x34u8, 0x12, 0x78, 0x56, 0x34, 0x12];
    let mut cursor = ByteRangeCursor::new(&bytes, 0, Endianness::LittleEndian);
    assert_eq!(cursor.read_u16(), Ok(0x1234));
    assert_eq!(cursor.position(), 2);
    assert_eq!(cursor.read_u32(), Ok(0x12345678));
    assert_eq!(cursor.position(), 6);
    assert_eq!(cursor.read_u8(), Err(AiocogeoError::RangeFetch));
    assert_eq!(cursor.position(), 6);
}

#[test]
fn every_scalar_read_advances_by_its_width() {
    let bytes = [0xffu8; 64];
    let mut cursor = ByteRangeCursor::new(&bytes, 0, Endianness::BigEndian);
    assert_eq!(cursor.read_u8(), Ok(0xff));
    assert_eq!(cursor.position(), 1);
    assert_eq!(cursor.read_i8(), Ok(-1));
    assert_eq!(cursor.position(), 2);
    assert_eq!(cursor.read_u16(), Ok(0xffff));
    assert_eq!(cursor.position(), 4);
    assert_eq!(cursor.read_i16(), Ok(-1));
    assert_eq!(cursor.position(), 6);
    assert_eq!(cursor.read_u32(), Ok(u32::MAX));
    assert_eq!(cursor.position(), 10);
    assert_eq!(cursor.read_i32(), Ok(-1));
    assert_eq!(cursor.position(), 14);
    assert_eq!(cursor.read_u64(), Ok(u64::MAX));
    assert_eq!(cursor.position(), 22);
    assert_eq!(cursor.read_i64(), Ok(-1));
    assert_eq!(cursor.position(), 30);
    assert_eq!(cursor.read_f32_bits(), Ok(u32::MAX));
    assert_eq!(cursor.position(), 34);
    assert_eq!(cursor.read_f64_bits(), Ok(u64::MAX));
    assert_eq!(cursor.position(), 42);
}

#[test]
fn floating_point_reads_give_the_bit_pattern() {
    let mut bytes = Vec::new();
    bytes.extend_from_slice(&1.5f32.to_be_bytes());
    bytes.extend_from_slice(&(-2.25f64).to_be_bytes());
    let mut cursor = ByteRangeCursor::new(&bytes, 0, Endianness::BigEndian);
    assert_eq!(cursor.read_f32_bits().map(f32::from_bits), Ok(1.5));
    assert_eq!(cursor.read_f64_bits().map(f64::from_bits), Ok(-2.25));
}

#[test]
fn read_gives_the_bytes_of_the_range() {
    let mut cursor = ByteRangeCursor::new(&BYTES, 0, Endianness::LittleEndian);
    cursor.seek(3);
    assert_eq!(cursor.read(2), Ok(&BYTES[3..5]));
    assert_eq!(cursor.position(), 5);
    assert_eq!(cursor.read(0), Ok(&BYTES[5..5]));
    assert_eq!(cursor.read(3), Ok(&BYTES[5..8]));
    assert_eq!(cursor.read(0), Ok(&BYTES[8..8]));
}

#[test]
fn offsets_are_those_of_the_remote_object() {
    let mut cursor = ByteRangeCursor::new(&BYTES, 1000, Endianness::BigEndian);
    assert_eq!(cursor.position(), 1000);
    cursor.seek(1004);
    assert_eq!(cursor.read_u16(), Ok(0x89ab));
    cursor.seek(999);
    assert_eq!(cursor.read_u8(), Err(AiocogeoError::RangeFetch));
    assert_eq!(cursor.position(), 999);
    cursor.seek(1007);
    assert_eq!(cursor.read_u16(), Err(AiocogeoError::RangeFetch));
    assert_eq!(cursor.read_u8(), Ok(0xef));
    assert_eq!(cursor.position(), 1008);
}

#[test]
fn a_failed_read_leaves_the_cursor() {
    let mut cursor = ByteRangeCursor::new(&BYTES, 0, Endianness::LittleEndian);
    cursor.seek(6);
    assert_eq!(cursor.read_u32(), Err(AiocogeoError::RangeFetch));
    assert_eq!(cursor.position(), 6);
    assert_eq!(cursor.read(u64::MAX), Err(AiocogeoError::RangeFetch));
    assert_eq!(cursor.position(), 6);
    cursor.seek(u64::MAX);
    assert_eq!(cursor.read(1), Err(AiocogeoError::RangeFetch));
    assert_eq!(cursor.position(), u64::MAX);
}

#[test]
fn seek_and_advance_touch_no_bytes() {
    let empty: [u8; 0] = [];
    let mut cursor = ByteRangeCursor::new(&empty, 0, Endianness::LittleEndian);
    cursor.seek(500);
    assert_eq!(cursor.position(), 500);
    cursor.advance(12);
    assert_eq!(cursor.position(), 512);
    cursor.advance(0);
    assert_eq!(cursor.position(), 512);
}

#[test]
fn byte_order_can_be_set() {
    let mut cursor = ByteRangeCursor::new(&BYTES, 0, Endianness::LittleEndian);
    assert_eq!(cursor.endianness(), Endianness::LittleEndian);
    cursor.set_endianness(Endianness::BigEndian);
    assert_eq!(cursor.endianness(), Endianness::BigEndian);
    assert_eq!(cursor.read_u16(), Ok(0x0123));
    cursor.set_endianness(Endianness::LittleEndian);
    assert_eq!(cursor.read_u16(), Ok(0x6745));
    assert_eq!(cursor.position(), 4);
}

#[test]
fn a_window_at_the_end_of_the_offsets() {
    let mut cursor = ByteRangeCursor::new(&BYTES, u64::MAX - 2, Endianness::LittleEndian);
    assert_eq!(cursor.position(), u64::MAX - 2);
    assert_eq!(cursor.read_u16(), Ok(0x2301));
    assert_eq!(cursor.position(), u64::MAX);
    assert_eq!(cursor.read(0), Ok(&BYTES[2..2]));
    assert_eq!(cursor.read_u8(), Err(AiocogeoError::RangeFetch));
    assert_eq!(cursor.position(), u64::MAX);
    cursor.seek(u64::MAX - 1);
    assert_eq!(cursor.read_u16(), Err(AiocogeoError::RangeFetch));
    assert_eq!(cursor.read_u8(), Ok(0x23));
}
