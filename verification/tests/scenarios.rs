//! Concrete encode/decode scenarios with exact expected byte blocks.

use byte_order::{BigEndian, ByteOrder, LittleEndian, NativeEndian};

#[test]
fn u16_little_endian_block() {
    assert_eq!(LittleEndian::write_u16(0x1234), [0x34, 0x12]);
}

#[test]
fn u16_big_endian_block() {
    assert_eq!(BigEndian::write_u16(0x1234), [0x12, 0x34]);
}

#[test]
fn i32_minus_one_both_orders() {
    assert_eq!(LittleEndian::write_i32(-1), [0xFF, 0xFF, 0xFF, 0xFF]);
    assert_eq!(BigEndian::write_i32(-1), [0xFF, 0xFF, 0xFF, 0xFF]);
}

#[test]
fn f32_one_bit_pattern_both_orders() {
    let bits = 1.0f32.to_bits();
    assert_eq!(bits, 0x3F80_0000);
    assert_eq!(LittleEndian::write_u32(bits), [0x00, 0x00, 0x80, 0x3F]);
    assert_eq!(BigEndian::write_u32(bits), [0x3F, 0x80, 0x00, 0x00]);
}

#[test]
fn u64_little_endian_block_and_back() {
    let block = LittleEndian::write_u64(0x0102030405060708);
    assert_eq!(block, [0x08, 0x07, 0x06, 0x05, 0x04, 0x03, 0x02, 0x01]);
    assert_eq!(LittleEndian::read_u64(block), 0x0102030405060708);
}

#[test]
fn u32_decode_exact() {
    assert_eq!(LittleEndian::read_u32([0x78, 0x56, 0x34, 0x12]), 0x12345678);
    assert_eq!(BigEndian::read_u32([0x12, 0x34, 0x56, 0x78]), 0x12345678);
}

#[test]
fn i16_decode_exact() {
    assert_eq!(LittleEndian::read_i16([0x00, 0x80]), i16::MIN);
    assert_eq!(BigEndian::read_i16([0x80, 0x00]), i16::MIN);
    assert_eq!(LittleEndian::read_i16([0xFE, 0xFF]), -2);
    assert_eq!(BigEndian::read_i16([0xFF, 0xFE]), -2);
}

#[test]
fn single_byte_kinds() {
    assert_eq!(LittleEndian::write_u8(0xAB), [0xAB]);
    assert_eq!(BigEndian::write_u8(0xAB), [0xAB]);
    assert_eq!(LittleEndian::write_i8(-2), [0xFE]);
    assert_eq!(BigEndian::write_i8(-2), [0xFE]);
    assert_eq!(LittleEndian::read_u8([0xAB]), 0xAB);
    assert_eq!(BigEndian::read_i8([0xFE]), -2);
    assert_eq!(NativeEndian::read_u8([0xAB]), 0xAB);
    assert_eq!(NativeEndian::write_i8(-2), [0xFE]);
}
