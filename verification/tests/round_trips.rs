//! Round trips for every kind under every strategy, at the boundary values,
//! and bit-exact float round trips including NaN payloads.

use byte_order::{BigEndian, ByteOrder, LittleEndian, NativeEndian};

fn u16_cases() -> Vec<u16> {
    vec![0, 1, 0x1234, u16::MAX]
}

fn u32_cases() -> Vec<u32> {
    vec![0, 1, 0xDEAD_BEEF, u32::MAX]
}

fn u64_cases() -> Vec<u64> {
    vec![0, 1, 0x0102_0304_0506_0708, u64::MAX]
}

#[test]
fn round_trip_unsigned_little() {
    for v in [0u8, 1, 0x7F, u8::MAX] {
        assert_eq!(LittleEndian::read_u8(LittleEndian::write_u8(v)), v);
    }
    for v in u16_cases() {
        assert_eq!(LittleEndian::read_u16(LittleEndian::write_u16(v)), v);
    }
    for v in u32_cases() {
        assert_eq!(LittleEndian::read_u32(LittleEndian::write_u32(v)), v);
    }
    for v in u64_cases() {
        assert_eq!(LittleEndian::read_u64(LittleEndian::write_u64(v)), v);
    }
}

#[test]
fn round_trip_unsigned_big() {
    for v in [0u8, 1, 0x7F, u8::MAX] {
        assert_eq!(BigEndian::read_u8(BigEndian::write_u8(v)), v);
    }
    for v in u16_cases() {
        assert_eq!(BigEndian::read_u16(BigEndian::write_u16(v)), v);
    }
    for v in u32_cases() {
        assert_eq!(BigEndian::read_u32(BigEndian::write_u32(v)), v);
    }
    for v in u64_cases() {
        assert_eq!(BigEndian::read_u64(BigEndian::write_u64(v)), v);
    }
}

#[test]
fn round_trip_unsigned_native() {
    for v in [0u8, 1, 0x7F, u8::MAX] {
        assert_eq!(NativeEndian::read_u8(NativeEndian::write_u8(v)), v);
    }
    for v in u16_cases() {
        assert_eq!(NativeEndian::read_u16(NativeEndian::write_u16(v)), v);
    }
    for v in u32_cases() {
        assert_eq!(NativeEndian::read_u32(NativeEndian::write_u32(v)), v);
    }
    for v in u64_cases() {
        assert_eq!(NativeEndian::read_u64(NativeEndian::write_u64(v)), v);
    }
}

#[test]
fn round_trip_signed_little() {
    for v in [i8::MIN, -1, 0, 1, i8::MAX] {
        assert_eq!(LittleEndian::read_i8(LittleEndian::write_i8(v)), v);
    }
    for v in [i16::MIN, -1, 0, 1, i16::MAX] {
        assert_eq!(LittleEndian::read_i16(LittleEndian::write_i16(v)), v);
    }
    for v in [i32::MIN, -1, 0, 1, i32::MAX] {
        assert_eq!(LittleEndian::read_i32(LittleEndian::write_i32(v)), v);
    }
    for v in [i64::MIN, -1, 0, 1, i64::MAX] {
        assert_eq!(LittleEndian::read_i64(LittleEndian::write_i64(v)), v);
    }
}

#[test]
fn round_trip_signed_big() {
    for v in [i8::MIN, -1, 0, 1, i8::MAX] {
        assert_eq!(BigEndian::read_i8(BigEndian::write_i8(v)), v);
    }
    for v in [i16::MIN, -1, 0, 1, i16::MAX] {
        assert_eq!(BigEndian::read_i16(BigEndian::write_i16(v)), v);
    }
    for v in [i32::MIN, -1, 0, 1, i32::MAX] {
        assert_eq!(BigEndian::read_i32(BigEndian::write_i32(v)), v);
    }
    for v in [i64::MIN, -1, 0, 1, i64::MAX] {
        assert_eq!(BigEndian::read_i64(BigEndian::write_i64(v)), v);
    }
}

#[test]
fn round_trip_signed_native() {
    for v in [i8::MIN, -1, 0, 1, i8::MAX] {
        assert_eq!(NativeEndian::read_i8(NativeEndian::write_i8(v)), v);
    }
    for v in [i16::MIN, -1, 0, 1, i16::MAX] {
        assert_eq!(NativeEndian::read_i16(NativeEndian::write_i16(v)), v);
    }
    for v in [i32::MIN, -1, 0, 1, i32::MAX] {
        assert_eq!(NativeEndian::read_i32(NativeEndian::write_i32(v)), v);
    }
    for v in [i64::MIN, -1, 0, 1, i64::MAX] {
        assert_eq!(NativeEndian::read_i64(NativeEndian::write_i64(v)), v);
    }
}

fn f32_bit_cases() -> Vec<u32> {
    vec![
        0x0000_0000, // +0.0
        0x8000_0000, // -0.0
        0x3F80_0000, // 1.0
        0x7F80_0000, // +infinity
        0xFF80_0000, // -infinity
        0x7FC0_0000, // a quiet NaN
        0xFFC0_0123, // a NaN with another payload and the sign bit set
        0x0000_0001, // smallest subnormal
    ]
}

fn f64_bit_cases() -> Vec<u64> {
    vec![
        0x0000_0000_0000_0000, // +0.0
        0x8000_0000_0000_0000, // -0.0
        0x3FF0_0000_0000_0000, // 1.0
        0x7FF0_0000_0000_0000, // +infinity
        0xFFF0_0000_0000_0000, // -infinity
        0x7FF8_0000_0000_0000, // a quiet NaN
        0xFFF8_0000_0000_0456, // a NaN with another payload and the sign bit set
        0x0000_0000_0000_0001, // smallest subnormal
    ]
}

#[test]
fn round_trip_f32_bit_patterns() {
    for bits in f32_bit_cases() {
        let v = f32::from_bits(bits);
        assert_eq!(LittleEndian::read_u32(LittleEndian::write_u32(v.to_bits())), bits);
        assert_eq!(BigEndian::read_u32(BigEndian::write_u32(v.to_bits())), bits);
        assert_eq!(NativeEndian::read_u32(NativeEndian::write_u32(v.to_bits())), bits);
    }
}

#[test]
fn round_trip_f64_bit_patterns() {
    for bits in f64_bit_cases() {
        let v = f64::from_bits(bits);
        assert_eq!(LittleEndian::read_u64(LittleEndian::write_u64(v.to_bits())), bits);
        assert_eq!(BigEndian::read_u64(BigEndian::write_u64(v.to_bits())), bits);
        assert_eq!(NativeEndian::read_u64(NativeEndian::write_u64(v.to_bits())), bits);
    }
}

#[test]
fn round_trip_from_bytes() {
    let blocks: Vec<[u8; 4]> = vec![
        [0x00, 0x00, 0x00, 0x00],
        [0xFF, 0xFF, 0xFF, 0xFF],
        [0x12, 0x34, 0x56, 0x78],
        [0x80, 0x00, 0x00, 0x01],
    ];
    for block in blocks {
        assert_eq!(LittleEndian::write_u32(LittleEndian::read_u32(block)), block);
        assert_eq!(BigEndian::write_u32(BigEndian::read_u32(block)), block);
        assert_eq!(LittleEndian::write_i32(LittleEndian::read_i32(block)), block);
        assert_eq!(BigEndian::write_i32(BigEndian::read_i32(block)), block);
    }
}
