//! The byte-order strategies: a contract every strategy satisfies, and the
//! two concrete orders. A strategy is a zero-sized type used purely as a
//! compile-time namespace; selecting one costs nothing at runtime.

use vstd::prelude::*;

use crate::codec::{
    i16_from_bits, i16_to_bits, i32_from_bits, i32_to_bits, i64_from_bits, i64_to_bits,
    i8_from_bits, i8_to_bits, le_read_u16, le_read_u32, le_read_u64, le_read_u8, le_write_u16,
    le_write_u32, le_write_u64, le_write_u8, reverse_block,
};
use crate::model::{
    bits_of_i16, bits_of_i32, bits_of_i64, bits_of_i8, bytes_of, lemma_reverse_short, value_of,
};
use crate::native::host_is_little_endian;

verus! {

/// The conversions every byte-order strategy supplies: for each fixed-width
/// integer kind, a decoder from the kind's block and an encoder to it, plus
/// a kind-independent byte swap.
///
/// Every bit pattern of the right width decodes to a value and every value
/// encodes, so no operation can fail. Signed kinds travel as their
/// two's-complement bit pattern; the strategies differ only in byte order,
/// never in value interpretation.
pub trait ByteOrder {
    /// Whether this strategy stores the least-significant byte first.
    spec fn is_little_endian() -> bool;

    fn read_u8(bytes: [u8; 1]) -> (value: u8)
        ensures
            value as nat == value_of(Self::is_little_endian(), bytes@),
    ;

    fn read_u16(bytes: [u8; 2]) -> (value: u16)
        ensures
            value as nat == value_of(Self::is_little_endian(), bytes@),
    ;

    fn read_u32(bytes: [u8; 4]) -> (value: u32)
        ensures
            value as nat == value_of(Self::is_little_endian(), bytes@),
    ;

    fn read_u64(bytes: [u8; 8]) -> (value: u64)
        ensures
            value as nat == value_of(Self::is_little_endian(), bytes@),
    ;

    fn read_i8(bytes: [u8; 1]) -> (value: i8)
        ensures
            bits_of_i8(value) == value_of(Self::is_little_endian(), bytes@),
    ;

    fn read_i16(bytes: [u8; 2]) -> (value: i16)
        ensures
            bits_of_i16(value) == value_of(Self::is_little_endian(), bytes@),
    ;

    fn read_i32(bytes: [u8; 4]) -> (value: i32)
        ensures
            bits_of_i32(value) == value_of(Self::is_little_endian(), bytes@),
    ;

    fn read_i64(bytes: [u8; 8]) -> (value: i64)
        ensures
            bits_of_i64(value) == value_of(Self::is_little_endian(), bytes@),
    ;

    fn write_u8(value: u8) -> (bytes: [u8; 1])
        ensures
            bytes@ == bytes_of(Self::is_little_endian(), value as nat, 1),
    ;

    fn write_u16(value: u16) -> (bytes: [u8; 2])
        ensures
            bytes@ == bytes_of(Self::is_little_endian(), value as nat, 2),
    ;

    fn write_u32(value: u32) -> (bytes: [u8; 4])
        ensures
            bytes@ == bytes_of(Self::is_little_endian(), value as nat, 4),
    ;

    fn write_u64(value: u64) -> (bytes: [u8; 8])
        ensures
            bytes@ == bytes_of(Self::is_little_endian(), value as nat, 8),
    ;

    fn write_i8(value: i8) -> (bytes: [u8; 1])
        ensures
            bytes@ == bytes_of(Self::is_little_endian(), bits_of_i8(value), 1),
    ;

    fn write_i16(value: i16) -> (bytes: [u8; 2])
        ensures
            bytes@ == bytes_of(Self::is_little_endian(), bits_of_i16(value), 2),
    ;

    fn write_i32(value: i32) -> (bytes: [u8; 4])
        ensures
            bytes@ == bytes_of(Self::is_little_endian(), bits_of_i32(value), 4),
    ;

    fn write_i64(value: i64) -> (bytes: [u8; 8])
        ensures
            bytes@ == bytes_of(Self::is_little_endian(), bits_of_i64(value), 8),
    ;

    /// Reverses the block exactly when this strategy's order differs from
    /// the build target's native order; a block of at most one byte is
    /// never changed.
    fn swap_bytes<const N: usize>(bytes: [u8; N]) -> (swapped: [u8; N])
        ensures
            swapped@ == bytes@ || swapped@ == bytes@.reverse(),
            N <= 1 ==> swapped@ == bytes@,
    ;
}

/// The strategy that stores the least-significant byte first. The lone
/// variant is never used: it only keeps the type inhabited, which the
/// verifier requires; a strategy acts purely through its associated
/// functions.
pub enum LittleEndian {
    Marker,
}

impl ByteOrder for LittleEndian {
    open spec fn is_little_endian() -> bool {
        true
    }

    fn read_u8(bytes: [u8; 1]) -> u8 {
        le_read_u8(bytes)
    }

    fn read_u16(bytes: [u8; 2]) -> u16 {
        le_read_u16(bytes)
    }

    fn read_u32(bytes: [u8; 4]) -> u32 {
        le_read_u32(bytes)
    }

    fn read_u64(bytes: [u8; 8]) -> u64 {
        le_read_u64(bytes)
    }

    fn read_i8(bytes: [u8; 1]) -> i8 {
        i8_from_bits(le_read_u8(bytes))
    }

    fn read_i16(bytes: [u8; 2]) -> i16 {
        i16_from_bits(le_read_u16(bytes))
    }

    fn read_i32(bytes: [u8; 4]) -> i32 {
        i32_from_bits(le_read_u32(bytes))
    }

    fn read_i64(bytes: [u8; 8]) -> i64 {
        i64_from_bits(le_read_u64(bytes))
    }

    fn write_u8(value: u8) -> [u8; 1] {
        le_write_u8(value)
    }

    fn write_u16(value: u16) -> [u8; 2] {
        le_write_u16(value)
    }

    fn write_u32(value: u32) -> [u8; 4] {
        le_write_u32(value)
    }

    fn write_u64(value: u64) -> [u8; 8] {
        le_write_u64(value)
    }

    fn write_i8(value: i8) -> [u8; 1] {
        le_write_u8(i8_to_bits(value))
    }

    fn write_i16(value: i16) -> [u8; 2] {
        le_write_u16(i16_to_bits(value))
    }

    fn write_i32(value: i32) -> [u8; 4] {
        le_write_u32(i32_to_bits(value))
    }

    fn write_i64(value: i64) -> [u8; 8] {
        le_write_u64(i64_to_bits(value))
    }

    fn swap_bytes<const N: usize>(bytes: [u8; N]) -> (swapped: [u8; N]) {
        if host_is_little_endian() {
            bytes
        } else {
            proof {
                if N <= 1 {
                    lemma_reverse_short(bytes@);
                }
            }
            reverse_block(bytes)
        }
    }
}

/// The strategy that stores the most-significant byte first. The lone
/// variant is never used: it only keeps the type inhabited, which the
/// verifier requires; a strategy acts purely through its associated
/// functions.
pub enum BigEndian {
    Marker,
}

impl ByteOrder for BigEndian {
    open spec fn is_little_endian() -> bool {
        false
    }

    fn read_u8(bytes: [u8; 1]) -> u8 {
        le_read_u8(reverse_block(bytes))
    }

    fn read_u16(bytes: [u8; 2]) -> u16 {
        le_read_u16(reverse_block(bytes))
    }

    fn read_u32(bytes: [u8; 4]) -> u32 {
        le_read_u32(reverse_block(bytes))
    }

    fn read_u64(bytes: [u8; 8]) -> u64 {
        le_read_u64(reverse_block(bytes))
    }

    fn read_i8(bytes: [u8; 1]) -> i8 {
        i8_from_bits(le_read_u8(reverse_block(bytes)))
    }

    fn read_i16(bytes: [u8; 2]) -> i16 {
        i16_from_bits(le_read_u16(reverse_block(bytes)))
    }

    fn read_i32(bytes: [u8; 4]) -> i32 {
        i32_from_bits(le_read_u32(reverse_block(bytes)))
    }

    fn read_i64(bytes: [u8; 8]) -> i64 {
        i64_from_bits(le_read_u64(reverse_block(bytes)))
    }

    fn write_u8(value: u8) -> [u8; 1] {
        reverse_block(le_write_u8(value))
    }

    fn write_u16(value: u16) -> [u8; 2] {
        reverse_block(le_write_u16(value))
    }

    fn write_u32(value: u32) -> [u8; 4] {
        reverse_block(le_write_u32(value))
    }

    fn write_u64(value: u64) -> [u8; 8] {
        reverse_block(le_write_u64(value))
    }

    fn write_i8(value: i8) -> [u8; 1] {
        reverse_block(le_write_u8(i8_to_bits(value)))
    }

    fn write_i16(value: i16) -> [u8; 2] {
        reverse_block(le_write_u16(i16_to_bits(value)))
    }

    fn write_i32(value: i32) -> [u8; 4] {
        reverse_block(le_write_u32(i32_to_bits(value)))
    }

    fn write_i64(value: i64) -> [u8; 8] {
        reverse_block(le_write_u64(i64_to_bits(value)))
    }

    fn swap_bytes<const N: usize>(bytes: [u8; N]) -> (swapped: [u8; N]) {
        if host_is_little_endian() {
            proof {
                if N <= 1 {
                    lemma_reverse_short(bytes@);
                }
            }
            reverse_block(bytes)
        } else {
            bytes
        }
    }
}

} // verus!
