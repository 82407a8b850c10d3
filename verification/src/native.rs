//! The native-order strategy: whichever of the two concrete orders the
//! build target uses. The binding cannot be read off at verification time,
//! so every operation promises that its result is one of the two concrete
//! encodings; which one is settled by a single probe of the host.

use vstd::prelude::*;

use crate::model::{
    be_bytes_of, be_value_of, bits_of_i16, bits_of_i32, bits_of_i64, bits_of_i8, le_bytes_of,
    le_value_of, lemma_le_bytes_len, lemma_reverse_short,
};
use crate::order::{BigEndian, ByteOrder, LittleEndian};

verus! {

/// Relies on `u16::from_ne_bytes`: it reads two bytes as a `u16` in the
/// build target's own byte order, which is little-endian or big-endian.
#[verifier::external_body]
fn u16_from_native_bytes(bytes: [u8; 2]) -> (value: u16)
    ensures
        value as nat == le_value_of(bytes@) || value as nat == be_value_of(bytes@),
{
    u16::from_ne_bytes(bytes)
}

/// Whether the build target stores the least-significant byte first: the
/// two-byte block holding 1 reads back as 1 exactly on such a target, and
/// as 256 on a big-endian one.
pub(crate) fn host_is_little_endian() -> bool {
    let probe = u16_from_native_bytes([1u8, 0u8]);
    probe == 1
}

/// The strategy bound to the build target's own byte order. Each operation
/// behaves bit-for-bit as `LittleEndian` on a little-endian target and as
/// `BigEndian` on a big-endian one, so its contracts promise one of those
/// two results. The lone variant is never used: it only keeps the type
/// inhabited, which the verifier requires; a strategy acts purely through
/// its associated functions.
pub enum NativeEndian {
    Marker,
}

impl NativeEndian {
    /// On a one-byte block the two orders agree, so the contract is exact.
    pub fn read_u8(bytes: [u8; 1]) -> (value: u8)
        ensures
            value as nat == le_value_of(bytes@),
    {
        proof {
            lemma_reverse_short(bytes@);
        }
        if host_is_little_endian() {
            LittleEndian::read_u8(bytes)
        } else {
            BigEndian::read_u8(bytes)
        }
    }

    pub fn read_u16(bytes: [u8; 2]) -> (value: u16)
        ensures
            value as nat == le_value_of(bytes@) || value as nat == be_value_of(bytes@),
    {
        if host_is_little_endian() {
            LittleEndian::read_u16(bytes)
        } else {
            BigEndian::read_u16(bytes)
        }
    }

    pub fn read_u32(bytes: [u8; 4]) -> (value: u32)
        ensures
            value as nat == le_value_of(bytes@) || value as nat == be_value_of(bytes@),
    {
        if host_is_little_endian() {
            LittleEndian::read_u32(bytes)
        } else {
            BigEndian::read_u32(bytes)
        }
    }

    pub fn read_u64(bytes: [u8; 8]) -> (value: u64)
        ensures
            value as nat == le_value_of(bytes@) || value as nat == be_value_of(bytes@),
    {
        if host_is_little_endian() {
            LittleEndian::read_u64(bytes)
        } else {
            BigEndian::read_u64(bytes)
        }
    }

    /// On a one-byte block the two orders agree, so the contract is exact.
    pub fn read_i8(bytes: [u8; 1]) -> (value: i8)
        ensures
            bits_of_i8(value) == le_value_of(bytes@),
    {
        proof {
            lemma_reverse_short(bytes@);
        }
        if host_is_little_endian() {
            LittleEndian::read_i8(bytes)
        } else {
            BigEndian::read_i8(bytes)
        }
    }

    pub fn read_i16(bytes: [u8; 2]) -> (value: i16)
        ensures
            bits_of_i16(value) == le_value_of(bytes@) || bits_of_i16(value) == be_value_of(
                bytes@,
            ),
    {
        if host_is_little_endian() {
            LittleEndian::read_i16(bytes)
        } else {
            BigEndian::read_i16(bytes)
        }
    }

    pub fn read_i32(bytes: [u8; 4]) -> (value: i32)
        ensures
            bits_of_i32(value) == le_value_of(bytes@) || bits_of_i32(value) == be_value_of(
                bytes@,
            ),
    {
        if host_is_little_endian() {
            LittleEndian::read_i32(bytes)
        } else {
            BigEndian::read_i32(bytes)
        }
    }

    pub fn read_i64(bytes: [u8; 8]) -> (value: i64)
        ensures
            bits_of_i64(value) == le_value_of(bytes@) || bits_of_i64(value) == be_value_of(
                bytes@,
            ),
    {
        if host_is_little_endian() {
            LittleEndian::read_i64(bytes)
        } else {
            BigEndian::read_i64(bytes)
        }
    }

    /// On a one-byte block the two orders agree, so the contract is exact.
    pub fn write_u8(value: u8) -> (bytes: [u8; 1])
        ensures
            bytes@ == le_bytes_of(value as nat, 1),
    {
        proof {
            lemma_le_bytes_len(value as nat, 1);
            lemma_reverse_short(le_bytes_of(value as nat, 1));
        }
        if host_is_little_endian() {
            LittleEndian::write_u8(value)
        } else {
            BigEndian::write_u8(value)
        }
    }

    pub fn write_u16(value: u16) -> (bytes: [u8; 2])
        ensures
            bytes@ == le_bytes_of(value as nat, 2) || bytes@ == be_bytes_of(value as nat, 2),
    {
        if host_is_little_endian() {
            LittleEndian::write_u16(value)
        } else {
            BigEndian::write_u16(value)
        }
    }

    pub fn write_u32(value: u32) -> (bytes: [u8; 4])
        ensures
            bytes@ == le_bytes_of(value as nat, 4) || bytes@ == be_bytes_of(value as nat, 4),
    {
        if host_is_little_endian() {
            LittleEndian::write_u32(value)
        } else {
            BigEndian::write_u32(value)
        }
    }

    pub fn write_u64(value: u64) -> (bytes: [u8; 8])
        ensures
            bytes@ == le_bytes_of(value as nat, 8) || bytes@ == be_bytes_of(value as nat, 8),
    {
        if host_is_little_endian() {
            LittleEndian::write_u64(value)
        } else {
            BigEndian::write_u64(value)
        }
    }

    /// On a one-byte block the two orders agree, so the contract is exact.
    pub fn write_i8(value: i8) -> (bytes: [u8; 1])
        ensures
            bytes@ == le_bytes_of(bits_of_i8(value), 1),
    {
        proof {
            lemma_le_bytes_len(bits_of_i8(value), 1);
            lemma_reverse_short(le_bytes_of(bits_of_i8(value), 1));
        }
        if host_is_little_endian() {
            LittleEndian::write_i8(value)
        } else {
            BigEndian::write_i8(value)
        }
    }

    pub fn write_i16(value: i16) -> (bytes: [u8; 2])
        ensures
            bytes@ == le_bytes_of(bits_of_i16(value), 2) || bytes@ == be_bytes_of(
                bits_of_i16(value),
                2,
            ),
    {
        if host_is_little_endian() {
            LittleEndian::write_i16(value)
        } else {
            BigEndian::write_i16(value)
        }
    }

    pub fn write_i32(value: i32) -> (bytes: [u8; 4])
        ensures
            bytes@ == le_bytes_of(bits_of_i32(value), 4) || bytes@ == be_bytes_of(
                bits_of_i32(value),
                4,
            ),
    {
        if host_is_little_endian() {
            LittleEndian::write_i32(value)
        } else {
            BigEndian::write_i32(value)
        }
    }

    pub fn write_i64(value: i64) -> (bytes: [u8; 8])
        ensures
            bytes@ == le_bytes_of(bits_of_i64(value), 8) || bytes@ == be_bytes_of(
                bits_of_i64(value),
                8,
            ),
    {
        if host_is_little_endian() {
            LittleEndian::write_i64(value)
        } else {
            BigEndian::write_i64(value)
        }
    }

    /// The native strategy's order never differs from the host's, so its
    /// swap leaves every block unchanged.
    pub fn swap_bytes<const N: usize>(bytes: [u8; N]) -> (swapped: [u8; N])
        ensures
            swapped@ == bytes@,
    {
        bytes
    }
}

} // verus!
