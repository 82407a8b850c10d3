//! Core executable conversions: little-endian encode/decode at each width,
//! two's-complement bit casts, and block reversal. The big-endian strategy
//! reverses the little-endian block, which is exactly what `be_bytes_of`
//! says.

use vstd::prelude::*;

use crate::model::{
    bits_of_i16, bits_of_i32, bits_of_i64, bits_of_i8, le_bytes_of, le_value_of,
    lemma_le_bytes_index, lemma_le_value_bound, lemma_le_value_end, lemma_le_value_step,
    lemma_pow256_values,
};

verus! {

/// Returns the block with its bytes in reverse order.
pub fn reverse_block<const N: usize>(block: [u8; N]) -> (reversed: [u8; N])
    ensures
        reversed@ == block@.reverse(),
{
    let mut reversed = block;
    let mut i: usize = 0;
    while i < N
        invariant
            reversed@.len() == N,
            block@.len() == N,
            forall|j: int| 0 <= j < i ==> reversed@[j] == block@[N - 1 - j],
            forall|j: int| i <= j < N ==> reversed@[j] == block@[j],
        decreases N - i,
    {
        reversed[i] = block[N - 1 - i];
        i = i + 1;
    }
    proof {
        assert(reversed@ =~= block@.reverse());
    }
    reversed
}

/// Encodes a `u8` as its one-byte block.
pub fn le_write_u8(value: u8) -> (block: [u8; 1])
    ensures
        block@ == le_bytes_of(value as nat, 1),
{
    let block = [value];
    proof {
        lemma_pow256_values();
        lemma_le_bytes_index(value as nat, 1, 0);
        assert(block@ =~= le_bytes_of(value as nat, 1));
    }
    block
}

/// Decodes a `u8` from its one-byte block.
pub fn le_read_u8(block: [u8; 1]) -> (value: u8)
    ensures
        value as nat == le_value_of(block@),
{
    proof {
        lemma_le_value_end(block@);
        lemma_le_value_step(block@, 0);
        assert(block@.skip(0) =~= block@);
    }
    block[0]
}

/// Encodes a `u16` least-significant byte first.
pub fn le_write_u16(value: u16) -> (block: [u8; 2])
    ensures
        block@ == le_bytes_of(value as nat, 2),
{
    let block = [(value % 0x100) as u8, ((value / 0x100) % 0x100) as u8];
    proof {
        lemma_pow256_values();
        lemma_le_bytes_index(value as nat, 2, 0);
        lemma_le_bytes_index(value as nat, 2, 1);
        assert(block@ =~= le_bytes_of(value as nat, 2));
    }
    block
}

/// Decodes a `u16` stored least-significant byte first.
pub fn le_read_u16(block: [u8; 2]) -> (value: u16)
    ensures
        value as nat == le_value_of(block@),
{
    proof {
        lemma_le_value_end(block@);
        lemma_le_value_step(block@, 1);
        lemma_le_value_step(block@, 0);
        assert(block@.skip(0) =~= block@);
    }
    block[0] as u16 + 0x100 * (block[1] as u16)
}

/// Encodes a `u32` least-significant byte first.
pub fn le_write_u32(value: u32) -> (block: [u8; 4])
    ensures
        block@ == le_bytes_of(value as nat, 4),
{
    let block = [
        (value % 0x100) as u8,
        ((value / 0x100) % 0x100) as u8,
        ((value / 0x1_0000) % 0x100) as u8,
        ((value / 0x100_0000) % 0x100) as u8,
    ];
    proof {
        lemma_pow256_values();
        lemma_le_bytes_index(value as nat, 4, 0);
        lemma_le_bytes_index(value as nat, 4, 1);
        lemma_le_bytes_index(value as nat, 4, 2);
        lemma_le_bytes_index(value as nat, 4, 3);
        assert(block@ =~= le_bytes_of(value as nat, 4));
    }
    block
}

/// Decodes a `u32` stored least-significant byte first.
pub fn le_read_u32(block: [u8; 4]) -> (value: u32)
    ensures
        value as nat == le_value_of(block@),
{
    proof {
        lemma_pow256_values();
        lemma_le_value_end(block@);
        lemma_le_value_step(block@, 3);
        lemma_le_value_step(block@, 2);
        lemma_le_value_step(block@, 1);
        lemma_le_value_step(block@, 0);
        lemma_le_value_bound(block@.skip(2));
        lemma_le_value_bound(block@.skip(1));
        assert(block@.skip(0) =~= block@);
    }
    let mut value: u32 = block[3] as u32;
    value = block[2] as u32 + 0x100 * value;
    value = block[1] as u32 + 0x100 * value;
    value = block[0] as u32 + 0x100 * value;
    value
}

/// Encodes a `u64` least-significant byte first.
pub fn le_write_u64(value: u64) -> (block: [u8; 8])
    ensures
        block@ == le_bytes_of(value as nat, 8),
{
    let block = [
        (value % 0x100) as u8,
        ((value / 0x100) % 0x100) as u8,
        ((value / 0x1_0000) % 0x100) as u8,
        ((value / 0x100_0000) % 0x100) as u8,
        ((value / 0x1_0000_0000) % 0x100) as u8,
        ((value / 0x100_0000_0000) % 0x100) as u8,
        ((value / 0x1_0000_0000_0000) % 0x100) as u8,
        ((value / 0x100_0000_0000_0000) % 0x100) as u8,
    ];
    proof {
        lemma_pow256_values();
        lemma_le_bytes_index(value as nat, 8, 0);
        lemma_le_bytes_index(value as nat, 8, 1);
        lemma_le_bytes_index(value as nat, 8, 2);
        lemma_le_bytes_index(value as nat, 8, 3);
        lemma_le_bytes_index(value as nat, 8, 4);
        lemma_le_bytes_index(value as nat, 8, 5);
        lemma_le_bytes_index(value as nat, 8, 6);
        lemma_le_bytes_index(value as nat, 8, 7);
        assert(block@ =~= le_bytes_of(value as nat, 8));
    }
    block
}

/// Decodes a `u64` stored least-significant byte first.
pub fn le_read_u64(block: [u8; 8]) -> (value: u64)
    ensures
        value as nat == le_value_of(block@),
{
    proof {
        lemma_pow256_values();
        lemma_le_value_end(block@);
        lemma_le_value_step(block@, 7);
        lemma_le_value_step(block@, 6);
        lemma_le_value_step(block@, 5);
        lemma_le_value_step(block@, 4);
        lemma_le_value_step(block@, 3);
        lemma_le_value_step(block@, 2);
        lemma_le_value_step(block@, 1);
        lemma_le_value_step(block@, 0);
        lemma_le_value_bound(block@.skip(6));
        lemma_le_value_bound(block@.skip(5));
        lemma_le_value_bound(block@.skip(4));
        lemma_le_value_bound(block@.skip(3));
        lemma_le_value_bound(block@.skip(2));
        lemma_le_value_bound(block@.skip(1));
        assert(block@.skip(0) =~= block@);
    }
    let mut value: u64 = block[7] as u64;
    value = block[6] as u64 + 0x100 * value;
    value = block[5] as u64 + 0x100 * value;
    value = block[4] as u64 + 0x100 * value;
    value = block[3] as u64 + 0x100 * value;
    value = block[2] as u64 + 0x100 * value;
    value = block[1] as u64 + 0x100 * value;
    value = block[0] as u64 + 0x100 * value;
    value
}

/// The two's-complement bit pattern of an `i8`.
pub fn i8_to_bits(value: i8) -> (bits: u8)
    ensures
        bits as nat == bits_of_i8(value),
{
    proof {
        assert(value >= 0 ==> value as u8 == value) by (bit_vector);
        assert(value < 0 ==> value as u8 == value + 0x100) by (bit_vector);
    }
    #[verifier::truncate] (value as u8)
}

/// The `i8` with the given bit pattern.
pub fn i8_from_bits(bits: u8) -> (value: i8)
    ensures
        bits_of_i8(value) == bits as nat,
{
    proof {
        assert(bits < 0x80 ==> bits as i8 == bits) by (bit_vector);
        assert(bits >= 0x80 ==> bits as i8 == bits - 0x100) by (bit_vector);
    }
    #[verifier::truncate] (bits as i8)
}

/// The two's-complement bit pattern of an `i16`.
pub fn i16_to_bits(value: i16) -> (bits: u16)
    ensures
        bits as nat == bits_of_i16(value),
{
    proof {
        assert(value >= 0 ==> value as u16 == value) by (bit_vector);
        assert(value < 0 ==> value as u16 == value + 0x1_0000) by (bit_vector);
    }
    #[verifier::truncate] (value as u16)
}

/// The `i16` with the given bit pattern.
pub fn i16_from_bits(bits: u16) -> (value: i16)
    ensures
        bits_of_i16(value) == bits as nat,
{
    proof {
        assert(bits < 0x8000 ==> bits as i16 == bits) by (bit_vector);
        assert(bits >= 0x8000 ==> bits as i16 == bits - 0x1_0000) by (bit_vector);
    }
    #[verifier::truncate] (bits as i16)
}

/// The two's-complement bit pattern of an `i32`.
pub fn i32_to_bits(value: i32) -> (bits: u32)
    ensures
        bits as nat == bits_of_i32(value),
{
    proof {
        assert(value >= 0 ==> value as u32 == value) by (bit_vector);
        assert(value < 0 ==> value as u32 == value + 0x1_0000_0000) by (bit_vector);
    }
    #[verifier::truncate] (value as u32)
}

/// The `i32` with the given bit pattern.
pub fn i32_from_bits(bits: u32) -> (value: i32)
    ensures
        bits_of_i32(value) == bits as nat,
{
    proof {
        assert(bits < 0x8000_0000 ==> bits as i32 == bits) by (bit_vector);
        assert(bits >= 0x8000_0000 ==> bits as i32 == bits - 0x1_0000_0000) by (bit_vector);
    }
    #[verifier::truncate] (bits as i32)
}

/// The two's-complement bit pattern of an `i64`.
pub fn i64_to_bits(value: i64) -> (bits: u64)
    ensures
        bits as nat == bits_of_i64(value),
{
    proof {
        assert(value >= 0 ==> value as u64 == value) by (bit_vector);
        assert(value < 0 ==> value as u64 == value + 0x1_0000_0000_0000_0000) by (bit_vector);
    }
    #[verifier::truncate] (value as u64)
}

/// The `i64` with the given bit pattern.
pub fn i64_from_bits(bits: u64) -> (value: i64)
    ensures
        bits_of_i64(value) == bits as nat,
{
    proof {
        assert(bits < 0x8000_0000_0000_0000 ==> bits as i64 == bits) by (bit_vector);
        assert(bits >= 0x8000_0000_0000_0000 ==> bits as i64 == bits - 0x1_0000_0000_0000_0000)
            by (bit_vector);
    }
    #[verifier::truncate] (bits as i64)
}

} // verus!
