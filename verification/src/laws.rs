//! The laws the codec obeys, stated over the model that the executable
//! contracts use, so each applies directly to what `read_*`, `write_*` and
//! `swap_bytes` promise.

use vstd::prelude::*;

use crate::model::{
    bits_of_i16, bits_of_i32, bits_of_i64, bits_of_i8, bytes_of, le_bytes_of,
    lemma_le_bytes_len, lemma_le_decode_encode, lemma_le_encode_decode, lemma_pow256_values,
    lemma_reverse_involutive, lemma_reverse_short, pow256, value_of,
};
use crate::order::ByteOrder;

verus! {

/// Round trip from a value: decoding the block that encodes `v` gives `v`
/// back, under either byte order and at every width that can hold `v`.
pub proof fn lemma_round_trip_value(little: bool, v: nat, n: nat)
    requires
        v < pow256(n),
    ensures
        value_of(little, bytes_of(little, v, n)) == v,
{
    lemma_le_decode_encode(v, n);
    if !little {
        lemma_reverse_involutive(le_bytes_of(v, n));
    }
}

/// Round trip from bytes: encoding the value a block denotes reproduces
/// the block, under either byte order.
pub proof fn lemma_round_trip_bytes(little: bool, s: Seq<u8>)
    ensures
        bytes_of(little, value_of(little, s), s.len()) == s,
{
    if little {
        lemma_le_encode_decode(s);
    } else {
        lemma_le_encode_decode(s.reverse());
        lemma_reverse_involutive(s);
    }
}

/// Round trip for every strategy: the byte order a `ByteOrder` type stands
/// for preserves every value its blocks can hold.
pub proof fn lemma_strategy_round_trip<S: ByteOrder>(v: nat, n: nat)
    requires
        v < pow256(n),
    ensures
        value_of(S::is_little_endian(), bytes_of(S::is_little_endian(), v, n)) == v,
{
    lemma_round_trip_value(S::is_little_endian(), v, n);
}

/// Round trip for `i8`: a signed value whose bit pattern decodes from the
/// block that encodes `v` is `v` itself.
pub proof fn lemma_round_trip_i8(little: bool, v: i8, w: i8)
    requires
        bits_of_i8(w) == value_of(little, bytes_of(little, bits_of_i8(v), 1)),
    ensures
        w == v,
{
    lemma_pow256_values();
    lemma_round_trip_value(little, bits_of_i8(v), 1);
}

/// Round trip for `i16`: a signed value whose bit pattern decodes from the
/// block that encodes `v` is `v` itself.
pub proof fn lemma_round_trip_i16(little: bool, v: i16, w: i16)
    requires
        bits_of_i16(w) == value_of(little, bytes_of(little, bits_of_i16(v), 2)),
    ensures
        w == v,
{
    lemma_pow256_values();
    lemma_round_trip_value(little, bits_of_i16(v), 2);
}

/// Round trip for `i32`: a signed value whose bit pattern decodes from the
/// block that encodes `v` is `v` itself.
pub proof fn lemma_round_trip_i32(little: bool, v: i32, w: i32)
    requires
        bits_of_i32(w) == value_of(little, bytes_of(little, bits_of_i32(v), 4)),
    ensures
        w == v,
{
    lemma_pow256_values();
    lemma_round_trip_value(little, bits_of_i32(v), 4);
}

/// Round trip for `i64`: a signed value whose bit pattern decodes from the
/// block that encodes `v` is `v` itself.
pub proof fn lemma_round_trip_i64(little: bool, v: i64, w: i64)
    requires
        bits_of_i64(w) == value_of(little, bytes_of(little, bits_of_i64(v), 8)),
    ensures
        w == v,
{
    lemma_pow256_values();
    lemma_round_trip_value(little, bits_of_i64(v), 8);
}

/// Mirror law: the big-endian block is the little-endian block reversed,
/// and for one-byte blocks the two encodings coincide.
pub proof fn lemma_mirror(v: nat, n: nat)
    ensures
        bytes_of(false, v, n) == bytes_of(true, v, n).reverse(),
        n == 1 ==> bytes_of(false, v, n) == bytes_of(true, v, n),
{
    if n == 1 {
        lemma_le_bytes_len(v, n);
        lemma_reverse_short(le_bytes_of(v, n));
    }
}

/// Swap law: reversing a block twice restores it, and reversing a block of
/// at most one byte does not change it; so a byte swap, which either
/// reverses or leaves the block alone, is its own inverse.
pub proof fn lemma_swap_involutive(s: Seq<u8>)
    ensures
        s.reverse().reverse() == s,
        s.len() <= 1 ==> s.reverse() == s,
{
    lemma_reverse_involutive(s);
    if s.len() <= 1 {
        lemma_reverse_short(s);
    }
}

} // verus!
