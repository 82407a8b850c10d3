//! Mathematical model of byte-order encodings.
//!
//! A value is encoded into a byte block least-significant byte first
//! (little-endian) or most-significant byte first (big-endian). The model
//! speaks of arbitrary widths; the executable codec instantiates it at
//! widths 1, 2, 4 and 8.

use vstd::prelude::*;

verus! {

/// 256 raised to the power `n`: the number of distinct values an
/// `n`-byte block can represent.
pub open spec fn pow256(n: nat) -> nat
    decreases n,
{
    if n == 0 {
        1
    } else {
        256 * pow256((n - 1) as nat)
    }
}

/// The `n`-byte little-endian block encoding `v`: least-significant byte
/// first, higher bytes following.
pub open spec fn le_bytes_of(v: nat, n: nat) -> Seq<u8>
    decreases n,
{
    if n == 0 {
        Seq::empty()
    } else {
        seq![(v % 256) as u8] + le_bytes_of(v / 256, (n - 1) as nat)
    }
}

/// The value a byte block denotes when read little-endian.
pub open spec fn le_value_of(s: Seq<u8>) -> nat
    decreases s.len(),
{
    if s.len() == 0 {
        0
    } else {
        (s[0] + 256 * le_value_of(s.drop_first())) as nat
    }
}

/// The `n`-byte big-endian block encoding `v`: the little-endian block
/// reversed, so the most-significant byte comes first.
pub open spec fn be_bytes_of(v: nat, n: nat) -> Seq<u8> {
    le_bytes_of(v, n).reverse()
}

/// The value a byte block denotes when read big-endian.
pub open spec fn be_value_of(s: Seq<u8>) -> nat {
    le_value_of(s.reverse())
}

/// The `n`-byte block encoding `v` under the given order.
pub open spec fn bytes_of(little: bool, v: nat, n: nat) -> Seq<u8> {
    if little {
        le_bytes_of(v, n)
    } else {
        be_bytes_of(v, n)
    }
}

/// The value a byte block denotes under the given order.
pub open spec fn value_of(little: bool, s: Seq<u8>) -> nat {
    if little {
        le_value_of(s)
    } else {
        be_value_of(s)
    }
}

/// The two's-complement bit pattern of an `i8`, as a natural number.
pub open spec fn bits_of_i8(v: i8) -> nat {
    if v >= 0 {
        v as nat
    } else {
        (v + 0x100) as nat
    }
}

/// The two's-complement bit pattern of an `i16`, as a natural number.
pub open spec fn bits_of_i16(v: i16) -> nat {
    if v >= 0 {
        v as nat
    } else {
        (v + 0x1_0000) as nat
    }
}

/// The two's-complement bit pattern of an `i32`, as a natural number.
pub open spec fn bits_of_i32(v: i32) -> nat {
    if v >= 0 {
        v as nat
    } else {
        (v + 0x1_0000_0000) as nat
    }
}

/// The two's-complement bit pattern of an `i64`, as a natural number.
pub open spec fn bits_of_i64(v: i64) -> nat {
    if v >= 0 {
        v as nat
    } else {
        (v + 0x1_0000_0000_0000_0000) as nat
    }
}

/// Powers of 256 are positive.
pub proof fn lemma_pow256_pos(n: nat)
    ensures
        pow256(n) >= 1,
    decreases n,
{
    if n > 0 {
        lemma_pow256_pos((n - 1) as nat);
    }
}

/// The powers of 256 at the four block widths the codec uses.
pub proof fn lemma_pow256_values()
    ensures
        pow256(1) == 0x100,
        pow256(2) == 0x1_0000,
        pow256(4) == 0x1_0000_0000,
        pow256(8) == 0x1_0000_0000_0000_0000,
{
    reveal_with_fuel(pow256, 9);
}

/// Reversing a block twice restores it.
pub proof fn lemma_reverse_involutive(s: Seq<u8>)
    ensures
        s.reverse().reverse() == s,
{
    assert(s.reverse().reverse() =~= s);
}

/// Reversing a block of at most one byte leaves it unchanged.
pub proof fn lemma_reverse_short(s: Seq<u8>)
    requires
        s.len() <= 1,
    ensures
        s.reverse() == s,
{
    assert(s.reverse() =~= s);
}

/// An encoded block has exactly the requested width.
pub proof fn lemma_le_bytes_len(v: nat, n: nat)
    ensures
        le_bytes_of(v, n).len() == n,
    decreases n,
{
    if n > 0 {
        lemma_le_bytes_len(v / 256, (n - 1) as nat);
    }
}

/// A block of `n` bytes never denotes a value of `pow256(n)` or more.
pub proof fn lemma_le_value_bound(s: Seq<u8>)
    ensures
        le_value_of(s) < pow256(s.len()),
    decreases s.len(),
{
    if s.len() > 0 {
        lemma_le_value_bound(s.drop_first());
    }
}

/// Byte `i` of the little-endian block is the `i`-th base-256 digit of
/// the value, least-significant digit first.
pub proof fn lemma_le_bytes_index(v: nat, n: nat, i: int)
    requires
        0 <= i < n,
    ensures
        le_bytes_of(v, n).len() == n,
        le_bytes_of(v, n)[i] == ((v / pow256(i as nat)) % 256) as u8,
    decreases n,
{
    lemma_le_bytes_len(v, n);
    let tail = le_bytes_of(v / 256, (n - 1) as nat);
    assert(le_bytes_of(v, n) == seq![(v % 256) as u8] + tail);
    if i == 0 {
        assert(le_bytes_of(v, n)[0] == (v % 256) as u8);
        vstd::arithmetic::div_mod::lemma_div_basics(v as int);
        assert(v / pow256(0) == v);
    } else {
        lemma_le_bytes_len(v / 256, (n - 1) as nat);
        assert(le_bytes_of(v, n)[i] == tail[i - 1]);
        lemma_le_bytes_index(v / 256, (n - 1) as nat, i - 1);
        lemma_pow256_pos((i - 1) as nat);
        vstd::arithmetic::div_mod::lemma_div_denominator(
            v as int,
            256,
            pow256((i - 1) as nat) as int,
        );
        assert(pow256(i as nat) == 256 * pow256((i - 1) as nat));
    }
}

/// Peels one byte off the value a block suffix denotes.
pub proof fn lemma_le_value_step(s: Seq<u8>, i: int)
    requires
        0 <= i < s.len(),
    ensures
        le_value_of(s.skip(i)) == s[i] + 256 * le_value_of(s.skip(i + 1)),
{
    assert(s.skip(i).drop_first() =~= s.skip(i + 1));
    assert(s.skip(i)[0] == s[i]);
}

/// The empty suffix of a block denotes zero.
pub proof fn lemma_le_value_end(s: Seq<u8>)
    ensures
        le_value_of(s.skip(s.len() as int)) == 0,
{
    assert(s.skip(s.len() as int) =~= Seq::<u8>::empty());
}

/// Reading an encoded block back gives the encoded value: the direction
/// of the round trip that starts from a value.
pub proof fn lemma_le_decode_encode(v: nat, n: nat)
    requires
        v < pow256(n),
    ensures
        le_value_of(le_bytes_of(v, n)) == v,
    decreases n,
{
    if n > 0 {
        lemma_le_bytes_len(v / 256, (n - 1) as nat);
        assert(le_bytes_of(v, n).drop_first() =~= le_bytes_of(v / 256, (n - 1) as nat));
        lemma_le_decode_encode(v / 256, (n - 1) as nat);
    }
}

/// Encoding the value a block denotes reproduces the block: the direction
/// of the round trip that starts from bytes.
pub proof fn lemma_le_encode_decode(s: Seq<u8>)
    ensures
        le_bytes_of(le_value_of(s), s.len()) == s,
    decreases s.len(),
{
    if s.len() > 0 {
        lemma_le_encode_decode(s.drop_first());
        lemma_le_value_bound(s.drop_first());
        assert(le_bytes_of(le_value_of(s), s.len()) =~= s);
    }
}

} // verus!
