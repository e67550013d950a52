//! Laws of the Simplex readers, stated over the specifications that their
//! contracts use.
use vstd::prelude::*;
use vstd::utf8::{
    decode_utf8, encode_utf8, encode_utf8_decode_utf8, encode_utf8_valid_utf8, valid_utf8,
};

use crate::simplex_file_read::{
    be_value, byte_bound, lemma_be_value_bound, lemma_byte_bounds, lemma_le_value_bound,
    le_value, twos_complement, zero_filled, SimplexReadable,
};

verus! {

/// Reading bytes least significant first gives what reading them in reverse
/// order most significant first gives.
pub proof fn law_le_is_reversed_be(bytes: Seq<u8>)
    ensures
        le_value(bytes) == be_value(bytes.reverse()),
    decreases bytes.len(),
{
    if bytes.len() > 0 {
        let rest = bytes.drop_first();
        law_le_is_reversed_be(rest);
        assert(bytes.reverse().drop_last() =~= rest.reverse());
        assert(bytes.reverse().last() == bytes[0]);
    }
}

/// The little-endian value of two runs of bytes, one after the other.
pub proof fn lemma_le_value_concat(a: Seq<u8>, b: Seq<u8>)
    ensures
        le_value(a + b) == le_value(a) + byte_bound(a.len()) * le_value(b),
    decreases a.len(),
{
    if a.len() > 0 {
        let rest = a.drop_first();
        lemma_le_value_concat(rest, b);
        assert((a + b).drop_first() =~= rest + b);
        assert((a + b)[0] == a[0]);
        let x = le_value(rest);
        let y = le_value(b);
        let k = byte_bound(rest.len());
        assert(le_value(a + b) == a[0] + 256 * (x + k * y));
        assert(le_value(a) == a[0] + 256 * x);
        assert(byte_bound(a.len()) == 256 * k);
        assert(256 * (x + k * y) == 256 * x + (256 * k) * y) by (nonlinear_arith);
    } else {
        assert(a + b =~= b);
        assert(byte_bound(0) == 1);
    }
}

/// The big-endian value of two runs of bytes, one after the other.
pub proof fn lemma_be_value_concat(a: Seq<u8>, b: Seq<u8>)
    ensures
        be_value(a + b) == be_value(a) * byte_bound(b.len()) + be_value(b),
    decreases b.len(),
{
    if b.len() == 0 {
        assert(a + b =~= a);
        assert(byte_bound(0) == 1);
    } else {
        let init = b.drop_last();
        lemma_be_value_concat(a, init);
        assert((a + b).drop_last() =~= a + init);
        assert((a + b).last() == b.last());
        let x = be_value(a);
        let y = be_value(init);
        let k = byte_bound(init.len());
        assert(be_value(a + b) == (x * k + y) * 256 + b.last());
        assert(be_value(b) == y * 256 + b.last());
        assert(byte_bound(b.len()) == 256 * k);
        assert((x * k + y) * 256 == x * (256 * k) + y * 256) by (nonlinear_arith);
    }
}

proof fn lemma_zeros_value(n: nat)
    ensures
        le_value(Seq::new(n, |i: int| 0u8)) == 0,
        be_value(Seq::new(n, |i: int| 0u8)) == 0,
    decreases n,
{
    if n > 0 {
        let z = Seq::new(n, |i: int| 0u8);
        let shorter = Seq::new((n - 1) as nat, |i: int| 0u8);
        lemma_zeros_value((n - 1) as nat);
        assert(z.drop_first() =~= shorter);
        assert(z.drop_last() =~= shorter);
    }
}

/// A short little-endian read has the value of the bytes that it delivered:
/// the zeros after them are the high-order bytes.
pub proof fn law_short_le_read_keeps_value(read: Seq<u8>, width: nat)
    requires
        read.len() <= width,
    ensures
        le_value(zero_filled(read, width)) == le_value(read),
{
    let zeros = Seq::new((width - read.len()) as nat, |i: int| 0u8);
    lemma_le_value_concat(read, zeros);
    lemma_zeros_value((width - read.len()) as nat);
}

/// A short big-endian read has the value of the bytes that it delivered,
/// shifted up by the bytes that it did not deliver.
pub proof fn law_short_be_read_scales_value(read: Seq<u8>, width: nat)
    requires
        read.len() <= width,
    ensures
        be_value(zero_filled(read, width)) == be_value(read) * byte_bound(
            (width - read.len()) as nat,
        ),
{
    let zeros = Seq::new((width - read.len()) as nat, |i: int| 0u8);
    lemma_be_value_concat(read, zeros);
    lemma_zeros_value((width - read.len()) as nat);
}

/// An unsigned reading of a full buffer is the number that its bytes
/// encode, with nothing cut off.
pub proof fn law_unsigned_reads_exact(bytes: Seq<u8>)
    ensures
        bytes.len() == 2 ==> <u16 as SimplexReadable>::decoded_le(bytes) == le_value(bytes)
            && <u16 as SimplexReadable>::decoded_be(bytes) == be_value(bytes),
        bytes.len() == 4 ==> <u32 as SimplexReadable>::decoded_le(bytes) == le_value(bytes)
            && <u32 as SimplexReadable>::decoded_be(bytes) == be_value(bytes),
        bytes.len() == 8 ==> <u64 as SimplexReadable>::decoded_le(bytes) == le_value(bytes)
            && <u64 as SimplexReadable>::decoded_be(bytes) == be_value(bytes),
        bytes.len() == 16 ==> <u128 as SimplexReadable>::decoded_le(bytes) == le_value(bytes)
            && <u128 as SimplexReadable>::decoded_be(bytes) == be_value(bytes),
{
    lemma_le_value_bound(bytes);
    lemma_be_value_bound(bytes);
    lemma_byte_bounds();
}

/// A signed reading of a full buffer is the two's complement number that
/// its bytes encode, with nothing cut off.
pub proof fn law_signed_reads_exact(bytes: Seq<u8>)
    ensures
        bytes.len() == 2 ==> <i16 as SimplexReadable>::decoded_le(bytes) == twos_complement(
            le_value(bytes),
            2,
        ) && <i16 as SimplexReadable>::decoded_be(bytes) == twos_complement(be_value(bytes), 2),
        bytes.len() == 4 ==> <i32 as SimplexReadable>::decoded_le(bytes) == twos_complement(
            le_value(bytes),
            4,
        ) && <i32 as SimplexReadable>::decoded_be(bytes) == twos_complement(be_value(bytes), 4),
        bytes.len() == 8 ==> <i64 as SimplexReadable>::decoded_le(bytes) == twos_complement(
            le_value(bytes),
            8,
        ) && <i64 as SimplexReadable>::decoded_be(bytes) == twos_complement(be_value(bytes), 8),
        bytes.len() == 16 ==> <i128 as SimplexReadable>::decoded_le(bytes) == twos_complement(
            le_value(bytes),
            16,
        ) && <i128 as SimplexReadable>::decoded_be(bytes) == twos_complement(
            be_value(bytes),
            16,
        ),
{
    lemma_le_value_bound(bytes);
    lemma_be_value_bound(bytes);
    lemma_byte_bounds();
}

/// The UTF-8 encoding of any text is read back as that text.
pub proof fn law_string_read_round_trip(text: Seq<char>)
    ensures
        valid_utf8(encode_utf8(text)),
        decode_utf8(encode_utf8(text)) == text,
{
    encode_utf8_valid_utf8(text);
    encode_utf8_decode_utf8(text);
}

/// The `n` bytes of the unsigned number `v`, least significant first: what
/// `to_le_bytes` gives for an `n`-byte integer.
pub open spec fn le_bytes(v: nat, n: nat) -> Seq<u8>
    decreases n,
{
    if n == 0 {
        Seq::empty()
    } else {
        seq![(v % 256) as u8] + le_bytes(v / 256, (n - 1) as nat)
    }
}

/// The `n` bytes of `v`, most significant first: what `to_be_bytes` gives.
pub open spec fn be_bytes(v: nat, n: nat) -> Seq<u8> {
    le_bytes(v, n).reverse()
}

/// The unsigned `n`-byte number that holds the bits of the signed `x`.
pub open spec fn unsigned_bits(x: int, n: nat) -> nat {
    if x < 0 {
        (x + byte_bound(n)) as nat
    } else {
        x as nat
    }
}

/// The `n`-byte number `v` with its bytes in reverse order: what
/// `swap_bytes` gives.
pub open spec fn byte_swapped(v: nat, n: nat) -> nat {
    le_value(le_bytes(v, n).reverse())
}

/// Encoding `v` in `n` bytes and reading them back gives `v`.
pub proof fn lemma_le_bytes_read_back(v: nat, n: nat)
    requires
        v < byte_bound(n),
    ensures
        le_bytes(v, n).len() == n,
        le_value(le_bytes(v, n)) == v,
    decreases n,
{
    if n > 0 {
        let k = byte_bound((n - 1) as nat);
        assert(v / 256 < k) by (nonlinear_arith)
            requires
                v < 256 * k,
        ;
        lemma_le_bytes_read_back(v / 256, (n - 1) as nat);
        let bytes = le_bytes(v, n);
        let rest = le_bytes(v / 256, (n - 1) as nat);
        assert(bytes.drop_first() =~= rest);
        assert(bytes[0] == (v % 256) as u8);
    }
}

/// Reading bytes and encoding the value in as many bytes gives the bytes back.
pub proof fn lemma_le_value_encodes_back(bytes: Seq<u8>)
    ensures
        le_bytes(le_value(bytes), bytes.len()) == bytes,
    decreases bytes.len(),
{
    if bytes.len() > 0 {
        let rest = bytes.drop_first();
        lemma_le_value_encodes_back(rest);
        let v = le_value(bytes);
        assert(v % 256 == bytes[0] as nat && v / 256 == le_value(rest)) by (nonlinear_arith)
            requires
                v == bytes[0] as nat + 256 * le_value(rest),
                bytes[0] < 256,
        ;
        assert(le_bytes(v, bytes.len()) =~= bytes);
    } else {
        assert(le_bytes(le_value(bytes), 0) =~= bytes);
    }
}

/// The big-endian reading of the big-endian bytes of `v` is `v`.
pub proof fn lemma_be_bytes_read_back(v: nat, n: nat)
    requires
        v < byte_bound(n),
    ensures
        be_bytes(v, n).len() == n,
        be_value(be_bytes(v, n)) == v,
{
    lemma_le_bytes_read_back(v, n);
    law_le_is_reversed_be(le_bytes(v, n));
}

/// The two's complement reading of the bits of a signed `x` that fits in
/// `n` bytes is `x`.
pub proof fn lemma_twos_complement_read_back(x: int, n: nat)
    requires
        n > 0,
        -(byte_bound(n) / 2) <= x < byte_bound(n) / 2,
    ensures
        unsigned_bits(x, n) < byte_bound(n),
        twos_complement(unsigned_bits(x, n), n) == x,
{
}

/// Reading a value from the bytes that `to_le_bytes` or `to_be_bytes` gives
/// of it, in the same order, gives the value back; the bytes fill the buffer.
pub proof fn law_u16_bytes_read_back(x: u16)
    ensures
        le_bytes(x as nat, 2).len() == 2 && be_bytes(x as nat, 2).len() == 2,
        <u16 as SimplexReadable>::decoded_le(zero_filled(le_bytes(x as nat, 2), 2)) == x,
        <u16 as SimplexReadable>::decoded_be(zero_filled(be_bytes(x as nat, 2), 2)) == x,
{
    lemma_byte_bounds();
    lemma_le_bytes_read_back(x as nat, 2);
    lemma_be_bytes_read_back(x as nat, 2);
    assert(zero_filled(le_bytes(x as nat, 2), 2) =~= le_bytes(x as nat, 2));
    assert(zero_filled(be_bytes(x as nat, 2), 2) =~= be_bytes(x as nat, 2));
}

/// Reading a value from the bytes that `to_le_bytes` or `to_be_bytes` gives
/// of it, in the same order, gives the value back; the bytes fill the buffer.
pub proof fn law_u32_bytes_read_back(x: u32)
    ensures
        le_bytes(x as nat, 4).len() == 4 && be_bytes(x as nat, 4).len() == 4,
        <u32 as SimplexReadable>::decoded_le(zero_filled(le_bytes(x as nat, 4), 4)) == x,
        <u32 as SimplexReadable>::decoded_be(zero_filled(be_bytes(x as nat, 4), 4)) == x,
{
    lemma_byte_bounds();
    lemma_le_bytes_read_back(x as nat, 4);
    lemma_be_bytes_read_back(x as nat, 4);
    assert(zero_filled(le_bytes(x as nat, 4), 4) =~= le_bytes(x as nat, 4));
    assert(zero_filled(be_bytes(x as nat, 4), 4) =~= be_bytes(x as nat, 4));
}

/// Reading a value from the bytes that `to_le_bytes` or `to_be_bytes` gives
/// of it, in the same order, gives the value back; the bytes fill the buffer.
pub proof fn law_u64_bytes_read_back(x: u64)
    ensures
        le_bytes(x as nat, 8).len() == 8 && be_bytes(x as nat, 8).len() == 8,
        <u64 as SimplexReadable>::decoded_le(zero_filled(le_bytes(x as nat, 8), 8)) == x,
        <u64 as SimplexReadable>::decoded_be(zero_filled(be_bytes(x as nat, 8), 8)) == x,
{
    lemma_byte_bounds();
    lemma_le_bytes_read_back(x as nat, 8);
    lemma_be_bytes_read_back(x as nat, 8);
    assert(zero_filled(le_bytes(x as nat, 8), 8) =~= le_bytes(x as nat, 8));
    assert(zero_filled(be_bytes(x as nat, 8), 8) =~= be_bytes(x as nat, 8));
}

/// Reading a value from the bytes that `to_le_bytes` or `to_be_bytes` gives
/// of it, in the same order, gives the value back; the bytes fill the buffer.
pub proof fn law_u128_bytes_read_back(x: u128)
    ensures
        le_bytes(x as nat, 16).len() == 16 && be_bytes(x as nat, 16).len() == 16,
        <u128 as SimplexReadable>::decoded_le(zero_filled(le_bytes(x as nat, 16), 16)) == x,
        <u128 as SimplexReadable>::decoded_be(zero_filled(be_bytes(x as nat, 16), 16)) == x,
{
    lemma_byte_bounds();
    lemma_le_bytes_read_back(x as nat, 16);
    lemma_be_bytes_read_back(x as nat, 16);
    assert(zero_filled(le_bytes(x as nat, 16), 16) =~= le_bytes(x as nat, 16));
    assert(zero_filled(be_bytes(x as nat, 16), 16) =~= be_bytes(x as nat, 16));
}

/// Reading a value from the bytes that `to_le_bytes` or `to_be_bytes` gives
/// of it, in the same order, gives the value back; the bytes fill the buffer.
pub proof fn law_i16_bytes_read_back(x: i16)
    ensures
        le_bytes(unsigned_bits(x as int, 2), 2).len() == 2,
        be_bytes(unsigned_bits(x as int, 2), 2).len() == 2,
        <i16 as SimplexReadable>::decoded_le(
            zero_filled(le_bytes(unsigned_bits(x as int, 2), 2), 2),
        ) == x,
        <i16 as SimplexReadable>::decoded_be(
            zero_filled(be_bytes(unsigned_bits(x as int, 2), 2), 2),
        ) == x,
{
    lemma_byte_bounds();
    let u = unsigned_bits(x as int, 2);
    lemma_twos_complement_read_back(x as int, 2);
    lemma_le_bytes_read_back(u, 2);
    lemma_be_bytes_read_back(u, 2);
    assert(zero_filled(le_bytes(u, 2), 2) =~= le_bytes(u, 2));
    assert(zero_filled(be_bytes(u, 2), 2) =~= be_bytes(u, 2));
}

/// Reading a value from the bytes that `to_le_bytes` or `to_be_bytes` gives
/// of it, in the same order, gives the value back; the bytes fill the buffer.
pub proof fn law_i32_bytes_read_back(x: i32)
    ensures
        le_bytes(unsigned_bits(x as int, 4), 4).len() == 4,
        be_bytes(unsigned_bits(x as int, 4), 4).len() == 4,
        <i32 as SimplexReadable>::decoded_le(
            zero_filled(le_bytes(unsigned_bits(x as int, 4), 4), 4),
        ) == x,
        <i32 as SimplexReadable>::decoded_be(
            zero_filled(be_bytes(unsigned_bits(x as int, 4), 4), 4),
        ) == x,
{
    lemma_byte_bounds();
    let u = unsigned_bits(x as int, 4);
    lemma_twos_complement_read_back(x as int, 4);
    lemma_le_bytes_read_back(u, 4);
    lemma_be_bytes_read_back(u, 4);
    assert(zero_filled(le_bytes(u, 4), 4) =~= le_bytes(u, 4));
    assert(zero_filled(be_bytes(u, 4), 4) =~= be_bytes(u, 4));
}

/// Reading a value from the bytes that `to_le_bytes` or `to_be_bytes` gives
/// of it, in the same order, gives the value back; the bytes fill the buffer.
pub proof fn law_i64_bytes_read_back(x: i64)
    ensures
        le_bytes(unsigned_bits(x as int, 8), 8).len() == 8,
        be_bytes(unsigned_bits(x as int, 8), 8).len() == 8,
        <i64 as SimplexReadable>::decoded_le(
            zero_filled(le_bytes(unsigned_bits(x as int, 8), 8), 8),
        ) == x,
        <i64 as SimplexReadable>::decoded_be(
            zero_filled(be_bytes(unsigned_bits(x as int, 8), 8), 8),
        ) == x,
{
    lemma_byte_bounds();
    let u = unsigned_bits(x as int, 8);
    lemma_twos_complement_read_back(x as int, 8);
    lemma_le_bytes_read_back(u, 8);
    lemma_be_bytes_read_back(u, 8);
    assert(zero_filled(le_bytes(u, 8), 8) =~= le_bytes(u, 8));
    assert(zero_filled(be_bytes(u, 8), 8) =~= be_bytes(u, 8));
}

/// Reading a value from the bytes that `to_le_bytes` or `to_be_bytes` gives
/// of it, in the same order, gives the value back; the bytes fill the buffer.
pub proof fn law_i128_bytes_read_back(x: i128)
    ensures
        le_bytes(unsigned_bits(x as int, 16), 16).len() == 16,
        be_bytes(unsigned_bits(x as int, 16), 16).len() == 16,
        <i128 as SimplexReadable>::decoded_le(
            zero_filled(le_bytes(unsigned_bits(x as int, 16), 16), 16),
        ) == x,
        <i128 as SimplexReadable>::decoded_be(
            zero_filled(be_bytes(unsigned_bits(x as int, 16), 16), 16),
        ) == x,
{
    lemma_byte_bounds();
    let u = unsigned_bits(x as int, 16);
    lemma_twos_complement_read_back(x as int, 16);
    lemma_le_bytes_read_back(u, 16);
    lemma_be_bytes_read_back(u, 16);
    assert(zero_filled(le_bytes(u, 16), 16) =~= le_bytes(u, 16));
    assert(zero_filled(be_bytes(u, 16), 16) =~= be_bytes(u, 16));
}

/// A big-endian reading of any bytes is the byte-swapped little-endian
/// reading of the same bytes.
pub proof fn law_be_read_is_swapped_le_read(bytes: Seq<u8>)
    ensures
        be_value(bytes) == byte_swapped(le_value(bytes), bytes.len()),
        bytes.len() == 2 ==> <u16 as SimplexReadable>::decoded_be(bytes) == byte_swapped(
            <u16 as SimplexReadable>::decoded_le(bytes) as nat,
            2,
        ),
        bytes.len() == 4 ==> <u32 as SimplexReadable>::decoded_be(bytes) == byte_swapped(
            <u32 as SimplexReadable>::decoded_le(bytes) as nat,
            4,
        ),
        bytes.len() == 8 ==> <u64 as SimplexReadable>::decoded_be(bytes) == byte_swapped(
            <u64 as SimplexReadable>::decoded_le(bytes) as nat,
            8,
        ),
        bytes.len() == 16 ==> <u128 as SimplexReadable>::decoded_be(bytes) == byte_swapped(
            <u128 as SimplexReadable>::decoded_le(bytes) as nat,
            16,
        ),
{
    lemma_le_value_encodes_back(bytes);
    law_le_is_reversed_be(bytes.reverse());
    assert(bytes.reverse().reverse() =~= bytes);
    law_unsigned_reads_exact(bytes);
}

} // verus!
