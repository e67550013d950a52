//! Primitive readers of the Simplex binary format: fixed-width integers in
//! little- or big-endian order, and zero-terminated UTF-8 strings.
//!
//! Each reader is given what one read from the input delivered (`None` when
//! the read failed) and decides the value. A fixed-width read fills a zeroed
//! buffer of the width of the type, so a short read leaves the high-order
//! (little-endian) or low-order (big-endian) bytes zero.
use vstd::prelude::*;
use vstd::utf8::{decode_utf8, valid_utf8};

verus! {

/// The value of `bytes` as an unsigned number, least significant byte first.
pub open spec fn le_value(bytes: Seq<u8>) -> nat
    decreases bytes.len(),
{
    if bytes.len() == 0 {
        0
    } else {
        bytes[0] as nat + 256 * le_value(bytes.drop_first())
    }
}

/// The value of `bytes` as an unsigned number, most significant byte first.
pub open spec fn be_value(bytes: Seq<u8>) -> nat
    decreases bytes.len(),
{
    if bytes.len() == 0 {
        0
    } else {
        be_value(bytes.drop_last()) * 256 + bytes.last() as nat
    }
}

/// `256` to the power `n`: the number of values that `n` bytes hold.
pub open spec fn byte_bound(n: nat) -> nat
    decreases n,
{
    if n == 0 {
        1
    } else {
        256 * byte_bound((n - 1) as nat)
    }
}

/// The two's complement reading of the unsigned `n`-byte number `u`.
pub open spec fn twos_complement(u: nat, n: nat) -> int {
    if u < byte_bound(n) / 2 {
        u as int
    } else {
        u - byte_bound(n)
    }
}

/// The buffer of `width` bytes after a read that delivered `read` into a
/// zeroed buffer.
pub open spec fn zero_filled(read: Seq<u8>, width: nat) -> Seq<u8> {
    read + Seq::new((width - read.len()) as nat, |i: int| 0u8)
}

/// A fixed-width value of the Simplex format.
pub trait SimplexReadable: Sized {
    /// The number of bytes of the value.
    spec fn width() -> nat;

    /// The value that `bytes`, least significant first, encode.
    spec fn decoded_le(bytes: Seq<u8>) -> Self;

    /// The value that `bytes`, most significant first, encode.
    spec fn decoded_be(bytes: Seq<u8>) -> Self;

    fn byte_width() -> (n: usize)
        ensures
            n == Self::width(),
    ;

    fn decode_le(bytes: &[u8]) -> (v: Self)
        requires
            bytes@.len() == Self::width(),
        ensures
            v == Self::decoded_le(bytes@),
    ;

    fn decode_be(bytes: &[u8]) -> (v: Self)
        requires
            bytes@.len() == Self::width(),
        ensures
            v == Self::decoded_be(bytes@),
    ;

    /// The value read in little-endian order, given what the read delivered:
    /// `None` when the read failed.
    fn le_read(read: Option<Vec<u8>>) -> (r: Option<Self>)
        requires
            read matches Some(bytes) ==> bytes@.len() <= Self::width(),
        ensures
            read is None ==> r is None,
            read matches Some(bytes) ==> r == Some(
                Self::decoded_le(zero_filled(bytes@, Self::width())),
            ),
    {
        match read {
            None => None,
            Some(bytes) => {
                let buffer = zero_filled_buffer(&bytes, Self::byte_width());
                Some(Self::decode_le(buffer.as_slice()))
            },
        }
    }

    /// The value read in big-endian order, given what the read delivered:
    /// `None` when the read failed.
    fn be_read(read: Option<Vec<u8>>) -> (r: Option<Self>)
        requires
            read matches Some(bytes) ==> bytes@.len() <= Self::width(),
        ensures
            read is None ==> r is None,
            read matches Some(bytes) ==> r == Some(
                Self::decoded_be(zero_filled(bytes@, Self::width())),
            ),
    {
        match read {
            None => None,
            Some(bytes) => {
                let buffer = zero_filled_buffer(&bytes, Self::byte_width());
                Some(Self::decode_be(buffer.as_slice()))
            },
        }
    }
}

/// A buffer of `width` bytes that starts with `read` and is zero after it.
fn zero_filled_buffer(read: &Vec<u8>, width: usize) -> (buffer: Vec<u8>)
    requires
        read@.len() <= width,
    ensures
        buffer@ == zero_filled(read@, width as nat),
{
    let mut buffer: Vec<u8> = Vec::new();
    let mut i: usize = 0;
    while i < read.len()
        invariant
            i <= read@.len() <= width,
            buffer@ == read@.subrange(0, i as int),
        decreases read@.len() - i,
    {
        buffer.push(read[i]);
        i = i + 1;
        assert(buffer@ =~= read@.subrange(0, i as int));
    }
    while i < width
        invariant
            read@.len() <= i <= width,
            buffer@ == zero_filled(read@, width as nat).subrange(0, i as int),
        decreases width - i,
    {
        buffer.push(0);
        i = i + 1;
        assert(buffer@ =~= zero_filled(read@, width as nat).subrange(0, i as int));
    }
    assert(buffer@ =~= zero_filled(read@, width as nat));
    buffer
}

/// `n` bytes hold fewer than `byte_bound(n)` values.
pub proof fn lemma_le_value_bound(bytes: Seq<u8>)
    ensures
        le_value(bytes) < byte_bound(bytes.len()),
    decreases bytes.len(),
{
    if bytes.len() > 0 {
        lemma_le_value_bound(bytes.drop_first());
    }
}

/// `n` bytes hold fewer than `byte_bound(n)` values.
pub proof fn lemma_be_value_bound(bytes: Seq<u8>)
    ensures
        be_value(bytes) < byte_bound(bytes.len()),
    decreases bytes.len(),
{
    if bytes.len() > 0 {
        lemma_be_value_bound(bytes.drop_last());
    }
}

pub proof fn lemma_byte_bound_monotonic(a: nat, b: nat)
    requires
        a <= b,
    ensures
        byte_bound(a) <= byte_bound(b),
    decreases b,
{
    if a < b {
        lemma_byte_bound_monotonic(a, (b - 1) as nat);
    }
}

pub proof fn lemma_byte_bounds()
    ensures
        byte_bound(1) == 0x100,
        byte_bound(2) == 0x1_0000,
        byte_bound(4) == 0x1_0000_0000,
        byte_bound(8) == 0x1_0000_0000_0000_0000,
        byte_bound(16) == 0x1_0000_0000_0000_0000_0000_0000_0000_0000,
{
    reveal_with_fuel(byte_bound, 17);
}

/// The unsigned little-endian value of at most 16 bytes.
fn le_unsigned(bytes: &[u8]) -> (v: u128)
    requires
        bytes@.len() <= 16,
    ensures
        v == le_value(bytes@),
{
    let n = bytes.len();
    let mut i: usize = n;
    let mut acc: u128 = 0;
    proof {
        lemma_byte_bounds();
        assert(bytes@.subrange(n as int, n as int) =~= Seq::<u8>::empty());
    }
    while i > 0
        invariant
            n == bytes@.len() <= 16,
            i <= n,
            acc == le_value(bytes@.subrange(i as int, n as int)),
            byte_bound(16) == 0x1_0000_0000_0000_0000_0000_0000_0000_0000,
        decreases i,
    {
        let ghost tail = bytes@.subrange(i as int, n as int);
        let ghost longer = bytes@.subrange(i - 1, n as int);
        proof {
            assert(longer.drop_first() =~= tail);
            lemma_le_value_bound(longer);
            lemma_byte_bound_monotonic(longer.len(), 16);
        }
        acc = acc * 256 + bytes[i - 1] as u128;
        i = i - 1;
    }
    assert(bytes@.subrange(0, n as int) =~= bytes@);
    acc
}

/// The unsigned big-endian value of at most 16 bytes.
fn be_unsigned(bytes: &[u8]) -> (v: u128)
    requires
        bytes@.len() <= 16,
    ensures
        v == be_value(bytes@),
{
    let n = bytes.len();
    let mut i: usize = 0;
    let mut acc: u128 = 0;
    proof {
        lemma_byte_bounds();
        assert(bytes@.subrange(0, 0) =~= Seq::<u8>::empty());
    }
    while i < n
        invariant
            n == bytes@.len() <= 16,
            i <= n,
            acc == be_value(bytes@.subrange(0, i as int)),
            byte_bound(16) == 0x1_0000_0000_0000_0000_0000_0000_0000_0000,
        decreases n - i,
    {
        let ghost head = bytes@.subrange(0, i as int);
        let ghost longer = bytes@.subrange(0, i + 1);
        proof {
            assert(longer.drop_last() =~= head);
            lemma_be_value_bound(longer);
            lemma_byte_bound_monotonic(longer.len(), 16);
        }
        acc = acc * 256 + bytes[i] as u128;
        i = i + 1;
    }
    assert(bytes@.subrange(0, n as int) =~= bytes@);
    acc
}

/// The result of `String::from_utf8` on `bytes`, with the error dropped.
#[verifier::external_body]
fn string_from_utf8(bytes: Vec<u8>) -> (r: Option<String>)
    ensures
        r is Some <==> valid_utf8(bytes@),
        r matches Some(s) ==> s@ == decode_utf8(bytes@),
{
    String::from_utf8(bytes).ok()
}

/// Reads a value of `T` in little-endian order from what a read delivered.
pub fn simplex_le_read<T: SimplexReadable>(read: Option<Vec<u8>>) -> (r: Option<T>)
    requires
        read matches Some(bytes) ==> bytes@.len() <= T::width(),
    ensures
        read is None ==> r is None,
        read matches Some(bytes) ==> r == Some(T::decoded_le(zero_filled(bytes@, T::width()))),
{
    T::le_read(read)
}

/// Reads a value of `T` in big-endian order from what a read delivered.
pub fn simplex_be_read<T: SimplexReadable>(read: Option<Vec<u8>>) -> (r: Option<T>)
    requires
        read matches Some(bytes) ==> bytes@.len() <= T::width(),
    ensures
        read is None ==> r is None,
        read matches Some(bytes) ==> r == Some(T::decoded_be(zero_filled(bytes@, T::width()))),
{
    T::be_read(read)
}

/// Reads a string from what a read up to and including a zero byte
/// delivered (the zero byte, when one was found, stays in the string):
/// `None` when the read failed or the bytes are not UTF-8.
pub fn simplex_string_read(read: Option<Vec<u8>>) -> (r: Option<String>)
    ensures
        read is None ==> r is None,
        read matches Some(bytes) ==> (r is Some <==> valid_utf8(bytes@)),
        read matches Some(bytes) ==> (r matches Some(s) ==> s@ == decode_utf8(bytes@)),
{
    match read {
        None => None,
        Some(bytes) => string_from_utf8(bytes),
    }
}

impl SimplexReadable for u16 {
    open spec fn width() -> nat {
        2
    }

    open spec fn decoded_le(bytes: Seq<u8>) -> u16 {
        le_value(bytes) as u16
    }

    open spec fn decoded_be(bytes: Seq<u8>) -> u16 {
        be_value(bytes) as u16
    }

    fn byte_width() -> (n: usize) {
        2
    }

    fn decode_le(bytes: &[u8]) -> (v: u16) {
        proof {
            lemma_le_value_bound(bytes@);
            lemma_byte_bounds();
        }
        le_unsigned(bytes) as u16
    }

    fn decode_be(bytes: &[u8]) -> (v: u16) {
        proof {
            lemma_be_value_bound(bytes@);
            lemma_byte_bounds();
        }
        be_unsigned(bytes) as u16
    }
}

impl SimplexReadable for i16 {
    open spec fn width() -> nat {
        2
    }

    open spec fn decoded_le(bytes: Seq<u8>) -> i16 {
        twos_complement(le_value(bytes), 2) as i16
    }

    open spec fn decoded_be(bytes: Seq<u8>) -> i16 {
        twos_complement(be_value(bytes), 2) as i16
    }

    fn byte_width() -> (n: usize) {
        2
    }

    fn decode_le(bytes: &[u8]) -> (v: i16) {
        proof {
            lemma_le_value_bound(bytes@);
            lemma_byte_bounds();
        }
        let u = le_unsigned(bytes);
        if u < 0x8000 {
            u as i16
        } else {
            (u as i32 - 0x1_0000) as i16
        }
    }

    fn decode_be(bytes: &[u8]) -> (v: i16) {
        proof {
            lemma_be_value_bound(bytes@);
            lemma_byte_bounds();
        }
        let u = be_unsigned(bytes);
        if u < 0x8000 {
            u as i16
        } else {
            (u as i32 - 0x1_0000) as i16
        }
    }
}

impl SimplexReadable for u32 {
    open spec fn width() -> nat {
        4
    }

    open spec fn decoded_le(bytes: Seq<u8>) -> u32 {
        le_value(bytes) as u32
    }

    open spec fn decoded_be(bytes: Seq<u8>) -> u32 {
        be_value(bytes) as u32
    }

    fn byte_width() -> (n: usize) {
        4
    }

    fn decode_le(bytes: &[u8]) -> (v: u32) {
        proof {
            lemma_le_value_bound(bytes@);
            lemma_byte_bounds();
        }
        le_unsigned(bytes) as u32
    }

    fn decode_be(bytes: &[u8]) -> (v: u32) {
        proof {
            lemma_be_value_bound(bytes@);
            lemma_byte_bounds();
        }
        be_unsigned(bytes) as u32
    }
}

impl SimplexReadable for i32 {
    open spec fn width() -> nat {
        4
    }

    open spec fn decoded_le(bytes: Seq<u8>) -> i32 {
        twos_complement(le_value(bytes), 4) as i32
    }

    open spec fn decoded_be(bytes: Seq<u8>) -> i32 {
        twos_complement(be_value(bytes), 4) as i32
    }

    fn byte_width() -> (n: usize) {
        4
    }

    fn decode_le(bytes: &[u8]) -> (v: i32) {
        proof {
            lemma_le_value_bound(bytes@);
            lemma_byte_bounds();
        }
        let u = le_unsigned(bytes);
        if u < 0x8000_0000 {
            u as i32
        } else {
            (u as i64 - 0x1_0000_0000) as i32
        }
    }

    fn decode_be(bytes: &[u8]) -> (v: i32) {
        proof {
            lemma_be_value_bound(bytes@);
            lemma_byte_bounds();
        }
        let u = be_unsigned(bytes);
        if u < 0x8000_0000 {
            u as i32
        } else {
            (u as i64 - 0x1_0000_0000) as i32
        }
    }
}

impl SimplexReadable for u64 {
    open spec fn width() -> nat {
        8
    }

    open spec fn decoded_le(bytes: Seq<u8>) -> u64 {
        le_value(bytes) as u64
    }

    open spec fn decoded_be(bytes: Seq<u8>) -> u64 {
        be_value(bytes) as u64
    }

    fn byte_width() -> (n: usize) {
        8
    }

    fn decode_le(bytes: &[u8]) -> (v: u64) {
        proof {
            lemma_le_value_bound(bytes@);
            lemma_byte_bounds();
        }
        le_unsigned(bytes) as u64
    }

    fn decode_be(bytes: &[u8]) -> (v: u64) {
        proof {
            lemma_be_value_bound(bytes@);
            lemma_byte_bounds();
        }
        be_unsigned(bytes) as u64
    }
}

impl SimplexReadable for i64 {
    open spec fn width() -> nat {
        8
    }

    open spec fn decoded_le(bytes: Seq<u8>) -> i64 {
        twos_complement(le_value(bytes), 8) as i64
    }

    open spec fn decoded_be(bytes: Seq<u8>) -> i64 {
        twos_complement(be_value(bytes), 8) as i64
    }

    fn byte_width() -> (n: usize) {
        8
    }

    fn decode_le(bytes: &[u8]) -> (v: i64) {
        proof {
            lemma_le_value_bound(bytes@);
            lemma_byte_bounds();
        }
        let u = le_unsigned(bytes);
        if u < 0x8000_0000_0000_0000 {
            u as i64
        } else {
            (u as i128 - 0x1_0000_0000_0000_0000) as i64
        }
    }

    fn decode_be(bytes: &[u8]) -> (v: i64) {
        proof {
            lemma_be_value_bound(bytes@);
            lemma_byte_bounds();
        }
        let u = be_unsigned(bytes);
        if u < 0x8000_0000_0000_0000 {
            u as i64
        } else {
            (u as i128 - 0x1_0000_0000_0000_0000) as i64
        }
    }
}

impl SimplexReadable for u128 {
    open spec fn width() -> nat {
        16
    }

    open spec fn decoded_le(bytes: Seq<u8>) -> u128 {
        le_value(bytes) as u128
    }

    open spec fn decoded_be(bytes: Seq<u8>) -> u128 {
        be_value(bytes) as u128
    }

    fn byte_width() -> (n: usize) {
        16
    }

    fn decode_le(bytes: &[u8]) -> (v: u128) {
        proof {
            lemma_le_value_bound(bytes@);
            lemma_byte_bounds();
        }
        le_unsigned(bytes) as u128
    }

    fn decode_be(bytes: &[u8]) -> (v: u128) {
        proof {
            lemma_be_value_bound(bytes@);
            lemma_byte_bounds();
        }
        be_unsigned(bytes) as u128
    }
}

impl SimplexReadable for i128 {
    open spec fn width() -> nat {
        16
    }

    open spec fn decoded_le(bytes: Seq<u8>) -> i128 {
        twos_complement(le_value(bytes), 16) as i128
    }

    open spec fn decoded_be(bytes: Seq<u8>) -> i128 {
        twos_complement(be_value(bytes), 16) as i128
    }

    fn byte_width() -> (n: usize) {
        16
    }

    fn decode_le(bytes: &[u8]) -> (v: i128) {
        proof {
            lemma_le_value_bound(bytes@);
            lemma_byte_bounds();
        }
        let u = le_unsigned(bytes);
        if u <= i128::MAX as u128 {
            u as i128
        } else {
            -((u128::MAX - u) as i128) - 1
        }
    }

    fn decode_be(bytes: &[u8]) -> (v: i128) {
        proof {
            lemma_be_value_bound(bytes@);
            lemma_byte_bounds();
        }
        let u = be_unsigned(bytes);
        if u <= i128::MAX as u128 {
            u as i128
        } else {
            -((u128::MAX - u) as i128) - 1
        }
    }
}

} // verus!
