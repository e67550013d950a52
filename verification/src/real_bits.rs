//! Sharky reals are IEEE 754 binary64 numbers. The library carries them as
//! their 64-bit patterns (what `f64::to_bits` gives) and decides the
//! comparisons on those bits; the arithmetic on them is handed to a
//! `RealArithmetic` implementation.
use vstd::prelude::*;

verus! {

/// The sign bit of a binary64 pattern.
pub open spec fn real_sign_bit() -> int {
    0x8000_0000_0000_0000
}

/// The bits below the sign bit: exponent and fraction.
pub open spec fn real_magnitude(bits: u64) -> int {
    (bits % 0x8000_0000_0000_0000) as int
}

/// A NaN has an all-ones exponent and a nonzero fraction, so its magnitude
/// lies above that of infinity (`0x7FF0_0000_0000_0000`).
pub open spec fn real_is_nan(bits: u64) -> bool {
    real_magnitude(bits) > 0x7FF0_0000_0000_0000
}

/// Both `+0.0` and `-0.0` have a zero magnitude.
pub open spec fn real_is_zero(bits: u64) -> bool {
    real_magnitude(bits) == 0
}

/// An integer that orders the non-NaN reals as their values do: the magnitude,
/// negated when the sign bit is set. Both zeros map to 0.
pub open spec fn real_order_key(bits: u64) -> int {
    if bits >= real_sign_bit() {
        -real_magnitude(bits)
    } else {
        real_magnitude(bits)
    }
}

/// `l == r` on binary64 values: false when either is NaN, and `+0.0 == -0.0`.
pub open spec fn real_equal(l: u64, r: u64) -> bool {
    !real_is_nan(l) && !real_is_nan(r) && real_order_key(l) == real_order_key(r)
}

/// `l < r` on binary64 values: false when either is NaN.
pub open spec fn real_less(l: u64, r: u64) -> bool {
    !real_is_nan(l) && !real_is_nan(r) && real_order_key(l) < real_order_key(r)
}

/// Tests whether the real with these bits is zero (of either sign).
pub fn real_bits_is_zero(bits: u64) -> (zero: bool)
    ensures
        zero == real_is_zero(bits),
{
    bits % 0x8000_0000_0000_0000 == 0
}

fn real_bits_is_nan(bits: u64) -> (nan: bool)
    ensures
        nan == real_is_nan(bits),
{
    bits % 0x8000_0000_0000_0000 > 0x7FF0_0000_0000_0000
}

fn real_bits_order_key(bits: u64) -> (key: i64)
    ensures
        key == real_order_key(bits),
{
    let magnitude = bits % 0x8000_0000_0000_0000;
    if bits >= 0x8000_0000_0000_0000 {
        -(magnitude as i64)
    } else {
        magnitude as i64
    }
}

/// Compares two reals for equality as binary64 `==` does.
pub fn real_bits_equal(l: u64, r: u64) -> (eq: bool)
    ensures
        eq == real_equal(l, r),
{
    !real_bits_is_nan(l) && !real_bits_is_nan(r) && real_bits_order_key(l) == real_bits_order_key(r)
}

/// Compares two reals as binary64 `<` does.
pub fn real_bits_less(l: u64, r: u64) -> (lt: bool)
    ensures
        lt == real_less(l, r),
{
    !real_bits_is_nan(l) && !real_bits_is_nan(r) && real_bits_order_key(l) < real_bits_order_key(r)
}

} // verus!
