//! Laws that the operations on Sharky values obey, stated over the
//! specifications that their contracts use.
use vstd::prelude::*;

use crate::arith::{lemma_division_identity, lemma_quotient_bounded};
use crate::data_types::{in_range, same_kind, SharkyDataType, SharkyOp};
use crate::decimal::{decimal_digits, law_decimal_digits_denote};
use crate::real_bits::{real_equal, real_is_nan, real_is_zero, real_less};
use vstd::arithmetic::power2::pow2;
use vstd::bits::{lemma_u8_shl_is_mul, lemma_u8_shr_is_div, lemma_usize_shl_is_mul, lemma_usize_shr_is_div};

verus! {

/// An integer kind: `Max`, `Int` or `Byte`.
pub open spec fn integer_kind(v: SharkyDataType) -> bool {
    v is Max || v is Int || v is Byte
}

/// A value is tested for zero exactly when it is numerical.
pub proof fn law_zero_test_iff_numerical(v: SharkyDataType)
    ensures
        v.zero_test() is Some <==> v.numerical(),
{
}

/// The integer operations answer only for two integers of one kind, and
/// answer with an integer of that kind.
pub proof fn law_integer_results_keep_kind(lhs: SharkyDataType, rhs: SharkyDataType)
    ensures
        SharkyDataType::integer_sum(lhs, rhs) matches Some(x) ==> integer_kind(lhs)
            && same_kind(lhs, rhs) && same_kind(x, lhs),
        SharkyDataType::integer_difference(lhs, rhs) matches Some(x) ==> integer_kind(lhs)
            && same_kind(lhs, rhs) && same_kind(x, lhs),
        SharkyDataType::integer_product(lhs, rhs) matches Some(x) ==> integer_kind(lhs)
            && same_kind(lhs, rhs) && same_kind(x, lhs),
        SharkyDataType::integer_quotient(lhs, rhs) matches Some(x) ==> integer_kind(lhs)
            && same_kind(lhs, rhs) && same_kind(x, lhs),
        SharkyDataType::integer_remainder(lhs, rhs) matches Some(x) ==> integer_kind(lhs)
            && same_kind(lhs, rhs) && same_kind(x, lhs),
        SharkyDataType::shifted_left(lhs, rhs) matches Some(x) ==> integer_kind(lhs)
            && same_kind(lhs, rhs) && same_kind(x, lhs),
        SharkyDataType::shifted_right(lhs, rhs) matches Some(x) ==> integer_kind(lhs)
            && same_kind(lhs, rhs) && same_kind(x, lhs),
        SharkyDataType::bitwise_and(lhs, rhs) matches Some(x) ==> integer_kind(lhs)
            && same_kind(lhs, rhs) && same_kind(x, lhs),
        SharkyDataType::bitwise_or(lhs, rhs) matches Some(x) ==> integer_kind(lhs)
            && same_kind(lhs, rhs) && same_kind(x, lhs),
        SharkyDataType::bitwise_xor(lhs, rhs) matches Some(x) ==> integer_kind(lhs)
            && same_kind(lhs, rhs) && same_kind(x, lhs),
{
}

/// Two integers of one kind always combine: sum, difference, product, shifts
/// and bitwise operations answer `Some`, and so do quotient and remainder
/// unless the divisor is zero.
pub proof fn law_integer_operations_defined(lhs: SharkyDataType, rhs: SharkyDataType)
    requires
        integer_kind(lhs),
        same_kind(lhs, rhs),
    ensures
        SharkyDataType::integer_sum(lhs, rhs) is Some,
        SharkyDataType::integer_difference(lhs, rhs) is Some,
        SharkyDataType::integer_product(lhs, rhs) is Some,
        SharkyDataType::integer_quotient(lhs, rhs) is Some <==> !rhs.is_zero_value(),
        SharkyDataType::integer_remainder(lhs, rhs) is Some <==> !rhs.is_zero_value(),
        SharkyDataType::shifted_left(lhs, rhs) is Some,
        SharkyDataType::shifted_right(lhs, rhs) is Some,
        SharkyDataType::bitwise_and(lhs, rhs) is Some,
        SharkyDataType::bitwise_or(lhs, rhs) is Some,
        SharkyDataType::bitwise_xor(lhs, rhs) is Some,
{
}

/// The comparisons answer with a `Bool`.
pub proof fn law_comparisons_give_bool(lhs: SharkyDataType, rhs: SharkyDataType)
    ensures
        SharkyDataType::equality(lhs, rhs) matches Some(x) ==> x is Bool,
        SharkyDataType::less(lhs, rhs) matches Some(x) ==> x is Bool,
        SharkyDataType::greater(lhs, rhs) matches Some(x) ==> x is Bool,
{
}

/// `a < b` answers as `b > a` does.
pub proof fn law_less_is_converse_greater(a: SharkyDataType, b: SharkyDataType)
    ensures
        SharkyDataType::less(a, b) == SharkyDataType::greater(b, a),
{
}

/// Two non-NaN reals are equal, or one is less than the other, and only one
/// of these holds; a NaN is neither equal to, less than nor greater than any real.
pub proof fn law_real_order(l: u64, r: u64)
    ensures
        !real_is_nan(l) && !real_is_nan(r) ==> (real_less(l, r) || real_less(r, l) || real_equal(
            l,
            r,
        )),
        !(real_less(l, r) && real_less(r, l)),
        !(real_less(l, r) && real_equal(l, r)),
        real_is_nan(l) || real_is_nan(r) ==> !real_less(l, r) && !real_less(r, l) && !real_equal(
            l,
            r,
        ),
{
}

/// Equality is reflexive on a value that is not a numerical zero and not a NaN.
pub proof fn law_equality_reflexive(v: SharkyDataType)
    requires
        !v.is_zero_value(),
        v matches SharkyDataType::Real(bits) ==> !real_is_nan(bits),
    ensures
        SharkyDataType::equality(v, v) == Some(SharkyDataType::Bool(true)),
{
}

/// Equality is symmetric when neither operand is a numerical zero.
pub proof fn law_equality_symmetric(a: SharkyDataType, b: SharkyDataType)
    requires
        !a.is_zero_value(),
        !b.is_zero_value(),
    ensures
        SharkyDataType::equality(a, b) == SharkyDataType::equality(b, a),
{
}

/// Complementing an integer twice gives it back.
pub proof fn law_bitwise_not_involution(v: SharkyDataType)
    requires
        integer_kind(v),
    ensures
        SharkyDataType::bitwise_not(SharkyDataType::bitwise_not(v).unwrap()) == Some(v),
{
    match v {
        SharkyDataType::Max(l) => {
            assert(!(!l) == l) by (bit_vector);
        },
        SharkyDataType::Int(l) => {
            assert(!(!l) == l) by (bit_vector);
        },
        SharkyDataType::Byte(l) => {
            assert(!(!l) == l) by (bit_vector);
        },
        _ => {},
    }
}

/// De Morgan: the complement of `a & b` is `!a | !b`.
pub proof fn law_bitwise_de_morgan(a: SharkyDataType, b: SharkyDataType)
    requires
        integer_kind(a),
        same_kind(a, b),
    ensures
        SharkyDataType::bitwise_not(SharkyDataType::bitwise_and(a, b).unwrap())
            == SharkyDataType::bitwise_or(
            SharkyDataType::bitwise_not(a).unwrap(),
            SharkyDataType::bitwise_not(b).unwrap(),
        ),
{
    match (a, b) {
        (SharkyDataType::Max(l), SharkyDataType::Max(r)) => {
            assert(!(l & r) == (!l) | (!r)) by (bit_vector);
        },
        (SharkyDataType::Int(l), SharkyDataType::Int(r)) => {
            assert(!(l & r) == (!l) | (!r)) by (bit_vector);
        },
        (SharkyDataType::Byte(l), SharkyDataType::Byte(r)) => {
            assert(!(l & r) == (!l) | (!r)) by (bit_vector);
        },
        _ => {},
    }
}

/// An integer exclusive-ored with itself is zero.
pub proof fn law_xor_self_is_zero(v: SharkyDataType)
    requires
        integer_kind(v),
    ensures
        SharkyDataType::bitwise_xor(v, v) matches Some(z) && z.is_zero_value() && same_kind(z, v),
{
    match v {
        SharkyDataType::Max(l) => {
            assert(l ^ l == 0) by (bit_vector);
        },
        SharkyDataType::Int(l) => {
            assert(l ^ l == 0) by (bit_vector);
        },
        SharkyDataType::Byte(l) => {
            assert(l ^ l == 0) by (bit_vector);
        },
        _ => {},
    }
}

/// Subtracting what was added gives back the first operand.
pub proof fn law_subtract_undoes_add(lhs: SharkyDataType, rhs: SharkyDataType)
    requires
        integer_kind(lhs),
        same_kind(lhs, rhs),
        in_range(SharkyOp::Add, lhs, rhs),
    ensures
        SharkyDataType::integer_sum(lhs, rhs) matches Some(s) && in_range(
            SharkyOp::Subtract,
            s,
            rhs,
        ) && SharkyDataType::integer_difference(s, rhs) == Some(lhs),
{
}

/// Adding what was subtracted gives back the first operand.
pub proof fn law_add_undoes_subtract(lhs: SharkyDataType, rhs: SharkyDataType)
    requires
        integer_kind(lhs),
        same_kind(lhs, rhs),
        in_range(SharkyOp::Subtract, lhs, rhs),
    ensures
        SharkyDataType::integer_difference(lhs, rhs) matches Some(d) && in_range(
            SharkyOp::Add,
            d,
            rhs,
        ) && SharkyDataType::integer_sum(d, rhs) == Some(lhs),
{
}

/// Division and remainder split an `Int`: `l == r * q + m`, where `m` has
/// the sign of `l` and a smaller magnitude than `r`.
pub proof fn law_int_division_identity(l: i64, r: i64)
    requires
        r != 0,
        in_range(SharkyOp::Divide, SharkyDataType::Int(l), SharkyDataType::Int(r)),
    ensures
        SharkyDataType::integer_quotient(SharkyDataType::Int(l), SharkyDataType::Int(r)) matches Some(
            SharkyDataType::Int(q),
        ) && SharkyDataType::integer_remainder(
            SharkyDataType::Int(l),
            SharkyDataType::Int(r),
        ) matches Some(SharkyDataType::Int(m)) && l == r * q + m && (l >= 0 ==> 0 <= m) && (l < 0
            ==> m <= 0) && (r > 0 ==> -r < m < r) && (r < 0 ==> r < m < -r),
{
    lemma_division_identity(l as int, r as int);
    lemma_quotient_bounded(l as int, r as int);
}

/// Division and remainder split a `Max`: `l == r * q + m` with `m < r`.
pub proof fn law_max_division_identity(l: usize, r: usize)
    requires
        r != 0,
    ensures
        SharkyDataType::integer_quotient(SharkyDataType::Max(l), SharkyDataType::Max(r)) matches Some(
            SharkyDataType::Max(q),
        ) && SharkyDataType::integer_remainder(
            SharkyDataType::Max(l),
            SharkyDataType::Max(r),
        ) matches Some(SharkyDataType::Max(m)) && l == r * q + m && m < r,
{
    lemma_division_identity(l as int, r as int);
}

/// Division and remainder split a `Byte`: `l == r * q + m` with `m < r`.
pub proof fn law_byte_division_identity(l: u8, r: u8)
    requires
        r != 0,
    ensures
        SharkyDataType::integer_quotient(SharkyDataType::Byte(l), SharkyDataType::Byte(r)) matches Some(
            SharkyDataType::Byte(q),
        ) && SharkyDataType::integer_remainder(
            SharkyDataType::Byte(l),
            SharkyDataType::Byte(r),
        ) matches Some(SharkyDataType::Byte(m)) && l == r * q + m && m < r,
{
    lemma_division_identity(l as int, r as int);
}

/// Each conversion answers with a value of the kind that it converts to.
pub proof fn law_conversions_give_their_kind(v: SharkyDataType)
    ensures
        v.as_bool() matches Some(x) ==> x is Bool,
        v.as_max() matches Some(x) ==> x is Max,
        v.as_int() matches Some(x) ==> x is Int,
        v.as_byte() matches Some(x) ==> x is Byte,
        v.as_heap_reference() matches Some(x) ==> x is HeapReference,
{
}

/// A `Byte` converted to an `Int` converts back to the same `Byte`, and so
/// does a `Max` converted to an `Int`.
pub proof fn law_int_conversion_round_trips(b: u8, m: usize)
    ensures
        SharkyDataType::Byte(b).as_int() matches Some(i) && i.as_byte() == Some(
            SharkyDataType::Byte(b),
        ),
        SharkyDataType::Max(m).as_int() matches Some(i) && i.as_max() == Some(
            SharkyDataType::Max(m),
        ),
{
    assert((b as i64) as u8 == b) by (bit_vector);
    assert((m as i64) as usize == m) by (bit_vector);
}

/// A `Bool` converted to an integer converts back to the same `Bool`.
pub proof fn law_bool_conversion_round_trips(b: bool)
    ensures
        SharkyDataType::Bool(b).as_byte() matches Some(x) && x.as_bool() == Some(
            SharkyDataType::Bool(b),
        ),
        SharkyDataType::Bool(b).as_int() matches Some(x) && x.as_bool() == Some(
            SharkyDataType::Bool(b),
        ),
        SharkyDataType::Bool(b).as_max() matches Some(x) && x.as_bool() == Some(
            SharkyDataType::Bool(b),
        ),
{
}

/// The number that an integer value holds; 0 for the other kinds.
pub open spec fn integer_value(v: SharkyDataType) -> int {
    match v {
        SharkyDataType::Max(x) => x as int,
        SharkyDataType::Int(x) => x as int,
        SharkyDataType::Byte(x) => x as int,
        _ => 0,
    }
}

/// In range, sum, difference and product of two integers of one kind hold
/// the sum, difference and product of their numbers, and the product does
/// not depend on the order of the operands.
pub proof fn law_arithmetic_computes_numbers(a: SharkyDataType, b: SharkyDataType)
    requires
        integer_kind(a),
        same_kind(a, b),
    ensures
        in_range(SharkyOp::Add, a, b) ==> (SharkyDataType::integer_sum(a, b) matches Some(x)
            && same_kind(x, a) && integer_value(x) == integer_value(a) + integer_value(b)),
        in_range(SharkyOp::Subtract, a, b) ==> (SharkyDataType::integer_difference(a, b) matches Some(
            x,
        ) && same_kind(x, a) && integer_value(x) == integer_value(a) - integer_value(b)),
        in_range(SharkyOp::Multiply, a, b) ==> (SharkyDataType::integer_product(a, b) matches Some(
            x,
        ) && same_kind(x, a) && integer_value(x) == integer_value(a) * integer_value(b)),
        SharkyDataType::integer_product(a, b) == SharkyDataType::integer_product(b, a),
{
    match (a, b) {
        (SharkyDataType::Max(l), SharkyDataType::Max(r)) => {
            assert(l * r == r * l) by (nonlinear_arith);
        },
        (SharkyDataType::Int(l), SharkyDataType::Int(r)) => {
            assert(l * r == r * l) by (nonlinear_arith);
        },
        (SharkyDataType::Byte(l), SharkyDataType::Byte(r)) => {
            assert(l * r == r * l) by (nonlinear_arith);
        },
        _ => {},
    }
}

/// Dividing the product of two integers of one kind by the nonzero second
/// gives back the first.
pub proof fn law_division_undoes_multiplication(a: SharkyDataType, b: SharkyDataType)
    requires
        integer_kind(a),
        same_kind(a, b),
        in_range(SharkyOp::Multiply, a, b),
        integer_value(b) != 0,
    ensures
        SharkyDataType::integer_product(a, b) matches Some(p) && in_range(SharkyOp::Divide, p, b)
            && SharkyDataType::integer_quotient(p, b) == Some(a),
{
    let l = integer_value(a);
    let r = integer_value(b);
    let p = l * r;
    lemma_division_identity(p, r);
    let q = crate::arith::quotient_toward_zero(p, r);
    let m = crate::arith::remainder_toward_zero(p, r);
    assert(q == l) by (nonlinear_arith)
        requires
            p == r * q + m,
            p == l * r,
            r != 0,
            p >= 0 ==> 0 <= m,
            p < 0 ==> m <= 0,
            r > 0 ==> -r < m < r,
            r < 0 ==> r < m < -r,
    ;
    match (a, b) {
        (SharkyDataType::Int(x), SharkyDataType::Int(y)) => {
            if x == i64::MIN && y == -1 {
                assert(false) by (nonlinear_arith)
                    requires
                        x == i64::MIN,
                        y == -1,
                        i64::MIN <= x * y <= i64::MAX,
                ;
            }
            if p == i64::MIN && y == -1 {
                assert(x * y == i64::MIN && y == -1 ==> x == -i64::MIN) by (nonlinear_arith);
            }
        },
        _ => {},
    }
}

/// The comparisons of two integers of one kind compare their numbers; the
/// equality test does so unless the right operand is zero.
pub proof fn law_comparisons_compare_numbers(a: SharkyDataType, b: SharkyDataType)
    requires
        integer_kind(a),
        same_kind(a, b),
    ensures
        SharkyDataType::less(a, b) == Some(SharkyDataType::Bool(integer_value(a) < integer_value(b))),
        SharkyDataType::greater(a, b) == Some(
            SharkyDataType::Bool(integer_value(a) > integer_value(b)),
        ),
        integer_value(b) != 0 ==> SharkyDataType::equality(a, b) == Some(
            SharkyDataType::Bool(integer_value(a) == integer_value(b)),
        ),
        integer_value(b) == 0 ==> SharkyDataType::equality(a, b) is None,
{
}

/// Booleans, nils and heap references are equal exactly when they hold the same.
pub proof fn law_equality_of_plain_values(x: bool, y: bool, i: usize, j: usize)
    ensures
        SharkyDataType::equality(SharkyDataType::Bool(x), SharkyDataType::Bool(y)) == Some(
            SharkyDataType::Bool(x == y),
        ),
        SharkyDataType::equality(SharkyDataType::Nil, SharkyDataType::Nil) == Some(
            SharkyDataType::Bool(true),
        ),
        SharkyDataType::equality(
            SharkyDataType::HeapReference(i),
            SharkyDataType::HeapReference(j),
        ) == Some(SharkyDataType::Bool(i == j)),
{
}

/// Byte strings are equal exactly when they hold the same bytes: equal
/// bytes compare equal, and strings of different lengths, or with a
/// differing byte, compare unequal.
pub proof fn law_byte_strings_compare_by_bytes(a: Vec<u8>, b: Vec<u8>)
    ensures
        a@ == b@ ==> SharkyDataType::equality(
            SharkyDataType::ByteString(a),
            SharkyDataType::ByteString(b),
        ) == Some(SharkyDataType::Bool(true)),
        a@.len() != b@.len() ==> SharkyDataType::equality(
            SharkyDataType::ByteString(a),
            SharkyDataType::ByteString(b),
        ) == Some(SharkyDataType::Bool(false)),
        forall|k: int|
            0 <= k < a@.len() && k < b@.len() && a@[k] != b@[k] ==> SharkyDataType::equality(
                SharkyDataType::ByteString(a),
                SharkyDataType::ByteString(b),
            ) == Some(SharkyDataType::Bool(false)),
{
}

/// An integer converts to `Bool(true)` exactly when it is not zero; `Nil`
/// converts to `Bool(false)`; the other kinds do not convert.
pub proof fn law_to_bool_tests_nonzero(v: SharkyDataType)
    ensures
        integer_kind(v) ==> v.as_bool() == Some(SharkyDataType::Bool(integer_value(v) != 0)),
        v is Nil ==> v.as_bool() == Some(SharkyDataType::Bool(false)),
        !integer_kind(v) && !(v is Nil) ==> v.as_bool() is None,
{
}

/// The integer conversions keep the number where the target kind holds it,
/// and otherwise keep it modulo the size of the target; a `Bool` becomes 1
/// or 0 and `Nil` becomes 0.
pub proof fn law_integer_conversions_keep_numbers(v: SharkyDataType, b: bool)
    ensures
        integer_kind(v) && !(v is Int) && integer_value(v) <= i64::MAX ==> (v.as_int() matches Some(
            x,
        ) && integer_value(x) == integer_value(v)),
        integer_kind(v) && !(v is Max) && 0 <= integer_value(v) <= usize::MAX ==> (v.as_max() matches Some(x)
            && integer_value(x) == integer_value(v)),
        integer_kind(v) && !(v is Byte) ==> (v.as_byte() matches Some(x) && integer_value(x)
            == integer_value(v) % 256),
        integer_kind(v) && 0 <= integer_value(v) <= usize::MAX ==> (v.as_heap_reference() matches Some(
            SharkyDataType::HeapReference(x),
        ) && x == integer_value(v)),
        SharkyDataType::Bool(b).as_int() == Some(SharkyDataType::Int(if b { 1 } else { 0 })),
        SharkyDataType::Bool(b).as_max() == Some(SharkyDataType::Max(if b { 1 } else { 0 })),
        SharkyDataType::Bool(b).as_byte() == Some(SharkyDataType::Byte(if b { 1 } else { 0 })),
        SharkyDataType::Nil.as_int() == Some(SharkyDataType::Int(0)),
        SharkyDataType::Nil.as_max() == Some(SharkyDataType::Max(0)),
        SharkyDataType::Nil.as_byte() == Some(SharkyDataType::Byte(0)),
{
    match v {
        SharkyDataType::Int(i) => {
            assert((i as u8) as int == i % 256) by (bit_vector);
        },
        SharkyDataType::Max(m) => {
            assert((m as u8) as int == m % 256) by (bit_vector);
        },
        _ => {},
    }
}

/// Shifting an `Int` left by 0 keeps it, by 1 doubles it (keeping the low
/// 64 bits), and by `r + 1` shifts the result of shifting by `r` once more;
/// shifting right by 1 halves it rounding down, and by `r + 1` shifts the
/// result of shifting by `r` once more.
pub proof fn law_int_shifts_step(l: i64, r: i64)
    requires
        0 <= r < 63,
    ensures
        SharkyDataType::shifted_left(SharkyDataType::Int(l), SharkyDataType::Int(0)) == Some(
            SharkyDataType::Int(l),
        ),
        SharkyDataType::shifted_left(SharkyDataType::Int(l), SharkyDataType::Int(1)) == Some(
            SharkyDataType::Int((2 * l) as i64),
        ),
        SharkyDataType::shifted_left(SharkyDataType::Int(l), SharkyDataType::Int((r + 1) as i64))
            == SharkyDataType::shifted_left(
            SharkyDataType::shifted_left(SharkyDataType::Int(l), SharkyDataType::Int(r)).unwrap(),
            SharkyDataType::Int(1),
        ),
        SharkyDataType::shifted_right(SharkyDataType::Int(l), SharkyDataType::Int(0)) == Some(
            SharkyDataType::Int(l),
        ),
        SharkyDataType::shifted_right(SharkyDataType::Int(l), SharkyDataType::Int(1)) == Some(
            SharkyDataType::Int((l / 2) as i64),
        ),
        SharkyDataType::shifted_right(SharkyDataType::Int(l), SharkyDataType::Int((r + 1) as i64))
            == SharkyDataType::shifted_right(
            SharkyDataType::shifted_right(SharkyDataType::Int(l), SharkyDataType::Int(r)).unwrap(),
            SharkyDataType::Int(1),
        ),
{
    let u = r as u64;
    let s = l << u;
    let t = l >> u;
    assert(l << 0i64 == l << 0u64 && l << 1i64 == l << 1u64 && l << r == s && l << ((r + 1) as i64) == l
        << ((u + 1) as u64));
    assert(s << 1i64 == s << 1u64);
    assert(l >> 0i64 == l >> 0u64 && l >> 1i64 == l >> 1u64 && l >> r == t && l >> ((r + 1) as i64) == l
        >> ((u + 1) as u64));
    assert(t >> 1i64 == t >> 1u64);
    assert(l << 0u64 == l) by (bit_vector);
    assert(l << 1u64 == (2 * l) as i64) by (bit_vector);
    assert((l << u) << 1u64 == l << ((u + 1) as u64)) by (bit_vector)
        requires
            u < 63,
    ;
    assert(l >> 0u64 == l) by (bit_vector);
    assert(l >> 1u64 == l / 2) by (bit_vector);
    assert((l >> u) >> 1u64 == l >> ((u + 1) as u64)) by (bit_vector)
        requires
            u < 63,
    ;
}

/// Shifting a `Byte` or a `Max` left multiplies it by `2^r` when nothing is
/// shifted out; shifting it right divides it by `2^r`, rounding down.
pub proof fn law_unsigned_shifts_scale(b: u8, rb: u8, m: usize, rm: usize)
    ensures
        rb < 8 ==> SharkyDataType::shifted_right(SharkyDataType::Byte(b), SharkyDataType::Byte(rb))
            == Some(SharkyDataType::Byte((b as nat / pow2(rb as nat)) as u8)),
        rb < 8 && b * pow2(rb as nat) <= u8::MAX ==> SharkyDataType::shifted_left(
            SharkyDataType::Byte(b),
            SharkyDataType::Byte(rb),
        ) == Some(SharkyDataType::Byte((b * pow2(rb as nat)) as u8)),
        rm < usize::BITS ==> SharkyDataType::shifted_right(
            SharkyDataType::Max(m),
            SharkyDataType::Max(rm),
        ) == Some(SharkyDataType::Max((m as nat / pow2(rm as nat)) as usize)),
        rm < usize::BITS && m * pow2(rm as nat) <= usize::MAX ==> SharkyDataType::shifted_left(
            SharkyDataType::Max(m),
            SharkyDataType::Max(rm),
        ) == Some(SharkyDataType::Max((m * pow2(rm as nat)) as usize)),
{
    if rb < 8 {
        lemma_u8_shr_is_div(b, rb);
        if b * pow2(rb as nat) <= u8::MAX {
            lemma_u8_shl_is_mul(b, rb);
        }
    }
    if rm < usize::BITS {
        lemma_usize_shr_is_div(m, rm);
        if m * pow2(rm as nat) <= usize::MAX {
            lemma_usize_shl_is_mul(m, rm);
        }
    }
}

/// The bit test of `x` at position `i`.
pub open spec fn bit_of_int(x: i64, i: u64) -> bool {
    (x >> i) & 1i64 == 1i64
}

/// The bit test of `x` at position `i`.
pub open spec fn bit_of_max(x: usize, i: usize) -> bool {
    (x >> i) & 1usize == 1usize
}

/// The bit test of `x` at position `i`.
pub open spec fn bit_of_byte(x: u8, i: u8) -> bool {
    (x >> i) & 1u8 == 1u8
}

/// The bitwise operations work bit by bit: a bit of `a & b` is set when both
/// bits are, of `a | b` when either is, of `a ^ b` when exactly one is, and
/// of `!a` when that of `a` is not.
pub proof fn law_int_bitwise_by_bits(a: i64, b: i64)
    ensures
        SharkyDataType::bitwise_and(SharkyDataType::Int(a), SharkyDataType::Int(b)) matches Some(
            SharkyDataType::Int(x),
        ) && forall|i: u64| i < 64 ==> #[trigger] bit_of_int(x, i) == (bit_of_int(a, i) && bit_of_int(b, i)),
        SharkyDataType::bitwise_or(SharkyDataType::Int(a), SharkyDataType::Int(b)) matches Some(
            SharkyDataType::Int(x),
        ) && forall|i: u64| i < 64 ==> #[trigger] bit_of_int(x, i) == (bit_of_int(a, i) || bit_of_int(b, i)),
        SharkyDataType::bitwise_xor(SharkyDataType::Int(a), SharkyDataType::Int(b)) matches Some(
            SharkyDataType::Int(x),
        ) && forall|i: u64| i < 64 ==> #[trigger] bit_of_int(x, i) == (bit_of_int(a, i) != bit_of_int(b, i)),
        SharkyDataType::bitwise_not(SharkyDataType::Int(a)) matches Some(SharkyDataType::Int(x))
            && forall|i: u64| i < 64 ==> #[trigger] bit_of_int(x, i) == !bit_of_int(a, i),
        SharkyDataType::bitwise_not(SharkyDataType::Int(a)) == Some(SharkyDataType::Int((-1 - a) as i64)),
{
    assert forall|i: u64| i < 64 implies #[trigger] bit_of_int(a & b, i) == (bit_of_int(a, i) && bit_of_int(b, i)) by {
        assert(((a & b) >> i) & 1i64 == 1i64 <==> (((a >> i) & 1i64 == 1i64) && ((b >> i) & 1i64 == 1i64))) by (bit_vector)
            requires i < 64;
    }
    assert forall|i: u64| i < 64 implies #[trigger] bit_of_int(a | b, i) == (bit_of_int(a, i) || bit_of_int(b, i)) by {
        assert(((a | b) >> i) & 1i64 == 1i64 <==> (((a >> i) & 1i64 == 1i64) || ((b >> i) & 1i64 == 1i64))) by (bit_vector)
            requires i < 64;
    }
    assert forall|i: u64| i < 64 implies #[trigger] bit_of_int(a ^ b, i) == (bit_of_int(a, i) != bit_of_int(b, i)) by {
        assert(((a ^ b) >> i) & 1i64 == 1i64 <==> (((a >> i) & 1i64 == 1i64) != ((b >> i) & 1i64 == 1i64))) by (bit_vector)
            requires i < 64;
    }
    assert forall|i: u64| i < 64 implies #[trigger] bit_of_int(!a, i) == !bit_of_int(a, i) by {
        assert(((!a) >> i) & 1i64 == 1i64 <==> !((a >> i) & 1i64 == 1i64)) by (bit_vector)
            requires i < 64;
    }
    assert(!a == (-1 - a) as i64) by (bit_vector);
}

/// The bitwise operations work bit by bit on `Max` values.
pub proof fn law_max_bitwise_by_bits(a: usize, b: usize)
    ensures
        SharkyDataType::bitwise_and(SharkyDataType::Max(a), SharkyDataType::Max(b)) matches Some(
            SharkyDataType::Max(x),
        ) && forall|i: usize| i < usize::BITS ==> #[trigger] bit_of_max(x, i) == (bit_of_max(a, i) && bit_of_max(b, i)),
        SharkyDataType::bitwise_or(SharkyDataType::Max(a), SharkyDataType::Max(b)) matches Some(
            SharkyDataType::Max(x),
        ) && forall|i: usize| i < usize::BITS ==> #[trigger] bit_of_max(x, i) == (bit_of_max(a, i) || bit_of_max(b, i)),
        SharkyDataType::bitwise_xor(SharkyDataType::Max(a), SharkyDataType::Max(b)) matches Some(
            SharkyDataType::Max(x),
        ) && forall|i: usize| i < usize::BITS ==> #[trigger] bit_of_max(x, i) == (bit_of_max(a, i) != bit_of_max(b, i)),
        SharkyDataType::bitwise_not(SharkyDataType::Max(a)) matches Some(SharkyDataType::Max(x))
            && forall|i: usize| i < usize::BITS ==> #[trigger] bit_of_max(x, i) == !bit_of_max(a, i),
{
    assert forall|i: usize| i < usize::BITS implies #[trigger] bit_of_max(a & b, i) == (bit_of_max(a, i) && bit_of_max(b, i)) by {
        assert(((a & b) >> i) & 1usize == 1usize <==> (((a >> i) & 1usize == 1usize) && ((b >> i) & 1usize == 1usize))) by (bit_vector)
            requires i < usize::BITS;
    }
    assert forall|i: usize| i < usize::BITS implies #[trigger] bit_of_max(a | b, i) == (bit_of_max(a, i) || bit_of_max(b, i)) by {
        assert(((a | b) >> i) & 1usize == 1usize <==> (((a >> i) & 1usize == 1usize) || ((b >> i) & 1usize == 1usize))) by (bit_vector)
            requires i < usize::BITS;
    }
    assert forall|i: usize| i < usize::BITS implies #[trigger] bit_of_max(a ^ b, i) == (bit_of_max(a, i) != bit_of_max(b, i)) by {
        assert(((a ^ b) >> i) & 1usize == 1usize <==> (((a >> i) & 1usize == 1usize) != ((b >> i) & 1usize == 1usize))) by (bit_vector)
            requires i < usize::BITS;
    }
    assert forall|i: usize| i < usize::BITS implies #[trigger] bit_of_max(!a, i) == !bit_of_max(a, i) by {
        assert(((!a) >> i) & 1usize == 1usize <==> !((a >> i) & 1usize == 1usize)) by (bit_vector)
            requires i < usize::BITS;
    }
}

/// The bitwise operations work bit by bit on `Byte` values.
pub proof fn law_byte_bitwise_by_bits(a: u8, b: u8)
    ensures
        SharkyDataType::bitwise_and(SharkyDataType::Byte(a), SharkyDataType::Byte(b)) matches Some(
            SharkyDataType::Byte(x),
        ) && forall|i: u8| i < 8 ==> #[trigger] bit_of_byte(x, i) == (bit_of_byte(a, i) && bit_of_byte(b, i)),
        SharkyDataType::bitwise_or(SharkyDataType::Byte(a), SharkyDataType::Byte(b)) matches Some(
            SharkyDataType::Byte(x),
        ) && forall|i: u8| i < 8 ==> #[trigger] bit_of_byte(x, i) == (bit_of_byte(a, i) || bit_of_byte(b, i)),
        SharkyDataType::bitwise_xor(SharkyDataType::Byte(a), SharkyDataType::Byte(b)) matches Some(
            SharkyDataType::Byte(x),
        ) && forall|i: u8| i < 8 ==> #[trigger] bit_of_byte(x, i) == (bit_of_byte(a, i) != bit_of_byte(b, i)),
        SharkyDataType::bitwise_not(SharkyDataType::Byte(a)) == Some(SharkyDataType::Byte((255 - a) as u8)),
{
    assert forall|i: u8| i < 8 implies #[trigger] bit_of_byte(a & b, i) == (bit_of_byte(a, i) && bit_of_byte(b, i)) by {
        assert(((a & b) >> i) & 1u8 == 1u8 <==> (((a >> i) & 1u8 == 1u8) && ((b >> i) & 1u8 == 1u8))) by (bit_vector)
            requires i < 8;
    }
    assert forall|i: u8| i < 8 implies #[trigger] bit_of_byte(a | b, i) == (bit_of_byte(a, i) || bit_of_byte(b, i)) by {
        assert(((a | b) >> i) & 1u8 == 1u8 <==> (((a >> i) & 1u8 == 1u8) || ((b >> i) & 1u8 == 1u8))) by (bit_vector)
            requires i < 8;
    }
    assert forall|i: u8| i < 8 implies #[trigger] bit_of_byte(a ^ b, i) == (bit_of_byte(a, i) != bit_of_byte(b, i)) by {
        assert(((a ^ b) >> i) & 1u8 == 1u8 <==> (((a >> i) & 1u8 == 1u8) != ((b >> i) & 1u8 == 1u8))) by (bit_vector)
            requires i < 8;
    }
    assert(!a == (255 - a) as u8) by (bit_vector);
}

/// The text of an integer value is its kind, then the decimal digits of its
/// magnitude (after a `-` for a negative `Int`) between parentheses; a
/// `Max`, `Byte` or heap reference shows no sign. With
/// `law_decimal_digits_denote`, the digits shown denote the number held.
pub proof fn law_integer_text_shows_number(v: SharkyDataType)
    ensures
        v matches SharkyDataType::Max(m) ==> v.text() == "Max("@ + decimal_digits(m as nat) + ")"@,
        v matches SharkyDataType::Byte(b) ==> v.text() == "Byte("@ + decimal_digits(b as nat)
            + ")"@,
        v matches SharkyDataType::HeapReference(h) ==> v.text() == "Ref("@ + decimal_digits(
            h as nat,
        ) + ")"@,
        v matches SharkyDataType::Int(i) ==> v.text() == "Int("@ + (if i < 0 {
            seq!['-']
        } else {
            Seq::empty()
        }) + decimal_digits(if i < 0 {
            (-i) as nat
        } else {
            i as nat
        }) + ")"@,
{
    match v {
        SharkyDataType::Max(m) => {
            law_decimal_digits_denote(m as nat);
        },
        SharkyDataType::Byte(b) => {
            law_decimal_digits_denote(b as nat);
        },
        SharkyDataType::HeapReference(h) => {
            law_decimal_digits_denote(h as nat);
        },
        SharkyDataType::Int(i) => {
            if i < 0 {
                law_decimal_digits_denote((-i) as nat);
                assert(seq!['-'] + decimal_digits((-i) as nat) == seq!['-'] + decimal_digits(
                    (-i) as nat,
                ));
            } else {
                law_decimal_digits_denote(i as nat);
                assert(Seq::<char>::empty() + decimal_digits(i as nat) =~= decimal_digits(
                    i as nat,
                ));
            }
        },
        _ => {},
    }
}


/// The numbers that an integer of the kind of `v` can hold.
pub open spec fn fits_kind(v: SharkyDataType, n: int) -> bool {
    match v {
        SharkyDataType::Max(_) => 0 <= n <= usize::MAX,
        SharkyDataType::Int(_) => i64::MIN <= n <= i64::MAX,
        SharkyDataType::Byte(_) => 0 <= n <= u8::MAX,
        _ => true,
    }
}

/// The number of bits of an integer of the kind of `v`.
pub open spec fn bits_of_kind(v: SharkyDataType) -> int {
    match v {
        SharkyDataType::Max(_) => usize::BITS as int,
        SharkyDataType::Int(_) => 64,
        SharkyDataType::Byte(_) => 8,
        _ => 0,
    }
}

/// An operation on two integers of one kind is in range exactly when its
/// exact result fits the kind (for sum, difference and product), when the
/// shift amount is below the width of the kind, and for division and
/// remainder unless it is `i64::MIN` by `-1`.
pub proof fn law_in_range_is_representability(a: SharkyDataType, b: SharkyDataType)
    requires
        integer_kind(a),
        same_kind(a, b),
    ensures
        in_range(SharkyOp::Add, a, b) <==> fits_kind(a, integer_value(a) + integer_value(b)),
        in_range(SharkyOp::Subtract, a, b) <==> fits_kind(a, integer_value(a) - integer_value(b)),
        in_range(SharkyOp::Multiply, a, b) <==> fits_kind(a, integer_value(a) * integer_value(b)),
        in_range(SharkyOp::ShiftLeft, a, b) <==> 0 <= integer_value(b) < bits_of_kind(a),
        in_range(SharkyOp::ShiftRight, a, b) <==> 0 <= integer_value(b) < bits_of_kind(a),
        in_range(SharkyOp::Divide, a, b) <==> !(a is Int && integer_value(a) == i64::MIN
            && integer_value(b) == -1),
        in_range(SharkyOp::Mod, a, b) <==> !(a is Int && integer_value(a) == i64::MIN
            && integer_value(b) == -1),
{
    match (a, b) {
        (SharkyDataType::Max(l), SharkyDataType::Max(r)) => {
            assert(0 <= l * r) by (nonlinear_arith)
                requires
                    0 <= l,
                    0 <= r,
            ;
        },
        (SharkyDataType::Byte(l), SharkyDataType::Byte(r)) => {
            assert(0 <= l * r) by (nonlinear_arith)
                requires
                    0 <= l,
                    0 <= r,
            ;
        },
        _ => {},
    }
}

/// Operations on values of different kinds, or on kinds they do not apply
/// to, answer `None`: comparisons need two numerical values of one kind,
/// and the equality test two values of one kind.
pub proof fn law_operations_need_one_kind(a: SharkyDataType, b: SharkyDataType)
    ensures
        !same_kind(a, b) ==> SharkyDataType::less(a, b) is None && SharkyDataType::greater(a, b) is None
            && SharkyDataType::equality(a, b) is None && SharkyDataType::integer_sum(a, b) is None
            && SharkyDataType::integer_product(a, b) is None,
        !a.numerical() ==> SharkyDataType::less(a, b) is None && SharkyDataType::greater(a, b) is None,
{
}

/// The zero test of an integer tells whether its number is zero, and that
/// of a real whether its bits are those of `+0.0` or `-0.0`.
pub proof fn law_zero_test_meaning(v: SharkyDataType)
    ensures
        integer_kind(v) ==> v.zero_test() == Some(integer_value(v) == 0),
        v matches SharkyDataType::Real(bits) ==> v.zero_test() == Some(
            bits == 0 || bits == 0x8000_0000_0000_0000,
        ),
{
}

/// Binary64 facts on bit patterns: a NaN has an all-ones exponent and a
/// nonzero fraction; a positive real is greater than a negative one unless
/// both are zeros; among positive reals the larger pattern is the larger
/// real, and among negative reals the smaller; the two zeros are equal.
pub proof fn law_real_bits_meaning(l: u64, r: u64)
    ensures
        real_is_nan(l) <==> (l / 0x10_0000_0000_0000) % 0x800 == 0x7FF && l % 0x10_0000_0000_0000
            != 0,
        real_is_zero(l) <==> (l == 0 || l == 0x8000_0000_0000_0000),
        real_equal(0, 0x8000_0000_0000_0000),
        !real_is_nan(l) && !real_is_nan(r) && l >= 0x8000_0000_0000_0000 && r
            < 0x8000_0000_0000_0000 && !(real_is_zero(l) && real_is_zero(r)) ==> real_less(l, r),
        !real_is_nan(l) && !real_is_nan(r) && l < 0x8000_0000_0000_0000 && r
            < 0x8000_0000_0000_0000 ==> (real_less(l, r) <==> l < r),
        !real_is_nan(l) && !real_is_nan(r) && l >= 0x8000_0000_0000_0000 && r
            >= 0x8000_0000_0000_0000 ==> (real_less(l, r) <==> r < l),
{
}

/// The text of a `Bool` names its value, `nil` stands for `Nil`, and a byte
/// string shows no text.
pub proof fn law_plain_text(b: bool, bytes: Vec<u8>)
    ensures
        SharkyDataType::Bool(b).text() == "Bool("@ + (if b {
            "true"@
        } else {
            "false"@
        }) + ")"@,
        SharkyDataType::Nil.text() == "nil"@,
        SharkyDataType::ByteString(bytes).text().len() == 0,
{
    reveal_strlit("Bool(");
    reveal_strlit("true");
    reveal_strlit("false");
    reveal_strlit(")");
    reveal_strlit("Bool(true)");
    reveal_strlit("Bool(false)");
    if b {
        assert("Bool(true)"@ =~= "Bool("@ + "true"@ + ")"@);
    } else {
        assert("Bool(false)"@ =~= "Bool("@ + "false"@ + ")"@);
    }
}

} // verus!
