//! The values that the Sharky virtual machine computes with, and the
//! operations on them: conversions between kinds, arithmetic, bitwise
//! operations and comparisons.
use vstd::prelude::*;

use crate::arith::{
    lemma_division_identity, lemma_quotient_bounded, quotient_toward_zero, remainder_toward_zero,
};
use crate::decimal::{decimal, push_decimal};
use crate::real_bits::{
    real_bits_equal, real_bits_is_zero, real_bits_less, real_equal, real_is_zero, real_less,
};

verus! {

pub type SharkyHeapFrameIndex = usize;

pub type SharkyHeapCellIndex = usize;

pub type SharkyBytePoolIndex = usize;

pub type SharkyMax = usize;

pub type SharkyInt = i64;

/// A Sharky real, an IEEE 754 binary64 number, held as its bit pattern
/// (`f64::to_bits`).
pub type SharkyRealBits = u64;

pub type SharkyByte = u8;

pub type SharkyBool = bool;

pub type SharkyByteString = Vec<SharkyByte>;

/// Marks the Rust types that a Sharky value can carry.
pub trait SharkyValue {}

impl SharkyValue for SharkyMax {}

impl SharkyValue for SharkyInt {}

impl SharkyValue for SharkyRealBits {}

impl SharkyValue for SharkyByte {}

impl SharkyValue for SharkyBool {}

impl SharkyValue for SharkyByteString {}

/// The floating-point work on Sharky reals. Reals go in and come out as
/// binary64 bit patterns; the value operations hand these calls the reals
/// they hold and wrap up what comes back.
///
/// Each operation is tied to a relation that an implementation names: the
/// value operations state which relation their result stands in to which
/// operands, and leave to the implementation what the relation is (which
/// NaN pattern comes back, for one).
pub trait RealArithmetic {
    /// `result` is `lhs + rhs`.
    spec fn is_sum(lhs: SharkyRealBits, rhs: SharkyRealBits, result: SharkyRealBits) -> bool;

    /// `result` is `lhs - rhs`.
    spec fn is_difference(
        lhs: SharkyRealBits,
        rhs: SharkyRealBits,
        result: SharkyRealBits,
    ) -> bool;

    /// `result` is `lhs * rhs`.
    spec fn is_product(lhs: SharkyRealBits, rhs: SharkyRealBits, result: SharkyRealBits) -> bool;

    /// `result` is `lhs / rhs`.
    spec fn is_quotient(lhs: SharkyRealBits, rhs: SharkyRealBits, result: SharkyRealBits) -> bool;

    /// `result` is `lhs % rhs`.
    spec fn is_remainder(
        lhs: SharkyRealBits,
        rhs: SharkyRealBits,
        result: SharkyRealBits,
    ) -> bool;

    /// `result` is `value.trunc() as usize`.
    spec fn is_truncation_to_max(value: SharkyRealBits, result: SharkyMax) -> bool;

    /// `result` is `value.trunc() as i64`.
    spec fn is_truncation_to_int(value: SharkyRealBits, result: SharkyInt) -> bool;

    /// `result` is `value.trunc() as u8`.
    spec fn is_truncation_to_byte(value: SharkyRealBits, result: SharkyByte) -> bool;

    /// `result` is `value as f64`.
    spec fn is_real_of_max(value: SharkyMax, result: SharkyRealBits) -> bool;

    /// `result` is `value as f64`.
    spec fn is_real_of_int(value: SharkyInt, result: SharkyRealBits) -> bool;

    /// `result` is `value as f64`.
    spec fn is_real_of_byte(value: SharkyByte, result: SharkyRealBits) -> bool;

    /// `text` is what `{}` shows of the real.
    spec fn is_rendering(value: SharkyRealBits, text: String) -> bool;

    /// `lhs + rhs`
    fn sum(lhs: SharkyRealBits, rhs: SharkyRealBits) -> (result: SharkyRealBits)
        ensures
            Self::is_sum(lhs, rhs, result),
    ;

    /// `lhs - rhs`
    fn difference(lhs: SharkyRealBits, rhs: SharkyRealBits) -> (result: SharkyRealBits)
        ensures
            Self::is_difference(lhs, rhs, result),
    ;

    /// `lhs * rhs`
    fn product(lhs: SharkyRealBits, rhs: SharkyRealBits) -> (result: SharkyRealBits)
        ensures
            Self::is_product(lhs, rhs, result),
    ;

    /// `lhs / rhs`
    fn quotient(lhs: SharkyRealBits, rhs: SharkyRealBits) -> (result: SharkyRealBits)
        ensures
            Self::is_quotient(lhs, rhs, result),
    ;

    /// `lhs % rhs`
    fn remainder(lhs: SharkyRealBits, rhs: SharkyRealBits) -> (result: SharkyRealBits)
        ensures
            Self::is_remainder(lhs, rhs, result),
    ;

    /// `value.trunc() as usize`
    fn truncate_to_max(value: SharkyRealBits) -> (result: SharkyMax)
        ensures
            Self::is_truncation_to_max(value, result),
    ;

    /// `value.trunc() as i64`
    fn truncate_to_int(value: SharkyRealBits) -> (result: SharkyInt)
        ensures
            Self::is_truncation_to_int(value, result),
    ;

    /// `value.trunc() as u8`
    fn truncate_to_byte(value: SharkyRealBits) -> (result: SharkyByte)
        ensures
            Self::is_truncation_to_byte(value, result),
    ;

    /// `value as f64`
    fn from_max(value: SharkyMax) -> (result: SharkyRealBits)
        ensures
            Self::is_real_of_max(value, result),
    ;

    /// `value as f64`
    fn from_int(value: SharkyInt) -> (result: SharkyRealBits)
        ensures
            Self::is_real_of_int(value, result),
    ;

    /// `value as f64`
    fn from_byte(value: SharkyByte) -> (result: SharkyRealBits)
        ensures
            Self::is_real_of_byte(value, result),
    ;

    /// `{}` applied to the real
    fn render(value: SharkyRealBits) -> (text: String)
        ensures
            Self::is_rendering(value, text),
    ;
}

/// A value of the Sharky virtual machine.
#[derive(Debug)]
pub enum SharkyDataType {
    Nil,
    Max(SharkyMax),
    Int(SharkyInt),
    Real(SharkyRealBits),
    Byte(SharkyByte),
    Bool(SharkyBool),
    HeapReference(SharkyHeapFrameIndex),
    ByteString(SharkyByteString),
}

/// A copy of `bytes`.
fn copy_bytes(bytes: &Vec<u8>) -> (copy: Vec<u8>)
    ensures
        copy@ == bytes@,
{
    let mut copy: Vec<u8> = Vec::new();
    let mut i: usize = 0;
    while i < bytes.len()
        invariant
            i <= bytes@.len(),
            copy@ == bytes@.subrange(0, i as int),
        decreases bytes@.len() - i,
    {
        copy.push(bytes[i]);
        i = i + 1;
        assert(copy@ =~= bytes@.subrange(0, i as int));
    }
    assert(copy@ =~= bytes@);
    copy
}

impl Clone for SharkyDataType {
    fn clone(&self) -> (v: Self)
        ensures
            !(*self is ByteString) ==> v == *self,
            *self matches SharkyDataType::ByteString(bytes) ==> v matches SharkyDataType::ByteString(
                copy,
            ) && copy@ == bytes@,
    {
        match self {
            SharkyDataType::Nil => SharkyDataType::Nil,
            SharkyDataType::Max(v) => SharkyDataType::Max(*v),
            SharkyDataType::Int(v) => SharkyDataType::Int(*v),
            SharkyDataType::Real(v) => SharkyDataType::Real(*v),
            SharkyDataType::Byte(v) => SharkyDataType::Byte(*v),
            SharkyDataType::Bool(v) => SharkyDataType::Bool(*v),
            SharkyDataType::HeapReference(v) => SharkyDataType::HeapReference(*v),
            SharkyDataType::ByteString(v) => SharkyDataType::ByteString(copy_bytes(v)),
        }
    }
}

impl Default for SharkyDataType {
    fn default() -> (v: Self)
        ensures
            v is Nil,
    {
        SharkyDataType::Nil
    }
}

/// The binary operations that can panic on some operands.
#[derive(Debug, Clone, Copy, PartialEq, Eq, Structural)]
pub enum SharkyOp {
    Add,
    Subtract,
    Multiply,
    Divide,
    Mod,
    ShiftLeft,
    ShiftRight,
}

/// True when the two values are of the same kind.
pub open spec fn same_kind(a: SharkyDataType, b: SharkyDataType) -> bool {
    match (a, b) {
        (SharkyDataType::Nil, SharkyDataType::Nil) => true,
        (SharkyDataType::Max(_), SharkyDataType::Max(_)) => true,
        (SharkyDataType::Int(_), SharkyDataType::Int(_)) => true,
        (SharkyDataType::Real(_), SharkyDataType::Real(_)) => true,
        (SharkyDataType::Byte(_), SharkyDataType::Byte(_)) => true,
        (SharkyDataType::Bool(_), SharkyDataType::Bool(_)) => true,
        (SharkyDataType::HeapReference(_), SharkyDataType::HeapReference(_)) => true,
        (SharkyDataType::ByteString(_), SharkyDataType::ByteString(_)) => true,
        _ => false,
    }
}

/// True when both values are reals.
pub open spec fn both_real(a: SharkyDataType, b: SharkyDataType) -> bool {
    a is Real && b is Real
}

/// `op` applied to `lhs` and `rhs` does not panic: no integer overflow, no
/// shift by the width of the operand or more (or by a negative amount), and
/// no `i64::MIN / -1`. Division by zero is no panic: it is answered `None`.
pub open spec fn in_range(op: SharkyOp, lhs: SharkyDataType, rhs: SharkyDataType) -> bool {
    match op {
        SharkyOp::Add => match (lhs, rhs) {
            (SharkyDataType::Max(l), SharkyDataType::Max(r)) => l + r <= usize::MAX,
            (SharkyDataType::Int(l), SharkyDataType::Int(r)) => i64::MIN <= l + r <= i64::MAX,
            (SharkyDataType::Byte(l), SharkyDataType::Byte(r)) => l + r <= u8::MAX,
            _ => true,
        },
        SharkyOp::Subtract => match (lhs, rhs) {
            (SharkyDataType::Max(l), SharkyDataType::Max(r)) => r <= l,
            (SharkyDataType::Int(l), SharkyDataType::Int(r)) => i64::MIN <= l - r <= i64::MAX,
            (SharkyDataType::Byte(l), SharkyDataType::Byte(r)) => r <= l,
            _ => true,
        },
        SharkyOp::Multiply => match (lhs, rhs) {
            (SharkyDataType::Max(l), SharkyDataType::Max(r)) => l * r <= usize::MAX,
            (SharkyDataType::Int(l), SharkyDataType::Int(r)) => i64::MIN <= l * r <= i64::MAX,
            (SharkyDataType::Byte(l), SharkyDataType::Byte(r)) => l * r <= u8::MAX,
            _ => true,
        },
        SharkyOp::Divide | SharkyOp::Mod => match (lhs, rhs) {
            (SharkyDataType::Int(l), SharkyDataType::Int(r)) => !(l == i64::MIN && r == -1),
            _ => true,
        },
        SharkyOp::ShiftLeft | SharkyOp::ShiftRight => match (lhs, rhs) {
            (SharkyDataType::Max(_), SharkyDataType::Max(r)) => r < usize::BITS,
            (SharkyDataType::Int(_), SharkyDataType::Int(r)) => 0 <= r < 64,
            (SharkyDataType::Byte(_), SharkyDataType::Byte(r)) => r < 8,
            _ => true,
        },
    }
}

impl SharkyDataType {
    /// Numerical values: `Max`, `Int`, `Byte` and `Real`.
    pub open spec fn numerical(self) -> bool {
        self is Max || self is Int || self is Byte || self is Real
    }

    /// Whether a numerical value is zero; `None` for the other kinds.
    pub open spec fn zero_test(self) -> Option<bool> {
        match self {
            SharkyDataType::Max(v) => Some(v == 0),
            SharkyDataType::Int(v) => Some(v == 0),
            SharkyDataType::Byte(v) => Some(v == 0),
            SharkyDataType::Real(v) => Some(real_is_zero(v)),
            _ => None,
        }
    }

    /// True when the value is a zero of a numerical kind.
    pub open spec fn is_zero_value(self) -> bool {
        self.zero_test() == Some(true)
    }

    /// The value as a `Bool`: `Nil` is false, an integer is true unless zero.
    pub open spec fn as_bool(self) -> Option<SharkyDataType> {
        match self {
            SharkyDataType::Nil => Some(SharkyDataType::Bool(false)),
            SharkyDataType::Max(v) => Some(SharkyDataType::Bool(v != 0)),
            SharkyDataType::Int(v) => Some(SharkyDataType::Bool(v != 0)),
            SharkyDataType::Byte(v) => Some(SharkyDataType::Bool(v != 0)),
            _ => None,
        }
    }

    /// The value as a `Max`, for the kinds other than `Real`: `Nil` is 0, a
    /// `Bool` is 0 or 1, an integer is cast as `as usize` casts it.
    pub open spec fn as_max(self) -> Option<SharkyDataType> {
        match self {
            SharkyDataType::Nil => Some(SharkyDataType::Max(0)),
            SharkyDataType::Bool(v) => Some(SharkyDataType::Max(if v { 1 } else { 0 })),
            SharkyDataType::Int(v) => Some(SharkyDataType::Max(v as usize)),
            SharkyDataType::Byte(v) => Some(SharkyDataType::Max(v as usize)),
            _ => None,
        }
    }

    /// The value as an `Int`, for the kinds other than `Real`.
    pub open spec fn as_int(self) -> Option<SharkyDataType> {
        match self {
            SharkyDataType::Nil => Some(SharkyDataType::Int(0)),
            SharkyDataType::Bool(v) => Some(SharkyDataType::Int(if v { 1 } else { 0 })),
            SharkyDataType::Max(v) => Some(SharkyDataType::Int(v as i64)),
            SharkyDataType::Byte(v) => Some(SharkyDataType::Int(v as i64)),
            _ => None,
        }
    }

    /// The value as a `Byte`, for the kinds other than `Real`: integers keep
    /// their low eight bits, as `as u8` does.
    pub open spec fn as_byte(self) -> Option<SharkyDataType> {
        match self {
            SharkyDataType::Nil => Some(SharkyDataType::Byte(0)),
            SharkyDataType::Bool(v) => Some(SharkyDataType::Byte(if v { 1 } else { 0 })),
            SharkyDataType::Int(v) => Some(SharkyDataType::Byte(v as u8)),
            SharkyDataType::Max(v) => Some(SharkyDataType::Byte(v as u8)),
            _ => None,
        }
    }

    /// The value as a heap reference: integers are cast as `as usize` casts them.
    pub open spec fn as_heap_reference(self) -> Option<SharkyDataType> {
        match self {
            SharkyDataType::Max(v) => Some(SharkyDataType::HeapReference(v)),
            SharkyDataType::Int(v) => Some(SharkyDataType::HeapReference(v as usize)),
            SharkyDataType::Byte(v) => Some(SharkyDataType::HeapReference(v as usize)),
            _ => None,
        }
    }

    /// The sum of two integers of one kind.
    pub open spec fn integer_sum(lhs: Self, rhs: Self) -> Option<Self> {
        match (lhs, rhs) {
            (SharkyDataType::Max(l), SharkyDataType::Max(r)) => Some(
                SharkyDataType::Max((l + r) as usize),
            ),
            (SharkyDataType::Int(l), SharkyDataType::Int(r)) => Some(
                SharkyDataType::Int((l + r) as i64),
            ),
            (SharkyDataType::Byte(l), SharkyDataType::Byte(r)) => Some(
                SharkyDataType::Byte((l + r) as u8),
            ),
            _ => None,
        }
    }

    /// The difference of two integers of one kind.
    pub open spec fn integer_difference(lhs: Self, rhs: Self) -> Option<Self> {
        match (lhs, rhs) {
            (SharkyDataType::Max(l), SharkyDataType::Max(r)) => Some(
                SharkyDataType::Max((l - r) as usize),
            ),
            (SharkyDataType::Int(l), SharkyDataType::Int(r)) => Some(
                SharkyDataType::Int((l - r) as i64),
            ),
            (SharkyDataType::Byte(l), SharkyDataType::Byte(r)) => Some(
                SharkyDataType::Byte((l - r) as u8),
            ),
            _ => None,
        }
    }

    /// The product of two integers of one kind.
    pub open spec fn integer_product(lhs: Self, rhs: Self) -> Option<Self> {
        match (lhs, rhs) {
            (SharkyDataType::Max(l), SharkyDataType::Max(r)) => Some(
                SharkyDataType::Max((l * r) as usize),
            ),
            (SharkyDataType::Int(l), SharkyDataType::Int(r)) => Some(
                SharkyDataType::Int((l * r) as i64),
            ),
            (SharkyDataType::Byte(l), SharkyDataType::Byte(r)) => Some(
                SharkyDataType::Byte((l * r) as u8),
            ),
            _ => None,
        }
    }

    /// The quotient, rounded toward zero, of two integers of one kind; `None`
    /// when the divisor is zero.
    pub open spec fn integer_quotient(lhs: Self, rhs: Self) -> Option<Self> {
        if rhs.is_zero_value() {
            None
        } else {
            match (lhs, rhs) {
                (SharkyDataType::Max(l), SharkyDataType::Max(r)) => Some(
                    SharkyDataType::Max(l / r),
                ),
                (SharkyDataType::Int(l), SharkyDataType::Int(r)) => Some(
                    SharkyDataType::Int(quotient_toward_zero(l as int, r as int) as i64),
                ),
                (SharkyDataType::Byte(l), SharkyDataType::Byte(r)) => Some(
                    SharkyDataType::Byte(l / r),
                ),
                _ => None,
            }
        }
    }

    /// The remainder, with the sign of the dividend, of two integers of one
    /// kind; `None` when the divisor is zero.
    pub open spec fn integer_remainder(lhs: Self, rhs: Self) -> Option<Self> {
        if rhs.is_zero_value() {
            None
        } else {
            match (lhs, rhs) {
                (SharkyDataType::Max(l), SharkyDataType::Max(r)) => Some(
                    SharkyDataType::Max(l % r),
                ),
                (SharkyDataType::Int(l), SharkyDataType::Int(r)) => Some(
                    SharkyDataType::Int(remainder_toward_zero(l as int, r as int) as i64),
                ),
                (SharkyDataType::Byte(l), SharkyDataType::Byte(r)) => Some(
                    SharkyDataType::Byte(l % r),
                ),
                _ => None,
            }
        }
    }

    /// `lhs << rhs` on two integers of one kind.
    pub open spec fn shifted_left(lhs: Self, rhs: Self) -> Option<Self> {
        match (lhs, rhs) {
            (SharkyDataType::Max(l), SharkyDataType::Max(r)) => Some(SharkyDataType::Max(l << r)),
            (SharkyDataType::Int(l), SharkyDataType::Int(r)) => Some(SharkyDataType::Int(l << r)),
            (SharkyDataType::Byte(l), SharkyDataType::Byte(r)) => Some(
                SharkyDataType::Byte(l << r),
            ),
            _ => None,
        }
    }

    /// `lhs >> rhs` on two integers of one kind (arithmetic for `Int`).
    pub open spec fn shifted_right(lhs: Self, rhs: Self) -> Option<Self> {
        match (lhs, rhs) {
            (SharkyDataType::Max(l), SharkyDataType::Max(r)) => Some(SharkyDataType::Max(l >> r)),
            (SharkyDataType::Int(l), SharkyDataType::Int(r)) => Some(SharkyDataType::Int(l >> r)),
            (SharkyDataType::Byte(l), SharkyDataType::Byte(r)) => Some(
                SharkyDataType::Byte(l >> r),
            ),
            _ => None,
        }
    }

    /// `lhs & rhs` on two integers of one kind.
    pub open spec fn bitwise_and(lhs: Self, rhs: Self) -> Option<Self> {
        match (lhs, rhs) {
            (SharkyDataType::Max(l), SharkyDataType::Max(r)) => Some(SharkyDataType::Max(l & r)),
            (SharkyDataType::Int(l), SharkyDataType::Int(r)) => Some(SharkyDataType::Int(l & r)),
            (SharkyDataType::Byte(l), SharkyDataType::Byte(r)) => Some(SharkyDataType::Byte(l & r)),
            _ => None,
        }
    }

    /// `lhs | rhs` on two integers of one kind.
    pub open spec fn bitwise_or(lhs: Self, rhs: Self) -> Option<Self> {
        match (lhs, rhs) {
            (SharkyDataType::Max(l), SharkyDataType::Max(r)) => Some(SharkyDataType::Max(l | r)),
            (SharkyDataType::Int(l), SharkyDataType::Int(r)) => Some(SharkyDataType::Int(l | r)),
            (SharkyDataType::Byte(l), SharkyDataType::Byte(r)) => Some(SharkyDataType::Byte(l | r)),
            _ => None,
        }
    }

    /// `lhs ^ rhs` on two integers of one kind.
    pub open spec fn bitwise_xor(lhs: Self, rhs: Self) -> Option<Self> {
        match (lhs, rhs) {
            (SharkyDataType::Max(l), SharkyDataType::Max(r)) => Some(SharkyDataType::Max(l ^ r)),
            (SharkyDataType::Int(l), SharkyDataType::Int(r)) => Some(SharkyDataType::Int(l ^ r)),
            (SharkyDataType::Byte(l), SharkyDataType::Byte(r)) => Some(SharkyDataType::Byte(l ^ r)),
            _ => None,
        }
    }

    /// `!val` on an integer.
    pub open spec fn bitwise_not(val: Self) -> Option<Self> {
        match val {
            SharkyDataType::Max(l) => Some(SharkyDataType::Max(!l)),
            SharkyDataType::Int(l) => Some(SharkyDataType::Int(!l)),
            SharkyDataType::Byte(l) => Some(SharkyDataType::Byte(!l)),
            _ => None,
        }
    }

    /// The equality test: `None` when `rhs` is a numerical zero, otherwise a
    /// `Bool` for two values of one kind (reals compare as binary64 `==` does,
    /// byte strings by their bytes), and `None` for two values of different kinds.
    pub open spec fn equality(lhs: Self, rhs: Self) -> Option<Self> {
        if rhs.is_zero_value() {
            None
        } else {
            match (lhs, rhs) {
                (SharkyDataType::Max(l), SharkyDataType::Max(r)) => Some(
                    SharkyDataType::Bool(l == r),
                ),
                (SharkyDataType::Int(l), SharkyDataType::Int(r)) => Some(
                    SharkyDataType::Bool(l == r),
                ),
                (SharkyDataType::Byte(l), SharkyDataType::Byte(r)) => Some(
                    SharkyDataType::Bool(l == r),
                ),
                (SharkyDataType::Real(l), SharkyDataType::Real(r)) => Some(
                    SharkyDataType::Bool(real_equal(l, r)),
                ),
                (SharkyDataType::Bool(l), SharkyDataType::Bool(r)) => Some(
                    SharkyDataType::Bool(l == r),
                ),
                (SharkyDataType::Nil, SharkyDataType::Nil) => Some(SharkyDataType::Bool(true)),
                (SharkyDataType::HeapReference(l), SharkyDataType::HeapReference(r)) => Some(
                    SharkyDataType::Bool(l == r),
                ),
                (SharkyDataType::ByteString(l), SharkyDataType::ByteString(r)) => Some(
                    SharkyDataType::Bool(l@ == r@),
                ),
                _ => None,
            }
        }
    }

    /// `lhs < rhs` for two numerical values of one kind.
    pub open spec fn less(lhs: Self, rhs: Self) -> Option<Self> {
        match (lhs, rhs) {
            (SharkyDataType::Max(l), SharkyDataType::Max(r)) => Some(SharkyDataType::Bool(l < r)),
            (SharkyDataType::Int(l), SharkyDataType::Int(r)) => Some(SharkyDataType::Bool(l < r)),
            (SharkyDataType::Byte(l), SharkyDataType::Byte(r)) => Some(SharkyDataType::Bool(l < r)),
            (SharkyDataType::Real(l), SharkyDataType::Real(r)) => Some(
                SharkyDataType::Bool(real_less(l, r)),
            ),
            _ => None,
        }
    }

    /// `lhs > rhs` for two numerical values of one kind.
    pub open spec fn greater(lhs: Self, rhs: Self) -> Option<Self> {
        match (lhs, rhs) {
            (SharkyDataType::Max(l), SharkyDataType::Max(r)) => Some(SharkyDataType::Bool(l > r)),
            (SharkyDataType::Int(l), SharkyDataType::Int(r)) => Some(SharkyDataType::Bool(l > r)),
            (SharkyDataType::Byte(l), SharkyDataType::Byte(r)) => Some(SharkyDataType::Bool(l > r)),
            (SharkyDataType::Real(l), SharkyDataType::Real(r)) => Some(
                SharkyDataType::Bool(real_less(r, l)),
            ),
            _ => None,
        }
    }

    /// The text of a value, for the kinds other than `Real`: `Max(5)`,
    /// `Int(-3)`, `Byte(7)`, `Bool(true)`, `Ref(2)`, `nil`, and the empty text
    /// for a byte string.
    pub open spec fn text(self) -> Seq<char> {
        match self {
            SharkyDataType::Max(v) => "Max("@ + decimal(v as int) + ")"@,
            SharkyDataType::Int(v) => "Int("@ + decimal(v as int) + ")"@,
            SharkyDataType::Byte(v) => "Byte("@ + decimal(v as int) + ")"@,
            SharkyDataType::Bool(v) => if v {
                "Bool(true)"@
            } else {
                "Bool(false)"@
            },
            SharkyDataType::HeapReference(v) => "Ref("@ + decimal(v as int) + ")"@,
            SharkyDataType::ByteString(_) => Seq::empty(),
            SharkyDataType::Nil => "nil"@,
            SharkyDataType::Real(_) => Seq::empty(),
        }
    }
}

/// True when `a` and `b` hold the same bytes.
fn bytes_equal(a: &Vec<u8>, b: &Vec<u8>) -> (eq: bool)
    ensures
        eq == (a@ == b@),
{
    if a.len() != b.len() {
        return false;
    }
    let mut i: usize = 0;
    while i < a.len()
        invariant
            a.len() == b.len(),
            i <= a.len(),
            forall|j: int| 0 <= j < i ==> a@[j] == b@[j],
        decreases a.len() - i,
    {
        if a[i] != b[i] {
            return false;
        }
        i = i + 1;
    }
    assert(a@ =~= b@);
    true
}

impl SharkyDataType {
    /// Converts to a `Bool`: `Nil` is false, an integer is true unless it is zero;
    /// the other kinds give `None`.
    pub fn to_bool(&self) -> (r: Option<SharkyDataType>)
        ensures
            r == self.as_bool(),
    {
        match self {
            SharkyDataType::Nil => Some(SharkyDataType::Bool(false)),
            SharkyDataType::Max(v) => Some(SharkyDataType::Bool(*v != 0)),
            SharkyDataType::Int(v) => Some(SharkyDataType::Bool(*v != 0)),
            SharkyDataType::Byte(v) => Some(SharkyDataType::Bool(*v != 0)),
            _ => None,
        }
    }

    /// Converts to a `Max`: `Nil` is 0, a `Bool` is 0 or 1, an `Int` or `Byte`
    /// is cast with `as usize`, and a `Real` is truncated toward zero and cast
    /// by `R`; `Max` itself and the other kinds give `None`.
    pub fn to_max<R: RealArithmetic>(&self) -> (r: Option<SharkyDataType>)
        ensures
            *self matches SharkyDataType::Real(v) ==> r matches Some(SharkyDataType::Max(x))
                && R::is_truncation_to_max(v, x),
            !(self is Real) ==> r == self.as_max(),
    {
        match self {
            SharkyDataType::Nil => Some(SharkyDataType::Max(0)),
            SharkyDataType::Bool(v) => Some(SharkyDataType::Max(if *v { 1 } else { 0 })),
            SharkyDataType::Int(v) => Some(SharkyDataType::Max(*v as SharkyMax)),
            SharkyDataType::Byte(v) => Some(SharkyDataType::Max(*v as SharkyMax)),
            SharkyDataType::Real(v) => Some(SharkyDataType::Max(R::truncate_to_max(*v))),
            _ => None,
        }
    }

    /// Converts to an `Int`: `Nil` is 0, a `Bool` is 0 or 1, a `Max` or `Byte`
    /// is cast with `as i64`, and a `Real` is truncated toward zero and cast
    /// by `R`; `Int` itself and the other kinds give `None`.
    pub fn to_int<R: RealArithmetic>(&self) -> (r: Option<SharkyDataType>)
        ensures
            *self matches SharkyDataType::Real(v) ==> r matches Some(SharkyDataType::Int(x))
                && R::is_truncation_to_int(v, x),
            !(self is Real) ==> r == self.as_int(),
    {
        match self {
            SharkyDataType::Nil => Some(SharkyDataType::Int(0)),
            SharkyDataType::Bool(v) => Some(SharkyDataType::Int(if *v { 1 } else { 0 })),
            SharkyDataType::Max(v) => Some(SharkyDataType::Int(*v as SharkyInt)),
            SharkyDataType::Byte(v) => Some(SharkyDataType::Int(*v as SharkyInt)),
            SharkyDataType::Real(v) => Some(SharkyDataType::Int(R::truncate_to_int(*v))),
            _ => None,
        }
    }

    /// Converts to a `Byte`: `Nil` is 0, a `Bool` is 0 or 1, an `Int` or `Max`
    /// keeps its low eight bits (`as u8`), and a `Real` is truncated toward
    /// zero and cast by `R`; `Byte` itself and the other kinds give `None`.
    pub fn to_byte<R: RealArithmetic>(&self) -> (r: Option<SharkyDataType>)
        ensures
            *self matches SharkyDataType::Real(v) ==> r matches Some(SharkyDataType::Byte(x))
                && R::is_truncation_to_byte(v, x),
            !(self is Real) ==> r == self.as_byte(),
    {
        match self {
            SharkyDataType::Nil => Some(SharkyDataType::Byte(0)),
            SharkyDataType::Bool(v) => Some(SharkyDataType::Byte(if *v { 1 } else { 0 })),
            SharkyDataType::Int(v) => Some(SharkyDataType::Byte(*v as SharkyByte)),
            SharkyDataType::Max(v) => Some(SharkyDataType::Byte(*v as SharkyByte)),
            SharkyDataType::Real(v) => Some(SharkyDataType::Byte(R::truncate_to_byte(*v))),
            _ => None,
        }
    }

    /// Converts an integer (`Max`, `Int` or `Byte`) to a `Real` by `R`;
    /// the other kinds give `None`.
    pub fn to_real<R: RealArithmetic>(&self) -> (r: Option<SharkyDataType>)
        ensures
            *self matches SharkyDataType::Max(v) ==> r matches Some(SharkyDataType::Real(x))
                && R::is_real_of_max(v, x),
            *self matches SharkyDataType::Int(v) ==> r matches Some(SharkyDataType::Real(x))
                && R::is_real_of_int(v, x),
            *self matches SharkyDataType::Byte(v) ==> r matches Some(SharkyDataType::Real(x))
                && R::is_real_of_byte(v, x),
            !(self is Max || self is Int || self is Byte) ==> r is None,
    {
        match self {
            SharkyDataType::Max(v) => Some(SharkyDataType::Real(R::from_max(*v))),
            SharkyDataType::Int(v) => Some(SharkyDataType::Real(R::from_int(*v))),
            SharkyDataType::Byte(v) => Some(SharkyDataType::Real(R::from_byte(*v))),
            _ => None,
        }
    }

    /// Converts an integer (`Max`, `Int` or `Byte`) to a heap reference, cast
    /// with `as usize`; the other kinds give `None`.
    pub fn to_heap_reference(&self) -> (r: Option<SharkyDataType>)
        ensures
            r == self.as_heap_reference(),
    {
        match self {
            SharkyDataType::Max(v) => {
                Some(SharkyDataType::HeapReference(*v as SharkyHeapFrameIndex))
            },
            SharkyDataType::Int(v) => {
                Some(SharkyDataType::HeapReference(*v as SharkyHeapFrameIndex))
            },
            SharkyDataType::Byte(v) => {
                Some(SharkyDataType::HeapReference(*v as SharkyHeapFrameIndex))
            },
            _ => None,
        }
    }

    /// True for `Max`, `Int`, `Byte` and `Real`.
    pub fn is_numerical(&self) -> (r: bool)
        ensures
            r == self.numerical(),
    {
        match self {
            SharkyDataType::Max(_) => true,
            SharkyDataType::Int(_) => true,
            SharkyDataType::Byte(_) => true,
            SharkyDataType::Real(_) => true,
            _ => false,
        }
    }

    /// Whether a numerical value is zero (`+0.0` and `-0.0` for a real);
    /// `None` for the other kinds.
    pub fn is_zero(&self) -> (r: Option<bool>)
        ensures
            r == self.zero_test(),
    {
        match self {
            SharkyDataType::Max(v) => Some(*v == 0),
            SharkyDataType::Int(v) => Some(*v == 0),
            SharkyDataType::Byte(v) => Some(*v == 0),
            SharkyDataType::Real(v) => Some(real_bits_is_zero(*v)),
            _ => None,
        }
    }

    /// Tells whether `op` on `lhs` and `rhs` stays in range, so that the
    /// operation can be called without a panic.
    pub fn check_in_range(op: SharkyOp, lhs: &Self, rhs: &Self) -> (r: bool)
        ensures
            r == in_range(op, *lhs, *rhs),
    {
        match op {
            SharkyOp::Add => match (lhs, rhs) {
                (SharkyDataType::Max(l), SharkyDataType::Max(r)) => l.checked_add(*r).is_some(),
                (SharkyDataType::Int(l), SharkyDataType::Int(r)) => l.checked_add(*r).is_some(),
                (SharkyDataType::Byte(l), SharkyDataType::Byte(r)) => l.checked_add(*r).is_some(),
                _ => true,
            },
            SharkyOp::Subtract => match (lhs, rhs) {
                (SharkyDataType::Max(l), SharkyDataType::Max(r)) => *r <= *l,
                (SharkyDataType::Int(l), SharkyDataType::Int(r)) => l.checked_sub(*r).is_some(),
                (SharkyDataType::Byte(l), SharkyDataType::Byte(r)) => *r <= *l,
                _ => true,
            },
            SharkyOp::Multiply => match (lhs, rhs) {
                (SharkyDataType::Max(l), SharkyDataType::Max(r)) => l.checked_mul(*r).is_some(),
                (SharkyDataType::Int(l), SharkyDataType::Int(r)) => l.checked_mul(*r).is_some(),
                (SharkyDataType::Byte(l), SharkyDataType::Byte(r)) => l.checked_mul(*r).is_some(),
                _ => true,
            },
            SharkyOp::Divide | SharkyOp::Mod => match (lhs, rhs) {
                (SharkyDataType::Int(l), SharkyDataType::Int(r)) => !(*l == i64::MIN && *r == -1),
                _ => true,
            },
            SharkyOp::ShiftLeft | SharkyOp::ShiftRight => match (lhs, rhs) {
                (SharkyDataType::Max(_), SharkyDataType::Max(r)) => *r < usize::BITS as usize,
                (SharkyDataType::Int(_), SharkyDataType::Int(r)) => 0 <= *r && *r < 64,
                (SharkyDataType::Byte(_), SharkyDataType::Byte(r)) => *r < 8,
                _ => true,
            },
        }
    }

    /// Adds two values of one numerical kind; `None` for other operands.
    pub fn try_add<R: RealArithmetic>(lhs: Self, rhs: Self) -> (r: Option<Self>)
        requires
            in_range(SharkyOp::Add, lhs, rhs),
        ensures
            (lhs, rhs) matches (SharkyDataType::Real(l), SharkyDataType::Real(m)) ==> r matches Some(
                SharkyDataType::Real(x),
            ) && R::is_sum(l, m, x),
            !both_real(lhs, rhs) ==> r == Self::integer_sum(lhs, rhs),
    {
        match (lhs, rhs) {
            (Self::Max(l), Self::Max(r)) => Some(Self::Max(l + r)),
            (Self::Int(l), Self::Int(r)) => Some(Self::Int(l + r)),
            (Self::Byte(l), Self::Byte(r)) => Some(Self::Byte(l + r)),
            (Self::Real(l), Self::Real(r)) => Some(Self::Real(R::sum(l, r))),
            _ => None,
        }
    }

    /// Subtracts two values of one numerical kind; `None` for other operands.
    pub fn try_subtract<R: RealArithmetic>(lhs: Self, rhs: Self) -> (r: Option<Self>)
        requires
            in_range(SharkyOp::Subtract, lhs, rhs),
        ensures
            (lhs, rhs) matches (SharkyDataType::Real(l), SharkyDataType::Real(m)) ==> r matches Some(
                SharkyDataType::Real(x),
            ) && R::is_difference(l, m, x),
            !both_real(lhs, rhs) ==> r == Self::integer_difference(lhs, rhs),
    {
        match (lhs, rhs) {
            (Self::Max(l), Self::Max(r)) => Some(Self::Max(l - r)),
            (Self::Int(l), Self::Int(r)) => Some(Self::Int(l - r)),
            (Self::Byte(l), Self::Byte(r)) => Some(Self::Byte(l - r)),
            (Self::Real(l), Self::Real(r)) => Some(Self::Real(R::difference(l, r))),
            _ => None,
        }
    }

    /// Multiplies two values of one numerical kind; `None` for other operands.
    pub fn try_multiply<R: RealArithmetic>(lhs: Self, rhs: Self) -> (r: Option<Self>)
        requires
            in_range(SharkyOp::Multiply, lhs, rhs),
        ensures
            (lhs, rhs) matches (SharkyDataType::Real(l), SharkyDataType::Real(m)) ==> r matches Some(
                SharkyDataType::Real(x),
            ) && R::is_product(l, m, x),
            !both_real(lhs, rhs) ==> r == Self::integer_product(lhs, rhs),
    {
        match (lhs, rhs) {
            (Self::Max(l), Self::Max(r)) => Some(Self::Max(l * r)),
            (Self::Int(l), Self::Int(r)) => Some(Self::Int(l * r)),
            (Self::Byte(l), Self::Byte(r)) => Some(Self::Byte(l * r)),
            (Self::Real(l), Self::Real(r)) => Some(Self::Real(R::product(l, r))),
            _ => None,
        }
    }

    /// Divides two values of one numerical kind, integers rounding toward
    /// zero; `None` when `rhs` is a zero, and for other operands.
    pub fn try_divide<R: RealArithmetic>(lhs: Self, rhs: Self) -> (r: Option<Self>)
        requires
            in_range(SharkyOp::Divide, lhs, rhs),
        ensures
            !rhs.is_zero_value() ==> ((lhs, rhs) matches (
                SharkyDataType::Real(l),
                SharkyDataType::Real(m),
            ) ==> r matches Some(SharkyDataType::Real(x)) && R::is_quotient(l, m, x)),
            !(both_real(lhs, rhs) && !rhs.is_zero_value()) ==> r == Self::integer_quotient(lhs, rhs),
    {
        if rhs.is_zero() == Some(true) {
            return None;
        }
        match (lhs, rhs) {
            (Self::Max(l), Self::Max(r)) => Some(Self::Max(l / r)),
            (Self::Int(l), Self::Int(r)) => {
                proof {
                    lemma_quotient_bounded(l as int, r as int);
                }
                Some(Self::Int(l / r))
            },
            (Self::Byte(l), Self::Byte(r)) => Some(Self::Byte(l / r)),
            (Self::Real(l), Self::Real(r)) => Some(Self::Real(R::quotient(l, r))),
            _ => None,
        }
    }

    /// The remainder of two values of one numerical kind, an integer one
    /// taking the sign of `lhs`; `None` when `rhs` is a zero, and for other operands.
    pub fn try_mod<R: RealArithmetic>(lhs: Self, rhs: Self) -> (r: Option<Self>)
        requires
            in_range(SharkyOp::Mod, lhs, rhs),
        ensures
            !rhs.is_zero_value() ==> ((lhs, rhs) matches (
                SharkyDataType::Real(l),
                SharkyDataType::Real(m),
            ) ==> r matches Some(SharkyDataType::Real(x)) && R::is_remainder(l, m, x)),
            !(both_real(lhs, rhs) && !rhs.is_zero_value()) ==> r == Self::integer_remainder(lhs, rhs),
    {
        if let Some(is_zero) = rhs.is_zero() {
            if is_zero {
                return None;
            }
        }
        match (lhs, rhs) {
            (Self::Max(l), Self::Max(r)) => Some(Self::Max(l % r)),
            (Self::Int(l), Self::Int(r)) => {
                proof {
                    lemma_division_identity(l as int, r as int);
                }
                Some(Self::Int(l % r))
            },
            (Self::Byte(l), Self::Byte(r)) => Some(Self::Byte(l % r)),
            (Self::Real(l), Self::Real(r)) => Some(Self::Real(R::remainder(l, r))),
            _ => None,
        }
    }

    /// Shifts an integer left by an amount of the same kind; `None` for
    /// other operands.
    pub fn try_shift_left(lhs: Self, rhs: Self) -> (r: Option<Self>)
        requires
            in_range(SharkyOp::ShiftLeft, lhs, rhs),
        ensures
            r == Self::shifted_left(lhs, rhs),
    {
        match (lhs, rhs) {
            (Self::Max(l), Self::Max(r)) => Some(Self::Max(l << r)),
            (Self::Int(l), Self::Int(r)) => Some(Self::Int(l << r)),
            (Self::Byte(l), Self::Byte(r)) => Some(Self::Byte(l << r)),
            _ => None,
        }
    }

    /// Shifts an integer right (arithmetically for `Int`) by an amount of the
    /// same kind; `None` for other operands.
    pub fn try_shift_right(lhs: Self, rhs: Self) -> (r: Option<Self>)
        requires
            in_range(SharkyOp::ShiftRight, lhs, rhs),
        ensures
            r == Self::shifted_right(lhs, rhs),
    {
        match (lhs, rhs) {
            (Self::Max(l), Self::Max(r)) => Some(Self::Max(l >> r)),
            (Self::Int(l), Self::Int(r)) => Some(Self::Int(l >> r)),
            (Self::Byte(l), Self::Byte(r)) => Some(Self::Byte(l >> r)),
            _ => None,
        }
    }

    /// Bitwise and of two integers of one kind; `None` for other operands.
    pub fn try_bitwise_and(lhs: Self, rhs: Self) -> (r: Option<Self>)
        ensures
            r == Self::bitwise_and(lhs, rhs),
    {
        match (lhs, rhs) {
            (Self::Max(l), Self::Max(r)) => Some(Self::Max(l & r)),
            (Self::Int(l), Self::Int(r)) => Some(Self::Int(l & r)),
            (Self::Byte(l), Self::Byte(r)) => Some(Self::Byte(l & r)),
            _ => None,
        }
    }

    /// Bitwise or of two integers of one kind; `None` for other operands.
    pub fn try_bitwise_or(lhs: Self, rhs: Self) -> (r: Option<Self>)
        ensures
            r == Self::bitwise_or(lhs, rhs),
    {
        match (lhs, rhs) {
            (Self::Max(l), Self::Max(r)) => Some(Self::Max(l | r)),
            (Self::Int(l), Self::Int(r)) => Some(Self::Int(l | r)),
            (Self::Byte(l), Self::Byte(r)) => Some(Self::Byte(l | r)),
            _ => None,
        }
    }

    /// Bitwise exclusive or of two integers of one kind; `None` for other operands.
    pub fn try_bitwise_xor(lhs: Self, rhs: Self) -> (r: Option<Self>)
        ensures
            r == Self::bitwise_xor(lhs, rhs),
    {
        match (lhs, rhs) {
            (Self::Max(l), Self::Max(r)) => Some(Self::Max(l ^ r)),
            (Self::Int(l), Self::Int(r)) => Some(Self::Int(l ^ r)),
            (Self::Byte(l), Self::Byte(r)) => Some(Self::Byte(l ^ r)),
            _ => None,
        }
    }

    /// Bitwise complement of an integer; `None` for the other kinds.
    pub fn try_bitwise_not(val: Self) -> (r: Option<Self>)
        ensures
            r == Self::bitwise_not(val),
    {
        match val {
            Self::Max(l) => Some(Self::Max(!l)),
            Self::Int(l) => Some(Self::Int(!l)),
            Self::Byte(l) => Some(Self::Byte(!l)),
            _ => None,
        }
    }

    /// Compares two values of one kind for equality, giving a `Bool`; `None`
    /// when `rhs` is a numerical zero, and for values of different kinds.
    pub fn try_equals(lhs: Self, rhs: Self) -> (r: Option<Self>)
        ensures
            r == Self::equality(lhs, rhs),
    {
        if let Some(is_zero) = rhs.is_zero() {
            if is_zero {
                return None;
            }
        }
        match (lhs, rhs) {
            (Self::Max(l), Self::Max(r)) => Some(Self::Bool(l == r)),
            (Self::Int(l), Self::Int(r)) => Some(Self::Bool(l == r)),
            (Self::Byte(l), Self::Byte(r)) => Some(Self::Bool(l == r)),
            (Self::Real(l), Self::Real(r)) => Some(Self::Bool(real_bits_equal(l, r))),
            (Self::Bool(l), Self::Bool(r)) => Some(Self::Bool(l == r)),
            (Self::Nil, Self::Nil) => Some(Self::Bool(true)),
            (Self::HeapReference(l), Self::HeapReference(r)) => Some(Self::Bool(l == r)),
            (Self::ByteString(l), Self::ByteString(r)) => Some(Self::Bool(bytes_equal(&l, &r))),
            _ => None,
        }
    }

    /// `lhs > rhs` for two numerical values of one kind, giving a `Bool`;
    /// `None` for other operands.
    pub fn try_greater_than(lhs: Self, rhs: Self) -> (r: Option<Self>)
        ensures
            r == Self::greater(lhs, rhs),
    {
        match (lhs, rhs) {
            (Self::Max(l), Self::Max(r)) => Some(Self::Bool(l > r)),
            (Self::Int(l), Self::Int(r)) => Some(Self::Bool(l > r)),
            (Self::Byte(l), Self::Byte(r)) => Some(Self::Bool(l > r)),
            (Self::Real(l), Self::Real(r)) => Some(Self::Bool(real_bits_less(r, l))),
            _ => None,
        }
    }

    /// `lhs < rhs` for two numerical values of one kind, giving a `Bool`;
    /// `None` for other operands.
    pub fn try_less_than(lhs: Self, rhs: Self) -> (r: Option<Self>)
        ensures
            r == Self::less(lhs, rhs),
    {
        match (lhs, rhs) {
            (Self::Max(l), Self::Max(r)) => Some(Self::Bool(l < r)),
            (Self::Int(l), Self::Int(r)) => Some(Self::Bool(l < r)),
            (Self::Byte(l), Self::Byte(r)) => Some(Self::Bool(l < r)),
            (Self::Real(l), Self::Real(r)) => Some(Self::Bool(real_bits_less(l, r))),
            _ => None,
        }
    }

    /// The text that displaying the value shows: `Max(5)`, `Int(-3)`,
    /// `Byte(7)`, `Bool(true)`, `Ref(2)`, `nil`, the empty text for a byte
    /// string, and for a real `Real(` and `)` around what `R` renders.
    pub fn display_string<R: RealArithmetic>(&self) -> (s: String)
        ensures
            !(self is Real) ==> s@ == self.text(),
            *self matches SharkyDataType::Real(v) ==> exists|t: String|
                R::is_rendering(v, t) && s@ == "Real("@ + t@ + ")"@,
    {
        match self {
            SharkyDataType::Max(v) => {
                let mut s = String::from_str("Max(");
                push_decimal(*v as i128, &mut s);
                s.append(")");
                s
            },
            SharkyDataType::Int(v) => {
                let mut s = String::from_str("Int(");
                push_decimal(*v as i128, &mut s);
                s.append(")");
                s
            },
            SharkyDataType::Real(v) => {
                let rendered = R::render(*v);
                let mut s = String::from_str("Real(");
                s.append(rendered.as_str());
                s.append(")");
                s
            },
            SharkyDataType::Byte(v) => {
                let mut s = String::from_str("Byte(");
                push_decimal(*v as i128, &mut s);
                s.append(")");
                s
            },
            SharkyDataType::Bool(v) => {
                if *v {
                    String::from_str("Bool(true)")
                } else {
                    String::from_str("Bool(false)")
                }
            },
            SharkyDataType::HeapReference(v) => {
                let mut s = String::from_str("Ref(");
                push_decimal(*v as i128, &mut s);
                s.append(")");
                s
            },
            SharkyDataType::ByteString(_) => String::new(),
            SharkyDataType::Nil => String::from_str("nil"),
        }
    }
}

/// How the machine addresses its stack.
#[derive(Debug)]
pub enum SharkyStackMode {
    Indexed,
    Operative,
    Parameter,
    Transitional,
}

impl Clone for SharkyStackMode {
    fn clone(&self) -> (mode: Self)
        ensures
            mode == *self,
    {
        match self {
            SharkyStackMode::Indexed => SharkyStackMode::Indexed,
            SharkyStackMode::Operative => SharkyStackMode::Operative,
            SharkyStackMode::Parameter => SharkyStackMode::Parameter,
            SharkyStackMode::Transitional => SharkyStackMode::Transitional,
        }
    }
}

impl Default for SharkyStackMode {
    fn default() -> (mode: Self)
        ensures
            mode is Indexed,
    {
        SharkyStackMode::Indexed
    }
}

} // verus!
