use sharky::data_types::{RealArithmetic, SharkyDataType, SharkyOp, SharkyStackMode};

struct F64Arithmetic;

impl RealArithmetic for F64Arithmetic {
    fn is_sum(lhs: u64, rhs: u64, result: u64) -> bool {
        (f64::from_bits(lhs) + f64::from_bits(rhs)).to_bits() == result
    }

    fn is_difference(lhs: u64, rhs: u64, result: u64) -> bool {
        (f64::from_bits(lhs) - f64::from_bits(rhs)).to_bits() == result
    }

    fn is_product(lhs: u64, rhs: u64, result: u64) -> bool {
        (f64::from_bits(lhs) * f64::from_bits(rhs)).to_bits() == result
    }

    fn is_quotient(lhs: u64, rhs: u64, result: u64) -> bool {
        (f64::from_bits(lhs) / f64::from_bits(rhs)).to_bits() == result
    }

    fn is_remainder(lhs: u64, rhs: u64, result: u64) -> bool {
        (f64::from_bits(lhs) % f64::from_bits(rhs)).to_bits() == result
    }

    fn is_truncation_to_max(value: u64, result: usize) -> bool {
        f64::from_bits(value).trunc() as usize == result
    }

    fn is_truncation_to_int(value: u64, result: i64) -> bool {
        f64::from_bits(value).trunc() as i64 == result
    }

    fn is_truncation_to_byte(value: u64, result: u8) -> bool {
        f64::from_bits(value).trunc() as u8 == result
    }

    fn is_real_of_max(value: usize, result: u64) -> bool {
        (value as f64).to_bits() == result
    }

    fn is_real_of_int(value: i64, result: u64) -> bool {
        (value as f64).to_bits() == result
    }

    fn is_real_of_byte(value: u8, result: u64) -> bool {
        (value as f64).to_bits() == result
    }

    fn is_rendering(value: u64, text: String) -> bool {
        format!("{}", f64::from_bits(value)) == text
    }

    fn sum(lhs: u64, rhs: u64) -> u64 {
        (f64::from_bits(lhs) + f64::from_bits(rhs)).to_bits()
    }
    fn difference(lhs: u64, rhs: u64) -> u64 {
        (f64::from_bits(lhs) - f64::from_bits(rhs)).to_bits()
    }
    fn product(lhs: u64, rhs: u64) -> u64 {
        (f64::from_bits(lhs) * f64::from_bits(rhs)).to_bits()
    }
    fn quotient(lhs: u64, rhs: u64) -> u64 {
        (f64::from_bits(lhs) / f64::from_bits(rhs)).to_bits()
    }
    fn remainder(lhs: u64, rhs: u64) -> u64 {
        (f64::from_bits(lhs) % f64::from_bits(rhs)).to_bits()
    }
    fn truncate_to_max(value: u64) -> usize {
        f64::from_bits(value).trunc() as usize
    }
    fn truncate_to_int(value: u64) -> i64 {
        f64::from_bits(value).trunc() as i64
    }
    fn truncate_to_byte(value: u64) -> u8 {
        f64::from_bits(value).trunc() as u8
    }
    fn from_max(value: usize) -> u64 {
        (value as f64).to_bits()
    }
    fn from_int(value: i64) -> u64 {
        (value as f64).to_bits()
    }
    fn from_byte(value: u8) -> u64 {
        (value as f64).to_bits()
    }
    fn render(value: u64) -> String {
        format!("{}", f64::from_bits(value))
    }
}

type F = F64Arithmetic;

fn real_value(v: f64) -> SharkyDataType {
    SharkyDataType::Real(v.to_bits())
}

fn show(v: &Option<SharkyDataType>) -> String {
    format!("{:?}", v)
}

fn real_of(v: &Option<SharkyDataType>) -> f64 {
    match v {
        Some(SharkyDataType::Real(bits)) => f64::from_bits(*bits),
        _ => panic!("not a real: {:?}", v),
    }
}

use SharkyDataType::{Bool, Byte, ByteString, HeapReference, Int, Max, Nil};

#[test]
fn default_value_is_nil() {
    assert!(matches!(SharkyDataType::default(), Nil));
    assert!(matches!(SharkyStackMode::default(), SharkyStackMode::Indexed));
}

#[test]
fn to_bool_converts_nil_and_integers() {
    assert_eq!(show(&Nil.to_bool()), "Some(Bool(false))");
    assert_eq!(show(&Max(0).to_bool()), "Some(Bool(false))");
    assert_eq!(show(&Max(7).to_bool()), "Some(Bool(true))");
    assert_eq!(show(&Int(-1).to_bool()), "Some(Bool(true))");
    assert_eq!(show(&Byte(0).to_bool()), "Some(Bool(false))");
    assert_eq!(show(&Bool(true).to_bool()), "None");
    assert_eq!(show(&real_value(1.0).to_bool()), "None");
    assert_eq!(show(&HeapReference(1).to_bool()), "None");
    assert_eq!(show(&ByteString(vec![1]).to_bool()), "None");
}

#[test]
fn to_max_converts() {
    assert_eq!(show(&Nil.to_max::<F>()), "Some(Max(0))");
    assert_eq!(show(&Bool(true).to_max::<F>()), "Some(Max(1))");
    assert_eq!(show(&Int(-1).to_max::<F>()), format!("Some(Max({}))", usize::MAX));
    assert_eq!(show(&Byte(200).to_max::<F>()), "Some(Max(200))");
    assert_eq!(show(&real_value(3.9).to_max::<F>()), "Some(Max(3))");
    assert_eq!(show(&real_value(-3.9).to_max::<F>()), "Some(Max(0))");
    assert_eq!(show(&Max(4).to_max::<F>()), "None");
    assert_eq!(show(&HeapReference(4).to_max::<F>()), "None");
}

#[test]
fn to_int_converts() {
    assert_eq!(show(&Nil.to_int::<F>()), "Some(Int(0))");
    assert_eq!(show(&Bool(false).to_int::<F>()), "Some(Int(0))");
    assert_eq!(show(&Max(usize::MAX).to_int::<F>()), "Some(Int(-1))");
    assert_eq!(show(&Byte(255).to_int::<F>()), "Some(Int(255))");
    assert_eq!(show(&real_value(-2.7).to_int::<F>()), "Some(Int(-2))");
    assert_eq!(show(&Int(5).to_int::<F>()), "None");
}

#[test]
fn to_byte_keeps_low_bits() {
    assert_eq!(show(&Nil.to_byte::<F>()), "Some(Byte(0))");
    assert_eq!(show(&Bool(true).to_byte::<F>()), "Some(Byte(1))");
    assert_eq!(show(&Int(257).to_byte::<F>()), "Some(Byte(1))");
    assert_eq!(show(&Int(-1).to_byte::<F>()), "Some(Byte(255))");
    assert_eq!(show(&Max(0x1234).to_byte::<F>()), "Some(Byte(52))");
    assert_eq!(show(&real_value(300.5).to_byte::<F>()), "Some(Byte(255))");
    assert_eq!(show(&Byte(1).to_byte::<F>()), "None");
}

#[test]
fn to_real_converts_integers() {
    assert_eq!(real_of(&Max(3).to_real::<F>()), 3.0);
    assert_eq!(real_of(&Int(-4).to_real::<F>()), -4.0);
    assert_eq!(real_of(&Byte(9).to_real::<F>()), 9.0);
    assert_eq!(show(&real_value(1.0).to_real::<F>()), "None");
    assert_eq!(show(&Nil.to_real::<F>()), "None");
    assert_eq!(show(&Bool(true).to_real::<F>()), "None");
}

#[test]
fn to_heap_reference_converts_integers() {
    assert_eq!(show(&Max(3).to_heap_reference()), "Some(HeapReference(3))");
    assert_eq!(show(&Int(4).to_heap_reference()), "Some(HeapReference(4))");
    assert_eq!(show(&Byte(5).to_heap_reference()), "Some(HeapReference(5))");
    assert_eq!(
        show(&Int(-1).to_heap_reference()),
        format!("Some(HeapReference({}))", usize::MAX)
    );
    assert_eq!(show(&real_value(1.0).to_heap_reference()), "None");
    assert_eq!(show(&HeapReference(1).to_heap_reference()), "None");
    assert_eq!(show(&Nil.to_heap_reference()), "None");
}

#[test]
fn numerical_kinds() {
    assert!(Max(0).is_numerical());
    assert!(Int(0).is_numerical());
    assert!(Byte(0).is_numerical());
    assert!(real_value(0.0).is_numerical());
    assert!(!Nil.is_numerical());
    assert!(!Bool(false).is_numerical());
    assert!(!HeapReference(0).is_numerical());
    assert!(!ByteString(vec![]).is_numerical());
}

#[test]
fn zero_test() {
    assert_eq!(Max(0).is_zero(), Some(true));
    assert_eq!(Int(3).is_zero(), Some(false));
    assert_eq!(Byte(0).is_zero(), Some(true));
    assert_eq!(real_value(0.0).is_zero(), Some(true));
    assert_eq!(real_value(-0.0).is_zero(), Some(true));
    assert_eq!(real_value(f64::MIN_POSITIVE).is_zero(), Some(false));
    assert_eq!(real_value(f64::NAN).is_zero(), Some(false));
    assert_eq!(Nil.is_zero(), None);
    assert_eq!(Bool(false).is_zero(), None);
}

#[test]
fn add_same_kinds() {
    assert_eq!(show(&SharkyDataType::try_add::<F>(Max(2), Max(3))), "Some(Max(5))");
    assert_eq!(show(&SharkyDataType::try_add::<F>(Int(-2), Int(3))), "Some(Int(1))");
    assert_eq!(show(&SharkyDataType::try_add::<F>(Byte(200), Byte(55))), "Some(Byte(255))");
    assert_eq!(real_of(&SharkyDataType::try_add::<F>(real_value(1.5), real_value(2.25))), 3.75);
    assert_eq!(show(&SharkyDataType::try_add::<F>(Max(1), Int(1))), "None");
    assert_eq!(show(&SharkyDataType::try_add::<F>(Bool(true), Bool(true))), "None");
    assert_eq!(show(&SharkyDataType::try_add::<F>(Nil, Nil)), "None");
}

#[test]
fn subtract_same_kinds() {
    assert_eq!(show(&SharkyDataType::try_subtract::<F>(Max(5), Max(3))), "Some(Max(2))");
    assert_eq!(show(&SharkyDataType::try_subtract::<F>(Int(2), Int(3))), "Some(Int(-1))");
    assert_eq!(show(&SharkyDataType::try_subtract::<F>(Byte(9), Byte(9))), "Some(Byte(0))");
    assert_eq!(real_of(&SharkyDataType::try_subtract::<F>(real_value(1.0), real_value(0.5))), 0.5);
    assert_eq!(show(&SharkyDataType::try_subtract::<F>(Byte(1), Max(1))), "None");
}

#[test]
fn multiply_same_kinds() {
    assert_eq!(show(&SharkyDataType::try_multiply::<F>(Max(6), Max(7))), "Some(Max(42))");
    assert_eq!(show(&SharkyDataType::try_multiply::<F>(Int(-6), Int(7))), "Some(Int(-42))");
    assert_eq!(show(&SharkyDataType::try_multiply::<F>(Byte(15), Byte(17))), "Some(Byte(255))");
    assert_eq!(real_of(&SharkyDataType::try_multiply::<F>(real_value(1.5), real_value(-2.0))), -3.0);
    assert_eq!(show(&SharkyDataType::try_multiply::<F>(Int(1), real_value(1.0))), "None");
}

#[test]
fn divide_rounds_toward_zero() {
    assert_eq!(show(&SharkyDataType::try_divide::<F>(Max(7), Max(2))), "Some(Max(3))");
    assert_eq!(show(&SharkyDataType::try_divide::<F>(Int(-7), Int(2))), "Some(Int(-3))");
    assert_eq!(show(&SharkyDataType::try_divide::<F>(Int(7), Int(-2))), "Some(Int(-3))");
    assert_eq!(show(&SharkyDataType::try_divide::<F>(Int(-7), Int(-2))), "Some(Int(3))");
    assert_eq!(show(&SharkyDataType::try_divide::<F>(Byte(255), Byte(16))), "Some(Byte(15))");
    assert_eq!(real_of(&SharkyDataType::try_divide::<F>(real_value(1.0), real_value(4.0))), 0.25);
    assert_eq!(show(&SharkyDataType::try_divide::<F>(Int(i64::MIN), Int(2))), "Some(Int(-4611686018427387904))");
}

#[test]
fn divide_by_zero_is_none() {
    assert_eq!(show(&SharkyDataType::try_divide::<F>(Max(7), Max(0))), "None");
    assert_eq!(show(&SharkyDataType::try_divide::<F>(Int(7), Int(0))), "None");
    assert_eq!(show(&SharkyDataType::try_divide::<F>(Byte(7), Byte(0))), "None");
    assert_eq!(show(&SharkyDataType::try_divide::<F>(real_value(1.0), real_value(-0.0))), "None");
    assert_eq!(show(&SharkyDataType::try_divide::<F>(Int(7), Max(0))), "None");
    assert_eq!(show(&SharkyDataType::try_divide::<F>(Int(7), Max(1))), "None");
}

#[test]
fn mod_takes_sign_of_dividend() {
    assert_eq!(show(&SharkyDataType::try_mod::<F>(Max(7), Max(3))), "Some(Max(1))");
    assert_eq!(show(&SharkyDataType::try_mod::<F>(Int(-7), Int(3))), "Some(Int(-1))");
    assert_eq!(show(&SharkyDataType::try_mod::<F>(Int(7), Int(-3))), "Some(Int(1))");
    assert_eq!(show(&SharkyDataType::try_mod::<F>(Byte(200), Byte(7))), "Some(Byte(4))");
    assert_eq!(real_of(&SharkyDataType::try_mod::<F>(real_value(7.5), real_value(2.0))), 1.5);
    assert_eq!(show(&SharkyDataType::try_mod::<F>(Int(7), Int(0))), "None");
    assert_eq!(show(&SharkyDataType::try_mod::<F>(real_value(7.0), real_value(0.0))), "None");
    assert_eq!(show(&SharkyDataType::try_mod::<F>(Nil, Nil)), "None");
}

#[test]
fn shifts() {
    assert_eq!(show(&SharkyDataType::try_shift_left(Max(1), Max(4))), "Some(Max(16))");
    assert_eq!(show(&SharkyDataType::try_shift_left(Int(-1), Int(1))), "Some(Int(-2))");
    assert_eq!(show(&SharkyDataType::try_shift_left(Byte(0x81), Byte(1))), "Some(Byte(2))");
    assert_eq!(show(&SharkyDataType::try_shift_right(Max(16), Max(4))), "Some(Max(1))");
    assert_eq!(show(&SharkyDataType::try_shift_right(Int(-16), Int(2))), "Some(Int(-4))");
    assert_eq!(show(&SharkyDataType::try_shift_right(Byte(0x80), Byte(7))), "Some(Byte(1))");
    assert_eq!(show(&SharkyDataType::try_shift_left(real_value(1.0), real_value(1.0))), "None");
    assert_eq!(show(&SharkyDataType::try_shift_right(Max(1), Int(1))), "None");
}

#[test]
fn bitwise_operations() {
    assert_eq!(show(&SharkyDataType::try_bitwise_and(Max(12), Max(10))), "Some(Max(8))");
    assert_eq!(show(&SharkyDataType::try_bitwise_or(Int(12), Int(10))), "Some(Int(14))");
    assert_eq!(show(&SharkyDataType::try_bitwise_xor(Byte(12), Byte(10))), "Some(Byte(6))");
    assert_eq!(show(&SharkyDataType::try_bitwise_not(Byte(0x0f))), "Some(Byte(240))");
    assert_eq!(show(&SharkyDataType::try_bitwise_not(Int(0))), "Some(Int(-1))");
    assert_eq!(show(&SharkyDataType::try_bitwise_not(Max(0))), format!("Some(Max({}))", usize::MAX));
    assert_eq!(show(&SharkyDataType::try_bitwise_and(real_value(1.0), real_value(1.0))), "None");
    assert_eq!(show(&SharkyDataType::try_bitwise_or(Bool(true), Bool(false))), "None");
    assert_eq!(show(&SharkyDataType::try_bitwise_not(Bool(true))), "None");
}

#[test]
fn equality_of_one_kind() {
    assert_eq!(show(&SharkyDataType::try_equals(Max(3), Max(3))), "Some(Bool(true))");
    assert_eq!(show(&SharkyDataType::try_equals(Int(3), Int(4))), "Some(Bool(false))");
    assert_eq!(show(&SharkyDataType::try_equals(Byte(4), Byte(4))), "Some(Bool(true))");
    assert_eq!(show(&SharkyDataType::try_equals(Bool(false), Bool(false))), "Some(Bool(true))");
    assert_eq!(show(&SharkyDataType::try_equals(Nil, Nil)), "Some(Bool(true))");
    assert_eq!(show(&SharkyDataType::try_equals(HeapReference(2), HeapReference(3))), "Some(Bool(false))");
    assert_eq!(show(&SharkyDataType::try_equals(ByteString(vec![1, 2]), ByteString(vec![1, 2]))), "Some(Bool(true))");
    assert_eq!(show(&SharkyDataType::try_equals(ByteString(vec![1, 2]), ByteString(vec![1]))), "Some(Bool(false))");
    assert_eq!(show(&SharkyDataType::try_equals(Int(1), Max(1))), "None");
    assert_eq!(show(&SharkyDataType::try_equals(Nil, Bool(false))), "None");
}

#[test]
fn equality_with_a_zero_right_operand_is_none() {
    assert_eq!(show(&SharkyDataType::try_equals(Int(0), Int(0))), "None");
    assert_eq!(show(&SharkyDataType::try_equals(Max(5), Max(0))), "None");
    assert_eq!(show(&SharkyDataType::try_equals(real_value(0.0), real_value(-0.0))), "None");
    assert_eq!(show(&SharkyDataType::try_equals(Int(0), Int(1))), "Some(Bool(false))");
}

#[test]
fn real_equality_follows_binary64() {
    let eq = |a: f64, b: f64| show(&SharkyDataType::try_equals(real_value(a), real_value(b)));
    assert_eq!(eq(1.5, 1.5), "Some(Bool(true))");
    assert_eq!(eq(1.5, -1.5), "Some(Bool(false))");
    assert_eq!(eq(f64::NAN, f64::NAN), "Some(Bool(false))");
    assert_eq!(eq(-0.0, 1.0), "Some(Bool(false))");
    assert_eq!(eq(f64::INFINITY, f64::INFINITY), "Some(Bool(true))");
}

#[test]
fn ordering_of_one_kind() {
    assert_eq!(show(&SharkyDataType::try_greater_than(Max(3), Max(2))), "Some(Bool(true))");
    assert_eq!(show(&SharkyDataType::try_greater_than(Int(-3), Int(2))), "Some(Bool(false))");
    assert_eq!(show(&SharkyDataType::try_less_than(Byte(2), Byte(3))), "Some(Bool(true))");
    assert_eq!(show(&SharkyDataType::try_less_than(Int(3), Int(3))), "Some(Bool(false))");
    assert_eq!(show(&SharkyDataType::try_less_than(Bool(false), Bool(true))), "None");
    assert_eq!(show(&SharkyDataType::try_greater_than(Nil, Nil)), "None");
    assert_eq!(show(&SharkyDataType::try_greater_than(Max(3), Int(2))), "None");
}

#[test]
fn real_ordering_follows_binary64() {
    let values = [
        f64::NEG_INFINITY,
        -2.5,
        -1.0,
        -f64::MIN_POSITIVE,
        -0.0,
        0.0,
        f64::MIN_POSITIVE,
        1.0,
        2.5,
        f64::MAX,
        f64::INFINITY,
        f64::NAN,
    ];
    for a in values {
        for b in values {
            let lt = SharkyDataType::try_less_than(real_value(a), real_value(b));
            let gt = SharkyDataType::try_greater_than(real_value(a), real_value(b));
            assert_eq!(show(&lt), format!("Some(Bool({}))", a < b), "{} < {}", a, b);
            assert_eq!(show(&gt), format!("Some(Bool({}))", a > b), "{} > {}", a, b);
            if b != 0.0 {
                let eq = SharkyDataType::try_equals(real_value(a), real_value(b));
                assert_eq!(show(&eq), format!("Some(Bool({}))", a == b), "{} == {}", a, b);
            }
        }
    }
}

#[test]
fn display_strings() {
    assert_eq!(Max(5).display_string::<F>(), "Max(5)");
    assert_eq!(Int(-3).display_string::<F>(), "Int(-3)");
    assert_eq!(Int(i64::MIN).display_string::<F>(), "Int(-9223372036854775808)");
    assert_eq!(Max(usize::MAX).display_string::<F>(), format!("Max({})", usize::MAX));
    assert_eq!(Byte(7).display_string::<F>(), "Byte(7)");
    assert_eq!(Bool(true).display_string::<F>(), "Bool(true)");
    assert_eq!(Bool(false).display_string::<F>(), "Bool(false)");
    assert_eq!(HeapReference(10).display_string::<F>(), "Ref(10)");
    assert_eq!(ByteString(vec![104, 105]).display_string::<F>(), "");
    assert_eq!(Nil.display_string::<F>(), "nil");
    assert_eq!(real_value(1.5).display_string::<F>(), "Real(1.5)");
    assert_eq!(Int(0).display_string::<F>(), "Int(0)");
    assert_eq!(Max(100).display_string::<F>(), "Max(100)");
}

#[test]
fn in_range_checks() {
    assert!(SharkyDataType::check_in_range(SharkyOp::Add, &Byte(200), &Byte(55)));
    assert!(!SharkyDataType::check_in_range(SharkyOp::Add, &Byte(200), &Byte(56)));
    assert!(!SharkyDataType::check_in_range(SharkyOp::Add, &Int(i64::MAX), &Int(1)));
    assert!(SharkyDataType::check_in_range(SharkyOp::Add, &Int(i64::MAX), &Int(-1)));
    assert!(!SharkyDataType::check_in_range(SharkyOp::Subtract, &Max(1), &Max(2)));
    assert!(SharkyDataType::check_in_range(SharkyOp::Subtract, &Int(1), &Int(2)));
    assert!(!SharkyDataType::check_in_range(SharkyOp::Multiply, &Int(i64::MIN), &Int(-1)));
    assert!(!SharkyDataType::check_in_range(SharkyOp::Divide, &Int(i64::MIN), &Int(-1)));
    assert!(!SharkyDataType::check_in_range(SharkyOp::Mod, &Int(i64::MIN), &Int(-1)));
    assert!(SharkyDataType::check_in_range(SharkyOp::Divide, &Int(i64::MIN), &Int(1)));
    assert!(!SharkyDataType::check_in_range(SharkyOp::ShiftLeft, &Int(1), &Int(-1)));
    assert!(!SharkyDataType::check_in_range(SharkyOp::ShiftRight, &Int(1), &Int(64)));
    assert!(SharkyDataType::check_in_range(SharkyOp::ShiftLeft, &Byte(1), &Byte(7)));
    assert!(!SharkyDataType::check_in_range(SharkyOp::ShiftLeft, &Byte(1), &Byte(8)));
    assert!(!SharkyDataType::check_in_range(
        SharkyOp::ShiftLeft,
        &Max(1),
        &Max(usize::BITS as usize)
    ));
    assert!(SharkyDataType::check_in_range(SharkyOp::Add, &real_value(f64::MAX), &real_value(f64::MAX)));
    assert!(SharkyDataType::check_in_range(SharkyOp::Add, &Nil, &Int(1)));
}

#[test]
fn law_subtract_undoes_add_on_values() {
    let sum = SharkyDataType::try_add::<F>(Int(-40), Int(2)).unwrap();
    assert_eq!(show(&SharkyDataType::try_subtract::<F>(sum, Int(2))), "Some(Int(-40))");
    let sum = SharkyDataType::try_add::<F>(Byte(250), Byte(5)).unwrap();
    assert_eq!(show(&SharkyDataType::try_subtract::<F>(sum, Byte(5))), "Some(Byte(250))");
}

#[test]
fn law_division_identity_on_values() {
    for (l, r) in [(7i64, 3i64), (-7, 3), (7, -3), (-7, -3), (i64::MIN, 7), (5, 9)] {
        let q = match SharkyDataType::try_divide::<F>(Int(l), Int(r)) {
            Some(Int(q)) => q,
            other => panic!("{:?}", other),
        };
        let m = match SharkyDataType::try_mod::<F>(Int(l), Int(r)) {
            Some(Int(m)) => m,
            other => panic!("{:?}", other),
        };
        assert_eq!(l, r * q + m);
        assert!(m.abs() < r.abs());
        assert!(m == 0 || (m < 0) == (l < 0));
    }
}

#[test]
fn law_less_is_converse_greater_on_values() {
    assert_eq!(
        show(&SharkyDataType::try_less_than(Int(2), Int(5))),
        show(&SharkyDataType::try_greater_than(Int(5), Int(2)))
    );
    assert_eq!(
        show(&SharkyDataType::try_less_than(real_value(f64::NAN), real_value(1.0))),
        show(&SharkyDataType::try_greater_than(real_value(1.0), real_value(f64::NAN)))
    );
}

#[test]
fn law_bitwise_not_involution_on_values() {
    let once = SharkyDataType::try_bitwise_not(Int(12345)).unwrap();
    assert_eq!(show(&SharkyDataType::try_bitwise_not(once)), "Some(Int(12345))");
}

#[test]
fn law_de_morgan_on_values() {
    let and = SharkyDataType::try_bitwise_and(Byte(0b1100), Byte(0b1010)).unwrap();
    let lhs = SharkyDataType::try_bitwise_not(and);
    let rhs = SharkyDataType::try_bitwise_or(
        SharkyDataType::try_bitwise_not(Byte(0b1100)).unwrap(),
        SharkyDataType::try_bitwise_not(Byte(0b1010)).unwrap(),
    );
    assert_eq!(show(&lhs), show(&rhs));
}

#[test]
fn law_xor_self_is_zero_on_values() {
    assert_eq!(show(&SharkyDataType::try_bitwise_xor(Max(77), Max(77))), "Some(Max(0))");
    assert_eq!(show(&SharkyDataType::try_bitwise_xor(Int(-77), Int(-77))), "Some(Int(0))");
}

#[test]
fn law_equality_reflexive_and_symmetric_on_values() {
    assert_eq!(show(&SharkyDataType::try_equals(Int(9), Int(9))), "Some(Bool(true))");
    assert_eq!(
        show(&SharkyDataType::try_equals(Int(9), Int(8))),
        show(&SharkyDataType::try_equals(Int(8), Int(9)))
    );
}

#[test]
fn law_conversion_round_trips_on_values() {
    let i = Byte(250).to_int::<F>().unwrap();
    assert_eq!(show(&i.to_byte::<F>()), "Some(Byte(250))");
    let i = Max(usize::MAX - 3).to_int::<F>().unwrap();
    assert_eq!(show(&i.to_max::<F>()), format!("Some(Max({}))", usize::MAX - 3));
    let b = Bool(true).to_byte::<F>().unwrap();
    assert_eq!(show(&b.to_bool()), "Some(Bool(true))");
}

#[test]
fn law_zero_test_iff_numerical_on_values() {
    for v in [Nil, Max(1), Int(0), real_value(2.0), Byte(3), Bool(true), HeapReference(1), ByteString(vec![])] {
        assert_eq!(v.is_zero().is_some(), v.is_numerical());
    }
}

#[test]
fn clone_keeps_the_value() {
    for v in [Nil, Max(1), Int(-2), real_value(0.5), Byte(3), Bool(true), HeapReference(4), ByteString(vec![5, 6])] {
        assert_eq!(format!("{:?}", v.clone()), format!("{:?}", v));
    }
    assert!(matches!(SharkyStackMode::Transitional.clone(), SharkyStackMode::Transitional));
}

#[test]
fn real_results_stand_in_their_relations() {
    let sum = real_of(&SharkyDataType::try_add::<F>(real_value(1.0), real_value(2.0)));
    assert!(F::is_sum(1.0f64.to_bits(), 2.0f64.to_bits(), sum.to_bits()));
    let rem = real_of(&SharkyDataType::try_mod::<F>(real_value(7.0), real_value(2.0)));
    assert!(F::is_remainder(7.0f64.to_bits(), 2.0f64.to_bits(), rem.to_bits()));
    assert!(!F::is_remainder(2.0f64.to_bits(), 7.0f64.to_bits(), rem.to_bits()));
    let quo = real_of(&SharkyDataType::try_divide::<F>(real_value(1.0), real_value(4.0)));
    assert!(F::is_quotient(1.0f64.to_bits(), 4.0f64.to_bits(), quo.to_bits()));
    assert!(!F::is_quotient(4.0f64.to_bits(), 1.0f64.to_bits(), quo.to_bits()));
    let r = real_of(&Int(-3).to_real::<F>());
    assert!(F::is_real_of_int(-3, r.to_bits()));
    assert!(F::is_truncation_to_max(2.9f64.to_bits(), 2));
}
