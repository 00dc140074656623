use decorum::operation::{binary, unary, unary_pair};
use decorum::{Constrained, Constraint, Defined, Expression, Undefined};

#[derive(Clone, Copy, Debug, PartialEq)]
enum Violation {
    Nan,
    Infinite,
}

/// Every value but NaN; infinities are allowed.
#[derive(Clone, Copy, Debug)]
struct NotNan;

impl Constraint<f64> for NotNan {
    type Error = Violation;

    fn member(value: f64) -> bool {
        !value.is_nan()
    }

    fn violation(_value: f64) -> Violation {
        Violation::Nan
    }

    fn check(value: &f64) -> Result<(), Violation> {
        if Self::member(*value) { Ok(()) } else { Err(Self::violation(*value)) }
    }
}

/// Finite values only.
#[derive(Clone, Copy, Debug)]
struct IsReal;

impl Constraint<f64> for IsReal {
    type Error = Violation;

    fn member(value: f64) -> bool {
        value.is_finite()
    }

    fn violation(value: f64) -> Violation {
        if value.is_nan() { Violation::Nan } else { Violation::Infinite }
    }

    fn check(value: &f64) -> Result<(), Violation> {
        if Self::member(*value) { Ok(()) } else { Err(Self::violation(*value)) }
    }
}

/// Integers that are not negative; the error carries the offending value.
#[derive(Clone, Copy, Debug)]
struct NonNegative;

impl Constraint<i64> for NonNegative {
    type Error = i64;

    fn member(value: i64) -> bool {
        value >= 0
    }

    fn violation(value: i64) -> i64 {
        value
    }

    fn check(value: &i64) -> Result<(), i64> {
        if Self::member(*value) { Ok(()) } else { Err(Self::violation(*value)) }
    }
}

type Total = Expression<Constrained<f64, NotNan>, Violation>;
type Real = Expression<Constrained<f64, IsReal>, Violation>;
type Count = Expression<Constrained<i64, NonNegative>, i64>;

fn total(value: f64) -> Total {
    Constrained::new(value)
}

fn finite(value: f64) -> Real {
    Constrained::new(value)
}

fn total_value(x: Total) -> Option<f64> {
    x.defined().map(|c| c.into_inner())
}

fn finite_value(x: Real) -> Option<f64> {
    x.defined().map(|c| c.into_inner())
}

#[test]
fn try_new_round_trip_keeps_bits() {
    for p in [0.0, -0.0, 1.5, -3.25, f64::MAX, f64::MIN_POSITIVE] {
        let c = Constrained::<f64, IsReal>::try_new(p).ok().unwrap();
        assert_eq!(c.into_inner().to_bits(), p.to_bits());
        let d = Constrained::<f64, IsReal>::try_new(p).ok().unwrap();
        assert_eq!(d.get().to_bits(), p.to_bits());
    }
}

#[test]
fn try_new_rejects_violations() {
    assert_eq!(Constrained::<f64, IsReal>::try_new(f64::NAN).err(), Some(Violation::Nan));
    assert_eq!(Constrained::<f64, IsReal>::try_new(f64::INFINITY).err(), Some(Violation::Infinite));
    assert_eq!(Constrained::<f64, NotNan>::try_new(f64::INFINITY).err(), None);
    assert_eq!(Constrained::<i64, NonNegative>::try_new(-4).err(), Some(-4));
}

#[test]
fn division_by_zero_under_each_constraint() {
    let x = total(1.0);
    let y = total(0.0);
    assert_eq!(total_value(x / y), Some(f64::INFINITY));
    let x = finite(1.0);
    let y = finite(0.0);
    assert_eq!((x / y).undefined(), Some(Violation::Infinite));
}

#[test]
fn undefined_middle_operand_decides_the_sum() {
    for (a, c) in [(1.0, 2.0), (-5.0, 1e300), (0.0, 0.0)] {
        let b: Real = Undefined(Violation::Nan);
        assert_eq!((finite(a) + b + finite(c)).undefined(), Some(Violation::Nan));
    }
    let b = finite(f64::NAN);
    let c = finite(f64::INFINITY);
    assert_eq!((finite(1.0) + b + c).undefined(), Some(Violation::Nan));
}

#[test]
fn pair_of_results_gets_the_error_twice() {
    let x: Real = Undefined(Violation::Infinite);
    let (s, c) = unary_pair(x, |v: f64| v.sin_cos());
    assert_eq!(s.undefined(), Some(Violation::Infinite));
    assert_eq!(c.undefined(), Some(Violation::Infinite));
    let (s, c) = unary_pair(finite(0.0), |v: f64| v.sin_cos());
    assert_eq!(finite_value(s), Some(0.0));
    assert_eq!(finite_value(c), Some(1.0));
}

#[test]
fn overflow_is_revalidated() {
    let a = finite(f64::MAX);
    let b = finite(f64::MAX);
    assert_eq!((a + b).undefined(), Some(Violation::Infinite));
    let a = finite(f64::MAX);
    assert_eq!((a * 2.0).undefined(), Some(Violation::Infinite));
    let zero = total(0.0);
    assert_eq!((zero / 0.0).undefined(), Some(Violation::Nan));
}

#[test]
fn error_survives_a_chain() {
    let x: Real = Undefined(Violation::Infinite);
    let y = ((-(x + 1.0) * finite(3.0) - finite(f64::NAN)) / 2.0) % finite(0.0);
    assert_eq!(y.undefined(), Some(Violation::Infinite));
    let x: Real = Undefined(Violation::Infinite);
    let z = unary(binary(x, finite(2.0), f64::hypot), f64::sqrt);
    assert_eq!(z.undefined(), Some(Violation::Infinite));
}

#[test]
fn operand_kinds_mix() {
    let c = Constrained::<f64, IsReal>::try_new(2.0).ok().unwrap();
    assert_eq!(finite_value(finite(1.0) + c), Some(3.0));
    let c = Constrained::<f64, IsReal>::try_new(2.0).ok().unwrap();
    assert_eq!(finite_value(c - finite(0.5)), Some(1.5));
    assert_eq!(finite_value(finite(1.5) * 4.0), Some(6.0));
    assert_eq!(finite_value(finite(7.0) % finite(4.0)), Some(3.0));
    assert_eq!(finite_value(finite(7.0) / 2.0), Some(3.5));
    assert_eq!(finite_value(-finite(2.0)), Some(-2.0));
    assert_eq!((finite(1.0) + f64::NAN).undefined(), Some(Violation::Nan));
    let c = Constrained::<f64, IsReal>::try_new(2.0).ok().unwrap();
    assert_eq!((c * finite(f64::INFINITY)).undefined(), Some(Violation::Infinite));
}

#[test]
fn left_error_wins_over_right_error() {
    let x: Real = Undefined(Violation::Infinite);
    let y: Real = Undefined(Violation::Nan);
    assert_eq!((x + y).undefined(), Some(Violation::Infinite));
    let x: Real = Undefined(Violation::Nan);
    let y: Real = Undefined(Violation::Infinite);
    assert_eq!((x * y).undefined(), Some(Violation::Nan));
    let c = Constrained::<f64, IsReal>::try_new(1.0).ok().unwrap();
    let y: Real = Undefined(Violation::Nan);
    assert_eq!((c - y).undefined(), Some(Violation::Nan));
}

#[test]
fn primitive_functions_are_revalidated() {
    assert_eq!(unary(total(-1.0), f64::sqrt).undefined(), Some(Violation::Nan));
    assert_eq!(total_value(unary(total(9.0), f64::sqrt)), Some(3.0));
    assert_eq!(total_value(binary(total(3.0), total(4.0), f64::hypot)), Some(5.0));
    assert_eq!(binary(finite(10.0), finite(400.0), f64::powf).undefined(), Some(Violation::Infinite));
}

#[test]
fn integer_subtraction_is_revalidated() {
    let a: Count = Constrained::new(3);
    let b: Count = Constrained::new(5);
    assert_eq!((a - b).undefined(), Some(-2));
    let a: Count = Constrained::new(5);
    let b: Count = Constrained::new(3);
    assert_eq!((a - b).defined().map(|c| c.into_inner()), Some(2));
    let a: Count = Constrained::new(7);
    assert_eq!((a % 4).defined().map(|c| c.into_inner()), Some(3));
    let a: Count = Constrained::new(7);
    assert_eq!((a / -7).undefined(), Some(-7));
    let a: Count = Constrained::new(0);
    assert_eq!((a - 1).undefined(), Some(-1));
}

#[test]
fn conversions_into_and_out_of_expressions() {
    let x: Real = Expression::from(2.5);
    assert_eq!(finite_value(x), Some(2.5));
    let y: Real = Expression::from(f64::NAN);
    assert_eq!(y.undefined(), Some(Violation::Nan));
    let c = Constrained::<f64, IsReal>::try_new(4.0).ok().unwrap();
    let z: Real = Expression::from(c);
    assert_eq!(finite_value(z), Some(4.0));
    let back = Constrained::<f64, IsReal>::try_from(finite(6.0)).ok().unwrap();
    assert_eq!(back.into_inner(), 6.0);
    let failed = Constrained::<f64, IsReal>::try_from(finite(f64::INFINITY));
    assert_eq!(failed.err(), Some(Violation::Infinite));
    let r: Result<Constrained<f64, IsReal>, Violation> = Result::from(finite(f64::NAN));
    assert_eq!(r.err(), Some(Violation::Nan));
}

#[test]
fn constrained_values_clone() {
    let c = Constrained::<f64, IsReal>::try_new(1.25).ok().unwrap();
    let d = c.clone();
    assert_eq!(d.into_inner(), 1.25);
    assert_eq!(c.into_inner(), 1.25);
}
