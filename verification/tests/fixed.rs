use rectray::fixed::{Fixed, RAW_MAX, RAW_MIN, SCALE};

#[test]
fn whole_numbers_scale_by_a_million() {
    assert_eq!(SCALE, 1_000_000);
    assert_eq!(Fixed::from_int(3).raw, 3_000_000);
    assert_eq!(Fixed::from_int(-7).raw, -7_000_000);
    assert_eq!(Fixed::zero().raw, 0);
    assert_eq!(Fixed::one().raw, 1_000_000);
    assert_eq!(Fixed::default(), Fixed::zero());
}

#[test]
fn sum_and_difference_are_exact_in_range() {
    let a = Fixed::from_raw(1_500_000);
    let b = Fixed::from_raw(-250_000);
    assert_eq!(a.plus(b), Fixed::from_raw(1_250_000));
    assert_eq!(a.minus(b), Fixed::from_raw(1_750_000));
    assert_eq!(b.negated(), Fixed::from_raw(250_000));
}

#[test]
fn sum_and_difference_saturate() {
    let top = Fixed::from_raw(RAW_MAX);
    let bottom = Fixed::from_raw(RAW_MIN);
    assert_eq!(top.plus(Fixed::one()), top);
    assert_eq!(bottom.minus(Fixed::one()), bottom);
    assert_eq!(bottom.negated(), top);
    assert_eq!(top.minus(bottom), top);
}

#[test]
fn product_rounds_toward_zero() {
    let a = Fixed::from_raw(1_500_000);
    assert_eq!(a.times(a), Fixed::from_raw(2_250_000));
    let tiny = Fixed::from_raw(1);
    let half = Fixed::from_raw(500_000);
    assert_eq!(tiny.times(half), Fixed::zero());
    assert_eq!(tiny.negated().times(half), Fixed::zero());
    assert_eq!(Fixed::from_raw(-3).times(half), Fixed::from_raw(-1));
    assert_eq!(Fixed::from_raw(3).times(half), Fixed::from_raw(1));
}

#[test]
fn product_saturates() {
    let top = Fixed::from_raw(RAW_MAX);
    assert_eq!(top.times(Fixed::from_int(2)), top);
    assert_eq!(top.times(Fixed::from_int(-2)), Fixed::from_raw(RAW_MIN));
    assert_eq!(top.times(Fixed::one()), top);
}

#[test]
fn quotient_rounds_toward_zero() {
    assert_eq!(Fixed::from_int(1).over(Fixed::from_int(3)), Fixed::from_raw(333_333));
    assert_eq!(Fixed::from_int(-1).over(Fixed::from_int(3)), Fixed::from_raw(-333_333));
    assert_eq!(Fixed::from_int(1).over(Fixed::from_int(-3)), Fixed::from_raw(-333_333));
    assert_eq!(Fixed::from_int(-1).over(Fixed::from_int(-3)), Fixed::from_raw(333_333));
    assert_eq!(Fixed::from_int(50).over(Fixed::from_int(100)), Fixed::from_raw(500_000));
}

#[test]
fn quotient_by_zero_sticks_to_a_bound() {
    let zero = Fixed::zero();
    assert_eq!(Fixed::from_int(5).over(zero), Fixed::from_raw(RAW_MAX));
    assert_eq!(Fixed::from_int(-5).over(zero), Fixed::from_raw(RAW_MIN));
    assert_eq!(zero.over(zero), zero);
}

#[test]
fn order_and_magnitude() {
    let a = Fixed::from_int(2);
    let b = Fixed::from_int(-3);
    assert!(b.below(a));
    assert!(!a.below(a));
    assert!(a.at_most(a));
    assert_eq!(a.larger(b), a);
    assert_eq!(a.smaller(b), b);
    assert_eq!(b.magnitude(), Fixed::from_int(3));
    assert_eq!(a.magnitude(), a);
    assert_eq!(Fixed::from_raw(RAW_MIN).magnitude(), Fixed::from_raw(RAW_MAX));
}
