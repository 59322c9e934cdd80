use pong::fixed::{Fixed, LIMIT, ONE};
use pong::vect::Vect;

#[test]
fn one_pixel_is_two_to_the_24_units() {
    assert_eq!(ONE, 1 << 24);
    assert_eq!(Fixed::from_int(1).raw(), ONE);
}

#[test]
fn from_int_scales_whole_pixels() {
    assert_eq!(Fixed::from_int(5).raw(), 83_886_080);
    assert_eq!(Fixed::from_int(-400).raw(), -6_710_886_400);
    assert_eq!(Fixed::from_int(0).raw(), 0);
    assert_eq!(Fixed::from_int(i32::MAX).raw(), i32::MAX as i64 * ONE);
    assert_eq!(Fixed::from_int(i32::MIN).raw(), i32::MIN as i64 * ONE);
}

#[test]
fn from_raw_keeps_values_within_the_limit() {
    assert_eq!(Fixed::from_raw(123).raw(), 123);
    assert_eq!(Fixed::from_raw(-123).raw(), -123);
    assert_eq!(Fixed::from_raw(LIMIT).raw(), LIMIT);
    assert_eq!(Fixed::from_raw(-LIMIT).raw(), -LIMIT);
}

#[test]
fn from_raw_stops_at_the_limit() {
    assert_eq!(Fixed::from_raw(LIMIT + 1).raw(), LIMIT);
    assert_eq!(Fixed::from_raw(-LIMIT - 1).raw(), -LIMIT);
    assert_eq!(Fixed::from_raw(i64::MAX).raw(), LIMIT);
    assert_eq!(Fixed::from_raw(i64::MIN).raw(), -LIMIT);
}

#[test]
fn sum_and_difference_are_exact_within_the_limit() {
    let a = Fixed::from_int(2);
    let b = Fixed::from_int(3);
    assert_eq!(a + b, Fixed::from_int(5));
    assert_eq!(a - b, Fixed::from_int(-1));
    assert_eq!((Fixed::from_raw(7) + Fixed::from_raw(-9)).raw(), -2);
}

#[test]
fn sum_and_difference_stop_at_the_limit() {
    let top = Fixed::from_raw(LIMIT);
    let bottom = Fixed::from_raw(-LIMIT);
    assert_eq!((top + Fixed::from_raw(1)).raw(), LIMIT);
    assert_eq!((top + top).raw(), LIMIT);
    assert_eq!((bottom - Fixed::from_raw(1)).raw(), -LIMIT);
    assert_eq!((bottom + bottom).raw(), -LIMIT);
    assert_eq!((bottom - top).raw(), -LIMIT);
    assert_eq!((top - bottom).raw(), LIMIT);
    assert_eq!((top + bottom).raw(), 0);
}

#[test]
fn negation_is_exact_everywhere() {
    assert_eq!((-Fixed::from_int(3)).raw(), -3 * ONE);
    assert_eq!((-Fixed::from_raw(0)).raw(), 0);
    assert_eq!((-Fixed::from_raw(LIMIT)).raw(), -LIMIT);
    assert_eq!((-Fixed::from_raw(-LIMIT)).raw(), LIMIT);
    assert_eq!((-Fixed::from_raw(i64::MIN)).raw(), LIMIT);
}

#[test]
fn half_rounds_toward_zero() {
    assert_eq!(Fixed::from_int(800).half(), Fixed::from_int(400));
    assert_eq!(Fixed::from_raw(7).half().raw(), 3);
    assert_eq!(Fixed::from_raw(-7).half().raw(), -3);
    assert_eq!(Fixed::from_raw(1).half().raw(), 0);
    assert_eq!(Fixed::from_raw(-1).half().raw(), 0);
    assert_eq!(Fixed::from_int(3).half().raw(), ONE + ONE / 2);
}

#[test]
fn vectors_add_component_by_component() {
    let a = Vect::from_ints(1, 2);
    let b = Vect::from_ints(10, -20);
    assert_eq!(a + b, Vect::from_ints(11, -18));
    assert_eq!(b + a, Vect::from_ints(11, -18));
}

#[test]
fn vectors_subtract_component_by_component() {
    let a = Vect::from_ints(1, 2);
    let b = Vect::from_ints(10, -20);
    assert_eq!(a - b, Vect::from_ints(-9, 22));
    assert_eq!(b - a, Vect::from_ints(9, -22));
}

#[test]
fn vector_components_stop_at_the_limit_separately() {
    let a = Vect(Fixed::from_raw(LIMIT), Fixed::from_int(1));
    let b = Vect(Fixed::from_int(1), Fixed::from_int(1));
    assert_eq!(a + b, Vect(Fixed::from_raw(LIMIT), Fixed::from_int(2)));
    let c = Vect(Fixed::from_int(0), Fixed::from_raw(-LIMIT));
    assert_eq!(c - b, Vect(Fixed::from_int(-1), Fixed::from_raw(-LIMIT)));
}

#[test]
fn from_ints_builds_both_components() {
    let v = Vect::from_ints(-400, 7);
    assert_eq!(v.0, Fixed::from_int(-400));
    assert_eq!(v.1, Fixed::from_int(7));
}
