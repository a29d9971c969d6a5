use voxel_picker::fraction::Fraction;
use voxel_picker::placement::smart_round;

fn q(num: i64, den: i64) -> Fraction {
    Fraction::new(num, den).unwrap()
}

#[test]
fn fraction_needs_a_positive_denominator() {
    assert!(Fraction::new(1, 0).is_none());
    assert!(Fraction::new(1, -2).is_none());
    assert!(Fraction::new(0, i64::MIN).is_none());
    let f = Fraction::new(-3, 4).unwrap();
    assert_eq!((f.num(), f.den()), (-3, 4));
}

#[test]
fn whole_number_has_denominator_one() {
    let f = Fraction::from_int(-7);
    assert_eq!((f.num(), f.den()), (-7, 1));
}

#[test]
fn fractions_compare_by_value() {
    assert!(q(9, 2).equals(&q(45_000, 10_000)));
    assert!(!q(9, 2).equals(&q(45_001, 10_000)));
    assert!(q(1, 3).lt(&q(1, 2)));
    assert!(!q(1, 2).lt(&q(1, 3)));
    assert!(!q(2, 4).lt(&q(1, 2)));
    assert!(q(2, 4).le(&q(1, 2)));
    assert!(q(-1, 2).lt(&q(-1, 3)));
    assert!(q(-1, 2).le(&q(0, 5)));
    assert!(!q(1, 1_000_000).le(&q(0, 1)));
}

#[test]
fn fractions_compare_at_the_ends_of_the_range() {
    assert!(q(i64::MIN, 1).lt(&q(i64::MAX, 1)));
    assert!(q(i64::MAX, i64::MAX).equals(&q(1, 1)));
    assert!(q(i64::MAX - 1, i64::MAX).lt(&q(1, 1)));
    assert!(q(i64::MIN, i64::MAX).lt(&q(-1, 1)));
    assert!(q(1, i64::MAX).lt(&q(1, i64::MAX - 1)));
}

#[test]
fn sign_tests_look_at_the_numerator() {
    assert!(q(-1, 5).is_negative());
    assert!(!q(0, 5).is_negative());
    assert!(!q(0, 5).is_positive());
    assert!(q(1, 5).is_positive());
}

#[test]
fn smart_round_keeps_whole_numbers() {
    assert_eq!(smart_round(q(3, 1)), 3);
    assert_eq!(smart_round(q(0, 7)), 0);
    assert_eq!(smart_round(q(-4, 2)), -2);
    assert_eq!(smart_round(q(30_000, 10_000)), 3);
}

#[test]
fn smart_round_rounds_fractions_up() {
    assert_eq!(smart_round(q(7, 2)), 4);
    assert_eq!(smart_round(q(1, 10_000)), 1);
    assert_eq!(smart_round(q(30_001, 10_000)), 4);
    assert_eq!(smart_round(q(-7, 2)), -3);
    assert_eq!(smart_round(q(-1, 3)), 0);
    assert_eq!(smart_round(q(-9_999, 10_000)), 0);
    assert_eq!(smart_round(q(-10_001, 10_000)), -1);
}

#[test]
fn smart_round_at_the_ends_of_the_range() {
    assert_eq!(smart_round(q(i64::MAX, 1)), i64::MAX);
    assert_eq!(smart_round(q(i64::MIN, 1)), i64::MIN);
    assert_eq!(smart_round(q(i64::MAX, 2)), i64::MAX / 2 + 1);
    assert_eq!(smart_round(q(i64::MIN, i64::MAX)), -1);
    assert_eq!(smart_round(q(i64::MAX, i64::MAX)), 1);
    assert_eq!(smart_round(q(1, i64::MAX)), 1);
}
