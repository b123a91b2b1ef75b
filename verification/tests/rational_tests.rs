use trade_engine::rational::Rational;

#[test]
fn new_and_from_int_keep_fields() {
    let r = Rational::new(-7, 2);
    assert_eq!(r.num, -7);
    assert_eq!(r.den, 2);
    let i = Rational::from_int(5);
    assert_eq!(i.num, 5);
    assert_eq!(i.den, 1);
}

#[test]
fn comparisons_are_exact_on_the_values() {
    let half = Rational::new(1, 2);
    let two_quarters = Rational::new(2, 4);
    let third = Rational::new(1, 3);
    assert!(half.at_most(&two_quarters));
    assert!(half.at_least(&two_quarters));
    assert!(half.same(&two_quarters));
    assert!(third.at_most(&half));
    assert!(!third.at_least(&half));
    assert!(!third.same(&half));
}

#[test]
fn comparisons_handle_negative_values() {
    let neg = Rational::new(-3, 2);
    let pos = Rational::new(1, 1000);
    let zero = Rational::from_int(0);
    assert!(neg.at_most(&zero));
    assert!(neg.at_most(&pos));
    assert!(pos.at_least(&neg));
    assert!(!neg.at_least(&pos));
}

#[test]
fn comparisons_survive_extreme_magnitudes() {
    let big = Rational::new(i64::MAX, 1);
    let tiny = Rational::new(1, u64::MAX);
    assert!(tiny.at_most(&big));
    assert!(big.at_least(&tiny));
    assert!(!big.at_most(&tiny));
}
