use ethereum_transfer_searcher::amount::{Amount, ParseError, MAX_MANTISSA, MAX_SCALE};
use ethereum_transfer_searcher::threshold::{threshold_from_argument, ArgumentError};

#[test]
fn parse_keeps_the_written_scale() {
    let two = Amount::parse("2.0").unwrap();
    assert_eq!(two.mantissa(), 20);
    assert_eq!(two.scale(), 1);
    let small = Amount::parse("0.000000000000000001").unwrap();
    assert_eq!(small.mantissa(), 1);
    assert_eq!(small.scale(), 18);
    let negative = Amount::parse("-3.25").unwrap();
    assert_eq!(negative.mantissa(), -325);
    assert_eq!(negative.scale(), 2);
}

#[test]
fn parse_rejects_what_is_no_number() {
    assert_eq!(Amount::parse("two"), Err(ParseError::Malformed));
    assert_eq!(Amount::parse(""), Err(ParseError::Malformed));
    assert_eq!(Amount::parse("1.2.3"), Err(ParseError::Malformed));
}

#[test]
fn order_is_numeric_across_scales() {
    let two = Amount::new(2, 0).unwrap();
    let two_point_zero = Amount::new(2000, 3).unwrap();
    let a_bit_less = Amount::new(1_999_999_999_999_999_999, 18).unwrap();
    let minus_three = Amount::new(-30, 1).unwrap();
    assert!(!two.is_less_than(&two_point_zero));
    assert!(!two_point_zero.is_less_than(&two));
    assert!(a_bit_less.is_less_than(&two));
    assert!(!two.is_less_than(&a_bit_less));
    assert!(minus_three.is_less_than(&two));
    assert!(!two.is_less_than(&minus_three));
    assert!(minus_three.is_less_than(&Amount::new(-29, 1).unwrap()));
}

#[test]
fn order_is_exact_at_the_ends_of_the_range() {
    let largest = Amount::new(MAX_MANTISSA, 0).unwrap();
    let smallest_step = Amount::new(1, MAX_SCALE).unwrap();
    let next_to_largest = Amount::new(MAX_MANTISSA - 1, 0).unwrap();
    assert!(smallest_step.is_less_than(&largest));
    assert!(!largest.is_less_than(&smallest_step));
    assert!(next_to_largest.is_less_than(&largest));
    assert!(Amount::new(0, 5).unwrap().is_less_than(&smallest_step));
    assert!(!Amount::new(0, 5).unwrap().is_less_than(&Amount::new(0, 0).unwrap()));
}

#[test]
fn normalize_strips_trailing_zeros_only() {
    let stripped = Amount::new(3100, 3).unwrap().normalize();
    assert_eq!(stripped.mantissa(), 31);
    assert_eq!(stripped.scale(), 1);
    let integer = Amount::new(2_000_000_000_000_000_000, 18).unwrap().normalize();
    assert_eq!(integer.mantissa(), 2);
    assert_eq!(integer.scale(), 0);
    let kept = Amount::new(1200, 0).unwrap().normalize();
    assert_eq!(kept.mantissa(), 1200);
    assert_eq!(kept.scale(), 0);
    let odd = Amount::new(-1205, 2).unwrap().normalize();
    assert_eq!(odd.mantissa(), -1205);
    assert_eq!(odd.scale(), 2);
    let zero = Amount::new(0, 7).unwrap().normalize();
    assert_eq!(zero.mantissa(), 0);
    assert_eq!(zero.scale(), 0);
}

#[test]
fn normalize_twice_is_normalize_once() {
    let once = Amount::new(-45_000, 4).unwrap().normalize();
    assert_eq!(once.normalize(), once);
    assert_eq!(once.mantissa(), -45);
    assert_eq!(once.scale(), 1);
}

#[test]
fn text_shows_every_decimal_place() {
    assert_eq!(Amount::new(20, 1).unwrap().to_text(), "2.0");
    assert_eq!(Amount::new(2, 0).unwrap().to_text(), "2");
    assert_eq!(Amount::new(-5, 3).unwrap().to_text(), "-0.005");
    assert_eq!(Amount::new(0, 0).unwrap().to_text(), "0");
}

#[test]
fn threshold_comes_from_the_first_argument() {
    let threshold = threshold_from_argument(Some("2.50")).unwrap();
    assert_eq!(threshold.mantissa(), 250);
    assert_eq!(threshold.scale(), 2);
}

#[test]
fn missing_argument_is_an_argument_error() {
    assert_eq!(threshold_from_argument(None), Err(ArgumentError::Missing));
}

#[test]
fn unparseable_argument_is_an_argument_error() {
    assert_eq!(
        threshold_from_argument(Some("a lot")),
        Err(ArgumentError::Invalid(ParseError::Malformed))
    );
    assert_eq!(threshold_from_argument(Some("")), Err(ArgumentError::Invalid(ParseError::Malformed)));
}

#[test]
fn from_parsed_takes_every_mantissa_and_limits_the_scale() {
    assert_eq!(Amount::from_parsed(None), Err(ParseError::Malformed));
    assert_eq!(Amount::from_parsed(Some((1, MAX_SCALE + 1))), Err(ParseError::OutOfRange));
    let wide = Amount::from_parsed(Some((MAX_MANTISSA + 1, 0))).unwrap();
    assert_eq!(wide.mantissa(), MAX_MANTISSA + 1);
    let amount = Amount::from_parsed(Some((-7, 3))).unwrap();
    assert_eq!(amount.mantissa(), -7);
    assert_eq!(amount.scale(), 3);
}

#[test]
fn new_limits_the_scale_only() {
    assert!(Amount::new(MAX_MANTISSA, MAX_SCALE).is_some());
    assert!(Amount::new(i128::MAX, MAX_SCALE).is_some());
    assert!(Amount::new(i128::MIN, 0).is_some());
    assert!(Amount::new(0, MAX_SCALE + 1).is_none());
    assert_eq!(MAX_MANTISSA, (1i128 << 96) - 1);
    let amount = Amount::new(1234, 2).unwrap();
    assert_eq!(amount.mantissa(), 1234);
    assert_eq!(amount.scale(), 2);
    assert_eq!(Amount::from_parts(1234, 2), amount);
}

#[test]
fn representable_is_ninety_six_bits_either_way() {
    assert!(Amount::new(MAX_MANTISSA, MAX_SCALE).unwrap().is_representable());
    assert!(Amount::new(-MAX_MANTISSA, 0).unwrap().is_representable());
    assert!(!Amount::new(MAX_MANTISSA + 1, 0).unwrap().is_representable());
    assert!(!Amount::new(-MAX_MANTISSA - 1, 0).unwrap().is_representable());
    assert!(Amount::parse("79228162514264337593543950335").unwrap().is_representable());
}

#[test]
fn order_is_numeric_beyond_ninety_six_bits() {
    let wide = Amount::new(MAX_MANTISSA + 1, 0).unwrap();
    let narrow = Amount::new(MAX_MANTISSA, 0).unwrap();
    let widest = Amount::new(i128::MAX, 0).unwrap();
    let lowest = Amount::new(i128::MIN, 0).unwrap();
    assert!(narrow.is_less_than(&wide));
    assert!(!wide.is_less_than(&narrow));
    assert!(!wide.is_less_than(&wide));
    assert!(wide.is_less_than(&widest));
    assert!(lowest.is_less_than(&widest));
    assert!(!widest.is_less_than(&lowest));
    assert!(lowest.is_less_than(&Amount::new(i128::MIN + 1, 0).unwrap()));
    assert!(!lowest.is_less_than(&lowest));
    assert!(Amount::new(i128::MIN, 28).unwrap().is_less_than(&Amount::new(-1, 0).unwrap()));
    assert!(Amount::new(i128::MAX, 28).unwrap().is_less_than(&Amount::new(17014118347, 0).unwrap()));
    assert!(!Amount::new(i128::MAX, 28).unwrap().is_less_than(&Amount::new(17014118346, 0).unwrap()));
}

#[test]
fn order_beyond_ninety_six_bits_is_exact_across_scales() {
    let tenfold = Amount::new((MAX_MANTISSA + 1) * 10, 1).unwrap();
    let same = Amount::new(MAX_MANTISSA + 1, 0).unwrap();
    let a_step_more = Amount::new((MAX_MANTISSA + 1) * 10 + 1, 1).unwrap();
    let a_step_less = Amount::new((MAX_MANTISSA + 1) * 10 - 1, 1).unwrap();
    assert!(!tenfold.is_less_than(&same));
    assert!(!same.is_less_than(&tenfold));
    assert!(same.is_less_than(&a_step_more));
    assert!(!a_step_more.is_less_than(&same));
    assert!(a_step_less.is_less_than(&same));
    assert!(!same.is_less_than(&a_step_less));
    let minus = Amount::new(-(MAX_MANTISSA + 1), 0).unwrap();
    let minus_a_step_more = Amount::new(-(MAX_MANTISSA + 1) * 10 - 1, 1).unwrap();
    assert!(minus_a_step_more.is_less_than(&minus));
    assert!(!minus.is_less_than(&minus_a_step_more));
    assert!(minus.is_less_than(&Amount::new(0, 5).unwrap()));
    assert!(!Amount::new(0, 5).unwrap().is_less_than(&minus));
}

#[test]
fn normalize_beyond_ninety_six_bits_strips_trailing_zeros_only() {
    let wide = Amount::new((MAX_MANTISSA + 1) * 1000, 5).unwrap().normalize();
    assert_eq!(wide.mantissa(), MAX_MANTISSA + 1);
    assert_eq!(wide.scale(), 2);
    let short = Amount::new((MAX_MANTISSA + 1) * 1000, 2).unwrap().normalize();
    assert_eq!(short.mantissa(), (MAX_MANTISSA + 1) * 10);
    assert_eq!(short.scale(), 0);
    let odd = Amount::new(i128::MAX, 9).unwrap().normalize();
    assert_eq!(odd.mantissa(), i128::MAX);
    assert_eq!(odd.scale(), 9);
    let lowest = Amount::new(i128::MIN, 9).unwrap().normalize();
    assert_eq!(lowest.mantissa(), i128::MIN);
    assert_eq!(lowest.scale(), 9);
    let negative = Amount::new(-(MAX_MANTISSA + 2) * 100, 3).unwrap().normalize();
    assert_eq!(negative.mantissa(), -(MAX_MANTISSA + 2));
    assert_eq!(negative.scale(), 1);
    assert_eq!(negative.normalize(), negative);
}

#[test]
fn text_beyond_ninety_six_bits_shows_every_decimal_place() {
    assert_eq!(Amount::new(MAX_MANTISSA + 1, 0).unwrap().to_text(), "79228162514264337593543950336");
    assert_eq!(Amount::new(-(MAX_MANTISSA + 1), 0).unwrap().to_text(), "-79228162514264337593543950336");
    assert_eq!(Amount::new(MAX_MANTISSA + 1, 28).unwrap().to_text(), "7.9228162514264337593543950336");
    assert_eq!(
        Amount::new((MAX_MANTISSA + 1) * 100, 28).unwrap().to_text(),
        "792.2816251426433759354395033600"
    );
    assert_eq!(
        Amount::new(i128::MIN, 28).unwrap().to_text(),
        "-17014118346.0469231731687303715884105728"
    );
    assert_eq!(
        Amount::new(i128::MAX, 0).unwrap().to_text(),
        "170141183460469231731687303715884105727"
    );
    assert_eq!(Amount::new(MAX_MANTISSA + 1, 0).unwrap().to_text().len(), 29);
}

#[test]
fn text_is_the_same_on_both_sides_of_ninety_six_bits() {
    assert_eq!(Amount::new(MAX_MANTISSA, 0).unwrap().to_text(), "79228162514264337593543950335");
    assert_eq!(Amount::new(MAX_MANTISSA, 28).unwrap().to_text(), "7.9228162514264337593543950335");
    assert_eq!(Amount::new(-MAX_MANTISSA, 20).unwrap().to_text(), "-792281625.14264337593543950335");
    assert_eq!(Amount::new(1, 28).unwrap().to_text(), "0.0000000000000000000000000001");
    assert_eq!(Amount::new(0, 3).unwrap().to_text(), "0.000");
    assert_eq!(Amount::new(100, 2).unwrap().to_text(), "1.00");
    assert_eq!(Amount::new(-7, 0).unwrap().to_text(), "-7");
}

#[test]
fn parse_rounds_what_ninety_six_bits_cannot_hold() {
    let rounded = Amount::parse("79228162514.264337593543950336").unwrap();
    assert!(rounded.is_representable());
    assert_eq!(rounded.mantissa(), 7922816251426433759354395034);
    assert_eq!(rounded.scale(), 17);
}
