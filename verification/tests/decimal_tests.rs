use exam_grading::decimal::{Decimal, DECIMAL_LIMIT};
use exam_grading::text::{chars_of, decimal_text, find_first, find_last, text_of};

fn read(text: &str) -> Option<i128> {
    Decimal::from_decimal(text).map(|d| d.thousandths)
}

#[test]
fn whole_numerals_read_in_thousandths() {
    assert_eq!(read("0"), Some(0));
    assert_eq!(read("2"), Some(2_000));
    assert_eq!(read("20"), Some(20_000));
    assert_eq!(read("007"), Some(7_000));
}

#[test]
fn fractions_read_exactly_to_the_thousandth() {
    assert_eq!(read("2.5"), Some(2_500));
    assert_eq!(read("2.0"), Some(2_000));
    assert_eq!(read("0.125"), Some(125));
    assert_eq!(read("3.75"), Some(3_750));
    assert_eq!(read("0.001"), Some(1));
}

#[test]
fn finer_fractions_round_half_up_on_the_fourth_digit() {
    assert_eq!(read("0.0004"), Some(0));
    assert_eq!(read("0.0005"), Some(1));
    assert_eq!(read("1.23449"), Some(1_234));
    assert_eq!(read("1.2345"), Some(1_235));
    assert_eq!(read("0.9995"), Some(1_000));
    assert_eq!(read("2.29999999"), Some(2_300));
}

#[test]
fn negative_numerals_keep_their_sign() {
    assert_eq!(read("-1"), Some(-1_000));
    assert_eq!(read("-0.5"), Some(-500));
    assert_eq!(read("-0"), Some(0));
    assert_eq!(read("-0.0005"), Some(-1));
}

#[test]
fn other_texts_are_not_numerals() {
    for text in [
        "", "-", ".", "1.", ".5", "abc", "+1", " 1", "1 ", "1.2.3", "--1", "1-", "١", "e5", "1e", "1e+", "1e-",
        "1e5.0", "1e5e5", "1ee5", "1.e5", "-e5", "1e 5", "1x5", "0x10", "1e+-5", "NaN", "inf",
    ] {
        assert_eq!(read(text), None, "{:?}", text);
    }
}

#[test]
fn exponents_move_the_point() {
    assert_eq!(read("1e0"), Some(1_000));
    assert_eq!(read("1e2"), Some(100_000));
    assert_eq!(read("1E2"), Some(100_000));
    assert_eq!(read("1e+2"), Some(100_000));
    assert_eq!(read("1e+02"), Some(100_000));
    assert_eq!(read("1.5e1"), Some(15_000));
    assert_eq!(read("2.5e0"), Some(2_500));
    assert_eq!(read("-2.5e+1"), Some(-25_000));
    assert_eq!(read("12345e-3"), Some(12_345));
    assert_eq!(read("12345e-5"), Some(123));
    assert_eq!(read("12355e-5"), Some(124));
    assert_eq!(read("1e-3"), Some(1));
    assert_eq!(read("5e-4"), Some(1));
    assert_eq!(read("4.999e-4"), Some(0));
    assert_eq!(read("9.9e-5"), Some(0));
    assert_eq!(read("1.5e-7"), Some(0));
    assert_eq!(read("-5e-4"), Some(-1));
    assert_eq!(read("0.00012345e4"), Some(1_235));
    assert_eq!(read("0e5"), Some(0));
    assert_eq!(read("0.000e99999999999999999999999999999999999999999999"), Some(0));
    assert_eq!(read("123e-99999999999999999999999999999999999999999999"), Some(0));
    assert_eq!(read("1e12"), Some(DECIMAL_LIMIT));
    assert_eq!(read("9.99999999999e11"), Some(999_999_999_999_000));
}

#[test]
fn numerals_beyond_the_limit_read_as_the_limit() {
    assert_eq!(DECIMAL_LIMIT, 1_000_000_000_000_000);
    assert_eq!(read("1000000000000"), Some(DECIMAL_LIMIT));
    assert_eq!(read("-1000000000000"), Some(-DECIMAL_LIMIT));
    assert_eq!(read("1000000000000.0004"), Some(DECIMAL_LIMIT));
    assert_eq!(read("999999999999.9995"), Some(DECIMAL_LIMIT));
    assert_eq!(read("999999999999.9994"), Some(DECIMAL_LIMIT - 1));
    assert_eq!(read("1000000000000.001"), Some(DECIMAL_LIMIT));
    assert_eq!(read("1000000000001"), Some(DECIMAL_LIMIT));
    assert_eq!(read("-1000000000001"), Some(-DECIMAL_LIMIT));
    assert_eq!(read("99999999999999999999999999999999999999999999999999"), Some(DECIMAL_LIMIT));
    assert_eq!(read("1e13"), Some(DECIMAL_LIMIT));
    assert_eq!(read("1e+300"), Some(DECIMAL_LIMIT));
    assert_eq!(read("-1.7976931348623157e308"), Some(-DECIMAL_LIMIT));
    assert_eq!(read("1e99999999999999999999999999999999999999999999"), Some(DECIMAL_LIMIT));
    assert_eq!(read("0.0000000000000000000000001e99999999999999999999999"), Some(DECIMAL_LIMIT));
    assert_eq!(read("18446744073709551615"), Some(DECIMAL_LIMIT));
}

#[test]
fn whole_builds_whole_numbers() {
    assert_eq!(Decimal::whole(0), Decimal::zero());
    assert_eq!(Decimal::whole(20).thousandths, 20_000);
    assert_eq!(Decimal::whole(u32::MAX).thousandths, 4_294_967_295_000);
    assert!(Decimal::whole(u32::MAX).is_in_range());
    assert!(!Decimal { thousandths: DECIMAL_LIMIT + 1 }.is_in_range());
    assert!(!Decimal { thousandths: -DECIMAL_LIMIT - 1 }.is_in_range());
    assert!(Decimal { thousandths: -DECIMAL_LIMIT }.is_in_range());
}

fn tenths(thousandths: i128) -> String {
    Decimal { thousandths }.tenths_text()
}

#[test]
fn tenths_text_has_one_digit_after_the_point() {
    assert_eq!(tenths(0), "0.0");
    assert_eq!(tenths(2_500), "2.5");
    assert_eq!(tenths(20_000), "20.0");
    assert_eq!(tenths(12_345), "12.3");
    assert_eq!(tenths(999), "1.0");
}

#[test]
fn tenths_text_rounds_half_away_from_zero() {
    assert_eq!(tenths(2_449), "2.4");
    assert_eq!(tenths(2_450), "2.5");
    assert_eq!(tenths(49), "0.0");
    assert_eq!(tenths(50), "0.1");
    assert_eq!(tenths(-49), "0.0");
    assert_eq!(tenths(-50), "-0.1");
    assert_eq!(tenths(-2_450), "-2.5");
    assert_eq!(tenths(-1_000), "-1.0");
}

#[test]
fn tenths_text_takes_the_extremes() {
    assert_eq!(tenths(i128::MAX), "170141183460469231731687303715884105.7");
    assert_eq!(tenths(i128::MIN), "-170141183460469231731687303715884105.7");
}

#[test]
fn push_tenths_appends() {
    let mut out = String::from("Score: ");
    Decimal { thousandths: 7_250 }.push_tenths(&mut out);
    assert_eq!(out, "Score: 7.3");
}

#[test]
fn decimal_text_writes_numerals() {
    assert_eq!(decimal_text(0), "0");
    assert_eq!(decimal_text(9), "9");
    assert_eq!(decimal_text(10), "10");
    assert_eq!(decimal_text(21), "21");
    assert_eq!(decimal_text(1_000_000), "1000000");
    assert_eq!(decimal_text(u128::MAX), u128::MAX.to_string());
}

#[test]
fn characters_and_searches() {
    let cs = chars_of("a{b}c}é");
    assert_eq!(cs, vec!['a', '{', 'b', '}', 'c', '}', 'é']);
    assert_eq!(find_first(&cs, '{'), 1);
    assert_eq!(find_first(&cs, 'z'), 7);
    assert_eq!(find_last(&cs, '}'), Some(5));
    assert_eq!(find_last(&cs, 'z'), None);
    assert_eq!(text_of(&cs, 1, 4), "{b}");
    assert_eq!(text_of(&cs, 6, 7), "é");
    assert_eq!(text_of(&cs, 3, 3), "");
    let none: Vec<char> = chars_of("");
    assert_eq!(find_first(&none, '{'), 0);
    assert_eq!(find_last(&none, '}'), None);
}

#[test]
fn magnitude_drops_the_sign() {
    assert_eq!(Decimal { thousandths: 0 }.magnitude(), 0);
    assert_eq!(Decimal { thousandths: 2_500 }.magnitude(), 2_500);
    assert_eq!(Decimal { thousandths: -2_500 }.magnitude(), 2_500);
    assert_eq!(Decimal { thousandths: i128::MAX }.magnitude(), i128::MAX as u128);
    assert_eq!(Decimal { thousandths: i128::MIN }.magnitude(), i128::MAX as u128 + 1);
}
