use yewcss::style::number::{natural_string, Decimal};
use yewcss::style::text::{append_spaced, same_text};

fn text(negative: bool, digits: u64, scale: u8) -> String {
    Decimal::new(negative, digits, scale).render()
}

#[test]
fn whole_numbers_have_no_point() {
    assert_eq!(text(false, 0, 0), "0");
    assert_eq!(text(false, 7, 0), "7");
    assert_eq!(text(false, 150, 0), "150");
    assert_eq!(text(false, 18_446_744_073_709_551_615, 0), "18446744073709551615");
}

#[test]
fn fractions_are_written_after_a_point() {
    assert_eq!(text(false, 5, 1), "0.5");
    assert_eq!(text(false, 25, 3), "0.025");
    assert_eq!(text(false, 12_345, 2), "123.45");
    assert_eq!(text(false, 1_001, 3), "1.001");
}

#[test]
fn trailing_zeros_of_the_fraction_are_dropped() {
    assert_eq!(text(false, 4_000, 2), "40");
    assert_eq!(text(false, 1_500, 3), "1.5");
    assert_eq!(text(false, 0, 5), "0");
    assert_eq!(text(false, 100, 1), "10");
}

#[test]
fn negative_numbers_carry_a_sign_but_zero_does_not() {
    assert_eq!(text(true, 5, 1), "-0.5");
    assert_eq!(text(true, 12, 0), "-12");
    assert_eq!(text(true, 0, 0), "0");
    assert_eq!(text(true, 0, 3), "0");
}

#[test]
fn scales_beyond_the_digits_pad_with_zeros() {
    assert_eq!(text(false, 1, 20), "0.00000000000000000001");
    assert_eq!(text(false, 18_446_744_073_709_551_615, 19), "1.8446744073709551615");
    assert_eq!(text(false, 18_446_744_073_709_551_615, 20), "0.18446744073709551615");
    assert_eq!(text(false, 18_446_744_073_709_551_615, 22), "0.0018446744073709551615");
    let tiny = text(false, 3, 255);
    assert_eq!(tiny.len(), 257);
    assert!(tiny.starts_with("0.000"));
    assert!(tiny.ends_with("0003"));
}

#[test]
fn integers_become_decimals_with_their_sign() {
    assert_eq!(Decimal::from_integer(0), Decimal::new(false, 0, 0));
    assert_eq!(Decimal::from_integer(42), Decimal::new(false, 42, 0));
    assert_eq!(Decimal::from_integer(-42), Decimal::new(true, 42, 0));
    assert_eq!(Decimal::from_integer(i64::MAX), Decimal::new(false, 9_223_372_036_854_775_807, 0));
    assert_eq!(Decimal::from_integer(i64::MIN), Decimal::new(true, 9_223_372_036_854_775_808, 0));
    assert_eq!(Decimal::from_integer(i64::MIN).render(), "-9223372036854775808");
}

#[test]
fn times_hundred_moves_the_point() {
    assert_eq!(Decimal::new(false, 4, 1).times_hundred(), Some(Decimal::new(false, 40, 0)));
    assert_eq!(Decimal::new(false, 25, 2).times_hundred(), Some(Decimal::new(false, 25, 0)));
    assert_eq!(Decimal::new(true, 125, 3).times_hundred(), Some(Decimal::new(true, 125, 1)));
    assert_eq!(Decimal::new(false, 3, 0).times_hundred(), Some(Decimal::new(false, 300, 0)));
    assert_eq!(Decimal::new(false, 125, 3).times_hundred().unwrap().render(), "12.5");
}

#[test]
fn times_hundred_has_no_result_when_the_digits_overflow() {
    assert_eq!(Decimal::new(false, u64::MAX, 0).times_hundred(), None);
    assert_eq!(Decimal::new(false, u64::MAX, 1).times_hundred(), None);
    assert_eq!(Decimal::new(false, 184_467_440_737_095_517, 0).times_hundred(), None);
    assert_eq!(
        Decimal::new(false, 184_467_440_737_095_516, 0).times_hundred(),
        Some(Decimal::new(false, 18_446_744_073_709_551_600, 0))
    );
    assert_eq!(
        Decimal::new(false, u64::MAX, 2).times_hundred(),
        Some(Decimal::new(false, u64::MAX, 0))
    );
}

#[test]
fn natural_numbers_are_written_in_decimal() {
    assert_eq!(natural_string(0), "0");
    assert_eq!(natural_string(9), "9");
    assert_eq!(natural_string(10), "10");
    assert_eq!(natural_string(255), "255");
    assert_eq!(natural_string(1_234_567_890), "1234567890");
}

#[test]
fn texts_are_compared_character_by_character() {
    assert!(same_text("margin", "margin"));
    assert!(same_text("", ""));
    assert!(!same_text("margin", "margin-top"));
    assert!(!same_text("margin", "margim"));
    assert!(!same_text("Margin", "margin"));
    assert!(same_text("größe", "größe"));
    assert!(!same_text("größe", "grösse"));
}

#[test]
fn spaced_texts_skip_what_is_empty() {
    let mut line = String::new();
    append_spaced(&mut line, "");
    assert_eq!(line, "");
    append_spaced(&mut line, "5px");
    assert_eq!(line, "5px");
    append_spaced(&mut line, "");
    assert_eq!(line, "5px");
    append_spaced(&mut line, "dotted");
    assert_eq!(line, "5px dotted");
}

#[test]
fn decimal_notation_is_read() {
    assert_eq!(Decimal::parse("0.4"), Some(Decimal::new(false, 4, 1)));
    assert_eq!(Decimal::parse("150"), Some(Decimal::new(false, 150, 0)));
    assert_eq!(Decimal::parse("-12.50"), Some(Decimal::new(true, 1250, 2)));
    assert_eq!(Decimal::parse("007"), Some(Decimal::new(false, 7, 0)));
    assert_eq!(Decimal::parse("0.025"), Some(Decimal::new(false, 25, 3)));
    assert_eq!(Decimal::parse("-0"), Some(Decimal::new(true, 0, 0)));
    assert_eq!(
        Decimal::parse("18446744073709551615"),
        Some(Decimal::new(false, u64::MAX, 0))
    );
    assert_eq!(
        Decimal::parse("1844674407370955.1615"),
        Some(Decimal::new(false, u64::MAX, 4))
    );
}

#[test]
fn what_is_no_decimal_notation_is_not_read() {
    for text in [
        "", "-", ".", "-.", ".5", "5.", "-.5", "1.2.3", "1..2", "+1", "1e3", " 1", "1 ", "1,5",
        "--1", "1-", "0x10", "NaN", "inf", "١٢", "1.５", "½",
    ] {
        assert_eq!(Decimal::parse(text), None, "{:?}", text);
    }
    assert_eq!(Decimal::parse("18446744073709551616"), None);
    assert_eq!(Decimal::parse("1844674407370955161.6"), None);
    assert_eq!(Decimal::parse("99999999999999999999999"), None);
}

#[test]
fn at_most_255_digits_follow_the_point() {
    let longest = format!("0.{}1", "0".repeat(254));
    assert_eq!(Decimal::parse(&longest), Some(Decimal::new(false, 1, 255)));
    let too_long = format!("0.{}1", "0".repeat(255));
    assert_eq!(Decimal::parse(&too_long), None);
}

#[test]
fn what_is_written_is_read_back_as_the_same_number() {
    for (negative, digits, scale) in [
        (false, 4, 1),
        (true, 125, 3),
        (false, 4000, 2),
        (false, 0, 0),
        (false, u64::MAX, 19),
        (true, 3, 40),
    ] {
        let number = Decimal::new(negative, digits, scale);
        let text = number.render();
        let back = Decimal::parse(&text).unwrap();
        assert_eq!(back.render(), text);
    }
}
