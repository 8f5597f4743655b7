use jup_ag::text::{parse_u64, push_bool, push_decimal, str_eq, u64_to_string, ParseU64Error};

#[test]
fn decimal_text_of_small_and_large_numbers() {
    assert_eq!(u64_to_string(0), "0");
    assert_eq!(u64_to_string(7), "7");
    assert_eq!(u64_to_string(10), "10");
    assert_eq!(u64_to_string(1_000_000), "1000000");
    assert_eq!(u64_to_string(u64::MAX), "18446744073709551615");
}

#[test]
fn decimal_text_is_what_std_prints() {
    for n in [0u64, 1, 9, 10, 99, 100, 12345, 4_294_967_296, u64::MAX - 1] {
        assert_eq!(u64_to_string(n), format!("{}", n));
    }
}

#[test]
fn push_decimal_appends_to_what_is_there() {
    let mut out = String::from("amount=");
    push_decimal(&mut out, 250);
    assert_eq!(out, "amount=250");
    push_decimal(&mut out, 0);
    assert_eq!(out, "amount=2500");
}

#[test]
fn push_bool_appends_true_or_false() {
    let mut out = String::from("a=");
    push_bool(&mut out, true);
    out.push_str("&b=");
    push_bool(&mut out, false);
    assert_eq!(out, "a=true&b=false");
}

#[test]
fn str_eq_compares_the_text() {
    assert!(str_eq("ExactIn", "ExactIn"));
    assert!(!str_eq("ExactIn", "ExactOut"));
    assert!(!str_eq("ExactIn", "ExactI"));
    assert!(str_eq("", ""));
}

#[test]
fn parse_u64_reads_decimal() {
    assert_eq!(parse_u64("0"), Ok(0));
    assert_eq!(parse_u64("42"), Ok(42));
    assert_eq!(parse_u64("1000000"), Ok(1_000_000));
    assert_eq!(parse_u64("18446744073709551615"), Ok(u64::MAX));
}

#[test]
fn parse_u64_takes_a_plus_sign_and_leading_zeros() {
    assert_eq!(parse_u64("+42"), Ok(42));
    assert_eq!(parse_u64("007"), Ok(7));
    assert_eq!(parse_u64("+000"), Ok(0));
    assert_eq!(parse_u64("00000000000000000000000000000000018446744073709551615"), Ok(u64::MAX));
}

#[test]
fn parse_u64_rejects_the_empty_text() {
    assert_eq!(parse_u64(""), Err(ParseU64Error::Empty));
}

#[test]
fn parse_u64_rejects_what_is_no_digit() {
    assert_eq!(parse_u64("+"), Err(ParseU64Error::InvalidDigit));
    assert_eq!(parse_u64("-1"), Err(ParseU64Error::InvalidDigit));
    assert_eq!(parse_u64("12a"), Err(ParseU64Error::InvalidDigit));
    assert_eq!(parse_u64(" 12"), Err(ParseU64Error::InvalidDigit));
    assert_eq!(parse_u64("12 "), Err(ParseU64Error::InvalidDigit));
    assert_eq!(parse_u64("1_000"), Err(ParseU64Error::InvalidDigit));
    assert_eq!(parse_u64("++1"), Err(ParseU64Error::InvalidDigit));
    assert_eq!(parse_u64("1.5"), Err(ParseU64Error::InvalidDigit));
    assert_eq!(parse_u64("١٢"), Err(ParseU64Error::InvalidDigit));
    assert_eq!(parse_u64("12é"), Err(ParseU64Error::InvalidDigit));
}

#[test]
fn parse_u64_rejects_what_does_not_fit() {
    assert_eq!(parse_u64("18446744073709551616"), Err(ParseU64Error::PosOverflow));
    assert_eq!(parse_u64("99999999999999999999"), Err(ParseU64Error::PosOverflow));
    assert_eq!(parse_u64("184467440737095516150"), Err(ParseU64Error::PosOverflow));
}

#[test]
fn parse_u64_reports_what_comes_first() {
    assert_eq!(parse_u64("99999999999999999999x"), Err(ParseU64Error::PosOverflow));
    assert_eq!(parse_u64("x99999999999999999999"), Err(ParseU64Error::InvalidDigit));
    assert_eq!(parse_u64("1844674407370955161x5"), Err(ParseU64Error::InvalidDigit));
}

#[test]
fn parse_u64_agrees_with_std() {
    for text in ["", "+", "0", "+7", "-0", "007", "18446744073709551615", "18446744073709551616", "3 ", "٣"] {
        assert_eq!(parse_u64(text).ok(), text.parse::<u64>().ok());
    }
}

#[test]
fn writing_then_reading_gives_the_number_back() {
    for n in [0u64, 1, 10, 255, 65_536, 1_000_000_007, u64::MAX] {
        assert_eq!(parse_u64(&u64_to_string(n)), Ok(n));
    }
}
