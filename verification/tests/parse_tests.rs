use frame_rev::parse::parse_positive_int;
use frame_rev::parse::PosIntError;

#[test]
fn parses_plain_numerals() {
    assert_eq!(parse_positive_int("7"), Ok(7));
    assert_eq!(parse_positive_int("1"), Ok(1));
    assert_eq!(parse_positive_int("32"), Ok(32));
    assert_eq!(parse_positive_int("007"), Ok(7));
    assert_eq!(parse_positive_int("4294967295"), Ok(u32::MAX));
}

#[test]
fn parses_leading_plus_sign() {
    assert_eq!(parse_positive_int("+42"), Ok(42));
    assert_eq!(parse_positive_int("+0"), Err(PosIntError::ZeroError));
}

#[test]
fn rejects_zero() {
    assert_eq!(parse_positive_int("0"), Err(PosIntError::ZeroError));
    assert_eq!(parse_positive_int("000"), Err(PosIntError::ZeroError));
}

#[test]
fn rejects_non_numerals() {
    assert_eq!(parse_positive_int(""), Err(PosIntError::ParseError));
    assert_eq!(parse_positive_int("+"), Err(PosIntError::ParseError));
    assert_eq!(parse_positive_int("abc"), Err(PosIntError::ParseError));
    assert_eq!(parse_positive_int("-1"), Err(PosIntError::ParseError));
    assert_eq!(parse_positive_int("12x"), Err(PosIntError::ParseError));
    assert_eq!(parse_positive_int(" 7"), Err(PosIntError::ParseError));
    assert_eq!(parse_positive_int("7 "), Err(PosIntError::ParseError));
    assert_eq!(parse_positive_int("++1"), Err(PosIntError::ParseError));
}

#[test]
fn rejects_values_above_u32_max() {
    assert_eq!(parse_positive_int("4294967296"), Err(PosIntError::ParseError));
    assert_eq!(parse_positive_int("99999999999999999999"), Err(PosIntError::ParseError));
}

#[test]
fn error_messages() {
    assert_eq!(PosIntError::ZeroError.message(), "Integer cannot be zero");
    assert_eq!(PosIntError::ParseError.message(), "invalid digit found in string");
}
