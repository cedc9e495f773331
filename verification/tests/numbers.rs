use mutsura_api::query::{parse_i64, parse_optional_i64, IntParseError};

fn std_kind(s: &str) -> Result<i64, IntParseError> {
    match s.parse::<i64>() {
        Ok(v) => Ok(v),
        Err(e) => Err(match e.kind() {
            std::num::IntErrorKind::Empty => IntParseError::Empty,
            std::num::IntErrorKind::InvalidDigit => IntParseError::InvalidDigit,
            std::num::IntErrorKind::PosOverflow => IntParseError::PosOverflow,
            std::num::IntErrorKind::NegOverflow => IntParseError::NegOverflow,
            _ => panic!("unexpected kind"),
        }),
    }
}

#[test]
fn integers_read_as_std_reads_them() {
    for s in [
        "", "0", "30", "+7", "-7", "+", "-", "007", "-0", "12a", "a12", " 1", "1 ", "١",
        "9223372036854775807", "9223372036854775808", "-9223372036854775808",
        "-9223372036854775809", "99999999999999999999x", "-99999999999999999999x", "x9999999999999999999999",
        "++1", "+-1", "1_000", "３",
    ] {
        assert_eq!(parse_i64(s), std_kind(s), "{:?}", s);
    }
}

#[test]
fn optional_numbers() {
    assert_eq!(parse_optional_i64(&None), Ok(None));
    assert_eq!(parse_optional_i64(&Some(String::new())), Ok(None));
    assert_eq!(parse_optional_i64(&Some("30".to_string())), Ok(Some(30)));
    assert_eq!(parse_optional_i64(&Some("x".to_string())), Err(IntParseError::InvalidDigit));
    assert_eq!(IntParseError::InvalidDigit.message(), "invalid digit found in string");
    assert_eq!(
        IntParseError::PosOverflow.message(),
        "9223372036854775808".parse::<i64>().unwrap_err().to_string()
    );
    assert_eq!(
        IntParseError::NegOverflow.message(),
        "-9223372036854775809".parse::<i64>().unwrap_err().to_string()
    );
    assert_eq!(IntParseError::Empty.message(), "".parse::<i64>().unwrap_err().to_string());
    assert_eq!(IntParseError::InvalidDigit.message(), "-".parse::<i64>().unwrap_err().to_string());
}
