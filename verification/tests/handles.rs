use winctl::{check_handle, to_i64, WmError};

#[test]
fn parses_plain_decimal() {
    assert_eq!(to_i64("42"), Ok(42));
    assert_eq!(to_i64("0"), Ok(0));
    assert_eq!(to_i64("0042"), Ok(42));
}

#[test]
fn parses_signed_decimal() {
    assert_eq!(to_i64("-7"), Ok(-7));
    assert_eq!(to_i64("+5"), Ok(5));
    assert_eq!(to_i64("-0"), Ok(0));
}

#[test]
fn parses_the_64_bit_extremes() {
    assert_eq!(to_i64("9223372036854775807"), Ok(i64::MAX));
    assert_eq!(to_i64("-9223372036854775808"), Ok(i64::MIN));
}

#[test]
fn rejects_values_out_of_64_bit_range() {
    assert_eq!(to_i64("9223372036854775808"), Err(WmError::InvalidArgument));
    assert_eq!(to_i64("-9223372036854775809"), Err(WmError::InvalidArgument));
    assert_eq!(to_i64("99999999999999999999999"), Err(WmError::InvalidArgument));
}

#[test]
fn rejects_malformed_input() {
    assert_eq!(to_i64(""), Err(WmError::InvalidArgument));
    assert_eq!(to_i64("-"), Err(WmError::InvalidArgument));
    assert_eq!(to_i64("+"), Err(WmError::InvalidArgument));
    assert_eq!(to_i64("abc"), Err(WmError::InvalidArgument));
    assert_eq!(to_i64("12x"), Err(WmError::InvalidArgument));
    assert_eq!(to_i64("1 2"), Err(WmError::InvalidArgument));
    assert_eq!(to_i64("--4"), Err(WmError::InvalidArgument));
}

#[test]
fn agrees_with_the_standard_parser_on_samples() {
    for s in ["123", "-456", "+789", "9223372036854775807", "-9223372036854775808", "08"] {
        assert_eq!(to_i64(s).ok(), s.parse::<i64>().ok());
    }
}

#[test]
fn null_sentinel_is_the_only_invalid_handle_value() {
    assert!(!check_handle(0));
    assert!(check_handle(1));
    assert!(check_handle(-1));
    assert!(check_handle(i64::MAX));
}
