use spc_presenter::tuning::{parse_radix_from, sample_tuning_numeric_parser, ParseNumberError};

#[test]
fn tuning_numbers_in_each_notation() {
    assert_eq!(sample_tuning_numeric_parser("$1f"), Ok(31));
    assert_eq!(sample_tuning_numeric_parser("0x1F"), Ok(31));
    assert_eq!(sample_tuning_numeric_parser("0X10"), Ok(16));
    assert_eq!(sample_tuning_numeric_parser("42"), Ok(42));
    assert_eq!(sample_tuning_numeric_parser("+7"), Ok(7));
    assert_eq!(sample_tuning_numeric_parser("255"), Ok(255));
    assert_eq!(sample_tuning_numeric_parser("$ff"), Ok(255));
}

#[test]
fn tuning_number_errors() {
    assert_eq!(sample_tuning_numeric_parser("256"), Err("number too large to fit in target type".to_string()));
    assert_eq!(sample_tuning_numeric_parser("999x"), Err("number too large to fit in target type".to_string()));
    assert_eq!(sample_tuning_numeric_parser(""), Err("cannot parse integer from empty string".to_string()));
    assert_eq!(sample_tuning_numeric_parser("$"), Err("cannot parse integer from empty string".to_string()));
    assert_eq!(sample_tuning_numeric_parser("0x"), Err("cannot parse integer from empty string".to_string()));
    assert_eq!(sample_tuning_numeric_parser("1x"), Err("invalid digit found in string".to_string()));
    assert_eq!(sample_tuning_numeric_parser("-1"), Err("invalid digit found in string".to_string()));
    assert_eq!(sample_tuning_numeric_parser("+"), Err("invalid digit found in string".to_string()));
    assert_eq!(sample_tuning_numeric_parser("$1g"), Err("invalid digit found in string".to_string()));
}

#[test]
fn radix_parse_from_offset() {
    assert_eq!(parse_radix_from(b"ab12", 2, 10), Ok(12));
    assert_eq!(parse_radix_from(b"ab12", 4, 10), Err(ParseNumberError::Empty));
    assert_eq!(parse_radix_from(b"zz", 0, 36), Err(ParseNumberError::Overflow));
    assert_eq!(parse_radix_from(b"71", 0, 8), Ok(57));
}
