use ocw_demo::convert::{parse_scaled_price, ConversionError};

fn parse(text: &[u8], precision: u8) -> Result<u64, ConversionError> {
    parse_scaled_price(&text.to_vec(), precision)
}

#[test]
fn price_scaling_of_example_quote() {
    // Precision 2 on "6.789": round(6.789 * 100) = 679.
    assert_eq!(parse(b"6.789", 2), Ok(679));
}

#[test]
fn scaling_rounds_half_up_at_the_boundary() {
    assert_eq!(parse(b"1.005", 2), Ok(101));
    assert_eq!(parse(b"1.004", 2), Ok(100));
    assert_eq!(parse(b"6.789", 0), Ok(7));
    assert_eq!(parse(b"6.4", 0), Ok(6));
}

#[test]
fn scaling_pads_missing_fractional_digits() {
    assert_eq!(parse(b"5", 3), Ok(5000));
    assert_eq!(parse(b"5.1", 3), Ok(5100));
    assert_eq!(parse(b"0.5", 0), Ok(1));
    assert_eq!(parse(b"0", 5), Ok(0));
}

#[test]
fn scaling_truncates_on_overflow() {
    // u64::MAX itself still fits ...
    assert_eq!(parse(b"18446744073709551615", 0), Ok(u64::MAX));
    // ... anything beyond truncates to the price maximum.
    assert_eq!(parse(b"18446744073709551616", 0), Ok(u64::MAX));
    assert_eq!(parse(b"18446744073709551615.9", 0), Ok(u64::MAX));
    assert_eq!(parse(b"99999999999999999999999999", 5), Ok(u64::MAX));
}

#[test]
fn non_numeric_text_is_a_parse_error() {
    assert_eq!(parse(b"abc", 2), Err(ConversionError::ParsingToF64Error));
    assert_eq!(parse(b"", 2), Err(ConversionError::ParsingToF64Error));
    assert_eq!(parse(b"6.", 2), Err(ConversionError::ParsingToF64Error));
    assert_eq!(parse(b".5", 2), Err(ConversionError::ParsingToF64Error));
    assert_eq!(parse(b"1.2.3", 2), Err(ConversionError::ParsingToF64Error));
    assert_eq!(parse(b"-1", 2), Err(ConversionError::ParsingToF64Error));
    assert_eq!(parse(b"1,5", 2), Err(ConversionError::ParsingToF64Error));
}

#[test]
fn invalid_utf8_is_a_string_conversion_error() {
    assert_eq!(
        parse(&[0xff, 0xfe], 2),
        Err(ConversionError::ConvertToStringError)
    );
    assert_eq!(
        parse(&[b'6', 0x80], 2),
        Err(ConversionError::ConvertToStringError)
    );
}

#[test]
fn valid_utf8_non_ascii_is_a_parse_error() {
    // A fullwidth digit is valid UTF-8 but not an accepted decimal.
    assert_eq!(
        parse("６".as_bytes(), 2),
        Err(ConversionError::ParsingToF64Error)
    );
}
