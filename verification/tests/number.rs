use deepstate_mm::number::{append_decimal, parse_unsigned, NumberError};

fn decimal(n: u128) -> String {
    let mut text = String::new();
    append_decimal(&mut text, n);
    text
}

#[test]
fn numbers_are_written_in_decimal() {
    assert_eq!(decimal(0), "0");
    assert_eq!(decimal(9), "9");
    assert_eq!(decimal(10), "10");
    assert_eq!(decimal(1_000_000_000_000_000_000), "1000000000000000000");
    assert_eq!(decimal(u128::MAX), u128::MAX.to_string());
    let mut text = String::from("n=");
    append_decimal(&mut text, 42);
    assert_eq!(text, "n=42");
}

#[test]
fn written_numbers_read_back() {
    for n in [0, 7, 10, 4663, u64::MAX as u128, u128::MAX] {
        assert_eq!(parse_unsigned(&decimal(n), u128::MAX), Ok(n));
    }
}

#[test]
fn numbers_read_as_the_standard_library_reads_them() {
    let texts = [
        "", "+", "-", "0", "+5", "-5", "007", " 5", "5 ", "1_000", "12x", "x12", "++1", "18446744073709551615",
        "18446744073709551616", "99999999999999999999x", "x99999999999999999999", "\u{0663}", "1\u{e9}",
    ];
    for text in texts {
        let ours = parse_unsigned(text, u64::MAX as u128);
        match text.parse::<u64>() {
            Ok(n) => assert_eq!(ours, Ok(n as u128), "{text}"),
            Err(error) => assert_eq!(ours.unwrap_err().message(), error.to_string(), "{text}"),
        }
    }
}

#[test]
fn each_reading_error_has_an_input() {
    assert_eq!(parse_unsigned("", 10), Err(NumberError::Empty));
    assert_eq!(parse_unsigned("+", 10), Err(NumberError::InvalidDigit));
    assert_eq!(parse_unsigned("1a", 10), Err(NumberError::InvalidDigit));
    assert_eq!(parse_unsigned("11", 10), Err(NumberError::TooLarge));
    assert_eq!(parse_unsigned("10", 10), Ok(10));
    assert_eq!(parse_unsigned("340282366920938463463374607431768211456", u128::MAX), Err(NumberError::TooLarge));
}
