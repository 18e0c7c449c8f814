use instant_meet::ledger::{
    char_is_whitespace, next_ledger_text, parse_request_id, read_digit, render_decimal,
    LedgerError,
};

#[test]
fn parses_plain_number() {
    assert_eq!(parse_request_id("5"), Ok(5));
    assert_eq!(parse_request_id("0"), Ok(0));
    assert_eq!(parse_request_id("1234567890"), Ok(1234567890));
}

#[test]
fn parse_ignores_surrounding_whitespace() {
    assert_eq!(parse_request_id("5\n"), Ok(5));
    assert_eq!(parse_request_id("  42  "), Ok(42));
    assert_eq!(parse_request_id("\t\r\n7\u{000B}\u{000C}"), Ok(7));
    assert_eq!(parse_request_id("\u{2003}9\u{3000}"), Ok(9));
    assert_eq!(parse_request_id("\u{0085}\u{00A0}\u{1680}11\u{2028}\u{2029}\u{202F}\u{205F}"), Ok(11));
}

#[test]
fn parse_accepts_plus_sign_and_leading_zeros() {
    assert_eq!(parse_request_id("+7"), Ok(7));
    assert_eq!(parse_request_id("007"), Ok(7));
    assert_eq!(parse_request_id(" +0012 "), Ok(12));
}

#[test]
fn parse_rejects_empty_text() {
    assert_eq!(parse_request_id(""), Err(LedgerError::Empty));
    assert_eq!(parse_request_id("   \n\t"), Err(LedgerError::Empty));
}

#[test]
fn parse_rejects_what_is_no_digit() {
    assert_eq!(parse_request_id("+"), Err(LedgerError::InvalidDigit));
    assert_eq!(parse_request_id("-1"), Err(LedgerError::InvalidDigit));
    assert_eq!(parse_request_id("++1"), Err(LedgerError::InvalidDigit));
    assert_eq!(parse_request_id("12a"), Err(LedgerError::InvalidDigit));
    assert_eq!(parse_request_id("1 2"), Err(LedgerError::InvalidDigit));
    assert_eq!(parse_request_id("1.5"), Err(LedgerError::InvalidDigit));
    assert_eq!(parse_request_id("\u{0663}"), Err(LedgerError::InvalidDigit));
    assert_eq!(parse_request_id("5\u{200B}"), Err(LedgerError::InvalidDigit));
    assert_eq!(parse_request_id("99999999999999999999999x"), Err(LedgerError::InvalidDigit));
}

#[test]
fn parse_limits_at_u64_max() {
    assert_eq!(parse_request_id("18446744073709551615"), Ok(u64::MAX));
    assert_eq!(parse_request_id("18446744073709551616"), Err(LedgerError::Overflow));
    assert_eq!(parse_request_id("000018446744073709551615"), Ok(u64::MAX));
    assert_eq!(parse_request_id("99999999999999999999999999"), Err(LedgerError::Overflow));
}

#[test]
fn parse_succeeds_exactly_where_std_does() {
    let samples = [
        "", " ", "0", "5", "5\n", "\n5", " 5 6 ", "+5", "-5", "+", "-", "+-5", "05", "5_000",
        "0x10", "1e3", "18446744073709551615", "18446744073709551616", "184467440737095516150",
        "\u{00A0}3\u{00A0}", "\u{FEFF}3", "３", "3\u{0000}", "\u{3000}+44\u{2009}", "12345678901234567890",
        "1234567890123456789012345678901234567890", "+00000000000000000000000000000000000001",
    ];
    for text in samples {
        assert_eq!(parse_request_id(text).ok(), text.trim().parse::<u64>().ok(), "{:?}", text);
    }
}

#[test]
fn whitespace_is_what_std_calls_whitespace() {
    for code in 0u32..=0x10FFFF {
        if let Some(c) = char::from_u32(code) {
            assert_eq!(char_is_whitespace(c), c.is_whitespace(), "U+{:04X}", code);
        }
    }
}

#[test]
fn reads_digits_only() {
    assert_eq!(read_digit('0'), Some(0));
    assert_eq!(read_digit('7'), Some(7));
    assert_eq!(read_digit('9'), Some(9));
    assert_eq!(read_digit('/'), None);
    assert_eq!(read_digit(':'), None);
    assert_eq!(read_digit('a'), None);
    assert_eq!(read_digit('\u{0663}'), None);
}

#[test]
fn renders_each_digit() {
    let expected = ["0", "1", "2", "3", "4", "5", "6", "7", "8", "9"];
    for d in 0u128..10 {
        assert_eq!(render_decimal(d), expected[d as usize]);
        assert_eq!(render_decimal(10 + d), format!("1{}", expected[d as usize]));
    }
}

#[test]
fn renders_decimal() {
    assert_eq!(render_decimal(0), "0");
    assert_eq!(render_decimal(9), "9");
    assert_eq!(render_decimal(10), "10");
    assert_eq!(render_decimal(1203), "1203");
    assert_eq!(render_decimal(u64::MAX as u128), "18446744073709551615");
    assert_eq!(render_decimal(u128::MAX), "340282366920938463463374607431768211455");
}

#[test]
fn next_ledger_text_is_the_successor() {
    assert_eq!(next_ledger_text(5), "6");
    assert_eq!(next_ledger_text(0), "1");
    assert_eq!(next_ledger_text(9), "10");
    assert_eq!(next_ledger_text(999), "1000");
    assert_eq!(next_ledger_text(u64::MAX - 1), "18446744073709551615");
}

#[test]
fn successor_of_the_largest_identifier_is_written_but_not_read_back() {
    let text = next_ledger_text(u64::MAX);
    assert_eq!(text, "18446744073709551616");
    assert_eq!(parse_request_id(&text), Err(LedgerError::Overflow));
}

#[test]
fn what_is_rendered_is_read_back() {
    for n in [0u64, 1, 9, 10, 11, 99, 100, 12345, u32::MAX as u64, u64::MAX - 1, u64::MAX] {
        assert_eq!(parse_request_id(&render_decimal(n as u128)), Ok(n));
    }
    for n in [0u64, 5, 41, 1u64 << 40, u64::MAX - 1] {
        assert_eq!(parse_request_id(&next_ledger_text(n)), Ok(n + 1));
    }
}
