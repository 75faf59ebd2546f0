use catalyst::parse::{parse_bool, parse_ipv4, parse_u128, parse_u16, parse_u64, str_equal, IntErrorKind};

#[test]
fn u64_values() {
    assert_eq!(parse_u64("0"), Ok(0));
    assert_eq!(parse_u64("12"), Ok(12));
    assert_eq!(parse_u64("+7"), Ok(7));
    assert_eq!(parse_u64("007"), Ok(7));
    assert_eq!(parse_u64("18446744073709551615"), Ok(u64::MAX));
}

#[test]
fn u64_errors() {
    assert_eq!(parse_u64(""), Err(IntErrorKind::Empty));
    assert_eq!(parse_u64("+"), Err(IntErrorKind::InvalidDigit));
    assert_eq!(parse_u64("-"), Err(IntErrorKind::InvalidDigit));
    assert_eq!(parse_u64("-1"), Err(IntErrorKind::InvalidDigit));
    assert_eq!(parse_u64(" 1"), Err(IntErrorKind::InvalidDigit));
    assert_eq!(parse_u64("1x"), Err(IntErrorKind::InvalidDigit));
    assert_eq!(parse_u64("18446744073709551616"), Err(IntErrorKind::PosOverflow));
    assert_eq!(parse_u64("99999999999999999999x"), Err(IntErrorKind::PosOverflow));
}

#[test]
fn same_results_as_std() {
    for s in ["", "+", "-", "0", "42", "+42", "-42", "4 2", "65535", "65536", "x", "1e3"] {
        assert_eq!(parse_u64(s).ok(), s.parse::<u64>().ok(), "u64 {s:?}");
        assert_eq!(parse_u16(s).ok(), s.parse::<u16>().ok(), "u16 {s:?}");
        assert_eq!(parse_u128(s).ok(), s.parse::<u128>().ok(), "u128 {s:?}");
    }
}

#[test]
fn error_texts() {
    assert_eq!(IntErrorKind::Empty.message(), "".parse::<u64>().unwrap_err().to_string());
    assert_eq!(IntErrorKind::InvalidDigit.message(), "x".parse::<u64>().unwrap_err().to_string());
    assert_eq!(IntErrorKind::PosOverflow.message(), "70000".parse::<u16>().unwrap_err().to_string());
}

#[test]
fn u16_and_u128_bounds() {
    assert_eq!(parse_u16("65535"), Ok(65535));
    assert_eq!(parse_u16("65536"), Err(IntErrorKind::PosOverflow));
    assert_eq!(parse_u128("340282366920938463463374607431768211455"), Ok(u128::MAX));
    assert_eq!(parse_u128("340282366920938463463374607431768211456"), Err(IntErrorKind::PosOverflow));
}

#[test]
fn booleans() {
    assert_eq!(parse_bool("true"), Some(true));
    assert_eq!(parse_bool("false"), Some(false));
    assert_eq!(parse_bool("True"), None);
    assert_eq!(parse_bool(""), None);
    assert_eq!(parse_bool("true "), None);
}

#[test]
fn ipv4_addresses() {
    assert_eq!(parse_ipv4("0.0.0.0"), Some([0, 0, 0, 0]));
    assert_eq!(parse_ipv4("127.0.0.1"), Some([127, 0, 0, 1]));
    assert_eq!(parse_ipv4("255.255.255.255"), Some([255, 255, 255, 255]));
    assert_eq!(parse_ipv4("256.0.0.1"), None);
    assert_eq!(parse_ipv4("01.0.0.1"), None);
    assert_eq!(parse_ipv4("1.2.3"), None);
    assert_eq!(parse_ipv4("1.2.3.4.5"), None);
    assert_eq!(parse_ipv4("1..3.4"), None);
    assert_eq!(parse_ipv4("1.2.3.4 "), None);
    assert_eq!(parse_ipv4(""), None);
}

#[test]
fn ipv4_more_cases() {
    assert_eq!(parse_ipv4("10.1.2.3"), Some([10, 1, 2, 3]));
    assert_eq!(parse_ipv4("192.168.000.1"), None);
    assert_eq!(parse_ipv4("1.2.3.04"), None);
    assert_eq!(parse_ipv4("300.1.1.1"), None);
    assert_eq!(parse_ipv4("a.b.c.d"), None);
    assert_eq!(parse_ipv4("1.2.3."), None);
    assert_eq!(parse_ipv4(".1.2.3"), None);
    assert_eq!(parse_ipv4("+1.2.3.4"), None);
}

#[test]
fn string_equality() {
    assert!(str_equal("abc", "abc"));
    assert!(!str_equal("abc", "abd"));
    assert!(!str_equal("abc", "ab"));
}
