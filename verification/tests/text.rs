use hyperliquid::text::{byte_len, concat3, parse_u32, parse_u64, str_eq, u64_to_decimal};

#[test]
fn decimal_rendering() {
    assert_eq!(u64_to_decimal(0), "0");
    assert_eq!(u64_to_decimal(7), "7");
    assert_eq!(u64_to_decimal(10), "10");
    assert_eq!(u64_to_decimal(42), "42");
    assert_eq!(u64_to_decimal(1009), "1009");
    assert_eq!(u64_to_decimal(1234567890), "1234567890");
    assert_eq!(u64_to_decimal(u64::MAX), "18446744073709551615");
    for n in [0u64, 9, 10, 99, 100, 12345, 4294967295, 4294967296, u64::MAX - 1] {
        assert_eq!(u64_to_decimal(n), n.to_string());
    }
}

#[test]
fn parsing_agrees_with_the_standard_library() {
    let texts = [
        "", "+", "-", "0", "+0", "-0", "7", "007", "+42", "42+", "4 2", " 42", "42 ", "4_2",
        "0x10", "1e3", "18446744073709551615", "18446744073709551616", "99999999999999999999",
        "4294967295", "4294967296", "+4294967295", "٣", "１２", "12a", "++1", "+-1",
    ];
    for text in texts {
        assert_eq!(parse_u64(text), text.parse::<u64>().ok(), "u64 from {:?}", text);
        assert_eq!(parse_u32(text), text.parse::<u32>().ok(), "u32 from {:?}", text);
    }
}

#[test]
fn parsing_exact_values() {
    assert_eq!(parse_u64("45"), Some(45));
    assert_eq!(parse_u64("+45"), Some(45));
    assert_eq!(parse_u64("0045"), Some(45));
    assert_eq!(parse_u64("18446744073709551615"), Some(u64::MAX));
    assert_eq!(parse_u64("18446744073709551616"), None);
    assert_eq!(parse_u32("4294967295"), Some(u32::MAX));
    assert_eq!(parse_u32("4294967296"), None);
    assert_eq!(parse_u32("abc"), None);
    assert_eq!(parse_u32(""), None);
}

#[test]
fn string_comparison() {
    assert!(str_eq("", ""));
    assert!(str_eq("1m", "1m"));
    assert!(!str_eq("1m", "1M"));
    assert!(!str_eq("1m", "1m "));
    assert!(!str_eq("", "a"));
    assert!(str_eq("é京", "é京"));
    assert!(!str_eq("é", "e"));
}

#[test]
fn byte_length_and_concatenation() {
    assert_eq!(byte_len(""), 0);
    assert_eq!(byte_len("0x12"), 4);
    assert_eq!(byte_len("é"), 2);
    assert_eq!(byte_len("京"), 3);
    assert_eq!(byte_len("💝"), 4);
    assert_eq!(concat3("a", "bc", "def"), "abcdef");
    assert_eq!(concat3("", "x", ""), "x");
}

#[test]
fn parsing_reads_back_what_rendering_writes() {
    for n in [0u64, 1, 9, 10, 11, 99, 100, 101, 999, 1000, 65535, 4294967295, u64::MAX] {
        assert_eq!(parse_u64(&u64_to_decimal(n)), Some(n));
    }
    for n in [0u32, 7, 42, 1000, u32::MAX] {
        assert_eq!(parse_u32(&u64_to_decimal(n as u64)), Some(n));
    }
    assert_eq!(parse_u32(&u64_to_decimal(u32::MAX as u64 + 1)), None);
}
