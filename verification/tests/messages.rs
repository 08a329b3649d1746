use hyperliquid::errors::{
    allowed_in_coin, validate_coin_symbol, validate_ethereum_address, validate_interval,
    validate_time_range, HyperLiquidError,
};

fn address_message(address: &str) -> String {
    match validate_ethereum_address(address) {
        Err(HyperLiquidError::InvalidAddress(text)) => text,
        other => panic!("expected an address complaint, got {:?}", other),
    }
}

fn coin_message(coin: &str) -> String {
    match validate_coin_symbol(coin) {
        Err(HyperLiquidError::InvalidCoin(text)) => text,
        other => panic!("expected a coin complaint, got {:?}", other),
    }
}

#[test]
fn address_without_prefix_is_told_so() {
    assert_eq!(
        address_message("1234567890123456789012345678901234567890"),
        "Invalid Ethereum address '1234567890123456789012345678901234567890': must start with '0x'"
    );
    assert_eq!(address_message(""), "Invalid Ethereum address '': must start with '0x'");
    assert_eq!(address_message("0"), "Invalid Ethereum address '0': must start with '0x'");
    // The prefix is case sensitive, and it comes before the length.
    assert_eq!(
        address_message("0X1234567890123456789012345678901234567890"),
        "Invalid Ethereum address '0X1234567890123456789012345678901234567890': must start with '0x'"
    );
}

#[test]
fn address_of_wrong_length_is_told_its_length() {
    assert_eq!(
        address_message("0x123"),
        "Invalid Ethereum address '0x123': must be 42 characters long, got 5 characters"
    );
    assert_eq!(
        address_message("0x12345678901234567890123456789012345678901"),
        "Invalid Ethereum address '0x12345678901234567890123456789012345678901': must be 42 characters long, got 43 characters"
    );
    assert_eq!(
        address_message("0x"),
        "Invalid Ethereum address '0x': must be 42 characters long, got 2 characters"
    );
}

#[test]
fn address_with_other_characters_is_told_so() {
    assert_eq!(
        address_message("0x123456789012345678901234567890123456789G"),
        "Invalid Ethereum address '0x123456789012345678901234567890123456789G': contains non-hexadecimal characters"
    );
    assert_eq!(
        address_message("0x12345678901234567890 234567890123456789a"),
        "Invalid Ethereum address '0x12345678901234567890 234567890123456789a': contains non-hexadecimal characters"
    );
}

#[test]
fn address_length_counts_bytes() {
    // Twenty letters of two bytes each after the prefix: 42 bytes, 22 characters.
    let address = format!("0x{}", "é".repeat(20));
    assert_eq!(address.len(), 42);
    assert_eq!(
        address_message(&address),
        format!("Invalid Ethereum address '{}': contains non-hexadecimal characters", address)
    );
    // Forty letters of two bytes each: 82 bytes.
    let address = format!("0x{}", "é".repeat(40));
    assert_eq!(
        address_message(&address),
        format!(
            "Invalid Ethereum address '{}': must be 42 characters long, got 82 characters",
            address
        )
    );
}

#[test]
fn every_hex_digit_is_accepted() {
    assert!(validate_ethereum_address("0x0123456789abcdefABCDEF0123456789abcdefAB").is_ok());
    for bad in ["g", "G", "/", ":", "@", "`", "x", " "] {
        let address = format!("0x{}{}", "0".repeat(39), bad);
        assert!(validate_ethereum_address(&address).is_err(), "accepted {}", address);
    }
}

#[test]
fn coin_complaints_name_the_rule() {
    assert_eq!(coin_message(""), "Coin symbol cannot be empty");
    assert_eq!(
        coin_message("VERYLONGSYMBOL"),
        "Invalid coin symbol 'VERYLONGSYMBOL': too long (max 10 characters, got 14)"
    );
    assert_eq!(
        coin_message("BTC@USD"),
        "Invalid coin symbol 'BTC@USD': contains invalid characters (only alphanumeric, '-', and '_' allowed)"
    );
    assert_eq!(
        coin_message("BTC USD"),
        "Invalid coin symbol 'BTC USD': contains invalid characters (only alphanumeric, '-', and '_' allowed)"
    );
    // Too long comes before the characters.
    assert_eq!(
        coin_message("BTC@USD@ETH"),
        "Invalid coin symbol 'BTC@USD@ETH': too long (max 10 characters, got 11)"
    );
}

#[test]
fn coin_symbols_at_the_limits() {
    assert!(validate_coin_symbol("A").is_ok());
    assert!(validate_coin_symbol("ABCDEFGHIJ").is_ok());
    assert!(validate_coin_symbol("ABCDEFGHIJK").is_err());
    assert!(validate_coin_symbol("a-b_c0").is_ok());
    assert!(validate_coin_symbol("-").is_ok());
    assert!(validate_coin_symbol("_").is_ok());
}

#[test]
fn coin_characters() {
    assert!(allowed_in_coin('a', true));
    assert!(allowed_in_coin('-', false));
    assert!(allowed_in_coin('_', false));
    assert!(!allowed_in_coin('@', false));
    assert!(!allowed_in_coin(' ', false));
}

#[test]
fn coin_symbols_beyond_ascii() {
    // Letters and digits of other scripts count as alphanumeric.
    assert!(validate_coin_symbol("é").is_ok());
    assert!(validate_coin_symbol("京").is_ok());
    assert!(validate_coin_symbol("٣").is_ok());
    // Symbols do not.
    assert!(validate_coin_symbol("€").is_err());
    assert!(validate_coin_symbol("💝").is_err());
    // The limit is ten bytes: five letters of two bytes pass, six do not.
    assert!(validate_coin_symbol("ééééé").is_ok());
    assert_eq!(
        coin_message("éééééé"),
        "Invalid coin symbol 'éééééé': too long (max 10 characters, got 12)"
    );
}

#[test]
fn interval_complaint_lists_the_intervals() {
    match validate_interval("2m") {
        Err(HyperLiquidError::InvalidInput(text)) => assert_eq!(
            text,
            "Invalid interval '2m'. Valid intervals are: 1m, 3m, 5m, 15m, 30m, 1h, 2h, 4h, 6h, 8h, 12h, 1d, 3d, 1w, 1M"
        ),
        other => panic!("expected an input complaint, got {:?}", other),
    }
    // The month and the minute differ by case only.
    assert!(validate_interval("1M").is_ok());
    assert!(validate_interval("1m").is_ok());
    assert!(validate_interval("1H").is_err());
    assert!(validate_interval("1m ").is_err());
}

#[test]
fn time_range_error_carries_both_bounds() {
    match validate_time_range(200, 100) {
        Err(HyperLiquidError::InvalidTimeRange { start, end }) => {
            assert_eq!(start, 200);
            assert_eq!(end, 100);
        },
        other => panic!("expected a time range error, got {:?}", other),
    }
    match validate_time_range(7, 7) {
        Err(HyperLiquidError::InvalidTimeRange { start, end }) => {
            assert_eq!((start, end), (7, 7));
        },
        other => panic!("expected a time range error, got {:?}", other),
    }
    assert!(validate_time_range(u64::MAX - 1, u64::MAX).is_ok());
}

#[test]
fn error_messages_are_exact() {
    assert_eq!(
        HyperLiquidError::InvalidInput("bad".to_string()).to_string(),
        "Invalid input: bad"
    );
    assert_eq!(
        HyperLiquidError::ApiError { status: 404, message: "missing".to_string() }.to_string(),
        "API error: 404 - missing"
    );
    assert_eq!(
        HyperLiquidError::InvalidAddress("test".to_string()).to_string(),
        "Invalid Ethereum address: test"
    );
    assert_eq!(
        HyperLiquidError::InvalidCoin("test".to_string()).to_string(),
        "Invalid coin symbol: test"
    );
    assert_eq!(
        HyperLiquidError::InvalidTimeRange { start: 100, end: 50 }.to_string(),
        "Invalid time range: start_time (100) must be less than end_time (50)"
    );
    assert_eq!(HyperLiquidError::RateLimitExceeded.to_string(), "Rate limit exceeded");
    assert_eq!(HyperLiquidError::Timeout.to_string(), "Timeout occurred");
}

#[test]
fn wrapped_errors_show_their_source() {
    let source = serde_json::from_str::<serde_json::Value>("{ not json }").unwrap_err();
    let expected = format!("Serialization error: {}", source);
    let source = serde_json::from_str::<serde_json::Value>("{ not json }").unwrap_err();
    let error = HyperLiquidError::from(source);
    assert!(matches!(error, HyperLiquidError::SerializationError(_)));
    assert_eq!(error.to_string(), expected);
    assert!(error.to_string().len() > "Serialization error: ".len());

    let source = reqwest::Client::new().get("not a url").build().unwrap_err();
    let expected = format!("HTTP request failed: {}", source);
    let source = reqwest::Client::new().get("not a url").build().unwrap_err();
    let error = HyperLiquidError::from(source);
    assert!(matches!(error, HyperLiquidError::HttpError(_)));
    assert_eq!(error.to_string(), expected);
    assert!(error.to_string().len() > "HTTP request failed: ".len());
}
