use hyperliquid::client::HyperLiquidClient;
use hyperliquid::config::{EnvOverrides, HyperLiquidConfig};
use hyperliquid::errors::{
    validate_coin_symbol, validate_ethereum_address, validate_interval, validate_time_range,
};
use std::time::Duration;

#[test]
fn test_client_creation() {
    let client = HyperLiquidClient::new().unwrap();
    assert_eq!(client.base_url, "https://api.hyperliquid.xyz");
}

#[test]
fn test_client_with_config() {
    let config = HyperLiquidConfig::new()
        .with_base_url("https://custom.api.com")
        .with_timeout(Duration::from_secs(60))
        .with_max_retries(5);

    let client = HyperLiquidClient::with_config(config.clone()).unwrap();
    assert_eq!(client.base_url, "https://custom.api.com");
    assert_eq!(client.config.timeout, Duration::from_secs(60));
    assert_eq!(client.config.max_retries, 5);
}

#[test]
fn test_config_from_env() {
    let env = EnvOverrides {
        base_url: Some("https://test.api.com".to_string()),
        timeout_secs: Some("45".to_string()),
        max_retries: Some("2".to_string()),
        enable_compression: None,
        user_agent: None,
    };

    let config = HyperLiquidConfig::from_env_values(&env);
    assert_eq!(config.base_url, "https://test.api.com");
    assert_eq!(config.timeout, Duration::from_secs(45));
    assert_eq!(config.max_retries, 2);
}

#[test]
fn test_validate_ethereum_address() {
    // Valid addresses
    assert!(validate_ethereum_address("0x1234567890123456789012345678901234567890").is_ok());
    assert!(validate_ethereum_address("0xabcdefABCDEF1234567890123456789012345678").is_ok());

    // Invalid addresses
    assert!(validate_ethereum_address("1234567890123456789012345678901234567890").is_err()); // No 0x prefix
    assert!(validate_ethereum_address("0x123456789012345678901234567890123456789").is_err()); // Too short
    assert!(validate_ethereum_address("0x12345678901234567890123456789012345678901").is_err()); // Too long
    assert!(validate_ethereum_address("0x123456789012345678901234567890123456789G").is_err()); // Invalid hex character
    assert!(validate_ethereum_address("").is_err()); // Empty
}

#[test]
fn test_validate_coin_symbol() {
    // Valid symbols
    assert!(validate_coin_symbol("BTC").is_ok());
    assert!(validate_coin_symbol("ETH").is_ok());
    assert!(validate_coin_symbol("USDC").is_ok());
    assert!(validate_coin_symbol("SOL").is_ok());
    assert!(validate_coin_symbol("BTC-USD").is_ok());
    assert!(validate_coin_symbol("ETH_USDC").is_ok());

    // Invalid symbols
    assert!(validate_coin_symbol("").is_err()); // Empty
    assert!(validate_coin_symbol("VERYLONGSYMBOL").is_err()); // Too long
    assert!(validate_coin_symbol("BTC@USD").is_err()); // Invalid character
    assert!(validate_coin_symbol("BTC USD").is_err()); // Space
}

#[test]
fn test_validate_interval() {
    // Valid intervals
    assert!(validate_interval("1m").is_ok());
    assert!(validate_interval("5m").is_ok());
    assert!(validate_interval("1h").is_ok());
    assert!(validate_interval("1d").is_ok());
    assert!(validate_interval("1w").is_ok());
    assert!(validate_interval("1M").is_ok());

    // Invalid intervals
    assert!(validate_interval("2m").is_err()); // Not in valid list
    assert!(validate_interval("1x").is_err()); // Invalid unit
    assert!(validate_interval("").is_err()); // Empty
    assert!(validate_interval("1 m").is_err()); // Space
}

#[test]
fn test_validate_time_range() {
    // Valid ranges
    assert!(validate_time_range(1000, 2000).is_ok());
    assert!(validate_time_range(0, 1).is_ok());

    // Invalid ranges
    assert!(validate_time_range(2000, 1000).is_err()); // start >= end
    assert!(validate_time_range(1000, 1000).is_err()); // start == end
}
