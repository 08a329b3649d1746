use hyperliquid::client::HyperLiquidClient;
use hyperliquid::common::{info_url, user_request, BasicRequest, BasicUserRequest};
use hyperliquid::config::{compression_flag, EnvOverrides, HyperLiquidConfig};
use hyperliquid::errors::HyperLiquidError;
use std::time::Duration;

fn no_env() -> EnvOverrides {
    EnvOverrides {
        base_url: None,
        timeout_secs: None,
        max_retries: None,
        enable_compression: None,
        user_agent: None,
    }
}

#[test]
fn defaults() {
    let config = HyperLiquidConfig::default();
    assert_eq!(config.base_url, "https://api.hyperliquid.xyz");
    assert_eq!(config.timeout, Duration::from_secs(30));
    assert_eq!(config.max_retries, 3);
    assert!(config.enable_compression);
    assert_eq!(config.user_agent, "hyperliquid-rust-client/0.1.0");
    assert_eq!(config.pool_max_idle_per_host, 10);
    assert_eq!(config.pool_idle_timeout, Duration::from_secs(90));
    assert_eq!(config.tcp_keepalive, Duration::from_secs(60));

    let config = HyperLiquidConfig::new();
    assert_eq!(config.base_url, "https://api.hyperliquid.xyz");
    assert_eq!(config.max_retries, 3);
}

#[test]
fn builders_change_one_field_each() {
    let config = HyperLiquidConfig::new().with_base_url("https://custom.api.com");
    assert_eq!(config.base_url, "https://custom.api.com");
    assert_eq!(config.max_retries, 3);
    assert_eq!(config.timeout, Duration::from_secs(30));

    let config = HyperLiquidConfig::new().with_timeout(Duration::from_millis(2500));
    assert_eq!(config.timeout, Duration::from_millis(2500));
    assert_eq!(config.base_url, "https://api.hyperliquid.xyz");

    let config = HyperLiquidConfig::new().with_max_retries(0);
    assert_eq!(config.max_retries, 0);
    assert!(config.enable_compression);

    let config = HyperLiquidConfig::new().with_compression(false);
    assert!(!config.enable_compression);
    assert_eq!(config.user_agent, "hyperliquid-rust-client/0.1.0");

    let config = HyperLiquidConfig::new().with_user_agent("probe/1.0");
    assert_eq!(config.user_agent, "probe/1.0");
    assert_eq!(config.pool_max_idle_per_host, 10);
    assert_eq!(config.pool_idle_timeout, Duration::from_secs(90));
    assert_eq!(config.tcp_keepalive, Duration::from_secs(60));
}

#[test]
fn empty_environment_changes_nothing() {
    let config = HyperLiquidConfig::new()
        .with_base_url("https://custom.api.com")
        .with_max_retries(7)
        .with_env(&no_env());
    assert_eq!(config.base_url, "https://custom.api.com");
    assert_eq!(config.max_retries, 7);
    assert_eq!(config.timeout, Duration::from_secs(30));
    assert!(config.enable_compression);
}

#[test]
fn unreadable_values_fall_back_silently() {
    let env = EnvOverrides {
        timeout_secs: Some("soon".to_string()),
        max_retries: Some("-1".to_string()),
        ..no_env()
    };
    let config = HyperLiquidConfig::new().with_max_retries(7).with_env(&env);
    assert_eq!(config.timeout, Duration::from_secs(30));
    assert_eq!(config.max_retries, 7);

    let env = EnvOverrides {
        timeout_secs: Some("".to_string()),
        max_retries: Some("4294967296".to_string()),
        ..no_env()
    };
    let config = HyperLiquidConfig::from_env_values(&env);
    assert_eq!(config.timeout, Duration::from_secs(30));
    assert_eq!(config.max_retries, 3);
}

#[test]
fn readable_values_win() {
    let env = EnvOverrides {
        base_url: Some("https://test.api.com".to_string()),
        timeout_secs: Some("+45".to_string()),
        max_retries: Some("0".to_string()),
        enable_compression: Some("false".to_string()),
        user_agent: Some("probe/2.0".to_string()),
    };
    let config = HyperLiquidConfig::from_env_values(&env);
    assert_eq!(config.base_url, "https://test.api.com");
    assert_eq!(config.timeout, Duration::from_secs(45));
    assert_eq!(config.max_retries, 0);
    assert!(!config.enable_compression);
    assert_eq!(config.user_agent, "probe/2.0");
    assert_eq!(config.pool_max_idle_per_host, 10);
}

#[test]
fn compression_flag_ignores_case() {
    for (text, expected) in [
        ("true", true),
        ("TRUE", true),
        ("True", true),
        ("tRuE", true),
        ("false", false),
        ("1", false),
        ("yes", false),
        ("", false),
        (" true", false),
        ("true ", false),
    ] {
        let env = EnvOverrides { enable_compression: Some(text.to_string()), ..no_env() };
        let on = HyperLiquidConfig::new().with_compression(!expected).with_env(&env);
        assert_eq!(on.enable_compression, expected, "flag {:?}", text);
    }
    assert!(compression_flag("true"));
    assert!(!compression_flag("TRUE"));
    assert!(!compression_flag("tru"));
}

#[test]
fn connection_settings_follow_the_configuration() {
    let config = HyperLiquidConfig::new()
        .with_timeout(Duration::from_secs(5))
        .with_user_agent("probe/3.0")
        .with_compression(false);
    let settings = config.connection_settings();
    assert_eq!(settings.timeout, Duration::from_secs(5));
    assert_eq!(settings.user_agent, "probe/3.0");
    assert_eq!(settings.pool_max_idle_per_host, 10);
    assert_eq!(settings.pool_idle_timeout, Duration::from_secs(90));
    assert_eq!(settings.tcp_keepalive, Duration::from_secs(60));
    assert!(settings.tcp_nodelay);
    assert!(!settings.gzip);
    assert!(HyperLiquidConfig::new().connection_settings().gzip);
    assert_eq!(config.retry_policy().max_retries, 3);
}

#[test]
fn client_keeps_its_configuration() {
    let config = HyperLiquidConfig::new().with_base_url("http://localhost:9").with_max_retries(1);
    let client = HyperLiquidClient::with_config(config).unwrap();
    assert_eq!(client.base_url, "http://localhost:9");
    assert_eq!(client.info_url(), "http://localhost:9/info");
    assert_eq!(client.retry_policy().max_retries, 1);
    let copy = client.clone();
    assert_eq!(copy.base_url, client.base_url);
    assert!(std::sync::Arc::ptr_eq(&copy.config, &client.config));
}

#[test]
fn client_from_environment_values() {
    let env = EnvOverrides {
        base_url: Some("http://localhost:9".to_string()),
        max_retries: Some("1".to_string()),
        ..no_env()
    };
    let client = HyperLiquidClient::from_env_values(&env).unwrap();
    assert_eq!(client.base_url, "http://localhost:9");
    assert_eq!(client.config.max_retries, 1);
    assert_eq!(client.config.timeout, Duration::from_secs(30));
}

#[test]
fn a_handle_is_assembled_from_what_the_build_gave() {
    let config = HyperLiquidConfig::new().with_base_url("http://localhost:9");
    let client = HyperLiquidClient::assemble(config, Ok(reqwest::Client::new())).unwrap();
    assert_eq!(client.base_url, "http://localhost:9");
    assert_eq!(client.config.base_url, "http://localhost:9");

    let failure = reqwest::Client::new().get("not a url").build().unwrap_err();
    let shown = failure.to_string();
    match HyperLiquidClient::assemble(HyperLiquidConfig::new(), Err(failure)) {
        Err(HyperLiquidError::HttpError(source)) => assert_eq!(source.to_string(), shown),
        Err(other) => panic!("expected an HTTP error, got {:?}", other),
        Ok(_) => panic!("expected a failure"),
    }
}

#[test]
fn a_user_agent_that_is_no_header_value_fails_the_build() {
    let config = HyperLiquidConfig::new().with_user_agent("line\nbreak");
    match HyperLiquidClient::with_config(config) {
        Err(HyperLiquidError::HttpError(_)) => {},
        Err(other) => panic!("expected an HTTP error, got {:?}", other),
        Ok(_) => panic!("expected the build to fail"),
    }
}

#[test]
fn envelopes_and_url() {
    assert_eq!(info_url("https://api.hyperliquid.xyz"), "https://api.hyperliquid.xyz/info");
    assert_eq!(info_url(""), "/info");
    assert_eq!(BasicRequest::new("allMids").request_type, "allMids");
    let request = BasicUserRequest::new("openOrders", "anyone");
    assert_eq!(request.request_type, "openOrders");
    assert_eq!(request.user, "anyone");
    let request =
        user_request("openOrders", "0x1234567890123456789012345678901234567890").unwrap();
    assert_eq!(request.request_type, "openOrders");
    assert_eq!(request.user, "0x1234567890123456789012345678901234567890");
    match user_request("openOrders", "0x123") {
        Err(HyperLiquidError::InvalidAddress(text)) => assert_eq!(
            text,
            "Invalid Ethereum address '0x123': must be 42 characters long, got 5 characters"
        ),
        other => panic!("expected an address complaint, got {:?}", other),
    }
}
