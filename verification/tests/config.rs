use finnhub_scanner::config::{
    default_concurrent_requests, default_rate_limit_delay, default_timeout, Config,
};
use finnhub_scanner::errors::ScannerError;

#[test]
fn test_default_config() {
    let config = Config::default();
    assert_eq!(config.concurrent_requests, 5);
    assert_eq!(config.rate_limit_delay_ms, 200);
}

#[test]
fn default_config_holds_every_initial_value() {
    let config = Config::default();
    assert_eq!(config.api_key, "YOUR_API_KEY_HERE");
    assert_eq!(config.symbols_file, Some("symbols.txt".to_string()));
    assert_eq!(config.timeout_secs, 10);
    assert_eq!(config.default_output, "table");
    assert_eq!(default_concurrent_requests(), 5);
    assert_eq!(default_rate_limit_delay(), 200);
    assert_eq!(default_timeout(), 10);
}

#[test]
fn validate_refuses_the_placeholder_key() {
    let config = Config::default();
    match config.validate() {
        Err(ScannerError::Config(msg)) => assert_eq!(
            msg,
            "API key not configured. Set FINNHUB_API_KEY environment variable or update config file"
        ),
        other => panic!("unexpected result: {:?}", other),
    }
}

#[test]
fn validate_refuses_an_empty_key() {
    let mut config = Config::default();
    config.api_key = String::new();
    assert!(matches!(config.validate(), Err(ScannerError::Config(_))));
}

#[test]
fn validate_refuses_a_batch_size_of_zero() {
    let mut config = Config::default();
    config.api_key = "abc123".to_string();
    config.concurrent_requests = 0;
    match config.validate() {
        Err(ScannerError::Config(msg)) => {
            assert_eq!(msg, "concurrent_requests must be greater than 0")
        }
        other => panic!("unexpected result: {:?}", other),
    }
}

#[test]
fn validate_reports_the_key_before_the_batch_size() {
    let mut config = Config::default();
    config.concurrent_requests = 0;
    match config.validate() {
        Err(ScannerError::Config(msg)) => assert!(msg.starts_with("API key not configured")),
        other => panic!("unexpected result: {:?}", other),
    }
}

#[test]
fn validate_accepts_a_key_and_a_batch_size() {
    let mut config = Config::default();
    config.api_key = "abc123".to_string();
    assert!(config.validate().is_ok());
}

#[test]
fn environment_overrides_key_and_symbols_file() {
    let config =
        Config::from_env_or_default(Some("abc123".to_string()), Some("mine.txt".to_string()))
            .unwrap();
    assert_eq!(config.api_key, "abc123");
    assert_eq!(config.symbols_file, Some("mine.txt".to_string()));
    assert_eq!(config.concurrent_requests, 5);
    assert_eq!(config.rate_limit_delay_ms, 200);
    assert_eq!(config.timeout_secs, 10);
    assert_eq!(config.default_output, "table");
}

#[test]
fn environment_with_a_key_alone_keeps_the_default_file() {
    let config = Config::from_env_or_default(Some("abc123".to_string()), None).unwrap();
    assert_eq!(config.symbols_file, Some("symbols.txt".to_string()));
}

#[test]
fn environment_without_a_key_is_refused() {
    let loaded = Config::from_env_or_default(None, Some("mine.txt".to_string()));
    assert!(matches!(loaded, Err(ScannerError::Config(_))));
}
