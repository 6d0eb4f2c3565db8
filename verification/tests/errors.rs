use finnhub_scanner::errors::ScannerError;

#[test]
fn test_error_display() {
    let err = ScannerError::Config("test error".to_string());
    assert_eq!(err.message(), "Configuration error: test error");
}

#[test]
fn test_no_symbols_error() {
    let err = ScannerError::NoSymbols;
    assert!(err.message().contains("No symbols provided"));
}

#[test]
fn every_kind_of_error_has_its_own_report() {
    assert_eq!(ScannerError::Api("x".to_string()).message(), "API error: x");
    assert_eq!(ScannerError::Network("x".to_string()).message(), "Network error: x");
    assert_eq!(ScannerError::Io("x".to_string()).message(), "I/O error: x");
    assert_eq!(ScannerError::Parse("x".to_string()).message(), "Parse error: x");
    assert_eq!(ScannerError::InvalidInput("x".to_string()).message(), "Invalid input: x");
    assert_eq!(
        ScannerError::NoSymbols.message(),
        "No symbols provided. Use --symbols, --symbols-file, or configure symbols_file in config"
    );
}

#[test]
fn a_timeout_outranks_every_other_trait() {
    match ScannerError::from_transport(true, true, true, true, "late") {
        ScannerError::Network(msg) => assert_eq!(msg, "Request timeout: late"),
        other => panic!("unexpected error: {:?}", other),
    }
}

#[test]
fn a_failed_connection_outranks_a_status() {
    match ScannerError::from_transport(false, true, true, true, "down") {
        ScannerError::Network(msg) => assert_eq!(msg, "Connection failed: down"),
        other => panic!("unexpected error: {:?}", other),
    }
}

#[test]
fn a_body_that_cannot_be_decoded_is_a_parse_error() {
    match ScannerError::from_transport(false, false, true, true, "expected value") {
        ScannerError::Parse(msg) => assert_eq!(msg, "JSON parsing failed: expected value"),
        other => panic!("unexpected error: {:?}", other),
    }
}

#[test]
fn a_timeout_while_decoding_is_a_network_error() {
    match ScannerError::from_transport(true, false, true, false, "late") {
        ScannerError::Network(msg) => assert_eq!(msg, "Request timeout: late"),
        other => panic!("unexpected error: {:?}", other),
    }
    match ScannerError::from_transport(false, true, true, false, "down") {
        ScannerError::Network(msg) => assert_eq!(msg, "Connection failed: down"),
        other => panic!("unexpected error: {:?}", other),
    }
}

#[test]
fn a_status_failure_is_an_api_error() {
    match ScannerError::from_transport(false, false, false, true, "500") {
        ScannerError::Api(msg) => assert_eq!(msg, "HTTP error: 500"),
        other => panic!("unexpected error: {:?}", other),
    }
}

#[test]
fn any_other_failed_request_is_a_network_error() {
    match ScannerError::from_transport(false, false, false, false, "odd") {
        ScannerError::Network(msg) => assert_eq!(msg, "Request failed: odd"),
        other => panic!("unexpected error: {:?}", other),
    }
}

#[test]
fn an_io_failure_keeps_its_text() {
    let cause = std::io::Error::new(std::io::ErrorKind::Other, "disk full");
    match ScannerError::from(cause) {
        ScannerError::Io(msg) => assert_eq!(msg, "disk full"),
        other => panic!("unexpected error: {:?}", other),
    }
    match ScannerError::from_io("disk full") {
        ScannerError::Io(msg) => assert_eq!(msg, "disk full"),
        other => panic!("unexpected error: {:?}", other),
    }
}

#[test]
fn a_json_failure_names_json_and_keeps_its_text() {
    let cause = serde_json::from_str::<serde_json::Value>("{").unwrap_err();
    let text = cause.to_string();
    match ScannerError::from(cause) {
        ScannerError::Parse(msg) => {
            assert_eq!(msg, format!("JSON parsing failed: {}", text));
            assert!(msg.len() > "JSON parsing failed: ".len());
        }
        other => panic!("unexpected error: {:?}", other),
    }
}

#[test]
fn a_request_that_cannot_be_built_is_a_network_error() {
    let cause = reqwest::Client::new().get("not a url").build().unwrap_err();
    let text = cause.to_string();
    assert!(!cause.is_timeout());
    assert!(!cause.is_connect());
    assert!(!cause.is_status());
    assert!(!cause.is_decode());
    match ScannerError::from(cause) {
        ScannerError::Network(msg) => assert_eq!(msg, format!("Request failed: {}", text)),
        other => panic!("unexpected error: {:?}", other),
    }
}

#[test]
fn a_reply_that_is_no_json_is_a_parse_error() {
    let runtime = tokio::runtime::Builder::new_current_thread().build().unwrap();
    let response = reqwest::Response::from(http::Response::new("not json"));
    let cause = runtime.block_on(response.json::<serde_json::Value>()).unwrap_err();
    assert!(cause.is_decode());
    assert!(!cause.is_timeout());
    assert!(!cause.is_connect());
    let text = cause.to_string();
    match ScannerError::from(cause) {
        ScannerError::Parse(msg) => assert_eq!(msg, format!("JSON parsing failed: {}", text)),
        other => panic!("unexpected error: {:?}", other),
    }
}

#[test]
fn a_reply_without_the_price_is_a_parse_error() {
    let runtime = tokio::runtime::Builder::new_current_thread().build().unwrap();
    let response = reqwest::Response::from(http::Response::new("{\"pc\": 1.5}"));
    let cause = runtime.block_on(response.json::<(f64, f64)>()).unwrap_err();
    assert!(matches!(ScannerError::from(cause), ScannerError::Parse(_)));
}

#[test]
fn a_refusing_status_made_into_an_error_is_an_api_error() {
    let reply = http::Response::builder().status(500).body("").unwrap();
    let cause = reqwest::Response::from(reply).error_for_status().unwrap_err();
    assert!(cause.is_status());
    assert!(!cause.is_decode());
    let text = cause.to_string();
    match ScannerError::from(cause) {
        ScannerError::Api(msg) => assert_eq!(msg, format!("HTTP error: {}", text)),
        other => panic!("unexpected error: {:?}", other),
    }
}
