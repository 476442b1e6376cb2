use grok_chat::config::{load_config, parse_port, Config, Settings};
use grok_chat::error::ChatError;

fn settings(
    key: Option<&str>,
    url: Option<&str>,
    host: Option<&str>,
    port: Option<&str>,
    model: Option<&str>,
) -> Settings {
    Settings {
        xai_api_key: key.map(str::to_string),
        database_url: url.map(str::to_string),
        server_host: host.map(str::to_string),
        server_port: port.map(str::to_string),
        default_model: model.map(str::to_string),
    }
}

#[test]
fn test_config_from_env() {
    let config = Config::from_settings(settings(
        Some("test-key"),
        Some("sqlite:test.db"),
        Some("localhost"),
        Some("8080"),
        Some("grok-3"),
    ))
    .unwrap();
    assert_eq!(config.xai_api_key(), "test-key");
    assert_eq!(config.database_url(), "sqlite:test.db");
    assert_eq!(config.server_host(), "localhost");
    assert_eq!(config.server_port(), 8080);
    assert_eq!(config.default_model(), "grok-3");
}

#[test]
fn test_config_defaults() {
    let config = Config::from_settings(settings(Some(""), None, None, None, None)).unwrap();
    assert_eq!(config.database_url(), "sqlite:grok_chat.db");
    assert_eq!(config.server_host(), "127.0.0.1");
    assert_eq!(config.server_port(), 3000);
    assert_eq!(config.default_model(), "grok-4-0709");
}

#[test]
fn test_config_missing_api_key() {
    let result = Config::from_settings(settings(None, None, None, None, None));
    assert!(result.is_err());
    match result.unwrap_err() {
        ChatError::Config(msg) => assert!(msg.contains("XAI_API_KEY")),
        other => panic!("unexpected error {:?}", other),
    }
}

#[test]
fn invalid_port_is_a_config_error() {
    for bad in ["", "+", "-1", "65536", "80a", " 80", "99999999999999999999"] {
        let result = load_config(settings(Some("k"), None, None, Some(bad), None));
        assert!(matches!(result, Err(ChatError::Config(_))), "port {:?}", bad);
    }
}

#[test]
fn port_parsing_reads_unsigned_decimals() {
    assert_eq!(parse_port("8080"), Some(8080));
    assert_eq!(parse_port("+443"), Some(443));
    assert_eq!(parse_port("0"), Some(0));
    assert_eq!(parse_port("00065535"), Some(65535));
    assert_eq!(parse_port("65536"), None);
    assert_eq!(parse_port("٣"), None);
    assert_eq!(parse_port(""), None);
}

#[test]
fn default_config_has_no_key() {
    let config = Config::default();
    assert_eq!(config.xai_api_key(), "");
    assert_eq!(config.server_port(), 3000);
    assert_eq!(config.database_url(), "sqlite:grok_chat.db");
}
