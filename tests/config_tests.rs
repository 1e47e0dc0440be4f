use payme::config::{parse_port, Config, DEFAULT_PORT};

#[test]
fn test_config_defaults() {
    let config = Config::from_values(None, None);
    assert_eq!(config.database_url, "sqlite:payme.db?mode=rwc");
    assert_eq!(config.port, 3001);
}

#[test]
fn test_config_from_env() {
    let config = Config::from_values(Some("sqlite:test.db".to_string()), Some("8080"));
    assert_eq!(config.database_url, "sqlite:test.db");
    assert_eq!(config.port, 8080);
}

#[test]
fn test_config_invalid_port_uses_default() {
    let port = Config::from_values(None, Some("not_a_number")).port;
    assert_eq!(port, 3001);
}

#[test]
fn port_parsing_follows_u16() {
    assert_eq!(parse_port("0"), Some(0));
    assert_eq!(parse_port("+443"), Some(443));
    assert_eq!(parse_port("65535"), Some(65535));
    assert_eq!(parse_port("65536"), None);
    assert_eq!(parse_port("99999999999"), None);
    assert_eq!(parse_port(""), None);
    assert_eq!(parse_port("+"), None);
    assert_eq!(parse_port("-1"), None);
    assert_eq!(parse_port(" 80"), None);
    assert_eq!(parse_port("80a"), None);
    for text in ["1", "007", "+12", "65535", "65536", "abc", "", "+", "-0", "3001 "] {
        assert_eq!(parse_port(text), text.parse::<u16>().ok(), "{text}");
    }
    assert_eq!(DEFAULT_PORT, 3001);
}
