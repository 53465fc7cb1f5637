use srt_relay::config::{parse_port, Config, ConfigError, ConfigKey};

#[test]
fn port_with_plain_digits() {
    assert_eq!(parse_port("8888"), Some(8888));
    assert_eq!(parse_port("0"), Some(0));
    assert_eq!(parse_port("65535"), Some(65535));
}

#[test]
fn port_out_of_range() {
    assert_eq!(parse_port("65536"), None);
    assert_eq!(parse_port("99999999999999999999999"), None);
}

#[test]
fn port_sign_and_leading_zeros() {
    assert_eq!(parse_port("+80"), Some(80));
    assert_eq!(parse_port("00080"), Some(80));
    assert_eq!(parse_port("+"), None);
    assert_eq!(parse_port("-1"), None);
    assert_eq!(parse_port("++1"), None);
}

#[test]
fn port_rejects_other_text() {
    assert_eq!(parse_port(""), None);
    assert_eq!(parse_port(" 80"), None);
    assert_eq!(parse_port("80 "), None);
    assert_eq!(parse_port("8_0"), None);
    assert_eq!(parse_port("0x50"), None);
    assert_eq!(parse_port("٣"), None);
}

#[test]
fn port_agrees_with_std() {
    let samples = [
        "", "+", "-", "0", "+0", "-0", "1", "9", "10", "007", "65535", "65536", "065535",
        "0000000000000000000000065535", "70000", "655360", "4294967296", "12a", "a12", "1 2",
        "+65535", "+65536", "１２", "1.0", "1e3",
    ];
    for s in samples {
        assert_eq!(parse_port(s), s.parse::<u16>().ok(), "input {:?}", s);
    }
}

#[test]
fn config_from_complete_settings() {
    let got = Config::from_vars(
        Some("correct horse battery".to_string()),
        Some("8888"),
        Some("9001"),
        Some("8080"),
    );
    assert_eq!(
        got,
        Ok(Config {
            input_port: 8888,
            output_port: 9001,
            passphrase: "correct horse battery".to_string(),
            web_port: 8080,
        })
    );
}

#[test]
fn config_missing_settings() {
    assert_eq!(
        Config::from_vars(None, Some("1"), Some("2"), Some("3")),
        Err(ConfigError::Missing(ConfigKey::Passphrase))
    );
    let secret = || Some("0123456789".to_string());
    assert_eq!(
        Config::from_vars(secret(), None, Some("2"), Some("3")),
        Err(ConfigError::Missing(ConfigKey::InputPort))
    );
    assert_eq!(
        Config::from_vars(secret(), Some("1"), None, Some("3")),
        Err(ConfigError::Missing(ConfigKey::OutputPort))
    );
    assert_eq!(
        Config::from_vars(secret(), Some("1"), Some("2"), None),
        Err(ConfigError::Missing(ConfigKey::WebPort))
    );
}

#[test]
fn config_passphrase_bounds() {
    let with = |n: usize| Config::from_vars(Some("x".repeat(n)), Some("1"), Some("2"), Some("3"));
    assert_eq!(with(9), Err(ConfigError::PassphraseLength));
    assert!(with(10).is_ok());
    assert!(with(80).is_ok());
    assert_eq!(with(81), Err(ConfigError::PassphraseLength));
    assert_eq!(with(0), Err(ConfigError::PassphraseLength));
}

#[test]
fn config_passphrase_counts_characters() {
    let ten = "é".repeat(10);
    assert_eq!(ten.len(), 20);
    assert!(Config::from_vars(Some(ten), Some("1"), Some("2"), Some("3")).is_ok());
    let nine = "é".repeat(9);
    assert_eq!(
        Config::from_vars(Some(nine), Some("1"), Some("2"), Some("3")),
        Err(ConfigError::PassphraseLength)
    );
}

#[test]
fn config_invalid_ports() {
    let secret = || Some("0123456789".to_string());
    assert_eq!(
        Config::from_vars(secret(), Some("http"), Some("2"), Some("3")),
        Err(ConfigError::InvalidPort(ConfigKey::InputPort))
    );
    assert_eq!(
        Config::from_vars(secret(), Some("1"), Some("65536"), Some("3")),
        Err(ConfigError::InvalidPort(ConfigKey::OutputPort))
    );
    assert_eq!(
        Config::from_vars(secret(), Some("1"), Some("2"), Some("")),
        Err(ConfigError::InvalidPort(ConfigKey::WebPort))
    );
}

#[test]
fn config_first_fault_wins() {
    assert_eq!(
        Config::from_vars(Some("short".to_string()), None, Some("x"), None),
        Err(ConfigError::PassphraseLength)
    );
    assert_eq!(
        Config::from_vars(Some("0123456789".to_string()), Some("x"), None, None),
        Err(ConfigError::InvalidPort(ConfigKey::InputPort))
    );
}

#[test]
fn config_key_names() {
    assert_eq!(ConfigKey::Passphrase.name(), "PASSPHRASE");
    assert_eq!(ConfigKey::InputPort.name(), "INPUT_PORT");
    assert_eq!(ConfigKey::OutputPort.name(), "OUTPUT_PORT");
    assert_eq!(ConfigKey::WebPort.name(), "WEB_PORT");
}

#[test]
fn config_error_messages() {
    assert_eq!(ConfigError::Missing(ConfigKey::Passphrase).message(), "PASSPHRASE var not found");
    assert_eq!(ConfigError::Missing(ConfigKey::InputPort).message(), "INPUT_PORT var not found");
    assert_eq!(
        ConfigError::PassphraseLength.message(),
        "PASSPHRASE must be between 10 and 80 characters"
    );
    assert_eq!(
        ConfigError::InvalidPort(ConfigKey::WebPort).message(),
        "WEB_PORT: invalid port number"
    );
}
