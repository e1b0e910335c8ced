use tado_exporter::config::{Config, DEFAULT_TICKER_SECS};

#[test]
fn config_defaults_when_nothing_is_set() {
    let config = Config::from_env_values(None, None);

    assert_eq!(config.ticker, 10);
    assert_eq!(config.ticker, DEFAULT_TICKER_SECS);
    assert_eq!(config.client_id, "1bb50063-6b0c-4d11-bd99-387f4a91cc46");
}

#[test]
fn config_takes_supplied_values() {
    let config = Config::from_env_values(Some(30), Some("client-123".to_string()));

    assert_eq!(config.ticker, 30);
    assert_eq!(config.client_id, "client-123");
}

#[test]
fn config_summary_lines_are_exact() {
    let config = Config::from_env_values(Some(30), Some("client-123".to_string()));
    let lines = config.summary_lines();

    assert_eq!(lines.len(), 4);
    assert_eq!(lines[0], "--- tado° exporter configuration ---");
    assert_eq!(lines[1], "Ticker seconds: 30");
    assert_eq!(lines[2], "Client ID: client-123");
    assert_eq!(lines[3], "------------------------------------");
}
