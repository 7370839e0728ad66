use dify_client::Config;
use std::time::Duration;

#[test]
fn test_config() {
    let config = Config {
        base_url: "https://api.dify.ai".into(),
        api_key: "API_KEY".into(),
        timeout: Duration::from_secs(30),
    };
    assert_eq!(config.base_url, "https://api.dify.ai");
    assert_eq!(config.api_key, "API_KEY");
    assert_eq!(config.timeout, Duration::from_secs(30));
}

#[test]
fn config_default_values() {
    let config = Config::default();
    assert_eq!(config.base_url, "https://api.dify.ai");
    assert_eq!(config.api_key, "API_KEY");
    assert_eq!(config.timeout, Duration::from_secs(30));
}

#[test]
fn config_with_key_keeps_default_timeout() {
    let config = Config::with_key("https://example.com", "KEY");
    assert_eq!(config.base_url, "https://example.com");
    assert_eq!(config.api_key, "KEY");
    assert_eq!(config.timeout, Duration::from_secs(30));
}

#[test]
fn config_normalized_trims_trailing_slashes() {
    let config = Config {
        base_url: "https://api.dify.ai///".into(),
        api_key: "K".into(),
        timeout: Duration::from_secs(60),
    }
    .normalized();
    assert_eq!(config.base_url, "https://api.dify.ai");
    assert_eq!(config.timeout, Duration::from_secs(60));
    let plain = Config::with_key("https://a/b", "K").normalized();
    assert_eq!(plain.base_url, "https://a/b");
    let only = Config::with_key("//", "K").normalized();
    assert_eq!(only.base_url, "");
}

#[test]
fn config_bearer_auth() {
    let config = Config::with_key("https://api.dify.ai", "API_KEY");
    assert_eq!(config.bearer_auth(), "Bearer API_KEY");
}
