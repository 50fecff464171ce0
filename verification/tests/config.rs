//! Tests of configuration resolution, port parsing and address rendering.

use fashion_auth::config::Config;
use fashion_auth::config::ConfigError;
use fashion_auth::config::parse_port;

fn full_values() -> (
    Option<String>,
    Option<String>,
    Option<String>,
    Option<String>,
    Option<String>,
    Option<String>,
) {
    (
        Some("Custom Net".to_string()),
        Some("https://example.test:443".to_string()),
        Some("CDCONTRACT".to_string()),
        Some("SSECRET".to_string()),
        Some("0.0.0.0".to_string()),
        Some("8080".to_string()),
    )
}

#[test]
fn test_from_values_requires_contract_id() {
    let (pp, rpc, _, secret, host, port) = full_values();
    let r = Config::from_values(pp, rpc, None, secret, host, port);
    assert_eq!(r.unwrap_err(), ConfigError::MissingContractId);
}

#[test]
fn test_from_values_requires_secret_key() {
    let (pp, rpc, contract, _, host, port) = full_values();
    let r = Config::from_values(pp, rpc, contract, None, host, port);
    assert_eq!(r.unwrap_err(), ConfigError::MissingAdminSecretKey);
}

#[test]
fn test_from_values_rejects_bad_port() {
    let (pp, rpc, contract, secret, host, _) = full_values();
    let r = Config::from_values(pp, rpc, contract, secret, host, Some("30a0".to_string()));
    assert_eq!(r.unwrap_err(), ConfigError::InvalidApiPort);
}

#[test]
fn test_from_values_applies_defaults() {
    let c = Config::from_values(
        None,
        None,
        Some("CDCONTRACT".to_string()),
        Some("SSECRET".to_string()),
        None,
        None,
    )
    .unwrap();
    assert_eq!(
        c.soroban_network_passphrase,
        "Test SDF Network ; September 2015".to_string()
    );
    assert_eq!(
        c.soroban_rpc_url,
        "https://soroban-testnet.stellar.org:443".to_string()
    );
    assert_eq!(c.fashion_auth_contract_id, "CDCONTRACT".to_string());
    assert_eq!(c.admin_secret_key, "SSECRET".to_string());
    assert_eq!(c.api_host, "127.0.0.1".to_string());
    assert_eq!(c.api_port, 3000);
}

#[test]
fn test_from_values_keeps_given_values() {
    let (pp, rpc, contract, secret, host, port) = full_values();
    let c = Config::from_values(pp, rpc, contract, secret, host, port).unwrap();
    assert_eq!(c.soroban_network_passphrase, "Custom Net".to_string());
    assert_eq!(c.soroban_rpc_url, "https://example.test:443".to_string());
    assert_eq!(c.api_host, "0.0.0.0".to_string());
    assert_eq!(c.api_port, 8080);
}

#[test]
fn test_api_address() {
    let c = Config::from_values(
        None,
        None,
        Some("CDCONTRACT".to_string()),
        Some("SSECRET".to_string()),
        None,
        None,
    )
    .unwrap();
    assert_eq!(c.api_address(), "127.0.0.1:3000".to_string());

    let (pp, rpc, contract, secret, host, port) = full_values();
    let c = Config::from_values(pp, rpc, contract, secret, host, port).unwrap();
    assert_eq!(c.api_address(), "0.0.0.0:8080".to_string());
}

#[test]
fn test_parse_port_accepts_digit_strings() {
    assert_eq!(parse_port("0"), Some(0));
    assert_eq!(parse_port("3000"), Some(3000));
    assert_eq!(parse_port("65535"), Some(65535));
    assert_eq!(parse_port("007"), Some(7));
}

#[test]
fn test_parse_port_rejects_everything_else() {
    assert_eq!(parse_port(""), None);
    assert_eq!(parse_port("65536"), None);
    assert_eq!(parse_port("99999999999999999999"), None);
    assert_eq!(parse_port("12a"), None);
    assert_eq!(parse_port("+80"), None);
    assert_eq!(parse_port("-1"), None);
    assert_eq!(parse_port("80 "), None);
}

#[test]
fn test_config_error_messages() {
    assert_eq!(
        ConfigError::MissingContractId.describe(),
        "FASHION_AUTH_CONTRACT_ID environment variable is required".to_string()
    );
    assert_eq!(
        ConfigError::MissingAdminSecretKey.describe(),
        "ADMIN_SECRET_KEY environment variable is required".to_string()
    );
    assert_eq!(
        ConfigError::InvalidApiPort.describe(),
        "Invalid API_PORT format".to_string()
    );
}
