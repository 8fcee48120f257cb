use btc5min_limit_order::config::{
    default_market_closure_check_interval_seconds, default_simulation_mode,
    derive_polymarket_address, merge_wallet, owner_address, prices, AddressError, Config,
    SettingsError, WalletSource,
};

const KEY_ONE: &str = "0x0000000000000000000000000000000000000000000000000000000000000001";

fn address(text: &str) -> [u8; 20] {
    let mut bytes = [0u8; 20];
    for i in 0..20 {
        bytes[i] = u8::from_str_radix(&text[2 * i..2 * i + 2], 16).unwrap();
    }
    bytes
}

#[test]
fn a_fresh_configuration_simulates() {
    let config = Config::default();
    assert_eq!(config.polymarket.gamma_api_url, "https://gamma-api.polymarket.com");
    assert_eq!(config.polymarket.clob_api_url, "https://clob.polymarket.com");
    assert!(config.polymarket.private_key.is_none());
    assert!(!config.polymarket.use_relayer);
    assert_eq!(config.strategy.shares, 5_000_000);
    assert_eq!(config.strategy.buy_price, 10_000);
    assert_eq!(config.strategy.sell_price, 20_000);
    assert_eq!(config.strategy.check_interval_ms, 500);
    assert!(config.strategy.simulation_mode);
    assert_eq!(config.strategy.market_closure_check_interval_seconds, 60);
    assert_eq!(default_market_closure_check_interval_seconds(), 60);
    assert!(default_simulation_mode());
}

#[test]
fn prices_come_from_the_file_unless_they_are_fixed() {
    assert_eq!(prices(Some(10_000), Some(20_000), None), Ok((10_000, 20_000)));
    let fixed = Some((490_000, 500_000));
    assert_eq!(prices(Some(10_000), Some(20_000), fixed), Ok((490_000, 500_000)));
    assert_eq!(prices(None, None, fixed), Ok((490_000, 500_000)));
    assert_eq!(prices(None, Some(20_000), None), Err(SettingsError::NoBuyPrice));
    assert_eq!(prices(Some(10_000), None, None), Err(SettingsError::NoSellPrice));
    assert_eq!(SettingsError::NoBuyPrice.message(), "missing field `buy_price`");
    assert_eq!(SettingsError::NoSellPrice.message(), "missing field `sell_price`");
}

#[test]
fn a_second_load_writes_nothing() {
    let (first, write) = Config::load(None);
    assert!(write);
    let (second, write) = Config::load(Some(first.clone()));
    assert!(!write);
    assert_eq!(format!("{:?}", first), format!("{:?}", second));
}

#[test]
fn a_missing_configuration_is_written() {
    let (config, write) = Config::load(None);
    assert!(write);
    assert!(config.strategy.simulation_mode);
    let mut own = Config::default();
    own.strategy.shares = 7_000_000;
    let (config, write) = Config::load(Some(own));
    assert!(!write);
    assert_eq!(config.strategy.shares, 7_000_000);
}

#[test]
fn the_owner_of_a_key_has_its_address() {
    let expected = address("7e5f4552091a69125d5dfcb7b8c2659029395bdf");
    assert_eq!(owner_address(KEY_ONE).unwrap(), expected);
    assert_eq!(owner_address(&KEY_ONE[2..]).unwrap(), expected);
    assert_eq!(owner_address("0x01").unwrap_err(), AddressError::InvalidPrivateKey);
    assert_eq!(owner_address("").unwrap_err(), AddressError::InvalidPrivateKey);
}

#[test]
fn the_trading_address_is_the_safe_wallet_with_its_checksum() {
    let wallet = address("d8da6bf26964af9d7eed9e03e53415d37aa96045");
    assert_eq!(
        derive_polymarket_address(KEY_ONE, Some(wallet)).unwrap(),
        "0xd8dA6BF26964aF9D7eEd9e03E53415D37aA96045"
    );
    let error = derive_polymarket_address(KEY_ONE, None).unwrap_err();
    assert_eq!(error.message(), "Failed to derive safe wallet address");
    let error = derive_polymarket_address("no key", Some(wallet)).unwrap_err();
    assert_eq!(error.message(), "Invalid private key");
}

#[test]
fn the_configured_wallet_comes_before_the_key() {
    let mut config = Config::default().polymarket;
    assert!(matches!(merge_wallet(&config), WalletSource::Missing));
    assert_eq!(
        merge_wallet(&config).message().as_deref(),
        Some("--merge-only 需要 proxy_wallet_address 或 private_key")
    );
    assert!(WalletSource::Derived(String::new()).message().is_none());
    config.private_key = Some("key".to_string());
    assert!(matches!(merge_wallet(&config), WalletSource::Derived(key) if key == "key"));
    config.proxy_wallet_address = Some("0xwallet".to_string());
    assert!(matches!(merge_wallet(&config), WalletSource::Configured(a) if a == "0xwallet"));
}
