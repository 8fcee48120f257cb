//! Settings, the command line, and the account behind the private key.
use vstd::prelude::*;

use crate::evm::{address_of_key, address_text};

verus! {

/// The command line.
#[derive(Debug)]
pub struct Args {
    pub config: String,
    pub redeem: bool,
    pub condition_id: Option<String>,
    pub merge_only: bool,
}

/// All settings.
#[derive(Debug, Clone)]
pub struct Config {
    pub polymarket: PolymarketConfig,
    pub strategy: StrategyConfig,
    pub rpc: Option<String>,
    pub rpc_backup: Option<String>,
}

/// The settings of the trading strategy. Shares and prices are in micros.
#[derive(Debug, Clone, Copy)]
pub struct StrategyConfig {
    pub shares: i64,
    pub buy_price: i64,
    pub sell_price: i64,
    pub check_interval_ms: u64,
    pub simulation_mode: bool,
    pub market_closure_check_interval_seconds: u64,
}

/// Where the exchange is reached, and the account there.
#[derive(Debug, Clone)]
pub struct PolymarketConfig {
    pub gamma_api_url: String,
    pub clob_api_url: String,
    pub api_key: Option<String>,
    pub api_secret: Option<String>,
    pub api_passphrase: Option<String>,
    pub private_key: Option<String>,
    pub proxy_wallet_address: Option<String>,
    pub signature_type: Option<u8>,
    pub use_relayer: bool,
    pub relayer_api_key: Option<String>,
    pub relayer_api_key_address: Option<String>,
}

/// How often closed markets are looked for when the settings do not say.
pub fn default_market_closure_check_interval_seconds() -> (r: u64)
    ensures
        r == 60,
{
    60
}

/// Orders are simulated when the settings do not say otherwise.
pub fn default_simulation_mode() -> (r: bool)
    ensures
        r,
{
    true
}

/// The settings of the strategy in a fresh configuration: five shares a side,
/// bought at one cent and sold at two, without real orders.
pub open spec fn default_strategy() -> StrategyConfig {
    StrategyConfig {
        shares: 5_000_000,
        buy_price: 10_000,
        sell_price: 20_000,
        check_interval_ms: 500,
        simulation_mode: true,
        market_closure_check_interval_seconds: 60,
    }
}

impl Config {
    /// The configuration that is written when there is none: the public
    /// addresses of the exchange, no account, the default strategy.
    pub open spec fn is_default(self) -> bool {
        &&& self.polymarket.gamma_api_url@ == "https://gamma-api.polymarket.com"@
        &&& self.polymarket.clob_api_url@ == "https://clob.polymarket.com"@
        &&& self.polymarket.api_key is None
        &&& self.polymarket.api_secret is None
        &&& self.polymarket.api_passphrase is None
        &&& self.polymarket.private_key is None
        &&& self.polymarket.proxy_wallet_address is None
        &&& self.polymarket.signature_type is None
        &&& !self.polymarket.use_relayer
        &&& self.polymarket.relayer_api_key is None
        &&& self.polymarket.relayer_api_key_address is None
        &&& self.strategy == default_strategy()
        &&& self.rpc is None
        &&& self.rpc_backup is None
    }

    /// A load of a file with these settings in it, or of none, gives these
    /// settings to run with, and says whether they have to be written to the
    /// file.
    pub open spec fn loaded(file: Option<Config>, result: (Config, bool)) -> bool {
        match file {
            Some(config) => result == (config, false),
            None => result.0.is_default() && result.1,
        }
    }

    /// What the file holds after a load.
    pub open spec fn file_after(file: Option<Config>, result: (Config, bool)) -> Option<Config> {
        if result.1 {
            Some(result.0)
        } else {
            file
        }
    }

    /// The configuration to run with, and whether it has to be written to the
    /// file: what the file held, or the default where there was no file.
    pub fn load(found: Option<Config>) -> (r: (Config, bool))
        ensures
            Config::loaded(found, r),
    {
        match found {
            Some(config) => (config, false),
            None => (Config::default(), true),
        }
    }
}

/// The settings are written at most once: after a load the file holds the
/// settings that came of it, the default ones where there was no file, and a
/// second load gives the same and leaves the file as it is.
pub proof fn a_second_load_gives_the_same(
    file: Option<Config>,
    first: (Config, bool),
    second: (Config, bool),
)
    requires
        Config::loaded(file, first),
        Config::loaded(Config::file_after(file, first), second),
    ensures
        ({
            let after = Config::file_after(file, first);
            &&& after == Some(first.0)
            &&& file is None ==> first.0.is_default()
            &&& second == (first.0, false)
            &&& Config::file_after(after, second) == after
        }),
{
}

impl Default for Config {
    fn default() -> (r: Self)
        ensures
            r.is_default(),
    {
        Config {
            polymarket: PolymarketConfig {
                gamma_api_url: "https://gamma-api.polymarket.com".to_owned(),
                clob_api_url: "https://clob.polymarket.com".to_owned(),
                api_key: None,
                api_secret: None,
                api_passphrase: None,
                private_key: None,
                proxy_wallet_address: None,
                signature_type: None,
                use_relayer: false,
                relayer_api_key: None,
                relayer_api_key_address: None,
            },
            strategy: StrategyConfig {
                shares: 5_000_000,
                buy_price: 10_000,
                sell_price: 20_000,
                check_interval_ms: 500,
                simulation_mode: default_simulation_mode(),
                market_closure_check_interval_seconds:
                    default_market_closure_check_interval_seconds(),
            },
            rpc: None,
            rpc_backup: None,
        }
    }
}

/// What the settings lack.
#[derive(Debug, Clone, Copy, PartialEq, Eq, Structural)]
pub enum SettingsError {
    NoBuyPrice,
    NoSellPrice,
}

impl SettingsError {
    /// The error in words.
    pub open spec fn text(self) -> Seq<char> {
        match self {
            SettingsError::NoBuyPrice => "missing field `buy_price`"@,
            SettingsError::NoSellPrice => "missing field `sell_price`"@,
        }
    }

    /// The error in words.
    pub fn message(&self) -> (r: String)
        ensures
            r@ == self.text(),
    {
        match self {
            SettingsError::NoBuyPrice => "missing field `buy_price`".to_owned(),
            SettingsError::NoSellPrice => "missing field `sell_price`".to_owned(),
        }
    }
}

/// The BUY and the SELL price to trade at.
pub open spec fn prices_of(
    buy: Option<i64>,
    sell: Option<i64>,
    fixed: Option<(i64, i64)>,
) -> Result<(i64, i64), SettingsError> {
    match (fixed, buy, sell) {
        (Some(pair), _, _) => Ok(pair),
        (None, None, _) => Err(SettingsError::NoBuyPrice),
        (None, Some(_), None) => Err(SettingsError::NoSellPrice),
        (None, Some(b), Some(s)) => Ok((b, s)),
    }
}

/// The file's own prices count where none are fixed, each as what it is, and
/// both have to be there; fixed ones count whatever the file says.
pub proof fn the_file_prices_count_unless_fixed(
    buy: Option<i64>,
    sell: Option<i64>,
    fixed: Option<(i64, i64)>,
)
    ensures
        ({
            let made = prices_of(buy, sell, fixed);
            &&& fixed is Some ==> made is Ok && Some(made->Ok_0) == fixed
            &&& fixed is None ==> made is Ok == (buy is Some && sell is Some)
            &&& fixed is None && made is Ok ==> ({
                let (bid, ask) = made->Ok_0;
                Some(bid) == buy && Some(ask) == sell
            })
            &&& fixed is None && buy is None ==> made->Err_0 is NoBuyPrice
            &&& fixed is None && buy is Some && sell is None ==> made->Err_0 is NoSellPrice
        }),
{
}

/// The BUY and the SELL price to trade at: the fixed ones, where there are any,
/// whatever the file says; otherwise the file has to name both.
pub fn prices(buy: Option<i64>, sell: Option<i64>, fixed: Option<(i64, i64)>) -> (r: Result<
    (i64, i64),
    SettingsError,
>)
    ensures
        r == prices_of(buy, sell, fixed),
{
    match (fixed, buy, sell) {
        (Some(pair), _, _) => Ok(pair),
        (None, None, _) => Err(SettingsError::NoBuyPrice),
        (None, Some(_), None) => Err(SettingsError::NoSellPrice),
        (None, Some(b), Some(s)) => Ok((b, s)),
    }
}

/// Why there is no wallet address.
#[derive(Debug, Clone, Copy, PartialEq, Eq, Structural)]
pub enum AddressError {
    InvalidPrivateKey,
    NoSafeWallet,
}

impl AddressError {
    /// The error in words.
    pub open spec fn text(self) -> Seq<char> {
        match self {
            AddressError::InvalidPrivateKey => "Invalid private key"@,
            AddressError::NoSafeWallet => "Failed to derive safe wallet address"@,
        }
    }

    /// The error in words.
    pub fn message(&self) -> (r: String)
        ensures
            r@ == self.text(),
    {
        match self {
            AddressError::InvalidPrivateKey => "Invalid private key".to_owned(),
            AddressError::NoSafeWallet => "Failed to derive safe wallet address".to_owned(),
        }
    }
}

/// The address of the account that signs with `private_key`, 20 bytes.
pub fn owner_address(private_key: &str) -> (r: Result<[u8; 20], AddressError>)
    ensures
        match crate::evm::signer_address(private_key@) {
            Some(address) => r matches Ok(bytes) && bytes@ == address,
            None => r == Err::<[u8; 20], AddressError>(AddressError::InvalidPrivateKey),
        },
{
    match address_of_key(private_key) {
        Some(address) => Ok(address),
        None => Err(AddressError::InvalidPrivateKey),
    }
}

/// The address that trades for `private_key`: the text of the safe wallet that
/// belongs to its owner, as the exchange's rule derived it.
///
/// The text reads back as the wallet's 20 bytes.
pub fn derive_polymarket_address(
    private_key: &str,
    safe_wallet: Option<[u8; 20]>,
) -> (r: Result<String, AddressError>)
    ensures
        match (crate::evm::signer_address(private_key@), safe_wallet) {
            (None, _) => r == Err::<String, AddressError>(AddressError::InvalidPrivateKey),
            (Some(_), None) => r == Err::<String, AddressError>(AddressError::NoSafeWallet),
            (Some(_), Some(wallet)) => {
                &&& r matches Ok(text)
                &&& text@ == crate::evm::checksum_text(wallet@)
                &&& crate::evm::fixed_hex(text@, 20) == Some(wallet@)
            },
        },
{
    match owner_address(private_key) {
        Ok(_) => match safe_wallet {
            Some(wallet) => Ok(address_text(&wallet)),
            None => Err(AddressError::NoSafeWallet),
        },
        Err(error) => Err(error),
    }
}

/// Where the wallet address comes from.
#[derive(Debug)]
pub enum WalletSource {
    /// It is in the settings.
    Configured(String),
    /// It has to be derived from this private key.
    Derived(String),
    /// There is neither an address nor a key.
    Missing,
}

impl WalletSource {
    /// Why there is no wallet, in words.
    pub open spec fn text(self) -> Option<Seq<char>> {
        match self {
            WalletSource::Missing => Some(
                "--merge-only 需要 proxy_wallet_address 或 private_key"@,
            ),
            _ => None,
        }
    }

    /// Why there is no wallet, in words.
    pub fn message(&self) -> (r: Option<String>)
        ensures
            r.deep_view() == self.text(),
    {
        match self {
            WalletSource::Missing => Some(
                "--merge-only 需要 proxy_wallet_address 或 private_key".to_owned(),
            ),
            _ => None,
        }
    }
}

/// Where the wallet whose positions are merged comes from.
pub open spec fn wallet_source(config: PolymarketConfig) -> WalletSource {
    match (config.proxy_wallet_address, config.private_key) {
        (Some(address), _) => WalletSource::Configured(address),
        (None, Some(key)) => WalletSource::Derived(key),
        (None, None) => WalletSource::Missing,
    }
}

/// The configured wallet is the one that is merged, and only without it the one
/// behind the private key.
pub proof fn the_configured_wallet_comes_first(config: PolymarketConfig)
    ensures
        ({
            let source = wallet_source(config);
            &&& source is Configured == config.proxy_wallet_address is Some
            &&& source is Missing == (config.proxy_wallet_address is None && config.private_key
                is None)
            &&& source matches WalletSource::Configured(address) ==> Some(address)
                == config.proxy_wallet_address
            &&& source matches WalletSource::Derived(key) ==> Some(key) == config.private_key
        }),
{
}

/// The wallet whose positions are merged: the configured one, or else the one
/// behind the private key.
pub fn merge_wallet(config: &PolymarketConfig) -> (r: WalletSource)
    ensures
        r == wallet_source(*config),
{
    if let Some(address) = &config.proxy_wallet_address {
        WalletSource::Configured(address.clone())
    } else if let Some(key) = &config.private_key {
        WalletSource::Derived(key.clone())
    } else {
        WalletSource::Missing
    }
}

} // verus!
