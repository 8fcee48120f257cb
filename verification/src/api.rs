//! The exchange: what is asked of it, and what its answers mean.
use vstd::prelude::*;
use vstd::string::StringSliceAdditionalSpecFns;
use vstd::utf8::{encode_utf8, is_char_boundary};

use crate::config::StrategyConfig;
use crate::decimal::{
    amount_text_is_exact, cents_text_is_exact, decimal_of, parse_decimal, parts_text,
    reads_plainly, write_decimal,
};
use crate::evm::{
    address_of_key, be_value, encode_hex, fixed_hex, hex_encoded, parse_address, parse_u256,
    signer_address, u256_limit, u256_of, u256_text, u256_text_reads_back,
};
use crate::models::{
    DetailsView, Market, MarketDetails, MarketToken, MarketView, OpenOrder, OpenOrderView,
    OrderRequest, OrderResponse, OrderView, ResponseView, TokenView,
};
use crate::money::{decimal_micros, rounded_price, shown_cents, DecimalParts};
use crate::orders::{limit_placement, sell_placement, Outcome, LATEST_INSTANT};
use crate::text::{
    is_lower, join, lower_is, lowercase, nat_text, text_eq, to_upper, uppercase,
};

verus! {

/// A long address can be cut: byte 35 and the tenth byte from the end start a
/// character.
pub open spec fn maskable(url: Seq<u8>) -> bool {
    url.len() > 50 ==> is_char_boundary(url, 35) && is_char_boundary(url, url.len() - 10)
}

/// What of an address may be shown: all of it up to 50 bytes, else the first 35
/// and the last ten bytes around three dots.
pub open spec fn masked(url: Seq<u8>) -> Seq<u8> {
    if url.len() > 50 {
        url.subrange(0, 35) + "..."@.map_values(|c: char| c as u8) + url.subrange(
            url.len() - 10,
            url.len() as int,
        )
    } else {
        url
    }
}

/// The bytes of two texts put together are the bytes of each in turn.
proof fn lemma_encode_concat(a: Seq<char>, b: Seq<char>)
    ensures
        encode_utf8(a + b) == encode_utf8(a) + encode_utf8(b),
    decreases a.len(),
{
    if a.len() == 0 {
        assert(a + b =~= b);
    } else {
        assert((a + b).drop_first() =~= a.drop_first() + b);
        lemma_encode_concat(a.drop_first(), b);
    }
}

/// Hides the middle of a long address.
pub fn mask_url(url: &str) -> (r: String)
    requires
        maskable(url.spec_bytes()),
    ensures
        encode_utf8(r@) == masked(url.spec_bytes()),
{
    let size: usize = url.as_bytes().len();
    if size > 50 {
        let (head, _) = url.split_at(35);
        let (_, tail) = url.split_at(size - 10);
        let start = join(head, "...");
        let shown = join(start.as_str(), tail);
        proof {
            reveal_strlit("...");
            let dots = "...";
            assert(vstd::string::is_ascii(dots));
            vstd::string::is_ascii_spec_bytes(dots);
            assert(dots.spec_bytes() =~= dots@.map_values(|c: char| c as u8));
            lemma_encode_concat(head@, dots@);
            lemma_encode_concat(head@ + dots@, tail@);
        }
        shown
    } else {
        url.to_owned()
    }
}

/// An address of up to 50 bytes is shown whole; of a longer one 48 bytes are
/// shown, which start and end as the address does.
pub proof fn masked_size(url: Seq<u8>)
    ensures
        masked(url).len() == if url.len() > 50 {
            48
        } else {
            url.len()
        },
        url.len() > 50 ==> masked(url).take(35) == url.take(35) && masked(url).skip(38)
            == url.skip(url.len() - 10),
        url.len() > 50 ==> masked(url)[35] == 46 && masked(url)[36] == 46 && masked(url)[37] == 46,
        url.len() <= 50 ==> masked(url) == url,
{
    reveal_strlit("...");
    if url.len() > 50 {
        assert(masked(url).take(35) =~= url.take(35));
        assert(masked(url).skip(38) =~= url.skip(url.len() - 10));
    }
}

/// What kind of request failed, and why.
#[derive(Debug, Clone, Copy, PartialEq, Eq, Structural)]
pub enum ErrorKind {
    PrivateKeyRequired,
    SignerFailed,
    ClientNotAuthenticated,
    SignerNotAuthenticated,
    InvalidProxyWallet,
    NoMarkets,
    InvalidSide,
    InvalidPrice,
    InvalidSize,
    InvalidTokenId,
    InvalidExpiration,
    OrderRejected,
    InvalidConditionId,
    NoContractConfig,
    RelayerPrivateKeyRequired,
    RelayerKeyRequired,
    RelayerKeyAddressRequired,
    RelayerFailed,
    SplitFailed,
    MergeFailed,
}

impl ErrorKind {
    /// How the message of the error starts.
    pub open spec fn text(self) -> Seq<char> {
        match self {
            ErrorKind::PrivateKeyRequired => "Private key is required"@,
            ErrorKind::SignerFailed => "Failed to create signer"@,
            ErrorKind::ClientNotAuthenticated => "Not authenticated. Call authenticate() first."@,
            ErrorKind::SignerNotAuthenticated => "Not authenticated."@,
            ErrorKind::InvalidProxyWallet => "Invalid proxy wallet address"@,
            ErrorKind::NoMarkets => "No markets found for slug: "@,
            ErrorKind::InvalidSide => "Invalid side: "@,
            ErrorKind::InvalidPrice => "Invalid price: "@,
            ErrorKind::InvalidSize => "Invalid size: "@,
            ErrorKind::InvalidTokenId => "Invalid token_id: "@,
            ErrorKind::InvalidExpiration => "Invalid expiration"@,
            ErrorKind::OrderRejected => "Order rejected: "@,
            ErrorKind::InvalidConditionId => "Invalid condition_id"@,
            ErrorKind::NoContractConfig => "No contract config for POLYGON"@,
            ErrorKind::RelayerPrivateKeyRequired => "Private key required for relayer"@,
            ErrorKind::RelayerKeyRequired => "relayer_api_key required"@,
            ErrorKind::RelayerKeyAddressRequired => "relayer_api_key_address required"@,
            ErrorKind::RelayerFailed => "Relayer "@,
            ErrorKind::SplitFailed => ""@,
            ErrorKind::MergeFailed => ""@,
        }
    }

    /// How the message of the error starts.
    fn name(&self) -> (r: &'static str)
        ensures
            r@ == self.text(),
    {
        match self {
            ErrorKind::PrivateKeyRequired => "Private key is required",
            ErrorKind::SignerFailed => "Failed to create signer",
            ErrorKind::ClientNotAuthenticated => "Not authenticated. Call authenticate() first.",
            ErrorKind::SignerNotAuthenticated => "Not authenticated.",
            ErrorKind::InvalidProxyWallet => "Invalid proxy wallet address",
            ErrorKind::NoMarkets => "No markets found for slug: ",
            ErrorKind::InvalidSide => "Invalid side: ",
            ErrorKind::InvalidPrice => "Invalid price: ",
            ErrorKind::InvalidSize => "Invalid size: ",
            ErrorKind::InvalidTokenId => "Invalid token_id: ",
            ErrorKind::InvalidExpiration => "Invalid expiration",
            ErrorKind::OrderRejected => "Order rejected: ",
            ErrorKind::InvalidConditionId => "Invalid condition_id",
            ErrorKind::NoContractConfig => "No contract config for POLYGON",
            ErrorKind::RelayerPrivateKeyRequired => "Private key required for relayer",
            ErrorKind::RelayerKeyRequired => "relayer_api_key required",
            ErrorKind::RelayerKeyAddressRequired => "relayer_api_key_address required",
            ErrorKind::RelayerFailed => "Relayer ",
            ErrorKind::SplitFailed => "",
            ErrorKind::MergeFailed => "",
        }
    }
}

/// A failure, with the text that its message ends in.
#[derive(Debug)]
pub struct ApiError {
    pub kind: ErrorKind,
    pub detail: String,
}

/// What an [`ApiError`] says.
#[verifier::ext_equal]
pub struct ErrorView {
    pub kind: ErrorKind,
    pub detail: Seq<char>,
}

impl DeepView for ApiError {
    type V = ErrorView;

    open spec fn deep_view(&self) -> ErrorView {
        ErrorView { kind: self.kind, detail: self.detail@ }
    }
}

/// A failure without a detail.
pub open spec fn plain_error(kind: ErrorKind) -> ErrorView {
    ErrorView { kind, detail: Seq::empty() }
}

impl ApiError {
    /// The error in words.
    pub fn message(&self) -> (r: String)
        ensures
            r@ == self.kind.text() + self.detail@,
    {
        join(self.kind.name(), self.detail.as_str())
    }

    /// A failure without a detail.
    pub(crate) fn plain(kind: ErrorKind) -> (r: ApiError)
        ensures
            r.deep_view() == plain_error(kind),
    {
        let detail = String::new();
        assert(detail@ =~= Seq::<char>::empty());
        ApiError { kind, detail }
    }

    /// A failure with its detail.
    pub(crate) fn with(kind: ErrorKind, detail: &str) -> (r: ApiError)
        ensures
            r.deep_view() == (ErrorView { kind, detail: detail@ }),
    {
        ApiError { kind, detail: detail.to_owned() }
    }
}

/// What a result says.
pub open spec fn result_view<T: DeepView>(result: Result<T, ApiError>) -> Result<
    T::V,
    ErrorView,
> {
    match result {
        Ok(value) => Ok(value.deep_view()),
        Err(error) => Err(error.deep_view()),
    }
}

/// The side of an order.
#[derive(Debug, Clone, Copy, PartialEq, Eq, Structural)]
pub enum Side {
    Buy,
    Sell,
}

/// How an account signs its orders.
#[derive(Debug, Clone, Copy, PartialEq, Eq, Structural)]
pub enum SignatureType {
    Eoa,
    GnosisSafe,
    Poly1271,
}

/// The kind of signature that a setting stands for.
pub open spec fn signature_of(setting: Option<u8>) -> SignatureType {
    if setting == Some(2u8) {
        SignatureType::GnosisSafe
    } else if setting == Some(3u8) {
        SignatureType::Poly1271
    } else {
        SignatureType::Eoa
    }
}

/// What an account is authenticated with.
#[derive(Debug, Clone, Copy)]
pub struct AuthPlan {
    /// The address that signs.
    pub signer: [u8; 20],
    /// The wallet that pays, where it is another one.
    pub funder: Option<[u8; 20]>,
    pub signature_type: SignatureType,
}

/// What an [`AuthPlan`] says.
#[verifier::ext_equal]
pub struct AuthView {
    pub signer: Seq<u8>,
    pub funder: Option<Seq<u8>>,
    pub signature_type: SignatureType,
}

impl DeepView for AuthPlan {
    type V = AuthView;

    open spec fn deep_view(&self) -> AuthView {
        AuthView {
            signer: self.signer@,
            funder: crate::evm::bytes_view(self.funder),
            signature_type: self.signature_type,
        }
    }
}

/// What the account of these settings is authenticated with.
pub open spec fn auth_plan(
    private_key: Option<Seq<char>>,
    proxy_wallet: Option<Seq<char>>,
    signature_type: Option<u8>,
) -> Result<AuthView, ErrorView> {
    match private_key {
        None => Err(plain_error(ErrorKind::PrivateKeyRequired)),
        Some(key) => match signer_address(key) {
            None => Err(plain_error(ErrorKind::SignerFailed)),
            Some(signer) => match proxy_wallet {
                None => Ok(
                    AuthView { signer, funder: None, signature_type: signature_of(signature_type) },
                ),
                Some(wallet) => match fixed_hex(wallet, 20) {
                    None => Err(plain_error(ErrorKind::InvalidProxyWallet)),
                    Some(funder) => Ok(
                        AuthView {
                            signer,
                            funder: Some(funder),
                            signature_type: signature_of(signature_type),
                        },
                    ),
                },
            },
        },
    }
}

/// The text that RFC 3339 gives an instant of UTC; nothing for an instant
/// outside of the calendar.
pub uninterp spec fn rfc3339(seconds: i64, nanos: u32) -> Option<Seq<char>>;

/// An instant of UTC. Nanoseconds past one second stand for a leap second.
#[derive(Debug, Clone, Copy)]
pub struct Instant {
    pub seconds: i64,
    pub nanos: u32,
}

/// Calls `chrono::DateTime::from_timestamp` and `to_rfc3339` of its result,
/// which is there exactly where the calendar holds the instant.
#[verifier::external_body]
fn instant_text(instant: Instant) -> (r: Option<String>)
    ensures
        r.deep_view() == rfc3339(instant.seconds, instant.nanos),
        r is Some == (-8_334_601_228_800 <= instant.seconds <= LATEST_INSTANT && (instant.nanos
            < 1_000_000_000 || (instant.nanos < 2_000_000_000 && instant.seconds as int % 60
            == 59))),
{
    chrono::DateTime::from_timestamp(instant.seconds, instant.nanos).map(|at| at.to_rfc3339())
}

/// Calls `chrono::DateTime::from_timestamp`: whether the calendar holds this
/// second.
#[verifier::external_body]
fn in_calendar(seconds: i64) -> (r: bool)
    ensures
        r == (-8_334_601_228_800 <= seconds <= LATEST_INSTANT),
{
    chrono::DateTime::from_timestamp(seconds, 0).is_some()
}

/// A market in an answer of the event listing.
#[derive(Debug)]
pub struct GammaMarket {
    pub id: String,
    pub condition_id: Option<[u8; 32]>,
    pub question: Option<String>,
    pub slug: Option<String>,
    pub end_date: Option<Instant>,
}

/// An answer of the event listing.
#[derive(Debug)]
pub struct GammaEvent {
    pub markets: Option<Vec<GammaMarket>>,
    pub active: Option<bool>,
    pub closed: Option<bool>,
}

/// The text that may be missing, or an empty one.
pub open spec fn or_empty(text: Option<Seq<char>>) -> Seq<char> {
    match text {
        Some(inner) => inner,
        None => Seq::empty(),
    }
}

/// The text of an instant that may be missing.
pub open spec fn date_text(date: Option<Instant>) -> Option<Seq<char>> {
    match date {
        Some(instant) => rfc3339(instant.seconds, instant.nanos),
        None => None,
    }
}

/// The market that an answer of the event listing leads with. Its condition is
/// written in hexadecimal; what is missing is left empty; an event that does
/// not say so is neither active nor closed.
pub open spec fn first_market(slug: Seq<char>, event: GammaEvent) -> Result<MarketView, ErrorView> {
    match event.markets {
        Some(markets) => if markets@.len() > 0 {
            let market = markets@[0];
            Ok(
                MarketView {
                    condition_id: match market.condition_id {
                        Some(bytes) => "0x"@ + hex_encoded(bytes@),
                        None => Seq::empty(),
                    },
                    market_id: Some(market.id@),
                    question: or_empty(market.question.deep_view()),
                    slug: or_empty(market.slug.deep_view()),
                    end_date_iso: date_text(market.end_date),
                    active: event.active == Some(true),
                    closed: event.closed == Some(true),
                },
            )
        } else {
            Err(ErrorView { kind: ErrorKind::NoMarkets, detail: slug })
        },
        None => Err(ErrorView { kind: ErrorKind::NoMarkets, detail: slug }),
    }
}

/// A token in an answer of the order book; its id is a 256-bit number.
#[derive(Debug)]
pub struct BookToken {
    pub outcome: String,
    pub token_id: [u8; 32],
    pub winner: bool,
}

/// An answer of the order book on one market.
#[derive(Debug)]
pub struct BookMarket {
    pub question: String,
    pub tokens: Vec<BookToken>,
    pub active: bool,
    pub closed: bool,
    pub end_date: Option<Instant>,
}

/// A token with its id in decimal.
pub open spec fn book_token(token: BookToken) -> TokenView {
    TokenView {
        outcome: token.outcome@,
        token_id: nat_text(be_value(token.token_id@)),
        winner: token.winner,
    }
}

/// The market that an answer of the order book describes.
pub open spec fn book_market(condition_id: Seq<char>, market: BookMarket) -> DetailsView {
    DetailsView {
        condition_id,
        question: market.question@,
        tokens: market.tokens@.map_values(|token: BookToken| book_token(token)),
        active: market.active,
        closed: market.closed,
        end_date_iso: or_empty(date_text(market.end_date)),
    }
}

/// A winning token carries this outcome, whatever the case of its letters.
pub open spec fn outcome_won(tokens: Seq<TokenView>, word: Seq<char>) -> bool {
    exists|i: int|
        0 <= i < tokens.len() && lower_is((#[trigger] tokens[i]).outcome, word)
            && tokens[i].winner
}

/// Whether a market is closed, who won, and whether each outcome did.
pub open spec fn resolution(market: DetailsView) -> (bool, Option<Seq<char>>, bool, bool) {
    let up = outcome_won(market.tokens, "yes"@);
    let down = outcome_won(market.tokens, "no"@);
    (
        market.closed,
        if up {
            Some("up"@)
        } else if down {
            Some("down"@)
        } else {
            None
        },
        up,
        down,
    )
}

/// An order in the terms of the exchange.
#[derive(Debug, Clone, Copy)]
pub struct OrderPlan {
    pub token_id: [u8; 32],
    pub side: Side,
    pub size: DecimalParts,
    pub price: DecimalParts,
    /// When the order lapses; without it the order rests until it is cancelled.
    pub expiration: Option<i64>,
}

/// What an [`OrderPlan`] says.
#[verifier::ext_equal]
pub struct OrderPlanView {
    pub token_id: nat,
    pub side: Side,
    pub size: (i128, u32),
    pub price: (i128, u32),
    pub expiration: Option<i64>,
}

impl DeepView for OrderPlan {
    type V = OrderPlanView;

    open spec fn deep_view(&self) -> OrderPlanView {
        OrderPlanView {
            token_id: be_value(self.token_id@),
            side: self.side,
            size: (self.size.mantissa, self.size.scale),
            price: (self.price.mantissa, self.price.scale),
            expiration: self.expiration,
        }
    }
}

/// When an order lapses: at the time it names, where it is good till a date.
pub open spec fn order_expiration(order: OrderView) -> Option<i64> {
    if order.time_in_force == Some("GTD"@) {
        order.expire_after
    } else {
        None
    }
}

/// An order in the terms of the exchange, or what is wrong with it. The side is
/// looked at first, and then the price, the size, the token and the time.
pub open spec fn order_plan(order: OrderView) -> Result<OrderPlanView, ErrorView> {
    if order.side != "BUY"@ && order.side != "SELL"@ {
        Err(ErrorView { kind: ErrorKind::InvalidSide, detail: order.side })
    } else if decimal_of(order.price) is None {
        Err(ErrorView { kind: ErrorKind::InvalidPrice, detail: order.price })
    } else if decimal_of(order.size) is None {
        Err(ErrorView { kind: ErrorKind::InvalidSize, detail: order.size })
    } else if u256_of(order.token_id) is None {
        Err(ErrorView { kind: ErrorKind::InvalidTokenId, detail: order.token_id })
    } else if order_expiration(order) matches Some(at) && !(-8_334_601_228_800 <= at
        <= LATEST_INSTANT) {
        Err(plain_error(ErrorKind::InvalidExpiration))
    } else {
        Ok(
            OrderPlanView {
                token_id: u256_of(order.token_id)->0,
                side: if order.side == "BUY"@ {
                    Side::Buy
                } else {
                    Side::Sell
                },
                size: decimal_of(order.size)->0,
                price: decimal_of(order.price)->0,
                expiration: order_expiration(order),
            },
        )
    }
}

/// The exchange's answer to an order.
#[derive(Debug)]
pub struct PostReply {
    pub success: bool,
    pub error_msg: Option<String>,
    pub order_id: String,
    pub status: String,
}

/// What came of an order that the exchange answered.
pub open spec fn posted(reply: PostReply) -> Result<ResponseView, ErrorView> {
    if reply.success {
        Ok(
            ResponseView {
                order_id: Some(reply.order_id@),
                status: reply.status@,
                message: Some("Order ID: "@ + reply.order_id@),
            },
        )
    } else {
        Err(
            ErrorView {
                kind: ErrorKind::OrderRejected,
                detail: match reply.error_msg {
                    Some(text) => text@,
                    None => "Unknown error"@,
                },
            },
        )
    }
}

/// A price that is asked for.
#[derive(Debug, Clone, Copy)]
pub struct PricePlan {
    pub token_id: [u8; 32],
    pub side: Side,
}

/// What a [`PricePlan`] says.
#[verifier::ext_equal]
pub struct PricePlanView {
    pub token_id: nat,
    pub side: Side,
}

impl DeepView for PricePlan {
    type V = PricePlanView;

    open spec fn deep_view(&self) -> PricePlanView {
        PricePlanView { token_id: be_value(self.token_id@), side: self.side }
    }
}

/// How far an order has come.
#[derive(Debug, Clone, Copy, PartialEq, Eq, Structural)]
pub enum OrderStatus {
    Matched,
    Other,
}

/// Which of two orders are filled, by what the exchange said of each.
pub open spec fn filled_sides(up: Option<OrderStatus>, down: Option<OrderStatus>) -> (bool, bool) {
    (up == Some(OrderStatus::Matched), down == Some(OrderStatus::Matched))
}

/// The price to ask for, or why it cannot be asked for.
pub open spec fn price_plan(authenticated: bool, token_id: Seq<char>, side: Seq<char>) -> Result<
    PricePlanView,
    ErrorView,
> {
    if !authenticated {
        Err(plain_error(ErrorKind::ClientNotAuthenticated))
    } else if u256_of(token_id) is None {
        Err(ErrorView { kind: ErrorKind::InvalidTokenId, detail: token_id })
    } else {
        Ok(
            PricePlanView {
                token_id: u256_of(token_id)->0,
                side: if uppercase(side) == "SELL"@ {
                    Side::Sell
                } else {
                    Side::Buy
                },
            },
        )
    }
}

/// A resting order in an answer of the exchange. The side and the status are in
/// words; the token is a 256-bit number.
#[derive(Debug)]
pub struct BookOrder {
    pub id: String,
    pub market: String,
    pub side: String,
    pub original_size: DecimalParts,
    pub price: DecimalParts,
    pub status: String,
    pub size_matched: DecimalParts,
    pub asset_id: [u8; 32],
}

impl BookOrder {
    /// The numbers are ones that the exchange can hold.
    pub open spec fn valid(self) -> bool {
        self.original_size.valid() && self.price.valid() && self.size_matched.valid()
    }
}

/// The resting order that an answer describes.
pub open spec fn book_order(order: BookOrder) -> OpenOrderView {
    OpenOrderView {
        order_id: order.id@,
        market: Some(order.market@),
        side: uppercase(order.side@),
        size: parts_text(order.original_size),
        price: parts_text(order.price),
        status: order.status@,
        fill_size: Some(parts_text(order.size_matched)),
        avg_fill_price: None,
        token_id: nat_text(be_value(order.asset_id@)),
    }
}

/// The exchange as one account sees it.
#[derive(Debug)]
pub struct PolymarketApi {
    pub gamma_url: String,
    pub clob_url: String,
    pub api_key: Option<String>,
    pub api_secret: Option<String>,
    pub api_passphrase: Option<String>,
    pub private_key: Option<String>,
    pub proxy_wallet_address: Option<String>,
    pub signature_type: Option<u8>,
    pub rpc_url: Option<String>,
    pub rpc_backup_url: Option<String>,
    pub use_relayer: bool,
    pub relayer_api_key: Option<String>,
    pub relayer_api_key_address: Option<String>,
    /// The address that signs, once the account is authenticated.
    pub signer: Option<[u8; 20]>,
}

/// The node that transactions go to: the configured one, else the one that the
/// environment names, else the one that an Alchemy key opens, else a public
/// one. An empty variable counts as missing.
pub open spec fn rpc_url_of(
    configured: Option<Seq<char>>,
    polygon_rpc_url: Option<Seq<char>>,
    alchemy_api_key: Option<Seq<char>>,
) -> Seq<char> {
    match configured {
        Some(url) => url,
        None => if polygon_rpc_url is Some && polygon_rpc_url->0.len() > 0 {
            polygon_rpc_url->0
        } else if alchemy_api_key is Some && alchemy_api_key->0.len() > 0 {
            "https://polygon-mainnet.g.alchemy.com/v2/"@ + alchemy_api_key->0
        } else {
            "https://polygon-rpc.com"@
        },
    }
}

impl PolymarketApi {
    /// An account that is not authenticated yet.
    pub fn new(
        gamma_url: String,
        clob_url: String,
        api_key: Option<String>,
        api_secret: Option<String>,
        api_passphrase: Option<String>,
        private_key: Option<String>,
        proxy_wallet_address: Option<String>,
        signature_type: Option<u8>,
        rpc_url: Option<String>,
        rpc_backup_url: Option<String>,
        use_relayer: bool,
        relayer_api_key: Option<String>,
        relayer_api_key_address: Option<String>,
    ) -> (r: Self)
        ensures
            r == (PolymarketApi {
                gamma_url,
                clob_url,
                api_key,
                api_secret,
                api_passphrase,
                private_key,
                proxy_wallet_address,
                signature_type,
                rpc_url,
                rpc_backup_url,
                use_relayer,
                relayer_api_key,
                relayer_api_key_address,
                signer: None,
            }),
    {
        PolymarketApi {
            gamma_url,
            clob_url,
            api_key,
            api_secret,
            api_passphrase,
            private_key,
            proxy_wallet_address,
            signature_type,
            rpc_url,
            rpc_backup_url,
            use_relayer,
            relayer_api_key,
            relayer_api_key_address,
            signer: None,
        }
    }

    /// The node that transactions go to, given the variables `POLYGON_RPC_URL`
    /// and `ALCHEMY_API_KEY` of the environment.
    pub fn get_rpc_url(
        &self,
        polygon_rpc_url: Option<String>,
        alchemy_api_key: Option<String>,
    ) -> (r: String)
        ensures
            r@ == rpc_url_of(
                self.rpc_url.deep_view(),
                polygon_rpc_url.deep_view(),
                alchemy_api_key.deep_view(),
            ),
    {
        if let Some(url) = &self.rpc_url {
            return url.clone();
        }
        if let Some(url) = polygon_rpc_url {
            if !url.as_str().is_empty() {
                return url;
            }
        }
        if let Some(key) = alchemy_api_key {
            if !key.as_str().is_empty() {
                return join("https://polygon-mainnet.g.alchemy.com/v2/", key.as_str());
            }
        }
        "https://polygon-rpc.com".to_owned()
    }

    /// The address that the private key signs for.
    pub fn create_signer(&self) -> (r: Result<[u8; 20], ApiError>)
        ensures
            match (match self.private_key {
                Some(key) => signer_address(key@),
                None => None,
            }) {
                Some(address) => r matches Ok(bytes) && bytes@ == address,
                None => r matches Err(error) && error.deep_view() == plain_error(
                    if self.private_key is None {
                        ErrorKind::PrivateKeyRequired
                    } else {
                        ErrorKind::SignerFailed
                    },
                ),
            },
    {
        match &self.private_key {
            Some(key) => match address_of_key(key.as_str()) {
                Some(address) => Ok(address),
                None => Err(ApiError::plain(ErrorKind::SignerFailed)),
            },
            None => Err(ApiError::plain(ErrorKind::PrivateKeyRequired)),
        }
    }

    /// Fails unless the account is authenticated.
    pub fn get_clob_client(&self) -> (r: Result<(), ApiError>)
        ensures
            r is Ok == self.signer is Some,
            r matches Err(error) ==> error.deep_view() == plain_error(
                ErrorKind::ClientNotAuthenticated,
            ),
    {
        if self.signer.is_some() {
            Ok(())
        } else {
            Err(ApiError::plain(ErrorKind::ClientNotAuthenticated))
        }
    }

    /// The address that signs, once the account is authenticated.
    pub fn get_signer(&self) -> (r: Result<[u8; 20], ApiError>)
        ensures
            match self.signer {
                Some(address) => r == Ok::<[u8; 20], ApiError>(address),
                None => r matches Err(error) && error.deep_view() == plain_error(
                    ErrorKind::SignerNotAuthenticated,
                ),
            },
    {
        match self.signer {
            Some(address) => Ok(address),
            None => Err(ApiError::plain(ErrorKind::SignerNotAuthenticated)),
        }
    }

    /// What the account is authenticated with.
    pub fn authenticate(&self) -> (r: Result<AuthPlan, ApiError>)
        ensures
            result_view(r) == auth_plan(
                self.private_key.deep_view(),
                self.proxy_wallet_address.deep_view(),
                self.signature_type,
            ),
    {
        let signer = match self.create_signer() {
            Ok(address) => address,
            Err(error) => {
                return Err(error);
            },
        };
        let funder = match &self.proxy_wallet_address {
            Some(wallet) => match parse_address(wallet.as_str()) {
                Ok(address) => Some(address),
                Err(_) => {
                    return Err(ApiError::plain(ErrorKind::InvalidProxyWallet));
                },
            },
            None => None,
        };
        let signature_type = match self.signature_type {
            Some(2) => SignatureType::GnosisSafe,
            Some(3) => SignatureType::Poly1271,
            _ => SignatureType::Eoa,
        };
        Ok(AuthPlan { signer, funder, signature_type })
    }

    /// Notes that the exchange has taken the account in.
    pub fn authenticated(&mut self, plan: &AuthPlan)
        ensures
            *final(self) == (PolymarketApi { signer: Some(plan.signer), ..*old(self) }),
    {
        self.signer = Some(plan.signer);
    }

    /// The market that the event listing's answer for `slug` leads with.
    pub fn get_market_by_slug(slug: &str, event: &GammaEvent) -> (r: Result<Market, ApiError>)
        ensures
            result_view(r) == first_market(slug@, *event),
    {
        match &event.markets {
            Some(markets) => if markets.len() > 0 {
                let market = &markets[0];
                let condition_id = match &market.condition_id {
                    Some(bytes) => join("0x", encode_hex(bytes).as_str()),
                    None => empty_text(),
                };
                Ok(
                    Market {
                        condition_id,
                        market_id: Some(market.id.clone()),
                        question: text_or_empty(&market.question),
                        slug: text_or_empty(&market.slug),
                        end_date_iso: write_date(&market.end_date),
                        active: matches!(event.active, Some(true)),
                        closed: matches!(event.closed, Some(true)),
                    },
                )
            } else {
                Err(ApiError::with(ErrorKind::NoMarkets, slug))
            },
            None => Err(ApiError::with(ErrorKind::NoMarkets, slug)),
        }
    }

    /// The market that the order book's answer for `condition_id` describes. The
    /// account has to be authenticated.
    pub fn get_market(&self, condition_id: &str, market: &BookMarket) -> (r: Result<
        MarketDetails,
        ApiError,
    >)
        ensures
            result_view(r) == if self.signer is None {
                Err(plain_error(ErrorKind::ClientNotAuthenticated))
            } else {
                Ok(book_market(condition_id@, *market))
            },
    {
        if let Err(error) = self.get_clob_client() {
            return Err(error);
        }
        let mut tokens: Vec<MarketToken> = Vec::new();
        let mut i: usize = 0;
        while i < market.tokens.len()
            invariant
                0 <= i <= market.tokens@.len(),
                tokens@.len() == i,
                forall|j: int|
                    0 <= j < i ==> (#[trigger] tokens@[j]).deep_view() == book_token(
                        market.tokens@[j],
                    ),
            decreases market.tokens@.len() - i,
        {
            let token = &market.tokens[i];
            tokens.push(
                MarketToken {
                    outcome: token.outcome.clone(),
                    token_id: u256_text(&token.token_id),
                    winner: token.winner,
                },
            );
            i = i + 1;
        }
        assert(tokens.deep_view() =~= book_market(condition_id@, *market).tokens) by {
            assert forall|j: int| 0 <= j < tokens@.len() implies #[trigger] tokens.deep_view()[j]
                == book_token(market.tokens@[j]) by {
                assert(tokens.deep_view()[j] == tokens@[j].deep_view());
            }
        }
        Ok(
            MarketDetails {
                condition_id: condition_id.to_owned(),
                question: market.question.clone(),
                tokens,
                active: market.active,
                closed: market.closed,
                end_date_iso: match write_date(&market.end_date) {
                    Some(text) => text,
                    None => empty_text(),
                },
            },
        )
    }

    /// Whether a market is closed, who won, and whether each outcome did: "yes"
    /// stands for up and "no" for down.
    pub fn check_market_resolved(market: &MarketDetails) -> (r: (bool, Option<String>, bool, bool))
        ensures
            (r.0, r.1.deep_view(), r.2, r.3) == resolution(market.deep_view()),
    {
        let up_wins = has_won(&market.tokens, "yes");
        let down_wins = has_won(&market.tokens, "no");
        let winner = if up_wins {
            Some("up".to_owned())
        } else if down_wins {
            Some("down".to_owned())
        } else {
            None
        };
        (market.closed, winner, up_wins, down_wins)
    }

    /// An order in the terms of the exchange. The account has to be
    /// authenticated. A size or a price that is written plainly is taken, and
    /// taken exactly.
    pub fn place_order(&self, order: &OrderRequest) -> (r: Result<OrderPlan, ApiError>)
        ensures
            result_view(r) == if self.signer is None {
                Err(plain_error(ErrorKind::ClientNotAuthenticated))
            } else {
                order_plan(order.deep_view())
            },
            r matches Ok(plan) ==> reads_plainly(order.price@, Some(plan.price)) && reads_plainly(
                order.size@,
                Some(plan.size),
            ),
            r matches Err(error) && error.kind == ErrorKind::InvalidPrice ==> reads_plainly(
                order.price@,
                None,
            ),
            r matches Err(error) && error.kind == ErrorKind::InvalidSize ==> reads_plainly(
                order.size@,
                None,
            ),
    {
        if let Err(error) = self.get_clob_client() {
            return Err(error);
        }
        let side = if text_eq(order.side.as_str(), "BUY") {
            Side::Buy
        } else if text_eq(order.side.as_str(), "SELL") {
            Side::Sell
        } else {
            return Err(ApiError::with(ErrorKind::InvalidSide, order.side.as_str()));
        };
        let price = match parse_decimal(order.price.as_str()) {
            Some(parts) => parts,
            None => {
                return Err(ApiError::with(ErrorKind::InvalidPrice, order.price.as_str()));
            },
        };
        let size = match parse_decimal(order.size.as_str()) {
            Some(parts) => parts,
            None => {
                return Err(ApiError::with(ErrorKind::InvalidSize, order.size.as_str()));
            },
        };
        let token_id = match parse_u256(order.token_id.as_str()) {
            Some(bytes) => bytes,
            None => {
                return Err(ApiError::with(ErrorKind::InvalidTokenId, order.token_id.as_str()));
            },
        };
        let dated = match &order.time_in_force {
            Some(kind) => text_eq(kind.as_str(), "GTD"),
            None => false,
        };
        let expiration = if dated {
            order.expire_after
        } else {
            None
        };
        if let Some(at) = expiration {
            if !in_calendar(at) {
                return Err(ApiError::plain(ErrorKind::InvalidExpiration));
            }
        }
        Ok(OrderPlan { token_id, side, size, price, expiration })
    }

    /// What came of an order that the exchange answered.
    pub fn order_posted(reply: PostReply) -> (r: Result<OrderResponse, ApiError>)
        ensures
            result_view(r) == posted(reply),
    {
        if !reply.success {
            let detail = match reply.error_msg {
                Some(text) => text,
                None => "Unknown error".to_owned(),
            };
            return Err(ApiError { kind: ErrorKind::OrderRejected, detail });
        }
        Ok(
            OrderResponse {
                message: Some(join("Order ID: ", reply.order_id.as_str())),
                order_id: Some(reply.order_id),
                status: reply.status,
            },
        )
    }

    /// The price to ask for: the selling one where `side` says so, the buying
    /// one otherwise. The account has to be authenticated.
    pub fn get_price(&self, token_id: &str, side: &str) -> (r: Result<PricePlan, ApiError>)
        ensures
            result_view(r) == price_plan(self.signer is Some, token_id@, side@),
    {
        if let Err(error) = self.get_clob_client() {
            return Err(error);
        }
        let upper = to_upper(side);
        let side_kind = if text_eq(upper.as_str(), "SELL") {
            Side::Sell
        } else {
            Side::Buy
        };
        match parse_u256(token_id) {
            Some(bytes) => Ok(PricePlan { token_id: bytes, side: side_kind }),
            None => Err(ApiError::with(ErrorKind::InvalidTokenId, token_id)),
        }
    }

    /// Whether each of two orders is filled, by what the exchange said of it,
    /// if it said anything. The account has to be authenticated.
    pub fn are_both_orders_filled(&self, up: Option<OrderStatus>, down: Option<OrderStatus>) -> (r:
        Result<(bool, bool), ApiError>)
        ensures
            match self.signer {
                Some(_) => r == Ok::<(bool, bool), ApiError>(filled_sides(up, down)),
                None => r matches Err(error) && error.deep_view() == plain_error(
                    ErrorKind::ClientNotAuthenticated,
                ),
            },
    {
        if let Err(error) = self.get_clob_client() {
            return Err(error);
        }
        Ok(
            (
                matches!(up, Some(OrderStatus::Matched)),
                matches!(down, Some(OrderStatus::Matched)),
            ),
        )
    }

    /// The resting orders that an answer of the exchange describes, in its
    /// order. The account has to be authenticated.
    pub fn get_open_orders(&self, page: &Vec<BookOrder>) -> (r: Result<Vec<OpenOrder>, ApiError>)
        requires
            forall|i: int| 0 <= i < page@.len() ==> (#[trigger] page@[i]).valid(),
        ensures
            match r {
                Ok(orders) => self.signer is Some && orders@.len() == page@.len() && forall|i: int|
                    0 <= i < orders@.len() ==> (#[trigger] orders@[i]).deep_view() == book_order(
                        page@[i],
                    ),
                Err(error) => self.signer is None && error.deep_view() == plain_error(
                    ErrorKind::ClientNotAuthenticated,
                ),
            },
    {
        if let Err(error) = self.get_clob_client() {
            return Err(error);
        }
        let mut orders: Vec<OpenOrder> = Vec::new();
        let mut i: usize = 0;
        while i < page.len()
            invariant
                0 <= i <= page@.len(),
                orders@.len() == i,
                forall|j: int| 0 <= j < page@.len() ==> (#[trigger] page@[j]).valid(),
                forall|j: int|
                    0 <= j < i ==> (#[trigger] orders@[j]).deep_view() == book_order(page@[j]),
            decreases page@.len() - i,
        {
            let order = &page[i];
            assert(page@[i as int].valid());
            orders.push(
                OpenOrder {
                    order_id: order.id.clone(),
                    market: Some(order.market.clone()),
                    side: to_upper(order.side.as_str()),
                    size: write_decimal(order.original_size),
                    price: write_decimal(order.price),
                    status: order.status.clone(),
                    fill_size: Some(write_decimal(order.size_matched)),
                    avg_fill_price: None,
                    token_id: u256_text(&order.asset_id),
                },
            );
            i = i + 1;
        }
        Ok(orders)
    }
}

/// An empty text.
pub(crate) fn empty_text() -> (r: String)
    ensures
        r@ == Seq::<char>::empty(),
{
    let text = String::new();
    assert(text@ =~= Seq::<char>::empty());
    text
}

/// The text that may be missing, or an empty one.
pub(crate) fn text_or_empty(text: &Option<String>) -> (r: String)
    ensures
        r@ == or_empty(text.deep_view()),
{
    match text {
        Some(inner) => inner.clone(),
        None => empty_text(),
    }
}

/// The text of an instant that may be missing.
fn write_date(date: &Option<Instant>) -> (r: Option<String>)
    ensures
        r.deep_view() == date_text(*date),
{
    match date {
        Some(instant) => instant_text(*instant),
        None => None,
    }
}

/// Whether a winning token carries this outcome, whatever the case of its
/// letters.
fn has_won(tokens: &Vec<MarketToken>, word: &str) -> (r: bool)
    ensures
        r == outcome_won(tokens.deep_view(), word@),
{
    let mut i: usize = 0;
    while i < tokens.len()
        invariant
            0 <= i <= tokens@.len(),
            forall|j: int|
                0 <= j < i ==> !(lower_is((#[trigger] tokens.deep_view()[j]).outcome, word@)
                    && tokens.deep_view()[j].winner),
        decreases tokens@.len() - i,
    {
        assert(tokens.deep_view()[i as int] == tokens@[i as int].deep_view());
        if is_lower(tokens[i].outcome.as_str(), word) && tokens[i].winner {
            return true;
        }
        i = i + 1;
    }
    false
}

/// What the strategy meant is what the exchange is asked for: the plan for an
/// order of the configured shares has exactly those shares and the rounded
/// price, and the plan for the order that answers a fill has exactly the filled
/// shares and the cents that its price is written with.
pub proof fn orders_are_exact(
    config: StrategyConfig,
    token_id: Seq<char>,
    side: Seq<char>,
    outcome: Outcome,
    shares: i64,
    price: i64,
    now: i64,
    limit: OrderPlan,
    sell: OrderPlan,
)
    requires
        ({
            let placed = limit_placement(config, token_id, side, price as int, now);
            placed is Send ==> reads_plainly(placed->Send_0.price, Some(limit.price))
                && reads_plainly(placed->Send_0.size, Some(limit.size))
        }),
        ({
            let answer = sell_placement(false, outcome, token_id, shares as int, price as int, now);
            answer is Send ==> reads_plainly(answer->Send_0.price, Some(sell.price))
                && reads_plainly(answer->Send_0.size, Some(sell.size))
        }),
    ensures
        !config.simulation_mode ==> decimal_micros(
            limit.size.mantissa as int,
            limit.size.scale as nat,
        ) == config.shares && decimal_micros(limit.price.mantissa as int, limit.price.scale as nat)
            == rounded_price(price as int),
        decimal_micros(sell.size.mantissa as int, sell.size.scale as nat) == shares,
        sell.price.scale == 2 && sell.price.mantissa == shown_cents(price as int),
{
    amount_text_is_exact(shares, Some(sell.size));
    cents_text_is_exact(price, Some(sell.price));
    if !config.simulation_mode {
        amount_text_is_exact(config.shares, Some(limit.size));
        amount_text_is_exact(rounded_price(price as int) as i64, Some(limit.price));
    }
}

/// An order is taken exactly where its side is BUY or SELL, its price and its
/// size are decimals, its token is a number and its date, where it is good till
/// one, lies in the calendar. It is then planned as it is written: a BUY to buy,
/// a SELL to sell, its own token, price, size and date. Otherwise the first of
/// these that fails is the error.
pub proof fn an_order_is_planned_as_written(order: OrderView)
    ensures
        ({
            let made = order_plan(order);
            let sided = order.side == "BUY"@ || order.side == "SELL"@;
            let priced = decimal_of(order.price) is Some;
            let sized = decimal_of(order.size) is Some;
            let named = u256_of(order.token_id) is Some;
            let dated = order.time_in_force == Some("GTD"@) && order.expire_after is Some;
            let reached = !dated || -8_334_601_228_800 <= order.expire_after->0
                <= 8_210_266_876_799;
            &&& made is Ok == (sided && priced && sized && named && reached)
            &&& made matches Ok(plan) ==> {
                &&& (plan.side == Side::Buy) == (order.side == "BUY"@)
                &&& (plan.side == Side::Sell) == (order.side == "SELL"@)
                &&& Some(plan.price) == decimal_of(order.price)
                &&& Some(plan.size) == decimal_of(order.size)
                &&& Some(plan.token_id) == u256_of(order.token_id)
                &&& dated ==> plan.expiration == order.expire_after
                &&& !dated ==> plan.expiration is None
            }
            &&& !sided ==> made == Err::<OrderPlanView, ErrorView>(
                ErrorView { kind: ErrorKind::InvalidSide, detail: order.side },
            )
            &&& sided && !priced ==> made == Err::<OrderPlanView, ErrorView>(
                ErrorView { kind: ErrorKind::InvalidPrice, detail: order.price },
            )
            &&& sided && priced && !sized ==> made == Err::<OrderPlanView, ErrorView>(
                ErrorView { kind: ErrorKind::InvalidSize, detail: order.size },
            )
            &&& sided && priced && sized && !named ==> made == Err::<OrderPlanView, ErrorView>(
                ErrorView { kind: ErrorKind::InvalidTokenId, detail: order.token_id },
            )
            &&& sided && priced && sized && named && !reached ==> made is Err
                && made->Err_0.kind == ErrorKind::InvalidExpiration
        }),
{
    reveal_strlit("BUY");
    reveal_strlit("SELL");
    assert("BUY"@.len() != "SELL"@.len());
}

/// An order that the exchange took goes by the name that it gave; one that it
/// did not take is an error with its words.
pub proof fn an_accepted_order_has_its_name(reply: PostReply)
    ensures
        ({
            let made = posted(reply);
            &&& made is Ok == reply.success
            &&& made matches Ok(response) ==> response.order_id == Some(reply.order_id@)
                && response.status == reply.status@ && response.message == Some(
                "Order ID: "@ + reply.order_id@,
            )
            &&& made matches Err(error) ==> error.kind == ErrorKind::OrderRejected
            &&& made is Err && reply.error_msg is Some ==> made->Err_0.detail
                == reply.error_msg->0@
            &&& made is Err && reply.error_msg is None ==> made->Err_0.detail == "Unknown error"@
        }),
{
}

/// The first order is called filled exactly where the exchange said so of the
/// first, and the second where it said so of the second.
pub proof fn each_order_is_filled_on_its_own_word(
    up: Option<OrderStatus>,
    down: Option<OrderStatus>,
)
    ensures
        filled_sides(up, down).0 == (up is Some && up->0 is Matched),
        filled_sides(up, down).1 == (down is Some && down->0 is Matched),
        filled_sides(down, up) == (filled_sides(up, down).1, filled_sides(up, down).0),
{
}

/// The price is asked of the token that is named, on the side that is named.
pub proof fn a_price_is_asked_of_its_token(token_id: Seq<char>, side: Seq<char>)
    ensures
        price_plan(false, token_id, side) is Err,
        price_plan(true, token_id, side) is Ok == u256_of(token_id) is Some,
        price_plan(true, token_id, side) matches Ok(plan) ==> Some(plan.token_id) == u256_of(
            token_id,
        ) && (plan.side == Side::Sell) == (uppercase(side) == "SELL"@),
{
}

/// 256 to the power of `n`.
spec fn pow256(n: nat) -> nat
    decreases n,
{
    if n == 0 {
        1
    } else {
        256 * pow256((n - 1) as nat)
    }
}

/// The number that bytes spell out is below the power of their count.
proof fn lemma_bytes_in_range(bytes: Seq<u8>)
    ensures
        be_value(bytes) < pow256(bytes.len()),
    decreases bytes.len(),
{
    if bytes.len() > 0 {
        lemma_bytes_in_range(bytes.drop_last());
    }
}

/// The number that 32 bytes spell out is one of 256 bits.
proof fn lemma_word_in_range(bytes: Seq<u8>)
    requires
        bytes.len() == 32,
    ensures
        be_value(bytes) < u256_limit(),
{
    lemma_bytes_in_range(bytes);
    reveal_with_fuel(pow256, 33);
}

/// A token of the order book keeps its outcome and whether it won, and its name
/// is its number, which an order with that name is for.
pub proof fn a_token_goes_by_its_number(market: BookMarket, condition_id: Seq<char>, place: int)
    requires
        0 <= place < market.tokens@.len(),
    ensures
        ({
            let shown = book_market(condition_id, market);
            let token = shown.tokens[place];
            &&& shown.condition_id == condition_id
            &&& shown.active == market.active
            &&& shown.closed == market.closed
            &&& shown.question == market.question@
            &&& shown.tokens.len() == market.tokens@.len()
            &&& token.outcome == market.tokens@[place].outcome@
            &&& token.winner == market.tokens@[place].winner
            &&& u256_of(token.token_id) == Some(be_value(market.tokens@[place].token_id@))
        }),
{
    lemma_word_in_range(market.tokens@[place].token_id@);
    u256_text_reads_back(be_value(market.tokens@[place].token_id@));
}

/// A resting order keeps its name, its status and its token; its side is written
/// in capitals and its numbers in full.
pub proof fn a_resting_order_is_shown_as_it_is(order: BookOrder)
    ensures
        ({
            let shown = book_order(order);
            &&& shown.order_id == order.id@
            &&& shown.market == Some(order.market@)
            &&& shown.status == order.status@
            &&& shown.side == uppercase(order.side@)
            &&& shown.size == parts_text(order.original_size)
            &&& shown.price == parts_text(order.price)
            &&& shown.fill_size == Some(parts_text(order.size_matched))
            &&& shown.avg_fill_price is None
            &&& u256_of(shown.token_id) == Some(be_value(order.asset_id@))
        }),
{
    lemma_word_in_range(order.asset_id@);
    u256_text_reads_back(be_value(order.asset_id@));
}

/// The market of an event is the first one that it lists, under its own
/// condition and name, and as active and closed as the event says; an event
/// without markets is an error.
pub proof fn an_event_leads_with_its_first_market(slug: Seq<char>, event: GammaEvent)
    ensures
        ({
            let made = first_market(slug, event);
            let first = event.markets->0@[0];
            &&& made is Ok == (event.markets is Some && event.markets->0@.len() > 0)
            &&& made matches Ok(market) ==> {
                &&& first.condition_id is Some ==> fixed_hex(market.condition_id, 32) == Some(
                    first.condition_id->0@,
                )
                &&& first.condition_id is None ==> market.condition_id.len() == 0
                &&& market.market_id == Some(first.id@)
                &&& first.question is Some ==> market.question == first.question->0@
                &&& first.slug is Some ==> market.slug == first.slug->0@
                &&& market.active == (event.active == Some(true))
                &&& market.closed == (event.closed == Some(true))
            }
            &&& made matches Err(error) ==> error.kind == ErrorKind::NoMarkets && error.detail
                == slug
        }),
{
    if let Some(markets) = event.markets {
        if markets@.len() > 0 {
            if let Some(bytes) = markets@[0].condition_id {
                crate::evm::hex_text_reads_back(bytes@);
            }
        }
    }
}

/// An account is authenticated exactly where its private key is one and its
/// wallet, if it names any, is an address: with the address of that key, that
/// wallet as the one that pays, and the signature that is set.
pub proof fn an_account_signs_for_itself(
    private_key: Option<Seq<char>>,
    wallet: Option<Seq<char>>,
    setting: Option<u8>,
)
    ensures
        ({
            let made = auth_plan(private_key, wallet, setting);
            let keyed = private_key is Some && signer_address(private_key->0) is Some;
            let walled = wallet is None || fixed_hex(wallet->0, 20) is Some;
            &&& made is Ok == (keyed && walled)
            &&& made matches Ok(plan) ==> {
                &&& Some(plan.signer) == signer_address(private_key->0)
                &&& wallet is None ==> plan.funder is None
                &&& wallet is Some ==> plan.funder == fixed_hex(wallet->0, 20)
                &&& (plan.signature_type == SignatureType::GnosisSafe) == (setting == Some(2u8))
                &&& (plan.signature_type == SignatureType::Poly1271) == (setting == Some(3u8))
            }
            &&& private_key is None ==> made->Err_0.kind == ErrorKind::PrivateKeyRequired
            &&& private_key is Some && !keyed ==> made->Err_0.kind == ErrorKind::SignerFailed
            &&& keyed && !walled ==> made->Err_0.kind == ErrorKind::InvalidProxyWallet
        }),
{
}

/// The node is the configured one, whatever the environment says; without it the
/// one that the environment names, then the one that its key opens, and only
/// then a public one.
pub proof fn the_configured_node_comes_first(
    configured: Option<Seq<char>>,
    named: Option<Seq<char>>,
    key: Option<Seq<char>>,
)
    ensures
        ({
            let url = rpc_url_of(configured, named, key);
            let given = |text: Option<Seq<char>>| text is Some && text->0.len() > 0;
            &&& configured is Some ==> Some(url) == configured
            &&& configured is None && given(named) ==> Some(url) == named
            &&& configured is None && !given(named) && given(key) ==> url
                == "https://polygon-mainnet.g.alchemy.com/v2/"@ + key->0
            &&& configured is None && !given(named) && !given(key) ==> url
                == "https://polygon-rpc.com"@
        }),
{
}

/// An outcome won exactly where a winning token carries it.
pub proof fn an_outcome_wins_by_its_token(tokens: Seq<TokenView>, word: Seq<char>)
    ensures
        outcome_won(tokens, word) == exists|i: int|
            0 <= i < tokens.len() && #[trigger] tokens[i].winner && lowercase(tokens[i].outcome)
                == word,
{
    if outcome_won(tokens, word) {
        let i = choose|i: int|
            0 <= i < tokens.len() && lower_is((#[trigger] tokens[i]).outcome, word)
                && tokens[i].winner;
        assert(tokens[i].winner && lowercase(tokens[i].outcome) == word);
    }
    if exists|i: int|
        0 <= i < tokens.len() && #[trigger] tokens[i].winner && lowercase(tokens[i].outcome)
            == word {
        let i = choose|i: int|
            0 <= i < tokens.len() && #[trigger] tokens[i].winner && lowercase(tokens[i].outcome)
                == word;
        assert(lower_is(tokens[i].outcome, word));
    }
}

/// A market is resolved by its winning tokens: a yes that won is up, a no that
/// won is down.
pub proof fn a_market_is_resolved_by_its_tokens(market: DetailsView)
    ensures
        ({
            let (closed, winner, up, down) = resolution(market);
            &&& closed == market.closed
            &&& up == exists|i: int|
                0 <= i < market.tokens.len() && #[trigger] market.tokens[i].winner && lowercase(
                    market.tokens[i].outcome,
                ) == "yes"@
            &&& down == exists|i: int|
                0 <= i < market.tokens.len() && #[trigger] market.tokens[i].winner && lowercase(
                    market.tokens[i].outcome,
                ) == "no"@
            &&& up ==> winner == Some("up"@)
            &&& !up && down ==> winner == Some("down"@)
            &&& !up && !down ==> winner is None
        }),
{
    an_outcome_wins_by_its_token(market.tokens, "yes"@);
    an_outcome_wins_by_its_token(market.tokens, "no"@);
}

} // verus!
