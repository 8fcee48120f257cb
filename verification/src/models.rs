//! The records that the bot reads, keeps and sends.
use std::collections::VecDeque;

use vstd::prelude::*;

use crate::table::Table;

verus! {

/// A market as the event listing describes it.
#[derive(Debug)]
pub struct Market {
    pub condition_id: String,
    pub market_id: Option<String>,
    pub question: String,
    pub slug: String,
    pub end_date_iso: Option<String>,
    pub active: bool,
    pub closed: bool,
}

/// What a [`Market`] says.
#[verifier::ext_equal]
pub struct MarketView {
    pub condition_id: Seq<char>,
    pub market_id: Option<Seq<char>>,
    pub question: Seq<char>,
    pub slug: Seq<char>,
    pub end_date_iso: Option<Seq<char>>,
    pub active: bool,
    pub closed: bool,
}

impl DeepView for Market {
    type V = MarketView;

    open spec fn deep_view(&self) -> MarketView {
        MarketView {
            condition_id: self.condition_id@,
            market_id: self.market_id.deep_view(),
            question: self.question@,
            slug: self.slug@,
            end_date_iso: self.end_date_iso.deep_view(),
            active: self.active,
            closed: self.closed,
        }
    }
}

/// A market as the order book describes it, with its outcome tokens.
#[derive(Debug)]
pub struct MarketDetails {
    pub condition_id: String,
    pub question: String,
    pub tokens: Vec<MarketToken>,
    pub active: bool,
    pub closed: bool,
    pub end_date_iso: String,
}

/// What a [`MarketDetails`] says.
#[verifier::ext_equal]
pub struct DetailsView {
    pub condition_id: Seq<char>,
    pub question: Seq<char>,
    pub tokens: Seq<TokenView>,
    pub active: bool,
    pub closed: bool,
    pub end_date_iso: Seq<char>,
}

impl DeepView for MarketDetails {
    type V = DetailsView;

    open spec fn deep_view(&self) -> DetailsView {
        DetailsView {
            condition_id: self.condition_id@,
            question: self.question@,
            tokens: self.tokens.deep_view(),
            active: self.active,
            closed: self.closed,
            end_date_iso: self.end_date_iso@,
        }
    }
}

/// The token of one outcome.
#[derive(Debug)]
pub struct MarketToken {
    pub outcome: String,
    pub token_id: String,
    pub winner: bool,
}

/// What a [`MarketToken`] says.
#[verifier::ext_equal]
pub struct TokenView {
    pub outcome: Seq<char>,
    pub token_id: Seq<char>,
    pub winner: bool,
}

impl DeepView for MarketToken {
    type V = TokenView;

    open spec fn deep_view(&self) -> TokenView {
        TokenView { outcome: self.outcome@, token_id: self.token_id@, winner: self.winner }
    }
}

/// An order to be sent. Sizes and prices are decimal text.
#[derive(Debug)]
pub struct OrderRequest {
    pub token_id: String,
    pub side: String,
    pub size: String,
    pub price: String,
    pub order_type: String,
    pub time_in_force: Option<String>,
    pub expire_after: Option<i64>,
}

/// What an [`OrderRequest`] says.
#[verifier::ext_equal]
pub struct OrderView {
    pub token_id: Seq<char>,
    pub side: Seq<char>,
    pub size: Seq<char>,
    pub price: Seq<char>,
    pub order_type: Seq<char>,
    pub time_in_force: Option<Seq<char>>,
    pub expire_after: Option<i64>,
}

impl DeepView for OrderRequest {
    type V = OrderView;

    open spec fn deep_view(&self) -> OrderView {
        OrderView {
            token_id: self.token_id@,
            side: self.side@,
            size: self.size@,
            price: self.price@,
            order_type: self.order_type@,
            time_in_force: self.time_in_force.deep_view(),
            expire_after: self.expire_after,
        }
    }
}

/// What came of an order.
#[derive(Debug)]
pub struct OrderResponse {
    pub order_id: Option<String>,
    pub status: String,
    pub message: Option<String>,
}

/// What an [`OrderResponse`] says.
#[verifier::ext_equal]
pub struct ResponseView {
    pub order_id: Option<Seq<char>>,
    pub status: Seq<char>,
    pub message: Option<Seq<char>>,
}

impl DeepView for OrderResponse {
    type V = ResponseView;

    open spec fn deep_view(&self) -> ResponseView {
        ResponseView {
            order_id: self.order_id.deep_view(),
            status: self.status@,
            message: self.message.deep_view(),
        }
    }
}

/// An order that rests in the book.
#[derive(Debug)]
pub struct OpenOrder {
    pub order_id: String,
    pub market: Option<String>,
    pub side: String,
    pub size: String,
    pub price: String,
    pub status: String,
    pub fill_size: Option<String>,
    pub avg_fill_price: Option<String>,
    pub token_id: String,
}

/// What an [`OpenOrder`] says.
#[verifier::ext_equal]
pub struct OpenOrderView {
    pub order_id: Seq<char>,
    pub market: Option<Seq<char>>,
    pub side: Seq<char>,
    pub size: Seq<char>,
    pub price: Seq<char>,
    pub status: Seq<char>,
    pub fill_size: Option<Seq<char>>,
    pub avg_fill_price: Option<Seq<char>>,
    pub token_id: Seq<char>,
}

impl DeepView for OpenOrder {
    type V = OpenOrderView;

    open spec fn deep_view(&self) -> OpenOrderView {
        OpenOrderView {
            order_id: self.order_id@,
            market: self.market.deep_view(),
            side: self.side@,
            size: self.size@,
            price: self.price@,
            status: self.status@,
            fill_size: self.fill_size.deep_view(),
            avg_fill_price: self.avg_fill_price.deep_view(),
            token_id: self.token_id@,
        }
    }
}

/// What came of a redemption.
#[derive(Debug)]
pub struct RedeemResponse {
    pub success: bool,
    pub message: Option<String>,
    pub transaction_hash: Option<String>,
    pub amount_redeemed: Option<String>,
}

/// What a [`RedeemResponse`] says.
#[verifier::ext_equal]
pub struct RedeemView {
    pub success: bool,
    pub message: Option<Seq<char>>,
    pub transaction_hash: Option<Seq<char>>,
    pub amount_redeemed: Option<Seq<char>>,
}

impl DeepView for RedeemResponse {
    type V = RedeemView;

    open spec fn deep_view(&self) -> RedeemView {
        RedeemView {
            success: self.success,
            message: self.message.deep_view(),
            transaction_hash: self.transaction_hash.deep_view(),
            amount_redeemed: self.amount_redeemed.deep_view(),
        }
    }
}

/// The orders of one five-minute market, from the BUY orders on. Shares and
/// prices are in micros, dollars spent in picos.
pub struct PreLimitOrderState {
    pub asset: String,
    pub condition_id: String,
    pub up_token_id: String,
    pub down_token_id: String,
    pub up_order_id: Option<String>,
    pub down_order_id: Option<String>,
    pub up_buy_price: i64,
    pub down_buy_price: i64,
    pub up_matched: bool,
    pub down_matched: bool,
    pub up_mined: bool,
    pub down_mined: bool,
    pub up_shares_received: i64,
    pub down_shares_received: i64,
    pub up_spent_usdc: i128,
    pub down_spent_usdc: i128,
    pub up_sell_order_id: Option<String>,
    pub down_sell_order_id: Option<String>,
    pub expiry: i64,
    pub order_placed_at: i64,
    pub market_period_start: i64,
    /// For each trade of a matched order: the outcome bought and the shares.
    pub trade_info: Table<(String, i64)>,
    pub up_trade_confirmed: bool,
    pub down_trade_confirmed: bool,
    /// Trades that were reported before the order they belong to.
    pub pending_trades: VecDeque<PendingTrade>,
    pub split_tx_hash: Option<String>,
}

/// What a [`PreLimitOrderState`] says.
#[verifier::ext_equal]
pub struct CycleView {
    pub asset: Seq<char>,
    pub condition_id: Seq<char>,
    pub up_token_id: Seq<char>,
    pub down_token_id: Seq<char>,
    pub up_order_id: Option<Seq<char>>,
    pub down_order_id: Option<Seq<char>>,
    pub up_buy_price: i64,
    pub down_buy_price: i64,
    pub up_matched: bool,
    pub down_matched: bool,
    pub up_mined: bool,
    pub down_mined: bool,
    pub up_shares_received: i64,
    pub down_shares_received: i64,
    pub up_spent_usdc: i128,
    pub down_spent_usdc: i128,
    pub up_sell_order_id: Option<Seq<char>>,
    pub down_sell_order_id: Option<Seq<char>>,
    pub expiry: i64,
    pub order_placed_at: i64,
    pub market_period_start: i64,
    pub trade_info: Map<Seq<char>, (Seq<char>, i64)>,
    pub up_trade_confirmed: bool,
    pub down_trade_confirmed: bool,
    pub pending_trades: Seq<PendingTradeView>,
    pub split_tx_hash: Option<Seq<char>>,
}

impl DeepView for PreLimitOrderState {
    type V = CycleView;

    open spec fn deep_view(&self) -> CycleView {
        CycleView {
            asset: self.asset@,
            condition_id: self.condition_id@,
            up_token_id: self.up_token_id@,
            down_token_id: self.down_token_id@,
            up_order_id: self.up_order_id.deep_view(),
            down_order_id: self.down_order_id.deep_view(),
            up_buy_price: self.up_buy_price,
            down_buy_price: self.down_buy_price,
            up_matched: self.up_matched,
            down_matched: self.down_matched,
            up_mined: self.up_mined,
            down_mined: self.down_mined,
            up_shares_received: self.up_shares_received,
            down_shares_received: self.down_shares_received,
            up_spent_usdc: self.up_spent_usdc,
            down_spent_usdc: self.down_spent_usdc,
            up_sell_order_id: self.up_sell_order_id.deep_view(),
            down_sell_order_id: self.down_sell_order_id.deep_view(),
            expiry: self.expiry,
            order_placed_at: self.order_placed_at,
            market_period_start: self.market_period_start,
            trade_info: self.trade_info@,
            up_trade_confirmed: self.up_trade_confirmed,
            down_trade_confirmed: self.down_trade_confirmed,
            pending_trades: pending_views(self.pending_trades@),
            split_tx_hash: self.split_tx_hash.deep_view(),
        }
    }
}

/// A BUY trade whose order is not known yet.
#[derive(Debug)]
pub struct PendingTrade {
    pub trade_id: String,
    pub side: String,
    pub size: i64,
    pub price: i64,
}

/// What a [`PendingTrade`] says.
#[verifier::ext_equal]
pub struct PendingTradeView {
    pub trade_id: Seq<char>,
    pub side: Seq<char>,
    pub size: i64,
    pub price: i64,
}

impl DeepView for PendingTrade {
    type V = PendingTradeView;

    open spec fn deep_view(&self) -> PendingTradeView {
        PendingTradeView {
            trade_id: self.trade_id@,
            side: self.side@,
            size: self.size,
            price: self.price,
        }
    }
}

/// What each of the pending trades says, in their order.
pub open spec fn pending_views(trades: Seq<PendingTrade>) -> Seq<PendingTradeView> {
    trades.map_values(|trade: PendingTrade| trade.deep_view())
}

/// A position left over from a finished cycle, to be settled once its market
/// is closed.
#[derive(Debug)]
pub struct CycleTrade {
    pub condition_id: String,
    pub period_timestamp: u64,
    pub market_duration_secs: u64,
    pub up_token_id: Option<String>,
    pub down_token_id: Option<String>,
    pub up_shares: i64,
    pub down_shares: i64,
    pub up_avg_price: i64,
    pub down_avg_price: i64,
    pub split_tx_hash: Option<String>,
}

/// What a [`CycleTrade`] says.
#[verifier::ext_equal]
pub struct TradeView {
    pub condition_id: Seq<char>,
    pub period_timestamp: u64,
    pub market_duration_secs: u64,
    pub up_token_id: Option<Seq<char>>,
    pub down_token_id: Option<Seq<char>>,
    pub up_shares: i64,
    pub down_shares: i64,
    pub up_avg_price: i64,
    pub down_avg_price: i64,
    pub split_tx_hash: Option<Seq<char>>,
}

impl DeepView for CycleTrade {
    type V = TradeView;

    open spec fn deep_view(&self) -> TradeView {
        TradeView {
            condition_id: self.condition_id@,
            period_timestamp: self.period_timestamp,
            market_duration_secs: self.market_duration_secs,
            up_token_id: self.up_token_id.deep_view(),
            down_token_id: self.down_token_id.deep_view(),
            up_shares: self.up_shares,
            down_shares: self.down_shares,
            up_avg_price: self.up_avg_price,
            down_avg_price: self.down_avg_price,
            split_tx_hash: self.split_tx_hash.deep_view(),
        }
    }
}

impl Clone for CycleTrade {
    fn clone(&self) -> (r: Self)
        ensures
            r == *self,
    {
        CycleTrade {
            condition_id: self.condition_id.clone(),
            period_timestamp: self.period_timestamp,
            market_duration_secs: self.market_duration_secs,
            up_token_id: copy_text(&self.up_token_id),
            down_token_id: copy_text(&self.down_token_id),
            up_shares: self.up_shares,
            down_shares: self.down_shares,
            up_avg_price: self.up_avg_price,
            down_avg_price: self.down_avg_price,
            split_tx_hash: copy_text(&self.split_tx_hash),
        }
    }
}

/// A copy of a text that may be missing.
pub fn copy_text(text: &Option<String>) -> (r: Option<String>)
    ensures
        r == *text,
{
    match text {
        Some(inner) => Some(inner.clone()),
        None => None,
    }
}

/// One execution of an order.
#[derive(Debug)]
pub struct Fill {
    pub token_id: Option<String>,
    pub side: String,
    pub size: i64,
    pub price: i64,
    pub timestamp: u64,
    pub condition_id: Option<String>,
}

/// A merge of a finished cycle's shares that runs in the background. The amount
/// is in micros.
#[derive(Debug)]
pub struct PendingMerge {
    pub condition_id: String,
    pub amount: u64,
    pub created_at: i64,
    pub status: MergeStatus,
    pub last_error: Option<String>,
    pub attempts: u32,
}

/// What a [`PendingMerge`] says.
#[verifier::ext_equal]
pub struct MergeView {
    pub condition_id: Seq<char>,
    pub amount: u64,
    pub created_at: i64,
    pub status: MergeStatusView,
    pub last_error: Option<Seq<char>>,
    pub attempts: u32,
}

impl DeepView for PendingMerge {
    type V = MergeView;

    open spec fn deep_view(&self) -> MergeView {
        MergeView {
            condition_id: self.condition_id@,
            amount: self.amount,
            created_at: self.created_at,
            status: self.status.deep_view(),
            last_error: self.last_error.deep_view(),
            attempts: self.attempts,
        }
    }
}

/// How far a merge has come; a finished one carries its transaction hash or
/// its error.
#[derive(Debug, Clone, PartialEq)]
pub enum MergeStatus {
    Pending,
    InProgress,
    Succeeded(String),
    Failed(String),
}

/// What a [`MergeStatus`] says.
#[verifier::ext_equal]
pub enum MergeStatusView {
    Pending,
    InProgress,
    Succeeded(Seq<char>),
    Failed(Seq<char>),
}

impl DeepView for MergeStatus {
    type V = MergeStatusView;

    open spec fn deep_view(&self) -> MergeStatusView {
        match self {
            MergeStatus::Pending => MergeStatusView::Pending,
            MergeStatus::InProgress => MergeStatusView::InProgress,
            MergeStatus::Succeeded(hash) => MergeStatusView::Succeeded(hash@),
            MergeStatus::Failed(error) => MergeStatusView::Failed(error@),
        }
    }
}

/// A position that can be merged back. The size is in micros.
#[derive(Debug)]
pub struct MergeablePosition {
    pub condition_id: String,
    pub size: u64,
    pub title: String,
}

/// What a [`MergeablePosition`] says.
#[verifier::ext_equal]
pub struct PositionView {
    pub condition_id: Seq<char>,
    pub size: u64,
    pub title: Seq<char>,
}

impl DeepView for MergeablePosition {
    type V = PositionView;

    open spec fn deep_view(&self) -> PositionView {
        PositionView { condition_id: self.condition_id@, size: self.size, title: self.title@ }
    }
}

} // verus!
