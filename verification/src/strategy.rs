//! The strategy: one cycle of orders in each five-minute market, merges and
//! settlement afterwards.
//!
//! Each method is one decision. The caller carries out what it asks for and
//! hands the answer to the next one.
use vstd::prelude::*;

use crate::api::text_or_empty;
use crate::config::{Config, StrategyConfig};
use crate::cycle::{
    decimal_to_micros, OrderUpdate, PendingScan, ScanView, SellStep, SellView, TradeUpdate,
};
use crate::discovery::{period_of, MarketDiscovery};
use crate::entry::EntryView;
use crate::models::{
    copy_text, CycleTrade, CycleView, DetailsView, Market, MarketDetails, MarketToken, MergeStatus,
    MergeStatusView, MergeView, MergeablePosition, OrderResponse, PendingMerge,
    PositionView, PreLimitOrderState, ResponseView, TokenView, TradeView,
};
use crate::money::{
    add_capped, cost_of, fills_at, magnitude, notional, price_fills, sub_capped, to_i128,
    DecimalParts,
};
use crate::orders::{limit_placement, Outcome, LATEST_INSTANT};
use crate::table::{lemma_push_contains, lemma_push_new, Table};
use crate::text::{int_text, starts_with, text_eq};

verus! {

/// How long a market runs, in seconds.
pub const MARKET_DURATION_SECS: i64 = 300;

/// How many dollars are split into shares for a cycle, in micros.
pub const SPLIT_AMOUNT: u64 = 5_000_000;

/// How often a split or a merge is tried.
pub const MAX_RETRIES: u32 = 3;

/// How long the first pause between splits is, in milliseconds.
pub const SPLIT_INITIAL_DELAY_MS: u64 = 1000;

/// How long the first pause between merges is, in milliseconds.
pub const MERGE_INITIAL_DELAY_MS: u64 = 2000;

/// Fewer shares than this are not worth a merge, in micros.
pub const MERGE_THRESHOLD: i128 = 10_000;

/// A split or a merge to be tried several times.
#[derive(Debug)]
pub struct RetryJob {
    pub condition_id: String,
    /// In micros.
    pub amount: u64,
    pub max_retries: u32,
    pub initial_delay_ms: u64,
}

/// What a [`RetryJob`] says.
#[verifier::ext_equal]
pub struct JobView {
    pub condition_id: Seq<char>,
    pub amount: u64,
    pub max_retries: u32,
    pub initial_delay_ms: u64,
}

impl DeepView for RetryJob {
    type V = JobView;

    open spec fn deep_view(&self) -> JobView {
        JobView {
            condition_id: self.condition_id@,
            amount: self.amount,
            max_retries: self.max_retries,
            initial_delay_ms: self.initial_delay_ms,
        }
    }
}

/// A merge of `amount` micros, tried up to three times.
pub open spec fn merge_job(condition_id: Seq<char>, amount: u64) -> JobView {
    JobView {
        condition_id,
        amount,
        max_retries: MAX_RETRIES,
        initial_delay_ms: MERGE_INITIAL_DELAY_MS,
    }
}

/// The merges of the positions that earlier runs left, in their order.
pub open spec fn merges_of(positions: Seq<PositionView>) -> Seq<JobView> {
    positions.map_values(
        |position: PositionView| merge_job(position.condition_id, position.size),
    )
}

/// The market that a look-up found, where it can be traded.
pub open spec fn open_market(found: Option<Market>) -> Option<Market> {
    match found {
        Some(market) => if market.active && !market.closed {
            Some(market)
        } else {
            None
        },
        None => None,
    }
}

/// `now` lies in the five minutes that start at `period`.
pub open spec fn is_running(period: i64, now: i64) -> bool {
    period <= now < period + MARKET_DURATION_SECS
}

/// What a look at the running market calls for.
#[derive(Debug)]
pub enum MarketStep {
    /// The cycle was over and is put away; this merge is to be run.
    Expired(Option<RetryJob>),
    /// The cycle runs on; its BUY orders are to be checked.
    CheckFills,
    /// There is no cycle; the market of this name is to be looked up.
    Discover(String),
}

/// What a [`MarketStep`] says.
#[verifier::ext_equal]
pub enum MarketStepView {
    Expired(Option<JobView>),
    CheckFills,
    Discover(Seq<char>),
}

impl DeepView for MarketStep {
    type V = MarketStepView;

    open spec fn deep_view(&self) -> MarketStepView {
        match self {
            MarketStep::Expired(job) => MarketStepView::Expired(job.deep_view()),
            MarketStep::CheckFills => MarketStepView::CheckFills,
            MarketStep::Discover(slug) => MarketStepView::Discover(slug@),
        }
    }
}

/// A message of the account's event stream.
#[derive(Debug)]
pub enum UserEvent {
    Order(OrderUpdate),
    Trade(TradeUpdate),
    Other,
}

/// What a message calls for.
#[derive(Debug)]
pub enum EventStep {
    Nothing,
    /// This SELL order is to be placed.
    Sell(SellStep),
    /// The trades that were waiting are to be gone through.
    Scan(PendingScan),
}

/// What an [`EventStep`] says.
#[verifier::ext_equal]
pub enum EventStepView {
    Nothing,
    Sell(SellView),
    Scan(ScanView),
}

impl DeepView for EventStep {
    type V = EventStepView;

    open spec fn deep_view(&self) -> EventStepView {
        match self {
            EventStep::Nothing => EventStepView::Nothing,
            EventStep::Sell(sell) => EventStepView::Sell(sell.deep_view()),
            EventStep::Scan(scan) => EventStepView::Scan(scan.deep_view()),
        }
    }
}

/// The winner of a closed market.
#[derive(Debug, Clone, Copy, PartialEq, Eq, Structural)]
pub enum Winner {
    Up,
    Down,
    Unknown,
}

/// A position to be redeemed.
#[derive(Debug)]
pub struct Redemption {
    pub token_id: String,
    pub outcome: Outcome,
}

/// What a [`Redemption`] says.
#[verifier::ext_equal]
pub struct RedemptionView {
    pub token_id: Seq<char>,
    pub outcome: Outcome,
}

impl DeepView for Redemption {
    type V = RedemptionView;

    open spec fn deep_view(&self) -> RedemptionView {
        RedemptionView { token_id: self.token_id@, outcome: self.outcome }
    }
}

/// How a position in a closed market ended. Dollars are in picos.
#[derive(Debug)]
pub struct Settlement {
    pub trade: CycleTrade,
    pub winner: Winner,
    pub total_cost: i128,
    pub payout: i128,
    pub pnl: i128,
    pub redemption: Option<Redemption>,
}

/// What a [`Settlement`] says.
#[verifier::ext_equal]
pub struct SettlementView {
    pub trade: TradeView,
    pub winner: Winner,
    pub total_cost: i128,
    pub payout: i128,
    pub pnl: i128,
    pub redemption: Option<RedemptionView>,
}

impl DeepView for Settlement {
    type V = SettlementView;

    open spec fn deep_view(&self) -> SettlementView {
        SettlementView {
            trade: self.trade.deep_view(),
            winner: self.winner,
            total_cost: self.total_cost,
            payout: self.payout,
            pnl: self.pnl,
            redemption: self.redemption.deep_view(),
        }
    }
}

/// One of the tokens is this one, and it won.
pub open spec fn token_wins(tokens: Seq<TokenView>, token_id: Option<Seq<char>>) -> bool {
    match token_id {
        Some(id) => exists|i: int|
            0 <= i < tokens.len() && (#[trigger] tokens[i]).token_id == id && tokens[i].winner,
        None => false,
    }
}

impl TradeView {
    /// The second at which the market of this position ends.
    pub open spec fn market_end(self) -> int {
        self.period_timestamp + self.market_duration_secs
    }

    /// How this position ends in a closed market with these tokens. Each share
    /// of the winning outcome pays one dollar, and the winning side is redeemed
    /// unless the position is simulated.
    pub open spec fn settled(self, tokens: Seq<TokenView>, simulation: bool) -> SettlementView {
        let up_wins = token_wins(tokens, self.up_token_id);
        let down_wins = token_wins(tokens, self.down_token_id);
        let total_cost = to_i128(
            notional(self.up_shares as int, self.up_avg_price as int) + notional(
                self.down_shares as int,
                self.down_avg_price as int,
            ),
        );
        let payout = if up_wins {
            self.up_shares * 1_000_000
        } else if down_wins {
            self.down_shares * 1_000_000
        } else {
            0
        };
        SettlementView {
            trade: self,
            winner: if up_wins {
                Winner::Up
            } else if down_wins {
                Winner::Down
            } else {
                Winner::Unknown
            },
            total_cost: total_cost as i128,
            payout: payout as i128,
            pnl: to_i128(payout - total_cost) as i128,
            redemption: if simulation || !(up_wins || down_wins) {
                None
            } else {
                Some(
                    RedemptionView {
                        token_id: match if up_wins {
                            self.up_token_id
                        } else {
                            self.down_token_id
                        } {
                            Some(id) => id,
                            None => Seq::empty(),
                        },
                        outcome: if up_wins {
                            Outcome::Up
                        } else {
                            Outcome::Down
                        },
                    },
                )
            },
        }
    }
}

impl CycleView {
    /// The shares that a side is settled with: those received, or the
    /// configured ones where the side is on chain without a count.
    pub open spec fn settled_shares(self, outcome: Outcome, shares: i64) -> i64 {
        let (received, mined) = match outcome {
            Outcome::Up => (self.up_shares_received, self.up_mined),
            Outcome::Down => (self.down_shares_received, self.down_mined),
        };
        if received > 0 {
            received
        } else if mined {
            shares
        } else {
            0
        }
    }

    /// The position that the cycle leaves.
    pub open spec fn position(self, shares: i64) -> TradeView {
        TradeView {
            condition_id: self.condition_id,
            period_timestamp: self.market_period_start as u64,
            market_duration_secs: MARKET_DURATION_SECS as u64,
            up_token_id: Some(self.up_token_id),
            down_token_id: Some(self.down_token_id),
            up_shares: self.settled_shares(Outcome::Up, shares),
            down_shares: self.settled_shares(Outcome::Down, shares),
            up_avg_price: self.up_buy_price,
            down_avg_price: self.down_buy_price,
            split_tx_hash: self.split_tx_hash,
        }
    }

    /// The merge that is run once the cycle is over: none where next to nothing
    /// was bought, and none in simulation.
    pub open spec fn closing_merge(self, simulation: bool) -> Option<JobView> {
        if self.up_shares_received + self.down_shares_received < MERGE_THRESHOLD || simulation {
            None
        } else {
            Some(merge_job(self.condition_id, SPLIT_AMOUNT))
        }
    }

    /// The exchange is to be asked about the two BUY orders: not all are filled
    /// yet, and both are real.
    pub open spec fn fills_query(self, simulation: bool) -> Option<(Seq<char>, Seq<char>)> {
        if (self.up_matched && self.down_matched) || simulation {
            None
        } else {
            match (self.up_order_id, self.down_order_id) {
                (Some(up), Some(down)) => if "SIM-"@.is_prefix_of(up) || "SIM-"@.is_prefix_of(
                    down,
                ) {
                    None
                } else {
                    Some((up, down))
                },
                _ => None,
            }
        }
    }
}

/// All that the strategy keeps between its decisions, but for its settings.
#[verifier::ext_equal]
pub struct StrategyView {
    pub state: Option<CycleView>,
    pub total_profit: i128,
    pub trades: Map<Seq<char>, TradeView>,
    pub closure_checked: Map<Seq<char>, bool>,
    pub pending_merges: Map<Seq<char>, MergeView>,
}

impl StrategyView {
    /// Positions are kept under their condition.
    pub open spec fn well_formed(self) -> bool {
        forall|key: Seq<char>| #[trigger]
            self.trades.contains_key(key) ==> self.trades[key].condition_id == key
    }

    /// The strategy with its cycle put away: a merge that is run is noted, and
    /// a position that is on chain is kept for settlement.
    pub open spec fn expired(self, cycle: CycleView, config: StrategyConfig, now: i64) -> (
        StrategyView,
        Option<JobView>,
    ) {
        let job = cycle.closing_merge(config.simulation_mode);
        (
            StrategyView {
                state: None,
                trades: if cycle.up_mined || cycle.down_mined {
                    self.trades.insert(cycle.condition_id, cycle.position(config.shares))
                } else {
                    self.trades
                },
                pending_merges: match job {
                    Some(merge) => self.pending_merges.insert(
                        cycle.condition_id,
                        MergeView {
                            condition_id: cycle.condition_id,
                            amount: merge.amount,
                            created_at: now,
                            status: MergeStatusView::InProgress,
                            last_error: None,
                            attempts: 0,
                        },
                    ),
                    None => self.pending_merges,
                },
                ..self
            },
            job,
        )
    }

    /// The strategy after a look at the running market, and what the look calls
    /// for.
    pub open spec fn looked_at(self, config: StrategyConfig, period: i64, now: i64) -> (
        StrategyView,
        MarketStepView,
    ) {
        match self.state {
            Some(cycle) => if now > cycle.expiry {
                let (after, job) = self.expired(cycle, config, now);
                (after, MarketStepView::Expired(job))
            } else {
                (self, MarketStepView::CheckFills)
            },
            None => (
                self,
                MarketStepView::Discover("btc-updown-5m-"@ + int_text(period as int)),
            ),
        }
    }

    /// The strategy with the merge of a condition finished, where one was noted.
    pub open spec fn merge_noted(self, condition_id: Seq<char>, status: MergeStatusView) -> Self {
        if self.pending_merges.contains_key(condition_id) {
            let merge = self.pending_merges[condition_id];
            StrategyView {
                pending_merges: self.pending_merges.insert(
                    condition_id,
                    MergeView {
                        status,
                        last_error: match status {
                            MergeStatusView::Failed(error) => Some(error),
                            _ => merge.last_error,
                        },
                        ..merge
                    },
                ),
                ..self
            }
        } else {
            self
        }
    }

    /// The strategy after a message of the account's event stream, and what the
    /// message calls for.
    pub open spec fn after_event(self, config: StrategyConfig, event: UserEvent, now: i64) -> (
        StrategyView,
        EventStepView,
    ) {
        match self.state {
            Some(cycle) => match event {
                UserEvent::Order(update) => {
                    let (after, scan) = cycle.after_order(update);
                    (
                        StrategyView { state: Some(after), ..self },
                        match scan {
                            Some(pass) => EventStepView::Scan(pass),
                            None => EventStepView::Nothing,
                        },
                    )
                },
                UserEvent::Trade(update) => {
                    let (after, sell) = cycle.after_trade(config, update, now);
                    (
                        StrategyView { state: Some(after), ..self },
                        match sell {
                            Some(order) => EventStepView::Sell(order),
                            None => EventStepView::Nothing,
                        },
                    )
                },
                UserEvent::Other => (self, EventStepView::Nothing),
            },
            None => (self, EventStepView::Nothing),
        }
    }

    /// A pass over the trades that were waiting, up to the next SELL order that
    /// it calls for.
    pub open spec fn next_sell(self, scan: ScanView, config: StrategyConfig, now: i64) -> (
        ScanView,
        Option<SellView>,
    ) {
        match self.state {
            Some(cycle) => scan.advanced(cycle, config, now),
            None => (scan, None),
        }
    }

    /// The strategy once a SELL order was answered.
    pub open spec fn sell_noted(self, outcome: Outcome, reply: Option<ResponseView>) -> Self {
        StrategyView {
            state: match self.state {
                Some(cycle) => Some(cycle.after_sell(outcome, reply)),
                None => None,
            },
            ..self
        }
    }

    /// The strategy once a pass over the trades that were waiting is over.
    pub open spec fn pass_ended(self, scan: ScanView) -> StrategyView {
        StrategyView {
            state: match self.state {
                Some(cycle) => Some(cycle.after_scan(scan)),
                None => None,
            },
            ..self
        }
    }

    /// The strategy once the exchange said which of the BUY orders are filled.
    pub open spec fn fills_noted(self, filled: Option<(bool, bool)>) -> StrategyView {
        StrategyView {
            state: match (self.state, filled) {
                (Some(cycle), Some((up, down))) => Some(
                    cycle.with_match(Outcome::Up, up).with_match(Outcome::Down, down),
                ),
                _ => self.state,
            },
            ..self
        }
    }

    /// The token whose price is to be asked for: that of a side whose BUY order
    /// does not count as filled yet.
    pub open spec fn asked_price(self, outcome: Outcome) -> Option<Seq<char>> {
        match self.state {
            Some(cycle) => if cycle.matched(outcome) {
                None
            } else {
                Some(cycle.token_id(outcome))
            },
            None => None,
        }
    }

    /// The strategy once the exchange told the price of a side.
    pub open spec fn price_noted(
        self,
        buy_price: i64,
        outcome: Outcome,
        price: Option<DecimalParts>,
    ) -> StrategyView {
        StrategyView {
            state: match (self.state, price) {
                (Some(cycle), Some(parts)) => Some(
                    cycle.with_match(
                        outcome,
                        price_fills(decimal_to_micros(parts) as int, buy_price as int),
                    ),
                ),
                _ => self.state,
            },
            ..self
        }
    }

    /// A position is due: its market has ended and it was not settled yet.
    pub open spec fn is_due(self, condition_id: Seq<char>, now: u64) -> bool {
        &&& self.trades.contains_key(condition_id)
        &&& now >= self.trades[condition_id].market_end()
        &&& !(self.closure_checked.contains_key(condition_id)
            && self.closure_checked[condition_id])
    }

    /// The texts are the conditions of all positions whose market has ended and
    /// that were not settled yet.
    pub open spec fn lists_due(self, ids: Seq<Seq<char>>, now: u64) -> bool {
        &&& forall|id: Seq<char>| #[trigger]
            self.trades.contains_key(id) && now >= self.trades[id].period_timestamp
                + self.trades[id].market_duration_secs && !(self.closure_checked.contains_key(id)
                && self.closure_checked[id]) ==> ids.contains(id)
        &&& forall|i: int|
            0 <= i < ids.len() ==> self.trades.contains_key(#[trigger] ids[i]) && now
                >= self.trades[ids[i]].period_timestamp + self.trades[ids[i]].market_duration_secs
    }

    /// What comes of a position when its market was looked up: where it is due
    /// and the market is closed, it is settled.
    pub open spec fn settling(
        self,
        condition_id: Seq<char>,
        now: u64,
        market: Option<DetailsView>,
        simulation: bool,
    ) -> Option<SettlementView> {
        match market {
            Some(details) => if self.is_due(condition_id, now) && details.closed {
                Some(self.trades[condition_id].settled(details.tokens, simulation))
            } else {
                None
            },
            None => None,
        }
    }

    /// The strategy once a position is settled.
    pub open spec fn settled(self, settlement: SettlementView) -> StrategyView {
        let condition_id = settlement.trade.condition_id;
        StrategyView {
            total_profit: to_i128(self.total_profit + settlement.pnl) as i128,
            trades: self.trades.remove(condition_id),
            closure_checked: self.closure_checked.insert(condition_id, true),
            ..self
        }
    }
}

/// The strategy and all that it keeps. The profit is in picos.
pub struct PreLimitStrategy {
    pub config: Config,
    pub state: Option<PreLimitOrderState>,
    pub total_profit: i128,
    pub trades: Table<CycleTrade>,
    pub closure_checked: Table<bool>,
    pub pending_merges: Table<PendingMerge>,
}

impl View for PreLimitStrategy {
    type V = StrategyView;

    open spec fn view(&self) -> StrategyView {
        StrategyView {
            state: self.state.deep_view(),
            total_profit: self.total_profit,
            trades: self.trades@,
            closure_checked: self.closure_checked@,
            pending_merges: self.pending_merges@,
        }
    }
}

/// Whether one of the tokens is this one and won.
pub fn wins(tokens: &Vec<MarketToken>, token_id: &Option<String>) -> (r: bool)
    ensures
        r == token_wins(tokens.deep_view(), token_id.deep_view()),
{
    let id = match token_id {
        Some(id) => id,
        None => {
            return false;
        },
    };
    let mut i: usize = 0;
    while i < tokens.len()
        invariant
            0 <= i <= tokens@.len(),
            token_id.deep_view() == Some(id@),
            forall|j: int|
                0 <= j < i ==> !((#[trigger] tokens.deep_view()[j]).token_id == id@
                    && tokens.deep_view()[j].winner),
        decreases tokens@.len() - i,
    {
        assert(tokens.deep_view()[i as int] == tokens@[i as int].deep_view());
        if text_eq(tokens[i].token_id.as_str(), id.as_str()) && tokens[i].winner {
            return true;
        }
        i = i + 1;
    }
    false
}

/// The position that a finished cycle leaves.
pub fn cycle_trade_from_state(s: &PreLimitOrderState, shares: i64) -> (r: CycleTrade)
    ensures
        r.deep_view() == s.deep_view().position(shares),
{
    let up_shares: i64 = if s.up_shares_received > 0 {
        s.up_shares_received
    } else if s.up_mined {
        shares
    } else {
        0
    };
    let down_shares: i64 = if s.down_shares_received > 0 {
        s.down_shares_received
    } else if s.down_mined {
        shares
    } else {
        0
    };
    CycleTrade {
        condition_id: s.condition_id.clone(),
        period_timestamp: s.market_period_start as u64,
        market_duration_secs: MARKET_DURATION_SECS as u64,
        up_token_id: Some(s.up_token_id.clone()),
        down_token_id: Some(s.down_token_id.clone()),
        up_shares,
        down_shares,
        up_avg_price: s.up_buy_price,
        down_avg_price: s.down_buy_price,
        split_tx_hash: copy_text(&s.split_tx_hash),
    }
}

/// How a position ends in a closed market with these tokens.
pub fn settle_trade(trade: CycleTrade, tokens: &Vec<MarketToken>, simulation: bool) -> (r:
    Settlement)
    ensures
        r.deep_view() == trade.deep_view().settled(tokens.deep_view(), simulation),
{
    let up_wins = wins(tokens, &trade.up_token_id);
    let down_wins = wins(tokens, &trade.down_token_id);
    let total_cost: i128 = add_capped(
        cost_of(trade.up_shares, trade.up_avg_price),
        cost_of(trade.down_shares, trade.down_avg_price),
    );
    let (winner, payout): (Winner, i128) = if up_wins {
        (Winner::Up, trade.up_shares as i128 * 1_000_000)
    } else if down_wins {
        (Winner::Down, trade.down_shares as i128 * 1_000_000)
    } else {
        (Winner::Unknown, 0)
    };
    let pnl: i128 = sub_capped(payout, total_cost);
    let redemption = if simulation || !(up_wins || down_wins) {
        None
    } else if up_wins {
        Some(Redemption { token_id: text_or_empty(&trade.up_token_id), outcome: Outcome::Up })
    } else {
        Some(Redemption { token_id: text_or_empty(&trade.down_token_id), outcome: Outcome::Down })
    };
    Settlement { trade, winner, total_cost, payout, pnl, redemption }
}

/// The merges of the positions that earlier runs left, each tried up to three
/// times.
pub fn merge_jobs(positions: &Vec<MergeablePosition>) -> (r: Vec<RetryJob>)
    ensures
        r@.len() == positions@.len(),
        forall|i: int|
            0 <= i < r@.len() ==> (#[trigger] r@[i]).deep_view() == merge_job(
                positions@[i].condition_id@,
                positions@[i].size,
            ),
        r.deep_view() == merges_of(positions.deep_view()),
{
    let mut jobs: Vec<RetryJob> = Vec::new();
    let mut i: usize = 0;
    while i < positions.len()
        invariant
            0 <= i <= positions@.len(),
            jobs@.len() == i,
            forall|j: int|
                0 <= j < i ==> (#[trigger] jobs@[j]).deep_view() == merge_job(
                    positions@[j].condition_id@,
                    positions@[j].size,
                ),
        decreases positions@.len() - i,
    {
        jobs.push(
            RetryJob {
                condition_id: positions[i].condition_id.clone(),
                amount: positions[i].size,
                max_retries: MAX_RETRIES,
                initial_delay_ms: MERGE_INITIAL_DELAY_MS,
            },
        );
        i = i + 1;
    }
    assert(jobs.deep_view() =~= merges_of(positions.deep_view()));
    jobs
}

impl PreLimitStrategy {
    /// A strategy that has not traded yet.
    pub fn new(config: Config) -> (r: Self)
        ensures
            r.config == config,
            r@ == (StrategyView {
                state: None,
                total_profit: 0,
                trades: Map::empty(),
                closure_checked: Map::empty(),
                pending_merges: Map::empty(),
            }),
            r@.well_formed(),
    {
        PreLimitStrategy {
            config,
            state: None,
            total_profit: 0,
            trades: Table::new(),
            closure_checked: Table::new(),
            pending_merges: Table::new(),
        }
    }

    /// What was won or lost in the settled markets, in picos.
    pub fn get_total_profit(&self) -> (r: i128)
        ensures
            r == self@.total_profit,
    {
        self.total_profit
    }

    /// Reads the clock and looks at the running market. The start of its five
    /// minutes and the time come back with what is to be done next.
    pub fn process_market(&mut self) -> (r: (MarketStep, i64, i64))
        requires
            old(self)@.well_formed(),
        ensures
            (final(self)@, r.0.deep_view()) == old(self)@.looked_at(
                old(self).config.strategy,
                r.1,
                r.2,
            ),
            0 <= r.2 <= LATEST_INSTANT,
            r.1 == period_of(r.2 as int),
            final(self).config == old(self).config,
            final(self)@.well_formed(),
    {
        let now: i64 = MarketDiscovery::current_time_et();
        let period: i64 = MarketDiscovery::period_start_et(now);
        let step = self.process_market_at(period, now);
        (step, period, now)
    }

    /// Looks at the market that started at `period`: puts a finished cycle
    /// away, or says what is to be done next.
    pub fn process_market_at(&mut self, period: i64, now: i64) -> (r: MarketStep)
        requires
            old(self)@.well_formed(),
        ensures
            (final(self)@, r.deep_view()) == old(self)@.looked_at(
                old(self).config.strategy,
                period,
                now,
            ),
            final(self).config == old(self).config,
            final(self)@.well_formed(),
    {
        match self.state.take() {
            Some(s) => {
                if now > s.expiry {
                    let total: i128 = s.up_shares_received as i128
                        + s.down_shares_received as i128;
                    let job = if total < MERGE_THRESHOLD || self.config.strategy.simulation_mode {
                        None
                    } else {
                        self.pending_merges.insert(
                            s.condition_id.clone(),
                            PendingMerge {
                                condition_id: s.condition_id.clone(),
                                amount: SPLIT_AMOUNT,
                                created_at: now,
                                status: MergeStatus::InProgress,
                                last_error: None,
                                attempts: 0,
                            },
                        );
                        Some(
                            RetryJob {
                                condition_id: s.condition_id.clone(),
                                amount: SPLIT_AMOUNT,
                                max_retries: MAX_RETRIES,
                                initial_delay_ms: MERGE_INITIAL_DELAY_MS,
                            },
                        )
                    };
                    if s.up_mined || s.down_mined {
                        let trade = cycle_trade_from_state(&s, self.config.strategy.shares);
                        self.trades.insert(s.condition_id.clone(), trade);
                    }
                    MarketStep::Expired(job)
                } else {
                    self.state = Some(s);
                    MarketStep::CheckFills
                }
            },
            None => {
                let slug = MarketDiscovery::build_5m_slug("BTC", period);
                proof {
                    reveal_strlit("BTC");
                    reveal_strlit("-updown-5m-");
                    reveal_strlit("btc-updown-5m-");
                    assert("BTC"@.map_values(|c: char| crate::text::ascii_lower(c))
                        + "-updown-5m-"@ =~= "btc-updown-5m-"@);
                }
                MarketStep::Discover(slug)
            },
        }
    }

    /// Notes how the merge of a condition ended.
    pub fn merge_finished(&mut self, condition_id: &str, result: Result<String, String>)
        ensures
            final(self)@ == old(self)@.merge_noted(
                condition_id@,
                match result {
                    Ok(hash) => MergeStatusView::Succeeded(hash@),
                    Err(error) => MergeStatusView::Failed(error@),
                },
            ),
            final(self).config == old(self).config,
    {
        let noted = match self.pending_merges.get(condition_id) {
            Some(merge) => {
                let (status, last_error) = match result {
                    Ok(hash) => (MergeStatus::Succeeded(hash), copy_text(&merge.last_error)),
                    Err(error) => (MergeStatus::Failed(error.clone()), Some(error)),
                };
                Some(
                    PendingMerge {
                        condition_id: merge.condition_id.clone(),
                        amount: merge.amount,
                        created_at: merge.created_at,
                        status,
                        last_error,
                        attempts: merge.attempts,
                    },
                )
            },
            None => None,
        };
        if let Some(merge) = noted {
            self.pending_merges.insert(condition_id.to_owned(), merge);
        }
    }

    /// The market that a look-up found, where it can be traded.
    pub fn discover_market(found: Option<Market>) -> (r: Option<Market>)
        ensures
            r == open_market(found),
    {
        match found {
            Some(market) => if market.active && !market.closed {
                Some(market)
            } else {
                None
            },
            None => None,
        }
    }

    /// Whether a cycle may be started: `now` lies in the five minutes.
    pub fn entry_is_open(period: i64, now: i64) -> (r: bool)
        ensures
            r == is_running(period, now),
    {
        now >= period && (now as i128) < period as i128 + MARKET_DURATION_SECS as i128
    }

    /// The two BUY orders that the exchange is to be asked about.
    pub fn check_buy_order_matches(&self) -> (r: Option<(String, String)>)
        ensures
            r.deep_view() == match self@.state {
                Some(cycle) => cycle.fills_query(self.config.strategy.simulation_mode),
                None => None,
            },
    {
        match &self.state {
            Some(s) => {
                if s.up_matched && s.down_matched || self.config.strategy.simulation_mode {
                    return None;
                }
                match (&s.up_order_id, &s.down_order_id) {
                    (Some(up), Some(down)) => {
                        if starts_with(up.as_str(), "SIM-") || starts_with(down.as_str(), "SIM-") {
                            None
                        } else {
                            Some((up.clone(), down.clone()))
                        }
                    },
                    _ => None,
                }
            },
            None => None,
        }
    }

    /// Notes which of the BUY orders the exchange called filled, where it
    /// answered.
    pub fn record_fills(&mut self, filled: Option<(bool, bool)>)
        ensures
            final(self)@ == old(self)@.fills_noted(filled),
            final(self).config == old(self).config,
    {
        if let Some((up, down)) = filled {
            if let Some(mut s) = self.state.take() {
                s.record_match(Outcome::Up, up);
                s.record_match(Outcome::Down, down);
                self.state = Some(s);
            }
        }
    }

    /// The token whose SELL price is to be asked for: that of a side whose BUY
    /// order does not count as filled yet.
    pub fn price_query(&self, outcome: Outcome) -> (r: Option<String>)
        ensures
            r.deep_view() == self@.asked_price(outcome),
    {
        match &self.state {
            Some(s) => match outcome {
                Outcome::Up => if s.up_matched {
                    None
                } else {
                    Some(s.up_token_id.clone())
                },
                Outcome::Down => if s.down_matched {
                    None
                } else {
                    Some(s.down_token_id.clone())
                },
            },
            None => None,
        }
    }

    /// Counts the BUY order of a side as filled where the market price, if the
    /// exchange told it, is low enough.
    pub fn record_price(&mut self, outcome: Outcome, price: Option<DecimalParts>)
        ensures
            final(self)@ == old(self)@.price_noted(
                old(self).config.strategy.buy_price,
                outcome,
                price,
            ),
            final(self).config == old(self).config,
    {
        if let Some(parts) = price {
            let filled = fills_at(parts.micros(), self.config.strategy.buy_price);
            if let Some(mut s) = self.state.take() {
                s.record_match(outcome, filled);
                self.state = Some(s);
            }
        }
    }

    /// Takes in a message of the account's event stream, and says what it calls
    /// for. Without a cycle nothing does.
    pub fn handle_clob_subscription_direct(&mut self, event: &UserEvent, now: i64) -> (r: EventStep)
        requires
            0 <= now <= LATEST_INSTANT,
        ensures
            (final(self)@, r.deep_view()) == old(self)@.after_event(
                old(self).config.strategy,
                *event,
                now,
            ),
            final(self).config == old(self).config,
    {
        match self.state.take() {
            Some(mut s) => {
                let step = match event {
                    UserEvent::Order(update) => match s.order_update(update) {
                        Some(scan) => EventStep::Scan(scan),
                        None => EventStep::Nothing,
                    },
                    UserEvent::Trade(update) => match s.trade_update(
                        &self.config.strategy,
                        update,
                        now,
                    ) {
                        Some(sell) => EventStep::Sell(sell),
                        None => EventStep::Nothing,
                    },
                    UserEvent::Other => EventStep::Nothing,
                };
                self.state = Some(s);
                step
            },
            None => EventStep::Nothing,
        }
    }

    /// Goes on with a pass over the trades that were waiting: the next SELL
    /// order it calls for.
    pub fn process_pending_trades(&self, scan: &mut PendingScan, now: i64) -> (r: Option<SellStep>)
        requires
            0 <= now <= LATEST_INSTANT,
        ensures
            (final(scan).deep_view(), r.deep_view()) == self@.next_sell(
                old(scan).deep_view(),
                self.config.strategy,
                now,
            ),
    {
        match &self.state {
            Some(s) => scan.process_pending_trades(s, &self.config.strategy, now),
            None => None,
        }
    }

    /// Notes what came of a SELL order.
    pub fn sell_replied(&mut self, outcome: Outcome, reply: Option<OrderResponse>)
        ensures
            final(self)@ == old(self)@.sell_noted(outcome, reply.deep_view()),
            final(self).config == old(self).config,
    {
        if let Some(mut s) = self.state.take() {
            s.sell_replied(outcome, reply);
            self.state = Some(s);
        }
    }

    /// Puts the trades that a pass left back.
    pub fn scan_finished(&mut self, scan: PendingScan)
        ensures
            final(self)@ == old(self)@.pass_ended(scan.deep_view()),
            final(self).config == old(self).config,
    {
        if let Some(mut s) = self.state.take() {
            s.scan_finished(scan);
            self.state = Some(s);
        }
    }

    /// Whether a position is due for settlement.
    fn trade_is_due(&self, condition_id: &str, now: u64) -> (r: bool)
        ensures
            r == self@.is_due(condition_id@, now),
    {
        let ended = match self.trades.get(condition_id) {
            Some(trade) => match trade.period_timestamp.checked_add(trade.market_duration_secs) {
                Some(end) => now >= end,
                None => false,
            },
            None => false,
        };
        let checked = match self.closure_checked.get(condition_id) {
            Some(done) => *done,
            None => false,
        };
        ended && !checked
    }

    /// The conditions whose positions are due for settlement, each once: their
    /// markets are to be looked up.
    pub fn check_market_closure(&self, now: u64) -> (r: Vec<String>)
        ensures
            r.deep_view().no_duplicates(),
            forall|id: Seq<char>| #[trigger] r.deep_view().contains(id) == self@.is_due(id, now),
            self@.lists_due(r.deep_view(), now),
    {
        let keys = self.trades.keys();
        let mut due: Vec<String> = Vec::new();
        let ghost all = keys.deep_view();
        assert(due.deep_view() =~= Seq::<Seq<char>>::empty());
        let mut i: usize = 0;
        while i < keys.len()
            invariant
                0 <= i <= keys@.len(),
                all == keys.deep_view(),
                all.no_duplicates(),
                due.deep_view().no_duplicates(),
                forall|id: Seq<char>| #[trigger]
                    due.deep_view().contains(id) == (all.take(i as int).contains(id)
                        && self@.is_due(id, now)),
            decreases keys@.len() - i,
        {
            let ghost before = due.deep_view();
            let ghost id = all[i as int];
            assert(keys@[i as int]@ == id);
            proof {
                lemma_take_one_more(all, i as int);
                assert(!all.take(i as int).contains(id)) by {
                    if all.take(i as int).contains(id) {
                        let j = choose|j: int| 0 <= j < i && all.take(i as int)[j] == id;
                        assert(all[j] == all[i as int]);
                    }
                }
            }
            if self.trade_is_due(keys[i].as_str(), now) {
                due.push(keys[i].clone());
                proof {
                    assert(due.deep_view() =~= before.push(id));
                    assert(!before.contains(id));
                    lemma_push_contains(before, id);
                    lemma_push_new(before, id);
                }
            }
            i = i + 1;
        }
        proof {
            assert(all.take(i as int) =~= all);
            assert forall|id: Seq<char>| #[trigger]
                due.deep_view().contains(id) == self@.is_due(id, now) by {
                assert(all.contains(id) == self.trades@.contains_key(id));
            }
            assert forall|i: int| 0 <= i < due.deep_view().len() implies self@.is_due(
                #[trigger] due.deep_view()[i],
                now,
            ) by {
                assert(due.deep_view().contains(due.deep_view()[i]));
            }
        }
        due
    }

    /// Settles a position that is due, where its market could be looked up and is
    /// closed. One that is not due is left as it is, whatever its market says.
    pub fn settle_market(
        &mut self,
        condition_id: &str,
        now: u64,
        market: Option<&MarketDetails>,
    ) -> (r: Option<Settlement>)
        requires
            old(self)@.well_formed(),
        ensures
            ({
                let settled = old(self)@.settling(
                    condition_id@,
                    now,
                    match market {
                        Some(details) => Some(details.deep_view()),
                        None => None,
                    },
                    old(self).config.strategy.simulation_mode,
                );
                &&& r.deep_view() == settled
                &&& final(self)@ == match settled {
                    Some(settlement) => old(self)@.settled(settlement),
                    None => old(self)@,
                }
            }),
            final(self).config == old(self).config,
            final(self)@.well_formed(),
    {
        let details = match market {
            Some(details) => details,
            None => {
                return None;
            },
        };
        if !details.closed || !self.trade_is_due(condition_id, now) {
            return None;
        }
        let trade = match self.trades.get(condition_id) {
            Some(trade) => trade.clone(),
            None => {
                return None;
            },
        };
        let settlement = settle_trade(
            trade,
            &details.tokens,
            self.config.strategy.simulation_mode,
        );
        self.total_profit = add_capped(self.total_profit, settlement.pnl);
        self.closure_checked.insert(condition_id.to_owned(), true);
        self.trades.remove(condition_id);
        Some(settlement)
    }
}

/// The elements up to and with the one at `i`.
proof fn lemma_take_one_more<A>(s: Seq<A>, i: int)
    requires
        0 <= i < s.len(),
    ensures
        forall|a: A| #[trigger] s.take(i + 1).contains(a) == (s.take(i).contains(a) || a == s[i]),
{
    assert(s.take(i + 1) =~= s.take(i).push(s[i]));
    lemma_push_contains(s.take(i), s[i]);
}

/// A settled position counts once in the profit: it is not due again, and
/// whatever is looked up later nothing more comes of it, even where the same
/// condition is kept for settlement once more.
pub proof fn settled_once(
    before: StrategyView,
    market: Option<DetailsView>,
    simulation: bool,
    condition_id: Seq<char>,
    again: TradeView,
    now: u64,
    later: u64,
    looked_up: Option<DetailsView>,
)
    requires
        before.well_formed(),
        before.settling(condition_id, now, market, simulation) is Some,
    ensures
        ({
            let settlement = before.settling(condition_id, now, market, simulation)->0;
            let after = before.settled(settlement);
            let kept = StrategyView {
                trades: after.trades.insert(condition_id, again),
                ..after
            };
            &&& after.total_profit == to_i128(before.total_profit + settlement.pnl)
            &&& !after.is_due(condition_id, later)
            &&& !kept.is_due(condition_id, later)
            &&& after.settling(condition_id, later, looked_up, simulation) is None
            &&& kept.settling(condition_id, later, looked_up, simulation) is None
        }),
{
}

/// In simulation a cycle sends nothing: no BUY order, no merge at its end and no
/// redemption, and the exchange is not asked about its orders. (The SELL orders:
/// `cycle::simulation_sends_no_sell`; the split:
/// `entry::simulation_splits_nothing`.)
pub proof fn simulation_sends_nothing(
    config: StrategyConfig,
    token_id: Seq<char>,
    price: int,
    now: i64,
    cycle: CycleView,
    trade: TradeView,
    tokens: Seq<TokenView>,
)
    requires
        config.simulation_mode,
    ensures
        limit_placement(config, token_id, "BUY"@, price, now) is Simulated,
        cycle.closing_merge(config.simulation_mode) is None,
        cycle.fills_query(config.simulation_mode) is None,
        trade.settled(tokens, config.simulation_mode).redemption is None,
{
}

/// A new cycle ends with its five minutes, and from then on the next look puts
/// it away, so that the five minutes after it can start one of their own.
pub proof fn cycles_follow_each_other(
    entry: EntryView,
    buy_price: i64,
    up: Option<Seq<char>>,
    down: Option<Seq<char>>,
    before: StrategyView,
    config: StrategyConfig,
    period: i64,
    now: i64,
)
    requires
        0 <= entry.period_start <= LATEST_INSTANT,
        before.state == Some(entry.started(buy_price, up, down)),
    ensures
        entry.started(buy_price, up, down).expiry == entry.period_start + 300,
        now > entry.period_start + 300 ==> {
            let (after, step) = before.looked_at(config, period, now);
            after.state is None && step is Expired && after.looked_at(config, period, now).1
                is Discover
        },
        now <= entry.period_start + 300 ==> before.looked_at(config, period, now) == (
            before,
            MarketStepView::CheckFills,
        ),
{
}

/// A check of the BUY orders, whatever the exchange answers, changes nothing of
/// a cycle but that a side may count as filled; and once both sides do, nothing
/// is asked any more.
pub proof fn checks_only_add_fills(
    cycle: CycleView,
    outcome: Outcome,
    filled: bool,
    other: Outcome,
    simulation: bool,
)
    ensures
        cycle.matched(other) ==> cycle.with_match(outcome, filled).matched(other),
        cycle.with_match(outcome, filled) == (CycleView {
            up_matched: cycle.with_match(outcome, filled).up_matched,
            down_matched: cycle.with_match(outcome, filled).down_matched,
            ..cycle
        }),
        cycle.up_matched && cycle.down_matched ==> cycle.fills_query(simulation) is None
            && cycle.with_match(outcome, filled) == cycle,
{
}

/// A message changes nothing but the cycle, and none makes a cycle or ends one.
pub proof fn events_touch_the_cycle_only(
    before: StrategyView,
    config: StrategyConfig,
    event: UserEvent,
    now: i64,
)
    ensures
        ({
            let after = before.after_event(config, event, now).0;
            &&& after.state is Some == before.state is Some
            &&& after == (StrategyView { state: after.state, ..before })
        }),
{
}

/// The profit of a market is its payout less its cost, so that a pair of equal
/// sides that were both bought earns the difference to one dollar a share.
pub proof fn a_full_pair_earns_the_difference(
    trade: TradeView,
    tokens: Seq<TokenView>,
    simulation: bool,
)
    requires
        trade.up_shares == trade.down_shares,
        magnitude(trade.up_avg_price as int) <= 0x4000_0000_0000_0000,
        magnitude(trade.down_avg_price as int) <= 0x4000_0000_0000_0000,
        token_wins(tokens, trade.up_token_id) || token_wins(tokens, trade.down_token_id),
    ensures
        trade.settled(tokens, simulation).pnl == trade.up_shares * (1_000_000 - trade.up_avg_price
            - trade.down_avg_price),
{
    let n = trade.up_shares as int;
    let a = trade.up_avg_price as int;
    let b = trade.down_avg_price as int;
    assert(n * (1_000_000 - a - b) == n * 1_000_000 - (n * a + n * b)) by (nonlinear_arith);
    lemma_product_bound(n, a);
    lemma_product_bound(n, b);
}

/// The product of a share count and a price of up to 2^62 micros.
proof fn lemma_product_bound(n: int, a: int)
    requires
        magnitude(n) <= 0x8000_0000_0000_0000,
        magnitude(a) <= 0x4000_0000_0000_0000,
    ensures
        magnitude(n * a) <= 0x2000_0000_0000_0000_0000_0000_0000_0000,
{
    assert(magnitude(n * a) <= 0x2000_0000_0000_0000_0000_0000_0000_0000) by (nonlinear_arith)
        requires
            -0x8000_0000_0000_0000 <= n <= 0x8000_0000_0000_0000,
            -0x4000_0000_0000_0000 <= a <= 0x4000_0000_0000_0000,
    ;
}

/// A position in a decided market is redeemed on the winning side, however few
/// shares that side holds; without a winner, and in simulation, nothing is
/// redeemed.
pub proof fn winners_are_redeemed(trade: TradeView, tokens: Seq<TokenView>)
    ensures
        trade.settled(tokens, true).redemption is None,
        match trade.settled(tokens, false).redemption {
            Some(redemption) => if token_wins(tokens, trade.up_token_id) {
                redemption.outcome == Outcome::Up && trade.up_token_id == Some(redemption.token_id)
            } else {
                redemption.outcome == Outcome::Down && trade.down_token_id == Some(
                    redemption.token_id,
                ) && token_wins(tokens, trade.down_token_id)
            },
            None => !token_wins(tokens, trade.up_token_id) && !token_wins(
                tokens,
                trade.down_token_id,
            ),
        },
{
}

/// Shares that were reported on chain, as mined or as confirmed, are kept for
/// settlement when their cycle is over, and are due once their market has ended.
pub proof fn positions_on_chain_are_settled(
    before: StrategyView,
    cycle: CycleView,
    config: StrategyConfig,
    update: TradeUpdate,
    reported_at: i64,
    expired_at: i64,
    now: u64,
)
    requires
        update.on_chain(),
        update.is_buy,
        cycle.outcome_of(update) is Some,
        cycle.market_period_start >= 0,
        now >= cycle.market_period_start + MARKET_DURATION_SECS,
        !before.closure_checked.contains_key(cycle.condition_id),
    ensures
        ({
            let reported = cycle.after_trade(config, update, reported_at).0;
            let after = before.expired(reported, config, expired_at).0;
            &&& after.trades.contains_key(cycle.condition_id)
            &&& after.trades[cycle.condition_id] == reported.position(config.shares)
            &&& after.is_due(cycle.condition_id, now)
        }),
{
}

} // verus!
