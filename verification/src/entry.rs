//! How a cycle is started: the steps from the look-up of a market to the two BUY
//! orders, one after the other.
use vstd::prelude::*;

use crate::config::StrategyConfig;
use crate::discovery::{last_token, MarketDiscovery, TokenError};
use crate::models::{
    pending_views, CycleView, Market, MarketDetails, OpenOrder, OrderResponse, PendingTradeView,
    PreLimitOrderState, ResponseView,
};
use crate::orders::{
    limit_placement, place_limit_order, Outcome, Placement, PlacementView, LATEST_INSTANT,
};
use crate::strategy::{
    JobView, PreLimitStrategy, RetryJob, StrategyView, MARKET_DURATION_SECS, MAX_RETRIES,
    SPLIT_AMOUNT, SPLIT_INITIAL_DELAY_MS,
};
use crate::table::Table;
use crate::text::text_eq;

verus! {

/// The split that pays for a cycle, tried up to three times.
pub open spec fn split_job(condition_id: Seq<char>) -> JobView {
    JobView {
        condition_id,
        amount: SPLIT_AMOUNT,
        max_retries: MAX_RETRIES,
        initial_delay_ms: SPLIT_INITIAL_DELAY_MS,
    }
}

/// A market that a cycle is about to be started in.
#[derive(Debug)]
pub struct Entry {
    pub condition_id: String,
    pub up_token_id: String,
    pub down_token_id: String,
    pub period_start: i64,
    pub placed_at: i64,
    /// The transaction that split the dollars, once that was done.
    pub split_tx_hash: Option<String>,
}

/// What an [`Entry`] says.
#[verifier::ext_equal]
pub struct EntryView {
    pub condition_id: Seq<char>,
    pub up_token_id: Seq<char>,
    pub down_token_id: Seq<char>,
    pub period_start: i64,
    pub placed_at: i64,
    pub split_tx_hash: Option<Seq<char>>,
}

impl DeepView for Entry {
    type V = EntryView;

    open spec fn deep_view(&self) -> EntryView {
        EntryView {
            condition_id: self.condition_id@,
            up_token_id: self.up_token_id@,
            down_token_id: self.down_token_id@,
            period_start: self.period_start,
            placed_at: self.placed_at,
            split_tx_hash: self.split_tx_hash.deep_view(),
        }
    }
}

impl EntryView {
    /// The token of this outcome.
    pub open spec fn token_id(self, outcome: Outcome) -> Seq<char> {
        match outcome {
            Outcome::Up => self.up_token_id,
            Outcome::Down => self.down_token_id,
        }
    }

    /// The BUY order of one side.
    pub open spec fn buy(self, config: StrategyConfig, outcome: Outcome, now: i64) -> PlacementView {
        limit_placement(config, self.token_id(outcome), "BUY"@, config.buy_price as int, now)
    }

    /// One of the orders is for a token of this market.
    pub open spec fn has_order(self, orders: Seq<OpenOrder>) -> bool {
        exists|i: int|
            0 <= i < orders.len() && (#[trigger] orders[i].token_id@ == self.up_token_id
                || orders[i].token_id@ == self.down_token_id)
    }

    /// The cycle that starts with these two BUY orders.
    pub open spec fn started(
        self,
        buy_price: i64,
        up: Option<Seq<char>>,
        down: Option<Seq<char>>,
    ) -> CycleView {
        CycleView {
            asset: "BTC"@,
            condition_id: self.condition_id,
            up_token_id: self.up_token_id,
            down_token_id: self.down_token_id,
            up_order_id: up,
            down_order_id: down,
            up_buy_price: buy_price,
            down_buy_price: buy_price,
            up_matched: false,
            down_matched: false,
            up_mined: false,
            down_mined: false,
            up_shares_received: 0,
            down_shares_received: 0,
            up_spent_usdc: 0,
            down_spent_usdc: 0,
            up_sell_order_id: None,
            down_sell_order_id: None,
            expiry: (self.period_start + MARKET_DURATION_SECS) as i64,
            order_placed_at: self.placed_at,
            market_period_start: self.period_start,
            trade_info: Map::empty(),
            up_trade_confirmed: false,
            down_trade_confirmed: false,
            pending_trades: Seq::empty(),
            split_tx_hash: self.split_tx_hash,
        }
    }
}

/// Why no cycle was started.
#[derive(Debug, Clone, Copy, PartialEq, Eq, Structural)]
pub enum EntryEnd {
    /// There is no market that can be traded.
    NoMarket,
    /// The five minutes of the market are not running.
    NotRunning,
    /// The tokens of the market could not be asked for.
    NoDetails,
    /// The market lacks a token.
    NoToken(TokenError),
    /// An order for the market rests already.
    OrdersRest,
    /// No shares could be split.
    SplitFailed,
    /// A BUY order failed.
    BuyFailed,
}

/// What is to be done next to start a cycle.
#[derive(Debug)]
pub enum EntryStage {
    /// The market that starts at `period` is to be looked up.
    LookUp { period: i64, now: i64 },
    /// The tokens of the market are to be asked for.
    Tokens { condition_id: String, period: i64, now: i64 },
    /// The resting orders are to be asked for.
    OpenOrders(Entry),
    /// Shares are to be split.
    Split(Entry, RetryJob),
    /// The BUY order of the Up side is to be placed.
    BuyUp(Entry),
    /// The BUY order of the Down side is to be placed.
    BuyDown(Entry, OrderResponse),
    /// The cycle runs.
    Opened,
    /// No cycle is started.
    Stopped(EntryEnd),
}

/// What an [`EntryStage`] says.
#[verifier::ext_equal]
pub enum StageView {
    LookUp { period: i64, now: i64 },
    Tokens { condition_id: Seq<char>, period: i64, now: i64 },
    OpenOrders(EntryView),
    Split(EntryView, JobView),
    BuyUp(EntryView),
    BuyDown(EntryView, ResponseView),
    Opened,
    Stopped(EntryEnd),
}

impl DeepView for EntryStage {
    type V = StageView;

    open spec fn deep_view(&self) -> StageView {
        match self {
            EntryStage::LookUp { period, now } => StageView::LookUp { period: *period, now: *now },
            EntryStage::Tokens { condition_id, period, now } => StageView::Tokens {
                condition_id: condition_id@,
                period: *period,
                now: *now,
            },
            EntryStage::OpenOrders(entry) => StageView::OpenOrders(entry.deep_view()),
            EntryStage::Split(entry, job) => StageView::Split(entry.deep_view(), job.deep_view()),
            EntryStage::BuyUp(entry) => StageView::BuyUp(entry.deep_view()),
            EntryStage::BuyDown(entry, up) => StageView::BuyDown(entry.deep_view(), up.deep_view()),
            EntryStage::Opened => StageView::Opened,
            EntryStage::Stopped(end) => StageView::Stopped(*end),
        }
    }
}

/// The answer to what a stage asks for.
#[derive(Debug)]
pub enum EntryAnswer {
    /// The market, where the look-up found one.
    Found(Option<Market>),
    /// The market with its tokens, where the exchange answered.
    Details(Option<MarketDetails>),
    /// The resting orders, where the exchange answered.
    Resting(Option<Vec<OpenOrder>>),
    /// The transaction of the split, or why it failed.
    Divided(Result<String, String>),
    /// The answer to a BUY order, where it was taken.
    Bought(Option<OrderResponse>),
}

impl EntryAnswer {
    /// The name of the order that was placed.
    pub open spec fn order_id(self) -> Option<Seq<char>> {
        match self {
            EntryAnswer::Bought(Some(response)) => response.deep_view().order_id,
            _ => None,
        }
    }
}

impl StageView {
    /// The five minutes that the stage is about lie in the calendar.
    pub open spec fn in_calendar(self) -> bool {
        match self {
            StageView::LookUp { period, .. } => 0 <= period <= LATEST_INSTANT,
            StageView::Tokens { period, .. } => 0 <= period <= LATEST_INSTANT,
            StageView::OpenOrders(entry) => 0 <= entry.period_start <= LATEST_INSTANT,
            StageView::Split(entry, _) => 0 <= entry.period_start <= LATEST_INSTANT,
            StageView::BuyUp(entry) => 0 <= entry.period_start <= LATEST_INSTANT,
            StageView::BuyDown(entry, _) => 0 <= entry.period_start <= LATEST_INSTANT,
            StageView::Opened => true,
            StageView::Stopped(_) => true,
        }
    }

    /// The stage after an answer. Shares are split only where `splits` says so,
    /// and in simulation only in name. An answer to something else changes
    /// nothing.
    pub open spec fn next(self, simulation: bool, splits: bool, answer: EntryAnswer) -> StageView {
        match (self, answer) {
            (StageView::LookUp { period, now }, EntryAnswer::Found(found)) => match found {
                Some(market) => if !market.active || market.closed {
                    StageView::Stopped(EntryEnd::NoMarket)
                } else if period <= now < period + MARKET_DURATION_SECS {
                    StageView::Tokens { condition_id: market.condition_id@, period, now }
                } else {
                    StageView::Stopped(EntryEnd::NotRunning)
                },
                None => StageView::Stopped(EntryEnd::NoMarket),
            },
            (StageView::Tokens { condition_id, period, now }, EntryAnswer::Details(details)) =>
                match details {
                Some(market) => {
                    let tokens = market.deep_view().tokens;
                    match (last_token(tokens, true), last_token(tokens, false)) {
                        (Some(up), Some(down)) => {
                            let entry = EntryView {
                                condition_id,
                                up_token_id: up,
                                down_token_id: down,
                                period_start: period,
                                placed_at: now,
                                split_tx_hash: if splits && simulation {
                                    Some("SIM-SPLIT"@)
                                } else {
                                    None
                                },
                            };
                            if splits && !simulation {
                                StageView::OpenOrders(entry)
                            } else {
                                StageView::BuyUp(entry)
                            }
                        },
                        (Some(_), None) => StageView::Stopped(
                            EntryEnd::NoToken(TokenError::DownTokenNotFound),
                        ),
                        (None, _) => StageView::Stopped(
                            EntryEnd::NoToken(TokenError::UpTokenNotFound),
                        ),
                    }
                },
                None => StageView::Stopped(EntryEnd::NoDetails),
            },
            (StageView::OpenOrders(entry), EntryAnswer::Resting(orders)) => if orders is Some
                && entry.has_order(orders->0@) {
                StageView::Stopped(EntryEnd::OrdersRest)
            } else {
                StageView::Split(entry, split_job(entry.condition_id))
            },
            (StageView::Split(entry, _), EntryAnswer::Divided(result)) => match result {
                Ok(hash) => StageView::BuyUp(
                    EntryView { split_tx_hash: Some(hash@), ..entry },
                ),
                Err(_) => StageView::Stopped(EntryEnd::SplitFailed),
            },
            (StageView::BuyUp(entry), EntryAnswer::Bought(reply)) => match reply {
                Some(up) => StageView::BuyDown(entry, up.deep_view()),
                None => StageView::Stopped(EntryEnd::BuyFailed),
            },
            (StageView::BuyDown(_, _), EntryAnswer::Bought(reply)) => match reply {
                Some(_) => StageView::Opened,
                None => StageView::Stopped(EntryEnd::BuyFailed),
            },
            _ => self,
        }
    }
}

impl StrategyView {
    /// The strategy after an answer at a stage: the answer to the second BUY
    /// order starts the cycle, and no other changes anything.
    pub open spec fn entered(self, buy_price: i64, stage: StageView, answer: EntryAnswer) -> Self {
        match (stage, answer) {
            (StageView::BuyDown(entry, up), EntryAnswer::Bought(Some(_))) => StrategyView {
                state: Some(entry.started(buy_price, up.order_id, answer.order_id())),
                ..self
            },
            _ => self,
        }
    }
}

impl PreLimitStrategy {
    /// Goes from a stage and the answer to what it asked for to the next stage.
    pub fn enter(&mut self, splits: bool, stage: EntryStage, answer: EntryAnswer) -> (r: EntryStage)
        requires
            stage.deep_view().in_calendar(),
        ensures
            r.deep_view() == stage.deep_view().next(
                old(self).config.strategy.simulation_mode,
                splits,
                answer,
            ),
            r.deep_view().in_calendar(),
            final(self)@ == old(self)@.entered(
                old(self).config.strategy.buy_price,
                stage.deep_view(),
                answer,
            ),
            final(self).config == old(self).config,
    {
        let simulation = self.config.strategy.simulation_mode;
        match (stage, answer) {
            (EntryStage::LookUp { period, now }, EntryAnswer::Found(found)) => {
                match Self::discover_market(found) {
                    Some(market) => if Self::entry_is_open(period, now) {
                        EntryStage::Tokens { condition_id: market.condition_id, period, now }
                    } else {
                        EntryStage::Stopped(EntryEnd::NotRunning)
                    },
                    None => EntryStage::Stopped(EntryEnd::NoMarket),
                }
            },
            (EntryStage::Tokens { condition_id, period, now }, EntryAnswer::Details(details)) => {
                match details {
                    Some(market) => match MarketDiscovery::get_market_tokens(&market) {
                        Ok((up_token_id, down_token_id)) => {
                            let entry = Entry {
                                condition_id,
                                up_token_id,
                                down_token_id,
                                period_start: period,
                                placed_at: now,
                                split_tx_hash: if splits && simulation {
                                    Some("SIM-SPLIT".to_owned())
                                } else {
                                    None
                                },
                            };
                            if splits && !simulation {
                                EntryStage::OpenOrders(entry)
                            } else {
                                EntryStage::BuyUp(entry)
                            }
                        },
                        Err(e) => EntryStage::Stopped(EntryEnd::NoToken(e)),
                    },
                    None => EntryStage::Stopped(EntryEnd::NoDetails),
                }
            },
            (EntryStage::OpenOrders(entry), EntryAnswer::Resting(orders)) => {
                let rests = match &orders {
                    Some(list) => entry.rests_among(list),
                    None => false,
                };
                if rests {
                    EntryStage::Stopped(EntryEnd::OrdersRest)
                } else {
                    let job = RetryJob {
                        condition_id: entry.condition_id.clone(),
                        amount: SPLIT_AMOUNT,
                        max_retries: MAX_RETRIES,
                        initial_delay_ms: SPLIT_INITIAL_DELAY_MS,
                    };
                    EntryStage::Split(entry, job)
                }
            },
            (EntryStage::Split(entry, _), EntryAnswer::Divided(result)) => match result {
                Ok(hash) => EntryStage::BuyUp(
                    Entry {
                        condition_id: entry.condition_id,
                        up_token_id: entry.up_token_id,
                        down_token_id: entry.down_token_id,
                        period_start: entry.period_start,
                        placed_at: entry.placed_at,
                        split_tx_hash: Some(hash),
                    },
                ),
                Err(_) => EntryStage::Stopped(EntryEnd::SplitFailed),
            },
            (EntryStage::BuyUp(entry), EntryAnswer::Bought(reply)) => match reply {
                Some(up) => EntryStage::BuyDown(entry, up),
                None => EntryStage::Stopped(EntryEnd::BuyFailed),
            },
            (EntryStage::BuyDown(entry, up), EntryAnswer::Bought(reply)) => match reply {
                Some(down) => {
                    self.buys_placed(entry, up, down);
                    EntryStage::Opened
                },
                None => EntryStage::Stopped(EntryEnd::BuyFailed),
            },
            (stage, _) => stage,
        }
    }

    /// The BUY order of one side.
    pub fn buy_order(&self, entry: &Entry, outcome: Outcome, now: i64) -> (r: Placement)
        requires
            0 <= now <= LATEST_INSTANT,
        ensures
            r.deep_view() == entry.deep_view().buy(self.config.strategy, outcome, now),
    {
        let token_id = match outcome {
            Outcome::Up => entry.up_token_id.as_str(),
            Outcome::Down => entry.down_token_id.as_str(),
        };
        place_limit_order(
            &self.config.strategy,
            token_id,
            "BUY",
            self.config.strategy.buy_price,
            now,
        )
    }

    /// Starts the cycle once both BUY orders were taken.
    fn buys_placed(&mut self, entry: Entry, up: OrderResponse, down: OrderResponse)
        requires
            0 <= entry.period_start <= LATEST_INSTANT,
        ensures
            final(self)@ == (StrategyView {
                state: Some(
                    entry.deep_view().started(
                        old(self).config.strategy.buy_price,
                        up.deep_view().order_id,
                        down.deep_view().order_id,
                    ),
                ),
                ..old(self)@
            }),
            final(self).config == old(self).config,
    {
        let buy_price: i64 = self.config.strategy.buy_price;
        let pending_trades: std::collections::VecDeque<crate::models::PendingTrade> =
            std::collections::VecDeque::new();
        assert(pending_views(pending_trades@) =~= Seq::<PendingTradeView>::empty());
        self.state = Some(
            PreLimitOrderState {
                asset: "BTC".to_owned(),
                condition_id: entry.condition_id,
                up_token_id: entry.up_token_id,
                down_token_id: entry.down_token_id,
                up_order_id: up.order_id,
                down_order_id: down.order_id,
                up_buy_price: buy_price,
                down_buy_price: buy_price,
                up_matched: false,
                down_matched: false,
                up_mined: false,
                down_mined: false,
                up_shares_received: 0,
                down_shares_received: 0,
                up_spent_usdc: 0,
                down_spent_usdc: 0,
                up_sell_order_id: None,
                down_sell_order_id: None,
                expiry: entry.period_start + MARKET_DURATION_SECS,
                order_placed_at: entry.placed_at,
                market_period_start: entry.period_start,
                trade_info: Table::new(),
                up_trade_confirmed: false,
                down_trade_confirmed: false,
                pending_trades,
                split_tx_hash: entry.split_tx_hash,
            },
        );
    }
}

impl Entry {
    /// Whether one of the orders is for a token of this market.
    fn rests_among(&self, orders: &Vec<OpenOrder>) -> (r: bool)
        ensures
            r == self.deep_view().has_order(orders@),
    {
        let mut i: usize = 0;
        while i < orders.len()
            invariant
                0 <= i <= orders@.len(),
                forall|j: int|
                    0 <= j < i ==> #[trigger] orders@[j].token_id@ != self.up_token_id@
                        && orders@[j].token_id@ != self.down_token_id@,
            decreases orders@.len() - i,
        {
            let token_id = orders[i].token_id.as_str();
            if text_eq(token_id, self.up_token_id.as_str()) || text_eq(
                token_id,
                self.down_token_id.as_str(),
            ) {
                assert(orders@[i as int].token_id@ == token_id@);
                return true;
            }
            i = i + 1;
        }
        false
    }
}

/// The stage and the strategy after a series of answers.
pub open spec fn entry_run(
    strategy: StrategyView,
    config: StrategyConfig,
    splits: bool,
    stage: StageView,
    answers: Seq<EntryAnswer>,
) -> (StrategyView, StageView)
    decreases answers.len(),
{
    if answers.len() == 0 {
        (strategy, stage)
    } else {
        entry_run(
            strategy.entered(config.buy_price, stage, answers[0]),
            config,
            splits,
            stage.next(config.simulation_mode, splits, answers[0]),
            answers.drop_first(),
        )
    }
}

/// Those of the answers that led from one stage to another, in their order.
pub open spec fn entry_steps(
    config: StrategyConfig,
    splits: bool,
    stage: StageView,
    answers: Seq<EntryAnswer>,
) -> Seq<EntryAnswer>
    decreases answers.len(),
{
    if answers.len() == 0 {
        Seq::empty()
    } else {
        let next = stage.next(config.simulation_mode, splits, answers[0]);
        let rest = entry_steps(config, splits, next, answers.drop_first());
        if next == stage {
            rest
        } else {
            seq![answers[0]] + rest
        }
    }
}

/// These answers are to the BUY orders of an entry, Up first, and start its
/// cycle.
pub open spec fn buys_start(
    steps: Seq<EntryAnswer>,
    entry: EntryView,
    buy_price: i64,
    cycle: CycleView,
) -> bool {
    &&& steps.len() == 2
    &&& steps[0] is Bought && steps[0]->Bought_0 is Some
    &&& steps[1] is Bought && steps[1]->Bought_0 is Some
    &&& cycle == entry.started(buy_price, steps[0].order_id(), steps[1].order_id())
}

/// The first answer tells of a split that succeeded, and the BUY orders of the
/// entry follow it.
pub open spec fn split_starts(
    steps: Seq<EntryAnswer>,
    entry: EntryView,
    buy_price: i64,
    cycle: CycleView,
) -> bool {
    &&& steps.len() > 0
    &&& steps[0] is Divided && steps[0]->Divided_0 is Ok
    &&& buys_start(
        steps.drop_first(),
        EntryView { split_tx_hash: Some(steps[0]->Divided_0->Ok_0@), ..entry },
        buy_price,
        cycle,
    )
}

/// The first answer shows no resting order for the market of the entry, and the
/// split follows it.
pub open spec fn free_book_starts(
    steps: Seq<EntryAnswer>,
    entry: EntryView,
    buy_price: i64,
    cycle: CycleView,
) -> bool {
    &&& steps.len() > 0
    &&& steps[0] is Resting
    &&& steps[0]->Resting_0 is Some ==> !entry.has_order(steps[0]->Resting_0->0@)
    &&& split_starts(steps.drop_first(), entry, buy_price, cycle)
}

/// The first answer tells of both tokens of a market, and what remains of the
/// entry follows it: the BUY orders alone where nothing is split.
pub open spec fn tokens_start(
    steps: Seq<EntryAnswer>,
    condition_id: Seq<char>,
    period: i64,
    now: i64,
    config: StrategyConfig,
    splits: bool,
    cycle: CycleView,
) -> bool {
    &&& steps.len() > 0
    &&& steps[0] is Details && steps[0]->Details_0 is Some
    &&& ({
        let tokens = steps[0]->Details_0->0.deep_view().tokens;
        let entry = EntryView {
            condition_id,
            up_token_id: last_token(tokens, true)->0,
            down_token_id: last_token(tokens, false)->0,
            period_start: period,
            placed_at: now,
            split_tx_hash: if splits {
                Some("SIM-SPLIT"@)
            } else {
                None
            },
        };
        &&& last_token(tokens, true) is Some && last_token(tokens, false) is Some
        &&& if splits && !config.simulation_mode {
            free_book_starts(
                steps.drop_first(),
                EntryView { split_tx_hash: None, ..entry },
                config.buy_price,
                cycle,
            )
        } else {
            buys_start(steps.drop_first(), entry, config.buy_price, cycle)
        }
    })
}

/// The first answer tells of a market that can be traded, whose five minutes are
/// running, and its tokens follow it.
pub open spec fn market_starts(
    steps: Seq<EntryAnswer>,
    period: i64,
    now: i64,
    config: StrategyConfig,
    splits: bool,
    cycle: CycleView,
) -> bool {
    &&& steps.len() > 0
    &&& steps[0] is Found && steps[0]->Found_0 is Some
    &&& ({
        let market = steps[0]->Found_0->0;
        &&& market.active && !market.closed
        &&& period <= now < period + MARKET_DURATION_SECS
        &&& tokens_start(
            steps.drop_first(),
            market.condition_id@,
            period,
            now,
            config,
            splits,
            cycle,
        )
    })
}

/// From every stage on, a cycle is started only by the answers that the stages
/// in between ask for.
proof fn lemma_steps_to_opened(
    strategy: StrategyView,
    config: StrategyConfig,
    splits: bool,
    stage: StageView,
    answers: Seq<EntryAnswer>,
)
    ensures
        ({
            let (after, end) = entry_run(strategy, config, splits, stage, answers);
            let steps = entry_steps(config, splits, stage, answers);
            let cycle = after.state->0;
            let buy_price = config.buy_price;
            &&& end !is Opened || stage is Opened ==> after == strategy
            &&& end is Opened && stage !is Opened ==> after.state is Some && after
                == (StrategyView { state: after.state, ..strategy })
            &&& stage is Opened ==> end is Opened
            &&& end is Opened ==> match stage {
                StageView::LookUp { period, now } => market_starts(
                    steps,
                    period,
                    now,
                    config,
                    splits,
                    cycle,
                ),
                StageView::Tokens { condition_id, period, now } => tokens_start(
                    steps,
                    condition_id,
                    period,
                    now,
                    config,
                    splits,
                    cycle,
                ),
                StageView::OpenOrders(entry) => free_book_starts(steps, entry, buy_price, cycle),
                StageView::Split(entry, _) => split_starts(steps, entry, buy_price, cycle),
                StageView::BuyUp(entry) => buys_start(steps, entry, buy_price, cycle),
                StageView::BuyDown(entry, up) => {
                    &&& steps.len() == 1
                    &&& steps[0] is Bought && steps[0]->Bought_0 is Some
                    &&& cycle == entry.started(buy_price, up.order_id, steps[0].order_id())
                },
                StageView::Opened => steps.len() == 0,
                StageView::Stopped(_) => false,
            }
        }),
    decreases answers.len(),
{
    if answers.len() > 0 {
        let next = stage.next(config.simulation_mode, splits, answers[0]);
        let rest = entry_steps(config, splits, next, answers.drop_first());
        let steps = entry_steps(config, splits, stage, answers);
        lemma_steps_to_opened(
            strategy.entered(config.buy_price, stage, answers[0]),
            config,
            splits,
            next,
            answers.drop_first(),
        );
        if next != stage {
            assert(steps == seq![answers[0]] + rest);
            assert(steps.drop_first() =~= rest);
            assert(steps[0] == answers[0]);
        }
    }
}

/// A cycle is started only once every step before it was answered, in this
/// order: a market that can be traded was found while its five minutes were
/// running, both its tokens are known, no order rests for it, shares were split,
/// and the BUY order of the Up side and then that of the Down side were taken.
/// Where nothing is split, and in simulation, the resting orders and the split
/// are left out. The cycle holds what the answers said and the instant at which
/// its five minutes were running. Any other answers leave the strategy as it
/// was.
pub proof fn a_cycle_starts_after_every_step(
    strategy: StrategyView,
    config: StrategyConfig,
    splits: bool,
    period: i64,
    now: i64,
    answers: Seq<EntryAnswer>,
)
    ensures
        ({
            let stage = StageView::LookUp { period, now };
            let (after, end) = entry_run(strategy, config, splits, stage, answers);
            let steps = entry_steps(config, splits, stage, answers);
            if end is Opened {
                &&& after.state matches Some(cycle) && {
                    &&& market_starts(steps, period, now, config, splits, cycle)
                    &&& cycle.market_period_start == period
                    &&& cycle.order_placed_at == now
                    &&& period <= now < period + MARKET_DURATION_SECS
                }
                &&& after == (StrategyView { state: after.state, ..strategy })
                &&& steps.len() == if splits && !config.simulation_mode {
                    6int
                } else {
                    4int
                }
            } else {
                after == strategy
            }
        }),
{
    lemma_steps_to_opened(
        strategy,
        config,
        splits,
        StageView::LookUp { period, now },
        answers,
    );
}

/// An answer that a stage did not ask for changes nothing, and once an entry has
/// ended no answer does.
pub proof fn only_what_was_asked_for_counts(
    strategy: StrategyView,
    config: StrategyConfig,
    splits: bool,
    stage: StageView,
    answer: EntryAnswer,
)
    ensures
        !(match stage {
            StageView::LookUp { .. } => answer is Found,
            StageView::Tokens { .. } => answer is Details,
            StageView::OpenOrders(_) => answer is Resting,
            StageView::Split(_, _) => answer is Divided,
            StageView::BuyUp(_) => answer is Bought,
            StageView::BuyDown(_, _) => answer is Bought,
            StageView::Opened => false,
            StageView::Stopped(_) => false,
        }) ==> stage.next(config.simulation_mode, splits, answer) == stage && strategy.entered(
            config.buy_price,
            stage,
            answer,
        ) == strategy,
{
}

/// From the look-up on no shares are split in simulation, whatever is answered,
/// and the resting orders are not asked for.
pub proof fn simulation_splits_nothing(
    strategy: StrategyView,
    config: StrategyConfig,
    splits: bool,
    period: i64,
    now: i64,
    answers: Seq<EntryAnswer>,
)
    requires
        config.simulation_mode,
    ensures
        ({
            let stage = StageView::LookUp { period, now };
            let end = entry_run(strategy, config, splits, stage, answers).1;
            end !is OpenOrders && end !is Split
        }),
{
    lemma_no_split(strategy, config, splits, StageView::LookUp { period, now }, answers);
}

/// In simulation no stage leads to a split but the ones right before it.
proof fn lemma_no_split(
    strategy: StrategyView,
    config: StrategyConfig,
    splits: bool,
    stage: StageView,
    answers: Seq<EntryAnswer>,
)
    requires
        config.simulation_mode,
        stage !is OpenOrders,
        stage !is Split,
    ensures
        ({
            let end = entry_run(strategy, config, splits, stage, answers).1;
            end !is OpenOrders && end !is Split
        }),
    decreases answers.len(),
{
    if answers.len() > 0 {
        lemma_no_split(
            strategy.entered(config.buy_price, stage, answers[0]),
            config,
            splits,
            stage.next(config.simulation_mode, splits, answers[0]),
            answers.drop_first(),
        );
    }
}

} // verus!
