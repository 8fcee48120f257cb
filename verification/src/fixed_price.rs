//! The strategy at fixed prices: BUY both sides at 49 cents, and SELL each at
//! 50 cents once its shares are on chain. Orders rest until they are cancelled.
//!
//! Fills, settlement and the profit are those of [`crate::strategy`].
use vstd::prelude::*;

use crate::config::{Config, StrategyConfig};
use crate::cycle::{decimal_to_micros, OrderUpdate, SellStep, SellView, TradeStatus};
use crate::discovery::{period_of, MarketDiscovery};
use crate::entry::{Entry, EntryAnswer, EntryStage, EntryView};
use crate::models::{
    CycleView, OrderRequest, OrderResponse, OrderView, PreLimitOrderState, ResponseView,
};
use crate::money::{fills_at, notional, price_fills, to_i64, DecimalParts};
use crate::orders::{
    limit_placement, place_limit_order, place_sell_order, sell_placement, Outcome, Placement,
    PlacementView, LATEST_INSTANT,
};
use crate::strategy::{cycle_trade_from_state, MarketStep, MarketStepView, StrategyView};
use crate::text::{int_text, is_lower, lower_is};

verus! {

/// What a share is bought at.
pub const BUY_PRICE: i64 = 490_000;

/// What a share is sold at.
pub const SELL_PRICE: i64 = 500_000;

/// The order without a date on which it lapses.
pub open spec fn undated(placement: PlacementView) -> PlacementView {
    match placement {
        PlacementView::Send(order) => PlacementView::Send(
            OrderView { time_in_force: None, expire_after: None, ..order },
        ),
        PlacementView::Simulated(response) => PlacementView::Simulated(response),
    }
}

/// Takes the date on which an order lapses away.
fn without_date(placement: Placement) -> (r: Placement)
    ensures
        r.deep_view() == undated(placement.deep_view()),
{
    match placement {
        Placement::Send(order) => Placement::Send(
            OrderRequest {
                token_id: order.token_id,
                side: order.side,
                size: order.size,
                price: order.price,
                order_type: order.order_type,
                time_in_force: None,
                expire_after: None,
            },
        ),
        Placement::Simulated(response) => Placement::Simulated(response),
    }
}

/// An update on one of the account's trades, with the outcome it is about.
#[derive(Debug)]
pub struct TradeReport {
    pub status: TradeStatus,
    pub is_buy: bool,
    pub outcome: Option<String>,
    pub size: DecimalParts,
}

impl TradeReport {
    /// The report tells of bought shares that are on chain.
    pub open spec fn brings_shares(self) -> bool {
        (self.status == TradeStatus::Mined || self.status == TradeStatus::Confirmed) && self.is_buy
            && self.size.mantissa > 0
    }

    /// The side that the report is about.
    pub open spec fn side(self) -> Option<Outcome> {
        let text = match self.outcome {
            Some(inner) => inner@,
            None => ""@,
        };
        if lower_is(text, "up"@) {
            Some(Outcome::Up)
        } else if lower_is(text, "down"@) {
            Some(Outcome::Down)
        } else {
            None
        }
    }
}

impl CycleView {
    /// The shares of this side are on chain.
    pub open spec fn mined(self, outcome: Outcome) -> bool {
        match outcome {
            Outcome::Up => self.up_mined,
            Outcome::Down => self.down_mined,
        }
    }

    /// The shares of this side.
    pub open spec fn shares_received(self, outcome: Outcome) -> i64 {
        match outcome {
            Outcome::Up => self.up_shares_received,
            Outcome::Down => self.down_shares_received,
        }
    }

    /// The cycle once shares of a side came on chain.
    pub open spec fn with_shares(self, outcome: Outcome, shares: i64) -> CycleView {
        let total = to_i64(self.shares_received(outcome) + shares) as i64;
        match outcome {
            Outcome::Up => CycleView { up_mined: true, up_shares_received: total, ..self },
            Outcome::Down => CycleView { down_mined: true, down_shares_received: total, ..self },
        }
    }

    /// The cycle once a trade was reported, and the SELL order that the report
    /// calls for: one over all shares of the side, when its first shares come
    /// on chain and it has no SELL order yet.
    pub open spec fn after_report(self, simulation: bool, report: TradeReport, now: i64) -> (
        CycleView,
        Option<SellView>,
    ) {
        match (report.brings_shares(), report.side()) {
            (true, Some(side)) => {
                let after = self.with_shares(side, decimal_to_micros(report.size));
                (
                    after,
                    if !self.mined(side) && self.sell_order_id(side) is None {
                        Some(
                            SellView {
                                outcome: side,
                                placement: undated(
                                    sell_placement(
                                        simulation,
                                        side,
                                        self.token_id(side),
                                        after.shares_received(side) as int,
                                        SELL_PRICE as int,
                                        now,
                                    ),
                                ),
                            },
                        )
                    } else {
                        None
                    },
                )
            },
            _ => (self, None),
        }
    }

    /// The cycle once an order was reported: a matched order that says its size
    /// fills the side that it says.
    pub open spec fn after_order_report(self, update: OrderUpdate) -> CycleView {
        match (update.matched, update.size_matched, update.outcome) {
            (true, Some(_), Some(outcome)) => if lower_is(outcome@, "up"@) {
                CycleView { up_matched: true, ..self }
            } else if lower_is(outcome@, "down"@) {
                CycleView { down_matched: true, ..self }
            } else {
                self
            },
            _ => self,
        }
    }

    /// A SELL order of this side is made up for, because the report that should
    /// have called for it was missed or the order failed: the shares of the side
    /// are on chain, and it has no SELL order.
    pub open spec fn misses_sell(self, outcome: Outcome) -> bool {
        self.mined(outcome) && self.sell_order_id(outcome) is None
    }

    /// The BUY order of a side counts as filled after a look at it: it did
    /// before, the exchange said so, or the price is low enough.
    pub open spec fn fills_seen(
        self,
        outcome: Outcome,
        filled: Option<(bool, bool)>,
        price: Option<DecimalParts>,
    ) -> bool {
        ||| filled matches Some((up, down)) && (if outcome == Outcome::Up {
            up
        } else {
            down
        })
        ||| price matches Some(parts) && price_fills(
            decimal_to_micros(parts) as int,
            BUY_PRICE as int,
        )
    }
}

impl PreLimitOrderState {
    /// Takes in a report on a trade, and says which SELL order it calls for.
    pub fn trade_report(&mut self, simulation: bool, report: &TradeReport, now: i64) -> (r: Option<
        SellStep,
    >)
        requires
            0 <= now <= LATEST_INSTANT,
        ensures
            (final(self).deep_view(), r.deep_view()) == old(self).deep_view().after_report(
                simulation,
                *report,
                now,
            ),
    {
        let on_chain = match report.status {
            TradeStatus::Mined | TradeStatus::Confirmed => true,
            _ => false,
        };
        if !on_chain || !report.is_buy || report.size.mantissa <= 0 {
            return None;
        }
        let text = match &report.outcome {
            Some(inner) => inner.as_str(),
            None => "",
        };
        let side = if is_lower(text, "up") {
            Outcome::Up
        } else if is_lower(text, "down") {
            Outcome::Down
        } else {
            return None;
        };
        let size: i64 = report.size.micros();
        let (first, shares): (bool, i64) = match side {
            Outcome::Up => {
                let first = !self.up_mined && self.up_sell_order_id.is_none();
                self.up_mined = true;
                self.up_shares_received = add_shares(self.up_shares_received, size);
                (first, self.up_shares_received)
            },
            Outcome::Down => {
                let first = !self.down_mined && self.down_sell_order_id.is_none();
                self.down_mined = true;
                self.down_shares_received = add_shares(self.down_shares_received, size);
                (first, self.down_shares_received)
            },
        };
        if first {
            let token_id = match side {
                Outcome::Up => self.up_token_id.as_str(),
                Outcome::Down => self.down_token_id.as_str(),
            };
            let placement = without_date(
                place_sell_order(simulation, side, token_id, shares, SELL_PRICE, now),
            );
            Some(SellStep { outcome: side, placement })
        } else {
            None
        }
    }

    /// Takes in a report on an order.
    pub fn order_report(&mut self, update: &OrderUpdate)
        ensures
            final(self).deep_view() == old(self).deep_view().after_order_report(*update),
    {
        if !update.matched || update.size_matched.is_none() {
            return;
        }
        if let Some(outcome) = &update.outcome {
            if is_lower(outcome.as_str(), "up") {
                self.up_matched = true;
            } else if is_lower(outcome.as_str(), "down") {
                self.down_matched = true;
            }
        }
    }
}

/// The sum of two amounts, held within the range.
fn add_shares(a: i64, b: i64) -> (r: i64)
    ensures
        r == to_i64(a + b),
{
    match a.checked_add(b) {
        Some(sum) => sum,
        None => if a < 0 {
            i64::MIN
        } else {
            i64::MAX
        },
    }
}

/// What a look at a running cycle brought, where no step of it failed.
#[derive(Debug)]
pub struct PassReplies {
    /// Whether the exchange called the BUY orders filled, where it was asked
    /// and answered.
    pub filled: Option<(bool, bool)>,
    pub up_price: Option<DecimalParts>,
    pub down_price: Option<DecimalParts>,
    /// The answers to the SELL orders that were made up for.
    pub up_sell: Option<OrderResponse>,
    pub down_sell: Option<OrderResponse>,
}

impl PassReplies {
    /// The answer to the SELL order of a side that was made up for.
    pub open spec fn sell(self, outcome: Outcome) -> Option<ResponseView> {
        match outcome {
            Outcome::Up => self.up_sell.deep_view(),
            Outcome::Down => self.down_sell.deep_view(),
        }
    }
}

/// The cycle after a look at it. An answer to a SELL order counts only on a side
/// that missed one.
pub open spec fn after_pass(cycle: CycleView, replies: PassReplies) -> CycleView {
    let filled = cycle.with_match(
        Outcome::Up,
        cycle.fills_seen(Outcome::Up, replies.filled, replies.up_price),
    ).with_match(
        Outcome::Down,
        cycle.fills_seen(Outcome::Down, replies.filled, replies.down_price),
    );
    filled.after_sell(
        Outcome::Up,
        if cycle.misses_sell(Outcome::Up) {
            replies.sell(Outcome::Up)
        } else {
            None
        },
    ).after_sell(
        Outcome::Down,
        if cycle.misses_sell(Outcome::Down) {
            replies.sell(Outcome::Down)
        } else {
            None
        },
    )
}

/// The cycle after a look that was broken off because an order failed: of all
/// that it brought only the accepted SELL order of the Up side counts, on a side
/// that missed one.
pub open spec fn after_broken_off(cycle: CycleView, up_sell: Option<ResponseView>) -> CycleView {
    cycle.after_sell(
        Outcome::Up,
        if cycle.misses_sell(Outcome::Up) {
            up_sell
        } else {
            None
        },
    )
}

/// A message of the account's event stream.
#[derive(Debug)]
pub enum UserEvent {
    Order(OrderUpdate),
    Trade(TradeReport),
    Other,
}

/// The strategy at fixed prices.
pub struct PreLimitStrategy {
    pub inner: crate::strategy::PreLimitStrategy,
}

/// The strategy's settings with the fixed prices.
pub open spec fn at_fixed_prices(config: StrategyConfig) -> StrategyConfig {
    StrategyConfig { buy_price: BUY_PRICE, sell_price: SELL_PRICE, ..config }
}

impl EntryView {
    /// The BUY order of one side at the fixed price.
    pub open spec fn fixed_buy(self, config: StrategyConfig, outcome: Outcome, now: i64) -> PlacementView {
        undated(limit_placement(config, self.token_id(outcome), "BUY"@, BUY_PRICE as int, now))
    }
}

impl StrategyView {
    /// The token whose price is to be asked for at fixed prices, given what the
    /// exchange said of the BUY orders.
    pub open spec fn asked_fixed_price(self, outcome: Outcome, filled: Option<(bool, bool)>) -> Option<
        Seq<char>,
    > {
        match self.state {
            Some(cycle) => if cycle.matched(outcome) || cycle.fills_seen(outcome, filled, None) {
                None
            } else {
                Some(cycle.token_id(outcome))
            },
            None => None,
        }
    }

    /// The SELL order of a side that is made up for.
    pub open spec fn made_up_sell(self, config: StrategyConfig, outcome: Outcome, now: i64) -> Option<
        PlacementView,
    > {
        match self.state {
            Some(cycle) => if cycle.misses_sell(outcome) {
                Some(
                    undated(
                        limit_placement(
                            config,
                            cycle.token_id(outcome),
                            "SELL"@,
                            SELL_PRICE as int,
                            now,
                        ),
                    ),
                )
            } else {
                None
            },
            None => None,
        }
    }

    /// The strategy at fixed prices after a message, and the SELL order that the
    /// message calls for.
    pub open spec fn after_fixed_event(self, simulation: bool, event: UserEvent, now: i64) -> (
        StrategyView,
        Option<SellView>,
    ) {
        match (self.state, event) {
            (Some(cycle), UserEvent::Order(update)) => (
                StrategyView { state: Some(cycle.after_order_report(update)), ..self },
                None,
            ),
            (Some(cycle), UserEvent::Trade(report)) => {
                let (after, sell) = cycle.after_report(simulation, report, now);
                (StrategyView { state: Some(after), ..self }, sell)
            },
            _ => (self, None),
        }
    }

    /// The strategy at fixed prices after a look at its cycle.
    pub open spec fn looked_through(self, replies: PassReplies) -> StrategyView {
        StrategyView {
            state: match self.state {
                Some(cycle) => Some(after_pass(cycle, replies)),
                None => None,
            },
            ..self
        }
    }

    /// The strategy at fixed prices after a look that was broken off.
    pub open spec fn look_failed(self, up_sell: Option<ResponseView>) -> StrategyView {
        StrategyView {
            state: match self.state {
                Some(cycle) => Some(after_broken_off(cycle, up_sell)),
                None => None,
            },
            ..self
        }
    }

    /// The strategy at fixed prices after a look at the running market.
    pub open spec fn looked_at_fixed(self, config: StrategyConfig, period: i64, now: i64) -> (
        StrategyView,
        MarketStepView,
    ) {
        match self.state {
            Some(cycle) => if now > cycle.expiry {
                (
                    StrategyView {
                        state: None,
                        trades: if cycle.up_mined || cycle.down_mined {
                            self.trades.insert(cycle.condition_id, cycle.position(config.shares))
                        } else {
                            self.trades
                        },
                        ..self
                    },
                    MarketStepView::Expired(None),
                )
            } else {
                (self, MarketStepView::CheckFills)
            },
            None => (
                self,
                MarketStepView::Discover("btc-updown-5m-"@ + int_text(period as int)),
            ),
        }
    }
}

impl PreLimitStrategy {
    /// The prices are the fixed ones, and the positions are in order.
    pub open spec fn well_formed(self) -> bool {
        self.inner.config.strategy.buy_price == BUY_PRICE && self.inner.config.strategy.sell_price
            == SELL_PRICE && self.inner@.well_formed()
    }

    /// A strategy that has not traded yet.
    pub fn new(config: Config) -> (r: Self)
        ensures
            r.well_formed(),
            r.inner.config.polymarket == config.polymarket,
            r.inner.config.strategy == at_fixed_prices(config.strategy),
            r.inner@ == (StrategyView {
                state: None,
                total_profit: 0,
                trades: Map::empty(),
                closure_checked: Map::empty(),
                pending_merges: Map::empty(),
            }),
    {
        let strategy = StrategyConfig {
            shares: config.strategy.shares,
            buy_price: BUY_PRICE,
            sell_price: SELL_PRICE,
            check_interval_ms: config.strategy.check_interval_ms,
            simulation_mode: config.strategy.simulation_mode,
            market_closure_check_interval_seconds: config.strategy
                .market_closure_check_interval_seconds,
        };
        let fixed = Config {
            polymarket: config.polymarket,
            strategy,
            rpc: config.rpc,
            rpc_backup: config.rpc_backup,
        };
        PreLimitStrategy { inner: crate::strategy::PreLimitStrategy::new(fixed) }
    }

    /// Reads the clock and looks at the running market. The start of its five
    /// minutes and the time come back with what is to be done next.
    pub fn process_market(&mut self) -> (r: (MarketStep, i64, i64))
        requires
            old(self).well_formed(),
        ensures
            (final(self).inner@, r.0.deep_view()) == old(self).inner@.looked_at_fixed(
                old(self).inner.config.strategy,
                r.1,
                r.2,
            ),
            0 <= r.2 <= LATEST_INSTANT,
            r.1 == period_of(r.2 as int),
            final(self).inner.config == old(self).inner.config,
            final(self).well_formed(),
    {
        let now: i64 = MarketDiscovery::current_time_et();
        let period: i64 = MarketDiscovery::period_start_et(now);
        let step = self.process_market_at(period, now);
        (step, period, now)
    }

    /// Looks at the market that started at `period`: puts a finished cycle
    /// away, or says what is to be done next.
    pub fn process_market_at(&mut self, period: i64, now: i64) -> (r: MarketStep)
        requires
            old(self).well_formed(),
        ensures
            (final(self).inner@, r.deep_view()) == old(self).inner@.looked_at_fixed(
                old(self).inner.config.strategy,
                period,
                now,
            ),
            final(self).inner.config == old(self).inner.config,
            final(self).well_formed(),
    {
        match self.inner.state.take() {
            Some(s) => {
                if now > s.expiry {
                    if s.up_mined || s.down_mined {
                        let trade = cycle_trade_from_state(&s, self.inner.config.strategy.shares);
                        self.inner.trades.insert(s.condition_id.clone(), trade);
                    }
                    MarketStep::Expired(None)
                } else {
                    self.inner.state = Some(s);
                    MarketStep::CheckFills
                }
            },
            None => self.inner.process_market_at(period, now),
        }
    }

    /// Goes from a stage and the answer to what it asked for to the next stage.
    /// No shares are split.
    pub fn enter(&mut self, stage: EntryStage, answer: EntryAnswer) -> (r: EntryStage)
        requires
            old(self).well_formed(),
            stage.deep_view().in_calendar(),
        ensures
            r.deep_view() == stage.deep_view().next(
                old(self).inner.config.strategy.simulation_mode,
                false,
                answer,
            ),
            r.deep_view().in_calendar(),
            final(self).inner@ == old(self).inner@.entered(BUY_PRICE, stage.deep_view(), answer),
            final(self).inner.config == old(self).inner.config,
            final(self).well_formed(),
    {
        self.inner.enter(false, stage, answer)
    }

    /// The BUY order of one side.
    pub fn buy_order(&self, entry: &Entry, outcome: Outcome, now: i64) -> (r: Placement)
        requires
            self.well_formed(),
            0 <= now <= LATEST_INSTANT,
        ensures
            r.deep_view() == entry.deep_view().fixed_buy(self.inner.config.strategy, outcome, now),
    {
        without_date(self.inner.buy_order(entry, outcome, now))
    }

    /// The token whose SELL price is to be asked for, given what the exchange
    /// said of the BUY orders.
    pub fn price_query(&self, outcome: Outcome, filled: Option<(bool, bool)>) -> (r: Option<String>)
        ensures
            r.deep_view() == self.inner@.asked_fixed_price(outcome, filled),
    {
        if let Some((up, down)) = filled {
            let seen = match outcome {
                Outcome::Up => up,
                Outcome::Down => down,
            };
            if seen {
                return None;
            }
        }
        self.inner.price_query(outcome)
    }

    /// The SELL order of one side that is made up for.
    pub fn missed_sell(&self, outcome: Outcome, now: i64) -> (r: Option<Placement>)
        requires
            self.well_formed(),
            0 <= now <= LATEST_INSTANT,
        ensures
            r.deep_view() == self.inner@.made_up_sell(self.inner.config.strategy, outcome, now),
    {
        match &self.inner.state {
            Some(s) => {
                let (missing, token_id) = match outcome {
                    Outcome::Up => (
                        s.up_mined && s.up_sell_order_id.is_none(),
                        s.up_token_id.as_str(),
                    ),
                    Outcome::Down => (
                        s.down_mined && s.down_sell_order_id.is_none(),
                        s.down_token_id.as_str(),
                    ),
                };
                if missing {
                    Some(
                        without_date(
                            place_limit_order(
                                &self.inner.config.strategy,
                                token_id,
                                "SELL",
                                SELL_PRICE,
                                now,
                            ),
                        ),
                    )
                } else {
                    None
                }
            },
            None => None,
        }
    }

    /// Notes what a look at the running cycle brought.
    pub fn pass_finished(&mut self, replies: PassReplies)
        requires
            old(self).well_formed(),
        ensures
            final(self).inner@ == old(self).inner@.looked_through(replies),
            final(self).inner.config == old(self).inner.config,
            final(self).well_formed(),
    {
        let up_priced = match replies.up_price {
            Some(parts) => fills_at(parts.micros(), BUY_PRICE),
            None => false,
        };
        let down_priced = match replies.down_price {
            Some(parts) => fills_at(parts.micros(), BUY_PRICE),
            None => false,
        };
        let (up_filled, down_filled) = match replies.filled {
            Some(pair) => pair,
            None => (false, false),
        };
        if let Some(mut s) = self.inner.state.take() {
            s.record_match(Outcome::Up, up_filled || up_priced);
            s.record_match(Outcome::Down, down_filled || down_priced);
            if s.up_mined && s.up_sell_order_id.is_none() {
                s.sell_replied(Outcome::Up, replies.up_sell);
            }
            if s.down_mined && s.down_sell_order_id.is_none() {
                s.sell_replied(Outcome::Down, replies.down_sell);
            }
            self.inner.state = Some(s);
        }
    }

    /// Notes that a look was broken off because an order failed. An accepted SELL
    /// order of the Up side is kept, so that it is not placed again; for the rest
    /// the next look starts afresh.
    pub fn look_broken_off(&mut self, up_sell: Option<OrderResponse>)
        requires
            old(self).well_formed(),
        ensures
            final(self).inner@ == old(self).inner@.look_failed(up_sell.deep_view()),
            final(self).inner.config == old(self).inner.config,
            final(self).well_formed(),
    {
        if let Some(mut s) = self.inner.state.take() {
            if s.up_mined && s.up_sell_order_id.is_none() {
                s.sell_replied(Outcome::Up, up_sell);
            }
            self.inner.state = Some(s);
        }
    }

    /// Takes in a message of the account's event stream, and says which SELL
    /// order it calls for. Without a cycle nothing does.
    pub fn handle_clob_subscription_direct(&mut self, event: &UserEvent, now: i64) -> (r: Option<
        SellStep,
    >)
        requires
            0 <= now <= LATEST_INSTANT,
            old(self).well_formed(),
        ensures
            (final(self).inner@, r.deep_view()) == old(self).inner@.after_fixed_event(
                old(self).inner.config.strategy.simulation_mode,
                *event,
                now,
            ),
            final(self).inner.config == old(self).inner.config,
            final(self).well_formed(),
    {
        match self.inner.state.take() {
            Some(mut s) => {
                let step = match event {
                    UserEvent::Order(update) => {
                        s.order_report(update);
                        None
                    },
                    UserEvent::Trade(report) => s.trade_report(
                        self.inner.config.strategy.simulation_mode,
                        report,
                        now,
                    ),
                    UserEvent::Other => None,
                };
                self.inner.state = Some(s);
                step
            },
            None => None,
        }
    }
}

/// Every share that is bought and sold at the fixed prices earns one cent.
pub proof fn a_share_earns_a_cent(shares: int)
    ensures
        notional(shares, SELL_PRICE as int) - notional(shares, BUY_PRICE as int) == shares * 10_000,
{
    assert(shares * 500_000 - shares * 490_000 == shares * 10_000) by (nonlinear_arith);
}

/// A report calls for a SELL order only when the first shares of a side come on
/// chain, so at most once for each side; and the order is over all of them.
pub proof fn sell_follows_the_first_shares(
    cycle: CycleView,
    simulation: bool,
    report: TradeReport,
    now: i64,
)
    ensures
        ({
            let (after, sell) = cycle.after_report(simulation, report, now);
            &&& sell matches Some(step) ==> report.brings_shares() && !cycle.mined(step.outcome)
                && after.mined(step.outcome) && cycle.sell_order_id(step.outcome) is None
            &&& cycle.up_mined ==> after.up_mined
            &&& cycle.down_mined ==> after.down_mined
            &&& after.up_sell_order_id == cycle.up_sell_order_id
            &&& after.down_sell_order_id == cycle.down_sell_order_id
        }),
{
}

/// What can happen to a running cycle at fixed prices, with the exchange's
/// answer to the SELL orders that it calls for.
pub enum FixedMove {
    Order(OrderUpdate),
    Trade(TradeReport, i64, Option<ResponseView>),
    Look(PassReplies),
    /// A look that was broken off because an order failed, with the answer to
    /// the SELL order of the Up side, where one had been accepted by then.
    BrokenOff(Option<ResponseView>),
}

impl CycleView {
    /// The cycle at fixed prices after a move.
    pub open spec fn moved_fixed(self, simulation: bool, step: FixedMove) -> CycleView {
        match step {
            FixedMove::Order(update) => self.after_order_report(update),
            FixedMove::Trade(report, now, reply) => {
                let (after, sell) = self.after_report(simulation, report, now);
                after.answered(sell, reply).0
            },
            FixedMove::Look(replies) => after_pass(self, replies),
            FixedMove::BrokenOff(up_sell) => after_broken_off(self, up_sell),
        }
    }

    /// A move brings an accepted SELL order of a side.
    pub open spec fn sells_fixed(self, simulation: bool, step: FixedMove, outcome: Outcome) -> bool {
        match step {
            FixedMove::Order(_) => false,
            FixedMove::Trade(report, now, reply) => {
                let (after, sell) = self.after_report(simulation, report, now);
                after.answered(sell, reply).1 == Some(outcome)
            },
            FixedMove::Look(replies) => self.misses_sell(outcome) && replies.sell(outcome) is Some,
            FixedMove::BrokenOff(up_sell) => outcome == Outcome::Up && up_sell is Some
                && self.misses_sell(Outcome::Up),
        }
    }

    /// How many SELL orders of a side are accepted in a series of moves.
    pub open spec fn accepted_fixed_sells(
        self,
        simulation: bool,
        moves: Seq<FixedMove>,
        outcome: Outcome,
    ) -> nat
        decreases moves.len(),
    {
        if moves.len() == 0 {
            0
        } else {
            let rest = self.moved_fixed(simulation, moves[0]).accepted_fixed_sells(
                simulation,
                moves.drop_first(),
                outcome,
            );
            if self.sells_fixed(simulation, moves[0], outcome) {
                1 + rest
            } else {
                rest
            }
        }
    }
}

/// Whatever is reported and looked at in whatever order, and whatever the
/// exchange answers, a side has at most one accepted SELL order: the one that a
/// report calls for and the one that is made up for exclude each other, also
/// where a look was broken off between its two SELL orders.
pub proof fn a_side_is_sold_once_at_fixed_prices(
    cycle: CycleView,
    simulation: bool,
    moves: Seq<FixedMove>,
    outcome: Outcome,
)
    ensures
        cycle.accepted_fixed_sells(simulation, moves, outcome) <= 1,
        cycle.sell_order_id(outcome) is Some ==> cycle.accepted_fixed_sells(
            simulation,
            moves,
            outcome,
        ) == 0,
    decreases moves.len(),
{
    if moves.len() > 0 {
        let after = cycle.moved_fixed(simulation, moves[0]);
        a_side_is_sold_once_at_fixed_prices(after, simulation, moves.drop_first(), outcome);
    }
}

/// A look at a cycle makes up for the SELL order of every side that has shares
/// on chain and no SELL order, whatever the other side has; once it is accepted
/// the side misses none.
pub proof fn a_missed_sell_is_made_up_for(cycle: CycleView, replies: PassReplies, outcome: Outcome)
    requires
        cycle.mined(outcome),
        cycle.sell_order_id(outcome) is None,
        replies.sell(outcome) is Some,
    ensures
        cycle.misses_sell(outcome),
        !after_pass(cycle, replies).misses_sell(outcome),
{
}

/// In simulation the fixed-price strategy sends nothing either: no BUY order,
/// no SELL order that a report calls for, and none that is made up for.
pub proof fn simulation_sends_nothing(
    config: StrategyConfig,
    cycle: CycleView,
    report: TradeReport,
    token_id: Seq<char>,
    side: Seq<char>,
    price: int,
    now: i64,
)
    requires
        config.simulation_mode,
    ensures
        undated(limit_placement(config, token_id, side, price, now)) is Simulated,
        cycle.after_report(config.simulation_mode, report, now).1 matches Some(sell)
            ==> sell.placement is Simulated,
{
}

/// Whatever prices are configured, the fixed ones take their place, and nothing
/// else of the settings changes.
pub proof fn the_fixed_prices_take_the_place_of_others(config: StrategyConfig)
    ensures
        at_fixed_prices(config).buy_price == 490_000,
        at_fixed_prices(config).sell_price == 500_000,
        at_fixed_prices(config).shares == config.shares,
        at_fixed_prices(config).check_interval_ms == config.check_interval_ms,
        at_fixed_prices(config).simulation_mode == config.simulation_mode,
        at_fixed_prices(config).market_closure_check_interval_seconds
            == config.market_closure_check_interval_seconds,
{
}

} // verus!
