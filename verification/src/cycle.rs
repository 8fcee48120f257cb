//! The orders of one market: fills, trades, and the SELL orders they call for.
use std::collections::VecDeque;

use vstd::prelude::*;

use crate::config::StrategyConfig;
use crate::models::{
    pending_views, CycleView, OrderResponse, PendingTrade, PendingTradeView, PreLimitOrderState,
    ResponseView,
};
use crate::money::{cost_of, notional, DecimalParts};
use crate::orders::{
    place_sell_order, sell_placement, Outcome, Placement, PlacementView, LATEST_INSTANT,
};
use crate::text::{is_lower, lower_is, lowercase, text_eq, to_lower};

verus! {

/// An update on one of the account's orders.
#[derive(Debug)]
pub struct OrderUpdate {
    /// Its status is that of a matched order.
    pub matched: bool,
    pub size_matched: Option<DecimalParts>,
    pub outcome: Option<String>,
    pub associate_trades: Option<Vec<String>>,
}

/// How far a trade has come.
#[derive(Debug, Clone, Copy, PartialEq, Eq, Structural)]
pub enum TradeStatus {
    Matched,
    Mined,
    Confirmed,
    Other,
}

/// An update on one of the account's trades.
#[derive(Debug)]
pub struct TradeUpdate {
    pub id: String,
    pub status: TradeStatus,
    pub is_buy: bool,
    /// The side in words.
    pub side: String,
    /// The outcome in words, where the report says it.
    pub outcome: Option<String>,
    pub size: DecimalParts,
    pub price: DecimalParts,
}

impl TradeUpdate {
    /// The trade is on chain.
    pub open spec fn on_chain(self) -> bool {
        self.status == TradeStatus::Mined || self.status == TradeStatus::Confirmed
    }
}

/// A SELL order that is called for.
#[derive(Debug)]
pub struct SellStep {
    pub outcome: Outcome,
    pub placement: Placement,
}

/// What a [`SellStep`] says.
#[verifier::ext_equal]
pub struct SellView {
    pub outcome: Outcome,
    pub placement: PlacementView,
}

impl DeepView for SellStep {
    type V = SellView;

    open spec fn deep_view(&self) -> SellView {
        SellView { outcome: self.outcome, placement: self.placement.deep_view() }
    }
}

/// The outcome that a noted trade counts for: UP where its text says so, DOWN
/// otherwise.
pub open spec fn noted_outcome(text: Seq<char>) -> Outcome {
    if lower_is(text, "up"@) {
        Outcome::Up
    } else {
        Outcome::Down
    }
}

/// The notes `info` with `value` put at each of `ids`.
pub open spec fn noted(
    info: Map<Seq<char>, (Seq<char>, i64)>,
    ids: Seq<Seq<char>>,
    value: (Seq<char>, i64),
) -> Map<Seq<char>, (Seq<char>, i64)> {
    Map::new(
        |id: Seq<char>| info.contains_key(id) || ids.contains(id),
        |id: Seq<char>|
            if ids.contains(id) {
                value
            } else {
                info[id]
            },
    )
}

/// Noting one more trade is one insertion more.
proof fn lemma_note_one_more(
    info: Map<Seq<char>, (Seq<char>, i64)>,
    ids: Seq<Seq<char>>,
    i: int,
    value: (Seq<char>, i64),
)
    requires
        0 <= i < ids.len(),
    ensures
        noted(info, ids.take(i), value).insert(ids[i], value) == noted(
            info,
            ids.take(i + 1),
            value,
        ),
{
    let longer = ids.take(i + 1);
    assert forall|id: Seq<char>| #[trigger]
        longer.contains(id) == (ids.take(i).contains(id) || id == ids[i]) by {
        if ids.take(i).contains(id) {
            let j = choose|j: int| 0 <= j < i && ids.take(i)[j] == id;
            assert(longer[j] == id);
        }
        if longer.contains(id) && id != ids[i] {
            let j = choose|j: int| 0 <= j < longer.len() && longer[j] == id;
            assert(ids.take(i)[j] == id);
        }
        assert(longer[i] == ids[i]);
    }
    assert(noted(info, ids.take(i), value).insert(ids[i], value) =~= noted(
        info,
        ids.take(i + 1),
        value,
    ));
}

impl CycleView {
    /// The BUY order of this outcome is filled.
    pub open spec fn matched(self, outcome: Outcome) -> bool {
        match outcome {
            Outcome::Up => self.up_matched,
            Outcome::Down => self.down_matched,
        }
    }

    /// The SELL order of this outcome, if one was placed.
    pub open spec fn sell_order_id(self, outcome: Outcome) -> Option<Seq<char>> {
        match outcome {
            Outcome::Up => self.up_sell_order_id,
            Outcome::Down => self.down_sell_order_id,
        }
    }

    /// The token of this outcome.
    pub open spec fn token_id(self, outcome: Outcome) -> Seq<char> {
        match outcome {
            Outcome::Up => self.up_token_id,
            Outcome::Down => self.down_token_id,
        }
    }

    /// The cycle with the BUY order of this outcome filled, where `filled` says
    /// so.
    pub open spec fn with_match(self, outcome: Outcome, filled: bool) -> CycleView {
        match outcome {
            Outcome::Up => CycleView { up_matched: self.up_matched || filled, ..self },
            Outcome::Down => CycleView { down_matched: self.down_matched || filled, ..self },
        }
    }

    /// The cycle once a SELL order was answered: a success is noted with its
    /// id, empty where the answer had none; a failure changes nothing.
    pub open spec fn after_sell(self, outcome: Outcome, reply: Option<ResponseView>) -> CycleView {
        match reply {
            Some(response) => {
                let id = match response.order_id {
                    Some(order_id) => order_id,
                    None => Seq::empty(),
                };
                match outcome {
                    Outcome::Up => CycleView { up_sell_order_id: Some(id), ..self },
                    Outcome::Down => CycleView { down_sell_order_id: Some(id), ..self },
                }
            },
            None => self,
        }
    }

    /// The cycle once an order was reported as matched with `shares`: the side
    /// that `outcome` names is filled, and the order's trades are noted.
    ///
    /// The dollars spent count at the price of the UP order on either side.
    pub open spec fn after_order_match(
        self,
        outcome: Seq<char>,
        shares: i64,
        trades: Seq<Seq<char>>,
    ) -> CycleView {
        let spent = notional(shares as int, self.up_buy_price as int) as i128;
        let info = noted(self.trade_info, trades, (outcome, shares));
        if outcome == "up"@ {
            CycleView {
                up_matched: true,
                up_shares_received: shares,
                up_spent_usdc: spent,
                trade_info: info,
                ..self
            }
        } else if outcome == "down"@ {
            CycleView {
                down_matched: true,
                down_shares_received: shares,
                down_spent_usdc: spent,
                trade_info: info,
                ..self
            }
        } else {
            CycleView { trade_info: info, ..self }
        }
    }

    /// The SELL order that a noted trade of `outcome` with `shares` calls for:
    /// one where the BUY of that side is filled and no SELL was placed for it.
    pub open spec fn sell_for(
        self,
        config: StrategyConfig,
        outcome: Seq<char>,
        shares: i64,
        now: i64,
    ) -> Option<SellView> {
        let side = noted_outcome(outcome);
        if self.sell_order_id(side) is Some {
            None
        } else if (lower_is(outcome, "up"@) && self.up_matched) || (lower_is(outcome, "down"@)
            && self.down_matched) {
            Some(
                SellView {
                    outcome: side,
                    placement: sell_placement(
                        config.simulation_mode,
                        side,
                        self.token_id(side),
                        shares as int,
                        config.sell_price as int,
                        now,
                    ),
                },
            )
        } else {
            None
        }
    }

    /// The SELL order that a pending trade calls for.
    pub open spec fn sell_for_pending(
        self,
        config: StrategyConfig,
        trade: PendingTradeView,
        now: i64,
    ) -> Option<SellView> {
        if self.trade_info.contains_key(trade.trade_id) {
            let (outcome, shares) = self.trade_info[trade.trade_id];
            self.sell_for(config, outcome, shares, now)
        } else {
            None
        }
    }

    /// The order of this trade is not known.
    pub open spec fn is_unknown(self, trade: PendingTradeView) -> bool {
        !self.trade_info.contains_key(trade.trade_id)
    }

    /// Those of the trades whose order is not known, in their order.
    pub open spec fn unknown(self, trades: Seq<PendingTradeView>) -> Seq<PendingTradeView> {
        trades.filter(|trade: PendingTradeView| self.is_unknown(trade))
    }

    /// The first of the trades that calls for a SELL order; their number where
    /// none does.
    pub open spec fn first_sell(
        self,
        config: StrategyConfig,
        trades: Seq<PendingTradeView>,
        now: i64,
    ) -> nat
        decreases trades.len(),
    {
        if trades.len() == 0 || self.sell_for_pending(config, trades[0], now) is Some {
            0
        } else {
            1 + self.first_sell(config, trades.drop_first(), now)
        }
    }

    /// The cycle once an order was reported, and the pass over its pending
    /// trades that the report starts.
    ///
    /// Only a matched order that says its size and its outcome counts.
    pub open spec fn after_order(self, update: OrderUpdate) -> (CycleView, Option<ScanView>) {
        match (update.matched, update.size_matched, update.outcome) {
            (true, Some(size), Some(outcome)) => {
                let trades = match update.associate_trades {
                    Some(ids) => ids.deep_view(),
                    None => Seq::empty(),
                };
                let filled = self.after_order_match(
                    lowercase(outcome@),
                    decimal_to_micros(size),
                    trades,
                );
                (
                    CycleView { pending_trades: Seq::empty(), ..filled },
                    Some(ScanView { waiting: self.pending_trades, remaining: Seq::empty() }),
                )
            },
            _ => (self, None),
        }
    }

    /// The cycle once a pass over its pending trades is over.
    pub open spec fn after_scan(self, scan: ScanView) -> CycleView {
        CycleView { pending_trades: scan.remaining, ..self }
    }

    /// The side that a trade is about: by its order, where that is known, else
    /// by what the report says.
    pub open spec fn outcome_of(self, update: TradeUpdate) -> Option<Outcome> {
        let text = if self.trade_info.contains_key(update.id@) {
            Some(self.trade_info[update.id@].0)
        } else {
            update.outcome.deep_view()
        };
        match text {
            Some(outcome) => if lower_is(outcome, "up"@) {
                Some(Outcome::Up)
            } else if lower_is(outcome, "down"@) {
                Some(Outcome::Down)
            } else {
                None
            },
            None => None,
        }
    }

    /// The cycle once a trade was reported, and the SELL order that the report
    /// calls for.
    ///
    /// Only BUY trades count. A matched one calls for a SELL where its order is
    /// known, else it waits. One that is on chain, mined or confirmed, puts its
    /// side there; a confirmed one whose order is known is noted as such.
    pub open spec fn after_trade(self, config: StrategyConfig, update: TradeUpdate, now: i64) -> (
        CycleView,
        Option<SellView>,
    ) {
        let known = self.trade_info.contains_key(update.id@);
        let (outcome, shares) = self.trade_info[update.id@];
        if !update.is_buy {
            (self, None)
        } else if update.status == TradeStatus::Matched {
            if known {
                (self, self.sell_for(config, outcome, shares, now))
            } else {
                let waiting = PendingTradeView {
                    trade_id: update.id@,
                    side: update.side@,
                    size: decimal_to_micros(update.size),
                    price: decimal_to_micros(update.price),
                };
                (
                    CycleView { pending_trades: self.pending_trades.push(waiting), ..self },
                    None,
                )
            }
        } else if update.on_chain() {
            let confirmed = update.status == TradeStatus::Confirmed && known;
            match self.outcome_of(update) {
                Some(Outcome::Up) => (
                    CycleView {
                        up_mined: true,
                        up_trade_confirmed: self.up_trade_confirmed || confirmed,
                        ..self
                    },
                    None,
                ),
                Some(Outcome::Down) => (
                    CycleView {
                        down_mined: true,
                        down_trade_confirmed: self.down_trade_confirmed || confirmed,
                        ..self
                    },
                    None,
                ),
                None => (self, None),
            }
        } else {
            (self, None)
        }
    }
}

/// A pass over the trades that were waiting for their order.
#[derive(Debug)]
pub struct PendingScan {
    /// Not looked at yet.
    pub waiting: VecDeque<PendingTrade>,
    /// Looked at; their order is still not known.
    pub remaining: VecDeque<PendingTrade>,
}

/// What a [`PendingScan`] says.
#[verifier::ext_equal]
pub struct ScanView {
    pub waiting: Seq<PendingTradeView>,
    pub remaining: Seq<PendingTradeView>,
}

impl DeepView for PendingScan {
    type V = ScanView;

    open spec fn deep_view(&self) -> ScanView {
        ScanView {
            waiting: pending_views(self.waiting@),
            remaining: pending_views(self.remaining@),
        }
    }
}

impl ScanView {
    /// The pass up to the next trade that calls for a SELL order, and that
    /// order. Trades on the way remain where their order is not known and are
    /// dropped where it is.
    pub open spec fn advanced(self, cycle: CycleView, config: StrategyConfig, now: i64) -> (
        ScanView,
        Option<SellView>,
    ) {
        let n = cycle.first_sell(config, self.waiting, now) as int;
        if n < self.waiting.len() {
            (
                ScanView {
                    waiting: self.waiting.skip(n + 1),
                    remaining: self.remaining + cycle.unknown(self.waiting.take(n)),
                },
                cycle.sell_for_pending(config, self.waiting[n], now),
            )
        } else {
            (
                ScanView {
                    waiting: Seq::empty(),
                    remaining: self.remaining + cycle.unknown(self.waiting),
                },
                None,
            )
        }
    }
}

/// The first trade that calls for a SELL lies within the trades, and no trade
/// before it calls for one.
proof fn lemma_first_sell(
    cycle: CycleView,
    config: StrategyConfig,
    trades: Seq<PendingTradeView>,
    now: i64,
)
    ensures
        cycle.first_sell(config, trades, now) <= trades.len(),
        cycle.first_sell(config, trades, now) < trades.len() ==> cycle.sell_for_pending(
            config,
            trades[cycle.first_sell(config, trades, now) as int],
            now,
        ) is Some,
    decreases trades.len(),
{
    if trades.len() > 0 && cycle.sell_for_pending(config, trades[0], now) is None {
        lemma_first_sell(cycle, config, trades.drop_first(), now);
    }
}

/// One step along the trades: the first one remains where its order is not
/// known, and the pass goes on behind it.
proof fn lemma_scan_past(scan: ScanView, cycle: CycleView, config: StrategyConfig, now: i64)
    requires
        scan.waiting.len() > 0,
        cycle.sell_for_pending(config, scan.waiting[0], now) is None,
    ensures
        scan.advanced(cycle, config, now) == (ScanView {
            waiting: scan.waiting.drop_first(),
            remaining: if cycle.is_unknown(scan.waiting[0]) {
                scan.remaining.push(scan.waiting[0])
            } else {
                scan.remaining
            },
        }).advanced(cycle, config, now),
{
    let rest = scan.waiting.drop_first();
    let first = seq![scan.waiting[0]];
    let n = cycle.first_sell(config, rest, now) as int;
    let unknown = |trade: PendingTradeView| cycle.is_unknown(trade);
    lemma_first_sell(cycle, config, rest, now);
    assert(scan.waiting =~= first + rest);
    Seq::filter_distributes_over_add(first, rest, unknown);
    Seq::filter_distributes_over_add(first, rest.take(n), unknown);
    assert(scan.waiting.take(n + 1) =~= first + rest.take(n));
    if n < rest.len() {
        assert(scan.waiting.skip(n + 2) =~= rest.skip(n + 1));
    }
    reveal_with_fuel(Seq::filter, 2);
    assert(first.drop_last() =~= Seq::<PendingTradeView>::empty());
    assert(cycle.unknown(first) =~= if cycle.is_unknown(scan.waiting[0]) {
        first
    } else {
        Seq::empty()
    });
}

/// However the SELL orders on the way turn out, a pass leaves exactly the
/// trades whose order is not known, in their order.
pub proof fn scan_keeps_the_unknown(
    scan: ScanView,
    cycle: CycleView,
    config: StrategyConfig,
    now: i64,
)
    ensures
        ({
            let after = scan.advanced(cycle, config, now).0;
            after.remaining + cycle.unknown(after.waiting) == scan.remaining + cycle.unknown(
                scan.waiting,
            )
        }),
{
    let n = cycle.first_sell(config, scan.waiting, now) as int;
    let unknown = |trade: PendingTradeView| cycle.is_unknown(trade);
    lemma_first_sell(cycle, config, scan.waiting, now);
    reveal_with_fuel(Seq::filter, 2);
    if n < scan.waiting.len() {
        let head = scan.waiting.take(n);
        let one = seq![scan.waiting[n]];
        let tail = scan.waiting.skip(n + 1);
        assert(scan.waiting =~= head + one + tail);
        assert(one.drop_last() =~= Seq::<PendingTradeView>::empty());
        Seq::filter_distributes_over_add(head + one, tail, unknown);
        Seq::filter_distributes_over_add(head, one, unknown);
        assert(cycle.unknown(one) =~= Seq::empty());
        let after = scan.advanced(cycle, config, now).0;
        assert(after.remaining + cycle.unknown(after.waiting) =~= scan.remaining + cycle.unknown(
            scan.waiting,
        ));
    } else {
        assert(scan.remaining + cycle.unknown(scan.waiting) + Seq::<PendingTradeView>::empty()
            =~= scan.remaining + cycle.unknown(scan.waiting));
    }
}

impl PendingScan {
    /// Goes on to the next trade that calls for a SELL order, and says which
    /// order that is. Where none is left, the pass is over.
    pub fn process_pending_trades(
        &mut self,
        state: &PreLimitOrderState,
        config: &StrategyConfig,
        now: i64,
    ) -> (r: Option<SellStep>)
        requires
            0 <= now <= LATEST_INSTANT,
        ensures
            (final(self).deep_view(), r.deep_view()) == old(self).deep_view().advanced(
                state.deep_view(),
                *config,
                now,
            ),
    {
        let ghost start = self.deep_view();
        let ghost cycle = state.deep_view();
        while self.waiting.len() > 0
            invariant
                0 <= now <= LATEST_INSTANT,
                cycle == state.deep_view(),
                start == old(self).deep_view(),
                self.deep_view().advanced(cycle, *config, now) == start.advanced(
                    cycle,
                    *config,
                    now,
                ),
            decreases self.waiting@.len(),
        {
            let ghost before = self.deep_view();
            if let Some(trade) = self.waiting.pop_front() {
                assert(before.waiting[0] == trade.deep_view());
                assert(pending_views(self.waiting@) =~= before.waiting.drop_first());
                let step = match state.trade_info.get(trade.trade_id.as_str()) {
                    Some(noted) => state.sell_step(config, noted.0.as_str(), noted.1, now),
                    None => {
                        proof {
                            lemma_scan_past(before, cycle, *config, now);
                        }
                        self.remaining.push_back(trade);
                        assert(pending_views(self.remaining@) =~= before.remaining.push(
                            trade.deep_view(),
                        ));
                        continue;
                    },
                };
                if step.is_some() {
                    proof {
                        let none = before.waiting.take(0);
                        reveal_with_fuel(Seq::filter, 1);
                        assert(none =~= Seq::<PendingTradeView>::empty());
                        assert(before.remaining + cycle.unknown(none) =~= before.remaining);
                        assert(before.waiting.skip(1) =~= before.waiting.drop_first());
                        assert(cycle.first_sell(*config, before.waiting, now) == 0);
                        assert(self.deep_view() == before.advanced(cycle, *config, now).0);
                    }
                    return step;
                }
                proof {
                    lemma_scan_past(before, cycle, *config, now);
                }
            }
        }
        proof {
            let end = self.deep_view();
            reveal_with_fuel(Seq::filter, 1);
            assert(end.waiting =~= Seq::<PendingTradeView>::empty());
            assert(end.remaining + cycle.unknown(end.waiting) =~= end.remaining);
        }
        None
    }
}

/// A reported decimal in micros.
pub open spec fn decimal_to_micros(parts: DecimalParts) -> i64 {
    crate::money::decimal_micros(parts.mantissa as int, parts.scale as nat) as i64
}

impl PreLimitOrderState {
    /// Marks the BUY order of `outcome` as filled, where `filled` says so.
    pub fn record_match(&mut self, outcome: Outcome, filled: bool)
        ensures
            final(self).deep_view() == old(self).deep_view().with_match(outcome, filled),
    {
        if filled {
            match outcome {
                Outcome::Up => {
                    self.up_matched = true;
                },
                Outcome::Down => {
                    self.down_matched = true;
                },
            }
        }
    }

    /// Notes what came of a SELL order.
    pub fn sell_replied(&mut self, outcome: Outcome, reply: Option<OrderResponse>)
        ensures
            final(self).deep_view() == old(self).deep_view().after_sell(
                outcome,
                reply.deep_view(),
            ),
    {
        match reply {
            Some(response) => {
                let order_id = match response.order_id {
                    Some(id) => id,
                    None => String::new(),
                };
                assert(response.order_id is None ==> order_id@ =~= Seq::<char>::empty());
                match outcome {
                    Outcome::Up => {
                        self.up_sell_order_id = Some(order_id);
                    },
                    Outcome::Down => {
                        self.down_sell_order_id = Some(order_id);
                    },
                }
            },
            None => {},
        }
    }

    /// Notes a matched order: its shares on the side that `outcome` names in
    /// small letters, and its trades.
    pub fn order_matched(&mut self, outcome: &str, shares: i64, trades: &Vec<String>)
        ensures
            final(self).deep_view() == old(self).deep_view().after_order_match(
                outcome@,
                shares,
                trades.deep_view(),
            ),
    {
        let ghost before = self.deep_view();
        let spent: i128 = cost_of(shares, self.up_buy_price);
        if text_eq(outcome, "up") {
            self.up_matched = true;
            self.up_shares_received = shares;
            self.up_spent_usdc = spent;
        } else if text_eq(outcome, "down") {
            self.down_matched = true;
            self.down_shares_received = shares;
            self.down_spent_usdc = spent;
        }
        let ghost filled = self.deep_view();
        let ghost value = (outcome@, shares);
        let ghost ids = trades.deep_view();
        let mut i: usize = 0;
        while i < trades.len()
            invariant
                0 <= i <= trades@.len(),
                ids == trades.deep_view(),
                value == (outcome@, shares),
                self.deep_view() == (CycleView {
                    trade_info: noted(before.trade_info, ids.take(i as int), value),
                    ..filled
                }),
            decreases trades@.len() - i,
        {
            self.trade_info.insert(trades[i].clone(), (outcome.to_owned(), shares));
            proof {
                assert(ids[i as int] == trades@[i as int]@);
                lemma_note_one_more(before.trade_info, ids, i as int, value);
            }
            i = i + 1;
        }
        proof {
            assert(ids.take(i as int) =~= ids);
        }
    }

    /// Takes in a report on an order. A matched order fills its side, and the
    /// trades that were waiting are handed out for a pass over them.
    pub fn order_update(&mut self, update: &OrderUpdate) -> (r: Option<PendingScan>)
        ensures
            (final(self).deep_view(), r.deep_view()) == old(self).deep_view().after_order(
                *update,
            ),
    {
        if !update.matched {
            return None;
        }
        match (&update.size_matched, &update.outcome) {
            (Some(size), Some(outcome)) => {
                let shares: i64 = size.micros();
                let lower = to_lower(outcome.as_str());
                match &update.associate_trades {
                    Some(ids) => {
                        self.order_matched(lower.as_str(), shares, ids);
                    },
                    None => {
                        let none: Vec<String> = Vec::new();
                        assert(none.deep_view() =~= Seq::<Seq<char>>::empty());
                        self.order_matched(lower.as_str(), shares, &none);
                    },
                }
                let mut waiting: VecDeque<PendingTrade> = VecDeque::new();
                assert(pending_views(waiting@) =~= Seq::<PendingTradeView>::empty());
                std::mem::swap(&mut waiting, &mut self.pending_trades);
                let remaining: VecDeque<PendingTrade> = VecDeque::new();
                assert(pending_views(remaining@) =~= Seq::<PendingTradeView>::empty());
                Some(PendingScan { waiting, remaining })
            },
            _ => None,
        }
    }

    /// Puts the trades that a pass left back.
    pub fn scan_finished(&mut self, scan: PendingScan)
        ensures
            final(self).deep_view() == old(self).deep_view().after_scan(scan.deep_view()),
    {
        self.pending_trades = scan.remaining;
    }

    /// The SELL order that a noted trade calls for.
    fn sell_step(&self, config: &StrategyConfig, outcome: &str, shares: i64, now: i64) -> (r:
        Option<SellStep>)
        requires
            0 <= now <= LATEST_INSTANT,
        ensures
            r.deep_view() == self.deep_view().sell_for(*config, outcome@, shares, now),
    {
        let is_up = is_lower(outcome, "up");
        let is_down = is_lower(outcome, "down");
        let placed = if is_up {
            self.up_sell_order_id.is_some()
        } else {
            self.down_sell_order_id.is_some()
        };
        if placed {
            None
        } else if is_up && self.up_matched || is_down && self.down_matched {
            let side = if is_up {
                Outcome::Up
            } else {
                Outcome::Down
            };
            let token_id = if is_up {
                self.up_token_id.as_str()
            } else {
                self.down_token_id.as_str()
            };
            let placement = place_sell_order(
                config.simulation_mode,
                side,
                token_id,
                shares,
                config.sell_price,
                now,
            );
            Some(SellStep { outcome: side, placement })
        } else {
            None
        }
    }

    /// Takes in a report on a trade, and says which SELL order it calls for.
    pub fn trade_update(&mut self, config: &StrategyConfig, update: &TradeUpdate, now: i64) -> (r:
        Option<SellStep>)
        requires
            0 <= now <= LATEST_INSTANT,
        ensures
            (final(self).deep_view(), r.deep_view()) == old(self).deep_view().after_trade(
                *config,
                *update,
                now,
            ),
    {
        if !update.is_buy {
            return None;
        }
        match update.status {
            TradeStatus::Matched => {
                if let Some(noted) = self.trade_info.get(update.id.as_str()) {
                    return self.sell_step(config, noted.0.as_str(), noted.1, now);
                }
                let ghost before = self.pending_trades@;
                let waiting = PendingTrade {
                    trade_id: update.id.clone(),
                    side: update.side.clone(),
                    size: update.size.micros(),
                    price: update.price.micros(),
                };
                self.pending_trades.push_back(waiting);
                assert(pending_views(self.pending_trades@) =~= pending_views(before).push(
                    waiting.deep_view(),
                ));
                None
            },
            TradeStatus::Mined | TradeStatus::Confirmed => {
                let confirmed = match update.status {
                    TradeStatus::Confirmed => self.trade_info.get(update.id.as_str()).is_some(),
                    _ => false,
                };
                match self.side_of(update) {
                    Some(Outcome::Up) => {
                        self.up_mined = true;
                        self.up_trade_confirmed = self.up_trade_confirmed || confirmed;
                    },
                    Some(Outcome::Down) => {
                        self.down_mined = true;
                        self.down_trade_confirmed = self.down_trade_confirmed || confirmed;
                    },
                    None => {},
                }
                None
            },
            TradeStatus::Other => None,
        }
    }

    /// The side that a trade is about, where that is known.
    fn side_of(&self, update: &TradeUpdate) -> (r: Option<Outcome>)
        ensures
            r == self.deep_view().outcome_of(*update),
    {
        let text = match self.trade_info.get(update.id.as_str()) {
            Some(noted) => noted.0.as_str(),
            None => match &update.outcome {
                Some(outcome) => outcome.as_str(),
                None => {
                    return None;
                },
            },
        };
        if is_lower(text, "up") {
            Some(Outcome::Up)
        } else if is_lower(text, "down") {
            Some(Outcome::Down)
        } else {
            None
        }
    }
}

/// No SELL order is called for on a side that has one, nor before the BUY order
/// of that side is filled.
pub proof fn sell_needs_a_fill_and_no_earlier_sell(
    cycle: CycleView,
    config: StrategyConfig,
    outcome: Seq<char>,
    shares: i64,
    now: i64,
)
    requires
        cycle.sell_for(config, outcome, shares, now) is Some,
    ensures
        ({
            let sell = cycle.sell_for(config, outcome, shares, now)->0;
            cycle.matched(sell.outcome) && cycle.sell_order_id(sell.outcome) is None
        }),
{
    reveal_strlit("up");
    reveal_strlit("down");
    assert("up"@.len() != "down"@.len());
}

/// Once a SELL order of a side was accepted, no trade calls for another one on
/// that side, whatever fills or trades are noted afterwards.
pub proof fn one_sell_per_side(
    cycle: CycleView,
    outcome: Outcome,
    response: ResponseView,
    later: CycleView,
    config: StrategyConfig,
    text: Seq<char>,
    shares: i64,
    now: i64,
)
    requires
        later.sell_order_id(outcome) == cycle.after_sell(outcome, Some(response)).sell_order_id(
            outcome,
        ),
    ensures
        later.sell_for(config, text, shares, now) matches Some(sell) ==> sell.outcome != outcome,
{
}

/// Reports on orders and trades leave the SELL orders as they are, and undo no
/// fill.
pub proof fn reports_keep_sells_and_fills(
    cycle: CycleView,
    config: StrategyConfig,
    order: OrderUpdate,
    trade: TradeUpdate,
    now: i64,
    outcome: Outcome,
)
    ensures
        cycle.after_order(order).0.sell_order_id(outcome) == cycle.sell_order_id(outcome),
        cycle.after_trade(config, trade, now).0.sell_order_id(outcome) == cycle.sell_order_id(
            outcome,
        ),
        cycle.matched(outcome) ==> cycle.after_order(order).0.matched(outcome),
        cycle.after_trade(config, trade, now).0.matched(outcome) == cycle.matched(outcome),
{
}

/// In simulation no report calls for an order that would be sent.
pub proof fn simulation_sends_no_sell(
    cycle: CycleView,
    config: StrategyConfig,
    trade: TradeUpdate,
    scan: ScanView,
    now: i64,
)
    requires
        config.simulation_mode,
    ensures
        cycle.after_trade(config, trade, now).1 matches Some(sell) ==> sell.placement is Simulated,
        scan.advanced(cycle, config, now).1 matches Some(sell) ==> sell.placement is Simulated,
{
}

/// What can happen to a running cycle. A report comes with the exchange's answer
/// to the SELL order that it may call for.
pub enum CycleMove {
    Order(OrderUpdate),
    Trade(TradeUpdate, i64, Option<ResponseView>),
    Pending(PendingTradeView, i64, Option<ResponseView>),
    Filled(Outcome, bool),
    Scanned(ScanView),
}

impl CycleView {
    /// The cycle once a SELL order that was called for is answered, and the side
    /// on which one was accepted.
    pub open spec fn answered(self, sell: Option<SellView>, reply: Option<ResponseView>) -> (
        CycleView,
        Option<Outcome>,
    ) {
        match (sell, reply) {
            (Some(step), Some(response)) => (
                self.after_sell(step.outcome, Some(response)),
                Some(step.outcome),
            ),
            _ => (self, None),
        }
    }

    /// The cycle after a move, and the side on which a SELL order was accepted.
    pub open spec fn moved(self, config: StrategyConfig, step: CycleMove) -> (
        CycleView,
        Option<Outcome>,
    ) {
        match step {
            CycleMove::Order(update) => (self.after_order(update).0, None),
            CycleMove::Trade(update, now, reply) => {
                let (after, sell) = self.after_trade(config, update, now);
                after.answered(sell, reply)
            },
            CycleMove::Pending(trade, now, reply) => self.answered(
                self.sell_for_pending(config, trade, now),
                reply,
            ),
            CycleMove::Filled(outcome, filled) => (self.with_match(outcome, filled), None),
            CycleMove::Scanned(scan) => (self.after_scan(scan), None),
        }
    }

    /// How many SELL orders of a side are accepted in a series of moves.
    pub open spec fn accepted_sells(
        self,
        config: StrategyConfig,
        moves: Seq<CycleMove>,
        outcome: Outcome,
    ) -> nat
        decreases moves.len(),
    {
        if moves.len() == 0 {
            0
        } else {
            let (after, sold) = self.moved(config, moves[0]);
            let rest = after.accepted_sells(config, moves.drop_first(), outcome);
            if sold == Some(outcome) {
                1 + rest
            } else {
                rest
            }
        }
    }
}

/// Whatever is reported in whatever order, and whatever the exchange answers, a
/// cycle has at most one accepted SELL order for each side.
pub proof fn a_side_is_sold_once(
    cycle: CycleView,
    config: StrategyConfig,
    moves: Seq<CycleMove>,
    outcome: Outcome,
)
    ensures
        cycle.accepted_sells(config, moves, outcome) <= 1,
        cycle.sell_order_id(outcome) is Some ==> cycle.accepted_sells(config, moves, outcome) == 0,
    decreases moves.len(),
{
    if moves.len() > 0 {
        let (after, sold) = cycle.moved(config, moves[0]);
        a_side_is_sold_once(after, config, moves.drop_first(), outcome);
    }
}

} // verus!
