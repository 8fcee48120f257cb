//! What the bot promises of a cycle as a whole: what is sold, kept, merged, paid
//! and redeemed, in terms of what was reported and configured.
use vstd::prelude::*;

use crate::config::StrategyConfig;
use crate::cycle::{OrderUpdate, ScanView, SellView, TradeStatus, TradeUpdate};
use crate::discovery::last_token;
use crate::entry::{entry_run, EntryAnswer, EntryEnd, EntryView, StageView};
use crate::fixed_price::{after_pass, PassReplies, TradeReport};
use crate::models::{
    CycleView, DetailsView, Market, MarketDetails, MergeStatusView, MergeView, OpenOrder,
    OrderResponse, OrderView, PendingTradeView, PositionView, ResponseView, TokenView, TradeView,
};
use crate::money::{
    amount_text, cents_text, decimal_micros, price_fills, rounded_price, DecimalParts,
};
use crate::orders::{limit_placement, sell_placement, Outcome, PlacementView};
use crate::strategy::{
    is_running, merges_of, open_market, EventStepView, MarketStepView, SettlementView,
    StrategyView, UserEvent, Winner,
};
use crate::text::{has_substring, lowercase, nat_text, uppercase};

verus! {

/// An order is this SELL order of a token: it lapses six minutes after `now`.
pub open spec fn sells(
    order: OrderView,
    token_id: Seq<char>,
    shares: int,
    price: int,
    now: i64,
) -> bool {
    &&& order.token_id == token_id
    &&& order.side == "SELL"@
    &&& order.size == amount_text(shares)
    &&& order.price == cents_text(price)
    &&& order.order_type == "LIMIT"@
    &&& order.time_in_force == Some("GTD"@)
    &&& order.expire_after == Some((now + 360) as i64)
}

/// A report on a trade calls for a SELL order exactly where a BUY trade was
/// matched whose order is known, the BUY order of that side is filled and the
/// side has no SELL order. What is then sent sells the shares of that order: the
/// Up token for an Up order, the Down token for a Down order, never the other.
pub proof fn a_fill_sells_its_own_side(
    cycle: CycleView,
    config: StrategyConfig,
    trade: TradeUpdate,
    now: i64,
)
    ensures
        ({
            let sell = cycle.after_trade(config, trade, now).1;
            let (text, shares) = cycle.trade_info[trade.id@];
            let counts = trade.is_buy && trade.status == TradeStatus::Matched
                && cycle.trade_info.contains_key(trade.id@);
            let up = lowercase(text) == "up"@ && cycle.up_matched && cycle.up_sell_order_id is None;
            let down = lowercase(text) == "down"@ && cycle.down_matched
                && cycle.down_sell_order_id is None;
            &&& sell is Some == (counts && (up || down))
            &&& sell is Some && up ==> sell->0.outcome == Outcome::Up
            &&& sell is Some && down ==> sell->0.outcome == Outcome::Down
            &&& sell is Some && !config.simulation_mode ==> sell->0.placement is Send
            &&& sell is Some && !config.simulation_mode && up ==> sells(
                sell->0.placement->Send_0,
                cycle.up_token_id,
                shares as int,
                config.sell_price as int,
                now,
            )
            &&& sell is Some && !config.simulation_mode && down ==> sells(
                sell->0.placement->Send_0,
                cycle.down_token_id,
                shares as int,
                config.sell_price as int,
                now,
            )
        }),
{
    reveal_strlit("up");
    reveal_strlit("down");
    assert("up"@.len() != "down"@.len());
}

/// The same of a trade that had to wait for its order.
pub proof fn a_waiting_trade_sells_its_own_side(
    cycle: CycleView,
    config: StrategyConfig,
    trade: PendingTradeView,
    now: i64,
)
    ensures
        ({
            let sell = cycle.sell_for_pending(config, trade, now);
            let (text, shares) = cycle.trade_info[trade.trade_id];
            let counts = cycle.trade_info.contains_key(trade.trade_id);
            let up = lowercase(text) == "up"@ && cycle.up_matched && cycle.up_sell_order_id is None;
            let down = lowercase(text) == "down"@ && cycle.down_matched
                && cycle.down_sell_order_id is None;
            &&& sell is Some == (counts && (up || down))
            &&& sell is Some && up ==> sell->0.outcome == Outcome::Up
            &&& sell is Some && down ==> sell->0.outcome == Outcome::Down
            &&& sell is Some && !config.simulation_mode ==> sell->0.placement is Send
            &&& sell is Some && !config.simulation_mode && up ==> sells(
                sell->0.placement->Send_0,
                cycle.up_token_id,
                shares as int,
                config.sell_price as int,
                now,
            )
            &&& sell is Some && !config.simulation_mode && down ==> sells(
                sell->0.placement->Send_0,
                cycle.down_token_id,
                shares as int,
                config.sell_price as int,
                now,
            )
        }),
{
    reveal_strlit("up");
    reveal_strlit("down");
    assert("up"@.len() != "down"@.len());
}

/// A matched order fills the side that it names with the shares that it says,
/// bought at the price of the cycle, and from then on each of its trades stands
/// for that outcome and those shares. The other side, the other trades and all
/// the rest stay as they are, and the trades that were waiting are handed out.
pub proof fn a_matched_order_fills_its_side(cycle: CycleView, order: OrderUpdate)
    ensures
        ({
            let (after, scan) = cycle.after_order(order);
            let counts = order.matched && order.size_matched is Some && order.outcome is Some;
            let size = order.size_matched->0;
            let shares = decimal_micros(size.mantissa as int, size.scale as nat);
            let name = lowercase(order.outcome->0@);
            let up = counts && name == "up"@;
            let down = counts && name == "down"@;
            &&& !counts ==> after == cycle && scan is None
            &&& counts ==> scan == Some(
                ScanView { waiting: cycle.pending_trades, remaining: Seq::empty() },
            ) && after.pending_trades == Seq::<PendingTradeView>::empty()
            &&& after.up_matched == (up || cycle.up_matched)
            &&& after.down_matched == (down || cycle.down_matched)
            &&& after.up_shares_received == if up {
                shares
            } else {
                cycle.up_shares_received as int
            }
            &&& after.down_shares_received == if down {
                shares
            } else {
                cycle.down_shares_received as int
            }
            &&& up ==> after.up_spent_usdc == shares * cycle.up_buy_price
            &&& down ==> after.down_spent_usdc == shares * cycle.up_buy_price
            &&& !up ==> after.up_spent_usdc == cycle.up_spent_usdc
            &&& !down ==> after.down_spent_usdc == cycle.down_spent_usdc
            &&& forall|id: Seq<char>| #[trigger]
                after.trade_info.contains_key(id) == (cycle.trade_info.contains_key(id) || counts
                    && order.associate_trades is Some && exists|i: int|
                    0 <= i < order.associate_trades->0@.len() && #[trigger]
                    order.associate_trades->0@[i]@ == id)
            &&& counts && order.associate_trades is Some ==> forall|i: int|
                0 <= i < order.associate_trades->0@.len() ==> after.trade_info[
                    #[trigger] order.associate_trades->0@[i]@
                ] == (name, shares as i64)
            &&& forall|id: Seq<char>|
                cycle.trade_info.contains_key(id) && !(counts && order.associate_trades is Some
                    && exists|i: int|
                    0 <= i < order.associate_trades->0@.len() && #[trigger]
                    order.associate_trades->0@[i]@ == id) ==> #[trigger] after.trade_info[id]
                    == cycle.trade_info[id]
            &&& after == (CycleView {
                up_matched: after.up_matched,
                down_matched: after.down_matched,
                up_shares_received: after.up_shares_received,
                down_shares_received: after.down_shares_received,
                up_spent_usdc: after.up_spent_usdc,
                down_spent_usdc: after.down_spent_usdc,
                trade_info: after.trade_info,
                pending_trades: after.pending_trades,
                ..cycle
            })
        }),
{
    reveal_strlit("up");
    reveal_strlit("down");
    assert("up"@.len() != "down"@.len());
    if let (true, Some(size), Some(outcome)) = (
        order.matched,
        order.size_matched,
        order.outcome,
    ) {
        let shares = decimal_micros(size.mantissa as int, size.scale as nat);
        assert(i64::MIN <= shares <= i64::MAX);
        assert(-0x4000_0000_0000_0000_0000_0000_0000_0000 <= shares * cycle.up_buy_price
            <= 0x4000_0000_0000_0000_0000_0000_0000_0000) by (nonlinear_arith)
            requires
                -0x8000_0000_0000_0000 <= shares <= 0x7fff_ffff_ffff_ffff,
                -0x8000_0000_0000_0000 <= cycle.up_buy_price <= 0x7fff_ffff_ffff_ffff,
        ;
        if let Some(list) = order.associate_trades {
            let ids = list.deep_view();
            assert forall|id: Seq<char>| #[trigger]
                ids.contains(id) == (exists|i: int|
                    0 <= i < list@.len() && #[trigger] list@[i]@ == id) by {
                if ids.contains(id) {
                    let i = choose|i: int| 0 <= i < ids.len() && ids[i] == id;
                    assert(list@[i]@ == id);
                }
                if exists|i: int| 0 <= i < list@.len() && #[trigger] list@[i]@ == id {
                    let i = choose|i: int| 0 <= i < list@.len() && #[trigger] list@[i]@ == id;
                    assert(ids[i] == id);
                }
            }
            assert forall|i: int| 0 <= i < list@.len() implies ids.contains(
                #[trigger] list@[i]@,
            ) by {
                assert(ids[i] == list@[i]@);
            }
        }
    }
}

/// A matched order and then its trade, in this order, sell the order's shares of
/// the order's own side, where it has no SELL order yet. (A text in small letters
/// is its own lower-case form: that is left to the antecedent.)
pub proof fn a_filled_order_is_sold(
    cycle: CycleView,
    config: StrategyConfig,
    order: OrderUpdate,
    trade: TradeUpdate,
    place: int,
    now: i64,
)
    requires
        !config.simulation_mode,
        order.matched,
        order.size_matched is Some,
        order.outcome is Some,
        order.associate_trades is Some,
        0 <= place < order.associate_trades->0@.len(),
        order.associate_trades->0@[place]@ == trade.id@,
        trade.is_buy,
        trade.status == TradeStatus::Matched,
    ensures
        ({
            let name = lowercase(order.outcome->0@);
            let size = order.size_matched->0;
            let shares = decimal_micros(size.mantissa as int, size.scale as nat);
            let sell = cycle.after_order(order).0.after_trade(config, trade, now).1;
            &&& lowercase(name) == name && name == "up"@ && cycle.up_sell_order_id is None ==> {
                &&& sell is Some && sell->0.outcome == Outcome::Up
                &&& sell->0.placement is Send
                &&& sells(
                    sell->0.placement->Send_0,
                    cycle.up_token_id,
                    shares,
                    config.sell_price as int,
                    now,
                )
            }
            &&& lowercase(name) == name && name == "down"@ && cycle.down_sell_order_id is None ==> {
                &&& sell is Some && sell->0.outcome == Outcome::Down
                &&& sell->0.placement is Send
                &&& sells(
                    sell->0.placement->Send_0,
                    cycle.down_token_id,
                    shares,
                    config.sell_price as int,
                    now,
                )
            }
        }),
{
    a_matched_order_fills_its_side(cycle, order);
    let filled = cycle.after_order(order).0;
    a_fill_sells_its_own_side(filled, config, trade, now);
    assert(filled.trade_info.contains_key(order.associate_trades->0@[place]@));
    assert(filled.trade_info[order.associate_trades->0@[place]@].0 == lowercase(
        order.outcome->0@,
    ));
}

/// A report on a trade changes one thing at most. A SELL trade changes nothing,
/// nor does one that neither matched nor is on chain. A matched one whose order
/// is not known waits behind those that wait already, with what was reported of
/// it. One on chain puts the side of its order there, or the side that it names
/// where the order is not known, and is noted as confirmed where it is and its
/// order is known.
pub proof fn a_trade_report_touches_its_side_only(
    cycle: CycleView,
    config: StrategyConfig,
    trade: TradeUpdate,
    now: i64,
)
    ensures
        ({
            let after = cycle.after_trade(config, trade, now).0;
            let known = cycle.trade_info.contains_key(trade.id@);
            let waits = trade.is_buy && trade.status == TradeStatus::Matched && !known;
            let name = if known {
                lowercase(cycle.trade_info[trade.id@].0)
            } else {
                lowercase(trade.outcome->0@)
            };
            let mined = trade.is_buy && (trade.status == TradeStatus::Mined || trade.status
                == TradeStatus::Confirmed) && (known || trade.outcome is Some);
            let up = mined && name == "up"@;
            let down = mined && name == "down"@;
            let confirmed = known && trade.status == TradeStatus::Confirmed;
            &&& after.up_mined == (cycle.up_mined || up)
            &&& after.down_mined == (cycle.down_mined || down)
            &&& after.up_trade_confirmed == (cycle.up_trade_confirmed || up && confirmed)
            &&& after.down_trade_confirmed == (cycle.down_trade_confirmed || down && confirmed)
            &&& after.pending_trades.len() == cycle.pending_trades.len() + if waits {
                1int
            } else {
                0
            }
            &&& forall|i: int|
                0 <= i < cycle.pending_trades.len() ==> #[trigger] after.pending_trades[i]
                    == cycle.pending_trades[i]
            &&& waits ==> {
                let last = after.pending_trades[cycle.pending_trades.len() as int];
                &&& last.trade_id == trade.id@
                &&& last.side == trade.side@
                &&& last.size == decimal_micros(trade.size.mantissa as int, trade.size.scale as nat)
                &&& last.price == decimal_micros(
                    trade.price.mantissa as int,
                    trade.price.scale as nat,
                )
            }
            &&& after == (CycleView {
                up_mined: after.up_mined,
                down_mined: after.down_mined,
                up_trade_confirmed: after.up_trade_confirmed,
                down_trade_confirmed: after.down_trade_confirmed,
                pending_trades: after.pending_trades,
                ..cycle
            })
        }),
{
    reveal_strlit("up");
    reveal_strlit("down");
    assert("up"@.len() != "down"@.len());
}

/// A pass over the trades that were waiting stops at the first of them that
/// calls for a SELL order, and hands that order out; where none does it comes to
/// the end. Of those on the way the ones whose order is not known keep waiting,
/// in their order and behind the ones that did before; the others are gone.
pub proof fn a_pass_takes_the_trades_in_turn(
    scan: ScanView,
    cycle: CycleView,
    config: StrategyConfig,
    now: i64,
)
    ensures
        ({
            let (after, sell) = scan.advanced(cycle, config, now);
            let passed = scan.waiting.len() - after.waiting.len() - if sell is Some {
                1int
            } else {
                0
            };
            &&& 0 <= passed <= scan.waiting.len()
            &&& sell is None ==> after.waiting.len() == 0
            &&& after.waiting == scan.waiting.skip(scan.waiting.len() - after.waiting.len())
            &&& sell is Some ==> sell == cycle.sell_for_pending(config, scan.waiting[passed], now)
            &&& forall|i: int|
                0 <= i < passed ==> cycle.sell_for_pending(
                    config,
                    #[trigger] scan.waiting[i],
                    now,
                ) is None
            &&& scan.remaining.is_prefix_of(after.remaining)
            &&& after.remaining.skip(scan.remaining.len() as int) == scan.waiting.take(
                passed,
            ).filter(|trade: PendingTradeView| !cycle.trade_info.contains_key(trade.trade_id))
        }),
{
    let waiting = scan.waiting;
    let n = cycle.first_sell(config, waiting, now) as int;
    lemma_first_seller(cycle, config, waiting, now);
    let (after, sell) = scan.advanced(cycle, config, now);
    let unknown = |trade: PendingTradeView| cycle.is_unknown(trade);
    let absent = |trade: PendingTradeView| !cycle.trade_info.contains_key(trade.trade_id);
    assert(unknown =~= absent);
    assert(waiting.take(waiting.len() as int) =~= waiting);
    assert(waiting.skip(waiting.len() as int) =~= Seq::empty());
    let kept = waiting.take(n).filter(unknown);
    assert(after.remaining == scan.remaining + kept);
    assert((scan.remaining + kept).skip(scan.remaining.len() as int) =~= kept);
    assert((scan.remaining + kept).subrange(0, scan.remaining.len() as int) =~= scan.remaining);
}

/// The first trade that calls for a SELL order lies within the trades, and none
/// before it calls for one.
proof fn lemma_first_seller(
    cycle: CycleView,
    config: StrategyConfig,
    trades: Seq<PendingTradeView>,
    now: i64,
)
    ensures
        ({
            let n = cycle.first_sell(config, trades, now) as int;
            &&& 0 <= n <= trades.len()
            &&& n < trades.len() ==> cycle.sell_for_pending(config, trades[n], now) is Some
            &&& forall|i: int|
                0 <= i < n ==> cycle.sell_for_pending(config, #[trigger] trades[i], now) is None
        }),
    decreases trades.len(),
{
    if trades.len() > 0 && cycle.sell_for_pending(config, trades[0], now) is None {
        let rest = trades.drop_first();
        lemma_first_seller(cycle, config, rest, now);
        let n = cycle.first_sell(config, trades, now) as int;
        assert forall|i: int| 0 <= i < n implies cycle.sell_for_pending(
            config,
            #[trigger] trades[i],
            now,
        ) is None by {
            if i > 0 {
                assert(trades[i] == rest[i - 1]);
            }
        }
    }
}

/// An accepted SELL order is noted under its name on its own side, and under an
/// empty one where the exchange gave none; a failed one leaves all as it was.
pub proof fn a_sell_is_noted_on_its_side(cycle: CycleView, reply: Option<ResponseView>)
    ensures
        ({
            let up = cycle.after_sell(Outcome::Up, reply);
            let down = cycle.after_sell(Outcome::Down, reply);
            &&& reply is None ==> up == cycle && down == cycle
            &&& reply is Some ==> up == (CycleView {
                up_sell_order_id: up.up_sell_order_id,
                ..cycle
            }) && up.up_sell_order_id is Some
            &&& reply is Some ==> down == (CycleView {
                down_sell_order_id: down.down_sell_order_id,
                ..cycle
            }) && down.down_sell_order_id == up.up_sell_order_id
            &&& reply is Some && reply->0.order_id is Some ==> up.up_sell_order_id
                == reply->0.order_id
            &&& reply is Some && reply->0.order_id is None ==> up.up_sell_order_id->0.len() == 0
        }),
{
}

/// Each side counts as filled from its own check on, and stays so.
pub proof fn a_check_fills_its_own_side(cycle: CycleView, filled: bool)
    ensures
        cycle.with_match(Outcome::Up, filled) == (CycleView {
            up_matched: cycle.up_matched || filled,
            ..cycle
        }),
        cycle.with_match(Outcome::Down, filled) == (CycleView {
            down_matched: cycle.down_matched || filled,
            ..cycle
        }),
{
}

/// The exchange is asked about both BUY orders by their names, Up first, exactly
/// where both are real and a side is not filled yet.
pub proof fn real_orders_are_asked_about(cycle: CycleView, simulation: bool)
    ensures
        ({
            let asked = cycle.fills_query(simulation);
            let sent = |id: Option<Seq<char>>|
                id is Some && !(id->0.len() >= 4 && id->0[0] == 'S' && id->0[1] == 'I' && id->0[2]
                    == 'M' && id->0[3] == '-');
            &&& asked is Some == (!simulation && sent(cycle.up_order_id) && sent(
                cycle.down_order_id,
            ) && !(cycle.up_matched && cycle.down_matched))
            &&& asked matches Some((up, down)) ==> cycle.up_order_id == Some(up)
                && cycle.down_order_id == Some(down)
        }),
{
    reveal_strlit("SIM-");
    if let (Some(up), Some(down)) = (cycle.up_order_id, cycle.down_order_id) {
        lemma_simulated(up);
        lemma_simulated(down);
    }
}

/// A name starts with `SIM-` where its first four characters are those.
proof fn lemma_simulated(id: Seq<char>)
    ensures
        "SIM-"@.is_prefix_of(id) == (id.len() >= 4 && id[0] == 'S' && id[1] == 'I' && id[2] == 'M'
            && id[3] == '-'),
{
    reveal_strlit("SIM-");
    if id.len() >= 4 {
        let head = id.subrange(0, 4);
        if id[0] == 'S' && id[1] == 'I' && id[2] == 'M' && id[3] == '-' {
            assert(head =~= "SIM-"@);
        }
        if head == "SIM-"@ {
            assert(head[0] == 'S' && head[1] == 'I' && head[2] == 'M' && head[3] == '-');
        }
    }
}

/// One of the tokens has this name and won.
pub open spec fn has_winner(tokens: Seq<TokenView>, token_id: Option<Seq<char>>) -> bool {
    token_id is Some && exists|i: int|
        0 <= i < tokens.len() && #[trigger] tokens[i].winner && Some(tokens[i].token_id) == token_id
}

/// Each share of the outcome that won pays one dollar, whatever the other side
/// holds, and no other share pays; the cost is that of the shares of both sides
/// at their prices, and the profit is the payout less the cost, wherever these
/// sums stay in range.
pub proof fn each_winning_share_pays_a_dollar(
    trade: TradeView,
    tokens: Seq<TokenView>,
    simulation: bool,
)
    ensures
        ({
            let end = trade.settled(tokens, simulation);
            let up = has_winner(tokens, trade.up_token_id);
            let down = has_winner(tokens, trade.down_token_id);
            let cost = trade.up_shares * trade.up_avg_price + trade.down_shares
                * trade.down_avg_price;
            &&& end.trade == trade
            &&& up ==> end.winner == Winner::Up && end.payout == trade.up_shares * 1_000_000
            &&& !up && down ==> end.winner == Winner::Down && end.payout == trade.down_shares
                * 1_000_000
            &&& !up && !down ==> end.winner == Winner::Unknown && end.payout == 0
            &&& cost <= i128::MAX ==> end.total_cost == cost
            &&& i128::MIN <= end.payout - end.total_cost <= i128::MAX ==> end.pnl == end.payout
                - end.total_cost
            &&& end.redemption is Some == (!simulation && (up || down))
            &&& end.redemption is Some && up ==> end.redemption->0.outcome == Outcome::Up && Some(
                end.redemption->0.token_id,
            ) == trade.up_token_id
            &&& end.redemption is Some && !up ==> end.redemption->0.outcome == Outcome::Down
                && Some(end.redemption->0.token_id) == trade.down_token_id
        }),
{
    lemma_winner(tokens, trade.up_token_id);
    lemma_winner(tokens, trade.down_token_id);
    lemma_amount(trade.up_shares as int, trade.up_avg_price as int);
    lemma_amount(trade.down_shares as int, trade.down_avg_price as int);
}

/// A winning token is found under its name.
proof fn lemma_winner(tokens: Seq<TokenView>, token_id: Option<Seq<char>>)
    ensures
        crate::strategy::token_wins(tokens, token_id) == has_winner(tokens, token_id),
{
    if let Some(id) = token_id {
        if crate::strategy::token_wins(tokens, token_id) {
            let i = choose|i: int|
                0 <= i < tokens.len() && (#[trigger] tokens[i]).token_id == id && tokens[i].winner;
            assert(tokens[i].winner && Some(tokens[i].token_id) == token_id);
        }
        if has_winner(tokens, token_id) {
            let i = choose|i: int|
                0 <= i < tokens.len() && #[trigger] tokens[i].winner && Some(tokens[i].token_id)
                    == token_id;
            assert(tokens[i].token_id == id && tokens[i].winner);
        }
    }
}

/// The product of a count and a price stays below 2^126.
proof fn lemma_amount(n: int, price: int)
    requires
        i64::MIN <= n <= i64::MAX,
        i64::MIN <= price <= i64::MAX,
    ensures
        -0x4000_0000_0000_0000_0000_0000_0000_0000 < n * price
            <= 0x4000_0000_0000_0000_0000_0000_0000_0000,
{
    assert(-0x4000_0000_0000_0000_0000_0000_0000_0000 < n * price
        <= 0x4000_0000_0000_0000_0000_0000_0000_0000) by (nonlinear_arith)
        requires
            -0x8000_0000_0000_0000 <= n <= 0x7fff_ffff_ffff_ffff,
            -0x8000_0000_0000_0000 <= price <= 0x7fff_ffff_ffff_ffff,
    ;
}

/// Of two positions that differ in their Up shares alone, in a market that Up
/// won, the larger one earns a dollar less the Up price for each share more;
/// in a market that Down won it loses the Up price for each.
pub proof fn a_share_more_counts_as_one(
    trade: TradeView,
    up_shares: i64,
    tokens: Seq<TokenView>,
    simulation: bool,
)
    requires
        -0x1000_0000_0000_0000 <= trade.up_avg_price <= 0x1000_0000_0000_0000,
        -0x1000_0000_0000_0000 <= trade.down_avg_price <= 0x1000_0000_0000_0000,
    ensures
        ({
            let other = TradeView { up_shares, ..trade };
            let gain = other.settled(tokens, simulation).pnl - trade.settled(tokens, simulation).pnl;
            let more = up_shares - trade.up_shares;
            &&& has_winner(tokens, trade.up_token_id) ==> gain == more * (1_000_000
                - trade.up_avg_price)
            &&& !has_winner(tokens, trade.up_token_id) ==> gain == -(more * trade.up_avg_price)
        }),
{
    let other = TradeView { up_shares, ..trade };
    each_winning_share_pays_a_dollar(trade, tokens, simulation);
    each_winning_share_pays_a_dollar(other, tokens, simulation);
    lemma_small_amount(trade.up_shares as int, trade.up_avg_price as int);
    lemma_small_amount(up_shares as int, trade.up_avg_price as int);
    lemma_small_amount(trade.down_shares as int, trade.down_avg_price as int);
    let (a, b, p) = (trade.up_shares as int, up_shares as int, trade.up_avg_price as int);
    assert((b - a) * (1_000_000 - p) == b * 1_000_000 - a * 1_000_000 - b * p + a * p)
        by (nonlinear_arith);
    assert((b - a) * p == b * p - a * p) by (nonlinear_arith);
}

/// The same of two positions that differ in their Down shares alone.
pub proof fn a_down_share_more_counts_as_one(
    trade: TradeView,
    down_shares: i64,
    tokens: Seq<TokenView>,
    simulation: bool,
)
    requires
        -0x1000_0000_0000_0000 <= trade.up_avg_price <= 0x1000_0000_0000_0000,
        -0x1000_0000_0000_0000 <= trade.down_avg_price <= 0x1000_0000_0000_0000,
    ensures
        ({
            let other = TradeView { down_shares, ..trade };
            let gain = other.settled(tokens, simulation).pnl - trade.settled(tokens, simulation).pnl;
            let more = down_shares - trade.down_shares;
            let won = !has_winner(tokens, trade.up_token_id) && has_winner(
                tokens,
                trade.down_token_id,
            );
            &&& won ==> gain == more * (1_000_000 - trade.down_avg_price)
            &&& !won ==> gain == -(more * trade.down_avg_price)
        }),
{
    let other = TradeView { down_shares, ..trade };
    each_winning_share_pays_a_dollar(trade, tokens, simulation);
    each_winning_share_pays_a_dollar(other, tokens, simulation);
    lemma_small_amount(trade.up_shares as int, trade.up_avg_price as int);
    lemma_small_amount(trade.down_shares as int, trade.down_avg_price as int);
    lemma_small_amount(down_shares as int, trade.down_avg_price as int);
    let (a, b, p) = (trade.down_shares as int, down_shares as int, trade.down_avg_price as int);
    assert((b - a) * (1_000_000 - p) == b * 1_000_000 - a * 1_000_000 - b * p + a * p)
        by (nonlinear_arith);
    assert((b - a) * p == b * p - a * p) by (nonlinear_arith);
}

/// The product of a count and a price of up to 2^60 stays below 2^124.
proof fn lemma_small_amount(n: int, price: int)
    requires
        i64::MIN <= n <= i64::MAX,
        -0x1000_0000_0000_0000 <= price <= 0x1000_0000_0000_0000,
    ensures
        -0x800_0000_0000_0000_0000_0000_0000_0000 <= n * price
            <= 0x800_0000_0000_0000_0000_0000_0000_0000,
{
    assert(-0x800_0000_0000_0000_0000_0000_0000_0000 <= n * price
        <= 0x800_0000_0000_0000_0000_0000_0000_0000) by (nonlinear_arith)
        requires
            -0x8000_0000_0000_0000 <= n <= 0x7fff_ffff_ffff_ffff,
            -0x1000_0000_0000_0000 <= price <= 0x1000_0000_0000_0000,
    ;
}

/// A side of a finished cycle that received shares is kept with exactly those,
/// whatever is configured and whether it is on chain or not. Only where it
/// received none the configured number counts, and only on chain. All else of
/// the position is what the cycle holds.
pub proof fn the_shares_received_are_kept(cycle: CycleView, shares: i64)
    ensures
        ({
            let kept = cycle.position(shares);
            &&& cycle.up_shares_received > 0 ==> kept.up_shares == cycle.up_shares_received
            &&& cycle.down_shares_received > 0 ==> kept.down_shares == cycle.down_shares_received
            &&& cycle.up_shares_received <= 0 && cycle.up_mined ==> kept.up_shares == shares
            &&& cycle.down_shares_received <= 0 && cycle.down_mined ==> kept.down_shares == shares
            &&& cycle.up_shares_received <= 0 && !cycle.up_mined ==> kept.up_shares == 0
            &&& cycle.down_shares_received <= 0 && !cycle.down_mined ==> kept.down_shares == 0
            &&& kept.condition_id == cycle.condition_id
            &&& kept.up_token_id == Some(cycle.up_token_id)
            &&& kept.down_token_id == Some(cycle.down_token_id)
            &&& kept.up_avg_price == cycle.up_buy_price
            &&& kept.down_avg_price == cycle.down_buy_price
            &&& kept.split_tx_hash == cycle.split_tx_hash
            &&& kept.market_duration_secs == 300
            &&& cycle.market_period_start >= 0 ==> kept.period_timestamp
                == cycle.market_period_start
        }),
{
}

/// How many shares are configured changes nothing of a side that received some.
pub proof fn configured_shares_do_not_replace_received_ones(
    cycle: CycleView,
    shares: i64,
    others: i64,
)
    ensures
        cycle.up_shares_received > 0 ==> cycle.position(shares).up_shares == cycle.position(
            others,
        ).up_shares,
        cycle.down_shares_received > 0 ==> cycle.position(shares).down_shares == cycle.position(
            others,
        ).down_shares,
{
}

/// A look at a cycle whose five minutes are over puts it away: the position is
/// kept where a side is on chain, and the split dollars are merged back where at
/// least a hundredth of a share was bought and it is not simulated. Nothing else
/// changes: not the profit, not what other cycles left.
pub proof fn a_finished_cycle_is_put_away(
    before: StrategyView,
    cycle: CycleView,
    config: StrategyConfig,
    period: i64,
    now: i64,
)
    requires
        before.state == Some(cycle),
        now > cycle.expiry,
    ensures
        ({
            let (after, step) = before.looked_at(config, period, now);
            let id = cycle.condition_id;
            let kept = cycle.up_mined || cycle.down_mined;
            let bought = cycle.up_shares_received + cycle.down_shares_received;
            let merges = bought >= 10_000 && !config.simulation_mode;
            &&& after.state is None
            &&& after.total_profit == before.total_profit
            &&& after.closure_checked == before.closure_checked
            &&& kept ==> after.trades.contains_key(id) && after.trades[id] == cycle.position(
                config.shares,
            )
            &&& !kept ==> after.trades == before.trades
            &&& forall|other: Seq<char>|
                other != id ==> #[trigger] after.trades.contains_key(other)
                    == before.trades.contains_key(other)
            &&& forall|other: Seq<char>|
                other != id ==> #[trigger] after.trades[other] == before.trades[other]
            &&& step is Expired
            &&& step->Expired_0 is Some == merges
            &&& merges ==> {
                let job = step->Expired_0->0;
                &&& job.condition_id == id
                &&& job.amount == 5_000_000
                &&& job.max_retries == 3
                &&& job.initial_delay_ms == 2000
                &&& after.pending_merges.contains_key(id)
                &&& after.pending_merges[id] == (MergeView {
                    condition_id: id,
                    amount: 5_000_000,
                    created_at: now,
                    status: MergeStatusView::InProgress,
                    last_error: None,
                    attempts: 0,
                })
            }
            &&& !merges ==> after.pending_merges == before.pending_merges
            &&& forall|other: Seq<char>|
                other != id ==> #[trigger] after.pending_merges[other]
                    == before.pending_merges[other]
        }),
{
}

/// A look at a cycle that still runs changes nothing and asks for a check of its
/// BUY orders; without a cycle the market of the five minutes is looked up by
/// its name, which ends with their start.
pub proof fn a_running_cycle_is_left_alone(
    before: StrategyView,
    config: StrategyConfig,
    period: i64,
    now: i64,
)
    ensures
        before.state is Some && now <= before.state->0.expiry ==> before.looked_at(
            config,
            period,
            now,
        ) == (before, MarketStepView::CheckFills),
        before.state is None && period >= 0 ==> before.looked_at(config, period, now) == (
            before,
            MarketStepView::Discover("btc-updown-5m-"@ + nat_text(period as nat)),
        ),
{
}

/// How a merge ended is noted where it was noted that it runs: with the hash of
/// its transaction, or with the error. Nothing else changes, and other merges do
/// not either.
pub proof fn a_finished_merge_is_noted(
    before: StrategyView,
    condition_id: Seq<char>,
    text: Seq<char>,
)
    ensures
        ({
            let done = before.merge_noted(condition_id, MergeStatusView::Succeeded(text));
            let failed = before.merge_noted(condition_id, MergeStatusView::Failed(text));
            let noted = before.pending_merges.contains_key(condition_id);
            let merge = before.pending_merges[condition_id];
            &&& !noted ==> done == before && failed == before
            &&& noted ==> done.pending_merges == before.pending_merges.insert(
                condition_id,
                MergeView { status: MergeStatusView::Succeeded(text), ..merge },
            )
            &&& noted ==> failed.pending_merges == before.pending_merges.insert(
                condition_id,
                MergeView {
                    status: MergeStatusView::Failed(text),
                    last_error: Some(text),
                    ..merge
                },
            )
            &&& done == (StrategyView { pending_merges: done.pending_merges, ..before })
            &&& failed == (StrategyView { pending_merges: failed.pending_merges, ..before })
        }),
{
}

/// A position is settled exactly where it is kept, its market has ended, it was
/// not settled before and its market is closed; it then ends as its shares and
/// the winning token say. The profit grows by that of the position, the position
/// is gone and marked as settled, and nothing else changes.
pub proof fn a_due_position_is_booked(
    before: StrategyView,
    condition_id: Seq<char>,
    now: u64,
    market: Option<DetailsView>,
    simulation: bool,
)
    requires
        before.well_formed(),
    ensures
        ({
            let trade = before.trades[condition_id];
            let ended = now >= trade.period_timestamp + trade.market_duration_secs;
            let checked = before.closure_checked.contains_key(condition_id)
                && before.closure_checked[condition_id];
            let end = before.settling(condition_id, now, market, simulation);
            &&& end is Some == (before.trades.contains_key(condition_id) && ended && !checked
                && market is Some && market->0.closed)
            &&& end matches Some(settlement) ==> {
                let after = before.settled(settlement);
                &&& settlement == trade.settled(market->0.tokens, simulation)
                &&& i128::MIN <= before.total_profit + settlement.pnl <= i128::MAX
                    ==> after.total_profit == before.total_profit + settlement.pnl
                &&& !after.trades.contains_key(condition_id)
                &&& after.closure_checked.contains_key(condition_id)
                    && after.closure_checked[condition_id]
                &&& forall|other: Seq<char>|
                    other != condition_id ==> #[trigger] after.trades.contains_key(other)
                        == before.trades.contains_key(other)
                &&& forall|other: Seq<char>|
                    other != condition_id && before.trades.contains_key(other)
                        ==> #[trigger] after.trades[other] == before.trades[other]
                &&& forall|other: Seq<char>|
                    other != condition_id ==> #[trigger] after.closure_checked.contains_key(other)
                        == before.closure_checked.contains_key(other)
                &&& after.state == before.state
                &&& after.pending_merges == before.pending_merges
            }
        }),
{
}

/// A position is due once its market has ended, unless it was settled.
pub proof fn a_position_is_due_after_its_market(
    strategy: StrategyView,
    condition_id: Seq<char>,
    now: u64,
)
    ensures
        strategy.is_due(condition_id, now) == (strategy.trades.contains_key(condition_id)
            && strategy.trades[condition_id].period_timestamp
            + strategy.trades[condition_id].market_duration_secs <= now
            && !(strategy.closure_checked.contains_key(condition_id)
            && strategy.closure_checked[condition_id])),
{
}

/// A message reaches the cycle that runs, and what it calls for is handed out:
/// an order its pass over the waiting trades, a trade its SELL order. Without a
/// cycle, and of other messages, nothing comes.
pub proof fn messages_reach_the_cycle(
    before: StrategyView,
    config: StrategyConfig,
    event: UserEvent,
    now: i64,
)
    ensures
        ({
            let (after, step) = before.after_event(config, event, now);
            &&& before.state is None || event is Other ==> after == before && step is Nothing
            &&& before.state is Some && event is Order ==> {
                let (cycle, scan) = before.state->0.after_order(event->Order_0);
                &&& after == (StrategyView { state: Some(cycle), ..before })
                &&& scan is Some ==> step == EventStepView::Scan(scan->0)
                &&& scan is None ==> step is Nothing
            }
            &&& before.state is Some && event is Trade ==> {
                let (cycle, sell) = before.state->0.after_trade(config, event->Trade_0, now);
                &&& after == (StrategyView { state: Some(cycle), ..before })
                &&& sell is Some ==> step == EventStepView::Sell(sell->0)
                &&& sell is None ==> step is Nothing
            }
        }),
{
}

/// A limit order that is sent names its token and its side, is over the
/// configured shares at the rounded price, and lapses six minutes after `now`;
/// one that is simulated says so.
pub proof fn a_limit_order_says_what_is_meant(
    config: StrategyConfig,
    token_id: Seq<char>,
    side: Seq<char>,
    price: int,
    now: i64,
)
    ensures
        ({
            let placement = limit_placement(config, token_id, side, price, now);
            &&& config.simulation_mode == placement is Simulated
            &&& placement matches PlacementView::Send(order) ==> {
                &&& order.token_id == token_id
                &&& order.side == side
                &&& order.size == amount_text(config.shares as int)
                &&& order.price == amount_text(rounded_price(price))
                &&& order.order_type == "LIMIT"@
                &&& order.time_in_force == Some("GTD"@)
                &&& order.expire_after == Some((now + 360) as i64)
            }
            &&& placement matches PlacementView::Simulated(answer) ==> answer.status
                == "SIMULATED"@ && answer.order_id is Some && "SIM-"@.is_prefix_of(
                answer.order_id->0,
            )
            &&& placement is Simulated && now >= 0 ==> placement->Simulated_0.order_id == Some(
                "SIM-"@ + side + "-"@ + nat_text(now as nat),
            )
        }),
{
    let id = "SIM-"@ + side + "-"@ + crate::text::int_text(now as int);
    assert(id.subrange(0, "SIM-"@.len() as int) =~= "SIM-"@);
}

/// A cycle starts with what its entry found: the tokens and the two orders each
/// on their own side, bought at one price, nothing filled, received, spent or
/// sold, and an end five minutes after its start.
pub proof fn a_cycle_starts_with_what_was_found(
    entry: EntryView,
    buy_price: i64,
    up: Option<Seq<char>>,
    down: Option<Seq<char>>,
)
    requires
        0 <= entry.period_start <= crate::orders::LATEST_INSTANT,
    ensures
        ({
            let cycle = entry.started(buy_price, up, down);
            &&& cycle.condition_id == entry.condition_id
            &&& cycle.up_token_id == entry.up_token_id
            &&& cycle.down_token_id == entry.down_token_id
            &&& cycle.up_order_id == up
            &&& cycle.down_order_id == down
            &&& cycle.up_buy_price == buy_price && cycle.down_buy_price == buy_price
            &&& !cycle.up_matched && !cycle.down_matched
            &&& !cycle.up_mined && !cycle.down_mined
            &&& !cycle.up_trade_confirmed && !cycle.down_trade_confirmed
            &&& cycle.up_shares_received == 0 && cycle.down_shares_received == 0
            &&& cycle.up_spent_usdc == 0 && cycle.down_spent_usdc == 0
            &&& cycle.up_sell_order_id is None && cycle.down_sell_order_id is None
            &&& cycle.market_period_start == entry.period_start
            &&& cycle.expiry == entry.period_start + 300
            &&& cycle.order_placed_at == entry.placed_at
            &&& cycle.split_tx_hash == entry.split_tx_hash
            &&& cycle.pending_trades.len() == 0
            &&& forall|id: Seq<char>| !(#[trigger] cycle.trade_info.contains_key(id))
            &&& cycle.asset == "BTC"@
        }),
{
}

/// The merges at the start are those of the positions that were found: one for
/// each, in their order, over all that was found of it.
pub proof fn positions_are_merged_whole(positions: Seq<PositionView>)
    ensures
        merges_of(positions).len() == positions.len(),
        forall|i: int|
            0 <= i < positions.len() ==> {
                let job = #[trigger] merges_of(positions)[i];
                &&& job.condition_id == positions[i].condition_id
                &&& job.amount == positions[i].size
                &&& job.max_retries == 3
                &&& job.initial_delay_ms == 2000
            },
{
}

/// A market is traded exactly where it was found, is active and not closed, and
/// then as it was found; and a cycle may start from the first second of the five
/// minutes on and before their end.
pub proof fn open_markets_are_traded(found: Option<Market>, period: i64, now: i64)
    ensures
        open_market(found) is Some == (found is Some && found->0.active && !found->0.closed),
        open_market(found) is Some ==> open_market(found) == found,
        is_running(period, now) == (0 <= now - period && now - period <= 299),
{
}

/// What the exchange says of the two BUY orders fills each side on its own word:
/// the first says it of Up, the second of Down. Nothing else changes.
pub proof fn each_order_fills_its_side(before: StrategyView, up: bool, down: bool)
    ensures
        before.fills_noted(None) == before,
        before.state is None ==> before.fills_noted(Some((up, down))) == before,
        before.state matches Some(cycle) ==> before.fills_noted(Some((up, down)))
            == (StrategyView {
            state: Some(
                CycleView {
                    up_matched: cycle.up_matched || up,
                    down_matched: cycle.down_matched || down,
                    ..cycle
                },
            ),
            ..before
        }),
{
}

/// The price is asked of the token of a side that is not filled, and a price
/// that fills the bid fills that side alone.
pub proof fn a_price_fills_its_side(
    before: StrategyView,
    buy_price: i64,
    price: Option<DecimalParts>,
)
    ensures
        before.state is None ==> before.asked_price(Outcome::Up) is None && before.asked_price(
            Outcome::Down,
        ) is None,
        before.state matches Some(cycle) ==> {
            let fills = price is Some && price_fills(
                decimal_micros(price->0.mantissa as int, price->0.scale as nat),
                buy_price as int,
            );
            &&& cycle.up_matched ==> before.asked_price(Outcome::Up) is None
            &&& !cycle.up_matched ==> before.asked_price(Outcome::Up) == Some(cycle.up_token_id)
            &&& cycle.down_matched ==> before.asked_price(Outcome::Down) is None
            &&& !cycle.down_matched ==> before.asked_price(Outcome::Down) == Some(
                cycle.down_token_id,
            )
            &&& before.price_noted(buy_price, Outcome::Up, price) == (StrategyView {
                state: Some(CycleView { up_matched: cycle.up_matched || fills, ..cycle }),
                ..before
            })
            &&& before.price_noted(buy_price, Outcome::Down, price) == (StrategyView {
                state: Some(CycleView { down_matched: cycle.down_matched || fills, ..cycle }),
                ..before
            })
        },
        before.state is None ==> before.price_noted(buy_price, Outcome::Up, price) == before
            && before.price_noted(buy_price, Outcome::Down, price) == before,
{
    if let Some(parts) = price {
        lemma_micros_in_range(parts);
    }
}

/// An amount in micros is held in range.
proof fn lemma_micros_in_range(parts: DecimalParts)
    ensures
        i64::MIN <= decimal_micros(parts.mantissa as int, parts.scale as nat) <= i64::MAX,
{
}

/// The BUY order of a side is for the token of that side, at the configured
/// price over the configured shares; simulated where the bot simulates.
pub proof fn each_side_is_bought(entry: EntryView, config: StrategyConfig, now: i64)
    ensures
        ({
            let up = entry.buy(config, Outcome::Up, now);
            let down = entry.buy(config, Outcome::Down, now);
            &&& up is Send == !config.simulation_mode
            &&& down is Send == !config.simulation_mode
            &&& up is Send ==> {
                &&& up->Send_0.token_id == entry.up_token_id
                &&& up->Send_0.side == "BUY"@
                &&& up->Send_0.size == amount_text(config.shares as int)
                &&& up->Send_0.price == amount_text(rounded_price(config.buy_price as int))
                &&& up->Send_0.expire_after == Some((now + 360) as i64)
            }
            &&& down is Send ==> {
                &&& down->Send_0.token_id == entry.down_token_id
                &&& down->Send_0 == (OrderView {
                    token_id: entry.down_token_id,
                    ..up->Send_0
                })
            }
        }),
{
}

/// An outcome in words is the one that pays when the price rises, or falls: Up
/// where its capitals hold UP or are 1, Down where they do not and hold DOWN or
/// are 0.
pub open spec fn says(outcome: Seq<char>, up: bool) -> bool {
    let capitals = uppercase(outcome);
    let rises = has_substring(capitals, "UP"@) || capitals == "1"@;
    if up {
        rises
    } else {
        !rises && (has_substring(capitals, "DOWN"@) || capitals == "0"@)
    }
}

/// The token of an outcome in a market is the last one that carries it, and
/// there is none exactly where no token does.
pub proof fn the_last_token_of_an_outcome_counts(tokens: Seq<TokenView>, up: bool)
    ensures
        match last_token(tokens, up) {
            Some(id) => exists|i: int|
                0 <= i < tokens.len() && #[trigger] tokens[i].token_id == id && says(
                    tokens[i].outcome,
                    up,
                ) && forall|j: int|
                    i < j < tokens.len() ==> !says(#[trigger] tokens[j].outcome, up),
            None => forall|j: int|
                0 <= j < tokens.len() ==> !says(#[trigger] tokens[j].outcome, up),
        },
    decreases tokens.len(),
{
    if tokens.len() > 0 {
        let shorter = tokens.drop_last();
        let end = tokens.len() - 1;
        the_last_token_of_an_outcome_counts(shorter, up);
        assert forall|j: int| 0 <= j < end implies shorter[j] == #[trigger] tokens[j] by {}
        if says(tokens[end].outcome, up) {
            assert(tokens[end].token_id == tokens.last().token_id);
        } else if let Some(id) = last_token(shorter, up) {
            let i = choose|i: int|
                0 <= i < shorter.len() && #[trigger] shorter[i].token_id == id && says(
                    shorter[i].outcome,
                    up,
                ) && forall|j: int|
                    i < j < shorter.len() ==> !says(#[trigger] shorter[j].outcome, up);
            assert(tokens[i].token_id == id);
            assert forall|j: int| i < j < tokens.len() implies !says(
                #[trigger] tokens[j].outcome,
                up,
            ) by {
                if j < end {
                    assert(shorter[j] == tokens[j]);
                }
            }
        } else {
            assert forall|j: int| 0 <= j < tokens.len() implies !says(
                #[trigger] tokens[j].outcome,
                up,
            ) by {
                if j < end {
                    assert(shorter[j] == tokens[j]);
                }
            }
        }
    }
}

/// A market in order is entered: found active and open while its five minutes
/// run, with both tokens, no resting order for either, the split done and both
/// BUY orders taken, it has its cycle, which holds what the answers said.
pub proof fn a_market_in_order_is_entered(
    strategy: StrategyView,
    config: StrategyConfig,
    period: i64,
    now: i64,
    market: Market,
    details: MarketDetails,
    resting: Option<Vec<OpenOrder>>,
    hash: String,
    up: OrderResponse,
    down: OrderResponse,
)
    requires
        !config.simulation_mode,
        market.active,
        !market.closed,
        period <= now,
        now < period + 300,
        0 <= period <= crate::orders::LATEST_INSTANT,
        last_token(details.deep_view().tokens, true) is Some,
        last_token(details.deep_view().tokens, false) is Some,
        resting is Some ==> forall|i: int|
            0 <= i < resting->0@.len() ==> #[trigger] resting->0@[i].token_id@ != last_token(
                details.deep_view().tokens,
                true,
            )->0 && resting->0@[i].token_id@ != last_token(details.deep_view().tokens, false)->0,
    ensures
        ({
            let answers = seq![
                EntryAnswer::Found(Some(market)),
                EntryAnswer::Details(Some(details)),
                EntryAnswer::Resting(resting),
                EntryAnswer::Divided(Ok(hash)),
                EntryAnswer::Bought(Some(up)),
                EntryAnswer::Bought(Some(down)),
            ];
            let tokens = details.deep_view().tokens;
            let (after, end) = entry_run(
                strategy,
                config,
                true,
                StageView::LookUp { period, now },
                answers,
            );
            &&& end is Opened
            &&& after == (StrategyView { state: after.state, ..strategy })
            &&& after.state matches Some(cycle) && {
                &&& cycle.condition_id == market.condition_id@
                &&& Some(cycle.up_token_id) == last_token(tokens, true)
                &&& Some(cycle.down_token_id) == last_token(tokens, false)
                &&& cycle.up_order_id == up.order_id.deep_view()
                &&& cycle.down_order_id == down.order_id.deep_view()
                &&& cycle.up_buy_price == config.buy_price
                &&& cycle.down_buy_price == config.buy_price
                &&& cycle.split_tx_hash == Some(hash@)
                &&& cycle.market_period_start == period
                &&& cycle.order_placed_at == now
                &&& cycle.expiry == period + 300
            }
        }),
{
    reveal_with_fuel(entry_run, 7);
    let answers = seq![
        EntryAnswer::Found(Some(market)),
        EntryAnswer::Details(Some(details)),
        EntryAnswer::Resting(resting),
        EntryAnswer::Divided(Ok(hash)),
        EntryAnswer::Bought(Some(up)),
        EntryAnswer::Bought(Some(down)),
    ];
    let a1 = answers.drop_first();
    let a2 = a1.drop_first();
    let a3 = a2.drop_first();
    let a4 = a3.drop_first();
    let a5 = a4.drop_first();
    assert(a1[0] == answers[1] && a2[0] == answers[2] && a3[0] == answers[3] && a4[0]
        == answers[4] && a5[0] == answers[5]);
    assert(a5.len() == 1);
}

/// The same where nothing is split: in simulation, and at fixed prices. The
/// resting orders and the split are then not asked for.
pub proof fn a_market_in_order_is_entered_without_a_split(
    strategy: StrategyView,
    config: StrategyConfig,
    splits: bool,
    period: i64,
    now: i64,
    market: Market,
    details: MarketDetails,
    up: OrderResponse,
    down: OrderResponse,
)
    requires
        config.simulation_mode || !splits,
        market.active,
        !market.closed,
        period <= now,
        now < period + 300,
        0 <= period <= crate::orders::LATEST_INSTANT,
        last_token(details.deep_view().tokens, true) is Some,
        last_token(details.deep_view().tokens, false) is Some,
    ensures
        ({
            let answers = seq![
                EntryAnswer::Found(Some(market)),
                EntryAnswer::Details(Some(details)),
                EntryAnswer::Bought(Some(up)),
                EntryAnswer::Bought(Some(down)),
            ];
            let tokens = details.deep_view().tokens;
            let (after, end) = entry_run(
                strategy,
                config,
                splits,
                StageView::LookUp { period, now },
                answers,
            );
            &&& end is Opened
            &&& after == (StrategyView { state: after.state, ..strategy })
            &&& after.state matches Some(cycle) && {
                &&& cycle.condition_id == market.condition_id@
                &&& Some(cycle.up_token_id) == last_token(tokens, true)
                &&& Some(cycle.down_token_id) == last_token(tokens, false)
                &&& cycle.up_order_id == up.order_id.deep_view()
                &&& cycle.down_order_id == down.order_id.deep_view()
                &&& cycle.up_buy_price == config.buy_price
                &&& cycle.down_buy_price == config.buy_price
                &&& splits == cycle.split_tx_hash is Some
                &&& cycle.market_period_start == period
                &&& cycle.order_placed_at == now
                &&& cycle.expiry == period + 300
            }
        }),
{
    reveal_with_fuel(entry_run, 5);
    let answers = seq![
        EntryAnswer::Found(Some(market)),
        EntryAnswer::Details(Some(details)),
        EntryAnswer::Bought(Some(up)),
        EntryAnswer::Bought(Some(down)),
    ];
    let a1 = answers.drop_first();
    let a2 = a1.drop_first();
    let a3 = a2.drop_first();
    assert(a1[0] == answers[1] && a2[0] == answers[2] && a3[0] == answers[3]);
    assert(a3.len() == 1);
}

/// A resting order for one of the tokens of the market ends the entry.
pub proof fn a_resting_order_ends_the_entry(
    entry: EntryView,
    orders: Vec<OpenOrder>,
    place: int,
    splits: bool,
)
    requires
        0 <= place < orders@.len(),
        orders@[place].token_id@ == entry.up_token_id || orders@[place].token_id@
            == entry.down_token_id,
    ensures
        StageView::OpenOrders(entry).next(false, splits, EntryAnswer::Resting(Some(orders)))
            is Stopped,
{
    assert(entry.has_order(orders@));
}

/// The split that pays for a cycle is one of its own market, over five dollars.
pub proof fn the_split_is_of_the_market(
    entry: EntryView,
    splits: bool,
    resting: Option<Vec<OpenOrder>>,
)
    ensures
        StageView::OpenOrders(entry).next(false, splits, EntryAnswer::Resting(resting)) matches
            StageView::Split(later, job) ==> {
            &&& later == entry
            &&& job.condition_id == entry.condition_id
            &&& job.amount == 5_000_000
            &&& job.max_retries == 3
            &&& job.initial_delay_ms == 1000
        },
        resting is None ==> StageView::OpenOrders(entry).next(
            false,
            splits,
            EntryAnswer::Resting(resting),
        ) is Split,
{
}

/// An order is this one at fixed prices, which rests until it is cancelled.
pub open spec fn rests(
    order: OrderView,
    token_id: Seq<char>,
    side: Seq<char>,
    size: Seq<char>,
    price: Seq<char>,
) -> bool {
    &&& order.token_id == token_id
    &&& order.side == side
    &&& order.size == size
    &&& order.price == price
    &&& order.order_type == "LIMIT"@
    &&& order.time_in_force is None
    &&& order.expire_after is None
}

/// At fixed prices a trade that brings BUY shares on chain adds them to the side
/// that it names and to no other, and where they are the first of a side without
/// a SELL order it sells all shares of that side: the Up token for Up, the Down
/// token for Down, at 50 cents. Any other trade changes nothing.
pub proof fn shares_on_chain_sell_their_own_side(
    cycle: CycleView,
    simulation: bool,
    report: TradeReport,
    now: i64,
)
    ensures
        ({
            let (after, sell) = cycle.after_report(simulation, report, now);
            let name = lowercase(report.outcome->0@);
            let brings = report.is_buy && (report.status == TradeStatus::Mined || report.status
                == TradeStatus::Confirmed) && report.size.mantissa > 0 && report.outcome is Some;
            let up = brings && name == "up"@;
            let down = brings && name == "down"@;
            let size = decimal_micros(report.size.mantissa as int, report.size.scale as nat);
            let sells_up = up && !cycle.up_mined && cycle.up_sell_order_id is None;
            let sells_down = down && !cycle.down_mined && cycle.down_sell_order_id is None;
            &&& report.outcome is Some ==> {
                &&& after.up_mined == (cycle.up_mined || up)
                &&& after.down_mined == (cycle.down_mined || down)
                &&& up && i64::MIN <= cycle.up_shares_received + size <= i64::MAX
                    ==> after.up_shares_received == cycle.up_shares_received + size
                &&& down && i64::MIN <= cycle.down_shares_received + size <= i64::MAX
                    ==> after.down_shares_received == cycle.down_shares_received + size
                &&& !up ==> after.up_shares_received == cycle.up_shares_received
                &&& !down ==> after.down_shares_received == cycle.down_shares_received
                &&& sell is Some == (sells_up || sells_down)
                &&& sells_up ==> sell->0.outcome == Outcome::Up
                &&& sells_down ==> sell->0.outcome == Outcome::Down
                &&& sell is Some ==> sell->0.placement is Simulated == simulation
                &&& sells_up && !simulation ==> rests(
                    sell->0.placement->Send_0,
                    cycle.up_token_id,
                    "SELL"@,
                    amount_text(after.up_shares_received as int),
                    cents_text(500_000),
                )
                &&& sells_down && !simulation ==> rests(
                    sell->0.placement->Send_0,
                    cycle.down_token_id,
                    "SELL"@,
                    amount_text(after.down_shares_received as int),
                    cents_text(500_000),
                )
            }
            &&& after == (CycleView {
                up_mined: after.up_mined,
                down_mined: after.down_mined,
                up_shares_received: after.up_shares_received,
                down_shares_received: after.down_shares_received,
                ..cycle
            })
        }),
{
    reveal_strlit("up");
    reveal_strlit("down");
    assert("up"@.len() != "down"@.len());
    lemma_micros_in_range(report.size);
}

/// At fixed prices a matched order that says its size fills the side that it
/// names, and nothing else changes.
pub proof fn a_matched_order_fills_its_side_at_fixed_prices(cycle: CycleView, order: OrderUpdate)
    ensures
        ({
            let name = lowercase(order.outcome->0@);
            let counts = order.matched && order.size_matched is Some && order.outcome is Some;
            cycle.after_order_report(order) == (CycleView {
                up_matched: cycle.up_matched || counts && name == "up"@,
                down_matched: cycle.down_matched || counts && name == "down"@,
                ..cycle
            })
        }),
{
    reveal_strlit("up");
    reveal_strlit("down");
    assert("up"@.len() != "down"@.len());
}

/// At fixed prices a side with shares on chain and no SELL order has one made up
/// for: the configured shares of its own token at 50 cents; any other side has
/// none.
pub proof fn a_missing_sell_is_of_its_own_side(
    before: StrategyView,
    config: StrategyConfig,
    now: i64,
)
    ensures
        ({
            let up = before.made_up_sell(config, Outcome::Up, now);
            let down = before.made_up_sell(config, Outcome::Down, now);
            let size = amount_text(config.shares as int);
            let price = amount_text(rounded_price(500_000));
            &&& up is Some == (before.state is Some && before.state->0.up_mined
                && before.state->0.up_sell_order_id is None)
            &&& down is Some == (before.state is Some && before.state->0.down_mined
                && before.state->0.down_sell_order_id is None)
            &&& up is Some ==> up->0 is Simulated == config.simulation_mode
            &&& down is Some ==> down->0 is Simulated == config.simulation_mode
            &&& up is Some && !config.simulation_mode ==> rests(
                up->0->Send_0,
                before.state->0.up_token_id,
                "SELL"@,
                size,
                price,
            )
            &&& down is Some && !config.simulation_mode ==> rests(
                down->0->Send_0,
                before.state->0.down_token_id,
                "SELL"@,
                size,
                price,
            )
        }),
{
}

/// The BUY order of a side at fixed prices is for the token of that side, over
/// the configured shares at 49 cents.
pub proof fn each_side_is_bought_at_the_fixed_price(
    entry: EntryView,
    config: StrategyConfig,
    now: i64,
)
    ensures
        ({
            let up = entry.fixed_buy(config, Outcome::Up, now);
            let down = entry.fixed_buy(config, Outcome::Down, now);
            let size = amount_text(config.shares as int);
            let price = amount_text(rounded_price(490_000));
            &&& up is Simulated == config.simulation_mode
            &&& down is Simulated == config.simulation_mode
            &&& !config.simulation_mode ==> rests(
                up->Send_0,
                entry.up_token_id,
                "BUY"@,
                size,
                price,
            )
            &&& !config.simulation_mode ==> rests(
                down->Send_0,
                entry.down_token_id,
                "BUY"@,
                size,
                price,
            )
        }),
{
}

/// A look at a cycle at fixed prices fills each side on the word of the exchange
/// or on its own price, and notes the SELL order of a side that missed one.
/// Nothing else changes.
pub proof fn a_look_notes_what_it_brought(cycle: CycleView, replies: PassReplies)
    ensures
        ({
            let after = after_pass(cycle, replies);
            let fills = |price: Option<DecimalParts>|
                price is Some && price_fills(
                    decimal_micros(price->0.mantissa as int, price->0.scale as nat),
                    490_000,
                );
            let (up_said, down_said) = match replies.filled {
                Some((up, down)) => (up, down),
                None => (false, false),
            };
            let sells_up = cycle.up_mined && cycle.up_sell_order_id is None && replies.up_sell
                is Some;
            let sells_down = cycle.down_mined && cycle.down_sell_order_id is None
                && replies.down_sell is Some;
            &&& after.up_matched == (cycle.up_matched || up_said || fills(replies.up_price))
            &&& after.down_matched == (cycle.down_matched || down_said || fills(
                replies.down_price,
            ))
            &&& sells_up ==> after.up_sell_order_id == Some(
                match replies.up_sell->0.order_id {
                    Some(id) => id@,
                    None => Seq::empty(),
                },
            )
            &&& sells_down ==> after.down_sell_order_id == Some(
                match replies.down_sell->0.order_id {
                    Some(id) => id@,
                    None => Seq::empty(),
                },
            )
            &&& !sells_up ==> after.up_sell_order_id == cycle.up_sell_order_id
            &&& !sells_down ==> after.down_sell_order_id == cycle.down_sell_order_id
            &&& after == (CycleView {
                up_matched: after.up_matched,
                down_matched: after.down_matched,
                up_sell_order_id: after.up_sell_order_id,
                down_sell_order_id: after.down_sell_order_id,
                ..cycle
            })
        }),
{
    if let Some(parts) = replies.up_price {
        lemma_micros_in_range(parts);
    }
    if let Some(parts) = replies.down_price {
        lemma_micros_in_range(parts);
    }
}

/// At fixed prices a finished cycle is put away without a merge: the position is
/// kept where a side is on chain, and nothing else changes. The price is asked
/// of a side that neither counts as filled nor was just called so, by its own
/// token.
pub proof fn a_finished_cycle_is_put_away_at_fixed_prices(
    before: StrategyView,
    config: StrategyConfig,
    period: i64,
    now: i64,
    up: bool,
    down: bool,
)
    ensures
        before.state matches Some(cycle) ==> {
            let (after, step) = before.looked_at_fixed(config, period, now);
            &&& now <= cycle.expiry ==> after == before && step is CheckFills
            &&& now > cycle.expiry ==> {
                &&& step == MarketStepView::Expired(None)
                &&& after == (StrategyView { state: None, trades: after.trades, ..before })
                &&& cycle.up_mined || cycle.down_mined ==> after.trades == before.trades.insert(
                    cycle.condition_id,
                    cycle.position(config.shares),
                )
                &&& !cycle.up_mined && !cycle.down_mined ==> after.trades == before.trades
            }
            &&& before.asked_fixed_price(Outcome::Up, Some((up, down))) == if cycle.up_matched
                || up {
                None
            } else {
                Some(cycle.up_token_id)
            }
            &&& before.asked_fixed_price(Outcome::Down, Some((up, down))) == if cycle.down_matched
                || down {
                None
            } else {
                Some(cycle.down_token_id)
            }
            &&& before.asked_fixed_price(Outcome::Up, None) == before.asked_fixed_price(
                Outcome::Up,
                Some((false, false)),
            )
            &&& before.asked_fixed_price(Outcome::Down, None) == before.asked_fixed_price(
                Outcome::Down,
                Some((false, false)),
            )
        },
        before.state is None && period >= 0 ==> before.looked_at_fixed(config, period, now) == (
            before,
            MarketStepView::Discover("btc-updown-5m-"@ + nat_text(period as nat)),
        ),
        before.state is None ==> before.asked_fixed_price(Outcome::Up, Some((up, down))) is None
            && before.asked_fixed_price(Outcome::Down, Some((up, down))) is None,
{
}

/// At fixed prices a message reaches the cycle that runs and no other part of
/// the strategy, and so does what a look brought.
pub proof fn messages_reach_the_cycle_at_fixed_prices(
    before: StrategyView,
    simulation: bool,
    event: crate::fixed_price::UserEvent,
    now: i64,
    replies: PassReplies,
    up_sell: Option<ResponseView>,
)
    ensures
        ({
            let (after, sell) = before.after_fixed_event(simulation, event, now);
            &&& before.state is None || event is Other ==> after == before && sell is None
            &&& before.state is Some && event is Order ==> sell is None && after == (StrategyView {
                state: Some(before.state->0.after_order_report(event->Order_0)),
                ..before
            })
            &&& before.state is Some && event is Trade ==> ({
                let (cycle, order) = before.state->0.after_report(simulation, event->Trade_0, now);
                after == (StrategyView { state: Some(cycle), ..before }) && sell == order
            })
        }),
        before.state is None ==> before.looked_through(replies) == before && before.look_failed(
            up_sell,
        ) == before,
        before.state matches Some(cycle) ==> {
            let kept = before.look_failed(up_sell).state->0;
            &&& before.looked_through(replies) == (StrategyView {
                state: Some(after_pass(cycle, replies)),
                ..before
            })
            &&& before.look_failed(up_sell) == (StrategyView {
                state: Some(CycleView { up_sell_order_id: kept.up_sell_order_id, ..cycle }),
                ..before
            })
            &&& cycle.up_sell_order_id is Some || !cycle.up_mined || up_sell is None
                ==> kept.up_sell_order_id == cycle.up_sell_order_id
            &&& cycle.up_sell_order_id is None && cycle.up_mined && up_sell is Some
                && up_sell->0.order_id is Some ==> kept.up_sell_order_id == up_sell->0.order_id
            &&& cycle.up_sell_order_id is None && cycle.up_mined && up_sell is Some
                ==> kept.up_sell_order_id is Some
        },
{
}

/// What came of a SELL order is noted in the cycle that runs, on the side that it
/// was for, and a pass that ends leaves there the trades that keep waiting, and
/// those only. Nothing else changes.
pub proof fn answers_reach_the_cycle(
    before: StrategyView,
    reply: Option<ResponseView>,
    scan: ScanView,
    config: StrategyConfig,
    now: i64,
)
    ensures
        before.state is None ==> {
            &&& before.sell_noted(Outcome::Up, reply) == before
            &&& before.sell_noted(Outcome::Down, reply) == before
            &&& before.pass_ended(scan) == before
            &&& before.next_sell(scan, config, now) == (scan, None::<SellView>)
        },
        before.state matches Some(cycle) ==> {
            let name = match reply {
                Some(response) => Some(
                    match response.order_id {
                        Some(id) => id,
                        None => Seq::empty(),
                    },
                ),
                None => None,
            };
            &&& before.sell_noted(Outcome::Up, reply) == (StrategyView {
                state: Some(
                    CycleView {
                        up_sell_order_id: if reply is Some {
                            name
                        } else {
                            cycle.up_sell_order_id
                        },
                        ..cycle
                    },
                ),
                ..before
            })
            &&& before.sell_noted(Outcome::Down, reply) == (StrategyView {
                state: Some(
                    CycleView {
                        down_sell_order_id: if reply is Some {
                            name
                        } else {
                            cycle.down_sell_order_id
                        },
                        ..cycle
                    },
                ),
                ..before
            })
            &&& before.pass_ended(scan) == (StrategyView {
                state: Some(CycleView { pending_trades: scan.remaining, ..cycle }),
                ..before
            })
            &&& before.next_sell(scan, config, now) == scan.advanced(cycle, config, now)
        },
{
}

/// A pass over trades of which one calls for a SELL order does not end without
/// handing one out.
pub proof fn a_pass_misses_no_sell(
    scan: ScanView,
    cycle: CycleView,
    config: StrategyConfig,
    place: int,
    now: i64,
)
    requires
        0 <= place < scan.waiting.len(),
        cycle.sell_for_pending(config, scan.waiting[place], now) is Some,
    ensures
        scan.advanced(cycle, config, now).1 is Some,
        scan.advanced(cycle, config, now).0.waiting.len() >= scan.waiting.len() - place - 1,
{
    a_pass_takes_the_trades_in_turn(scan, cycle, config, now);
}

/// A simulated SELL order goes by the side and the time.
pub proof fn a_simulated_sell_says_its_side(
    outcome: Outcome,
    token_id: Seq<char>,
    shares: int,
    price: int,
    now: i64,
)
    requires
        now >= 0,
    ensures
        sell_placement(true, outcome, token_id, shares, price, now) matches
            PlacementView::Simulated(answer) && {
            &&& outcome == Outcome::Up ==> answer.order_id == Some(
                "SIM-SELL-"@ + "UP"@ + "-"@ + nat_text(now as nat),
            )
            &&& outcome == Outcome::Down ==> answer.order_id == Some(
                "SIM-SELL-"@ + "DOWN"@ + "-"@ + nat_text(now as nat),
            )
            &&& answer.status == "SIMULATED"@
        },
{
}

/// Each step of an entry that fails ends it for its own reason, and none of them
/// changes the strategy.
pub proof fn an_entry_ends_for_its_reason(
    strategy: StrategyView,
    buy_price: i64,
    simulation: bool,
    splits: bool,
    period: i64,
    now: i64,
    condition_id: Seq<char>,
    entry: EntryView,
    up: ResponseView,
    error: String,
)
    ensures
        ({
            let look_up = StageView::LookUp { period, now };
            let tokens = StageView::Tokens { condition_id, period, now };
            let job = crate::entry::split_job(entry.condition_id);
            let none = EntryAnswer::Bought(None);
            &&& look_up.next(simulation, splits, EntryAnswer::Found(None)) == StageView::Stopped(
                EntryEnd::NoMarket,
            )
            &&& tokens.next(simulation, splits, EntryAnswer::Details(None)) == StageView::Stopped(
                EntryEnd::NoDetails,
            )
            &&& StageView::Split(entry, job).next(
                simulation,
                splits,
                EntryAnswer::Divided(Err(error)),
            ) == StageView::Stopped(EntryEnd::SplitFailed)
            &&& StageView::BuyUp(entry).next(simulation, splits, none) == StageView::Stopped(
                EntryEnd::BuyFailed,
            )
            &&& StageView::BuyDown(entry, up).next(simulation, splits, none)
                == StageView::Stopped(EntryEnd::BuyFailed)
            &&& strategy.entered(buy_price, StageView::BuyUp(entry), none) == strategy
            &&& strategy.entered(buy_price, StageView::BuyDown(entry, up), none) == strategy
        }),
{
}

/// The profit of a run is that of its settled positions together, in whatever
/// order they are settled.
pub proof fn profits_add_up(
    before: StrategyView,
    first: SettlementView,
    second: SettlementView,
)
    requires
        i128::MIN <= before.total_profit + first.pnl <= i128::MAX,
        i128::MIN <= before.total_profit + second.pnl <= i128::MAX,
        i128::MIN <= before.total_profit + first.pnl + second.pnl <= i128::MAX,
    ensures
        before.settled(first).settled(second).total_profit == before.total_profit + first.pnl
            + second.pnl,
        before.settled(first).settled(second).total_profit == before.settled(second).settled(
            first,
        ).total_profit,
{
}

} // verus!
