//! Orders: what is sent to the exchange, and what stands for it in simulation.
use vstd::prelude::*;

use crate::config::StrategyConfig;
use crate::models::{OrderRequest, OrderResponse, OrderView, ResponseView};
use crate::money::{
    amount_text, cents_text, round_price, rounded_price, write_amount, write_cents,
};
use crate::text::{int_text, join, write_int};

verus! {

/// How long an order rests at most, in seconds.
pub const GTD_DURATION_SECS: i64 = 360;

/// The last second that the calendar reaches (year 262142).
pub const LATEST_INSTANT: i64 = 8_210_266_876_799;

/// One of the two outcomes of a market.
#[derive(Debug, Clone, Copy, PartialEq, Eq, Structural)]
pub enum Outcome {
    Up,
    Down,
}

impl Outcome {
    /// The outcome in capital letters.
    pub open spec fn label(self) -> Seq<char> {
        match self {
            Outcome::Up => "UP"@,
            Outcome::Down => "DOWN"@,
        }
    }

    /// The outcome in capital letters.
    pub fn name(&self) -> (r: &'static str)
        ensures
            r@ == self.label(),
    {
        match self {
            Outcome::Up => "UP",
            Outcome::Down => "DOWN",
        }
    }
}

/// How an order is carried out.
#[derive(Debug)]
pub enum Placement {
    /// It is sent to the exchange.
    Send(OrderRequest),
    /// Nothing is sent; this stands for the answer.
    Simulated(OrderResponse),
}

/// What a [`Placement`] says.
#[verifier::ext_equal]
pub enum PlacementView {
    Send(OrderView),
    Simulated(ResponseView),
}

impl DeepView for Placement {
    type V = PlacementView;

    open spec fn deep_view(&self) -> PlacementView {
        match self {
            Placement::Send(order) => PlacementView::Send(order.deep_view()),
            Placement::Simulated(response) => PlacementView::Simulated(response.deep_view()),
        }
    }
}

/// A limit order that lapses [`GTD_DURATION_SECS`] after `now`.
pub open spec fn limit_order(
    token_id: Seq<char>,
    side: Seq<char>,
    size: Seq<char>,
    price: Seq<char>,
    now: i64,
) -> OrderView {
    OrderView {
        token_id,
        side,
        size,
        price,
        order_type: "LIMIT"@,
        time_in_force: Some("GTD"@),
        expire_after: Some((now + GTD_DURATION_SECS) as i64),
    }
}

/// The answer that stands for an order in simulation.
pub open spec fn simulated(order_id: Seq<char>) -> ResponseView {
    ResponseView {
        order_id: Some(order_id),
        status: "SIMULATED"@,
        message: Some("Order simulated"@),
    }
}

/// A limit order over the configured shares at `price`, rounded to a price that
/// the exchange takes.
pub open spec fn limit_placement(
    config: StrategyConfig,
    token_id: Seq<char>,
    side: Seq<char>,
    price: int,
    now: i64,
) -> PlacementView {
    if config.simulation_mode {
        PlacementView::Simulated(simulated("SIM-"@ + side + "-"@ + int_text(now as int)))
    } else {
        PlacementView::Send(
            limit_order(
                token_id,
                side,
                amount_text(config.shares as int),
                amount_text(rounded_price(price)),
                now,
            ),
        )
    }
}

/// The SELL order that answers a filled BUY: `shares` of the token, at the
/// price with two digits after the point.
pub open spec fn sell_placement(
    simulation: bool,
    outcome: Outcome,
    token_id: Seq<char>,
    shares: int,
    price: int,
    now: i64,
) -> PlacementView {
    if simulation {
        PlacementView::Simulated(
            simulated("SIM-SELL-"@ + outcome.label() + "-"@ + int_text(now as int)),
        )
    } else {
        PlacementView::Send(
            limit_order(
                token_id,
                "SELL"@,
                amount_text(shares),
                cents_text(price),
                now,
            ),
        )
    }
}

/// Builds a limit order that lapses [`GTD_DURATION_SECS`] after `now`.
fn build_order(token_id: &str, side: &str, size: String, price: String, now: i64) -> (r:
    OrderRequest)
    requires
        0 <= now <= LATEST_INSTANT,
    ensures
        r.deep_view() == limit_order(token_id@, side@, size@, price@, now),
{
    OrderRequest {
        token_id: token_id.to_owned(),
        side: side.to_owned(),
        size,
        price,
        order_type: "LIMIT".to_owned(),
        time_in_force: Some("GTD".to_owned()),
        expire_after: Some(now + GTD_DURATION_SECS),
    }
}

/// The answer that stands for an order in simulation.
pub fn simulate(order_id: String) -> (r: OrderResponse)
    ensures
        r.deep_view() == simulated(order_id@),
{
    OrderResponse {
        order_id: Some(order_id),
        status: "SIMULATED".to_owned(),
        message: Some("Order simulated".to_owned()),
    }
}

/// A limit order over the configured shares, sent or simulated.
pub fn place_limit_order(
    config: &StrategyConfig,
    token_id: &str,
    side: &str,
    price: i64,
    now: i64,
) -> (r: Placement)
    requires
        0 <= now <= LATEST_INSTANT,
    ensures
        r.deep_view() == limit_placement(*config, token_id@, side@, price as int, now),
{
    if config.simulation_mode {
        let mut order_id = join("SIM-", side);
        order_id.append("-");
        order_id.append(write_int(now).as_str());
        Placement::Simulated(simulate(order_id))
    } else {
        let size = write_amount(config.shares);
        let shown = write_amount(round_price(price));
        Placement::Send(build_order(token_id, side, size, shown, now))
    }
}

/// The SELL order that answers a filled BUY, sent or simulated.
pub fn place_sell_order(
    simulation: bool,
    outcome: Outcome,
    token_id: &str,
    shares: i64,
    price: i64,
    now: i64,
) -> (r: Placement)
    requires
        0 <= now <= LATEST_INSTANT,
    ensures
        r.deep_view() == sell_placement(
            simulation,
            outcome,
            token_id@,
            shares as int,
            price as int,
            now,
        ),
{
    if simulation {
        let mut order_id = join("SIM-SELL-", outcome.name());
        order_id.append("-");
        order_id.append(write_int(now).as_str());
        Placement::Simulated(simulate(order_id))
    } else {
        let size = write_amount(shares);
        let shown = write_cents(price);
        Placement::Send(build_order(token_id, "SELL", size, shown, now))
    }
}

} // verus!
