use btc5min_limit_order::config::Config;
use btc5min_limit_order::cycle::{OrderUpdate, TradeStatus};
use btc5min_limit_order::entry::{Entry, EntryAnswer, EntryStage};
use btc5min_limit_order::fixed_price::{
    PassReplies, PreLimitStrategy, TradeReport, UserEvent, BUY_PRICE, SELL_PRICE,
};
use btc5min_limit_order::models::{
    Market, MarketDetails, MarketToken, OrderRequest, OrderResponse, PreLimitOrderState,
};
use btc5min_limit_order::money::{cost_of, DecimalParts};
use btc5min_limit_order::orders::{Outcome, Placement};
use btc5min_limit_order::strategy::MarketStep;

const PERIOD: i64 = 1735689600;
const NOW: i64 = 1735689610;

fn response(id: &str) -> OrderResponse {
    OrderResponse { order_id: Some(id.to_string()), status: String::new(), message: None }
}

fn entry() -> Entry {
    Entry {
        condition_id: "0xcondition".to_string(),
        up_token_id: "11".to_string(),
        down_token_id: "22".to_string(),
        period_start: PERIOD,
        placed_at: NOW,
        split_tx_hash: None,
    }
}

fn idle(simulation_mode: bool) -> PreLimitStrategy {
    let mut config = Config::default();
    config.strategy.simulation_mode = simulation_mode;
    PreLimitStrategy::new(config)
}

fn trading(simulation_mode: bool) -> PreLimitStrategy {
    let mut strategy = idle(simulation_mode);
    let mut stage = EntryStage::BuyUp(entry());
    for id in ["0xup", "0xdown"] {
        stage = strategy.enter(stage, EntryAnswer::Bought(Some(response(id))));
    }
    assert!(matches!(stage, EntryStage::Opened));
    strategy
}

fn state(strategy: &PreLimitStrategy) -> &PreLimitOrderState {
    strategy.inner.state.as_ref().unwrap()
}

fn mined(outcome: &str, tenths: i128, status: TradeStatus) -> UserEvent {
    UserEvent::Trade(TradeReport {
        status,
        is_buy: true,
        outcome: Some(outcome.to_string()),
        size: DecimalParts { mantissa: tenths, scale: 1 },
    })
}

fn sent(placement: Placement) -> OrderRequest {
    match placement {
        Placement::Send(order) => order,
        Placement::Simulated(_) => panic!("the order is sent"),
    }
}

fn nothing() -> PassReplies {
    PassReplies { filled: None, up_price: None, down_price: None, up_sell: None, down_sell: None }
}

#[test]
fn the_prices_are_49_and_50_cents() {
    assert_eq!(BUY_PRICE, 490_000);
    assert_eq!(SELL_PRICE, 500_000);
    let strategy = idle(false);
    let order = sent(strategy.buy_order(&entry(), Outcome::Up, NOW));
    assert_eq!(order.token_id, "11");
    assert_eq!(order.side, "BUY");
    assert_eq!(order.size, "5");
    assert_eq!(order.price, "0.49");
    assert_eq!(order.order_type, "LIMIT");
    assert!(order.time_in_force.is_none() && order.expire_after.is_none());
}

#[test]
fn five_shares_earn_five_cents() {
    let shares = 5_000_000;
    assert_eq!(cost_of(shares, SELL_PRICE) - cost_of(shares, BUY_PRICE), 50_000_000_000);
}

#[test]
fn a_simulated_buy_is_not_sent() {
    match idle(true).buy_order(&entry(), Outcome::Down, NOW) {
        Placement::Simulated(response) => {
            assert_eq!(response.order_id.as_deref(), Some("SIM-BUY-1735689610"));
        }
        Placement::Send(_) => panic!("nothing is sent in simulation"),
    }
}

#[test]
fn a_matched_order_does_not_sell_yet() {
    let mut strategy = trading(false);
    let event = UserEvent::Order(OrderUpdate {
        matched: true,
        size_matched: Some(DecimalParts { mantissa: 5, scale: 0 }),
        outcome: Some("Up".to_string()),
        associate_trades: None,
    });
    assert!(strategy.handle_clob_subscription_direct(&event, NOW).is_none());
    assert!(state(&strategy).up_matched);
    assert!(!state(&strategy).down_matched);
    assert_eq!(state(&strategy).up_shares_received, 0);
    assert!(strategy
        .handle_clob_subscription_direct(&mined("Up", 50, TradeStatus::Matched), NOW)
        .is_none());
    assert!(!state(&strategy).up_mined);
}

#[test]
fn the_first_shares_on_chain_are_sold() {
    let mut strategy = trading(false);
    let step = strategy
        .handle_clob_subscription_direct(&mined("up", 35, TradeStatus::Mined), NOW)
        .unwrap();
    assert_eq!(step.outcome, Outcome::Up);
    let order = sent(step.placement);
    assert_eq!(order.token_id, "11");
    assert_eq!(order.side, "SELL");
    assert_eq!(order.size, "3.5");
    assert_eq!(order.price, "0.50");
    assert!(order.time_in_force.is_none());
    assert!(strategy
        .handle_clob_subscription_direct(&mined("up", 15, TradeStatus::Confirmed), NOW)
        .is_none());
    assert_eq!(state(&strategy).up_shares_received, 5_000_000);
    let step = strategy
        .handle_clob_subscription_direct(&mined("DOWN", 50, TradeStatus::Confirmed), NOW)
        .unwrap();
    assert_eq!(step.outcome, Outcome::Down);
}

#[test]
fn other_trades_bring_no_shares() {
    let mut strategy = trading(false);
    assert!(strategy
        .handle_clob_subscription_direct(&mined("up", 0, TradeStatus::Mined), NOW)
        .is_none());
    assert!(strategy
        .handle_clob_subscription_direct(&mined("sideways", 5, TradeStatus::Mined), NOW)
        .is_none());
    let nameless = UserEvent::Trade(TradeReport {
        status: TradeStatus::Mined,
        is_buy: true,
        outcome: None,
        size: DecimalParts { mantissa: 5, scale: 0 },
    });
    assert!(strategy.handle_clob_subscription_direct(&nameless, NOW).is_none());
    let sold = UserEvent::Trade(TradeReport {
        status: TradeStatus::Mined,
        is_buy: false,
        outcome: Some("up".to_string()),
        size: DecimalParts { mantissa: 5, scale: 0 },
    });
    assert!(strategy.handle_clob_subscription_direct(&sold, NOW).is_none());
    assert!(strategy.handle_clob_subscription_direct(&UserEvent::Other, NOW).is_none());
    assert!(!state(&strategy).up_mined && !state(&strategy).down_mined);
}

#[test]
fn a_simulated_sell_is_not_sent() {
    let mut strategy = trading(true);
    let step = strategy
        .handle_clob_subscription_direct(&mined("down", 50, TradeStatus::Mined), NOW)
        .unwrap();
    match step.placement {
        Placement::Simulated(response) => {
            assert_eq!(response.order_id.as_deref(), Some("SIM-SELL-DOWN-1735689610"));
        }
        Placement::Send(_) => panic!("nothing is sent in simulation"),
    }
}

#[test]
fn a_missed_sell_is_made_up_for() {
    let mut strategy = trading(false);
    assert!(strategy.missed_sell(Outcome::Up, NOW).is_none());
    strategy.handle_clob_subscription_direct(&mined("up", 35, TradeStatus::Mined), NOW);
    let order = sent(strategy.missed_sell(Outcome::Up, NOW).unwrap());
    assert_eq!(order.side, "SELL");
    assert_eq!(order.size, "5");
    assert_eq!(order.price, "0.5");
    assert!(strategy.missed_sell(Outcome::Down, NOW).is_none());
    let mut replies = nothing();
    replies.up_sell = Some(response("0xsell"));
    strategy.pass_finished(replies);
    assert_eq!(state(&strategy).up_sell_order_id.as_deref(), Some("0xsell"));
    assert!(strategy.missed_sell(Outcome::Up, NOW).is_none());
    strategy.handle_clob_subscription_direct(&mined("down", 35, TradeStatus::Mined), NOW);
    let order = sent(strategy.missed_sell(Outcome::Down, NOW).unwrap());
    assert_eq!(order.token_id, "22");
    assert_eq!(order.side, "SELL");
    let mut replies = nothing();
    replies.up_sell = Some(response("0xagain"));
    replies.down_sell = Some(response("0xother"));
    strategy.pass_finished(replies);
    assert_eq!(state(&strategy).up_sell_order_id.as_deref(), Some("0xsell"));
    assert_eq!(state(&strategy).down_sell_order_id.as_deref(), Some("0xother"));
    assert!(strategy.missed_sell(Outcome::Down, NOW).is_none());
}

#[test]
fn a_side_is_sold_once() {
    let mut strategy = trading(false);
    let step = strategy
        .handle_clob_subscription_direct(&mined("up", 35, TradeStatus::Mined), NOW)
        .unwrap();
    strategy.inner.sell_replied(step.outcome, Some(response("0xsell")));
    assert!(strategy.missed_sell(Outcome::Up, NOW).is_none());
    for status in [TradeStatus::Mined, TradeStatus::Confirmed] {
        assert!(strategy
            .handle_clob_subscription_direct(&mined("up", 15, status), NOW)
            .is_none());
        assert!(strategy.missed_sell(Outcome::Up, NOW).is_none());
    }
    // A SELL order that failed is made up for, and reports call for no other.
    let step = strategy
        .handle_clob_subscription_direct(&mined("down", 35, TradeStatus::Mined), NOW)
        .unwrap();
    strategy.inner.sell_replied(step.outcome, None);
    assert!(strategy
        .handle_clob_subscription_direct(&mined("down", 15, TradeStatus::Confirmed), NOW)
        .is_none());
    assert!(strategy.missed_sell(Outcome::Down, NOW).is_some());
    let mut replies = nothing();
    replies.down_sell = Some(response("0xother"));
    strategy.pass_finished(replies);
    assert!(strategy.missed_sell(Outcome::Down, NOW).is_none());
}

#[test]
fn a_look_that_is_broken_off_sells_no_side_twice() {
    let mut strategy = trading(false);
    for outcome in ["up", "down"] {
        strategy.handle_clob_subscription_direct(&mined(outcome, 50, TradeStatus::Mined), NOW);
    }
    assert!(strategy.missed_sell(Outcome::Up, NOW).is_some());
    strategy.look_broken_off(None);
    assert!(strategy.missed_sell(Outcome::Up, NOW).is_some());
    strategy.look_broken_off(Some(response("0xsell")));
    assert!(strategy.missed_sell(Outcome::Up, NOW).is_none());
    assert!(strategy.missed_sell(Outcome::Down, NOW).is_some());
    strategy.look_broken_off(Some(response("0xagain")));
    assert_eq!(state(&strategy).up_sell_order_id.as_deref(), Some("0xsell"));
    let mut idle = idle(false);
    idle.look_broken_off(Some(response("0xsell")));
    assert!(idle.inner.state.is_none());
}

#[test]
fn no_shares_are_split_at_fixed_prices() {
    for simulation_mode in [true, false] {
        let mut strategy = idle(simulation_mode);
        let token = |outcome: &str, id: &str| MarketToken {
            outcome: outcome.to_string(),
            token_id: id.to_string(),
            winner: false,
        };
        let answers = vec![
            EntryAnswer::Found(Some(Market {
                condition_id: "0xcondition".to_string(),
                market_id: None,
                question: String::new(),
                slug: String::new(),
                end_date_iso: None,
                active: true,
                closed: false,
            })),
            EntryAnswer::Details(Some(MarketDetails {
                condition_id: "0xcondition".to_string(),
                question: String::new(),
                tokens: vec![token("Up", "11"), token("Down", "22")],
                active: true,
                closed: false,
                end_date_iso: String::new(),
            })),
            EntryAnswer::Bought(Some(response("0xup"))),
            EntryAnswer::Bought(Some(response("0xdown"))),
        ];
        let mut stage = EntryStage::LookUp { period: PERIOD, now: NOW };
        for answer in answers {
            stage = strategy.enter(stage, answer);
        }
        assert!(matches!(stage, EntryStage::Opened));
        assert!(state(&strategy).split_tx_hash.is_none());
        assert_eq!(state(&strategy).up_buy_price, BUY_PRICE);
    }
}

#[test]
fn a_look_at_a_cycle_notes_fills() {
    let mut strategy = trading(false);
    let filled = Some((true, false));
    assert!(strategy.price_query(Outcome::Up, filled).is_none());
    assert_eq!(strategy.price_query(Outcome::Up, None).as_deref(), Some("11"));
    assert_eq!(strategy.price_query(Outcome::Down, filled).as_deref(), Some("22"));
    let mut replies = nothing();
    replies.filled = filled;
    replies.down_price = Some(DecimalParts { mantissa: 492, scale: 3 });
    strategy.pass_finished(replies);
    assert!(state(&strategy).up_matched && !state(&strategy).down_matched);
    let mut replies = nothing();
    replies.down_price = Some(DecimalParts { mantissa: 4905, scale: 4 });
    strategy.pass_finished(replies);
    assert!(state(&strategy).down_matched);
}

#[test]
fn a_finished_cycle_merges_nothing() {
    let mut strategy = trading(false);
    strategy.handle_clob_subscription_direct(&mined("up", 50, TradeStatus::Mined), NOW);
    assert!(matches!(
        strategy.process_market_at(PERIOD, PERIOD + 300),
        MarketStep::CheckFills
    ));
    assert!(matches!(
        strategy.process_market_at(PERIOD + 300, PERIOD + 301),
        MarketStep::Expired(None)
    ));
    assert!(strategy.inner.state.is_none());
    assert!(strategy.inner.pending_merges.get("0xcondition").is_none());
    assert_eq!(
        strategy.inner.check_market_closure((PERIOD + 300) as u64),
        vec!["0xcondition".to_string()]
    );
    assert!(matches!(strategy.process_market_at(PERIOD, NOW), MarketStep::Discover(_)));
    let (step, period, now) = idle(true).process_market();
    assert!(matches!(step, MarketStep::Discover(_)));
    assert_eq!(period, now - now % 300);
}
