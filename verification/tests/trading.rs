use btc5min_limit_order::config::Config;
use btc5min_limit_order::cycle::{OrderUpdate, PendingScan, SellStep, TradeStatus, TradeUpdate};
use btc5min_limit_order::discovery::TokenError;
use btc5min_limit_order::entry::{Entry, EntryAnswer, EntryEnd, EntryStage};
use btc5min_limit_order::models::{
    Market, MarketDetails, MarketToken, MergeStatus, MergeablePosition, OpenOrder, OrderRequest,
    OrderResponse, PreLimitOrderState,
};
use btc5min_limit_order::money::DecimalParts;
use btc5min_limit_order::orders::{Outcome, Placement};
use btc5min_limit_order::strategy::{
    merge_jobs, EventStep, MarketStep, PreLimitStrategy, UserEvent, Winner,
};

const PERIOD: i64 = 1735689600;
const NOW: i64 = 1735689610;
const LATER: u64 = 1735689900;

fn config(simulation_mode: bool) -> Config {
    let mut config = Config::default();
    config.strategy.simulation_mode = simulation_mode;
    config.strategy.buy_price = 490_000;
    config.strategy.sell_price = 500_000;
    config
}

fn decimal(mantissa: i128, scale: u32) -> DecimalParts {
    DecimalParts { mantissa, scale }
}

fn response(id: &str) -> OrderResponse {
    OrderResponse { order_id: Some(id.to_string()), status: "live".to_string(), message: None }
}

fn entry() -> Entry {
    Entry {
        condition_id: "0xcondition".to_string(),
        up_token_id: "11".to_string(),
        down_token_id: "22".to_string(),
        period_start: PERIOD,
        placed_at: NOW,
        split_tx_hash: Some("0xsplit".to_string()),
    }
}

fn start(strategy: &mut PreLimitStrategy, up: OrderResponse, down: OrderResponse) {
    let stage = EntryStage::BuyUp(entry());
    let stage = strategy.enter(true, stage, EntryAnswer::Bought(Some(up)));
    let stage = strategy.enter(true, stage, EntryAnswer::Bought(Some(down)));
    assert!(matches!(stage, EntryStage::Opened));
}

fn trading(simulation_mode: bool) -> PreLimitStrategy {
    let mut strategy = PreLimitStrategy::new(config(simulation_mode));
    start(&mut strategy, response("0xup"), response("0xdown"));
    strategy
}

fn state(strategy: &PreLimitStrategy) -> &PreLimitOrderState {
    strategy.state.as_ref().unwrap()
}

fn matched(outcome: &str, trades: Vec<&str>) -> UserEvent {
    UserEvent::Order(OrderUpdate {
        matched: true,
        size_matched: Some(decimal(35, 1)),
        outcome: Some(outcome.to_string()),
        associate_trades: Some(trades.into_iter().map(|id| id.to_string()).collect()),
    })
}

fn trade(id: &str, status: TradeStatus) -> UserEvent {
    UserEvent::Trade(TradeUpdate {
        id: id.to_string(),
        status,
        is_buy: true,
        side: "Buy".to_string(),
        outcome: None,
        size: decimal(35, 1),
        price: decimal(49, 2),
    })
}

fn scan(strategy: &mut PreLimitStrategy, event: &UserEvent) -> PendingScan {
    match strategy.handle_clob_subscription_direct(event, NOW) {
        EventStep::Scan(scan) => scan,
        _ => panic!("a matched order starts a pass"),
    }
}

fn sell(strategy: &mut PreLimitStrategy, event: &UserEvent) -> SellStep {
    match strategy.handle_clob_subscription_direct(event, NOW) {
        EventStep::Sell(sell) => sell,
        _ => panic!("a SELL order is called for"),
    }
}

fn sent(placement: Placement) -> OrderRequest {
    match placement {
        Placement::Send(order) => order,
        Placement::Simulated(_) => panic!("the order is sent"),
    }
}

fn token(id: &str, winner: bool) -> MarketToken {
    MarketToken { outcome: String::new(), token_id: id.to_string(), winner }
}

fn closed_market(tokens: Vec<MarketToken>) -> MarketDetails {
    MarketDetails {
        condition_id: "0xcondition".to_string(),
        question: String::new(),
        tokens,
        active: false,
        closed: true,
        end_date_iso: String::new(),
    }
}

#[test]
fn without_a_cycle_the_market_is_looked_up() {
    let mut strategy = PreLimitStrategy::new(config(true));
    match strategy.process_market_at(PERIOD, NOW) {
        MarketStep::Discover(slug) => assert_eq!(slug, "btc-updown-5m-1735689600"),
        _ => panic!("there is no cycle"),
    }
    let (step, period, now) = strategy.process_market();
    assert!(matches!(step, MarketStep::Discover(_)));
    assert_eq!(period, now - now % 300);
}

fn market(active: bool, closed: bool) -> Option<Market> {
    Some(Market {
        condition_id: "0xcondition".to_string(),
        market_id: None,
        question: String::new(),
        slug: String::new(),
        end_date_iso: None,
        active,
        closed,
    })
}

fn look_up() -> EntryStage {
    EntryStage::LookUp { period: PERIOD, now: NOW }
}

fn details(outcomes: Vec<(&str, &str)>) -> EntryAnswer {
    let mut details = closed_market(
        outcomes
            .into_iter()
            .map(|(outcome, id)| MarketToken {
                outcome: outcome.to_string(),
                token_id: id.to_string(),
                winner: false,
            })
            .collect(),
    );
    details.active = true;
    details.closed = false;
    EntryAnswer::Details(Some(details))
}

fn both_tokens() -> EntryAnswer {
    details(vec![("Up", "11"), ("Down", "22")])
}

fn bought(id: &str) -> EntryAnswer {
    EntryAnswer::Bought(Some(response(id)))
}

fn resting(ids: Vec<&str>) -> EntryAnswer {
    let order = |token_id: &str| OpenOrder {
        order_id: String::new(),
        market: None,
        side: String::new(),
        size: String::new(),
        price: String::new(),
        status: String::new(),
        fill_size: None,
        avg_fill_price: None,
        token_id: token_id.to_string(),
    };
    EntryAnswer::Resting(Some(ids.into_iter().map(order).collect()))
}

/// Hands the answers in one after the other and says where that ends.
fn run(
    strategy: &mut PreLimitStrategy,
    splits: bool,
    stage: EntryStage,
    answers: Vec<EntryAnswer>,
) -> EntryStage {
    let mut stage = stage;
    for answer in answers {
        stage = strategy.enter(splits, stage, answer);
    }
    stage
}

fn ends(stage: EntryStage, splits: bool, answers: Vec<EntryAnswer>) -> EntryEnd {
    let mut strategy = PreLimitStrategy::new(config(false));
    let end = match run(&mut strategy, splits, stage, answers) {
        EntryStage::Stopped(end) => end,
        stage => panic!("no cycle is started: {:?}", stage),
    };
    assert!(strategy.state.is_none());
    end
}

#[test]
fn only_an_open_market_is_traded() {
    assert!(PreLimitStrategy::discover_market(market(true, false)).is_some());
    assert!(PreLimitStrategy::discover_market(market(true, true)).is_none());
    assert!(PreLimitStrategy::discover_market(market(false, false)).is_none());
    assert!(PreLimitStrategy::discover_market(None).is_none());
    assert!(PreLimitStrategy::entry_is_open(PERIOD, PERIOD));
    assert!(PreLimitStrategy::entry_is_open(PERIOD, PERIOD + 299));
    assert!(!PreLimitStrategy::entry_is_open(PERIOD, PERIOD + 300));
    assert!(!PreLimitStrategy::entry_is_open(PERIOD, PERIOD - 1));
    for found in [market(true, true), market(false, false), None] {
        let end = ends(look_up(), true, vec![EntryAnswer::Found(found)]);
        assert_eq!(end, EntryEnd::NoMarket);
    }
    for now in [PERIOD - 1, PERIOD + 300] {
        let stage = EntryStage::LookUp { period: PERIOD, now };
        let end = ends(stage, true, vec![EntryAnswer::Found(market(true, false))]);
        assert_eq!(end, EntryEnd::NotRunning);
    }
}

#[test]
fn a_simulated_cycle_splits_nothing() {
    let mut strategy = PreLimitStrategy::new(config(true));
    let answers = vec![EntryAnswer::Found(market(true, false)), both_tokens()];
    let entry = match run(&mut strategy, true, look_up(), answers) {
        EntryStage::BuyUp(entry) => entry,
        _ => panic!("the BUY orders come next"),
    };
    assert_eq!(entry.split_tx_hash.as_deref(), Some("SIM-SPLIT"));
    match strategy.buy_order(&entry, Outcome::Up, NOW) {
        Placement::Simulated(response) => {
            assert_eq!(response.order_id.as_deref(), Some("SIM-BUY-1735689610"));
            assert_eq!(response.status, "SIMULATED");
            assert_eq!(response.message.as_deref(), Some("Order simulated"));
        }
        Placement::Send(_) => panic!("nothing is sent in simulation"),
    }
    let stage = run(&mut strategy, true, EntryStage::BuyUp(entry), vec![bought("u"), bought("d")]);
    assert!(matches!(stage, EntryStage::Opened));
    assert_eq!(state(&strategy).split_tx_hash.as_deref(), Some("SIM-SPLIT"));
}

#[test]
fn a_real_cycle_takes_every_step() {
    let mut strategy = PreLimitStrategy::new(config(false));
    let answers = vec![EntryAnswer::Found(market(true, false)), both_tokens()];
    let stage = run(&mut strategy, true, look_up(), answers);
    match &stage {
        EntryStage::OpenOrders(entry) => {
            assert_eq!(entry.condition_id, "0xcondition");
            assert_eq!(entry.up_token_id, "11");
            assert_eq!(entry.down_token_id, "22");
            assert_eq!((entry.period_start, entry.placed_at), (PERIOD, NOW));
            assert!(entry.split_tx_hash.is_none());
        }
        _ => panic!("the resting orders are looked up"),
    }
    let stage = strategy.enter(true, stage, EntryAnswer::Resting(None));
    match &stage {
        EntryStage::Split(_, job) => {
            assert_eq!(job.condition_id, "0xcondition");
            assert_eq!((job.amount, job.max_retries, job.initial_delay_ms), (5_000_000, 3, 1000));
        }
        _ => panic!("shares are split"),
    }
    let stage = strategy.enter(true, stage, EntryAnswer::Divided(Ok("0xhash".to_string())));
    let stage = strategy.enter(true, stage, bought("0xup"));
    assert!(matches!(stage, EntryStage::BuyDown(_, _)));
    assert!(strategy.state.is_none());
    let stage = strategy.enter(true, stage, bought("0xdown"));
    assert!(matches!(stage, EntryStage::Opened));
    let s = state(&strategy);
    assert_eq!(s.condition_id, "0xcondition");
    assert_eq!(s.up_order_id.as_deref(), Some("0xup"));
    assert_eq!(s.down_order_id.as_deref(), Some("0xdown"));
    assert_eq!(s.split_tx_hash.as_deref(), Some("0xhash"));
    assert_eq!((s.market_period_start, s.order_placed_at, s.expiry), (PERIOD, NOW, PERIOD + 300));
}

#[test]
fn a_step_that_fails_ends_the_entry() {
    let found = || EntryAnswer::Found(market(true, false));
    let divided = || EntryAnswer::Divided(Ok("0xhash".to_string()));
    let no_split = EntryAnswer::Divided(Err("no".to_string()));
    let free = || EntryAnswer::Resting(None);
    let none = || EntryAnswer::Bought(None);
    let no_details = EntryAnswer::Details(None);
    assert_eq!(ends(look_up(), true, vec![found(), no_details]), EntryEnd::NoDetails);
    let no_up = vec![found(), details(vec![("Down", "22")])];
    assert_eq!(ends(look_up(), true, no_up), EntryEnd::NoToken(TokenError::UpTokenNotFound));
    let no_down = vec![found(), details(vec![("Up", "11")])];
    assert_eq!(ends(look_up(), true, no_down), EntryEnd::NoToken(TokenError::DownTokenNotFound));
    let answers = vec![found(), both_tokens(), free(), no_split];
    assert_eq!(ends(look_up(), true, answers), EntryEnd::SplitFailed);
    let answers = vec![found(), both_tokens(), free(), divided(), none()];
    assert_eq!(ends(look_up(), true, answers), EntryEnd::BuyFailed);
    let answers = vec![found(), both_tokens(), free(), divided(), bought("u"), none(), bought("d")];
    assert_eq!(ends(look_up(), true, answers), EntryEnd::BuyFailed);
}

#[test]
fn an_answer_out_of_turn_is_passed_over() {
    let mut strategy = PreLimitStrategy::new(config(false));
    let answers = vec![bought("u"), bought("d"), both_tokens(), EntryAnswer::Resting(None)];
    let stage = run(&mut strategy, true, look_up(), answers);
    assert!(matches!(stage, EntryStage::LookUp { period: PERIOD, now: NOW }));
    assert!(strategy.state.is_none());
    let answers = vec![
        EntryAnswer::Found(market(true, false)),
        bought("x"),
        both_tokens(),
        bought("y"),
        EntryAnswer::Resting(None),
        EntryAnswer::Resting(None),
        EntryAnswer::Divided(Ok("0xhash".to_string())),
        bought("u"),
        both_tokens(),
        bought("d"),
        bought("z"),
    ];
    assert!(matches!(run(&mut strategy, true, stage, answers), EntryStage::Opened));
    assert_eq!(state(&strategy).up_order_id.as_deref(), Some("u"));
    assert_eq!(state(&strategy).down_order_id.as_deref(), Some("d"));
}

#[test]
fn a_market_with_orders_is_left_alone() {
    let goes_on = |ids: Vec<&str>| {
        let mut strategy = PreLimitStrategy::new(config(false));
        match strategy.enter(true, EntryStage::OpenOrders(entry()), resting(ids)) {
            EntryStage::Split(_, _) => true,
            EntryStage::Stopped(EntryEnd::OrdersRest) => false,
            stage => panic!("the split comes next: {:?}", stage),
        }
    };
    assert!(goes_on(vec![]));
    assert!(goes_on(vec!["33", "1"]));
    assert!(!goes_on(vec!["33", "22"]));
    assert!(!goes_on(vec!["11"]));
}

#[test]
fn the_buy_orders_carry_shares_price_and_date() {
    let strategy = PreLimitStrategy::new(config(false));
    let order = sent(strategy.buy_order(&entry(), Outcome::Down, NOW));
    assert_eq!(order.token_id, "22");
    assert_eq!(order.side, "BUY");
    assert_eq!(order.size, "5");
    assert_eq!(order.price, "0.49");
    assert_eq!(order.order_type, "LIMIT");
    assert_eq!(order.time_in_force.as_deref(), Some("GTD"));
    assert_eq!(order.expire_after, Some(NOW + 360));
}

#[test]
fn a_new_cycle_ends_with_its_five_minutes() {
    let strategy = trading(false);
    let s = state(&strategy);
    assert_eq!(s.asset, "BTC");
    assert_eq!(s.condition_id, "0xcondition");
    assert_eq!(s.up_order_id.as_deref(), Some("0xup"));
    assert_eq!(s.down_order_id.as_deref(), Some("0xdown"));
    assert_eq!(s.up_buy_price, 490_000);
    assert_eq!(s.expiry, PERIOD + 300);
    assert_eq!(s.order_placed_at, NOW);
    assert_eq!(s.market_period_start, PERIOD);
    assert_eq!(s.split_tx_hash.as_deref(), Some("0xsplit"));
    assert!(!s.up_matched && !s.down_matched && s.up_sell_order_id.is_none());
}

#[test]
fn a_running_cycle_is_checked_and_a_finished_one_put_away() {
    let mut strategy = trading(false);
    assert!(matches!(strategy.process_market_at(PERIOD, PERIOD + 300), MarketStep::CheckFills));
    assert!(strategy.state.is_some());
    assert!(matches!(
        strategy.process_market_at(PERIOD + 300, PERIOD + 301),
        MarketStep::Expired(None)
    ));
    assert!(strategy.state.is_none());
    assert!(matches!(
        strategy.process_market_at(PERIOD + 300, PERIOD + 302),
        MarketStep::Discover(_)
    ));
}

#[test]
fn bought_shares_are_merged_afterwards() {
    let mut strategy = trading(false);
    let pass = scan(&mut strategy, &matched("Up", vec![]));
    strategy.scan_finished(pass);
    match strategy.process_market_at(PERIOD + 300, PERIOD + 301) {
        MarketStep::Expired(Some(job)) => {
            assert_eq!(job.condition_id, "0xcondition");
            assert_eq!((job.amount, job.max_retries, job.initial_delay_ms), (5_000_000, 3, 2000));
        }
        _ => panic!("a merge is run"),
    }
    let merge = strategy.pending_merges.get("0xcondition").unwrap();
    assert_eq!(merge.status, MergeStatus::InProgress);
    assert_eq!(merge.created_at, PERIOD + 301);
    assert_eq!(merge.amount, 5_000_000);
    strategy.merge_finished("0xother", Ok("0xt".to_string()));
    assert!(strategy.pending_merges.get("0xother").is_none());
    strategy.merge_finished("0xcondition", Err("reverted".to_string()));
    let merge = strategy.pending_merges.get("0xcondition").unwrap();
    assert_eq!(merge.status, MergeStatus::Failed("reverted".to_string()));
    assert_eq!(merge.last_error.as_deref(), Some("reverted"));
    strategy.merge_finished("0xcondition", Ok("0xt".to_string()));
    let merge = strategy.pending_merges.get("0xcondition").unwrap();
    assert_eq!(merge.status, MergeStatus::Succeeded("0xt".to_string()));
    assert_eq!(merge.last_error.as_deref(), Some("reverted"));
}

#[test]
fn hardly_any_shares_are_not_merged() {
    let mut strategy = trading(false);
    strategy.state.as_mut().unwrap().up_shares_received = 9_999;
    assert!(matches!(
        strategy.process_market_at(PERIOD, PERIOD + 301),
        MarketStep::Expired(None)
    ));
    let mut strategy = trading(false);
    strategy.state.as_mut().unwrap().up_shares_received = 5_000;
    strategy.state.as_mut().unwrap().down_shares_received = 5_000;
    assert!(matches!(
        strategy.process_market_at(PERIOD, PERIOD + 301),
        MarketStep::Expired(Some(_))
    ));
    let mut strategy = trading(true);
    strategy.state.as_mut().unwrap().up_shares_received = 5_000_000;
    assert!(matches!(
        strategy.process_market_at(PERIOD, PERIOD + 301),
        MarketStep::Expired(None)
    ));
}

#[test]
fn a_matched_order_fills_its_side() {
    let mut strategy = trading(false);
    let pass = scan(&mut strategy, &matched("DOWN", vec!["t1", "t2"]));
    assert!(pass.waiting.is_empty());
    strategy.scan_finished(pass);
    let s = state(&strategy);
    assert!(s.down_matched && !s.up_matched);
    assert_eq!(s.down_shares_received, 3_500_000);
    assert_eq!(s.down_spent_usdc, 3_500_000 * 490_000);
    assert_eq!(s.trade_info.get("t1"), Some(&("down".to_string(), 3_500_000)));
    assert_eq!(s.trade_info.get("t2"), Some(&("down".to_string(), 3_500_000)));
}

#[test]
fn an_order_of_no_known_outcome_only_notes_its_trades() {
    let mut strategy = trading(false);
    let pass = scan(&mut strategy, &matched("Sideways", vec!["t"]));
    strategy.scan_finished(pass);
    assert!(!state(&strategy).up_matched && !state(&strategy).down_matched);
    assert!(matches!(
        strategy.handle_clob_subscription_direct(&trade("t", TradeStatus::Matched), NOW),
        EventStep::Nothing
    ));
}

#[test]
fn other_orders_do_not_count() {
    let mut strategy = trading(false);
    for event in [
        UserEvent::Order(OrderUpdate {
            matched: false,
            size_matched: Some(decimal(1, 0)),
            outcome: Some("Up".to_string()),
            associate_trades: None,
        }),
        UserEvent::Order(OrderUpdate {
            matched: true,
            size_matched: None,
            outcome: Some("Up".to_string()),
            associate_trades: None,
        }),
        UserEvent::Order(OrderUpdate {
            matched: true,
            size_matched: Some(decimal(1, 0)),
            outcome: None,
            associate_trades: None,
        }),
        UserEvent::Other,
    ] {
        assert!(matches!(
            strategy.handle_clob_subscription_direct(&event, NOW),
            EventStep::Nothing
        ));
        assert!(!state(&strategy).up_matched);
    }
}

#[test]
fn a_matched_trade_calls_for_one_sell_order() {
    let mut strategy = trading(false);
    let pass = scan(&mut strategy, &matched("Up", vec!["t"]));
    strategy.scan_finished(pass);
    let step = sell(&mut strategy, &trade("t", TradeStatus::Matched));
    assert_eq!(step.outcome, Outcome::Up);
    let order = sent(step.placement);
    assert_eq!(order.token_id, "11");
    assert_eq!(order.side, "SELL");
    assert_eq!(order.size, "3.5");
    assert_eq!(order.price, "0.50");
    assert_eq!(order.expire_after, Some(NOW + 360));
    strategy.sell_replied(Outcome::Up, Some(response("0xsell")));
    assert_eq!(state(&strategy).up_sell_order_id.as_deref(), Some("0xsell"));
    assert!(matches!(
        strategy.handle_clob_subscription_direct(&trade("t", TradeStatus::Matched), NOW),
        EventStep::Nothing
    ));
}

#[test]
fn a_failed_sell_order_can_be_placed_again() {
    let mut strategy = trading(false);
    let pass = scan(&mut strategy, &matched("Down", vec!["t"]));
    strategy.scan_finished(pass);
    sell(&mut strategy, &trade("t", TradeStatus::Matched));
    strategy.sell_replied(Outcome::Down, None);
    assert!(state(&strategy).down_sell_order_id.is_none());
    sell(&mut strategy, &trade("t", TradeStatus::Matched));
    let nameless = OrderResponse { order_id: None, status: String::new(), message: None };
    strategy.sell_replied(Outcome::Down, Some(nameless));
    assert_eq!(state(&strategy).down_sell_order_id.as_deref(), Some(""));
}

#[test]
fn a_simulated_sell_order_is_not_sent() {
    let mut strategy = trading(true);
    let pass = scan(&mut strategy, &matched("Up", vec!["t"]));
    strategy.scan_finished(pass);
    let step = sell(&mut strategy, &trade("t", TradeStatus::Matched));
    match step.placement {
        Placement::Simulated(response) => {
            assert_eq!(response.order_id.as_deref(), Some("SIM-SELL-UP-1735689610"));
        }
        Placement::Send(_) => panic!("nothing is sent in simulation"),
    }
}

#[test]
fn an_early_trade_waits_for_its_order() {
    let mut strategy = trading(false);
    for id in ["early", "stranger"] {
        assert!(matches!(
            strategy.handle_clob_subscription_direct(&trade(id, TradeStatus::Matched), NOW),
            EventStep::Nothing
        ));
    }
    let waiting = &state(&strategy).pending_trades;
    assert_eq!(waiting.len(), 2);
    assert_eq!(waiting[0].trade_id, "early");
    assert_eq!(waiting[0].side, "Buy");
    assert_eq!(waiting[0].size, 3_500_000);
    assert_eq!(waiting[0].price, 490_000);

    let mut pass = scan(&mut strategy, &matched("Up", vec!["early"]));
    let step = strategy.process_pending_trades(&mut pass, NOW + 5).unwrap();
    assert_eq!(step.outcome, Outcome::Up);
    assert_eq!(sent(step.placement).expire_after, Some(NOW + 365));
    strategy.sell_replied(Outcome::Up, Some(response("0xsell")));
    assert!(strategy.process_pending_trades(&mut pass, NOW + 6).is_none());
    strategy.scan_finished(pass);
    let left = &state(&strategy).pending_trades;
    assert_eq!(left.len(), 1);
    assert_eq!(left[0].trade_id, "stranger");
}

#[test]
fn a_pass_places_one_sell_order_for_each_side() {
    let mut strategy = trading(false);
    for id in ["a", "b", "x", "c"] {
        strategy.handle_clob_subscription_direct(&trade(id, TradeStatus::Matched), NOW);
    }
    let mut pass = scan(&mut strategy, &matched("Up", vec!["a", "b", "c"]));
    let mut placed = 0;
    while let Some(step) = strategy.process_pending_trades(&mut pass, NOW) {
        assert_eq!(step.outcome, Outcome::Up);
        strategy.sell_replied(step.outcome, Some(response("0xsell")));
        placed += 1;
    }
    strategy.scan_finished(pass);
    assert_eq!(placed, 1);
    assert_eq!(state(&strategy).pending_trades.len(), 1);
    assert_eq!(state(&strategy).pending_trades[0].trade_id, "x");
}

#[test]
fn a_confirmed_trade_is_noted() {
    let mut strategy = trading(false);
    let pass = scan(&mut strategy, &matched("Up", vec!["u"]));
    strategy.scan_finished(pass);
    let pass = scan(&mut strategy, &matched("Down", vec!["d"]));
    strategy.scan_finished(pass);
    assert!(matches!(
        strategy.handle_clob_subscription_direct(&trade("u", TradeStatus::Other), NOW),
        EventStep::Nothing
    ));
    assert!(!state(&strategy).up_mined && !state(&strategy).up_trade_confirmed);
    for id in ["u", "unknown"] {
        strategy.handle_clob_subscription_direct(&trade(id, TradeStatus::Confirmed), NOW);
    }
    assert!(state(&strategy).up_trade_confirmed && state(&strategy).up_mined);
    assert!(!state(&strategy).down_trade_confirmed && !state(&strategy).down_mined);
    strategy.handle_clob_subscription_direct(&trade("d", TradeStatus::Confirmed), NOW);
    assert!(state(&strategy).down_trade_confirmed && state(&strategy).down_mined);
}

fn mined(id: &str, outcome: Option<&str>) -> UserEvent {
    on_chain(id, outcome, TradeStatus::Mined)
}

fn on_chain(id: &str, outcome: Option<&str>, status: TradeStatus) -> UserEvent {
    UserEvent::Trade(TradeUpdate {
        id: id.to_string(),
        status,
        is_buy: true,
        side: "Buy".to_string(),
        outcome: outcome.map(|text| text.to_string()),
        size: decimal(5, 0),
        price: decimal(49, 2),
    })
}

#[test]
fn a_mined_trade_puts_its_side_on_chain() {
    let sides = |event: &UserEvent| {
        let mut strategy = trading(false);
        let pass = scan(&mut strategy, &matched("Down", vec!["d"]));
        strategy.scan_finished(pass);
        assert!(matches!(
            strategy.handle_clob_subscription_direct(event, NOW),
            EventStep::Nothing
        ));
        (state(&strategy).up_mined, state(&strategy).down_mined)
    };
    assert_eq!(sides(&mined("t", Some("Up"))), (true, false));
    assert_eq!(sides(&mined("t", Some("DOWN"))), (false, true));
    assert_eq!(sides(&mined("d", None)), (false, true));
    assert_eq!(sides(&mined("d", Some("Up"))), (false, true));
    assert_eq!(sides(&mined("t", None)), (false, false));
    assert_eq!(sides(&mined("t", Some("Yes"))), (false, false));
}

#[test]
fn shares_on_chain_are_kept_for_settlement() {
    for status in [TradeStatus::Mined, TradeStatus::Confirmed] {
        let mut strategy = trading(false);
        let event = UserEvent::Order(OrderUpdate {
            matched: true,
            size_matched: Some(decimal(5, 0)),
            outcome: Some("Up".to_string()),
            associate_trades: None,
        });
        let pass = scan(&mut strategy, &event);
        strategy.scan_finished(pass);
        strategy.handle_clob_subscription_direct(&on_chain("t", Some("Up"), status), NOW);
        assert!(!state(&strategy).up_trade_confirmed);
        assert!(matches!(
            strategy.process_market_at(PERIOD + 300, PERIOD + 301),
            MarketStep::Expired(_)
        ));
        let trade = strategy.trades.get("0xcondition").unwrap();
        assert_eq!(trade.up_shares, 5_000_000);
        assert_eq!(trade.down_shares, 0);
        assert_eq!(strategy.check_market_closure(LATER), vec!["0xcondition".to_string()]);
    }
}

#[test]
fn a_position_that_is_not_due_is_not_settled() {
    let market = closed_market(vec![token("11", true)]);
    let mut strategy = expired(true, false);
    assert!(strategy.settle_market("0xcondition", LATER - 1, Some(&market)).is_none());
    assert_eq!(strategy.get_total_profit(), 0);
    let kept = strategy.trades.get("0xcondition").unwrap().clone();
    assert!(strategy.settle_market("0xcondition", LATER, Some(&market)).is_some());
    let profit = strategy.get_total_profit();
    strategy.trades.insert("0xcondition".to_string(), kept);
    assert!(strategy.settle_market("0xcondition", LATER, Some(&market)).is_none());
    assert_eq!(strategy.get_total_profit(), profit);
    assert!(strategy.trades.get("0xcondition").is_some());
}

#[test]
fn sold_trades_and_messages_without_a_cycle_do_nothing() {
    let mut strategy = trading(false);
    let event = UserEvent::Trade(TradeUpdate {
        id: "t".to_string(),
        status: TradeStatus::Matched,
        is_buy: false,
        side: "Sell".to_string(),
        outcome: Some("Up".to_string()),
        size: decimal(1, 0),
        price: decimal(1, 0),
    });
    assert!(matches!(
        strategy.handle_clob_subscription_direct(&event, NOW),
        EventStep::Nothing
    ));
    assert!(state(&strategy).pending_trades.is_empty());
    let mut idle = PreLimitStrategy::new(config(false));
    assert!(matches!(
        idle.handle_clob_subscription_direct(&matched("Up", vec!["t"]), NOW),
        EventStep::Nothing
    ));
    assert!(idle.state.is_none());
}

#[test]
fn real_orders_are_asked_about() {
    let strategy = trading(false);
    assert_eq!(
        strategy.check_buy_order_matches(),
        Some(("0xup".to_string(), "0xdown".to_string()))
    );
    assert!(trading(true).check_buy_order_matches().is_none());
    let mut strategy = PreLimitStrategy::new(config(false));
    assert!(strategy.check_buy_order_matches().is_none());
    start(&mut strategy, response("SIM-BUY-1"), response("0xdown"));
    assert!(strategy.check_buy_order_matches().is_none());
    let nameless = OrderResponse { order_id: None, status: String::new(), message: None };
    start(&mut strategy, nameless, response("0xdown"));
    assert!(strategy.check_buy_order_matches().is_none());
}

#[test]
fn fills_come_from_the_exchange_or_from_the_price() {
    let mut strategy = trading(false);
    strategy.record_fills(None);
    strategy.record_fills(Some((true, false)));
    assert!(state(&strategy).up_matched && !state(&strategy).down_matched);
    assert!(strategy.price_query(Outcome::Up).is_none());
    assert_eq!(strategy.price_query(Outcome::Down).as_deref(), Some("22"));
    strategy.record_price(Outcome::Down, None);
    strategy.record_price(Outcome::Down, Some(decimal(491, 3)));
    assert!(!state(&strategy).down_matched);
    strategy.record_fills(Some((false, false)));
    assert!(state(&strategy).up_matched);
    strategy.record_price(Outcome::Down, Some(decimal(4909, 4)));
    assert!(state(&strategy).down_matched);
    assert!(strategy.check_buy_order_matches().is_none());
    assert!(strategy.price_query(Outcome::Down).is_none());
}

fn expired(up_mined: bool, simulation_mode: bool) -> PreLimitStrategy {
    let mut strategy = trading(simulation_mode);
    let s = strategy.state.as_mut().unwrap();
    s.up_mined = up_mined;
    s.down_shares_received = 2_000_000;
    strategy.process_market_at(PERIOD + 300, PERIOD + 301);
    strategy
}

#[test]
fn a_position_on_chain_is_settled_after_its_market() {
    let end = (PERIOD + 300) as u64;
    let strategy = expired(true, false);
    assert!(strategy.check_market_closure(end - 1).is_empty());
    assert_eq!(strategy.check_market_closure(end), vec!["0xcondition".to_string()]);
    let trade = strategy.trades.get("0xcondition").unwrap();
    assert_eq!(trade.up_shares, 5_000_000);
    assert_eq!(trade.down_shares, 2_000_000);
    assert_eq!(trade.period_timestamp, PERIOD as u64);
    assert_eq!(trade.market_duration_secs, 300);
    assert!(expired(false, false).check_market_closure(end).is_empty());
}

#[test]
fn the_profit_is_the_payout_less_the_cost() {
    let mut strategy = expired(true, false);
    let market = closed_market(vec![token("11", true), token("22", false)]);
    let settlement = strategy.settle_market("0xcondition", LATER, Some(&market)).unwrap();
    assert_eq!(settlement.winner, Winner::Up);
    assert_eq!(settlement.total_cost, 7_000_000 * 490_000);
    assert_eq!(settlement.payout, 5_000_000_000_000);
    assert_eq!(settlement.pnl, 5_000_000_000_000 - 3_430_000_000_000);
    let redemption = settlement.redemption.unwrap();
    assert_eq!(redemption.outcome, Outcome::Up);
    assert_eq!(redemption.token_id, "11");
    assert_eq!(strategy.get_total_profit(), 1_570_000_000_000);
}

#[test]
fn a_full_pair_earns_the_difference_to_a_dollar() {
    for winner in ["11", "22"] {
        let mut strategy = trading(false);
        let s = strategy.state.as_mut().unwrap();
        s.up_mined = true;
        s.down_mined = true;
        strategy.process_market_at(PERIOD + 300, PERIOD + 301);
        let market = closed_market(vec![token(winner, true)]);
        let settlement = strategy.settle_market("0xcondition", LATER, Some(&market)).unwrap();
        assert_eq!(settlement.pnl, 5_000_000 * (1_000_000 - 490_000 - 490_000));
    }
}

#[test]
fn a_position_is_settled_once() {
    let mut strategy = expired(true, false);
    let market = closed_market(vec![token("22", true)]);
    let settlement = strategy.settle_market("0xcondition", LATER, Some(&market)).unwrap();
    assert_eq!(settlement.winner, Winner::Down);
    assert_eq!(settlement.payout, 2_000_000_000_000);
    assert_eq!(settlement.redemption.unwrap().outcome, Outcome::Down);
    let profit = strategy.get_total_profit();
    assert!(strategy.settle_market("0xcondition", LATER, Some(&market)).is_none());
    assert_eq!(strategy.get_total_profit(), profit);
    assert!(strategy.check_market_closure(u64::MAX).is_empty());
}

#[test]
fn an_open_or_unknown_market_is_not_settled() {
    let mut strategy = expired(true, false);
    let mut market = closed_market(vec![token("11", true)]);
    market.closed = false;
    assert!(strategy.settle_market("0xcondition", LATER, Some(&market)).is_none());
    assert!(strategy.settle_market("0xcondition", LATER, None).is_none());
    market.closed = true;
    assert!(strategy.settle_market("0xother", LATER, Some(&market)).is_none());
    assert_eq!(strategy.check_market_closure(u64::MAX).len(), 1);
}

#[test]
fn a_market_without_a_winner_costs_and_pays_nothing() {
    let mut strategy = expired(true, false);
    let settlement =
        strategy.settle_market("0xcondition", LATER, Some(&closed_market(vec![token("11", false)])));
    let settlement = settlement.unwrap();
    assert_eq!(settlement.winner, Winner::Unknown);
    assert_eq!(settlement.payout, 0);
    assert!(settlement.redemption.is_none());
    assert_eq!(strategy.get_total_profit(), -3_430_000_000_000);
}

#[test]
fn a_simulated_position_is_not_redeemed() {
    let mut strategy = expired(true, true);
    let market = closed_market(vec![token("11", true)]);
    let settlement = strategy.settle_market("0xcondition", LATER, Some(&market)).unwrap();
    assert_eq!(settlement.winner, Winner::Up);
    assert!(settlement.redemption.is_none());
}

#[test]
fn few_winning_shares_are_redeemed_too() {
    let mut strategy = expired(true, false);
    let mut trade = strategy.trades.get("0xcondition").unwrap().clone();
    trade.up_shares = 1_000;
    strategy.trades.insert("0xcondition".to_string(), trade);
    let market = closed_market(vec![token("11", true)]);
    let settlement = strategy.settle_market("0xcondition", LATER, Some(&market)).unwrap();
    assert_eq!(settlement.winner, Winner::Up);
    let redemption = settlement.redemption.unwrap();
    assert_eq!(redemption.outcome, Outcome::Up);
    assert_eq!(redemption.token_id, "11");
}

#[test]
fn positions_of_earlier_runs_are_merged() {
    let position = |id: &str, size| MergeablePosition {
        condition_id: id.to_string(),
        size,
        title: String::new(),
    };
    let jobs = merge_jobs(&vec![position("0xa", 7), position("0xb", 8)]);
    assert_eq!(jobs.len(), 2);
    assert_eq!(jobs[1].condition_id, "0xb");
    assert_eq!((jobs[1].amount, jobs[1].max_retries, jobs[1].initial_delay_ms), (8, 3, 2000));
}
