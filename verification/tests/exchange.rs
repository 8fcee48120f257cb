use btc5min_limit_order::api::{
    mask_url, BookMarket, BookOrder, BookToken, ErrorKind, GammaEvent, GammaMarket, Instant,
    OrderStatus, PolymarketApi, PostReply, Side, SignatureType,
};
use btc5min_limit_order::models::{MarketDetails, MarketToken, OrderRequest};
use btc5min_limit_order::money::DecimalParts;

const KEY_ONE: &str = "0000000000000000000000000000000000000000000000000000000000000001";

fn api() -> PolymarketApi {
    PolymarketApi::new(
        "https://gamma".to_string(),
        "https://clob".to_string(),
        None,
        None,
        None,
        Some(KEY_ONE.to_string()),
        None,
        None,
        None,
        None,
        false,
        None,
        None,
    )
}

fn signed_in() -> PolymarketApi {
    let mut api = api();
    let plan = api.authenticate().unwrap();
    api.authenticated(&plan);
    api
}

fn order() -> OrderRequest {
    OrderRequest {
        token_id: "123".to_string(),
        side: "BUY".to_string(),
        size: "5".to_string(),
        price: "0.49".to_string(),
        order_type: "LIMIT".to_string(),
        time_in_force: Some("GTD".to_string()),
        expire_after: Some(1735689960),
    }
}

fn number(n: u8) -> [u8; 32] {
    let mut bytes = [0u8; 32];
    bytes[31] = n;
    bytes
}

#[test]
fn short_addresses_are_shown_whole() {
    let fifty = "https://polygon-mainnet.g.alchemy.com/v2/abcdefghi";
    assert_eq!(fifty.len(), 50);
    assert_eq!(mask_url(fifty), fifty);
    assert_eq!(mask_url(""), "");
}

#[test]
fn long_addresses_lose_their_middle() {
    let url = "https://polygon-mainnet.g.alchemy.com/v2/abcdefghijklmnopqrstuvwxyz";
    assert_eq!(mask_url(url), "https://polygon-mainnet.g.alchemy.c...qrstuvwxyz");
    assert_eq!(mask_url(url).len(), 48);
}

#[test]
fn the_node_is_the_configured_one_first() {
    let mut api = api();
    let env = |text: &str| Some(text.to_string());
    assert_eq!(api.get_rpc_url(None, None), "https://polygon-rpc.com");
    assert_eq!(api.get_rpc_url(env(""), env("")), "https://polygon-rpc.com");
    assert_eq!(
        api.get_rpc_url(env(""), env("key")),
        "https://polygon-mainnet.g.alchemy.com/v2/key"
    );
    assert_eq!(api.get_rpc_url(env("https://node"), env("key")), "https://node");
    api.rpc_url = Some("https://mine".to_string());
    assert_eq!(api.get_rpc_url(env("https://node"), env("key")), "https://mine");
}

#[test]
fn an_account_is_authenticated_with_its_key() {
    let plan = api().authenticate().unwrap();
    assert_eq!(plan.signer[0], 0x7e);
    assert_eq!(plan.signer[19], 0xdf);
    assert!(plan.funder.is_none());
    assert_eq!(plan.signature_type, SignatureType::Eoa);
}

#[test]
fn the_signature_follows_the_setting() {
    for (setting, expected) in [
        (Some(0u8), SignatureType::Eoa),
        (Some(1), SignatureType::Eoa),
        (Some(2), SignatureType::GnosisSafe),
        (Some(3), SignatureType::Poly1271),
        (Some(4), SignatureType::Eoa),
    ] {
        let mut api = api();
        api.signature_type = setting;
        assert_eq!(api.authenticate().unwrap().signature_type, expected);
    }
}

#[test]
fn a_proxy_wallet_pays() {
    let mut api = api();
    api.proxy_wallet_address = Some("0xD8DA6BF26964AF9D7EED9E03E53415D37AA96045".to_string());
    let funder = api.authenticate().unwrap().funder.unwrap();
    assert_eq!(funder[0], 0xd8);
    assert_eq!(funder[19], 0x45);
    api.proxy_wallet_address = Some("0xD8DA".to_string());
    let error = api.authenticate().unwrap_err();
    assert_eq!(error.kind, ErrorKind::InvalidProxyWallet);
    assert_eq!(error.message(), "Invalid proxy wallet address");
}

#[test]
fn without_a_key_there_is_no_account() {
    let mut api = api();
    api.private_key = None;
    assert_eq!(api.authenticate().unwrap_err().message(), "Private key is required");
    api.private_key = Some("nonsense".to_string());
    api.proxy_wallet_address = Some("nonsense".to_string());
    assert_eq!(api.create_signer().unwrap_err().message(), "Failed to create signer");
    assert_eq!(api.authenticate().unwrap_err().message(), "Failed to create signer");
}

#[test]
fn nothing_is_asked_before_the_account_is_authenticated() {
    let api = api();
    let text = "Not authenticated. Call authenticate() first.";
    assert_eq!(api.get_clob_client().unwrap_err().message(), text);
    assert_eq!(api.get_signer().unwrap_err().message(), "Not authenticated.");
    assert_eq!(api.place_order(&order()).unwrap_err().message(), text);
    assert_eq!(api.get_price("x", "SELL").unwrap_err().message(), text);
    assert_eq!(api.are_both_orders_filled(None, None).unwrap_err().message(), text);
    assert!(signed_in().get_clob_client().is_ok());
    assert_eq!(signed_in().get_signer().unwrap()[0], 0x7e);
}

#[test]
fn the_first_market_of_an_event_is_taken() {
    let mut condition = [0u8; 32];
    condition[0] = 0xab;
    condition[31] = 0x0f;
    let market = |id: &str| GammaMarket {
        id: id.to_string(),
        condition_id: Some(condition),
        question: Some("Up or down?".to_string()),
        slug: None,
        end_date: Some(Instant { seconds: 1735689900, nanos: 0 }),
    };
    let event = GammaEvent {
        markets: Some(vec![market("7"), market("8")]),
        active: Some(true),
        closed: None,
    };
    let found = PolymarketApi::get_market_by_slug("slug", &event).unwrap();
    assert_eq!(
        found.condition_id,
        "0xab0000000000000000000000000000000000000000000000000000000000000f"
    );
    assert_eq!(found.market_id.as_deref(), Some("7"));
    assert_eq!(found.question, "Up or down?");
    assert_eq!(found.slug, "");
    assert_eq!(found.end_date_iso.as_deref(), Some("2025-01-01T00:05:00+00:00"));
    assert!(found.active);
    assert!(!found.closed);
}

#[test]
fn an_event_without_a_market_is_an_error() {
    for markets in [None, Some(vec![])] {
        let event = GammaEvent { markets, active: Some(true), closed: Some(false) };
        let error = PolymarketApi::get_market_by_slug("btc-updown-5m-0", &event).unwrap_err();
        assert_eq!(error.kind, ErrorKind::NoMarkets);
        assert_eq!(error.message(), "No markets found for slug: btc-updown-5m-0");
    }
}

#[test]
fn a_market_without_details_is_left_empty() {
    let market = GammaMarket {
        id: "7".to_string(),
        condition_id: None,
        question: None,
        slug: Some("s".to_string()),
        end_date: None,
    };
    let event = GammaEvent { markets: Some(vec![market]), active: None, closed: Some(true) };
    let found = PolymarketApi::get_market_by_slug("slug", &event).unwrap();
    assert_eq!(found.condition_id, "");
    assert_eq!(found.question, "");
    assert_eq!(found.slug, "s");
    assert!(found.end_date_iso.is_none());
    assert!(!found.active);
    assert!(found.closed);
}

#[test]
fn the_order_book_describes_a_market() {
    let mut big = [0u8; 32];
    big[0] = 0xff;
    let market = BookMarket {
        question: "q".to_string(),
        tokens: vec![
            BookToken { outcome: "Up".to_string(), token_id: number(200), winner: true },
            BookToken { outcome: "Down".to_string(), token_id: big, winner: false },
        ],
        active: true,
        closed: true,
        end_date: None,
    };
    let details = signed_in().get_market("0xc", &market).unwrap();
    assert!(api().get_market("0xc", &market).is_err());
    assert_eq!(details.condition_id, "0xc");
    assert_eq!(details.tokens[0].token_id, "200");
    assert!(details.tokens[0].winner);
    assert_eq!(
        details.tokens[1].token_id,
        "115339776388732929035197660848497720713218148788040405586178452820382218977280"
    );
    assert_eq!(details.end_date_iso, "");
    assert!(details.closed);
}

fn resolved(tokens: Vec<(&str, bool)>) -> (bool, Option<String>, bool, bool) {
    PolymarketApi::check_market_resolved(&MarketDetails {
        condition_id: String::new(),
        question: String::new(),
        tokens: tokens
            .into_iter()
            .map(|(outcome, winner)| MarketToken {
                outcome: outcome.to_string(),
                token_id: String::new(),
                winner,
            })
            .collect(),
        active: false,
        closed: true,
        end_date_iso: String::new(),
    })
}

#[test]
fn yes_stands_for_up_and_no_for_down() {
    assert_eq!(
        resolved(vec![("Yes", true), ("No", false)]),
        (true, Some("up".to_string()), true, false)
    );
    assert_eq!(
        resolved(vec![("YES", false), ("no", true)]),
        (true, Some("down".to_string()), false, true)
    );
    assert_eq!(resolved(vec![("Up", true)]), (true, None, false, false));
    assert_eq!(
        resolved(vec![("no", true), ("yes", true)]),
        (true, Some("up".to_string()), true, true)
    );
}

#[test]
fn an_order_is_put_in_the_exchanges_terms() {
    let plan = signed_in().place_order(&order()).unwrap();
    assert_eq!(plan.token_id, number(123));
    assert_eq!(plan.side, Side::Buy);
    assert_eq!((plan.size.mantissa, plan.size.scale), (5, 0));
    assert_eq!((plan.price.mantissa, plan.price.scale), (49, 2));
    assert_eq!(plan.expiration, Some(1735689960));
}

#[test]
fn sizes_and_prices_are_taken_exactly() {
    let mut sell = order();
    sell.side = "SELL".to_string();
    sell.size = "12.345678".to_string();
    sell.price = "0.50".to_string();
    sell.token_id = "0x10".to_string();
    let plan = signed_in().place_order(&sell).unwrap();
    assert_eq!(plan.side, Side::Sell);
    assert_eq!(plan.size.micros(), 12_345_678);
    assert_eq!((plan.price.mantissa, plan.price.scale), (50, 2));
    assert_eq!(plan.token_id, number(16));
}

#[test]
fn an_order_that_is_not_dated_does_not_lapse() {
    let api = signed_in();
    let mut plain = order();
    plain.time_in_force = None;
    assert_eq!(api.place_order(&plain).unwrap().expiration, None);
    plain.time_in_force = Some("FOK".to_string());
    assert_eq!(api.place_order(&plain).unwrap().expiration, None);
    plain.time_in_force = Some("GTD".to_string());
    plain.expire_after = None;
    assert_eq!(api.place_order(&plain).unwrap().expiration, None);
}

#[test]
fn a_wrong_order_says_what_is_wrong_with_it() {
    let api = signed_in();
    let mut wrong = order();
    wrong.expire_after = Some(i64::MAX);
    assert_eq!(api.place_order(&wrong).unwrap_err().message(), "Invalid expiration");
    wrong.token_id = "zz".to_string();
    assert_eq!(api.place_order(&wrong).unwrap_err().message(), "Invalid token_id: zz");
    wrong.size = "five".to_string();
    assert_eq!(api.place_order(&wrong).unwrap_err().message(), "Invalid size: five");
    wrong.price = "".to_string();
    assert_eq!(api.place_order(&wrong).unwrap_err().message(), "Invalid price: ");
    wrong.side = "buy".to_string();
    assert_eq!(api.place_order(&wrong).unwrap_err().message(), "Invalid side: buy");
}

#[test]
fn the_calendar_ends_with_its_last_second() {
    let api = signed_in();
    let mut late = order();
    late.expire_after = Some(8_210_266_876_799);
    assert!(api.place_order(&late).is_ok());
    late.expire_after = Some(8_210_266_876_800);
    assert_eq!(api.place_order(&late).unwrap_err().kind, ErrorKind::InvalidExpiration);
    late.expire_after = Some(-8_334_601_228_800);
    assert!(api.place_order(&late).is_ok());
    late.expire_after = Some(-8_334_601_228_801);
    assert!(api.place_order(&late).is_err());
}

#[test]
fn an_accepted_order_has_an_id() {
    let reply = PostReply {
        success: true,
        error_msg: None,
        order_id: "0xid".to_string(),
        status: "live".to_string(),
    };
    let response = PolymarketApi::order_posted(reply).unwrap();
    assert_eq!(response.order_id.as_deref(), Some("0xid"));
    assert_eq!(response.status, "live");
    assert_eq!(response.message.as_deref(), Some("Order ID: 0xid"));
}

#[test]
fn a_rejected_order_is_an_error() {
    let reply = |error_msg: Option<String>| PostReply {
        success: false,
        error_msg,
        order_id: String::new(),
        status: String::new(),
    };
    let error = PolymarketApi::order_posted(reply(Some("no money".to_string()))).unwrap_err();
    assert_eq!(error.message(), "Order rejected: no money");
    let error = PolymarketApi::order_posted(reply(None)).unwrap_err();
    assert_eq!(error.kind, ErrorKind::OrderRejected);
    assert_eq!(error.message(), "Order rejected: Unknown error");
}

#[test]
fn a_price_is_asked_for_on_a_side() {
    let api = signed_in();
    assert_eq!(api.get_price("7", "sell").unwrap().side, Side::Sell);
    assert_eq!(api.get_price("7", "BUY").unwrap().side, Side::Buy);
    let plan = api.get_price("7", "whatever").unwrap();
    assert_eq!(plan.side, Side::Buy);
    assert_eq!(plan.token_id, number(7));
    assert_eq!(api.get_price("7x", "SELL").unwrap_err().message(), "Invalid token_id: 7x");
}

#[test]
fn only_a_matched_order_is_filled() {
    let api = signed_in();
    let matched = Some(OrderStatus::Matched);
    assert_eq!(api.are_both_orders_filled(matched, None).unwrap(), (true, false));
    assert_eq!(
        api.are_both_orders_filled(Some(OrderStatus::Other), matched).unwrap(),
        (false, true)
    );
}

#[test]
fn resting_orders_are_listed() {
    let decimal = |mantissa, scale| DecimalParts { mantissa, scale };
    let page = vec![BookOrder {
        id: "0xo".to_string(),
        market: "0xm".to_string(),
        side: "Buy".to_string(),
        original_size: decimal(5, 0),
        price: decimal(50, 2),
        status: "Live".to_string(),
        size_matched: decimal(-5, 3),
        asset_id: number(99),
    }];
    let orders = signed_in().get_open_orders(&page).unwrap();
    assert!(api().get_open_orders(&page).is_err());
    assert_eq!(orders.len(), 1);
    assert_eq!(orders[0].order_id, "0xo");
    assert_eq!(orders[0].market.as_deref(), Some("0xm"));
    assert_eq!(orders[0].side, "BUY");
    assert_eq!(orders[0].size, "5");
    assert_eq!(orders[0].price, "0.50");
    assert_eq!(orders[0].status, "Live");
    assert_eq!(orders[0].fill_size.as_deref(), Some("-0.005"));
    assert!(orders[0].avg_fill_price.is_none());
    assert_eq!(orders[0].token_id, "99");
}
