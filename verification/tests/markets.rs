use btc5min_limit_order::discovery::{MarketDiscovery, TokenError};
use btc5min_limit_order::models::{MarketDetails, MarketToken};

fn token(outcome: &str, id: &str) -> MarketToken {
    MarketToken { outcome: outcome.to_string(), token_id: id.to_string(), winner: false }
}

fn market(tokens: Vec<MarketToken>) -> MarketDetails {
    MarketDetails {
        condition_id: "0xc".to_string(),
        question: String::new(),
        tokens,
        active: true,
        closed: false,
        end_date_iso: String::new(),
    }
}

#[test]
fn the_name_of_a_market_holds_its_start() {
    assert_eq!(MarketDiscovery::build_5m_slug("BTC", 1735689600), "btc-updown-5m-1735689600");
    assert_eq!(MarketDiscovery::build_5m_slug("Eth", -300), "eth-updown-5m--300");
}

#[test]
fn five_minutes_start_on_a_multiple_of_five_minutes() {
    assert_eq!(MarketDiscovery::period_start_et(1751373296), 1751373000);
    assert_eq!(MarketDiscovery::period_start_et(1751373000), 1751373000);
    assert_eq!(MarketDiscovery::period_start_et(1751373299), 1751373000);
    assert_eq!(MarketDiscovery::period_start_et(1751373300), 1751373300);
    assert_eq!(MarketDiscovery::period_start_et(0), 0);
    assert_eq!(MarketDiscovery::period_start_et(299), 0);
}

#[test]
fn both_hours_that_autumn_shows_alike_have_their_starts() {
    // 2024-11-03, 01:32:07 in New York, first in summer time and then again.
    assert_eq!(MarketDiscovery::period_start_et(1730611927), 1730611800);
    assert_eq!(MarketDiscovery::period_start_et(1730615527), 1730615400);
    assert_eq!(MarketDiscovery::period_start_et(1762061523), 1762061400);
    // An hour later, and in the hour after the one that spring skips.
    assert_eq!(MarketDiscovery::period_start_et(1730617320), 1730617200);
    assert_eq!(MarketDiscovery::period_start_et(1710054239), 1710054000);
}

#[test]
fn the_last_five_minutes_of_the_calendar_have_a_start() {
    assert_eq!(MarketDiscovery::period_start_et(8_210_266_876_799), 8_210_266_876_500);
    assert_eq!(MarketDiscovery::period_start_et(8_210_266_873_199), 8_210_266_872_900);
    assert_eq!(MarketDiscovery::period_start_et(4_097_196_000 - 1), 4_097_195_700);
    assert_eq!(MarketDiscovery::period_start_et(4_097_199_600), 4_097_199_600);
    assert_eq!(MarketDiscovery::period_start_et(4_115_000_000), 4_114_999_800);
}

#[test]
fn the_running_five_minutes_hold_the_present() {
    let before = MarketDiscovery::current_time_et();
    let start = MarketDiscovery::current_5m_period_start_et();
    let after = MarketDiscovery::current_time_et();
    assert!(before > 1_600_000_000);
    assert_eq!(start % 300, 0);
    assert!(start <= after && before < start + 300);
}

#[test]
fn tokens_are_found_by_their_outcome() {
    let details = market(vec![token("Up", "11"), token("Down", "22")]);
    assert_eq!(
        MarketDiscovery::get_market_tokens(&details).unwrap(),
        ("11".to_string(), "22".to_string())
    );
    let details = market(vec![token("0", "22"), token("1", "11")]);
    assert_eq!(
        MarketDiscovery::get_market_tokens(&details).unwrap(),
        ("11".to_string(), "22".to_string())
    );
}

#[test]
fn of_several_tokens_the_last_one_counts() {
    let details = market(vec![token("up", "1"), token("down", "2"), token("UPWARDS", "3")]);
    assert_eq!(
        MarketDiscovery::get_market_tokens(&details).unwrap(),
        ("3".to_string(), "2".to_string())
    );
}

#[test]
fn a_missing_token_is_an_error() {
    let error = MarketDiscovery::get_market_tokens(&market(vec![token("Down", "2")])).unwrap_err();
    assert_eq!(error, TokenError::UpTokenNotFound);
    assert_eq!(error.message(), "Up token not found");
    let error = MarketDiscovery::get_market_tokens(&market(vec![token("Up", "2")])).unwrap_err();
    assert_eq!(error, TokenError::DownTokenNotFound);
    assert_eq!(error.message(), "Down token not found");
}
