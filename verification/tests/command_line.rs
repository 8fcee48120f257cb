use btc5min_limit_order::cli::{
    outcome_to_redeem, outcome_word, run_mode, run_redeem_only, Batch, RedeemPlan, RunMode,
};
use btc5min_limit_order::config::{Args, Config};
use btc5min_limit_order::models::{MarketDetails, MarketToken};
use btc5min_limit_order::orders::Outcome;

fn args(redeem: bool, merge_only: bool) -> Args {
    Args { config: "config.json".to_string(), redeem, condition_id: None, merge_only }
}

fn market(tokens: Vec<(&str, bool)>) -> MarketDetails {
    MarketDetails {
        condition_id: String::new(),
        question: String::new(),
        tokens: tokens
            .into_iter()
            .map(|(outcome, winner)| MarketToken {
                outcome: outcome.to_string(),
                token_id: String::new(),
                winner,
            })
            .collect(),
        active: false,
        closed: true,
        end_date_iso: String::new(),
    }
}

#[test]
fn redeeming_comes_before_merging() {
    assert_eq!(run_mode(&args(true, true), true), RunMode::Redeem);
    assert_eq!(run_mode(&args(false, true), false), RunMode::MergeOnly);
    assert_eq!(run_mode(&args(false, false), true), RunMode::Trade);
    assert_eq!(run_mode(&args(false, false), false), RunMode::Watch);
}

#[test]
fn a_redemption_run_needs_a_wallet() {
    let mut config = Config::default().polymarket;
    let id = Some("abc".to_string());
    let plan = run_redeem_only(&config, &id);
    assert!(matches!(plan, RedeemPlan::NoWallet));
    assert_eq!(
        plan.message().as_deref(),
        Some("--redeem 需要在 config.json 中设置 proxy_wallet_address")
    );
    assert!(RedeemPlan::One(String::new()).message().is_none());
    config.proxy_wallet_address = Some("0xw".to_string());
    assert!(matches!(run_redeem_only(&config, &id), RedeemPlan::One(c) if c == "0xabc"));
    let id = Some("0xabc".to_string());
    assert!(matches!(run_redeem_only(&config, &id), RedeemPlan::One(c) if c == "0xabc"));
    assert!(matches!(run_redeem_only(&config, &None), RedeemPlan::Lookup(w) if w == "0xw"));
}

#[test]
fn the_winner_is_redeemed() {
    let winner = |tokens| outcome_to_redeem(Some(&market(tokens)));
    assert_eq!(winner(vec![("Up", true), ("Down", false)]), Some(Outcome::Up));
    assert_eq!(winner(vec![("Up", false), ("Down", true)]), Some(Outcome::Down));
    assert_eq!(winner(vec![("YES", true)]), Some(Outcome::Up));
    assert_eq!(winner(vec![("No", true)]), Some(Outcome::Down));
    assert_eq!(winner(vec![("North", true)]), None);
    assert_eq!(winner(vec![("Up", false), ("Down", false)]), None);
    assert_eq!(winner(vec![("down", true), ("up", true)]), Some(Outcome::Up));
    assert_eq!(outcome_to_redeem(None), None);
    assert_eq!(outcome_word(Outcome::Up), "Up");
    assert_eq!(outcome_word(Outcome::Down), "Down");
}

#[test]
fn a_run_counts_every_entry_once() {
    let mut batch = Batch::new(3);
    assert_eq!(batch.next(), Some(0));
    batch.record(true);
    assert_eq!(batch.next(), Some(1));
    batch.record(false);
    batch.record(true);
    assert_eq!(batch.next(), None);
    assert_eq!((batch.succeeded, batch.failed), (2, 1));
    assert_eq!(Batch::new(0).next(), None);
}
