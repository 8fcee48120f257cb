use btc5min_limit_order::api::{ErrorKind, PolymarketApi};
use btc5min_limit_order::transactions::{
    relay_transaction, ChainRoute, MergeStage, PollStep, RelayPolling, RelayReply, Retry, RetryKind,
    RetryStep,
};

const KEY_ONE: &str = "0x0000000000000000000000000000000000000000000000000000000000000001";
const CONDITION: &str = "0x00000000000000000000000000000000000000000000000000000000000000c5";

fn api(use_relayer: bool) -> PolymarketApi {
    PolymarketApi::new(
        String::new(),
        String::new(),
        None,
        None,
        None,
        Some(KEY_ONE.to_string()),
        None,
        None,
        None,
        None,
        use_relayer,
        None,
        None,
    )
}

fn collateral() -> Option<[u8; 20]> {
    Some([0x11; 20])
}

fn word(n: u8) -> Vec<u8> {
    let mut bytes = vec![0u8; 32];
    bytes[31] = n;
    bytes
}

fn address_word() -> Vec<u8> {
    let mut bytes = vec![0u8; 12];
    bytes.extend_from_slice(&[0x11; 20]);
    bytes
}

#[test]
fn transactions_go_through_the_relayer_where_it_is_used() {
    assert!(matches!(api(true).chain_route(None, None).unwrap(), ChainRoute::Relayer));
    let node = Some("https://node".to_string());
    match api(false).chain_route(node, None).unwrap() {
        ChainRoute::Direct { signer, rpc_url } => {
            assert_eq!(signer[0], 0x7e);
            assert_eq!(rpc_url, "https://node");
        }
        ChainRoute::Relayer => panic!("the relayer is not used"),
    }
    let mut keyless = api(false);
    keyless.private_key = None;
    assert_eq!(
        keyless.chain_route(None, None).unwrap_err().kind,
        ErrorKind::PrivateKeyRequired
    );
}

#[test]
fn a_split_is_over_both_outcomes() {
    let request = PolymarketApi::split_shares(CONDITION, collateral(), 5_000_000).unwrap();
    assert_eq!(request.collateral, [0x11; 20]);
    assert_eq!(request.condition_id[31], 0xc5);
    assert_eq!(request.sets, vec![1, 2]);
    assert_eq!(request.amount, Some(5_000_000));
    let bare = PolymarketApi::split_shares(&CONDITION[2..], collateral(), 1).unwrap();
    assert_eq!(bare.condition_id, request.condition_id);
}

#[test]
fn a_merge_tries_one_outcome_and_then_the_other() {
    let start = || PolymarketApi::merge_shares(CONDITION, collateral(), 7).unwrap();
    let fail = |text: &str| Err::<String, String>(text.to_string());
    match &start() {
        MergeStage::First(request) => {
            assert_eq!(request.sets, vec![1]);
            assert_eq!(request.amount, Some(7));
        }
        stage => panic!("the first request comes first: {:?}", stage),
    }
    let stage = PolymarketApi::merge_answered(start(), Ok("0xhash".to_string()));
    assert!(matches!(&stage, MergeStage::Done(hash) if hash == "0xhash"));
    let stage = PolymarketApi::merge_answered(stage, fail("late"));
    assert!(matches!(&stage, MergeStage::Done(hash) if hash == "0xhash"));
    let stage = PolymarketApi::merge_answered(start(), fail("a"));
    match &stage {
        MergeStage::Second(request, error) => {
            assert_eq!(request.sets, vec![2]);
            assert_eq!(request.amount, Some(7));
            assert_eq!(request.condition_id[31], 0xc5);
            assert_eq!(error, "a");
        }
        stage => panic!("the second request comes next: {:?}", stage),
    }
    let stage = PolymarketApi::merge_answered(stage, fail("b"));
    assert!(matches!(&stage, MergeStage::Failed(text) if text == "Merge failed: a / b"));
    let stage = PolymarketApi::merge_answered(stage, Ok("0xlate".to_string()));
    assert!(matches!(stage, MergeStage::Failed(_)));
    let stage = PolymarketApi::merge_answered(start(), fail("a"));
    let stage = PolymarketApi::merge_answered(stage, Ok("0xsecond".to_string()));
    assert!(matches!(&stage, MergeStage::Done(hash) if hash == "0xsecond"));
}

#[test]
fn a_redemption_is_over_the_named_outcome() {
    for (outcome, set) in [("Up", 1u64), ("UPWARDS", 1), ("Down", 2), ("", 2)] {
        let request = PolymarketApi::redeem_tokens(CONDITION, collateral(), outcome).unwrap();
        assert_eq!(request.sets, vec![set]);
        assert_eq!(request.amount, None);
    }
}

#[test]
fn a_wrong_condition_is_an_error() {
    let error = PolymarketApi::split_shares("0xc5", collateral(), 1).unwrap_err();
    assert_eq!(error.message(), "Invalid condition_id: 0xc5");
    let error = PolymarketApi::merge_shares("zz", collateral(), 1).unwrap_err();
    assert_eq!(error.message(), "Invalid condition_id: zz");
    let error = PolymarketApi::redeem_tokens("", None, "Up").unwrap_err();
    assert_eq!(error.kind, ErrorKind::InvalidConditionId);
    let error = PolymarketApi::merge_shares_via_relayer("zz", collateral(), 1).unwrap_err();
    assert_eq!(error.message(), "Invalid condition_id");
    let error = PolymarketApi::split_shares(CONDITION, None, 1).unwrap_err();
    assert_eq!(error.message(), "No contract config for POLYGON");
}

#[test]
fn a_split_is_encoded_for_the_contract() {
    let data = PolymarketApi::split_shares_via_relayer(CONDITION, collateral(), 200).unwrap();
    let mut expected = vec![0x72, 0xce, 0x42, 0x75];
    expected.extend(address_word());
    expected.extend(word(0));
    expected.extend(word(0xc5));
    expected.extend(word(160));
    expected.extend(word(200));
    expected.extend(word(2));
    expected.extend(word(1));
    expected.extend(word(2));
    assert_eq!(data, expected);
}

#[test]
fn a_merge_is_encoded_for_the_contract() {
    let split = PolymarketApi::split_shares_via_relayer(CONDITION, collateral(), 3).unwrap();
    let merge = PolymarketApi::merge_shares_via_relayer(CONDITION, collateral(), 3).unwrap();
    assert_eq!(merge[..4], [0x9e, 0x72, 0x12, 0xad]);
    assert_eq!(merge[4..], split[4..]);
}

#[test]
fn a_redemption_is_encoded_for_the_contract() {
    let data = PolymarketApi::redeem_tokens_via_relayer(CONDITION, collateral(), "Down").unwrap();
    let mut expected = vec![0x01, 0xb7, 0x03, 0x7c];
    expected.extend(address_word());
    expected.extend(word(0));
    expected.extend(word(0xc5));
    expected.extend(word(128));
    expected.extend(word(1));
    expected.extend(word(2));
    assert_eq!(data, expected);
}

#[test]
fn a_redemption_reports_its_transaction() {
    let response = PolymarketApi::redeem_finished(true, "0xt".to_string());
    assert!(response.success);
    assert_eq!(response.message.as_deref(), Some("Redeemed via relayer. TX: 0xt"));
    assert_eq!(response.transaction_hash.as_deref(), Some("0xt"));
    assert!(response.amount_redeemed.is_none());
    let response = PolymarketApi::redeem_finished(false, "0xt".to_string());
    assert_eq!(response.message.as_deref(), Some("Redeemed. TX: 0xt"));
}

#[test]
fn the_relayer_needs_all_its_credentials() {
    let mut api = api(true);
    assert_eq!(api.get_relay_client().unwrap_err().message(), "relayer_api_key required");
    api.relayer_api_key = Some("k".to_string());
    assert_eq!(api.get_relay_client().unwrap_err().message(), "relayer_api_key_address required");
    api.relayer_api_key_address = Some("0xa".to_string());
    let credentials = api.get_relay_client().unwrap();
    assert_eq!(credentials.private_key, KEY_ONE);
    assert_eq!(credentials.api_key, "k");
    assert_eq!(credentials.api_key_address, "0xa");
    api.private_key = None;
    assert_eq!(api.get_relay_client().unwrap_err().message(), "Private key required for relayer");
}

#[test]
fn the_relayer_calls_the_contract_of_the_shares() {
    let transaction = relay_transaction(vec![1, 2, 3]);
    let text = "4d97dcd97ec945f40cf65f87097ace5ea0476045";
    for i in 0..20 {
        assert_eq!(
            transaction.to[i],
            u8::from_str_radix(&text[2 * i..2 * i + 2], 16).unwrap()
        );
    }
    assert_eq!(transaction.value, 0);
    assert_eq!(transaction.data, vec![1, 2, 3]);
    assert_eq!(transaction.operation, 0);
}

fn reply(state: &str, hash: Option<&str>) -> Option<RelayReply> {
    Some(RelayReply {
        state: state.to_string(),
        transaction_hash: hash.map(|text| text.to_string()),
    })
}

#[test]
fn a_transaction_on_chain_goes_by_its_hash() {
    let mut polling = RelayPolling::new("id".to_string(), "Split".to_string());
    assert!(matches!(polling.execute_relayer_tx(None), PollStep::Wait));
    assert!(matches!(polling.execute_relayer_tx(reply("STATE_NEW", None)), PollStep::Wait));
    assert!(matches!(
        polling.execute_relayer_tx(reply("STATE_CONFIRMED", Some("0xh"))),
        PollStep::Done(name) if name == "0xh"
    ));
    let mut polling = RelayPolling::new("id".to_string(), "Split".to_string());
    assert!(matches!(
        polling.execute_relayer_tx(reply("STATE_MINED", None)),
        PollStep::Done(name) if name == "id"
    ));
}

#[test]
fn a_failed_transaction_is_an_error() {
    let mut polling = RelayPolling::new("id".to_string(), "Merge".to_string());
    match polling.execute_relayer_tx(reply("STATE_FAILED", None)) {
        PollStep::Failed(error) => {
            assert_eq!(error.kind, ErrorKind::RelayerFailed);
            assert_eq!(
                error.message(),
                format!("Relayer {} failed: state={:?}", "Merge", "STATE_FAILED")
            );
        }
        _ => panic!("the transaction failed"),
    }
}

#[test]
fn the_relayer_is_asked_fifteen_times() {
    let mut polling = RelayPolling::new("id".to_string(), "Redeem".to_string());
    for _ in 0..14 {
        assert!(matches!(polling.execute_relayer_tx(None), PollStep::Wait));
    }
    assert!(matches!(
        polling.execute_relayer_tx(reply("STATE_NEW", None)),
        PollStep::Done(name) if name == "id"
    ));
    assert_eq!(polling.polls, 15);
}

fn run(retry: Retry, error: &str) -> Vec<u64> {
    let mut pauses = Vec::new();
    let mut running = retry;
    while let RetryStep::Again(pause, next) = running.failed(error) {
        pauses.push(pause);
        running = next;
    }
    pauses
}

#[test]
fn pauses_double_up_to_ten_seconds() {
    let retry = PolymarketApi::split_shares_with_retry(7, 1000).unwrap();
    assert_eq!(run(retry, "timeout"), vec![1000, 2000, 4000, 8000, 10000, 10000]);
    let retry = PolymarketApi::merge_shares_with_retry(3, 2000).unwrap();
    assert_eq!(retry.kind, RetryKind::Merge);
    assert_eq!(run(retry, "timeout"), vec![2000, 4000]);
    let retry = PolymarketApi::merge_shares_with_retry(3, u64::MAX).unwrap();
    assert_eq!(run(retry, "timeout"), vec![u64::MAX, 10000]);
    let retry = PolymarketApi::merge_shares_with_retry(1, 5).unwrap();
    assert_eq!(run(retry, "timeout"), Vec::<u64>::new());
}

#[test]
fn some_errors_are_not_tried_again() {
    let split = PolymarketApi::split_shares_with_retry(3, 1000).unwrap();
    let merge = PolymarketApi::merge_shares_with_retry(3, 1000).unwrap();
    for error in ["insufficient balance", "x user rejected y"] {
        assert_eq!(run(split, error), Vec::<u64>::new());
        assert_eq!(run(merge, error), Vec::<u64>::new());
    }
    assert_eq!(run(split, "API key disabled"), Vec::<u64>::new());
    assert_eq!(run(merge, "API key disabled").len(), 2);
    for error in [
        "insufficient funds",
        "condition already resolved",
        "subtraction overflow",
        "execution reverted",
    ] {
        assert_eq!(run(merge, error), Vec::<u64>::new());
        assert_eq!(run(split, error).len(), 2);
    }
    assert_eq!(run(split, "Insufficient Balance").len(), 2);
}

#[test]
fn without_tries_there_is_only_an_error() {
    let error = PolymarketApi::split_shares_with_retry(0, 1000).unwrap_err();
    assert_eq!(error.message(), "Split failed after 0 attempts");
    assert_eq!(error.kind, ErrorKind::SplitFailed);
    let error = PolymarketApi::merge_shares_with_retry(0, 1000).unwrap_err();
    assert_eq!(error.message(), "Merge failed after 0 attempts");
    assert_eq!(error.kind, ErrorKind::MergeFailed);
}
