//! Splitting, merging and redeeming shares on chain: requests, call data, the
//! relayer and retries.
use vstd::prelude::*;
use vstd::utf8::encode_utf8;

use crate::api::{
    plain_error, result_view, rpc_url_of, ApiError, ErrorKind, ErrorView, PolymarketApi,
};
use crate::evm::{
    be_bytes, be_value, encode_position_params, encode_redeem_params, fixed_hex, hex_encoded,
    hex_text_reads_back, keccak, keccak256, parse_word, position_params, redeem_params,
    signer_address, words,
};
use crate::models::{copy_text, RedeemResponse, RedeemView};
use crate::text::{
    contains_text, has_substring, hex_stripped, join, text_eq, to_upper, uppercase,
    without_hex_prefix,
};

verus! {

/// How often the relayer is asked for the state of a transaction.
pub const MAX_POLLS: u32 = 15;

/// The pause before each question to the relayer, in seconds.
pub const POLL_INTERVAL_SECS: u64 = 2;

/// The longest pause between two tries, in milliseconds.
pub const MAX_RETRY_DELAY_MS: u64 = 10_000;

/// A split, a merge or a redemption in the terms of the contract.
#[derive(Debug)]
pub struct PositionRequest {
    pub collateral: [u8; 20],
    pub condition_id: [u8; 32],
    /// The outcomes concerned, each as a set of bits.
    pub sets: Vec<u64>,
    /// In micros; nothing for a redemption, which takes all there is.
    pub amount: Option<u64>,
}

/// What a [`PositionRequest`] says.
#[verifier::ext_equal]
pub struct RequestView {
    pub collateral: Seq<u8>,
    pub condition_id: Seq<u8>,
    pub sets: Seq<u64>,
    pub amount: Option<u64>,
}

impl DeepView for PositionRequest {
    type V = RequestView;

    open spec fn deep_view(&self) -> RequestView {
        RequestView {
            collateral: self.collateral@,
            condition_id: self.condition_id@,
            sets: self.sets@,
            amount: self.amount,
        }
    }
}

/// The condition that a text names: 32 bytes of hexadecimal, `0x` in front
/// allowed.
pub open spec fn condition_of(text: Seq<char>) -> Option<Seq<u8>> {
    fixed_hex(hex_stripped(text), 32)
}

/// A request to the contract, or why there is none. `shown` is what the message
/// says of a condition that is none.
pub open spec fn position_request(
    condition_id: Seq<char>,
    shown: Seq<char>,
    collateral: Option<[u8; 20]>,
    sets: Seq<u64>,
    amount: Option<u64>,
) -> Result<RequestView, ErrorView> {
    match (condition_of(condition_id), collateral) {
        (None, _) => Err(ErrorView { kind: ErrorKind::InvalidConditionId, detail: shown }),
        (Some(_), None) => Err(plain_error(ErrorKind::NoContractConfig)),
        (Some(condition), Some(token)) => Ok(
            RequestView { collateral: token@, condition_id: condition, sets, amount },
        ),
    }
}

/// The set of outcomes that pays for an outcome in words: the first one where
/// the words say UP, the second one otherwise.
pub open spec fn index_set(outcome: Seq<char>) -> u64 {
    if has_substring(uppercase(outcome), "UP"@) {
        1
    } else {
        2
    }
}

/// The first four bytes of the hash of a function's signature.
pub open spec fn selector(signature: Seq<char>) -> Seq<u8> {
    keccak(encode_utf8(signature)).take(4)
}

/// 32 zero bytes: the collection of a condition that depends on no other.
pub open spec fn no_parent() -> Seq<u8> {
    Seq::new(32, |i: int| 0u8)
}

/// The call that splits dollars into shares of both outcomes.
pub open spec fn split_calldata(collateral: Seq<u8>, condition: Seq<u8>, amount: u64) -> Seq<u8> {
    selector("splitPosition(address,bytes32,bytes32,uint256[],uint256)"@) + position_params(
        collateral,
        no_parent(),
        condition,
        seq![1u64, 2u64],
        amount,
    )
}

/// The call that merges shares of both outcomes into dollars.
pub open spec fn merge_calldata(collateral: Seq<u8>, condition: Seq<u8>, amount: u64) -> Seq<u8> {
    selector("mergePositions(address,bytes32,bytes32,uint256[],uint256)"@) + position_params(
        collateral,
        no_parent(),
        condition,
        seq![1u64, 2u64],
        amount,
    )
}

/// The call that redeems the shares of one outcome.
pub open spec fn redeem_calldata(collateral: Seq<u8>, condition: Seq<u8>, set: u64) -> Seq<u8> {
    selector("redeemPositions(address,bytes32,bytes32,uint256[])"@) + redeem_params(
        collateral,
        no_parent(),
        condition,
        seq![set],
    )
}

/// How transactions get on chain.
#[derive(Debug)]
pub enum ChainRoute {
    /// Through the relayer.
    Relayer,
    /// Signed with this address and sent to this node.
    Direct { signer: [u8; 20], rpc_url: String },
}

/// What the relayer is signed in with.
#[derive(Debug)]
pub struct RelayCredentials {
    pub private_key: String,
    pub api_key: String,
    pub api_key_address: String,
}

/// A transaction for the relayer. No money goes with it, and it is a plain
/// call.
#[derive(Debug)]
pub struct RelayTransaction {
    pub to: [u8; 20],
    pub value: u64,
    pub data: Vec<u8>,
    pub operation: u8,
}

/// The contract that holds the shares.
pub open spec fn contract_address() -> Seq<u8> {
    seq![
        0x4Du8,
        0x97u8,
        0xDCu8,
        0xd9u8,
        0x7eu8,
        0xC9u8,
        0x45u8,
        0xf4u8,
        0x0cu8,
        0xF6u8,
        0x5Fu8,
        0x87u8,
        0x09u8,
        0x7Au8,
        0xCeu8,
        0x5Eu8,
        0xA0u8,
        0x47u8,
        0x60u8,
        0x45u8,
    ]
}

/// The first four bytes of the hash of a function's signature.
fn write_selector(signature: &str) -> (r: Vec<u8>)
    ensures
        r@ == selector(signature@),
{
    let mut hash = keccak256(signature.as_bytes());
    hash.truncate(4);
    assert(hash@ =~= selector(signature@));
    hash
}

/// A transaction that hands call data to the contract that holds the shares.
pub fn relay_transaction(calldata: Vec<u8>) -> (r: RelayTransaction)
    ensures
        r.to@ == contract_address(),
        r.value == 0,
        r.data == calldata,
        r.operation == 0,
{
    let to: [u8; 20] = [
        0x4D,
        0x97,
        0xDC,
        0xd9,
        0x7e,
        0xC9,
        0x45,
        0xf4,
        0x0c,
        0xF6,
        0x5F,
        0x87,
        0x09,
        0x7A,
        0xCe,
        0x5E,
        0xA0,
        0x47,
        0x60,
        0x45,
    ];
    assert(to@ =~= contract_address());
    RelayTransaction { to, value: 0, data: calldata, operation: 0 }
}

/// The number of the outcome set that is redeemed.
fn redeemed_set(outcome: &str) -> (r: u64)
    ensures
        r == index_set(outcome@),
{
    let upper = to_upper(outcome);
    if contains_text(upper.as_str(), "UP") {
        1
    } else {
        2
    }
}

/// A request to the contract, or why there is none.
fn build_request(
    condition_id: &str,
    shown: &str,
    collateral: Option<[u8; 20]>,
    sets: Vec<u64>,
    amount: Option<u64>,
) -> (r: Result<PositionRequest, ApiError>)
    ensures
        result_view(r) == position_request(condition_id@, shown@, collateral, sets@, amount),
{
    let clean = without_hex_prefix(condition_id);
    match parse_word(clean.as_str()) {
        None => Err(ApiError::with(ErrorKind::InvalidConditionId, shown)),
        Some(condition) => match collateral {
            None => Err(ApiError::plain(ErrorKind::NoContractConfig)),
            Some(token) => Ok(
                PositionRequest { collateral: token, condition_id: condition, sets, amount },
            ),
        },
    }
}

/// What the request for a set of bytes comes to as call data.
pub open spec fn relayed(
    condition_id: Seq<char>,
    collateral: Option<[u8; 20]>,
    data: spec_fn(Seq<u8>, Seq<u8>) -> Seq<u8>,
) -> Result<Seq<u8>, ErrorView> {
    match position_request(condition_id, Seq::empty(), collateral, Seq::empty(), None) {
        Ok(request) => Ok(data(request.collateral, request.condition_id)),
        Err(error) => Err(error),
    }
}

/// The call data of a split, or why there is none.
pub open spec fn relayed_split(
    condition_id: Seq<char>,
    collateral: Option<[u8; 20]>,
    amount: u64,
) -> Result<Seq<u8>, ErrorView> {
    relayed(
        condition_id,
        collateral,
        |token: Seq<u8>, condition: Seq<u8>| split_calldata(token, condition, amount),
    )
}

/// The call data of a merge, or why there is none.
pub open spec fn relayed_merge(
    condition_id: Seq<char>,
    collateral: Option<[u8; 20]>,
    amount: u64,
) -> Result<Seq<u8>, ErrorView> {
    relayed(
        condition_id,
        collateral,
        |token: Seq<u8>, condition: Seq<u8>| merge_calldata(token, condition, amount),
    )
}

/// The call data of a redemption, or why there is none.
pub open spec fn relayed_redemption(
    condition_id: Seq<char>,
    collateral: Option<[u8; 20]>,
    outcome: Seq<char>,
) -> Result<Seq<u8>, ErrorView> {
    relayed(
        condition_id,
        collateral,
        |token: Seq<u8>, condition: Seq<u8>| redeem_calldata(token, condition, index_set(outcome)),
    )
}

/// The request that splits dollars into shares of both outcomes, or why there is
/// none.
pub open spec fn split_request(
    condition_id: Seq<char>,
    collateral: Option<[u8; 20]>,
    amount: u64,
) -> Result<RequestView, ErrorView> {
    position_request(
        condition_id,
        ": "@ + condition_id,
        collateral,
        seq![1u64, 2u64],
        Some(amount),
    )
}

/// The request that a merge starts with, or why there is none.
pub open spec fn merge_request(
    condition_id: Seq<char>,
    collateral: Option<[u8; 20]>,
    amount: u64,
) -> Result<RequestView, ErrorView> {
    position_request(condition_id, ": "@ + condition_id, collateral, seq![1u64], Some(amount))
}

/// The request that redeems the shares of an outcome, or why there is none.
pub open spec fn redeem_request(
    condition_id: Seq<char>,
    collateral: Option<[u8; 20]>,
    outcome: Seq<char>,
) -> Result<RequestView, ErrorView> {
    position_request(
        condition_id,
        ": "@ + condition_id,
        collateral,
        seq![index_set(outcome)],
        None,
    )
}

/// What a result with bytes says.
pub open spec fn data_view(result: Result<Vec<u8>, ApiError>) -> Result<Seq<u8>, ErrorView> {
    match result {
        Ok(bytes) => Ok(bytes@),
        Err(error) => Err(error.deep_view()),
    }
}

/// Where a merge stands that the contract is asked for directly.
#[derive(Debug)]
pub enum MergeStage {
    /// This request, for the first outcome, is to be sent.
    First(PositionRequest),
    /// The first request failed for this reason; this one, for the second
    /// outcome, is to be sent.
    Second(PositionRequest, String),
    /// The hash of the transaction.
    Done(String),
    /// Why both requests failed.
    Failed(String),
}

/// What a [`MergeStage`] says.
#[verifier::ext_equal]
pub enum MergeStageView {
    First(RequestView),
    Second(RequestView, Seq<char>),
    Done(Seq<char>),
    Failed(Seq<char>),
}

impl DeepView for MergeStage {
    type V = MergeStageView;

    open spec fn deep_view(&self) -> MergeStageView {
        match self {
            MergeStage::First(request) => MergeStageView::First(request.deep_view()),
            MergeStage::Second(request, error) => MergeStageView::Second(
                request.deep_view(),
                error@,
            ),
            MergeStage::Done(hash) => MergeStageView::Done(hash@),
            MergeStage::Failed(text) => MergeStageView::Failed(text@),
        }
    }
}

impl MergeStageView {
    /// The stage after the answer to the request that it asks for.
    pub open spec fn next(self, answer: Result<String, String>) -> MergeStageView {
        match (self, answer) {
            (MergeStageView::First(_), Ok(hash)) => MergeStageView::Done(hash@),
            (MergeStageView::First(request), Err(error)) => MergeStageView::Second(
                RequestView { sets: seq![2u64], ..request },
                error@,
            ),
            (MergeStageView::Second(_, _), Ok(hash)) => MergeStageView::Done(hash@),
            (MergeStageView::Second(_, first), Err(second)) => MergeStageView::Failed(
                "Merge failed: "@ + first + " / "@ + second@,
            ),
            (ended, _) => ended,
        }
    }

    /// The stage after a series of answers.
    pub open spec fn after(self, answers: Seq<Result<String, String>>) -> MergeStageView
        decreases answers.len(),
    {
        if answers.len() == 0 {
            self
        } else {
            self.next(answers[0]).after(answers.drop_first())
        }
    }

    /// How many requests are sent while the answers come in, the first included.
    pub open spec fn requests(self, answers: Seq<Result<String, String>>) -> nat
        decreases answers.len(),
    {
        let rest = if answers.len() == 0 {
            0
        } else {
            self.next(answers[0]).requests(answers.drop_first())
        };
        if self is First || self is Second {
            1 + rest
        } else {
            rest
        }
    }
}

/// A merge that has ended sends nothing more and stays as it is.
proof fn lemma_merge_ended(stage: MergeStageView, answers: Seq<Result<String, String>>)
    requires
        stage is Done || stage is Failed,
    ensures
        stage.after(answers) == stage,
        stage.requests(answers) == 0,
    decreases answers.len(),
{
    if answers.len() > 0 {
        lemma_merge_ended(stage, answers.drop_first());
    }
}

/// A merge sends a second request exactly where the first one failed, and never
/// a third. It is done with the first success, and after two failures it has
/// failed with the texts of both.
pub proof fn a_merge_is_tried_twice(request: RequestView, answers: Seq<Result<String, String>>)
    ensures
        ({
            let start = MergeStageView::First(request);
            &&& start.requests(answers) == if answers.len() > 0 && answers[0] is Err {
                2int
            } else {
                1int
            }
            &&& answers.len() == 1 && answers[0] is Err ==> start.after(answers)
                == MergeStageView::Second(
                RequestView { sets: seq![2u64], ..request },
                answers[0]->Err_0@,
            )
            &&& answers.len() > 0 && answers[0] is Ok ==> start.after(answers)
                == MergeStageView::Done(answers[0]->Ok_0@)
            &&& answers.len() > 1 && answers[0] is Err ==> start.after(answers) == match answers[1] {
                Ok(hash) => MergeStageView::Done(hash@),
                Err(second) => MergeStageView::Failed(
                    "Merge failed: "@ + answers[0]->Err_0@ + " / "@ + second@,
                ),
            }
        }),
{
    reveal_with_fuel(MergeStageView::after, 3);
    reveal_with_fuel(MergeStageView::requests, 3);
    let start = MergeStageView::First(request);
    if answers.len() > 0 {
        let rest = answers.drop_first();
        let next = start.next(answers[0]);
        if answers[0] is Ok {
            lemma_merge_ended(next, rest);
        } else if answers.len() > 1 {
            assert(rest[0] == answers[1]);
            lemma_merge_ended(next.next(rest[0]), rest.drop_first());
        }
    }
}

/// How transactions get on chain: through the relayer, which is `None`, or with
/// the address that signs and the node that they are sent to.
pub open spec fn route_of(use_relayer: bool, private_key: Option<Seq<char>>, url: Seq<char>) -> Result<
    Option<(Seq<u8>, Seq<char>)>,
    ErrorKind,
> {
    if use_relayer {
        Ok(None)
    } else {
        match private_key {
            Some(key) => match signer_address(key) {
                Some(address) => Ok(Some((address, url))),
                None => Err(ErrorKind::SignerFailed),
            },
            None => Err(ErrorKind::PrivateKeyRequired),
        }
    }
}

/// Where the relayer is used everything goes through it; otherwise everything is
/// signed with the private key, which has to be one, and sent to the node.
pub proof fn the_relayer_is_used_where_it_is_set(
    private_key: Option<Seq<char>>,
    url: Seq<char>,
)
    ensures
        route_of(true, private_key, url) is Ok && route_of(true, private_key, url)->Ok_0 is None,
        ({
            let direct = route_of(false, private_key, url);
            &&& direct is Ok == (private_key is Some && signer_address(private_key->0) is Some)
            &&& direct is Ok ==> direct->Ok_0 is Some
            &&& direct matches Ok(Some((address, node))) ==> Some(address) == signer_address(
                private_key->0,
            ) && node == url
            &&& private_key is None ==> direct->Err_0 == ErrorKind::PrivateKeyRequired
            &&& private_key is Some && direct is Err ==> direct->Err_0 == ErrorKind::SignerFailed
        }),
{
}

/// What came of a redemption.
pub open spec fn redeemed(relayed: bool, tx_hash: Seq<char>) -> RedeemView {
    RedeemView {
        success: true,
        message: Some(
            (if relayed {
                "Redeemed via relayer. TX: "@
            } else {
                "Redeemed. TX: "@
            }) + tx_hash,
        ),
        transaction_hash: Some(tx_hash),
        amount_redeemed: None,
    }
}

impl PolymarketApi {
    /// How transactions of this account get on chain.
    pub fn chain_route(
        &self,
        polygon_rpc_url: Option<String>,
        alchemy_api_key: Option<String>,
    ) -> (r: Result<ChainRoute, ApiError>)
        ensures
            match route_of(
                self.use_relayer,
                self.private_key.deep_view(),
                rpc_url_of(
                    self.rpc_url.deep_view(),
                    polygon_rpc_url.deep_view(),
                    alchemy_api_key.deep_view(),
                ),
            ) {
                Ok(None) => r == Ok::<ChainRoute, ApiError>(ChainRoute::Relayer),
                Ok(Some((address, url))) => r matches Ok(ChainRoute::Direct { signer, rpc_url })
                    && signer@ == address && rpc_url@ == url,
                Err(kind) => r matches Err(error) && error.deep_view() == plain_error(kind),
            },
    {
        if self.use_relayer {
            return Ok(ChainRoute::Relayer);
        }
        match self.create_signer() {
            Ok(signer) => {
                let rpc_url = self.get_rpc_url(polygon_rpc_url, alchemy_api_key);
                Ok(ChainRoute::Direct { signer, rpc_url })
            },
            Err(error) => Err(error),
        }
    }

    /// The request that splits `amount` micros into shares of both outcomes.
    pub fn split_shares(condition_id: &str, collateral: Option<[u8; 20]>, amount: u64) -> (r: Result<
        PositionRequest,
        ApiError,
    >)
        ensures
            result_view(r) == split_request(condition_id@, collateral, amount),
    {
        let shown = join(": ", condition_id);
        let sets: Vec<u64> = vec![1, 2];
        assert(sets@ =~= seq![1u64, 2u64]);
        build_request(condition_id, shown.as_str(), collateral, sets, Some(amount))
    }

    /// The start of a merge of `amount` micros: a request for the first outcome.
    pub fn merge_shares(condition_id: &str, collateral: Option<[u8; 20]>, amount: u64) -> (r: Result<
        MergeStage,
        ApiError,
    >)
        ensures
            match merge_request(condition_id@, collateral, amount) {
                Ok(request) => r matches Ok(stage) && stage.deep_view() == MergeStageView::First(
                    request,
                ),
                Err(error) => r matches Err(e) && e.deep_view() == error,
            },
    {
        let shown = join(": ", condition_id);
        let sets: Vec<u64> = vec![1];
        assert(sets@ =~= seq![1u64]);
        match build_request(condition_id, shown.as_str(), collateral, sets, Some(amount)) {
            Ok(request) => Ok(MergeStage::First(request)),
            Err(error) => Err(error),
        }
    }

    /// Goes on with what came of the request that a merge asked for: the hash of
    /// its transaction, or why it failed.
    pub fn merge_answered(stage: MergeStage, answer: Result<String, String>) -> (r: MergeStage)
        ensures
            r.deep_view() == stage.deep_view().next(answer),
    {
        match stage {
            MergeStage::First(request) => match answer {
                Ok(hash) => MergeStage::Done(hash),
                Err(error) => {
                    let sets: Vec<u64> = vec![2];
                    assert(sets@ =~= seq![2u64]);
                    let second = PositionRequest {
                        collateral: request.collateral,
                        condition_id: request.condition_id,
                        sets,
                        amount: request.amount,
                    };
                    MergeStage::Second(second, error)
                },
            },
            MergeStage::Second(_, first) => match answer {
                Ok(hash) => MergeStage::Done(hash),
                Err(second) => {
                    let mut text = join("Merge failed: ", first.as_str());
                    text.append(" / ");
                    text.append(second.as_str());
                    MergeStage::Failed(text)
                },
            },
            MergeStage::Done(hash) => MergeStage::Done(hash),
            MergeStage::Failed(text) => MergeStage::Failed(text),
        }
    }

    /// The request that redeems the shares of an outcome.
    pub fn redeem_tokens(condition_id: &str, collateral: Option<[u8; 20]>, outcome: &str) -> (r:
        Result<PositionRequest, ApiError>)
        ensures
            result_view(r) == redeem_request(condition_id@, collateral, outcome@),
    {
        let shown = join(": ", condition_id);
        let set: u64 = redeemed_set(outcome);
        let mut sets: Vec<u64> = Vec::new();
        sets.push(set);
        assert(sets@ =~= seq![index_set(outcome@)]);
        build_request(condition_id, shown.as_str(), collateral, sets, None)
    }

    /// What came of a redemption, through the relayer or not.
    pub fn redeem_finished(relayed: bool, tx_hash: String) -> (r: RedeemResponse)
        ensures
            r.deep_view() == redeemed(relayed, tx_hash@),
    {
        let message = if relayed {
            join("Redeemed via relayer. TX: ", tx_hash.as_str())
        } else {
            join("Redeemed. TX: ", tx_hash.as_str())
        };
        RedeemResponse {
            success: true,
            message: Some(message),
            transaction_hash: Some(tx_hash),
            amount_redeemed: None,
        }
    }

    /// The call data that splits `amount` micros into shares of both outcomes.
    pub fn split_shares_via_relayer(
        condition_id: &str,
        collateral: Option<[u8; 20]>,
        amount: u64,
    ) -> (r: Result<Vec<u8>, ApiError>)
        ensures
            data_view(r) == relayed_split(condition_id@, collateral, amount),
    {
        let none: Vec<u64> = Vec::new();
        let empty = crate::api::empty_text();
        match build_request(condition_id, empty.as_str(), collateral, none, None) {
            Ok(request) => {
                let parent: [u8; 32] = [0; 32];
                let sets: Vec<u64> = vec![1, 2];
                let mut data = write_selector(
                    "splitPosition(address,bytes32,bytes32,uint256[],uint256)",
                );
                let mut params = encode_position_params(
                    &request.collateral,
                    &parent,
                    &request.condition_id,
                    &sets,
                    amount,
                );
                data.append(&mut params);
                assert(parent@ =~= no_parent());
                assert(sets@ =~= seq![1u64, 2u64]);
                Ok(data)
            },
            Err(error) => Err(error),
        }
    }

    /// The call data that merges `amount` micros of both outcomes into dollars.
    pub fn merge_shares_via_relayer(
        condition_id: &str,
        collateral: Option<[u8; 20]>,
        amount: u64,
    ) -> (r: Result<Vec<u8>, ApiError>)
        ensures
            data_view(r) == relayed_merge(condition_id@, collateral, amount),
    {
        let none: Vec<u64> = Vec::new();
        let empty = crate::api::empty_text();
        match build_request(condition_id, empty.as_str(), collateral, none, None) {
            Ok(request) => {
                let parent: [u8; 32] = [0; 32];
                let sets: Vec<u64> = vec![1, 2];
                let mut data = write_selector(
                    "mergePositions(address,bytes32,bytes32,uint256[],uint256)",
                );
                let mut params = encode_position_params(
                    &request.collateral,
                    &parent,
                    &request.condition_id,
                    &sets,
                    amount,
                );
                data.append(&mut params);
                assert(parent@ =~= no_parent());
                assert(sets@ =~= seq![1u64, 2u64]);
                Ok(data)
            },
            Err(error) => Err(error),
        }
    }

    /// The call data that redeems the shares of an outcome.
    pub fn redeem_tokens_via_relayer(
        condition_id: &str,
        collateral: Option<[u8; 20]>,
        outcome: &str,
    ) -> (r: Result<Vec<u8>, ApiError>)
        ensures
            data_view(r) == relayed_redemption(condition_id@, collateral, outcome@),
    {
        let none: Vec<u64> = Vec::new();
        let empty = crate::api::empty_text();
        match build_request(condition_id, empty.as_str(), collateral, none, None) {
            Ok(request) => {
                let parent: [u8; 32] = [0; 32];
                let mut sets: Vec<u64> = Vec::new();
                sets.push(redeemed_set(outcome));
                let mut data = write_selector("redeemPositions(address,bytes32,bytes32,uint256[])");
                let mut params = encode_redeem_params(
                    &request.collateral,
                    &parent,
                    &request.condition_id,
                    &sets,
                );
                data.append(&mut params);
                assert(parent@ =~= no_parent());
                assert(sets@ =~= seq![index_set(outcome@)]);
                Ok(data)
            },
            Err(error) => Err(error),
        }
    }

    /// What the relayer is signed in with. The private key is looked for first,
    /// and then the key of the relayer and its address.
    pub fn get_relay_client(&self) -> (r: Result<RelayCredentials, ApiError>)
        ensures
            match relay_login(
                self.private_key,
                self.relayer_api_key,
                self.relayer_api_key_address,
            ) {
                Ok(credentials) => r == Ok::<RelayCredentials, ApiError>(credentials),
                Err(kind) => r matches Err(error) && error.deep_view() == plain_error(kind),
            },
    {
        let private_key = match copy_text(&self.private_key) {
            Some(text) => text,
            None => {
                return Err(ApiError::plain(ErrorKind::RelayerPrivateKeyRequired));
            },
        };
        let api_key = match copy_text(&self.relayer_api_key) {
            Some(text) => text,
            None => {
                return Err(ApiError::plain(ErrorKind::RelayerKeyRequired));
            },
        };
        let api_key_address = match copy_text(&self.relayer_api_key_address) {
            Some(text) => text,
            None => {
                return Err(ApiError::plain(ErrorKind::RelayerKeyAddressRequired));
            },
        };
        Ok(RelayCredentials { private_key, api_key, api_key_address })
    }
}

/// What the relayer is signed in with, or what is missing for it.
pub open spec fn relay_login(
    private_key: Option<String>,
    api_key: Option<String>,
    api_key_address: Option<String>,
) -> Result<RelayCredentials, ErrorKind> {
    match (private_key, api_key, api_key_address) {
        (Some(signer), Some(key), Some(address)) => Ok(
            RelayCredentials { private_key: signer, api_key: key, api_key_address: address },
        ),
        (None, _, _) => Err(ErrorKind::RelayerPrivateKeyRequired),
        (_, None, _) => Err(ErrorKind::RelayerKeyRequired),
        (_, _, None) => Err(ErrorKind::RelayerKeyAddressRequired),
    }
}

/// The relayer is signed in with each of the three as what it is, and all three
/// are needed; of those that are missing the first is the error.
pub proof fn the_relayer_takes_all_three(
    private_key: Option<String>,
    api_key: Option<String>,
    api_key_address: Option<String>,
)
    ensures
        ({
            let made = relay_login(private_key, api_key, api_key_address);
            &&& made is Ok == (private_key is Some && api_key is Some && api_key_address is Some)
            &&& made matches Ok(login) ==> Some(login.private_key) == private_key && Some(
                login.api_key,
            ) == api_key && Some(login.api_key_address) == api_key_address
            &&& private_key is None ==> made->Err_0 == ErrorKind::RelayerPrivateKeyRequired
            &&& private_key is Some && api_key is None ==> made->Err_0
                == ErrorKind::RelayerKeyRequired
            &&& private_key is Some && api_key is Some && api_key_address is None ==> made->Err_0
                == ErrorKind::RelayerKeyAddressRequired
        }),
{
}

/// What the relayer says of a transaction.
#[derive(Debug)]
pub struct RelayReply {
    pub state: String,
    pub transaction_hash: Option<String>,
}

/// A transaction that the relayer has taken, and how often it was asked for its
/// state.
#[derive(Debug)]
pub struct RelayPolling {
    pub tx_id: String,
    pub label: String,
    pub polls: u32,
}

/// What follows an answer of the relayer.
#[derive(Debug)]
pub enum PollStep {
    /// It is to be asked again.
    Wait,
    /// The transaction goes by this name.
    Done(String),
    /// The transaction failed.
    Failed(ApiError),
}

/// What a [`PollStep`] says.
#[verifier::ext_equal]
pub enum PollView {
    Wait,
    Done(Seq<char>),
    Failed(ErrorView),
}

impl DeepView for PollStep {
    type V = PollView;

    open spec fn deep_view(&self) -> PollView {
        match self {
            PollStep::Wait => PollView::Wait,
            PollStep::Done(name) => PollView::Done(name@),
            PollStep::Failed(error) => PollView::Failed(error.deep_view()),
        }
    }
}

/// What follows the relayer's answer to question number `polls`, where it could
/// be read. A transaction that is on chain goes by its hash, or by the relayer's
/// id where it has none; after the last question the id has to do.
pub open spec fn poll_step(
    tx_id: Seq<char>,
    label: Seq<char>,
    polls: u32,
    reply: Option<RelayReply>,
) -> PollView {
    let last = if polls >= MAX_POLLS {
        PollView::Done(tx_id)
    } else {
        PollView::Wait
    };
    match reply {
        Some(answer) => if answer.state@ == "STATE_CONFIRMED"@ || answer.state@ == "STATE_MINED"@ {
            PollView::Done(
                match answer.transaction_hash {
                    Some(hash) => hash@,
                    None => tx_id,
                },
            )
        } else if answer.state@ == "STATE_FAILED"@ {
            PollView::Failed(
                ErrorView {
                    kind: ErrorKind::RelayerFailed,
                    detail: label + " failed: state=\"STATE_FAILED\""@,
                },
            )
        } else {
            last
        },
        None => last,
    }
}

impl RelayPolling {
    /// A transaction that the relayer has just taken.
    pub fn new(tx_id: String, label: String) -> (r: Self)
        ensures
            r == (RelayPolling { tx_id, label, polls: 0 }),
    {
        RelayPolling { tx_id, label, polls: 0 }
    }

    /// Takes in the relayer's answer, where it could be read.
    pub fn execute_relayer_tx(&mut self, reply: Option<RelayReply>) -> (r: PollStep)
        requires
            old(self).polls < MAX_POLLS,
        ensures
            *final(self) == (RelayPolling { polls: (old(self).polls + 1) as u32, ..*old(self) }),
            r.deep_view() == poll_step(
                old(self).tx_id@,
                old(self).label@,
                final(self).polls,
                reply,
            ),
            r is Wait ==> final(self).polls < MAX_POLLS,
    {
        self.polls = self.polls + 1;
        if let Some(answer) = reply {
            let state = answer.state.as_str();
            if text_eq(state, "STATE_CONFIRMED") || text_eq(state, "STATE_MINED") {
                return PollStep::Done(
                    match answer.transaction_hash {
                        Some(hash) => hash,
                        None => self.tx_id.clone(),
                    },
                );
            }
            if text_eq(state, "STATE_FAILED") {
                let detail = join(self.label.as_str(), " failed: state=\"STATE_FAILED\"");
                return PollStep::Failed(ApiError { kind: ErrorKind::RelayerFailed, detail });
            }
        }
        if self.polls >= MAX_POLLS {
            PollStep::Done(self.tx_id.clone())
        } else {
            PollStep::Wait
        }
    }
}

/// The relayer is asked at most fifteen times: whatever it answers, the last
/// answer ends the wait.
pub proof fn polling_ends(
    tx_id: Seq<char>,
    label: Seq<char>,
    polls: u32,
    reply: Option<RelayReply>,
)
    requires
        polls >= MAX_POLLS,
    ensures
        !(poll_step(tx_id, label, polls, reply) is Wait),
{
}

/// What is tried again.
#[derive(Debug, Clone, Copy, PartialEq, Eq, Structural)]
pub enum RetryKind {
    Split,
    Merge,
}

/// An error that another try would not mend.
pub open spec fn is_final(kind: RetryKind, error: Seq<char>) -> bool {
    match kind {
        RetryKind::Split => {
            ||| has_substring(error, "insufficient balance"@)
            ||| has_substring(error, "user rejected"@)
            ||| has_substring(error, "API key disabled"@)
        },
        RetryKind::Merge => {
            ||| has_substring(error, "insufficient balance"@)
            ||| has_substring(error, "insufficient funds"@)
            ||| has_substring(error, "user rejected"@)
            ||| has_substring(error, "condition already resolved"@)
            ||| has_substring(error, "subtraction overflow"@)
            ||| has_substring(error, "execution reverted"@)
        },
    }
}

/// A split or a merge under way: which try is running, and how long the next
/// pause will be.
#[derive(Debug, Clone, Copy)]
pub struct Retry {
    pub kind: RetryKind,
    pub attempt: u32,
    pub max_retries: u32,
    pub delay_ms: u64,
}

/// What follows a try that failed.
#[derive(Debug, Clone, Copy)]
pub enum RetryStep {
    /// Wait for so many milliseconds, and go on with this try.
    Again(u64, Retry),
    /// The error stands.
    GiveUp,
}

/// The pause after a pause: twice as long, but not over ten seconds.
pub open spec fn next_delay(delay_ms: u64) -> u64 {
    if 2 * delay_ms > MAX_RETRY_DELAY_MS {
        MAX_RETRY_DELAY_MS
    } else {
        (2 * delay_ms) as u64
    }
}

impl Retry {
    /// The running try is one of those allowed.
    pub open spec fn well_formed(self) -> bool {
        1 <= self.attempt <= self.max_retries
    }

    /// What follows where the running try failed with this error.
    pub open spec fn after_failure(self, error: Seq<char>) -> RetryStep {
        if is_final(self.kind, error) || self.attempt >= self.max_retries {
            RetryStep::GiveUp
        } else {
            RetryStep::Again(
                self.delay_ms,
                Retry {
                    attempt: (self.attempt + 1) as u32,
                    delay_ms: next_delay(self.delay_ms),
                    ..self
                },
            )
        }
    }

    /// Says what follows where the running try failed with this error.
    pub fn failed(&self, error: &str) -> (r: RetryStep)
        requires
            self.well_formed(),
        ensures
            r == self.after_failure(error@),
            r matches RetryStep::Again(_, next) ==> next.well_formed(),
    {
        let stop = match self.kind {
            RetryKind::Split => contains_text(error, "insufficient balance") || contains_text(
                error,
                "user rejected",
            ) || contains_text(error, "API key disabled"),
            RetryKind::Merge => contains_text(error, "insufficient balance") || contains_text(
                error,
                "insufficient funds",
            ) || contains_text(error, "user rejected") || contains_text(
                error,
                "condition already resolved",
            ) || contains_text(error, "subtraction overflow") || contains_text(
                error,
                "execution reverted",
            ),
        };
        if stop || self.attempt >= self.max_retries {
            return RetryStep::GiveUp;
        }
        let delay_ms: u64 = if self.delay_ms > MAX_RETRY_DELAY_MS / 2 {
            MAX_RETRY_DELAY_MS
        } else {
            self.delay_ms * 2
        };
        RetryStep::Again(
            self.delay_ms,
            Retry {
                kind: self.kind,
                attempt: self.attempt + 1,
                max_retries: self.max_retries,
                delay_ms,
            },
        )
    }
}

/// The first try of a split or a merge; an error where no try is allowed.
pub open spec fn first_try(kind: RetryKind, max_retries: u32, initial_delay_ms: u64) -> Result<
    Retry,
    ErrorView,
> {
    if max_retries == 0 {
        Err(
            match kind {
                RetryKind::Split => ErrorView {
                    kind: ErrorKind::SplitFailed,
                    detail: "Split failed after 0 attempts"@,
                },
                RetryKind::Merge => ErrorView {
                    kind: ErrorKind::MergeFailed,
                    detail: "Merge failed after 0 attempts"@,
                },
            },
        )
    } else {
        Ok(Retry { kind, attempt: 1, max_retries, delay_ms: initial_delay_ms })
    }
}

/// What the result of a start says.
pub open spec fn start_view(result: Result<Retry, ApiError>) -> Result<Retry, ErrorView> {
    match result {
        Ok(retry) => Ok(retry),
        Err(error) => Err(error.deep_view()),
    }
}

impl PolymarketApi {
    /// Starts the tries of a split.
    pub fn split_shares_with_retry(max_retries: u32, initial_delay_ms: u64) -> (r: Result<
        Retry,
        ApiError,
    >)
        ensures
            start_view(r) == first_try(RetryKind::Split, max_retries, initial_delay_ms),
            r matches Ok(retry) ==> retry.well_formed(),
    {
        if max_retries == 0 {
            return Err(ApiError::with(ErrorKind::SplitFailed, "Split failed after 0 attempts"));
        }
        Ok(
            Retry {
                kind: RetryKind::Split,
                attempt: 1,
                max_retries,
                delay_ms: initial_delay_ms,
            },
        )
    }

    /// Starts the tries of a merge.
    pub fn merge_shares_with_retry(max_retries: u32, initial_delay_ms: u64) -> (r: Result<
        Retry,
        ApiError,
    >)
        ensures
            start_view(r) == first_try(RetryKind::Merge, max_retries, initial_delay_ms),
            r matches Ok(retry) ==> retry.well_formed(),
    {
        if max_retries == 0 {
            return Err(ApiError::with(ErrorKind::MergeFailed, "Merge failed after 0 attempts"));
        }
        Ok(
            Retry {
                kind: RetryKind::Merge,
                attempt: 1,
                max_retries,
                delay_ms: initial_delay_ms,
            },
        )
    }
}

/// The pauses that a series of failures leads to.
pub open spec fn pauses(retry: Retry, errors: Seq<Seq<char>>) -> Seq<u64>
    decreases errors.len(),
{
    if errors.len() == 0 {
        Seq::empty()
    } else {
        match retry.after_failure(errors[0]) {
            RetryStep::Again(pause, next) => seq![pause] + pauses(next, errors.drop_first()),
            RetryStep::GiveUp => Seq::empty(),
        }
    }
}

/// However often a split or a merge fails, there are no more tries than are
/// allowed, and so fewer pauses; and no pause but the first is over ten
/// seconds.
pub proof fn retries_are_bounded(retry: Retry, errors: Seq<Seq<char>>)
    requires
        retry.well_formed(),
    ensures
        pauses(retry, errors).len() <= retry.max_retries - retry.attempt,
        forall|i: int|
            1 <= i < pauses(retry, errors).len() ==> #[trigger] pauses(retry, errors)[i]
                <= MAX_RETRY_DELAY_MS,
        pauses(retry, errors).len() > 0 ==> pauses(retry, errors)[0] == retry.delay_ms,
    decreases errors.len(),
{
    if errors.len() > 0 {
        if let RetryStep::Again(pause, next) = retry.after_failure(errors[0]) {
            retries_are_bounded(next, errors.drop_first());
            let rest = pauses(next, errors.drop_first());
            let all = pauses(retry, errors);
            assert(all =~= seq![pause] + rest);
            assert forall|i: int| 1 <= i < all.len() implies #[trigger] all[i]
                <= MAX_RETRY_DELAY_MS by {
                assert(all[i] == rest[i - 1]);
                if i == 1 {
                    assert(rest[0] == next.delay_ms);
                }
            }
        }
    }
}

/// An error that another try would not mend ends the tries at once.
pub proof fn final_errors_stop(retry: Retry, error: Seq<char>)
    requires
        is_final(retry.kind, error),
    ensures
        retry.after_failure(error) is GiveUp,
{
}

/// A number fits in so many bytes.
spec fn fits(n: nat, width: nat) -> bool
    decreases width,
{
    if width == 0 {
        n == 0
    } else {
        fits(n / 256, (width - 1) as nat)
    }
}

/// Zero fits anywhere.
proof fn lemma_zero_fits(width: nat)
    ensures
        fits(0, width),
    decreases width,
{
    if width > 0 {
        lemma_zero_fits((width - 1) as nat);
    }
}

/// A number that fits is read back from its bytes.
proof fn lemma_bytes_read_back(n: nat, width: nat)
    ensures
        be_bytes(n, width).len() == width,
        fits(n, width) ==> be_value(be_bytes(n, width)) == n,
    decreases width,
{
    if width > 0 {
        lemma_bytes_read_back(n / 256, (width - 1) as nat);
        let bytes = be_bytes(n, width);
        assert(bytes.drop_last() =~= be_bytes(n / 256, (width - 1) as nat));
        assert(bytes.last() == (n % 256) as u8);
    }
}

/// A 64-bit number is read back from its word of 32 bytes.
proof fn lemma_word_reads_back(n: u64)
    ensures
        be_bytes(n as nat, 32).len() == 32,
        be_value(be_bytes(n as nat, 32)) == n,
{
    reveal_with_fuel(fits, 9);
    lemma_zero_fits(24);
    lemma_bytes_read_back(n as nat, 32);
}

/// The number in a word of call data, counted from behind its selector.
pub open spec fn word_at(data: Seq<u8>, start: int, word: int) -> nat {
    be_value(data.subrange(start + 32 * word, start + 32 * word + 32))
}

/// The array of one set is its word.
proof fn lemma_one_word(set: u64)
    ensures
        words(seq![set]) == be_bytes(set as nat, 32),
{
    reveal_with_fuel(words, 2);
    assert(seq![set].drop_last() =~= Seq::<u64>::empty());
    assert(Seq::<u8>::empty() + be_bytes(set as nat, 32) =~= be_bytes(set as nat, 32));
}

/// The array of two sets is their words.
proof fn lemma_two_words(first: u64, second: u64)
    ensures
        words(seq![first, second]) == be_bytes(first as nat, 32) + be_bytes(second as nat, 32),
{
    reveal_with_fuel(words, 2);
    assert(seq![first, second].drop_last() =~= seq![first]);
    lemma_one_word(first);
}

/// The call data of a redemption names the token that pays, the condition and,
/// as the one element of its array, the outcome: 1 where its capitals hold UP,
/// 2 otherwise.
pub proof fn a_redemption_is_of_its_outcome(
    condition_id: Seq<char>,
    collateral: [u8; 20],
    outcome: Seq<char>,
)
    ensures
        condition_of(condition_id) is None ==> relayed_redemption(
            condition_id,
            Some(collateral),
            outcome,
        ) is Err,
        condition_of(condition_id) is Some ==> {
            let made = relayed_redemption(condition_id, Some(collateral), outcome);
            let name = selector("redeemPositions(address,bytes32,bytes32,uint256[])"@);
            let n = name.len() as int;
            &&& made is Ok
            &&& made->Ok_0.len() == n + 192
            &&& made->Ok_0.take(n) == name
            &&& made->Ok_0.subrange(n + 12, n + 32) == collateral@
            &&& forall|i: int| n + 32 <= i < n + 64 ==> #[trigger] made->Ok_0[i] == 0
            &&& made->Ok_0.subrange(n + 64, n + 96) == condition_of(condition_id)->0
            &&& word_at(made->Ok_0, n, 3) == 128
            &&& word_at(made->Ok_0, n, 4) == 1
            &&& has_substring(uppercase(outcome), "UP"@) ==> word_at(made->Ok_0, n, 5) == 1
            &&& !has_substring(uppercase(outcome), "UP"@) ==> word_at(made->Ok_0, n, 5) == 2
        },
{
    if let Some(condition) = condition_of(condition_id) {
        let name = selector("redeemPositions(address,bytes32,bytes32,uint256[])"@);
        let n = name.len() as int;
        let set: u64 = if has_substring(uppercase(outcome), "UP"@) {
            1
        } else {
            2
        };
        lemma_word_reads_back(128);
        lemma_word_reads_back(1);
        lemma_word_reads_back(set);
        lemma_bytes_read_back(0, 12);
        lemma_one_word(set);
        let data = relayed_redemption(condition_id, Some(collateral), outcome)->Ok_0;
        let params = be_bytes(0, 12) + collateral@ + no_parent() + condition + be_bytes(128, 32)
            + be_bytes(1, 32) + be_bytes(set as nat, 32);
        assert(data =~= name + params);
        assert(data.take(n) =~= name);
        assert(data.subrange(n + 12, n + 32) =~= collateral@);
        assert forall|i: int| n + 32 <= i < n + 64 implies #[trigger] data[i] == 0 by {
            assert(data[i] == no_parent()[i - n - 32]);
        }
        assert(data.subrange(n + 64, n + 96) =~= condition);
        assert(data.subrange(n + 96, n + 128) =~= be_bytes(128, 32));
        assert(data.subrange(n + 128, n + 160) =~= be_bytes(1, 32));
        assert(data.subrange(n + 160, n + 192) =~= be_bytes(set as nat, 32));
    }
}

/// The call data of two redemptions of one condition differ where one is of Up
/// and the other is not, and are the same otherwise.
pub proof fn redemptions_of_the_two_outcomes_differ(
    condition_id: Seq<char>,
    collateral: [u8; 20],
    one: Seq<char>,
    other: Seq<char>,
)
    requires
        condition_of(condition_id) is Some,
    ensures
        (relayed_redemption(condition_id, Some(collateral), one) == relayed_redemption(
            condition_id,
            Some(collateral),
            other,
        )) == (has_substring(uppercase(one), "UP"@) == has_substring(uppercase(other), "UP"@)),
        (redeem_request(condition_id, Some(collateral), one) == redeem_request(
            condition_id,
            Some(collateral),
            other,
        )) == (has_substring(uppercase(one), "UP"@) == has_substring(uppercase(other), "UP"@)),
{
    a_redemption_is_of_its_outcome(condition_id, collateral, one);
    a_redemption_is_of_its_outcome(condition_id, collateral, other);
    if has_substring(uppercase(one), "UP"@) != has_substring(uppercase(other), "UP"@) {
        assert(seq![index_set(one)][0] != seq![index_set(other)][0]);
    }
}

/// What the call data of a split and of a merge has in common: the token that
/// pays, the condition, the amount and both outcomes.
pub open spec fn covers_both_outcomes(
    made: Result<Seq<u8>, ErrorView>,
    name: Seq<u8>,
    collateral: Seq<u8>,
    condition: Seq<u8>,
    amount: u64,
) -> bool {
    let n = name.len() as int;
    &&& made is Ok
    &&& made->Ok_0.len() == n + 256
    &&& made->Ok_0.take(n) == name
    &&& made->Ok_0.subrange(n + 12, n + 32) == collateral
    &&& forall|i: int| n + 32 <= i < n + 64 ==> #[trigger] made->Ok_0[i] == 0
    &&& made->Ok_0.subrange(n + 64, n + 96) == condition
    &&& word_at(made->Ok_0, n, 3) == 160
    &&& word_at(made->Ok_0, n, 4) == amount
    &&& word_at(made->Ok_0, n, 5) == 2
    &&& word_at(made->Ok_0, n, 6) == 1
    &&& word_at(made->Ok_0, n, 7) == 2
}

/// The parameters of a split or a merge behind its name.
proof fn lemma_both_outcomes(name: Seq<u8>, collateral: Seq<u8>, condition: Seq<u8>, amount: u64)
    requires
        collateral.len() == 20,
        condition.len() == 32,
    ensures
        covers_both_outcomes(
            Ok(
                name + position_params(
                    collateral,
                    no_parent(),
                    condition,
                    seq![1u64, 2u64],
                    amount,
                ),
            ),
            name,
            collateral,
            condition,
            amount,
        ),
{
    let n = name.len() as int;
    lemma_word_reads_back(160);
    lemma_word_reads_back(amount);
    lemma_word_reads_back(1);
    lemma_word_reads_back(2);
    lemma_bytes_read_back(0, 12);
    lemma_two_words(1, 2);
    let data = name + position_params(collateral, no_parent(), condition, seq![1u64, 2u64], amount);
    assert(data.len() == n + 256);
    assert(data.take(n) =~= name);
    assert(data.subrange(n + 12, n + 32) =~= collateral);
    assert forall|i: int| n + 32 <= i < n + 64 implies #[trigger] data[i] == 0 by {
        assert(data[i] == no_parent()[i - n - 32]);
    }
    assert(data.subrange(n + 64, n + 96) =~= condition);
    assert(data.subrange(n + 96, n + 128) =~= be_bytes(160, 32));
    assert(data.subrange(n + 128, n + 160) =~= be_bytes(amount as nat, 32));
    assert(data.subrange(n + 160, n + 192) =~= be_bytes(2, 32));
    assert(data.subrange(n + 192, n + 224) =~= be_bytes(1, 32));
    assert(data.subrange(n + 224, n + 256) =~= be_bytes(2, 32));
}

/// A split and a merge through the relayer are of the condition that is named,
/// over the amount that is asked for and over both outcomes, and each calls the
/// function of its name.
pub proof fn splits_and_merges_are_whole(
    condition_id: Seq<char>,
    collateral: [u8; 20],
    amount: u64,
)
    requires
        condition_of(condition_id) is Some,
    ensures
        covers_both_outcomes(
            relayed_split(condition_id, Some(collateral), amount),
            selector("splitPosition(address,bytes32,bytes32,uint256[],uint256)"@),
            collateral@,
            condition_of(condition_id)->0,
            amount,
        ),
        covers_both_outcomes(
            relayed_merge(condition_id, Some(collateral), amount),
            selector("mergePositions(address,bytes32,bytes32,uint256[],uint256)"@),
            collateral@,
            condition_of(condition_id)->0,
            amount,
        ),
{
    let condition = condition_of(condition_id)->0;
    lemma_both_outcomes(
        selector("splitPosition(address,bytes32,bytes32,uint256[],uint256)"@),
        collateral@,
        condition,
        amount,
    );
    lemma_both_outcomes(
        selector("mergePositions(address,bytes32,bytes32,uint256[],uint256)"@),
        collateral@,
        condition,
        amount,
    );
}

/// A direct request is of the condition that is named and of the token that
/// pays: a split over both outcomes, a merge first over the first one, both over
/// the amount that is asked for; a redemption over the one that its outcome
/// stands for, and over all there is. Where the text names no condition, or no
/// token is known, there is no request at all.
pub proof fn requests_say_what_is_meant(
    condition_id: Seq<char>,
    collateral: Option<[u8; 20]>,
    amount: u64,
    outcome: Seq<char>,
)
    ensures
        ({
            let split = split_request(condition_id, collateral, amount);
            let merge = merge_request(condition_id, collateral, amount);
            let redeem = redeem_request(condition_id, collateral, outcome);
            let named = condition_of(condition_id) is Some && collateral is Some;
            &&& split is Ok == named && merge is Ok == named && redeem is Ok == named
            &&& named ==> {
                &&& split->Ok_0.collateral == collateral->0@
                &&& split->Ok_0.condition_id == condition_of(condition_id)->0
                &&& split->Ok_0.amount == Some(amount)
                &&& split->Ok_0.sets.len() == 2
                &&& split->Ok_0.sets[0] == 1 && split->Ok_0.sets[1] == 2
                &&& merge->Ok_0 == (RequestView { sets: merge->Ok_0.sets, ..split->Ok_0 })
                &&& merge->Ok_0.sets.len() == 1 && merge->Ok_0.sets[0] == 1
                &&& redeem->Ok_0 == (RequestView {
                    sets: redeem->Ok_0.sets,
                    amount: None,
                    ..split->Ok_0
                })
                &&& redeem->Ok_0.sets.len() == 1
                &&& has_substring(uppercase(outcome), "UP"@) ==> redeem->Ok_0.sets[0] == 1
                &&& !has_substring(uppercase(outcome), "UP"@) ==> redeem->Ok_0.sets[0] == 2
            }
            &&& condition_of(condition_id) is None ==> {
                &&& split->Err_0.kind == ErrorKind::InvalidConditionId
                &&& merge->Err_0.kind == ErrorKind::InvalidConditionId
                &&& redeem->Err_0.kind == ErrorKind::InvalidConditionId
                &&& split->Err_0.detail == ": "@ + condition_id
            }
            &&& condition_of(condition_id) is Some && collateral is None ==> {
                &&& split->Err_0.kind == ErrorKind::NoContractConfig
                &&& merge->Err_0.kind == ErrorKind::NoContractConfig
                &&& redeem->Err_0.kind == ErrorKind::NoContractConfig
            }
        }),
{
}

/// A text names a condition where it is 64 hexadecimal digits, `0x` in front
/// allowed, and the condition is the bytes that they spell.
pub proof fn conditions_are_read_as_written(bytes: Seq<u8>)
    requires
        bytes.len() == 32,
    ensures
        condition_of("0x"@ + hex_encoded(bytes)) == Some(bytes),
        condition_of(hex_encoded(bytes)) == Some(bytes),
{
    reveal_strlit("0x");
    let digits = hex_encoded(bytes);
    hex_text_reads_back(bytes);
    assert(("0x"@ + digits).subrange(0, 2) =~= "0x"@);
    assert(("0x"@ + digits).skip(2) =~= digits);
    assert(digits.len() == 64);
    lemma_no_letter_x(bytes);
    if "0x"@.is_prefix_of(digits) {
        assert(digits.subrange(0, 2)[1] == 'x');
    }
}

/// Among hexadecimal digits there is no `x`.
proof fn lemma_no_letter_x(bytes: Seq<u8>)
    ensures
        forall|i: int|
            0 <= i < hex_encoded(bytes).len() ==> #[trigger] hex_encoded(bytes)[i] != 'x'
                && hex_encoded(bytes)[i] != 'X',
{
}

/// What the relayer says decides: a transaction that is confirmed or mined goes
/// by its hash, or by its number where it has none; a failed one is an error; of
/// any other, and where nothing could be read, it is asked again until the
/// fifteenth time, after which its number has to do.
pub proof fn the_relayer_is_taken_at_its_word(
    tx_id: Seq<char>,
    label: Seq<char>,
    polls: u32,
    reply: Option<RelayReply>,
)
    ensures
        ({
            let step = poll_step(tx_id, label, polls, reply);
            let on_chain = reply is Some && (reply->0.state@ == "STATE_CONFIRMED"@
                || reply->0.state@ == "STATE_MINED"@);
            let failed = reply is Some && reply->0.state@ == "STATE_FAILED"@;
            &&& on_chain && reply->0.transaction_hash is Some ==> step == PollView::Done(
                reply->0.transaction_hash->0@,
            )
            &&& on_chain && reply->0.transaction_hash is None ==> step == PollView::Done(tx_id)
            &&& failed ==> step is Failed && step->Failed_0.kind == ErrorKind::RelayerFailed
            &&& !on_chain && !failed && polls < 15 ==> step is Wait
            &&& !on_chain && !failed && polls >= 15 ==> step == PollView::Done(tx_id)
        }),
{
    reveal_strlit("STATE_CONFIRMED");
    reveal_strlit("STATE_MINED");
    reveal_strlit("STATE_FAILED");
    assert("STATE_CONFIRMED"@.len() != "STATE_FAILED"@.len());
    assert("STATE_MINED"@.len() != "STATE_FAILED"@.len());
}

/// A try that failed is followed by the next one after the pause that was due,
/// and the pause after that is twice as long but not over ten seconds, unless it
/// was the last one or its error is one that another try would not mend.
pub proof fn a_failed_try_is_followed_by_another(retry: Retry, error: Seq<char>)
    requires
        retry.well_formed(),
    ensures
        ({
            let says = |text: Seq<char>| has_substring(error, text);
            let hopeless = match retry.kind {
                RetryKind::Split => says("insufficient balance"@) || says("user rejected"@) || says(
                    "API key disabled"@,
                ),
                RetryKind::Merge => says("insufficient balance"@) || says("insufficient funds"@)
                    || says("user rejected"@) || says("condition already resolved"@) || says(
                    "subtraction overflow"@,
                ) || says("execution reverted"@),
            };
            let step = retry.after_failure(error);
            &&& step is GiveUp == (hopeless || retry.attempt == retry.max_retries)
            &&& step matches RetryStep::Again(pause, next) ==> {
                &&& pause == retry.delay_ms
                &&& next.kind == retry.kind
                &&& next.max_retries == retry.max_retries
                &&& next.attempt == retry.attempt + 1
                &&& retry.delay_ms <= 5000 ==> next.delay_ms == 2 * retry.delay_ms
                &&& retry.delay_ms > 5000 ==> next.delay_ms == 10000
            }
        }),
{
}

/// The first try is number one of those that are allowed, with the first pause
/// before the second; where none is allowed there is none.
pub proof fn tries_start_at_one(kind: RetryKind, max_retries: u32, initial_delay_ms: u64)
    ensures
        ({
            let start = first_try(kind, max_retries, initial_delay_ms);
            &&& start is Err == (max_retries == 0)
            &&& start matches Ok(retry) ==> retry.kind == kind && retry.attempt == 1
                && retry.max_retries == max_retries && retry.delay_ms == initial_delay_ms
            &&& start is Err && kind is Split ==> start->Err_0 == (ErrorView {
                kind: ErrorKind::SplitFailed,
                detail: "Split failed after 0 attempts"@,
            })
            &&& start is Err && kind is Merge ==> start->Err_0 == (ErrorView {
                kind: ErrorKind::MergeFailed,
                detail: "Merge failed after 0 attempts"@,
            })
        }),
{
}

/// A redemption that was sent is told with its hash.
pub proof fn a_redemption_is_told_with_its_hash(relayed: bool, tx_hash: Seq<char>)
    ensures
        redeemed(relayed, tx_hash).success,
        redeemed(relayed, tx_hash).transaction_hash == Some(tx_hash),
        redeemed(relayed, tx_hash).message is Some,
        tx_hash.is_suffix_of(redeemed(relayed, tx_hash).message->0),
{
    let text = redeemed(relayed, tx_hash).message->0;
    assert(text.subrange(text.len() - tx_hash.len(), text.len() as int) =~= tx_hash);
}

/// The two words that a redemption names the outcomes by stand for different
/// sets: Up for the first, Down for the second. (That they are UP and DOWN in
/// capitals is left to the antecedents.)
pub proof fn the_words_of_the_outcomes_are_told_apart()
    ensures
        uppercase("Up"@) == "UP"@ ==> index_set("Up"@) == 1,
        uppercase("Down"@) == "DOWN"@ ==> index_set("Down"@) == 2,
{
    reveal_strlit("UP");
    reveal_strlit("DOWN");
    let word = "UP"@;
    assert(word.subrange(0int, 0int + word.len()) =~= word);
    if has_substring("DOWN"@, "UP"@) {
        let i = choose|i: int|
            0 <= i <= "DOWN"@.len() - "UP"@.len() && #[trigger] "DOWN"@.subrange(
                i,
                i + "UP"@.len(),
            ) == "UP"@;
        assert("DOWN"@.subrange(i, i + 2)[0] == 'U');
        assert("DOWN"@[i] == 'U');
    }
}

/// A call is named by the first four bytes of the hash of its signature.
pub proof fn a_call_is_named_by_four_bytes(signature: Seq<char>)
    ensures
        keccak(encode_utf8(signature)).len() == 32 ==> {
            &&& selector(signature).len() == 4
            &&& forall|i: int|
                0 <= i < 4 ==> #[trigger] selector(signature)[i] == keccak(
                    encode_utf8(signature),
                )[i]
        },
{
}

} // verus!
