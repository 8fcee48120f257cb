//! The command line: what the program is asked to do, and the runs that redeem
//! or merge what is left.
use vstd::prelude::*;

use crate::config::{Args, PolymarketConfig};
use crate::models::{MarketDetails, MarketToken, TokenView};
use crate::orders::Outcome;
use crate::text::{
    contains_text, has_substring, hex_prefixed, lowercase, text_eq, to_lower, with_hex_prefix,
};

verus! {

/// What the program does.
#[derive(Debug, Clone, Copy, PartialEq, Eq, Structural)]
pub enum RunMode {
    /// Redeem what can be redeemed, and end.
    Redeem,
    /// Merge what can be merged, and end.
    MergeOnly,
    /// Trade.
    Trade,
    /// Watch the markets; without a private key nothing can be signed.
    Watch,
}

/// What the command line asks for. Redeeming comes before merging.
pub open spec fn mode_of(redeem: bool, merge_only: bool, has_private_key: bool) -> RunMode {
    if redeem {
        RunMode::Redeem
    } else if merge_only {
        RunMode::MergeOnly
    } else if has_private_key {
        RunMode::Trade
    } else {
        RunMode::Watch
    }
}

/// What the command line asks for. Redeeming comes before merging.
pub fn run_mode(args: &Args, has_private_key: bool) -> (r: RunMode)
    ensures
        r == mode_of(args.redeem, args.merge_only, has_private_key),
{
    if args.redeem {
        RunMode::Redeem
    } else if args.merge_only {
        RunMode::MergeOnly
    } else if has_private_key {
        RunMode::Trade
    } else {
        RunMode::Watch
    }
}

/// Which conditions a redemption run is about.
#[derive(Debug)]
pub enum RedeemPlan {
    /// There is no wallet to redeem for.
    NoWallet,
    /// This one.
    One(String),
    /// All that can be redeemed in this wallet.
    Lookup(String),
}

/// What a [`RedeemPlan`] says.
#[verifier::ext_equal]
pub enum RedeemPlanView {
    NoWallet,
    One(Seq<char>),
    Lookup(Seq<char>),
}

impl DeepView for RedeemPlan {
    type V = RedeemPlanView;

    open spec fn deep_view(&self) -> RedeemPlanView {
        match self {
            RedeemPlan::NoWallet => RedeemPlanView::NoWallet,
            RedeemPlan::One(id) => RedeemPlanView::One(id@),
            RedeemPlan::Lookup(wallet) => RedeemPlanView::Lookup(wallet@),
        }
    }
}

impl RedeemPlan {
    /// Why there is no run, in words.
    pub open spec fn text(self) -> Option<Seq<char>> {
        match self {
            RedeemPlan::NoWallet => Some(
                "--redeem 需要在 config.json 中设置 proxy_wallet_address"@,
            ),
            _ => None,
        }
    }

    /// Why there is no run, in words.
    pub fn message(&self) -> (r: Option<String>)
        ensures
            r.deep_view() == self.text(),
    {
        match self {
            RedeemPlan::NoWallet => Some(
                "--redeem 需要在 config.json 中设置 proxy_wallet_address".to_owned(),
            ),
            _ => None,
        }
    }
}

/// Which conditions a redemption run is about: the one on the command line, or
/// else all of the configured wallet. Without a wallet there is no run.
pub open spec fn redeem_plan(wallet: Option<Seq<char>>, condition_id: Option<Seq<char>>) -> RedeemPlanView {
    match (wallet, condition_id) {
        (None, _) => RedeemPlanView::NoWallet,
        (Some(_), Some(id)) => RedeemPlanView::One(hex_prefixed(id)),
        (Some(address), None) => RedeemPlanView::Lookup(address),
    }
}

/// Which conditions a redemption run is about: the one on the command line, or
/// else all of the configured wallet. Without a wallet there is no run.
pub fn run_redeem_only(config: &PolymarketConfig, condition_id: &Option<String>) -> (r: RedeemPlan)
    ensures
        r.deep_view() == redeem_plan(
            config.proxy_wallet_address.deep_view(),
            condition_id.deep_view(),
        ),
{
    match &config.proxy_wallet_address {
        None => RedeemPlan::NoWallet,
        Some(wallet) => match condition_id {
            Some(id) => RedeemPlan::One(with_hex_prefix(id.as_str())),
            None => RedeemPlan::Lookup(wallet.clone()),
        },
    }
}

/// The outcome in small letters holds `part`, or is `word`.
pub open spec fn outcome_is(outcome: Seq<char>, part: Seq<char>, word: Seq<char>) -> bool {
    has_substring(lowercase(outcome), part) || lowercase(outcome) == word
}

/// A winning token carries such an outcome.
pub open spec fn token_won(tokens: Seq<TokenView>, part: Seq<char>, word: Seq<char>) -> bool {
    exists|i: int|
        0 <= i < tokens.len() && (#[trigger] tokens[i]).winner && outcome_is(
            tokens[i].outcome,
            part,
            word,
        )
}

/// The outcome that won: up where a winning token says "up" or "yes", else down
/// where one says "down" or "no".
pub open spec fn winning_outcome(tokens: Seq<TokenView>) -> Option<Outcome> {
    if token_won(tokens, "up"@, "yes"@) {
        Some(Outcome::Up)
    } else if token_won(tokens, "down"@, "no"@) {
        Some(Outcome::Down)
    } else {
        None
    }
}

/// Whether a winning token carries such an outcome.
fn any_won(tokens: &Vec<MarketToken>, part: &str, word: &str) -> (r: bool)
    ensures
        r == token_won(tokens.deep_view(), part@, word@),
{
    let mut i: usize = 0;
    while i < tokens.len()
        invariant
            0 <= i <= tokens@.len(),
            forall|j: int|
                0 <= j < i ==> !((#[trigger] tokens.deep_view()[j]).winner && outcome_is(
                    tokens.deep_view()[j].outcome,
                    part@,
                    word@,
                )),
        decreases tokens@.len() - i,
    {
        assert(tokens.deep_view()[i as int] == tokens@[i as int].deep_view());
        let outcome = to_lower(tokens[i].outcome.as_str());
        if tokens[i].winner && (contains_text(outcome.as_str(), part) || text_eq(
            outcome.as_str(),
            word,
        )) {
            return true;
        }
        i = i + 1;
    }
    false
}

/// The outcome to redeem in a market, where it could be looked up and is
/// decided.
pub fn outcome_to_redeem(market: Option<&MarketDetails>) -> (r: Option<Outcome>)
    ensures
        r == match market {
            Some(details) => winning_outcome(details.deep_view().tokens),
            None => None,
        },
{
    match market {
        Some(details) => if any_won(&details.tokens, "up", "yes") {
            Some(Outcome::Up)
        } else if any_won(&details.tokens, "down", "no") {
            Some(Outcome::Down)
        } else {
            None
        },
        None => None,
    }
}

/// The text that a redemption names an outcome by.
pub fn outcome_word(outcome: Outcome) -> (r: &'static str)
    ensures
        r@ == match outcome {
            Outcome::Up => "Up"@,
            Outcome::Down => "Down"@,
        },
{
    match outcome {
        Outcome::Up => "Up",
        Outcome::Down => "Down",
    }
}

/// A run over a list: how many entries succeeded and failed so far. Entries are
/// taken in their order, and a failure does not end the run.
#[derive(Debug, Clone, Copy)]
pub struct Batch {
    pub total: usize,
    pub succeeded: usize,
    pub failed: usize,
}

impl Batch {
    /// No more entries are counted than there are.
    pub open spec fn well_formed(self) -> bool {
        self.succeeded + self.failed <= self.total
    }

    /// The entry that is next, if there is one.
    pub open spec fn next_entry(self) -> Option<usize> {
        if self.succeeded + self.failed < self.total {
            Some((self.succeeded + self.failed) as usize)
        } else {
            None
        }
    }

    /// The run once an entry succeeded or failed.
    pub open spec fn recorded(self, success: bool) -> Batch {
        if success {
            Batch { succeeded: (self.succeeded + 1) as usize, ..self }
        } else {
            Batch { failed: (self.failed + 1) as usize, ..self }
        }
    }

    /// The run once a series of entries succeeded or failed.
    pub open spec fn after(self, results: Seq<bool>) -> Batch
        decreases results.len(),
    {
        if results.len() == 0 {
            self
        } else {
            self.after(results.drop_last()).recorded(results.last())
        }
    }

    /// A run over `total` entries that has not started yet.
    pub fn new(total: usize) -> (r: Self)
        ensures
            r == (Batch { total, succeeded: 0, failed: 0 }),
            r.well_formed(),
    {
        Batch { total, succeeded: 0, failed: 0 }
    }

    /// The entry that is next, if there is one.
    pub fn next(&self) -> (r: Option<usize>)
        requires
            self.well_formed(),
        ensures
            r == self.next_entry(),
    {
        let done: usize = self.succeeded + self.failed;
        if done < self.total {
            Some(done)
        } else {
            None
        }
    }

    /// Counts what came of an entry.
    pub fn record(&mut self, success: bool)
        requires
            old(self).succeeded + old(self).failed < old(self).total,
        ensures
            final(self).well_formed(),
            *final(self) == old(self).recorded(success),
    {
        if success {
            self.succeeded = self.succeeded + 1;
        } else {
            self.failed = self.failed + 1;
        }
    }
}

/// How many of the results are successes.
pub open spec fn successes(results: Seq<bool>) -> nat
    decreases results.len(),
{
    if results.len() == 0 {
        0
    } else if results.last() {
        successes(results.drop_last()) + 1
    } else {
        successes(results.drop_last())
    }
}

/// A run takes every entry of its list once and in order, whatever came of those
/// before, and counts each as a success or as a failure.
pub proof fn a_run_takes_every_entry(total: usize, results: Seq<bool>)
    requires
        results.len() <= total,
    ensures
        ({
            let run = (Batch { total, succeeded: 0, failed: 0 }).after(results);
            &&& run.total == total
            &&& run.succeeded == successes(results)
            &&& run.succeeded + run.failed == results.len()
            &&& results.len() < total ==> run.next_entry() == Some(results.len() as usize)
            &&& results.len() == total ==> run.next_entry() is None
        }),
    decreases results.len(),
{
    if results.len() > 0 {
        a_run_takes_every_entry(total, results.drop_last());
    }
}

/// Redeeming comes before merging and both before trading, which takes a private
/// key.
pub proof fn one_shot_runs_come_first(redeem: bool, merge_only: bool, keyed: bool)
    ensures
        mode_of(redeem, merge_only, keyed) is Redeem == redeem,
        mode_of(redeem, merge_only, keyed) is MergeOnly == (merge_only && !redeem),
        mode_of(redeem, merge_only, keyed) is Trade == (!redeem && !merge_only && keyed),
        mode_of(redeem, merge_only, keyed) is Watch == (!redeem && !merge_only && !keyed),
{
}

/// A redemption run is about the condition on the command line, or else about
/// the configured wallet, and there is none without a wallet.
pub proof fn a_redemption_run_is_about_what_was_asked(
    wallet: Option<Seq<char>>,
    condition_id: Option<Seq<char>>,
)
    ensures
        ({
            let plan = redeem_plan(wallet, condition_id);
            &&& plan is NoWallet == wallet is None
            &&& plan is Lookup == (wallet is Some && condition_id is None)
            &&& plan matches RedeemPlanView::Lookup(address) ==> Some(address) == wallet
            &&& plan matches RedeemPlanView::One(id) ==> condition_id is Some && (if "0x"@.is_prefix_of(
                condition_id->0,
            ) {
                Some(id) == condition_id
            } else {
                id == "0x"@ + condition_id->0
            })
        }),
{
}

/// The outcome that is redeemed is one that a winning token carries: Up where
/// such a token says up or yes, Down where one says down or no and none says
/// that Up won; and there is none where no winning token says either.
pub proof fn a_winning_token_is_redeemed(tokens: Seq<TokenView>)
    ensures
        ({
            let up = exists|i: int|
                0 <= i < tokens.len() && #[trigger] tokens[i].winner && (has_substring(
                    lowercase(tokens[i].outcome),
                    "up"@,
                ) || lowercase(tokens[i].outcome) == "yes"@);
            let down = exists|i: int|
                0 <= i < tokens.len() && #[trigger] tokens[i].winner && (has_substring(
                    lowercase(tokens[i].outcome),
                    "down"@,
                ) || lowercase(tokens[i].outcome) == "no"@);
            &&& (winning_outcome(tokens) == Some(Outcome::Up)) == up
            &&& (winning_outcome(tokens) == Some(Outcome::Down)) == (down && !up)
            &&& winning_outcome(tokens) is None == (!up && !down)
        }),
{
    lemma_token_won(tokens, "up"@, "yes"@);
    lemma_token_won(tokens, "down"@, "no"@);
}

/// A winning token that carries an outcome is found.
proof fn lemma_token_won(tokens: Seq<TokenView>, part: Seq<char>, word: Seq<char>)
    ensures
        token_won(tokens, part, word) == exists|i: int|
            0 <= i < tokens.len() && #[trigger] tokens[i].winner && (has_substring(
                lowercase(tokens[i].outcome),
                part,
            ) || lowercase(tokens[i].outcome) == word),
{
    if token_won(tokens, part, word) {
        let i = choose|i: int|
            0 <= i < tokens.len() && (#[trigger] tokens[i]).winner && outcome_is(
                tokens[i].outcome,
                part,
                word,
            );
        assert(tokens[i].winner);
    }
    if exists|i: int|
        0 <= i < tokens.len() && #[trigger] tokens[i].winner && (has_substring(
            lowercase(tokens[i].outcome),
            part,
        ) || lowercase(tokens[i].outcome) == word) {
        let i = choose|i: int|
            0 <= i < tokens.len() && #[trigger] tokens[i].winner && (has_substring(
                lowercase(tokens[i].outcome),
                part,
            ) || lowercase(tokens[i].outcome) == word);
        assert(outcome_is(tokens[i].outcome, part, word));
    }
}

} // verus!
