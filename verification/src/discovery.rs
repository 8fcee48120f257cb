//! Finding the market of the running five minutes.
use chrono::{Datelike, Timelike};
use vstd::prelude::*;

use crate::models::{MarketDetails, TokenView};
use crate::orders::LATEST_INSTANT;
use crate::text::{
    all_ascii, ascii_lower, contains_text, has_substring, int_text, lowercase, text_eq, to_lower,
    to_upper, uppercase, write_int,
};

verus! {

/// What a clock on the wall shows.
#[derive(Debug, Clone, Copy)]
pub struct Clock {
    pub year: i32,
    pub month: u32,
    pub day: u32,
    pub hour: u32,
    pub minute: u32,
    pub second: u32,
}

/// The year has a 29th of February.
pub open spec fn is_leap(year: int) -> bool {
    year % 4 == 0 && (year % 100 != 0 || year % 400 == 0)
}

/// The days of a month.
pub open spec fn month_days(year: int, month: int) -> int {
    if month == 2 {
        if is_leap(year) {
            29
        } else {
            28
        }
    } else if month == 4 || month == 6 || month == 9 || month == 11 {
        30
    } else {
        31
    }
}

/// The days from the first of January 1970 to this date of the Gregorian
/// calendar. The count takes March as the first month of a year, so that a leap
/// day comes last.
pub open spec fn days_to(year: int, month: int, day: int) -> int {
    let y = if month <= 2 {
        year - 1
    } else {
        year
    };
    let m = (month + 9) % 12;
    365 * y + y / 4 - y / 100 + y / 400 + (153 * m + 2) / 5 + day - 1 - 719468
}

impl Clock {
    /// The clock shows a date and a time that exist.
    pub open spec fn valid(self) -> bool {
        &&& 1 <= self.month <= 12
        &&& 1 <= self.day <= month_days(self.year as int, self.month as int)
        &&& self.hour < 24
        &&& self.minute < 60
        &&& self.second < 60
    }

    /// The seconds from the start of 1970 to what the clock shows, as if it
    /// showed UTC.
    pub open spec fn wall_seconds(self) -> int {
        days_to(self.year as int, self.month as int, self.day as int) * 86400 + self.hour * 3600
            + self.minute * 60 + self.second
    }
}

/// The seconds that a clock in New York is ahead of UTC at an instant.
pub uninterp spec fn new_york_offset(instant: int) -> int;

/// Calls `chrono::Utc::now` and takes its timestamp, the whole seconds since
/// 1970. The calendar bounds it; a clock before 1970 makes the call panic.
#[verifier::external_body]
fn utc_now() -> (r: i64)
    ensures
        0 <= r <= LATEST_INSTANT,
{
    chrono::Utc::now().timestamp()
}

/// Calls `with_timezone` of a `chrono` instant with `chrono_tz`'s New York.
///
/// Claimed is that the clock is ahead of UTC by the named offset, and that the
/// offset is that of Eastern time, minus five or minus four hours, which the
/// zone's table shows from 1970 on.
#[verifier::external_body]
fn new_york_clock(instant: i64) -> (r: Clock)
    requires
        0 <= instant <= LATEST_INSTANT,
    ensures
        r.valid(),
        r.wall_seconds() == instant + new_york_offset(instant as int),
        r.wall_seconds() - instant == -18000 || r.wall_seconds() - instant == -14400,
{
    let utc = chrono::DateTime::from_timestamp(instant, 0).unwrap();
    let shown = utc.with_timezone(&chrono_tz::America::New_York);
    Clock {
        year: shown.year(),
        month: shown.month(),
        day: shown.day(),
        hour: shown.hour(),
        minute: shown.minute(),
        second: shown.second(),
    }
}

/// The start of the five minutes that `now` lies in.
pub open spec fn period_of(now: int) -> int {
    now - now % 300
}

/// Every instant lies in its five minutes, which start on a multiple of five
/// minutes.
pub proof fn period_holds_its_instants(now: int)
    ensures
        period_of(now) % 300 == 0,
        period_of(now) <= now < period_of(now) + 300,
        forall|later: int|
            period_of(now) <= later < period_of(now) + 300 ==> #[trigger] period_of(later)
                == period_of(now),
{
}

/// What a wall clock is past the last multiple of five minutes, the instant is
/// too, where the clock is whole hours away from UTC.
proof fn lemma_past_period(days: int, hour: int, minute: int, second: int, now: int)
    requires
        0 <= minute < 60,
        0 <= second < 60,
        ({
            let offset = days * 86400 + hour * 3600 + minute * 60 + second - now;
            offset == -18000 || offset == -14400
        }),
    ensures
        (minute % 5) * 60 + second == now % 300,
{
    let fives = days * 288 + hour * 12 + minute / 5;
    let rest = (minute % 5) * 60 + second;
    assert(days * 86400 + hour * 3600 + minute * 60 + second == 300 * fives + rest);
}

/// Why a market has no pair of tokens.
#[derive(Debug, Clone, Copy, PartialEq, Eq, Structural)]
pub enum TokenError {
    UpTokenNotFound,
    DownTokenNotFound,
}

impl TokenError {
    /// The error in words.
    pub open spec fn text(self) -> Seq<char> {
        match self {
            TokenError::UpTokenNotFound => "Up token not found"@,
            TokenError::DownTokenNotFound => "Down token not found"@,
        }
    }

    /// The error in words.
    pub fn message(&self) -> (r: String)
        ensures
            r@ == self.text(),
    {
        match self {
            TokenError::UpTokenNotFound => "Up token not found".to_owned(),
            TokenError::DownTokenNotFound => "Down token not found".to_owned(),
        }
    }
}

/// The outcome is the one that pays when the price rises.
pub open spec fn names_up(outcome: Seq<char>) -> bool {
    has_substring(uppercase(outcome), "UP"@) || uppercase(outcome) == "1"@
}

/// The outcome is the one that pays when the price falls.
pub open spec fn names_down(outcome: Seq<char>) -> bool {
    !names_up(outcome) && (has_substring(uppercase(outcome), "DOWN"@) || uppercase(outcome)
        == "0"@)
}

/// The last of the tokens whose outcome pays when the price rises, or falls.
pub open spec fn last_token(tokens: Seq<TokenView>, up: bool) -> Option<Seq<char>>
    decreases tokens.len(),
{
    if tokens.len() == 0 {
        None
    } else if if up {
        names_up(tokens.last().outcome)
    } else {
        names_down(tokens.last().outcome)
    } {
        Some(tokens.last().token_id)
    } else {
        last_token(tokens.drop_last(), up)
    }
}

/// Finds the market of the running five minutes and its tokens.
pub struct MarketDiscovery {}

impl MarketDiscovery {
    /// The name of the market of `asset_ticker` that starts at
    /// `period_start_et`.
    pub fn build_5m_slug(asset_ticker: &str, period_start_et: i64) -> (r: String)
        ensures
            r@ == lowercase(asset_ticker@) + "-updown-5m-"@ + int_text(period_start_et as int),
            all_ascii(asset_ticker@) ==> r@ == asset_ticker@.map_values(|c: char| ascii_lower(c))
                + "-updown-5m-"@ + int_text(period_start_et as int),
    {
        let mut slug = to_lower(asset_ticker);
        slug.append("-updown-5m-");
        slug.append(write_int(period_start_et).as_str());
        slug
    }

    /// The start of the five minutes that `now` lies in, counted back from what
    /// a clock in New York shows. Where that clock is set back, each of the two
    /// hours that it shows alike has starts of its own.
    pub fn period_start_et(now: i64) -> (r: i64)
        requires
            0 <= now <= LATEST_INSTANT,
        ensures
            r == period_of(now as int),
    {
        let shown = new_york_clock(now);
        proof {
            lemma_past_period(
                days_to(shown.year as int, shown.month as int, shown.day as int),
                shown.hour as int,
                shown.minute as int,
                shown.second as int,
                now as int,
            );
        }
        let past: u32 = (shown.minute % 5) * 60 + shown.second;
        now - past as i64
    }

    /// The start of the five minutes that are running.
    pub fn current_5m_period_start_et() -> (r: i64)
        ensures
            0 <= r <= LATEST_INSTANT,
            r % 300 == 0,
    {
        let now: i64 = utc_now();
        Self::period_start_et(now)
    }

    /// The time of day in New York as seconds since 1970, which are the same
    /// everywhere.
    pub fn current_time_et() -> (r: i64)
        ensures
            0 <= r <= LATEST_INSTANT,
    {
        utc_now()
    }

    /// The tokens of the two outcomes of a market, UP first. Where several
    /// tokens carry an outcome, the last one counts.
    pub fn get_market_tokens(details: &MarketDetails) -> (r: Result<(String, String), TokenError>)
        ensures
            ({
                let tokens = details.deep_view().tokens;
                match (last_token(tokens, true), last_token(tokens, false)) {
                    (None, _) => r == Err::<(String, String), TokenError>(
                        TokenError::UpTokenNotFound,
                    ),
                    (Some(_), None) => r == Err::<(String, String), TokenError>(
                        TokenError::DownTokenNotFound,
                    ),
                    (Some(up), Some(down)) => r matches Ok(pair) && pair.0@ == up && pair.1@
                        == down,
                }
            }),
    {
        let ghost tokens = details.deep_view().tokens;
        let mut up: Option<String> = None;
        let mut down: Option<String> = None;
        let mut i: usize = 0;
        while i < details.tokens.len()
            invariant
                0 <= i <= details.tokens@.len(),
                tokens == details.deep_view().tokens,
                up.deep_view() == last_token(tokens.take(i as int), true),
                down.deep_view() == last_token(tokens.take(i as int), false),
            decreases details.tokens@.len() - i,
        {
            let token = &details.tokens[i];
            proof {
                assert(tokens[i as int] == token.deep_view());
                assert(tokens.take(i + 1).last() == tokens[i as int]);
                assert(tokens.take(i + 1).drop_last() =~= tokens.take(i as int));
            }
            let outcome = to_upper(token.outcome.as_str());
            if contains_text(outcome.as_str(), "UP") || text_eq(outcome.as_str(), "1") {
                up = Some(token.token_id.clone());
            } else if contains_text(outcome.as_str(), "DOWN") || text_eq(outcome.as_str(), "0") {
                down = Some(token.token_id.clone());
            }
            i = i + 1;
        }
        assert(tokens.take(i as int) =~= tokens);
        match up {
            Some(up_token) => match down {
                Some(down_token) => Ok((up_token, down_token)),
                None => Err(TokenError::DownTokenNotFound),
            },
            None => Err(TokenError::UpTokenNotFound),
        }
    }
}

/// The days are counted from the start of 1970, one after the other: within a
/// month, from the last day of a month to the first of the next, and from the
/// last day of a year to the first of the next.
pub proof fn days_follow_each_other(year: int, month: int, day: int)
    requires
        1 <= month <= 12,
    ensures
        days_to(1970, 1, 1) == 0,
        days_to(year, month, day + 1) == days_to(year, month, day) + 1,
        month < 12 ==> days_to(year, month + 1, 1) == days_to(year, month, 1) + month_days(
            year,
            month,
        ),
        days_to(year + 1, 1, 1) == days_to(year, 12, 1) + 31,
{
}

} // verus!
