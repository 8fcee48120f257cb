//! Prices, share counts and dollars as integers: rounding, products and text.
use vstd::prelude::*;

use crate::binary::{
    cents_are_the_nearest, cents_of_order, cents_of_text, close, is_close, order_cents,
    rounding_error, signed_binary, to_binary, written_cents, ONE,
};
use crate::text::{join, nat_text, padded_text, write_nat, write_padded};

verus! {

/// One cent in micros.
pub const CENT: i64 = 10_000;

/// The lowest price an order is sent with, one cent.
pub const MIN_PRICE: i64 = 10_000;

/// The highest price an order is sent with, 99 cents.
pub const MAX_PRICE: i64 = 990_000;

/// Ten to the power of `n`.
pub open spec fn pow10(n: nat) -> nat
    decreases n,
{
    if n == 0 {
        1
    } else {
        10 * pow10((n - 1) as nat)
    }
}

/// The size of a number, without its sign.
pub open spec fn magnitude(i: int) -> nat {
    if i < 0 {
        (-i) as nat
    } else {
        i as nat
    }
}

/// `i` held between `low` and `high`.
pub open spec fn clamped(i: int, low: int, high: int) -> int {
    if i < low {
        low
    } else if i > high {
        high
    } else {
        i
    }
}

/// `i` held within the range of `i64`.
pub open spec fn to_i64(i: int) -> int {
    clamped(i, i64::MIN as int, i64::MAX as int)
}

/// `i` held within the range of `i128`.
pub open spec fn to_i128(i: int) -> int {
    clamped(i, i128::MIN as int, i128::MAX as int)
}

/// A decimal number as the exchange reports it: `mantissa` divided by
/// 10^`scale`.
#[derive(Debug, Clone, Copy)]
pub struct DecimalParts {
    pub mantissa: i128,
    pub scale: u32,
}

/// The micros in `mantissa` / 10^`scale`, cut towards zero and held within the
/// range of `i64`.
pub open spec fn decimal_micros(mantissa: int, scale: nat) -> int {
    let size = if scale <= 6 {
        magnitude(mantissa) * pow10((6 - scale) as nat)
    } else {
        magnitude(mantissa) / pow10((scale - 6) as nat)
    };
    to_i64(
        if mantissa < 0 {
            -size
        } else {
            size as int
        },
    )
}

/// The price an order is sent with: the nearest cent between one and 99 cents,
/// where its binary number decides between two that are as near.
pub open spec fn rounded_price(price: int) -> int {
    if price <= 0 {
        MIN_PRICE as int
    } else if price >= 1_000_000 {
        MAX_PRICE as int
    } else {
        clamped(order_cents(price as nat) * CENT, MIN_PRICE as int, MAX_PRICE as int)
    }
}

/// The cents that a price is written with, and its sign.
pub open spec fn shown_cents(price: int) -> int {
    if price < 0 {
        -written_cents(magnitude(price))
    } else {
        written_cents(magnitude(price)) as int
    }
}

/// The text of a price with two digits after the point, as `0.50`: the nearest
/// cent, where its binary number decides between two that are as near.
pub open spec fn cents_text(price: int) -> Seq<char> {
    let cents = written_cents(magnitude(price));
    sign_text(price) + nat_text(cents / 100) + "."@ + padded_text(cents % 100, 2)
}

/// The digits after the point of a fraction of `width` digits, without the
/// zeros at its end.
pub open spec fn trimmed_fraction(fraction: nat, width: nat) -> Seq<char>
    decreases width,
{
    if width > 0 && fraction % 10 == 0 {
        trimmed_fraction(fraction / 10, (width - 1) as nat)
    } else {
        padded_text(fraction, width)
    }
}

/// The minus sign of a negative number.
pub open spec fn sign_text(i: int) -> Seq<char> {
    if i < 0 {
        "-"@
    } else {
        Seq::empty()
    }
}

/// The shortest decimal text of a quantity of micros: `5`, `3.5`, `0.49`.
pub open spec fn amount_text(micros: int) -> Seq<char> {
    let whole = sign_text(micros) + nat_text(magnitude(micros) / 1_000_000);
    let fraction = magnitude(micros) % 1_000_000;
    if fraction == 0 {
        whole
    } else {
        whole + "."@ + trimmed_fraction(fraction, 6)
    }
}

/// The text of `value` with `places` digits after the point, where one step of
/// the last digit is `unit`; halves are rounded away from zero.
pub open spec fn rounded_text(value: int, unit: int, places: nat) -> Seq<char> {
    let steps = ((magnitude(value) + unit / 2) / unit) as nat;
    let whole = sign_text(value) + nat_text(steps / pow10(places));
    if places == 0 {
        whole
    } else {
        whole + "."@ + padded_text(steps % pow10(places), places)
    }
}

/// What `shares` cost at `price`, in picos.
pub open spec fn notional(shares: int, price: int) -> int {
    shares * price
}

/// A market price at which a bid at `buy_price` counts as filled: at most the
/// bid, or less than a tenth of a cent away from it, both as binary numbers.
pub open spec fn price_fills(price: int, buy_price: int) -> bool {
    signed_binary(price) <= signed_binary(buy_price) || close(
        signed_binary(price),
        signed_binary(buy_price),
    )
}

/// What buying both sides costs, in picos.
pub open spec fn pair_cost(shares: int, buy_price: int) -> int {
    to_i128(notional(shares, buy_price) * 2)
}

/// What selling both sides brings over what buying them cost, in picos.
pub open spec fn pair_profit(shares: int, buy_price: int, sell_price: int) -> int {
    to_i128(pair_cost(shares, sell_price) - pair_cost(shares, buy_price))
}

/// Powers of ten are positive and grow with the exponent.
proof fn lemma_pow10_grows(low: nat, high: nat)
    requires
        low <= high,
    ensures
        0 < pow10(low) <= pow10(high),
    decreases high,
{
    if high == 0 {
    } else if low == high {
        lemma_pow10_grows((low - 1) as nat, (low - 1) as nat);
    } else {
        lemma_pow10_grows(low, (high - 1) as nat);
    }
}

/// 10^38 fits in a `u128`, 10^39 does not.
proof fn lemma_pow10_range()
    ensures
        pow10(38) <= u128::MAX < pow10(39),
{
    reveal_with_fuel(pow10, 40);
}

/// Ten to the power of `n`.
pub fn power_of_ten(n: u32) -> (r: u128)
    requires
        n <= 38,
    ensures
        r == pow10(n as nat),
{
    let mut power: u128 = 1;
    let mut done: u32 = 0;
    while done < n
        invariant
            done <= n <= 38,
            power == pow10(done as nat),
        decreases n - done,
    {
        proof {
            lemma_pow10_range();
            lemma_pow10_grows((done + 1) as nat, 38);
        }
        power = power * 10;
        done = done + 1;
    }
    power
}

/// The size of a number, without its sign.
fn size_of(value: i128) -> (r: u128)
    ensures
        r == magnitude(value as int),
        r <= 0x8000_0000_0000_0000_0000_0000_0000_0000,
{
    if value < 0 {
        (-(value + 1)) as u128 + 1
    } else {
        value as u128
    }
}

impl DecimalParts {
    /// The number in micros, cut towards zero and held within the range of
    /// `i64`.
    pub fn micros(&self) -> (r: i64)
        ensures
            r == decimal_micros(self.mantissa as int, self.scale as nat),
    {
        let size: u128 = size_of(self.mantissa);
        let scaled: u128 = if self.scale <= 6 {
            let factor: u128 = power_of_ten(6 - self.scale);
            match size.checked_mul(factor) {
                Some(product) => product,
                None => u128::MAX,
            }
        } else if self.scale - 6 <= 38 {
            let divisor: u128 = power_of_ten(self.scale - 6);
            proof {
                lemma_pow10_grows(0, (self.scale - 6) as nat);
            }
            size / divisor
        } else {
            proof {
                lemma_pow10_range();
                lemma_pow10_grows(39, (self.scale - 6) as nat);
                vstd::arithmetic::div_mod::lemma_basic_div(
                    size as int,
                    pow10((self.scale - 6) as nat) as int,
                );
            }
            0
        };
        if self.mantissa < 0 {
            if scaled > 0x8000_0000_0000_0000 {
                i64::MIN
            } else {
                (-(scaled as i128)) as i64
            }
        } else if scaled > i64::MAX as u128 {
            i64::MAX
        } else {
            scaled as i64
        }
    }
}

/// The nearest cent to `price`, held between one and 99 cents.
pub fn round_price(price: i64) -> (r: i64)
    ensures
        r == rounded_price(price as int),
        MIN_PRICE <= r <= MAX_PRICE,
        r % CENT == 0,
{
    if price <= 0 {
        return MIN_PRICE;
    }
    if price >= 1_000_000 {
        return MAX_PRICE;
    }
    let cents: u64 = cents_of_order(price as u64);
    if cents < 1 {
        MIN_PRICE
    } else if cents > 99 {
        MAX_PRICE
    } else {
        cents as i64 * CENT
    }
}

/// A price on the grid stays where it is when it is rounded again.
pub proof fn rounding_is_idempotent(price: int)
    ensures
        rounded_price(rounded_price(price)) == rounded_price(price),
{
    cents_are_the_nearest(rounded_price(price) as nat);
}

/// A price that does not lie halfway between two cents goes to the nearest cent,
/// in an order, where it is held between one and 99 cents, and in a text.
pub proof fn prices_go_to_the_nearest_cent(price: int)
    requires
        0 <= price < 1_000_000_000_000,
        price % 10_000 != 5_000,
    ensures
        rounded_price(price) == clamped(
            (price + 5_000) / 10_000 * CENT,
            MIN_PRICE as int,
            MAX_PRICE as int,
        ),
        shown_cents(price) == (price + 5_000) / 10_000,
{
    cents_are_the_nearest(price as nat);
}

/// The digits of a fraction without the zeros at its end.
fn write_trimmed(fraction: u128, width: u32) -> (r: String)
    ensures
        r@ == trimmed_fraction(fraction as nat, width as nat),
    decreases width,
{
    if width > 0 && fraction % 10 == 0 {
        write_trimmed(fraction / 10, width - 1)
    } else {
        write_padded(fraction, width)
    }
}

/// The minus sign of a negative number, and the numeral of `whole`.
fn write_whole(negative: bool, whole: u128) -> (r: String)
    ensures
        r@ == (if negative {
            "-"@
        } else {
            Seq::empty()
        }) + nat_text(whole as nat),
{
    let digits = write_nat(whole);
    if negative {
        join("-", digits.as_str())
    } else {
        assert(Seq::<char>::empty() + digits@ =~= digits@);
        digits
    }
}

/// Writes a quantity of micros as the shortest decimal.
pub fn write_amount(micros: i64) -> (r: String)
    ensures
        r@ == amount_text(micros as int),
{
    let size: u128 = size_of(micros as i128);
    let mut text = write_whole(micros < 0, size / 1_000_000);
    let fraction: u128 = size % 1_000_000;
    if fraction != 0 {
        text.append(".");
        text.append(write_trimmed(fraction, 6).as_str());
    }
    text
}

/// Writes `value` with `places` digits after the point, one step of the last
/// digit being `unit`.
pub fn write_rounded(value: i128, unit: u128, places: u32) -> (r: String)
    requires
        0 < unit <= 1_000_000_000_000,
        places <= 12,
    ensures
        r@ == rounded_text(value as int, unit as int, places as nat),
{
    let steps: u128 = (size_of(value) + unit / 2) / unit;
    let base: u128 = power_of_ten(places);
    proof {
        lemma_pow10_grows(0, places as nat);
    }
    let mut text = write_whole(value < 0, steps / base);
    if places > 0 {
        text.append(".");
        text.append(write_padded(steps % base, places).as_str());
    }
    text
}

/// Writes a price with two digits after the point, as `0.50`.
pub fn write_cents(price: i64) -> (r: String)
    ensures
        r@ == cents_text(price as int),
{
    let cents: u64 = cents_of_text(size_of(price as i128) as u64);
    let mut text = write_whole(price < 0, cents as u128 / 100);
    text.append(".");
    text.append(write_padded(cents as u128 % 100, 2).as_str());
    text
}

/// `a + b`, held within the range of `i128`.
pub fn add_capped(a: i128, b: i128) -> (r: i128)
    ensures
        r == to_i128(a + b),
{
    match a.checked_add(b) {
        Some(sum) => sum,
        None => if a < 0 {
            i128::MIN
        } else {
            i128::MAX
        },
    }
}

/// `a - b`, held within the range of `i128`.
pub fn sub_capped(a: i128, b: i128) -> (r: i128)
    ensures
        r == to_i128(a - b),
{
    match a.checked_sub(b) {
        Some(difference) => difference,
        None => if a < 0 {
            i128::MIN
        } else {
            i128::MAX
        },
    }
}

/// What `shares` cost at `price`, in picos.
pub fn cost_of(shares: i64, price: i64) -> (r: i128)
    ensures
        r == notional(shares as int, price as int),
        magnitude(r as int) <= 0x4000_0000_0000_0000_0000_0000_0000_0000,
{
    assert(magnitude(shares * price) <= 0x4000_0000_0000_0000_0000_0000_0000_0000)
        by (nonlinear_arith)
        requires
            -0x8000_0000_0000_0000 <= shares <= 0x7fff_ffff_ffff_ffff,
            -0x8000_0000_0000_0000 <= price <= 0x7fff_ffff_ffff_ffff,
    ;
    shares as i128 * price as i128
}

/// Whether a bid at `buy_price` counts as filled at the market price `price`.
pub fn fills_at(price: i64, buy_price: i64) -> (r: bool)
    ensures
        r == price_fills(price as int, buy_price as int),
{
    let asked: i128 = to_binary(price);
    let bid: i128 = to_binary(buy_price);
    asked <= bid || is_close(asked, bid)
}

/// A bid counts as filled at every price up to a tenth of a cent above it, and
/// at none that is further away; only at exactly a tenth of a cent the binary
/// numbers decide.
pub proof fn fills_follow_the_price(price: int, buy_price: int)
    requires
        0 <= price <= 1_000_000_000,
        0 <= buy_price <= 1_000_000_000,
        price - buy_price != 1_000,
    ensures
        price_fills(price, buy_price) == (price - buy_price < 1_000),
{
    rounding_error(price as nat * ONE as nat, 1_000_000);
    rounding_error(buy_price as nat * ONE as nat, 1_000_000);
    rounding_error(1_000 * ONE as nat, 1_000_000);
    let (a, b) = (signed_binary(price), signed_binary(buy_price));
    if a > b {
        rounding_error((a - b) as nat, 1);
    }
}

/// What buying both sides of a market costs, in picos.
pub fn cost_per_trade(shares: i64, buy_price: i64) -> (r: i128)
    ensures
        r == pair_cost(shares as int, buy_price as int),
{
    let one: i128 = cost_of(shares, buy_price);
    add_capped(one, one)
}

/// What selling both sides brings over what buying them cost, in picos.
pub fn expected_profit(shares: i64, buy_price: i64, sell_price: i64) -> (r: i128)
    ensures
        r == pair_profit(shares as int, buy_price as int, sell_price as int),
{
    sub_capped(cost_per_trade(shares, sell_price), cost_per_trade(shares, buy_price))
}

/// The expected profit is twice the shares times the margin between the two
/// prices, wherever the products stay below 2^125.
pub proof fn profit_is_twice_the_margin(shares: int, buy_price: int, sell_price: int)
    requires
        magnitude(notional(shares, buy_price)) < 0x2000_0000_0000_0000_0000_0000_0000_0000,
        magnitude(notional(shares, sell_price)) < 0x2000_0000_0000_0000_0000_0000_0000_0000,
    ensures
        pair_profit(shares, buy_price, sell_price) == 2 * (shares * (sell_price - buy_price)),
{
    assert(shares * (sell_price - buy_price) == shares * sell_price - shares * buy_price)
        by (nonlinear_arith);
}

/// A decimal of up to six places is held exactly in micros, and one of more is
/// cut towards zero by less than a micro, wherever it fits.
pub proof fn decimals_are_cut_by_less_than_a_micro(mantissa: int, scale: nat)
    ensures
        ({
            let micros = decimal_micros(mantissa, scale);
            let fits = i64::MIN < micros < i64::MAX;
            &&& scale <= 6 && fits ==> micros == mantissa * pow10((6 - scale) as nat)
            &&& scale > 6 && fits && mantissa >= 0 ==> 0 <= mantissa - micros * pow10(
                (scale - 6) as nat,
            ) < pow10((scale - 6) as nat)
            &&& scale > 6 && fits && mantissa < 0 ==> 0 <= micros * pow10((scale - 6) as nat)
                - mantissa < pow10((scale - 6) as nat)
            &&& mantissa == 0 ==> micros == 0
            &&& mantissa > 0 ==> micros >= 0
            &&& decimal_micros(-mantissa, scale) == -micros || !fits
        }),
{
    let size = magnitude(mantissa) as int;
    if scale <= 6 {
        let p = pow10((6 - scale) as nat) as int;
        lemma_pow10_grows(0, (6 - scale) as nat);
        assert(0 <= size * p) by (nonlinear_arith)
            requires
                0 <= size,
                0 <= p,
        ;
        assert((-size) * p == -(size * p)) by (nonlinear_arith);
        assert(0 * p == 0);
    } else {
        let p = pow10((scale - 6) as nat) as int;
        lemma_pow10_grows(0, (scale - 6) as nat);
        vstd::arithmetic::div_mod::lemma_fundamental_div_mod(size, p);
        vstd::arithmetic::div_mod::lemma_div_pos_is_pos(size, p);
        let q = size / p;
        assert(q * p == p * q) by (nonlinear_arith);
        assert((-q) * p == -(p * q)) by (nonlinear_arith);
    }
}

/// An amount that is in range is held as it is, and any other at the end of the
/// range that it is beyond.
pub proof fn amounts_in_range_are_held(i: int)
    ensures
        i64::MIN <= i <= i64::MAX ==> to_i64(i) == i,
        i < i64::MIN ==> to_i64(i) == i64::MIN,
        i > i64::MAX ==> to_i64(i) == i64::MAX,
        i128::MIN <= i <= i128::MAX ==> to_i128(i) == i,
        i < i128::MIN ==> to_i128(i) == i128::MIN,
        i > i128::MAX ==> to_i128(i) == i128::MAX,
{
}

/// Both sides cost the shares at the price twice, wherever that stays in range.
pub proof fn a_pair_costs_both_sides(shares: int, price: int)
    requires
        i128::MIN <= 2 * (shares * price) <= i128::MAX,
    ensures
        pair_cost(shares, price) == shares * price + shares * price,
        notional(shares, price) == shares * price,
{
    assert(notional(shares, price) * 2 == shares * price + shares * price);
}

/// An order is sent between one and 99 cents, at a whole cent no further than
/// half a cent from what was meant where that lies between them.
pub proof fn an_order_price_is_near(price: int)
    ensures
        10_000 <= rounded_price(price) <= 990_000,
        rounded_price(price) % 10_000 == 0,
        10_000 <= price <= 990_000 ==> -5_000 <= rounded_price(price) - price <= 5_000,
        price <= 10_000 ==> rounded_price(price) == 10_000,
        price >= 990_000 ==> rounded_price(price) == 990_000,
{
    if 0 < price < 1_000_000 {
        rounding_error(price as nat * ONE as nat, 1_000_000);
        rounding_error(100 * crate::binary::binary(price as nat), 1);
    }
}

/// What is written with some places is the nearest such number: no further than
/// half a step of the last digit from the value, with its sign.
pub proof fn amounts_are_written_to_the_nearest_step(value: int, unit: int, places: nat)
    requires
        unit > 0,
    ensures
        exists|steps: nat|
            {
                let whole = nat_text(#[trigger] (steps / pow10(places)));
                let shown = if places == 0 {
                    whole
                } else {
                    whole + "."@ + padded_text(steps % pow10(places), places)
                };
                &&& rounded_text(value, unit, places) == sign_text(value) + shown
                &&& -unit <= 2 * (steps * unit - magnitude(value)) <= unit
            },
{
    let size = magnitude(value) as int;
    let steps = ((size + unit / 2) / unit) as nat;
    vstd::arithmetic::div_mod::lemma_fundamental_div_mod(size + unit / 2, unit);
    vstd::arithmetic::div_mod::lemma_div_pos_is_pos(size + unit / 2, unit);
    assert(steps * unit == unit * steps) by (nonlinear_arith);
    let whole = nat_text(steps / pow10(places));
    let shown = if places == 0 {
        whole
    } else {
        whole + "."@ + padded_text(steps % pow10(places), places)
    };
    assert(rounded_text(value, unit, places) =~= sign_text(value) + shown);
    assert(nat_text(steps / pow10(places)) == whole);
}

} // verus!
