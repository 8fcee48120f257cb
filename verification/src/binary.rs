//! Prices as binary numbers of 53 bits.
//!
//! A price in the settings is the binary number of double precision that comes
//! nearest to its decimal, and so is a price that the exchange reports. Where a
//! price lies halfway between two cents, it is that number which decides. Here
//! such a number is an integer: it counts units of 2^-72, which is fine enough
//! for a millionth and more.
use vstd::prelude::*;

verus! {

/// One in units of 2^-72.
pub const ONE: u128 = 0x100_0000_0000_0000_0000;

/// Two to the power of 53.
pub const BITS_53: u128 = 0x20_0000_0000_0000;

/// `n / d` to the nearest integer, halves to the even one.
pub open spec fn half_even(n: nat, d: nat) -> nat {
    let whole = n / d;
    let twice = 2 * (n % d);
    if twice < d || (twice == d && whole % 2 == 0) {
        whole
    } else {
        whole + 1
    }
}

/// `n / d` to the nearest number whose 53 leading bits are all that is set of it,
/// halves to the even one. A quotient of fewer bits is taken to the nearest
/// integer.
pub open spec fn to_53_bits(n: nat, d: nat) -> nat
    decreases n - d,
{
    if d == 0 || n < d * BITS_53 {
        half_even(n, d)
    } else {
        2 * to_53_bits(n, 2 * d)
    }
}

/// The binary number of double precision nearest to so many millionths, in
/// units.
pub open spec fn binary(micros: nat) -> nat {
    to_53_bits(micros * ONE as nat, 1_000_000)
}

/// The same with a sign.
pub open spec fn signed_binary(micros: int) -> int {
    if micros < 0 {
        -binary((-micros) as nat)
    } else {
        binary(micros as nat) as int
    }
}

/// How far `to_53_bits` may be off: half a unit, or one part in 2^53.
pub proof fn rounding_error(n: nat, d: nat)
    requires
        d > 0,
    ensures
        ({
            let error = to_53_bits(n, d) * d - n;
            let bound = if n < d * 0x10_0000_0000_0000 {
                d * 0x10_0000_0000_0000
            } else {
                n
            };
            -bound <= error * BITS_53 <= bound
        }),
    decreases n - d,
{
    let r = to_53_bits(n, d);
    if n < d * BITS_53 {
        let whole = n / d;
        let rest = n % d;
        assert(n == d * whole + rest) by {
            vstd::arithmetic::div_mod::lemma_fundamental_div_mod(n as int, d as int);
        }
        assert(whole * d == d * whole) by (nonlinear_arith);
        assert((whole + 1) * d == d * whole + d) by (nonlinear_arith);
    } else {
        let half = to_53_bits(n, 2 * d);
        rounding_error(n, 2 * d);
        assert((2 * half) * d == half * (2 * d)) by (nonlinear_arith);
    }
}

/// A quotient stays the same when both its parts are doubled.
proof fn lemma_doubled(n: nat, d: nat)
    requires
        d > 0,
    ensures
        to_53_bits(2 * n, 2 * d) == to_53_bits(n, d),
    decreases n - d,
{
    if n < d * BITS_53 {
        let whole = (n / d) as int;
        let rest = (n % d) as int;
        vstd::arithmetic::div_mod::lemma_fundamental_div_mod(n as int, d as int);
        assert(whole * (2 * d) == 2 * (d * whole)) by (nonlinear_arith);
        vstd::arithmetic::div_mod::lemma_fundamental_div_mod_converse(
            2 * n as int,
            2 * d as int,
            whole,
            2 * rest,
        );
    } else {
        lemma_doubled(n, 2 * d);
    }
}

/// A large number has its doubled 53 bits when it is doubled.
proof fn lemma_twice(n: nat, d: nat)
    requires
        d > 0,
        2 * n >= d * BITS_53,
    ensures
        to_53_bits(2 * n, d) == 2 * to_53_bits(n, d),
{
    lemma_doubled(n, d);
}

/// `n / d` in 53 bits.
fn round_53(n: u128, d: u128) -> (r: u128)
    requires
        0 < d <= 0x400_0000_0000_0000_0000,
        n < 0x4000_0000_0000_0000_0000_0000_0000_0000,
    ensures
        r == to_53_bits(n as nat, d as nat),
        r <= 2 * n + 1,
    decreases n - d,
{
    proof {
        rounding_error(n as nat, d as nat);
        let r = to_53_bits(n as nat, d as nat);
        assert(r <= 2 * n + 1) by (nonlinear_arith)
            requires
                d > 0,
                n >= 0,
                (r * d - n) * BITS_53 <= if n < d * 0x10_0000_0000_0000 {
                    d * 0x10_0000_0000_0000
                } else {
                    n as int
                },
        ;
    }
    if n < d * BITS_53 {
        let whole: u128 = n / d;
        let twice: u128 = 2 * (n % d);
        if twice < d || (twice == d && whole % 2 == 0) {
            whole
        } else {
            whole + 1
        }
    } else {
        2 * round_53(n, 2 * d)
    }
}

/// So many millionths as a binary number, in units.
fn write_binary(micros: u64) -> (r: u128)
    requires
        micros <= 0x8000_0000_0000_0000,
    ensures
        r == binary(micros as nat),
        r <= 0x20_0000_0000_0000_0000_0000_0000_0000,
{
    proof {
        rounding_error(micros as nat * ONE as nat, 1_000_000);
    }
    if micros < 0x40_0000_0000_0000 {
        round_53(micros as u128 * ONE, 1_000_000)
    } else {
        let n: u128 = micros as u128 * 0x4000_0000_0000_0000;
        proof {
            let m = n as nat;
            lemma_twice(m, 1_000_000);
            lemma_twice(2 * m, 1_000_000);
            lemma_twice(4 * m, 1_000_000);
            lemma_twice(8 * m, 1_000_000);
            lemma_twice(16 * m, 1_000_000);
            lemma_twice(32 * m, 1_000_000);
            lemma_twice(64 * m, 1_000_000);
            lemma_twice(128 * m, 1_000_000);
            lemma_twice(256 * m, 1_000_000);
            lemma_twice(512 * m, 1_000_000);
            assert(1024 * m == micros as nat * ONE as nat);
        }
        1024 * round_53(n, 1_000_000)
    }
}

/// So many millionths as a binary number with its sign, in units.
pub(crate) fn to_binary(micros: i64) -> (r: i128)
    ensures
        r == signed_binary(micros as int),
        -0x20_0000_0000_0000_0000_0000_0000_0000 <= r
            <= 0x20_0000_0000_0000_0000_0000_0000_0000,
{
    if micros < 0 {
        let size: u64 = (-(micros as i128)) as u64;
        -(write_binary(size) as i128)
    } else {
        write_binary(micros as u64) as i128
    }
}

/// The cents of a price that an order is rounded to: the price times a hundred,
/// as a binary number, to the nearest integer, halves up.
pub open spec fn order_cents(micros: nat) -> nat {
    (to_53_bits(100 * binary(micros), 1) + ONE as nat / 2) / ONE as nat
}

/// The cents that a price is written with: the nearest ones to its binary
/// number, halves to even.
pub open spec fn written_cents(micros: nat) -> nat {
    half_even(100 * binary(micros), ONE as nat)
}

/// The cents of a price below a dollar that an order is rounded to.
pub(crate) fn cents_of_order(micros: u64) -> (r: u64)
    requires
        micros < 1_000_000,
    ensures
        r == order_cents(micros as nat),
        r <= 100,
{
    proof {
        rounding_error(micros as nat * ONE as nat, 1_000_000);
        rounding_error(100 * binary(micros as nat), 1);
    }
    let product: u128 = round_53(100 * write_binary(micros), 1);
    ((product + ONE / 2) / ONE) as u64
}

/// The cents that a price is written with.
pub(crate) fn cents_of_text(micros: u64) -> (r: u64)
    requires
        micros <= 0x8000_0000_0000_0000,
    ensures
        r == written_cents(micros as nat),
{
    let product: u128 = 100 * write_binary(micros);
    let whole: u128 = product / ONE;
    let twice: u128 = 2 * (product % ONE);
    let cents: u128 = if twice < ONE || (twice == ONE && whole % 2 == 0) {
        whole
    } else {
        whole + 1
    };
    cents as u64
}

/// A price that does not lie halfway between two cents is rounded to the nearest
/// cent, in an order and in a text alike.
pub proof fn cents_are_the_nearest(micros: nat)
    requires
        micros % 10_000 != 5_000,
        micros < 1_000_000_000_000,
    ensures
        order_cents(micros) == (micros + 5_000) / 10_000,
        written_cents(micros) == (micros + 5_000) / 10_000,
{
    rounding_error(micros * ONE as nat, 1_000_000);
    rounding_error(100 * binary(micros), 1);
}

/// The difference of two binary numbers in 53 bits is below a tenth of a cent.
pub open spec fn close(a: int, b: int) -> bool {
    to_53_bits(
        (if a < b {
            b - a
        } else {
            a - b
        }) as nat,
        1,
    ) < binary(1_000)
}

/// Whether the difference of two binary numbers in 53 bits is below a tenth of a
/// cent.
pub(crate) fn is_close(a: i128, b: i128) -> (r: bool)
    requires
        -0x20_0000_0000_0000_0000_0000_0000_0000 <= a <= 0x20_0000_0000_0000_0000_0000_0000_0000,
        -0x20_0000_0000_0000_0000_0000_0000_0000 <= b <= 0x20_0000_0000_0000_0000_0000_0000_0000,
    ensures
        r == close(a as int, b as int),
{
    let distance: u128 = if a < b {
        (b - a) as u128
    } else {
        (a - b) as u128
    };
    round_53(distance, 1) < write_binary(1_000)
}

} // verus!
