//! The exchange's decimal numbers: reading them, writing them, and why the
//! text of an order stands for exactly the amount that was meant.
use std::str::FromStr;
use vstd::prelude::*;

use crate::binary::{rounding_error, written_cents, ONE};
use crate::evm::{digit_in, digits_value};
use crate::money::{
    amount_text, cents_text, decimal_micros, magnitude, pow10, shown_cents, sign_text,
    trimmed_fraction, DecimalParts,
};
use crate::text::{digit, nat_text, padded_text};

verus! {

impl DecimalParts {
    /// The parts are those of a number that the exchange can hold: a mantissa
    /// of 96 bits and at most 28 places.
    pub open spec fn valid(self) -> bool {
        magnitude(self.mantissa as int) < 0x1_0000_0000_0000_0000_0000_0000 && self.scale <= 28
    }
}

/// Every character is a decimal digit.
pub open spec fn all_digits(text: Seq<char>) -> bool {
    forall|i: int| 0 <= i < text.len() ==> '0' <= #[trigger] text[i] && text[i] <= '9'
}

/// A decimal written plainly: a minus sign where it is negative, digits, and,
/// where there are digits behind it, a point and those digits.
pub open spec fn plain_text(negative: bool, whole: Seq<char>, fraction: Seq<char>) -> Seq<char> {
    (if negative {
        "-"@
    } else {
        Seq::empty()
    }) + whole + (if fraction.len() == 0 {
        Seq::empty()
    } else {
        "."@ + fraction
    })
}

/// The digits make a decimal that can be held without rounding.
pub open spec fn plain_digits(whole: Seq<char>, fraction: Seq<char>) -> bool {
    all_digits(whole) && all_digits(fraction) && 0 < whole.len() && whole.len() + fraction.len()
        <= 28
}

/// What `FromStr` of `rust_decimal`'s `Decimal` reads, as mantissa and scale.
pub uninterp spec fn decimal_of(text: Seq<char>) -> Option<(i128, u32)>;

/// The mantissa and the scale of a decimal that may be missing.
pub open spec fn parts_view(parts: Option<DecimalParts>) -> Option<(i128, u32)> {
    match parts {
        Some(inner) => Some((inner.mantissa, inner.scale)),
        None => None,
    }
}

/// A plainly written decimal is read as its digits, with as many places as
/// stand behind the point.
pub open spec fn reads_plainly(text: Seq<char>, read: Option<DecimalParts>) -> bool {
    forall|negative: bool, whole: Seq<char>, fraction: Seq<char>|
        text == #[trigger] plain_text(negative, whole, fraction) && plain_digits(whole, fraction)
            ==> read is Some && read->0.scale == fraction.len() && read->0.mantissa == (
        if negative {
            -digits_value(whole + fraction, 10)->0
        } else {
            digits_value(whole + fraction, 10)->0 as int
        })
}

/// Calls `FromStr` of `rust_decimal`'s `Decimal`. What it makes of any text is
/// only named. Stated is what it makes of a plainly written decimal of at most
/// 28 digits: those digits, with as many places as stand behind the point.
#[verifier::external_body]
pub(crate) fn parse_decimal(text: &str) -> (r: Option<DecimalParts>)
    ensures
        parts_view(r) == decimal_of(text@),
        r matches Some(parts) ==> parts.valid(),
        reads_plainly(text@, r),
{
    rust_decimal::Decimal::from_str(text).ok().map(
        |d| DecimalParts { mantissa: d.mantissa(), scale: d.scale() },
    )
}

/// A decimal with all its places.
pub open spec fn parts_text(parts: DecimalParts) -> Seq<char> {
    let size = magnitude(parts.mantissa as int);
    let unit = pow10(parts.scale as nat);
    let whole = sign_text(parts.mantissa as int) + nat_text(size / unit);
    if parts.scale == 0 {
        whole
    } else {
        whole + "."@ + padded_text(size % unit, parts.scale as nat)
    }
}

/// Calls `to_string` of `rust_decimal`'s `Decimal`, which writes all the places
/// of the number.
#[verifier::external_body]
pub(crate) fn write_decimal(parts: DecimalParts) -> (r: String)
    requires
        parts.valid(),
    ensures
        r@ == parts_text(parts),
{
    rust_decimal::Decimal::from_i128_with_scale(parts.mantissa, parts.scale).to_string()
}

/// The value of digits put together.
proof fn lemma_digits_concat(a: Seq<char>, b: Seq<char>)
    requires
        digits_value(a, 10) is Some,
        all_digits(b),
    ensures
        digits_value(b, 10) is Some,
        digits_value(a + b, 10) == Some(
            (digits_value(a, 10)->0 * pow10(b.len()) + digits_value(b, 10)->0) as nat,
        ),
    decreases b.len(),
{
    if b.len() == 0 {
        assert(a + b =~= a);
        assert(pow10(0) == 1);
    } else {
        let front = b.drop_last();
        lemma_digits_concat(a, front);
        assert((a + b).drop_last() =~= a + front);
        assert((a + b).last() == b.last());
        let d = digit_in(b.last(), 10)->0;
        let va = digits_value(a, 10)->0;
        let vf = digits_value(front, 10)->0;
        let p = pow10(front.len());
        assert((va * p + vf) * 10 + d == va * (10 * p) + (vf * 10 + d)) by (nonlinear_arith);
        assert(pow10(b.len()) == 10 * p);
        assert(digits_value(b, 10) == Some((vf * 10 + d) as nat));
        assert(digits_value(a + b, 10) == Some(((va * p + vf) * 10 + d) as nat));
    }
}

/// A numeral consists of digits, spells out its number, and is as long as its
/// number is large.
proof fn lemma_nat_text(n: nat, width: nat)
    requires
        n < pow10(width),
        0 < width,
    ensures
        all_digits(nat_text(n)),
        0 < nat_text(n).len() <= width,
        digits_value(nat_text(n), 10) == Some(n),
    decreases n,
{
    let text = nat_text(n);
    reveal_with_fuel(digits_value, 2);
    if n < 10 {
        assert(text.drop_last() =~= Seq::<char>::empty());
        assert(text.last() == digit(n as int));
    } else {
        assert(width > 1) by {
            if width == 1 {
                reveal_with_fuel(pow10, 2);
            }
        }
        assert(pow10(width) == 10 * pow10((width - 1) as nat));
        lemma_nat_text(n / 10, (width - 1) as nat);
        assert(text.drop_last() =~= nat_text(n / 10));
        assert(text.last() == digit((n % 10) as int));
        assert forall|i: int| 0 <= i < text.len() implies '0' <= #[trigger] text[i] && text[i]
            <= '9' by {
            if i < text.len() - 1 {
                assert(text[i] == nat_text(n / 10)[i]);
            }
        }
    }
}

/// Padded digits spell out the number that they are the last digits of.
proof fn lemma_padded_text(n: nat, width: nat)
    requires
        n < pow10(width),
    ensures
        all_digits(padded_text(n, width)),
        padded_text(n, width).len() == width,
        digits_value(padded_text(n, width), 10) == Some(n),
    decreases width,
{
    let text = padded_text(n, width);
    if width > 0 {
        assert(pow10(width) == 10 * pow10((width - 1) as nat));
        lemma_padded_text(n / 10, (width - 1) as nat);
        assert(text.drop_last() =~= padded_text(n / 10, (width - 1) as nat));
        assert(text.last() == digit((n % 10) as int));
        assert forall|i: int| 0 <= i < text.len() implies '0' <= #[trigger] text[i] && text[i]
            <= '9' by {
            if i < text.len() - 1 {
                assert(text[i] == padded_text(n / 10, (width - 1) as nat)[i]);
            }
        }
    }
}

/// A fraction without the zeros at its end keeps its value.
proof fn lemma_trimmed(fraction: nat, width: nat)
    requires
        fraction < pow10(width),
        fraction > 0,
    ensures
        ({
            let text = trimmed_fraction(fraction, width);
            &&& all_digits(text)
            &&& 0 < text.len() <= width
            &&& digits_value(text, 10) is Some
            &&& digits_value(text, 10)->0 * pow10((width - text.len()) as nat) == fraction
        }),
    decreases width,
{
    if width > 0 && fraction % 10 == 0 {
        assert(pow10(width) == 10 * pow10((width - 1) as nat));
        lemma_trimmed(fraction / 10, (width - 1) as nat);
        let text = trimmed_fraction(fraction, width);
        let v = digits_value(text, 10)->0;
        let p = pow10((width - 1 - text.len()) as nat);
        assert(pow10((width - text.len()) as nat) == 10 * p);
        assert(v * (10 * p) == 10 * (v * p)) by (nonlinear_arith);
    } else {
        lemma_padded_text(fraction, width);
        assert(fraction * pow10(0) == fraction) by (nonlinear_arith)
            requires
                pow10(0) == 1,
        ;
    }
}

/// What the order text of an amount is read as: the amount, with no more places
/// than it needs.
pub proof fn amount_text_is_exact(micros: i64, read: Option<DecimalParts>)
    requires
        reads_plainly(amount_text(micros as int), read),
    ensures
        read is Some,
        read->0.scale <= 6,
        read->0.mantissa * pow10((6 - read->0.scale) as nat) == micros,
        decimal_micros(read->0.mantissa as int, read->0.scale as nat) == micros,
{
    let size = magnitude(micros as int);
    let whole = nat_text(size / 1_000_000);
    let rest = size % 1_000_000;
    reveal_with_fuel(pow10, 14);
    lemma_nat_text(size / 1_000_000, 13);
    let fraction = if rest == 0 {
        Seq::empty()
    } else {
        trimmed_fraction(rest, 6)
    };
    if rest != 0 {
        lemma_trimmed(rest, 6);
    }
    lemma_digits_concat(whole, fraction);
    assert(amount_text(micros as int) =~= plain_text(micros < 0, whole, fraction));
    let w = size / 1_000_000;
    let k = fraction.len();
    let v = digits_value(fraction, 10)->0;
    lemma_pow10_sum(k, (6 - k) as nat);
    let p = pow10(k);
    let q = pow10((6 - k) as nat);
    assert((w * p + v) * q == w * (p * q) + v * q) by (nonlinear_arith);
    assert(v * q == rest) by {
        if rest == 0 {
            assert(v == 0);
            assert(v * q == 0) by (nonlinear_arith)
                requires
                    v == 0,
            ;
        }
    }
    assert(w * (p * q) == w * 1_000_000) by (nonlinear_arith)
        requires
            p * q == 1_000_000,
    ;
    assert(digits_value(whole + fraction, 10)->0 * q == size);
    let value = digits_value(whole + fraction, 10)->0;
    assert((-value) * q == -(value * q)) by (nonlinear_arith);
}

/// The product of two powers of ten.
proof fn lemma_pow10_sum(a: nat, b: nat)
    ensures
        pow10(a) * pow10(b) == pow10(a + b),
    decreases a,
{
    if a == 0 {
        assert(pow10(0) == 1);
    } else {
        lemma_pow10_sum((a - 1) as nat, b);
        let p = pow10((a - 1) as nat);
        assert((10 * p) * pow10(b) == 10 * (p * pow10(b))) by (nonlinear_arith);
        assert(pow10(a) == 10 * p);
        assert(pow10(a + b) == 10 * pow10((a + b - 1) as nat));
    }
}

/// What the text of a price with two places is read as: the cents that it is
/// written with.
pub proof fn cents_text_is_exact(price: i64, read: Option<DecimalParts>)
    requires
        reads_plainly(cents_text(price as int), read),
    ensures
        read is Some,
        read->0.scale == 2,
        read->0.mantissa == shown_cents(price as int),
{
    let cents = written_cents(magnitude(price as int));
    reveal_with_fuel(pow10, 18);
    assert(cents / 100 < pow10(17)) by {
        rounding_error(magnitude(price as int) * ONE as nat, 1_000_000);
    }
    let whole = nat_text(cents / 100);
    let fraction = padded_text(cents % 100, 2);
    lemma_nat_text(cents / 100, 17);
    lemma_padded_text(cents % 100, 2);
    lemma_digits_concat(whole, fraction);
    assert(cents_text(price as int) =~= plain_text(price < 0, whole, fraction));
}

} // verus!
