use btc5min_limit_order::money::{
    add_capped, cost_of, cost_per_trade, expected_profit, fills_at, power_of_ten, round_price,
    sub_capped, write_amount, write_cents, write_rounded, DecimalParts,
};
use btc5min_limit_order::text::{
    is_lower, join, with_hex_prefix, without_hex_prefix, write_int, write_nat, write_padded,
};

#[test]
fn the_hex_prefix_is_put_once() {
    assert_eq!(with_hex_prefix("abc"), "0xabc");
    assert_eq!(with_hex_prefix("0xabc"), "0xabc");
    assert_eq!(with_hex_prefix(&with_hex_prefix("abc")), "0xabc");
    assert_eq!(with_hex_prefix("0Xabc"), "0x0Xabc");
    assert_eq!(with_hex_prefix(""), "0x");
}

#[test]
fn the_hex_prefix_is_taken_away_once() {
    assert_eq!(without_hex_prefix("0xabc"), "abc");
    assert_eq!(without_hex_prefix("abc"), "abc");
    assert_eq!(without_hex_prefix("0x0xabc"), "0xabc");
    assert_eq!(without_hex_prefix(&with_hex_prefix("abc")), "abc");
    assert_eq!(without_hex_prefix("0xäb"), "äb");
}

#[test]
fn letter_case_does_not_count() {
    assert!(is_lower("UP", "up"));
    assert!(is_lower("Up", "up"));
    assert!(!is_lower("up ", "up"));
    assert!(!is_lower("DOWN", "up"));
    assert!(is_lower("ÄÖ", "äö"));
}

#[test]
fn numbers_are_written_in_decimal() {
    assert_eq!(write_int(0), "0");
    assert_eq!(write_int(-17), "-17");
    assert_eq!(write_int(1735689600), "1735689600");
    assert_eq!(write_int(i64::MIN), i64::MIN.to_string());
    assert_eq!(write_int(i64::MAX), i64::MAX.to_string());
    assert_eq!(write_nat(u128::MAX), u128::MAX.to_string());
    assert_eq!(write_padded(7, 3), "007");
    assert_eq!(write_padded(1234, 2), "34");
    assert_eq!(write_padded(1, 0), "");
    assert_eq!(join("a", "b"), "ab");
}

fn micros(mantissa: i128, scale: u32) -> i64 {
    DecimalParts { mantissa, scale }.micros()
}

#[test]
fn decimals_are_cut_to_micros() {
    assert_eq!(micros(35, 1), 3_500_000);
    assert_eq!(micros(49, 2), 490_000);
    assert_eq!(micros(-49, 2), -490_000);
    assert_eq!(micros(123_456_789, 8), 1_234_567);
    assert_eq!(micros(-123_456_789, 8), -1_234_567);
    assert_eq!(micros(7, 28), 0);
    assert_eq!(micros(7, 60), 0);
    assert_eq!(micros(i128::MAX, 0), i64::MAX);
    assert_eq!(micros(i128::MIN, 0), i64::MIN);
    assert_eq!(micros(0, 0), 0);
}

#[test]
fn prices_are_rounded_to_cents_between_one_and_ninety_nine() {
    assert_eq!(round_price(494_999), 490_000);
    assert_eq!(round_price(495_000), 500_000);
    assert_eq!(round_price(490_000), 490_000);
    assert_eq!(round_price(0), 10_000);
    assert_eq!(round_price(-5_000_000), 10_000);
    assert_eq!(round_price(1_000_000), 990_000);
    assert_eq!(round_price(i64::MAX), 990_000);
    assert_eq!(round_price(i64::MIN), 10_000);
    let mut price: i64 = 0;
    while price <= 1_000_000 {
        assert_eq!(round_price(round_price(price)), round_price(price));
        price += 1_237;
    }
}

/// Every half cent up to a dollar, and prices in between.
fn sample() -> Vec<i64> {
    let mut prices: Vec<i64> = (0..=200).map(|i| i * 5_000).collect();
    prices.extend((0..27_027).map(|i| i * 37));
    prices
}

#[test]
fn prices_are_rounded_as_floats_are() {
    assert_eq!(round_price(145_000), 140_000);
    assert_eq!(round_price(285_000), 280_000);
    assert_eq!(round_price(15_000), 20_000);
    for price in sample() {
        let float = price as f64 / 1_000_000.0;
        let rounded = ((float * 100.0).round() / 100.0).clamp(0.01, 0.99);
        assert_eq!(write_amount(round_price(price)), format!("{}", rounded), "{}", price);
    }
}

#[test]
fn prices_are_written_as_floats_are() {
    assert_eq!(write_cents(15_000), "0.01");
    assert_eq!(write_cents(125_000), "0.12");
    assert_eq!(write_cents(375_000), "0.38");
    assert_eq!(write_cents(-1_000), "-0.00");
    for price in sample() {
        let float = price as f64 / 1_000_000.0;
        assert_eq!(write_cents(price), format!("{:.2}", float), "{}", price);
        assert_eq!(write_cents(-price - 1), format!("{:.2}", -(price + 1) as f64 / 1_000_000.0));
        let large = price * 8_999_999_999 + 5_000;
        assert_eq!(write_cents(large), format!("{:.2}", format_micros(large)), "{}", large);
    }
    for price in [i64::MAX, i64::MIN, 1 << 54, (1 << 54) - 1, 9_007_199_254_740_993] {
        assert_eq!(write_cents(price), format!("{:.2}", format_micros(price)), "{}", price);
    }
}

/// The nearest float to so many micros, read from their decimal.
fn format_micros(micros: i64) -> f64 {
    let size = micros.unsigned_abs();
    let text = format!("{}.{:06}", size / 1_000_000, size % 1_000_000);
    let float: f64 = text.parse().unwrap();
    if micros < 0 {
        -float
    } else {
        float
    }
}

#[test]
fn bids_fill_as_floats_do() {
    assert!(fills_at(11_000, 10_000));
    assert!(!fills_at(491_000, 490_000));
    for bid in sample().into_iter().step_by(7) {
        for price in [bid, bid + 1, bid + 999, bid + 1_000, bid + 1_001, bid - 1_000, bid * 2] {
            let (p, b) = (format_micros(price), format_micros(bid));
            assert_eq!(fills_at(price, bid), p <= b || (p - b).abs() < 0.001, "{} {}", price, bid);
        }
    }
}

#[test]
fn amounts_are_written_as_floats_are() {
    for micros in [
        0i64, 5_000_000, 3_500_000, 490_000, 500_000, 10_000, 1, 1_000_001, 123_456_789, 990_000,
        -2_500_000,
    ] {
        let float = micros as f64 / 1_000_000.0;
        if micros == 1 {
            assert_eq!(write_amount(micros), "0.000001");
        } else {
            assert_eq!(write_amount(micros), format!("{}", float));
        }
    }
}

#[test]
fn prices_are_written_with_two_places() {
    assert_eq!(write_cents(500_000), "0.50");
    assert_eq!(write_cents(20_000), "0.02");
    assert_eq!(write_cents(1_234_567), "1.23");
    assert_eq!(write_cents(999_999), "1.00");
    assert_eq!(write_cents(-20_000), "-0.02");
    for cents in 0..100i64 {
        assert_eq!(write_cents(cents * 10_000), format!("{:.2}", cents as f64 / 100.0));
    }
}

#[test]
fn dollars_are_written_with_any_places() {
    assert_eq!(write_rounded(2_450_000_000_000, 10_000_000_000, 2), "2.45");
    assert_eq!(write_rounded(50_000_000_000, 10_000_000_000, 2), "0.05");
    assert_eq!(write_rounded(5_000_000, 1_000_000, 0), "5");
    assert_eq!(write_rounded(490_000, 100, 4), "0.4900");
    assert_eq!(power_of_ten(0), 1);
    assert_eq!(power_of_ten(12), 1_000_000_000_000);
}

#[test]
fn five_shares_a_side_earn_five_cents_a_side() {
    let shares = 5_000_000;
    assert_eq!(cost_of(shares, 490_000), 2_450_000_000_000);
    assert_eq!(cost_of(shares, 500_000) - cost_of(shares, 490_000), 50_000_000_000);
    assert_eq!(cost_per_trade(shares, 490_000), 4_900_000_000_000);
    assert_eq!(expected_profit(shares, 490_000, 500_000), 100_000_000_000);
    assert_eq!(expected_profit(shares, 10_000, 20_000), 2 * 5_000_000 * 10_000);
}

#[test]
fn sums_stop_at_the_ends_of_the_range() {
    assert_eq!(add_capped(i128::MAX, 1), i128::MAX);
    assert_eq!(add_capped(i128::MIN, -1), i128::MIN);
    assert_eq!(sub_capped(i128::MIN, 1), i128::MIN);
    assert_eq!(sub_capped(i128::MAX, -1), i128::MAX);
    assert_eq!(sub_capped(5, 7), -2);
    assert_eq!(
        cost_per_trade(i64::MIN, i64::MIN),
        i128::MAX
    );
}

#[test]
fn a_bid_fills_up_to_a_tenth_of_a_cent_above_it() {
    assert!(fills_at(490_000, 490_000));
    assert!(fills_at(10_000, 490_000));
    assert!(fills_at(490_999, 490_000));
    assert!(!fills_at(491_000, 490_000));
    assert!(!fills_at(i64::MAX, i64::MIN));
    assert!(fills_at(i64::MIN, i64::MAX));
}
