//! Amounts and costs.

use cherry_usage::amount::{Amount, MAX_MANTISSA, MAX_SCALE};
use cherry_usage::pricing::{
    calculate_cost, cost_texts, write_cost, CostBreakdown, CostTexts, ModelPricing, TokenUsage,
};

fn amount(mantissa: i128, scale: u32) -> Amount {
    Amount::new(mantissa, scale).unwrap()
}

fn prices(input: Amount, output: Amount, cache_read: Amount, cache_creation: Amount) -> ModelPricing {
    ModelPricing {
        input_cost_per_million: input,
        output_cost_per_million: output,
        cache_read_cost_per_million: cache_read,
        cache_creation_cost_per_million: cache_creation,
    }
}

fn tokens(input: u32, output: u32, cache_read: u32, cache_creation: u32) -> TokenUsage {
    TokenUsage {
        input_tokens: input,
        output_tokens: output,
        cache_read_tokens: cache_read,
        cache_creation_tokens: cache_creation,
    }
}

fn parts(texts: &CostTexts) -> [&str; 5] {
    [
        texts.input.as_str(),
        texts.output.as_str(),
        texts.cache_read.as_str(),
        texts.cache_creation.as_str(),
        texts.total.as_str(),
    ]
}

/// The text of an amount.
fn written(a: Amount) -> String {
    let cost = CostBreakdown {
        input_cost: a,
        output_cost: a,
        cache_read_cost: a,
        cache_creation_cost: a,
        total_cost: a,
    };
    write_cost(&cost).total
}

#[test]
fn amounts_hold_96_bits() {
    assert!(Amount::new(MAX_MANTISSA, MAX_SCALE).is_some());
    assert!(Amount::new(-MAX_MANTISSA, 0).is_some());
    assert!(Amount::new(MAX_MANTISSA + 1, 0).is_none());
    assert!(Amount::new(-MAX_MANTISSA - 1, 0).is_none());
    assert!(Amount::new(0, MAX_SCALE + 1).is_none());
}

#[test]
fn amounts_are_written_with_their_scale() {
    assert_eq!(written(amount(0, 0)), "0");
    assert_eq!(written(amount(0, 3)), "0.000");
    assert_eq!(written(amount(145, 6)), "0.000145");
    assert_eq!(written(amount(-145, 2)), "-1.45");
    assert_eq!(written(amount(-5, 2)), "-0.05");
    assert_eq!(written(amount(120, 2)), "1.20");
    assert_eq!(written(amount(120, 0)), "120");
    assert_eq!(written(amount(123, 3)), "0.123");
    assert_eq!(
        written(amount(MAX_MANTISSA, 0)),
        "79228162514264337593543950335"
    );
    assert_eq!(
        written(amount(MAX_MANTISSA, 28)),
        "7.9228162514264337593543950335"
    );
}

#[test]
fn cost_is_tokens_times_price_per_million() {
    let pricing = prices(amount(1, 0), amount(2, 0), amount(5, 1), amount(3, 0));
    let texts = cost_texts(&tokens(60, 20, 30, 10), &Some(pricing)).unwrap();
    assert_eq!(
        parts(&texts),
        ["0.00006", "0.00004", "0.000015", "0.00003", "0.000145"]
    );
}

#[test]
fn cost_parts_are_written_in_order() {
    let cost = CostBreakdown {
        input_cost: amount(1, 0),
        output_cost: amount(2, 0),
        cache_read_cost: amount(3, 0),
        cache_creation_cost: amount(4, 0),
        total_cost: amount(5, 0),
    };
    assert_eq!(parts(&write_cost(&cost)), ["1", "2", "3", "4", "5"]);
}

#[test]
fn model_without_prices_costs_nothing() {
    let texts = cost_texts(&tokens(60, 20, 30, 10), &None).unwrap();
    assert_eq!(parts(&texts), ["0", "0", "0", "0", "0"]);
}

#[test]
fn no_tokens_cost_nothing() {
    let price = amount(125, 2);
    let texts = cost_texts(
        &tokens(0, 0, 0, 0),
        &Some(prices(price, price, price, price)),
    )
    .unwrap();
    assert_eq!(parts(&texts), ["0", "0", "0", "0", "0"]);
}

#[test]
fn whole_millions_keep_the_digits_of_the_price() {
    let pricing = prices(amount(300, 2), amount(15, 0), amount(0, 0), amount(375, 2));
    let texts = cost_texts(&tokens(1_000_000, 2_000_000, 7, 4_000_000), &Some(pricing)).unwrap();
    assert_eq!(parts(&texts), ["3.00", "30", "0", "15.00", "48.00"]);
}

#[test]
fn finely_priced_parts_are_exact() {
    let pricing = prices(amount(123, 10), amount(7, 19), amount(0, 28), amount(1, 5));
    let texts = cost_texts(&tokens(1, 3, 9, 0), &Some(pricing)).unwrap();
    assert_eq!(texts.input, "0.0000000000000123");
    assert_eq!(texts.output, "0.0000000000000000000000021");
    assert_eq!(texts.total, "0.0000000000000123000000021");

    let pricing = prices(amount(5, 0), amount(7, 19), amount(0, 0), amount(0, 0));
    let texts = cost_texts(&tokens(0, 3, 0, 0), &Some(pricing)).unwrap();
    assert_eq!(texts.total, "0.0000000000000000000000021");
}

#[test]
fn multiplier_applies_to_the_total_alone() {
    let pricing = prices(amount(1, 0), amount(2, 0), amount(0, 0), amount(0, 0));
    let cost = calculate_cost(
        &tokens(3_000_000, 1_000_000, 0, 0),
        &pricing,
        amount(15, 1),
    )
    .unwrap();
    assert_eq!(parts(&write_cost(&cost)), ["3", "2", "0", "0", "7.5"]);
}

#[test]
fn cost_beyond_the_range_of_amounts_is_none() {
    let one = amount(1, 0);
    let huge = amount(MAX_MANTISSA, 0);
    assert!(cost_texts(&tokens(2, 0, 0, 0), &Some(prices(huge, one, one, one))).is_none());
    assert!(cost_texts(&tokens(0, 0, 0, 2), &Some(prices(one, one, one, huge))).is_none());
    assert!(calculate_cost(
        &tokens(4_000_000, 0, 0, 0),
        &prices(amount(1, 0), one, one, one),
        huge
    )
    .is_none());
}

#[test]
fn whole_amounts_have_no_point() {
    assert_eq!(written(Amount::whole(0)), "0");
    assert_eq!(written(Amount::whole(u32::MAX)), "4294967295");
}
