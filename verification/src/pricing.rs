//! What a request costs.
//!
//! Prices are per million tokens. Input tokens are counted without the tokens
//! read from or written to a cache, so the four kinds of tokens are priced
//! side by side.

use crate::amount::{
    adds_exactly, amount_text, checked_add, checked_div, checked_mul, decimal_product,
    decimal_quotient, decimal_sum, decimal_text, divides_exactly, fits_two_words,
    multiplies_exactly, viewed, Amount, AmountView, MAX_SCALE,
};
use vstd::arithmetic::power::{lemma_pow_adds, lemma_pow_increases, lemma_pow_positive, pow};
use vstd::prelude::*;

verus! {

/// The number of tokens that a price is quoted for.
pub const TOKENS_PER_PRICE: u32 = 1_000_000;

/// The tokens of one request. `input_tokens` leaves out cached tokens.
#[derive(Clone, Copy, Debug)]
pub struct TokenUsage {
    pub input_tokens: u32,
    pub output_tokens: u32,
    pub cache_read_tokens: u32,
    pub cache_creation_tokens: u32,
}

/// The prices of a model.
#[derive(Clone, Copy, Debug)]
pub struct ModelPricing {
    pub input_cost_per_million: Amount,
    pub output_cost_per_million: Amount,
    pub cache_read_cost_per_million: Amount,
    pub cache_creation_cost_per_million: Amount,
}

pub struct PricingView {
    pub input: AmountView,
    pub output: AmountView,
    pub cache_read: AmountView,
    pub cache_creation: AmountView,
}

impl View for ModelPricing {
    type V = PricingView;

    open spec fn view(&self) -> PricingView {
        PricingView {
            input: self.input_cost_per_million@,
            output: self.output_cost_per_million@,
            cache_read: self.cache_read_cost_per_million@,
            cache_creation: self.cache_creation_cost_per_million@,
        }
    }
}

/// The prices of a model, if it has any, by their view.
pub open spec fn pricing_view(pricing: Option<ModelPricing>) -> Option<PricingView> {
    match pricing {
        None => None,
        Some(p) => Some(p@),
    }
}

/// The cost of a request, part by part. `total_cost` is the sum of the parts
/// times a multiplier; the parts are before it.
#[derive(Clone, Copy, Debug)]
pub struct CostBreakdown {
    pub input_cost: Amount,
    pub output_cost: Amount,
    pub cache_read_cost: Amount,
    pub cache_creation_cost: Amount,
    pub total_cost: Amount,
}

pub struct CostView {
    pub input: AmountView,
    pub output: AmountView,
    pub cache_read: AmountView,
    pub cache_creation: AmountView,
    pub total: AmountView,
}

impl View for CostBreakdown {
    type V = CostView;

    open spec fn view(&self) -> CostView {
        CostView {
            input: self.input_cost@,
            output: self.output_cost@,
            cache_read: self.cache_read_cost@,
            cache_creation: self.cache_creation_cost@,
            total: self.total_cost@,
        }
    }
}

/// The cost of `tokens` tokens at `price` per million.
pub open spec fn part_cost(tokens: u32, price: AmountView) -> Option<AmountView> {
    match decimal_product(AmountView::whole(tokens as int), price) {
        None => None,
        Some(product) => decimal_quotient(product, AmountView::whole(TOKENS_PER_PRICE as int)),
    }
}

/// The sum of two amounts that may be missing.
pub open spec fn sum_of(a: Option<AmountView>, b: Option<AmountView>) -> Option<AmountView> {
    match (a, b) {
        (Some(x), Some(y)) => decimal_sum(x, y),
        _ => None,
    }
}

/// The cost of a request; `None` where an amount on the way overflows.
pub open spec fn request_cost(
    usage: TokenUsage,
    pricing: PricingView,
    multiplier: AmountView,
) -> Option<CostView> {
    let input = part_cost(usage.input_tokens, pricing.input);
    let output = part_cost(usage.output_tokens, pricing.output);
    let cache_read = part_cost(usage.cache_read_tokens, pricing.cache_read);
    let cache_creation = part_cost(usage.cache_creation_tokens, pricing.cache_creation);
    let base = sum_of(sum_of(sum_of(input, output), cache_read), cache_creation);
    match base {
        None => None,
        Some(b) => match decimal_product(b, multiplier) {
            None => None,
            Some(total) => Some(
                CostView {
                    input: input->0,
                    output: output->0,
                    cache_read: cache_read->0,
                    cache_creation: cache_creation->0,
                    total,
                },
            ),
        },
    }
}

/// The cost of `tokens` tokens at `price` per million, in units of
/// `10^-(scale + 6)`, for a price of at most `scale` digits after the point.
pub open spec fn part_units(tokens: u32, price: AmountView, scale: int) -> int {
    tokens * price.mantissa_at(scale)
}

/// The cost of `tokens` tokens at `price` per million, in units of `10^-34`:
/// prices have at most 28 digits after the point, and a token costs a millionth
/// of them.
pub open spec fn exact_part(tokens: u32, price: AmountView) -> int {
    part_units(tokens, price, MAX_SCALE as int)
}

/// The part costs nothing, or the price has at most `scale` digits after the
/// point and the cost is below `2^52` units of `10^-(scale + 6)`.
pub open spec fn is_ordinary(tokens: u32, price: AmountView, scale: int) -> bool {
    ||| tokens == 0 || price.mantissa == 0
    ||| price.scale <= scale && -0x10_0000_0000_0000 < part_units(tokens, price, scale)
        < 0x10_0000_0000_0000
}

/// Every part of the cost is ordinary at the given scale.
pub open spec fn is_ordinary_at(usage: TokenUsage, pricing: PricingView, scale: int) -> bool {
    &&& is_ordinary(usage.input_tokens, pricing.input, scale)
    &&& is_ordinary(usage.output_tokens, pricing.output, scale)
    &&& is_ordinary(usage.cache_read_tokens, pricing.cache_read, scale)
    &&& is_ordinary(usage.cache_creation_tokens, pricing.cache_creation, scale)
}

/// The parts of the cost are ordinary at one scale of at most 19.
pub open spec fn is_ordinary_request(usage: TokenUsage, pricing: PricingView) -> bool {
    exists|scale: int| 0 <= scale <= 19 && #[trigger] is_ordinary_at(usage, pricing, scale)
}

/// The cost of the request is known to be found: the model has no prices, or
/// ordinary ones.
pub open spec fn has_ordinary_cost(usage: TokenUsage, pricing: Option<PricingView>) -> bool {
    match pricing {
        None => true,
        Some(p) => is_ordinary_request(usage, p),
    }
}

/// The amount is exactly `units` units of `10^-34`.
pub open spec fn is_exactly(amount: AmountView, units: int) -> bool {
    amount.mantissa * pow(10, 34) == units * pow(10, amount.scale as nat)
}

/// The cost of a request in units of `10^-34`.
pub open spec fn exact_total(usage: TokenUsage, pricing: PricingView) -> int {
    exact_part(usage.input_tokens, pricing.input) + exact_part(usage.output_tokens, pricing.output)
        + exact_part(usage.cache_read_tokens, pricing.cache_read) + exact_part(
        usage.cache_creation_tokens,
        pricing.cache_creation,
    )
}

/// The cost is exactly the tokens times the prices: each part, and the total.
pub open spec fn is_exact_cost(cost: CostView, usage: TokenUsage, pricing: PricingView) -> bool {
    &&& is_exactly(cost.input, exact_part(usage.input_tokens, pricing.input))
    &&& is_exactly(cost.output, exact_part(usage.output_tokens, pricing.output))
    &&& is_exactly(cost.cache_read, exact_part(usage.cache_read_tokens, pricing.cache_read))
    &&& is_exactly(
        cost.cache_creation,
        exact_part(usage.cache_creation_tokens, pricing.cache_creation),
    )
    &&& is_exactly(cost.total, exact_total(usage, pricing))
}

/// The units of a part at a scale, none where the part costs nothing.
spec fn units_at(tokens: u32, price: AmountView, scale: int) -> int {
    if tokens == 0 || price.mantissa == 0 {
        0
    } else {
        part_units(tokens, price, scale)
    }
}

/// The amount is exactly `units` units of `10^-(scale + 6)`.
spec fn counts(amount: AmountView, units: int, scale: int) -> bool {
    amount.mantissa * pow(10, (scale + 6) as nat) == units * pow(10, amount.scale as nat)
}

/// The amount is exactly `units` units of `10^-(scale + 6)`, and is zero or has
/// a scale near enough to that for `factor` such amounts to be added exactly.
spec fn is_addable(amount: AmountView, units: int, factor: int, scale: int) -> bool {
    &&& counts(amount, units, scale)
    &&& 0 <= amount.scale
    &&& amount.mantissa != 0 ==> scale - 9 <= amount.scale <= scale + 9
    &&& -0x10_0000_0000_0000 * factor < units < 0x10_0000_0000_0000 * factor
}

proof fn lemma_powers_of_ten()
    ensures
        pow(10, 0) == 1,
        pow(10, 3) == 1000,
        pow(10, 6) == 1_000_000,
        pow(10, 16) == 10_000_000_000_000_000,
{
    reveal(pow);
    reveal_with_fuel(pow, 17);
}

/// The product of tokens and an ordinary price is short.
proof fn lemma_ordinary_product(tokens: u32, price: AmountView, scale: int)
    requires
        price.valid(),
        is_ordinary(tokens, price, scale),
    ensures
        -0x10_0000_0000_0000 < tokens * price.mantissa < 0x10_0000_0000_0000,
{
    let plain = tokens * price.mantissa;
    if tokens == 0 || price.mantissa == 0 {
        assert(plain == 0) by (nonlinear_arith)
            requires
                plain == tokens * price.mantissa,
                tokens == 0 || price.mantissa == 0,
        ;
    } else {
        let rest = (scale - price.scale) as nat;
        lemma_pow_positive(10, rest);
        assert(-0x10_0000_0000_0000 < plain < 0x10_0000_0000_0000) by (nonlinear_arith)
            requires
                plain == tokens * price.mantissa,
                pow(10, rest) >= 1,
                -0x10_0000_0000_0000 < tokens * (price.mantissa * pow(10, rest))
                    < 0x10_0000_0000_0000,
        ;
    }
}

/// A product of tokens and price, divided by a million.
proof fn lemma_part_is_exact(
    tokens: u32,
    price: AmountView,
    product: AmountView,
    cost: Option<AmountView>,
    scale: int,
)
    requires
        price.valid(),
        0 <= scale <= 19,
        is_ordinary(tokens, price, scale),
        multiplies_exactly(AmountView::whole(tokens as int), price, Some(product)),
        divides_exactly(product, AmountView::whole(1_000_000), cost),
        cost matches Some(c) ==> c.valid(),
    ensures
        cost is Some,
        is_addable(cost->0, units_at(tokens, price, scale), 1, scale),
{
    lemma_powers_of_ten();
    lemma_ordinary_product(tokens, price, scale);
    let units = units_at(tokens, price, scale);
    let plain = tokens * price.mantissa;
    if tokens == 0 || price.mantissa == 0 {
        assert(product == AmountView::whole(0));
        assert(cost is Some && cost->0.mantissa * pow(10, 6) == 0 * pow(
            10,
            cost->0.scale as nat,
        ));
        assert(cost->0.mantissa == 0);
    } else {
        let own = price.scale as nat;
        let rest = (scale - price.scale) as nat;
        assert(plain != 0) by (nonlinear_arith)
            requires
                plain == tokens * price.mantissa,
                tokens != 0,
                price.mantissa != 0,
        ;
        assert(units == plain * pow(10, rest)) by (nonlinear_arith)
            requires
                units == tokens * (price.mantissa * pow(10, rest)),
                plain == tokens * price.mantissa,
        ;
        assert(product.mantissa == plain && product.scale == price.scale);
        let c = cost->0;
        assert(cost is Some && c.mantissa * pow(10, (own + 6) as nat) == plain * pow(
            10,
            c.scale as nat,
        ));
        lemma_pow_adds(10, (own + 6) as nat, rest);
        assert(c.mantissa * pow(10, (scale + 6) as nat) == units * pow(10, c.scale as nat))
            by (nonlinear_arith)
            requires
                pow(10, (scale + 6) as nat) == pow(10, (own + 6) as nat) * pow(10, rest),
                c.mantissa * pow(10, (own + 6) as nat) == plain * pow(10, c.scale as nat),
                units == plain * pow(10, rest),
        ;
        if c.mantissa != 0 {
            lemma_enough_digits(c, units, scale);
        }
    }
}

/// An amount of less than `2^52` units is zero or has a scale near theirs.
proof fn lemma_enough_digits(a: AmountView, units: int, scale: int)
    requires
        counts(a, units, scale),
        a.mantissa != 0,
        0 <= a.scale,
        -0x10_0000_0000_0000 < units < 0x10_0000_0000_0000,
    ensures
        scale - 9 <= a.scale,
{
    if a.scale < scale - 9 {
        lemma_powers_of_ten();
        let p = pow(10, a.scale as nat);
        let up = (scale + 6 - a.scale) as nat;
        lemma_pow_positive(10, a.scale as nat);
        lemma_pow_adds(10, a.scale as nat, up);
        lemma_pow_increases(10, 16, up);
        let lifted = a.mantissa * pow(10, up);
        assert(lifted == units) by (nonlinear_arith)
            requires
                a.mantissa * (p * pow(10, up)) == units * p,
                lifted == a.mantissa * pow(10, up),
                p > 0,
        ;
        assert(lifted >= pow(10, up) || lifted <= -pow(10, up)) by (nonlinear_arith)
            requires
                lifted == a.mantissa * pow(10, up),
                a.mantissa != 0,
                pow(10, up) >= 0,
        ;
    }
}

/// A sum of two exact amounts.
proof fn lemma_sum_is_exact(
    a: AmountView,
    a_units: int,
    a_factor: int,
    b: AmountView,
    b_units: int,
    sum: Option<AmountView>,
    scale: int,
)
    requires
        0 <= scale <= 19,
        is_addable(a, a_units, a_factor, scale),
        is_addable(b, b_units, 1, scale),
        1 <= a_factor <= 3,
        adds_exactly(a, b, sum),
    ensures
        sum is Some,
        is_addable(sum->0, a_units + b_units, a_factor + 1, scale),
{
    if a.mantissa == 0 {
        lemma_zero_units(a, a_units, scale);
    } else if b.mantissa == 0 {
        lemma_zero_units(b, b_units, scale);
    } else {
        lemma_addable_bound(a, a_units, a_factor, scale);
        lemma_addable_bound(b, b_units, 1, scale);
        let larger = if a.scale >= b.scale {
            a.scale
        } else {
            b.scale
        };
        lemma_units_at(a, a_units, a_factor, scale, larger);
        lemma_units_at(b, b_units, 1, scale, larger);
        let total = a.mantissa_at(larger) + b.mantissa_at(larger);
        let unit = pow(10, (scale + 6) as nat);
        assert(total * unit == (a_units + b_units) * pow(10, larger as nat)) by (nonlinear_arith)
            requires
                total == a.mantissa_at(larger) + b.mantissa_at(larger),
                a.mantissa_at(larger) * unit == a_units * pow(10, larger as nat),
                b.mantissa_at(larger) * unit == b_units * pow(10, larger as nat),
        ;
    }
}

/// Zero is no units.
proof fn lemma_zero_units(a: AmountView, units: int, scale: int)
    requires
        counts(a, units, scale),
        a.mantissa == 0,
        a.scale >= 0,
    ensures
        units == 0,
{
    lemma_pow_positive(10, a.scale as nat);
    assert(units == 0) by (nonlinear_arith)
        requires
            units * pow(10, a.scale as nat) == 0,
            pow(10, a.scale as nat) > 0,
    ;
}

/// The mantissa of an exact amount at a larger scale.
proof fn lemma_units_at(a: AmountView, units: int, factor: int, scale: int, larger: int)
    requires
        0 <= scale,
        is_addable(a, units, factor, scale),
        a.scale <= larger <= scale + 9,
        1 <= factor <= 4,
    ensures
        a.mantissa_at(larger) * pow(10, (scale + 6) as nat) == units * pow(10, larger as nat),
        -0x10_0000_0000_0000 * factor * 1000 <= a.mantissa_at(larger) <= 0x10_0000_0000_0000
            * factor * 1000,
{
    lemma_powers_of_ten();
    let up = (larger - a.scale) as nat;
    let mantissa = a.mantissa_at(larger);
    let unit = pow(10, (scale + 6) as nat);
    let p = pow(10, larger as nat);
    lemma_pow_adds(10, a.scale as nat, up);
    assert(mantissa * unit == units * p) by (nonlinear_arith)
        requires
            mantissa == a.mantissa * pow(10, up),
            a.mantissa * unit == units * pow(10, a.scale as nat),
            p == pow(10, a.scale as nat) * pow(10, up),
    ;
    lemma_pow_positive(10, (scale + 6) as nat);
    lemma_pow_positive(10, larger as nat);
    lemma_pow_increases(10, larger as nat, (scale + 9) as nat);
    lemma_pow_adds(10, (scale + 6) as nat, 3);
    let bound = 0x10_0000_0000_0000 * factor;
    assert(-bound * 1000 <= mantissa <= bound * 1000) by (nonlinear_arith)
        requires
            mantissa * unit == units * p,
            0 < p <= unit * 1000,
            unit > 0,
            -bound < units < bound,
            bound > 0,
    ;
}

/// An addable amount has a short mantissa.
proof fn lemma_addable_bound(a: AmountView, units: int, factor: int, scale: int)
    requires
        0 <= scale,
        is_addable(a, units, factor, scale),
        1 <= factor <= 4,
    ensures
        fits_two_words(a.mantissa),
{
    if a.mantissa != 0 {
        lemma_powers_of_ten();
        lemma_units_at(a, units, factor, scale, a.scale);
        assert(a.mantissa_at(a.scale) == a.mantissa);
    }
}

/// Units at a scale are units of `10^-34`.
proof fn lemma_counts_exactly(a: AmountView, units: int, scale: int)
    requires
        0 <= scale <= 28,
        counts(a, units, scale),
    ensures
        is_exactly(a, units * pow(10, (28 - scale) as nat)),
{
    let rest = (28 - scale) as nat;
    lemma_pow_adds(10, (scale + 6) as nat, rest);
    assert(a.mantissa * pow(10, 34) == (units * pow(10, rest)) * pow(10, a.scale as nat))
        by (nonlinear_arith)
        requires
            pow(10, 34) == pow(10, (scale + 6) as nat) * pow(10, rest),
            a.mantissa * pow(10, (scale + 6) as nat) == units * pow(10, a.scale as nat),
    ;
}

/// The units of a part at a scale, as units of `10^-34`.
proof fn lemma_exact_part(tokens: u32, price: AmountView, scale: int)
    requires
        price.valid(),
        0 <= scale <= 28,
        is_ordinary(tokens, price, scale),
    ensures
        exact_part(tokens, price) == units_at(tokens, price, scale) * pow(
            10,
            (28 - scale) as nat,
        ),
{
    let rest = (28 - scale) as nat;
    if tokens == 0 || price.mantissa == 0 {
        let all = pow(10, (28 - price.scale) as nat);
        assert(tokens * (price.mantissa * all) == 0) by (nonlinear_arith)
            requires
                tokens == 0 || price.mantissa == 0,
        ;
        assert(0 * pow(10, rest) == 0);
    } else {
        let own = (scale - price.scale) as nat;
        lemma_pow_adds(10, own, rest);
        let all = pow(10, (28 - price.scale) as nat);
        assert(tokens * (price.mantissa * all) == (tokens * (price.mantissa * pow(10, own))) * pow(
            10,
            rest,
        )) by (nonlinear_arith)
            requires
                all == pow(10, own) * pow(10, rest),
        ;
    }
}

fn part_cost_of(tokens: u32, price: Amount) -> (cost: Option<Amount>)
    ensures
        viewed(cost) == part_cost(tokens, price@),
        forall|scale: int|
            0 <= scale <= 19 && #[trigger] is_ordinary(tokens, price@, scale) ==> cost is Some
                && is_addable(cost->0@, units_at(tokens, price@, scale), 1, scale),
{
    let count = Amount::whole(tokens);
    let million = Amount::whole(TOKENS_PER_PRICE);
    proof {
        use_type_invariant(price);
        use_type_invariant(count);
        use_type_invariant(million);
    }
    match checked_mul(count, price) {
        None => {
            proof {
                assert forall|scale: int|
                    0 <= scale <= 19 && #[trigger] is_ordinary(
                        tokens,
                        price@,
                        scale,
                    ) implies false by {
                    lemma_ordinary_product(tokens, price@, scale);
                }
            }
            None
        },
        Some(product) => {
            let cost = checked_div(product, million);
            proof {
                assert forall|scale: int|
                    0 <= scale <= 19 && #[trigger] is_ordinary(
                        tokens,
                        price@,
                        scale,
                    ) implies cost is Some && is_addable(
                    cost->0@,
                    units_at(tokens, price@, scale),
                    1,
                    scale,
                ) by {
                    lemma_part_is_exact(tokens, price@, product@, viewed(cost), scale);
                }
            }
            cost
        },
    }
}

fn sum_amounts(a: Option<Amount>, b: Option<Amount>) -> (sum: Option<Amount>)
    ensures
        viewed(sum) == sum_of(viewed(a), viewed(b)),
        a is Some && b is Some ==> adds_exactly(a->0@, b->0@, viewed(sum)),
{
    match (a, b) {
        (Some(x), Some(y)) => {
            proof {
                use_type_invariant(x);
                use_type_invariant(y);
            }
            checked_add(x, y)
        },
        _ => None,
    }
}

/// The cost of a request with the given prices. There is no cost where an
/// amount overflows on the way.
pub fn calculate_cost(usage: &TokenUsage, pricing: &ModelPricing, multiplier: Amount) -> (cost:
    Option<CostBreakdown>)
    ensures
        cost is Some <==> request_cost(*usage, pricing@, multiplier@) is Some,
        cost matches Some(c) ==> request_cost(*usage, pricing@, multiplier@) == Some(c@),
        multiplier@ == AmountView::whole(1) && is_ordinary_request(*usage, pricing@) ==> cost is Some
            && is_exact_cost(cost->0@, *usage, pricing@),
{
    let input = part_cost_of(usage.input_tokens, pricing.input_cost_per_million);
    let output = part_cost_of(usage.output_tokens, pricing.output_cost_per_million);
    let cache_read = part_cost_of(usage.cache_read_tokens, pricing.cache_read_cost_per_million);
    let cache_creation = part_cost_of(
        usage.cache_creation_tokens,
        pricing.cache_creation_cost_per_million,
    );
    let two = sum_amounts(input, output);
    let three = sum_amounts(two, cache_read);
    let base = sum_amounts(three, cache_creation);
    let ghost ordinary = multiplier@ == AmountView::whole(1) && is_ordinary_request(
        *usage,
        pricing@,
    );
    let ghost scale = choose|scale: int|
        0 <= scale <= 19 && #[trigger] is_ordinary_at(*usage, pricing@, scale);
    let ghost units = units_at(usage.input_tokens, pricing@.input, scale) + units_at(
        usage.output_tokens,
        pricing@.output,
        scale,
    ) + units_at(usage.cache_read_tokens, pricing@.cache_read, scale) + units_at(
        usage.cache_creation_tokens,
        pricing@.cache_creation,
        scale,
    );
    proof {
        use_type_invariant(pricing.input_cost_per_million);
        use_type_invariant(pricing.output_cost_per_million);
        use_type_invariant(pricing.cache_read_cost_per_million);
        use_type_invariant(pricing.cache_creation_cost_per_million);
        if ordinary {
            assert(is_ordinary_at(*usage, pricing@, scale));
            let first = units_at(usage.input_tokens, pricing@.input, scale);
            let second = units_at(usage.output_tokens, pricing@.output, scale);
            let third = units_at(usage.cache_read_tokens, pricing@.cache_read, scale);
            let fourth = units_at(usage.cache_creation_tokens, pricing@.cache_creation, scale);
            lemma_sum_is_exact(input->0@, first, 1, output->0@, second, viewed(two), scale);
            lemma_sum_is_exact(
                two->0@,
                first + second,
                2,
                cache_read->0@,
                third,
                viewed(three),
                scale,
            );
            lemma_sum_is_exact(
                three->0@,
                first + second + third,
                3,
                cache_creation->0@,
                fourth,
                viewed(base),
                scale,
            );
            lemma_addable_bound(base->0@, units, 4, scale);
            lemma_exact_part(usage.input_tokens, pricing@.input, scale);
            lemma_exact_part(usage.output_tokens, pricing@.output, scale);
            lemma_exact_part(usage.cache_read_tokens, pricing@.cache_read, scale);
            lemma_exact_part(usage.cache_creation_tokens, pricing@.cache_creation, scale);
            lemma_counts_exactly(input->0@, first, scale);
            lemma_counts_exactly(output->0@, second, scale);
            lemma_counts_exactly(cache_read->0@, third, scale);
            lemma_counts_exactly(cache_creation->0@, fourth, scale);
            lemma_counts_exactly(base->0@, units, scale);
            let fine = pow(10, (28 - scale) as nat);
            assert(units * fine == first * fine + second * fine + third * fine + fourth * fine)
                by (nonlinear_arith)
                requires
                    units == first + second + third + fourth,
            ;
        }
    }
    match (base, input, output, cache_read, cache_creation) {
        (
            Some(base),
            Some(input_cost),
            Some(output_cost),
            Some(cache_read_cost),
            Some(cache_creation_cost),
        ) => {
            proof {
                use_type_invariant(base);
                use_type_invariant(multiplier);
                if ordinary && base@.mantissa == 0 {
                    lemma_zero_units(base@, exact_total(*usage, pricing@), 28);
                }
            }
            match checked_mul(base, multiplier) {
                None => None,
                Some(total_cost) => Some(
                    CostBreakdown {
                        input_cost,
                        output_cost,
                        cache_read_cost,
                        cache_creation_cost,
                        total_cost,
                    },
                ),
            }
        },
        _ => None,
    }
}

/// A cost as it is stored, in decimal notation.
#[derive(Debug)]
pub struct CostTexts {
    pub input: String,
    pub output: String,
    pub cache_read: String,
    pub cache_creation: String,
    pub total: String,
}

pub struct CostTextsView {
    pub input: Seq<char>,
    pub output: Seq<char>,
    pub cache_read: Seq<char>,
    pub cache_creation: Seq<char>,
    pub total: Seq<char>,
}

impl View for CostTexts {
    type V = CostTextsView;

    open spec fn view(&self) -> CostTextsView {
        CostTextsView {
            input: self.input@,
            output: self.output@,
            cache_read: self.cache_read@,
            cache_creation: self.cache_creation@,
            total: self.total@,
        }
    }
}

/// A cost in decimal notation, part by part.
pub open spec fn written_cost(cost: CostView) -> CostTextsView {
    CostTextsView {
        input: decimal_text(cost.input),
        output: decimal_text(cost.output),
        cache_read: decimal_text(cost.cache_read),
        cache_creation: decimal_text(cost.cache_creation),
        total: decimal_text(cost.total),
    }
}

/// The cost texts of a request: the cost without a multiplier where the model
/// has prices, and zeros where it has none. `None` where the cost overflows.
pub open spec fn stored_cost(usage: TokenUsage, pricing: Option<PricingView>) -> Option<
    CostTextsView,
> {
    match pricing {
        None => Some(
            CostTextsView {
                input: "0"@,
                output: "0"@,
                cache_read: "0"@,
                cache_creation: "0"@,
                total: "0"@,
            },
        ),
        Some(p) => match request_cost(usage, p, AmountView::whole(1)) {
            None => None,
            Some(c) => Some(written_cost(c)),
        },
    }
}

/// The text is the decimal notation of an amount that is exactly `units` units
/// of `10^-34`.
pub open spec fn denotes(text: Seq<char>, units: int) -> bool {
    exists|a: AmountView| #[trigger] decimal_text(a) == text && a.valid() && is_exactly(a, units)
}

/// The texts are zeros where the model has no prices. Otherwise each denotes
/// exactly its tokens times its price, and the total denotes exactly the sum.
pub open spec fn denote_cost(
    texts: CostTextsView,
    usage: TokenUsage,
    pricing: Option<PricingView>,
) -> bool {
    match pricing {
        None => {
            &&& texts.input == "0"@
            &&& texts.output == "0"@
            &&& texts.cache_read == "0"@
            &&& texts.cache_creation == "0"@
            &&& texts.total == "0"@
        },
        Some(p) => {
            let input = exact_part(usage.input_tokens, p.input);
            let output = exact_part(usage.output_tokens, p.output);
            let cache_read = exact_part(usage.cache_read_tokens, p.cache_read);
            let cache_creation = exact_part(usage.cache_creation_tokens, p.cache_creation);
            &&& denotes(texts.input, input)
            &&& denotes(texts.output, output)
            &&& denotes(texts.cache_read, cache_read)
            &&& denotes(texts.cache_creation, cache_creation)
            &&& denotes(texts.total, input + output + cache_read + cache_creation)
        },
    }
}

fn valid_text(amount: Amount) -> (text: String)
    ensures
        text@ == decimal_text(amount@),
        amount@.valid(),
{
    proof {
        use_type_invariant(amount);
    }
    amount_text(amount)
}

/// Writes a cost in decimal notation.
pub fn write_cost(cost: &CostBreakdown) -> (texts: CostTexts)
    ensures
        texts@ == written_cost(cost@),
        cost@.input.valid() && decimal_text(cost@.input) == texts@.input,
        cost@.output.valid() && decimal_text(cost@.output) == texts@.output,
        cost@.cache_read.valid() && decimal_text(cost@.cache_read) == texts@.cache_read,
        cost@.cache_creation.valid() && decimal_text(cost@.cache_creation)
            == texts@.cache_creation,
        cost@.total.valid() && decimal_text(cost@.total) == texts@.total,
{
    CostTexts {
        input: valid_text(cost.input_cost),
        output: valid_text(cost.output_cost),
        cache_read: valid_text(cost.cache_read_cost),
        cache_creation: valid_text(cost.cache_creation_cost),
        total: valid_text(cost.total_cost),
    }
}

/// The cost of a request as it is stored.
pub fn cost_texts(usage: &TokenUsage, pricing: &Option<ModelPricing>) -> (texts: Option<CostTexts>)
    ensures
        texts is Some <==> stored_cost(*usage, pricing_view(*pricing)) is Some,
        texts matches Some(t) ==> stored_cost(*usage, pricing_view(*pricing)) == Some(t@),
        pricing matches Some(p) ==> (is_ordinary_request(*usage, p@) ==> texts is Some
            && is_exact_cost(
            request_cost(*usage, p@, AmountView::whole(1))->0,
            *usage,
            p@,
        )),
        has_ordinary_cost(*usage, pricing_view(*pricing)) ==> texts is Some && denote_cost(
            texts->0@,
            *usage,
            pricing_view(*pricing),
        ),
{
    match pricing {
        None => Some(
            CostTexts {
                input: "0".to_string(),
                output: "0".to_string(),
                cache_read: "0".to_string(),
                cache_creation: "0".to_string(),
                total: "0".to_string(),
            },
        ),
        Some(p) => match calculate_cost(usage, p, Amount::whole(1)) {
            None => None,
            Some(c) => Some(write_cost(&c)),
        },
    }
}

} // verus!
