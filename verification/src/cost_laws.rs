//! What holds of the costs that are stored.

use crate::amount::{decimal_product, decimal_quotient, decimal_sum, decimal_text, AmountView};
use crate::import::log_view;
use crate::pricing::{part_cost, request_cost, stored_cost, CostView, PricingView, TokenUsage};
use crate::protocol::LogView;
use crate::usage::RecordView;
use vstd::prelude::*;

verus! {

/// The part is the tokens times the price, by the million.
pub open spec fn is_part(tokens: u32, price: AmountView, part: AmountView) -> bool {
    exists|product: AmountView|
        decimal_product(AmountView { mantissa: tokens as int, scale: 0 }, price) == Some(product)
            && #[trigger] decimal_quotient(product, AmountView { mantissa: 1_000_000, scale: 0 })
            == Some(part)
}

/// The total is the sum of the parts, from the first to the last, times the
/// multiplier.
pub open spec fn is_total_of(cost: CostView, multiplier: AmountView) -> bool {
    exists|two: AmountView, three: AmountView, all: AmountView|
        decimal_sum(cost.input, cost.output) == Some(two) && #[trigger] decimal_sum(
            two,
            cost.cache_read,
        ) == Some(three) && #[trigger] decimal_sum(three, cost.cache_creation) == Some(all)
            && #[trigger] decimal_product(all, multiplier) == Some(cost.total)
}

/// A cost is that of a request if and only if each of its parts is the tokens
/// of its kind times the price of its kind, and its total is the sum of the
/// four parts times the multiplier.
pub proof fn law_cost_is_its_parts_and_their_sum(
    usage: TokenUsage,
    pricing: PricingView,
    multiplier: AmountView,
    cost: CostView,
)
    ensures
        request_cost(usage, pricing, multiplier) == Some(cost) <==> {
            &&& is_part(usage.input_tokens, pricing.input, cost.input)
            &&& is_part(usage.output_tokens, pricing.output, cost.output)
            &&& is_part(usage.cache_read_tokens, pricing.cache_read, cost.cache_read)
            &&& is_part(usage.cache_creation_tokens, pricing.cache_creation, cost.cache_creation)
            &&& is_total_of(cost, multiplier)
        },
{
    if request_cost(usage, pricing, multiplier) == Some(cost) {
        lemma_part(usage.input_tokens, pricing.input, cost.input);
        lemma_part(usage.output_tokens, pricing.output, cost.output);
        lemma_part(usage.cache_read_tokens, pricing.cache_read, cost.cache_read);
        lemma_part(usage.cache_creation_tokens, pricing.cache_creation, cost.cache_creation);
        let two = decimal_sum(cost.input, cost.output)->0;
        let three = decimal_sum(two, cost.cache_read)->0;
        let all = decimal_sum(three, cost.cache_creation)->0;
        assert(decimal_sum(two, cost.cache_read) == Some(three));
        assert(decimal_sum(three, cost.cache_creation) == Some(all));
        assert(decimal_product(all, multiplier) == Some(cost.total));
    }
}

proof fn lemma_part(tokens: u32, price: AmountView, part: AmountView)
    requires
        part_cost(tokens, price) == Some(part),
    ensures
        is_part(tokens, price, part),
{
    let product = decimal_product(AmountView { mantissa: tokens as int, scale: 0 }, price)->0;
    assert(decimal_quotient(product, AmountView { mantissa: 1_000_000, scale: 0 }) == Some(part));
}

/// What tokens of one kind cost depends on their number and price alone: not on
/// their kind, on the other kinds, or on the multiplier.
pub proof fn law_parts_are_independent(
    usage: TokenUsage,
    pricing: PricingView,
    multiplier: AmountView,
    other_usage: TokenUsage,
    other_pricing: PricingView,
    other_multiplier: AmountView,
)
    requires
        request_cost(usage, pricing, multiplier) is Some,
        request_cost(other_usage, other_pricing, other_multiplier) is Some,
    ensures
        ({
            let cost = request_cost(usage, pricing, multiplier)->0;
            let other = request_cost(other_usage, other_pricing, other_multiplier)->0;
            &&& usage.input_tokens == other_usage.input_tokens && pricing.input
                == other_pricing.input ==> cost.input == other.input
            &&& usage.input_tokens == other_usage.output_tokens && pricing.input
                == other_pricing.output ==> cost.input == other.output
            &&& usage.input_tokens == other_usage.cache_read_tokens && pricing.input
                == other_pricing.cache_read ==> cost.input == other.cache_read
            &&& usage.input_tokens == other_usage.cache_creation_tokens && pricing.input
                == other_pricing.cache_creation ==> cost.input == other.cache_creation
        }),
{
}

/// The stored texts write a cost part by part, and the stored total writes its
/// total. There are texts exactly where there is a cost.
pub proof fn law_stored_texts_write_the_cost(usage: TokenUsage, pricing: PricingView)
    ensures
        ({
            let one = AmountView { mantissa: 1, scale: 0 };
            let cost = request_cost(usage, pricing, one);
            let texts = stored_cost(usage, Some(pricing));
            &&& texts is Some <==> cost is Some
            &&& cost is Some ==> {
                &&& texts->0.input == decimal_text(cost->0.input)
                &&& texts->0.output == decimal_text(cost->0.output)
                &&& texts->0.cache_read == decimal_text(cost->0.cache_read)
                &&& texts->0.cache_creation == decimal_text(cost->0.cache_creation)
                &&& texts->0.total == decimal_text(cost->0.total)
            }
        }),
{
}

/// Requests to models without prices are stored at no cost, whatever their
/// tokens.
pub proof fn law_unpriced_requests_cost_nothing(usage: TokenUsage)
    ensures
        stored_cost(usage, None) is Some,
        ({
            let texts = stored_cost(usage, None)->0;
            &&& texts.input == "0"@ && texts.output == "0"@
            &&& texts.cache_read == "0"@ && texts.cache_creation == "0"@
            &&& texts.total == "0"@
        }),
{
}

/// A logged row is priced by the tokens that it counts itself: its cost is what
/// is stored for them at the model's prices.
pub proof fn law_rows_are_priced_by_their_own_tokens(
    record: RecordView,
    pricing: Option<PricingView>,
    row: LogView,
)
    requires
        log_view(record, pricing) == Some(row),
    ensures
        stored_cost(
            TokenUsage {
                input_tokens: row.input_tokens,
                output_tokens: row.output_tokens,
                cache_read_tokens: row.cache_read_tokens,
                cache_creation_tokens: row.cache_creation_tokens,
            },
            pricing,
        ) == Some(row.cost),
{
}

} // verus!
