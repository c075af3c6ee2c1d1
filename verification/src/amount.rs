//! Amounts of money: decimal numbers of up to 96 bits with up to 28 digits
//! after the point, computed by `rust_decimal`.

use rust_decimal::Decimal;
use vstd::arithmetic::power::pow;
use vstd::prelude::*;

verus! {

/// The largest mantissa of an amount, `2^96 - 1`.
pub const MAX_MANTISSA: i128 = 79228162514264337593543950335;

/// The largest number of digits after the point.
pub const MAX_SCALE: u32 = 28;

/// A decimal number `mantissa / 10^scale`.
#[derive(Clone, Copy, Debug)]
pub struct Amount {
    mantissa: i128,
    scale: u32,
}

/// The mathematical content of an [`Amount`].
pub struct AmountView {
    pub mantissa: int,
    pub scale: int,
}

impl View for Amount {
    type V = AmountView;

    closed spec fn view(&self) -> AmountView {
        AmountView { mantissa: self.mantissa as int, scale: self.scale as int }
    }
}

impl AmountView {
    /// The number is one that an [`Amount`] can hold.
    pub open spec fn valid(self) -> bool {
        &&& -MAX_MANTISSA <= self.mantissa <= MAX_MANTISSA
        &&& 0 <= self.scale <= MAX_SCALE
    }

    /// The whole number `n`.
    pub open spec fn whole(n: int) -> AmountView {
        AmountView { mantissa: n, scale: 0 }
    }

    /// The mantissa that the number has when it is written with `scale`
    /// digits after the point.
    pub open spec fn mantissa_at(self, scale: int) -> int {
        self.mantissa * pow(10, (scale - self.scale) as nat)
    }
}

impl Amount {
    #[verifier::type_invariant]
    pub open spec fn well_formed(self) -> bool {
        self@.valid()
    }

    /// The amount `mantissa / 10^scale`, if an amount can hold it.
    pub fn new(mantissa: i128, scale: u32) -> (amount: Option<Amount>)
        ensures
            amount is Some <==> (AmountView {
                mantissa: mantissa as int,
                scale: scale as int,
            }).valid(),
            amount matches Some(a) ==> a@ == (AmountView {
                mantissa: mantissa as int,
                scale: scale as int,
            }),
    {
        if -MAX_MANTISSA <= mantissa && mantissa <= MAX_MANTISSA && scale <= MAX_SCALE {
            Some(Amount { mantissa, scale })
        } else {
            None
        }
    }

    /// The whole number `count`.
    pub fn whole(count: u32) -> (amount: Amount)
        ensures
            amount@ == AmountView::whole(count as int),
    {
        Amount { mantissa: count as i128, scale: 0 }
    }
}

/// The product of two amounts as `rust_decimal` computes it; `None` where it
/// overflows.
pub uninterp spec fn decimal_product(a: AmountView, b: AmountView) -> Option<AmountView>;

/// The quotient of two amounts as `rust_decimal` computes it; `None` where it
/// overflows or the divisor is zero.
pub uninterp spec fn decimal_quotient(a: AmountView, b: AmountView) -> Option<AmountView>;

/// The sum of two amounts as `rust_decimal` computes it; `None` where it
/// overflows.
pub uninterp spec fn decimal_sum(a: AmountView, b: AmountView) -> Option<AmountView>;

/// An amount that may be missing, by its view.
pub open spec fn viewed(amount: Option<Amount>) -> Option<AmountView> {
    match amount {
        None => None,
        Some(a) => Some(a@),
    }
}

/// The mantissa `n` is below `2^96` in magnitude.
pub open spec fn fits(n: int) -> bool {
    -MAX_MANTISSA <= n <= MAX_MANTISSA
}

/// The mantissa `n` is below `2^64` in magnitude.
pub open spec fn fits_two_words(n: int) -> bool {
    -0x1_0000_0000_0000_0000 < n < 0x1_0000_0000_0000_0000
}

/// The mantissa `n` is below `2^66` in magnitude.
pub open spec fn fits_quotient(n: int) -> bool {
    -0x4_0000_0000_0000_0000 < n < 0x4_0000_0000_0000_0000
}

/// A product with zero is the plain zero; any other product whose mantissa
/// and scale both fit is exact and has the sum of the scales.
pub open spec fn multiplies_exactly(
    a: AmountView,
    b: AmountView,
    product: Option<AmountView>,
) -> bool {
    &&& a.mantissa == 0 || b.mantissa == 0 ==> product == Some(AmountView::whole(0))
    &&& a.mantissa != 0 && b.mantissa != 0 && fits(a.mantissa * b.mantissa) && a.scale + b.scale
        <= MAX_SCALE ==> product == Some(
        AmountView { mantissa: a.mantissa * b.mantissa, scale: a.scale + b.scale },
    )
}

/// A mantissa below `2^66` with at most 19 digits after the point is divided
/// exactly by the whole numbers `10^0` to `10^9`, and the quotient has at most
/// nine digits after the point more than the dividend.
pub open spec fn divides_exactly(
    a: AmountView,
    b: AmountView,
    quotient: Option<AmountView>,
) -> bool {
    forall|k: nat|
        k <= 9 && b == AmountView::whole(#[trigger] pow(10, k)) && a.scale <= 19 && fits_quotient(
            a.mantissa,
        ) ==> {
            &&& quotient is Some
            &&& quotient->0.scale <= a.scale + 9
            &&& quotient->0.mantissa * pow(10, (a.scale + k) as nat) == a.mantissa * pow(
                10,
                quotient->0.scale as nat,
            )
        }
}

/// Adding zero gives the other operand. For mantissas below `2^64` whose scales
/// differ by at most 19, any other sum that fits is exact and has the larger of
/// the scales.
pub open spec fn adds_exactly(a: AmountView, b: AmountView, sum: Option<AmountView>) -> bool {
    let scale = if a.scale >= b.scale { a.scale } else { b.scale };
    let total = a.mantissa_at(scale) + b.mantissa_at(scale);
    &&& a.mantissa == 0 ==> sum == Some(b)
    &&& a.mantissa != 0 && b.mantissa == 0 ==> sum == Some(a)
    &&& a.mantissa != 0 && b.mantissa != 0 && fits_two_words(a.mantissa) && fits_two_words(
        b.mantissa,
    ) && -19 <= a.scale - b.scale <= 19 && fits(total) ==> sum == Some(
        AmountView { mantissa: total, scale },
    )
}

/// Multiplies by `rust_decimal::Decimal::checked_mul`.
///
/// The result is [`decimal_product`] of the operands, valid, and exact as
/// [`multiplies_exactly`] says. What a product that does not fit is rounded
/// to, and when it overflows, is left to the name.
#[verifier::external_body]
pub(crate) fn checked_mul(a: Amount, b: Amount) -> (product: Option<Amount>)
    requires
        a@.valid(),
        b@.valid(),
    ensures
        viewed(product) == decimal_product(a@, b@),
        product is Some ==> product->0@.valid(),
        multiplies_exactly(a@, b@, viewed(product)),
{
    let left = Decimal::from_i128_with_scale(a.mantissa, a.scale);
    let right = Decimal::from_i128_with_scale(b.mantissa, b.scale);
    left.checked_mul(right).map(|p| Amount { mantissa: p.mantissa(), scale: p.scale() })
}

/// Divides by `rust_decimal::Decimal::checked_div`.
///
/// The result is [`decimal_quotient`] of the operands, valid, and exact as
/// [`divides_exactly`] says. How other quotients are rounded, when they
/// overflow, and how many trailing zeros a quotient keeps is left to the name.
#[verifier::external_body]
pub(crate) fn checked_div(a: Amount, b: Amount) -> (quotient: Option<Amount>)
    requires
        a@.valid(),
        b@.valid(),
    ensures
        viewed(quotient) == decimal_quotient(a@, b@),
        quotient is Some ==> quotient->0@.valid(),
        divides_exactly(a@, b@, viewed(quotient)),
{
    let left = Decimal::from_i128_with_scale(a.mantissa, a.scale);
    let right = Decimal::from_i128_with_scale(b.mantissa, b.scale);
    left.checked_div(right).map(|q| Amount { mantissa: q.mantissa(), scale: q.scale() })
}

/// Adds by `rust_decimal::Decimal::checked_add`.
///
/// The result is [`decimal_sum`] of the operands, valid, and exact as
/// [`adds_exactly`] says. Other sums of longer mantissas or of scales further
/// apart are left to the name.
#[verifier::external_body]
pub(crate) fn checked_add(a: Amount, b: Amount) -> (sum: Option<Amount>)
    requires
        a@.valid(),
        b@.valid(),
    ensures
        viewed(sum) == decimal_sum(a@, b@),
        sum is Some ==> sum->0@.valid(),
        adds_exactly(a@, b@, viewed(sum)),
{
    let left = Decimal::from_i128_with_scale(a.mantissa, a.scale);
    let right = Decimal::from_i128_with_scale(b.mantissa, b.scale);
    left.checked_add(right).map(|s| Amount { mantissa: s.mantissa(), scale: s.scale() })
}

/// The decimal digits of `n`, most significant first; none for zero.
pub open spec fn digits(n: nat) -> Seq<char>
    decreases n,
{
    if n == 0 {
        Seq::empty()
    } else {
        digits(n / 10).push((48 + n % 10) as char)
    }
}

/// The digits of `n`, filled with zeros from the left to at least `width`.
pub open spec fn padded_digits(n: nat, width: nat) -> Seq<char> {
    if digits(n).len() < width {
        Seq::new((width - digits(n).len()) as nat, |i: int| '0') + digits(n)
    } else {
        digits(n)
    }
}

/// The text of an amount: a minus sign for negative numbers, the whole part
/// with at least one digit, and after a point exactly `scale` digits, with no
/// point where there are none.
pub open spec fn decimal_text(a: AmountView) -> Seq<char> {
    let magnitude = (if a.mantissa < 0 { -a.mantissa } else { a.mantissa }) as nat;
    let all = padded_digits(magnitude, a.scale as nat);
    let split = all.len() - a.scale;
    let sign = if a.mantissa < 0 { seq!['-'] } else { Seq::empty() };
    let head = if split == 0 { seq!['0'] } else { all.take(split) };
    let tail = if a.scale == 0 { Seq::empty() } else { seq!['.'] + all.skip(split) };
    sign + head + tail
}

/// Writes an amount by the `Display` of `rust_decimal::Decimal`: the result is
/// [`decimal_text`] of the amount.
#[verifier::external_body]
pub(crate) fn amount_text(a: Amount) -> (text: String)
    requires
        a@.valid(),
    ensures
        text@ == decimal_text(a@),
{
    Decimal::from_i128_with_scale(a.mantissa, a.scale).to_string()
}

} // verus!
