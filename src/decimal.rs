//! Exact decimal prices and the mid-price computed from them.

use rust_decimal::Decimal;
use vstd::prelude::*;

verus! {

/// Largest magnitude of a decimal mantissa: 2^96 - 1.
pub const MAX_MANTISSA: i128 = 79228162514264337593543950335;

/// Largest number of digits after the decimal point.
pub const MAX_SCALE: u32 = 28;

/// A decimal number `mantissa / 10^scale`, held as plain integers.
#[derive(Clone, Copy, Debug, PartialEq, Eq, Structural)]
pub struct Price {
    pub mantissa: i128,
    pub scale: u32,
}

impl Price {
    /// The mantissa fits in 96 bits and the scale is at most 28.
    pub open spec fn wf(self) -> bool {
        &&& self.scale <= MAX_SCALE
        &&& -MAX_MANTISSA <= self.mantissa <= MAX_MANTISSA
    }

    pub open spec fn spec_zero() -> Price {
        Price { mantissa: 0, scale: 0 }
    }

    /// The value zero.
    pub fn zero() -> (r: Price)
        ensures
            r == Price::spec_zero(),
            r.wf(),
    {
        Price { mantissa: 0, scale: 0 }
    }

    /// The decimal `mantissa / 10^scale`, when it is representable.
    pub fn new(mantissa: i128, scale: u32) -> (r: Option<Price>)
        ensures
            r == (if (Price { mantissa, scale }).wf() {
                Some(Price { mantissa, scale })
            } else {
                None
            }),
    {
        if scale <= MAX_SCALE && -MAX_MANTISSA <= mantissa && mantissa <= MAX_MANTISSA {
            Some(Price { mantissa, scale })
        } else {
            None
        }
    }
}

/// What rust_decimal's checked addition returns for two decimals.
pub uninterp spec fn decimal_sum(a: Price, b: Price) -> Option<Price>;

/// What rust_decimal's checked division returns for two decimals.
pub uninterp spec fn decimal_quotient(a: Price, b: Price) -> Option<Price>;

/// Relies on rust_decimal's `Decimal::checked_add`: the result depends on the
/// operands alone, and a result that is there is again a valid decimal.
#[verifier::external_body]
fn checked_sum(a: Price, b: Price) -> (r: Option<Price>)
    requires
        a.wf(),
        b.wf(),
    ensures
        r == decimal_sum(a, b),
        r matches Some(s) ==> s.wf(),
{
    let x = Decimal::from_i128_with_scale(a.mantissa, a.scale);
    let y = Decimal::from_i128_with_scale(b.mantissa, b.scale);
    match x.checked_add(y) {
        Some(d) => Some(Price { mantissa: d.mantissa(), scale: d.scale() }),
        None => None,
    }
}

/// Relies on rust_decimal's `Decimal::checked_div`: the result depends on
/// the operands alone, division by zero gives `None` rather than a panic, and
/// a result that is there is again a valid decimal.
#[verifier::external_body]
fn checked_quotient(a: Price, b: Price) -> (r: Option<Price>)
    requires
        a.wf(),
        b.wf(),
    ensures
        r == decimal_quotient(a, b),
        r matches Some(q) ==> q.wf(),
{
    let x = Decimal::from_i128_with_scale(a.mantissa, a.scale);
    let y = Decimal::from_i128_with_scale(b.mantissa, b.scale);
    match x.checked_div(y) {
        Some(d) => Some(Price { mantissa: d.mantissa(), scale: d.scale() }),
        None => None,
    }
}

/// The divisor of the mean of two prices.
pub open spec fn spec_two() -> Price {
    Price { mantissa: 2, scale: 0 }
}

/// The exact mid-price `(bid + ask) / 2`, or `None` where the decimal
/// arithmetic overflows.
pub open spec fn mid_of(bid: Price, ask: Price) -> Option<Price> {
    match decimal_sum(bid, ask) {
        Some(s) => decimal_quotient(s, spec_two()),
        None => None,
    }
}

/// The value published for a mid-price: the mid-price itself, or zero where
/// it could not be computed.
pub open spec fn published_of(mid: Option<Price>) -> Price {
    match mid {
        Some(m) => m,
        None => Price::spec_zero(),
    }
}

/// The mid-price of a quote, computed with rust_decimal.
pub fn mid_price(bid: Price, ask: Price) -> (r: Option<Price>)
    requires
        bid.wf(),
        ask.wf(),
    ensures
        r == mid_of(bid, ask),
        r matches Some(m) ==> m.wf(),
{
    match checked_sum(bid, ask) {
        Some(s) => {
            let two = Price { mantissa: 2, scale: 0 };
            checked_quotient(s, two)
        },
        None => None,
    }
}

/// The value to publish for a computed mid-price: zero stands in for a
/// mid-price that could not be computed.
pub fn published_value(mid: Option<Price>) -> (r: Price)
    ensures
        r == published_of(mid),
        (mid matches Some(m) ==> m.wf()) ==> r.wf(),
{
    match mid {
        Some(m) => m,
        None => Price::zero(),
    }
}

} // verus!
