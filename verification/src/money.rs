//! The leaf value: an immutable amount in exactly one currency.

use vstd::prelude::*;

use crate::exchange::Error;
use crate::exchange::MonetaryExchange;
use crate::expression::Expression;
use crate::expression::is_sum_of;

verus! {

/// An immutable amount denominated in exactly one currency.
///
/// The currency is an opaque identifier: the library never interprets it
/// beyond equality. A `Money` never carries a conversion rate; converting is
/// the exchange provider's business alone.
#[derive(Clone, Copy, Debug, PartialEq, Eq, Structural)]
pub struct Money {
    pub value: i64,
    pub currency: u64,
}

/// Whether a mathematical integer fits the machine amount type.
pub open spec fn fits_i64(n: int) -> bool {
    i64::MIN <= n <= i64::MAX
}

/// What currency-aware addition of two reduced leaves returns: the plain sum
/// when the currencies agree, otherwise the provider's answer for converting
/// the left operand into the right operand's currency, added to the right
/// operand — or the provider's error.
pub open spec fn spec_try_add<T: MonetaryExchange>(
    lhs: Money,
    rhs: Money,
    exchange: &T,
) -> Result<Money, Error> {
    if lhs.currency == rhs.currency {
        Ok(Money { value: (lhs.value + rhs.value) as i64, currency: lhs.currency })
    } else {
        match exchange.spec_exchange(lhs, rhs.currency) {
            Ok(v) => Ok(Money { value: (v + rhs.value) as i64, currency: rhs.currency }),
            Err(e) => Err(e),
        }
    }
}

/// The machine limit on currency-aware addition: whichever sum it would
/// actually form must fit the amount type.
pub open spec fn try_add_fits<T: MonetaryExchange>(lhs: Money, rhs: Money, exchange: &T) -> bool {
    if lhs.currency == rhs.currency {
        fits_i64(lhs.value + rhs.value)
    } else {
        (exchange.spec_exchange(lhs, rhs.currency) matches Ok(v) ==> fits_i64(v + rhs.value))
    }
}

/// Termination measure for `try_add`: a converted left operand already carries
/// the right operand's currency, so at most one retry happens.
pub(crate) open spec fn try_add_decreases(lhs: Money, rhs: Money) -> int {
    if lhs.currency == rhs.currency {
        0
    } else {
        1
    }
}

impl Money {
    /// Combine two amounts into an unevaluated sum; no conversion is
    /// attempted here, both operands become leaves of a `Plus` node.
    pub fn add(self, other: Money) -> (sum: Expression)
        ensures
            is_sum_of(sum, Expression::Value(self), Expression::Value(other)),
    {
        Expression::Plus(Box::new(Expression::Value(self)), Box::new(Expression::Value(other)))
    }

    /// Multiply the amount by `factor`, keeping the currency; pure
    /// arithmetic, no provider involved.
    pub fn scale(self, factor: i64) -> (scaled: Money)
        requires
            fits_i64(self.value * factor),
        ensures
            scaled.value == self.value * factor,
            scaled.currency == self.currency,
    {
        Money { value: self.value * factor, currency: self.currency }
    }

    /// Currency-aware addition of two reduced leaves. With equal currencies
    /// the amounts are summed directly; otherwise `self` is converted into
    /// `other`'s currency and the addition retried with the converted
    /// operand. The retry needs no further conversion, since the provider
    /// answers in the requested currency.
    pub(crate) fn try_add<T: MonetaryExchange>(
        &self,
        other: &Money,
        exchange: &T,
    ) -> (sum: Result<Money, Error>)
        requires
            try_add_fits(*self, *other, exchange),
        ensures
            sum == spec_try_add(*self, *other, exchange),
        decreases try_add_decreases(*self, *other),
    {
        if self.currency == other.currency {
            Ok(Money { value: self.value + other.value, currency: self.currency })
        } else {
            let converted = exchange.exchange(*self, other.currency)?;
            converted.try_add(other, exchange)
        }
    }
}

} // verus!
