//! The error taxonomy and the exchange-rate provider capability.

use vstd::prelude::*;

use crate::money::Money;

verus! {

/// The ways an evaluation can fail.
///
/// `DifferentCurrencies` is reserved in the taxonomy but never produced by the
/// reduction path: mismatched currencies are always routed through the
/// exchange provider rather than rejected outright.
#[derive(Clone, Copy, Debug, PartialEq, Eq, Structural)]
pub enum Error {
    DifferentCurrencies,
    NoExchangeRate,
}

/// A capability, supplied by the caller, that converts a `Money` into a target
/// currency, or fails with `NoExchangeRate` when it knows no applicable rate.
///
/// The provider is queried only when two leaves of differing currencies must
/// be added; never for same-currency addition or for scaling. An implementor
/// describes itself through `spec_exchange`, the mathematical model of its
/// rate knowledge: for a fixed input and target the model fixes one outcome,
/// which is how the evaluator's callers can rely on repeated queries for the
/// same pair agreeing with each other.
pub trait MonetaryExchange {
    /// What this provider answers for `money` converted into `to_currency`:
    /// either the converted amount, already denominated in `to_currency`,
    /// or the error it fails with.
    spec fn spec_exchange(&self, money: Money, to_currency: u64) -> Result<i64, Error>;

    /// Convert `money` into `to_currency`, exactly as `spec_exchange` says:
    /// on success the result carries the target currency and the modelled
    /// amount; on failure the modelled error.
    fn exchange(&self, money: Money, to_currency: u64) -> (converted: Result<Money, Error>)
        ensures
            (match converted {
                Ok(m) => m.currency == to_currency && self.spec_exchange(money, to_currency)
                    == Ok::<i64, Error>(m.value),
                Err(e) => self.spec_exchange(money, to_currency) == Err::<i64, Error>(e),
            }),
    ;
}

} // verus!
