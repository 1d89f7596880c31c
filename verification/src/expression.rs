//! The expression tree and its reduction to a single amount.

use vstd::prelude::*;

use crate::exchange::Error;
use crate::exchange::MonetaryExchange;
use crate::money::Money;
use crate::money::fits_i64;
use crate::money::spec_try_add;
use crate::money::try_add_fits;

verus! {

/// A finite tree of `Money` leaves combined by addition and scalar
/// multiplication. Nothing is computed while the tree is built; currency
/// resolution is deferred until `evaluate` walks it with a provider.
#[derive(Debug)]
pub enum Expression {
    /// A resolved leaf.
    Value(Money),
    /// An unresolved sum of two subexpressions.
    Plus(Box<Expression>, Box<Expression>),
    /// An unresolved scaling of a subexpression by a scalar factor.
    Times(Box<Expression>, i64),
}

/// Whether `e` is a `Plus` node whose children are exactly `lhs` and `rhs`.
pub open spec fn is_sum_of(e: Expression, lhs: Expression, rhs: Expression) -> bool {
    e matches Expression::Plus(l, r) && *l == lhs && *r == rhs
}

/// Whether `e` is a `Times` node scaling exactly `inner` by `factor`.
pub open spec fn is_scaled(e: Expression, inner: Expression, factor: i64) -> bool {
    e matches Expression::Times(i, k) && *i == inner && k == factor
}

/// What evaluating `e` with `exchange` returns: the depth-first post-order
/// reduction of the tree. A leaf is itself; a `Plus` reduces both children
/// and combines them with currency-aware addition, the left child's error
/// taking precedence; a `Times` reduces its child and scales the amount,
/// keeping the currency.
pub open spec fn eval_spec<T: MonetaryExchange>(e: Expression, exchange: &T) -> Result<
    Money,
    Error,
>
    decreases e,
{
    match e {
        Expression::Value(m) => Ok(m),
        Expression::Plus(l, r) => (match eval_spec(*l, exchange) {
            Err(e1) => Err(e1),
            Ok(lhs) => match eval_spec(*r, exchange) {
                Err(e2) => Err(e2),
                Ok(rhs) => spec_try_add(lhs, rhs, exchange),
            },
        }),
        Expression::Times(inner, factor) => (match eval_spec(*inner, exchange) {
            Err(e1) => Err(e1),
            Ok(m) => Ok(Money { value: (m.value * factor) as i64, currency: m.currency }),
        }),
    }
}

/// The machine limit on evaluating `e` with `exchange`: every sum and every
/// product the reduction actually forms fits the amount type.
pub open spec fn eval_fits<T: MonetaryExchange>(e: Expression, exchange: &T) -> bool
    decreases e,
{
    match e {
        Expression::Value(_) => true,
        Expression::Plus(l, r) => eval_fits(*l, exchange) && eval_fits(*r, exchange) && (match (
            eval_spec(*l, exchange),
            eval_spec(*r, exchange),
        ) {
            (Ok(lhs), Ok(rhs)) => try_add_fits(lhs, rhs, exchange),
            _ => true,
        }),
        Expression::Times(inner, factor) => eval_fits(*inner, exchange) && (match eval_spec(
            *inner,
            exchange,
        ) {
            Ok(m) => fits_i64(m.value * factor),
            _ => true,
        }),
    }
}

impl Expression {
    /// Combine with another expression into an unevaluated sum.
    pub fn add(self, other: Expression) -> (sum: Expression)
        ensures
            is_sum_of(sum, self, other),
    {
        Expression::Plus(Box::new(self), Box::new(other))
    }

    /// Wrap the whole expression in a scaling node; nothing is evaluated
    /// eagerly.
    pub fn scale(self, factor: i64) -> (scaled: Expression)
        ensures
            is_scaled(scaled, self, factor),
    {
        Expression::Times(Box::new(self), factor)
    }

    /// Collapse the tree to a single `Money` with the help of `exchange`,
    /// or fail with the first error the reduction meets. The outcome is
    /// exactly `eval_spec` of the tree and the provider's model.
    pub fn evaluate<T: MonetaryExchange>(self, exchange: &T) -> (outcome: Result<Money, Error>)
        requires
            eval_fits(self, exchange),
        ensures
            outcome == eval_spec(self, exchange),
    {
        self.reduce(exchange)
    }

    /// The recursive reduction step: always hands back a fully reduced leaf,
    /// so the terminal-leaf state is the only state a caller can observe.
    fn reduce<T: MonetaryExchange>(self, exchange: &T) -> (reduced: Result<Money, Error>)
        requires
            eval_fits(self, exchange),
        ensures
            reduced == eval_spec(self, exchange),
        decreases self,
    {
        match self {
            Expression::Value(m) => Ok(m),
            Expression::Plus(l, r) => {
                let lhs = (*l).reduce(exchange)?;
                let rhs = (*r).reduce(exchange)?;
                lhs.try_add(&rhs, exchange)
            },
            Expression::Times(inner, factor) => {
                let m = (*inner).reduce(exchange)?;
                Ok(m.scale(factor))
            },
        }
    }
}

impl Clone for Expression {
    /// Deep copy of the tree; the copy is equal to the original.
    fn clone(&self) -> (copy: Self)
        ensures
            copy == *self,
        decreases *self,
    {
        match self {
            Expression::Value(m) => Expression::Value(*m),
            Expression::Plus(l, r) => Expression::Plus(
                Box::new((**l).clone()),
                Box::new((**r).clone()),
            ),
            Expression::Times(inner, factor) => Expression::Times(
                Box::new((**inner).clone()),
                *factor,
            ),
        }
    }
}

impl From<Money> for Expression {
    /// Lift an amount to a resolved leaf.
    fn from(money: Money) -> (e: Expression) {
        Expression::Value(money)
    }
}

impl vstd::std_specs::convert::FromSpecImpl<Money> for Expression {
    open spec fn obeys_from_spec() -> bool {
        true
    }

    open spec fn from_spec(money: Money) -> Expression {
        Expression::Value(money)
    }
}

} // verus!
