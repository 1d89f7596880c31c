//! Monetary amounts mixed across currencies, combined into expression trees
//! and evaluated against a caller-supplied exchange-rate provider.
//!
//! A [`Money`] is an immutable amount in a single currency. Adding two amounts
//! or scaling one by a factor does not compute anything eagerly: it builds an
//! [`Expression`], a tree of `Money` leaves under `Plus` and `Times` nodes.
//! [`Expression::evaluate`] collapses such a tree to one `Money`, asking a
//! [`MonetaryExchange`] provider to convert whenever two leaves of different
//! currencies must be added; a missing rate aborts the whole evaluation with
//! [`Error::NoExchangeRate`].

pub mod exchange;
pub mod expression;
pub mod laws;
pub mod money;

pub use exchange::Error;
pub use exchange::MonetaryExchange;
pub use expression::Expression;
pub use money::Money;
