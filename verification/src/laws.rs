//! General laws of evaluation, stated and proved once for all inputs.

use vstd::prelude::*;

use crate::exchange::Error;
use crate::exchange::MonetaryExchange;
use crate::expression::Expression;
use crate::expression::eval_spec;
use crate::expression::is_scaled;
use crate::expression::is_sum_of;
use crate::money::Money;
use crate::money::fits_i64;

verus! {

/// Adding amounts of one currency never consults the provider and yields the
/// arithmetic sum: for any amounts `a`, `b`, `c` in one currency and any
/// provider, `(a + b) + c` evaluates to a leaf holding `a + b + c` in that
/// currency, and swapping `a` and `b` changes nothing.
pub proof fn lemma_same_currency_sum<T: MonetaryExchange>(
    e_ab_c: Expression,
    e_ab: Expression,
    e_ba_c: Expression,
    e_ba: Expression,
    a: Money,
    b: Money,
    c: Money,
    exchange: &T,
)
    requires
        a.currency == b.currency,
        b.currency == c.currency,
        is_sum_of(e_ab, Expression::Value(a), Expression::Value(b)),
        is_sum_of(e_ab_c, e_ab, Expression::Value(c)),
        is_sum_of(e_ba, Expression::Value(b), Expression::Value(a)),
        is_sum_of(e_ba_c, e_ba, Expression::Value(c)),
        fits_i64(a.value + b.value),
        fits_i64(a.value + b.value + c.value),
    ensures
        eval_spec(e_ab_c, exchange) == Ok::<Money, Error>(
            Money { value: (a.value + b.value + c.value) as i64, currency: c.currency },
        ),
        eval_spec(e_ab_c, exchange) == eval_spec(e_ba_c, exchange),
{
    assert(eval_spec(Expression::Value(a), exchange) == Ok::<Money, Error>(a));
    assert(eval_spec(Expression::Value(b), exchange) == Ok::<Money, Error>(b));
    assert(eval_spec(Expression::Value(c), exchange) == Ok::<Money, Error>(c));
    let sum_ab = Money { value: (a.value + b.value) as i64, currency: a.currency };
    assert(eval_spec(e_ab, exchange) == Ok::<Money, Error>(sum_ab));
    assert(eval_spec(e_ba, exchange) == Ok::<Money, Error>(sum_ab));
}

/// Scaling distributes over same-currency addition: for any amounts `a`, `b`
/// in one currency and any factor `k`, `(a + b) * k` and `a * k + b * k`
/// evaluate alike, to `(a + b) * k` in that currency, whatever the provider.
pub proof fn lemma_scale_distributes<T: MonetaryExchange>(
    e_sum_scaled: Expression,
    e_sum: Expression,
    e_scaled_sum: Expression,
    e_a_scaled: Expression,
    e_b_scaled: Expression,
    a: Money,
    b: Money,
    k: i64,
    exchange: &T,
)
    requires
        a.currency == b.currency,
        is_sum_of(e_sum, Expression::Value(a), Expression::Value(b)),
        is_scaled(e_sum_scaled, e_sum, k),
        is_scaled(e_a_scaled, Expression::Value(a), k),
        is_scaled(e_b_scaled, Expression::Value(b), k),
        is_sum_of(e_scaled_sum, e_a_scaled, e_b_scaled),
        fits_i64(a.value + b.value),
        fits_i64((a.value + b.value) * k),
        fits_i64(a.value * k),
        fits_i64(b.value * k),
    ensures
        eval_spec(e_sum_scaled, exchange) == Ok::<Money, Error>(
            Money { value: ((a.value + b.value) * k) as i64, currency: a.currency },
        ),
        eval_spec(e_sum_scaled, exchange) == eval_spec(e_scaled_sum, exchange),
{
    assert((a.value + b.value) * k == a.value * k + b.value * k) by (nonlinear_arith);
    assert(eval_spec(Expression::Value(a), exchange) == Ok::<Money, Error>(a));
    assert(eval_spec(Expression::Value(b), exchange) == Ok::<Money, Error>(b));
    let sum_ab = Money { value: (a.value + b.value) as i64, currency: a.currency };
    assert(eval_spec(e_sum, exchange) == Ok::<Money, Error>(sum_ab));
    let a_scaled = Money { value: (a.value * k) as i64, currency: a.currency };
    let b_scaled = Money { value: (b.value * k) as i64, currency: b.currency };
    assert(eval_spec(e_a_scaled, exchange) == Ok::<Money, Error>(a_scaled));
    assert(eval_spec(e_b_scaled, exchange) == Ok::<Money, Error>(b_scaled));
}

/// Conversion correctness: adding two leaves of different currencies takes
/// exactly the provider's answer for converting the left operand into the
/// right operand's currency, and sums it with the right operand in that
/// currency.
pub proof fn lemma_converted_sum<T: MonetaryExchange>(
    e: Expression,
    a: Money,
    b: Money,
    converted: i64,
    exchange: &T,
)
    requires
        is_sum_of(e, Expression::Value(a), Expression::Value(b)),
        a.currency != b.currency,
        exchange.spec_exchange(a, b.currency) == Ok::<i64, Error>(converted),
    ensures
        eval_spec(e, exchange) == Ok::<Money, Error>(
            Money { value: (converted + b.value) as i64, currency: b.currency },
        ),
{
    assert(eval_spec(Expression::Value(a), exchange) == Ok::<Money, Error>(a));
    assert(eval_spec(Expression::Value(b), exchange) == Ok::<Money, Error>(b));
}

/// Missing-rate failure: when the provider has no rate for the pair a `Plus`
/// node needs, evaluating that node fails with `NoExchangeRate`, whatever the
/// two amounts are.
pub proof fn lemma_missing_rate<T: MonetaryExchange>(
    e: Expression,
    a: Money,
    b: Money,
    exchange: &T,
)
    requires
        is_sum_of(e, Expression::Value(a), Expression::Value(b)),
        a.currency != b.currency,
        exchange.spec_exchange(a, b.currency) == Err::<i64, Error>(Error::NoExchangeRate),
    ensures
        eval_spec(e, exchange) == Err::<Money, Error>(Error::NoExchangeRate),
{
    assert(eval_spec(Expression::Value(a), exchange) == Ok::<Money, Error>(a));
    assert(eval_spec(Expression::Value(b), exchange) == Ok::<Money, Error>(b));
}

/// Tree-shape independence: two-leaf sums in one currency with the same total
/// evaluate to the same outcome for every provider — only the total decides.
pub proof fn lemma_total_decides<T: MonetaryExchange>(
    e1: Expression,
    e2: Expression,
    a1: Money,
    a2: Money,
    b1: Money,
    b2: Money,
    exchange: &T,
)
    requires
        a1.currency == a2.currency,
        b1.currency == a1.currency,
        b2.currency == a1.currency,
        a1.value + a2.value == b1.value + b2.value,
        fits_i64(a1.value + a2.value),
        is_sum_of(e1, Expression::Value(a1), Expression::Value(a2)),
        is_sum_of(e2, Expression::Value(b1), Expression::Value(b2)),
    ensures
        eval_spec(e1, exchange) == eval_spec(e2, exchange),
        eval_spec(e1, exchange) == Ok::<Money, Error>(
            Money { value: (a1.value + a2.value) as i64, currency: a1.currency },
        ),
{
    assert(eval_spec(Expression::Value(a1), exchange) == Ok::<Money, Error>(a1));
    assert(eval_spec(Expression::Value(a2), exchange) == Ok::<Money, Error>(a2));
    assert(eval_spec(Expression::Value(b1), exchange) == Ok::<Money, Error>(b1));
    assert(eval_spec(Expression::Value(b2), exchange) == Ok::<Money, Error>(b2));
}

/// Evaluation is deterministic: it is a function of the tree and of the
/// provider's model alone, so equal trees evaluated with the same provider
/// give identical outcomes — there is no hidden state to mutate.
pub proof fn lemma_evaluation_deterministic<T: MonetaryExchange>(
    e1: Expression,
    e2: Expression,
    exchange: &T,
)
    requires
        e1 == e2,
    ensures
        eval_spec(e1, exchange) == eval_spec(e2, exchange),
{
}

} // verus!
