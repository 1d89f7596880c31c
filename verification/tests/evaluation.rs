use money_expr::Error;
use money_expr::Expression;
use money_expr::MonetaryExchange;
use money_expr::Money;

const USD: u64 = 840;
const RUB: u64 = 643;

/// A provider backed by a fixed table of multiplicative rates.
struct Rates {
    entries: Vec<((u64, u64), i64)>,
}

impl MonetaryExchange for Rates {
    // The spec-level model of this provider; compiled code never calls it,
    // but the trait asks every implementor to state it.
    fn spec_exchange(&self, money: Money, to_currency: u64) -> Result<i64, Error> {
        for ((from, to), rate) in &self.entries {
            if *from == money.currency && *to == to_currency {
                return Ok(money.value * rate);
            }
        }
        Err(Error::NoExchangeRate)
    }

    fn exchange(&self, money: Money, to_currency: u64) -> Result<Money, Error> {
        for ((from, to), rate) in &self.entries {
            if *from == money.currency && *to == to_currency {
                return Ok(Money { value: money.value * rate, currency: to_currency });
            }
        }
        Err(Error::NoExchangeRate)
    }
}

fn usd(value: i64) -> Money {
    Money { value, currency: USD }
}

fn rub(value: i64) -> Money {
    Money { value, currency: RUB }
}

fn default_rates() -> Rates {
    Rates { entries: vec![((USD, RUB), 60), ((RUB, USD), 0)] }
}

#[test]
fn correctly_evaluates() {
    let rates = default_rates();

    assert_eq!(
        (usd(1).add(usd(9))).evaluate(&rates).unwrap(),
        (usd(5).add(usd(5))).evaluate(&rates).unwrap()
    );
    assert_eq!(rub(100), (usd(1).add(rub(40))).evaluate(&rates).unwrap());
    assert_eq!(rub(100), (rub(10).scale(10).add(rub(0))).evaluate(&rates).unwrap());
}

#[test]
fn same_currency_sum_ignores_order_and_provider() {
    let rates = default_rates();
    let empty = Rates { entries: vec![] };

    let abc = usd(2).add(usd(3)).add(Expression::from(usd(4)));
    let bac = usd(3).add(usd(2)).add(Expression::from(usd(4)));
    assert_eq!(usd(9), abc.evaluate(&rates).unwrap());
    assert_eq!(usd(9), bac.evaluate(&empty).unwrap());
}

#[test]
fn scaling_distributes_over_same_currency_sum() {
    let rates = default_rates();

    let scaled_sum = usd(2).add(usd(3)).scale(4);
    let sum_of_scaled = usd(2).scale(4).add(usd(3).scale(4));
    assert_eq!(usd(20), scaled_sum.evaluate(&rates).unwrap());
    assert_eq!(usd(20), sum_of_scaled.evaluate(&rates).unwrap());
}

#[test]
fn converts_left_operand_into_right_currency() {
    let rates = default_rates();

    assert_eq!(rub(100), (usd(1).add(rub(40))).evaluate(&rates).unwrap());
}

#[test]
fn scales_then_adds() {
    let rates = default_rates();

    assert_eq!(rub(100), (rub(10).scale(10).add(rub(0))).evaluate(&rates).unwrap());
}

#[test]
fn missing_rate_fails_evaluation() {
    let only_usd_to_rub = Rates { entries: vec![((USD, RUB), 60)] };

    let outcome = (rub(7).add(usd(5))).evaluate(&only_usd_to_rub);
    assert!(matches!(outcome, Err(Error::NoExchangeRate)));
}

#[test]
fn missing_rate_under_scaling_fails_evaluation() {
    let empty = Rates { entries: vec![] };

    let outcome = (rub(7).add(usd(5))).scale(3).evaluate(&empty);
    assert!(matches!(outcome, Err(Error::NoExchangeRate)));
}

#[test]
fn evaluation_is_deterministic() {
    let rates = default_rates();

    let tree = usd(1).add(rub(40)).scale(2).add(Expression::from(rub(3)));
    let first = tree.clone().evaluate(&rates).unwrap();
    let second = tree.evaluate(&rates).unwrap();
    assert_eq!(first, second);
    assert_eq!(rub(203), first);
}

#[test]
fn trees_with_equal_totals_collapse_alike() {
    let rates = default_rates();

    assert_eq!(
        (usd(1).add(usd(9))).evaluate(&rates).unwrap(),
        (usd(5).add(usd(5))).evaluate(&rates).unwrap()
    );
    assert_eq!(usd(10), (usd(1).add(usd(9))).evaluate(&rates).unwrap());
}

#[test]
fn leaf_evaluates_to_itself() {
    let empty = Rates { entries: vec![] };

    assert_eq!(usd(17), Expression::from(usd(17)).evaluate(&empty).unwrap());
}

#[test]
fn scaling_by_zero_and_negative_factors() {
    let empty = Rates { entries: vec![] };

    assert_eq!(usd(0), Expression::from(usd(25)).scale(0).evaluate(&empty).unwrap());
    assert_eq!(usd(-50), Expression::from(usd(25)).scale(-2).evaluate(&empty).unwrap());
    assert_eq!(usd(-75), usd(25).scale(-3));
}

#[test]
fn nested_scaling_multiplies_factors() {
    let empty = Rates { entries: vec![] };

    assert_eq!(rub(60), Expression::from(rub(5)).scale(3).scale(4).evaluate(&empty).unwrap());
}

#[test]
fn conversion_applies_inside_scaled_subtrees() {
    let rates = default_rates();

    // (USD(2) + RUB(30)) * 2 = (120 RUB + 30 RUB) * 2
    let tree = usd(2).add(rub(30)).scale(2);
    assert_eq!(rub(300), tree.evaluate(&rates).unwrap());
}

#[test]
fn left_error_wins_over_right_error() {
    let empty = Rates { entries: vec![] };

    let left = rub(1).add(usd(1));
    let right = rub(2).add(usd(2));
    let outcome = left.add(right).evaluate(&empty);
    assert!(matches!(outcome, Err(Error::NoExchangeRate)));
}

#[test]
fn zero_rate_converts_to_zero() {
    let rates = default_rates();

    // RUB -> USD carries rate 0, so the RUB amount vanishes.
    assert_eq!(usd(8), (rub(50).add(usd(8))).evaluate(&rates).unwrap());
}
