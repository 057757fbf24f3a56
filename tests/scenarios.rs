use doubloon::currency_map::CurrencyMap;
use doubloon::formatter::Formatter;
use doubloon::iso_currencies::{EUR, JPY, USD};
use doubloon::{Decimal, DynCurrency, Money, MoneyMathError, RoundingStrategy};

#[test]
fn rounding_ties_by_strategy() {
    let m = Money::new(Decimal::new(1555, 3), USD);
    assert_eq!(m.round(2, RoundingStrategy::MidpointNearestEven), Money::new(Decimal::new(156, 2), USD));
    assert_eq!(m.round(2, RoundingStrategy::MidpointTowardZero), Money::new(Decimal::new(155, 2), USD));
    assert_eq!(m.round(2, RoundingStrategy::ToZero), Money::new(Decimal::new(155, 2), USD));
    assert_eq!(m.round(2, RoundingStrategy::AwayFromZero), Money::new(Decimal::new(156, 2), USD));
    assert_eq!(m.round(2, RoundingStrategy::MidpointAwayFromZero), Money::new(Decimal::new(156, 2), USD));
    let n = Money::new(Decimal::new(-1551, 3), USD);
    assert_eq!(n.round(2, RoundingStrategy::ToNegativeInfinity), Money::new(Decimal::new(-156, 2), USD));
    assert_eq!(n.round(2, RoundingStrategy::ToPositiveInfinity), Money::new(Decimal::new(-155, 2), USD));
}

#[test]
fn rounding_twice_changes_nothing() {
    let once = Money::new(Decimal::new(123456, 4), USD).round(2, RoundingStrategy::MidpointNearestEven);
    let twice = once.round(2, RoundingStrategy::ToZero);
    assert_eq!(once.amount().mantissa(), twice.amount().mantissa());
    assert_eq!(once.amount().scale(), twice.amount().scale());
    assert_eq!(once.amount().mantissa(), 1235);
}

#[test]
fn dynamic_addition_of_different_codes_fails() {
    let usd = Money::new(Decimal::new(1, 0), DynCurrency::of(&USD));
    let jpy = Money::new(Decimal::new(1, 0), DynCurrency::of(&JPY));
    assert_eq!(usd.add(jpy), Err(MoneyMathError::IncompatibleCurrencies("USD", "JPY")));
}

#[test]
fn mixed_operands_agree() {
    let dyn_usd = DynCurrency::of(&USD);
    let left_static = Money::new(Decimal::new(7, 0), USD).try_sub(Money::new(Decimal::new(2, 0), dyn_usd));
    let left_dynamic = Money::new(Decimal::new(7, 0), dyn_usd).sub(Money::new(Decimal::new(2, 0), USD));
    assert_eq!(left_static.unwrap().amount(), left_dynamic.unwrap().amount());
    assert!(Money::new(Decimal::new(7, 0), EUR).try_sub(Money::new(Decimal::new(2, 0), dyn_usd)).is_err());
    assert!(Money::new(Decimal::new(7, 0), dyn_usd).sub(Money::new(Decimal::new(2, 0), EUR)).is_err());
}

#[test]
fn to_minor_units_rounds_first() {
    let usd = Money::new(Decimal::new(1045, 2), USD);
    assert_eq!(usd.to_minor_units(RoundingStrategy::MidpointNearestEven), Some(1045));
    let jpy = Money::new(Decimal::new(1045, 2), JPY);
    assert_eq!(jpy.to_minor_units(RoundingStrategy::MidpointNearestEven), Some(10));
    let jpy_dyn = Money::new(Decimal::new(1045, 2), DynCurrency::of(&JPY));
    assert_eq!(jpy_dyn.to_minor_units(RoundingStrategy::AwayFromZero), Some(11));
}

#[test]
fn to_minor_units_of_a_huge_amount_is_none() {
    let big = Money::new(Decimal::new(i64::MAX, 0), USD);
    assert_eq!(big.to_minor_units(RoundingStrategy::MidpointNearestEven), None);
    let fits = Money::new(Decimal::new(i64::MAX, 2), USD);
    assert_eq!(fits.to_minor_units(RoundingStrategy::MidpointNearestEven), Some(i64::MAX));
    let whole = Money::new(Decimal::new(-3, 0), USD);
    assert_eq!(whole.to_minor_units(RoundingStrategy::MidpointNearestEven), Some(-300));
}

#[test]
fn round_to_currency_precision_uses_minor_units() {
    let m = Money::new(Decimal::new(10455, 3), USD);
    assert_eq!(
        m.round_to_currency_precision(RoundingStrategy::MidpointNearestEven),
        Money::new(Decimal::new(1046, 2), USD)
    );
    let j = Money::new(Decimal::new(105, 1), JPY);
    assert_eq!(
        j.round_to_currency_precision(RoundingStrategy::MidpointNearestEven),
        Money::new(Decimal::new(10, 0), JPY)
    );
}

#[test]
fn checked_operations_report_overflow() {
    let big = Money::new(Decimal::new(i64::MAX, 0), USD);
    assert_eq!(big.checked_mul(big).and_then(|m| m.checked_mul(big)), None);
    assert_eq!(big.checked_div(Money::new(Decimal::new(0, 0), USD)), None);
    assert_eq!(big.checked_rem(Money::new(Decimal::new(0, 0), USD)), None);
    assert_eq!(
        Money::new(Decimal::new(3, 0), USD).checked_add(Money::new(Decimal::new(4, 0), USD)),
        Some(Money::new(Decimal::new(7, 0), USD))
    );
    assert_eq!(
        Money::new(Decimal::new(3, 0), USD).checked_sub(Money::new(Decimal::new(4, 0), USD)),
        Some(Money::new(Decimal::new(-1, 0), USD))
    );
    assert_eq!(Money::new(Decimal::new(10, 0), USD).checked_pow(-1), Some(Money::new(Decimal::new(1, 1), USD)));
}

#[test]
fn currency_map_lookup_and_insert() {
    let mut map = CurrencyMap::new();
    assert_eq!(map.get("USD"), None);
    assert_eq!(map.insert(DynCurrency::of(&USD)), None);
    assert_eq!(map.insert(DynCurrency::of(&EUR)), None);
    assert_eq!(map.get("USD"), Some(DynCurrency::of(&USD)));
    assert_eq!(map.get("EUR").unwrap().symbol(), "€");
    let replaced = map.insert(DynCurrency::of(&USD));
    assert_eq!(replaced.unwrap().name(), "US Dollar");
    assert_eq!(map.get("JPY"), None);
}

#[test]
fn currency_map_from_collection_keeps_the_last() {
    let other = DynCurrency {
        code: "USD",
        minor_units: 3,
        symbol: "",
        name: "Other",
        numeric_code: 1,
    };
    let map = CurrencyMap::from_collection(vec![DynCurrency::of(&USD), DynCurrency::of(&JPY), other]);
    assert_eq!(map.get("USD").unwrap().minor_units, 3);
    assert_eq!(map.get("JPY").unwrap().numeric_code(), 392);
}

#[test]
fn decimal_text_and_order() {
    assert_eq!(Decimal::new(-5, 3).to_string(), "-0.005");
    assert_eq!(Decimal::new(1200, 2).to_string(), "12.00");
    assert_eq!(Decimal::new(0, 0).to_string(), "0");
    assert_eq!(Decimal::new(1, 0).cmp(&Decimal::new(100, 2)), std::cmp::Ordering::Equal);
    assert_eq!(Decimal::new(1, 0).cmp(&Decimal::new(101, 2)), std::cmp::Ordering::Less);
    assert_eq!(Decimal::new(5, 1).rescale_up(3).to_string(), "0.500");
}

#[test]
fn money_renders_through_a_formatter() {
    let m = Money::new(Decimal::new(-123456, 2), USD);
    assert_eq!(m.format(Formatter::default()), Ok("-$1,234.56".to_string()));
    let d = Money::new(Decimal::new(5, 0), DynCurrency::of(&JPY));
    assert_eq!(d.format(Formatter::default()), Ok("¥5".to_string()));
}

#[test]
fn scalar_operations_keep_the_currency() {
    let m = Money::new(Decimal::new(1050, 2), USD);
    assert_eq!(m.mul_scalar(Decimal::new(3, 0)), Money::new(Decimal::new(3150, 2), USD));
    assert_eq!(m.div_scalar(Decimal::new(2, 0)), Money::new(Decimal::new(525, 2), USD));
    assert_eq!(m.rem_scalar(Decimal::new(4, 0)), Money::new(Decimal::new(250, 2), USD));
    assert_eq!(m.checked_div_scalar(Decimal::new(0, 0)), None);
    let d = Money::new(Decimal::new(2, 0), DynCurrency::of(&EUR));
    assert_eq!(d.checked_mul_scalar(Decimal::new(5, 1)), Some(Money::new(Decimal::new(1, 0), DynCurrency::of(&EUR))));
}
