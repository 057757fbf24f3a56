use doubloon::exchange::{ExchangeRate, MoneyConversionError};
use doubloon::iso_currencies::{EUR, JPY, USD};
use doubloon::{Decimal, DynCurrency, Money};

#[test]
fn convert_static() {
    let exchange_rate = ExchangeRate::new(USD, EUR, Decimal::new(85, 2));
    assert_eq!(
        Money::new(Decimal::new(1, 0), USD).convert(&exchange_rate),
        Money::new(Decimal::new(85, 2), EUR)
    );
}

#[test]
fn convert_dynamic() {
    let exchange_rate = ExchangeRate::new(USD, EUR, Decimal::new(85, 2));
    assert_eq!(
        Money::new(Decimal::new(1, 0), DynCurrency::of(&USD)).convert(&exchange_rate),
        Ok(Money::new(Decimal::new(85, 2), EUR))
    );
    assert_eq!(
        Money::new(Decimal::new(1, 0), DynCurrency::of(&JPY)).convert(&exchange_rate),
        Err(MoneyConversionError::IncorrectExchangeRate("USD", "JPY"))
    );
}

#[test]
fn checked_convert_overflow() {
    let exchange_rate = ExchangeRate::new(USD, EUR, Decimal::new(i64::MAX, 0));
    let big = Money::new(Decimal::new(i64::MAX, 0), USD);
    assert_eq!(big.checked_convert(&exchange_rate), None);
    let one = Money::new(Decimal::new(2, 0), USD);
    assert_eq!(one.checked_convert(&exchange_rate), Some(Money::new(Decimal::new(i64::MAX, 0).checked_mul(&Decimal::new(2, 0)).unwrap(), EUR)));
}
