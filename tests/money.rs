use doubloon::currency_map::CurrencyMap;
use doubloon::iso_currencies::{JPY, USD};
use doubloon::{Currency, Decimal, DynCurrency, Money, MoneyMathError, RoundingStrategy};

fn d(n: i64) -> Decimal {
    Decimal::new(n, 0)
}

fn currencies() -> CurrencyMap {
    CurrencyMap::from_collection(vec![DynCurrency::of(&USD), DynCurrency::of(&JPY)])
}

#[test]
fn new_static() {
    let m1 = Money::new(d(1), USD);
    assert_eq!(m1.amount(), d(1));
    assert_eq!(m1.currency(), USD);

    let m2 = Money::new(d(2), JPY);
    assert_eq!(m2.amount(), d(2));
    assert_eq!(m2.currency(), JPY);
}

#[test]
fn equality_static() {
    assert_eq!(Money::new(d(1), USD), Money::new(d(1), USD));
    assert_eq!(Money::new(d(1), JPY), Money::new(d(1), JPY));
    assert_ne!(Money::new(d(1), USD), Money::new(d(2), USD));
    assert_ne!(Money::new(d(1), JPY), Money::new(d(2), JPY));
}

#[test]
fn new_dynamic() {
    let map = currencies();
    let m1 = Money::new(d(1), map.get("USD").unwrap());
    assert_eq!(m1.amount(), d(1));
    assert_eq!(m1.currency(), DynCurrency::of(&USD));

    let m2 = Money::new(d(1), map.get("JPY").unwrap());
    assert_eq!(m2.amount(), d(1));
    assert_eq!(m2.currency(), DynCurrency::of(&JPY));
}

#[test]
fn from_minor_units() {
    let m1 = Money::from_minor_units(100, USD);
    assert_eq!(m1.amount(), d(1));
    assert_eq!(m1.currency(), USD);

    let m2 = Money::from_minor_units(100, JPY);
    assert_eq!(m2.amount(), d(100));
    assert_eq!(m2.currency(), JPY);

    let currency_jpy = currencies().get("JPY").unwrap();
    let m3 = Money::from_minor_units(100, currency_jpy);
    assert_eq!(m3.amount(), d(100));
    assert_eq!(m3.currency(), currency_jpy);
}

#[test]
fn is_zero() {
    assert!(Money::new(d(0), USD).is_zero());
    assert!(Money::new(d(0), currencies().get("USD").unwrap()).is_zero());
}

#[test]
fn equality_dynamic() {
    let map = currencies();
    let usd = map.get("USD").unwrap();
    let jpy = map.get("JPY").unwrap();
    assert_eq!(Money::new(d(1), usd), Money::new(d(1), usd));
    assert_eq!(Money::new(d(1), jpy), Money::new(d(1), jpy));
    assert_ne!(Money::new(d(1), usd), Money::new(d(1), jpy));
    assert_ne!(Money::new(d(1), jpy), Money::new(d(1), usd));
    assert_ne!(Money::new(d(1), usd), Money::new(d(2), usd));
    assert_ne!(Money::new(d(1), jpy), Money::new(d(2), jpy));
}

#[test]
fn equality_mixed() {
    let map = currencies();
    let usd = map.get("USD").unwrap();
    let jpy = map.get("JPY").unwrap();
    assert_eq!(Money::new(d(1), usd), Money::new(d(1), USD));
    assert_eq!(Money::new(d(1), USD), Money::new(d(1), usd));
    assert_eq!(Money::new(d(1), jpy), Money::new(d(1), JPY));
    assert_eq!(Money::new(d(1), JPY), Money::new(d(1), jpy));
    assert_ne!(Money::new(d(1), usd), Money::new(d(1), JPY));
    assert_ne!(Money::new(d(1), jpy), Money::new(d(1), USD));
    assert_ne!(Money::new(d(1), usd), Money::new(d(2), USD));
}

#[test]
fn add_static() {
    assert_eq!(Money::new(d(1), USD).add(Money::new(d(1), USD)), Money::new(d(2), USD));
    assert_eq!(Money::new(d(1), JPY).add(Money::new(d(1), JPY)), Money::new(d(2), JPY));
    assert_eq!(
        Money::new(d(1), USD).add(Money::new(d(1), USD)).add(Money::new(d(1), USD)),
        Money::new(Decimal::new(3, 0), USD),
    );
}

#[test]
fn add_dynamic() {
    let map = currencies();
    let currency_usd = map.get("USD").unwrap();
    let currency_jpy = map.get("JPY").unwrap();

    assert_eq!(
        Money::new(d(1), currency_usd).add(Money::new(d(1), currency_usd)),
        Ok(Money::new(d(2), currency_usd)),
    );
    assert_eq!(
        Money::new(d(1), currency_jpy).add(Money::new(d(1), currency_jpy)),
        Ok(Money::new(d(2), currency_jpy)),
    );
    assert_eq!(
        Money::new(d(1), currency_usd).add(Money::new(d(1), currency_jpy)),
        Err(MoneyMathError::IncompatibleCurrencies(currency_usd.code(), currency_jpy.code())),
    );
    assert_eq!(
        Money::new(d(1), currency_jpy).add(Money::new(d(1), currency_usd)),
        Err(MoneyMathError::IncompatibleCurrencies(currency_jpy.code(), currency_usd.code())),
    );
    assert_eq!(
        Money::new(d(1), currency_usd)
            .add(Money::new(d(1), currency_usd))
            .and_then(|m| m.add(Money::new(d(1), currency_usd))),
        Ok(Money::new(Decimal::new(3, 0), currency_usd)),
    );
    assert_eq!(
        Money::new(d(1), currency_usd)
            .add(Money::new(d(1), currency_jpy))
            .and_then(|m| m.add(Money::new(d(1), currency_usd))),
        Err(MoneyMathError::IncompatibleCurrencies(currency_usd.code(), currency_jpy.code())),
    );
}

#[test]
fn add_mixed() {
    let map = currencies();
    let currency_usd = map.get("USD").unwrap();
    let currency_jpy = map.get("JPY").unwrap();

    assert_eq!(
        Money::new(d(1), currency_usd).add(Money::new(d(1), USD)),
        Ok(Money::new(d(2), currency_usd)),
    );
    assert_eq!(
        Money::new(d(1), currency_jpy).add(Money::new(d(1), JPY)),
        Ok(Money::new(d(2), currency_jpy)),
    );
    assert_eq!(
        Money::new(d(1), JPY).try_add(Money::new(d(1), currency_jpy)),
        Ok(Money::new(d(2), JPY)),
    );
    assert_eq!(
        Money::new(d(1), USD).try_add(Money::new(d(1), currency_usd)),
        Ok(Money::new(d(2), USD)),
    );
    assert_eq!(
        Money::new(d(1), currency_usd).add(Money::new(d(1), JPY)),
        Err(MoneyMathError::IncompatibleCurrencies(currency_usd.code(), JPY.code())),
    );
    assert_eq!(
        Money::new(d(1), USD).try_add(Money::new(d(1), currency_jpy)),
        Err(MoneyMathError::IncompatibleCurrencies(USD.code(), currency_jpy.code())),
    );
}

#[test]
fn subtract() {
    assert_eq!(Money::new(d(2), USD).sub(Money::new(d(1), USD)), Money::new(d(1), USD));
    assert_eq!(Money::new(d(1), USD).sub(Money::new(d(2), USD)), Money::new(d(-1), USD));

    let map = currencies();
    let currency_usd = map.get("USD").unwrap();
    let currency_jpy = map.get("JPY").unwrap();

    assert_eq!(
        Money::new(d(2), currency_usd).sub(Money::new(d(1), currency_usd)),
        Ok(Money::new(d(1), currency_usd))
    );
    assert_eq!(
        Money::new(d(1), currency_usd).sub(Money::new(d(2), currency_usd)),
        Ok(Money::new(d(-1), currency_usd))
    );
    assert_eq!(
        Money::new(d(2), currency_jpy).sub(Money::new(d(1), currency_usd)),
        Err(MoneyMathError::IncompatibleCurrencies("JPY", "USD"))
    );
    assert_eq!(
        Money::new(d(2), currency_usd).sub(Money::new(d(1), USD)),
        Ok(Money::new(d(1), currency_usd))
    );
    assert_eq!(
        Money::new(d(1), USD).try_sub(Money::new(d(2), currency_usd)),
        Ok(Money::new(d(-1), USD))
    );
    assert_eq!(
        Money::new(d(2), JPY).try_sub(Money::new(d(1), currency_usd)),
        Err(MoneyMathError::IncompatibleCurrencies("JPY", "USD"))
    );
    assert_eq!(
        Money::new(d(2), currency_jpy).sub(Money::new(d(1), USD)),
        Err(MoneyMathError::IncompatibleCurrencies("JPY", "USD"))
    );
}

#[test]
fn multiply() {
    assert_eq!(Money::new(d(10), USD).mul(Money::new(d(10), USD)), Money::new(d(100), USD));

    let map = currencies();
    let currency_usd = map.get("USD").unwrap();
    let currency_jpy = map.get("JPY").unwrap();

    assert_eq!(
        Money::new(d(10), currency_usd).mul(Money::new(d(10), currency_usd)),
        Ok(Money::new(d(100), currency_usd))
    );
    assert_eq!(
        Money::new(d(10), currency_jpy).mul(Money::new(d(10), currency_usd)),
        Err(MoneyMathError::IncompatibleCurrencies("JPY", "USD"))
    );
    assert_eq!(
        Money::new(d(10), currency_usd).mul(Money::new(d(10), USD)),
        Ok(Money::new(d(100), currency_usd))
    );
    assert_eq!(
        Money::new(d(10), USD).try_mul(Money::new(d(10), currency_usd)),
        Ok(Money::new(d(100), USD))
    );
    assert_eq!(
        Money::new(d(10), JPY).try_mul(Money::new(d(10), currency_usd)),
        Err(MoneyMathError::IncompatibleCurrencies("JPY", "USD"))
    );
    assert_eq!(
        Money::new(d(10), currency_jpy).mul(Money::new(d(10), USD)),
        Err(MoneyMathError::IncompatibleCurrencies("JPY", "USD"))
    );
}

#[test]
fn divide() {
    assert_eq!(Money::new(d(10), USD).div(Money::new(d(2), USD)), Money::new(Decimal::new(5, 0), USD));
    assert_eq!(Money::new(d(2), USD).div(Money::new(d(10), USD)), Money::new(Decimal::new(2, 1), USD));

    let map = currencies();
    let currency_usd = map.get("USD").unwrap();
    let currency_jpy = map.get("JPY").unwrap();

    assert_eq!(
        Money::new(d(10), currency_usd).div(Money::new(d(2), currency_usd)),
        Ok(Money::new(Decimal::new(5, 0), currency_usd))
    );
    assert_eq!(
        Money::new(d(2), currency_usd).div(Money::new(d(10), currency_usd)),
        Ok(Money::new(Decimal::new(2, 1), currency_usd))
    );
    assert_eq!(
        Money::new(d(10), currency_jpy).div(Money::new(d(2), currency_usd)),
        Err(MoneyMathError::IncompatibleCurrencies("JPY", "USD"))
    );
    assert_eq!(
        Money::new(d(10), currency_usd).div(Money::new(d(2), USD)),
        Ok(Money::new(Decimal::new(5, 0), currency_usd))
    );
    assert_eq!(
        Money::new(d(2), USD).try_div(Money::new(d(10), currency_usd)),
        Ok(Money::new(Decimal::new(2, 1), USD))
    );
    assert_eq!(
        Money::new(d(10), JPY).try_div(Money::new(d(2), currency_usd)),
        Err(MoneyMathError::IncompatibleCurrencies("JPY", "USD"))
    );
    assert_eq!(
        Money::new(d(10), currency_jpy).div(Money::new(d(2), USD)),
        Err(MoneyMathError::IncompatibleCurrencies("JPY", "USD"))
    );
}

#[test]
fn rem() {
    assert_eq!(Money::new(d(10), USD).rem(Money::new(d(10), USD)), Money::new(d(0), USD));

    let map = currencies();
    let currency_usd = map.get("USD").unwrap();
    let currency_jpy = map.get("JPY").unwrap();

    assert_eq!(
        Money::new(d(10), currency_usd).rem(Money::new(d(10), currency_usd)),
        Ok(Money::new(d(0), currency_usd))
    );
    assert_eq!(
        Money::new(d(10), currency_jpy).rem(Money::new(d(10), currency_usd)),
        Err(MoneyMathError::IncompatibleCurrencies("JPY", "USD"))
    );
    assert_eq!(
        Money::new(d(10), currency_usd).rem(Money::new(d(10), USD)),
        Ok(Money::new(d(0), currency_usd))
    );
    assert_eq!(
        Money::new(d(10), JPY).try_rem(Money::new(d(10), currency_usd)),
        Err(MoneyMathError::IncompatibleCurrencies("JPY", "USD"))
    );
    assert_eq!(
        Money::new(d(10), currency_jpy).rem(Money::new(d(10), USD)),
        Err(MoneyMathError::IncompatibleCurrencies("JPY", "USD"))
    );
}

#[test]
fn negate() {
    assert_eq!(Money::new(d(1), USD).neg(), Money::new(d(-1), USD));
    let currency_usd = currencies().get("USD").unwrap();
    assert_eq!(Money::new(d(1), currency_usd).neg(), Money::new(d(-1), currency_usd));
}

#[test]
fn pow() {
    assert_eq!(Money::new(d(10), USD).pow(2), Money::new(d(100), USD));
    let currency_usd = currencies().get("USD").unwrap();
    assert_eq!(Money::new(d(10), currency_usd).pow(2), Money::new(d(100), currency_usd));
}

#[test]
fn is_positive_negative() {
    assert!(Money::new(d(1), USD).is_positive());
    assert!(Money::new(d(1), USD).neg().is_negative());

    let currency_usd = currencies().get("USD").unwrap();
    assert!(Money::new(d(1), currency_usd).is_positive());
    assert!(Money::new(d(1), currency_usd).neg().is_negative());

    assert!(Money::new(d(0), USD).is_positive());
    assert!(!Money::new(d(0), USD).is_negative());
}

#[test]
fn round() {
    assert_eq!(
        Money::new(Decimal::new(15, 1), USD).round(0, RoundingStrategy::MidpointNearestEven),
        Money::new(d(2), USD)
    );
    assert_eq!(
        Money::new(Decimal::new(15, 1), USD).round(0, RoundingStrategy::MidpointTowardZero),
        Money::new(d(1), USD)
    );
}

#[test]
fn partial_ord() {
    assert!(Money::new(d(1), USD) < Money::new(d(2), USD));
    assert!(Money::new(d(2), USD) > Money::new(d(1), USD));

    let map = currencies();
    let currency_usd = map.get("USD").unwrap();
    let currency_jpy = map.get("JPY").unwrap();
    assert!(Money::new(d(1), currency_usd) < Money::new(d(2), currency_usd));
    assert!(Money::new(d(2), currency_usd) > Money::new(d(1), currency_usd));

    assert_eq!(
        Money::new(d(1), currency_usd).partial_cmp(&Money::new(d(2), currency_jpy)),
        None
    );
    assert!(!(Money::new(d(1), currency_usd) < Money::new(d(2), currency_jpy)));
    assert!(!(Money::new(d(2), currency_usd) > Money::new(d(1), currency_jpy)));
}

#[test]
fn to_string() {
    assert_eq!(Money::new(d(1000), USD).to_string(), "1000 USD");
    assert_eq!(Money::new(d(1000), DynCurrency::of(&USD)).to_string(), "1000 USD");
}
