use doubloon::iso_currencies::{EUR, JPY, PLN, USD};
use doubloon::locale::FormattingOptions;
use doubloon::{Decimal, DynCurrency, Money, RoundingStrategy};

fn text(s: &str) -> Option<String> {
    Some(s.to_string())
}

#[test]
fn locale_aware_formatting() {
    let m = Money::new(Decimal::new(123456789, 2), EUR);
    assert_eq!(m.format_locale("en-US"), text("€1,234,567.89"));
    assert_eq!(m.format_locale("ir-IR"), text("€\u{a0}1,234,567.89"));
    assert_eq!(m.format_locale("tr-TR"), text("€1.234.567,89"));
    assert_eq!(m.format_locale("fr-FR"), text("1\u{202f}234\u{202f}567,89\u{a0}€"));
    assert_eq!(m.format_locale("pl-PL"), text("1\u{a0}234\u{a0}567,89\u{a0}€"));
}

#[test]
fn format_pln() {
    let m = Money::new(Decimal::new(123456789, 2), PLN);
    assert_eq!(m.format_locale("pl-PL"), text("1\u{a0}234\u{a0}567,89\u{a0}zł"));
    assert_eq!(m.format_locale("en-US"), text("PLN\u{a0}1,234,567.89"));
}

#[test]
fn format_dyn_currency() {
    let m = Money::new(Decimal::new(123456789, 2), DynCurrency::of(&USD));
    assert_eq!(m.format_locale("en-US"), text("$1,234,567.89"));
}

#[test]
fn format_zero_decimals_with_minor_units() {
    let m = Money::new(Decimal::new(1, 0), USD);
    assert_eq!(m.format_locale("en-US"), text("$1.00"));
}

#[test]
fn format_zero_decimals_with_no_minor_units() {
    let m = Money::new(Decimal::new(1, 0), JPY);
    assert_eq!(m.format_locale("ja-JP"), text("￥1"));
}

#[test]
fn format_foreign_currency_in_euro_locales() {
    let m = Money::new(Decimal::new(123456789, 2), USD);
    assert_eq!(m.format_locale("en-US"), text("$1,234,567.89"));
    assert_eq!(m.format_locale("fr-FR"), text("1\u{202f}234\u{202f}567,89\u{a0}$US"));
    assert_eq!(m.format_locale("tr-TR"), text("$1.234.567,89"));
    assert_eq!(m.format_locale("pl-PL"), text("1\u{a0}234\u{a0}567,89\u{a0}USD"));
}

#[test]
fn format_with_options() {
    let m = Money::new(Decimal::new(100, 0), USD);
    let options = FormattingOptions {
        decimal_places: 0,
        rounding_strategy: RoundingStrategy::MidpointNearestEven,
    };
    assert_eq!(m.format_locale_with_options("en-US", options), text("$100"));
}

#[test]
fn format_rounding() {
    let m = Money::new(Decimal::new(123456750, 2), USD);
    let even = FormattingOptions {
        decimal_places: 0,
        rounding_strategy: RoundingStrategy::MidpointNearestEven,
    };
    assert_eq!(m.format_locale_with_options("en-US", even), text("$1,234,568"));
    let toward_zero = FormattingOptions {
        decimal_places: 0,
        rounding_strategy: RoundingStrategy::MidpointTowardZero,
    };
    assert_eq!(m.format_locale_with_options("en-US", toward_zero), text("$1,234,567"));
}

#[test]
fn format_negative() {
    let m = Money::new(Decimal::new(-123456789, 2), USD);
    assert_eq!(m.format_locale("en-US"), text("$-1,234,567.89"));
}

#[test]
fn format_locale_rejects_a_malformed_locale() {
    let m = Money::new(Decimal::new(1, 0), USD);
    assert_eq!(m.format_locale("not a locale!"), None);
}
