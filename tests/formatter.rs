use doubloon::formatter::{FormatError, Formatter};
use doubloon::iso_currencies::{USD, XXX};
use doubloon::{Decimal, RoundingStrategy};

#[test]
fn format_amount_simple() {
    assert_eq!(
        Formatter::default().format_amount(Decimal::new(123456789123456789, 2), 2),
        "1,234,567,891,234,567.89".to_string()
    );
}

#[test]
fn format_amount_short() {
    assert_eq!(Formatter::default().format_amount(Decimal::new(12, 0), 2), "12.00".to_string());
    assert_eq!(Formatter::default().format_amount(Decimal::new(123, 0), 2), "123.00".to_string());
    assert_eq!(Formatter::default().format_amount(Decimal::new(1234, 0), 2), "1,234.00".to_string());
}

#[test]
fn format_amount_no_frac() {
    assert_eq!(
        Formatter::default().format_amount(Decimal::new(123456789123456789, 0), 2),
        "123,456,789,123,456,789.00".to_string()
    );
}

#[test]
fn format_amount_no_frac_no_dp() {
    assert_eq!(
        Formatter::default().format_amount(Decimal::new(123456789123456789, 0), 0),
        "123,456,789,123,456,789".to_string()
    );
}

#[test]
fn format_amount_zero() {
    assert_eq!(Formatter::default().format_amount(Decimal::new(0, 0), 2), "0.00".to_string());
}

#[test]
fn format_amount_negative() {
    assert_eq!(Formatter::default().format_amount(Decimal::new(-1, 0), 2), "1.00".to_string());
}

#[test]
fn format_amount_decimal_padding() {
    assert_eq!(Formatter::default().format_amount(Decimal::new(12, 1), 4), "1.2000".to_string());
}

#[test]
fn format_amount_custom_separators() {
    let formatter = Formatter {
        decimal_separator: ",",
        digit_group_separator: " ",
        ..Default::default()
    };
    assert_eq!(
        formatter.format_amount(Decimal::new(123456789123456789, 2), 2),
        "1 234 567 891 234 567,89".to_string()
    );
}

#[test]
fn format_amount_rounding() {
    assert_eq!(
        Formatter::default().format_amount(Decimal::new(123456789123456789, 4), 2),
        "12,345,678,912,345.68".to_string()
    );
}

#[test]
fn format_amount_rounding_strategy() {
    let formatter = Formatter {
        rounding_strategy: RoundingStrategy::ToZero,
        ..Default::default()
    };
    assert_eq!(
        formatter.format_amount(Decimal::new(123456789123456789, 4), 2),
        "12,345,678,912,345.67".to_string()
    );
}

#[test]
fn format_amount_custom_digit_grouping() {
    let formatter = Formatter {
        digit_groupings: Some(&[3, 2, 2]),
        ..Default::default()
    };
    assert_eq!(
        formatter.format_amount(Decimal::new(123456789123456789, 2), 2),
        "123456789,12,34,567.89".to_string()
    );
}

#[test]
fn format_amount_no_digit_grouping() {
    let formatter = Formatter {
        digit_groupings: Some(&[]),
        ..Default::default()
    };
    assert_eq!(
        formatter.format_amount(Decimal::new(123456789123456789, 2), 2),
        "1234567891234567.89".to_string()
    );
}

#[test]
fn format_default() {
    assert_eq!(
        Formatter::default().format(Decimal::new(123456789123456789, 2), &USD),
        Ok("$1,234,567,891,234,567.89".to_string()),
    );
}

#[test]
fn format_default_negative() {
    assert_eq!(
        Formatter::default().format(Decimal::new(123456789123456789, 2).neg(), &USD),
        Ok("-$1,234,567,891,234,567.89".to_string()),
    );
}

#[test]
fn format_default_no_symbol() {
    assert_eq!(
        Formatter::default().format(Decimal::new(123456789123456789, 0), &XXX),
        Ok("XXX 123,456,789,123,456,789".to_string()),
    );
}

#[test]
fn format_custom_positive_template() {
    let f = Formatter {
        positive_template: "{a}{s|_c}",
        ..Default::default()
    };
    assert_eq!(f.format(Decimal::new(1234, 0), &USD), Ok("1,234.00$".to_string()));
    assert_eq!(f.format(Decimal::new(1234, 0), &XXX), Ok("1,234 XXX".to_string()));
}

#[test]
fn format_custom_negative_template() {
    let f = Formatter {
        negative_template: "({s}{a})",
        ..Default::default()
    };
    assert_eq!(
        f.format(Decimal::new(123456789123456789, 2).neg(), &USD),
        Ok("($1,234,567,891,234,567.89)".to_string())
    );
    assert_eq!(f.format(Decimal::new(1, 0), &USD), Ok("$1.00".to_string()))
}

#[test]
fn format_custom_zero_template() {
    let f = Formatter {
        zero_template: Some("free!"),
        ..Default::default()
    };
    assert_eq!(f.format(Decimal::new(0, 0), &USD), Ok("free!".to_string()));
    assert_eq!(f.format(Decimal::new(1, 0), &USD), Ok("$1.00".to_string()))
}

#[test]
fn format_invalid_template_token() {
    let f = Formatter {
        positive_template: "{a}{invalid}",
        ..Default::default()
    };
    assert_eq!(
        f.format(Decimal::new(1234, 0), &USD),
        Err(FormatError::InvalidToken("invalid".to_string()))
    );
}

#[test]
fn format_empty_template_token() {
    let f = Formatter {
        positive_template: "foo {}",
        ..Default::default()
    };
    assert_eq!(f.format(Decimal::new(1234, 0), &USD), Err(FormatError::InvalidToken(String::new())));
}

#[test]
fn format_decimal_places() {
    let f = Formatter {
        decimal_places: Some(4),
        ..Default::default()
    };
    assert_eq!(f.format(Decimal::new(123456, 4), &USD), Ok("$12.3456".to_string()));
}

#[test]
fn format_unterminated_token() {
    let f = Formatter {
        positive_template: "{a} {s|c",
        ..Default::default()
    };
    assert_eq!(
        f.format(Decimal::new(1, 0), &USD),
        Err(FormatError::UnterminatedToken("s|c".to_string()))
    );
    let g = Formatter {
        positive_template: "{",
        ..Default::default()
    };
    assert_eq!(g.format(Decimal::new(1, 0), &USD), Err(FormatError::UnterminatedToken(String::new())));
}

#[test]
fn format_every_token_with_and_without_symbol() {
    let f = Formatter {
        positive_template: "{a}|{s}|{c}|{s|c}|{s|c_}|{s|_c}|{_c|s}",
        ..Default::default()
    };
    assert_eq!(
        f.format(Decimal::new(5, 0), &USD),
        Ok("5.00|$|USD|$|$|$|$".to_string())
    );
    assert_eq!(
        f.format(Decimal::new(5, 0), &XXX),
        Ok("5||XXX|XXX|XXX | XXX| XXX".to_string())
    );
}

#[test]
fn format_scenario_code_fallback() {
    let f = Formatter {
        decimal_places: Some(2),
        ..Default::default()
    };
    assert_eq!(f.format(Decimal::new(123400, 2), &XXX), Ok("XXX 1,234.00".to_string()));
}

#[test]
fn format_zero_falls_back_to_positive_template() {
    assert_eq!(Formatter::default().format(Decimal::new(0, 2), &USD), Ok("$0.00".to_string()));
}

#[test]
fn format_amount_uniform_grouping_of_two() {
    let f = Formatter {
        digit_grouping: 2,
        ..Default::default()
    };
    assert_eq!(f.format_amount(Decimal::new(1234567, 0), 0), "1,23,45,67".to_string());
}

#[test]
fn format_amount_strategies_on_ties() {
    let even = Formatter::default();
    let toward_zero = Formatter {
        rounding_strategy: RoundingStrategy::MidpointTowardZero,
        ..Default::default()
    };
    assert_eq!(even.format_amount(Decimal::new(1555, 3), 2), "1.56".to_string());
    assert_eq!(toward_zero.format_amount(Decimal::new(1555, 3), 2), "1.55".to_string());
}
