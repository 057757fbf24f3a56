//! Locale-aware rendering, following the CLDR conventions of a locale, done
//! by icu's currency formatter.
use crate::currency::{CurrencyOperand, MinorUnits};
use crate::decimal::{decimal_text, rounded, scaled_up, RoundingStrategy, MAX_SCALE};
use crate::money::Money;
use icu::experimental::dimension::currency::formatter::CurrencyFormatter;
use icu::experimental::dimension::currency::options::CurrencyFormatterOptions;
use icu::experimental::dimension::currency::CurrencyCode;
use vstd::prelude::*;

verus! {

/// What icu's currency formatter, with its compiled CLDR data, renders for
/// a locale identifier, an amount text and a currency code; `None` where the
/// locale, the amount or the code does not parse, or no formatter can be made.
pub uninterp spec fn cldr_currency_text(locale: Seq<char>, amount: Seq<char>, code: Seq<char>) -> Option<
    Seq<char>,
>;

/// Relies on icu's `CurrencyFormatter::try_new` and `format_fixed_decimal`,
/// after parsing the locale, the amount and the three-letter code.
#[verifier::external_body]
fn cldr_format(locale: &str, amount: &str, code: &str) -> (r: Option<String>)
    ensures
        match r {
            Some(s) => cldr_currency_text(locale@, amount@, code@) == Some(s@),
            None => cldr_currency_text(locale@, amount@, code@) is None,
        },
{
    let loc = icu::locale::Locale::try_from_str(locale).ok()?;
    let code = CurrencyCode(tinystr::TinyAsciiStr::<3>::try_from_str(code).ok()?);
    let value = icu::decimal::input::Decimal::try_from_str(amount).ok()?;
    let formatter = CurrencyFormatter::try_new((&loc).into(), CurrencyFormatterOptions::default()).ok()?;
    Some(formatter.format_fixed_decimal(&value, code).to_string())
}

/// How an amount is prepared for locale-aware rendering.
#[derive(Clone, Copy, Debug)]
pub struct FormattingOptions {
    /// The number of fractional digits shown, also for zero digits.
    pub decimal_places: u32,
    /// How the amount is rounded to those digits.
    pub rounding_strategy: RoundingStrategy,
}

/// The amount text handed to the locale formatter: the amount rounded to
/// `places` digits and then written with `places` fractional digits.
pub open spec fn locale_amount_text(amount: (int, nat), places: nat, strategy: RoundingStrategy) -> Seq<char> {
    decimal_text(scaled_up(rounded(amount, places, strategy), places))
}

impl<C: CurrencyOperand + MinorUnits + Copy> Money<C> {
    /// This value in the conventions of `locale` (such as "en-US"), with the
    /// currency's minor units as places and banker's rounding.
    pub fn format_locale(&self, locale: &str) -> (r: Option<String>)
        requires
            self.spec_currency().spec_minor_unit_count() <= MAX_SCALE,
        ensures
            match r {
                Some(s) => cldr_currency_text(
                    locale@,
                    locale_amount_text(
                        self.spec_amount(),
                        self.spec_currency().spec_minor_unit_count() as nat,
                        RoundingStrategy::MidpointNearestEven,
                    ),
                    self.spec_currency().spec_operand_code(),
                ) == Some(s@),
                None => cldr_currency_text(
                    locale@,
                    locale_amount_text(
                        self.spec_amount(),
                        self.spec_currency().spec_minor_unit_count() as nat,
                        RoundingStrategy::MidpointNearestEven,
                    ),
                    self.spec_currency().spec_operand_code(),
                ) is None,
            },
    {
        let options = FormattingOptions {
            decimal_places: self.currency().minor_units(),
            rounding_strategy: RoundingStrategy::MidpointNearestEven,
        };
        self.format_locale_with_options(locale, options)
    }

    /// This value in the conventions of `locale`, prepared as `options` say.
    pub fn format_locale_with_options(&self, locale: &str, options: FormattingOptions) -> (r: Option<String>)
        requires
            options.decimal_places <= MAX_SCALE,
        ensures
            match r {
                Some(s) => cldr_currency_text(
                    locale@,
                    locale_amount_text(self.spec_amount(), options.decimal_places as nat, options.rounding_strategy),
                    self.spec_currency().spec_operand_code(),
                ) == Some(s@),
                None => cldr_currency_text(
                    locale@,
                    locale_amount_text(self.spec_amount(), options.decimal_places as nat, options.rounding_strategy),
                    self.spec_currency().spec_operand_code(),
                ) is None,
            },
    {
        let places = options.decimal_places;
        let rounded_amount = self.amount().round_dp_with_strategy(places, options.rounding_strategy);
        let text = rounded_amount.rescale_up(places).to_string();
        cldr_format(locale, text.as_str(), self.currency().operand_code())
    }
}

} // verus!
