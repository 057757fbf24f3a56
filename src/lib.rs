//! Monetary amounts paired with a currency, with checked arithmetic across
//! statically and dynamically chosen currencies, and a template formatter.
pub mod currency;
pub mod currency_map;
pub mod decimal;
pub mod exchange;
pub mod formatter;
pub mod iso_currencies;
pub mod laws;
pub mod locale;
pub mod money;

pub use currency::{Currency, CurrencyOperand, DynCurrency, MinorUnits};
pub use decimal::{Decimal, RoundingStrategy};
pub use money::{Money, MoneyMathError};
