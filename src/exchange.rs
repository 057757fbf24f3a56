//! Conversion of an amount into another currency at a fixed rate.
use crate::currency::{str_eq, Currency, DynCurrency};
use crate::decimal::{decimal_product, Decimal};
use crate::money::Money;
use vstd::prelude::*;

verus! {

/// The rate at which amounts in the `from` currency become amounts in the
/// `to` currency: one unit of `from` is `rate` units of `to`.
#[derive(Clone, Copy, Debug)]
pub struct ExchangeRate<F, T> {
    pub from: F,
    pub to: T,
    pub rate: Decimal,
}

impl<F: Currency, T: Currency> ExchangeRate<F, T> {
    pub fn new(from: F, to: T, rate: Decimal) -> (r: Self)
        ensures
            r.from == from,
            r.to == to,
            r.rate@ == rate@,
    {
        ExchangeRate { from, to, rate }
    }
}

/// Errors of converting a value whose currency is checked at run time.
#[derive(Clone, Copy, Debug, PartialEq)]
pub enum MoneyConversionError {
    /// The rate's `from` code, then the value's code, which differ.
    IncorrectExchangeRate(&'static str, &'static str),
}

impl<C: Currency + Copy> Money<C> {
    /// The amount times the rate, in the rate's `to` currency.
    pub fn convert<T: Currency + Copy>(&self, exchange_rate: &ExchangeRate<C, T>) -> (r: Money<T>)
        requires
            decimal_product(self.spec_amount(), exchange_rate.rate@) is Some,
        ensures
            Some(r.spec_amount()) == decimal_product(self.spec_amount(), exchange_rate.rate@),
            r.spec_currency() == exchange_rate.to,
    {
        let amount = self.amount();
        match amount.checked_mul(&exchange_rate.rate) {
            Some(a) => Money::new(a, exchange_rate.to),
            None => {
                proof {
                    assert(false);
                }
                Money::new(amount, exchange_rate.to)
            },
        }
    }

    /// As [`Money::convert`], or `None` where the product does not fit.
    pub fn checked_convert<T: Currency + Copy>(&self, exchange_rate: &ExchangeRate<C, T>) -> (r: Option<Money<T>>)
        ensures
            r is Some <==> decimal_product(self.spec_amount(), exchange_rate.rate@) is Some,
            r matches Some(m) ==> Some(m.spec_amount()) == decimal_product(
                self.spec_amount(),
                exchange_rate.rate@,
            ) && m.spec_currency() == exchange_rate.to,
    {
        match self.amount().checked_mul(&exchange_rate.rate) {
            Some(_) => Some(self.convert(exchange_rate)),
            None => None,
        }
    }
}

impl Money<DynCurrency> {
    /// Where this value's code is the rate's `from` code, the amount times
    /// the rate in the rate's `to` currency; otherwise an error naming the
    /// rate's `from` code and this value's code.
    pub fn convert<F: Currency, T: Currency + Copy>(&self, exchange_rate: &ExchangeRate<F, T>) -> (r: Result<
        Money<T>,
        MoneyConversionError,
    >)
        requires
            self.spec_currency().code@ == F::spec_code() ==> decimal_product(
                self.spec_amount(),
                exchange_rate.rate@,
            ) is Some,
        ensures
            match r {
                Ok(m) => self.spec_currency().code@ == F::spec_code() && Some(m.spec_amount())
                    == decimal_product(self.spec_amount(), exchange_rate.rate@) && m.spec_currency()
                    == exchange_rate.to,
                Err(MoneyConversionError::IncorrectExchangeRate(a, b)) => self.spec_currency().code@
                    != F::spec_code() && a@ == F::spec_code() && b@ == self.spec_currency().code@,
            },
    {
        let currency = self.currency();
        let from_code = exchange_rate.from.code();
        if str_eq(currency.code, from_code) {
            let amount = self.amount();
            match amount.checked_mul(&exchange_rate.rate) {
                Some(a) => Ok(Money::new(a, exchange_rate.to)),
                None => {
                    proof {
                        assert(false);
                    }
                    Err(MoneyConversionError::IncorrectExchangeRate(from_code, currency.code))
                },
            }
        } else {
            Err(MoneyConversionError::IncorrectExchangeRate(from_code, currency.code))
        }
    }
}

} // verus!
