//! An amount of money in a currency that is either fixed by a marker type
//! (checked by the compiler) or chosen at run time (checked by code).
use crate::currency::{str_eq, Currency, CurrencyOperand, DynCurrency, MinorUnits};
use crate::formatter::{fault_of, FormatError, Formatter, TokenFault};
use crate::decimal::{
    decimal_difference, decimal_power, decimal_product, decimal_quotient, decimal_remainder,
    decimal_sum, decimal_text, less_value, lemma_pow10_add, lemma_pow10_positive, opt_view, pow10,
    rounded, same_value, Decimal, RoundingStrategy, MAX_SCALE,
};
use vstd::prelude::*;

verus! {

/// The binary operations on two amounts.
#[derive(Clone, Copy, Debug, PartialEq, Eq, Structural)]
pub enum Operation {
    Add,
    Sub,
    Mul,
    Div,
    Rem,
}

/// What the decimal operation `op` gives for `a` and `b`.
pub open spec fn operation_result(op: Operation, a: (int, nat), b: (int, nat)) -> Option<(int, nat)> {
    match op {
        Operation::Add => decimal_sum(a, b),
        Operation::Sub => decimal_difference(a, b),
        Operation::Mul => decimal_product(a, b),
        Operation::Div => decimal_quotient(a, b),
        Operation::Rem => decimal_remainder(a, b),
    }
}

fn apply(op: Operation, a: &Decimal, b: &Decimal) -> (r: Option<Decimal>)
    ensures
        opt_view(r) == operation_result(op, a@, b@),
{
    match op {
        Operation::Add => a.checked_add(b),
        Operation::Sub => a.checked_sub(b),
        Operation::Mul => a.checked_mul(b),
        Operation::Div => a.checked_div(b),
        Operation::Rem => a.checked_rem(b),
    }
}

/// Errors of arithmetic on amounts whose currencies are checked at run time.
#[derive(Clone, Copy, Debug, PartialEq)]
pub enum MoneyMathError {
    /// The left and the right operand's currency codes differ.
    IncompatibleCurrencies(&'static str, &'static str),
}

/// The outcome of a checked operation `op` with a left operand of amount
/// `left` and currency `currency` (code `left_code`) and a right operand of
/// amount `right` and code `right_code`: for equal codes the combined amount
/// in the left operand's currency, otherwise an error that names both codes,
/// left first.
pub open spec fn checked_outcome<C>(
    r: Result<Money<C>, MoneyMathError>,
    op: Operation,
    left: (int, nat),
    currency: C,
    left_code: Seq<char>,
    right: (int, nat),
    right_code: Seq<char>,
) -> bool {
    match r {
        Ok(m) => left_code == right_code && Some(m.spec_amount()) == operation_result(op, left, right)
            && m.spec_currency() == currency,
        Err(MoneyMathError::IncompatibleCurrencies(a, b)) => left_code != right_code && a@ == left_code
            && b@ == right_code,
    }
}

/// The ordering of two numbers as `mantissa × 10^-scale`.
pub open spec fn value_order(a: (int, nat), b: (int, nat)) -> core::cmp::Ordering {
    if less_value(a, b) {
        core::cmp::Ordering::Less
    } else if same_value(a, b) {
        core::cmp::Ordering::Equal
    } else {
        core::cmp::Ordering::Greater
    }
}

/// The amount of minor units that `d`, rounded to `minor_units` places, makes,
/// where it fits in 64 bits.
pub open spec fn minor_unit_count(d: (int, nat), minor_units: nat, strategy: RoundingStrategy) -> Option<i64> {
    let x = rounded(d, minor_units, strategy);
    let v = x.0 * pow10((minor_units - x.1) as nat);
    if i64::MIN <= v <= i64::MAX {
        Some(v as i64)
    } else {
        None
    }
}

/// An amount of money in a particular currency. Values are never changed:
/// every operation returns a new one.
#[derive(Clone, Copy, Debug)]
pub struct Money<C> {
    amount: Decimal,
    currency: C,
}

impl<C> Money<C> {
    pub closed spec fn spec_amount(&self) -> (int, nat) {
        self.amount@
    }

    pub closed spec fn spec_currency(&self) -> C {
        self.currency
    }
}

fn combine<L: Copy, R>(
    op: Operation,
    left: Money<L>,
    left_code: &'static str,
    right: Money<R>,
    right_code: &'static str,
) -> (r: Result<Money<L>, MoneyMathError>)
    requires
        left_code@ == right_code@ ==> operation_result(op, left.spec_amount(), right.spec_amount()) is Some,
    ensures
        checked_outcome(r, op, left.spec_amount(), left.spec_currency(), left_code@, right.spec_amount(), right_code@),
{
    if str_eq(left_code, right_code) {
        match apply(op, &left.amount, &right.amount) {
            Some(a) => Ok(Money { amount: a, currency: left.currency }),
            None => {
                proof {
                    assert(false);
                }
                Err(MoneyMathError::IncompatibleCurrencies(left_code, right_code))
            },
        }
    } else {
        Err(MoneyMathError::IncompatibleCurrencies(left_code, right_code))
    }
}

impl<C: Copy> Money<C> {
    /// A value of `amount` in `currency`.
    pub fn new(amount: Decimal, currency: C) -> (r: Self)
        ensures
            r.spec_amount() == amount@,
            r.spec_currency() == currency,
    {
        Money { amount, currency }
    }

    pub fn amount(&self) -> (r: Decimal)
        ensures
            r@ == self.spec_amount(),
    {
        self.amount
    }

    pub fn currency(&self) -> (r: C)
        ensures
            r == self.spec_currency(),
    {
        self.currency
    }

    pub fn is_zero(&self) -> (r: bool)
        ensures
            r == (self.spec_amount().0 == 0),
    {
        self.amount.is_zero()
    }

    /// Zero counts as positive.
    pub fn is_positive(&self) -> (r: bool)
        ensures
            r == (self.spec_amount().0 >= 0),
    {
        self.amount.is_sign_positive()
    }

    pub fn is_negative(&self) -> (r: bool)
        ensures
            r == (self.spec_amount().0 < 0),
    {
        self.amount.is_sign_negative()
    }

    /// The same currency with the amount negated.
    pub fn neg(self) -> (r: Self)
        ensures
            r.spec_amount() == (-self.spec_amount().0, self.spec_amount().1),
            r.spec_currency() == self.spec_currency(),
    {
        Money { amount: self.amount.neg(), currency: self.currency }
    }

    /// The amount raised to an integer power.
    pub fn pow(&self, exponent: i64) -> (r: Self)
        requires
            decimal_power(self.spec_amount(), exponent as int) is Some,
        ensures
            Some(r.spec_amount()) == decimal_power(self.spec_amount(), exponent as int),
            r.spec_currency() == self.spec_currency(),
    {
        match self.amount.checked_powi(exponent) {
            Some(a) => Money { amount: a, currency: self.currency },
            None => {
                proof {
                    assert(false);
                }
                *self
            },
        }
    }

    /// The amount raised to an integer power, or `None` where that does not fit.
    pub fn checked_pow(&self, exponent: i64) -> (r: Option<Self>)
        ensures
            r is Some <==> decimal_power(self.spec_amount(), exponent as int) is Some,
            r matches Some(m) ==> Some(m.spec_amount()) == decimal_power(self.spec_amount(), exponent as int)
                && m.spec_currency() == self.spec_currency(),
    {
        match self.amount.checked_powi(exponent) {
            Some(_) => Some(self.pow(exponent)),
            None => None,
        }
    }

    /// The amount multiplied by a bare number, in the same currency.
    pub fn mul_scalar(&self, factor: Decimal) -> (r: Self)
        requires
            decimal_product(self.spec_amount(), factor@) is Some,
        ensures
            Some(r.spec_amount()) == decimal_product(self.spec_amount(), factor@),
            r.spec_currency() == self.spec_currency(),
    {
        match apply(Operation::Mul, &self.amount, &factor) {
            Some(a) => Money { amount: a, currency: self.currency },
            None => {
                proof {
                    assert(false);
                }
                *self
            },
        }
    }

    /// The amount multiplied by a bare number, or `None` where that is undefined
    /// or does not fit.
    pub fn checked_mul_scalar(&self, factor: Decimal) -> (r: Option<Self>)
        ensures
            r is Some <==> decimal_product(self.spec_amount(), factor@) is Some,
            r matches Some(m) ==> Some(m.spec_amount()) == decimal_product(self.spec_amount(), factor@)
                && m.spec_currency() == self.spec_currency(),
    {
        match apply(Operation::Mul, &self.amount, &factor) {
            Some(_) => Some(self.mul_scalar(factor)),
            None => None,
        }
    }

    /// The amount divided by a bare number, in the same currency.
    pub fn div_scalar(&self, divisor: Decimal) -> (r: Self)
        requires
            decimal_quotient(self.spec_amount(), divisor@) is Some,
        ensures
            Some(r.spec_amount()) == decimal_quotient(self.spec_amount(), divisor@),
            r.spec_currency() == self.spec_currency(),
    {
        match apply(Operation::Div, &self.amount, &divisor) {
            Some(a) => Money { amount: a, currency: self.currency },
            None => {
                proof {
                    assert(false);
                }
                *self
            },
        }
    }

    /// The amount divided by a bare number, or `None` where that is undefined
    /// or does not fit.
    pub fn checked_div_scalar(&self, divisor: Decimal) -> (r: Option<Self>)
        ensures
            r is Some <==> decimal_quotient(self.spec_amount(), divisor@) is Some,
            r matches Some(m) ==> Some(m.spec_amount()) == decimal_quotient(self.spec_amount(), divisor@)
                && m.spec_currency() == self.spec_currency(),
    {
        match apply(Operation::Div, &self.amount, &divisor) {
            Some(_) => Some(self.div_scalar(divisor)),
            None => None,
        }
    }

    /// The amount remainder after division by a bare number, in the same currency.
    pub fn rem_scalar(&self, divisor: Decimal) -> (r: Self)
        requires
            decimal_remainder(self.spec_amount(), divisor@) is Some,
        ensures
            Some(r.spec_amount()) == decimal_remainder(self.spec_amount(), divisor@),
            r.spec_currency() == self.spec_currency(),
    {
        match apply(Operation::Rem, &self.amount, &divisor) {
            Some(a) => Money { amount: a, currency: self.currency },
            None => {
                proof {
                    assert(false);
                }
                *self
            },
        }
    }

    /// The amount remainder after division by a bare number, or `None` where that is undefined
    /// or does not fit.
    pub fn checked_rem_scalar(&self, divisor: Decimal) -> (r: Option<Self>)
        ensures
            r is Some <==> decimal_remainder(self.spec_amount(), divisor@) is Some,
            r matches Some(m) ==> Some(m.spec_amount()) == decimal_remainder(self.spec_amount(), divisor@)
                && m.spec_currency() == self.spec_currency(),
    {
        match apply(Operation::Rem, &self.amount, &divisor) {
            Some(_) => Some(self.rem_scalar(divisor)),
            None => None,
        }
    }

    /// The amount rounded to `decimal_places` fractional digits.
    pub fn round(&self, decimal_places: u32, strategy: RoundingStrategy) -> (r: Self)
        ensures
            r.spec_amount() == rounded(self.spec_amount(), decimal_places as nat, strategy),
            r.spec_currency() == self.spec_currency(),
    {
        Money { amount: self.amount.round_dp_with_strategy(decimal_places, strategy), currency: self.currency }
    }
}

/// Operations between two values of the same static currency, and between a
/// static left operand and any right operand.
impl<C: Currency + Copy> Money<C> {
    /// The sum with any right operand: `Ok` in this currency where the
    /// codes match, otherwise an error naming both codes.
    pub fn try_add<D: CurrencyOperand + Copy>(self, rhs: Money<D>) -> (r: Result<Self, MoneyMathError>)
        requires
            C::spec_code() == rhs.spec_currency().spec_operand_code() ==> decimal_sum(
                self.spec_amount(),
                rhs.spec_amount(),
            ) is Some,
        ensures
            checked_outcome(
                r,
                Operation::Add,
                self.spec_amount(),
                self.spec_currency(),
                C::spec_code(),
                rhs.spec_amount(),
                rhs.spec_currency().spec_operand_code(),
            ),
    {
        combine(Operation::Add, self, Currency::code(&self.currency), rhs, rhs.currency.operand_code())
    }

    /// The sum of two values of this currency.
    pub fn add(self, rhs: Self) -> (r: Self)
        requires
            decimal_sum(self.spec_amount(), rhs.spec_amount()) is Some,
        ensures
            Some(r.spec_amount()) == decimal_sum(self.spec_amount(), rhs.spec_amount()),
            r.spec_currency() == self.spec_currency(),
    {
        match self.try_add(rhs) {
            Ok(m) => m,
            Err(_) => {
                proof {
                    assert(false);
                }
                self
            },
        }
    }

    /// The sum of two values of this currency, or `None` where the
    /// amount does not fit.
    pub fn checked_add(self, rhs: Self) -> (r: Option<Self>)
        ensures
            r is Some <==> decimal_sum(self.spec_amount(), rhs.spec_amount()) is Some,
            r matches Some(m) ==> Some(m.spec_amount()) == decimal_sum(self.spec_amount(), rhs.spec_amount())
                && m.spec_currency() == self.spec_currency(),
    {
        match self.amount.checked_add(&rhs.amount) {
            Some(_) => Some(self.add(rhs)),
            None => None,
        }
    }

    /// The difference with any right operand: `Ok` in this currency where the
    /// codes match, otherwise an error naming both codes.
    pub fn try_sub<D: CurrencyOperand + Copy>(self, rhs: Money<D>) -> (r: Result<Self, MoneyMathError>)
        requires
            C::spec_code() == rhs.spec_currency().spec_operand_code() ==> decimal_difference(
                self.spec_amount(),
                rhs.spec_amount(),
            ) is Some,
        ensures
            checked_outcome(
                r,
                Operation::Sub,
                self.spec_amount(),
                self.spec_currency(),
                C::spec_code(),
                rhs.spec_amount(),
                rhs.spec_currency().spec_operand_code(),
            ),
    {
        combine(Operation::Sub, self, Currency::code(&self.currency), rhs, rhs.currency.operand_code())
    }

    /// The difference of two values of this currency.
    pub fn sub(self, rhs: Self) -> (r: Self)
        requires
            decimal_difference(self.spec_amount(), rhs.spec_amount()) is Some,
        ensures
            Some(r.spec_amount()) == decimal_difference(self.spec_amount(), rhs.spec_amount()),
            r.spec_currency() == self.spec_currency(),
    {
        match self.try_sub(rhs) {
            Ok(m) => m,
            Err(_) => {
                proof {
                    assert(false);
                }
                self
            },
        }
    }

    /// The difference of two values of this currency, or `None` where the
    /// amount does not fit.
    pub fn checked_sub(self, rhs: Self) -> (r: Option<Self>)
        ensures
            r is Some <==> decimal_difference(self.spec_amount(), rhs.spec_amount()) is Some,
            r matches Some(m) ==> Some(m.spec_amount()) == decimal_difference(self.spec_amount(), rhs.spec_amount())
                && m.spec_currency() == self.spec_currency(),
    {
        match self.amount.checked_sub(&rhs.amount) {
            Some(_) => Some(self.sub(rhs)),
            None => None,
        }
    }

    /// The product with any right operand: `Ok` in this currency where the
    /// codes match, otherwise an error naming both codes.
    pub fn try_mul<D: CurrencyOperand + Copy>(self, rhs: Money<D>) -> (r: Result<Self, MoneyMathError>)
        requires
            C::spec_code() == rhs.spec_currency().spec_operand_code() ==> decimal_product(
                self.spec_amount(),
                rhs.spec_amount(),
            ) is Some,
        ensures
            checked_outcome(
                r,
                Operation::Mul,
                self.spec_amount(),
                self.spec_currency(),
                C::spec_code(),
                rhs.spec_amount(),
                rhs.spec_currency().spec_operand_code(),
            ),
    {
        combine(Operation::Mul, self, Currency::code(&self.currency), rhs, rhs.currency.operand_code())
    }

    /// The product of two values of this currency.
    pub fn mul(self, rhs: Self) -> (r: Self)
        requires
            decimal_product(self.spec_amount(), rhs.spec_amount()) is Some,
        ensures
            Some(r.spec_amount()) == decimal_product(self.spec_amount(), rhs.spec_amount()),
            r.spec_currency() == self.spec_currency(),
    {
        match self.try_mul(rhs) {
            Ok(m) => m,
            Err(_) => {
                proof {
                    assert(false);
                }
                self
            },
        }
    }

    /// The product of two values of this currency, or `None` where the
    /// amount does not fit.
    pub fn checked_mul(self, rhs: Self) -> (r: Option<Self>)
        ensures
            r is Some <==> decimal_product(self.spec_amount(), rhs.spec_amount()) is Some,
            r matches Some(m) ==> Some(m.spec_amount()) == decimal_product(self.spec_amount(), rhs.spec_amount())
                && m.spec_currency() == self.spec_currency(),
    {
        match self.amount.checked_mul(&rhs.amount) {
            Some(_) => Some(self.mul(rhs)),
            None => None,
        }
    }

    /// The quotient with any right operand: `Ok` in this currency where the
    /// codes match, otherwise an error naming both codes.
    pub fn try_div<D: CurrencyOperand + Copy>(self, rhs: Money<D>) -> (r: Result<Self, MoneyMathError>)
        requires
            C::spec_code() == rhs.spec_currency().spec_operand_code() ==> decimal_quotient(
                self.spec_amount(),
                rhs.spec_amount(),
            ) is Some,
        ensures
            checked_outcome(
                r,
                Operation::Div,
                self.spec_amount(),
                self.spec_currency(),
                C::spec_code(),
                rhs.spec_amount(),
                rhs.spec_currency().spec_operand_code(),
            ),
    {
        combine(Operation::Div, self, Currency::code(&self.currency), rhs, rhs.currency.operand_code())
    }

    /// The quotient of two values of this currency.
    pub fn div(self, rhs: Self) -> (r: Self)
        requires
            decimal_quotient(self.spec_amount(), rhs.spec_amount()) is Some,
        ensures
            Some(r.spec_amount()) == decimal_quotient(self.spec_amount(), rhs.spec_amount()),
            r.spec_currency() == self.spec_currency(),
    {
        match self.try_div(rhs) {
            Ok(m) => m,
            Err(_) => {
                proof {
                    assert(false);
                }
                self
            },
        }
    }

    /// The quotient of two values of this currency, or `None` where the
    /// amount does not fit.
    pub fn checked_div(self, rhs: Self) -> (r: Option<Self>)
        ensures
            r is Some <==> decimal_quotient(self.spec_amount(), rhs.spec_amount()) is Some,
            r matches Some(m) ==> Some(m.spec_amount()) == decimal_quotient(self.spec_amount(), rhs.spec_amount())
                && m.spec_currency() == self.spec_currency(),
    {
        match self.amount.checked_div(&rhs.amount) {
            Some(_) => Some(self.div(rhs)),
            None => None,
        }
    }

    /// The remainder with any right operand: `Ok` in this currency where the
    /// codes match, otherwise an error naming both codes.
    pub fn try_rem<D: CurrencyOperand + Copy>(self, rhs: Money<D>) -> (r: Result<Self, MoneyMathError>)
        requires
            C::spec_code() == rhs.spec_currency().spec_operand_code() ==> decimal_remainder(
                self.spec_amount(),
                rhs.spec_amount(),
            ) is Some,
        ensures
            checked_outcome(
                r,
                Operation::Rem,
                self.spec_amount(),
                self.spec_currency(),
                C::spec_code(),
                rhs.spec_amount(),
                rhs.spec_currency().spec_operand_code(),
            ),
    {
        combine(Operation::Rem, self, Currency::code(&self.currency), rhs, rhs.currency.operand_code())
    }

    /// The remainder of two values of this currency.
    pub fn rem(self, rhs: Self) -> (r: Self)
        requires
            decimal_remainder(self.spec_amount(), rhs.spec_amount()) is Some,
        ensures
            Some(r.spec_amount()) == decimal_remainder(self.spec_amount(), rhs.spec_amount()),
            r.spec_currency() == self.spec_currency(),
    {
        match self.try_rem(rhs) {
            Ok(m) => m,
            Err(_) => {
                proof {
                    assert(false);
                }
                self
            },
        }
    }

    /// The remainder of two values of this currency, or `None` where the
    /// amount does not fit.
    pub fn checked_rem(self, rhs: Self) -> (r: Option<Self>)
        ensures
            r is Some <==> decimal_remainder(self.spec_amount(), rhs.spec_amount()) is Some,
            r matches Some(m) ==> Some(m.spec_amount()) == decimal_remainder(self.spec_amount(), rhs.spec_amount())
                && m.spec_currency() == self.spec_currency(),
    {
        match self.amount.checked_rem(&rhs.amount) {
            Some(_) => Some(self.rem(rhs)),
            None => None,
        }
    }
}

/// Operations with a run-time currency on the left, checked by code.
impl Money<DynCurrency> {
    /// The sum with any right operand: `Ok` in the left operand's
    /// currency where the codes match, otherwise an error naming both codes.
    pub fn add<D: CurrencyOperand + Copy>(self, rhs: Money<D>) -> (r: Result<Self, MoneyMathError>)
        requires
            self.spec_currency().code@ == rhs.spec_currency().spec_operand_code() ==> decimal_sum(
                self.spec_amount(),
                rhs.spec_amount(),
            ) is Some,
        ensures
            checked_outcome(
                r,
                Operation::Add,
                self.spec_amount(),
                self.spec_currency(),
                self.spec_currency().code@,
                rhs.spec_amount(),
                rhs.spec_currency().spec_operand_code(),
            ),
    {
        combine(Operation::Add, self, self.currency.code, rhs, rhs.currency.operand_code())
    }

    /// The difference with any right operand: `Ok` in the left operand's
    /// currency where the codes match, otherwise an error naming both codes.
    pub fn sub<D: CurrencyOperand + Copy>(self, rhs: Money<D>) -> (r: Result<Self, MoneyMathError>)
        requires
            self.spec_currency().code@ == rhs.spec_currency().spec_operand_code() ==> decimal_difference(
                self.spec_amount(),
                rhs.spec_amount(),
            ) is Some,
        ensures
            checked_outcome(
                r,
                Operation::Sub,
                self.spec_amount(),
                self.spec_currency(),
                self.spec_currency().code@,
                rhs.spec_amount(),
                rhs.spec_currency().spec_operand_code(),
            ),
    {
        combine(Operation::Sub, self, self.currency.code, rhs, rhs.currency.operand_code())
    }

    /// The product with any right operand: `Ok` in the left operand's
    /// currency where the codes match, otherwise an error naming both codes.
    pub fn mul<D: CurrencyOperand + Copy>(self, rhs: Money<D>) -> (r: Result<Self, MoneyMathError>)
        requires
            self.spec_currency().code@ == rhs.spec_currency().spec_operand_code() ==> decimal_product(
                self.spec_amount(),
                rhs.spec_amount(),
            ) is Some,
        ensures
            checked_outcome(
                r,
                Operation::Mul,
                self.spec_amount(),
                self.spec_currency(),
                self.spec_currency().code@,
                rhs.spec_amount(),
                rhs.spec_currency().spec_operand_code(),
            ),
    {
        combine(Operation::Mul, self, self.currency.code, rhs, rhs.currency.operand_code())
    }

    /// The quotient with any right operand: `Ok` in the left operand's
    /// currency where the codes match, otherwise an error naming both codes.
    pub fn div<D: CurrencyOperand + Copy>(self, rhs: Money<D>) -> (r: Result<Self, MoneyMathError>)
        requires
            self.spec_currency().code@ == rhs.spec_currency().spec_operand_code() ==> decimal_quotient(
                self.spec_amount(),
                rhs.spec_amount(),
            ) is Some,
        ensures
            checked_outcome(
                r,
                Operation::Div,
                self.spec_amount(),
                self.spec_currency(),
                self.spec_currency().code@,
                rhs.spec_amount(),
                rhs.spec_currency().spec_operand_code(),
            ),
    {
        combine(Operation::Div, self, self.currency.code, rhs, rhs.currency.operand_code())
    }

    /// The remainder with any right operand: `Ok` in the left operand's
    /// currency where the codes match, otherwise an error naming both codes.
    pub fn rem<D: CurrencyOperand + Copy>(self, rhs: Money<D>) -> (r: Result<Self, MoneyMathError>)
        requires
            self.spec_currency().code@ == rhs.spec_currency().spec_operand_code() ==> decimal_remainder(
                self.spec_amount(),
                rhs.spec_amount(),
            ) is Some,
        ensures
            checked_outcome(
                r,
                Operation::Rem,
                self.spec_amount(),
                self.spec_currency(),
                self.spec_currency().code@,
                rhs.spec_amount(),
                rhs.spec_currency().spec_operand_code(),
            ),
    {
        combine(Operation::Rem, self, self.currency.code, rhs, rhs.currency.operand_code())
    }
}

/// Operations that read the currency's number of minor units.
impl<C: MinorUnits + Copy> Money<C> {
    /// A value of `minor_units` minor units of `currency`: for 2 minor units,
    /// 100 of them make 1.
    pub fn from_minor_units(minor_units: i64, currency: C) -> (r: Self)
        requires
            currency.spec_minor_unit_count() <= MAX_SCALE,
        ensures
            r.spec_amount() == (minor_units as int, currency.spec_minor_unit_count() as nat),
            r.spec_currency() == currency,
    {
        let scale = currency.minor_units();
        Money { amount: Decimal::new(minor_units, scale), currency }
    }

    /// The amount rounded to the currency's number of minor units.
    pub fn round_to_currency_precision(&self, strategy: RoundingStrategy) -> (r: Self)
        ensures
            r.spec_amount() == rounded(
                self.spec_amount(),
                self.spec_currency().spec_minor_unit_count() as nat,
                strategy,
            ),
            r.spec_currency() == self.spec_currency(),
    {
        let places = self.currency.minor_units();
        self.round(places, strategy)
    }

    /// The amount, rounded to the currency's minor units, as a count of minor
    /// units; `None` where that count does not fit in 64 bits.
    pub fn to_minor_units(&self, strategy: RoundingStrategy) -> (r: Option<i64>)
        ensures
            r == minor_unit_count(
                self.spec_amount(),
                self.spec_currency().spec_minor_unit_count() as nat,
                strategy,
            ),
    {
        let places = self.currency.minor_units();
        let x = self.amount.round_dp_with_strategy(places, strategy);
        let ghost v = x@.0 * pow10((places - x@.1) as nat);
        let scale = x.scale();
        let mut cur: i128 = x.mantissa();
        let mut k: u32 = scale;
        proof {
            lemma_pow10_positive((places - scale) as nat);
        }
        while k < places
            invariant
                scale <= k <= places,
                x@.1 == scale,
                scale <= places,
                x@ == rounded(self.spec_amount(), places as nat, strategy),
                places == self.spec_currency().spec_minor_unit_count(),
                cur as int == x@.0 * pow10((k - scale) as nat),
                v == x@.0 * pow10((places - scale) as nat),
                k > scale ==> -92233720368547758080 <= cur <= 92233720368547758070,
            decreases places - k,
        {
            if cur < -9223372036854775808 || cur > 9223372036854775807 {
                proof {
                    lemma_pow10_add((k - scale) as nat, (places - k) as nat);
                    lemma_pow10_positive((places - k) as nat);
                    let p = pow10((places - k) as nat);
                    assert(v == cur * p) by (nonlinear_arith)
                        requires
                            v == x@.0 * pow10((places - scale) as nat),
                            pow10((places - scale) as nat) == pow10((k - scale) as nat) * p,
                            cur as int == x@.0 * pow10((k - scale) as nat),
                    ;
                    assert(cur > 0 ==> v >= cur) by (nonlinear_arith)
                        requires v == cur * p, p >= 1;
                    assert(cur < 0 ==> v <= cur) by (nonlinear_arith)
                        requires v == cur * p, p >= 1;
                    assert(x@ == rounded(self.spec_amount(), places as nat, strategy));
                    assert(!(i64::MIN <= v <= i64::MAX));
                }
                return None;
            }
            proof {
                let a = pow10((k - scale) as nat);
                assert(pow10((k + 1 - scale) as nat) == 10 * a);
                assert(cur * 10 == x@.0 * (10 * a)) by (nonlinear_arith)
                    requires
                        cur as int == x@.0 * a,
                ;
            }
            cur = cur * 10;
            k = k + 1;
        }
        if cur < -9223372036854775808 || cur > 9223372036854775807 {
            None
        } else {
            Some(cur as i64)
        }
    }
}

/// Plain rendering, shared by both kinds of currency.
impl<C: CurrencyOperand + Copy> Money<C> {
    /// The amount's canonical text, a space and the currency code, such as
    /// `1000 USD`.
    pub fn to_string(&self) -> (r: String)
        ensures
            r@ == decimal_text(self.spec_amount()) + seq![' '] + self.spec_currency().spec_operand_code(),
    {
        let mut s = self.amount.to_string();
        let space = " ";
        proof {
            reveal_strlit(" ");
        }
        s.append(space);
        s.append(self.currency.operand_code());
        s
    }
}

/// Values of one static currency are equal when their amounts are.
impl<C: Currency> PartialEq for Money<C> {
    fn eq(&self, other: &Self) -> (r: bool) {
        self.amount == other.amount
    }
}

impl<C: Currency> vstd::std_specs::cmp::PartialEqSpecImpl for Money<C> {
    open spec fn obeys_eq_spec() -> bool {
        true
    }

    open spec fn eq_spec(&self, other: &Self) -> bool {
        same_value(self.spec_amount(), other.spec_amount())
    }
}

/// Values of run-time currencies are equal when amounts and codes are.
impl PartialEq for Money<DynCurrency> {
    fn eq(&self, other: &Self) -> (r: bool) {
        self.amount == other.amount && str_eq(self.currency.code, other.currency.code)
    }
}

impl vstd::std_specs::cmp::PartialEqSpecImpl for Money<DynCurrency> {
    open spec fn obeys_eq_spec() -> bool {
        true
    }

    open spec fn eq_spec(&self, other: &Self) -> bool {
        same_value(self.spec_amount(), other.spec_amount()) && self.spec_currency().code@
            == other.spec_currency().code@
    }
}

/// A static and a run-time value are equal when amounts and codes are.
impl<C: Currency> PartialEq<Money<DynCurrency>> for Money<C> {
    fn eq(&self, other: &Money<DynCurrency>) -> (r: bool) {
        self.amount == other.amount && str_eq(Currency::code(&self.currency), other.currency.code)
    }
}

impl<C: Currency> vstd::std_specs::cmp::PartialEqSpecImpl<Money<DynCurrency>> for Money<C> {
    open spec fn obeys_eq_spec() -> bool {
        true
    }

    open spec fn eq_spec(&self, other: &Money<DynCurrency>) -> bool {
        same_value(self.spec_amount(), other.spec_amount()) && C::spec_code() == other.spec_currency().code@
    }
}

/// A run-time and a static value are equal when amounts and codes are.
impl<C: Currency> PartialEq<Money<C>> for Money<DynCurrency> {
    fn eq(&self, other: &Money<C>) -> (r: bool) {
        self.amount == other.amount && str_eq(self.currency.code, Currency::code(&other.currency))
    }
}

impl<C: Currency> vstd::std_specs::cmp::PartialEqSpecImpl<Money<C>> for Money<DynCurrency> {
    open spec fn obeys_eq_spec() -> bool {
        true
    }

    open spec fn eq_spec(&self, other: &Money<C>) -> bool {
        same_value(self.spec_amount(), other.spec_amount()) && self.spec_currency().code@ == C::spec_code()
    }
}

/// Values of one static currency are ordered by amount.
impl<C: Currency> PartialOrd for Money<C> {
    fn partial_cmp(&self, other: &Self) -> (r: Option<core::cmp::Ordering>) {
        Some(self.amount.cmp(&other.amount))
    }
}

impl<C: Currency> vstd::std_specs::cmp::PartialOrdSpecImpl for Money<C> {
    open spec fn obeys_partial_cmp_spec() -> bool {
        true
    }

    open spec fn partial_cmp_spec(&self, other: &Self) -> Option<core::cmp::Ordering> {
        Some(value_order(self.spec_amount(), other.spec_amount()))
    }
}

/// Values of run-time currencies are ordered by amount where the codes
/// match, and incomparable otherwise.
impl PartialOrd for Money<DynCurrency> {
    fn partial_cmp(&self, other: &Self) -> (r: Option<core::cmp::Ordering>) {
        if str_eq(self.currency.code, other.currency.code) {
            Some(self.amount.cmp(&other.amount))
        } else {
            None
        }
    }
}

impl vstd::std_specs::cmp::PartialOrdSpecImpl for Money<DynCurrency> {
    open spec fn obeys_partial_cmp_spec() -> bool {
        true
    }

    open spec fn partial_cmp_spec(&self, other: &Self) -> Option<core::cmp::Ordering> {
        if self.spec_currency().code@ == other.spec_currency().code@ {
            Some(value_order(self.spec_amount(), other.spec_amount()))
        } else {
            None
        }
    }
}

/// Rendering through a [`Formatter`], shared by both kinds of currency.
impl<C: CurrencyOperand + MinorUnits + Copy> Money<C> {
    /// This value rendered by `formatter` in its currency.
    pub fn format(&self, formatter: Formatter) -> (r: Result<String, FormatError>)
        requires
            formatter.wf(),
        ensures
            match r {
                Ok(s) => formatter.rendering(
                    self.spec_amount(),
                    self.spec_currency().spec_operand_symbol(),
                    self.spec_currency().spec_operand_code(),
                    self.spec_currency().spec_minor_unit_count(),
                ) == Ok::<Seq<char>, TokenFault>(s@),
                Err(e) => formatter.rendering(
                    self.spec_amount(),
                    self.spec_currency().spec_operand_symbol(),
                    self.spec_currency().spec_operand_code(),
                    self.spec_currency().spec_minor_unit_count(),
                ) == Err::<Seq<char>, TokenFault>(fault_of(e)),
            },
    {
        formatter.format(self.amount, &self.currency)
    }
}

} // verus!
