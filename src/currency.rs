//! What a currency is: a code, a count of minor units, a symbol, a name and a
//! numeric code; and the run-time handle that stands for any one of them.
use vstd::prelude::*;

verus! {

/// Common trait for all currencies.
pub trait Currency {
    spec fn spec_code() -> Seq<char>;

    spec fn spec_minor_units() -> u32;

    spec fn spec_symbol() -> Seq<char>;

    spec fn spec_name() -> Seq<char>;

    spec fn spec_numeric_code() -> u32;

    /// The unique alphabetic code of the currency, such as "USD".
    fn code(&self) -> (r: &'static str)
        ensures
            r@ == Self::spec_code(),
    ;

    /// The number of fractional digits customarily used.
    fn minor_units(&self) -> (r: u32)
        ensures
            r == Self::spec_minor_units(),
    ;

    /// The symbol, such as "$", or an empty string where there is none.
    fn symbol(&self) -> (r: &'static str)
        ensures
            r@ == Self::spec_symbol(),
    ;

    /// The informal name.
    fn name(&self) -> (r: &'static str)
        ensures
            r@ == Self::spec_name(),
    ;

    /// The unique numeric code.
    fn numeric_code(&self) -> (r: u32)
        ensures
            r == Self::spec_numeric_code(),
    ;
}

/// Whether two strings hold the same characters.
pub(crate) fn str_eq(a: &str, b: &str) -> (r: bool)
    ensures
        r == (a@ == b@),
{
    let n = a.unicode_len();
    if n != b.unicode_len() {
        return false;
    }
    let mut i: usize = 0;
    while i < n
        invariant
            n == a@.len(),
            n == b@.len(),
            i <= n,
            a@.subrange(0, i as int) == b@.subrange(0, i as int),
        decreases n - i,
    {
        if a.get_char(i) != b.get_char(i) {
            assert(a@[i as int] != b@[i as int]);
            return false;
        }
        assert(a@.subrange(0, i + 1) == a@.subrange(0, i as int).push(a@[i as int]));
        assert(b@.subrange(0, i + 1) == b@.subrange(0, i as int).push(b@[i as int]));
        i = i + 1;
    }
    assert(a@ == a@.subrange(0, n as int));
    assert(b@ == b@.subrange(0, n as int));
    true
}

/// A currency chosen at run time. Two handles stand for the same currency
/// when their codes match.
#[derive(Clone, Copy, Debug)]
pub struct DynCurrency {
    pub code: &'static str,
    pub minor_units: u32,
    pub symbol: &'static str,
    pub name: &'static str,
    pub numeric_code: u32,
}

impl DynCurrency {
    /// The handle for a statically known currency.
    pub fn of<C: Currency>(currency: &C) -> (r: DynCurrency)
        ensures
            r.code@ == C::spec_code(),
            r.minor_units == C::spec_minor_units(),
            r.symbol@ == C::spec_symbol(),
            r.name@ == C::spec_name(),
            r.numeric_code == C::spec_numeric_code(),
    {
        DynCurrency {
            code: currency.code(),
            minor_units: currency.minor_units(),
            symbol: currency.symbol(),
            name: currency.name(),
            numeric_code: currency.numeric_code(),
        }
    }

    pub fn code(&self) -> (r: &'static str)
        ensures
            r@ == self.code@,
    {
        self.code
    }

    pub fn symbol(&self) -> (r: &'static str)
        ensures
            r@ == self.symbol@,
    {
        self.symbol
    }

    pub fn name(&self) -> (r: &'static str)
        ensures
            r@ == self.name@,
    {
        self.name
    }

    pub fn numeric_code(&self) -> (r: u32)
        ensures
            r == self.numeric_code,
    {
        self.numeric_code
    }
}

impl PartialEq for DynCurrency {
    fn eq(&self, other: &DynCurrency) -> (r: bool) {
        str_eq(self.code, other.code)
    }
}

impl vstd::std_specs::cmp::PartialEqSpecImpl for DynCurrency {
    open spec fn obeys_eq_spec() -> bool {
        true
    }

    open spec fn eq_spec(&self, other: &DynCurrency) -> bool {
        self.code@ == other.code@
    }
}

/// Access to the number of minor units, for static currencies and run-time
/// handles alike.
pub trait MinorUnits {
    spec fn spec_minor_unit_count(&self) -> u32;

    fn minor_units(&self) -> (r: u32)
        ensures
            r == self.spec_minor_unit_count(),
    ;
}

impl<C: Currency> MinorUnits for C {
    open spec fn spec_minor_unit_count(&self) -> u32 {
        Self::spec_minor_units()
    }

    fn minor_units(&self) -> (r: u32) {
        Currency::minor_units(self)
    }
}

/// What arithmetic, comparison and formatting read of a currency operand,
/// whether a static marker or a run-time handle: its code and its symbol.
pub trait CurrencyOperand {
    spec fn spec_operand_code(&self) -> Seq<char>;

    spec fn spec_operand_symbol(&self) -> Seq<char>;

    fn operand_code(&self) -> (r: &'static str)
        ensures
            r@ == self.spec_operand_code(),
    ;

    fn operand_symbol(&self) -> (r: &'static str)
        ensures
            r@ == self.spec_operand_symbol(),
    ;
}

impl<C: Currency> CurrencyOperand for C {
    open spec fn spec_operand_code(&self) -> Seq<char> {
        C::spec_code()
    }

    open spec fn spec_operand_symbol(&self) -> Seq<char> {
        C::spec_symbol()
    }

    fn operand_code(&self) -> (r: &'static str) {
        Currency::code(self)
    }

    fn operand_symbol(&self) -> (r: &'static str) {
        Currency::symbol(self)
    }
}

impl CurrencyOperand for DynCurrency {
    open spec fn spec_operand_code(&self) -> Seq<char> {
        self.code@
    }

    open spec fn spec_operand_symbol(&self) -> Seq<char> {
        self.symbol@
    }

    fn operand_code(&self) -> (r: &'static str) {
        self.code
    }

    fn operand_symbol(&self) -> (r: &'static str) {
        self.symbol
    }
}

impl MinorUnits for DynCurrency {
    open spec fn spec_minor_unit_count(&self) -> u32 {
        self.minor_units
    }

    fn minor_units(&self) -> (r: u32) {
        self.minor_units
    }
}

} // verus!
