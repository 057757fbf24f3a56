//! A base-10 number with an explicit scale: `mantissa × 10^-scale`.
//!
//! The arithmetic itself is done by `rust_decimal`; this type holds the same
//! value as plain integers so that contracts can speak about it.
use rust_decimal::MathematicalOps;
use rust_decimal::RoundingStrategy as OutsideRounding;
use vstd::prelude::*;

verus! {

/// The largest magnitude of a mantissa: 2^96 - 1.
pub const MAX_MANTISSA: i128 = 79228162514264337593543950335;

/// The largest number of fractional digits.
pub const MAX_SCALE: u32 = 28;

/// 10 raised to `n`.
pub open spec fn pow10(n: nat) -> int
    decreases n,
{
    if n == 0 {
        1
    } else {
        10 * pow10((n - 1) as nat)
    }
}

pub proof fn lemma_pow10_positive(n: nat)
    ensures
        pow10(n) >= 1,
    decreases n,
{
    if n > 0 {
        lemma_pow10_positive((n - 1) as nat);
    }
}

pub proof fn lemma_pow10_add(a: nat, b: nat)
    ensures
        pow10(a + b) == pow10(a) * pow10(b),
    decreases b,
{
    if b > 0 {
        lemma_pow10_add(a, (b - 1) as nat);
        assert(pow10(a + b) == 10 * pow10((a + b - 1) as nat));
        assert(pow10(a) * pow10(b) == pow10(a) * (10 * pow10((b - 1) as nat)));
        assert(pow10(a) * (10 * pow10((b - 1) as nat)) == 10 * (pow10(a) * pow10((b - 1) as nat)))
            by (nonlinear_arith);
    }
}

pub open spec fn abs(x: int) -> int {
    if x < 0 {
        -x
    } else {
        x
    }
}

/// `a` and `b`, read as `mantissa × 10^-scale`, are the same number.
pub open spec fn same_value(a: (int, nat), b: (int, nat)) -> bool {
    a.0 * pow10(b.1) == b.0 * pow10(a.1)
}

/// `a`, read as `mantissa × 10^-scale`, is smaller than `b`.
pub open spec fn less_value(a: (int, nat), b: (int, nat)) -> bool {
    a.0 * pow10(b.1) < b.0 * pow10(a.1)
}

/// The ways of settling which neighbour a rounded number takes.
#[derive(Clone, Copy, Debug, PartialEq, Eq, Structural)]
pub enum RoundingStrategy {
    /// Halfway cases go to the even neighbour ("banker's rounding").
    MidpointNearestEven,
    /// Halfway cases go away from zero.
    MidpointAwayFromZero,
    /// Halfway cases go toward zero.
    MidpointTowardZero,
    /// Always toward zero (truncation).
    ToZero,
    /// Always away from zero.
    AwayFromZero,
    /// Always toward negative infinity.
    ToNegativeInfinity,
    /// Always toward positive infinity.
    ToPositiveInfinity,
}

/// The magnitude after rounding, where `q` is the magnitude with the dropped
/// digits cut off, `r` those dropped digits as a number and `unit` the power of
/// ten that was divided out.
pub open spec fn rounded_magnitude(
    q: int,
    r: int,
    unit: int,
    negative: bool,
    strategy: RoundingStrategy,
) -> int {
    let half = unit / 2;
    let up = match strategy {
        RoundingStrategy::MidpointNearestEven => r > half || (r == half && q % 2 == 1),
        RoundingStrategy::MidpointAwayFromZero => r >= half,
        RoundingStrategy::MidpointTowardZero => r > half,
        RoundingStrategy::ToZero => false,
        RoundingStrategy::AwayFromZero => r != 0,
        RoundingStrategy::ToNegativeInfinity => negative && r != 0,
        RoundingStrategy::ToPositiveInfinity => !negative && r != 0,
    };
    if up {
        q + 1
    } else {
        q
    }
}

/// `d` rounded to `dp` fractional digits: unchanged when it has no more than
/// `dp` of them, otherwise a mantissa at scale `dp`.
pub open spec fn rounded(d: (int, nat), dp: nat, strategy: RoundingStrategy) -> (int, nat) {
    if d.1 <= dp {
        d
    } else {
        let unit = pow10((d.1 - dp) as nat);
        let m = rounded_magnitude(abs(d.0) / unit, abs(d.0) % unit, unit, d.0 < 0, strategy);
        (if d.0 < 0 {
            -m
        } else {
            m
        }, dp)
    }
}

/// The character of a digit below ten.
pub open spec fn digit_char(n: int) -> char {
    if n == 0 {
        '0'
    } else if n == 1 {
        '1'
    } else if n == 2 {
        '2'
    } else if n == 3 {
        '3'
    } else if n == 4 {
        '4'
    } else if n == 5 {
        '5'
    } else if n == 6 {
        '6'
    } else if n == 7 {
        '7'
    } else if n == 8 {
        '8'
    } else {
        '9'
    }
}

/// Every character of `s` is a decimal digit.
pub open spec fn all_digits(s: Seq<char>) -> bool {
    forall|k: int| 0 <= k < s.len() ==> '0' <= #[trigger] s[k] <= '9'
}

pub proof fn lemma_digits_are_digits(n: nat)
    ensures
        all_digits(digits(n)),
        digits(n).len() >= 1,
    decreases n,
{
    if n >= 10 {
        lemma_digits_are_digits(n / 10);
        assert(all_digits(digits(n))) by {
            let d = digits(n / 10);
            assert(digits(n) == d + seq![digit_char((n % 10) as int)]);
            assert forall|k: int| 0 <= k < digits(n).len() implies '0' <= #[trigger] digits(n)[k] <= '9' by {
                if k < d.len() {
                    assert(digits(n)[k] == d[k]);
                }
            }
        }
    }
}

pub proof fn lemma_padded_digits_are_digits(n: nat, width: nat)
    ensures
        all_digits(padded_digits(n, width)),
        padded_digits(n, width).len() == width,
    decreases width,
{
    if width > 0 {
        lemma_padded_digits_are_digits(n / 10, (width - 1) as nat);
        let d = padded_digits(n / 10, (width - 1) as nat);
        assert forall|k: int| 0 <= k < padded_digits(n, width).len() implies '0' <= #[trigger] padded_digits(
            n,
            width,
        )[k] <= '9' by {
            if k < d.len() {
                assert(padded_digits(n, width)[k] == d[k]);
            }
        }
    }
}

/// `n` in decimal digits, without leading zeros ("0" for zero).
pub open spec fn digits(n: nat) -> Seq<char>
    decreases n,
{
    if n < 10 {
        seq![digit_char(n as int)]
    } else {
        digits(n / 10) + seq![digit_char((n % 10) as int)]
    }
}

/// The last `width` decimal digits of `n`, with leading zeros.
pub open spec fn padded_digits(n: nat, width: nat) -> Seq<char>
    decreases width,
{
    if width == 0 {
        Seq::empty()
    } else {
        padded_digits(n / 10, (width - 1) as nat) + seq![digit_char((n % 10) as int)]
    }
}

/// The canonical text of `d`: a sign for negative numbers, the whole digits,
/// and, for a positive scale, a point and exactly `scale` fractional digits.
pub open spec fn decimal_text(d: (int, nat)) -> Seq<char> {
    let a = abs(d.0);
    let unit = pow10(d.1);
    let sign: Seq<char> = if d.0 < 0 {
        seq!['-']
    } else {
        Seq::empty()
    };
    let frac: Seq<char> = if d.1 == 0 {
        Seq::empty()
    } else {
        seq!['.'] + padded_digits((a % unit) as nat, d.1)
    };
    sign + digits((a / unit) as nat) + frac
}

/// `d` with its mantissa multiplied by ten, one digit at a time, while the
/// scale is below `scale` and the mantissa stays within 96 bits.
pub open spec fn scaled_up(d: (int, nat), scale: nat) -> (int, nat)
    decreases scale - d.1,
{
    if d.1 >= scale || abs(d.0 * 10) > MAX_MANTISSA {
        d
    } else {
        scaled_up((d.0 * 10, d.1 + 1), scale)
    }
}

/// What rust_decimal's `checked_add` gives for two decimals.
pub uninterp spec fn decimal_sum(a: (int, nat), b: (int, nat)) -> Option<(int, nat)>;

/// What rust_decimal's `checked_sub` gives for two decimals.
pub uninterp spec fn decimal_difference(a: (int, nat), b: (int, nat)) -> Option<(int, nat)>;

/// What rust_decimal's `checked_mul` gives for two decimals.
pub uninterp spec fn decimal_product(a: (int, nat), b: (int, nat)) -> Option<(int, nat)>;

/// What rust_decimal's `checked_div` gives for two decimals.
pub uninterp spec fn decimal_quotient(a: (int, nat), b: (int, nat)) -> Option<(int, nat)>;

/// What rust_decimal's `checked_rem` gives for two decimals.
pub uninterp spec fn decimal_remainder(a: (int, nat), b: (int, nat)) -> Option<(int, nat)>;

/// What rust_decimal's `checked_powi` gives for a decimal and an exponent.
pub uninterp spec fn decimal_power(a: (int, nat), exponent: int) -> Option<(int, nat)>;

/// The view of an optional decimal.
pub open spec fn opt_view(d: Option<Decimal>) -> Option<(int, nat)> {
    match d {
        Some(x) => Some(x@),
        None => None,
    }
}

/// A signed decimal number, `mantissa × 10^-scale`, with a mantissa of at
/// most 96 bits and a scale of at most 28.
#[derive(Clone, Copy, Debug)]
pub struct Decimal {
    mantissa: i128,
    scale: u32,
}

impl View for Decimal {
    type V = (int, nat);

    closed spec fn view(&self) -> (int, nat) {
        (self.mantissa as int, self.scale as nat)
    }
}

/// Relies on rust_decimal's `Decimal::checked_add`.
#[verifier::external_body]
fn rd_checked_add(a: Decimal, b: Decimal) -> (r: Option<Decimal>)
    ensures
        opt_view(r) == decimal_sum(a@, b@),
{
    let x = rust_decimal::Decimal::from_i128_with_scale(a.mantissa, a.scale);
    let y = rust_decimal::Decimal::from_i128_with_scale(b.mantissa, b.scale);
    match x.checked_add(y) {
        Some(d) => Some(Decimal { mantissa: d.mantissa(), scale: d.scale() }),
        None => None,
    }
}

/// Relies on rust_decimal's `Decimal::checked_sub`.
#[verifier::external_body]
fn rd_checked_sub(a: Decimal, b: Decimal) -> (r: Option<Decimal>)
    ensures
        opt_view(r) == decimal_difference(a@, b@),
{
    let x = rust_decimal::Decimal::from_i128_with_scale(a.mantissa, a.scale);
    let y = rust_decimal::Decimal::from_i128_with_scale(b.mantissa, b.scale);
    match x.checked_sub(y) {
        Some(d) => Some(Decimal { mantissa: d.mantissa(), scale: d.scale() }),
        None => None,
    }
}

/// Relies on rust_decimal's `Decimal::checked_mul`.
#[verifier::external_body]
fn rd_checked_mul(a: Decimal, b: Decimal) -> (r: Option<Decimal>)
    ensures
        opt_view(r) == decimal_product(a@, b@),
{
    let x = rust_decimal::Decimal::from_i128_with_scale(a.mantissa, a.scale);
    let y = rust_decimal::Decimal::from_i128_with_scale(b.mantissa, b.scale);
    match x.checked_mul(y) {
        Some(d) => Some(Decimal { mantissa: d.mantissa(), scale: d.scale() }),
        None => None,
    }
}

/// Relies on rust_decimal's `Decimal::checked_div`.
#[verifier::external_body]
fn rd_checked_div(a: Decimal, b: Decimal) -> (r: Option<Decimal>)
    ensures
        opt_view(r) == decimal_quotient(a@, b@),
{
    let x = rust_decimal::Decimal::from_i128_with_scale(a.mantissa, a.scale);
    let y = rust_decimal::Decimal::from_i128_with_scale(b.mantissa, b.scale);
    match x.checked_div(y) {
        Some(d) => Some(Decimal { mantissa: d.mantissa(), scale: d.scale() }),
        None => None,
    }
}

/// Relies on rust_decimal's `Decimal::checked_rem`.
#[verifier::external_body]
fn rd_checked_rem(a: Decimal, b: Decimal) -> (r: Option<Decimal>)
    ensures
        opt_view(r) == decimal_remainder(a@, b@),
{
    let x = rust_decimal::Decimal::from_i128_with_scale(a.mantissa, a.scale);
    let y = rust_decimal::Decimal::from_i128_with_scale(b.mantissa, b.scale);
    match x.checked_rem(y) {
        Some(d) => Some(Decimal { mantissa: d.mantissa(), scale: d.scale() }),
        None => None,
    }
}

/// Relies on rust_decimal's `MathematicalOps::checked_powi`.
#[verifier::external_body]
fn rd_checked_powi(a: Decimal, exponent: i64) -> (r: Option<Decimal>)
    ensures
        opt_view(r) == decimal_power(a@, exponent as int),
{
    let x = rust_decimal::Decimal::from_i128_with_scale(a.mantissa, a.scale);
    match x.checked_powi(exponent) {
        Some(d) => Some(Decimal { mantissa: d.mantissa(), scale: d.scale() }),
        None => None,
    }
}

/// Relies on rust_decimal's `Decimal::round_dp_with_strategy`: a number with
/// no more than `dp` fractional digits is returned as it is; otherwise the
/// magnitude is divided by the dropped power of ten and moved up by one where
/// the strategy asks for it, at scale `dp`.
#[verifier::external_body]
fn rd_round_dp(a: Decimal, dp: u32, strategy: RoundingStrategy) -> (r: Decimal)
    ensures
        r@ == rounded(a@, dp as nat, strategy),
{
    let s = match strategy {
        RoundingStrategy::MidpointNearestEven => OutsideRounding::MidpointNearestEven,
        RoundingStrategy::MidpointAwayFromZero => OutsideRounding::MidpointAwayFromZero,
        RoundingStrategy::MidpointTowardZero => OutsideRounding::MidpointTowardZero,
        RoundingStrategy::ToZero => OutsideRounding::ToZero,
        RoundingStrategy::AwayFromZero => OutsideRounding::AwayFromZero,
        RoundingStrategy::ToNegativeInfinity => OutsideRounding::ToNegativeInfinity,
        RoundingStrategy::ToPositiveInfinity => OutsideRounding::ToPositiveInfinity,
    };
    let d = rust_decimal::Decimal::from_i128_with_scale(a.mantissa, a.scale).round_dp_with_strategy(dp, s);
    Decimal { mantissa: d.mantissa(), scale: d.scale() }
}

/// Relies on rust_decimal's `Decimal::rescale` towards a larger scale: the
/// mantissa is multiplied by as many powers of ten as fit in 96 bits, up to
/// the requested scale.
#[verifier::external_body]
fn rd_rescale_up(a: Decimal, scale: u32) -> (r: Decimal)
    requires
        a@.1 <= scale <= MAX_SCALE,
    ensures
        r@ == scaled_up(a@, scale as nat),
{
    let mut d = rust_decimal::Decimal::from_i128_with_scale(a.mantissa, a.scale);
    d.rescale(scale);
    Decimal { mantissa: d.mantissa(), scale: d.scale() }
}

/// Relies on rust_decimal's `Display for Decimal`: a `-` for a negative
/// number, the whole digits, then a point and `scale` fractional digits.
#[verifier::external_body]
fn rd_to_string(a: Decimal) -> (r: String)
    ensures
        r@ == decimal_text(a@),
{
    rust_decimal::Decimal::from_i128_with_scale(a.mantissa, a.scale).to_string()
}

/// Relies on rust_decimal's `Ord for Decimal`: the numeric order.
#[verifier::external_body]
fn rd_cmp(a: Decimal, b: Decimal) -> (r: core::cmp::Ordering)
    ensures
        (r == core::cmp::Ordering::Less) == less_value(a@, b@),
        (r == core::cmp::Ordering::Equal) == same_value(a@, b@),
        (r == core::cmp::Ordering::Greater) == less_value(b@, a@),
{
    let x = rust_decimal::Decimal::from_i128_with_scale(a.mantissa, a.scale);
    let y = rust_decimal::Decimal::from_i128_with_scale(b.mantissa, b.scale);
    x.cmp(&y)
}

impl Decimal {
    #[verifier::type_invariant]
    spec fn inv(self) -> bool {
        -MAX_MANTISSA <= self.mantissa <= MAX_MANTISSA && self.scale <= MAX_SCALE
    }

    /// The number `num × 10^-scale`.
    pub fn new(num: i64, scale: u32) -> (r: Decimal)
        requires
            scale <= MAX_SCALE,
        ensures
            r@ == (num as int, scale as nat),
    {
        Decimal { mantissa: num as i128, scale }
    }

    /// The signed mantissa.
    pub fn mantissa(&self) -> (r: i128)
        ensures
            r == self@.0,
    {
        self.mantissa
    }

    /// The number of fractional digits.
    pub fn scale(&self) -> (r: u32)
        ensures
            r == self@.1,
    {
        self.scale
    }

    pub fn is_zero(&self) -> (r: bool)
        ensures
            r == (self@.0 == 0),
    {
        self.mantissa == 0
    }

    /// Zero counts as positive.
    pub fn is_sign_positive(&self) -> (r: bool)
        ensures
            r == (self@.0 >= 0),
    {
        self.mantissa >= 0
    }

    pub fn is_sign_negative(&self) -> (r: bool)
        ensures
            r == (self@.0 < 0),
    {
        self.mantissa < 0
    }

    /// The same magnitude with the other sign.
    pub fn neg(&self) -> (r: Decimal)
        ensures
            r@ == (-self@.0, self@.1),
    {
        proof {
            use_type_invariant(self);
        }
        Decimal { mantissa: -self.mantissa, scale: self.scale }
    }

    /// The sum, or `None` where it does not fit.
    pub fn checked_add(&self, other: &Decimal) -> (r: Option<Decimal>)
        ensures
            opt_view(r) == decimal_sum(self@, other@),
    {
        rd_checked_add(*self, *other)
    }

    /// The difference, or `None` where it does not fit.
    pub fn checked_sub(&self, other: &Decimal) -> (r: Option<Decimal>)
        ensures
            opt_view(r) == decimal_difference(self@, other@),
    {
        rd_checked_sub(*self, *other)
    }

    /// The product, or `None` where it does not fit.
    pub fn checked_mul(&self, other: &Decimal) -> (r: Option<Decimal>)
        ensures
            opt_view(r) == decimal_product(self@, other@),
    {
        rd_checked_mul(*self, *other)
    }

    /// The quotient, or `None` for a zero divisor or where it does not fit.
    pub fn checked_div(&self, other: &Decimal) -> (r: Option<Decimal>)
        ensures
            opt_view(r) == decimal_quotient(self@, other@),
    {
        rd_checked_div(*self, *other)
    }

    /// The remainder, or `None` for a zero divisor or where it does not fit.
    pub fn checked_rem(&self, other: &Decimal) -> (r: Option<Decimal>)
        ensures
            opt_view(r) == decimal_remainder(self@, other@),
    {
        rd_checked_rem(*self, *other)
    }

    /// `self` raised to an integer power, or `None` where it does not fit.
    pub fn checked_powi(&self, exponent: i64) -> (r: Option<Decimal>)
        ensures
            opt_view(r) == decimal_power(self@, exponent as int),
    {
        rd_checked_powi(*self, exponent)
    }

    /// Rounded to `dp` fractional digits with the given strategy.
    pub fn round_dp_with_strategy(&self, dp: u32, strategy: RoundingStrategy) -> (r: Decimal)
        ensures
            r@ == rounded(self@, dp as nat, strategy),
    {
        rd_round_dp(*self, dp, strategy)
    }

    /// The same number with `scale` fractional digits, or as many as fit.
    pub fn rescale_up(&self, scale: u32) -> (r: Decimal)
        requires
            self@.1 <= scale <= MAX_SCALE,
        ensures
            r@ == scaled_up(self@, scale as nat),
    {
        rd_rescale_up(*self, scale)
    }

    /// The canonical text, such as `-12.30`.
    pub fn to_string(&self) -> (r: String)
        ensures
            r@ == decimal_text(self@),
    {
        rd_to_string(*self)
    }

    /// The numeric order of `self` and `other`.
    pub fn cmp(&self, other: &Decimal) -> (r: core::cmp::Ordering)
        ensures
            (r == core::cmp::Ordering::Less) == less_value(self@, other@),
            (r == core::cmp::Ordering::Equal) == same_value(self@, other@),
            (r == core::cmp::Ordering::Greater) == less_value(other@, self@),
    {
        rd_cmp(*self, *other)
    }
}

impl PartialEq for Decimal {
    fn eq(&self, other: &Decimal) -> (r: bool) {
        match rd_cmp(*self, *other) {
            core::cmp::Ordering::Equal => true,
            _ => false,
        }
    }
}

impl vstd::std_specs::cmp::PartialEqSpecImpl for Decimal {
    open spec fn obeys_eq_spec() -> bool {
        true
    }

    open spec fn eq_spec(&self, other: &Decimal) -> bool {
        same_value(self@, other@)
    }
}

} // verus!
