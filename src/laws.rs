//! Properties that relate several operations of the library.
use crate::currency::{Currency, DynCurrency};
use crate::decimal::{
    abs, digit_char, digits, lemma_pow10_add, lemma_pow10_positive, padded_digits, pow10, rounded,
    RoundingStrategy,
};
use crate::formatter::{close_index, grouped, rendered, token_value, zeros, Formatter, TokenFault};
use crate::money::{checked_outcome, Money, MoneyMathError, Operation};
use vstd::prelude::*;

verus! {

/// Rounding an amount that is already rounded to `places` digits to
/// `places` digits again, with any strategy, leaves it unchanged.
pub proof fn law_rounding_is_idempotent(
    d: (int, nat),
    places: nat,
    first: RoundingStrategy,
    second: RoundingStrategy,
)
    ensures
        rounded(rounded(d, places, first), places, second) == rounded(d, places, first),
{
}

/// A static left operand with a run-time right operand, and a run-time left
/// operand with a static right operand, holding the same amounts and codes,
/// agree: both succeed exactly when the codes match, and then with the same
/// amount; only the kind of currency of the result, the left operand's,
/// differs.
pub proof fn law_mixed_operands_agree<C: Currency, D: Currency>(
    op: Operation,
    static_left: Money<C>,
    dynamic_right: Money<DynCurrency>,
    static_result: Result<Money<C>, MoneyMathError>,
    dynamic_left: Money<DynCurrency>,
    static_right: Money<D>,
    dynamic_result: Result<Money<DynCurrency>, MoneyMathError>,
)
    requires
        dynamic_left.spec_amount() == static_left.spec_amount(),
        dynamic_left.spec_currency().code@ == C::spec_code(),
        dynamic_right.spec_amount() == static_right.spec_amount(),
        dynamic_right.spec_currency().code@ == D::spec_code(),
        checked_outcome(
            static_result,
            op,
            static_left.spec_amount(),
            static_left.spec_currency(),
            C::spec_code(),
            dynamic_right.spec_amount(),
            dynamic_right.spec_currency().code@,
        ),
        checked_outcome(
            dynamic_result,
            op,
            dynamic_left.spec_amount(),
            dynamic_left.spec_currency(),
            dynamic_left.spec_currency().code@,
            static_right.spec_amount(),
            D::spec_code(),
        ),
    ensures
        static_result is Ok <==> C::spec_code() == D::spec_code(),
        dynamic_result is Ok <==> C::spec_code() == D::spec_code(),
        static_result is Ok ==> static_result->Ok_0.spec_amount() == dynamic_result->Ok_0.spec_amount(),
        static_result is Ok ==> static_result->Ok_0.spec_currency() == static_left.spec_currency(),
        dynamic_result is Ok ==> dynamic_result->Ok_0.spec_currency() == dynamic_left.spec_currency(),
{
}

pub proof fn lemma_close_index_past(t: Seq<char>, j: int, k: int)
    requires
        0 <= j <= k < t.len(),
        t[k] == '}',
        forall|m: int| j <= m < k ==> t[m] != '}',
    ensures
        close_index(t, j) == Some(k),
    decreases k - j,
{
    if j < k {
        lemma_close_index_past(t, j + 1, k);
    }
}

pub proof fn lemma_close_index_none(t: Seq<char>, j: int)
    requires
        0 <= j <= t.len(),
        forall|m: int| j <= m < t.len() ==> t[m] != '}',
    ensures
        close_index(t, j) is None,
    decreases t.len() - j,
{
    if j < t.len() {
        lemma_close_index_none(t, j + 1);
    }
}

/// A template made of one token in braces renders as the token's value,
/// or fails as an invalid token where the token is unknown; with or
/// without a currency symbol alike.
pub proof fn law_single_token(token: Seq<char>, amount: Seq<char>, symbol: Seq<char>, code: Seq<char>)
    requires
        forall|m: int| 0 <= m < token.len() ==> token[m] != '}',
    ensures
        rendered(seq!['{'] + token + seq!['}'], 0, amount, symbol, code) == match token_value(
            token,
            amount,
            symbol,
            code,
        ) {
            Some(v) => Ok::<Seq<char>, TokenFault>(v),
            None => Err(TokenFault::Invalid(token)),
        },
{
    let t = seq!['{'] + token + seq!['}'];
    let k = token.len() as int + 1;
    assert forall|m: int| 1 <= m < k implies t[m] != '}' by {
        assert(t[m] == token[m - 1]);
    }
    lemma_close_index_past(t, 1, k);
    assert(t.subrange(1, k) == token);
    assert(rendered(t, k + 1, amount, symbol, code) == Ok::<Seq<char>, TokenFault>(Seq::empty()));
    match token_value(token, amount, symbol, code) {
        Some(v) => {
            assert(v + Seq::<char>::empty() == v);
        },
        None => {},
    }
}

/// A `{` with no `}` after it fails as an unterminated token that carries
/// the rest of the template.
pub proof fn law_unterminated_token(rest: Seq<char>, amount: Seq<char>, symbol: Seq<char>, code: Seq<char>)
    requires
        forall|m: int| 0 <= m < rest.len() ==> rest[m] != '}',
    ensures
        rendered(seq!['{'] + rest, 0, amount, symbol, code) == Err::<Seq<char>, TokenFault>(
            TokenFault::Unterminated(rest),
        ),
{
    let t = seq!['{'] + rest;
    assert forall|m: int| 1 <= m < t.len() implies t[m] != '}' by {
        assert(t[m] == rest[m - 1]);
    }
    lemma_close_index_none(t, 1);
    assert(t.subrange(1, t.len() as int) == rest);
}

/// The groups that [`grouped`] joins, from left to right.
pub open spec fn group_chunks(w: Seq<char>, sizes: Seq<usize>) -> Seq<Seq<char>>
    decreases sizes.len(),
{
    if sizes.len() == 0 || sizes[0] >= w.len() {
        seq![w]
    } else {
        let cut = w.len() - sizes[0];
        group_chunks(w.subrange(0, cut), sizes.drop_first()).push(w.subrange(cut, w.len() as int))
    }
}

/// `chunks` with `sep` between each two.
pub open spec fn join(chunks: Seq<Seq<char>>, sep: Seq<char>) -> Seq<char>
    decreases chunks.len(),
{
    if chunks.len() == 0 {
        Seq::empty()
    } else if chunks.len() == 1 {
        chunks[0]
    } else {
        join(chunks.drop_last(), sep) + sep + chunks.last()
    }
}

/// `chunks` put together with nothing between them.
pub open spec fn flatten(chunks: Seq<Seq<char>>) -> Seq<char>
    decreases chunks.len(),
{
    if chunks.len() == 0 {
        Seq::empty()
    } else {
        flatten(chunks.drop_last()) + chunks.last()
    }
}

/// The value of a decimal digit character.
pub open spec fn char_value(c: char) -> int {
    (c as u32) - 48
}

/// The number that a string of decimal digits reads as.
pub open spec fn digits_value(s: Seq<char>) -> int
    decreases s.len(),
{
    if s.len() == 0 {
        0
    } else {
        10 * digits_value(s.drop_last()) + char_value(s.last())
    }
}

pub proof fn lemma_group_chunks(w: Seq<char>, sizes: Seq<usize>, sep: Seq<char>)
    ensures
        grouped(w, sizes, sep) == join(group_chunks(w, sizes), sep),
        flatten(group_chunks(w, sizes)) == w,
        group_chunks(w, sizes).len() >= 1,
    decreases sizes.len(),
{
    if sizes.len() == 0 || sizes[0] >= w.len() {
        assert(seq![w].drop_last() == Seq::<Seq<char>>::empty());
        assert(seq![w].last() == w);
        assert(flatten(Seq::<Seq<char>>::empty()) == Seq::<char>::empty());
        assert(flatten(seq![w]) == flatten(Seq::<Seq<char>>::empty()) + w);
        assert(Seq::<char>::empty() + w == w);
    } else {
        let cut = w.len() - sizes[0];
        let left = w.subrange(0, cut);
        let right = w.subrange(cut, w.len() as int);
        lemma_group_chunks(left, sizes.drop_first(), sep);
        let c = group_chunks(left, sizes.drop_first());
        assert(c.push(right).drop_last() == c);
        assert(c.push(right).last() == right);
        assert(flatten(c.push(right)) == flatten(c) + right);
        assert(left + right == w);
    }
}

pub proof fn lemma_digit_char_value(k: int)
    requires
        0 <= k < 10,
    ensures
        char_value(digit_char(k)) == k,
{
}

pub proof fn lemma_value_concat(a: Seq<char>, b: Seq<char>)
    ensures
        digits_value(a + b) == digits_value(a) * pow10(b.len()) + digits_value(b),
    decreases b.len(),
{
    if b.len() == 0 {
        assert(a + b == a);
    } else {
        let b0 = b.drop_last();
        lemma_value_concat(a, b0);
        assert((a + b).drop_last() == a + b0);
        assert((a + b).last() == b.last());
        let x = digits_value(a);
        let y = digits_value(b0);
        let p = pow10(b0.len());
        assert(pow10(b.len()) == 10 * p);
        assert(10 * (x * p + y) + char_value(b.last()) == x * (10 * p) + (10 * y + char_value(b.last())))
            by (nonlinear_arith);
    }
}

pub proof fn lemma_value_digits(n: nat)
    ensures
        digits_value(digits(n)) == n,
    decreases n,
{
    if n < 10 {
        lemma_digit_char_value(n as int);
        assert(seq![digit_char(n as int)].drop_last() == Seq::<char>::empty());
        assert(seq![digit_char(n as int)].last() == digit_char(n as int));
        assert(digits(n) == seq![digit_char(n as int)]);
        assert(digits_value(Seq::<char>::empty()) == 0);
        assert(digits_value(seq![digit_char(n as int)]) == 10 * digits_value(Seq::<char>::empty()) + char_value(
            digit_char(n as int),
        ));
    } else {
        lemma_value_digits(n / 10);
        lemma_digit_char_value((n % 10) as int);
        let d = digits(n / 10);
        assert((d + seq![digit_char((n % 10) as int)]).drop_last() == d);
        assert((d + seq![digit_char((n % 10) as int)]).last() == digit_char((n % 10) as int));
        assert(10 * (n / 10) + n % 10 == n);
        assert(digits(n) == d + seq![digit_char((n % 10) as int)]);
        assert(digits_value(digits(n)) == 10 * digits_value(d) + char_value(digit_char((n % 10) as int)));
    }
}

pub proof fn lemma_value_padded(n: nat, width: nat)
    ensures
        digits_value(padded_digits(n, width)) == (n as int) % pow10(width),
    decreases width,
{
    if width > 0 {
        lemma_value_padded(n / 10, (width - 1) as nat);
        lemma_digit_char_value((n % 10) as int);
        let d = padded_digits(n / 10, (width - 1) as nat);
        assert((d + seq![digit_char((n % 10) as int)]).drop_last() == d);
        let p = pow10((width - 1) as nat);
        lemma_pow10_positive((width - 1) as nat);
        assert(pow10(width) == 10 * p);
        vstd::arithmetic::div_mod::lemma_mod_breakdown(n as int, 10, p);
    }
}

pub proof fn lemma_value_zeros(k: nat)
    ensures
        digits_value(zeros(k)) == 0,
    decreases k,
{
    if k > 0 {
        lemma_value_zeros((k - 1) as nat);
        assert(zeros(k).drop_last() == zeros((k - 1) as nat));
    }
}

/// The amount text of [`Formatter::format_amount`] is its digit groups joined
/// by the group separator, then the decimal separator (for a positive number
/// of places) and the fractional digits. The groups put back together are
/// the whole digits, and those followed by the fractional digits read as the
/// magnitude of the rounded amount at exactly that number of places.
pub proof fn law_grouping_round_trip(f: Formatter, amount: (int, nat), default_places: u32)
    ensures
        ({
            let dp = f.places(default_places);
            let x = rounded(amount, dp as nat, f.rounding_strategy);
            let a = abs(x.0);
            let unit = pow10(x.1);
            let whole = digits((a / unit) as nat);
            let frac: Seq<char> = if x.1 == 0 {
                Seq::empty()
            } else {
                padded_digits((a % unit) as nat, x.1)
            };
            let fraction = frac + zeros((dp - x.1) as nat);
            let chunks = group_chunks(whole, f.group_sizes(whole.len()));
            let sep: Seq<char> = if dp > 0 {
                f.decimal_separator@
            } else {
                Seq::empty()
            };
            &&& f.amount_text(amount, default_places) == join(chunks, f.digit_group_separator@) + sep + fraction
            &&& flatten(chunks) == whole
            &&& fraction.len() == dp
            &&& digits_value(flatten(chunks) + fraction) == a * pow10((dp - x.1) as nat)
        }),
{
    let dp = f.places(default_places);
    let x = rounded(amount, dp as nat, f.rounding_strategy);
    let a = abs(x.0);
    let unit = pow10(x.1);
    let whole = digits((a / unit) as nat);
    let frac: Seq<char> = if x.1 == 0 {
        Seq::empty()
    } else {
        padded_digits((a % unit) as nat, x.1)
    };
    let fraction = frac + zeros((dp - x.1) as nat);
    let sizes = f.group_sizes(whole.len());
    let sep: Seq<char> = if dp > 0 {
        f.decimal_separator@
    } else {
        Seq::empty()
    };
    assert(x.1 <= dp);
    lemma_pow10_positive(x.1);
    lemma_group_chunks(whole, sizes, f.digit_group_separator@);
    let g = grouped(whole, sizes, f.digit_group_separator@);
    assert(g + sep + frac + zeros((dp - x.1) as nat) == g + sep + fraction);
    crate::decimal::lemma_padded_digits_are_digits((a % unit) as nat, x.1);
    let r = a % unit;
    let q = a / unit;
    if x.1 == 0 {
        assert(r == 0);
        assert(frac.len() == 0);
    } else {
        lemma_value_padded((a % unit) as nat, x.1);
        assert(r % unit == r) by {
            vstd::arithmetic::div_mod::lemma_mod_twice(a, unit);
        }
    }
    assert(digits_value(frac) == r);
    lemma_value_digits(q as nat);
    lemma_value_zeros((dp - x.1) as nat);
    lemma_value_concat(frac, zeros((dp - x.1) as nat));
    lemma_value_concat(whole, fraction);
    lemma_pow10_add(x.1, (dp - x.1) as nat);
    let z = pow10((dp - x.1) as nat);
    assert(a == q * unit + r) by {
        vstd::arithmetic::div_mod::lemma_fundamental_div_mod(a, unit);
    }
    assert(fraction.len() == dp);
    assert(q * (unit * z) + r * z == a * z) by (nonlinear_arith)
        requires
            a == q * unit + r,
    ;
}

} // verus!
