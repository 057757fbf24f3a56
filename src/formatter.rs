//! Renders an amount in a currency through templates such as `{s|c_}{a}`:
//! the amount is rounded, its whole digits grouped, its fractional digits
//! padded, and the tokens of the template replaced.
use crate::currency::{CurrencyOperand, MinorUnits};
use crate::decimal::{
    abs, all_digits, digits, lemma_digits_are_digits, lemma_padded_digits_are_digits,
    padded_digits, pow10, rounded, Decimal, RoundingStrategy,
};
use vstd::prelude::*;

verus! {

/// A run of `n` zero characters.
pub open spec fn zeros(n: nat) -> Seq<char> {
    Seq::new(n, |i: int| '0')
}

/// The whole digits `w` split into groups from the right, the first size
/// being the rightmost group, and joined by `sep`. Grouping stops where the
/// remaining digits are no more than the next size; they stay as one group.
pub open spec fn grouped(w: Seq<char>, sizes: Seq<usize>, sep: Seq<char>) -> Seq<char>
    decreases sizes.len(),
{
    if sizes.len() == 0 || sizes[0] >= w.len() {
        w
    } else {
        let cut = w.len() - sizes[0];
        grouped(w.subrange(0, cut), sizes.drop_first(), sep) + sep + w.subrange(cut, w.len() as int)
    }
}

/// An error of template substitution, by the text of the token.
pub enum TokenFault {
    Invalid(Seq<char>),
    Unterminated(Seq<char>),
}

/// The text that `token` (the text between braces) stands for, or `None`
/// for an unknown token.
pub open spec fn token_value(token: Seq<char>, amount: Seq<char>, symbol: Seq<char>, code: Seq<char>) -> Option<
    Seq<char>,
> {
    if token == seq!['a'] {
        Some(amount)
    } else if token == seq!['s'] {
        Some(symbol)
    } else if token == seq!['c'] {
        Some(code)
    } else if token == seq!['s', '|', 'c'] {
        Some(
            if symbol.len() == 0 {
                code
            } else {
                symbol
            },
        )
    } else if token == seq!['s', '|', 'c', '_'] {
        Some(
            if symbol.len() == 0 {
                code + seq![' ']
            } else {
                symbol
            },
        )
    } else if token == seq!['s', '|', '_', 'c'] || token == seq!['_', 'c', '|', 's'] {
        Some(
            if symbol.len() == 0 {
                seq![' '] + code
            } else {
                symbol
            },
        )
    } else {
        None
    }
}

/// The index of the first `}` at or after `j`.
pub open spec fn close_index(t: Seq<char>, j: int) -> Option<int>
    decreases t.len() - j,
{
    if j < 0 || j >= t.len() {
        None
    } else if t[j] == '}' {
        Some(j)
    } else {
        close_index(t, j + 1)
    }
}

pub open spec fn prepend(
    prefix: Seq<char>,
    r: Result<Seq<char>, TokenFault>,
) -> Result<Seq<char>, TokenFault> {
    match r {
        Ok(s) => Ok(prefix + s),
        Err(e) => Err(e),
    }
}

/// The template `t` from index `i` on, with each `{token}` replaced.
pub open spec fn rendered(
    t: Seq<char>,
    i: int,
    amount: Seq<char>,
    symbol: Seq<char>,
    code: Seq<char>,
) -> Result<Seq<char>, TokenFault>
    decreases t.len() - i,
{
    if i < 0 || i >= t.len() {
        Ok(Seq::empty())
    } else if t[i] == '{' {
        match close_index(t, i + 1) {
            None => Err(TokenFault::Unterminated(t.subrange(i + 1, t.len() as int))),
            Some(j) => if i < j < t.len() {
                let token = t.subrange(i + 1, j);
                match token_value(token, amount, symbol, code) {
                    None => Err(TokenFault::Invalid(token)),
                    Some(v) => prepend(v, rendered(t, j + 1, amount, symbol, code)),
                }
            } else {
                Ok(Seq::empty())
            },
        }
    } else {
        prepend(seq![t[i]], rendered(t, i + 1, amount, symbol, code))
    }
}

/// Errors of template substitution.
#[derive(Clone, Debug, PartialEq)]
pub enum FormatError {
    /// A token between braces that is not known, with its text.
    InvalidToken(String),
    /// A `{` without a closing `}`, with the text after it.
    UnterminatedToken(String),
}

pub open spec fn fault_of(e: FormatError) -> TokenFault {
    match e {
        FormatError::InvalidToken(s) => TokenFault::Invalid(s@),
        FormatError::UnterminatedToken(s) => TokenFault::Unterminated(s@),
    }
}

/// Settings of the rendering of amounts.
///
/// The templates may use these tokens:
/// * `{a}`: the amount, rounded and grouped, never with a sign;
/// * `{s}`: the currency symbol, which may be empty;
/// * `{c}`: the currency code;
/// * `{s|c}`: the symbol, or the code where there is no symbol;
/// * `{s|c_}`: as `{s|c}`, but a code is followed by a space;
/// * `{s|_c}` and `{_c|s}`: as `{s|c}`, but a code is preceded by a space.
#[derive(Clone, Debug, PartialEq)]
pub struct Formatter {
    /// The number of fractional digits shown; `None` takes the currency's
    /// minor units.
    pub decimal_places: Option<u32>,
    /// How the amount is rounded to those digits.
    pub rounding_strategy: RoundingStrategy,
    /// Between the whole and the fractional digits.
    pub decimal_separator: &'static str,
    /// The size of every digit group, where `digit_groupings` is `None`.
    pub digit_grouping: usize,
    /// Group sizes from the right; digits left over after the last stay
    /// ungrouped. Takes precedence over `digit_grouping`.
    pub digit_groupings: Option<&'static [usize]>,
    /// Between digit groups.
    pub digit_group_separator: &'static str,
    /// The template for positive amounts.
    pub positive_template: &'static str,
    /// The template for negative amounts.
    pub negative_template: &'static str,
    /// The template for zero; `None` takes the positive template.
    pub zero_template: Option<&'static str>,
}

impl Formatter {
    /// A uniform group size must be positive.
    pub open spec fn wf(&self) -> bool {
        self.digit_groupings is Some || self.digit_grouping > 0
    }

    /// The number of fractional digits shown, given the currency's.
    pub open spec fn places(&self, default_places: u32) -> u32 {
        match self.decimal_places {
            Some(p) => p,
            None => default_places,
        }
    }

    /// The group sizes, from the right, for `len` whole digits.
    pub open spec fn group_sizes(&self, len: nat) -> Seq<usize> {
        match self.digit_groupings {
            Some(g) => g@,
            None => Seq::new(len / (self.digit_grouping as nat) + 1, |i: int| self.digit_grouping),
        }
    }

    /// The rounded amount without a sign: grouped whole digits, then for a
    /// positive number of places the decimal separator and exactly that many
    /// fractional digits.
    pub open spec fn amount_text(&self, amount: (int, nat), default_places: u32) -> Seq<char> {
        let dp = self.places(default_places);
        let x = rounded(amount, dp as nat, self.rounding_strategy);
        let a = abs(x.0);
        let unit = pow10(x.1);
        let whole = digits((a / unit) as nat);
        let frac: Seq<char> = if x.1 == 0 {
            Seq::empty()
        } else {
            padded_digits((a % unit) as nat, x.1)
        };
        let sep: Seq<char> = if dp > 0 {
            self.decimal_separator@
        } else {
            Seq::empty()
        };
        grouped(whole, self.group_sizes(whole.len()), self.digit_group_separator@) + sep + frac + zeros(
            (dp - x.1) as nat,
        )
    }

    /// The template for an amount: zero, positive or negative.
    pub open spec fn template_for(&self, amount: (int, nat)) -> Seq<char> {
        if amount.0 == 0 {
            match self.zero_template {
                Some(z) => z@,
                None => self.positive_template@,
            }
        } else if amount.0 > 0 {
            self.positive_template@
        } else {
            self.negative_template@
        }
    }

    /// The full rendering of `amount` in a currency with the given symbol,
    /// code and minor units.
    pub open spec fn rendering(
        &self,
        amount: (int, nat),
        symbol: Seq<char>,
        code: Seq<char>,
        minor_units: u32,
    ) -> Result<Seq<char>, TokenFault> {
        rendered(self.template_for(amount), 0, self.amount_text(amount, minor_units), symbol, code)
    }
}

/// The characters of `s`.
pub fn chars_of(s: &str) -> (r: Vec<char>)
    ensures
        r@ == s@,
{
    let n = s.unicode_len();
    let mut v: Vec<char> = Vec::new();
    let mut i: usize = 0;
    while i < n
        invariant
            n == s@.len(),
            i <= n,
            v@ == s@.subrange(0, i as int),
        decreases n - i,
    {
        v.push(s.get_char(i));
        assert(s@.subrange(0, i + 1) == s@.subrange(0, i as int).push(s@[i as int]));
        i = i + 1;
    }
    assert(s@.subrange(0, n as int) == s@);
    v
}

/// Appends `src[from..to]` to `out`.
fn extend(out: &mut Vec<char>, src: &Vec<char>, from: usize, to: usize)
    requires
        from <= to <= src@.len(),
    ensures
        final(out)@ == old(out)@ + src@.subrange(from as int, to as int),
{
    let mut k: usize = from;
    while k < to
        invariant
            from <= k <= to,
            to <= src@.len(),
            out@ == old(out)@ + src@.subrange(from as int, k as int),
        decreases to - k,
    {
        out.push(src[k]);
        assert(src@.subrange(from as int, k + 1) == src@.subrange(from as int, k as int).push(src@[k as int]));
        assert(out@ == old(out)@ + src@.subrange(from as int, k + 1));
        k = k + 1;
    }
}

/// Relies on `FromIterator<char> for String`: the characters in order.
#[verifier::external_body]
fn string_from_chars(v: &Vec<char>) -> (r: String)
    ensures
        r@ == v@,
{
    v.iter().collect()
}

fn is_token1(t: &Vec<char>, a: char) -> (r: bool)
    ensures
        r == (t@ == seq![a]),
{
    if t.len() == 1 && t[0] == a {
        assert(t@ == seq![a]);
        true
    } else {
        false
    }
}

fn is_token3(t: &Vec<char>, a: char, b: char, c: char) -> (r: bool)
    ensures
        r == (t@ == seq![a, b, c]),
{
    if t.len() == 3 && t[0] == a && t[1] == b && t[2] == c {
        assert(t@ == seq![a, b, c]);
        true
    } else {
        false
    }
}

fn is_token4(t: &Vec<char>, a: char, b: char, c: char, d: char) -> (r: bool)
    ensures
        r == (t@ == seq![a, b, c, d]),
{
    if t.len() == 4 && t[0] == a && t[1] == b && t[2] == c && t[3] == d {
        assert(t@ == seq![a, b, c, d]);
        true
    } else {
        false
    }
}

/// Appends what `token` stands for to `out`; false for an unknown token.
fn push_token(out: &mut Vec<char>, token: &Vec<char>, amount: &Vec<char>, symbol: &Vec<char>, code: &Vec<char>) -> (r:
    bool)
    ensures
        r == token_value(token@, amount@, symbol@, code@) is Some,
        r ==> final(out)@ == old(out)@ + token_value(token@, amount@, symbol@, code@)->Some_0,
{
    let no_symbol = symbol.len() == 0;
    if is_token1(token, 'a') {
        extend(out, amount, 0, amount.len());
    } else if is_token1(token, 's') {
        extend(out, symbol, 0, symbol.len());
    } else if is_token1(token, 'c') {
        extend(out, code, 0, code.len());
    } else if is_token3(token, 's', '|', 'c') {
        if no_symbol {
            extend(out, code, 0, code.len());
        } else {
            extend(out, symbol, 0, symbol.len());
        }
    } else if is_token4(token, 's', '|', 'c', '_') {
        if no_symbol {
            extend(out, code, 0, code.len());
            out.push(' ');
            assert(out@ == old(out)@ + (code@ + seq![' ']));
        } else {
            extend(out, symbol, 0, symbol.len());
        }
    } else if is_token4(token, 's', '|', '_', 'c') || is_token4(token, '_', 'c', '|', 's') {
        if no_symbol {
            out.push(' ');
            extend(out, code, 0, code.len());
            assert(out@ == old(out)@ + (seq![' '] + code@));
        } else {
            extend(out, symbol, 0, symbol.len());
        }
    } else {
        return false;
    }
    assert(code@.subrange(0, code@.len() as int) == code@);
    assert(symbol@.subrange(0, symbol@.len() as int) == symbol@);
    assert(amount@.subrange(0, amount@.len() as int) == amount@);
    true
}

pub proof fn lemma_prepend_prepend(a: Seq<char>, b: Seq<char>, r: Result<Seq<char>, TokenFault>)
    ensures
        prepend(a, prepend(b, r)) == prepend(a + b, r),
{
    match r {
        Ok(s) => {
            assert(a + (b + s) == (a + b) + s);
        },
        Err(_) => {},
    }
}

impl Formatter {
    /// The rounded amount as grouped digits with a fixed number of fractional
    /// digits, never with a sign: `1,234.50` for -1234.5 and two places.
    pub fn format_amount(&self, amount: Decimal, default_decimal_places: u32) -> (r: String)
        requires
            self.wf(),
        ensures
            r@ == self.amount_text(amount@, default_decimal_places),
    {
        let v = self.amount_chars(amount, default_decimal_places);
        string_from_chars(&v)
    }

    fn amount_chars(&self, amount: Decimal, default_decimal_places: u32) -> (r: Vec<char>)
        requires
            self.wf(),
        ensures
            r@ == self.amount_text(amount@, default_decimal_places),
    {
        let dp = match self.decimal_places {
            Some(p) => p,
            None => default_decimal_places,
        };
        let x = amount.round_dp_with_strategy(dp, self.rounding_strategy);
        let text = x.to_string();
        let t = chars_of(text.as_str());
        let ghost a = abs(x@.0);
        let ghost unit = pow10(x@.1);
        let ghost whole = digits((a / unit) as nat);
        let ghost frac: Seq<char> = if x@.1 == 0 {
            Seq::empty()
        } else {
            padded_digits((a % unit) as nat, x@.1)
        };
        let ghost sign: Seq<char> = if x@.0 < 0 {
            seq!['-']
        } else {
            Seq::empty()
        };
        let ghost rest: Seq<char> = if x@.1 == 0 {
            Seq::empty()
        } else {
            seq!['.'] + frac
        };
        proof {
            lemma_digits_are_digits((a / unit) as nat);
            lemma_padded_digits_are_digits((a % unit) as nat, x@.1);
            assert(t@ == sign + whole + rest);
            assert(x@.1 <= dp);
        }
        // The sign is left to the templates.
        let start: usize = if x.is_sign_negative() {
            1
        } else {
            0
        };
        let mut j: usize = start;
        while j < t.len() && t[j] != '.'
            invariant
                start == sign.len(),
                start <= j <= t.len(),
                t@ == sign + whole + rest,
                all_digits(whole),
                forall|k: int| start <= k < j ==> t@[k] != '.',
            decreases t.len() - j,
        {
            proof {
                if j < start + whole.len() {
                    assert(t@[j as int] == whole[j - start]);
                }
            }
            j = j + 1;
        }
        proof {
            let e = start + whole.len();
            if j < e {
                assert(t@[j as int] == whole[j - start]);
                assert('0' <= whole[j - start] <= '9');
            }
            if j > e {
                assert(t@[e] != '.');
                if x@.1 != 0 {
                    assert(t@[e] == rest[0]);
                }
            }
            assert(j == e);
        }
        let mut w: Vec<char> = Vec::new();
        extend(&mut w, &t, start, j);
        assert(w@ == whole);
        let sizes = self.sizes_for(w.len());
        let sep = chars_of(self.digit_group_separator);
        let mut start_w: usize = w.len();
        let mut tail: Vec<char> = Vec::new();
        let mut k: usize = 0;
        assert(w@.subrange(0, w@.len() as int) == w@);
        assert(sizes@.subrange(0, sizes@.len() as int) == sizes@);
        while k < sizes.len() && sizes[k] < start_w
            invariant
                0 < start_w <= w@.len(),
                k <= sizes@.len(),
                grouped(w@, sizes@, sep@) == grouped(
                    w@.subrange(0, start_w as int),
                    sizes@.subrange(k as int, sizes@.len() as int),
                    sep@,
                ) + tail@,
            decreases sizes@.len() - k,
        {
            let g = sizes[k];
            let cut = start_w - g;
            let ghost ww = w@.subrange(0, start_w as int);
            let ghost ss = sizes@.subrange(k as int, sizes@.len() as int);
            proof {
                assert(ss[0] == g);
                assert(ww.subrange(0, cut as int) == w@.subrange(0, cut as int));
                assert(ss.drop_first() == sizes@.subrange(k + 1, sizes@.len() as int));
                assert(ww.subrange(cut as int, ww.len() as int) == w@.subrange(cut as int, start_w as int));
            }
            let mut next = sep.clone();
            extend(&mut next, &w, cut, start_w);
            extend(&mut next, &tail, 0, tail.len());
            proof {
                assert(tail@.subrange(0, tail@.len() as int) == tail@);
                let head = grouped(w@.subrange(0, cut as int), sizes@.subrange(k + 1, sizes@.len() as int), sep@);
                assert(head + sep@ + w@.subrange(cut as int, start_w as int) + tail@ == head + next@);
            }
            tail = next;
            start_w = cut;
            k = k + 1;
        }
        let mut out: Vec<char> = Vec::new();
        extend(&mut out, &w, 0, start_w);
        extend(&mut out, &tail, 0, tail.len());
        proof {
            assert(tail@.subrange(0, tail@.len() as int) == tail@);
            assert(out@ == grouped(whole, self.group_sizes(whole.len()), self.digit_group_separator@));
        }
        let ghost grouped_part = out@;
        if dp > 0 {
            let ds = chars_of(self.decimal_separator);
            extend(&mut out, &ds, 0, ds.len());
            assert(ds@.subrange(0, ds@.len() as int) == ds@);
        }
        let ghost with_sep = out@;
        if j < t.len() {
            extend(&mut out, &t, j + 1, t.len());
            assert(t@.subrange(j + 1, t@.len() as int) == frac);
        } else {
            assert(x@.1 == 0);
        }
        let ghost with_frac = out@;
        assert(with_frac == with_sep + frac);
        let mut m: u32 = x.scale();
        while m < dp
            invariant
                x@.1 <= m <= dp,
                out@ == with_frac + zeros((m - x@.1) as nat),
            decreases dp - m,
        {
            out.push('0');
            assert(zeros((m + 1 - x@.1) as nat) == zeros((m - x@.1) as nat).push('0'));
            m = m + 1;
        }
        out
    }

    /// The group sizes, from the right, for `len` whole digits.
    fn sizes_for(&self, len: usize) -> (r: Vec<usize>)
        requires
            self.wf(),
        ensures
            r@ == self.group_sizes(len as nat),
    {
        let mut sizes: Vec<usize> = Vec::new();
        match self.digit_groupings {
            Some(g) => {
                let mut k: usize = 0;
                while k < g.len()
                    invariant
                        k <= g@.len(),
                        sizes@ == g@.subrange(0, k as int),
                    decreases g@.len() - k,
                {
                    sizes.push(g[k]);
                    assert(g@.subrange(0, k + 1) == g@.subrange(0, k as int).push(g@[k as int]));
                    k = k + 1;
                }
                assert(g@.subrange(0, g@.len() as int) == g@);
            },
            None => {
                let size = self.digit_grouping;
                let n = len / size;
                let mut k: usize = 0;
                while k < n
                    invariant
                        k <= n,
                        sizes@ == Seq::new(k as nat, |i: int| size),
                    decreases n - k,
                {
                    sizes.push(size);
                    assert(sizes@ == Seq::new((k + 1) as nat, |i: int| size));
                    k = k + 1;
                }
                sizes.push(size);
                assert(sizes@ == Seq::new((n + 1) as nat, |i: int| size));
            },
        }
        sizes
    }

    /// The amount rendered through the template that its sign selects, with
    /// the currency's symbol and code and, unless overridden, its number of
    /// minor units as places.
    pub fn format<C: CurrencyOperand + MinorUnits>(&self, amount: Decimal, currency: &C) -> (r: Result<
        String,
        FormatError,
    >)
        requires
            self.wf(),
        ensures
            match r {
                Ok(s) => self.rendering(
                    amount@,
                    currency.spec_operand_symbol(),
                    currency.spec_operand_code(),
                    currency.spec_minor_unit_count(),
                ) == Ok::<Seq<char>, TokenFault>(s@),
                Err(e) => self.rendering(
                    amount@,
                    currency.spec_operand_symbol(),
                    currency.spec_operand_code(),
                    currency.spec_minor_unit_count(),
                ) == Err::<Seq<char>, TokenFault>(fault_of(e)),
            },
    {
        let places = currency.minor_units();
        let amount_text = self.amount_chars(amount, places);
        let template = if amount.is_zero() {
            match self.zero_template {
                Some(z) => z,
                None => self.positive_template,
            }
        } else if amount.is_sign_positive() {
            self.positive_template
        } else {
            self.negative_template
        };
        let t = chars_of(template);
        let symbol = chars_of(currency.operand_symbol());
        let code = chars_of(currency.operand_code());
        let ghost whole = rendered(t@, 0, amount_text@, symbol@, code@);
        let mut out: Vec<char> = Vec::new();
        let mut i: usize = 0;
        assert(whole == prepend(out@, rendered(t@, 0, amount_text@, symbol@, code@))) by {
            lemma_prepend_empty(rendered(t@, 0, amount_text@, symbol@, code@));
        }
        while i < t.len()
            invariant
                i <= t@.len(),
                whole == self.rendering(
                    amount@,
                    currency.spec_operand_symbol(),
                    currency.spec_operand_code(),
                    currency.spec_minor_unit_count(),
                ),
                whole == prepend(out@, rendered(t@, i as int, amount_text@, symbol@, code@)),
            decreases t@.len() - i,
        {
            if t[i] == '{' {
                let mut j: usize = i + 1;
                while j < t.len() && t[j] != '}'
                    invariant
                        i < j <= t@.len(),
                        close_index(t@, i + 1) == close_index(t@, j as int),
                    decreases t@.len() - j,
                {
                    j = j + 1;
                }
                let mut token: Vec<char> = Vec::new();
                extend(&mut token, &t, i + 1, j);
                if j == t.len() {
                    let e = FormatError::UnterminatedToken(string_from_chars(&token));
                    assert(rendered(t@, i as int, amount_text@, symbol@, code@) == Err::<Seq<char>, TokenFault>(
                        fault_of(e),
                    ));
                    return Err(e);
                }
                let ghost before = out@;
                if !push_token(&mut out, &token, &amount_text, &symbol, &code) {
                    let e = FormatError::InvalidToken(string_from_chars(&token));
                    assert(close_index(t@, i + 1) == Some(j as int));
                    assert(rendered(t@, i as int, amount_text@, symbol@, code@) == Err::<Seq<char>, TokenFault>(
                        fault_of(e),
                    ));
                    return Err(e);
                }
                proof {
                    let v = token_value(token@, amount_text@, symbol@, code@)->Some_0;
                    lemma_prepend_prepend(before, v, rendered(t@, j + 1, amount_text@, symbol@, code@));
                }
                i = j + 1;
            } else {
                let ghost before = out@;
                out.push(t[i]);
                proof {
                    lemma_prepend_prepend(before, seq![t@[i as int]], rendered(t@, i + 1, amount_text@, symbol@, code@));
                    assert(before + seq![t@[i as int]] == out@);
                }
                i = i + 1;
            }
        }
        Ok(string_from_chars(&out))
    }
}

pub proof fn lemma_prepend_empty(r: Result<Seq<char>, TokenFault>)
    ensures
        prepend(Seq::empty(), r) == r,
{
    match r {
        Ok(s) => {
            assert(Seq::<char>::empty() + s == s);
        },
        Err(_) => {},
    }
}

impl Default for Formatter {
    /// Two places from the currency, banker's rounding, `.` and `,` as
    /// separators, groups of three, the symbol (or the code and a space)
    /// before the amount, and a leading `-` for negative amounts.
    fn default() -> (r: Self)
        ensures
            r.decimal_places is None,
            r.rounding_strategy == RoundingStrategy::MidpointNearestEven,
            r.decimal_separator@ == seq!['.'],
            r.digit_grouping == 3,
            r.digit_groupings is None,
            r.digit_group_separator@ == seq![','],
            r.positive_template@ == seq!['{', 's', '|', 'c', '_', '}', '{', 'a', '}'],
            r.negative_template@ == seq!['-', '{', 's', '|', 'c', '_', '}', '{', 'a', '}'],
            r.zero_template is None,
    {
        proof {
            reveal_strlit(".");
            reveal_strlit(",");
            reveal_strlit("{s|c_}{a}");
            reveal_strlit("-{s|c_}{a}");
        }
        Formatter {
            decimal_places: None,
            rounding_strategy: RoundingStrategy::MidpointNearestEven,
            decimal_separator: ".",
            digit_grouping: 3,
            digit_groupings: None,
            digit_group_separator: ",",
            positive_template: "{s|c_}{a}",
            negative_template: "-{s|c_}{a}",
            zero_template: None,
        }
    }
}

} // verus!
