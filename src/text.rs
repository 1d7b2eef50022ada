//! Character-level notions shared by the codec and the path resolver:
//! splitting text into fields, Unicode white space, and decimal numerals.

use itertools::Itertools;
use vstd::prelude::*;

verus! {

/// Whether `c` has the Unicode `White_Space` property.
pub open spec fn is_white_space(c: char) -> bool {
    ||| ('\u{9}' <= c && c <= '\u{d}')
    ||| c == ' '
    ||| c == '\u{85}'
    ||| c == '\u{a0}'
    ||| c == '\u{1680}'
    ||| ('\u{2000}' <= c && c <= '\u{200a}')
    ||| c == '\u{2028}'
    ||| c == '\u{2029}'
    ||| c == '\u{202f}'
    ||| c == '\u{205f}'
    ||| c == '\u{3000}'
}

/// The maximal non-empty runs of characters of `s` that `sep` does not hold
/// of, in order: `s` split at separators, with empty pieces dropped.
pub open spec fn fields(s: Seq<char>, sep: spec_fn(char) -> bool) -> Seq<Seq<char>>
    decreases s.len(),
{
    if s.len() == 0 {
        seq![]
    } else {
        let rest = fields(s.drop_first(), sep);
        if sep(s[0]) {
            rest
        } else if s.len() > 1 && !sep(s[1]) {
            rest.update(0, seq![s[0]] + rest[0])
        } else {
            seq![seq![s[0]]] + rest
        }
    }
}

/// White space, as a separator.
pub open spec fn white_space() -> spec_fn(char) -> bool {
    |c: char| is_white_space(c)
}

/// The whitespace-separated tokens of `s`.
pub open spec fn tokens(s: Seq<char>) -> Seq<Seq<char>> {
    fields(s, white_space())
}

/// A run of characters none of which is a separator.
pub open spec fn is_field(t: Seq<char>, sep: spec_fn(char) -> bool) -> bool {
    t.len() > 0 && forall|i: int| 0 <= i < t.len() ==> !sep(#[trigger] t[i])
}

/// A text that starts at a separator, or is empty.
pub open spec fn starts_at_separator(s: Seq<char>, sep: spec_fn(char) -> bool) -> bool {
    s.len() == 0 || sep(s[0])
}

/// A separator in front of a text adds no field.
pub proof fn lemma_fields_skip_separator(c: char, s: Seq<char>, sep: spec_fn(char) -> bool)
    requires
        sep(c),
    ensures
        fields(seq![c] + s, sep) == fields(s, sep),
{
    assert((seq![c] + s).drop_first() =~= s);
}

/// A field followed by a separator (or by nothing) is the first field.
pub proof fn lemma_fields_leading_field(t: Seq<char>, s: Seq<char>, sep: spec_fn(char) -> bool)
    requires
        is_field(t, sep),
        starts_at_separator(s, sep),
    ensures
        fields(t + s, sep) == seq![t] + fields(s, sep),
    decreases t.len(),
{
    let ts = t + s;
    assert(ts[0] == t[0]);
    if t.len() == 1 {
        assert(ts.drop_first() =~= s);
        assert(t =~= seq![t[0]]);
    } else {
        let t1 = t.drop_first();
        assert(ts.drop_first() =~= t1 + s);
        assert(ts[1] == t[1]);
        assert(!sep(t[1]));
        lemma_fields_leading_field(t1, s, sep);
        assert(seq![t[0]] + t1 =~= t);
        assert((seq![t1] + fields(s, sep)).update(0, seq![t[0]] + t1) =~= seq![t] + fields(s, sep));
    }
}

/// The decimal digit character for `d < 10`.
pub open spec fn digit_char(d: nat) -> char {
    if d == 0 { '0' }
    else if d == 1 { '1' }
    else if d == 2 { '2' }
    else if d == 3 { '3' }
    else if d == 4 { '4' }
    else if d == 5 { '5' }
    else if d == 6 { '6' }
    else if d == 7 { '7' }
    else if d == 8 { '8' }
    else { '9' }
}

/// The value of a decimal digit character.
pub open spec fn digit_value(c: char) -> nat {
    if c == '1' { 1 }
    else if c == '2' { 2 }
    else if c == '3' { 3 }
    else if c == '4' { 4 }
    else if c == '5' { 5 }
    else if c == '6' { 6 }
    else if c == '7' { 7 }
    else if c == '8' { 8 }
    else if c == '9' { 9 }
    else { 0 }
}

/// The decimal numeral of `n`, without sign or leading zeros.
pub open spec fn decimal(n: nat) -> Seq<char>
    decreases n,
{
    if n < 10 {
        seq![digit_char(n)]
    } else {
        decimal(n / 10).push(digit_char(n % 10))
    }
}

/// The number that a string of decimal digits denotes.
pub open spec fn decimal_value(s: Seq<char>) -> nat
    decreases s.len(),
{
    if s.len() == 0 {
        0
    } else {
        decimal_value(s.drop_last()) * 10 + digit_value(s.last())
    }
}

/// Whether every character of `s` is an ASCII decimal digit.
pub open spec fn all_digits(s: Seq<char>) -> bool {
    forall|i: int| 0 <= i < s.len() ==> '0' <= #[trigger] s[i] && s[i] <= '9'
}

/// A decimal numeral reads back as the number it was written from.
pub proof fn lemma_decimal_round_trip(n: nat)
    ensures
        decimal_value(decimal(n)) == n,
        decimal(n).len() > 0,
        all_digits(decimal(n)),
    decreases n,
{
    let s = decimal(n);
    if n < 10 {
        assert(s.drop_last() =~= Seq::<char>::empty());
        assert(decimal_value(s.drop_last()) == 0);
        assert(digit_value(s.last()) == n);
    } else {
        lemma_decimal_round_trip(n / 10);
        assert(s.drop_last() =~= decimal(n / 10));
        assert(s.last() == digit_char(n % 10));
        assert(digit_value(digit_char(n % 10)) == n % 10);
        assert(n == (n / 10) * 10 + n % 10);
    }
}

/// Relies on `ToString` for `usize`, which writes the number in decimal.
#[verifier::external_body]
pub(crate) fn decimal_text(n: usize) -> (r: String)
    ensures
        r@ == decimal(n as nat),
{
    n.to_string()
}

/// Relies on `Itertools::next_tuple` over `str::split_whitespace`: the first
/// two `White_Space`-separated tokens of `line`, when it has at least two.
#[verifier::external_body]
pub(crate) fn leading_token_pair(line: &str) -> (r: Option<(String, String)>)
    ensures
        match r {
            Some((first, second)) => {
                &&& tokens(line@).len() >= 2
                &&& first@ == tokens(line@)[0]
                &&& second@ == tokens(line@)[1]
            },
            None => tokens(line@).len() < 2,
        },
{
    match line.split_whitespace().next_tuple::<(&str, &str)>() {
        Some((first, second)) => Some((first.to_owned(), second.to_owned())),
        None => None,
    }
}

} // verus!
