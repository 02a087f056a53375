//! Text building blocks shared by the gateway: decimal rendering of
//! numbers, containment of one text in another, and prefix handling.

use vstd::prelude::*;

verus! {

/// The character that renders the decimal digit `d`.
pub open spec fn digit_char(d: int) -> char {
    if d == 0 {
        '0'
    } else if d == 1 {
        '1'
    } else if d == 2 {
        '2'
    } else if d == 3 {
        '3'
    } else if d == 4 {
        '4'
    } else if d == 5 {
        '5'
    } else if d == 6 {
        '6'
    } else if d == 7 {
        '7'
    } else if d == 8 {
        '8'
    } else {
        '9'
    }
}

/// The decimal rendering of `n`, most significant digit first, without
/// leading zeros (`0` renders as a single digit).
pub open spec fn decimal(n: nat) -> Seq<char>
    decreases n,
{
    if n < 10 {
        seq![digit_char(n as int)]
    } else {
        decimal(n / 10).push(digit_char((n % 10) as int))
    }
}

/// The one-character text of a decimal digit.
fn digit_text(d: u8) -> (t: &'static str)
    requires
        d < 10,
    ensures
        t@ == seq![digit_char(d as int)],
{
    proof {
        reveal_strlit("0");
        reveal_strlit("1");
        reveal_strlit("2");
        reveal_strlit("3");
        reveal_strlit("4");
        reveal_strlit("5");
        reveal_strlit("6");
        reveal_strlit("7");
        reveal_strlit("8");
        reveal_strlit("9");
    }
    let t = if d == 0 {
        "0"
    } else if d == 1 {
        "1"
    } else if d == 2 {
        "2"
    } else if d == 3 {
        "3"
    } else if d == 4 {
        "4"
    } else if d == 5 {
        "5"
    } else if d == 6 {
        "6"
    } else if d == 7 {
        "7"
    } else if d == 8 {
        "8"
    } else {
        "9"
    };
    assert(t@ =~= seq![digit_char(d as int)]);
    t
}

/// Renders `n` in decimal.
pub fn decimal_string(n: u128) -> (s: String)
    ensures
        s@ == decimal(n as nat),
    decreases n,
{
    if n < 10 {
        String::from_str(digit_text(n as u8))
    } else {
        let mut s = decimal_string(n / 10);
        s.append(digit_text((n % 10) as u8));
        assert(s@ =~= decimal((n / 10) as nat).push(digit_char((n % 10) as int)));
        s
    }
}

/// The decimal rendering of a signed number: a minus sign before the
/// rendering of the magnitude of a negative number.
pub open spec fn signed_decimal(n: int) -> Seq<char> {
    if n < 0 {
        "-"@ + decimal((-n) as nat)
    } else {
        decimal(n as nat)
    }
}

/// Renders a signed number in decimal.
pub fn signed_decimal_string(n: i64) -> (s: String)
    ensures
        s@ == signed_decimal(n as int),
{
    if n < 0 {
        let magnitude: i128 = -(n as i128);
        String::from_str("-").concat(decimal_string(magnitude as u128).as_str())
    } else {
        decimal_string(n as u128)
    }
}

/// `needle` occurs in `hay` as a contiguous run of characters.
pub open spec fn contains_text(hay: Seq<char>, needle: Seq<char>) -> bool {
    exists|i: int|
        0 <= i && i + needle.len() <= hay.len() && #[trigger] hay.subrange(
            i,
            i + needle.len(),
        ) == needle
}

/// A text contains each of the parts it is concatenated from.
pub proof fn lemma_concat_contains(before: Seq<char>, part: Seq<char>, after: Seq<char>)
    ensures
        contains_text(before + part + after, part),
{
    let whole = before + part + after;
    let i = before.len() as int;
    assert(whole.subrange(i, i + part.len()) =~= part);
}

/// `s` begins with `prefix`.
pub open spec fn has_prefix(s: Seq<char>, prefix: Seq<char>) -> bool {
    prefix.len() <= s.len() && s.subrange(0, prefix.len() as int) == prefix
}

/// Trusted: `str::strip_prefix` of the standard library with a string pattern.
///
/// As its documentation says, it returns the rest of `s` behind `prefix` when
/// `s` starts with `prefix`, and `None` when it does not.
#[verifier::external_body]
pub(crate) fn strip_prefix<'a>(s: &'a str, prefix: &str) -> (rest: Option<&'a str>)
    ensures
        has_prefix(s@, prefix@) ==> rest is Some && rest->0@ == s@.skip(prefix@.len() as int),
        !has_prefix(s@, prefix@) ==> rest is None,
{
    s.strip_prefix(prefix)
}

} // verus!
