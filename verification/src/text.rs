//! Text primitives of the standard library, with the contracts the rest of
//! the crate relies on.

use vstd::prelude::*;

verus! {

/// Decimal digits of a natural number, most significant first.
pub open spec fn decimal_digits(n: nat) -> Seq<char>
    decreases n,
{
    let last = (('0' as u8) + (n % 10) as u8) as char;
    if n < 10 {
        seq![last]
    } else {
        decimal_digits(n / 10).push(last)
    }
}

/// Decimal text of an integer: a leading `-` for negative numbers, then the
/// digits of the magnitude.
pub open spec fn decimal_text(n: int) -> Seq<char> {
    if n < 0 {
        seq!['-'] + decimal_digits((-n) as nat)
    } else {
        decimal_digits(n as nat)
    }
}

/// `str::eq`: two string slices are equal exactly when they hold the same
/// characters.
#[verifier::external_body]
pub(crate) fn text_eq(a: &str, b: &str) -> (same: bool)
    ensures
        same == (a@ == b@),
{
    a == b
}

/// `i64::to_string`: the decimal text of the number.
#[verifier::external_body]
pub(crate) fn i64_to_string(n: i64) -> (s: String)
    ensures
        s@ == decimal_text(n as int),
{
    n.to_string()
}

/// The ASCII lower-case form of a character: the letters `A` to `Z` become
/// `a` to `z`, every other character stays.
pub open spec fn ascii_lower(c: char) -> char {
    if 'A' <= c <= 'Z' {
        ((c as u8) + 32) as char
    } else {
        c
    }
}

/// `str::to_ascii_lowercase`: a copy in which each character is replaced by
/// its ASCII lower-case form.
#[verifier::external_body]
pub(crate) fn to_ascii_lowercase(s: &str) -> (lower: String)
    ensures
        lower@ == s@.map_values(|c: char| ascii_lower(c)),
{
    s.to_ascii_lowercase()
}

/// `str::replace` for a pattern and a replacement of one character each: a
/// copy in which every occurrence of the one is replaced by the other.
#[verifier::external_body]
pub(crate) fn replace(s: &str, from: &str, to: &str) -> (replaced: String)
    requires
        from@.len() == 1,
        to@.len() == 1,
    ensures
        replaced@ == s@.map_values(
            |c: char|
                if c == from@[0] {
                    to@[0]
                } else {
                    c
                },
        ),
{
    s.replace(from, to)
}

} // verus!
