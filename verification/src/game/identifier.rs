use vstd::prelude::*;

verus! {

/// Whether `c` has Unicode's Alphabetic property, as `char::is_alphabetic` reports it.
pub uninterp spec fn alphabetic(c: char) -> bool;

/// Whether `c` has Unicode's Uppercase property, as `char::is_uppercase` reports it.
pub uninterp spec fn uppercase(c: char) -> bool;

/// The capital letters of ASCII, `A` to `Z`.
pub open spec fn ascii_capital(c: char) -> bool {
    'A' <= c && c <= 'Z'
}

/// The capital of an ASCII small letter; any other character is itself.
pub open spec fn ascii_upper(c: char) -> char {
    if 'a' <= c && c <= 'z' {
        ((c as u32) - 32) as char
    } else {
        c
    }
}

/// Two letters are the same identifier when they differ at most in ASCII case.
pub open spec fn same_letter(a: char, b: char) -> bool {
    ascii_upper(a) == ascii_upper(b)
}

/// A letter may identify a section or a sub-section when it is alphabetic and uppercase.
pub open spec fn valid_letter(c: char) -> bool {
    alphabetic(c) && uppercase(c)
}

/// Trusted: calls `char::is_alphabetic`. The result is named `alphabetic(c)`; the
/// one fact claimed of it is that the ASCII capitals are alphabetic.
#[verifier::external_body]
fn is_alphabetic(c: char) -> (r: bool)
    ensures
        r == alphabetic(c),
        ascii_capital(c) ==> r,
{
    c.is_alphabetic()
}

/// Trusted: calls `char::is_uppercase`. The result is named `uppercase(c)`; the
/// one fact claimed of it is that the ASCII capitals are uppercase.
#[verifier::external_body]
fn is_uppercase(c: char) -> (r: bool)
    ensures
        r == uppercase(c),
        ascii_capital(c) ==> r,
{
    c.is_uppercase()
}

/// Tests whether `c` may identify a section or a sub-section.
pub fn is_valid_letter(c: char) -> (r: bool)
    ensures
        r == valid_letter(c),
        ascii_capital(c) ==> r,
{
    is_alphabetic(c) && is_uppercase(c)
}

/// The capital of an ASCII small letter; any other character is returned as it is.
pub fn to_upper(c: char) -> (r: char)
    ensures
        r == ascii_upper(c),
{
    if c >= 'a' && c <= 'z' {
        ((c as u8) - 32) as char
    } else {
        c
    }
}

/// Tests whether two letters are the same identifier.
pub fn letters_match(a: char, b: char) -> (r: bool)
    ensures
        r == same_letter(a, b),
{
    to_upper(a) == to_upper(b)
}

} // verus!
