//! Conversions between strings and character vectors, through std.
use vstd::prelude::*;

verus! {

/// The string whose characters are those of `v`.
/// Relies on std's `FromIterator<&char>` for `String`, which appends each
/// character in order.
#[verifier::external_body]
pub(crate) fn string_from_chars(v: &Vec<char>) -> (r: String)
    ensures
        r@ == v@,
{
    v.iter().collect()
}

/// The characters of `s`, in order.
/// Relies on std's `str::chars`, collected into a `Vec`.
#[verifier::external_body]
pub(crate) fn chars_of(s: &str) -> (r: Vec<char>)
    ensures
        r@ == s@,
{
    s.chars().collect()
}

} // verus!
