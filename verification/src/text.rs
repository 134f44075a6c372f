//! String comparison helpers shared by the by-name lookups.

use vstd::prelude::*;

verus! {

/// Relies on `str`'s `==` (`<str as PartialEq>::eq`): string slices compare
/// equal exactly when their character sequences are equal.
#[verifier::external_body]
pub(crate) fn str_eq(a: &str, b: &str) -> (r: bool)
    ensures
        r == (a@ == b@),
{
    a == b
}

/// True when `n` holds a name equal to `name`.
pub(crate) fn opt_name_is(n: &Option<String>, name: &str) -> (r: bool)
    ensures
        r == (n.deep_view() == Some(name@)),
{
    match n {
        Some(s) => str_eq(s.as_str(), name),
        None => false,
    }
}

/// True when the two optional names hold equal values.
pub(crate) fn opt_name_eq(a: &Option<String>, b: &Option<String>) -> (r: bool)
    ensures
        r == (a.deep_view() == b.deep_view()),
{
    match (a, b) {
        (Some(x), Some(y)) => str_eq(x.as_str(), y.as_str()),
        (None, None) => true,
        _ => false,
    }
}

} // verus!
