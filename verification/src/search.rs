//! First-match search over sequences, shared by the by-name and by-value
//! lookups of the declaration types.

use vstd::prelude::*;

verus! {

/// The first element of `s` satisfying `p`, in order, or `None`.
pub open spec fn first_where<T>(s: Seq<T>, p: spec_fn(T) -> bool) -> Option<T>
    decreases s.len(),
{
    if s.len() == 0 {
        None
    } else if p(s[0]) {
        Some(s[0])
    } else {
        first_where(s.subrange(1, s.len() as int), p)
    }
}

/// Skipping a prefix with no match leaves the first match unchanged.
pub proof fn lemma_first_where_skip<T>(s: Seq<T>, p: spec_fn(T) -> bool, i: int)
    requires
        0 <= i <= s.len(),
        forall|j: int| 0 <= j < i ==> !p(s[j]),
    ensures
        first_where(s, p) == first_where(s.subrange(i, s.len() as int), p),
    decreases i,
{
    if i > 0 {
        lemma_first_where_skip(s, p, i - 1);
        assert(s.subrange(i - 1, s.len() as int).subrange(1, s.len() - i + 1) =~= s.subrange(
            i,
            s.len() as int,
        ));
        assert(s.subrange(i - 1, s.len() as int)[0] == s[i - 1]);
    } else {
        assert(s.subrange(0, s.len() as int) =~= s);
    }
}

/// A match at `i` below which nothing matches is the first match.
pub proof fn lemma_first_where_found<T>(s: Seq<T>, p: spec_fn(T) -> bool, i: int)
    requires
        0 <= i < s.len(),
        forall|j: int| 0 <= j < i ==> !p(s[j]),
        p(s[i]),
    ensures
        first_where(s, p) == Some(s[i]),
{
    lemma_first_where_skip(s, p, i);
    assert(s.subrange(i, s.len() as int)[0] == s[i]);
}

/// With no match anywhere there is no first match.
pub proof fn lemma_first_where_none<T>(s: Seq<T>, p: spec_fn(T) -> bool)
    requires
        forall|j: int| 0 <= j < s.len() ==> !p(s[j]),
    ensures
        first_where(s, p) is None,
{
    lemma_first_where_skip(s, p, s.len() as int);
}

} // verus!
