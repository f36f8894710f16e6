//! The first element of a sequence that satisfies a predicate.
use vstd::prelude::*;

verus! {

/// `i` is the position of the first element of `s` that satisfies `p`.
pub open spec fn is_first<A>(s: Seq<A>, p: spec_fn(A) -> bool, i: int) -> bool {
    0 <= i < s.len() && p(s[i]) && forall|j: int| 0 <= j < i ==> !p(#[trigger] s[j])
}

/// The position of the first element of `s` that satisfies `p`, if any.
pub open spec fn first_index<A>(s: Seq<A>, p: spec_fn(A) -> bool) -> Option<int> {
    if exists|i: int| is_first(s, p, i) {
        Some(choose|i: int| is_first(s, p, i))
    } else {
        None
    }
}

/// A position that is first is the one that `first_index` gives.
pub proof fn lemma_first_index_is<A>(s: Seq<A>, p: spec_fn(A) -> bool, i: int)
    requires
        is_first(s, p, i),
    ensures
        first_index(s, p) == Some(i),
{
    let k = choose|k: int| is_first(s, p, k);
    assert(is_first(s, p, k));
    if k < i {
        assert(!p(s[k]));
    } else if i < k {
        assert(!p(s[i]));
    }
}

/// Where no element satisfies `p`, there is no first one.
pub proof fn lemma_first_index_none<A>(s: Seq<A>, p: spec_fn(A) -> bool)
    requires
        forall|j: int| 0 <= j < s.len() ==> !p(#[trigger] s[j]),
    ensures
        first_index(s, p) is None,
{
    if exists|i: int| is_first(s, p, i) {
        let k = choose|k: int| is_first(s, p, k);
        assert(p(s[k]));
    }
}

} // verus!
