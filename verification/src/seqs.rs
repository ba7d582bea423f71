//! Facts about sequences that the searches of the library rest on.
use vstd::prelude::*;

verus! {

/// Whether `i` is the position of the first item of `s` that satisfies `p`.
pub open spec fn is_first_index<A>(s: Seq<A>, p: spec_fn(A) -> bool, i: int) -> bool {
    &&& 0 <= i < s.len()
    &&& p(s[i])
    &&& forall|k: int| 0 <= k < i ==> !p(#[trigger] s[k])
}

/// The position of the first item of `s` that satisfies `p`, if there is one.
pub open spec fn first_index<A>(s: Seq<A>, p: spec_fn(A) -> bool) -> Option<int> {
    if exists|i: int| is_first_index(s, p, i) {
        Some(choose|i: int| is_first_index(s, p, i))
    } else {
        None
    }
}

pub proof fn lemma_first_index_found<A>(s: Seq<A>, p: spec_fn(A) -> bool, j: int)
    requires
        is_first_index(s, p, j),
    ensures
        first_index(s, p) == Some(j),
{
    let c = choose|i: int| is_first_index(s, p, i);
    assert(is_first_index(s, p, c));
    if c < j {
        assert(!p(s[c]));
    } else if j < c {
        assert(!p(s[j]));
    }
}

pub proof fn lemma_first_index_absent<A>(s: Seq<A>, p: spec_fn(A) -> bool)
    requires
        forall|k: int| 0 <= k < s.len() ==> !p(#[trigger] s[k]),
    ensures
        first_index(s, p) is None,
{
    if exists|i: int| is_first_index(s, p, i) {
        let c = choose|i: int| is_first_index(s, p, i);
        assert(p(s[c]));
    }
}

pub proof fn lemma_first_index_some<A>(s: Seq<A>, p: spec_fn(A) -> bool)
    requires
        first_index(s, p) is Some,
    ensures
        is_first_index(s, p, first_index(s, p)->0),
{
}

/// When some item satisfies `p`, there is a first one.
pub proof fn lemma_first_index_exists<A>(s: Seq<A>, p: spec_fn(A) -> bool, k: int)
    requires
        0 <= k < s.len(),
        p(s[k]),
    ensures
        first_index(s, p) is Some,
    decreases k,
{
    if exists|m: int| 0 <= m < k && #[trigger] p(s[m]) {
        let m = choose|m: int| 0 <= m < k && #[trigger] p(s[m]);
        lemma_first_index_exists(s, p, m);
    } else {
        assert(is_first_index(s, p, k));
    }
}

/// Filtering a sequence that grew by one item.
pub proof fn lemma_filter_push<A>(s: Seq<A>, p: spec_fn(A) -> bool, e: A)
    ensures
        p(e) ==> s.push(e).filter(p) == s.filter(p).push(e),
        !p(e) ==> s.push(e).filter(p) == s.filter(p),
{
    reveal(Seq::filter);
    assert(s.push(e).drop_last() =~= s);
}

/// The prefix of `s` of length `i + 1` is the prefix of length `i` and `s[i]`.
pub proof fn lemma_take_succ<A>(s: Seq<A>, i: int)
    requires
        0 <= i < s.len(),
    ensures
        s.take(i + 1) == s.take(i).push(s[i]),
{
    assert(s.take(i + 1) =~= s.take(i).push(s[i]));
}

/// Filtering keeps only items of the sequence.
pub proof fn lemma_filter_subset<A>(s: Seq<A>, p: spec_fn(A) -> bool, i: int)
    requires
        0 <= i < s.filter(p).len(),
    ensures
        s.contains(s.filter(p)[i]),
    decreases s.len(),
{
    reveal(Seq::filter);
    let before = s.drop_last();
    if p(s.last()) && i == s.filter(p).len() - 1 {
        assert(s[s.len() - 1] == s.filter(p)[i]);
    } else {
        assert(s.filter(p)[i] == before.filter(p)[i]);
        lemma_filter_subset(before, p, i);
        let k = choose|k: int| 0 <= k < before.len() && before[k] == before.filter(p)[i];
        assert(s[k] == before[k]);
    }
}

/// Filtering keeps nothing when no item satisfies the predicate.
pub proof fn lemma_filter_none<A>(s: Seq<A>, p: spec_fn(A) -> bool)
    requires
        forall|k: int| 0 <= k < s.len() ==> !p(#[trigger] s[k]),
    ensures
        s.filter(p).len() == 0,
    decreases s.len(),
{
    reveal(Seq::filter);
    if s.len() > 0 {
        let before = s.drop_last();
        assert forall|k: int| 0 <= k < before.len() implies !p(#[trigger] before[k]) by {
            assert(before[k] == s[k]);
        }
        lemma_filter_none(before, p);
        assert(!p(s[s.len() - 1]));
    }
}

} // verus!
