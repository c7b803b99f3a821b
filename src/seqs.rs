//! Facts about finding and filtering in sequences, used by the store.
use vstd::prelude::*;

verus! {

/// The index of the first element of `s` that satisfies `f`, or -1.
pub open spec fn find_index<A>(s: Seq<A>, f: spec_fn(A) -> bool) -> int
    decreases s.len(),
{
    if s.len() == 0 {
        -1
    } else if f(s[0]) {
        0
    } else {
        let k = find_index(s.drop_first(), f);
        if k < 0 {
            -1
        } else {
            k + 1
        }
    }
}

/// `find_index` gives the first match, or -1 when nothing matches.
pub proof fn lemma_find_index<A>(s: Seq<A>, f: spec_fn(A) -> bool)
    ensures
        -1 <= find_index(s, f) < s.len(),
        find_index(s, f) >= 0 ==> f(s[find_index(s, f)]),
        forall|k: int| 0 <= k < find_index(s, f) ==> !f(#[trigger] s[k]),
        find_index(s, f) < 0 ==> forall|k: int| 0 <= k < s.len() ==> !f(#[trigger] s[k]),
    decreases s.len(),
{
    if s.len() > 0 {
        let t = s.drop_first();
        lemma_find_index(t, f);
        assert forall|k: int| 0 < k < s.len() implies s[k] == t[k - 1] by {}
        if !f(s[0]) {
            assert forall|k: int| 0 <= k < find_index(s, f) implies !f(#[trigger] s[k]) by {
                if k > 0 {
                    assert(s[k] == t[k - 1]);
                }
            }
            assert forall|k: int| find_index(s, f) < 0 && 0 <= k < s.len() implies !f(#[trigger] s[k]) by {
                if k > 0 {
                    assert(s[k] == t[k - 1]);
                }
            }
        }
    }
}

/// The first match is at `i` when `s[i]` matches and nothing before it does.
pub proof fn lemma_find_index_at<A>(s: Seq<A>, f: spec_fn(A) -> bool, i: int)
    requires
        0 <= i < s.len(),
        f(s[i]),
        forall|k: int| 0 <= k < i ==> !f(#[trigger] s[k]),
    ensures
        find_index(s, f) == i,
{
    lemma_find_index(s, f);
}

/// Nothing matches: the first match is -1.
pub proof fn lemma_find_index_none<A>(s: Seq<A>, f: spec_fn(A) -> bool)
    requires
        forall|k: int| 0 <= k < s.len() ==> !f(#[trigger] s[k]),
    ensures
        find_index(s, f) == -1,
{
    lemma_find_index(s, f);
    if find_index(s, f) >= 0 {
        assert(f(s[find_index(s, f)]));
    }
}

/// One step of a filter from the front.
pub proof fn lemma_filter_step<A>(s: Seq<A>, i: int, f: spec_fn(A) -> bool)
    requires
        0 <= i < s.len(),
    ensures
        s.take(i + 1).filter(f) == if f(s[i]) {
            s.take(i).filter(f).push(s[i])
        } else {
            s.take(i).filter(f)
        },
{
    reveal(Seq::filter);
    assert(s.take(i + 1).drop_last() =~= s.take(i));
}

/// Filtering keeps a sequence whole when every element passes.
pub proof fn lemma_filter_all<A>(s: Seq<A>, f: spec_fn(A) -> bool)
    requires
        forall|i: int| 0 <= i < s.len() ==> f(#[trigger] s[i]),
    ensures
        s.filter(f) == s,
    decreases s.len(),
{
    reveal(Seq::filter);
    if s.len() > 0 {
        lemma_filter_all(s.drop_last(), f);
        assert(s.drop_last().push(s.last()) =~= s);
    }
}

} // verus!
