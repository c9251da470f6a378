//! The earliest element of a sequence that satisfies a predicate, and how
//! it survives filtering.

use vstd::prelude::*;

verus! {

/// Whether `i` is the position of the earliest element of `s` that
/// satisfies `pred`.
pub open spec fn is_first<A>(s: Seq<A>, pred: spec_fn(A) -> bool, i: int) -> bool {
    &&& 0 <= i < s.len()
    &&& pred(s[i])
    &&& forall|j: int| 0 <= j < i ==> !pred(#[trigger] s[j])
}

/// What a sequence of references refers to.
pub open spec fn targets<A>(refs: Seq<&A>) -> Seq<A> {
    refs.map_values(|r: &A| *r)
}

/// A sequence has at most one earliest element that satisfies `pred`.
pub proof fn lemma_first_is_unique<A>(s: Seq<A>, pred: spec_fn(A) -> bool, i: int, j: int)
    requires
        is_first(s, pred, i),
        is_first(s, pred, j),
    ensures
        i == j,
{
    if i < j {
        assert(!pred(s[i]));
    } else if j < i {
        assert(!pred(s[j]));
    }
}

/// Where an element at or before position `bound` satisfies `pred`, there
/// is an earliest one, and it lies at or before `bound`.
pub proof fn lemma_first_exists<A>(s: Seq<A>, pred: spec_fn(A) -> bool, bound: int) -> (i: int)
    requires
        0 <= bound < s.len(),
        pred(s[bound]),
    ensures
        is_first(s, pred, i),
        i <= bound,
    decreases bound,
{
    if exists|j: int| 0 <= j < bound && pred(#[trigger] s[j]) {
        let j = choose|j: int| 0 <= j < bound && pred(#[trigger] s[j]);
        lemma_first_exists(s, pred, j)
    } else {
        bound
    }
}

/// Filtering keeps the order: the earliest element of `s.filter(keep)` that
/// satisfies `pred` is the earliest element of `s` that satisfies both.
pub proof fn lemma_first_of_filtered<A>(
    s: Seq<A>,
    keep: spec_fn(A) -> bool,
    pred: spec_fn(A) -> bool,
    k: int,
) -> (i: int)
    requires
        is_first(s.filter(keep), pred, k),
    ensures
        is_first(s, |a: A| keep(a) && pred(a), i),
        s[i] == s.filter(keep)[k],
    decreases s.len(),
{
    let both = |a: A| keep(a) && pred(a);
    let kept = s.filter(keep);
    if s.len() == 0 {
        s.lemma_filter_len(keep);
        0
    } else {
        let front = s.drop_last();
        let kept_front = front.filter(keep);
        assert(s =~= front.push(s.last()));
        front.lemma_filter_push(s.last(), keep);
        if k < kept_front.len() {
            assert(kept[k] == kept_front[k]);
            assert forall|j: int| 0 <= j < k implies !pred(#[trigger] kept_front[j]) by {
                assert(kept_front[j] == kept[j]);
            }
            let i = lemma_first_of_filtered(front, keep, pred, k);
            assert(front[i] == s[i]);
            assert forall|j: int| 0 <= j < i implies !both(#[trigger] s[j]) by {
                assert(s[j] == front[j]);
            }
            i
        } else {
            let i = s.len() - 1;
            assert(kept == kept_front.push(s.last()));
            assert(kept[k] == s.last());
            assert forall|j: int| 0 <= j < i implies !both(#[trigger] s[j]) by {
                if keep(s[j]) && pred(s[j]) {
                    assert(front[j] == s[j]);
                    front.lemma_filter_contains(keep, j);
                    let m = choose|m: int| 0 <= m < kept_front.len() && kept_front[m] == front[j];
                    assert(kept[m] == kept_front[m]);
                    assert(!pred(kept[m]));
                }
            }
            i
        }
    }
}

/// Filtering drops nothing that it should keep: an element of `s` that
/// satisfies `keep` and `pred` leaves an element of `s.filter(keep)` that
/// satisfies `pred`.
pub proof fn lemma_filtered_keeps<A>(
    s: Seq<A>,
    keep: spec_fn(A) -> bool,
    pred: spec_fn(A) -> bool,
    i: int,
) -> (k: int)
    requires
        0 <= i < s.len(),
        keep(s[i]),
        pred(s[i]),
    ensures
        0 <= k < s.filter(keep).len(),
        s.filter(keep)[k] == s[i],
        pred(s.filter(keep)[k]),
{
    s.lemma_filter_contains(keep, i);
    choose|k: int| 0 <= k < s.filter(keep).len() && s.filter(keep)[k] == s[i]
}

/// Filtering adds nothing: every element of `s.filter(keep)` is an element
/// of `s` that satisfies `keep`.
pub proof fn lemma_filtered_comes_from<A>(s: Seq<A>, keep: spec_fn(A) -> bool, k: int) -> (i: int)
    requires
        0 <= k < s.filter(keep).len(),
    ensures
        0 <= i < s.len(),
        s[i] == s.filter(keep)[k],
        keep(s[i]),
    decreases s.len(),
{
    if s.len() == 0 {
        s.lemma_filter_len(keep);
        0
    } else {
        let front = s.drop_last();
        assert(s =~= front.push(s.last()));
        front.lemma_filter_push(s.last(), keep);
        if k < front.filter(keep).len() {
            let i = lemma_filtered_comes_from(front, keep, k);
            assert(front[i] == s[i]);
            i
        } else {
            s.len() - 1
        }
    }
}

} // verus!
