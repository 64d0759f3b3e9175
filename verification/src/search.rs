//! Finding the first element of a sequence that has a property, and what
//! filtering a sequence keeps.

use vstd::prelude::*;

verus! {

/// The position of the first element of `s` for which `p` holds, if any.
pub open spec fn first_index<T>(s: Seq<T>, p: spec_fn(T) -> bool) -> Option<int>
    decreases s.len(),
{
    if s.len() == 0 {
        None
    } else {
        match first_index(s.drop_last(), p) {
            Some(i) => Some(i),
            None => if p(s.last()) {
                Some(s.len() - 1)
            } else {
                None
            },
        }
    }
}

/// `first_index` finds the first match, and finds none only where no
/// element matches.
pub proof fn lemma_first_index<T>(s: Seq<T>, p: spec_fn(T) -> bool)
    ensures
        match first_index(s, p) {
            Some(i) => 0 <= i < s.len() && p(s[i]) && forall|j: int| 0 <= j < i ==> !p(#[trigger] s[j]),
            None => forall|j: int| 0 <= j < s.len() ==> !p(#[trigger] s[j]),
        },
    decreases s.len(),
{
    if s.len() > 0 {
        let d = s.drop_last();
        lemma_first_index(d, p);
        match first_index(d, p) {
            Some(i) => {
                assert(s[i] == d[i]);
                assert forall|j: int| 0 <= j < i implies !p(#[trigger] s[j]) by {
                    assert(s[j] == d[j]);
                }
            },
            None => {
                assert forall|j: int| 0 <= j < s.len() - 1 implies !p(#[trigger] s[j]) by {
                    assert(s[j] == d[j]);
                }
            },
        }
    }
}

/// The first match is the element at `i` when it matches and no element
/// before it does.
pub proof fn lemma_first_index_at<T>(s: Seq<T>, p: spec_fn(T) -> bool, i: int)
    requires
        0 <= i < s.len(),
        p(s[i]),
        forall|j: int| 0 <= j < i ==> !p(#[trigger] s[j]),
    ensures
        first_index(s, p) == Some(i),
{
    lemma_first_index(s, p);
    match first_index(s, p) {
        Some(k) => {
            if k < i {
                assert(!p(s[k]));
            } else if k > i {
                assert(!p(s[i]));
            }
        },
        None => {
            assert(!p(s[i]));
        },
    }
}

/// The elements that pass `p` among the first `j` of `s` are the first
/// elements of those that pass among all of `s`.
proof fn lemma_filter_prefix<T>(s: Seq<T>, p: spec_fn(T) -> bool, j: int)
    requires
        0 <= j <= s.len(),
    ensures
        s.take(j).filter(p).len() <= s.filter(p).len(),
        forall|k: int|
            0 <= k < s.take(j).filter(p).len() ==> #[trigger] s.take(j).filter(p)[k] == s.filter(p)[k],
    decreases s.len(),
{
    if j == s.len() {
        assert(s.take(j) =~= s);
    } else {
        let d = s.drop_last();
        lemma_filter_prefix(d, p, j);
        assert(s.take(j) =~= d.take(j));
        assert(d.push(s.last()) =~= s);
        d.lemma_filter_push(s.last(), p);
    }
}

/// Filtering keeps exactly the elements that pass, in their order: every
/// element kept passes, and each element of `s` that passes is kept, right
/// after the elements before it that pass.
pub proof fn lemma_filter_positions<T>(s: Seq<T>, p: spec_fn(T) -> bool)
    ensures
        forall|k: int| 0 <= k < s.filter(p).len() ==> p(#[trigger] s.filter(p)[k]),
        forall|k: int| 0 <= k < s.filter(p).len() ==> s.contains(#[trigger] s.filter(p)[k]),
        forall|i: int|
            0 <= i < s.len() && p(#[trigger] s[i]) ==> s.take(i).filter(p).len() < s.filter(p).len()
                && s.filter(p)[s.take(i).filter(p).len() as int] == s[i],
{
    broadcast use vstd::seq_lib::group_filter_ensures;

    assert forall|k: int| 0 <= k < s.filter(p).len() implies s.contains(#[trigger] s.filter(p)[k]) by {
        s.lemma_filter_contains_rev(p, s.filter(p)[k]);
    }
    assert forall|i: int| 0 <= i < s.len() && p(#[trigger] s[i]) implies s.take(i).filter(p).len()
        < s.filter(p).len() && s.filter(p)[s.take(i).filter(p).len() as int] == s[i] by {
        let t = s.take(i);
        assert(s.take(i + 1) =~= t.push(s[i]));
        t.lemma_filter_push(s[i], p);
        lemma_filter_prefix(s, p, i + 1);
        let k = t.filter(p).len() as int;
        assert(s.take(i + 1).filter(p)[k] == s[i]);
    }
}

} // verus!
