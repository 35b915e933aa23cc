//! First-match search over sequences, the lookup rule shared by the keyed
//! tables of this crate.

use vstd::prelude::*;

verus! {

/// Index of the first element at or after `i` that satisfies `p`, or -1
/// when there is none.
pub open spec fn first_index_from<T>(s: Seq<T>, p: spec_fn(T) -> bool, i: int) -> int
    decreases s.len() - i,
{
    if i < 0 || i >= s.len() {
        -1
    } else if p(s[i]) {
        i
    } else {
        first_index_from(s, p, i + 1)
    }
}

/// Index of the first element of `s` that satisfies `p`, or -1.
pub open spec fn first_index<T>(s: Seq<T>, p: spec_fn(T) -> bool) -> int {
    first_index_from(s, p, 0)
}

/// `first_index_from` finds the first match at or after `i`, or reports
/// that none exists.
pub proof fn lemma_first_index_from<T>(s: Seq<T>, p: spec_fn(T) -> bool, i: int)
    requires
        0 <= i <= s.len(),
    ensures
        first_index_from(s, p, i) == -1 ==> forall|j: int| i <= j < s.len() ==> !p(#[trigger] s[j]),
        first_index_from(s, p, i) != -1 ==> {
            let r = first_index_from(s, p, i);
            &&& i <= r < s.len()
            &&& p(s[r])
            &&& forall|j: int| i <= j < r ==> !p(#[trigger] s[j])
        },
    decreases s.len() - i,
{
    if i < s.len() && !p(s[i]) {
        lemma_first_index_from(s, p, i + 1);
    }
}

/// The first match is determined by where the predicate holds.
pub proof fn lemma_first_index<T>(s: Seq<T>, p: spec_fn(T) -> bool)
    ensures
        first_index(s, p) == -1 ==> forall|j: int| 0 <= j < s.len() ==> !p(#[trigger] s[j]),
        first_index(s, p) != -1 ==> {
            let r = first_index(s, p);
            &&& 0 <= r < s.len()
            &&& p(s[r])
            &&& forall|j: int| 0 <= j < r ==> !p(#[trigger] s[j])
        },
{
    lemma_first_index_from(s, p, 0);
}

/// Any index that is a match with no match before it is the first match.
pub proof fn lemma_first_index_is<T>(s: Seq<T>, p: spec_fn(T) -> bool, k: int)
    requires
        -1 <= k < s.len(),
        k == -1 ==> forall|j: int| 0 <= j < s.len() ==> !p(#[trigger] s[j]),
        k != -1 ==> p(s[k]) && forall|j: int| 0 <= j < k ==> !p(#[trigger] s[j]),
    ensures
        first_index(s, p) == k,
{
    lemma_first_index(s, p);
    let r = first_index(s, p);
    if r != -1 && k != -1 {
        if r < k {
            assert(!p(s[r]));
        } else if k < r {
            assert(!p(s[k]));
        }
    } else if r != -1 {
        assert(!p(s[r]));
    } else if k != -1 {
        assert(!p(s[k]));
    }
}

/// Replacing an element by one that the predicate judges the same way
/// leaves the first match where it was.
pub proof fn lemma_first_index_update<T>(s: Seq<T>, p: spec_fn(T) -> bool, k: int, x: T)
    requires
        0 <= k < s.len(),
        p(s[k]) == p(x),
    ensures
        first_index(s.update(k, x), p) == first_index(s, p),
{
    let t = s.update(k, x);
    lemma_first_index(s, p);
    assert(forall|j: int| 0 <= j < s.len() ==> p(#[trigger] t[j]) == p(s[j]));
    lemma_first_index_is(t, p, first_index(s, p));
}

/// Appending an element moves the first match only when there was none
/// and the new element matches.
pub proof fn lemma_first_index_push<T>(s: Seq<T>, p: spec_fn(T) -> bool, x: T)
    ensures
        first_index(s.push(x), p) == if first_index(s, p) == -1 && p(x) {
            s.len() as int
        } else {
            first_index(s, p)
        },
{
    let t = s.push(x);
    lemma_first_index(s, p);
    assert(forall|j: int| 0 <= j < s.len() ==> #[trigger] t[j] == s[j]);
    let k = if first_index(s, p) == -1 && p(x) {
        s.len() as int
    } else {
        first_index(s, p)
    };
    lemma_first_index_is(t, p, k);
}

} // verus!
