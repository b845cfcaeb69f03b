use vstd::prelude::*;

verus! {

broadcast use {vstd::seq_lib::group_to_multiset_ensures, vstd::multiset::group_multiset_axioms};

/// Whether `i` is the first position of `x` in `s`.
pub open spec fn is_first_index<T>(s: Seq<T>, x: T, i: int) -> bool {
    &&& 0 <= i < s.len()
    &&& s[i] == x
    &&& forall|j: int| 0 <= j < i ==> s[j] != x
}

/// The first position of `x` in `s` (meaningful when `s` contains `x`).
pub open spec fn first_index_of<T>(s: Seq<T>, x: T) -> int {
    choose|i: int| is_first_index(s, x, i)
}

/// The first position of an element is unique, so `first_index_of` names it.
pub proof fn lemma_first_index<T>(s: Seq<T>, x: T, i: int)
    requires
        is_first_index(s, x, i),
    ensures
        first_index_of(s, x) == i,
{
    let k = first_index_of(s, x);
    assert(is_first_index(s, x, k));
    if k < i {
        assert(s[k] != x);
    } else if i < k {
        assert(s[i] != x);
    }
}

/// A sequence that contains `x` has a first position of `x`.
pub proof fn lemma_first_index_exists<T>(s: Seq<T>, x: T)
    requires
        s.contains(x),
    ensures
        is_first_index(s, x, first_index_of(s, x)),
    decreases s.len(),
{
    if s[0] == x {
        assert(is_first_index(s, x, 0));
    } else {
        let t = s.drop_first();
        let w = choose|w: int| 0 <= w < s.len() && s[w] == x;
        assert(t[w - 1] == x);
        lemma_first_index_exists(t, x);
        let k = first_index_of(t, x);
        assert forall|j: int| 0 <= j < k + 1 implies s[j] != x by {
            if j > 0 {
                assert(s[j] == t[j - 1]);
            }
        }
        assert(is_first_index(s, x, k + 1));
    }
}

/// `s` with the first occurrence of `x` removed by a swap with the last
/// element (what `Vec::swap_remove` at that position does).
pub open spec fn swap_remove_first<T>(s: Seq<T>, x: T) -> Seq<T> {
    s.update(first_index_of(s, x), s.last()).drop_last()
}

/// Swap-removing an element takes one copy of it out of the multiset.
pub proof fn lemma_swap_remove_multiset<T>(s: Seq<T>, i: int)
    requires
        0 <= i < s.len(),
    ensures
        s.update(i, s.last()).drop_last().to_multiset() == s.to_multiset().remove(s[i]),
{
    let last = s.last();
    let si = s[i];
    let u = s.update(i, last);
    let d = u.drop_last();
    assert(u.len() == s.len());
    assert(u.to_multiset() == s.to_multiset().insert(last).remove(si));
    assert(d.push(last) =~= u);
    assert(u.to_multiset() == d.to_multiset().insert(last));
    assert(s.contains(si));
    assert(s.to_multiset().count(si) > 0);
    assert forall|v: T| #[trigger] d.to_multiset().count(v) == s.to_multiset().remove(si).count(v) by {
        assert(d.to_multiset().insert(last).count(v) == s.to_multiset().insert(last).remove(si).count(v));
    }
    assert(d.to_multiset() =~= s.to_multiset().remove(si));
}

/// Removing position `i` (what `Vec::remove` does) takes one copy of the
/// element out of the multiset.
pub proof fn lemma_remove_multiset<T>(s: Seq<T>, i: int)
    requires
        0 <= i < s.len(),
    ensures
        s.remove(i).to_multiset() == s.to_multiset().remove(s[i]),
{
    vstd::seq_lib::to_multiset_remove(s, i);
}

} // verus!
