//! Pencil marks of one kind in one cell: digits kept in ascending order in a
//! `sorted_vec::SortedVec<u8>`.
//!
//! The vector itself is opaque to the verifier. `items` names what it holds,
//! the functions marked `external_body` say what the calls into `sorted_vec`
//! do to it, and everything else in this file is proved from those statements.

use sorted_vec::SortedVec;
use vstd::prelude::*;

verus! {

/// `sorted_vec::SortedVec`, taken as it is: nothing inside it is visible
/// here.
#[verifier::external_type_specification]
#[verifier::external_body]
#[verifier::reject_recursive_types(T)]
pub struct ExSortedVec<T: Ord>(SortedVec<T>);

/// The elements of a sorted vector, first to last.
pub uninterp spec fn items(v: SortedVec<u8>) -> Seq<u8>;

/// No element is larger than one that comes after it.
pub open spec fn ordered(s: Seq<u8>) -> bool {
    forall|i: int, j: int| 0 <= i < j < s.len() ==> s[i] <= s[j]
}

/// Every element is smaller than the ones that come after it: ordered, and
/// nothing occurs twice.
pub open spec fn ascending(s: Seq<u8>) -> bool {
    forall|i: int, j: int| 0 <= i < j < s.len() ==> s[i] < s[j]
}

/// Every element is a digit from 1 to 9.
pub open spec fn all_digits(s: Seq<u8>) -> bool {
    forall|i: int| 0 <= i < s.len() ==> 1 <= #[trigger] s[i] <= 9
}

/// How many elements of `s` are smaller than `d`. In an ascending sequence
/// this is the index at which `d` stands, or at which it would have to be put.
pub open spec fn rank(s: Seq<u8>, d: u8) -> int
    decreases s.len(),
{
    if s.len() == 0 {
        0
    } else {
        rank(s.drop_last(), d) + if s.last() < d {
            1int
        } else {
            0int
        }
    }
}

/// The marks after `d` was toggled: without `d` if it was there, with `d` in
/// its ascending place if it was not.
pub open spec fn toggled(s: Seq<u8>, d: u8) -> Seq<u8> {
    if s.contains(d) {
        s.remove(rank(s, d))
    } else {
        s.insert(rank(s, d), d)
    }
}

/// `SortedVec::new`: the new vector holds nothing.
#[verifier::external_body]
pub(crate) fn marks_new() -> (v: SortedVec<u8>)
    ensures
        items(v) == Seq::<u8>::empty(),
{
    SortedVec::new()
}

/// `SortedVec::clear`: afterwards the vector holds nothing.
#[verifier::external_body]
pub(crate) fn marks_clear(v: &mut SortedVec<u8>)
    ensures
        items(*final(v)) == Seq::<u8>::empty(),
{
    v.clear()
}

/// `SortedVec::remove_item`, which looks `item` up by binary search. On an
/// ordered vector the search finds `item` exactly if it is there; one
/// occurrence is then taken out and handed back, and the other elements keep
/// their order. If `item` is not there the vector is left as it was.
#[verifier::external_body]
pub(crate) fn marks_remove_item(v: &mut SortedVec<u8>, item: u8) -> (removed: Option<u8>)
    requires
        ordered(items(*old(v))),
    ensures
        removed is Some <==> items(*old(v)).contains(item),
        removed is Some ==> removed == Some(item) && exists|i: int|
            0 <= i < items(*old(v)).len() && items(*old(v))[i] == item && items(*final(v))
                == items(*old(v)).remove(i),
        removed is None ==> items(*final(v)) == items(*old(v)),
{
    v.remove_item(&item)
}

/// `SortedVec::push`, which puts `item` into sorted position and returns the
/// index at which it now stands. The elements that were there keep their
/// order, and an ordered vector stays ordered.
#[verifier::external_body]
pub(crate) fn marks_push(v: &mut SortedVec<u8>, item: u8) -> (at: usize)
    requires
        ordered(items(*old(v))),
    ensures
        at <= items(*old(v)).len(),
        items(*final(v)) == items(*old(v)).insert(at as int, item),
        ordered(items(*final(v))),
{
    v.push(item)
}

/// `Vec::as_slice` on the vector that a `SortedVec` dereferences to: the
/// elements as a slice, in the vector's order.
#[verifier::external_body]
pub(crate) fn marks_as_slice(v: &SortedVec<u8>) -> (s: &[u8])
    ensures
        s@ == items(*v),
{
    v.as_slice()
}

/// `rank(s, d)` is `i` when `i` elements smaller than `d` are followed by
/// elements that are not.
pub proof fn lemma_rank_at_boundary(s: Seq<u8>, d: u8, i: int)
    requires
        0 <= i <= s.len(),
        forall|j: int| 0 <= j < i ==> s[j] < d,
        forall|j: int| i <= j < s.len() ==> s[j] >= d,
    ensures
        rank(s, d) == i,
    decreases s.len(),
{
    if s.len() > 0 {
        let front = s.drop_last();
        if i == s.len() {
            lemma_rank_at_boundary(front, d, i - 1);
        } else {
            lemma_rank_at_boundary(front, d, i);
        }
    }
}

/// In an ascending sequence an element stands at the index given by its rank.
pub proof fn lemma_rank_of_member(s: Seq<u8>, i: int)
    requires
        ascending(s),
        0 <= i < s.len(),
    ensures
        rank(s, s[i]) == i,
{
    lemma_rank_at_boundary(s, s[i], i);
}

/// The rank of any value lies within the sequence's bounds, and in an
/// ascending sequence it separates the smaller elements from the others.
pub proof fn lemma_rank_splits(s: Seq<u8>, d: u8)
    requires
        ascending(s),
    ensures
        0 <= rank(s, d) <= s.len(),
        forall|j: int| 0 <= j < rank(s, d) ==> s[j] < d,
        forall|j: int| rank(s, d) <= j < s.len() ==> s[j] >= d,
    decreases s.len(),
{
    if s.len() > 0 {
        let front = s.drop_last();
        lemma_rank_splits(front, d);
        if s.last() < d {
            assert forall|j: int| 0 <= j < front.len() implies front[j] < d by {
                assert(s[j] < s[s.len() - 1]);
            }
            lemma_rank_at_boundary(front, d, front.len() as int);
        }
        let r = rank(s, d);
        assert forall|j: int| 0 <= j < r implies s[j] < d by {
            if j < front.len() {
                assert(s[j] == front[j]);
            }
        }
        assert forall|j: int| r <= j < s.len() implies s[j] >= d by {
            if j < front.len() {
                assert(s[j] == front[j]);
            }
        }
    }
}

/// Toggling keeps the marks ascending.
pub proof fn lemma_toggled_ascending(s: Seq<u8>, d: u8)
    requires
        ascending(s),
    ensures
        ascending(toggled(s, d)),
{
    lemma_rank_splits(s, d);
    let r = rank(s, d);
    let t = toggled(s, d);
    if s.contains(d) {
        assert forall|i: int, j: int| 0 <= i < j < t.len() implies t[i] < t[j] by {
            let si = if i < r { i } else { i + 1 };
            let sj = if j < r { j } else { j + 1 };
            assert(t[i] == s[si] && t[j] == s[sj]);
        }
    } else {
        assert forall|j: int| r <= j < s.len() implies s[j] > d by {
            assert(s.contains(s[j]));
        }
        assert forall|i: int, j: int| 0 <= i < j < t.len() implies t[i] < t[j] by {
            if i < r && j > r {
                assert(t[i] == s[i] && t[j] == s[j - 1]);
            } else if i > r {
                assert(t[i] == s[i - 1] && t[j] == s[j - 1]);
            }
        }
    }
}

/// After a toggle the marks are those from before, but for `d`, which is
/// there exactly if it was not.
pub proof fn lemma_toggled_members(s: Seq<u8>, d: u8)
    requires
        ascending(s),
    ensures
        forall|v: u8| toggled(s, d).contains(v) <==> (s.contains(v) != (v == d)),
{
    lemma_rank_splits(s, d);
    let r = rank(s, d);
    let t = toggled(s, d);
    if s.contains(d) {
        let k = choose|k: int| 0 <= k < s.len() && s[k] == d;
        lemma_rank_of_member(s, k);
        assert forall|v: u8| t.contains(v) <==> (s.contains(v) != (v == d)) by {
            if t.contains(v) {
                let i = choose|i: int| 0 <= i < t.len() && t[i] == v;
                let si = if i < r { i } else { i + 1 };
                assert(t[i] == s[si]);
                assert(s.contains(v));
                if si < r {
                    assert(s[si] < s[r]);
                } else {
                    assert(s[r] < s[si]);
                }
            }
            if s.contains(v) && v != d {
                let i = choose|i: int| 0 <= i < s.len() && s[i] == v;
                let ti = if i < r { i } else { i - 1 };
                assert(t[ti] == v);
            }
        }
    } else {
        assert forall|v: u8| t.contains(v) <==> (s.contains(v) != (v == d)) by {
            assert(t[r] == d);
            if t.contains(v) && v != d {
                let i = choose|i: int| 0 <= i < t.len() && t[i] == v;
                let si = if i < r { i } else { i - 1 };
                assert(s[si] == v);
            }
            if s.contains(v) {
                let i = choose|i: int| 0 <= i < s.len() && s[i] == v;
                let ti = if i < r { i } else { i + 1 };
                assert(t[ti] == v);
            }
        }
    }
}

/// Toggling the same digit twice gives back the marks one started with.
pub proof fn lemma_toggled_twice(s: Seq<u8>, d: u8)
    requires
        ascending(s),
    ensures
        toggled(toggled(s, d), d) == s,
{
    lemma_rank_splits(s, d);
    lemma_toggled_ascending(s, d);
    lemma_toggled_members(s, d);
    let r = rank(s, d);
    let t = toggled(s, d);
    if s.contains(d) {
        let k = choose|k: int| 0 <= k < s.len() && s[k] == d;
        lemma_rank_of_member(s, k);
        assert forall|j: int| 0 <= j < r implies t[j] < d by {
            assert(t[j] == s[j]);
        }
        assert forall|j: int| r <= j < t.len() implies t[j] >= d by {
            assert(t[j] == s[j + 1]);
        }
        lemma_rank_at_boundary(t, d, r);
        assert(t.insert(r, d) =~= s);
    } else {
        assert(t[r] == d);
        lemma_rank_of_member(t, r);
        assert(t.remove(r) =~= s);
    }
}

/// Toggling a digit from 1 to 9 leaves only such digits among the marks.
pub proof fn lemma_toggled_digits(s: Seq<u8>, d: u8)
    requires
        ascending(s),
        all_digits(s),
        1 <= d <= 9,
    ensures
        all_digits(toggled(s, d)),
{
    lemma_rank_splits(s, d);
    let r = rank(s, d);
    let t = toggled(s, d);
    assert forall|i: int| 0 <= i < t.len() implies 1 <= #[trigger] t[i] <= 9 by {
        if s.contains(d) {
            let k = choose|k: int| 0 <= k < s.len() && s[k] == d;
            lemma_rank_of_member(s, k);
            let si = if i < r { i } else { i + 1 };
            assert(t[i] == s[si]);
        } else if i != r {
            let si = if i < r { i } else { i - 1 };
            assert(t[i] == s[si]);
        }
    }
}

/// Ascending digits from 1 to 9 are nine at most.
pub proof fn lemma_at_most_nine(s: Seq<u8>)
    requires
        ascending(s),
        all_digits(s),
    ensures
        s.len() <= 9,
        forall|i: int| 0 <= i < s.len() ==> #[trigger] s[i] >= i + 1,
    decreases s.len(),
{
    if s.len() > 0 {
        let front = s.drop_last();
        lemma_at_most_nine(front);
        assert forall|i: int| 0 <= i < s.len() implies #[trigger] s[i] >= i + 1 by {
            if i < front.len() {
                assert(s[i] == front[i]);
            } else if i > 0 {
                assert(front[i - 1] >= i);
                assert(s[i - 1] < s[i]);
            }
        }
        assert(s[s.len() - 1] <= 9);
    }
}

/// Takes `d` out of the marks if it is among them, and puts it in otherwise
/// (`remove_item`, then `push` if nothing was removed).
pub(crate) fn toggle(v: &mut SortedVec<u8>, d: u8)
    requires
        ascending(items(*old(v))),
    ensures
        items(*final(v)) == toggled(items(*old(v)), d),
{
    let ghost before = items(*v);
    let removed = marks_remove_item(v, d);
    if removed.is_none() {
        let at = marks_push(v, d);
        proof {
            let after = items(*v);
            assert forall|j: int| 0 <= j < at implies before[j] < d by {
                assert(after[j] == before[j] && after[at as int] == d);
                assert(before.contains(before[j]));
            }
            assert forall|j: int| at <= j < before.len() implies before[j] >= d by {
                assert(after[j + 1] == before[j] && after[at as int] == d);
            }
            lemma_rank_at_boundary(before, d, at as int);
        }
    } else {
        proof {
            let i = choose|i: int|
                0 <= i < before.len() && before[i] == d && items(*v) == before.remove(i);
            lemma_rank_of_member(before, i);
        }
    }
}

} // verus!
