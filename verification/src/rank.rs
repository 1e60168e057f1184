//! The place of an entry in the sorted order of a list.
//!
//! The list itself stays in the order in which entries were added. The rank
//! of an entry is where it would stand if the list were sorted.

use crate::entry::{
    entry_before, lemma_entry_before_asymmetric, lemma_entry_before_irreflexive,
    lemma_entry_before_total, lemma_entry_before_transitive, texts, EntryText, TodoEntry,
};
use vstd::prelude::*;
use vstd::seq_lib::{
    to_multiset_build, to_multiset_contains, to_multiset_insert, to_multiset_len,
    to_multiset_remove,
};

verus! {

/// How many entries of `list` sort strictly before `e`.
pub open spec fn rank(list: Seq<EntryText>, e: EntryText) -> nat
    decreases list.len(),
{
    if list.len() == 0 {
        0
    } else {
        rank(list.drop_last(), e) + if entry_before(list.last(), e) {
            1nat
        } else {
            0nat
        }
    }
}

/// No entry of `list` sorts before an earlier one.
pub open spec fn sorted(list: Seq<EntryText>) -> bool {
    forall|i: int, j: int| 0 <= i < j < list.len() ==> !entry_before(list[j], list[i])
}

/// `p` splits `list` for `e`: the entries before `p` sort before `e`, the
/// others do not.
pub open spec fn splits_at(list: Seq<EntryText>, e: EntryText, p: int) -> bool {
    &&& 0 <= p <= list.len()
    &&& forall|j: int| 0 <= j < p ==> entry_before(#[trigger] list[j], e)
    &&& forall|j: int| p <= j < list.len() ==> !entry_before(#[trigger] list[j], e)
}

/// Where `e` is found in the sorted order of `list`: its rank, if `list` has
/// an entry with the text of `e`.
pub open spec fn sorted_position(list: Seq<EntryText>, e: EntryText) -> Option<nat> {
    if list.contains(e) {
        Some(rank(list, e))
    } else {
        None
    }
}

/// A rank is at most the length of the list.
pub proof fn lemma_rank_bound(list: Seq<EntryText>, e: EntryText)
    ensures
        rank(list, e) <= list.len(),
    decreases list.len(),
{
    if list.len() > 0 {
        lemma_rank_bound(list.drop_last(), e);
    }
}

/// The rank of an entry that the list holds is less than the length.
pub proof fn lemma_rank_of_member(list: Seq<EntryText>, e: EntryText)
    requires
        list.contains(e),
    ensures
        rank(list, e) < list.len(),
    decreases list.len(),
{
    lemma_rank_bound(list.drop_last(), e);
    if list.last() == e {
        lemma_entry_before_irreflexive(e);
    } else {
        let i = choose|i: int| 0 <= i < list.len() && list[i] == e;
        assert(list.drop_last()[i] == e);
        lemma_rank_of_member(list.drop_last(), e);
    }
}

/// Where a list splits for `e` is the rank of `e`.
pub proof fn lemma_rank_of_split(list: Seq<EntryText>, e: EntryText, p: int)
    requires
        splits_at(list, e, p),
    ensures
        rank(list, e) == p,
    decreases list.len(),
{
    if list.len() > 0 {
        let front = list.drop_last();
        if p == list.len() {
            assert(entry_before(list[list.len() - 1], e));
            assert forall|j: int| 0 <= j < p - 1 implies entry_before(#[trigger] front[j], e) by {
                assert(front[j] == list[j]);
            }
            lemma_rank_of_split(front, e, p - 1);
        } else {
            assert(!entry_before(list[list.len() - 1], e));
            assert forall|j: int| 0 <= j < p implies entry_before(#[trigger] front[j], e) by {
                assert(front[j] == list[j]);
            }
            assert forall|j: int| p <= j < front.len() implies !entry_before(
                #[trigger] front[j],
                e,
            ) by {
                assert(front[j] == list[j]);
            }
            lemma_rank_of_split(front, e, p);
        }
    }
}

/// Taking an entry out of a list lowers the ranks of those that it sorted
/// before, by one.
pub proof fn lemma_rank_remove(list: Seq<EntryText>, k: int, e: EntryText)
    requires
        0 <= k < list.len(),
    ensures
        rank(list, e) == rank(list.remove(k), e) + if entry_before(list[k], e) {
            1nat
        } else {
            0nat
        },
    decreases list.len(),
{
    if k == list.len() - 1 {
        assert(list.remove(k) =~= list.drop_last());
    } else {
        assert(list.remove(k).drop_last() =~= list.drop_last().remove(k));
        assert(list.remove(k).last() == list.last());
        lemma_rank_remove(list.drop_last(), k, e);
    }
}

/// Ranks do not depend on the order of the list.
pub proof fn lemma_rank_rearranged(a: Seq<EntryText>, b: Seq<EntryText>, e: EntryText)
    requires
        a.to_multiset() == b.to_multiset(),
    ensures
        rank(a, e) == rank(b, e),
    decreases a.len(),
{
    to_multiset_len(a);
    to_multiset_len(b);
    if a.len() > 0 {
        let x = a.last();
        let front = a.drop_last();
        assert(a =~= front.push(x));
        to_multiset_build(front, x);
        to_multiset_contains(b, x);
        let k = choose|k: int| 0 <= k < b.len() && b[k] == x;
        to_multiset_remove(b, k);
        assert(b.remove(k).to_multiset() =~= front.to_multiset());
        lemma_rank_rearranged(front, b.remove(k), e);
        lemma_rank_remove(b, k, e);
    }
}

/// Whether a list holds an entry does not depend on the order of the list.
pub proof fn lemma_sorted_position_rearranged(a: Seq<EntryText>, b: Seq<EntryText>, e: EntryText)
    requires
        a.to_multiset() == b.to_multiset(),
    ensures
        sorted_position(a, e) == sorted_position(b, e),
{
    to_multiset_contains(a, e);
    to_multiset_contains(b, e);
    lemma_rank_rearranged(a, b, e);
}

/// What does not sort after `b` sorts before whatever `b` sorts before.
proof fn lemma_before_chain(a: EntryText, b: EntryText, c: EntryText)
    requires
        !entry_before(b, a),
        entry_before(b, c),
    ensures
        entry_before(a, c),
{
    lemma_entry_before_total(a, b);
    if a != b {
        lemma_entry_before_transitive(a, b, c);
    }
}

/// The first place in the sorted `list` whose entry does not sort before
/// `target`; the length of the list if all of them do.
pub fn lower_bound(list: &Vec<TodoEntry>, target: &TodoEntry) -> (p: usize)
    requires
        sorted(texts(list@)),
    ensures
        splits_at(texts(list@), target@, p as int),
{
    let ghost t = texts(list@);
    let mut lo: usize = 0;
    let mut hi: usize = list.len();
    while lo < hi
        invariant
            t == texts(list@),
            sorted(t),
            lo <= hi <= list.len(),
            forall|j: int| 0 <= j < lo ==> entry_before(#[trigger] t[j], target@),
            forall|j: int| hi <= j < t.len() ==> !entry_before(#[trigger] t[j], target@),
        decreases hi - lo,
    {
        let mid = lo + (hi - lo) / 2;
        if list[mid].precedes(target) {
            proof {
                assert forall|j: int| 0 <= j < mid + 1 implies entry_before(
                    #[trigger] t[j],
                    target@,
                ) by {
                    if j < mid {
                        lemma_before_chain(t[j], t[mid as int], target@);
                    }
                }
            }
            lo = mid + 1;
        } else {
            proof {
                assert forall|j: int| mid <= j < t.len() implies !entry_before(
                    #[trigger] t[j],
                    target@,
                ) by {
                    if j > mid && entry_before(t[j], target@) {
                        lemma_before_chain(t[mid as int], t[j], target@);
                    }
                }
            }
            hi = mid;
        }
    }
    lo
}

/// Looks `target` up in the sorted `list`: the first place where an entry
/// with its text stands, or `None` if there is none.
pub fn search_sorted(list: &Vec<TodoEntry>, target: &TodoEntry) -> (found: Option<usize>)
    requires
        sorted(texts(list@)),
    ensures
        match found {
            Some(i) => sorted_position(texts(list@), target@) == Some(i as nat),
            None => sorted_position(texts(list@), target@) is None,
        },
{
    let ghost t = texts(list@);
    let p = lower_bound(list, target);
    if p < list.len() && !target.precedes(&list[p]) {
        proof {
            lemma_entry_before_total(t[p as int], target@);
            assert(t[p as int] == target@);
            lemma_rank_of_split(t, target@, p as int);
        }
        Some(p)
    } else {
        proof {
            if t.contains(target@) {
                let j = choose|j: int| 0 <= j < t.len() && t[j] == target@;
                lemma_entry_before_irreflexive(target@);
                assert(j >= p);
                assert(entry_before(target@, t[p as int]));
                assert(!entry_before(t[j], t[p as int]));
            }
        }
        None
    }
}

/// The entries of `entries`, sorted.
pub fn sorted_copy(entries: &Vec<TodoEntry>) -> (out: Vec<TodoEntry>)
    ensures
        sorted(texts(out@)),
        texts(out@).to_multiset() == texts(entries@).to_multiset(),
{
    let mut out: Vec<TodoEntry> = Vec::new();
    let mut i: usize = 0;
    assert(texts(entries@.take(0)) =~= texts(out@));
    while i < entries.len()
        invariant
            i <= entries.len(),
            sorted(texts(out@)),
            texts(out@).to_multiset() == texts(entries@.take(i as int)).to_multiset(),
        decreases entries.len() - i,
    {
        let entry = entries[i].clone();
        let p = lower_bound(&out, &entry);
        let ghost before = texts(out@);
        out.insert(p, entry);
        proof {
            let after = texts(out@);
            assert(after =~= before.insert(p as int, entry@));
            to_multiset_insert(before, p as int, entry@);
            assert(texts(entries@.take(i + 1)) =~= texts(entries@.take(i as int)).push(entry@));
            to_multiset_build(texts(entries@.take(i as int)), entry@);
            assert forall|a: int, b: int| 0 <= a < b < after.len() implies !entry_before(
                after[b],
                after[a],
            ) by {
                if b == p {
                    assert(after[a] == before[a]);
                    lemma_entry_before_asymmetric(before[a], entry@);
                } else if a == p {
                    assert(after[b] == before[b - 1]);
                } else {
                    let a0 = if a < p { a } else { a - 1 };
                    let b0 = if b < p { b } else { b - 1 };
                    assert(after[a] == before[a0]);
                    assert(after[b] == before[b0]);
                }
            }
        }
        i += 1;
    }
    assert(entries@.take(i as int) =~= entries@);
    out
}

} // verus!
