//! Texts in lexicographic order, character by character.

use vstd::prelude::*;

verus! {

/// Position `k` decides that the text `a` comes before the text `b`: they
/// agree up to `k`, and there `a` ends while `b` goes on, or `a` has the
/// smaller character.
pub open spec fn letters_decide(a: Seq<char>, b: Seq<char>, k: int) -> bool {
    &&& 0 <= k <= a.len()
    &&& k < b.len()
    &&& forall|j: int| 0 <= j < k ==> a[j] == b[j]
    &&& k < a.len() ==> a[k] < b[k]
}

/// The text `a` comes strictly before the text `b`.
pub open spec fn text_before(a: Seq<char>, b: Seq<char>) -> bool {
    exists|k: int| letters_decide(a, b, k)
}

/// No text comes before itself.
pub proof fn lemma_text_before_irreflexive(a: Seq<char>)
    ensures
        !text_before(a, a),
{
}

/// The order of texts is transitive.
pub proof fn lemma_text_before_transitive(a: Seq<char>, b: Seq<char>, c: Seq<char>)
    requires
        text_before(a, b),
        text_before(b, c),
    ensures
        text_before(a, c),
{
    let k1 = choose|k: int| letters_decide(a, b, k);
    let k2 = choose|k: int| letters_decide(b, c, k);
    let k = if k1 <= k2 {
        k1
    } else {
        k2
    };
    assert(letters_decide(a, c, k));
}

/// Two texts that agree up to `i` are equal, or one comes before the other.
proof fn lemma_texts_compare_from(a: Seq<char>, b: Seq<char>, i: int)
    requires
        0 <= i <= a.len(),
        i <= b.len(),
        forall|j: int| 0 <= j < i ==> a[j] == b[j],
    ensures
        a == b || text_before(a, b) || text_before(b, a),
    decreases a.len() - i,
{
    if i == a.len() {
        if i == b.len() {
            assert(a =~= b);
        } else {
            assert(letters_decide(a, b, i));
        }
    } else if i == b.len() {
        assert(letters_decide(b, a, i));
    } else if a[i] < b[i] {
        assert(letters_decide(a, b, i));
    } else if b[i] < a[i] {
        assert(letters_decide(b, a, i));
    } else {
        lemma_texts_compare_from(a, b, i + 1);
    }
}

/// Of two different texts one comes before the other.
pub proof fn lemma_text_before_total(a: Seq<char>, b: Seq<char>)
    ensures
        a == b || text_before(a, b) || text_before(b, a),
{
    lemma_texts_compare_from(a, b, 0);
}

/// The first characters of two texts decide which comes first; where they
/// are the same, the rest decides.
pub proof fn lemma_text_before_by_first(a: Seq<char>, b: Seq<char>)
    requires
        a.len() > 0,
        b.len() > 0,
    ensures
        text_before(a, b) == (a[0] < b[0] || (a[0] == b[0] && text_before(
            a.drop_first(),
            b.drop_first(),
        ))),
{
    let a1 = a.drop_first();
    let b1 = b.drop_first();
    if text_before(a, b) {
        let k = choose|k: int| letters_decide(a, b, k);
        if k > 0 {
            assert(a[0] == b[0]);
            assert(letters_decide(a1, b1, k - 1)) by {
                assert forall|j: int| 0 <= j < k - 1 implies a1[j] == b1[j] by {
                    assert(a[j + 1] == b[j + 1]);
                }
            }
        }
    }
    if a[0] < b[0] {
        assert(letters_decide(a, b, 0));
    } else if a[0] == b[0] && text_before(a1, b1) {
        let k = choose|k: int| letters_decide(a1, b1, k);
        assert(letters_decide(a, b, k + 1)) by {
            assert forall|j: int| 0 <= j < k + 1 implies a[j] == b[j] by {
                if j > 0 {
                    assert(a1[j - 1] == b1[j - 1]);
                }
            }
            if k + 1 < a.len() {
                assert(a1[k] == a[k + 1]);
                assert(b1[k] == b[k + 1]);
            }
        }
    }
}

} // verus!
