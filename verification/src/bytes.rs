//! Byte strings in lexicographic order.

use vstd::prelude::*;

verus! {

/// `a` and `b` agree on their first `k` bytes.
pub open spec fn agree_up_to(a: Seq<u8>, b: Seq<u8>, k: int) -> bool {
    &&& 0 <= k <= a.len()
    &&& k <= b.len()
    &&& forall|j: int| 0 <= j < k ==> a[j] == b[j]
}

/// Position `k` decides that `a` comes before `b`: they agree up to `k`, and
/// there `a` ends while `b` goes on, or `a` has the smaller byte.
pub open spec fn decides_before(a: Seq<u8>, b: Seq<u8>, k: int) -> bool {
    &&& agree_up_to(a, b, k)
    &&& k < b.len()
    &&& k < a.len() ==> a[k] < b[k]
}

/// `a` comes strictly before `b` in lexicographic order.
pub open spec fn bytes_before(a: Seq<u8>, b: Seq<u8>) -> bool {
    exists|k: int| decides_before(a, b, k)
}

/// Some byte of `a` is smaller than the byte of `b` at its place, and the
/// bytes before it are the same: `a` comes before `b` whatever follows them.
pub open spec fn differs_before(a: Seq<u8>, b: Seq<u8>) -> bool {
    exists|k: int| agree_up_to(a, b, k) && k < a.len() && k < b.len() && #[trigger] a[k] < b[k]
}

/// No byte string comes before itself.
pub proof fn lemma_bytes_before_irreflexive(a: Seq<u8>)
    ensures
        !bytes_before(a, a),
{
}

/// The order of byte strings is transitive.
pub proof fn lemma_bytes_before_transitive(a: Seq<u8>, b: Seq<u8>, c: Seq<u8>)
    requires
        bytes_before(a, b),
        bytes_before(b, c),
    ensures
        bytes_before(a, c),
{
    let k1 = choose|k: int| decides_before(a, b, k);
    let k2 = choose|k: int| decides_before(b, c, k);
    let k = if k1 <= k2 {
        k1
    } else {
        k2
    };
    assert(decides_before(a, c, k));
}

/// Two byte strings never come before each other.
pub proof fn lemma_bytes_before_asymmetric(a: Seq<u8>, b: Seq<u8>)
    requires
        bytes_before(a, b),
    ensures
        !bytes_before(b, a),
{
    if bytes_before(b, a) {
        lemma_bytes_before_transitive(a, b, a);
        lemma_bytes_before_irreflexive(a);
    }
}

/// Bytes in front of both do not change which of two byte strings comes
/// first.
pub proof fn lemma_same_head(head: Seq<u8>, a: Seq<u8>, b: Seq<u8>)
    ensures
        bytes_before(head + a, head + b) == bytes_before(a, b),
{
    let n = head.len() as int;
    if bytes_before(a, b) {
        let k = choose|k: int| decides_before(a, b, k);
        assert(decides_before(head + a, head + b, n + k));
    }
    if bytes_before(head + a, head + b) {
        let k = choose|k: int| decides_before(head + a, head + b, k);
        assert(decides_before(a, b, k - n)) by {
            assert forall|j: int| 0 <= j < k - n implies a[j] == b[j] by {
                assert((head + a)[j + n] == (head + b)[j + n]);
            }
        }
    }
}

/// Where the heads of two byte strings differ, the heads decide which comes
/// first.
pub proof fn lemma_head_decides(x: Seq<u8>, y: Seq<u8>, a: Seq<u8>, b: Seq<u8>)
    requires
        differs_before(x, y),
    ensures
        bytes_before(x + a, y + b),
        !bytes_before(y + b, x + a),
{
    let k = choose|k: int|
        agree_up_to(x, y, k) && k < x.len() && k < y.len() && #[trigger] x[k] < y[k];
    assert(decides_before(x + a, y + b, k));
    lemma_bytes_before_asymmetric(x + a, y + b);
}

/// Whether the bytes `a` come strictly before the bytes `b`.
pub fn bytes_less(a: &[u8], b: &[u8]) -> (less: bool)
    ensures
        less == bytes_before(a@, b@),
{
    let mut i: usize = 0;
    while i < a.len() && i < b.len()
        invariant
            agree_up_to(a@, b@, i as int),
        decreases a.len() - i,
    {
        if a[i] != b[i] {
            let less = a[i] < b[i];
            proof {
                if less {
                    assert(decides_before(a@, b@, i as int));
                } else {
                    assert(decides_before(b@, a@, i as int));
                    lemma_bytes_before_asymmetric(b@, a@);
                }
            }
            return less;
        }
        i += 1;
    }
    proof {
        if i < b.len() {
            assert(decides_before(a@, b@, i as int));
        } else {
            if a.len() == b.len() {
                assert(a@ =~= b@);
                lemma_bytes_before_irreflexive(a@);
            } else {
                assert(decides_before(b@, a@, i as int));
                lemma_bytes_before_asymmetric(b@, a@);
            }
        }
    }
    i < b.len()
}

/// Whether `a` and `b` hold the same bytes.
pub fn bytes_equal(a: &[u8], b: &[u8]) -> (equal: bool)
    ensures
        equal == (a@ == b@),
{
    if a.len() != b.len() {
        return false;
    }
    let mut i: usize = 0;
    while i < a.len()
        invariant
            a.len() == b.len(),
            agree_up_to(a@, b@, i as int),
        decreases a.len() - i,
    {
        if a[i] != b[i] {
            return false;
        }
        i += 1;
    }
    assert(a@ =~= b@);
    true
}

} // verus!
