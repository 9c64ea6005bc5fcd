//! Locating the first index at which two byte sequences diverge.

use vstd::prelude::*;

verus! {

/// First index at which `a` and `b` diverge: the first position where the
/// bytes differ, or, if one sequence is a strict prefix of the other, the
/// length of the shorter one. `None` when the sequences are equal.
pub open spec fn diff_index(a: Seq<u8>, b: Seq<u8>) -> Option<int>
    decreases a.len(),
{
    if a.len() == 0 && b.len() == 0 {
        None
    } else if a.len() == 0 || b.len() == 0 {
        Some(0)
    } else if a[0] != b[0] {
        Some(0)
    } else {
        match diff_index(a.skip(1), b.skip(1)) {
            None => None,
            Some(i) => Some(i + 1),
        }
    }
}

/// Finds the first index where the elements of `a` and `b` differ.
///
/// If the elements don't differ but the number of elements differ, the first
/// index where only one slice has an element is returned.
pub fn first_diff_index(a: &[u8], b: &[u8]) -> (r: Option<usize>)
    ensures
        match r {
            None => diff_index(a@, b@) is None,
            Some(i) => diff_index(a@, b@) == Some(i as int),
        },
{
    let a_len: usize = a.len();
    let b_len: usize = b.len();
    let common: usize = if a_len < b_len {
        a_len
    } else {
        b_len
    };
    let mut i: usize = 0;
    while i < common
        invariant
            0 <= i <= common,
            common == if a@.len() < b@.len() {
                a@.len()
            } else {
                b@.len()
            },
            forall|j: int| 0 <= j < i ==> a@[j] == b@[j],
        decreases common - i,
    {
        if a[i] != b[i] {
            proof {
                lemma_diff_index_from(a@, b@, i as int);
            }
            return Some(i);
        }
        i += 1;
    }
    proof {
        lemma_diff_index_from(a@, b@, common as int);
    }
    if a_len != b_len {
        Some(common)
    } else {
        None
    }
}

/// A divergence index is bounded by the length of both sequences.
pub proof fn lemma_diff_index_bounds(a: Seq<u8>, b: Seq<u8>)
    ensures
        match diff_index(a, b) {
            None => true,
            Some(i) => 0 <= i && i <= a.len() && i <= b.len(),
        },
    decreases a.len(),
{
    if a.len() > 0 && b.len() > 0 && a[0] == b[0] {
        lemma_diff_index_bounds(a.skip(1), b.skip(1));
    }
}

/// What a divergence index means: the sequences are equal exactly when
/// there is none; otherwise all bytes before it are pairwise equal, and at
/// the index either both sequences hold a byte and the bytes differ, or the
/// shorter sequence has ended while the other has not.
pub proof fn lemma_diff_index_divergence(a: Seq<u8>, b: Seq<u8>)
    ensures
        match diff_index(a, b) {
            None => a == b,
            Some(i) => {
                &&& 0 <= i && i <= a.len() && i <= b.len()
                &&& a.subrange(0, i) == b.subrange(0, i)
                &&& (i == a.len() || i == b.len() || a[i] != b[i])
                &&& (i == a.len() ==> a.len() < b.len())
                &&& (i == b.len() ==> b.len() < a.len())
            },
        },
    decreases a.len(),
{
    if a.len() > 0 && b.len() > 0 && a[0] == b[0] {
        let a1 = a.skip(1);
        let b1 = b.skip(1);
        lemma_diff_index_divergence(a1, b1);
        match diff_index(a1, b1) {
            None => {
                assert forall|j: int| 0 <= j < a.len() implies a[j] == b[j] by {
                    if j > 0 {
                        assert(a1[j - 1] == a[j]);
                        assert(b1[j - 1] == b[j]);
                    }
                }
                assert(a =~= b);
            },
            Some(k) => {
                assert forall|j: int| 0 <= j < k + 1 implies a[j] == b[j] by {
                    if j > 0 {
                        assert(a1.subrange(0, k)[j - 1] == b1.subrange(0, k)[j - 1]);
                        assert(a1[j - 1] == a[j]);
                        assert(b1[j - 1] == b[j]);
                    }
                }
                assert(a.subrange(0, k + 1) =~= b.subrange(0, k + 1));
            },
        }
    }
}

/// Equal sequences have no divergence index.
pub proof fn lemma_diff_index_self(a: Seq<u8>)
    ensures
        diff_index(a, a) is None,
    decreases a.len(),
{
    if a.len() > 0 {
        lemma_diff_index_self(a.skip(1));
    }
}

/// The divergence index of two empty sequences is `None`; of an empty and a
/// one-byte sequence, in either order, it is zero.
pub proof fn lemma_diff_index_empty(x: u8)
    ensures
        diff_index(Seq::<u8>::empty(), Seq::<u8>::empty()) is None,
        diff_index(Seq::<u8>::empty(), seq![x]) == Some(0int),
        diff_index(seq![x], Seq::<u8>::empty()) == Some(0int),
{
}

/// `diff_index(a, b)` agrees with `diff_index` on the sequences that remain
/// after removing an equal prefix of length `i`, shifted by `i`.
proof fn lemma_diff_index_from(a: Seq<u8>, b: Seq<u8>, i: int)
    requires
        0 <= i <= a.len(),
        i <= b.len(),
        forall|j: int| 0 <= j < i ==> a[j] == b[j],
    ensures
        diff_index(a, b) == match diff_index(a.skip(i), b.skip(i)) {
            None => None::<int>,
            Some(k) => Some(k + i),
        },
    decreases i,
{
    if i == 0 {
        assert(a.skip(0) =~= a);
        assert(b.skip(0) =~= b);
    } else {
        assert(a.len() > 0 && b.len() > 0);
        assert(a[0] == b[0]);
        let a1 = a.skip(1);
        let b1 = b.skip(1);
        assert(forall|j: int| 0 <= j < i - 1 ==> a1[j] == b1[j]);
        lemma_diff_index_from(a1, b1, i - 1);
        assert(a1.skip(i - 1) =~= a.skip(i));
        assert(b1.skip(i - 1) =~= b.skip(i));
    }
}

} // verus!
