//! The lexicographic order on byte sequences, and the scan that decides it.

use vstd::prelude::*;
use std::cmp::Ordering;

verus! {

/// `a` and `b` hold the same bytes at every position below `k`.
pub open spec fn agree_below(a: Seq<u8>, b: Seq<u8>, k: int) -> bool {
    &&& 0 <= k <= a.len()
    &&& k <= b.len()
    &&& forall|j: int| 0 <= j < k ==> a[j] == b[j]
}

/// `k` is where `a` is decided to come before `b`: either `a` ends there and
/// `b` goes on, or both go on and `a` holds the smaller byte.
pub open spec fn decides_less(a: Seq<u8>, b: Seq<u8>, k: int) -> bool {
    &&& agree_below(a, b, k)
    &&& k < b.len()
    &&& (k == a.len() || a[k] < b[k])
}

/// `a` comes strictly before `b` in the lexicographic order: a proper prefix
/// comes first, otherwise the first byte that differs decides.
pub open spec fn lex_less(a: Seq<u8>, b: Seq<u8>) -> bool {
    exists|k: int| decides_less(a, b, k)
}

/// What the end of a common prefix says of two sequences: if they agree below
/// `k` and differ at `k` where both go on, then `k` settles whether they are
/// equal and which of them comes first.
pub proof fn lemma_scan_decides(a: Seq<u8>, b: Seq<u8>, k: int)
    requires
        agree_below(a, b, k),
        k < a.len() && k < b.len() ==> a[k] != b[k],
    ensures
        a == b <==> k == a.len() && k == b.len(),
        lex_less(a, b) <==> k < b.len() && (k == a.len() || a[k] < b[k]),
        lex_less(b, a) <==> k < a.len() && (k == b.len() || b[k] < a[k]),
{
    if k == a.len() && k == b.len() {
        assert(a =~= b);
    }
    if k < b.len() && (k == a.len() || a[k] < b[k]) {
        assert(decides_less(a, b, k));
    }
    if k < a.len() && (k == b.len() || b[k] < a[k]) {
        assert(decides_less(b, a, k));
    }
    if lex_less(a, b) {
        let m = choose|m: int| decides_less(a, b, m);
        if m < k {
            assert(a[m] == b[m]);
        } else if k < m {
            assert(a[k] == b[k]);
        }
    }
    if lex_less(b, a) {
        let m = choose|m: int| decides_less(b, a, m);
        if m < k {
            assert(a[m] == b[m]);
        } else if k < m {
            assert(a[k] == b[k]);
        }
    }
}

/// The length of the longest common prefix of two slices, with what it tells
/// of their order.
pub fn common_prefix_len(a: &[u8], b: &[u8]) -> (k: usize)
    ensures
        agree_below(a@, b@, k as int),
        k < a@.len() && k < b@.len() ==> a@[k as int] != b@[k as int],
        a@ == b@ <==> k == a@.len() && k == b@.len(),
        lex_less(a@, b@) <==> k < b@.len() && (k == a@.len() || a@[k as int] < b@[k as int]),
        lex_less(b@, a@) <==> k < a@.len() && (k == b@.len() || b@[k as int] < a@[k as int]),
{
    let mut k: usize = 0;
    while k < a.len() && k < b.len() && a[k] == b[k]
        invariant
            agree_below(a@, b@, k as int),
        decreases a@.len() - k,
    {
        k += 1;
    }
    proof {
        lemma_scan_decides(a@, b@, k as int);
    }
    k
}

/// Whether two slices hold the same bytes.
pub fn same_bytes(a: &[u8], b: &[u8]) -> (r: bool)
    ensures
        r == (a@ == b@),
{
    if a.len() != b.len() {
        return false;
    }
    let k: usize = common_prefix_len(a, b);
    k == a.len()
}

/// How `a` stands to `b` in the lexicographic order.
pub open spec fn lex_order(a: Seq<u8>, b: Seq<u8>) -> Ordering {
    if a == b {
        Ordering::Equal
    } else if lex_less(a, b) {
        Ordering::Less
    } else {
        Ordering::Greater
    }
}

/// Compares two slices byte by byte, in one scan of their common prefix.
pub fn lex_compare(a: &[u8], b: &[u8]) -> (r: Ordering)
    ensures
        r == lex_order(a@, b@),
{
    let k: usize = common_prefix_len(a, b);
    if k == b.len() {
        if k == a.len() {
            Ordering::Equal
        } else {
            Ordering::Greater
        }
    } else if k == a.len() {
        Ordering::Less
    } else if a[k] < b[k] {
        Ordering::Less
    } else {
        Ordering::Greater
    }
}

} // verus!
