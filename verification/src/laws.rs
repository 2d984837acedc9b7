//! What holds of every buffer and of every pair of byte sequences: equality
//! and order look at the bytes alone, and the order is a strict total order.

use vstd::prelude::*;
use vstd::std_specs::cmp::{PartialEqSpec, PartialOrdSpec};
use std::cmp::Ordering;
use crate::buffer::Bytes;
use crate::convert::ToBytes;
use crate::order::{agree_below, decides_less, lex_less, lex_order, lemma_scan_decides};

verus! {

/// `x` is what converting `s` may return: the pair meets the contract of the
/// conversion for the type of `s`.
pub open spec fn converts_to<'a, S: ToBytes<'a>>(s: S, x: Bytes<'a>) -> bool {
    S::to_bytes.ensures((s,), x)
}

/// Whatever it is made from, a buffer holds the bytes of its source.
pub proof fn law_conversion_keeps_bytes<'a, S: ToBytes<'a>>(s: S, x: Bytes<'a>)
    requires
        converts_to(s, x),
    ensures
        x@ == s.byte_seq(),
        x@.len() == s.byte_seq().len(),
{
}

/// A borrowed slice converts to a buffer that borrows the same slice, and so
/// holds exactly its bytes, and as many.
pub proof fn law_borrowed_slice_is_kept<'a>(s: &'a [u8], x: Bytes<'a>)
    requires
        converts_to(s, x),
    ensures
        x == Bytes::Slice(s),
        x@ == s@,
        x@.len() == s@.len(),
{
}

/// Converting a buffer by value yields that buffer; converting it by
/// reference yields a buffer with the same bytes in the same ownership mode.
pub proof fn law_conversion_of_buffer_is_identity<'a>(x: Bytes<'a>, y: Bytes<'a>, z: Bytes<'a>)
    requires
        converts_to(x, y),
        converts_to(&x, z),
    ensures
        y == x,
        z@ == x@,
        z.same_mode(&x),
        z.eq_spec(&x),
{
}

/// Two sources that hold the same bytes convert to equal buffers, whatever
/// their types and whatever ownership modes result.
pub proof fn law_equal_sources_give_equal_buffers<'a, S: ToBytes<'a>, U: ToBytes<'a>>(
    s: S,
    u: U,
    x: Bytes<'a>,
    y: Bytes<'a>,
)
    requires
        converts_to(s, x),
        converts_to(u, y),
        s.byte_seq() == u.byte_seq(),
    ensures
        x.eq_spec(&y),
        x.partial_cmp_spec(&y) == Some(Ordering::Equal),
{
}

/// Two buffers are equal exactly when they hold the same bytes, whatever
/// backs either of them; and then neither comes before the other.
pub proof fn law_equality_ignores_mode(x: Bytes, y: Bytes)
    ensures
        x.eq_spec(&y) <==> x@ == y@,
        x.eq_spec(&y) <==> x.partial_cmp_spec(&y) == Some(Ordering::Equal),
        x.eq_spec(&y) <==> y.eq_spec(&x),
        x.eq_spec(&x),
{
}

/// The order of two buffers is the lexicographic order of their bytes,
/// whatever backs either of them.
pub proof fn law_order_ignores_mode(x: Bytes, y: Bytes, z: Bytes)
    requires
        y@ == z@,
    ensures
        x.partial_cmp_spec(&y) == Some(lex_order(x@, y@)),
        x.partial_cmp_spec(&y) == x.partial_cmp_spec(&z),
        y.partial_cmp_spec(&x) == z.partial_cmp_spec(&x),
{
}

/// The common prefix of two sequences ends somewhere.
proof fn lemma_common_prefix_ends(a: Seq<u8>, b: Seq<u8>, i: int) -> (k: int)
    requires
        agree_below(a, b, i),
    ensures
        agree_below(a, b, k),
        k < a.len() && k < b.len() ==> a[k] != b[k],
    decreases a.len() - i,
{
    if i < a.len() && i < b.len() && a[i] == b[i] {
        lemma_common_prefix_ends(a, b, i + 1)
    } else {
        i
    }
}

/// Of two sequences exactly one holds: they are equal, the first comes before
/// the second, or the second comes before the first.
pub proof fn law_order_is_total(a: Seq<u8>, b: Seq<u8>)
    ensures
        a == b || lex_less(a, b) || lex_less(b, a),
        !(a == b && lex_less(a, b)),
        !(a == b && lex_less(b, a)),
        !(lex_less(a, b) && lex_less(b, a)),
        lex_order(a, b) == Ordering::Less <==> lex_order(b, a) == Ordering::Greater,
        lex_order(a, b) == Ordering::Equal <==> lex_order(b, a) == Ordering::Equal,
        lex_order(a, b) == Ordering::Equal <==> a == b,
{
    let k = lemma_common_prefix_ends(a, b, 0);
    lemma_scan_decides(a, b, k);
}

/// The order is transitive.
pub proof fn law_order_is_transitive(a: Seq<u8>, b: Seq<u8>, c: Seq<u8>)
    requires
        lex_less(a, b),
        lex_less(b, c),
    ensures
        lex_less(a, c),
{
    let k = choose|k: int| decides_less(a, b, k);
    let m = choose|m: int| decides_less(b, c, m);
    if k <= m {
        assert(decides_less(a, c, k));
    } else {
        assert(decides_less(a, c, m));
    }
}

/// A sequence comes after each of its proper prefixes.
pub proof fn law_proper_prefix_comes_first(a: Seq<u8>, b: Seq<u8>)
    requires
        a.len() < b.len(),
        forall|j: int| 0 <= j < a.len() ==> a[j] == b[j],
    ensures
        lex_less(a, b),
        lex_order(a, b) == Ordering::Less,
        lex_order(b, a) == Ordering::Greater,
{
    law_order_is_total(a, b);
    if lex_less(b, a) {
        let m = choose|m: int| decides_less(b, a, m);
        assert(a[m] == b[m]);
    }
}

/// Where two sequences agree up to a position and differ at it, the one with
/// the smaller byte there comes first, whatever follows and however long
/// either is.
pub proof fn law_first_difference_decides(a: Seq<u8>, b: Seq<u8>, k: int)
    requires
        agree_below(a, b, k),
        k < a.len(),
        k < b.len(),
        a[k] < b[k],
    ensures
        lex_less(a, b),
        lex_order(a, b) == Ordering::Less,
        lex_order(b, a) == Ordering::Greater,
{
    assert(decides_less(a, b, k));
    law_order_is_total(a, b);
}

} // verus!
