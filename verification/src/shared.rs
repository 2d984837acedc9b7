//! What the verified code takes on trust about `bytes::Bytes`, the shared
//! immutable buffer of the `bytes` crate.

use vstd::prelude::*;
use bytes::Bytes as SharedBytes;

verus! {

/// `bytes::Bytes` is opaque to the verifier: a handle that is carried around.
#[verifier::external_type_specification]
#[verifier::external_body]
pub struct ExSharedBytes(SharedBytes);

/// The bytes that a `bytes::Bytes` handle gives access to, in order.
pub uninterp spec fn shared_contents(b: SharedBytes) -> Seq<u8>;

/// `bytes::Bytes::len` returns the `len` field of the handle, which is the
/// length of the slice that the handle derefs to.
pub assume_specification[ SharedBytes::len ](b: &SharedBytes) -> (n: usize)
    ensures
        n == shared_contents(*b).len(),
;

/// `bytes::Bytes::copy_from_slice` copies the slice into a fresh vector and
/// turns that vector into a handle: the handle holds the bytes of `data`.
pub assume_specification[ SharedBytes::copy_from_slice ](data: &[u8]) -> (b: SharedBytes)
    ensures
        shared_contents(b) == data@,
;

/// `Clone::clone` of `bytes::Bytes` hands out a second handle on the same
/// pointer and length: the clone gives the bytes that the handle it was made from gives.
pub assume_specification[ <SharedBytes as Clone>::clone ](b: &SharedBytes) -> (c: SharedBytes)
    ensures
        shared_contents(c) == shared_contents(*b),
;

/// `Deref::deref` of `bytes::Bytes` returns the slice made of the handle's
/// pointer and length, without copying.
pub assume_specification<'a>[ <SharedBytes as core::ops::Deref>::deref ](b: &'a SharedBytes) -> (s: &'a [u8])
    ensures
        s@ == shared_contents(*b),
;

} // verus!
