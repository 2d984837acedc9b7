//! What the verified code takes on trust about hashing a slice.

use vstd::prelude::*;

verus! {

/// `Hash::hash` of a slice feeds the slice to the hasher. Nothing is claimed
/// of the hasher's state afterwards: what a hasher does with what it is fed is
/// its own business.
pub assume_specification<T, H>[ <[T] as std::hash::Hash>::hash ](items: &[T], state: &mut H) where
    H: std::hash::Hasher,
    T: std::hash::Hash,
;

} // verus!
