//! The buffer type, its view as a sequence of bytes, and how two buffers
//! compare.

use vstd::prelude::*;
use vstd::utf8::encode_utf8;
use std::rc::Rc;
use std::ops::Deref;
use crate::shared::shared_contents;
use crate::order::{same_bytes, lex_order, lex_compare};
use std::cmp::Ordering;

verus! {

/// Bytes in one of four ownership modes. Which mode backs a value shows only
/// in what it costs to make and to clone it, never in what it holds.
#[derive(Debug)]
pub enum Bytes<'a> {
    /// A borrowed slice.
    Slice(&'a [u8]),
    /// A shared immutable buffer that is cheap to clone.
    #[allow(clippy::enum_variant_names)]
    Bytes(bytes::Bytes),
    /// An owned byte vector behind a reference count.
    Vec(Rc<Vec<u8>>),
    /// An owned string behind a reference count, read as its UTF-8 bytes.
    String(Rc<String>),
}

impl<'a> View for Bytes<'a> {
    type V = Seq<u8>;

    open spec fn view(&self) -> Seq<u8> {
        match *self {
            Bytes::Slice(s) => s@,
            Bytes::Bytes(b) => shared_contents(b),
            Bytes::Vec(v) => v@,
            Bytes::String(s) => encode_utf8(s@),
        }
    }
}

impl<'a> Bytes<'a> {
    /// Both values are backed in the same ownership mode.
    pub open spec fn same_mode(&self, other: &Self) -> bool {
        match (*self, *other) {
            (Bytes::Slice(_), Bytes::Slice(_)) => true,
            (Bytes::Bytes(_), Bytes::Bytes(_)) => true,
            (Bytes::Vec(_), Bytes::Vec(_)) => true,
            (Bytes::String(_), Bytes::String(_)) => true,
            _ => false,
        }
    }

    /// The number of bytes held.
    pub fn size(&self) -> (n: usize)
        ensures
            n == self@.len(),
    {
        match self {
            Bytes::Slice(s) => s.len(),
            Bytes::Bytes(b) => b.len(),
            Bytes::Vec(v) => v.len(),
            Bytes::String(s) => s.as_str().as_bytes().len(),
        }
    }

    /// How this value stands to `other` in the lexicographic order of their
    /// bytes. The ownership modes play no part.
    pub fn cmp(&self, other: &Self) -> (r: Ordering)
        ensures
            r == lex_order(self@, other@),
    {
        lex_compare(self.as_ref(), other.as_ref())
    }
}

impl<'a> Clone for Bytes<'a> {
    /// A second handle on the same bytes, in the same ownership mode.
    fn clone(&self) -> (r: Self)
        ensures
            r@ == self@,
            r.same_mode(self),
    {
        match self {
            Bytes::Slice(s) => Bytes::Slice(s),
            Bytes::Bytes(b) => Bytes::Bytes(b.clone()),
            Bytes::Vec(v) => Bytes::Vec(Rc::clone(v)),
            Bytes::String(s) => Bytes::String(Rc::clone(s)),
        }
    }
}

impl<'a> PartialEq for Bytes<'a> {
    /// Whether both values hold the same bytes: `eq_spec` below says so.
    fn eq(&self, other: &Self) -> (r: bool) {
        same_bytes(self.as_ref(), other.as_ref())
    }
}

impl<'a> vstd::std_specs::cmp::PartialEqSpecImpl for Bytes<'a> {
    open spec fn obeys_eq_spec() -> bool {
        true
    }

    open spec fn eq_spec(&self, other: &Self) -> bool {
        self@ == other@
    }
}

impl<'a> Eq for Bytes<'a> {}

impl<'a> PartialOrd for Bytes<'a> {
    /// The lexicographic order of the bytes: `partial_cmp_spec` below says so.
    fn partial_cmp(&self, other: &Self) -> (r: Option<Ordering>) {
        Some(lex_compare(self.as_ref(), other.as_ref()))
    }
}

impl<'a> vstd::std_specs::cmp::PartialOrdSpecImpl for Bytes<'a> {
    open spec fn obeys_partial_cmp_spec() -> bool {
        true
    }

    open spec fn partial_cmp_spec(&self, other: &Self) -> Option<Ordering> {
        Some(lex_order(self@, other@))
    }
}

impl<'a> std::hash::Hash for Bytes<'a> {
    /// Feeds the hasher the bytes held, as a slice: the ownership mode is not
    /// fed, so equal values feed a hasher alike.
    fn hash<H: std::hash::Hasher>(&self, state: &mut H) {
        self.as_ref().hash(state)
    }
}

impl<'a> AsRef<[u8]> for Bytes<'a> {
    /// The bytes held, borrowed from where they lie: nothing is copied.
    fn as_ref(&self) -> (r: &[u8])
        ensures
            r@ == self@,
    {
        match self {
            Bytes::Slice(s) => s,
            Bytes::Bytes(b) => b.deref(),
            Bytes::Vec(v) => v.as_slice(),
            Bytes::String(s) => s.as_str().as_bytes(),
        }
    }
}

} // verus!
