//! Conversion into [`Bytes`]: which source gives which ownership mode.
//!
//! Borrowed sources stay borrowed, owned sources move behind a reference
//! count, and only the small arrays are copied. Arrays are accepted up to 16
//! bytes, one impl per length, so that the bytes of any integer convert and no
//! large array is ever copied by accident.

use vstd::prelude::*;
use vstd::utf8::encode_utf8;
use std::rc::Rc;
use crate::buffer::Bytes;
use crate::shared::shared_contents;

verus! {

/// A value that can be turned into [`Bytes`].
pub trait ToBytes<'a> {
    /// The bytes that the conversion yields.
    spec fn byte_seq(self) -> Seq<u8>;

    /// Consumes the value and hands its bytes out as [`Bytes`].
    fn to_bytes(self) -> (r: Bytes<'a>)
        ensures
            r@ == self.byte_seq(),
    ;
}

impl<'a> ToBytes<'a> for &'a [u8] {
    open spec fn byte_seq(self) -> Seq<u8> {
        self@
    }

    /// Borrows the slice.
    fn to_bytes(self) -> (r: Bytes<'a>)
        ensures
            r == Bytes::Slice(self),
    {
        Bytes::Slice(self)
    }
}

impl<'a> ToBytes<'a> for &'a str {
    open spec fn byte_seq(self) -> Seq<u8> {
        encode_utf8(self@)
    }

    /// Borrows the string's UTF-8 bytes.
    fn to_bytes(self) -> (r: Bytes<'a>)
        ensures
            r matches Bytes::Slice(s) && s@ == encode_utf8(self@),
    {
        Bytes::Slice(self.as_bytes())
    }
}

impl<'a> ToBytes<'a> for String {
    open spec fn byte_seq(self) -> Seq<u8> {
        encode_utf8(self@)
    }

    /// Moves the string behind a fresh reference count.
    fn to_bytes(self) -> (r: Bytes<'a>)
        ensures
            r matches Bytes::String(s) && s@ == self@,
    {
        Bytes::String(Rc::new(self))
    }
}

impl<'a> ToBytes<'a> for Vec<u8> {
    open spec fn byte_seq(self) -> Seq<u8> {
        self@
    }

    /// Moves the vector behind a fresh reference count.
    fn to_bytes(self) -> (r: Bytes<'a>)
        ensures
            r matches Bytes::Vec(v) && v@ == self@,
    {
        Bytes::Vec(Rc::new(self))
    }
}

impl<'a> ToBytes<'a> for bytes::Bytes {
    open spec fn byte_seq(self) -> Seq<u8> {
        shared_contents(self)
    }

    /// Takes the shared buffer as it is.
    fn to_bytes(self) -> (r: Bytes<'a>)
        ensures
            r == Bytes::Bytes(self),
    {
        Bytes::Bytes(self)
    }
}

impl<'a> ToBytes<'a> for &bytes::Bytes {
    open spec fn byte_seq(self) -> Seq<u8> {
        shared_contents(*self)
    }

    /// Takes a clone of the shared buffer, which shares its storage.
    fn to_bytes(self) -> (r: Bytes<'a>)
        ensures
            r matches Bytes::Bytes(b) && shared_contents(b) == shared_contents(*self),
    {
        Bytes::Bytes(self.clone())
    }
}

impl<'a> ToBytes<'a> for Bytes<'a> {
    open spec fn byte_seq(self) -> Seq<u8> {
        self@
    }

    /// Hands the value back unchanged.
    fn to_bytes(self) -> (r: Bytes<'a>)
        ensures
            r == self,
    {
        self
    }
}

impl<'a> ToBytes<'a> for &Bytes<'a> {
    open spec fn byte_seq(self) -> Seq<u8> {
        self@
    }

    /// Clones the value: the result is backed in the same mode.
    fn to_bytes(self) -> (r: Bytes<'a>)
        ensures
            r.same_mode(self),
    {
        self.clone()
    }
}

/// Copies a small array into a fresh shared buffer.
fn copy_array<'a, const N: usize>(array: [u8; N]) -> (r: Bytes<'a>)
    ensures
        r matches Bytes::Bytes(b) && shared_contents(b) == array@,
{
    Bytes::Bytes(bytes::Bytes::copy_from_slice(array.as_slice()))
}

impl<'a> ToBytes<'a> for [u8; 0] {
    open spec fn byte_seq(self) -> Seq<u8> {
        self@
    }

    /// Copies the empty array into a fresh shared buffer.
    fn to_bytes(self) -> (r: Bytes<'a>)
        ensures
            r matches Bytes::Bytes(b) && shared_contents(b) == self@,
    {
        copy_array(self)
    }
}

impl<'a> ToBytes<'a> for [u8; 1] {
    open spec fn byte_seq(self) -> Seq<u8> {
        self@
    }

    /// Copies the one byte into a fresh shared buffer.
    fn to_bytes(self) -> (r: Bytes<'a>)
        ensures
            r matches Bytes::Bytes(b) && shared_contents(b) == self@,
    {
        copy_array(self)
    }
}

impl<'a> ToBytes<'a> for [u8; 2] {
    open spec fn byte_seq(self) -> Seq<u8> {
        self@
    }

    /// Copies the 2 bytes into a fresh shared buffer.
    fn to_bytes(self) -> (r: Bytes<'a>)
        ensures
            r matches Bytes::Bytes(b) && shared_contents(b) == self@,
    {
        copy_array(self)
    }
}

impl<'a> ToBytes<'a> for [u8; 3] {
    open spec fn byte_seq(self) -> Seq<u8> {
        self@
    }

    /// Copies the 3 bytes into a fresh shared buffer.
    fn to_bytes(self) -> (r: Bytes<'a>)
        ensures
            r matches Bytes::Bytes(b) && shared_contents(b) == self@,
    {
        copy_array(self)
    }
}

impl<'a> ToBytes<'a> for [u8; 4] {
    open spec fn byte_seq(self) -> Seq<u8> {
        self@
    }

    /// Copies the 4 bytes into a fresh shared buffer.
    fn to_bytes(self) -> (r: Bytes<'a>)
        ensures
            r matches Bytes::Bytes(b) && shared_contents(b) == self@,
    {
        copy_array(self)
    }
}

impl<'a> ToBytes<'a> for [u8; 5] {
    open spec fn byte_seq(self) -> Seq<u8> {
        self@
    }

    /// Copies the 5 bytes into a fresh shared buffer.
    fn to_bytes(self) -> (r: Bytes<'a>)
        ensures
            r matches Bytes::Bytes(b) && shared_contents(b) == self@,
    {
        copy_array(self)
    }
}

impl<'a> ToBytes<'a> for [u8; 6] {
    open spec fn byte_seq(self) -> Seq<u8> {
        self@
    }

    /// Copies the 6 bytes into a fresh shared buffer.
    fn to_bytes(self) -> (r: Bytes<'a>)
        ensures
            r matches Bytes::Bytes(b) && shared_contents(b) == self@,
    {
        copy_array(self)
    }
}

impl<'a> ToBytes<'a> for [u8; 7] {
    open spec fn byte_seq(self) -> Seq<u8> {
        self@
    }

    /// Copies the 7 bytes into a fresh shared buffer.
    fn to_bytes(self) -> (r: Bytes<'a>)
        ensures
            r matches Bytes::Bytes(b) && shared_contents(b) == self@,
    {
        copy_array(self)
    }
}

impl<'a> ToBytes<'a> for [u8; 8] {
    open spec fn byte_seq(self) -> Seq<u8> {
        self@
    }

    /// Copies the 8 bytes into a fresh shared buffer.
    fn to_bytes(self) -> (r: Bytes<'a>)
        ensures
            r matches Bytes::Bytes(b) && shared_contents(b) == self@,
    {
        copy_array(self)
    }
}

impl<'a> ToBytes<'a> for [u8; 9] {
    open spec fn byte_seq(self) -> Seq<u8> {
        self@
    }

    /// Copies the 9 bytes into a fresh shared buffer.
    fn to_bytes(self) -> (r: Bytes<'a>)
        ensures
            r matches Bytes::Bytes(b) && shared_contents(b) == self@,
    {
        copy_array(self)
    }
}

impl<'a> ToBytes<'a> for [u8; 10] {
    open spec fn byte_seq(self) -> Seq<u8> {
        self@
    }

    /// Copies the 10 bytes into a fresh shared buffer.
    fn to_bytes(self) -> (r: Bytes<'a>)
        ensures
            r matches Bytes::Bytes(b) && shared_contents(b) == self@,
    {
        copy_array(self)
    }
}

impl<'a> ToBytes<'a> for [u8; 11] {
    open spec fn byte_seq(self) -> Seq<u8> {
        self@
    }

    /// Copies the 11 bytes into a fresh shared buffer.
    fn to_bytes(self) -> (r: Bytes<'a>)
        ensures
            r matches Bytes::Bytes(b) && shared_contents(b) == self@,
    {
        copy_array(self)
    }
}

impl<'a> ToBytes<'a> for [u8; 12] {
    open spec fn byte_seq(self) -> Seq<u8> {
        self@
    }

    /// Copies the 12 bytes into a fresh shared buffer.
    fn to_bytes(self) -> (r: Bytes<'a>)
        ensures
            r matches Bytes::Bytes(b) && shared_contents(b) == self@,
    {
        copy_array(self)
    }
}

impl<'a> ToBytes<'a> for [u8; 13] {
    open spec fn byte_seq(self) -> Seq<u8> {
        self@
    }

    /// Copies the 13 bytes into a fresh shared buffer.
    fn to_bytes(self) -> (r: Bytes<'a>)
        ensures
            r matches Bytes::Bytes(b) && shared_contents(b) == self@,
    {
        copy_array(self)
    }
}

impl<'a> ToBytes<'a> for [u8; 14] {
    open spec fn byte_seq(self) -> Seq<u8> {
        self@
    }

    /// Copies the 14 bytes into a fresh shared buffer.
    fn to_bytes(self) -> (r: Bytes<'a>)
        ensures
            r matches Bytes::Bytes(b) && shared_contents(b) == self@,
    {
        copy_array(self)
    }
}

impl<'a> ToBytes<'a> for [u8; 15] {
    open spec fn byte_seq(self) -> Seq<u8> {
        self@
    }

    /// Copies the 15 bytes into a fresh shared buffer.
    fn to_bytes(self) -> (r: Bytes<'a>)
        ensures
            r matches Bytes::Bytes(b) && shared_contents(b) == self@,
    {
        copy_array(self)
    }
}

impl<'a> ToBytes<'a> for [u8; 16] {
    open spec fn byte_seq(self) -> Seq<u8> {
        self@
    }

    /// Copies the 16 bytes into a fresh shared buffer.
    fn to_bytes(self) -> (r: Bytes<'a>)
        ensures
            r matches Bytes::Bytes(b) && shared_contents(b) == self@,
    {
        copy_array(self)
    }
}

} // verus!
