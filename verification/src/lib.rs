//! A read-only byte buffer that is either borrowed or held behind a
//! reference count, with one view, one size and one order whatever backs it.

pub mod shared;
pub mod order;
pub mod hashing;
pub mod buffer;
pub mod convert;
pub mod laws;

pub use buffer::Bytes;
pub use convert::ToBytes;
