//! A byte sequence that either borrows memory owned elsewhere or holds its
//! own copy, with the same contents and equality in both forms.
use vstd::prelude::*;

pub mod bytes;
pub mod decode;
pub mod laws;

pub use bytes::CowBytes;
pub use decode::{ByteInput, CowBytesVisitor};

verus! {

} // verus!
