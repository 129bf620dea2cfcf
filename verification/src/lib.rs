//! C-compatible, NUL-terminated strings that live inline when they are short.
//!
//! A value is built once from text and never changes afterwards. Short text is
//! kept in a fixed-capacity buffer inside the value itself; text that does not
//! fit moves to the heap. Either way the value hands out the text and the
//! NUL-terminated byte run that a C callee expects.
//!
//! Every value is modelled by the text it holds, a `Seq<char>`; the bytes seen
//! by C are the UTF-8 encoding of that text followed by one zero byte.
//!
//! - [`CStrStack`] keeps text in a buffer of fixed capacity and refuses what
//!   does not fit.
//! - [`CStrHeap`] keeps text of any length in an allocation.
//! - [`CArrayString`] is one or the other: inline if the text fits, on the heap
//!   if not.
//! - [`TieredCStr`] tries two inline capacities in turn before the heap.
//! - [`CStrLike`] is what they all offer: the text, and the NUL-terminated run.
//!
//! Formatting is not done here. A constructor named `new` takes the outcome of
//! a formatter, text or failure; the conversions take text that exists already.

pub mod error;
pub mod nul;
mod text;
pub mod cstr_like;
pub mod cstr_stack;
pub mod cstr_heap;
pub mod c_array_string;
pub mod tiered;
pub mod laws;

pub use c_array_string::CArrayString;
pub use cstr_heap::CStrHeap;
pub use cstr_like::CStrLike;
pub use cstr_stack::CStrStack;
pub use error::{CStrError, ContainsNulError, FromBytesWithNulError, NulError};
pub use tiered::{
    select_capacity, DefaultCStr, TieredCStr, DEFAULT_LARGE_CAPACITY, DEFAULT_SMALL_CAPACITY,
};
