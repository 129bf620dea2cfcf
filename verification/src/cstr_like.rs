//! What every C string of this crate can do, whatever holds its bytes.

use vstd::prelude::*;
use vstd::utf8::*;
use crate::nul::{c_run, is_first_nul};

verus! {

/// A value that owns NUL-terminated text and lends it out.
///
/// The view is the text itself, without the terminator.
pub trait CStrLike: View<V = Seq<char>> {
    /// The NUL-terminated run, valid for as long as `self` is borrowed. The
    /// address of its first byte is what a C callee takes as `const char*`.
    ///
    /// The run is the encoded text followed by one zero byte, and that byte is
    /// the first zero of the run.
    fn as_ptr(&self) -> (run: &[u8])
        ensures
            run@ == c_run(self@),
            is_first_nul(run@, encode_utf8(self@).len() as int),
    ;

    /// The text, without the terminator.
    fn as_cstr(&self) -> (text: &str)
        ensures
            text@ == self@,
            !text@.contains('\0'),
    ;
}

} // verus!
