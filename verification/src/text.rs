//! Reading bytes as text.

use vstd::prelude::*;
use vstd::utf8::*;

verus! {

/// Calls `core::str::from_utf8`, which checks that a byte slice is well-formed
/// UTF-8 and then hands the same bytes back as a string slice.
///
/// Taken on trust: the call succeeds exactly on the byte sequences that
/// `valid_utf8` accepts, and the text it returns encodes to the bytes given.
#[verifier::external_body]
pub(crate) fn utf8_text(bytes: &[u8]) -> (text: Option<&str>)
    ensures
        text is Some <==> valid_utf8(bytes@),
        text matches Some(s) ==> encode_utf8(s@) == bytes@,
{
    core::str::from_utf8(bytes).ok()
}

} // verus!
