//! A C string held in a fixed-capacity buffer inside the value itself.

use vstd::prelude::*;
use vstd::slice::slice_subrange;
use vstd::utf8::*;
use crate::cstr_like::CStrLike;
use crate::error::{capacity_error, CStrError, ContainsNulError};
use crate::nul::{c_run, find_nul, is_first_nul, lemma_text_nul, nul_free};
use crate::text::utf8_text;

verus! {

/// NUL-terminated text in a buffer of `N` bytes that is part of the value.
///
/// The buffer holds the encoded text and, right after it, one zero byte, so
/// text of up to `N - 1` bytes fits.
#[derive(Clone, Copy, Debug, Eq, Ord, PartialEq, PartialOrd, Hash)]
pub struct CStrStack<const N: usize> {
    buf: [u8; N],
    len: usize,
}

/// A buffer of `capacity` bytes takes `len` bytes of text and the terminator.
pub open spec fn has_room(capacity: usize, len: nat) -> bool {
    len + 1 <= capacity
}

/// `text` and its terminator fit in `capacity` bytes.
pub open spec fn fits_inline(text: Seq<char>, capacity: usize) -> bool {
    has_room(capacity, encode_utf8(text).len())
}

impl<const N: usize> View for CStrStack<N> {
    type V = Seq<char>;

    closed spec fn view(&self) -> Seq<char> {
        decode_utf8(self.content())
    }
}

impl<const N: usize> CStrStack<N> {
    spec fn content(&self) -> Seq<u8> {
        self.buf@.subrange(0, self.len as int)
    }

    #[verifier::type_invariant]
    spec fn well_formed(&self) -> bool {
        &&& self.len < N
        &&& self.buf@[self.len as int] == 0u8
        &&& nul_free(self.content())
        &&& valid_utf8(self.content())
    }

    /// Copies text that is known to fit and to hold no NUL.
    pub(crate) fn store(text: &str) -> (stored: Self)
        requires
            fits_inline(text@, N),
            !text@.contains('\0'),
        ensures
            stored@ == text@,
    {
        let bytes = text.as_bytes();
        let n = bytes.len();
        let mut buf = [0u8; N];
        let mut i: usize = 0;
        while i < n
            invariant
                i <= n,
                n == bytes@.len(),
                n < N,
                forall|j: int| 0 <= j < i ==> buf@[j] == bytes@[j],
                forall|j: int| i <= j < N ==> buf@[j] == 0u8,
            decreases n - i,
        {
            buf[i] = bytes[i];
            i += 1;
        }
        proof {
            assert(buf@.subrange(0, n as int) =~= bytes@);
            lemma_text_nul(text@);
            encode_utf8_valid_utf8(text@);
            encode_utf8_decode_utf8(text@);
        }
        CStrStack { buf, len: n }
    }

    /// Builds the string from what a formatter produced.
    ///
    /// A formatter failure is handed on as it is. Text that does not leave room
    /// for the terminator is refused, and so is text that holds a NUL.
    pub fn new(formatted: Result<&str, core::fmt::Error>) -> (made: Result<Self, CStrError>)
        ensures
            match formatted {
                Err(failure) => made == Err::<Self, CStrError>(CStrError::FormatError(failure)),
                Ok(text) => if !fits_inline(text@, N) {
                    made matches Err(error) && error.is_overflow()
                } else if text@.contains('\0') {
                    made == Err::<Self, CStrError>(CStrError::ContainsNulError(ContainsNulError))
                } else {
                    made matches Ok(stored) && stored@ == text@
                },
            },
    {
        match formatted {
            Err(failure) => Err(CStrError::FormatError(failure)),
            Ok(text) => {
                let bytes = text.as_bytes();
                proof {
                    lemma_text_nul(text@);
                }
                if bytes.len() >= N {
                    Err(CStrError::OverflowError(capacity_error('\0')))
                } else if find_nul(bytes).is_some() {
                    Err(CStrError::ContainsNulError(ContainsNulError))
                } else {
                    Ok(Self::store(text))
                }
            },
        }
    }

    /// The NUL-terminated run inside the buffer.
    pub fn as_ptr(&self) -> (run: &[u8])
        ensures
            run@ == c_run(self@),
            is_first_nul(run@, encode_utf8(self@).len() as int),
            run@.len() <= N,
    {
        proof {
            use_type_invariant(self);
            decode_utf8_encode_utf8(self.content());
        }
        let run = slice_subrange(self.buf.as_slice(), 0, self.len + 1);
        assert(run@ =~= self.content().push(0u8));
        run
    }

    /// The text, without the terminator.
    ///
    /// The buffer holds bytes, so they are read as text anew on every call, in
    /// time linear in their number.
    pub fn as_cstr(&self) -> (text: &str)
        ensures
            text@ == self@,
            !text@.contains('\0'),
    {
        proof {
            use_type_invariant(self);
        }
        let content = slice_subrange(self.buf.as_slice(), 0, self.len);
        let text = utf8_text(content).unwrap();
        proof {
            encode_utf8_decode_utf8(text@);
            lemma_text_nul(text@);
        }
        text
    }
}

impl<const N: usize> CStrLike for CStrStack<N> {
    fn as_ptr(&self) -> (run: &[u8]) {
        self.as_ptr()
    }

    fn as_cstr(&self) -> (text: &str) {
        self.as_cstr()
    }
}

} // verus!
