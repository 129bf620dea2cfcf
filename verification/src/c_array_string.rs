//! One C string type over both stores: inline when the text fits, on the heap
//! when it does not.

use vstd::prelude::*;
use vstd::slice::slice_subrange;
use vstd::std_specs::convert::{FromSpecImpl, TryFromSpecImpl};
use vstd::utf8::*;
use crate::cstr_heap::CStrHeap;
use crate::cstr_like::CStrLike;
use crate::cstr_stack::{fits_inline, has_room, CStrStack};
use crate::error::{CStrError, ContainsNulError, FromBytesWithNulError};
use crate::nul::{c_run, find_nul, is_first_nul, lemma_text_nul, nul_free};
use crate::text::utf8_text;

verus! {

/// NUL-terminated text that is kept inline if it fits in `N` bytes together
/// with its terminator, and on the heap otherwise.
///
/// Which store holds the text is settled when the value is built and can be
/// read off the variant; the accessors behave alike for both.
#[derive(Debug, Eq, Ord, PartialEq, PartialOrd, Hash)]
pub enum CArrayString<const N: usize> {
    /// The text lives in the value itself.
    Stack(CStrStack<N>),
    /// The text lives in an allocation of its own.
    Heap(CStrHeap),
}

impl<const N: usize> View for CArrayString<N> {
    type V = Seq<char>;

    open spec fn view(&self) -> Seq<char> {
        match self {
            CArrayString::Stack(stored) => stored@,
            CArrayString::Heap(stored) => stored@,
        }
    }
}

/// What building a `CArrayString<N>` from `text` gives.
///
/// NUL-free text is always stored, inline exactly when it fits. Text with a
/// NUL is refused: as `ContainsNulError` where it was bound for the inline
/// buffer, as `NulError` with the offset of the first zero byte where it was
/// bound for the heap.
pub open spec fn built_from_text<const N: usize>(
    text: Seq<char>,
    made: Result<CArrayString<N>, CStrError>,
) -> bool {
    if !text.contains('\0') {
        &&& made matches Ok(stored)
        &&& stored@ == text
        &&& stored is Stack <==> fits_inline(text, N)
    } else if fits_inline(text, N) {
        made == Err::<CArrayString<N>, CStrError>(CStrError::ContainsNulError(ContainsNulError))
    } else {
        &&& made matches Err(CStrError::NulError(nul))
        &&& is_first_nul(encode_utf8(text), nul.position as int)
    }
}

/// What building a `CArrayString<N>` from bytes that should end in a NUL gives.
///
/// The bytes must hold exactly one zero byte, as their last byte, and be UTF-8
/// before it; the text is then stored, inline exactly when it fits.
pub open spec fn built_from_bytes<const N: usize>(
    bytes: Seq<u8>,
    made: Result<CArrayString<N>, CStrError>,
) -> bool {
    let content = bytes.drop_last();
    if nul_free(bytes) {
        made == Err::<CArrayString<N>, CStrError>(
            CStrError::FromBytesWithNulError(FromBytesWithNulError::NotNulTerminated),
        )
    } else if !nul_free(content) {
        &&& made matches Err(
            CStrError::FromBytesWithNulError(FromBytesWithNulError::InteriorNul { position }),
        )
        &&& is_first_nul(bytes, position as int)
    } else if !valid_utf8(content) {
        made == Err::<CArrayString<N>, CStrError>(CStrError::Utf8Error)
    } else {
        &&& made matches Ok(stored)
        &&& stored@ == decode_utf8(content)
        &&& stored is Stack <==> has_room(N, content.len())
    }
}

impl<const N: usize> CArrayString<N> {
    /// Stores text, inline if it fits.
    fn from_text(text: &str) -> (made: Result<Self, CStrError>)
        ensures
            built_from_text(text@, made),
    {
        match CStrStack::<N>::new(Ok(text)) {
            Ok(stored) => Ok(CArrayString::Stack(stored)),
            Err(CStrError::OverflowError(_)) => match CStrHeap::new(text.to_owned()) {
                Ok(stored) => Ok(CArrayString::Heap(stored)),
                Err(error) => Err(error),
            },
            Err(error) => Err(error),
        }
    }

    /// Builds the string from what a formatter produced.
    ///
    /// A formatter failure is handed on as it is, and nothing is stored. Text
    /// goes into the inline buffer; if it does not fit there, the same text
    /// goes to the heap instead.
    pub fn new(formatted: Result<&str, core::fmt::Error>) -> (made: Result<Self, CStrError>)
        ensures
            match formatted {
                Err(failure) => made == Err::<Self, CStrError>(CStrError::FormatError(failure)),
                Ok(text) => built_from_text(text@, made),
            },
    {
        match formatted {
            Err(failure) => Err(CStrError::FormatError(failure)),
            Ok(text) => Self::from_text(text),
        }
    }

    /// The NUL-terminated run, valid for as long as `self` is borrowed. The
    /// address of its first byte is what a C callee takes as `const char*`.
    pub fn as_ptr(&self) -> (run: &[u8])
        ensures
            run@ == c_run(self@),
            is_first_nul(run@, encode_utf8(self@).len() as int),
    {
        match self {
            CArrayString::Stack(stored) => stored.as_ptr(),
            CArrayString::Heap(stored) => stored.as_ptr(),
        }
    }

    /// The text, without the terminator.
    pub fn as_c_str(&self) -> (text: &str)
        ensures
            text@ == self@,
            !text@.contains('\0'),
    {
        match self {
            CArrayString::Stack(stored) => stored.as_cstr(),
            CArrayString::Heap(stored) => stored.as_cstr(),
        }
    }
}

impl<const N: usize> Clone for CArrayString<N> {
    /// A second value with the same text in the same kind of store.
    fn clone(&self) -> (copy: Self)
        ensures
            copy@ == self@,
            copy is Stack <==> self is Stack,
    {
        match self {
            CArrayString::Stack(stored) => CArrayString::Stack(*stored),
            CArrayString::Heap(stored) => CArrayString::Heap(stored.clone()),
        }
    }
}

impl<const N: usize> CStrLike for CArrayString<N> {
    fn as_ptr(&self) -> (run: &[u8]) {
        self.as_ptr()
    }

    fn as_cstr(&self) -> (text: &str) {
        self.as_c_str()
    }
}

/// A borrowed heap string is copied: into the inline buffer if it fits, into a
/// new allocation otherwise.
impl<'a, const N: usize> From<&'a CStrHeap> for CArrayString<N> {
    fn from(value: &'a CStrHeap) -> (made: Self)
        ensures
            made@ == value@,
            made is Stack <==> fits_inline(value@, N),
    {
        let text = value.as_cstr();
        if text.as_bytes().len() < N {
            CArrayString::Stack(CStrStack::store(text))
        } else {
            CArrayString::Heap(value.clone())
        }
    }
}

/// The contract of `from` fixes the text and the store of the copy; which
/// bytes lie behind the terminator it leaves open, so no one value is named.
impl<'a, const N: usize> FromSpecImpl<&'a CStrHeap> for CArrayString<N> {
    open spec fn obeys_from_spec() -> bool {
        false
    }

    open spec fn from_spec(v: &'a CStrHeap) -> Self {
        arbitrary()
    }
}

/// An owned heap string is kept as it is, whatever its length.
impl<const N: usize> From<CStrHeap> for CArrayString<N> {
    fn from(value: CStrHeap) -> (made: Self) {
        CArrayString::Heap(value)
    }
}

impl<const N: usize> FromSpecImpl<CStrHeap> for CArrayString<N> {
    open spec fn obeys_from_spec() -> bool {
        true
    }

    open spec fn from_spec(v: CStrHeap) -> Self {
        CArrayString::Heap(v)
    }
}

/// Bytes that already end in their terminator.
impl<'a, const N: usize> TryFrom<&'a [u8]> for CArrayString<N> {
    type Error = CStrError;

    fn try_from(value: &'a [u8]) -> (made: Result<Self, CStrError>)
        ensures
            built_from_bytes(value@, made),
    {
        match find_nul(value) {
            None => Err(CStrError::from(FromBytesWithNulError::NotNulTerminated)),
            Some(position) => {
                if position != value.len() - 1 {
                    assert(!nul_free(value@.drop_last())) by {
                        assert(value@.drop_last()[position as int] == 0u8);
                    }
                    Err(CStrError::from(FromBytesWithNulError::InteriorNul { position }))
                } else {
                    let content = slice_subrange(value, 0, position);
                    assert(content@ =~= value@.drop_last());
                    match utf8_text(content) {
                        None => Err(CStrError::Utf8Error),
                        Some(text) => {
                            proof {
                                lemma_text_nul(text@);
                                encode_utf8_decode_utf8(text@);
                            }
                            Self::from_text(text)
                        },
                    }
                }
            },
        }
    }
}

/// The contract of `try_from` says what is made; it is a relation between
/// the bytes and the outcome, so no one value is named here.
impl<'a, const N: usize> TryFromSpecImpl<&'a [u8]> for CArrayString<N> {
    open spec fn obeys_try_from_spec() -> bool {
        false
    }

    open spec fn try_from_spec(v: &'a [u8]) -> Result<Self, CStrError> {
        arbitrary()
    }
}

/// Text that exists already.
impl<'a, const N: usize> TryFrom<&'a str> for CArrayString<N> {
    type Error = CStrError;

    fn try_from(value: &'a str) -> (made: Result<Self, CStrError>)
        ensures
            built_from_text(value@, made),
    {
        Self::from_text(value)
    }
}

/// The contract of `try_from` says what is made; it is a relation between
/// the text and the outcome, so no one value is named here.
impl<'a, const N: usize> TryFromSpecImpl<&'a str> for CArrayString<N> {
    open spec fn obeys_try_from_spec() -> bool {
        false
    }

    open spec fn try_from_spec(v: &'a str) -> Result<Self, CStrError> {
        arbitrary()
    }
}

/// Owned text that exists already.
impl<'a, const N: usize> TryFrom<&'a String> for CArrayString<N> {
    type Error = CStrError;

    fn try_from(value: &'a String) -> (made: Result<Self, CStrError>)
        ensures
            built_from_text(value@, made),
    {
        Self::from_text(value.as_str())
    }
}

/// The contract of `try_from` says what is made; it is a relation between
/// the text and the outcome, so no one value is named here.
impl<'a, const N: usize> TryFromSpecImpl<&'a String> for CArrayString<N> {
    open spec fn obeys_try_from_spec() -> bool {
        false
    }

    open spec fn try_from_spec(v: &'a String) -> Result<Self, CStrError> {
        arbitrary()
    }
}

} // verus!
