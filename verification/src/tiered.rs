//! Choosing among several inline capacities before falling back to the heap.

use vstd::prelude::*;
use vstd::utf8::*;
use crate::cstr_heap::CStrHeap;
use crate::cstr_like::CStrLike;
use crate::cstr_stack::{has_room, CStrStack};
use crate::error::{CStrError, ContainsNulError};
use crate::nul::{c_run, is_first_nul};

verus! {

/// The smaller inline capacity that is tried when the caller names none.
pub const DEFAULT_SMALL_CAPACITY: usize = 32;

/// The larger inline capacity that is tried when the caller names none.
pub const DEFAULT_LARGE_CAPACITY: usize = 128;

/// `index` is the first place in `candidates` whose capacity has room for
/// `len` bytes of text.
pub open spec fn is_first_fit(candidates: Seq<usize>, len: nat, index: int) -> bool {
    &&& 0 <= index < candidates.len()
    &&& has_room(candidates[index], len)
    &&& forall|i: int| 0 <= i < index ==> !has_room(candidates[i], len)
}

/// No capacity in `candidates` has room for `len` bytes of text.
pub open spec fn none_fits(candidates: Seq<usize>, len: nat) -> bool {
    forall|i: int| 0 <= i < candidates.len() ==> !has_room(candidates[i], len)
}

/// Tries the candidate capacities in the order given and returns the place of
/// the first that has room for `len` bytes of text and the terminator.
pub fn select_capacity(candidates: &[usize], len: usize) -> (choice: Option<usize>)
    ensures
        match choice {
            Some(index) => is_first_fit(candidates@, len as nat, index as int),
            None => none_fits(candidates@, len as nat),
        },
{
    let mut i: usize = 0;
    while i < candidates.len()
        invariant
            i <= candidates@.len(),
            forall|j: int| 0 <= j < i ==> !has_room(candidates@[j], len as nat),
        decreases candidates@.len() - i,
    {
        if len < candidates[i] {
            return Some(i);
        }
        i += 1;
    }
    None
}

/// Among ascending candidates the first that fits is the smallest that fits.
pub proof fn lemma_first_fit_is_smallest(candidates: Seq<usize>, len: nat, index: int)
    requires
        forall|i: int, j: int| 0 <= i <= j < candidates.len() ==> candidates[i] <= candidates[j],
        is_first_fit(candidates, len, index),
    ensures
        forall|j: int|
            0 <= j < candidates.len() && has_room(candidates[j], len) ==> candidates[index]
                <= candidates[j],
{
}

/// NUL-terminated text in the smaller of two inline buffers that takes it, or
/// on the heap if neither does.
#[derive(Debug, Eq, Ord, PartialEq, PartialOrd, Hash)]
pub enum TieredCStr<const S: usize, const L: usize> {
    /// The text lives in the buffer of `S` bytes.
    Small(CStrStack<S>),
    /// The text lives in the buffer of `L` bytes.
    Large(CStrStack<L>),
    /// The text lives in an allocation of its own.
    Heap(CStrHeap),
}

/// The tiers that are used when the caller names none.
pub type DefaultCStr = TieredCStr<DEFAULT_SMALL_CAPACITY, DEFAULT_LARGE_CAPACITY>;

impl<const S: usize, const L: usize> View for TieredCStr<S, L> {
    type V = Seq<char>;

    open spec fn view(&self) -> Seq<char> {
        match self {
            TieredCStr::Small(stored) => stored@,
            TieredCStr::Large(stored) => stored@,
            TieredCStr::Heap(stored) => stored@,
        }
    }
}

impl<const S: usize, const L: usize> TieredCStr<S, L> {
    /// The candidate capacities, in the order in which they are tried.
    pub open spec fn candidates() -> Seq<usize> {
        seq![S, L]
    }

    /// The place among the candidates of the store that holds the text, if it
    /// is an inline one.
    pub open spec fn tier(self) -> Option<int> {
        match self {
            TieredCStr::Small(_) => Some(0),
            TieredCStr::Large(_) => Some(1),
            TieredCStr::Heap(_) => None,
        }
    }

    /// What building from `text` gives.
    ///
    /// NUL-free text is always stored, in the first candidate that has room
    /// for it or else on the heap. Text with a NUL is refused: as
    /// `ContainsNulError` where it was bound for an inline buffer, as
    /// `NulError` with the offset of the first zero byte where it was bound
    /// for the heap.
    pub open spec fn built_from_text(text: Seq<char>, made: Result<Self, CStrError>) -> bool {
        let len = encode_utf8(text).len();
        if !text.contains('\0') {
            &&& made matches Ok(stored)
            &&& stored@ == text
            &&& match stored.tier() {
                Some(index) => is_first_fit(Self::candidates(), len, index),
                None => none_fits(Self::candidates(), len),
            }
        } else if none_fits(Self::candidates(), len) {
            &&& made matches Err(CStrError::NulError(nul))
            &&& is_first_nul(encode_utf8(text), nul.position as int)
        } else {
            made == Err::<Self, CStrError>(CStrError::ContainsNulError(ContainsNulError))
        }
    }

    /// Builds the string from what a formatter produced.
    ///
    /// A formatter failure is handed on as it is and no store is tried. Text
    /// goes into the first candidate buffer that has room for it, and onto
    /// the heap if none has.
    pub fn new(formatted: Result<&str, core::fmt::Error>) -> (made: Result<Self, CStrError>)
        ensures
            match formatted {
                Err(failure) => made == Err::<Self, CStrError>(CStrError::FormatError(failure)),
                Ok(text) => Self::built_from_text(text@, made),
            },
    {
        let text = match formatted {
            Err(failure) => {
                return Err(CStrError::FormatError(failure));
            },
            Ok(text) => text,
        };
        let candidates = [S, L];
        match select_capacity(candidates.as_slice(), text.as_bytes().len()) {
            Some(0) => match CStrStack::<S>::new(Ok(text)) {
                Ok(stored) => Ok(TieredCStr::Small(stored)),
                Err(error) => Err(error),
            },
            Some(_) => match CStrStack::<L>::new(Ok(text)) {
                Ok(stored) => Ok(TieredCStr::Large(stored)),
                Err(error) => Err(error),
            },
            None => match CStrHeap::new(text.to_owned()) {
                Ok(stored) => Ok(TieredCStr::Heap(stored)),
                Err(error) => Err(error),
            },
        }
    }

    /// The NUL-terminated run, valid for as long as `self` is borrowed. The
    /// address of its first byte is what a C callee takes as `const char*`.
    pub fn as_ptr(&self) -> (run: &[u8])
        ensures
            run@ == c_run(self@),
            is_first_nul(run@, encode_utf8(self@).len() as int),
    {
        match self {
            TieredCStr::Small(stored) => stored.as_ptr(),
            TieredCStr::Large(stored) => stored.as_ptr(),
            TieredCStr::Heap(stored) => stored.as_ptr(),
        }
    }

    /// The text, without the terminator.
    pub fn as_cstr(&self) -> (text: &str)
        ensures
            text@ == self@,
            !text@.contains('\0'),
    {
        match self {
            TieredCStr::Small(stored) => stored.as_cstr(),
            TieredCStr::Large(stored) => stored.as_cstr(),
            TieredCStr::Heap(stored) => stored.as_cstr(),
        }
    }
}

impl<const S: usize, const L: usize> Clone for TieredCStr<S, L> {
    /// A second value with the same text in the same store.
    fn clone(&self) -> (copy: Self)
        ensures
            copy@ == self@,
            copy.tier() == self.tier(),
    {
        match self {
            TieredCStr::Small(stored) => TieredCStr::Small(*stored),
            TieredCStr::Large(stored) => TieredCStr::Large(*stored),
            TieredCStr::Heap(stored) => TieredCStr::Heap(stored.clone()),
        }
    }
}

impl<const S: usize, const L: usize> CStrLike for TieredCStr<S, L> {
    fn as_ptr(&self) -> (run: &[u8]) {
        self.as_ptr()
    }

    fn as_cstr(&self) -> (text: &str) {
        self.as_cstr()
    }
}

} // verus!
