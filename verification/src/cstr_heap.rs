//! A C string held on the heap, with no limit on its length but memory.

use vstd::prelude::*;
use vstd::string::StringExecFns;
use vstd::utf8::*;
use crate::cstr_like::CStrLike;
use crate::error::{CStrError, NulError};
use crate::nul::{
    c_run, find_nul, is_first_nul, lemma_encode_terminated, lemma_run_ends_at_first_nul,
    lemma_text_nul,
};

verus! {

/// NUL-terminated text in a heap allocation that the value owns.
///
/// The allocation holds the text followed by one NUL character.
#[derive(Debug, Eq, Ord, PartialEq, PartialOrd, Hash)]
pub struct CStrHeap {
    terminated: String,
}

impl View for CStrHeap {
    type V = Seq<char>;

    closed spec fn view(&self) -> Seq<char> {
        self.terminated@.drop_last()
    }
}

impl CStrHeap {
    #[verifier::type_invariant]
    spec fn well_formed(&self) -> bool {
        &&& self.terminated@.len() > 0
        &&& self.terminated@.last() == '\0'
        &&& !self.terminated@.drop_last().contains('\0')
    }

    /// Takes the text over and terminates it.
    ///
    /// Text that holds a NUL is refused; the error names the byte offset of its
    /// first zero byte.
    pub fn new(text: String) -> (made: Result<Self, CStrError>)
        ensures
            if text@.contains('\0') {
                made matches Err(CStrError::NulError(nul)) && is_first_nul(
                    encode_utf8(text@),
                    nul.position as int,
                )
            } else {
                made matches Ok(stored) && stored@ == text@
            },
    {
        proof {
            lemma_text_nul(text@);
        }
        match find_nul(text.as_str().as_bytes()) {
            Some(position) => Err(CStrError::NulError(NulError { position })),
            None => {
                let mut terminated = text;
                terminated.append("\0");
                proof {
                    reveal_strlit("\0");
                    assert("\0"@ =~= seq!['\0']);
                    assert(terminated@.drop_last() =~= text@);
                }
                Ok(CStrHeap { terminated })
            },
        }
    }

    /// The NUL-terminated run inside the allocation.
    pub fn as_ptr(&self) -> (run: &[u8])
        ensures
            run@ == c_run(self@),
            is_first_nul(run@, encode_utf8(self@).len() as int),
    {
        proof {
            use_type_invariant(self);
            assert(self.terminated@ =~= self@.push('\0'));
            lemma_encode_terminated(self@);
            lemma_run_ends_at_first_nul(self@);
        }
        self.terminated.as_str().as_bytes()
    }

    /// The text, without the terminator.
    pub fn as_cstr(&self) -> (text: &str)
        ensures
            text@ == self@,
            !text@.contains('\0'),
    {
        let whole = self.terminated.as_str();
        let run = whole.as_bytes();
        let n = run.len();
        proof {
            use_type_invariant(self);
            assert(self.terminated@ =~= self@.push('\0'));
            lemma_encode_terminated(self@);
            encode_utf8_valid_utf8(whole@);
            is_char_boundary_iff_not_is_continuation_byte(run@, n - 1);
        }
        let (text, _) = whole.split_at(n - 1);
        proof {
            assert(encode_utf8(text@) =~= encode_utf8(self@));
            encode_utf8_decode_utf8(text@);
            encode_utf8_decode_utf8(self@);
        }
        text
    }
}

impl Clone for CStrHeap {
    /// A second allocation with the same text.
    fn clone(&self) -> (copy: Self)
        ensures
            copy@ == self@,
    {
        proof {
            use_type_invariant(self);
        }
        CStrHeap { terminated: self.terminated.clone() }
    }
}

impl CStrLike for CStrHeap {
    fn as_ptr(&self) -> (run: &[u8]) {
        self.as_ptr()
    }

    fn as_cstr(&self) -> (text: &str) {
        self.as_cstr()
    }
}

} // verus!
