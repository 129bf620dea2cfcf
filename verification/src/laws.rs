//! What holds of every string of this crate, proved from the contracts of the
//! functions alone.
//!
//! Each law speaks of calls through `call_ensures`: it holds of whatever a
//! call may return under its contract, not of one implementation.

use vstd::prelude::*;
use vstd::utf8::*;
use crate::c_array_string::CArrayString;
use crate::cstr_heap::CStrHeap;
use crate::cstr_like::CStrLike;
use crate::cstr_stack::{fits_inline, CStrStack};
use crate::error::CStrError;
use crate::tiered::TieredCStr;

verus! {

/// Text without a NUL is always stored, and reading the stored value back
/// gives the very same text.
pub proof fn law_round_trip<const N: usize>(
    text: &str,
    made: Result<CArrayString<N>, CStrError>,
    back: &str,
)
    requires
        !text@.contains('\0'),
        call_ensures(<CArrayString<N> as TryFrom<&str>>::try_from, (text,), made),
        made matches Ok(stored) ==> call_ensures(CArrayString::<N>::as_c_str, (&stored,), back),
    ensures
        made is Ok,
        back@ == text@,
{
}

/// The same holds of text that came from a formatter.
pub proof fn law_round_trip_formatted<const N: usize>(
    text: &str,
    made: Result<CArrayString<N>, CStrError>,
    back: &str,
)
    requires
        !text@.contains('\0'),
        call_ensures(CArrayString::<N>::new, (Ok::<&str, core::fmt::Error>(text),), made),
        made matches Ok(stored) ==> call_ensures(CArrayString::<N>::as_c_str, (&stored,), back),
    ensures
        made is Ok,
        back@ == text@,
{
}

/// It holds of the fixed-capacity string wherever that string can be built.
pub proof fn law_round_trip_inline<const N: usize>(
    text: &str,
    stored: CStrStack<N>,
    back: &str,
)
    requires
        call_ensures(
            CStrStack::<N>::new,
            (Ok::<&str, core::fmt::Error>(text),),
            Ok::<CStrStack<N>, CStrError>(stored),
        ),
        call_ensures(CStrStack::<N>::as_cstr, (&stored,), back),
    ensures
        back@ == text@,
{
}

/// It holds of the heap string wherever that string can be built.
pub proof fn law_round_trip_heap(text: String, stored: CStrHeap, back: &str)
    requires
        call_ensures(CStrHeap::new, (text,), Ok::<CStrHeap, CStrError>(stored)),
        call_ensures(CStrHeap::as_cstr, (&stored,), back),
    ensures
        back@ == text@,
{
}

/// Whatever holds the text, the run handed to C carries the encoded text, then
/// a zero byte, and no zero byte before it.
pub proof fn law_nul_terminated<T: CStrLike>(value: &T, run: &[u8])
    requires
        call_ensures(<T as CStrLike>::as_ptr, (value,), run),
    ensures
        run@.len() == encode_utf8(value@).len() + 1,
        run@[encode_utf8(value@).len() as int] == 0u8,
        forall|i: int| 0 <= i < encode_utf8(value@).len() ==> run@[i] != 0u8,
        run@.subrange(0, encode_utf8(value@).len() as int) == encode_utf8(value@),
{
    assert(run@.subrange(0, encode_utf8(value@).len() as int) =~= encode_utf8(value@));
}

/// A buffer of `N` bytes takes NUL-free text of exactly `N - 1` bytes and
/// refuses text of exactly `N` bytes as an overflow.
pub proof fn law_overflow_boundary<const N: usize>(
    text: &str,
    made: Result<CStrStack<N>, CStrError>,
)
    requires
        !text@.contains('\0'),
        call_ensures(CStrStack::<N>::new, (Ok::<&str, core::fmt::Error>(text),), made),
    ensures
        encode_utf8(text@).len() == N - 1 ==> made is Ok,
        encode_utf8(text@).len() == N ==> (made matches Err(error) && error.is_overflow()),
        made is Ok <==> encode_utf8(text@).len() + 1 <= N,
{
}

/// Text that holds a NUL anywhere is refused with an error that says so, and no
/// value is made.
pub proof fn law_embedded_nul_rejected<const N: usize>(
    text: &str,
    made: Result<CArrayString<N>, CStrError>,
)
    requires
        text@.contains('\0'),
        call_ensures(<CArrayString<N> as TryFrom<&str>>::try_from, (text,), made),
    ensures
        made matches Err(error) && error.is_embedded_nul(),
{
}

/// Both accessors give the same answer however often they are asked.
pub proof fn law_accessors_stable<T: CStrLike>(
    value: &T,
    first_run: &[u8],
    second_run: &[u8],
    first_text: &str,
    second_text: &str,
)
    requires
        call_ensures(<T as CStrLike>::as_ptr, (value,), first_run),
        call_ensures(<T as CStrLike>::as_ptr, (value,), second_run),
        call_ensures(<T as CStrLike>::as_cstr, (value,), first_text),
        call_ensures(<T as CStrLike>::as_cstr, (value,), second_text),
    ensures
        first_run@ == second_run@,
        first_text@ == second_text@,
{
}

/// With ascending tiers, text goes to the smallest store that takes it: the
/// small buffer if it fits there, else the large one if it fits there, else
/// the heap; and the stored text is the text given.
pub proof fn law_smallest_viable_tier<const S: usize, const L: usize>(
    text: &str,
    stored: TieredCStr<S, L>,
)
    requires
        S <= L,
        call_ensures(
            TieredCStr::<S, L>::new,
            (Ok::<&str, core::fmt::Error>(text),),
            Ok::<TieredCStr<S, L>, CStrError>(stored),
        ),
    ensures
        stored@ == text@,
        stored is Small <==> fits_inline(text@, S),
        stored is Large <==> !fits_inline(text@, S) && fits_inline(text@, L),
        stored is Heap <==> !fits_inline(text@, L),
{
    let candidates = TieredCStr::<S, L>::candidates();
    assert(candidates[0] == S && candidates[1] == L);
}

/// A formatter's failure comes back unchanged, whatever the capacities.
pub proof fn law_format_failure_propagates<const S: usize, const L: usize>(
    failure: core::fmt::Error,
    made: Result<TieredCStr<S, L>, CStrError>,
)
    requires
        call_ensures(TieredCStr::<S, L>::new, (Err::<&str, core::fmt::Error>(failure),), made),
    ensures
        made == Err::<TieredCStr<S, L>, CStrError>(CStrError::FormatError(failure)),
{
}

} // verus!
