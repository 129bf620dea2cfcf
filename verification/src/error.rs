//! What can go wrong while a C string is built.

use vstd::prelude::*;
use vstd::std_specs::convert::FromSpecImpl;

verus! {

/// The failure value of `std`'s formatting machinery. It carries no data.
#[verifier::external_type_specification]
#[verifier::external_body]
pub struct ExFmtError(core::fmt::Error);

/// `arrayvec`'s error for a push that found no room. It carries the element
/// that was refused.
#[verifier::external_type_specification]
#[verifier::external_body]
#[verifier::reject_recursive_types(T)]
pub struct ExCapacityError<T>(arrayvec::CapacityError<T>);

/// The character that a capacity error carries: what `CapacityError::element`
/// gives back.
pub uninterp spec fn refused_element(error: arrayvec::CapacityError<char>) -> char;

/// Calls `CapacityError::new`, which keeps the element it is given and
/// nothing else.
///
/// Taken on trust: the error made carries exactly that element.
#[verifier::external_body]
pub(crate) fn capacity_error(element: char) -> (error: arrayvec::CapacityError<char>)
    ensures
        refused_element(error) == element,
{
    arrayvec::CapacityError::new(element)
}

/// Text that was meant for an inline buffer holds a NUL character.
#[derive(Copy, Clone, Debug, Default, Eq, Ord, PartialEq, PartialOrd, Hash)]
pub struct ContainsNulError;

/// Text that was meant for the heap holds a NUL character.
#[derive(Copy, Clone, Debug, Eq, PartialEq, Hash)]
pub struct NulError {
    /// Byte offset of the first zero byte in the encoded text.
    pub position: usize,
}

/// A byte slice is not one NUL-free run closed by a single zero byte.
#[derive(Copy, Clone, Debug, Eq, PartialEq, Hash)]
pub enum FromBytesWithNulError {
    /// A zero byte stands before the last byte; `position` is the first such byte.
    InteriorNul { position: usize },
    /// The slice holds no zero byte at all.
    NotNulTerminated,
}

/// Every way in which building a C string can fail.
#[derive(Copy, Clone, Debug, Eq, PartialEq)]
pub enum CStrError {
    /// The formatter could not produce the text.
    FormatError(core::fmt::Error),
    /// The text and its terminator do not fit the inline capacity. The error
    /// carries the terminator, which is what found no room.
    OverflowError(arrayvec::CapacityError<char>),
    /// The bytes handed in are not a NUL-terminated run.
    FromBytesWithNulError(FromBytesWithNulError),
    /// Text bound for the heap holds a NUL character.
    NulError(NulError),
    /// Text bound for an inline buffer holds a NUL character.
    ContainsNulError(ContainsNulError),
    /// The bytes handed in are a NUL-terminated run but not UTF-8 text.
    Utf8Error,
}

impl CStrError {
    /// The error says that the terminator found no room in an inline buffer.
    pub open spec fn is_overflow(self) -> bool {
        self matches CStrError::OverflowError(error) && refused_element(error) == '\0'
    }

    /// The error says that the source held a NUL before its end.
    pub open spec fn is_embedded_nul(self) -> bool {
        match self {
            CStrError::ContainsNulError(_) => true,
            CStrError::NulError(_) => true,
            CStrError::FromBytesWithNulError(FromBytesWithNulError::InteriorNul { .. }) => true,
            _ => false,
        }
    }
}

impl From<core::fmt::Error> for CStrError {
    fn from(value: core::fmt::Error) -> (error: Self) {
        CStrError::FormatError(value)
    }
}

impl FromSpecImpl<core::fmt::Error> for CStrError {
    open spec fn obeys_from_spec() -> bool {
        true
    }

    open spec fn from_spec(v: core::fmt::Error) -> Self {
        CStrError::FormatError(v)
    }
}

impl From<arrayvec::CapacityError<char>> for CStrError {
    fn from(value: arrayvec::CapacityError<char>) -> (error: Self) {
        CStrError::OverflowError(value)
    }
}

impl FromSpecImpl<arrayvec::CapacityError<char>> for CStrError {
    open spec fn obeys_from_spec() -> bool {
        true
    }

    open spec fn from_spec(v: arrayvec::CapacityError<char>) -> Self {
        CStrError::OverflowError(v)
    }
}

impl From<FromBytesWithNulError> for CStrError {
    fn from(value: FromBytesWithNulError) -> (error: Self) {
        CStrError::FromBytesWithNulError(value)
    }
}

impl FromSpecImpl<FromBytesWithNulError> for CStrError {
    open spec fn obeys_from_spec() -> bool {
        true
    }

    open spec fn from_spec(v: FromBytesWithNulError) -> Self {
        CStrError::FromBytesWithNulError(v)
    }
}

impl From<NulError> for CStrError {
    fn from(value: NulError) -> (error: Self) {
        CStrError::NulError(value)
    }
}

impl FromSpecImpl<NulError> for CStrError {
    open spec fn obeys_from_spec() -> bool {
        true
    }

    open spec fn from_spec(v: NulError) -> Self {
        CStrError::NulError(v)
    }
}

impl From<ContainsNulError> for CStrError {
    fn from(value: ContainsNulError) -> (error: Self) {
        CStrError::ContainsNulError(value)
    }
}

impl FromSpecImpl<ContainsNulError> for CStrError {
    open spec fn obeys_from_spec() -> bool {
        true
    }

    open spec fn from_spec(v: ContainsNulError) -> Self {
        CStrError::ContainsNulError(v)
    }
}

} // verus!
