//! The closed error taxonomy shared by the header parser, the element
//! parser, the datetime grammar and the decode bridge.

use vstd::prelude::*;

verus! {

/// A failure of a decode call.  Every validation failure of this crate maps
/// to exactly one of these kinds; all of them are terminal for the current
/// decode call.  The carried strings are diagnostic only: contracts in this
/// crate constrain the kind of an error, never its wording.
#[derive(Clone, Debug, PartialEq, Eq)]
pub enum Error {
    /// Generic decode-time mismatch (missing required field, unexpected
    /// shape, unknown enumeration text).
    Deserialize(String),
    /// A leaf offered for enumeration matching contains an escape sequence.
    EscapesInEnumVariant,
    /// A leaf requested as a borrowed string contains an escape sequence.
    InvalidBorrowedStr,
    /// A sequence ended although more elements were expected.
    InvalidTupleLength,
    /// Unconsumed content remained after the requested shape was satisfied.
    TrailingInput,
    /// A markup, header or scalar syntax/range violation.
    ParseError(String),
    /// The input ended before a required construct was complete.
    ParseIncomplete,
    /// The requested target shape is not supported by the bridge.
    UnsupportedDataType,
    /// Catch-all kind for failures outside the taxonomy above.
    Unknown(String),
}

/// The kind of an [`Error`], with the diagnostic strings stripped.  Contracts
/// speak of kinds, since the wording of messages is not part of the
/// specification of this crate.
#[derive(Clone, Copy, Debug, PartialEq, Eq, Structural)]
pub enum ErrorKind {
    Deserialize,
    EscapesInEnumVariant,
    InvalidBorrowedStr,
    InvalidTupleLength,
    TrailingInput,
    ParseError,
    ParseIncomplete,
    UnsupportedDataType,
    Unknown,
}

/// The kind of an error value.
pub open spec fn kind_of(e: Error) -> ErrorKind {
    match e {
        Error::Deserialize(_) => ErrorKind::Deserialize,
        Error::EscapesInEnumVariant => ErrorKind::EscapesInEnumVariant,
        Error::InvalidBorrowedStr => ErrorKind::InvalidBorrowedStr,
        Error::InvalidTupleLength => ErrorKind::InvalidTupleLength,
        Error::TrailingInput => ErrorKind::TrailingInput,
        Error::ParseError(_) => ErrorKind::ParseError,
        Error::ParseIncomplete => ErrorKind::ParseIncomplete,
        Error::UnsupportedDataType => ErrorKind::UnsupportedDataType,
        Error::Unknown(_) => ErrorKind::Unknown,
    }
}

/// A parse error carrying the given diagnostic wording.
pub fn parse_err(m: &str) -> (e: Error)
    ensures
        kind_of(e) == ErrorKind::ParseError,
{
    Error::ParseError(String::from_str(m))
}

/// A generic decode mismatch carrying the given diagnostic wording.
pub fn deser_err(m: &str) -> (e: Error)
    ensures
        kind_of(e) == ErrorKind::Deserialize,
{
    Error::Deserialize(String::from_str(m))
}

impl Error {
    /// The kind of this error, for callers that dispatch on it.
    pub fn kind(&self) -> (k: ErrorKind)
        ensures
            k == kind_of(*self),
    {
        match self {
            Error::Deserialize(_) => ErrorKind::Deserialize,
            Error::EscapesInEnumVariant => ErrorKind::EscapesInEnumVariant,
            Error::InvalidBorrowedStr => ErrorKind::InvalidBorrowedStr,
            Error::InvalidTupleLength => ErrorKind::InvalidTupleLength,
            Error::TrailingInput => ErrorKind::TrailingInput,
            Error::ParseError(_) => ErrorKind::ParseError,
            Error::ParseIncomplete => ErrorKind::ParseIncomplete,
            Error::UnsupportedDataType => ErrorKind::UnsupportedDataType,
            Error::Unknown(_) => ErrorKind::Unknown,
        }
    }
}

} // verus!
