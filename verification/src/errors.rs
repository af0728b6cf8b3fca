//! The closed set of errors that decode operations report.

use vstd::prelude::*;

verus! {

/// Error returned by the decode operations of this crate.
///
/// Every operation reports inconsistent input as one of these variants
/// instead of reading out of bounds or panicking.
#[derive(Debug, Clone, PartialEq, Eq)]
pub enum DecodeError {
    /// Header or variable-table offsets or lengths are inconsistent with the
    /// actual size of the region.
    MalformedRegion,
    /// The caller closed the region; all further operations on it fail.
    ClosedRegion,
    /// The requested variable name is not in the catalog.
    NotFound,
    /// The requested shape or numeric kind does not match the descriptor.
    TypeMismatch,
    /// The session-info byte range did not parse as a structured document;
    /// carries the parser's message.
    InvalidSessionDocument(String),
    /// A recorded-sample index at or past the recording's sample count.
    IndexOutOfRange,
    /// A recorded sample's declared byte range lies past the end of the file.
    TruncatedFile,
}

} // verus!
