//! Extraction of the session-metadata document embedded in a region.
//!
//! The header locates a byte range holding structured text (a mapping /
//! sequence / scalar grammar).  The bytes decode as single-byte text, which
//! cannot fail whatever they hold; parsing the text is the only failure
//! mode, reported as `InvalidSessionDocument` with the parser's message.

use vstd::prelude::*;
use crate::errors::DecodeError;
use crate::header::Header;
use crate::region::MemoryRegion;
use crate::text::{decode_latin1_text, latin1_chars};

verus! {

/// The session document is an opaque, order-preserving structured value;
/// no schema is enforced beyond a successful parse.
pub type SessionDetails = serde_yaml::Value;

#[verifier::external_type_specification]
#[verifier::external_body]
pub struct ExYamlValue(serde_yaml::Value);

#[verifier::external_type_specification]
#[verifier::external_body]
pub struct ExYamlError(serde_yaml::Error);

/// Whether the structured-text grammar accepts the text `s`.  The outcome
/// depends on the characters alone.
pub uninterp spec fn yaml_parses(s: Seq<char>) -> bool;

/// Relies on `serde_yaml::from_str`: parsing into a generic
/// `serde_yaml::Value` succeeds or fails depending on the text alone.
#[verifier::external_body]
fn parse_yaml(text: &str) -> (r: Result<serde_yaml::Value, serde_yaml::Error>)
    ensures
        r is Ok <==> yaml_parses(text@),
{
    serde_yaml::from_str(text)
}

/// Relies on `serde_yaml::Error`'s `Display` impl for the human-readable
/// message and location of a parse failure.
#[verifier::external_body]
fn yaml_error_message(e: &serde_yaml::Error) -> (r: String) {
    e.to_string()
}

/// Decode and parse the `length` bytes at `offset` as a session document.
///
/// Returns `Ok` exactly when the region is open, the range lies inside it,
/// and the grammar accepts the decoded text.
pub fn extract_session_range(region: &MemoryRegion, offset: u32, length: u32) -> (r: Result<
    SessionDetails,
    DecodeError,
>)
    ensures
        !region.is_open() ==> r == Err::<SessionDetails, DecodeError>(DecodeError::ClosedRegion),
        region.is_open() && offset + length > region.bytes().len() ==> r == Err::<
            SessionDetails,
            DecodeError,
        >(DecodeError::MalformedRegion),
        region.is_open() && offset + length <= region.bytes().len() ==> (r is Ok <==> yaml_parses(
            latin1_chars(region.bytes().subrange(offset as int, offset + length)),
        )),
        region.is_open() && offset + length <= region.bytes().len() && r is Err ==> (r->Err_0)
            matches DecodeError::InvalidSessionDocument(_),
{
    if !region.check_open() {
        return Err(DecodeError::ClosedRegion);
    }
    if offset as u64 + length as u64 > region.len() as u64 {
        return Err(DecodeError::MalformedRegion);
    }
    let raw = region.copy_range(offset as usize, length as usize);
    let text = decode_latin1_text(raw.as_slice());
    match parse_yaml(text.as_str()) {
        Ok(document) => Ok(document),
        Err(e) => Err(DecodeError::InvalidSessionDocument(yaml_error_message(&e))),
    }
}

/// Extract the session document from the range the header locates.
pub fn extract_session_info(region: &MemoryRegion, header: &Header) -> (r: Result<
    SessionDetails,
    DecodeError,
>)
    ensures
        !region.is_open() ==> r == Err::<SessionDetails, DecodeError>(DecodeError::ClosedRegion),
        region.is_open() && header.session_info_offset + header.session_info_length
            > region.bytes().len() ==> r == Err::<SessionDetails, DecodeError>(
            DecodeError::MalformedRegion,
        ),
        region.is_open() && header.session_info_offset + header.session_info_length
            <= region.bytes().len() ==> (r is Ok <==> yaml_parses(
            latin1_chars(
                region.bytes().subrange(
                    header.session_info_offset as int,
                    header.session_info_offset + header.session_info_length,
                ),
            ),
        )),
{
    extract_session_range(region, header.session_info_offset, header.session_info_length)
}

} // verus!
