//! The request validator: what is checked of a transform request before
//! anything is fetched, read or written.

use vstd::prelude::*;
use vstd::string::StringSliceAdditionalSpecFns;
use vstd::utf8::valid_utf8;

use crate::error::CustomError;
use crate::format::{lowercase_of, resolve_format, resolved_format, Format};

verus! {

/// The most bytes that the body of a request may have. A body describes a
/// transform; it does not carry an image.
pub const MAX_BODY_BYTES: usize = 1024;

/// A request that passed validation.
#[derive(Debug, Clone, PartialEq, Eq)]
pub struct TransformRequest {
    /// Where the source image is: a URL or another identifier.
    pub source: String,
    /// The length, in pixels, that the longer side of the image is given.
    pub tallest_side: u32,
    pub format: Format,
}

/// Calls `core::str::from_utf8`, which succeeds exactly on valid UTF-8 and
/// then gives the same bytes as text.
#[verifier::external_body]
fn utf8_text(bytes: &[u8]) -> (text: Option<&str>)
    ensures
        match text {
            Some(text) => valid_utf8(bytes@) && text.spec_bytes() == bytes@,
            None => !valid_utf8(bytes@),
        },
{
    core::str::from_utf8(bytes).ok()
}

/// Whether a body may be parsed at all: it is no longer than
/// `MAX_BODY_BYTES` and it is valid UTF-8.
pub open spec fn acceptable_body(body: Seq<u8>) -> bool {
    body.len() <= MAX_BODY_BYTES && valid_utf8(body)
}

/// Checks the body of a request and hands it on as text. A body that is
/// too long, or that is not UTF-8, is a bad request.
pub fn body_text(body: &[u8]) -> (result: Result<&str, CustomError>)
    ensures
        match result {
            Ok(text) => acceptable_body(body@) && text.spec_bytes() == body@,
            Err(error) => !acceptable_body(body@) && error == CustomError::BadRequest,
        },
{
    if body.len() > MAX_BODY_BYTES {
        return Err(CustomError::BadRequest);
    }
    match utf8_text(body) {
        Some(text) => Ok(text),
        None => Err(CustomError::BadRequest),
    }
}

/// Validates the fields of a parsed request. The format is resolved as
/// `resolve_format` says; a request whose format is not in the table is
/// turned down, and no other field can fail.
pub fn validate_request(
    source: &str,
    tallest_side: u32,
    format: Option<&str>,
    default_format: Option<Format>,
) -> (result: Result<TransformRequest, CustomError>)
    ensures
        match resolved_format(
            match format {
                Some(text) => Some(lowercase_of(text@)),
                None => None,
            },
            default_format,
        ) {
            Some(resolved) => {
                &&& result matches Ok(request)
                &&& request.source@ == source@
                &&& request.tallest_side == tallest_side
                &&& request.format == resolved
            },
            None => result matches Err(error) && error == CustomError::UnsupportedFormat,
        },
{
    match resolve_format(format, default_format) {
        Ok(resolved) => Ok(
            TransformRequest { source: source.to_string(), tallest_side, format: resolved },
        ),
        Err(error) => Err(error),
    }
}

} // verus!
