//! The value types shared across the pipeline: the outcome of one outbound
//! fetch as the I/O layer reports it, the encoded payload handed back to the
//! boundary, and the closed failure taxonomy.

use vstd::prelude::*;

verus! {

/// The outcome of one outbound fetch: the body bytes of a successful
/// response, the numeric status of a non-successful one, or a
/// transport-level failure (DNS, TLS, connection reset, timeout).
#[derive(Debug)]
pub enum FetchOutcome {
    Success(Vec<u8>),
    HttpStatus(u16),
    Transport,
}

/// The output types the pipeline can serve: the two encoders' formats, and
/// the icon type that the favicon path serves verbatim.
#[derive(Debug, Clone, Copy, PartialEq, Eq, Structural)]
pub enum MimeType {
    Jpeg,
    Png,
    Icon,
}

impl MimeType {
    /// The content-type header value for this mime type.
    pub fn as_str(&self) -> (r: &'static str)
        ensures
            *self == MimeType::Jpeg ==> r@ == "image/jpeg"@,
            *self == MimeType::Png ==> r@ == "image/png"@,
            *self == MimeType::Icon ==> r@ == "image/x-icon"@,
    {
        match self {
            MimeType::Jpeg => "image/jpeg",
            MimeType::Png => "image/png",
            MimeType::Icon => "image/x-icon",
        }
    }
}

/// The terminal artifact returned to the boundary: encoded bytes, and the
/// mime type of whichever encoder actually produced them.
#[derive(Debug)]
pub struct EncodedPayload {
    pub bytes: Vec<u8>,
    pub mime: MimeType,
}

/// The transcoder's own failures: bytes that no decoder accepts, or an
/// image that both encoders reject.
#[derive(Debug, Clone, Copy, PartialEq, Eq, Structural)]
pub enum TranscodeError {
    Decode,
    Encode,
}

/// The closed failure taxonomy of the pipeline.
#[derive(Debug, Clone, Copy, PartialEq, Eq, Structural)]
pub enum PipelineError {
    /// A malformed source URL or domain, or a bounding box with a zero
    /// dimension. Never retried.
    BadRequest,
    /// Both the primary and the fallback fetch attempts failed.
    UpstreamUnavailable,
    /// Bytes were fetched but do not decode, or both encoders failed.
    UnprocessableImage,
}

/// Whether an HTTP status code counts as success: the 2xx range.
pub open spec fn spec_is_success_status(status: u16) -> bool {
    200 <= status < 300
}

/// Classify one fetch response by its status code: a success keeps the
/// body, anything else keeps only the status as a classified failure.
pub fn classify_response(status: u16, body: Vec<u8>) -> (r: FetchOutcome)
    ensures
        spec_is_success_status(status) ==> r == FetchOutcome::Success(body),
        !spec_is_success_status(status) ==> r == FetchOutcome::HttpStatus(status),
{
    if 200 <= status && status < 300 {
        FetchOutcome::Success(body)
    } else {
        FetchOutcome::HttpStatus(status)
    }
}

} // verus!
