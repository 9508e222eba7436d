//! The orchestrators, written as step functions that an I/O layer drives:
//! it performs each fetch that a step asks for and hands the outcome back.
//! The image pipeline normalizes the source URL, fetches it, retries once
//! through the configured proxy on any fetch failure, resolves the target
//! size, and transcodes. The favicon pipeline validates the domain and
//! tries a primary then a secondary provider, serving the bytes verbatim.

use vstd::prelude::*;

verus! {

use vstd::string::*;
use crate::resolver::{
    get_target_size,
    lemma_downscale_and_aspect,
    spec_size_invalid,
    spec_target_size,
    Size,
};
use crate::transcode::{decode, decoded_dims, resample_and_encode, resized_dims};
use crate::types::{EncodedPayload, FetchOutcome, MimeType, PipelineError};
use crate::urls::{
    favicon_fallback_url,
    favicon_primary_url,
    is_http_like,
    normalize_protocol,
    proxy_url,
    spec_favicon_fallback_url,
    spec_favicon_primary_url,
    spec_http_like,
    spec_normalized,
    spec_proxy_url,
};

/// What the image pipeline asks its caller to do after the primary fetch:
/// carry the fetched bytes onward, or perform one fetch against the proxy.
pub enum ImgStep {
    Fetched(Vec<u8>),
    TryProxy(String),
}

/// What the favicon pipeline asks its caller to do after the primary
/// fetch: serve the finished payload, or perform one fetch against the
/// secondary provider.
pub enum FaviconStep {
    Done(EncodedPayload),
    TryFallback(String),
}

/// Step 1 of the image pipeline: normalize the caller's URL (`//` gains an
/// `https:` prefix) and return the address of the primary fetch. A URL that
/// is still not `http(s)` after normalization is replaced by the
/// operator-configured fallback source when one exists, and rejected
/// otherwise.
pub fn plan_source(url: &str, fallback_url: Option<String>) -> (r: Result<String, PipelineError>)
    ensures
        spec_http_like(spec_normalized(url@)) ==> (r matches Ok(u) && u@ == spec_normalized(
            url@,
        )),
        !spec_http_like(spec_normalized(url@)) ==> (fallback_url matches Some(f) ==> (r matches Ok(
            u,
        ) && u@ == f@)),
        !spec_http_like(spec_normalized(url@)) && fallback_url is None ==> (r matches Err(e) && e
            == PipelineError::BadRequest),
{
    let normalized = normalize_protocol(url);
    if is_http_like(normalized.as_str()) {
        Ok(normalized)
    } else {
        match fallback_url {
            Some(f) => Ok(f),
            None => Err(PipelineError::BadRequest),
        }
    }
}

/// Step 2 of the image pipeline: a successful primary fetch carries its
/// bytes onward; any failure directs exactly one further fetch, against the
/// proxy address built from the primary URL.
pub fn after_primary_fetch(url: &str, outcome: FetchOutcome) -> (r: ImgStep)
    ensures
        outcome matches FetchOutcome::Success(b) ==> r == ImgStep::Fetched(b),
        !(outcome is Success) ==> (r matches ImgStep::TryProxy(u) && u@ == spec_proxy_url(url)),
{
    match outcome {
        FetchOutcome::Success(b) => ImgStep::Fetched(b),
        FetchOutcome::HttpStatus(_) => ImgStep::TryProxy(proxy_url(url)),
        FetchOutcome::Transport => ImgStep::TryProxy(proxy_url(url)),
    }
}

/// Step 3 of the image pipeline: a successful proxy fetch carries its bytes
/// onward; a second failure ends the pipeline, with no further retry.
pub fn after_proxy_fetch(outcome: FetchOutcome) -> (r: Result<Vec<u8>, PipelineError>)
    ensures
        outcome matches FetchOutcome::Success(b) ==> (r matches Ok(v) && v == b),
        !(outcome is Success) ==> (r matches Err(e) && e == PipelineError::UpstreamUnavailable),
{
    match outcome {
        FetchOutcome::Success(b) => Ok(b),
        FetchOutcome::HttpStatus(_) => Err(PipelineError::UpstreamUnavailable),
        FetchOutcome::Transport => Err(PipelineError::UpstreamUnavailable),
    }
}

/// The dimensions that the payload of a successful transform decodes to:
/// the resampler's aspect-preserving refit of the decoded image to the
/// resolved target.
pub open spec fn spec_transformed_dims(natural: (u32, u32), s: Size) -> (u32, u32)
    recommends
        !spec_size_invalid(s),
{
    let target = spec_target_size(natural.0, natural.1, s);
    resized_dims(natural.0, natural.1, target.0 as u32, target.1 as u32)
}

/// Steps 4 and 5 of the image pipeline, on fetched bytes: decode them,
/// resolve the requested box against the natural dimensions, resample and
/// encode. Undecodable bytes and a double encoder failure are content
/// problems; an invalid box is the caller's fault. A successful payload
/// decodes back to the transformed dimensions, and success is owed — as
/// JPEG — whenever the resolved target is positive and the transformed
/// size is within JPEG's range; only beyond it may both encoders fail.
pub fn transform_bytes(bytes: &Vec<u8>, requested: &Size) -> (r: Result<
    EncodedPayload,
    PipelineError,
>)
    ensures
        decoded_dims(bytes@) is None ==> (r matches Err(e) && e
            == PipelineError::UnprocessableImage),
        decoded_dims(bytes@) is Some && spec_size_invalid(*requested) ==> (r matches Err(e) && e
            == PipelineError::BadRequest),
        r matches Ok(p) ==> decoded_dims(bytes@) is Some && !spec_size_invalid(*requested) && (
        p.mime == MimeType::Jpeg || p.mime == MimeType::Png),
        decoded_dims(bytes@) is Some && !spec_size_invalid(*requested) ==> (r matches Err(e) ==> e
            == PipelineError::UnprocessableImage),
        decoded_dims(bytes@) matches Some(d) ==> (r matches Ok(p) ==> decoded_dims(p.bytes@)
            == Some(spec_transformed_dims(d, *requested))),
        decoded_dims(bytes@) matches Some(d) ==> (spec_target_size(d.0, d.1, *requested) == (
        d.0 as int, d.1 as int) ==> (r matches Ok(p) ==> decoded_dims(p.bytes@) == Some(d))),
        decoded_dims(bytes@) matches Some(d) ==> ((!spec_size_invalid(*requested) && 1
            <= spec_target_size(d.0, d.1, *requested).0 && 1 <= spec_target_size(
            d.0,
            d.1,
            *requested,
        ).1) ==> (1 <= spec_transformed_dims(d, *requested).0 && spec_transformed_dims(
            d,
            *requested,
        ).0 <= spec_target_size(d.0, d.1, *requested).0 && 1 <= spec_transformed_dims(
            d,
            *requested,
        ).1 && spec_transformed_dims(d, *requested).1 <= spec_target_size(d.0, d.1, *requested).1)),
        decoded_dims(bytes@) matches Some(d) && !spec_size_invalid(*requested) && 1
            <= spec_target_size(d.0, d.1, *requested).0 && 1 <= spec_target_size(
            d.0,
            d.1,
            *requested,
        ).1 && spec_transformed_dims(d, *requested).0 <= 65535 && spec_transformed_dims(
            d,
            *requested,
        ).1 <= 65535 ==> (r matches Ok(p) && p.mime == MimeType::Jpeg),
{
    let img = match decode(bytes) {
        Ok(img) => img,
        Err(_) => return Err(PipelineError::UnprocessableImage),
    };
    let natural_w = img.width();
    let natural_h = img.height();
    let target = match get_target_size(natural_w, natural_h, requested) {
        Ok(target) => target,
        Err(_) => return Err(PipelineError::BadRequest),
    };
    proof {
        // The resolved target never upscales, which the resampler requires.
        lemma_downscale_and_aspect(natural_w, natural_h, *requested);
    }
    match resample_and_encode(&img, target.0, target.1) {
        Ok(payload) => Ok(payload),
        Err(_) => Err(PipelineError::UnprocessableImage),
    }
}

/// Step 1 of the favicon pipeline: a domain of fewer than three characters
/// (which covers the empty one) is rejected before any network work; a
/// valid one gives the primary provider's address.
pub fn favicon_plan(domain: &str) -> (r: Result<String, PipelineError>)
    ensures
        domain@.len() < 3 ==> (r matches Err(e) && e == PipelineError::BadRequest),
        domain@.len() >= 3 ==> (r matches Ok(u) && u@ == spec_favicon_primary_url(domain)),
{
    if domain.unicode_len() < 3 {
        Err(PipelineError::BadRequest)
    } else {
        Ok(favicon_primary_url(domain))
    }
}

/// Step 2 of the favicon pipeline: a primary success is served verbatim as
/// an icon; a failure directs one fetch to the secondary provider.
pub fn favicon_after_primary(domain: &str, outcome: FetchOutcome) -> (r: FaviconStep)
    ensures
        outcome matches FetchOutcome::Success(b) ==> (r matches FaviconStep::Done(p) && p.bytes
            == b && p.mime == MimeType::Icon),
        !(outcome is Success) ==> (r matches FaviconStep::TryFallback(u) && u@
            == spec_favicon_fallback_url(domain)),
{
    match outcome {
        FetchOutcome::Success(b) => FaviconStep::Done(
            EncodedPayload { bytes: b, mime: MimeType::Icon },
        ),
        FetchOutcome::HttpStatus(_) => FaviconStep::TryFallback(favicon_fallback_url(domain)),
        FetchOutcome::Transport => FaviconStep::TryFallback(favicon_fallback_url(domain)),
    }
}

/// Step 3 of the favicon pipeline: a secondary success is served verbatim
/// as PNG; a second failure ends the pipeline.
pub fn favicon_after_fallback(outcome: FetchOutcome) -> (r: Result<EncodedPayload, PipelineError>)
    ensures
        outcome matches FetchOutcome::Success(b) ==> (r matches Ok(p) && p.bytes == b && p.mime
            == MimeType::Png),
        !(outcome is Success) ==> (r matches Err(e) && e == PipelineError::UpstreamUnavailable),
{
    match outcome {
        FetchOutcome::Success(b) => Ok(EncodedPayload { bytes: b, mime: MimeType::Png }),
        FetchOutcome::HttpStatus(_) => Err(PipelineError::UpstreamUnavailable),
        FetchOutcome::Transport => Err(PipelineError::UpstreamUnavailable),
    }
}

} // verus!
