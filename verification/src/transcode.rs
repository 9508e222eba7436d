//! The decode / resample / encode stage. The pixel work is done by the
//! `image` crate behind trusted wrappers; what is verified here is the
//! shape of the stage: format detection from the byte content alone, one
//! resample to the resolved target, and the JPEG-then-PNG encoder fallback
//! on the same resampled pixels, with the mime type reporting whichever
//! encoder succeeded.

use vstd::prelude::*;

verus! {

use crate::types::{EncodedPayload, MimeType, TranscodeError};

/// The fixed JPEG quality of the primary encoding path.
pub const JPEG_QUALITY: u8 = 80;

/// Declares `image::DynamicImage` so that decoded pixel buffers can be
/// carried through verified code; the buffer itself stays opaque.
#[verifier::external_type_specification]
#[verifier::external_body]
pub struct ExDynamicImage(image::DynamicImage);

/// The dimensions of the image that the given bytes decode to, if any
/// decoder accepts them. Decoding an in-memory buffer depends on the bytes
/// alone: the format is guessed from their content and the reader's limits
/// are fixed constants. (The `image` crate also offers process-global
/// decoding hooks that could change what decodes; neither this crate nor
/// its callers may register any for this to hold.)
pub uninterp spec fn decoded_dims(bytes: Seq<u8>) -> Option<(u32, u32)>;

/// The dimensions that the resampler's aspect-preserving refit gives an
/// image of the given natural size within the given bounds: fixed
/// arithmetic of the four values alone.
pub uninterp spec fn resized_dims(width: u32, height: u32, bound_w: u32, bound_h: u32) -> (
    u32,
    u32,
);

/// A decoded image: the opaque pixel buffer and its dimensions, owned for
/// the lifetime of one transform. The fields are private, so the only
/// values that exist come from the decode and resample wrappers below:
/// the dimensions always describe the buffer they accompany, which the
/// wrappers' contracts rely on.
pub struct DecodedImage {
    handle: image::DynamicImage,
    width: u32,
    height: u32,
}

impl DecodedImage {
    /// The width of the pixel buffer.
    pub closed spec fn spec_width(&self) -> u32 {
        self.width
    }

    /// The height of the pixel buffer.
    pub closed spec fn spec_height(&self) -> u32 {
        self.height
    }

    pub fn width(&self) -> (r: u32)
        ensures
            r == self.spec_width(),
    {
        self.width
    }

    pub fn height(&self) -> (r: u32)
        ensures
            r == self.spec_height(),
    {
        self.height
    }
}

/// Relies on `image::ImageReader::with_guessed_format` and `decode`: the
/// container format is detected from the byte content alone, and a decoded
/// image reports its own dimensions.
#[verifier::external_body]
fn decode_wrapper(bytes: &Vec<u8>) -> (r: Option<DecodedImage>)
    ensures
        r is Some <==> decoded_dims(bytes@) is Some,
        r matches Some(img) ==> decoded_dims(bytes@) == Some((img.spec_width(), img.spec_height())),
{
    let cursor = std::io::Cursor::new(bytes.as_slice());
    let reader = match image::ImageReader::new(cursor).with_guessed_format() {
        Ok(reader) => reader,
        Err(_) => return None,
    };
    match reader.decode() {
        Ok(img) => {
            let width = img.width();
            let height = img.height();
            Some(DecodedImage { handle: img, width, height })
        },
        Err(_) => None,
    }
}

/// Relies on `image::DynamicImage::resize` with the Lanczos3 filter: the
/// result is the largest aspect-preserving size that fits within the given
/// bounds, never below one pixel on either axis, computed by fixed
/// arithmetic from the natural size and the bounds alone; bounds equal to
/// the natural size return the image unscaled. The bounds may not exceed
/// the natural size (the library's downscale-only policy), which also
/// keeps every buffer a later encoder sees no larger than one that already
/// decoded under the reader's fixed allocation cap.
#[verifier::external_body]
fn resize_wrapper(img: &DecodedImage, target_w: u32, target_h: u32) -> (r: DecodedImage)
    requires
        target_w <= img.spec_width(),
        target_h <= img.spec_height(),
    ensures
        (r.spec_width(), r.spec_height()) == resized_dims(
            img.spec_width(),
            img.spec_height(),
            target_w,
            target_h,
        ),
        1 <= target_w && 1 <= target_h ==> 1 <= r.spec_width() <= target_w && 1 <= r.spec_height()
            <= target_h,
        target_w == img.spec_width() && target_h == img.spec_height() ==> (
            r.spec_width(),
            r.spec_height(),
        ) == (target_w, target_h),
{
    let out = img.handle.resize(target_w, target_h, image::imageops::FilterType::Lanczos3);
    let width = out.width();
    let height = out.height();
    DecodedImage { handle: out, width, height }
}

/// Relies on `image::codecs::jpeg::JpegEncoder::new_with_quality` through
/// `DynamicImage::write_with_encoder`: the pixel data is first converted to
/// a JPEG-compatible color type, so the only failure left is a dimension
/// outside 1..=65535; the frame header carries the image's own dimensions,
/// which decoding the output returns. That decode stays within the
/// reader's fixed allocation cap: every image here decoded or was
/// downscaled under the same cap, and the conversion never widens the
/// bytes per pixel.
#[verifier::external_body]
fn encode_jpeg(img: &DecodedImage, quality: u8) -> (r: Option<Vec<u8>>)
    ensures
        r matches Some(bytes) ==> decoded_dims(bytes@) == Some(
            (img.spec_width(), img.spec_height()),
        ),
        1 <= img.spec_width() && img.spec_width() <= 65535 && 1 <= img.spec_height()
            && img.spec_height() <= 65535 ==> r is Some,
{
    let mut out: Vec<u8> = Vec::new();
    let cursor = &mut std::io::Cursor::new(&mut out);
    let encoder = image::codecs::jpeg::JpegEncoder::new_with_quality(cursor, quality);
    match img.handle.write_with_encoder(encoder) {
        Ok(()) => Some(out),
        Err(_) => None,
    }
}

/// Relies on `image::codecs::png::PngEncoder::new_with_quality` with
/// default compression and adaptive filtering through
/// `DynamicImage::write_with_encoder`: the header carries the image's own
/// dimensions, which decoding the output returns — within the reader's
/// fixed allocation cap, since every image here decoded or was downscaled
/// under the same cap and this encoder keeps the pixel type. Success is
/// not promised: the encoder converts nothing, and rejects float-sample
/// pixel data, which stays invisible here.
#[verifier::external_body]
fn encode_png(img: &DecodedImage) -> (r: Option<Vec<u8>>)
    ensures
        r matches Some(bytes) ==> decoded_dims(bytes@) == Some(
            (img.spec_width(), img.spec_height()),
        ),
{
    let mut out: Vec<u8> = Vec::new();
    let cursor = &mut std::io::Cursor::new(&mut out);
    let encoder = image::codecs::png::PngEncoder::new_with_quality(
        cursor,
        image::codecs::png::CompressionType::Default,
        image::codecs::png::FilterType::Adaptive,
    );
    match img.handle.write_with_encoder(encoder) {
        Ok(()) => Some(out),
        Err(_) => None,
    }
}

/// Decode arbitrary bitmap bytes, detecting the container format from the
/// byte content (never from a URL extension or a declared content-type).
/// Succeeds exactly when some decoder accepts the bytes, and then reports
/// the image's natural dimensions.
pub fn decode(bytes: &Vec<u8>) -> (r: Result<DecodedImage, TranscodeError>)
    ensures
        r is Ok <==> decoded_dims(bytes@) is Some,
        r matches Ok(img) ==> decoded_dims(bytes@) == Some((img.spec_width(), img.spec_height())),
        r matches Err(e) ==> e == TranscodeError::Decode,
{
    match decode_wrapper(bytes) {
        Some(img) => Ok(img),
        None => Err(TranscodeError::Decode),
    }
}

/// Resample the decoded image to the target size — downscale only, per the
/// library's policy — with the Lanczos filter, then encode: JPEG at the
/// fixed quality first and, only when that encoder fails, PNG on the same
/// resampled pixels, without re-decoding. The mime type reports whichever
/// encoder actually succeeded, the payload decodes back to the resampled
/// dimensions, and success is owed — as JPEG — whenever the resampled size
/// is within JPEG's range; only beyond it may both encoders fail.
pub fn resample_and_encode(img: &DecodedImage, target_w: u32, target_h: u32) -> (r: Result<
    EncodedPayload,
    TranscodeError,
>)
    requires
        target_w <= img.spec_width(),
        target_h <= img.spec_height(),
    ensures
        r matches Ok(p) ==> p.mime == MimeType::Jpeg || p.mime == MimeType::Png,
        r matches Ok(p) ==> decoded_dims(p.bytes@) == Some(
            resized_dims(img.spec_width(), img.spec_height(), target_w, target_h),
        ),
        target_w == img.spec_width() && target_h == img.spec_height() ==> (r matches Ok(p)
            ==> decoded_dims(p.bytes@) == Some((img.spec_width(), img.spec_height()))),
        1 <= target_w && 1 <= target_h ==> 1 <= resized_dims(
            img.spec_width(),
            img.spec_height(),
            target_w,
            target_h,
        ).0 <= target_w && 1 <= resized_dims(
            img.spec_width(),
            img.spec_height(),
            target_w,
            target_h,
        ).1 <= target_h,
        1 <= target_w && 1 <= target_h && resized_dims(
            img.spec_width(),
            img.spec_height(),
            target_w,
            target_h,
        ).0 <= 65535 && resized_dims(
            img.spec_width(),
            img.spec_height(),
            target_w,
            target_h,
        ).1 <= 65535 ==> (r matches Ok(p) && p.mime == MimeType::Jpeg),
        r matches Err(e) ==> e == TranscodeError::Encode,
{
    let resized = resize_wrapper(img, target_w, target_h);
    match encode_jpeg(&resized, JPEG_QUALITY) {
        Some(bytes) => Ok(EncodedPayload { bytes, mime: MimeType::Jpeg }),
        None => match encode_png(&resized) {
            Some(bytes) => Ok(EncodedPayload { bytes, mime: MimeType::Png }),
            None => Err(TranscodeError::Encode),
        },
    }
}

} // verus!
