//! An on-demand image transformation core: given a source URL (or a domain,
//! for favicons) and an optional bounding box, it plans the remote fetches
//! with their fallbacks, computes a downscale-only target size that preserves
//! the aspect ratio, and re-encodes the decoded pixels with a JPEG-then-PNG
//! fallback. All I/O is left to the caller, which drives the step functions
//! of `pipeline` and hands their outcomes back.

pub mod pipeline;
pub mod resolver;
pub mod transcode;
pub mod types;
pub mod urls;
