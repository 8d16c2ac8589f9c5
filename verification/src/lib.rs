//! Per-frame video-to-image transcoding core.
//!
//! For each requested frame of an upstream video stream, the library
//! validates the stream format at setup time, repacks the three 8-bit
//! colour planes of a frame into one interleaved pixel buffer, resolves
//! the caller's output-path template against the frame index, and encodes
//! the buffer as a lossless still image. The surrounding host protocol
//! (frame scheduling, filesystem writes, plugin registration) stays with
//! the host; the library is the decision and transformation logic.

pub mod encode;
pub mod filter;
pub mod format;
pub mod pack;
pub mod template;
