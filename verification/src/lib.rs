//! Zlib-compatible compression, decompression and CRC-32 checksums for a
//! PNG-processing pipeline, offered by two interchangeable backends.
//!
//! Each backend module exposes the same three operations — `deflate`,
//! `inflate` and `crc32` — over byte buffers, as thin verified adapters
//! around an external compression library. Exactly one backend is meant to
//! be active per build; the crate root re-exports the default one, and a
//! build picks the alternate by importing from its module instead.

use vstd::prelude::*;

pub mod deflater_flate2;
pub mod deflater_libdeflater;

pub use deflater_libdeflater::crc32;
pub use deflater_libdeflater::deflate;
pub use deflater_libdeflater::inflate;
pub use deflater_libdeflater::round_trip;

verus! {

/// The standard CRC-32 checksum of `data` (the reflected-polynomial
/// checksum that zlib, gzip and PNG use); a pure function of the bytes
/// alone. Both backend libraries compute this same reference function, so
/// the one name is shared and the backends are provably interchangeable on
/// checksums.
pub uninterp spec fn crc32_of(data: Seq<u8>) -> u32;

/// How a compression or decompression call can fail.
#[derive(Clone, Copy, Debug, PartialEq, Eq, Structural)]
pub enum BackendError {
    /// The destination buffer of the carried size is too small for the
    /// actual encoded or decoded output.
    CapacityExceeded(usize),
    /// Decompression met a corrupt or invalid compressed stream.
    MalformedInput,
    /// Any other failure internal to the backend library.
    BackendFailure,
}

/// How a backend library reports a failed decompression pass.
pub(crate) enum InflateFailure {
    /// The compressed stream is invalid.
    BadData,
    /// The decoded data does not fit in the destination buffer.
    InsufficientSpace,
}

} // verus!
