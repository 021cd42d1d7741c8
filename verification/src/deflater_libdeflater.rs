//! The default backend: zlib compression, decompression and CRC-32 through
//! the `libdeflater` library.

use vstd::prelude::*;

use crate::crc32_of;
use crate::BackendError;
use crate::InflateFailure;

verus! {

/// The zlib stream that libdeflater encodes `data` into at compression
/// level `level`; a function of the input bytes and the level alone.
pub uninterp spec fn deflate_bytes(data: Seq<u8>, level: int) -> Seq<u8>;

/// The bytes that libdeflater decodes the zlib stream `data` into, or
/// `None` when `data` is not a valid zlib stream; a function of the input
/// bytes alone.
pub uninterp spec fn inflate_bytes(data: Seq<u8>) -> Option<Seq<u8>>;

/// Whether libdeflater, decoding the zlib stream `data` into a buffer of
/// `capacity` bytes, reports the stream as corrupt rather than the buffer
/// as too small; a function of the two alone, so the failure kind of a
/// decompression pass is deterministic.
pub uninterp spec fn inflate_reports_bad_data(data: Seq<u8>, capacity: int) -> bool;

/// Relies on libdeflater's `Compressor::zlib_compress`: it writes the zlib
/// encoding of `data` at `level` into a prefix of `dest` and returns the
/// encoded length, or fails exactly when the encoding does not fit in
/// `dest`. The encoding is lossless: decoding it yields `data` again.
#[verifier::external_body]
fn zlib_compress_into(data: &[u8], level: u8, dest: &mut Vec<u8>) -> (r: Option<usize>)
    requires
        1 <= level <= 12,
    ensures
        final(dest)@.len() == old(dest)@.len(),
        r matches Some(n) ==> {
            &&& n as int == deflate_bytes(data@, level as int).len()
            &&& 0 < n <= old(dest)@.len()
            &&& final(dest)@.subrange(0, n as int) == deflate_bytes(data@, level as int)
            &&& inflate_bytes(deflate_bytes(data@, level as int)) == Some(data@)
        },
        r is None ==> deflate_bytes(data@, level as int).len() > old(dest)@.len(),
{
    let mut compressor =
        libdeflater::Compressor::new(libdeflater::CompressionLvl::new(level.into()).unwrap());
    match compressor.zlib_compress(data, dest) {
        Ok(n) => Some(n),
        Err(libdeflater::CompressionError::InsufficientSpace) => None,
    }
}

/// Relies on libdeflater's `Compressor::zlib_compress_bound`: a hard upper
/// bound on the size of the zlib encoding of `data` at `level`.
#[verifier::external_body]
fn zlib_compress_bound_for(data: &[u8], level: u8) -> (r: usize)
    requires
        1 <= level <= 12,
    ensures
        deflate_bytes(data@, level as int).len() <= r as int,
{
    let mut compressor =
        libdeflater::Compressor::new(libdeflater::CompressionLvl::new(level.into()).unwrap());
    compressor.zlib_compress_bound(data.len())
}

/// Relies on libdeflater's `Decompressor::zlib_decompress`: it decodes the
/// zlib stream `data` into a prefix of `dest` and returns the decoded
/// length; it fails with `BadData` only on an invalid stream, with
/// `InsufficientSpace` only when the decoded bytes do not fit in `dest`,
/// and succeeds whenever the stream is valid and its decoded form fits.
/// Which failure kind it reports is deterministic in `data` and the size
/// of `dest`.
#[verifier::external_body]
fn zlib_decompress_into(data: &[u8], dest: &mut Vec<u8>) -> (r: Result<usize, InflateFailure>)
    ensures
        final(dest)@.len() == old(dest)@.len(),
        r matches Ok(n) ==> inflate_bytes(data@) matches Some(out) && n as int == out.len()
            && n <= old(dest)@.len() && final(dest)@.subrange(0, n as int) == out,
        (match inflate_bytes(data@) {
            Some(out) => out.len() <= old(dest)@.len() ==> r is Ok,
            None => !(r is Ok),
        }),
        r matches Err(f) ==> {
            &&& (f is BadData <==> inflate_reports_bad_data(data@, old(dest)@.len() as int))
            &&& (f is BadData ==> inflate_bytes(data@) is None)
            &&& (f is InsufficientSpace ==> !(match inflate_bytes(data@) {
                Some(out) => out.len() <= old(dest)@.len(),
                None => false,
            }))
        },
{
    let mut decompressor = libdeflater::Decompressor::new();
    match decompressor.zlib_decompress(data, dest) {
        Ok(n) => Ok(n),
        Err(libdeflater::DecompressionError::BadData) => Err(InflateFailure::BadData),
        Err(libdeflater::DecompressionError::InsufficientSpace) => {
            Err(InflateFailure::InsufficientSpace)
        }
    }
}

/// Relies on libdeflater's `crc32`: the standard CRC-32 checksum of the
/// bytes, a pure function of the bytes alone; the empty buffer checksums
/// to 0, and the digits `"123456789"` to the canonical check value
/// `0xCBF43926`.
#[verifier::external_body]
fn crc32_raw(data: &[u8]) -> (r: u32)
    ensures
        r == crc32_of(data@),
        data@.len() == 0 ==> r == 0,
        data@ == seq![0x31u8, 0x32u8, 0x33u8, 0x34u8, 0x35u8, 0x36u8, 0x37u8, 0x38u8, 0x39u8]
            ==> r == 0xCBF43926u32,
{
    libdeflater::crc32(data)
}

/// Compresses `data` into a zlib stream at compression level `level`
/// (1 to 12).
///
/// With `max_size` given, the destination buffer holds exactly that many
/// bytes and a stream that does not fit is reported as `CapacityExceeded`;
/// without it, a safe upper bound from the backend pre-sizes the buffer and
/// compression always succeeds. A successful result is the encoded stream,
/// truncated to its actual length.
pub fn deflate(data: &[u8], level: u8, max_size: Option<usize>) -> (r: Result<
    Vec<u8>,
    BackendError,
>)
    requires
        1 <= level <= 12,
    ensures
        r matches Ok(v) ==> {
            &&& v@ == deflate_bytes(data@, level as int)
            &&& 0 < v@.len()
            &&& inflate_bytes(v@) == Some(data@)
            &&& (max_size matches Some(cap) ==> v@.len() <= cap as int)
        },
        max_size is None ==> r is Ok,
        r matches Err(e) ==> {
            &&& max_size matches Some(cap)
            &&& e == BackendError::CapacityExceeded(cap)
            &&& deflate_bytes(data@, level as int).len() > cap as int
        },
{
    let capacity: usize = match max_size {
        Some(cap) => cap,
        None => zlib_compress_bound_for(data, level),
    };
    let mut dest: Vec<u8> = Vec::new();
    dest.resize(capacity, 0u8);
    match zlib_compress_into(data, level, &mut dest) {
        Some(n) => {
            dest.truncate(n);
            Ok(dest)
        }
        None => Err(BackendError::CapacityExceeded(capacity)),
    }
}

/// Decompresses the zlib stream `data` into a destination buffer of exactly
/// `out_size` bytes.
///
/// A successful result is the decoded bytes, truncated to the length the
/// decoder actually produced, which may be less than `out_size`. An invalid
/// stream is reported as `MalformedInput` when the decoder sees the
/// corruption, but as `CapacityExceeded` when the buffer fills up first;
/// which of the two comes is a fixed function of `data` and `out_size`, so
/// repeated calls fail alike. Decoded data that does not fit in the buffer
/// is always reported as `CapacityExceeded`.
pub fn inflate(data: &[u8], out_size: usize) -> (r: Result<Vec<u8>, BackendError>)
    ensures
        r matches Ok(v) ==> inflate_bytes(data@) == Some(v@) && v@.len() <= out_size as int,
        (match inflate_bytes(data@) {
            Some(out) => out.len() <= out_size as int ==> (r matches Ok(v) && v@ == out),
            None => r is Err,
        }),
        r matches Err(e) ==> (e is MalformedInput <==> inflate_reports_bad_data(
            data@,
            out_size as int,
        )),
        r matches Err(e) ==> (match e {
            BackendError::MalformedInput => inflate_bytes(data@) is None,
            BackendError::CapacityExceeded(n) => n == out_size && !(match inflate_bytes(data@) {
                Some(out) => out.len() <= out_size as int,
                None => false,
            }),
            BackendError::BackendFailure => false,
        }),
{
    let mut dest: Vec<u8> = Vec::new();
    dest.resize(out_size, 0u8);
    match zlib_decompress_into(data, &mut dest) {
        Ok(n) => {
            dest.truncate(n);
            Ok(dest)
        }
        Err(InflateFailure::BadData) => Err(BackendError::MalformedInput),
        Err(InflateFailure::InsufficientSpace) => Err(BackendError::CapacityExceeded(out_size)),
    }
}

/// The CRC-32 checksum of `data`: a pure, total function of the bytes, so
/// repeated calls on equal input return equal checksums, and either
/// backend returns the same value.
pub fn crc32(data: &[u8]) -> (r: u32)
    ensures
        r == crc32_of(data@),
        data@.len() == 0 ==> r == 0,
        data@ == seq![0x31u8, 0x32u8, 0x33u8, 0x34u8, 0x35u8, 0x36u8, 0x37u8, 0x38u8, 0x39u8]
            ==> r == 0xCBF43926u32,
{
    crc32_raw(data)
}

/// Law: inflating the stream that `deflate` produced, with the original
/// length as the expected output size, restores the original bytes.
pub fn round_trip(data: &[u8], level: u8) -> (r: Vec<u8>)
    requires
        1 <= level <= 12,
    ensures
        r@ == data@,
{
    let compressed: Vec<u8> = match deflate(data, level, None) {
        Ok(c) => c,
        Err(_) => {
            proof {
                assert(false);
            }
            Vec::new()
        }
    };
    match inflate(compressed.as_slice(), data.len()) {
        Ok(v) => v,
        Err(_) => {
            proof {
                assert(false);
            }
            Vec::new()
        }
    }
}

} // verus!

