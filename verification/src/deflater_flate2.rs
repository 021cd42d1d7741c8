//! The alternate backend: zlib compression and decompression through the
//! `flate2` library, and CRC-32 through `crc32fast`.

use std::io::Write;
use vstd::prelude::*;

use crate::crc32_of;
use crate::BackendError;
use crate::InflateFailure;

verus! {

/// The zlib stream that flate2 encodes `data` into at compression level
/// `level` on flate2's own scale; a function of the input bytes and the
/// level alone.
pub uninterp spec fn deflate_bytes(data: Seq<u8>, level: int) -> Seq<u8>;

/// The bytes that flate2 decodes the zlib stream `data` into, or `None`
/// when `data` is not a valid zlib stream; a function of the input bytes
/// alone.
pub uninterp spec fn inflate_bytes(data: Seq<u8>) -> Option<Seq<u8>>;

/// Whether flate2, decoding the zlib stream `data` into a buffer of
/// `capacity` bytes, reports the stream as corrupt rather than stopping
/// short of its end; a function of the two alone, so the failure kind of a
/// decompression pass is deterministic.
pub uninterp spec fn inflate_reports_bad_data(data: Seq<u8>, capacity: int) -> bool;

/// The compression level handed to flate2, derived from the nominal scale
/// of 1 to 12 by a fixed linear remapping onto 1 to 10, so that nominal
/// levels keep a comparable compression-ratio effect across backends.
pub open spec fn compatible_level(level: int) -> int {
    ((level - 1) * 9 + 11) / 11
}

/// Relies on flate2's `write::ZlibEncoder` over an in-memory `Vec`: it
/// returns the zlib encoding of `data` at `level` on flate2's own scale, a
/// non-empty stream whose decoding yields `data` again. The encoder's only
/// error paths are the destination writer's, and writing to a `Vec` is
/// infallible, so the call cannot fail.
#[verifier::external_body]
fn zlib_encode(data: &[u8], level: u8, capacity: usize) -> (r: Vec<u8>)
    ensures
        r@ == deflate_bytes(data@, level as int),
        0 < r@.len(),
        inflate_bytes(r@) == Some(data@),
{
    let mut encoder = flate2::write::ZlibEncoder::new(
        Vec::with_capacity(capacity),
        flate2::Compression::new(level.into()),
    );
    encoder.write_all(data).unwrap();
    encoder.finish().unwrap()
}

/// Relies on flate2's `Decompress::decompress` with the finish flush mode:
/// one pass decodes the zlib stream `data` into a prefix of `dest` and
/// returns the decoded length; it reports a corrupt stream as `BadData`,
/// reaches the end of the stream whenever `data` is valid and its decoded
/// form fits in `dest`, and otherwise stops short with `InsufficientSpace`.
/// Which failure kind it reports is deterministic in `data` and the size
/// of `dest`.
#[verifier::external_body]
fn zlib_decode_into(data: &[u8], dest: &mut Vec<u8>) -> (r: Result<usize, InflateFailure>)
    ensures
        final(dest)@.len() == old(dest)@.len(),
        r matches Ok(n) ==> inflate_bytes(data@) matches Some(out) && n as int == out.len()
            && n <= old(dest)@.len() && final(dest)@.subrange(0, n as int) == out,
        (match inflate_bytes(data@) {
            Some(out) => out.len() <= old(dest)@.len() ==> r is Ok,
            None => !(r is Ok),
        }),
        r matches Err(f) ==> {
            &&& (f is BadData <==> inflate_reports_bad_data(data@, old(dest)@.len() as int))
            &&& (f is BadData ==> inflate_bytes(data@) is None)
            &&& (f is InsufficientSpace ==> !(match inflate_bytes(data@) {
                Some(out) => out.len() <= old(dest)@.len(),
                None => false,
            }))
        },
{
    let mut decompressor = flate2::Decompress::new(true);
    let status = decompressor.decompress(data, dest, flate2::FlushDecompress::Finish);
    match status {
        Ok(flate2::Status::StreamEnd) => Ok(decompressor.total_out() as usize),
        Ok(_) => Err(InflateFailure::InsufficientSpace),
        Err(_) => Err(InflateFailure::BadData),
    }
}

/// Relies on `crc32fast::hash`: the standard CRC-32 checksum of the bytes,
/// a pure function of the bytes alone; the empty buffer checksums to 0,
/// and the digits `"123456789"` to the canonical check value `0xCBF43926`.
#[verifier::external_body]
fn crc32_raw(data: &[u8]) -> (r: u32)
    ensures
        r == crc32_of(data@),
        data@.len() == 0 ==> r == 0,
        data@ == seq![0x31u8, 0x32u8, 0x33u8, 0x34u8, 0x35u8, 0x36u8, 0x37u8, 0x38u8, 0x39u8]
            ==> r == 0xCBF43926u32,
{
    crc32fast::hash(data)
}

/// Compresses `data` into a zlib stream at nominal compression level
/// `level` (1 to 12), remapped onto flate2's own scale.
///
/// With `max_size` given, an encoded stream longer than that many bytes is
/// reported as `CapacityExceeded`; without it, a heuristic multiple of the
/// input length pre-sizes the destination, which grows as needed, and
/// compression always succeeds.
pub fn deflate(data: &[u8], level: u8, max_size: Option<usize>) -> (r: Result<
    Vec<u8>,
    BackendError,
>)
    requires
        1 <= level <= 12,
    ensures
        r matches Ok(v) ==> {
            &&& v@ == deflate_bytes(data@, compatible_level(level as int))
            &&& 0 < v@.len()
            &&& inflate_bytes(v@) == Some(data@)
            &&& (max_size matches Some(cap) ==> v@.len() <= cap as int)
        },
        max_size is None ==> r is Ok,
        r matches Err(e) ==> {
            &&& max_size matches Some(cap)
            &&& e == BackendError::CapacityExceeded(cap)
            &&& deflate_bytes(data@, compatible_level(level as int)).len() > cap as int
        },
{
    let compatible: u8 = ((level - 1) * 9 + 11) / 11;
    let capacity: usize = match max_size {
        Some(cap) => cap,
        None => if data.len() <= usize::MAX / 2 {
            data.len() * 2
        } else {
            usize::MAX
        },
    };
    let compressed = zlib_encode(data, compatible, capacity);
    match max_size {
        Some(cap) => {
            if compressed.len() > cap {
                Err(BackendError::CapacityExceeded(cap))
            } else {
                Ok(compressed)
            }
        }
        None => Ok(compressed),
    }
}

/// Decompresses the zlib stream `data` into a destination buffer of exactly
/// `out_size` bytes, draining the decoder until the stream ends or the
/// buffer is full.
///
/// A successful result is the decoded bytes, truncated to the length the
/// decoder actually produced, which may be less than `out_size`. An invalid
/// stream is reported as `MalformedInput` when the decoder sees the
/// corruption, but as `CapacityExceeded` when the buffer fills up first;
/// which of the two comes is a fixed function of `data` and `out_size`, so
/// repeated calls fail alike. A stream that does not end within the buffer
/// is always reported as `CapacityExceeded`.
pub fn inflate(data: &[u8], out_size: usize) -> (r: Result<Vec<u8>, BackendError>)
    ensures
        r matches Ok(v) ==> inflate_bytes(data@) == Some(v@) && v@.len() <= out_size as int,
        (match inflate_bytes(data@) {
            Some(out) => out.len() <= out_size as int ==> (r matches Ok(v) && v@ == out),
            None => r is Err,
        }),
        r matches Err(e) ==> (e is MalformedInput <==> inflate_reports_bad_data(
            data@,
            out_size as int,
        )),
        r matches Err(e) ==> (match e {
            BackendError::MalformedInput => inflate_bytes(data@) is None,
            BackendError::CapacityExceeded(n) => n == out_size && !(match inflate_bytes(data@) {
                Some(out) => out.len() <= out_size as int,
                None => false,
            }),
            BackendError::BackendFailure => false,
        }),
{
    let mut dest: Vec<u8> = Vec::new();
    dest.resize(out_size, 0u8);
    match zlib_decode_into(data, &mut dest) {
        Ok(n) => {
            dest.truncate(n);
            Ok(dest)
        }
        Err(InflateFailure::BadData) => Err(BackendError::MalformedInput),
        Err(InflateFailure::InsufficientSpace) => Err(BackendError::CapacityExceeded(out_size)),
    }
}

/// The CRC-32 checksum of `data`: a pure, total function of the bytes, so
/// repeated calls on equal input return equal checksums, and either
/// backend returns the same value.
pub fn crc32(data: &[u8]) -> (r: u32)
    ensures
        r == crc32_of(data@),
        data@.len() == 0 ==> r == 0,
        data@ == seq![0x31u8, 0x32u8, 0x33u8, 0x34u8, 0x35u8, 0x36u8, 0x37u8, 0x38u8, 0x39u8]
            ==> r == 0xCBF43926u32,
{
    crc32_raw(data)
}

/// Law: inflating the stream that `deflate` produced, with the original
/// length as the expected output size, restores the original bytes.
pub fn round_trip(data: &[u8], level: u8) -> (r: Vec<u8>)
    requires
        1 <= level <= 12,
    ensures
        r@ == data@,
{
    let compressed: Vec<u8> = match deflate(data, level, None) {
        Ok(c) => c,
        Err(_) => {
            proof {
                assert(false);
            }
            Vec::new()
        }
    };
    match inflate(compressed.as_slice(), data.len()) {
        Ok(v) => v,
        Err(_) => {
            proof {
                assert(false);
            }
            Vec::new()
        }
    }
}

} // verus!
