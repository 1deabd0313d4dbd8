//! Payload compression with zstd.
//!
//! Decompression of a zstd frame is a function of the frame bytes alone:
//! either it yields one byte sequence or it fails. That function is named
//! `zstd_decoding`; the two wrappers below state their results through it,
//! and the codec's round trip rests on it.
use vstd::prelude::*;

verus! {

/// What zstd decompression yields for a byte sequence: the decompressed
/// bytes when the sequence is a well-formed zstd frame, `None` otherwise.
pub uninterp spec fn zstd_decoding(frame: Seq<u8>) -> Option<Seq<u8>>;

/// The zstd frame that single-shot compression yields for a byte sequence
/// at a level: for the zstd build this crate links, a function of the data
/// and the level alone.
pub uninterp spec fn zstd_encoding(data: Seq<u8>, level: i32) -> Seq<u8>;

/// Relies on `zstd::stream::encode_all`: the result is the frame single-shot
/// compression yields for these bytes at this level (out-of-range levels are
/// clamped, never refused), it decompresses back to exactly the input bytes,
/// and it is never empty — every frame begins with the format's magic
/// number. Failure is not ruled out: the compressor's own allocations can
/// fail.
#[verifier::external_body]
pub(crate) fn zstd_compress(data: &[u8], level: i32) -> (r: Result<Vec<u8>, String>)
    ensures
        r matches Ok(frame) ==> frame@ == zstd_encoding(data@, level) && frame@.len() > 0
            && zstd_decoding(frame@) == Some(data@),
{
    match zstd::stream::encode_all(data, level) {
        Ok(frame) => Ok(frame),
        Err(e) => Err(e.to_string()),
    }
}

/// Relies on `zstd::stream::decode_all`: succeeds with the decompressed
/// bytes exactly when the input is a well-formed zstd frame.
#[verifier::external_body]
pub(crate) fn zstd_decompress(frame: &[u8]) -> (r: Result<Vec<u8>, String>)
    ensures
        r matches Ok(data) ==> zstd_decoding(frame@) == Some(data@),
        r is Err ==> zstd_decoding(frame@) is None,
{
    match zstd::stream::decode_all(frame) {
        Ok(data) => Ok(data),
        Err(e) => Err(e.to_string()),
    }
}

} // verus!
