//! CRC32 integrity checksums over the on-wire payload.
use vstd::prelude::*;

verus! {

/// The CRC32 (IEEE) checksum of a byte sequence. The algorithm is fixed by
/// its polynomial; its value is determined by the bytes alone.
pub uninterp spec fn crc32_of(data: Seq<u8>) -> u32;

/// Relies on `crc32fast::hash`: the CRC32 (IEEE) checksum of the bytes,
/// a function of the bytes alone.
#[verifier::external_body]
pub(crate) fn crc32(data: &[u8]) -> (r: u32)
    ensures
        r == crc32_of(data@),
{
    crc32fast::hash(data)
}

} // verus!
