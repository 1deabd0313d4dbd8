//! The on-wire form of the packet header: a fixed 56 bytes, every
//! multi-byte field little-endian, at fixed offsets.
//!
//! | offset | width | field             |
//! |--------|-------|-------------------|
//! | 0      | 1     | version           |
//! | 1      | 1     | packet_type       |
//! | 2      | 2     | flags             |
//! | 4      | 4     | payload_length    |
//! | 8      | 4     | compressed_length |
//! | 12     | 4     | checksum          |
//! | 16     | 8     | sequence_number   |
//! | 24     | 8     | timestamp         |
//! | 32     | 8     | stream_id         |
//! | 40     | 8     | message_id        |
//! | 48     | 8     | response_to       |
use vstd::prelude::*;

use vstd::bytes::*;
use vstd::slice::slice_subrange;

use crate::header::UnisonPacketHeader;

verus! {

/// The size of the encoded header, in bytes.
pub const HEADER_SIZE: usize = 56;

/// The bytes a header is written as.
pub open spec fn spec_header_bytes(h: UnisonPacketHeader) -> Seq<u8> {
    seq![h.version, h.packet_type] + spec_u16_to_le_bytes(h.flags) + spec_u32_to_le_bytes(
        h.payload_length,
    ) + spec_u32_to_le_bytes(h.compressed_length) + spec_u32_to_le_bytes(h.checksum)
        + spec_u64_to_le_bytes(h.sequence_number) + spec_u64_to_le_bytes(h.timestamp)
        + spec_u64_to_le_bytes(h.stream_id) + spec_u64_to_le_bytes(h.message_id)
        + spec_u64_to_le_bytes(h.response_to)
}

/// The header that 56 bytes are read as.
pub open spec fn spec_parse_header(b: Seq<u8>) -> UnisonPacketHeader
    recommends
        b.len() == HEADER_SIZE,
{
    UnisonPacketHeader {
        version: b[0],
        packet_type: b[1],
        flags: spec_u16_from_le_bytes(b.subrange(2, 4)),
        payload_length: spec_u32_from_le_bytes(b.subrange(4, 8)),
        compressed_length: spec_u32_from_le_bytes(b.subrange(8, 12)),
        checksum: spec_u32_from_le_bytes(b.subrange(12, 16)),
        sequence_number: spec_u64_from_le_bytes(b.subrange(16, 24)),
        timestamp: spec_u64_from_le_bytes(b.subrange(24, 32)),
        stream_id: spec_u64_from_le_bytes(b.subrange(32, 40)),
        message_id: spec_u64_from_le_bytes(b.subrange(40, 48)),
        response_to: spec_u64_from_le_bytes(b.subrange(48, 56)),
    }
}

/// The encoded header is always exactly `HEADER_SIZE` bytes.
pub proof fn lemma_header_bytes_len(h: UnisonPacketHeader)
    ensures
        spec_header_bytes(h).len() == HEADER_SIZE,
{
    lemma_auto_spec_u16_to_from_le_bytes();
    lemma_auto_spec_u32_to_from_le_bytes();
    lemma_auto_spec_u64_to_from_le_bytes();
}

/// Reading back an encoded header yields the header, field by field.
pub proof fn lemma_header_round_trip(h: UnisonPacketHeader)
    ensures
        spec_parse_header(spec_header_bytes(h)) == h,
{
    lemma_auto_spec_u16_to_from_le_bytes();
    lemma_auto_spec_u32_to_from_le_bytes();
    lemma_auto_spec_u64_to_from_le_bytes();
    let b = spec_header_bytes(h);
    assert(b.subrange(2, 4) =~= spec_u16_to_le_bytes(h.flags));
    assert(b.subrange(4, 8) =~= spec_u32_to_le_bytes(h.payload_length));
    assert(b.subrange(8, 12) =~= spec_u32_to_le_bytes(h.compressed_length));
    assert(b.subrange(12, 16) =~= spec_u32_to_le_bytes(h.checksum));
    assert(b.subrange(16, 24) =~= spec_u64_to_le_bytes(h.sequence_number));
    assert(b.subrange(24, 32) =~= spec_u64_to_le_bytes(h.timestamp));
    assert(b.subrange(32, 40) =~= spec_u64_to_le_bytes(h.stream_id));
    assert(b.subrange(40, 48) =~= spec_u64_to_le_bytes(h.message_id));
    assert(b.subrange(48, 56) =~= spec_u64_to_le_bytes(h.response_to));
}

/// Re-encoding a parsed header yields the same 56 bytes: the layout has no
/// slack, so a header and its encoding determine each other.
pub proof fn lemma_header_bytes_inverse(b: Seq<u8>)
    requires
        b.len() == HEADER_SIZE,
    ensures
        spec_header_bytes(spec_parse_header(b)) == b,
{
    lemma_auto_spec_u16_to_from_le_bytes();
    lemma_auto_spec_u32_to_from_le_bytes();
    lemma_auto_spec_u64_to_from_le_bytes();
    assert(spec_header_bytes(spec_parse_header(b)) =~= b);
}

/// Writes a header as its 56 wire bytes.
pub fn encode_header(h: &UnisonPacketHeader) -> (r: Vec<u8>)
    ensures
        r@ == spec_header_bytes(*h),
        r@.len() == HEADER_SIZE,
{
    proof {
        lemma_header_bytes_len(*h);
    }
    let mut out: Vec<u8> = Vec::new();
    out.push(h.version);
    out.push(h.packet_type);
    let mut flags = u16_to_le_bytes(h.flags);
    out.append(&mut flags);
    let mut payload_length = u32_to_le_bytes(h.payload_length);
    out.append(&mut payload_length);
    let mut compressed_length = u32_to_le_bytes(h.compressed_length);
    out.append(&mut compressed_length);
    let mut checksum = u32_to_le_bytes(h.checksum);
    out.append(&mut checksum);
    let mut sequence_number = u64_to_le_bytes(h.sequence_number);
    out.append(&mut sequence_number);
    let mut timestamp = u64_to_le_bytes(h.timestamp);
    out.append(&mut timestamp);
    let mut stream_id = u64_to_le_bytes(h.stream_id);
    out.append(&mut stream_id);
    let mut message_id = u64_to_le_bytes(h.message_id);
    out.append(&mut message_id);
    let mut response_to = u64_to_le_bytes(h.response_to);
    out.append(&mut response_to);
    assert(out@ =~= spec_header_bytes(*h));
    out
}

/// Reads the header stored in the first 56 bytes of `b`.
pub fn decode_header_bytes(b: &[u8]) -> (r: UnisonPacketHeader)
    requires
        b@.len() >= HEADER_SIZE,
    ensures
        r == spec_parse_header(b@.subrange(0, HEADER_SIZE as int)),
{
    let prefix = slice_subrange(b, 0, HEADER_SIZE);
    let version = *vstd::slice::slice_index_get(prefix, 0);
    let packet_type = *vstd::slice::slice_index_get(prefix, 1);
    let flags = u16_from_le_bytes(slice_subrange(prefix, 2, 4));
    let payload_length = u32_from_le_bytes(slice_subrange(prefix, 4, 8));
    let compressed_length = u32_from_le_bytes(slice_subrange(prefix, 8, 12));
    let checksum = u32_from_le_bytes(slice_subrange(prefix, 12, 16));
    let sequence_number = u64_from_le_bytes(slice_subrange(prefix, 16, 24));
    let timestamp = u64_from_le_bytes(slice_subrange(prefix, 24, 32));
    let stream_id = u64_from_le_bytes(slice_subrange(prefix, 32, 40));
    let message_id = u64_from_le_bytes(slice_subrange(prefix, 40, 48));
    let response_to = u64_from_le_bytes(slice_subrange(prefix, 48, 56));
    UnisonPacketHeader {
        version,
        packet_type,
        flags,
        payload_length,
        compressed_length,
        checksum,
        sequence_number,
        timestamp,
        stream_id,
        message_id,
        response_to,
    }
}

} // verus!
