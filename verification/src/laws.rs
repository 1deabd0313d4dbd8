//! The codec's laws, written out and proved.
//!
//! The round-trip laws are exec functions whose contracts state the law and
//! whose bodies are the composition itself: Verus accepts them only because
//! the codec's contracts force the stated outcome for every input. The
//! remaining laws are proof functions over the codec's spec predicates.
use vstd::prelude::*;

use crate::checksum::crc32_of;
use crate::config::PacketConfig;
use crate::flags::{PacketFlags, spec_flag_set};
use crate::header::{CURRENT_VERSION, UnisonPacketHeader};
use crate::packet::{UnisonPacket, spec_built_packet, spec_packet_carries};
use crate::payload::Payloadable;
use crate::serialization::{
    PacketDeserializer, PacketSerializer, SerializationError, spec_decode_outcome, spec_encoded,
    spec_payload_fits, spec_payload_matches,
};
use crate::wire::{HEADER_SIZE, lemma_header_bytes_len, lemma_header_round_trip, spec_header_bytes};

verus! {

/// Law: decoding an encoded packet yields the original payload bytewise, for
/// every payload — the empty one included — and every configuration whose
/// demanded checksums are also written. The body is encode followed by
/// decode; the contract holds for every input only by the codec's contracts.
pub fn payload_round_trip(
    header: UnisonPacketHeader,
    payload: &[u8],
    config: &PacketConfig,
) -> (r: Result<Vec<u8>, SerializationError>)
    requires
        header.version == CURRENT_VERSION,
        config.checksum.required ==> config.checksum.enabled,
    ensures
        r matches Ok(p) ==> p@ == payload@,
        !spec_payload_fits(payload@.len(), *config) <==> r matches Err(
            SerializationError::PacketTooLarge { .. },
        ),
        r is Err ==> (r matches Err(SerializationError::PacketTooLarge { .. }) || r matches Err(
            SerializationError::CompressionFailed(..),
        ) || r matches Err(SerializationError::ChecksumMismatch { .. })),
        spec_payload_fits(payload@.len(), *config) && !config.compression.spec_should_compress(
            payload@.len(),
        ) && !config.checksum.required ==> r is Ok,
{
    let mut h = header;
    let bytes = PacketSerializer::serialize_with_config(&mut h, payload, config)?;
    proof {
        lemma_header_bytes_len(h);
        assert(bytes@.subrange(0, HEADER_SIZE as int) =~= spec_header_bytes(h));
        lemma_header_round_trip(h);
    }
    let (stored, wire) = match PacketDeserializer::deserialize_header(bytes.as_slice()) {
        Ok(pair) => pair,
        Err(e) => {
            return Err(e);
        },
    };
    match PacketDeserializer::deserialize_payload_with_config(&stored, wire, config) {
        Ok(p) => Ok(p),
        Err(e) => Err(e),
    }
}

/// Law: a packet built from a typed payload decodes back to a payload with
/// the very same view, and decoding a freshly built packet cannot fail: an
/// error can only come from the encode side.
pub fn packet_round_trip<T: Payloadable>(payload: T) -> (r: Result<T, SerializationError>)
    ensures
        r matches Ok(v) ==> v@ == payload@,
        r is Err ==> (r matches Err(SerializationError::Payload(..)) || r matches Err(
            SerializationError::PacketTooLarge { .. },
        ) || r matches Err(SerializationError::CompressionFailed(..))),
{
    let ghost pv = payload@;
    let ghost config = PacketConfig::spec_default().with_checksum_spec(false);
    let pkt = UnisonPacket::<T>::new(payload)?;
    proof {
        let h0 = choose|h0: UnisonPacketHeader|
            #![auto]
            h0.version == CURRENT_VERSION && h0.flags == 0 && h0.checksum == 0
                && spec_built_packet::<T>(h0, pv, config, pkt@);
        lemma_built_packet_decodes::<T>(h0, pv, config, pkt@);
    }
    let r = pkt.payload();
    proof {
        if r is Ok {
            let h0 = choose|h0: UnisonPacketHeader|
                #![auto]
                h0.version == CURRENT_VERSION && h0.flags == 0 && h0.checksum == 0
                    && spec_built_packet::<T>(h0, pv, config, pkt@);
            lemma_built_packet_carries_unique::<T>(h0, pv, config, pkt@, r->Ok_0@);
        }
    }
    r
}

/// A packet built under a configuration that writes no checksum and stays
/// within the default maximum decodes cleanly.
pub proof fn lemma_built_packet_decodes<T: Payloadable>(
    h0: UnisonPacketHeader,
    pv: T::V,
    config: PacketConfig,
    bytes: Seq<u8>,
)
    requires
        spec_built_packet::<T>(h0, pv, config, bytes),
        h0.version == CURRENT_VERSION,
        !config.checksum.enabled,
        config.max_payload_size <= crate::config::DEFAULT_MAX_PAYLOAD_SIZE,
    ensures
        UnisonPacket::<T>::spec_decodes(bytes),
{
    let (h, p) = choose|h: UnisonPacketHeader, p: Seq<u8>|
        #![auto]
        T::spec_encodes(p, pv) && crate::serialization::spec_payload_fits(p.len(), config)
            && spec_encoded(h0, h, p, bytes.skip(HEADER_SIZE as int), config) && bytes
            == spec_header_bytes(h) + bytes.skip(HEADER_SIZE as int);
    lemma_header_bytes_len(h);
    assert(bytes.subrange(0, HEADER_SIZE as int) =~= spec_header_bytes(h));
    lemma_header_round_trip(h);
    crate::packet::lemma_built_packet_implies_carries::<T>(h0, pv, config, bytes);
}

/// A buffer built from one payload view carries no other payload view: the
/// encoding pins the decoded value down.
pub proof fn lemma_built_packet_carries_unique<T: Payloadable>(
    h0: UnisonPacketHeader,
    pv: T::V,
    config: PacketConfig,
    bytes: Seq<u8>,
    v: T::V,
)
    requires
        spec_built_packet::<T>(h0, pv, config, bytes),
        spec_packet_carries::<T>(bytes, v),
    ensures
        v == pv,
{
    let (h, p) = choose|h: UnisonPacketHeader, p: Seq<u8>|
        #![auto]
        T::spec_encodes(p, pv) && spec_encoded(h0, h, p, bytes.skip(HEADER_SIZE as int), config)
            && bytes == spec_header_bytes(h) + bytes.skip(HEADER_SIZE as int);
    lemma_header_bytes_len(h);
    assert(bytes.subrange(0, HEADER_SIZE as int) =~= spec_header_bytes(h));
    lemma_header_round_trip(h);
    let p2 = choose|p2: Seq<u8>|
        #![auto]
        spec_payload_matches(
            crate::wire::spec_parse_header(bytes.subrange(0, HEADER_SIZE as int)),
            bytes.skip(HEADER_SIZE as int),
            p2,
        ) && T::spec_encodes(p2, v);
    assert(p == p2);
    T::lemma_encodes_functional(p, pv, v);
}

/// Law: a payload under the compression threshold is never compressed: the
/// COMPRESSED flag is clear, the compressed length is zero, and the wire
/// bytes are the payload itself.
pub proof fn lemma_below_threshold_never_compressed(
    h0: UnisonPacketHeader,
    h: UnisonPacketHeader,
    payload: Seq<u8>,
    wire: Seq<u8>,
    config: PacketConfig,
)
    requires
        spec_encoded(h0, h, payload, wire, config),
        payload.len() < config.compression.threshold,
    ensures
        h.compressed_length == 0,
        !spec_flag_set(h.flags, PacketFlags::COMPRESSED),
        wire == payload,
{
}

/// Law: whenever the encoder marks a packet compressed, compression was
/// asked for, the on-wire payload is zstd's frame — strictly shorter than
/// the original — and the original is recovered by decompressing it.
pub proof fn lemma_compressed_packet_shrinks(
    h0: UnisonPacketHeader,
    h: UnisonPacketHeader,
    payload: Seq<u8>,
    wire: Seq<u8>,
    config: PacketConfig,
)
    requires
        spec_encoded(h0, h, payload, wire, config),
        spec_flag_set(h.flags, PacketFlags::COMPRESSED),
    ensures
        config.compression.spec_should_compress(payload.len()),
        0 < h.compressed_length < h.payload_length,
        wire.len() == h.compressed_length,
        wire == crate::compress::zstd_encoding(payload, config.compression.level),
        crate::compress::zstd_decoding(wire) == Some(payload),
{
}

/// Law: compression is taken exactly when it is asked for and profitable:
/// the COMPRESSED flag is set iff the payload meets the threshold and zstd's
/// frame is strictly smaller. In particular, a payload at the threshold is
/// compressed iff zstd shrinks it, and one below the threshold never is.
pub proof fn lemma_compression_taken_when_profitable(
    h0: UnisonPacketHeader,
    h: UnisonPacketHeader,
    payload: Seq<u8>,
    wire: Seq<u8>,
    config: PacketConfig,
)
    requires
        spec_encoded(h0, h, payload, wire, config),
    ensures
        spec_flag_set(h.flags, PacketFlags::COMPRESSED) <==> (
        config.compression.spec_should_compress(payload.len())
            && crate::compress::zstd_encoding(payload, config.compression.level).len()
            < payload.len()),
{
}

/// Law: whenever the encoder leaves a packet uncompressed, the compressed
/// length is zero and the wire bytes are the payload itself.
pub proof fn lemma_uncompressed_packet_verbatim(
    h0: UnisonPacketHeader,
    h: UnisonPacketHeader,
    payload: Seq<u8>,
    wire: Seq<u8>,
    config: PacketConfig,
)
    requires
        spec_encoded(h0, h, payload, wire, config),
        !spec_flag_set(h.flags, PacketFlags::COMPRESSED),
    ensures
        h.compressed_length == 0,
        wire == payload,
{
}

/// Law: under a header that carries a checksum, any wire bytes whose CRC32
/// differs from the stored one — in particular any corruption that changes
/// the CRC32 — make decoding fail with ChecksumMismatch and nothing else.
pub proof fn lemma_checksum_detects_corruption(
    h: UnisonPacketHeader,
    wire: Seq<u8>,
    r: Result<Vec<u8>, SerializationError>,
    config: PacketConfig,
)
    requires
        spec_decode_outcome(h, wire, r, config),
        h.payload_length <= config.max_payload_size,
        h.compressed_length <= config.max_payload_size,
        wire.len() == h.spec_actual_payload_size(),
        h.checksum != 0,
        crc32_of(wire) != h.checksum,
    ensures
        r matches Err(SerializationError::ChecksumMismatch { expected, actual }) && expected
            == h.checksum && actual == crc32_of(wire),
{
}

/// Law: decoding is deterministic — at most one payload can be recovered
/// from given wire bytes under a given header.
pub proof fn lemma_decode_deterministic(
    h: UnisonPacketHeader,
    wire: Seq<u8>,
    p1: Seq<u8>,
    p2: Seq<u8>,
)
    requires
        spec_payload_matches(h, wire, p1),
        spec_payload_matches(h, wire, p2),
    ensures
        p1 == p2,
{
}

} // verus!
