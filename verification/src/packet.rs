//! Packets as owned byte buffers, a builder to make them, and a borrowed
//! view to read them without copying.
use vstd::prelude::*;

use core::marker::PhantomData;

use crate::config::{ChecksumConfig, PacketConfig};
use crate::flags::PacketFlags;
use crate::header::{CURRENT_VERSION, PacketType, UnisonPacketHeader};
use crate::payload::Payloadable;
use crate::serialization::{
    PacketDeserializer, PacketSerializer, SerializationError, spec_encoded, spec_payload_matches,
};
use crate::wire::{HEADER_SIZE, spec_header_bytes, spec_parse_header};

verus! {

/// True when `bytes` is an encoding of a payload viewed as `v`: the buffer
/// starts with a header `h` built by the encoder from `h0` under `config`,
/// and the payload bytes behind it spell `v`.
pub open spec fn spec_built_packet<T: Payloadable>(
    h0: UnisonPacketHeader,
    v: T::V,
    config: PacketConfig,
    bytes: Seq<u8>,
) -> bool {
    exists|h: UnisonPacketHeader, p: Seq<u8>|
        #![auto]
        T::spec_encodes(p, v) && crate::serialization::spec_payload_fits(p.len(), config)
            && spec_encoded(h0, h, p, bytes.skip(HEADER_SIZE as int), config) && bytes
            == spec_header_bytes(h) + bytes.skip(HEADER_SIZE as int)
}

/// True when the buffer `bytes` carries a payload viewed as `v`: the payload
/// bytes recovered under the stored header spell `v`.
pub open spec fn spec_packet_carries<T: Payloadable>(bytes: Seq<u8>, v: T::V) -> bool {
    bytes.len() >= HEADER_SIZE && exists|p: Seq<u8>|
        #![auto]
        spec_payload_matches(
            spec_parse_header(bytes.subrange(0, HEADER_SIZE as int)),
            bytes.skip(HEADER_SIZE as int),
            p,
        ) && T::spec_encodes(p, v)
}

/// A built packet carries the payload it was built from.
pub proof fn lemma_built_packet_implies_carries<T: Payloadable>(
    h0: UnisonPacketHeader,
    v: T::V,
    config: PacketConfig,
    bytes: Seq<u8>,
)
    requires
        spec_built_packet::<T>(h0, v, config, bytes),
    ensures
        spec_packet_carries::<T>(bytes, v),
{
    let (h, p) = choose|h: UnisonPacketHeader, p: Seq<u8>|
        #![auto]
        T::spec_encodes(p, v) && spec_encoded(h0, h, p, bytes.skip(HEADER_SIZE as int), config)
            && bytes == spec_header_bytes(h) + bytes.skip(HEADER_SIZE as int);
    crate::wire::lemma_header_bytes_len(h);
    assert(bytes.subrange(0, HEADER_SIZE as int) =~= spec_header_bytes(h));
    crate::wire::lemma_header_round_trip(h);
    assert(spec_payload_matches(
        spec_parse_header(bytes.subrange(0, HEADER_SIZE as int)),
        bytes.skip(HEADER_SIZE as int),
        p,
    ));
}

/// The header stored in a built packet keeps every field the encoder does
/// not own: version, kind, sequence, timestamps, stream id and the
/// correlation pair are the caller's.
pub proof fn lemma_built_packet_header<T: Payloadable>(
    h0: UnisonPacketHeader,
    v: T::V,
    config: PacketConfig,
    bytes: Seq<u8>,
)
    requires
        spec_built_packet::<T>(h0, v, config, bytes),
    ensures
        bytes.len() >= HEADER_SIZE,
        ({
            let stored = spec_parse_header(bytes.subrange(0, HEADER_SIZE as int));
            &&& stored.version == h0.version
            &&& stored.packet_type == h0.packet_type
            &&& stored.sequence_number == h0.sequence_number
            &&& stored.timestamp == h0.timestamp
            &&& stored.stream_id == h0.stream_id
            &&& stored.message_id == h0.message_id
            &&& stored.response_to == h0.response_to
        }),
{
    let (h, p) = choose|h: UnisonPacketHeader, p: Seq<u8>|
        #![auto]
        T::spec_encodes(p, v) && spec_encoded(h0, h, p, bytes.skip(HEADER_SIZE as int), config)
            && bytes == spec_header_bytes(h) + bytes.skip(HEADER_SIZE as int);
    crate::wire::lemma_header_bytes_len(h);
    assert(bytes.subrange(0, HEADER_SIZE as int) =~= spec_header_bytes(h));
    crate::wire::lemma_header_round_trip(h);
}

/// A buffer carries at most one payload value.
pub proof fn lemma_packet_carries_functional<T: Payloadable>(bytes: Seq<u8>, v1: T::V, v2: T::V)
    requires
        spec_packet_carries::<T>(bytes, v1),
        spec_packet_carries::<T>(bytes, v2),
    ensures
        v1 == v2,
{
    let h = spec_parse_header(bytes.subrange(0, HEADER_SIZE as int));
    let wire = bytes.skip(HEADER_SIZE as int);
    let p1 = choose|p: Seq<u8>| #![auto] spec_payload_matches(h, wire, p) && T::spec_encodes(
        p,
        v1,
    );
    let p2 = choose|p: Seq<u8>| #![auto] spec_payload_matches(h, wire, p) && T::spec_encodes(
        p,
        v2,
    );
    assert(p1 == p2);
    T::lemma_encodes_functional(p1, v1, v2);
}

/// Every encoding of `v` is the one in hand: the encoding relation is
/// functional in the value.
proof fn lemma_unique_encoding_facts<T: Payloadable>(v: T::V, b: Seq<u8>)
    requires
        T::spec_encodes(b, v),
    ensures
        forall|b2: Seq<u8>| #[trigger] T::spec_encodes(b2, v) ==> b2 == b,
{
    assert forall|b2: Seq<u8>| #[trigger] T::spec_encodes(b2, v) implies b2 == b by {
        T::lemma_encoding_functional(v, b2, b);
    }
}

/// A packet: the encoded bytes, typed by the payload they carry.
pub struct UnisonPacket<T: Payloadable> {
    raw_data: Vec<u8>,
    _phantom: PhantomData<T>,
}

/// The frame and packet layers share one packet shape.
pub type UnisonFrame<T> = UnisonPacket<T>;

impl<T: Payloadable> View for UnisonPacket<T> {
    type V = Seq<u8>;

    closed spec fn view(&self) -> Seq<u8> {
        self.raw_data@
    }
}

impl<T: Payloadable> UnisonPacket<T> {
    /// A builder for a packet of this payload type.
    pub fn builder() -> (r: UnisonPacketBuilder)
        ensures
            r.header.version == CURRENT_VERSION,
            r.header.flags == 0,
            r.header.checksum == 0,
            !r.enable_checksum,
    {
        UnisonPacketBuilder::new()
    }

    /// Encodes a payload with a fresh data-packet header and the default
    /// configuration.
    pub fn new(payload: T) -> (r: Result<Self, SerializationError>)
        ensures
            r matches Ok(pkt) ==> exists|h0: UnisonPacketHeader|
                #![auto]
                h0.version == CURRENT_VERSION && h0.flags == 0 && h0.checksum == 0
                    && spec_built_packet::<T>(
                    h0,
                    payload@,
                    PacketConfig::spec_default().with_checksum_spec(false),
                    pkt@,
                ),
            r matches Err(SerializationError::Payload(..)) <==> !(exists|b: Seq<u8>|
                T::spec_encodes(b, payload@)),
            r matches Err(SerializationError::PacketTooLarge { .. }) <==> (exists|b: Seq<u8>|
                #[trigger] T::spec_encodes(b, payload@)
                    && !crate::serialization::spec_payload_fits(
                    b.len(),
                    PacketConfig::spec_default().with_checksum_spec(false),
                )),
            r is Err ==> (r matches Err(SerializationError::Payload(..)) || r matches Err(
                SerializationError::PacketTooLarge { .. },
            ) || r matches Err(SerializationError::CompressionFailed(..))),
            (exists|b: Seq<u8>|
                #[trigger] T::spec_encodes(b, payload@) && crate::serialization::spec_payload_fits(
                    b.len(),
                    PacketConfig::spec_default().with_checksum_spec(false),
                ) && !PacketConfig::spec_default().compression.spec_should_compress(b.len()))
                ==> r is Ok,
    {
        let builder = Self::builder();
        let ghost base = builder.header;
        let r = builder.build(payload);
        proof {
            if r is Ok {
                let pkt_bytes = r->Ok_0@;
                let h0 = choose|h0: UnisonPacketHeader|
                    #![auto]
                    h0 == (UnisonPacketHeader { timestamp: h0.timestamp, ..base })
                        && spec_built_packet::<T>(
                        h0,
                        payload@,
                        PacketConfig::spec_default().with_checksum_spec(false),
                        pkt_bytes,
                    );
                assert(h0.version == CURRENT_VERSION && h0.flags == 0 && h0.checksum == 0);
            }
        }
        r
    }

    /// Encodes a payload under the given header with the default
    /// configuration; the checksum is written when the header's checksum
    /// field was marked nonzero.
    pub fn with_header(header: UnisonPacketHeader, payload: T) -> (r: Result<
        Self,
        SerializationError,
    >)
        ensures
            ({
                let config = PacketConfig::spec_default().with_checksum_spec(header.checksum != 0);
                &&& (r matches Ok(pkt) ==> spec_built_packet::<T>(header, payload@, config, pkt@))
                &&& (r matches Err(SerializationError::Payload(..)) <==> !(exists|b: Seq<u8>|
                    T::spec_encodes(b, payload@)))
                &&& (r matches Err(SerializationError::PacketTooLarge { .. }) <==> (exists|
                    b: Seq<u8>,
                |
                    #[trigger] T::spec_encodes(b, payload@)
                        && !crate::serialization::spec_payload_fits(b.len(), config)))
                &&& (r is Err ==> (r matches Err(SerializationError::Payload(..)) || r matches Err(
                    SerializationError::PacketTooLarge { .. },
                ) || r matches Err(SerializationError::CompressionFailed(..))))
                &&& ((exists|b: Seq<u8>|
                    #[trigger] T::spec_encodes(b, payload@)
                        && crate::serialization::spec_payload_fits(b.len(), config)
                        && !config.compression.spec_should_compress(b.len())) ==> r is Ok)
            }),
    {
        let mut h = header;
        let payload_bytes = match payload.to_bytes() {
            Ok(b) => b,
            Err(e) => {
                return Err(SerializationError::Payload(e));
            },
        };
        proof {
            lemma_unique_encoding_facts::<T>(payload@, payload_bytes@);
        }
        let raw_data = PacketSerializer::serialize(&mut h, payload_bytes.as_slice())?;
        Ok(UnisonPacket { raw_data, _phantom: PhantomData })
    }

    /// Encodes a payload under the given header and configuration.
    pub fn with_header_and_config(
        header: UnisonPacketHeader,
        payload: T,
        config: &PacketConfig,
    ) -> (r: Result<Self, SerializationError>)
        ensures
            r matches Ok(pkt) ==> spec_built_packet::<T>(header, payload@, *config, pkt@),
            r matches Err(SerializationError::Payload(..)) <==> !(exists|b: Seq<u8>|
                T::spec_encodes(b, payload@)),
            r matches Err(SerializationError::PacketTooLarge { .. }) <==> (exists|b: Seq<u8>|
                #[trigger] T::spec_encodes(b, payload@)
                    && !crate::serialization::spec_payload_fits(b.len(), *config)),
            r is Err ==> (r matches Err(SerializationError::Payload(..)) || r matches Err(
                SerializationError::PacketTooLarge { .. },
            ) || r matches Err(SerializationError::CompressionFailed(..))),
            (exists|b: Seq<u8>|
                #[trigger] T::spec_encodes(b, payload@) && crate::serialization::spec_payload_fits(
                    b.len(),
                    *config,
                ) && !config.compression.spec_should_compress(b.len())) ==> r is Ok,
    {
        let mut h = header;
        let payload_bytes = match payload.to_bytes() {
            Ok(b) => b,
            Err(e) => {
                return Err(SerializationError::Payload(e));
            },
        };
        proof {
            lemma_unique_encoding_facts::<T>(payload@, payload_bytes@);
        }
        let raw_data = PacketSerializer::serialize_with_config(
            &mut h,
            payload_bytes.as_slice(),
            config,
        )?;
        Ok(UnisonPacket { raw_data, _phantom: PhantomData })
    }

    /// Wraps received bytes after validating the header: the buffer must be
    /// at least a header long, speak the current version, and fit the
    /// default maximum size.
    pub fn from_bytes(bytes: &[u8]) -> (r: Result<Self, SerializationError>)
        ensures
            bytes@.len() < HEADER_SIZE <==> r matches Err(SerializationError::InvalidHeader),
            r matches Ok(pkt) ==> pkt@ == bytes@ && spec_parse_header(
                bytes@.subrange(0, HEADER_SIZE as int),
            ).version == CURRENT_VERSION,
            r matches Err(SerializationError::IncompatibleVersion { version }) ==> bytes@.len()
                >= HEADER_SIZE && spec_parse_header(bytes@.subrange(0, HEADER_SIZE as int)).version
                == version && version != CURRENT_VERSION,
            bytes@.len() >= HEADER_SIZE && spec_parse_header(
                bytes@.subrange(0, HEADER_SIZE as int),
            ).version == CURRENT_VERSION && bytes@.len()
                <= crate::config::DEFAULT_MAX_PAYLOAD_SIZE ==> r is Ok,
            r matches Err(SerializationError::PacketTooLarge { size, max_size }) ==> size
                == bytes@.len() && max_size == crate::config::DEFAULT_MAX_PAYLOAD_SIZE && size
                > max_size,
    {
        let (header, _rest) = PacketDeserializer::deserialize_header(bytes)?;
        let default_config = PacketConfig::new();
        if bytes.len() > default_config.max_payload_size {
            return Err(SerializationError::PacketTooLarge {
                size: bytes.len(),
                max_size: default_config.max_payload_size,
            });
        }
        Ok(UnisonPacket { raw_data: vstd::slice::slice_to_vec(bytes), _phantom: PhantomData })
    }

    /// The encoded bytes, copied.
    pub fn to_bytes(&self) -> (r: Vec<u8>)
        ensures
            r@ == self@,
    {
        self.raw_data.clone()
    }

    /// The encoded bytes, borrowed.
    pub fn as_bytes(&self) -> (r: &[u8])
        ensures
            r@ == self@,
    {
        self.raw_data.as_slice()
    }

    /// The whole packet size in bytes, header included.
    pub fn size(&self) -> (r: usize)
        ensures
            r == self@.len(),
    {
        self.raw_data.len()
    }

    /// The stored header, re-read and re-validated from the bytes.
    pub fn header(&self) -> (r: Result<UnisonPacketHeader, SerializationError>)
        ensures
            self@.len() < HEADER_SIZE <==> r matches Err(SerializationError::InvalidHeader),
            self@.len() >= HEADER_SIZE ==> {
                let h = spec_parse_header(self@.subrange(0, HEADER_SIZE as int));
                if h.version != CURRENT_VERSION {
                    r matches Err(SerializationError::IncompatibleVersion { version }) && version
                        == h.version
                } else {
                    r matches Ok(stored) && stored == h
                }
            },
    {
        let (header, _rest) = PacketDeserializer::deserialize_header(self.raw_data.as_slice())?;
        Ok(header)
    }

    /// True when the buffer decodes cleanly under the default configuration:
    /// a whole current-version header, length fields within the default
    /// maximum, the announced number of wire bytes, a matching checksum where
    /// one is stored, a well-formed zstd frame where one is announced, and a
    /// payload value carried.
    pub open spec fn spec_decodes(bytes: Seq<u8>) -> bool {
        let h = spec_parse_header(bytes.subrange(0, HEADER_SIZE as int));
        let wire = bytes.skip(HEADER_SIZE as int);
        &&& bytes.len() >= HEADER_SIZE
        &&& h.version == CURRENT_VERSION
        &&& h.payload_length <= crate::config::DEFAULT_MAX_PAYLOAD_SIZE
        &&& h.compressed_length <= crate::config::DEFAULT_MAX_PAYLOAD_SIZE
        &&& wire.len() == h.spec_actual_payload_size()
        &&& (h.checksum != 0 ==> crate::checksum::crc32_of(wire) == h.checksum)
        &&& (h.spec_is_compressed() ==> crate::compress::zstd_decoding(wire) is Some)
        &&& (exists|v: T::V| spec_packet_carries::<T>(bytes, v))
    }

    /// Decodes the carried payload value: success pins the value down, and
    /// it succeeds exactly when the buffer decodes cleanly.
    pub fn payload(&self) -> (r: Result<T, SerializationError>)
        ensures
            r matches Ok(v) ==> spec_packet_carries::<T>(self@, v@),
            r is Ok <==> Self::spec_decodes(self@),
    {
        let ghost h = spec_parse_header(self@.subrange(0, HEADER_SIZE as int));
        let ghost wire = self@.skip(HEADER_SIZE as int);
        let (header, rest) = PacketDeserializer::deserialize_header(self.raw_data.as_slice())?;
        let payload_bytes = PacketDeserializer::deserialize_payload(&header, rest)?;
        match T::from_bytes(payload_bytes.as_slice()) {
            Ok(v) => {
                proof {
                    assert(spec_payload_matches(h, wire, payload_bytes@));
                    assert(T::spec_encodes(payload_bytes@, v@));
                    assert(spec_packet_carries::<T>(self@, v@));
                    assert(Self::spec_decodes(self@));
                }
                Ok(v)
            },
            Err(e) => {
                proof {
                    if Self::spec_decodes(self@) {
                        let vc = choose|v: T::V| spec_packet_carries::<T>(self@, v);
                        let pc = choose|p: Seq<u8>|
                            #![auto]
                            spec_payload_matches(h, wire, p) && T::spec_encodes(p, vc);
                        assert(spec_payload_matches(h, wire, payload_bytes@));
                        assert(pc == payload_bytes@);
                        assert(T::spec_encodes(payload_bytes@, vc));
                    }
                }
                Err(SerializationError::Payload(e))
            },
        }
    }

    /// A view of the raw payload bytes, decompressed into `buffer` when the
    /// packet is compressed and borrowed from the packet otherwise; the
    /// buffer is untouched unless decompression fills it.
    pub fn payload_zero_copy<'a>(&'a self, buffer: &'a mut Vec<u8>) -> (r: Result<
        &'a [u8],
        SerializationError,
    >)
        ensures
            ({
                let h = spec_parse_header(self@.subrange(0, HEADER_SIZE as int));
                let wire = self@.skip(HEADER_SIZE as int);
                &&& (r matches Ok(p) ==> self@.len() >= HEADER_SIZE && spec_payload_matches(
                    h,
                    wire,
                    p@,
                ) && (!h.spec_is_compressed() ==> p@ == wire))
                &&& (self@.len() >= HEADER_SIZE && h.version == CURRENT_VERSION ==> (r is Ok <==> (
                h.checksum != 0 ==> crate::checksum::crc32_of(wire) == h.checksum) && (
                h.spec_is_compressed() ==> crate::compress::zstd_decoding(wire) is Some)))
                &&& (self@.len() < HEADER_SIZE <==> r matches Err(
                    SerializationError::InvalidHeader,
                ))
                &&& (self@.len() >= HEADER_SIZE && !h.spec_is_compressed() ==> final(buffer)@
                    == old(buffer)@)
                &&& (r is Err ==> final(buffer)@ == old(buffer)@)
            }),
    {
        let r = PacketDeserializer::deserialize_header(self.raw_data.as_slice());
        let (header, rest) = match r {
            Ok(pair) => pair,
            Err(e) => {
                return Err(e);
            },
        };
        PacketDeserializer::deserialize_payload_zero_copy(&header, rest, buffer)
    }
}

/// Configures header fields and builds a packet.
pub struct UnisonPacketBuilder {
    /// The header being configured.
    pub header: UnisonPacketHeader,
    /// Whether `build` writes a checksum.
    pub enable_checksum: bool,
}

/// The frame and packet layers share one builder shape.
pub type UnisonFrameBuilder = UnisonPacketBuilder;

impl UnisonPacketBuilder {
    /// A builder holding a fresh data-packet header.
    pub fn new() -> (r: Self)
        ensures
            r.header.version == CURRENT_VERSION,
            r.header.packet_type == crate::header::spec_type_to_byte(PacketType::Data),
            r.header.flags == 0,
            r.header.payload_length == 0,
            r.header.compressed_length == 0,
            r.header.checksum == 0,
            r.header.sequence_number == 0,
            r.header.stream_id == 0,
            r.header.message_id == 0,
            r.header.response_to == 0,
            !r.enable_checksum,
    {
        UnisonPacketBuilder {
            header: UnisonPacketHeader::new(PacketType::Data),
            enable_checksum: false,
        }
    }

    /// Replaces the packet kind tag.
    pub fn packet_type(self, packet_type: PacketType) -> (r: Self)
        ensures
            r.header == (UnisonPacketHeader {
                packet_type: crate::header::spec_type_to_byte(packet_type),
                ..self.header
            }),
            r.enable_checksum == self.enable_checksum,
    {
        let mut header = self.header;
        header.set_packet_type(packet_type);
        UnisonPacketBuilder { header, ..self }
    }

    /// Replaces the sequence number.
    pub fn with_sequence(self, seq: u64) -> (r: Self)
        ensures
            r.header == (UnisonPacketHeader { sequence_number: seq, ..self.header }),
            r.enable_checksum == self.enable_checksum,
    {
        UnisonPacketBuilder { header: self.header.with_sequence(seq), ..self }
    }

    /// Replaces the stream id.
    pub fn with_stream_id(self, id: u64) -> (r: Self)
        ensures
            r.header == (UnisonPacketHeader { stream_id: id, ..self.header }),
            r.enable_checksum == self.enable_checksum,
    {
        UnisonPacketBuilder { header: self.header.with_stream_id(id), ..self }
    }

    /// Replaces the message id.
    pub fn with_message_id(self, id: u64) -> (r: Self)
        ensures
            r.header == (UnisonPacketHeader { message_id: id, ..self.header }),
            r.enable_checksum == self.enable_checksum,
    {
        UnisonPacketBuilder { header: self.header.with_message_id(id), ..self }
    }

    /// Replaces the correlation id.
    pub fn with_response_to(self, id: u64) -> (r: Self)
        ensures
            r.header == (UnisonPacketHeader { response_to: id, ..self.header }),
            r.enable_checksum == self.enable_checksum,
    {
        UnisonPacketBuilder { header: self.header.with_response_to(id), ..self }
    }

    /// Asks `build` to write a checksum; the header's checksum field is
    /// marked nonzero at once.
    pub fn with_checksum(self) -> (r: Self)
        ensures
            r.header == (UnisonPacketHeader { checksum: 1u32, ..self.header }),
            r.enable_checksum,
    {
        UnisonPacketBuilder { header: self.header.with_checksum(1), enable_checksum: true, ..self }
    }

    /// Sets the PRIORITY_HIGH flag.
    pub fn with_high_priority(self) -> (r: Self)
        ensures
            r.header == (UnisonPacketHeader {
                flags: (self.header.flags | PacketFlags::PRIORITY_HIGH) as u16,
                ..self.header
            }),
            r.enable_checksum == self.enable_checksum,
    {
        let mut header = self.header;
        let mut flags = header.flags();
        flags.set(PacketFlags::PRIORITY_HIGH);
        header.set_flags(flags);
        UnisonPacketBuilder { header, ..self }
    }

    /// Sets the REQUIRES_ACK flag.
    pub fn requires_ack(self) -> (r: Self)
        ensures
            r.header == (UnisonPacketHeader {
                flags: (self.header.flags | PacketFlags::REQUIRES_ACK) as u16,
                ..self.header
            }),
            r.enable_checksum == self.enable_checksum,
    {
        let mut header = self.header;
        let mut flags = header.flags();
        flags.set(PacketFlags::REQUIRES_ACK);
        header.set_flags(flags);
        UnisonPacketBuilder { header, ..self }
    }

    /// Replaces all flag bits.
    pub fn with_flags(self, flags: PacketFlags) -> (r: Self)
        ensures
            r.header == (UnisonPacketHeader { flags: flags.0, ..self.header }),
            r.enable_checksum == self.enable_checksum,
    {
        let mut header = self.header;
        header.set_flags(flags);
        UnisonPacketBuilder { header, ..self }
    }

    /// Stamps the creation time and encodes the payload under the
    /// configured header. A checksum is written when `with_checksum` was
    /// called.
    pub fn build<T: Payloadable>(self, payload: T) -> (r: Result<
        UnisonPacket<T>,
        SerializationError,
    >)
        ensures
            r matches Ok(pkt) ==> exists|h0: UnisonPacketHeader|
                #![auto]
                h0 == (UnisonPacketHeader { timestamp: h0.timestamp, ..self.header })
                    && spec_built_packet::<T>(
                    h0,
                    payload@,
                    PacketConfig::spec_default().with_checksum_spec(self.enable_checksum),
                    pkt@,
                ),
            r matches Err(SerializationError::Payload(..)) <==> !(exists|b: Seq<u8>|
                T::spec_encodes(b, payload@)),
            r matches Err(SerializationError::PacketTooLarge { .. }) <==> (exists|b: Seq<u8>|
                #[trigger] T::spec_encodes(b, payload@)
                    && !crate::serialization::spec_payload_fits(
                    b.len(),
                    PacketConfig::spec_default().with_checksum_spec(self.enable_checksum),
                )),
            r is Err ==> (r matches Err(SerializationError::Payload(..)) || r matches Err(
                SerializationError::PacketTooLarge { .. },
            ) || r matches Err(SerializationError::CompressionFailed(..))),
            (exists|b: Seq<u8>|
                #[trigger] T::spec_encodes(b, payload@) && crate::serialization::spec_payload_fits(
                    b.len(),
                    PacketConfig::spec_default().with_checksum_spec(self.enable_checksum),
                ) && !PacketConfig::spec_default().compression.spec_should_compress(b.len()))
                ==> r is Ok,
    {
        let mut header = self.header;
        header.update_timestamp();
        let config = if self.enable_checksum {
            PacketConfig::new().with_checksum(ChecksumConfig::enabled())
        } else {
            PacketConfig::new()
        };
        assert(config == PacketConfig::spec_default().with_checksum_spec(self.enable_checksum));
        let r = UnisonPacket::with_header_and_config(header, payload, &config);
        proof {
            assert(header == (UnisonPacketHeader { timestamp: header.timestamp, ..self.header }));
            if r is Ok {
                assert(spec_built_packet::<T>(
                    header,
                    payload@,
                    PacketConfig::spec_default().with_checksum_spec(self.enable_checksum),
                    r->Ok_0@,
                ));
            }
        }
        r
    }
}

/// A borrowed, header-validated view of an encoded packet.
pub struct UnisonPacketView<'a> {
    header: UnisonPacketHeader,
    payload_bytes: &'a [u8],
}

/// The frame and packet layers share one view shape.
pub type UnisonFrameView<'a> = UnisonPacketView<'a>;

impl<'a> UnisonPacketView<'a> {
    /// The validated header, as a spec value.
    pub closed spec fn spec_header(self) -> UnisonPacketHeader {
        self.header
    }

    /// The borrowed payload bytes, as a spec value.
    pub closed spec fn spec_payload_bytes(self) -> Seq<u8> {
        self.payload_bytes@
    }

    /// Splits a buffer into a validated header and a borrowed payload view.
    pub fn from_bytes(bytes: &'a [u8]) -> (r: Result<Self, SerializationError>)
        ensures
            bytes@.len() < HEADER_SIZE <==> r matches Err(SerializationError::InvalidHeader),
            r matches Ok(v) ==> bytes@.len() >= HEADER_SIZE && v.spec_header()
                == spec_parse_header(bytes@.subrange(0, HEADER_SIZE as int))
                && v.spec_payload_bytes() == bytes@.skip(HEADER_SIZE as int),
    {
        let (header, payload_bytes) = PacketDeserializer::deserialize_header(bytes)?;
        Ok(UnisonPacketView { header, payload_bytes })
    }

    /// The validated header.
    pub fn header(&self) -> (r: &UnisonPacketHeader)
        ensures
            *r == self.spec_header(),
    {
        &self.header
    }

    /// True when the payload on the wire is compressed.
    pub fn is_compressed(&self) -> (r: bool)
        ensures
            r == self.spec_header().spec_is_compressed(),
    {
        self.header.is_compressed()
    }

    /// The number of payload bytes on the wire.
    pub fn payload_size(&self) -> (r: usize)
        ensures
            r == self.spec_payload_bytes().len(),
    {
        self.payload_bytes.len()
    }

    /// The payload length before compression, from the header.
    pub fn original_payload_size(&self) -> (r: u32)
        ensures
            r == self.spec_header().payload_length,
    {
        self.header.payload_length
    }
}

} // verus!
