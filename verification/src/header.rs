//! The fixed packet header and the packet kind tag.
//!
//! One header layout serves the whole protocol: it carries both the CRC32
//! checksum and the request/response correlation pair. On the wire it is a
//! fixed 56 bytes, all multi-byte fields little-endian (see `wire`).
use vstd::prelude::*;

use crate::flags::PacketFlags;

verus! {

/// The kind tag of a packet.
#[derive(Debug, Clone, Copy, PartialEq, Eq, Structural)]
pub enum PacketType {
    /// An ordinary data packet.
    Data,
    /// A control message.
    Control,
    /// A keepalive.
    Heartbeat,
    /// A handshake.
    Handshake,
    /// An application-defined kind.
    Custom(u8),
}

/// The frame and packet layers share one kind tag.
pub type FrameType = PacketType;

/// The byte that stands for a packet kind on the wire.
pub open spec fn spec_type_to_byte(t: PacketType) -> u8 {
    match t {
        PacketType::Data => 0x00,
        PacketType::Control => 0x01,
        PacketType::Heartbeat => 0x02,
        PacketType::Handshake => 0x03,
        PacketType::Custom(v) => v,
    }
}

/// The packet kind a byte stands for.
pub open spec fn spec_type_from_byte(b: u8) -> PacketType {
    if b == 0x00 {
        PacketType::Data
    } else if b == 0x01 {
        PacketType::Control
    } else if b == 0x02 {
        PacketType::Heartbeat
    } else if b == 0x03 {
        PacketType::Handshake
    } else {
        PacketType::Custom(b)
    }
}

impl PacketType {
    /// The byte this kind is written as.
    pub fn to_byte(&self) -> (r: u8)
        ensures
            r == spec_type_to_byte(*self),
    {
        match self {
            PacketType::Data => 0x00,
            PacketType::Control => 0x01,
            PacketType::Heartbeat => 0x02,
            PacketType::Handshake => 0x03,
            PacketType::Custom(v) => *v,
        }
    }

    /// The kind a byte is read as.
    pub fn from_byte(b: u8) -> (r: Self)
        ensures
            r == spec_type_from_byte(b),
    {
        if b == 0x00 {
            PacketType::Data
        } else if b == 0x01 {
            PacketType::Control
        } else if b == 0x02 {
            PacketType::Heartbeat
        } else if b == 0x03 {
            PacketType::Handshake
        } else {
            PacketType::Custom(b)
        }
    }
}

impl From<u8> for PacketType {
    fn from(value: u8) -> (r: Self) {
        PacketType::from_byte(value)
    }
}

impl vstd::std_specs::convert::FromSpecImpl<u8> for PacketType {
    open spec fn obeys_from_spec() -> bool {
        true
    }

    open spec fn from_spec(v: u8) -> Self {
        spec_type_from_byte(v)
    }
}

impl From<PacketType> for u8 {
    fn from(pt: PacketType) -> (r: Self) {
        pt.to_byte()
    }
}

impl vstd::std_specs::convert::FromSpecImpl<PacketType> for u8 {
    open spec fn obeys_from_spec() -> bool {
        true
    }

    open spec fn from_spec(v: PacketType) -> Self {
        spec_type_to_byte(v)
    }
}

/// The protocol version this library speaks; decoders refuse any other.
pub const CURRENT_VERSION: u8 = 0x01;

/// The packet header. Fixed 56 bytes on the wire.
///
/// `message_id` and `response_to` correlate requests with responses:
/// `message_id != 0 && response_to == 0` marks a request, `response_to != 0`
/// marks the response to that id, and both zero marks a one-way packet.
#[derive(Debug, Clone, Copy, PartialEq, Eq, Structural)]
pub struct UnisonPacketHeader {
    /// Protocol version; always `CURRENT_VERSION` on packets this library writes.
    pub version: u8,
    /// The packet kind tag, as a raw byte.
    pub packet_type: u8,
    /// Raw flag bits (see `PacketFlags`).
    pub flags: u16,
    /// Length of the payload before compression, in bytes.
    pub payload_length: u32,
    /// Length of the compressed payload on the wire; 0 when not compressed.
    pub compressed_length: u32,
    /// CRC32 over the on-wire payload; 0 when no checksum is used.
    pub checksum: u32,
    /// Monotone per-stream sequence number.
    pub sequence_number: u64,
    /// Creation time, nanoseconds since the Unix epoch.
    pub timestamp: u64,
    /// Logical stream identifier.
    pub stream_id: u64,
    /// Unique identifier of this message; 0 for one-way packets.
    pub message_id: u64,
    /// Identifier of the message this one answers; 0 for requests and one-way packets.
    pub response_to: u64,
}

/// The frame and packet layers share one header layout.
pub type UnisonFrameHeader = UnisonPacketHeader;

/// Relies on `std::time::SystemTime::now`: nanoseconds since the Unix epoch,
/// saturated to zero for clocks before the epoch. The value depends on the
/// clock, so nothing is promised of it.
#[verifier::external_body]
pub(crate) fn now_unix_nanos() -> u64 {
    match std::time::SystemTime::now().duration_since(std::time::UNIX_EPOCH) {
        Ok(d) => d.as_nanos() as u64,
        Err(_) => 0,
    }
}

impl UnisonPacketHeader {
    /// A fresh header of the given kind: current version, no flags, empty
    /// lengths and ids, and the creation time stamped in.
    pub fn new(packet_type: PacketType) -> (r: Self)
        ensures
            r.version == CURRENT_VERSION,
            r.packet_type == spec_type_to_byte(packet_type),
            r.flags == 0,
            r.payload_length == 0,
            r.compressed_length == 0,
            r.checksum == 0,
            r.sequence_number == 0,
            r.stream_id == 0,
            r.message_id == 0,
            r.response_to == 0,
    {
        UnisonPacketHeader {
            version: CURRENT_VERSION,
            packet_type: packet_type.to_byte(),
            flags: 0,
            payload_length: 0,
            compressed_length: 0,
            checksum: 0,
            sequence_number: 0,
            timestamp: now_unix_nanos(),
            stream_id: 0,
            message_id: 0,
            response_to: 0,
        }
    }

    /// The packet kind tag.
    pub fn packet_type(&self) -> (r: PacketType)
        ensures
            r == spec_type_from_byte(self.packet_type),
    {
        PacketType::from_byte(self.packet_type)
    }

    /// Replaces the packet kind tag.
    pub fn set_packet_type(&mut self, packet_type: PacketType)
        ensures
            *final(self) == (UnisonPacketHeader {
                packet_type: spec_type_to_byte(packet_type),
                ..*old(self)
            }),
    {
        self.packet_type = packet_type.to_byte();
    }

    /// The flag bits, wrapped.
    pub fn flags(&self) -> (r: PacketFlags)
        ensures
            r.0 == self.flags,
    {
        PacketFlags::from_bits(self.flags)
    }

    /// Replaces the flag bits.
    pub fn set_flags(&mut self, flags: PacketFlags)
        ensures
            *final(self) == (UnisonPacketHeader { flags: flags.0, ..*old(self) }),
    {
        self.flags = flags.bits();
    }

    /// True when the payload on the wire is compressed: a nonzero compressed
    /// length together with the COMPRESSED flag.
    pub fn is_compressed(&self) -> (r: bool)
        ensures
            r == self.spec_is_compressed(),
    {
        self.compressed_length > 0 && self.flags().is_compressed()
    }

    /// True when the header carries a checksum.
    pub fn has_checksum(&self) -> (r: bool)
        ensures
            r == (self.checksum != 0),
    {
        self.checksum != 0
    }

    /// True when the version is the one this library speaks.
    pub fn is_compatible(&self) -> (r: bool)
        ensures
            r == (self.version == CURRENT_VERSION),
    {
        self.version == CURRENT_VERSION
    }

    /// The number of payload bytes on the wire: the compressed length when
    /// compression was used, the plain length otherwise.
    pub fn actual_payload_size(&self) -> (r: u32)
        ensures
            r == self.spec_actual_payload_size(),
    {
        if self.compressed_length > 0 {
            self.compressed_length
        } else {
            self.payload_length
        }
    }

    /// Returns the header with the sequence number replaced.
    pub fn with_sequence(self, seq: u64) -> (r: Self)
        ensures
            r == (UnisonPacketHeader { sequence_number: seq, ..self }),
    {
        UnisonPacketHeader { sequence_number: seq, ..self }
    }

    /// Returns the header with the stream id replaced.
    pub fn with_stream_id(self, id: u64) -> (r: Self)
        ensures
            r == (UnisonPacketHeader { stream_id: id, ..self }),
    {
        UnisonPacketHeader { stream_id: id, ..self }
    }

    /// Returns the header with the message id replaced.
    pub fn with_message_id(self, id: u64) -> (r: Self)
        ensures
            r == (UnisonPacketHeader { message_id: id, ..self }),
    {
        UnisonPacketHeader { message_id: id, ..self }
    }

    /// Returns the header with the correlation id replaced.
    pub fn with_response_to(self, id: u64) -> (r: Self)
        ensures
            r == (UnisonPacketHeader { response_to: id, ..self }),
    {
        UnisonPacketHeader { response_to: id, ..self }
    }

    /// Returns the header with the checksum field replaced.
    pub fn with_checksum(self, checksum: u32) -> (r: Self)
        ensures
            r == (UnisonPacketHeader { checksum: checksum, ..self }),
    {
        UnisonPacketHeader { checksum: checksum, ..self }
    }

    /// True when this header marks a request: a message id and no correlation.
    pub fn is_request(&self) -> (r: bool)
        ensures
            r == (self.response_to == 0 && self.message_id != 0),
    {
        self.response_to == 0 && self.message_id != 0
    }

    /// True when this header marks a response to some request.
    pub fn is_response(&self) -> (r: bool)
        ensures
            r == (self.response_to != 0),
    {
        self.response_to != 0
    }

    /// True when this header marks a one-way packet.
    pub fn is_oneway(&self) -> (r: bool)
        ensures
            r == (self.response_to == 0 && self.message_id == 0),
    {
        self.response_to == 0 && self.message_id == 0
    }

    /// Stamps the creation time anew.
    pub fn update_timestamp(&mut self)
        ensures
            *final(self) == (UnisonPacketHeader { timestamp: final(self).timestamp, ..*old(self) }),
    {
        self.timestamp = now_unix_nanos();
    }

    /// See `is_compressed`.
    pub open spec fn spec_is_compressed(self) -> bool {
        self.compressed_length > 0 && crate::flags::spec_flag_set(
            self.flags,
            PacketFlags::COMPRESSED,
        )
    }

    /// See `actual_payload_size`.
    pub open spec fn spec_actual_payload_size(self) -> u32 {
        if self.compressed_length > 0 {
            self.compressed_length
        } else {
            self.payload_length
        }
    }
}

impl Default for UnisonPacketHeader {
    /// A fresh data-packet header.
    fn default() -> (r: Self)
        ensures
            r.version == CURRENT_VERSION,
            r.packet_type == spec_type_to_byte(PacketType::Data),
            r.flags == 0,
            r.payload_length == 0,
            r.compressed_length == 0,
            r.checksum == 0,
    {
        UnisonPacketHeader::new(PacketType::Data)
    }
}

} // verus!
