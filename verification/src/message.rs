//! The message record that packets carry, and the network error taxonomy.
//!
//! A message record holds a correlation id, a method name, a message kind
//! and a JSON document as its payload. On the wire it is laid out as
//! `[id:8][kind:1][method length:4][method utf-8][payload length:4][payload utf-8]`,
//! all lengths little-endian; the layout is stated as a spec function and
//! the codec is proved against it, so a record rides in a packet like any
//! other payload.
use vstd::prelude::*;

use vstd::bytes::{
    lemma_auto_spec_u32_to_from_le_bytes, lemma_auto_spec_u64_to_from_le_bytes,
    spec_u32_from_le_bytes, spec_u32_to_le_bytes, spec_u64_from_le_bytes, spec_u64_to_le_bytes,
    u32_from_le_bytes, u32_to_le_bytes, u64_from_le_bytes, u64_to_le_bytes,
};
use vstd::slice::{slice_subrange, slice_to_vec};
use vstd::utf8::{encode_utf8, encode_utf8_decode_utf8, encode_utf8_valid_utf8};

use crate::json::{is_json_text, json_is_valid, json_value_to_string};
use crate::payload::{Payloadable, PayloadError};
use crate::serialization::SerializationError;

verus! {

/// The kind of a message record.
#[derive(Debug, Clone, Copy, PartialEq, Eq, Structural)]
pub enum MessageType {
    /// A unary request awaiting one response.
    Request,
    /// The response to a request.
    Response,
    /// A request that opens a server-driven stream.
    Stream,
    /// One element of a server-driven stream.
    StreamData,
    /// The orderly end of a stream.
    StreamEnd,
    /// A stream torn down by an error.
    StreamError,
    /// A request that opens a bidirectional stream.
    BidirectionalStream,
    /// Data sent into a bidirectional stream.
    StreamSend,
    /// Data received from a bidirectional stream.
    StreamReceive,
    /// An error answering a request.
    Error,
}

/// The byte a message kind is written as.
pub open spec fn spec_msg_type_byte(t: MessageType) -> u8 {
    match t {
        MessageType::Request => 0,
        MessageType::Response => 1,
        MessageType::Stream => 2,
        MessageType::StreamData => 3,
        MessageType::StreamEnd => 4,
        MessageType::StreamError => 5,
        MessageType::BidirectionalStream => 6,
        MessageType::StreamSend => 7,
        MessageType::StreamReceive => 8,
        MessageType::Error => 9,
    }
}

/// The message kind a byte is read as; bytes above 9 stand for no kind.
pub open spec fn spec_msg_type_from_byte(b: u8) -> Option<MessageType> {
    if b == 0 {
        Some(MessageType::Request)
    } else if b == 1 {
        Some(MessageType::Response)
    } else if b == 2 {
        Some(MessageType::Stream)
    } else if b == 3 {
        Some(MessageType::StreamData)
    } else if b == 4 {
        Some(MessageType::StreamEnd)
    } else if b == 5 {
        Some(MessageType::StreamError)
    } else if b == 6 {
        Some(MessageType::BidirectionalStream)
    } else if b == 7 {
        Some(MessageType::StreamSend)
    } else if b == 8 {
        Some(MessageType::StreamReceive)
    } else if b == 9 {
        Some(MessageType::Error)
    } else {
        None
    }
}

/// Reading back a written kind yields the kind.
pub proof fn lemma_msg_type_byte_round_trip(t: MessageType)
    ensures
        spec_msg_type_from_byte(spec_msg_type_byte(t)) == Some(t),
{
}

impl MessageType {
    /// The byte this kind is written as.
    pub fn to_byte(&self) -> (r: u8)
        ensures
            r == spec_msg_type_byte(*self),
    {
        match self {
            MessageType::Request => 0,
            MessageType::Response => 1,
            MessageType::Stream => 2,
            MessageType::StreamData => 3,
            MessageType::StreamEnd => 4,
            MessageType::StreamError => 5,
            MessageType::BidirectionalStream => 6,
            MessageType::StreamSend => 7,
            MessageType::StreamReceive => 8,
            MessageType::Error => 9,
        }
    }

    /// The kind a byte is read as.
    pub fn from_byte(b: u8) -> (r: Option<Self>)
        ensures
            r == spec_msg_type_from_byte(b),
    {
        if b == 0 {
            Some(MessageType::Request)
        } else if b == 1 {
            Some(MessageType::Response)
        } else if b == 2 {
            Some(MessageType::Stream)
        } else if b == 3 {
            Some(MessageType::StreamData)
        } else if b == 4 {
            Some(MessageType::StreamEnd)
        } else if b == 5 {
            Some(MessageType::StreamError)
        } else if b == 6 {
            Some(MessageType::BidirectionalStream)
        } else if b == 7 {
            Some(MessageType::StreamSend)
        } else if b == 8 {
            Some(MessageType::StreamReceive)
        } else if b == 9 {
            Some(MessageType::Error)
        } else {
            None
        }
    }
}

/// A message record as a mathematical value.
pub struct ProtocolMessageView {
    /// The correlation id.
    pub id: u64,
    /// The method name.
    pub method: Seq<char>,
    /// The message kind.
    pub msg_type: MessageType,
    /// The JSON document carried.
    pub payload: Seq<char>,
}

/// A message record: a correlation id, a method name, a kind, and a JSON
/// document as text.
#[derive(Debug, Clone, PartialEq, Eq)]
pub struct ProtocolMessage {
    /// The correlation id; see the header's `message_id` for the pairing rule.
    pub id: u64,
    /// The method name.
    pub method: String,
    /// The message kind.
    pub msg_type: MessageType,
    /// The JSON document carried, as text.
    pub payload: String,
}

impl View for ProtocolMessage {
    type V = ProtocolMessageView;

    open spec fn view(&self) -> ProtocolMessageView {
        ProtocolMessageView {
            id: self.id,
            method: self.method@,
            msg_type: self.msg_type,
            payload: self.payload@,
        }
    }
}

/// True when the record has an encoding at all: method and payload must fit
/// the 32-bit length fields.
pub open spec fn spec_message_encodable(v: ProtocolMessageView) -> bool {
    encode_utf8(v.method).len() <= u32::MAX && encode_utf8(v.payload).len() <= u32::MAX
}

/// The bytes a message record is written as.
pub open spec fn spec_message_bytes(v: ProtocolMessageView) -> Seq<u8> {
    let mu = encode_utf8(v.method);
    let pu = encode_utf8(v.payload);
    spec_u64_to_le_bytes(v.id) + seq![spec_msg_type_byte(v.msg_type)] + spec_u32_to_le_bytes(
        mu.len() as u32,
    ) + mu + spec_u32_to_le_bytes(pu.len() as u32) + pu
}

/// Where each part of a written record lies in the buffer.
pub proof fn lemma_message_bytes_parts(v: ProtocolMessageView)
    requires
        encode_utf8(v.method).len() <= u32::MAX,
        encode_utf8(v.payload).len() <= u32::MAX,
    ensures
        ({
            let b = spec_message_bytes(v);
            let mu = encode_utf8(v.method);
            let pu = encode_utf8(v.payload);
            let m = mu.len() as int;
            &&& b.len() == 17 + mu.len() + pu.len()
            &&& b.subrange(0, 8) == spec_u64_to_le_bytes(v.id)
            &&& b[8] == spec_msg_type_byte(v.msg_type)
            &&& b.subrange(9, 13) == spec_u32_to_le_bytes(mu.len() as u32)
            &&& b.subrange(13, 13 + m) == mu
            &&& b.subrange(13 + m, 17 + m) == spec_u32_to_le_bytes(pu.len() as u32)
            &&& b.skip(17 + m) == pu
        }),
{
    lemma_auto_spec_u32_to_from_le_bytes();
    lemma_auto_spec_u64_to_from_le_bytes();
    let b = spec_message_bytes(v);
    let mu = encode_utf8(v.method);
    let pu = encode_utf8(v.payload);
    let m = mu.len() as int;
    assert(b.subrange(0, 8) =~= spec_u64_to_le_bytes(v.id));
    assert(b.subrange(9, 13) =~= spec_u32_to_le_bytes(mu.len() as u32));
    assert(b.subrange(13, 13 + m) =~= mu);
    assert(b.subrange(13 + m, 17 + m) =~= spec_u32_to_le_bytes(pu.len() as u32));
    assert(b.skip(17 + m) =~= pu);
}

impl Payloadable for ProtocolMessage {
    open spec fn spec_encodes(bytes: Seq<u8>, v: ProtocolMessageView) -> bool {
        &&& encode_utf8(v.method).len() <= u32::MAX
        &&& encode_utf8(v.payload).len() <= u32::MAX
        &&& bytes == spec_message_bytes(v)
    }

    proof fn lemma_encoding_functional(v: ProtocolMessageView, b1: Seq<u8>, b2: Seq<u8>) {
    }

    proof fn lemma_encodes_functional(bytes: Seq<u8>, v1: ProtocolMessageView, v2: ProtocolMessageView) {
        lemma_auto_spec_u32_to_from_le_bytes();
        lemma_auto_spec_u64_to_from_le_bytes();
        lemma_message_bytes_parts(v1);
        lemma_message_bytes_parts(v2);
        let mu1 = encode_utf8(v1.method);
        let mu2 = encode_utf8(v2.method);
        let pu1 = encode_utf8(v1.payload);
        let pu2 = encode_utf8(v2.payload);
        // The method-length prefixes sit at the same offset, so the method
        // segments have one length, and everything else lines up after them.
        assert(spec_u32_from_le_bytes(bytes.subrange(9, 13)) == mu1.len() as u32);
        assert(spec_u32_from_le_bytes(bytes.subrange(9, 13)) == mu2.len() as u32);
        assert(mu1.len() == mu2.len());
        let m = mu1.len() as int;
        assert(mu1 == bytes.subrange(13, 13 + m));
        assert(mu2 == bytes.subrange(13, 13 + m));
        encode_utf8_decode_utf8(v1.method);
        encode_utf8_decode_utf8(v2.method);
        assert(pu1 == bytes.skip(17 + m));
        assert(pu2 == bytes.skip(17 + m));
        encode_utf8_decode_utf8(v1.payload);
        encode_utf8_decode_utf8(v2.payload);
        assert(spec_u64_from_le_bytes(bytes.subrange(0, 8)) == v1.id);
        assert(spec_u64_from_le_bytes(bytes.subrange(0, 8)) == v2.id);
        assert(spec_msg_type_byte(v1.msg_type) == bytes[8]);
        assert(spec_msg_type_byte(v2.msg_type) == bytes[8]);
        lemma_msg_type_byte_round_trip(v1.msg_type);
        lemma_msg_type_byte_round_trip(v2.msg_type);
        assert(v1 =~= v2);
    }

    fn to_bytes(&self) -> (r: Result<Vec<u8>, PayloadError>) {
        let method_bytes = self.method.as_str().as_bytes();
        let payload_bytes = self.payload.as_str().as_bytes();
        if method_bytes.len() > u32::MAX as usize || payload_bytes.len() > u32::MAX as usize {
            return Err(PayloadError::SerializationFailed(String::from_str(
                "method or payload too long",
            )));
        }
        let mut out = u64_to_le_bytes(self.id);
        out.push(self.msg_type.to_byte());
        let mut mlen = u32_to_le_bytes(method_bytes.len() as u32);
        out.append(&mut mlen);
        let mut mb = slice_to_vec(method_bytes);
        out.append(&mut mb);
        let mut plen = u32_to_le_bytes(payload_bytes.len() as u32);
        out.append(&mut plen);
        let mut pb = slice_to_vec(payload_bytes);
        out.append(&mut pb);
        assert(out@ =~= spec_message_bytes(self@));
        Ok(out)
    }

    fn from_bytes(bytes: &[u8]) -> (r: Result<Self, PayloadError>) {
        proof {
            lemma_auto_spec_u32_to_from_le_bytes();
            lemma_auto_spec_u64_to_from_le_bytes();
        }
        if bytes.len() < 17 {
            proof {
                assert forall|v: ProtocolMessageView| !Self::spec_encodes(bytes@, v) by {
                    if Self::spec_encodes(bytes@, v) {
                        lemma_message_bytes_parts(v);
                    }
                }
            }
            return Err(PayloadError::InvalidData);
        }
        let id = u64_from_le_bytes(slice_subrange(bytes, 0, 8));
        let type_byte = *vstd::slice::slice_index_get(bytes, 8);
        let msg_type = match MessageType::from_byte(type_byte) {
            Some(t) => t,
            None => {
                proof {
                    assert forall|v: ProtocolMessageView| !Self::spec_encodes(bytes@, v) by {
                        if Self::spec_encodes(bytes@, v) {
                            lemma_message_bytes_parts(v);
                            lemma_msg_type_byte_round_trip(v.msg_type);
                        }
                    }
                }
                return Err(PayloadError::InvalidData);
            },
        };
        let mlen = u32_from_le_bytes(slice_subrange(bytes, 9, 13)) as usize;
        if mlen > bytes.len() - 17 {
            proof {
                assert forall|v: ProtocolMessageView| !Self::spec_encodes(bytes@, v) by {
                    if Self::spec_encodes(bytes@, v) {
                        lemma_message_bytes_parts(v);
                    }
                }
            }
            return Err(PayloadError::InvalidData);
        }
        let method_bytes = slice_subrange(bytes, 13, 13 + mlen);
        let plen = u32_from_le_bytes(slice_subrange(bytes, 13 + mlen, 17 + mlen)) as usize;
        if plen != bytes.len() - 17 - mlen {
            proof {
                assert forall|v: ProtocolMessageView| !Self::spec_encodes(bytes@, v) by {
                    if Self::spec_encodes(bytes@, v) {
                        lemma_message_bytes_parts(v);
                    }
                }
            }
            return Err(PayloadError::InvalidData);
        }
        let payload_bytes = slice_subrange(bytes, 17 + mlen, bytes.len());
        let method = match core::str::from_utf8(method_bytes) {
            Ok(s) => s.to_owned(),
            Err(_) => {
                proof {
                    assert forall|v: ProtocolMessageView| !Self::spec_encodes(bytes@, v) by {
                        if Self::spec_encodes(bytes@, v) {
                            lemma_message_bytes_parts(v);
                            encode_utf8_valid_utf8(v.method);
                        }
                    }
                }
                return Err(PayloadError::InvalidData);
            },
        };
        let payload = match core::str::from_utf8(payload_bytes) {
            Ok(s) => s.to_owned(),
            Err(_) => {
                proof {
                    assert forall|v: ProtocolMessageView| !Self::spec_encodes(bytes@, v) by {
                        if Self::spec_encodes(bytes@, v) {
                            lemma_message_bytes_parts(v);
                            encode_utf8_valid_utf8(v.payload);
                        }
                    }
                }
                return Err(PayloadError::InvalidData);
            },
        };
        let m = ProtocolMessage { id, method, msg_type, payload };
        proof {
            assert(bytes@ =~= spec_message_bytes(m@));
        }
        Ok(m)
    }
}

impl ProtocolMessage {
    /// Builds a record whose payload is the given JSON value, printed and
    /// validated: a value nested beyond the parser's recursion limit prints
    /// to a document the parser would refuse, and is rejected here.
    pub fn new_with_json(
        id: u64,
        method: String,
        msg_type: MessageType,
        payload: &serde_json::Value,
    ) -> (r: Result<Self, NetworkError>)
        ensures
            r matches Ok(msg) ==> msg.id == id && msg.method@ == method@ && msg.msg_type == msg_type
                && is_json_text(msg.payload@),
    {
        match json_value_to_string(payload) {
            Ok(payload) => {
                if json_is_valid(payload.as_str()) {
                    Ok(ProtocolMessage { id, method, msg_type, payload })
                } else {
                    Err(
                        NetworkError::Serialization(
                            String::from_str("printed document would not parse back"),
                        ),
                    )
                }
            },
            Err(e) => Err(NetworkError::Serialization(e)),
        }
    }

    /// Builds a record from a payload already in text form.
    pub fn new(id: u64, method: String, msg_type: MessageType, payload: String) -> (r: Self)
        ensures
            r.id == id && r.method@ == method@ && r.msg_type == msg_type && r.payload@ == payload@,
    {
        ProtocolMessage { id, method, msg_type, payload }
    }

    /// Parses the payload document into a `serde_json::Value`.
    pub fn payload_as_value(&self) -> (r: Result<serde_json::Value, NetworkError>)
        ensures
            r is Ok ==> is_json_text(self.payload@),
            r is Err ==> !is_json_text(self.payload@),
    {
        match crate::json::json_parse(self.payload.as_str()) {
            Ok(v) => Ok(v),
            Err(e) => Err(NetworkError::Serialization(e)),
        }
    }

    /// Wraps the record in a packet: the record's own failure conditions are
    /// pinned — no encoding exactly when a length field overflows, too large
    /// exactly when the encoding is over the default maximum, and success is
    /// owed below the compression threshold.
    pub fn into_frame(self) -> (r: Result<ProtocolFrame, SerializationError>)
        ensures
            r matches Ok(pkt) ==> crate::packet::spec_packet_carries::<ProtocolMessage>(pkt@, self@),
            r matches Err(SerializationError::Payload(..)) <==> !spec_message_encodable(self@),
            r matches Err(SerializationError::PacketTooLarge { .. }) <==> spec_message_encodable(
                self@,
            ) && !crate::serialization::spec_payload_fits(
                spec_message_bytes(self@).len(),
                crate::config::PacketConfig::spec_default().with_checksum_spec(false),
            ),
            r is Err ==> (r matches Err(SerializationError::Payload(..)) || r matches Err(
                SerializationError::PacketTooLarge { .. },
            ) || r matches Err(SerializationError::CompressionFailed(..))),
            spec_message_encodable(self@) && crate::serialization::spec_payload_fits(
                spec_message_bytes(self@).len(),
                crate::config::PacketConfig::spec_default().with_checksum_spec(false),
            ) && spec_message_bytes(self@).len()
                < crate::config::DEFAULT_COMPRESSION_THRESHOLD ==> r is Ok,
    {
        let ghost mv = self@;
        let r = crate::packet::UnisonPacket::new(self);
        proof {
            lemma_message_encoding_shape(mv);
            if r is Ok {
                let h0 = choose|h0: crate::header::UnisonPacketHeader|
                    #![auto]
                    h0.version == crate::header::CURRENT_VERSION && h0.flags == 0 && h0.checksum
                        == 0 && crate::packet::spec_built_packet::<ProtocolMessage>(
                        h0,
                        mv,
                        crate::config::PacketConfig::spec_default().with_checksum_spec(false),
                        r->Ok_0@,
                    );
                crate::packet::lemma_built_packet_implies_carries::<ProtocolMessage>(
                    h0,
                    mv,
                    crate::config::PacketConfig::spec_default().with_checksum_spec(false),
                    r->Ok_0@,
                );
            }
        }
        r
    }

    /// Reads the record a packet carries: success pins the record down, and
    /// it succeeds exactly when the buffer decodes cleanly.
    pub fn from_frame(frame: &ProtocolFrame) -> (r: Result<Self, SerializationError>)
        ensures
            r matches Ok(msg) ==> crate::packet::spec_packet_carries::<ProtocolMessage>(
                frame@,
                msg@,
            ),
            r is Ok <==> crate::packet::UnisonPacket::<ProtocolMessage>::spec_decodes(frame@),
    {
        frame.payload()
    }
}

impl ProtocolMessage {
    /// Wraps the record in a request packet: the header carries the record's
    /// id as its `message_id` and no correlation, so the wire marks it a
    /// request when the id is nonzero. Failure conditions are those of
    /// `into_frame`.
    pub fn into_request_frame(self) -> (r: Result<ProtocolFrame, SerializationError>)
        ensures
            r matches Ok(pkt) ==> crate::packet::spec_packet_carries::<ProtocolMessage>(
                pkt@,
                self@,
            ) && pkt@.len() >= crate::wire::HEADER_SIZE && ({
                let stored = crate::wire::spec_parse_header(
                    pkt@.subrange(0, crate::wire::HEADER_SIZE as int),
                );
                stored.message_id == self@.id && stored.response_to == 0
            }),
            r matches Err(SerializationError::Payload(..)) <==> !spec_message_encodable(self@),
            r matches Err(SerializationError::PacketTooLarge { .. }) <==> spec_message_encodable(
                self@,
            ) && !crate::serialization::spec_payload_fits(
                spec_message_bytes(self@).len(),
                crate::config::PacketConfig::spec_default().with_checksum_spec(false),
            ),
            r is Err ==> (r matches Err(SerializationError::Payload(..)) || r matches Err(
                SerializationError::PacketTooLarge { .. },
            ) || r matches Err(SerializationError::CompressionFailed(..))),
            spec_message_encodable(self@) && crate::serialization::spec_payload_fits(
                spec_message_bytes(self@).len(),
                crate::config::PacketConfig::spec_default().with_checksum_spec(false),
            ) && spec_message_bytes(self@).len()
                < crate::config::DEFAULT_COMPRESSION_THRESHOLD ==> r is Ok,
    {
        let header = crate::header::UnisonPacketHeader::new(
            crate::header::PacketType::Data,
        ).with_message_id(self.id);
        let ghost mv = self@;
        let ghost h0 = header;
        let r = crate::packet::UnisonPacket::with_header(header, self);
        proof {
            lemma_message_encoding_shape(mv);
            if r is Ok {
                let config = crate::config::PacketConfig::spec_default().with_checksum_spec(false);
                crate::packet::lemma_built_packet_implies_carries::<ProtocolMessage>(
                    h0,
                    mv,
                    config,
                    r->Ok_0@,
                );
                crate::packet::lemma_built_packet_header::<ProtocolMessage>(
                    h0,
                    mv,
                    config,
                    r->Ok_0@,
                );
            }
        }
        r
    }

    /// Wraps the record in a response packet: the header's `response_to`
    /// carries the answered request's id, so the wire marks it a response.
    /// Failure conditions are those of `into_frame`.
    pub fn into_response_frame(self, response_to: u64) -> (r: Result<
        ProtocolFrame,
        SerializationError,
    >)
        ensures
            r matches Ok(pkt) ==> crate::packet::spec_packet_carries::<ProtocolMessage>(
                pkt@,
                self@,
            ) && pkt@.len() >= crate::wire::HEADER_SIZE && ({
                let stored = crate::wire::spec_parse_header(
                    pkt@.subrange(0, crate::wire::HEADER_SIZE as int),
                );
                stored.message_id == self@.id && stored.response_to == response_to
            }),
            r matches Err(SerializationError::Payload(..)) <==> !spec_message_encodable(self@),
            r matches Err(SerializationError::PacketTooLarge { .. }) <==> spec_message_encodable(
                self@,
            ) && !crate::serialization::spec_payload_fits(
                spec_message_bytes(self@).len(),
                crate::config::PacketConfig::spec_default().with_checksum_spec(false),
            ),
            r is Err ==> (r matches Err(SerializationError::Payload(..)) || r matches Err(
                SerializationError::PacketTooLarge { .. },
            ) || r matches Err(SerializationError::CompressionFailed(..))),
            spec_message_encodable(self@) && crate::serialization::spec_payload_fits(
                spec_message_bytes(self@).len(),
                crate::config::PacketConfig::spec_default().with_checksum_spec(false),
            ) && spec_message_bytes(self@).len()
                < crate::config::DEFAULT_COMPRESSION_THRESHOLD ==> r is Ok,
    {
        let header = crate::header::UnisonPacketHeader::new(
            crate::header::PacketType::Data,
        ).with_message_id(self.id).with_response_to(response_to);
        let ghost mv = self@;
        let ghost h0 = header;
        let r = crate::packet::UnisonPacket::with_header(header, self);
        proof {
            lemma_message_encoding_shape(mv);
            if r is Ok {
                let config = crate::config::PacketConfig::spec_default().with_checksum_spec(false);
                crate::packet::lemma_built_packet_implies_carries::<ProtocolMessage>(
                    h0,
                    mv,
                    config,
                    r->Ok_0@,
                );
                crate::packet::lemma_built_packet_header::<ProtocolMessage>(
                    h0,
                    mv,
                    config,
                    r->Ok_0@,
                );
            }
        }
        r
    }
}

/// The shape of a record's encodings: one exists exactly when the record is
/// encodable, and it is `spec_message_bytes`.
proof fn lemma_message_encoding_shape(v: ProtocolMessageView)
    ensures
        spec_message_encodable(v) <==> (exists|b: Seq<u8>|
            <ProtocolMessage as Payloadable>::spec_encodes(b, v)),
        forall|b: Seq<u8>|
            #[trigger] <ProtocolMessage as Payloadable>::spec_encodes(b, v) ==> b
                == spec_message_bytes(v),
{
    if spec_message_encodable(v) {
        assert(<ProtocolMessage as Payloadable>::spec_encodes(spec_message_bytes(v), v));
    }
}

/// A message record wrapped in a packet.
pub type ProtocolFrame = crate::packet::UnisonPacket<ProtocolMessage>;

/// What can go wrong between two peers.
#[derive(Debug, Clone, PartialEq, Eq)]
pub enum NetworkError {
    /// A link-level problem or a call in the wrong state.
    Connection(String),
    /// The peer violated the wire contract.
    Protocol(String),
    /// An application payload could not be encoded or decoded.
    Serialization(String),
    /// The packet codec failed.
    FrameSerialization(SerializationError),
    /// The underlying transport stack reported an error.
    Quic(String),
    /// An operation ran out of time.
    Timeout,
    /// No handler is registered for the method.
    HandlerNotFound {
        /// The method that was asked for.
        method: String,
    },
    /// The client is not connected.
    NotConnected,
    /// The requested transport is not available.
    UnsupportedTransport(String),
}

impl NetworkError {
    /// A short human-readable account of the error.
    pub fn message(&self) -> (r: String)
        ensures
            self is Timeout ==> r@ == "timeout"@,
            self is NotConnected ==> r@ == "not connected"@,
            self matches NetworkError::Connection(s) ==> r@ == s@,
            self matches NetworkError::Protocol(s) ==> r@ == s@,
            self matches NetworkError::HandlerNotFound { method } ==> r@ == "handler not found: "@
                + method@,
    {
        match self {
            NetworkError::Connection(s) => s.clone(),
            NetworkError::Protocol(s) => s.clone(),
            NetworkError::Serialization(s) => s.clone(),
            NetworkError::FrameSerialization(e) => e.message(),
            NetworkError::Quic(s) => s.clone(),
            NetworkError::Timeout => String::from_str("timeout"),
            NetworkError::HandlerNotFound { method } => {
                let mut out = String::from_str("handler not found: ");
                out.append(method.as_str());
                out
            },
            NetworkError::NotConnected => String::from_str("not connected"),
            NetworkError::UnsupportedTransport(s) => s.clone(),
        }
    }
}

} // verus!
