//! The packet codec: header fields and payload bytes to wire bytes, and back.
//!
//! Encoding sets the header's length fields, applies compression when the
//! configuration asks for it and it actually shrinks the payload, computes
//! the checksum when asked, and prepends the 56-byte header. Decoding
//! validates the version, the length fields and the checksum, and
//! decompresses when the COMPRESSED flag is set.
use vstd::prelude::*;

use crate::checksum::{crc32, crc32_of};
use crate::compress::{zstd_compress, zstd_decompress, zstd_decoding, zstd_encoding};
use crate::config::{ChecksumConfig, PacketConfig};
use crate::flags::PacketFlags;
use crate::flags::spec_flag_set;
use crate::header::UnisonPacketHeader;
use crate::payload::PayloadError;
use crate::wire::{HEADER_SIZE, decode_header_bytes, encode_header, spec_header_bytes, spec_parse_header};

verus! {

/// What went wrong encoding or decoding a packet.
#[derive(Debug, Clone, PartialEq, Eq)]
pub enum SerializationError {
    /// The payload itself could not be written or read (see `PayloadError`).
    Payload(PayloadError),
    /// zstd refused to compress.
    CompressionFailed(String),
    /// The COMPRESSED flag was set but the bytes are no zstd frame.
    DecompressionFailed(String),
    /// A payload is longer than the configured maximum.
    PacketTooLarge { size: usize, max_size: usize },
    /// The buffer is shorter than a header, or the lengths disagree.
    InvalidHeader,
    /// The stored checksum does not match the payload, or one was demanded
    /// and none is present.
    ChecksumMismatch { expected: u32, actual: u32 },
    /// The peer speaks another protocol version.
    IncompatibleVersion { version: u8 },
}

impl SerializationError {
    /// A short human-readable account of the error.
    pub fn message(&self) -> (r: String)
        ensures
            self is PacketTooLarge ==> r@ == "packet too large"@,
            self is InvalidHeader ==> r@ == "invalid header"@,
            self is ChecksumMismatch ==> r@ == "checksum mismatch"@,
            self is IncompatibleVersion ==> r@ == "incompatible protocol version"@,
    {
        match self {
            SerializationError::Payload(e) => e.message(),
            SerializationError::CompressionFailed(_) => String::from_str("compression failed"),
            SerializationError::DecompressionFailed(_) => String::from_str("decompression failed"),
            SerializationError::PacketTooLarge { .. } => String::from_str("packet too large"),
            SerializationError::InvalidHeader => String::from_str("invalid header"),
            SerializationError::ChecksumMismatch { .. } => String::from_str("checksum mismatch"),
            SerializationError::IncompatibleVersion { .. } => String::from_str(
                "incompatible protocol version",
            ),
        }
    }
}

/// True when a payload of `len` bytes fits the configuration: within the
/// configured maximum and representable in the header's 32-bit length field.
pub open spec fn spec_payload_fits(len: nat, config: PacketConfig) -> bool {
    len <= config.max_payload_size && len <= u32::MAX
}

/// True when the original payload `p` can be recovered from the on-wire
/// payload `wire` under header `h`: the wire bytes decompress to `p` when the
/// header says compressed, and are `p` itself otherwise.
pub open spec fn spec_payload_matches(h: UnisonPacketHeader, wire: Seq<u8>, p: Seq<u8>) -> bool {
    if h.spec_is_compressed() {
        zstd_decoding(wire) == Some(p)
    } else {
        wire == p
    }
}

/// The flag bits the encoder never touches: everything but COMPRESSED and CHECKSUM.
pub open spec fn spec_other_flags(flags: u16) -> u16 {
    flags & !(PacketFlags::COMPRESSED | PacketFlags::CHECKSUM)
}

/// Everything encoding promises about the final header `h` and the on-wire
/// payload `wire`, given the header `h0` it started from, the payload and the
/// configuration.
pub open spec fn spec_encoded(
    h0: UnisonPacketHeader,
    h: UnisonPacketHeader,
    payload: Seq<u8>,
    wire: Seq<u8>,
    config: PacketConfig,
) -> bool {
    // Untouched fields.
    &&& h.version == h0.version
    &&& h.packet_type == h0.packet_type
    &&& h.sequence_number == h0.sequence_number
    &&& h.timestamp == h0.timestamp
    &&& h.stream_id == h0.stream_id
    &&& h.message_id == h0.message_id
    &&& h.response_to == h0.response_to
    &&& spec_other_flags(h.flags) == spec_other_flags(h0.flags)
    // Lengths.
    &&& h.payload_length == payload.len()
    &&& wire.len() == h.spec_actual_payload_size()
    // The payload is recoverable from the wire bytes.
    &&& spec_payload_matches(h, wire, payload)
    // Compression bookkeeping: the flag and the length field agree, and
    // compression is taken exactly when asked for and profitable — when
    // zstd's frame is strictly smaller than the payload.
    &&& (spec_flag_set(h.flags, PacketFlags::COMPRESSED) <==> h.compressed_length > 0)
    &&& (h.compressed_length > 0 <==> config.compression.spec_should_compress(payload.len())
        && zstd_encoding(payload, config.compression.level).len() < payload.len())
    &&& (h.compressed_length > 0 ==> wire == zstd_encoding(payload, config.compression.level)
        && h.compressed_length < h.payload_length && wire.len() == h.compressed_length)
    &&& (h.compressed_length == 0 ==> wire == payload)
    // Checksum bookkeeping.
    &&& (config.checksum.enabled ==> h.checksum == crc32_of(wire) && spec_flag_set(
        h.flags,
        PacketFlags::CHECKSUM,
    ))
    &&& (!config.checksum.enabled ==> h.checksum == 0 && !spec_flag_set(
        h.flags,
        PacketFlags::CHECKSUM,
    ))
}

/// Encodes packets. The frame and packet layers share one codec.
pub struct PacketSerializer;

/// The frame and packet layers share one codec.
pub type FrameSerializer = PacketSerializer;

impl PacketSerializer {
    /// Encodes a header and payload with the default configuration; the
    /// checksum is written when the caller marked the header's checksum
    /// field nonzero beforehand.
    pub fn serialize(header: &mut UnisonPacketHeader, payload: &[u8]) -> (r: Result<
        Vec<u8>,
        SerializationError,
    >)
        ensures
            ({
                let config = PacketConfig::spec_default().with_checksum_spec(
                    old(header).checksum != 0,
                );
                &&& (r matches Ok(bytes) ==> spec_encoded(
                    *old(header),
                    *final(header),
                    payload@,
                    bytes@.skip(HEADER_SIZE as int),
                    config,
                ) && bytes@ == spec_header_bytes(*final(header)) + bytes@.skip(HEADER_SIZE as int))
                &&& (r matches Err(e) ==> e matches SerializationError::PacketTooLarge {
                    size,
                    max_size,
                } ==> !spec_payload_fits(payload@.len(), config) && size == payload@.len()
                    && max_size == config.max_payload_size)
                &&& (r is Err ==> (r matches Err(SerializationError::PacketTooLarge { .. })
                    || r matches Err(SerializationError::CompressionFailed(..))))
                &&& (!spec_payload_fits(payload@.len(), config) <==> r matches Err(
                    SerializationError::PacketTooLarge { .. },
                ))
                &&& (spec_payload_fits(payload@.len(), config)
                    && !config.compression.spec_should_compress(payload@.len()) ==> r is Ok)
            }),
    {
        let enable_checksum: bool = header.checksum != 0;
        let config = if enable_checksum {
            PacketConfig::new().with_checksum(ChecksumConfig::enabled())
        } else {
            PacketConfig::new()
        };
        Self::serialize_with_config(header, payload, &config)
    }

    /// Encodes a header and payload under the given configuration.
    ///
    /// On success the result is the 56 header bytes followed by the on-wire
    /// payload, and `spec_encoded` relates the final header, the payload and
    /// the wire bytes. A payload over the configured maximum (or over the
    /// 32-bit length field) fails with `PacketTooLarge`, and only zstd's own
    /// refusal fails otherwise.
    pub fn serialize_with_config(
        header: &mut UnisonPacketHeader,
        payload: &[u8],
        config: &PacketConfig,
    ) -> (r: Result<Vec<u8>, SerializationError>)
        ensures
            r matches Ok(bytes) ==> spec_encoded(
                *old(header),
                *final(header),
                payload@,
                bytes@.skip(HEADER_SIZE as int),
                *config,
            ) && bytes@ == spec_header_bytes(*final(header)) + bytes@.skip(HEADER_SIZE as int),
            r matches Err(e) ==> e matches SerializationError::PacketTooLarge { size, max_size }
                ==> !spec_payload_fits(payload@.len(), *config) && size == payload@.len()
                && max_size == config.max_payload_size,
            r is Err ==> (r matches Err(SerializationError::PacketTooLarge { .. }) || r matches Err(
                SerializationError::CompressionFailed(..),
            )),
            !spec_payload_fits(payload@.len(), *config) <==> r matches Err(
                SerializationError::PacketTooLarge { .. },
            ),
            spec_payload_fits(payload@.len(), *config)
                && !config.compression.spec_should_compress(payload@.len()) ==> r is Ok,
    {
        let payload_size: usize = payload.len();
        if payload_size > config.max_payload_size || payload_size > u32::MAX as usize {
            return Err(SerializationError::PacketTooLarge {
                size: payload_size,
                max_size: config.max_payload_size,
            });
        }
        header.payload_length = payload_size as u32;

        // Compress when the configuration asks for it and it actually helps.
        let mut wire: Vec<u8>;
        let compressed: bool;
        if config.compression.should_compress(payload_size) {
            match zstd_compress(payload, config.compression.level) {
                Ok(c) => {
                    if c.len() < payload_size {
                        header.compressed_length = c.len() as u32;
                        wire = c;
                        compressed = true;
                    } else {
                        header.compressed_length = 0;
                        wire = vstd::slice::slice_to_vec(payload);
                        compressed = false;
                    }
                },
                Err(e) => {
                    return Err(SerializationError::CompressionFailed(e));
                },
            }
        } else {
            header.compressed_length = 0;
            wire = vstd::slice::slice_to_vec(payload);
            compressed = false;
        }

        let mut flags = header.flags();
        if compressed {
            flags.set(PacketFlags::COMPRESSED);
        } else {
            flags.unset(PacketFlags::COMPRESSED);
        }

        // Checksum over the exact on-wire bytes.
        if config.checksum.enabled {
            header.checksum = crc32(wire.as_slice());
            flags.set(PacketFlags::CHECKSUM);
        } else {
            header.checksum = 0;
            flags.unset(PacketFlags::CHECKSUM);
        }
        header.set_flags(flags);

        let mut out = encode_header(header);
        let ghost wire_snapshot = wire@;
        out.append(&mut wire);
        proof {
            assert(out@.skip(HEADER_SIZE as int) =~= wire_snapshot);
            assert(out@ =~= spec_header_bytes(*header) + out@.skip(HEADER_SIZE as int));
            lemma_encode_flags(
                old(header).flags,
                final(header).flags,
                compressed,
                config.checksum.enabled,
            );
        }
        Ok(out)
    }
}

/// After clearing or setting the COMPRESSED bit to `comp` and the CHECKSUM
/// bit to `sum`, those two bits read back as asked and every other bit is
/// untouched.
proof fn lemma_encode_flags(f0: u16, f: u16, comp: bool, sum: bool)
    requires
        ({
            let f1: u16 = if comp {
                f0 | PacketFlags::COMPRESSED
            } else {
                f0 & !PacketFlags::COMPRESSED
            };
            f == if sum {
                f1 | PacketFlags::CHECKSUM
            } else {
                f1 & !PacketFlags::CHECKSUM
            }
        }),
    ensures
        spec_other_flags(f) == spec_other_flags(f0),
        spec_flag_set(f, PacketFlags::COMPRESSED) == comp,
        spec_flag_set(f, PacketFlags::CHECKSUM) == sum,
{
    assert(PacketFlags::COMPRESSED == 0x0001u16);
    assert(PacketFlags::CHECKSUM == 0x0400u16);
    if comp {
        if sum {
            assert(f == (f0 | 0x0001u16) | 0x0400u16 ==> (f & !(0x0001u16 | 0x0400u16) == f0 & !(
            0x0001u16 | 0x0400u16)) && (f & 0x0001u16 != 0) && (f & 0x0400u16 != 0))
                by (bit_vector);
        } else {
            assert(f == (f0 | 0x0001u16) & !0x0400u16 ==> (f & !(0x0001u16 | 0x0400u16) == f0 & !(
            0x0001u16 | 0x0400u16)) && (f & 0x0001u16 != 0) && (f & 0x0400u16 == 0))
                by (bit_vector);
        }
    } else {
        if sum {
            assert(f == (f0 & !0x0001u16) | 0x0400u16 ==> (f & !(0x0001u16 | 0x0400u16) == f0 & !(
            0x0001u16 | 0x0400u16)) && (f & 0x0001u16 == 0) && (f & 0x0400u16 != 0))
                by (bit_vector);
        } else {
            assert(f == (f0 & !0x0001u16) & !0x0400u16 ==> (f & !(0x0001u16 | 0x0400u16) == f0 & !(
            0x0001u16 | 0x0400u16)) && (f & 0x0001u16 == 0) && (f & 0x0400u16 == 0))
                by (bit_vector);
        }
    }
}

impl PacketConfig {
    /// The configuration `serialize` uses: the default, with the checksum
    /// written when `enabled` holds.
    pub open spec fn with_checksum_spec(self, enabled: bool) -> PacketConfig {
        PacketConfig {
            checksum: ChecksumConfig { enabled, required: false },
            ..self
        }
    }
}

/// Decodes packets. The frame and packet layers share one codec.
pub struct PacketDeserializer;

/// The frame and packet layers share one codec.
pub type FrameDeserializer = PacketDeserializer;

impl PacketDeserializer {
    /// Splits a buffer into its validated header and the on-wire payload.
    ///
    /// A buffer shorter than a header fails with `InvalidHeader`; a header
    /// with any version but the current one fails with
    /// `IncompatibleVersion` carrying that version.
    pub fn deserialize_header<'a>(bytes: &'a [u8]) -> (r: Result<
        (UnisonPacketHeader, &'a [u8]),
        SerializationError,
    >)
        ensures
            bytes@.len() < HEADER_SIZE <==> r matches Err(SerializationError::InvalidHeader),
            bytes@.len() >= HEADER_SIZE ==> {
                let h = spec_parse_header(bytes@.subrange(0, HEADER_SIZE as int));
                if h.version != crate::header::CURRENT_VERSION {
                    r matches Err(SerializationError::IncompatibleVersion { version }) && version
                        == h.version
                } else {
                    r matches Ok((header, rest)) && header == h && rest@ == bytes@.skip(
                        HEADER_SIZE as int,
                    )
                }
            },
    {
        if bytes.len() < HEADER_SIZE {
            return Err(SerializationError::InvalidHeader);
        }
        let header = decode_header_bytes(bytes);
        if !header.is_compatible() {
            return Err(SerializationError::IncompatibleVersion { version: header.version });
        }
        let rest = vstd::slice::slice_subrange(bytes, HEADER_SIZE, bytes.len());
        Ok((header, rest))
    }

    /// Recovers the payload from the on-wire payload bytes under the default
    /// configuration.
    pub fn deserialize_payload(header: &UnisonPacketHeader, payload_bytes: &[u8]) -> (r: Result<
        Vec<u8>,
        SerializationError,
    >)
        ensures
            r matches Ok(p) ==> spec_payload_matches(*header, payload_bytes@, p@),
            spec_decode_outcome(*header, payload_bytes@, r, PacketConfig::spec_default()),
    {
        let config = PacketConfig::new();
        Self::deserialize_payload_with_config(header, payload_bytes, &config)
    }

    /// Recovers the payload from the on-wire payload bytes.
    ///
    /// Length fields over the configured maximum fail with `PacketTooLarge`;
    /// a wire length that disagrees with the header fails with
    /// `InvalidHeader`; a stored checksum is always verified, and one is
    /// demanded when the configuration requires it (`ChecksumMismatch`
    /// either way); bytes that the COMPRESSED flag marks as a zstd frame but
    /// that do not decompress fail with `DecompressionFailed`. Otherwise the
    /// original payload is returned.
    pub fn deserialize_payload_with_config(
        header: &UnisonPacketHeader,
        payload_bytes: &[u8],
        config: &PacketConfig,
    ) -> (r: Result<Vec<u8>, SerializationError>)
        ensures
            r matches Ok(p) ==> spec_payload_matches(*header, payload_bytes@, p@),
            spec_decode_outcome(*header, payload_bytes@, r, *config),
    {
        // The header's length fields must fit the configuration.
        if header.payload_length as usize > config.max_payload_size || header.compressed_length
            as usize > config.max_payload_size {
            return Err(SerializationError::PacketTooLarge {
                size: if header.payload_length as usize > config.max_payload_size {
                    header.payload_length as usize
                } else {
                    header.compressed_length as usize
                },
                max_size: config.max_payload_size,
            });
        }
        // The wire length must be what the header says.
        let expected_size = header.actual_payload_size() as usize;
        if payload_bytes.len() != expected_size {
            return Err(SerializationError::InvalidHeader);
        }
        // A stored checksum is verified; a missing one is rejected when demanded.
        if header.has_checksum() {
            let calculated = crc32(payload_bytes);
            if calculated != header.checksum {
                return Err(SerializationError::ChecksumMismatch {
                    expected: header.checksum,
                    actual: calculated,
                });
            }
        } else if config.checksum.required {
            return Err(SerializationError::ChecksumMismatch { expected: 0, actual: 0 });
        }
        // Decompress when the header says the wire bytes are compressed.
        if header.is_compressed() {
            match zstd_decompress(payload_bytes) {
                Ok(p) => Ok(p),
                Err(e) => Err(SerializationError::DecompressionFailed(e)),
            }
        } else {
            Ok(vstd::slice::slice_to_vec(payload_bytes))
        }
    }
}

impl PacketDeserializer {
    /// Recovers a view of the payload without copying it when it is not
    /// compressed: the returned slice borrows from the wire bytes, or from
    /// `buffer` after decompressing into it. A stored checksum is verified
    /// first.
    pub fn deserialize_payload_zero_copy<'a>(
        header: &UnisonPacketHeader,
        payload_bytes: &'a [u8],
        buffer: &'a mut Vec<u8>,
    ) -> (r: Result<&'a [u8], SerializationError>)
        ensures
            r matches Ok(p) ==> spec_payload_matches(*header, payload_bytes@, p@),
            r matches Ok(p) ==> (!header.spec_is_compressed() ==> p@ == payload_bytes@),
            r matches Err(SerializationError::ChecksumMismatch { expected, actual }) ==> expected
                == header.checksum && actual == crc32_of(payload_bytes@) && header.checksum != 0,
            header.checksum != 0 && crc32_of(payload_bytes@) != header.checksum <==> r matches Err(
                SerializationError::ChecksumMismatch { .. },
            ),
            r is Ok <==> (header.checksum != 0 ==> crc32_of(payload_bytes@) == header.checksum) && (
            header.spec_is_compressed() ==> zstd_decoding(payload_bytes@) is Some),
            !header.spec_is_compressed() ==> final(buffer)@ == old(buffer)@,
            r is Err ==> final(buffer)@ == old(buffer)@,
            r matches Ok(p) ==> (header.spec_is_compressed() ==> final(buffer)@ == p@),
            r is Err ==> (r matches Err(SerializationError::ChecksumMismatch { .. }) || r matches
                Err(SerializationError::DecompressionFailed(..))),
    {
        if header.has_checksum() {
            let calculated = crc32(payload_bytes);
            if calculated != header.checksum {
                return Err(SerializationError::ChecksumMismatch {
                    expected: header.checksum,
                    actual: calculated,
                });
            }
        }
        if header.is_compressed() {
            match zstd_decompress(payload_bytes) {
                Ok(p) => {
                    *buffer = p;
                    Ok(buffer.as_slice())
                },
                Err(e) => Err(SerializationError::DecompressionFailed(e)),
            }
        } else {
            Ok(payload_bytes)
        }
    }
}

/// Everything decoding promises about its result: each outcome happens
/// exactly when its condition holds of the header, the wire bytes and the
/// configuration.
pub open spec fn spec_decode_outcome(
    h: UnisonPacketHeader,
    wire: Seq<u8>,
    r: Result<Vec<u8>, SerializationError>,
    config: PacketConfig,
) -> bool {
    let lengths_ok = h.payload_length <= config.max_payload_size && h.compressed_length
        <= config.max_payload_size;
    let wire_len_ok = wire.len() == h.spec_actual_payload_size();
    let checksum_ok = if h.checksum != 0 {
        crc32_of(wire) == h.checksum
    } else {
        !config.checksum.required
    };
    let checks = lengths_ok && wire_len_ok && checksum_ok;
    &&& (r matches Err(SerializationError::PacketTooLarge { .. }) <==> !lengths_ok)
    &&& (r matches Err(SerializationError::InvalidHeader) <==> lengths_ok && !wire_len_ok)
    &&& (r matches Err(SerializationError::ChecksumMismatch { .. }) <==> lengths_ok && wire_len_ok
        && !checksum_ok)
    &&& (r matches Err(SerializationError::ChecksumMismatch { expected, actual }) ==> if h.checksum
        != 0 {
        expected == h.checksum && actual == crc32_of(wire)
    } else {
        expected == 0 && actual == 0
    })
    &&& (r matches Err(SerializationError::DecompressionFailed(..)) <==> checks
        && h.spec_is_compressed() && zstd_decoding(wire) is None)
    &&& (r is Ok <==> checks && (h.spec_is_compressed() ==> zstd_decoding(wire) is Some))
    &&& (r matches Ok(p) ==> spec_payload_matches(h, wire, p@) && (!h.spec_is_compressed() ==> p@
        == wire))
}

} // verus!
