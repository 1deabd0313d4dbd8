use unison::config::{ChecksumConfig, PacketConfig};
use unison::header::{PacketType, UnisonPacketHeader};
use unison::packet::{UnisonFrame, UnisonPacket, UnisonPacketView};
use unison::payload::{BytesPayload, EmptyPayload, JsonPayload, Payloadable, StringPayload};
use unison::serialization::{PacketDeserializer, PacketSerializer, SerializationError};

#[test]
fn test_packet_creation() {
    let payload = StringPayload::from_str("Test packet");
    let packet = UnisonPacket::new(payload.clone()).unwrap();

    assert!(packet.size() > 56);

    let header = packet.header().unwrap();
    assert_eq!(header.packet_type(), PacketType::Data);

    let restored_payload = packet.payload().unwrap();
    assert_eq!(restored_payload.data, payload.data);
}

#[test]
fn test_packet_builder() {
    let payload = StringPayload::from_str("Builder test");
    let packet: UnisonFrame<StringPayload> = UnisonPacket::<StringPayload>::builder()
        .packet_type(PacketType::Control)
        .with_sequence(42)
        .with_stream_id(1337)
        .with_checksum()
        .with_high_priority()
        .build(payload)
        .unwrap();

    let header = packet.header().unwrap();
    assert_eq!(header.packet_type(), PacketType::Control);
    assert_eq!(header.sequence_number, 42);
    assert_eq!(header.stream_id, 1337);
    assert!(header.has_checksum());
    assert!(header.flags().is_high_priority());
}

#[test]
fn test_round_trip() {
    let original = StringPayload::from_str("Round trip test");
    let packet = UnisonPacket::new(original.clone()).unwrap();

    let bytes = packet.to_bytes();
    let restored_packet = UnisonPacket::<StringPayload>::from_bytes(&bytes).unwrap();
    let restored = restored_packet.payload().unwrap();

    assert_eq!(original.data, restored.data);
}

#[test]
fn test_zero_copy_view() {
    let payload = BytesPayload::new(vec![1, 2, 3, 4, 5]);
    let packet = UnisonPacket::new(payload).unwrap();
    let bytes = packet.to_bytes();

    let view = UnisonPacketView::from_bytes(&bytes).unwrap();
    assert_eq!(view.header().packet_type(), PacketType::Data);
    assert!(view.payload_size() > 0);

    let mut buffer = Vec::new();
    let raw = packet.payload_zero_copy(&mut buffer).unwrap();
    assert_eq!(raw, &[1, 2, 3, 4, 5]);
}

#[test]
fn test_large_payload_compression() {
    let large_text = "x".repeat(3000);
    let payload = StringPayload::new(large_text.clone());
    let packet = UnisonPacket::new(payload).unwrap();

    let header = packet.header().unwrap();
    assert!(header.is_compressed());
    assert!(header.compressed_length > 0);
    assert!(header.compressed_length < header.payload_length);

    let bytes = packet.to_bytes();
    let restored_packet = UnisonPacket::<StringPayload>::from_bytes(&bytes).unwrap();
    let restored = restored_packet.payload().unwrap();
    assert_eq!(restored.data, large_text);
}

#[test]
fn test_request_response_pattern() {
    let request = UnisonPacket::<StringPayload>::builder()
        .with_message_id(123)
        .build(StringPayload::from_str("request"))
        .unwrap();
    let request_header = request.header().unwrap();
    assert!(request_header.is_request());

    let response = UnisonPacket::<StringPayload>::builder()
        .with_message_id(456)
        .with_response_to(123)
        .build(StringPayload::from_str("response"))
        .unwrap();
    let response_header = response.header().unwrap();
    assert!(response_header.is_response());
    assert_eq!(response_header.response_to, 123);
}

#[test]
fn test_oneway_message() {
    let packet = UnisonPacket::<StringPayload>::builder()
        .build(StringPayload::from_str("oneway"))
        .unwrap();
    let header = packet.header().unwrap();
    assert!(header.is_oneway());
    assert!(!header.is_request());
    assert!(!header.is_response());
}

#[test]
fn test_serialize_small_packet() {
    let mut header = UnisonPacketHeader::new(PacketType::Data);
    let payload = StringPayload::from_str("Hello, World!");
    let payload_bytes = payload.to_bytes().unwrap();

    let packet = PacketSerializer::serialize(&mut header, &payload_bytes).unwrap();

    assert!(!header.is_compressed());
    assert_eq!(header.compressed_length, 0);
    assert!(packet.len() > 56);
}

#[test]
fn test_serialize_large_packet() {
    let mut header = UnisonPacketHeader::new(PacketType::Data);
    let large_text = "x".repeat(3000);
    let payload = StringPayload::new(large_text);
    let payload_bytes = payload.to_bytes().unwrap();

    let _packet = PacketSerializer::serialize(&mut header, &payload_bytes).unwrap();

    assert!(header.is_compressed());
    assert!(header.compressed_length > 0);
    assert!(header.compressed_length < header.payload_length);
}

#[test]
fn test_checksum_validation() {
    let mut header = UnisonPacketHeader::new(PacketType::Data).with_checksum(1);

    let payload = StringPayload::from_str("Test");
    let payload_bytes = payload.to_bytes().unwrap();
    let packet = PacketSerializer::serialize(&mut header, &payload_bytes).unwrap();

    let last_idx = packet.len() - 1;
    let mut modified = packet.clone();
    modified[last_idx] ^= 0xFF;

    let (header, payload_bytes) = PacketDeserializer::deserialize_header(&modified).unwrap();
    let result = PacketDeserializer::deserialize_payload(&header, payload_bytes);

    assert!(matches!(
        result,
        Err(SerializationError::ChecksumMismatch { .. })
    ));
}

#[test]
fn test_compression_effectiveness() {
    let mut header = UnisonPacketHeader::new(PacketType::Data);
    let repetitive_data = "a".repeat(3000);
    let payload = StringPayload::new(repetitive_data);
    let payload_bytes = payload.to_bytes().unwrap();

    let _packet = PacketSerializer::serialize(&mut header, &payload_bytes).unwrap();

    assert!(header.is_compressed());
    assert!(header.compressed_length < header.payload_length / 2);
}

#[test]
fn test_zero_copy_deserialization() {
    let mut header = UnisonPacketHeader::new(PacketType::Data);
    let payload = BytesPayload::new(vec![1, 2, 3, 4, 5]);
    let payload_bytes = payload.to_bytes().unwrap();

    let packet = PacketSerializer::serialize(&mut header, &payload_bytes).unwrap();
    let (restored_header, wire) = PacketDeserializer::deserialize_header(&packet).unwrap();

    let mut buffer = Vec::new();
    let raw =
        PacketDeserializer::deserialize_payload_zero_copy(&restored_header, wire, &mut buffer)
            .unwrap();

    assert_eq!(raw, &[1, 2, 3, 4, 5]);
}

#[test]
fn test_bytes_payload() {
    let data = vec![1, 2, 3, 4, 5];
    let payload = BytesPayload::new(data.clone());

    let bytes = payload.to_bytes().unwrap();
    assert!(bytes.len() > 0);

    let restored = BytesPayload::from_bytes(&bytes).unwrap();
    assert_eq!(restored.data, data);
}

#[test]
fn test_string_payload() {
    let text = "Hello, UnisonPacket!";
    let payload = StringPayload::from_str(text);

    let bytes = payload.to_bytes().unwrap();
    let restored = StringPayload::from_bytes(&bytes).unwrap();
    assert_eq!(restored.data, text);
}

#[test]
fn test_json_payload() {
    let json_value: serde_json::Value =
        serde_json::from_str(r#"{"name":"test","value":42,"nested":{"array":[1,2,3]}}"#).unwrap();

    let payload = JsonPayload::new(&json_value).unwrap();
    let bytes = payload.to_bytes().unwrap();
    let restored = JsonPayload::from_bytes(&bytes).unwrap();

    let restored_value: serde_json::Value = serde_json::from_str(restored.as_str()).unwrap();
    assert_eq!(restored_value, json_value);
}

#[test]
fn test_empty_payload() {
    let payload = EmptyPayload;
    let bytes = payload.to_bytes().unwrap();
    assert_eq!(bytes.len(), 0);

    let restored = EmptyPayload::from_bytes(&bytes).unwrap();
    assert_eq!(restored, EmptyPayload);
}

#[test]
fn test_invalid_json() {
    let result = JsonPayload::from_str("not a json");
    assert!(result.is_err());

    let result = JsonPayload::from_str(r#"{"valid": "json"}"#);
    assert!(result.is_ok());
}

#[test]
fn empty_payload_round_trips_through_packet() {
    let mut header = UnisonPacketHeader::new(PacketType::Data);
    let config = PacketConfig::new();
    let wire = PacketSerializer::serialize_with_config(&mut header, &[], &config).unwrap();
    assert_eq!(wire.len(), 56);
    let (h, rest) = PacketDeserializer::deserialize_header(&wire).unwrap();
    let payload = PacketDeserializer::deserialize_payload_with_config(&h, rest, &config).unwrap();
    assert!(payload.is_empty());
}

#[test]
fn payload_at_size_limit_encodes_and_one_more_fails() {
    // A tiny limit stands in for the 16 MiB default; the rule is the same.
    let config = PacketConfig::new().with_max_payload_size(100);

    let mut header = UnisonPacketHeader::new(PacketType::Data);
    let exactly = vec![7u8; 100];
    assert!(PacketSerializer::serialize_with_config(&mut header, &exactly, &config).is_ok());

    let mut header = UnisonPacketHeader::new(PacketType::Data);
    let one_more = vec![7u8; 101];
    let result = PacketSerializer::serialize_with_config(&mut header, &one_more, &config);
    assert!(matches!(
        result,
        Err(SerializationError::PacketTooLarge { size: 101, max_size: 100 })
    ));
}

#[test]
fn payload_below_threshold_is_never_compressed() {
    let config = PacketConfig::new();
    let mut header = UnisonPacketHeader::new(PacketType::Data);
    let data = vec![b'a'; 2047];
    PacketSerializer::serialize_with_config(&mut header, &data, &config).unwrap();
    assert!(!header.is_compressed());
    assert_eq!(header.compressed_length, 0);

    let mut header = UnisonPacketHeader::new(PacketType::Data);
    let data = vec![b'a'; 2048];
    PacketSerializer::serialize_with_config(&mut header, &data, &config).unwrap();
    // 2048 repeated bytes shrink under zstd, so the threshold case compresses.
    assert!(header.is_compressed());
}

#[test]
fn incompatible_version_is_refused() {
    let mut header = UnisonPacketHeader::new(PacketType::Data);
    let wire = PacketSerializer::serialize(&mut header, b"hello").unwrap();
    let mut tampered = wire.clone();
    tampered[0] = 2;
    let result = PacketDeserializer::deserialize_header(&tampered);
    assert!(matches!(
        result,
        Err(SerializationError::IncompatibleVersion { version: 2 })
    ));
}

#[test]
fn short_buffer_is_an_invalid_header() {
    let result = PacketDeserializer::deserialize_header(&[0u8; 10]);
    assert!(matches!(result, Err(SerializationError::InvalidHeader)));
}

#[test]
fn wire_length_mismatch_is_an_invalid_header() {
    let mut header = UnisonPacketHeader::new(PacketType::Data);
    let wire = PacketSerializer::serialize(&mut header, b"hello").unwrap();
    let (h, rest) = PacketDeserializer::deserialize_header(&wire).unwrap();
    let truncated = &rest[..rest.len() - 1];
    let result = PacketDeserializer::deserialize_payload(&h, truncated);
    assert!(matches!(result, Err(SerializationError::InvalidHeader)));
}

#[test]
fn checksum_round_trip_with_required_config() {
    let config = PacketConfig::new().with_checksum(ChecksumConfig::required());
    let mut header = UnisonPacketHeader::new(PacketType::Data);
    let data = b"integrity matters".to_vec();
    let wire = PacketSerializer::serialize_with_config(&mut header, &data, &config).unwrap();
    let (h, rest) = PacketDeserializer::deserialize_header(&wire).unwrap();
    assert!(h.has_checksum());
    assert!(h.flags().has_checksum());
    let payload = PacketDeserializer::deserialize_payload_with_config(&h, rest, &config).unwrap();
    assert_eq!(payload, data);
}

#[test]
fn missing_checksum_is_refused_when_required() {
    let plain = PacketConfig::new();
    let strict = PacketConfig::new().with_checksum(ChecksumConfig::required());
    let mut header = UnisonPacketHeader::new(PacketType::Data);
    let wire = PacketSerializer::serialize_with_config(&mut header, b"data", &plain).unwrap();
    let (h, rest) = PacketDeserializer::deserialize_header(&wire).unwrap();
    let result = PacketDeserializer::deserialize_payload_with_config(&h, rest, &strict);
    assert!(matches!(
        result,
        Err(SerializationError::ChecksumMismatch { expected: 0, actual: 0 })
    ));
}

#[test]
fn garbage_marked_compressed_fails_decompression() {
    let mut header = UnisonPacketHeader::new(PacketType::Data);
    header.payload_length = 100;
    header.compressed_length = 4;
    let mut flags = unison::flags::PacketFlags::new();
    flags.set(unison::flags::PacketFlags::COMPRESSED);
    header.set_flags(flags);

    let not_a_zstd_frame = [1u8, 2, 3, 4];
    let result = PacketDeserializer::deserialize_payload(&header, &not_a_zstd_frame);
    assert!(matches!(
        result,
        Err(SerializationError::DecompressionFailed(_))
    ));
}

#[test]
fn oversized_length_fields_are_rejected_on_decode() {
    let config = PacketConfig::new().with_max_payload_size(10);
    let mut header = UnisonPacketHeader::new(PacketType::Data);
    header.payload_length = 1000;
    let result =
        PacketDeserializer::deserialize_payload_with_config(&header, &[0u8; 10], &config);
    assert!(matches!(
        result,
        Err(SerializationError::PacketTooLarge { .. })
    ));
}
