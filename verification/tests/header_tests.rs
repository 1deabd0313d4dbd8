use unison::flags::{FrameFlags, PacketFlags};
use unison::header::{CURRENT_VERSION, FrameType, PacketType, UnisonFrameHeader, UnisonPacketHeader};
use unison::wire::{HEADER_SIZE, decode_header_bytes, encode_header};

#[test]
fn test_header_creation() {
    let header = UnisonPacketHeader::new(PacketType::Data);
    assert_eq!(header.version, CURRENT_VERSION);
    assert_eq!(header.packet_type(), PacketType::Data);
    assert_eq!(header.payload_length, 0);
    assert_eq!(header.compressed_length, 0);
    assert!(!header.is_compressed());
    assert!(!header.has_checksum());
}

#[test]
fn header_test_header_creation() {
    let header = UnisonFrameHeader::new(FrameType::Control);
    assert_eq!(header.version, CURRENT_VERSION);
    assert_eq!(header.packet_type(), FrameType::Control);
    assert_eq!(header.payload_length, 0);
    assert_eq!(header.compressed_length, 0);
    assert!(!header.is_compressed());
    assert!(!header.has_checksum());
}

#[test]
fn test_packet_type_conversion() {
    assert_eq!(u8::from(PacketType::Data), 0x00);
    assert_eq!(u8::from(PacketType::Control), 0x01);
    assert_eq!(u8::from(PacketType::Heartbeat), 0x02);
    assert_eq!(u8::from(PacketType::Handshake), 0x03);
    assert_eq!(u8::from(PacketType::Custom(0xFF)), 0xFF);

    assert_eq!(PacketType::from(0x00), PacketType::Data);
    assert_eq!(PacketType::from(0x01), PacketType::Control);
    assert_eq!(PacketType::from(0x02), PacketType::Heartbeat);
    assert_eq!(PacketType::from(0x03), PacketType::Handshake);
    assert_eq!(PacketType::from(0xFF), PacketType::Custom(0xFF));
}

#[test]
fn header_test_packet_type_conversion() {
    assert_eq!(u8::from(FrameType::Data), 0x00);
    assert_eq!(u8::from(FrameType::Control), 0x01);
    assert_eq!(u8::from(FrameType::Heartbeat), 0x02);
    assert_eq!(u8::from(FrameType::Handshake), 0x03);
    assert_eq!(u8::from(FrameType::Custom(0xFF)), 0xFF);

    assert_eq!(FrameType::from(0x00), FrameType::Data);
    assert_eq!(FrameType::from(0x01), FrameType::Control);
    assert_eq!(FrameType::from(0x02), FrameType::Heartbeat);
    assert_eq!(FrameType::from(0x03), FrameType::Handshake);
    assert_eq!(FrameType::from(0xFF), FrameType::Custom(0xFF));
}

#[test]
fn test_flags_integration() {
    let mut header = UnisonPacketHeader::new(PacketType::Data);
    let mut flags = PacketFlags::new();
    flags.set(PacketFlags::COMPRESSED | PacketFlags::PRIORITY_HIGH);

    header.set_flags(flags);
    assert_eq!(header.flags().bits(), flags.bits());
    assert!(header.flags().is_compressed());
    assert!(header.flags().is_high_priority());
}

#[test]
fn header_test_flags_integration() {
    let mut header = UnisonFrameHeader::new(FrameType::Data);
    let mut flags = FrameFlags::new();
    flags.set(FrameFlags::COMPRESSED | FrameFlags::PRIORITY_HIGH);

    header.set_flags(flags);
    assert_eq!(header.flags().bits(), flags.bits());
    assert!(header.flags().is_compressed());
    assert!(header.flags().is_high_priority());
}

#[test]
fn test_builder_pattern() {
    let header = UnisonPacketHeader::new(PacketType::Control)
        .with_sequence(42)
        .with_stream_id(1337)
        .with_checksum(0xDEADBEEF);

    assert_eq!(header.sequence_number, 42);
    assert_eq!(header.stream_id, 1337);
    assert_eq!(header.checksum, 0xDEADBEEF);
    assert!(header.has_checksum());
}

#[test]
fn header_test_builder_pattern() {
    let header = UnisonFrameHeader::new(FrameType::Control)
        .with_sequence(42)
        .with_stream_id(1337);

    assert_eq!(header.sequence_number, 42);
    assert_eq!(header.stream_id, 1337);
}

#[test]
fn test_actual_payload_size() {
    let mut header = UnisonPacketHeader::new(PacketType::Data);
    header.payload_length = 1000;
    assert_eq!(header.actual_payload_size(), 1000);

    header.compressed_length = 500;
    let mut flags = PacketFlags::new();
    flags.set(PacketFlags::COMPRESSED);
    header.set_flags(flags);
    assert_eq!(header.actual_payload_size(), 500);
}

#[test]
fn header_test_actual_payload_size() {
    let mut header = UnisonFrameHeader::new(FrameType::Data);
    header.payload_length = 1000;
    assert_eq!(header.actual_payload_size(), 1000);

    header.compressed_length = 500;
    assert_eq!(header.actual_payload_size(), 500);
}

#[test]
fn test_header_size() {
    // The unified header carries both the checksum and the correlation pair;
    // on the wire and in memory it is exactly 56 bytes.
    let header_size = std::mem::size_of::<UnisonPacketHeader>();
    assert_eq!(header_size, 56, "Header size should be exactly 56 bytes");
    assert_eq!(HEADER_SIZE, 56);
}

#[test]
fn header_test_header_size() {
    let header = UnisonFrameHeader::new(FrameType::Data);
    let bytes = encode_header(&header);
    assert_eq!(bytes.len(), HEADER_SIZE);
}

#[test]
fn test_message_type_request() {
    let header = UnisonPacketHeader::new(PacketType::Data)
        .with_message_id(123)
        .with_response_to(0);

    assert!(header.is_request());
    assert!(!header.is_response());
    assert!(!header.is_oneway());
}

#[test]
fn test_message_type_response() {
    let header = UnisonPacketHeader::new(PacketType::Data)
        .with_message_id(456)
        .with_response_to(123);

    assert!(!header.is_request());
    assert!(header.is_response());
    assert!(!header.is_oneway());
    assert_eq!(header.response_to, 123);
}

#[test]
fn test_message_type_oneway() {
    let header = UnisonPacketHeader::new(PacketType::Data)
        .with_message_id(0)
        .with_response_to(0);

    assert!(!header.is_request());
    assert!(!header.is_response());
    assert!(header.is_oneway());
}

#[test]
fn header_wire_round_trip_all_fields() {
    let mut header = UnisonPacketHeader::new(PacketType::Custom(0x7E))
        .with_sequence(7)
        .with_stream_id(99)
        .with_message_id(1234567890123)
        .with_response_to(42)
        .with_checksum(0xCAFEBABE);
    header.payload_length = 11;
    header.compressed_length = 5;
    header.flags = 0x0411;

    let bytes = encode_header(&header);
    assert_eq!(bytes.len(), 56);
    let back = decode_header_bytes(&bytes);
    assert_eq!(back, header);
}
