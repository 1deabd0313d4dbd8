use unison::config::{ChecksumConfig, CompressionConfig, FrameConfig, PacketConfig};
use unison::flags::{FrameFlags, PacketFlags};

#[test]
fn test_flag_operations() {
    let mut flags = PacketFlags::new();
    assert_eq!(flags.bits(), 0);

    flags.set(PacketFlags::COMPRESSED);
    assert!(flags.is_compressed());
    assert!(!flags.is_encrypted());

    flags.set(PacketFlags::PRIORITY_HIGH | PacketFlags::REQUIRES_ACK);
    assert!(flags.is_compressed());
    assert!(flags.is_high_priority());
    assert!(flags.requires_ack());

    flags.unset(PacketFlags::COMPRESSED);
    assert!(!flags.is_compressed());
    assert!(flags.is_high_priority());

    flags.clear();
    assert_eq!(flags.bits(), 0);
}

#[test]
fn flags_test_flag_operations() {
    let mut flags = FrameFlags::new();
    assert_eq!(flags.bits(), 0);

    flags.set(FrameFlags::COMPRESSED);
    assert!(flags.is_compressed());
    assert!(!flags.is_encrypted());

    flags.set(FrameFlags::PRIORITY_HIGH | FrameFlags::REQUIRES_ACK);
    assert!(flags.is_compressed());
    assert!(flags.is_high_priority());
    assert!(flags.requires_ack());

    flags.unset(FrameFlags::COMPRESSED);
    assert!(!flags.is_compressed());
    assert!(flags.is_high_priority());

    flags.clear();
    assert_eq!(flags.bits(), 0);
}

#[test]
fn test_contains_methods() {
    let mut flags = PacketFlags::new();
    flags.set(PacketFlags::COMPRESSED | PacketFlags::PRIORITY_HIGH);

    assert!(flags.contains(PacketFlags::COMPRESSED));
    assert!(!flags.contains(PacketFlags::ENCRYPTED));

    assert!(flags.contains_all(PacketFlags::COMPRESSED | PacketFlags::PRIORITY_HIGH));
    assert!(!flags.contains_all(PacketFlags::COMPRESSED | PacketFlags::ENCRYPTED));
    assert!(flags.contains_any(PacketFlags::COMPRESSED | PacketFlags::ENCRYPTED));
    assert!(!flags.contains_any(PacketFlags::ENCRYPTED | PacketFlags::FRAGMENTED));
}

#[test]
fn flags_test_contains_methods() {
    let mut flags = FrameFlags::new();
    flags.set(FrameFlags::COMPRESSED | FrameFlags::PRIORITY_HIGH);

    assert!(flags.contains(FrameFlags::COMPRESSED));
    assert!(!flags.contains(FrameFlags::ENCRYPTED));

    assert!(flags.contains_all(FrameFlags::COMPRESSED | FrameFlags::PRIORITY_HIGH));
    assert!(!flags.contains_all(FrameFlags::COMPRESSED | FrameFlags::ENCRYPTED));
    assert!(flags.contains_any(FrameFlags::COMPRESSED | FrameFlags::ENCRYPTED));
    assert!(!flags.contains_any(FrameFlags::ENCRYPTED | FrameFlags::FRAGMENTED));
}

#[test]
fn test_display() {
    let mut flags = PacketFlags::new();
    assert_eq!(flags.describe(), "PacketFlags(NONE)");

    flags.set(PacketFlags::COMPRESSED | PacketFlags::PRIORITY_HIGH);
    let display = flags.describe();
    assert!(display.contains("COMPRESSED"));
    assert!(display.contains("PRIORITY_HIGH"));
}

#[test]
fn flags_test_display() {
    let mut flags = FrameFlags::new();
    assert_eq!(flags.describe(), "PacketFlags(NONE)");

    flags.set(FrameFlags::COMPRESSED | FrameFlags::PRIORITY_HIGH);
    let display = flags.describe();
    assert!(display.contains("COMPRESSED"));
    assert!(display.contains("PRIORITY_HIGH"));
}

#[test]
fn test_compression_config_default() {
    let config = CompressionConfig::default();
    assert_eq!(config.threshold, 2048);
    assert_eq!(config.level, 1);
    assert!(config.enabled);
}

#[test]
fn config_test_compression_config_default() {
    let config = CompressionConfig::new();
    assert_eq!(config.threshold, 2048);
    assert_eq!(config.level, 1);
    assert!(config.enabled);
}

#[test]
fn test_compression_config_presets() {
    let fast = CompressionConfig::fast();
    assert_eq!(fast.level, 1);
    assert_eq!(fast.threshold, 2048);

    let balanced = CompressionConfig::balanced();
    assert_eq!(balanced.level, 3);
    assert_eq!(balanced.threshold, 4096);

    let high = CompressionConfig::high_compression();
    assert_eq!(high.level, 9);
    assert_eq!(high.threshold, 1024);
}

#[test]
fn config_test_compression_config_presets() {
    let fast = CompressionConfig::fast();
    assert_eq!(fast.level, 1);

    let balanced = CompressionConfig::balanced();
    assert_eq!(balanced.threshold, 4096);

    let high = CompressionConfig::high_compression();
    assert_eq!(high.threshold, 1024);
}

#[test]
fn test_should_compress() {
    let config = CompressionConfig::default();

    assert!(!config.should_compress(1024));
    assert!(config.should_compress(2048));
    assert!(config.should_compress(4096));

    let disabled = CompressionConfig::disabled();
    assert!(!disabled.should_compress(10000));
}

#[test]
fn config_test_should_compress() {
    let config = CompressionConfig::new();
    assert!(!config.should_compress(2047));
    assert!(config.should_compress(2048));
}

#[test]
fn test_compression_level_clamp() {
    let config = CompressionConfig::custom(1024, 100);
    assert_eq!(config.level, 22);

    let config = CompressionConfig::custom(1024, -5);
    assert_eq!(config.level, 1);
}

#[test]
fn config_test_compression_level_clamp() {
    let config = CompressionConfig::custom(512, 30);
    assert_eq!(config.level, 22);
    assert_eq!(config.threshold, 512);
    assert!(config.enabled);
}

#[test]
fn test_checksum_config() {
    let disabled = ChecksumConfig::disabled();
    assert!(!disabled.enabled);
    assert!(!disabled.required);

    let enabled = ChecksumConfig::enabled();
    assert!(enabled.enabled);
    assert!(!enabled.required);

    let required = ChecksumConfig::required();
    assert!(required.enabled);
    assert!(required.required);
}

#[test]
fn test_packet_config_presets() {
    let perf = FrameConfig::high_performance();
    assert!(!perf.compression.enabled);
    assert!(!perf.checksum.enabled);

    let reliable = FrameConfig::high_reliability();
    assert!(reliable.compression.enabled);
    assert!(reliable.checksum.required);

    let low_bw = FrameConfig::low_bandwidth();
    assert_eq!(low_bw.compression.level, 9);
    assert!(low_bw.checksum.enabled);
}

#[test]
fn config_test_packet_config_presets() {
    let perf = PacketConfig::high_performance();
    assert!(!perf.compression.enabled);

    let balanced = PacketConfig::balanced();
    assert!(balanced.compression.enabled);

    let low_bw = PacketConfig::low_bandwidth();
    assert_eq!(low_bw.compression.level, 9);
}

#[test]
fn test_packet_config_builder() {
    let config = FrameConfig::new()
        .with_compression(CompressionConfig::fast())
        .with_checksum(ChecksumConfig::required())
        .with_max_payload_size(1024 * 1024);

    assert_eq!(config.compression.level, 1);
    assert!(config.checksum.required);
    assert_eq!(config.max_payload_size, 1024 * 1024);
}

#[test]
fn config_test_packet_config_builder() {
    let config = PacketConfig::new()
        .with_compression(CompressionConfig::fast())
        .with_max_payload_size(1024 * 1024);

    assert_eq!(config.compression.level, 1);
    assert_eq!(config.max_payload_size, 1024 * 1024);
}
