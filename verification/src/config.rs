//! Immutable configuration for the packet codec: compression, checksum,
//! and the maximum payload size.
use vstd::prelude::*;

verus! {

/// The default compression threshold, in bytes.
pub const DEFAULT_COMPRESSION_THRESHOLD: usize = 2048;

/// The default zstd compression level.
pub const DEFAULT_COMPRESSION_LEVEL: i32 = 1;

/// The default maximum payload size: 16 MiB.
pub const DEFAULT_MAX_PAYLOAD_SIZE: usize = 16 * 1024 * 1024;

/// When and how hard to compress payloads.
#[derive(Debug, Clone, Copy, PartialEq, Eq, Structural)]
pub struct CompressionConfig {
    /// Smallest payload size, in bytes, that is considered for compression.
    pub threshold: usize,
    /// zstd compression level, kept within 1 to 22.
    pub level: i32,
    /// Whether compression is considered at all.
    pub enabled: bool,
}

impl CompressionConfig {
    /// The default configuration: enabled, 2 KiB threshold, level 1.
    pub fn new() -> (r: Self)
        ensures
            r == CompressionConfig::spec_default(),
    {
        CompressionConfig {
            threshold: DEFAULT_COMPRESSION_THRESHOLD,
            level: DEFAULT_COMPRESSION_LEVEL,
            enabled: true,
        }
    }

    /// An enabled configuration with the given threshold and the level
    /// clamped into 1 to 22.
    pub fn custom(threshold: usize, level: i32) -> (r: Self)
        ensures
            r.threshold == threshold,
            r.level == spec_clamp_level(level),
            r.enabled,
    {
        let clamped: i32 = if level < 1 {
            1
        } else if level > 22 {
            22
        } else {
            level
        };
        CompressionConfig { threshold, level: clamped, enabled: true }
    }

    /// Compression switched off.
    pub fn disabled() -> (r: Self)
        ensures
            !r.enabled,
            r.level == 1,
            r.threshold == usize::MAX,
    {
        CompressionConfig { threshold: usize::MAX, level: 1, enabled: false }
    }

    /// Fast compression: level 1 above 2 KiB.
    pub fn fast() -> (r: Self)
        ensures
            r == (CompressionConfig { threshold: 2048 as usize, level: 1 as i32, enabled: true }),
    {
        CompressionConfig { threshold: 2048, level: 1, enabled: true }
    }

    /// Balanced compression: level 3 above 4 KiB.
    pub fn balanced() -> (r: Self)
        ensures
            r == (CompressionConfig { threshold: 4096 as usize, level: 3 as i32, enabled: true }),
    {
        CompressionConfig { threshold: 4096, level: 3, enabled: true }
    }

    /// High compression: level 9 above 1 KiB.
    pub fn high_compression() -> (r: Self)
        ensures
            r == (CompressionConfig { threshold: 1024 as usize, level: 9 as i32, enabled: true }),
    {
        CompressionConfig { threshold: 1024, level: 9, enabled: true }
    }

    /// True when a payload of `payload_size` bytes is considered for
    /// compression: enabled and at least the threshold.
    pub fn should_compress(&self, payload_size: usize) -> (r: bool)
        ensures
            r == self.spec_should_compress(payload_size as nat),
    {
        self.enabled && payload_size >= self.threshold
    }

    /// See `should_compress`.
    pub open spec fn spec_should_compress(self, payload_size: nat) -> bool {
        self.enabled && payload_size >= self.threshold
    }

    /// See `new`.
    pub open spec fn spec_default() -> Self {
        CompressionConfig {
            threshold: DEFAULT_COMPRESSION_THRESHOLD,
            level: DEFAULT_COMPRESSION_LEVEL,
            enabled: true,
        }
    }
}

/// The level `CompressionConfig::custom` stores for a requested level.
pub open spec fn spec_clamp_level(level: i32) -> i32 {
    if level < 1 {
        1
    } else if level > 22 {
        22
    } else {
        level
    }
}

impl Default for CompressionConfig {
    /// The default configuration: enabled, 2 KiB threshold, level 1.
    fn default() -> (r: Self)
        ensures
            r == CompressionConfig::spec_default(),
    {
        CompressionConfig::new()
    }
}

/// Whether checksums are written and whether they are demanded on decode.
#[derive(Debug, Clone, Copy, PartialEq, Eq, Structural, Default)]
pub struct ChecksumConfig {
    /// Whether the encoder computes a checksum.
    pub enabled: bool,
    /// Whether the decoder rejects packets that carry no checksum.
    pub required: bool,
}

impl ChecksumConfig {
    /// The default configuration: checksums off.
    pub fn new() -> (r: Self)
        ensures
            !r.enabled,
            !r.required,
    {
        ChecksumConfig { enabled: false, required: false }
    }

    /// Checksums written but not demanded.
    pub fn enabled() -> (r: Self)
        ensures
            r.enabled,
            !r.required,
    {
        ChecksumConfig { enabled: true, required: false }
    }

    /// Checksums written and demanded on decode.
    pub fn required() -> (r: Self)
        ensures
            r.enabled,
            r.required,
    {
        ChecksumConfig { enabled: true, required: true }
    }

    /// Checksums off.
    pub fn disabled() -> (r: Self)
        ensures
            !r.enabled,
            !r.required,
    {
        ChecksumConfig { enabled: false, required: false }
    }
}

/// The codec configuration: compression, checksum, size limit, version.
#[derive(Debug, Clone, Copy, PartialEq, Eq, Structural)]
pub struct PacketConfig {
    /// Compression settings.
    pub compression: CompressionConfig,
    /// Checksum settings.
    pub checksum: ChecksumConfig,
    /// Largest accepted payload, in bytes.
    pub max_payload_size: usize,
    /// Protocol version written into headers.
    pub version: u8,
}

/// The frame and packet layers share one configuration shape.
pub type FrameConfig = PacketConfig;

impl PacketConfig {
    /// The default configuration: default compression, checksums off, 16 MiB.
    pub fn new() -> (r: Self)
        ensures
            r == PacketConfig::spec_default(),
    {
        PacketConfig {
            compression: CompressionConfig::new(),
            checksum: ChecksumConfig::new(),
            max_payload_size: DEFAULT_MAX_PAYLOAD_SIZE,
            version: 1,
        }
    }

    /// Returns the configuration with the compression settings replaced.
    pub fn with_compression(self, config: CompressionConfig) -> (r: Self)
        ensures
            r == (PacketConfig { compression: config, ..self }),
    {
        PacketConfig { compression: config, ..self }
    }

    /// Returns the configuration with the checksum settings replaced.
    pub fn with_checksum(self, config: ChecksumConfig) -> (r: Self)
        ensures
            r == (PacketConfig { checksum: config, ..self }),
    {
        PacketConfig { checksum: config, ..self }
    }

    /// Returns the configuration with the size limit replaced.
    pub fn with_max_payload_size(self, size: usize) -> (r: Self)
        ensures
            r == (PacketConfig { max_payload_size: size, ..self }),
    {
        PacketConfig { max_payload_size: size, ..self }
    }

    /// No compression, no checksums, 16 MiB limit.
    pub fn high_performance() -> (r: Self)
        ensures
            !r.compression.enabled,
            !r.checksum.enabled,
            r.max_payload_size == DEFAULT_MAX_PAYLOAD_SIZE,
            r.version == 1,
    {
        PacketConfig {
            compression: CompressionConfig::disabled(),
            checksum: ChecksumConfig::disabled(),
            max_payload_size: DEFAULT_MAX_PAYLOAD_SIZE,
            version: 1,
        }
    }

    /// Balanced compression, checksums demanded, 16 MiB limit.
    pub fn high_reliability() -> (r: Self)
        ensures
            r.compression == (CompressionConfig { threshold: 4096 as usize, level: 3 as i32, enabled: true }),
            r.checksum.enabled,
            r.checksum.required,
            r.max_payload_size == DEFAULT_MAX_PAYLOAD_SIZE,
            r.version == 1,
    {
        PacketConfig {
            compression: CompressionConfig::balanced(),
            checksum: ChecksumConfig::required(),
            max_payload_size: DEFAULT_MAX_PAYLOAD_SIZE,
            version: 1,
        }
    }

    /// Balanced compression, checksums off, 16 MiB limit.
    pub fn balanced() -> (r: Self)
        ensures
            r.compression == (CompressionConfig { threshold: 4096 as usize, level: 3 as i32, enabled: true }),
            !r.checksum.enabled,
            r.max_payload_size == DEFAULT_MAX_PAYLOAD_SIZE,
            r.version == 1,
    {
        PacketConfig {
            compression: CompressionConfig::balanced(),
            checksum: ChecksumConfig::disabled(),
            max_payload_size: DEFAULT_MAX_PAYLOAD_SIZE,
            version: 1,
        }
    }

    /// High compression, checksums written, 4 MiB limit.
    pub fn low_bandwidth() -> (r: Self)
        ensures
            r.compression == (CompressionConfig { threshold: 1024 as usize, level: 9 as i32, enabled: true }),
            r.checksum.enabled,
            !r.checksum.required,
            r.max_payload_size == 4 * 1024 * 1024,
            r.version == 1,
    {
        PacketConfig {
            compression: CompressionConfig::high_compression(),
            checksum: ChecksumConfig::enabled(),
            max_payload_size: 4 * 1024 * 1024,
            version: 1,
        }
    }

    /// See `new`.
    pub open spec fn spec_default() -> Self {
        PacketConfig {
            compression: CompressionConfig::spec_default(),
            checksum: ChecksumConfig { enabled: false, required: false },
            max_payload_size: DEFAULT_MAX_PAYLOAD_SIZE,
            version: 1,
        }
    }
}

impl Default for PacketConfig {
    /// The default configuration: default compression, checksums off, 16 MiB.
    fn default() -> (r: Self)
        ensures
            r == PacketConfig::spec_default(),
    {
        PacketConfig::new()
    }
}

} // verus!
