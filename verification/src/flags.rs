//! Bit flags carried in the packet header.
//!
//! Each flag is one bit of a `u16`. The header stores the raw bits; this
//! type wraps them with named accessors.
use vstd::prelude::*;

verus! {

/// A bit field of packet flags stored as a raw `u16`.
#[derive(Debug, Clone, Copy, PartialEq, Eq, Structural)]
pub struct PacketFlags(pub u16);

/// The frame and packet layers share one flag layout.
pub type FrameFlags = PacketFlags;

impl PacketFlags {
    /// The payload on the wire is zstd-compressed.
    pub const COMPRESSED: u16 = 0x0001;

    /// The payload is encrypted (reserved).
    pub const ENCRYPTED: u16 = 0x0002;

    /// Part of a fragmented packet (reserved).
    pub const FRAGMENTED: u16 = 0x0004;

    /// Last part of a fragmented packet (reserved).
    pub const LAST_FRAGMENT: u16 = 0x0008;

    /// High-priority packet.
    pub const PRIORITY_HIGH: u16 = 0x0010;

    /// The sender asks for an acknowledgement.
    pub const REQUIRES_ACK: u16 = 0x0020;

    /// This packet is an acknowledgement.
    pub const IS_ACK: u16 = 0x0040;

    /// Keepalive packet.
    pub const KEEPALIVE: u16 = 0x0080;

    /// The payload carries error information.
    pub const ERROR: u16 = 0x0100;

    /// The payload carries metadata.
    pub const METADATA: u16 = 0x0200;

    /// The header checksum field holds a CRC32 over the on-wire payload.
    pub const CHECKSUM: u16 = 0x0400;

    /// An empty flag set.
    pub fn new() -> (r: Self)
        ensures
            r.0 == 0,
    {
        PacketFlags(0)
    }

    /// Wraps raw bits.
    pub fn from_bits(bits: u16) -> (r: Self)
        ensures
            r.0 == bits,
    {
        PacketFlags(bits)
    }

    /// The raw bits.
    pub fn bits(&self) -> (r: u16)
        ensures
            r == self.0,
    {
        self.0
    }

    /// Sets every bit that is set in `flag`.
    pub fn set(&mut self, flag: u16)
        ensures
            final(self).0 == (old(self).0 | flag),
    {
        self.0 = self.0 | flag;
    }

    /// Clears every bit that is set in `flag`.
    pub fn unset(&mut self, flag: u16)
        ensures
            final(self).0 == (old(self).0 & !flag),
    {
        self.0 = self.0 & !flag;
    }

    /// Toggles every bit that is set in `flag`.
    pub fn toggle(&mut self, flag: u16)
        ensures
            final(self).0 == (old(self).0 ^ flag),
    {
        self.0 = self.0 ^ flag;
    }

    /// True when at least one bit of `flag` is set.
    pub fn contains(&self, flag: u16) -> (r: bool)
        ensures
            r == ((self.0 & flag) != 0),
    {
        self.0 & flag != 0
    }

    /// True when every bit of `flags` is set.
    pub fn contains_all(&self, flags: u16) -> (r: bool)
        ensures
            r == ((self.0 & flags) == flags),
    {
        self.0 & flags == flags
    }

    /// True when at least one bit of `flags` is set.
    pub fn contains_any(&self, flags: u16) -> (r: bool)
        ensures
            r == ((self.0 & flags) != 0),
    {
        self.0 & flags != 0
    }

    /// Clears all flags.
    pub fn clear(&mut self)
        ensures
            final(self).0 == 0,
    {
        self.0 = 0;
    }

    /// True when the COMPRESSED flag is set.
    pub fn is_compressed(&self) -> (r: bool)
        ensures
            r == spec_flag_set(self.0, Self::COMPRESSED),
    {
        self.contains(Self::COMPRESSED)
    }

    /// True when the ENCRYPTED flag is set.
    pub fn is_encrypted(&self) -> (r: bool)
        ensures
            r == spec_flag_set(self.0, Self::ENCRYPTED),
    {
        self.contains(Self::ENCRYPTED)
    }

    /// True when the FRAGMENTED flag is set.
    pub fn is_fragmented(&self) -> (r: bool)
        ensures
            r == spec_flag_set(self.0, Self::FRAGMENTED),
    {
        self.contains(Self::FRAGMENTED)
    }

    /// True when the LAST_FRAGMENT flag is set.
    pub fn is_last_fragment(&self) -> (r: bool)
        ensures
            r == spec_flag_set(self.0, Self::LAST_FRAGMENT),
    {
        self.contains(Self::LAST_FRAGMENT)
    }

    /// True when the PRIORITY_HIGH flag is set.
    pub fn is_high_priority(&self) -> (r: bool)
        ensures
            r == spec_flag_set(self.0, Self::PRIORITY_HIGH),
    {
        self.contains(Self::PRIORITY_HIGH)
    }

    /// True when the REQUIRES_ACK flag is set.
    pub fn requires_ack(&self) -> (r: bool)
        ensures
            r == spec_flag_set(self.0, Self::REQUIRES_ACK),
    {
        self.contains(Self::REQUIRES_ACK)
    }

    /// True when the IS_ACK flag is set.
    pub fn is_ack(&self) -> (r: bool)
        ensures
            r == spec_flag_set(self.0, Self::IS_ACK),
    {
        self.contains(Self::IS_ACK)
    }

    /// True when the KEEPALIVE flag is set.
    pub fn is_keepalive(&self) -> (r: bool)
        ensures
            r == spec_flag_set(self.0, Self::KEEPALIVE),
    {
        self.contains(Self::KEEPALIVE)
    }

    /// True when the ERROR flag is set.
    pub fn is_error(&self) -> (r: bool)
        ensures
            r == spec_flag_set(self.0, Self::ERROR),
    {
        self.contains(Self::ERROR)
    }

    /// True when the METADATA flag is set.
    pub fn has_metadata(&self) -> (r: bool)
        ensures
            r == spec_flag_set(self.0, Self::METADATA),
    {
        self.contains(Self::METADATA)
    }

    /// True when the CHECKSUM flag is set.
    pub fn has_checksum(&self) -> (r: bool)
        ensures
            r == spec_flag_set(self.0, Self::CHECKSUM),
    {
        self.contains(Self::CHECKSUM)
    }

    /// A readable listing of the set flags, such as `PacketFlags(COMPRESSED | PRIORITY_HIGH)`.
    pub fn describe(&self) -> String {
        let mut names: String = String::new();
        let mut any: bool = false;
        if self.is_compressed() {
            push_name(&mut names, &mut any, "COMPRESSED");
        }
        if self.is_encrypted() {
            push_name(&mut names, &mut any, "ENCRYPTED");
        }
        if self.is_fragmented() {
            push_name(&mut names, &mut any, "FRAGMENTED");
        }
        if self.is_last_fragment() {
            push_name(&mut names, &mut any, "LAST_FRAGMENT");
        }
        if self.is_high_priority() {
            push_name(&mut names, &mut any, "PRIORITY_HIGH");
        }
        if self.requires_ack() {
            push_name(&mut names, &mut any, "REQUIRES_ACK");
        }
        if self.is_ack() {
            push_name(&mut names, &mut any, "IS_ACK");
        }
        if self.is_keepalive() {
            push_name(&mut names, &mut any, "KEEPALIVE");
        }
        if self.is_error() {
            push_name(&mut names, &mut any, "ERROR");
        }
        if self.has_metadata() {
            push_name(&mut names, &mut any, "METADATA");
        }
        if self.has_checksum() {
            push_name(&mut names, &mut any, "CHECKSUM");
        }
        let mut out: String = String::from_str("PacketFlags(");
        if any {
            out.append(names.as_str());
        } else {
            out.append("NONE");
        }
        out.append(")");
        out
    }
}

/// True when at least one bit of `flag` is set in `bits`.
pub open spec fn spec_flag_set(bits: u16, flag: u16) -> bool {
    (bits & flag) != 0
}

/// Appends a flag name, preceded by a separator when one was already added.
fn push_name(names: &mut String, any: &mut bool, name: &str)
    ensures
        *old(any) ==> final(names)@ == old(names)@ + " | "@ + name@,
        !*old(any) ==> final(names)@ == old(names)@ + name@,
        *final(any),
{
    if *any {
        names.append(" | ");
    }
    names.append(name);
    *any = true;
}

} // verus!
