//! A typed RPC-over-QUIC protocol core: a fixed-header binary packet format
//! with optional zstd compression and CRC32 integrity checking, a message
//! record that correlates requests with responses, a handler registry with
//! dispatch, client-session and duplex-stream state machines, and IPv6-only
//! address parsing.
//!
//! The packet header is a fixed 56 bytes on the wire; all multi-byte fields
//! are little-endian.
pub mod addr;
pub mod checksum;
pub mod client;
pub mod compress;
pub mod config;
pub mod dispatch;
pub mod flags;
pub mod handlers;
pub mod handshake;
pub mod header;
pub mod json;
pub mod laws;
pub mod message;
pub mod packet;
pub mod payload;
pub mod serialization;
pub mod service;
pub mod stream;
pub mod wire;
