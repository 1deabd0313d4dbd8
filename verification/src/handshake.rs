//! Handshake records exchanged when two peers establish compatibility.
use vstd::prelude::*;

verus! {

/// What a client announces when it connects.
#[derive(Debug, Clone, PartialEq, Eq)]
pub struct HandshakeRequest {
    /// The protocol version the client speaks.
    pub protocol_version: String,
    /// The client application's identifier.
    pub client_name: String,
    /// The client application's version, if it names one.
    pub client_version: Option<String>,
    /// The features the client supports.
    pub supported_features: Vec<String>,
}

impl HandshakeRequest {
    /// A request announcing a client without optional fields.
    pub fn new(protocol_version: String, client_name: String) -> (r: Self)
        ensures
            r.protocol_version@ == protocol_version@,
            r.client_name@ == client_name@,
            r.client_version is None,
            r.supported_features@.len() == 0,
    {
        HandshakeRequest {
            protocol_version,
            client_name,
            client_version: None,
            supported_features: Vec::new(),
        }
    }
}

/// What a server answers a handshake with.
#[derive(Debug, Clone, PartialEq, Eq)]
pub struct HandshakeResponse {
    /// The protocol version the server speaks.
    pub server_version: String,
    /// The server application's identifier.
    pub server_name: String,
    /// The features the server supports.
    pub supported_features: Vec<String>,
    /// The session's unique identifier.
    pub session_id: String,
    /// The heartbeat cadence the server asks for, in milliseconds.
    pub heartbeat_interval: Option<u64>,
}

impl HandshakeResponse {
    /// A response announcing a server without optional fields.
    pub fn new(server_version: String, server_name: String, session_id: String) -> (r: Self)
        ensures
            r.server_version@ == server_version@,
            r.server_name@ == server_name@,
            r.session_id@ == session_id@,
            r.supported_features@.len() == 0,
            r.heartbeat_interval is None,
    {
        HandshakeResponse {
            server_version,
            server_name,
            supported_features: Vec::new(),
            session_id,
            heartbeat_interval: None,
        }
    }
}

} // verus!
