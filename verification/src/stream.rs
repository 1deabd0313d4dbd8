//! The duplex stream state machine and its administrative handle.
//!
//! A live bidirectional stream owns a send half and a receive half; this
//! type decides which operations each state allows, while the QUIC halves
//! around it perform the I/O.
use vstd::prelude::*;

use crate::header::now_unix_nanos;
use crate::message::{MessageType, NetworkError, ProtocolMessage};

verus! {

/// A plain value naming a live stream, for administrative lookup.
#[derive(Debug, Clone, PartialEq, Eq)]
pub struct StreamHandle {
    /// The logical stream identifier.
    pub stream_id: u64,
    /// The method the stream was opened on.
    pub method: String,
    /// Creation time, nanoseconds since the Unix epoch.
    pub created_at: u64,
}

/// Where a duplex stream stands.
#[derive(Debug, Clone, Copy, PartialEq, Eq, Structural)]
pub enum StreamState {
    /// Both halves usable.
    Open,
    /// The local side has finished its send half.
    HalfClosedLocal,
    /// The peer has finished its send half; receiving reports the end.
    HalfClosedRemote,
    /// Both halves released.
    Closed,
}

/// A duplex stream over one QUIC bidirectional stream: its identity, its
/// state, and the messages it forms and interprets.
pub struct UnisonStream {
    stream_id: u64,
    method: String,
    state: StreamState,
    created_at: u64,
}

impl UnisonStream {
    /// The logical stream identifier.
    pub closed spec fn spec_stream_id(self) -> u64 {
        self.stream_id
    }

    /// The method the stream was opened on.
    pub closed spec fn spec_method(self) -> Seq<char> {
        self.method@
    }

    /// Where the stream stands.
    pub closed spec fn spec_state(self) -> StreamState {
        self.state
    }

    /// True while the stream is usable: open, or waiting for the peer after
    /// finishing the local send half.
    pub open spec fn spec_active(self) -> bool {
        self.spec_state() == StreamState::Open || self.spec_state() == StreamState::HalfClosedLocal
    }

    /// A fresh open stream.
    pub fn new(stream_id: u64, method: String) -> (r: Self)
        ensures
            r.spec_stream_id() == stream_id,
            r.spec_method() == method@,
            r.spec_state() == StreamState::Open,
    {
        UnisonStream { stream_id, method, state: StreamState::Open, created_at: now_unix_nanos() }
    }

    /// Where the stream stands.
    pub fn state(&self) -> (r: StreamState)
        ensures
            r == self.spec_state(),
    {
        self.state
    }

    /// True while the stream is usable.
    pub fn is_active(&self) -> (r: bool)
        ensures
            r == self.spec_active(),
    {
        match self.state {
            StreamState::Open => true,
            StreamState::HalfClosedLocal => true,
            StreamState::HalfClosedRemote => false,
            StreamState::Closed => false,
        }
    }

    /// The administrative handle.
    pub fn get_handle(&self) -> (r: StreamHandle)
        ensures
            r.stream_id == self.spec_stream_id(),
            r.method@ == self.spec_method(),
            r.created_at == self.spec_created_at(),
    {
        StreamHandle {
            stream_id: self.stream_id,
            method: self.method.clone(),
            created_at: self.created_at,
        }
    }

    /// Creation time, nanoseconds since the Unix epoch.
    pub closed spec fn spec_created_at(self) -> u64 {
        self.created_at
    }

    /// Forms the message for sending a value into the stream. Allowed only
    /// while the stream is open; on any other state nothing is sent and the
    /// call fails with `Connection`.
    pub fn send_message(&self, payload: String) -> (r: Result<ProtocolMessage, NetworkError>)
        ensures
            self.spec_state() == StreamState::Open ==> (r matches Ok(msg) && msg.id
                == self.spec_stream_id() && msg.method@ == self.spec_method() && msg.msg_type
                == MessageType::StreamSend && msg.payload@ == payload@),
            self.spec_state() != StreamState::Open ==> r matches Err(NetworkError::Connection(..)),
    {
        if let StreamState::Open = self.state {
            Ok(
                ProtocolMessage::new(
                    self.stream_id,
                    self.method.clone(),
                    MessageType::StreamSend,
                    payload,
                ),
            )
        } else {
            Err(NetworkError::Connection(String::from_str("Stream is not active")))
        }
    }

    /// Interprets one message read from the receive half.
    ///
    /// Data (the peer's StreamSend, a StreamReceive, or a StreamData)
    /// yields its payload; StreamEnd closes the stream and reports the
    /// peer's orderly end; StreamError closes the stream and reports a
    /// protocol error; any other kind is a protocol error that leaves the
    /// state alone. On an inactive stream nothing is read and the call
    /// fails with `Connection`.
    pub fn on_message(&mut self, message: &ProtocolMessage) -> (r: Result<String, NetworkError>)
        ensures
            final(self).spec_stream_id() == old(self).spec_stream_id(),
            final(self).spec_method() == old(self).spec_method(),
            !old(self).spec_active() ==> (r matches Err(NetworkError::Connection(..)) && final(self).spec_state() == old(self).spec_state()),
            old(self).spec_active() ==> {
                if message.msg_type == MessageType::StreamReceive || message.msg_type
                    == MessageType::StreamData || message.msg_type == MessageType::StreamSend {
                    r matches Ok(doc) && doc@ == message.payload@ && final(self).spec_state()
                        == old(self).spec_state()
                } else if message.msg_type == MessageType::StreamEnd {
                    r matches Err(NetworkError::Connection(..)) && final(self).spec_state()
                        == StreamState::Closed
                } else if message.msg_type == MessageType::StreamError {
                    r matches Err(NetworkError::Protocol(..)) && final(self).spec_state()
                        == StreamState::Closed
                } else {
                    r matches Err(NetworkError::Protocol(..)) && final(self).spec_state() == old(self).spec_state()
                }
            },
    {
        if !self.is_active() {
            return Err(NetworkError::Connection(String::from_str("Stream is not active")));
        }
        match message.msg_type {
            MessageType::StreamReceive => Ok(message.payload.clone()),
            MessageType::StreamData => Ok(message.payload.clone()),
            MessageType::StreamSend => Ok(message.payload.clone()),
            MessageType::StreamEnd => {
                self.state = StreamState::Closed;
                Err(NetworkError::Connection(String::from_str("Stream ended by peer")))
            },
            MessageType::StreamError => {
                self.state = StreamState::Closed;
                Err(NetworkError::Protocol(String::from_str("Stream error")))
            },
            _ => Err(NetworkError::Protocol(String::from_str("Unexpected message type"))),
        }
    }

    /// Records that the transport read zero bytes: the peer finished its
    /// send half. Receiving afterwards reports the end.
    pub fn on_transport_end(&mut self) -> (r: NetworkError)
        ensures
            final(self).spec_stream_id() == old(self).spec_stream_id(),
            final(self).spec_method() == old(self).spec_method(),
            old(self).spec_active() ==> final(self).spec_state() == StreamState::HalfClosedRemote,
            !old(self).spec_active() ==> final(self).spec_state() == old(self).spec_state(),
            r is Connection,
    {
        if self.is_active() {
            self.state = StreamState::HalfClosedRemote;
        }
        NetworkError::Connection(String::from_str("Stream ended"))
    }

    /// Closes the stream: the send half is finished and the receive half is
    /// stopped. Closing is idempotent — it succeeds in every state, a second
    /// close included, and the stream reports inactive afterwards.
    pub fn close(&mut self) -> (r: Result<(), NetworkError>)
        ensures
            r is Ok,
            final(self).spec_state() == StreamState::Closed,
            !final(self).spec_active(),
            final(self).spec_stream_id() == old(self).spec_stream_id(),
            final(self).spec_method() == old(self).spec_method(),
    {
        self.state = StreamState::Closed;
        Ok(())
    }
}

/// Law: `close` is idempotent — closing twice succeeds both times and lands
/// in the same state as closing once.
pub fn close_twice(stream: &mut UnisonStream) -> (r: (Result<(), NetworkError>, Result<
    (),
    NetworkError,
>))
    ensures
        r.0 is Ok && r.1 is Ok,
        final(stream).spec_state() == StreamState::Closed,
        !final(stream).spec_active(),
{
    let first = stream.close();
    let second = stream.close();
    (first, second)
}

} // verus!
