//! The client session: connection state, message-id issue, and response
//! interpretation. The QUIC transport around it performs the I/O; this type
//! decides what may be sent and what a received message means.
use vstd::prelude::*;

use crate::json::{json_string_field, json_string_field_of};
use crate::message::{MessageType, NetworkError, ProtocolMessage};

verus! {

/// A client session.
///
/// Message ids are issued strictly increasing from 1, so every request of a
/// session carries a fresh id (`lemma_issued_ids_distinct`); a response is
/// matched to its request by that id.
pub struct ClientSession {
    connected: bool,
    url: Option<String>,
    next_message_id: u64,
    issued: Ghost<Seq<u64>>,
}

impl ClientSession {
    /// Whether the session is connected.
    pub closed spec fn spec_connected(self) -> bool {
        self.connected
    }

    /// The URL connected to, when connected.
    pub closed spec fn spec_url(self) -> Option<Seq<char>> {
        match self.url {
            Some(u) => Some(u@),
            None => None,
        }
    }

    /// The id the next request will carry.
    pub closed spec fn spec_next_id(self) -> u64 {
        self.next_message_id
    }

    /// Every id issued so far, in order.
    pub closed spec fn spec_issued(self) -> Seq<u64> {
        self.issued@
    }

    /// True of every reachable session: issued ids are strictly increasing
    /// and all below the next id.
    pub closed spec fn wf(self) -> bool {
        &&& forall|i: int, j: int|
            0 <= i < j < self.issued@.len() ==> self.issued@[i] < self.issued@[j]
        &&& forall|i: int| 0 <= i < self.issued@.len() ==> self.issued@[i] < self.next_message_id
        &&& self.next_message_id >= 1
    }

    /// A fresh, unconnected session; ids start at 1.
    pub fn new() -> (r: Self)
        ensures
            !r.spec_connected(),
            r.spec_url() is None,
            r.spec_next_id() == 1,
            r.spec_issued() == Seq::<u64>::empty(),
            r.wf(),
    {
        ClientSession { connected: false, url: None, next_message_id: 1, issued: Ghost(Seq::empty()) }
    }

    /// Whether the session is connected.
    pub fn is_connected(&self) -> (r: bool)
        ensures
            r == self.spec_connected(),
    {
        self.connected
    }

    /// Records a connection to `url`. Connecting is idempotent: a second
    /// connect to the same URL succeeds and changes nothing; connecting
    /// somewhere else while connected fails.
    pub fn connect(&mut self, url: String) -> (r: Result<(), NetworkError>)
        requires
            old(self).wf(),
        ensures
            final(self).wf(),
            final(self).spec_next_id() == old(self).spec_next_id(),
            final(self).spec_issued() == old(self).spec_issued(),
            old(self).spec_connected() && old(self).spec_url() != Some(url@) ==> (r matches Err(
                NetworkError::Connection(..),
            ) && *final(self) == *old(self)),
            old(self).spec_connected() && old(self).spec_url() == Some(url@) ==> (r is Ok && final(self).spec_connected() && final(self).spec_url() == Some(url@)),
            !old(self).spec_connected() ==> (r is Ok && final(self).spec_connected() && final(self).spec_url() == Some(url@)),
    {
        if self.connected {
            let same = match &self.url {
                Some(current) => *current == url,
                None => false,
            };
            if same {
                self.url = Some(url);
                Ok(())
            } else {
                Err(
                    NetworkError::Connection(
                        String::from_str("already connected to a different address"),
                    ),
                )
            }
        } else {
            self.connected = true;
            self.url = Some(url);
            Ok(())
        }
    }

    /// Records the disconnect: the session is no longer connected, and every
    /// subsequent request fails with `NotConnected` until a new connect.
    pub fn disconnect(&mut self)
        requires
            old(self).wf(),
        ensures
            final(self).wf(),
            !final(self).spec_connected(),
            final(self).spec_url() is None,
            final(self).spec_next_id() == old(self).spec_next_id(),
            final(self).spec_issued() == old(self).spec_issued(),
    {
        self.connected = false;
        self.url = None;
    }

    /// Issues the request message for a unary call: a fresh id, the method,
    /// and the payload document. Fails with `NotConnected` when the session
    /// is not connected, and with `Connection` when the id space is spent.
    pub fn next_request(&mut self, method: String, payload: String) -> (r: Result<
        ProtocolMessage,
        NetworkError,
    >)
        requires
            old(self).wf(),
        ensures
            final(self).wf(),
            final(self).spec_connected() == old(self).spec_connected(),
            final(self).spec_url() == old(self).spec_url(),
            !old(self).spec_connected() ==> (r matches Err(NetworkError::NotConnected) && *final(self) == *old(self)),
            old(self).spec_connected() && old(self).spec_next_id() == u64::MAX ==> (r matches Err(
                NetworkError::Connection(..),
            ) && *final(self) == *old(self)),
            old(self).spec_connected() && old(self).spec_next_id() < u64::MAX ==> (r matches Ok(msg)
                && msg.id == old(self).spec_next_id() && msg.method@ == method@ && msg.msg_type
                == MessageType::Request && msg.payload@ == payload@ && final(self).spec_next_id()
                == old(self).spec_next_id() + 1 && final(self).spec_issued() == old(self).spec_issued().push(msg.id)),
    {
        if !self.connected {
            return Err(NetworkError::NotConnected);
        }
        if self.next_message_id == u64::MAX {
            return Err(NetworkError::Connection(String::from_str("message ids exhausted")));
        }
        let id = self.next_message_id;
        self.next_message_id = self.next_message_id + 1;
        proof {
            self.issued@ = self.issued@.push(id);
        }
        Ok(ProtocolMessage::new(id, method, MessageType::Request, payload))
    }

    /// Reads a received message as the answer to a call: an Error message
    /// becomes a `Protocol` error carrying the text under its `message`
    /// field (or `Unknown error` without one); anything else yields its
    /// payload document.
    pub fn interpret_response(response: &ProtocolMessage) -> (r: Result<String, NetworkError>)
        ensures
            response.msg_type != MessageType::Error ==> (r matches Ok(doc) && doc@
                == response.payload@),
            response.msg_type == MessageType::Error ==> (r matches Err(NetworkError::Protocol(text))
                && text@ == spec_error_text(response.payload@)),
    {
        if let MessageType::Error = response.msg_type {
            let text = match json_string_field(response.payload.as_str(), "message") {
                Some(m) => m,
                None => String::from_str("Unknown error"),
            };
            Err(NetworkError::Protocol(text))
        } else {
            Ok(response.payload.clone())
        }
    }
}

/// What one received message means to a client consuming a server-driven
/// stream.
#[derive(Debug, Clone, PartialEq, Eq)]
pub enum StreamEvent {
    /// One element of the stream: its JSON document.
    Item(String),
    /// The stream ended in order; consumption stops.
    End,
    /// The stream failed; the text is the error's `message` field, or
    /// `Unknown error` without one. Consumption stops.
    Failed(String),
    /// A message of another kind; consumption goes on.
    Ignored,
}

/// Classifies one message received while consuming a server-driven stream:
/// StreamData yields its payload, StreamEnd ends consumption, an Error ends
/// it with the text under its payload's `message` field, and any other kind
/// is passed over.
pub fn classify_stream_message(message: &ProtocolMessage) -> (r: StreamEvent)
    ensures
        message.msg_type == MessageType::StreamData ==> (r matches StreamEvent::Item(doc) && doc@
            == message.payload@),
        message.msg_type == MessageType::StreamEnd ==> r == StreamEvent::End,
        message.msg_type == MessageType::Error ==> (r matches StreamEvent::Failed(text) && text@
            == spec_error_text(message.payload@)),
        message.msg_type != MessageType::StreamData && message.msg_type != MessageType::StreamEnd
            && message.msg_type != MessageType::Error ==> r == StreamEvent::Ignored,
{
    match message.msg_type {
        MessageType::StreamData => StreamEvent::Item(message.payload.clone()),
        MessageType::StreamEnd => StreamEvent::End,
        MessageType::Error => {
            let text = match json_string_field(message.payload.as_str(), "message") {
                Some(m) => m,
                None => String::from_str("Unknown error"),
            };
            StreamEvent::Failed(text)
        },
        _ => StreamEvent::Ignored,
    }
}

/// The text a client reports for an Error message with the given payload:
/// the document's `message` field, or `Unknown error` without one.
pub open spec fn spec_error_text(payload: Seq<char>) -> Seq<char> {
    match json_string_field_of(payload, "message"@) {
        Some(m) => m,
        None => "Unknown error"@,
    }
}

/// Law: within one session no message id is ever issued twice, so at most
/// one request of the session matches any response's correlation id.
pub proof fn lemma_issued_ids_distinct(session: ClientSession)
    requires
        session.wf(),
    ensures
        forall|i: int, j: int|
            0 <= i < session.spec_issued().len() && 0 <= j < session.spec_issued().len() && i != j
                ==> session.spec_issued()[i] != session.spec_issued()[j],
{
}

} // verus!
