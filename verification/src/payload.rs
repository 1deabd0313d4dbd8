//! Payload types a packet can carry, and how each is laid out as bytes.
//!
//! A payload type states its byte encoding as a spec relation `spec_encodes`
//! over its view, proves the relation functional (one byte sequence stands
//! for at most one value), and converts in both directions against it. The
//! packet layer is generic over this trait.
use vstd::prelude::*;

use vstd::utf8::{encode_utf8, encode_utf8_decode_utf8, encode_utf8_valid_utf8, valid_utf8};

use crate::json::{is_json_text, json_is_valid, json_value_to_string};

verus! {

/// What went wrong turning a payload into bytes or back.
#[derive(Debug, Clone, PartialEq, Eq)]
pub enum PayloadError {
    /// The value could not be written as bytes.
    SerializationFailed(String),
    /// The bytes do not spell a value of the expected type.
    DeserializationFailed(String),
    /// The bytes are structurally wrong for the expected type.
    InvalidData,
}

impl PayloadError {
    /// A short human-readable account of the error.
    pub fn message(&self) -> (r: String)
        ensures
            self is SerializationFailed ==> r@ == "payload serialization failed"@,
            self is DeserializationFailed ==> r@ == "payload deserialization failed"@,
            self is InvalidData ==> r@ == "invalid payload data"@,
    {
        match self {
            PayloadError::SerializationFailed(_) => String::from_str(
                "payload serialization failed",
            ),
            PayloadError::DeserializationFailed(_) => String::from_str(
                "payload deserialization failed",
            ),
            PayloadError::InvalidData => String::from_str("invalid payload data"),
        }
    }
}

/// The declared shape of `core::str::Utf8Error`, the error of `str::from_utf8`.
#[verifier::external_type_specification]
#[verifier::external_body]
pub struct ExUtf8Error(core::str::Utf8Error);

/// Relies on `core::str::from_utf8`: succeeds exactly on valid UTF-8, and
/// the returned string slice is backed by the given bytes.
pub assume_specification[ core::str::from_utf8 ](v: &[u8]) -> (r: Result<
    &str,
    core::str::Utf8Error,
>)
    ensures
        r matches Ok(s) ==> valid_utf8(v@) && encode_utf8(s@) == v@,
        r is Err ==> !valid_utf8(v@),
;

/// A type that can ride in a packet as a payload.
///
/// `spec_encodes(bytes, v)` says that `bytes` is the byte encoding of a value
/// whose view is `v`. The relation is functional in the view
/// (`lemma_encodes_functional`), so a decoded packet carries at most one value.
pub trait Payloadable: Sized + View {
    /// True when `bytes` is the byte encoding of a value viewed as `v`.
    spec fn spec_encodes(bytes: Seq<u8>, v: Self::V) -> bool;

    /// At most one value is encoded by any byte sequence.
    proof fn lemma_encodes_functional(bytes: Seq<u8>, v1: Self::V, v2: Self::V)
        requires
            Self::spec_encodes(bytes, v1),
            Self::spec_encodes(bytes, v2),
        ensures
            v1 == v2,
    ;

    /// A value has at most one encoding.
    proof fn lemma_encoding_functional(v: Self::V, b1: Seq<u8>, b2: Seq<u8>)
        requires
            Self::spec_encodes(b1, v),
            Self::spec_encodes(b2, v),
        ensures
            b1 == b2,
    ;

    /// Writes the value as bytes: exactly the values that have an encoding
    /// are written.
    fn to_bytes(&self) -> (r: Result<Vec<u8>, PayloadError>)
        ensures
            r matches Ok(b) ==> Self::spec_encodes(b@, self@),
            r is Err ==> !(exists|b: Seq<u8>| Self::spec_encodes(b, self@)),
    ;

    /// Reads a value back from bytes: exactly the byte sequences that encode
    /// some value are accepted.
    fn from_bytes(bytes: &[u8]) -> (r: Result<Self, PayloadError>)
        ensures
            r matches Ok(v) ==> Self::spec_encodes(bytes@, v@),
            r is Err ==> !(exists|v: Self::V| Self::spec_encodes(bytes@, v)),
    ;
}

/// A raw byte payload; its encoding is itself.
#[derive(Debug, Clone, PartialEq, Eq)]
pub struct BytesPayload {
    /// The bytes carried.
    pub data: Vec<u8>,
}

impl View for BytesPayload {
    type V = Seq<u8>;

    open spec fn view(&self) -> Seq<u8> {
        self.data@
    }
}

impl BytesPayload {
    /// Wraps a byte vector.
    pub fn new(data: Vec<u8>) -> (r: Self)
        ensures
            r.data@ == data@,
    {
        BytesPayload { data }
    }

    /// Copies a byte slice.
    pub fn from_slice(data: &[u8]) -> (r: Self)
        ensures
            r.data@ == data@,
    {
        BytesPayload { data: vstd::slice::slice_to_vec(data) }
    }
}

impl Payloadable for BytesPayload {
    open spec fn spec_encodes(bytes: Seq<u8>, v: Seq<u8>) -> bool {
        bytes == v
    }

    proof fn lemma_encodes_functional(bytes: Seq<u8>, v1: Seq<u8>, v2: Seq<u8>) {
    }

    proof fn lemma_encoding_functional(v: Seq<u8>, b1: Seq<u8>, b2: Seq<u8>) {
    }

    fn to_bytes(&self) -> (r: Result<Vec<u8>, PayloadError>) {
        Ok(self.data.clone())
    }

    fn from_bytes(bytes: &[u8]) -> (r: Result<Self, PayloadError>) {
        Ok(BytesPayload { data: vstd::slice::slice_to_vec(bytes) })
    }
}

/// A text payload; its encoding is the UTF-8 bytes of the text.
#[derive(Debug, Clone, PartialEq, Eq)]
pub struct StringPayload {
    /// The text carried.
    pub data: String,
}

impl View for StringPayload {
    type V = Seq<char>;

    open spec fn view(&self) -> Seq<char> {
        self.data@
    }
}

impl StringPayload {
    /// Wraps a string.
    pub fn new(data: String) -> (r: Self)
        ensures
            r.data@ == data@,
    {
        StringPayload { data }
    }

    /// Copies a string slice.
    pub fn from_str(data: &str) -> (r: Self)
        ensures
            r.data@ == data@,
    {
        StringPayload { data: data.to_owned() }
    }

    /// Wraps a string.
    pub fn from_string(data: String) -> (r: Self)
        ensures
            r.data@ == data@,
    {
        StringPayload { data }
    }
}

impl Payloadable for StringPayload {
    open spec fn spec_encodes(bytes: Seq<u8>, v: Seq<char>) -> bool {
        bytes == encode_utf8(v)
    }

    proof fn lemma_encodes_functional(bytes: Seq<u8>, v1: Seq<char>, v2: Seq<char>) {
        encode_utf8_decode_utf8(v1);
        encode_utf8_decode_utf8(v2);
    }

    proof fn lemma_encoding_functional(v: Seq<char>, b1: Seq<u8>, b2: Seq<u8>) {
    }

    fn to_bytes(&self) -> (r: Result<Vec<u8>, PayloadError>) {
        Ok(vstd::slice::slice_to_vec(self.data.as_str().as_bytes()))
    }

    fn from_bytes(bytes: &[u8]) -> (r: Result<Self, PayloadError>) {
        match core::str::from_utf8(bytes) {
            Ok(s) => Ok(StringPayload { data: s.to_owned() }),
            Err(_) => {
                proof {
                    assert forall|v: Seq<char>| !Self::spec_encodes(bytes@, v) by {
                        encode_utf8_valid_utf8(v);
                    }
                }
                Err(PayloadError::InvalidData)
            },
        }
    }
}

/// A JSON document payload: a string that always holds one well-formed JSON
/// document; its encoding is the UTF-8 bytes of the document.
#[derive(Debug, Clone, PartialEq, Eq)]
pub struct JsonPayload {
    json_str: String,
}

impl View for JsonPayload {
    type V = Seq<char>;

    closed spec fn view(&self) -> Seq<char> {
        self.json_str@
    }
}

impl JsonPayload {
    /// True of every value of this type: the text is a well-formed JSON document.
    pub open spec fn wf(self) -> bool {
        is_json_text(self@)
    }

    /// Prints a `serde_json::Value` as a document and validates the text:
    /// a value nested beyond the parser's recursion limit prints to a
    /// document the parser would refuse, and is rejected here.
    pub fn new(value: &serde_json::Value) -> (r: Result<Self, PayloadError>)
        ensures
            r matches Ok(p) ==> p.wf(),
    {
        match json_value_to_string(value) {
            Ok(s) => {
                if json_is_valid(s.as_str()) {
                    Ok(JsonPayload { json_str: s })
                } else {
                    Err(PayloadError::SerializationFailed(String::from_str(
                        "printed document would not parse back",
                    )))
                }
            },
            Err(_) => Err(PayloadError::SerializationFailed(String::from_str(
                "value cannot be printed as JSON",
            ))),
        }
    }

    /// Validates a document text: accepted exactly when it is well-formed JSON.
    pub fn from_str(json_str: &str) -> (r: Result<Self, PayloadError>)
        ensures
            r matches Ok(p) ==> p.wf() && p@ == json_str@,
            r is Err ==> !is_json_text(json_str@),
    {
        if json_is_valid(json_str) {
            Ok(JsonPayload { json_str: json_str.to_owned() })
        } else {
            Err(PayloadError::InvalidData)
        }
    }

    /// The document text.
    pub fn as_str(&self) -> (r: &str)
        ensures
            r@ == self@,
    {
        self.json_str.as_str()
    }
}

impl Payloadable for JsonPayload {
    open spec fn spec_encodes(bytes: Seq<u8>, v: Seq<char>) -> bool {
        bytes == encode_utf8(v) && is_json_text(v)
    }

    proof fn lemma_encodes_functional(bytes: Seq<u8>, v1: Seq<char>, v2: Seq<char>) {
        encode_utf8_decode_utf8(v1);
        encode_utf8_decode_utf8(v2);
    }

    proof fn lemma_encoding_functional(v: Seq<char>, b1: Seq<u8>, b2: Seq<u8>) {
    }

    fn to_bytes(&self) -> (r: Result<Vec<u8>, PayloadError>) {
        if json_is_valid(self.json_str.as_str()) {
            Ok(vstd::slice::slice_to_vec(self.json_str.as_str().as_bytes()))
        } else {
            Err(PayloadError::SerializationFailed(String::from_str("not a JSON document")))
        }
    }

    fn from_bytes(bytes: &[u8]) -> (r: Result<Self, PayloadError>) {
        match core::str::from_utf8(bytes) {
            Ok(s) => {
                if json_is_valid(s) {
                    Ok(JsonPayload { json_str: s.to_owned() })
                } else {
                    proof {
                        assert forall|v: Seq<char>| !Self::spec_encodes(bytes@, v) by {
                            if encode_utf8(v) == bytes@ {
                                encode_utf8_decode_utf8(v);
                                encode_utf8_decode_utf8(s@);
                            }
                        }
                    }
                    Err(PayloadError::InvalidData)
                }
            },
            Err(_) => {
                proof {
                    assert forall|v: Seq<char>| !Self::spec_encodes(bytes@, v) by {
                        encode_utf8_valid_utf8(v);
                    }
                }
                Err(PayloadError::InvalidData)
            },
        }
    }
}

/// The payload of a packet that carries nothing; its encoding is no bytes.
#[derive(Debug, Clone, Copy, PartialEq, Eq, Structural)]
pub struct EmptyPayload;

impl View for EmptyPayload {
    type V = ();

    open spec fn view(&self) -> () {
        ()
    }
}

impl Payloadable for EmptyPayload {
    open spec fn spec_encodes(bytes: Seq<u8>, v: ()) -> bool {
        bytes == Seq::<u8>::empty()
    }

    proof fn lemma_encodes_functional(bytes: Seq<u8>, v1: (), v2: ()) {
    }

    proof fn lemma_encoding_functional(v: (), b1: Seq<u8>, b2: Seq<u8>) {
    }

    fn to_bytes(&self) -> (r: Result<Vec<u8>, PayloadError>) {
        let r: Vec<u8> = Vec::new();
        assert(r@ =~= Seq::<u8>::empty());
        Ok(r)
    }

    fn from_bytes(bytes: &[u8]) -> (r: Result<Self, PayloadError>) {
        if bytes.len() == 0 {
            assert(bytes@ =~= Seq::<u8>::empty());
            Ok(EmptyPayload)
        } else {
            Err(PayloadError::InvalidData)
        }
    }
}

} // verus!
