//! Built-in handlers: ping, echo, service information, and a finite number
//! stream. Each inherent method carries the exact contract; the trait impls
//! delegate to them.
use vstd::prelude::*;

use crate::dispatch::{Handler, StreamHandler};
use crate::json::{json_string_field, json_string_field_of, quote_string, spec_json_quoted};

verus! {

/// The decimal digits of `n`, most significant first.
pub open spec fn spec_decimal(n: nat) -> Seq<char>
    decreases n,
{
    if n < 10 {
        seq![crate::json::spec_hex_digit(n as int)]
    } else {
        spec_decimal(n / 10) + seq![crate::json::spec_hex_digit((n % 10) as int)]
    }
}

/// Writes `n` in decimal.
pub fn u64_to_decimal(n: u64) -> (r: String)
    ensures
        r@ == spec_decimal(n as nat),
    decreases n,
{
    if n < 10 {
        let mut out = String::new();
        crate::json::push_char(&mut out, decimal_digit((n % 10) as u8));
        assert(out@ =~= spec_decimal(n as nat));
        out
    } else {
        let mut out = u64_to_decimal(n / 10);
        crate::json::push_char(&mut out, decimal_digit((n % 10) as u8));
        assert(out@ =~= spec_decimal(n as nat));
        out
    }
}

/// The digit character for a value below 10.
fn decimal_digit(v: u8) -> (r: char)
    requires
        v < 10,
    ensures
        r == crate::json::spec_hex_digit(v as int),
{
    if v == 0 {
        '0'
    } else if v == 1 {
        '1'
    } else if v == 2 {
        '2'
    } else if v == 3 {
        '3'
    } else if v == 4 {
        '4'
    } else if v == 5 {
        '5'
    } else if v == 6 {
        '6'
    } else if v == 7 {
        '7'
    } else if v == 8 {
        '8'
    } else {
        '9'
    }
}

/// Answers a ping: the response carries `"Pong: "` followed by the request's
/// `message` field, or `"Pong: Hello"` when the field is absent.
pub struct PingHandler;

/// The document `PingHandler` answers with, given the request's `message`
/// field.
pub open spec fn spec_pong_payload(message_field: Option<Seq<char>>) -> Seq<char> {
    let text = match message_field {
        Some(m) => "Pong: "@ + m,
        None => "Pong: "@ + "Hello"@,
    };
    "{\"message\":"@ + spec_json_quoted(text) + "}"@
}

impl PingHandler {
    /// The pong document for a request document.
    pub fn respond(payload: &str) -> (r: String)
        ensures
            r@ == spec_pong_payload(json_string_field_of(payload@, "message"@)),
    {
        let mut text = String::from_str("Pong: ");
        match json_string_field(payload, "message") {
            Some(m) => {
                text.append(m.as_str());
            },
            None => {
                text.append("Hello");
            },
        }
        let mut out = String::from_str("{\"message\":");
        let quoted = quote_string(text.as_str());
        out.append(quoted.as_str());
        out.append("}");
        assert(out@ =~= spec_pong_payload(json_string_field_of(payload@, "message"@)));
        out
    }
}

impl Handler for PingHandler {
    fn handle(&self, payload: &str) -> Result<String, String> {
        Ok(PingHandler::respond(payload))
    }
}

/// Echoes every request document back unchanged.
pub struct EchoHandler;

impl EchoHandler {
    /// The echo of a request document: the document itself.
    pub fn respond(payload: &str) -> (r: String)
        ensures
            r@ == payload@,
    {
        payload.to_owned()
    }
}

impl Handler for EchoHandler {
    fn handle(&self, payload: &str) -> Result<String, String> {
        Ok(EchoHandler::respond(payload))
    }
}

/// Answers with the service's name, version, capabilities and health.
pub struct ServiceInfoHandler {
    /// The service's name.
    pub service_name: String,
    /// The service's version.
    pub version: String,
}

/// The document `ServiceInfoHandler` answers with.
pub open spec fn spec_service_info_payload(name: Seq<char>, version: Seq<char>) -> Seq<char> {
    "{\"service\":"@ + spec_json_quoted(name) + ",\"version\":"@ + spec_json_quoted(version)
        + ",\"capabilities\":[\"ping\",\"echo\",\"service_info\"],\"status\":\"healthy\"}"@
}

impl ServiceInfoHandler {
    /// The service-information document.
    pub fn respond(&self) -> (r: String)
        ensures
            r@ == spec_service_info_payload(self.service_name@, self.version@),
    {
        let mut out = String::from_str("{\"service\":");
        let name = quote_string(self.service_name.as_str());
        out.append(name.as_str());
        out.append(",\"version\":");
        let version = quote_string(self.version.as_str());
        out.append(version.as_str());
        out.append(",\"capabilities\":[\"ping\",\"echo\",\"service_info\"],\"status\":\"healthy\"}");
        assert(out@ =~= spec_service_info_payload(self.service_name@, self.version@));
        out
    }
}

impl Handler for ServiceInfoHandler {
    fn handle(&self, _payload: &str) -> Result<String, String> {
        Ok(self.respond())
    }
}

/// Streams the documents `{"number":0}` up to `{"number":max - 1}`, in order.
pub struct NumberStreamHandler {
    /// How many numbers to stream.
    pub max: u32,
}

/// The `i`-th document `NumberStreamHandler` streams.
pub open spec fn spec_number_item(i: nat) -> Seq<char> {
    "{\"number\":"@ + spec_decimal(i) + "}"@
}

impl NumberStreamHandler {
    /// The whole batch, in order: one document per number below `max`.
    pub fn items(&self) -> (r: Vec<String>)
        ensures
            r@.len() == self.max,
            forall|i: int| 0 <= i < r@.len() ==> (#[trigger] r@[i])@ == spec_number_item(i as nat),
    {
        let mut out: Vec<String> = Vec::new();
        let mut i: u32 = 0;
        while i < self.max
            invariant
                i <= self.max,
                out@.len() == i,
                forall|k: int|
                    0 <= k < out@.len() ==> (#[trigger] out@[k])@ == spec_number_item(k as nat),
            decreases self.max - i,
        {
            let mut doc = String::from_str("{\"number\":");
            let digits = u64_to_decimal(i as u64);
            doc.append(digits.as_str());
            doc.append("}");
            assert(doc@ =~= spec_number_item(i as nat));
            out.push(doc);
            i = i + 1;
        }
        out
    }
}

impl StreamHandler for NumberStreamHandler {
    fn start(&self, _payload: &str) -> Result<Vec<String>, String> {
        Ok(self.items())
    }
}

} // verus!
