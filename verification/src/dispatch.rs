//! The handler registry and request dispatch.
//!
//! A registry maps method names to handlers; registering under a name that
//! is already taken replaces the handler, as a map insert. Dispatch looks a
//! method up and wraps the handler's own outcome as a response or error
//! message; a missing method becomes an error message naming it. A
//! bidirectional opening is not answered but handed over: the transport
//! gives the stream to the registered bidirectional handler.
use vstd::prelude::*;

use crate::json::{quote_string, spec_json_quoted};
use crate::message::{MessageType, NetworkError, ProtocolMessage};

verus! {

/// A unary handler: turns a request's JSON document into a response JSON
/// document, or an error text. Implemented by the library's built-in
/// handlers and by users of the server.
pub trait Handler {
    /// Answers one request.
    fn handle(&self, payload: &str) -> Result<String, String>;
}

/// A stream handler: turns an opening request's JSON document into the
/// finite ordered batch of JSON documents to stream back, or an error text.
pub trait StreamHandler {
    /// Starts one stream.
    fn start(&self, payload: &str) -> Result<Vec<String>, String>;
}

/// The handlers a sequence of registrations leaves in place: later
/// registrations of a name shadow earlier ones.
pub open spec fn spec_entries_map<H>(entries: Seq<(String, H)>) -> Map<Seq<char>, H>
    decreases entries.len(),
{
    if entries.len() == 0 {
        Map::empty()
    } else {
        spec_entries_map(entries.drop_last()).insert(entries.last().0@, entries.last().1)
    }
}

/// If `entries[i]` is the last entry named `m`, it is the one the map holds.
proof fn lemma_entries_map_found<H>(entries: Seq<(String, H)>, m: Seq<char>, i: int)
    requires
        0 <= i < entries.len(),
        entries[i].0@ == m,
        forall|j: int| i < j < entries.len() ==> entries[j].0@ != m,
    ensures
        spec_entries_map(entries).contains_key(m),
        spec_entries_map(entries)[m] == entries[i].1,
    decreases entries.len(),
{
    if i == entries.len() - 1 {
    } else {
        lemma_entries_map_found(entries.drop_last(), m, i);
    }
}

/// If no entry is named `m`, the map does not hold `m`.
proof fn lemma_entries_map_absent<H>(entries: Seq<(String, H)>, m: Seq<char>)
    requires
        forall|j: int| 0 <= j < entries.len() ==> entries[j].0@ != m,
    ensures
        !spec_entries_map(entries).contains_key(m),
    decreases entries.len(),
{
    if entries.len() > 0 {
        lemma_entries_map_absent(entries.drop_last(), m);
    }
}

/// Every key the map holds names some entry.
proof fn lemma_entries_map_key_has_entry<H>(entries: Seq<(String, H)>, m: Seq<char>)
    requires
        spec_entries_map(entries).contains_key(m),
    ensures
        exists|j: int| 0 <= j < entries.len() && #[trigger] entries[j].0@ == m,
    decreases entries.len(),
{
    if entries.len() > 0 && entries.last().0@ != m {
        lemma_entries_map_key_has_entry(entries.drop_last(), m);
    }
}

/// True when `entries[e]` is the last entry of its name.
spec fn spec_is_last_named<H>(entries: Seq<(String, H)>, e: int) -> bool {
    &&& 0 <= e < entries.len()
    &&& forall|j: int| e < j < entries.len() ==> entries[j].0@ != entries[e].0@
}

/// A registry of handlers, one per method name.
pub struct HandlerRegistry<H> {
    entries: Vec<(String, H)>,
}

impl<H> View for HandlerRegistry<H> {
    type V = Map<Seq<char>, H>;

    closed spec fn view(&self) -> Map<Seq<char>, H> {
        spec_entries_map(self.entries@)
    }
}

impl<H> HandlerRegistry<H> {
    /// An empty registry.
    pub fn new() -> (r: Self)
        ensures
            r@ == Map::<Seq<char>, H>::empty(),
    {
        HandlerRegistry { entries: Vec::new() }
    }

    /// Registers a handler under a method name; a handler already registered
    /// under that name is replaced.
    pub fn register(&mut self, method: String, handler: H)
        ensures
            final(self)@ == old(self)@.insert(method@, handler),
    {
        self.entries.push((method, handler));
        proof {
            assert(self.entries@.drop_last() =~= old(self).entries@);
        }
    }

    /// True when a handler is registered under the name.
    pub fn contains(&self, method: &str) -> (r: bool)
        ensures
            r == self@.contains_key(method@),
    {
        match self.find(method) {
            Some(_) => true,
            None => false,
        }
    }

    /// The handler registered under the name, borrowed.
    pub fn get(&self, method: &str) -> (r: Option<&H>)
        ensures
            r matches Some(h) ==> self@.contains_key(method@) && *h == self@[method@],
            r is None ==> !self@.contains_key(method@),
    {
        match self.find(method) {
            Some(i) => {
                let entry = &self.entries[i];
                Some(&entry.1)
            },
            None => None,
        }
    }

    /// The registered method names, each exactly once: every listed name has
    /// a handler, every registered name is listed, and no name repeats.
    pub fn list_methods(&self) -> (r: Vec<String>)
        ensures
            forall|i: int| 0 <= i < r@.len() ==> self@.contains_key(#[trigger] r@[i]@),
            forall|m: Seq<char>|
                self@.contains_key(m) ==> exists|i: int| 0 <= i < r@.len() && #[trigger] r@[i]@
                    == m,
            forall|i: int, j: int| 0 <= i < j < r@.len() ==> r@[i]@ != r@[j]@,
    {
        let mut out: Vec<String> = Vec::new();
        // The indices the listed names came from, for the proof's sake.
        let ghost mut picked: Seq<int> = Seq::empty();
        let mut i: usize = 0;
        while i < self.entries.len()
            invariant
                i <= self.entries@.len(),
                picked.len() == out@.len(),
                forall|k: int|
                    #![trigger picked[k]]
                    0 <= k < picked.len() ==> 0 <= picked[k] < i && spec_is_last_named(
                        self.entries@,
                        picked[k],
                    ) && self.entries@[picked[k]].0@ == out@[k]@,
                forall|e: int|
                    0 <= e < i && #[trigger] spec_is_last_named(self.entries@, e) ==> exists|k: int|
                        0 <= k < out@.len() && #[trigger] out@[k]@ == self.entries@[e].0@,
                forall|k1: int, k2: int| 0 <= k1 < k2 < out@.len() ==> out@[k1]@ != out@[k2]@,
            decreases self.entries@.len() - i,
        {
            // The entry stands for its name only when no later registration
            // shadows it, that is, when the lookup lands back on it.
            let last = self.find(self.entries[i].0.as_str());
            let keep = match last {
                Some(idx) => idx == i,
                None => false,
            };
            if keep {
                proof {
                    assert(spec_is_last_named(self.entries@, i as int));
                    assert forall|k1: int| 0 <= k1 < out@.len() implies out@[k1]@
                        != self.entries@[i as int].0@ by {
                        if out@[k1]@ == self.entries@[i as int].0@ {
                            let e = picked[k1];
                            assert(spec_is_last_named(self.entries@, e));
                            assert(self.entries@[i as int].0@ == self.entries@[e].0@);
                            assert(false);
                        }
                    }
                }
                let ghost out0 = out@;
                let entry = &self.entries[i];
                out.push(entry.0.clone());
                proof {
                    picked = picked.push(i as int);
                    assert(out@ == out0.push(self.entries@[i as int].0));
                    assert forall|k: int| #![trigger picked[k]] 0 <= k < picked.len() implies 0
                        <= picked[k] < i + 1 && spec_is_last_named(self.entries@, picked[k])
                        && self.entries@[picked[k]].0@ == out@[k]@ by {
                        if k < out0.len() {
                            assert(out@[k] == out0[k]);
                        } else {
                            assert(picked[k] == i as int);
                            assert(out@[k] == self.entries@[i as int].0);
                        }
                    }
                    assert forall|e: int|
                        0 <= e < i + 1 && #[trigger] spec_is_last_named(self.entries@, e) implies
                        exists|k: int|
                            0 <= k < out@.len() && #[trigger] out@[k]@ == self.entries@[e].0@ by {
                        if e < i {
                            let k = choose|k: int|
                                0 <= k < out0.len() && #[trigger] out0[k]@ == self.entries@[e].0@;
                            assert(out@[k] == out0[k]);
                            assert(0 <= k < out@.len() && out@[k]@ == self.entries@[e].0@);
                        } else {
                            assert(out@[out0.len() as int]@ == self.entries@[e].0@);
                        }
                    }
                    assert forall|k1: int, k2: int|
                        0 <= k1 < k2 < out@.len() implies out@[k1]@ != out@[k2]@ by {
                        assert(out@[k1] == out0[k1]);
                        if k2 < out0.len() {
                            assert(out@[k2] == out0[k2]);
                        } else {
                            assert(out@[k2] == self.entries@[i as int].0);
                        }
                    }
                }
            } else {
                proof {
                    let name = self.entries@[i as int].0@;
                    lemma_last_index_named(self.entries@, name, i as int);
                    lemma_entries_map_found(self.entries@, name, last_index_named(self.entries@, name));
                    assert(last is Some);
                    let idx = last->Some_0;
                    assert(self.entries@[idx as int].0@ == name);
                    assert(i < idx < self.entries@.len());
                    assert(!spec_is_last_named(self.entries@, i as int));
                    assert forall|e: int|
                        0 <= e < i + 1 && #[trigger] spec_is_last_named(self.entries@, e) implies
                        exists|k: int|
                            0 <= k < out@.len() && #[trigger] out@[k]@ == self.entries@[e].0@ by {
                        assert(e != i);
                    }
                }
            }
            i = i + 1;
        }
        proof {
            assert forall|k: int| 0 <= k < out@.len() implies self@.contains_key(
                #[trigger] out@[k]@,
            ) by {
                let e = picked[k];
                lemma_entries_map_found(self.entries@, out@[k]@, e);
            }
            assert forall|m: Seq<char>| self@.contains_key(m) implies exists|k: int|
                0 <= k < out@.len() && #[trigger] out@[k]@ == m by {
                lemma_entries_map_key_has_entry(self.entries@, m);
                let j0 = choose|j0: int|
                    0 <= j0 < self.entries@.len() && #[trigger] self.entries@[j0].0@ == m;
                lemma_last_index_named(self.entries@, m, j0);
                let last = last_index_named(self.entries@, m);
                assert(spec_is_last_named(self.entries@, last));
            }
        }
        out
    }

    /// The index of the handler registered under the name, if any: the
    /// latest registration wins.
    fn find(&self, method: &str) -> (r: Option<usize>)
        ensures
            r matches Some(i) ==> self@.contains_key(method@) && i < self.entries@.len()
                && self.entries@[i as int].0@ == method@ && self.entries@[i as int].1 == self@[method@]
                && (forall|t: int|
                i < t < self.entries@.len() ==> #[trigger] self.entries@[t].0@ != method@),
            r is None ==> !self@.contains_key(method@),
    {
        let needle: String = method.to_owned();
        let mut i: usize = self.entries.len();
        while i > 0
            invariant
                i <= self.entries@.len(),
                needle@ == method@,
                forall|j: int| i <= j < self.entries@.len() ==> self.entries@[j].0@ != method@,
            decreases i,
        {
            i = i - 1;
            let entry = &self.entries[i];
            if entry.0 == needle {
                proof {
                    lemma_entries_map_found(self.entries@, method@, i as int);
                }
                return Some(i);
            }
        }
        proof {
            lemma_entries_map_absent(self.entries@, method@);
        }
        None
    }
}

/// The last index holding an entry of the given name.
spec fn last_index_named<H>(entries: Seq<(String, H)>, m: Seq<char>) -> int
    decreases entries.len(),
{
    if entries.len() == 0 {
        -1
    } else if entries.last().0@ == m {
        entries.len() - 1
    } else {
        last_index_named(entries.drop_last(), m)
    }
}

/// An entry named `m` guarantees that `last_index_named` finds the last one.
proof fn lemma_last_index_named<H>(entries: Seq<(String, H)>, m: Seq<char>, i: int)
    requires
        0 <= i < entries.len(),
        entries[i].0@ == m,
    ensures
        ({
            let last = last_index_named(entries, m);
            &&& i <= last < entries.len()
            &&& entries[last].0@ == m
            &&& forall|j: int| last < j < entries.len() ==> entries[j].0@ != m
        }),
    decreases entries.len(),
{
    if entries.last().0@ == m {
    } else {
        lemma_last_index_named(entries.drop_last(), m, i);
        let last = last_index_named(entries, m);
        assert(entries.drop_last()[last] == entries[last]);
        assert forall|j: int| last < j < entries.len() implies entries[j].0@ != m by {
            if j < entries.len() - 1 {
                assert(entries.drop_last()[j] == entries[j]);
            } else {
                assert(entries[j] == entries.last());
            }
        }
    }
}

impl<H: Handler> HandlerRegistry<H> {
    /// Looks the method up and runs its handler; `None` when no handler is
    /// registered under the name. A `Some` outcome is the registered
    /// handler's own answer to this payload.
    pub fn dispatch(&self, method: &str, payload: &str) -> (r: Option<Result<String, String>>)
        ensures
            r is Some <==> self@.contains_key(method@),
            r matches Some(out) ==> call_ensures(H::handle, (&self@[method@], payload), out),
    {
        match self.find(method) {
            Some(i) => {
                let entry = &self.entries[i];
                Some(entry.1.handle(payload))
            },
            None => None,
        }
    }
}

impl<S: StreamHandler> HandlerRegistry<S> {
    /// Looks the method up and starts its stream handler; `None` when no
    /// handler is registered under the name. A `Some` outcome is the
    /// registered handler's own batch for this payload.
    pub fn dispatch_stream(&self, method: &str, payload: &str) -> (r: Option<
        Result<Vec<String>, String>,
    >)
        ensures
            r is Some <==> self@.contains_key(method@),
            r matches Some(out) ==> call_ensures(S::start, (&self@[method@], payload), out),
    {
        match self.find(method) {
            Some(i) => {
                let entry = &self.entries[i];
                Some(entry.1.start(payload))
            },
            None => None,
        }
    }
}

/// The JSON error document carrying the given text under `message`.
pub open spec fn spec_error_payload(text: Seq<char>) -> Seq<char> {
    "{\"message\":"@ + spec_json_quoted(text) + "}"@
}

/// Writes the JSON error document carrying the given text under `message`.
pub fn error_payload(text: &str) -> (r: String)
    ensures
        r@ == spec_error_payload(text@),
{
    let mut out = String::from_str("{\"message\":");
    let quoted = quote_string(text);
    out.append(quoted.as_str());
    out.append("}");
    out
}

/// The response message for a handler outcome: the handler's document as a
/// Response on success, its text wrapped in an error document as an Error
/// message on failure. The response always carries the request's id and
/// method.
pub fn response_for_outcome(id: u64, method: String, outcome: Result<String, String>) -> (r:
    ProtocolMessage)
    ensures
        r.id == id,
        r.method@ == method@,
        outcome matches Ok(doc) ==> r.msg_type == MessageType::Response && r.payload@ == doc@,
        outcome matches Err(text) ==> r.msg_type == MessageType::Error && r.payload@
            == spec_error_payload(text@),
{
    match outcome {
        Ok(doc) => ProtocolMessage::new(id, method, MessageType::Response, doc),
        Err(text) => {
            let payload = error_payload(text.as_str());
            ProtocolMessage::new(id, method, MessageType::Error, payload)
        },
    }
}

/// The text of the error answering a request for an unregistered method.
pub open spec fn spec_method_not_found(method: Seq<char>) -> Seq<char> {
    "Method not found: "@ + method
}

/// One element of a server-driven stream, carrying the item's document.
pub fn stream_data_message(id: u64, method: String, item: String) -> (r: ProtocolMessage)
    ensures
        r.id == id && r.method@ == method@ && r.msg_type == MessageType::StreamData && r.payload@
            == item@,
{
    ProtocolMessage::new(id, method, MessageType::StreamData, item)
}

/// The orderly end of a server-driven stream.
pub fn stream_end_message(id: u64, method: String) -> (r: ProtocolMessage)
    ensures
        r.id == id && r.method@ == method@ && r.msg_type == MessageType::StreamEnd && r.payload@
            == "{}"@,
{
    ProtocolMessage::new(id, method, MessageType::StreamEnd, String::from_str("{}"))
}

/// The error tearing a server-driven stream down, carrying the text.
pub fn stream_error_message(id: u64, method: String, text: &str) -> (r: ProtocolMessage)
    ensures
        r.id == id && r.method@ == method@ && r.msg_type == MessageType::Error && r.payload@
            == spec_error_payload(text@),
{
    let payload = error_payload(text);
    ProtocolMessage::new(id, method, MessageType::Error, payload)
}

/// The whole wire image of a finite stream: one StreamData message per item,
/// in order, then a StreamEnd.
pub fn stream_messages(id: u64, method: &str, items: Vec<String>) -> (r: Vec<ProtocolMessage>)
    ensures
        r@.len() == items@.len() + 1,
        forall|i: int|
            0 <= i < items@.len() ==> (#[trigger] r@[i]).msg_type == MessageType::StreamData
                && r@[i].id == id && r@[i].method@ == method@ && r@[i].payload@ == items@[i]@,
        r@.last().msg_type == MessageType::StreamEnd && r@.last().id == id && r@.last().method@
            == method@,
{
    let mut out: Vec<ProtocolMessage> = Vec::new();
    let mut i: usize = 0;
    while i < items.len()
        invariant
            i <= items@.len(),
            out@.len() == i,
            forall|k: int|
                0 <= k < out@.len() ==> (#[trigger] out@[k]).msg_type == MessageType::StreamData
                    && out@[k].id == id && out@[k].method@ == method@ && out@[k].payload@
                    == items@[k]@,
        decreases items@.len() - i,
    {
        let item = items[i].clone();
        out.push(stream_data_message(id, method.to_owned(), item));
        i = i + 1;
    }
    out.push(stream_end_message(id, method.to_owned()));
    out
}

/// The call-level result a unary handler outcome maps to: the document on
/// success, its text as a `Protocol` error on failure.
pub open spec fn spec_unary_result(out: Result<String, String>) -> Result<String, NetworkError> {
    match out {
        Ok(doc) => Ok(doc),
        Err(text) => Err(NetworkError::Protocol(text)),
    }
}

/// True when the call-level stream result is the handler outcome mapped the
/// same way: the batch on success, its text as a `Protocol` error on failure.
pub open spec fn spec_stream_result_matches(
    out: Result<Vec<String>, String>,
    r: Result<Vec<String>, NetworkError>,
) -> bool {
    match out {
        Ok(items) => r == Ok::<Vec<String>, NetworkError>(items),
        Err(text) => r == Err::<Vec<String>, NetworkError>(NetworkError::Protocol(text)),
    }
}

/// The protocol server: a unary registry, a server-driven stream registry,
/// a bidirectional (system) stream registry, and a running flag; dispatch is
/// `process_message`.
pub struct ProtocolServer<H, S, B> {
    call_handlers: HandlerRegistry<H>,
    stream_handlers: HandlerRegistry<S>,
    system_stream_handlers: HandlerRegistry<B>,
    running: bool,
}

impl<H, S, B> ProtocolServer<H, S, B> {
    /// The registered unary handlers.
    pub closed spec fn spec_call_handlers(self) -> Map<Seq<char>, H> {
        self.call_handlers@
    }

    /// The registered stream handlers.
    pub closed spec fn spec_stream_handlers(self) -> Map<Seq<char>, S> {
        self.stream_handlers@
    }

    /// The registered bidirectional (system) stream handlers.
    pub closed spec fn spec_system_stream_handlers(self) -> Map<Seq<char>, B> {
        self.system_stream_handlers@
    }

    /// Whether the accept loop is running.
    pub closed spec fn spec_running(self) -> bool {
        self.running
    }

    /// A server with no handlers, not yet running.
    pub fn new() -> (r: Self)
        ensures
            r.spec_call_handlers() == Map::<Seq<char>, H>::empty(),
            r.spec_stream_handlers() == Map::<Seq<char>, S>::empty(),
            r.spec_system_stream_handlers() == Map::<Seq<char>, B>::empty(),
            !r.spec_running(),
    {
        ProtocolServer {
            call_handlers: HandlerRegistry::new(),
            stream_handlers: HandlerRegistry::new(),
            system_stream_handlers: HandlerRegistry::new(),
            running: false,
        }
    }

    /// Registers a unary handler; nothing else changes, whether or not the
    /// server is already running.
    pub fn register_handler(&mut self, method: String, handler: H)
        ensures
            final(self).spec_call_handlers() == old(self).spec_call_handlers().insert(
                method@,
                handler,
            ),
            final(self).spec_stream_handlers() == old(self).spec_stream_handlers(),
            final(self).spec_system_stream_handlers() == old(self).spec_system_stream_handlers(),
            final(self).spec_running() == old(self).spec_running(),
    {
        self.call_handlers.register(method, handler);
    }

    /// Registers a unary handler; the same as `register_handler`.
    pub fn register_call_handler(&mut self, method: String, handler: H)
        ensures
            final(self).spec_call_handlers() == old(self).spec_call_handlers().insert(
                method@,
                handler,
            ),
            final(self).spec_stream_handlers() == old(self).spec_stream_handlers(),
            final(self).spec_system_stream_handlers() == old(self).spec_system_stream_handlers(),
            final(self).spec_running() == old(self).spec_running(),
    {
        self.call_handlers.register(method, handler);
    }

    /// Registers a stream handler; nothing else changes.
    pub fn register_stream_handler(&mut self, method: String, handler: S)
        ensures
            final(self).spec_stream_handlers() == old(self).spec_stream_handlers().insert(
                method@,
                handler,
            ),
            final(self).spec_call_handlers() == old(self).spec_call_handlers(),
            final(self).spec_system_stream_handlers() == old(self).spec_system_stream_handlers(),
            final(self).spec_running() == old(self).spec_running(),
    {
        self.stream_handlers.register(method, handler);
    }

    /// Registers a bidirectional (system) stream handler: the value the
    /// transport hands each accepted duplex conversation on this method to.
    /// Nothing else changes.
    pub fn register_system_stream_handler(&mut self, method: String, handler: B)
        ensures
            final(self).spec_system_stream_handlers() == old(
                self,
            ).spec_system_stream_handlers().insert(method@, handler),
            final(self).spec_call_handlers() == old(self).spec_call_handlers(),
            final(self).spec_stream_handlers() == old(self).spec_stream_handlers(),
            final(self).spec_running() == old(self).spec_running(),
    {
        self.system_stream_handlers.register(method, handler);
    }

    /// The bidirectional handler registered under the method, for the
    /// transport to hand an accepted duplex stream to.
    pub fn system_stream_handler(&self, method: &str) -> (r: Option<&B>)
        ensures
            r matches Some(h) ==> self.spec_system_stream_handlers().contains_key(method@) && *h
                == self.spec_system_stream_handlers()[method@],
            r is None ==> !self.spec_system_stream_handlers().contains_key(method@),
    {
        self.system_stream_handlers.get(method)
    }

    /// Marks the accept loop running; the registries are untouched.
    pub fn start(&mut self)
        ensures
            final(self).spec_running(),
            final(self).spec_call_handlers() == old(self).spec_call_handlers(),
            final(self).spec_stream_handlers() == old(self).spec_stream_handlers(),
            final(self).spec_system_stream_handlers() == old(self).spec_system_stream_handlers(),
    {
        self.running = true;
    }

    /// Marks the accept loop stopped; the registries are untouched.
    pub fn stop(&mut self)
        ensures
            !final(self).spec_running(),
            final(self).spec_call_handlers() == old(self).spec_call_handlers(),
            final(self).spec_stream_handlers() == old(self).spec_stream_handlers(),
            final(self).spec_system_stream_handlers() == old(self).spec_system_stream_handlers(),
    {
        self.running = false;
    }

    /// Whether the accept loop is running.
    pub fn is_running(&self) -> (r: bool)
        ensures
            r == self.spec_running(),
    {
        self.running
    }
}

impl<H: Handler, S: StreamHandler, B> ProtocolServer<H, S, B> {
    /// Answers a unary request: the registered handler's own outcome for
    /// this payload (its error text as a `Protocol` error), or
    /// `HandlerNotFound` naming the method.
    pub fn handle_call(&self, method: &str, payload: &str) -> (r: Result<String, NetworkError>)
        ensures
            !self.spec_call_handlers().contains_key(method@) <==> (r matches Err(
                NetworkError::HandlerNotFound { method: m },
            ) && m@ == method@),
            r is Err ==> (r matches Err(NetworkError::HandlerNotFound { .. }) || r matches Err(
                NetworkError::Protocol(..),
            )),
            self.spec_call_handlers().contains_key(method@) ==> exists|out: Result<String, String>|
                #[trigger] call_ensures(
                    H::handle,
                    (&self.spec_call_handlers()[method@], payload),
                    out,
                ) && r == spec_unary_result(out),
    {
        match self.call_handlers.dispatch(method, payload) {
            Some(Ok(doc)) => Ok(doc),
            Some(Err(text)) => Err(NetworkError::Protocol(text)),
            None => Err(NetworkError::HandlerNotFound { method: method.to_owned() }),
        }
    }

    /// Starts a stream: the registered handler's own batch for this payload
    /// (its error text as a `Protocol` error), or `HandlerNotFound` naming
    /// the method.
    pub fn handle_stream(&self, method: &str, payload: &str) -> (r: Result<
        Vec<String>,
        NetworkError,
    >)
        ensures
            !self.spec_stream_handlers().contains_key(method@) <==> (r matches Err(
                NetworkError::HandlerNotFound { method: m },
            ) && m@ == method@),
            r is Err ==> (r matches Err(NetworkError::HandlerNotFound { .. }) || r matches Err(
                NetworkError::Protocol(..),
            )),
            self.spec_stream_handlers().contains_key(method@) ==> exists|
                out: Result<Vec<String>, String>,
            |
                #[trigger] call_ensures(
                    S::start,
                    (&self.spec_stream_handlers()[method@], payload),
                    out,
                ) && spec_stream_result_matches(out, r),
    {
        match self.stream_handlers.dispatch_stream(method, payload) {
            Some(Ok(items)) => Ok(items),
            Some(Err(text)) => Err(NetworkError::Protocol(text)),
            None => Err(NetworkError::HandlerNotFound { method: method.to_owned() }),
        }
    }

    /// Dispatches one inbound message and returns what goes back on the same
    /// stream.
    ///
    /// A Request is answered by its handler's own outcome (wrapped by
    /// `response_for_outcome`), or by an Error naming the missing method. A
    /// Stream opening is answered by the handler's own items followed by
    /// StreamEnd, or by an Error. A BidirectionalStream opening with a
    /// registered handler gets no immediate reply — the conversation follows
    /// on the stream, which the transport hands to the handler
    /// (`system_stream_handler`) — and an unregistered one gets an Error
    /// naming the method. Any other kind is answered by an Error. Every
    /// reply carries the request's id and method.
    pub fn process_message(&self, message: &ProtocolMessage) -> (r: Vec<ProtocolMessage>)
        ensures
            message.msg_type == MessageType::BidirectionalStream
                && self.spec_system_stream_handlers().contains_key(message.method@) <==> r@.len()
                == 0,
            forall|i: int|
                0 <= i < r@.len() ==> (#[trigger] r@[i]).id == message.id && r@[i].method@
                    == message.method@,
            message.msg_type == MessageType::Request && !self.spec_call_handlers().contains_key(
                message.method@,
            ) ==> r@.len() == 1 && r@[0].msg_type == MessageType::Error && r@[0].payload@
                == spec_error_payload(spec_method_not_found(message.method@)),
            message.msg_type == MessageType::Request ==> r@.len() == 1 && (r@[0].msg_type
                == MessageType::Response || r@[0].msg_type == MessageType::Error),
            message.msg_type == MessageType::Request && self.spec_call_handlers().contains_key(
                message.method@,
            ) ==> exists|out: Result<String, String>, p: &str|
                #![auto]
                p@ == message.payload@ && call_ensures(
                    H::handle,
                    (&self.spec_call_handlers()[message.method@], p),
                    out,
                ) && (match out {
                    Ok(doc) => r@[0].msg_type == MessageType::Response && r@[0].payload@ == doc@,
                    Err(text) => r@[0].msg_type == MessageType::Error && r@[0].payload@
                        == spec_error_payload(text@),
                }),
            message.msg_type == MessageType::Stream && !self.spec_stream_handlers().contains_key(
                message.method@,
            ) ==> r@.len() == 1 && r@[0].msg_type == MessageType::Error && r@[0].payload@
                == spec_error_payload("Stream method not found: "@ + message.method@),
            message.msg_type == MessageType::Stream && self.spec_stream_handlers().contains_key(
                message.method@,
            ) ==> exists|out: Result<Vec<String>, String>, p: &str|
                #![auto]
                p@ == message.payload@ && call_ensures(
                    S::start,
                    (&self.spec_stream_handlers()[message.method@], p),
                    out,
                ) && (match out {
                    Ok(items) => r@.len() == items@.len() + 1 && (forall|i: int|
                        0 <= i < items@.len() ==> (#[trigger] r@[i]).msg_type
                            == MessageType::StreamData && r@[i].payload@ == items@[i]@)
                        && r@.last().msg_type == MessageType::StreamEnd,
                    Err(text) => r@.len() == 1 && r@[0].msg_type == MessageType::Error
                        && r@[0].payload@ == spec_error_payload(text@),
                }),
            message.msg_type == MessageType::BidirectionalStream
                && !self.spec_system_stream_handlers().contains_key(message.method@) ==> r@.len()
                == 1 && r@[0].msg_type == MessageType::Error && r@[0].payload@
                == spec_error_payload("Stream method not found: "@ + message.method@),
            message.msg_type != MessageType::Request && message.msg_type != MessageType::Stream
                && message.msg_type != MessageType::BidirectionalStream ==> r@.len() == 1
                && r@[0].msg_type == MessageType::Error && r@[0].payload@ == spec_error_payload(
                "Invalid message type"@,
            ),
    {
        let mut out: Vec<ProtocolMessage> = Vec::new();
        let payload_str = message.payload.as_str();
        match message.msg_type {
            MessageType::Request => {
                match self.call_handlers.dispatch(message.method.as_str(), payload_str) {
                    Some(outcome) => {
                        out.push(
                            response_for_outcome(message.id, message.method.clone(), outcome),
                        );
                    },
                    None => {
                        let mut text = String::from_str("Method not found: ");
                        text.append(message.method.as_str());
                        out.push(
                            stream_error_message(message.id, message.method.clone(), text.as_str()),
                        );
                    },
                }
            },
            MessageType::Stream => {
                match self.stream_handlers.dispatch_stream(message.method.as_str(), payload_str) {
                    Some(Ok(items)) => {
                        out = stream_messages(message.id, message.method.as_str(), items);
                    },
                    Some(Err(text)) => {
                        out.push(
                            stream_error_message(message.id, message.method.clone(), text.as_str()),
                        );
                    },
                    None => {
                        let mut text = String::from_str("Stream method not found: ");
                        text.append(message.method.as_str());
                        out.push(
                            stream_error_message(message.id, message.method.clone(), text.as_str()),
                        );
                    },
                }
            },
            MessageType::BidirectionalStream => {
                if !self.system_stream_handlers.contains(message.method.as_str()) {
                    let mut text = String::from_str("Stream method not found: ");
                    text.append(message.method.as_str());
                    out.push(
                        stream_error_message(message.id, message.method.clone(), text.as_str()),
                    );
                }
            },
            _ => {
                out.push(
                    stream_error_message(
                        message.id,
                        message.method.clone(),
                        "Invalid message type",
                    ),
                );
            },
        }
        out
    }
}

/// Law: registering a handler and then starting the server leaves the very
/// same state as starting and then registering — registration before or
/// after binding is indistinguishable to dispatch.
pub fn register_then_start<H, S, B>(
    server: &mut ProtocolServer<H, S, B>,
    method: String,
    handler: H,
)
    ensures
        final(server).spec_call_handlers() == old(server).spec_call_handlers().insert(
            method@,
            handler,
        ),
        final(server).spec_stream_handlers() == old(server).spec_stream_handlers(),
        final(server).spec_running(),
{
    server.register_handler(method, handler);
    server.start();
}

/// Law: the mirror of `register_then_start` — the two orders end in states
/// with identical contracts.
pub fn start_then_register<H, S, B>(
    server: &mut ProtocolServer<H, S, B>,
    method: String,
    handler: H,
)
    ensures
        final(server).spec_call_handlers() == old(server).spec_call_handlers().insert(
            method@,
            handler,
        ),
        final(server).spec_stream_handlers() == old(server).spec_stream_handlers(),
        final(server).spec_running(),
{
    server.start();
    server.register_handler(method, handler);
}

} // verus!
