//! The service layer: configuration, counters, built-in service methods,
//! and the metadata envelope around outgoing values.
use vstd::prelude::*;

use crate::dispatch::spec_error_payload;
use crate::json::{quote_string, spec_json_quoted};
use crate::message::NetworkError;
use crate::stream::{StreamHandle, UnisonStream};

verus! {

/// How urgent a service's traffic is.
#[derive(Debug, Clone, Copy, PartialEq, Eq, Structural)]
pub enum ServicePriority {
    /// Background traffic.
    Low,
    /// Ordinary traffic.
    Normal,
    /// Latency-sensitive traffic.
    High,
    /// Must-not-wait traffic.
    Critical,
}

impl ServicePriority {
    /// The numeric level, low to critical.
    pub fn level(&self) -> (r: u8)
        ensures
            *self == ServicePriority::Low ==> r == 0,
            *self == ServicePriority::Normal ==> r == 1,
            *self == ServicePriority::High ==> r == 2,
            *self == ServicePriority::Critical ==> r == 3,
    {
        match self {
            ServicePriority::Low => 0,
            ServicePriority::Normal => 1,
            ServicePriority::High => 2,
            ServicePriority::Critical => 3,
        }
    }
}

/// A service's configuration.
#[derive(Debug, Clone, PartialEq, Eq)]
pub struct ServiceConfig {
    /// The service's name.
    pub service_name: String,
    /// The service's version.
    pub service_version: String,
    /// Buffer size for the service's channels, in bytes.
    pub buffer_size: usize,
    /// Largest accepted message, in bytes.
    pub max_message_size: usize,
    /// Heartbeat cadence in seconds, or none.
    pub heartbeat_interval_secs: Option<u64>,
    /// Traffic priority.
    pub priority: ServicePriority,
    /// Whether delivery is reliable (it is, over QUIC streams).
    pub reliable_delivery: bool,
    /// Whether delivery is ordered (it is, within one QUIC stream).
    pub ordered_delivery: bool,
    /// How many requests may run at once.
    pub max_concurrent_requests: u32,
    /// How long to wait for a request, in seconds.
    pub request_timeout_secs: u64,
}

impl Default for ServiceConfig {
    /// The default service: 1 MiB buffers, 8 MiB messages, a 30-second
    /// heartbeat, normal priority, reliable and ordered delivery.
    fn default() -> (r: Self)
        ensures
            r.service_name@ == "unison-service"@,
            r.service_version@ == "1.0.0"@,
            r.buffer_size == 1024 * 1024,
            r.max_message_size == 8 * 1024 * 1024,
            r.heartbeat_interval_secs == Some(30u64),
            r.priority == ServicePriority::Normal,
            r.reliable_delivery,
            r.ordered_delivery,
            r.max_concurrent_requests == 100,
            r.request_timeout_secs == 30,
    {
        ServiceConfig {
            service_name: String::from_str("unison-service"),
            service_version: String::from_str("1.0.0"),
            buffer_size: 1024 * 1024,
            max_message_size: 8 * 1024 * 1024,
            heartbeat_interval_secs: Some(30),
            priority: ServicePriority::Normal,
            reliable_delivery: true,
            ordered_delivery: true,
            max_concurrent_requests: 100,
            request_timeout_secs: 30,
        }
    }
}

/// A service's performance counters.
#[derive(Debug, Clone, Copy, PartialEq, Eq, Structural, Default)]
pub struct ServiceCounters {
    /// Requests answered, errors included.
    pub requests_processed: u64,
    /// Requests that ended in an error.
    pub errors_count: u64,
}

/// The seconds elapsed between two nanosecond clock readings; zero when the
/// clock ran backwards.
pub open spec fn spec_uptime_secs(started_at_ns: u64, now_ns: u64) -> u64 {
    if now_ns >= started_at_ns {
        (((now_ns - started_at_ns) as u64) / 1000000000u64) as u64
    } else {
        0
    }
}

/// The document `get_stats` answers with: the counters and the uptime.
pub open spec fn spec_stats_payload(counters: ServiceCounters, uptime_secs: u64) -> Seq<char> {
    "{\"requests_processed\":"@ + crate::handlers::spec_decimal(counters.requests_processed as nat)
        + ",\"errors_count\":"@ + crate::handlers::spec_decimal(counters.errors_count as nat)
        + ",\"uptime_seconds\":"@ + crate::handlers::spec_decimal(uptime_secs as nat) + "}"@
}

/// The document `ping` answers with.
pub open spec fn spec_service_ping_payload(
    name: Seq<char>,
    version: Seq<char>,
    timestamp_ns: nat,
) -> Seq<char> {
    "{\"service\":"@ + spec_json_quoted(name) + ",\"version\":"@ + spec_json_quoted(version)
        + ",\"status\":\"healthy\",\"timestamp_ns\":"@ + crate::handlers::spec_decimal(
        timestamp_ns,
    ) + "}"@
}

/// The document `get_capabilities` answers with.
pub open spec fn spec_capabilities_payload(name: Seq<char>) -> Seq<char> {
    "{\"capabilities\":[\"ping\",\"heartbeat\",\"get_stats\",\"get_capabilities\"],\"service\":"@
        + spec_json_quoted(name) + "}"@
}

/// The key and value texts of a run of metadata pairs.
pub open spec fn spec_pair_views(pairs: Seq<(String, String)>) -> Seq<(Seq<char>, Seq<char>)> {
    pairs.map(|i: int, p: (String, String)| (p.0@, p.1@))
}

/// The members of a metadata object, in order: quoted key, colon, quoted
/// value, comma-separated.
pub open spec fn spec_metadata_pairs(pairs: Seq<(Seq<char>, Seq<char>)>) -> Seq<char>
    decreases pairs.len(),
{
    if pairs.len() == 0 {
        Seq::empty()
    } else if pairs.len() == 1 {
        spec_json_quoted(pairs[0].0) + ":"@ + spec_json_quoted(pairs[0].1)
    } else {
        spec_metadata_pairs(pairs.drop_last()) + ","@ + spec_json_quoted(pairs.last().0) + ":"@
            + spec_json_quoted(pairs.last().1)
    }
}

/// A metadata object: the pairs in braces.
pub open spec fn spec_metadata_object(pairs: Seq<(Seq<char>, Seq<char>)>) -> Seq<char> {
    "{"@ + spec_metadata_pairs(pairs) + "}"@
}

/// Writes a metadata object.
fn metadata_object(pairs: &Vec<(String, String)>) -> (r: String)
    ensures
        r@ == spec_metadata_object(spec_pair_views(pairs@)),
{
    let ghost views = spec_pair_views(pairs@);
    proof {
        assert(views.len() == pairs@.len());
    }
    let mut out = String::from_str("{");
    let mut i: usize = 0;
    while i < pairs.len()
        invariant
            i <= pairs@.len(),
            views == spec_pair_views(pairs@),
            views.len() == pairs@.len(),
            out@ == "{"@ + spec_metadata_pairs(views.take(i as int)),
        decreases pairs@.len() - i,
    {
        if i > 0 {
            out.append(",");
        }
        let entry = &pairs[i];
        let key = quote_string(entry.0.as_str());
        out.append(key.as_str());
        out.append(":");
        let value = quote_string(entry.1.as_str());
        out.append(value.as_str());
        proof {
            assert(views[i as int] == (pairs@[i as int].0@, pairs@[i as int].1@));
            assert(views.take(i + 1).drop_last() =~= views.take(i as int));
            assert(views.take(i + 1).last() == views[i as int]);
            assert(views.take(i + 1)[0] == views[0]);
            assert(out@ =~= "{"@ + spec_metadata_pairs(views.take(i + 1)));
        }
        i = i + 1;
    }
    out.append("}");
    proof {
        assert(views.take(views.len() as int) =~= views);
        assert(out@ =~= spec_metadata_object(views));
    }
    out
}

/// The metadata every service notice carries: the message kind and the
/// service's name.
pub open spec fn spec_notice_metadata(message_type: Seq<char>, name: Seq<char>) -> Seq<
    (Seq<char>, Seq<char>),
> {
    seq![("message_type"@, message_type), ("service_name"@, name)]
}

/// The envelope around an outgoing value: the value, the caller's metadata
/// pairs, the service's identity, and a timestamp slot the caller fills.
pub open spec fn spec_metadata_envelope(
    data: Seq<char>,
    metadata: Seq<(Seq<char>, Seq<char>)>,
    service_type: Seq<char>,
    name: Seq<char>,
    version: Seq<char>,
    timestamp_ns: nat,
) -> Seq<char> {
    "{\"data\":"@ + data + ",\"metadata\":"@ + spec_metadata_object(metadata)
        + ",\"service_type\":"@ + spec_json_quoted(service_type) + ",\"service_name\":"@
        + spec_json_quoted(name) + ",\"service_version\":"@ + spec_json_quoted(version)
        + ",\"timestamp_ns\":"@ + crate::handlers::spec_decimal(timestamp_ns) + "}"@
}

/// A service: its configuration, its counters, and the duplex stream it
/// owns. The four built-in methods are `ping`, `get_stats`,
/// `get_capabilities`, and a shutdown notice.
pub struct UnisonService {
    config: ServiceConfig,
    counters: ServiceCounters,
    stream: UnisonStream,
    started_at_ns: u64,
}

impl UnisonService {
    /// The configuration.
    pub closed spec fn spec_config(self) -> ServiceConfig {
        self.config
    }

    /// The counters.
    pub closed spec fn spec_counters(self) -> ServiceCounters {
        self.counters
    }

    /// The owned duplex stream.
    pub closed spec fn spec_stream(self) -> UnisonStream {
        self.stream
    }

    /// When the service started, nanoseconds since the Unix epoch.
    pub closed spec fn spec_started_at(self) -> u64 {
        self.started_at_ns
    }

    /// Wraps a configuration and a duplex stream as a service with zeroed
    /// counters.
    pub fn new(config: ServiceConfig, stream: UnisonStream) -> (r: Self)
        ensures
            r.spec_config() == config,
            r.spec_counters() == (ServiceCounters { requests_processed: 0, errors_count: 0 }),
            r.spec_stream() == stream,
    {
        UnisonService {
            config,
            counters: ServiceCounters { requests_processed: 0, errors_count: 0 },
            stream,
            started_at_ns: crate::header::now_unix_nanos(),
        }
    }

    /// The service's kind tag.
    pub fn service_type(&self) -> (r: &str)
        ensures
            r@ == "unison-service"@,
    {
        "unison-service"
    }

    /// The service's name.
    pub fn service_name(&self) -> (r: &str)
        ensures
            r@ == self.spec_config().service_name@,
    {
        self.config.service_name.as_str()
    }

    /// The service's version.
    pub fn version(&self) -> (r: &str)
        ensures
            r@ == self.spec_config().service_version@,
    {
        self.config.service_version.as_str()
    }

    /// The configuration.
    pub fn get_config(&self) -> (r: &ServiceConfig)
        ensures
            *r == self.spec_config(),
    {
        &self.config
    }

    /// The counters.
    pub fn get_counters(&self) -> (r: ServiceCounters)
        ensures
            r == self.spec_counters(),
    {
        self.counters
    }

    /// The administrative handle of the owned stream.
    pub fn get_handle(&self) -> (r: StreamHandle)
        ensures
            r.stream_id == self.spec_stream().spec_stream_id(),
            r.method@ == self.spec_stream().spec_method(),
    {
        self.stream.get_handle()
    }

    /// True while the owned stream is usable.
    pub fn is_active(&self) -> (r: bool)
        ensures
            r == self.spec_stream().spec_active(),
    {
        self.stream.is_active()
    }

    /// The built-in method names.
    pub fn get_capabilities(&self) -> (r: Vec<String>)
        ensures
            r@.len() == 4,
            r@[0]@ == "ping"@,
            r@[1]@ == "heartbeat"@,
            r@[2]@ == "get_stats"@,
            r@[3]@ == "get_capabilities"@,
    {
        let mut out: Vec<String> = Vec::new();
        out.push(String::from_str("ping"));
        out.push(String::from_str("heartbeat"));
        out.push(String::from_str("get_stats"));
        out.push(String::from_str("get_capabilities"));
        out
    }

    /// Answers one of the built-in methods and counts the request: `ping`
    /// reports health with the given clock reading, `get_stats` the counters
    /// and the uptime, `get_capabilities` the method names; anything else
    /// counts as an error and fails with `HandlerNotFound`.
    pub fn handle_request(&mut self, method: &str, _payload: &str, now_ns: u64) -> (r: Result<
        String,
        NetworkError,
    >)
        ensures
            final(self).spec_config() == old(self).spec_config(),
            final(self).spec_stream() == old(self).spec_stream(),
            final(self).spec_started_at() == old(self).spec_started_at(),
            final(self).spec_counters().requests_processed == spec_saturating_inc(
                old(self).spec_counters().requests_processed,
            ),
            method@ == "ping"@ ==> (r matches Ok(doc) && doc@ == spec_service_ping_payload(
                old(self).spec_config().service_name@,
                old(self).spec_config().service_version@,
                now_ns as nat,
            ) && final(self).spec_counters().errors_count == old(self).spec_counters().errors_count),
            method@ == "get_stats"@ ==> (r matches Ok(doc) && doc@ == spec_stats_payload(
                final(self).spec_counters(),
                spec_uptime_secs(old(self).spec_started_at(), now_ns),
            )),
            method@ == "get_capabilities"@ ==> (r matches Ok(doc) && doc@
                == spec_capabilities_payload(old(self).spec_config().service_name@)),
            method@ != "ping"@ && method@ != "get_stats"@ && method@ != "get_capabilities"@ ==> (
            r matches Err(NetworkError::HandlerNotFound { method: m }) && m@ == method@ && final(self).spec_counters().errors_count == spec_saturating_inc(
                old(self).spec_counters().errors_count,
            )),
    {
        proof {
            reveal_strlit("ping");
            reveal_strlit("get_stats");
            reveal_strlit("get_capabilities");
            assert("ping"@.len() == 4);
            assert("get_stats"@.len() == 9);
            assert("get_capabilities"@.len() == 16);
        }
        if self.counters.requests_processed < u64::MAX {
            self.counters.requests_processed = self.counters.requests_processed + 1;
        }
        let ping: String = String::from_str("ping");
        let get_stats: String = String::from_str("get_stats");
        let get_capabilities: String = String::from_str("get_capabilities");
        let method_string: String = method.to_owned();
        if method_string == ping {
            let mut out = String::from_str("{\"service\":");
            let name = quote_string(self.config.service_name.as_str());
            out.append(name.as_str());
            out.append(",\"version\":");
            let version = quote_string(self.config.service_version.as_str());
            out.append(version.as_str());
            out.append(",\"status\":\"healthy\",\"timestamp_ns\":");
            let stamp = crate::handlers::u64_to_decimal(now_ns);
            out.append(stamp.as_str());
            out.append("}");
            assert(out@ =~= spec_service_ping_payload(
                self.config.service_name@,
                self.config.service_version@,
                now_ns as nat,
            ));
            Ok(out)
        } else if method_string == get_stats {
            let uptime: u64 = if now_ns >= self.started_at_ns {
                (now_ns - self.started_at_ns) / 1000000000
            } else {
                0
            };
            let mut out = String::from_str("{\"requests_processed\":");
            let requests = crate::handlers::u64_to_decimal(self.counters.requests_processed);
            out.append(requests.as_str());
            out.append(",\"errors_count\":");
            let errors = crate::handlers::u64_to_decimal(self.counters.errors_count);
            out.append(errors.as_str());
            out.append(",\"uptime_seconds\":");
            let up = crate::handlers::u64_to_decimal(uptime);
            out.append(up.as_str());
            out.append("}");
            assert(out@ =~= spec_stats_payload(
                self.counters,
                spec_uptime_secs(self.started_at_ns, now_ns),
            ));
            Ok(out)
        } else if method_string == get_capabilities {
            let mut out = String::from_str(
                "{\"capabilities\":[\"ping\",\"heartbeat\",\"get_stats\",\"get_capabilities\"],\"service\":",
            );
            let name = quote_string(self.config.service_name.as_str());
            out.append(name.as_str());
            out.append("}");
            assert(out@ =~= spec_capabilities_payload(self.config.service_name@));
            Ok(out)
        } else {
            if self.counters.errors_count < u64::MAX {
                self.counters.errors_count = self.counters.errors_count + 1;
            }
            Err(NetworkError::HandlerNotFound { method: method.to_owned() })
        }
    }

    /// Wraps an outgoing JSON value in the service's metadata envelope: the
    /// value, the given metadata pairs in order, the service's identity, and
    /// the given clock reading.
    pub fn wrap_with_metadata(
        &self,
        data: &str,
        metadata: &Vec<(String, String)>,
        timestamp_ns: u64,
    ) -> (r: String)
        ensures
            r@ == spec_metadata_envelope(
                data@,
                spec_pair_views(metadata@),
                "unison-service"@,
                self.spec_config().service_name@,
                self.spec_config().service_version@,
                timestamp_ns as nat,
            ),
    {
        let mut out = String::from_str("{\"data\":");
        out.append(data);
        out.append(",\"metadata\":");
        let pairs = metadata_object(metadata);
        out.append(pairs.as_str());
        out.append(",\"service_type\":");
        let service_type = quote_string(self.service_type());
        out.append(service_type.as_str());
        out.append(",\"service_name\":");
        let name = quote_string(self.config.service_name.as_str());
        out.append(name.as_str());
        out.append(",\"service_version\":");
        let version = quote_string(self.config.service_version.as_str());
        out.append(version.as_str());
        out.append(",\"timestamp_ns\":");
        let stamp = crate::handlers::u64_to_decimal(timestamp_ns);
        out.append(stamp.as_str());
        out.append("}");
        assert(out@ =~= spec_metadata_envelope(
            data@,
            spec_pair_views(metadata@),
            "unison-service"@,
            self.spec_config().service_name@,
            self.spec_config().service_version@,
            timestamp_ns as nat,
        ));
        out
    }

    /// Forms the notice announcing that heartbeats start at the given
    /// cadence.
    pub fn heartbeat_notice(&self, interval_secs: u64, timestamp_ns: u64) -> (r: String)
        ensures
            r@ == spec_metadata_envelope(
                spec_heartbeat_data(
                    self.spec_config().service_name@,
                    self.spec_config().service_version@,
                    interval_secs as nat,
                ),
                spec_notice_metadata("service_heartbeat_start"@, self.spec_config().service_name@),
                "unison-service"@,
                self.spec_config().service_name@,
                self.spec_config().service_version@,
                timestamp_ns as nat,
            ),
    {
        let mut data = String::from_str("{\"type\":\"service_heartbeat\",\"service\":");
        let name = quote_string(self.config.service_name.as_str());
        data.append(name.as_str());
        data.append(",\"version\":");
        let version = quote_string(self.config.service_version.as_str());
        data.append(version.as_str());
        data.append(",\"interval\":");
        let interval = crate::handlers::u64_to_decimal(interval_secs);
        data.append(interval.as_str());
        data.append("}");
        assert(data@ =~= spec_heartbeat_data(
            self.spec_config().service_name@,
            self.spec_config().service_version@,
            interval_secs as nat,
        ));
        let metadata = self.notice_metadata("service_heartbeat_start");
        self.wrap_with_metadata(data.as_str(), &metadata, timestamp_ns)
    }

    /// Forms a health ping.
    pub fn service_ping(&self, timestamp_ns: u64) -> (r: String)
        ensures
            r@ == spec_metadata_envelope(
                spec_service_ping_data(self.spec_config().service_name@),
                spec_notice_metadata("service_ping"@, self.spec_config().service_name@),
                "unison-service"@,
                self.spec_config().service_name@,
                self.spec_config().service_version@,
                timestamp_ns as nat,
            ),
    {
        let mut data = String::from_str("{\"type\":\"service_ping\",\"service\":");
        let name = quote_string(self.config.service_name.as_str());
        data.append(name.as_str());
        data.append(",\"status\":\"healthy\"}");
        assert(data@ =~= spec_service_ping_data(self.spec_config().service_name@));
        let metadata = self.notice_metadata("service_ping");
        self.wrap_with_metadata(data.as_str(), &metadata, timestamp_ns)
    }

    /// Forms the terminal shutdown notice and closes the owned stream. The
    /// notice is what goes on the wire; afterwards the stream is inactive.
    pub fn shutdown(&mut self, timestamp_ns: u64) -> (r: String)
        ensures
            !final(self).spec_stream().spec_active(),
            final(self).spec_config() == old(self).spec_config(),
            r@ == spec_metadata_envelope(
                spec_shutdown_data(old(self).spec_config().service_name@),
                spec_notice_metadata("service_shutdown"@, old(self).spec_config().service_name@),
                "unison-service"@,
                old(self).spec_config().service_name@,
                old(self).spec_config().service_version@,
                timestamp_ns as nat,
            ),
    {
        let mut data = String::from_str("{\"type\":\"service_shutdown\",\"service\":");
        let name = quote_string(self.config.service_name.as_str());
        data.append(name.as_str());
        data.append("}");
        assert(data@ =~= spec_shutdown_data(self.config.service_name@));
        let metadata = self.notice_metadata("service_shutdown");
        let notice = self.wrap_with_metadata(data.as_str(), &metadata, timestamp_ns);
        let closed = self.stream.close();
        proof {
            assert(closed is Ok);
        }
        notice
    }
}

impl UnisonService {
    /// The metadata pairs every service notice carries: the message kind and
    /// the service's name.
    fn notice_metadata(&self, message_type: &str) -> (r: Vec<(String, String)>)
        ensures
            spec_pair_views(r@) == spec_notice_metadata(
                message_type@,
                self.spec_config().service_name@,
            ),
    {
        let mut out: Vec<(String, String)> = Vec::new();
        out.push((String::from_str("message_type"), message_type.to_owned()));
        out.push((String::from_str("service_name"), self.config.service_name.clone()));
        proof {
            assert(spec_pair_views(out@) =~= spec_notice_metadata(
                message_type@,
                self.spec_config().service_name@,
            ));
        }
        out
    }
}

/// The inner document of the shutdown notice.
pub open spec fn spec_shutdown_data(name: Seq<char>) -> Seq<char> {
    "{\"type\":\"service_shutdown\",\"service\":"@ + spec_json_quoted(name) + "}"@
}

/// The inner document of the heartbeat-start notice.
pub open spec fn spec_heartbeat_data(
    name: Seq<char>,
    version: Seq<char>,
    interval_secs: nat,
) -> Seq<char> {
    "{\"type\":\"service_heartbeat\",\"service\":"@ + spec_json_quoted(name) + ",\"version\":"@
        + spec_json_quoted(version) + ",\"interval\":"@ + crate::handlers::spec_decimal(
        interval_secs,
    ) + "}"@
}

/// The inner document of a health ping.
pub open spec fn spec_service_ping_data(name: Seq<char>) -> Seq<char> {
    "{\"type\":\"service_ping\",\"service\":"@ + spec_json_quoted(name)
        + ",\"status\":\"healthy\"}"@
}

/// Adds one, stopping at the top of the counter's range.
pub open spec fn spec_saturating_inc(n: u64) -> u64 {
    if n < u64::MAX {
        (n + 1) as u64
    } else {
        n
    }
}

/// The error document for a failed service request (its text under
/// `message`), shared with the dispatch layer.
pub fn service_error_payload(text: &str) -> (r: String)
    ensures
        r@ == spec_error_payload(text@),
{
    crate::dispatch::error_payload(text)
}

} // verus!
