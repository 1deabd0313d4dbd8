use unison::addr::{parse_server_address, parse_socket_addr, AddressError};
use unison::client::{classify_stream_message, ClientSession, StreamEvent};
use unison::dispatch::{Handler, HandlerRegistry, ProtocolServer, StreamHandler};
use unison::handlers::{EchoHandler, NumberStreamHandler, PingHandler, ServiceInfoHandler};
use unison::message::{MessageType, NetworkError, ProtocolMessage};
use unison::payload::Payloadable;
use unison::stream::{StreamState, UnisonStream};

enum TestHandler {
    Ping(PingHandler),
    Echo(EchoHandler),
    Info(ServiceInfoHandler),
    EchoTransform,
    PingPong,
    Fails,
}

impl Handler for TestHandler {
    fn handle(&self, payload: &str) -> Result<String, String> {
        match self {
            TestHandler::Ping(h) => h.handle(payload),
            TestHandler::Echo(h) => h.handle(payload),
            TestHandler::Info(h) => h.handle(payload),
            TestHandler::EchoTransform => {
                let value: serde_json::Value =
                    serde_json::from_str(payload).map_err(|e| e.to_string())?;
                let transform = value.get("transform").and_then(|v| v.as_str()).unwrap_or("");
                let data = value.get("data").cloned().unwrap_or(serde_json::Value::Null);
                let echoed = match transform {
                    "uppercase" => serde_json::Value::String(
                        data.as_str().unwrap_or_default().to_uppercase(),
                    ),
                    "reverse" => serde_json::Value::String(
                        data.as_str().unwrap_or_default().chars().rev().collect(),
                    ),
                    _ => data,
                };
                let mut out = serde_json::Map::new();
                out.insert("echoed_data".to_string(), echoed);
                serde_json::to_string(&serde_json::Value::Object(out)).map_err(|e| e.to_string())
            }
            TestHandler::PingPong => {
                let value: serde_json::Value =
                    serde_json::from_str(payload).map_err(|e| e.to_string())?;
                let msg = value.get("message").and_then(|v| v.as_str()).unwrap_or("");
                let sequence = value.get("sequence").cloned().unwrap_or(serde_json::Value::Null);
                let mut out = serde_json::Map::new();
                out.insert(
                    "message".to_string(),
                    serde_json::Value::String(format!("Pong: {}", msg)),
                );
                out.insert("sequence".to_string(), sequence);
                out.insert(
                    "server_info".to_string(),
                    serde_json::Value::String("unison test server".to_string()),
                );
                serde_json::to_string(&serde_json::Value::Object(out)).map_err(|e| e.to_string())
            }
            TestHandler::Fails => Err("handler exploded".to_string()),
        }
    }
}

struct Numbers(NumberStreamHandler);

impl StreamHandler for Numbers {
    fn start(&self, payload: &str) -> Result<Vec<String>, String> {
        self.0.start(payload)
    }
}

struct ChatTag(String);

fn server_with(
    handlers: Vec<(&str, TestHandler)>,
) -> ProtocolServer<TestHandler, Numbers, ChatTag> {
    let mut server = ProtocolServer::new();
    for (name, h) in handlers {
        server.register_handler(name.to_string(), h);
    }
    server
}

#[test]
fn ping_pong_round_trip() {
    // A ping request travels as a packet, is dispatched, and the response
    // correlates with the request id.
    let mut session = ClientSession::new();
    session.connect("[::1]:9000".to_string()).unwrap();
    let request = session
        .next_request(
            "ping".to_string(),
            r#"{"message":"Hello","sequence":3}"#.to_string(),
        )
        .unwrap();
    assert_eq!(request.id, 1);
    assert_eq!(request.msg_type, MessageType::Request);

    // Over the wire and back.
    let frame = request.clone().into_frame().unwrap();
    let bytes = frame.to_bytes();
    let received =
        ProtocolMessage::from_frame(&unison::message::ProtocolFrame::from_bytes(&bytes).unwrap())
            .unwrap();
    assert_eq!(received, request);

    let server = server_with(vec![("ping", TestHandler::PingPong)]);
    let replies = server.process_message(&received);
    assert_eq!(replies.len(), 1);
    let reply = &replies[0];
    assert_eq!(reply.id, request.id);
    assert_eq!(reply.msg_type, MessageType::Response);

    let body: serde_json::Value = serde_json::from_str(&reply.payload).unwrap();
    assert_eq!(body.get("message").unwrap().as_str().unwrap(), "Pong: Hello");
    assert_eq!(body.get("sequence").unwrap().as_i64().unwrap(), 3);
    assert!(body.get("server_info").is_some());

    let outcome = ClientSession::interpret_response(reply).unwrap();
    assert_eq!(outcome, reply.payload);
}

#[test]
fn echo_transform_scenarios() {
    let server = server_with(vec![("echo", TestHandler::EchoTransform)]);

    let request = ProtocolMessage::new(
        1,
        "echo".to_string(),
        MessageType::Request,
        r#"{"data":"hello world","transform":"uppercase"}"#.to_string(),
    );
    let reply = &server.process_message(&request)[0];
    let body: serde_json::Value = serde_json::from_str(&reply.payload).unwrap();
    assert_eq!(body.get("echoed_data").unwrap().as_str().unwrap(), "HELLO WORLD");

    let request = ProtocolMessage::new(
        2,
        "echo".to_string(),
        MessageType::Request,
        r#"{"data":"abcd","transform":"reverse"}"#.to_string(),
    );
    let reply = &server.process_message(&request)[0];
    let body: serde_json::Value = serde_json::from_str(&reply.payload).unwrap();
    assert_eq!(body.get("echoed_data").unwrap().as_str().unwrap(), "dcba");

    let request = ProtocolMessage::new(
        3,
        "echo".to_string(),
        MessageType::Request,
        r#"{"data":{"nested":{"array":[1,2,3]}},"transform":""}"#.to_string(),
    );
    let reply = &server.process_message(&request)[0];
    let body: serde_json::Value = serde_json::from_str(&reply.payload).unwrap();
    let expected: serde_json::Value =
        serde_json::from_str(r#"{"nested":{"array":[1,2,3]}}"#).unwrap();
    assert_eq!(body.get("echoed_data").unwrap(), &expected);
}

#[test]
fn method_not_found_surfaces_as_protocol_error() {
    let server = server_with(vec![]);
    let request = ProtocolMessage::new(
        7,
        "no_such_method".to_string(),
        MessageType::Request,
        "{}".to_string(),
    );
    let replies = server.process_message(&request);
    assert_eq!(replies.len(), 1);
    let reply = &replies[0];
    assert_eq!(reply.id, 7);
    assert_eq!(reply.msg_type, MessageType::Error);

    let outcome = ClientSession::interpret_response(reply);
    match outcome {
        Err(NetworkError::Protocol(text)) => {
            assert!(text.contains("Method not found: no_such_method"));
        }
        other => panic!("expected a protocol error, got {:?}", other),
    }
}

#[test]
fn handler_error_becomes_error_message() {
    let server = server_with(vec![("boom", TestHandler::Fails)]);
    let request =
        ProtocolMessage::new(9, "boom".to_string(), MessageType::Request, "{}".to_string());
    let reply = &server.process_message(&request)[0];
    assert_eq!(reply.msg_type, MessageType::Error);
    let body: serde_json::Value = serde_json::from_str(&reply.payload).unwrap();
    assert_eq!(body.get("message").unwrap().as_str().unwrap(), "handler exploded");
}

#[test]
fn large_payload_compresses_on_the_wire() {
    // A JSON string of 3000 copies of 'a': COMPRESSED set, wire payload less
    // than half the original, and the decoded payload identical.
    let mut text = String::from(r#"{"data":""#);
    text.push_str(&"a".repeat(3000));
    text.push_str(r#""}"#);
    let message = ProtocolMessage::new(1, "blob".to_string(), MessageType::Request, text.clone());
    let frame = message.into_frame().unwrap();
    let header = frame.header().unwrap();
    assert!(header.is_compressed());
    assert!(header.compressed_length > 0);
    assert!(header.compressed_length < header.payload_length / 2);

    let back = ProtocolMessage::from_frame(&frame).unwrap();
    assert_eq!(back.payload, text);
}

#[test]
fn checksum_tamper_is_caught_before_any_handler_runs() {
    let config =
        unison::config::PacketConfig::new().with_checksum(unison::config::ChecksumConfig::required());
    let message = ProtocolMessage::new(
        5,
        "ping".to_string(),
        MessageType::Request,
        r#"{"message":"hi"}"#.to_string(),
    );
    let payload_bytes = message.to_bytes().unwrap();
    let mut header =
        unison::header::UnisonPacketHeader::new(unison::header::PacketType::Data);
    let mut wire =
        unison::serialization::PacketSerializer::serialize_with_config(&mut header, &payload_bytes, &config)
            .unwrap();

    // An in-path mutator flips the last payload byte.
    let last = wire.len() - 1;
    wire[last] ^= 0x01;

    let (h, rest) = unison::serialization::PacketDeserializer::deserialize_header(&wire).unwrap();
    let result =
        unison::serialization::PacketDeserializer::deserialize_payload_with_config(&h, rest, &config);
    assert!(matches!(
        result,
        Err(unison::serialization::SerializationError::ChecksumMismatch { .. })
    ));
}

#[test]
fn bidirectional_stream_lifecycle() {
    // The client opens a duplex stream on "chat", sends three values, the
    // peer echoes each one, and close() leaves both sides inactive.
    let mut client = UnisonStream::new(11, "chat".to_string());
    let mut server = UnisonStream::new(11, "chat".to_string());
    assert!(client.is_active());
    assert!(server.is_active());

    let mut echoes = Vec::new();
    for n in 1..=3 {
        let sent = client.send_message(format!(r#"{{"n":{}}}"#, n)).unwrap();
        assert_eq!(sent.msg_type, MessageType::StreamSend);
        assert_eq!(sent.id, 11);

        // The server observes the message and echoes it back.
        let observed = server.on_message(&sent).unwrap();
        let echo = ProtocolMessage::new(11, "chat".to_string(), MessageType::StreamReceive, observed);
        let received = client.on_message(&echo).unwrap();
        echoes.push(received);
    }
    assert_eq!(echoes, vec![r#"{"n":1}"#, r#"{"n":2}"#, r#"{"n":3}"#]);

    client.close().unwrap();
    assert!(!client.is_active());
    let end = ProtocolMessage::new(11, "chat".to_string(), MessageType::StreamEnd, "{}".to_string());
    let outcome = server.on_message(&end);
    assert!(outcome.is_err());
    assert!(!server.is_active());
    assert_eq!(server.state(), StreamState::Closed);
}

#[test]
fn close_is_idempotent() {
    let mut stream = UnisonStream::new(1, "chat".to_string());
    assert!(stream.close().is_ok());
    assert!(!stream.is_active());
    assert!(stream.close().is_ok());
    assert!(!stream.is_active());
}

#[test]
fn send_and_receive_fail_after_close() {
    let mut stream = UnisonStream::new(1, "chat".to_string());
    stream.close().unwrap();
    assert!(stream.send_message("{}".to_string()).is_err());
    let msg = ProtocolMessage::new(1, "chat".to_string(), MessageType::StreamReceive, "{}".to_string());
    assert!(stream.on_message(&msg).is_err());
}

#[test]
fn disconnect_blocks_further_calls() {
    let mut session = ClientSession::new();
    assert!(!session.is_connected());
    assert!(matches!(
        session.next_request("ping".to_string(), "{}".to_string()),
        Err(NetworkError::NotConnected)
    ));

    session.connect("[::1]:9000".to_string()).unwrap();
    assert!(session.is_connected());
    assert!(session.next_request("ping".to_string(), "{}".to_string()).is_ok());

    session.disconnect();
    assert!(!session.is_connected());
    assert!(matches!(
        session.next_request("ping".to_string(), "{}".to_string()),
        Err(NetworkError::NotConnected)
    ));
}

#[test]
fn connect_is_idempotent_but_exclusive() {
    let mut session = ClientSession::new();
    session.connect("[::1]:9000".to_string()).unwrap();
    assert!(session.connect("[::1]:9000".to_string()).is_ok());
    assert!(matches!(
        session.connect("[::1]:9001".to_string()),
        Err(NetworkError::Connection(_))
    ));
}

#[test]
fn message_ids_are_fresh_per_request() {
    let mut session = ClientSession::new();
    session.connect("[::1]:9000".to_string()).unwrap();
    let mut seen = Vec::new();
    for _ in 0..5 {
        let request = session.next_request("ping".to_string(), "{}".to_string()).unwrap();
        assert!(!seen.contains(&request.id));
        seen.push(request.id);
    }
    assert_eq!(seen, vec![1, 2, 3, 4, 5]);
}

#[test]
fn many_pings_each_get_their_own_response() {
    // N requests over one session: every one is answered, no response is
    // duplicated, and each reply carries its request's id.
    let server = server_with(vec![("ping", TestHandler::Ping(PingHandler))]);
    let mut session = ClientSession::new();
    session.connect("[::1]:9000".to_string()).unwrap();

    let mut reply_ids = Vec::new();
    for _ in 0..16 {
        let request = session
            .next_request("ping".to_string(), r#"{"message":"x"}"#.to_string())
            .unwrap();
        let replies = server.process_message(&request);
        assert_eq!(replies.len(), 1);
        assert_eq!(replies[0].id, request.id);
        reply_ids.push(replies[0].id);
    }
    let mut deduped = reply_ids.clone();
    deduped.dedup();
    assert_eq!(deduped.len(), 16);
}

#[test]
fn registration_before_or_after_start_is_indistinguishable() {
    let mut early = server_with(vec![("ping", TestHandler::Echo(EchoHandler))]);
    early.start();
    let mut late: ProtocolServer<TestHandler, Numbers, ChatTag> = ProtocolServer::new();
    late.start();
    late.register_handler("ping".to_string(), TestHandler::Echo(EchoHandler));

    let request =
        ProtocolMessage::new(4, "ping".to_string(), MessageType::Request, r#"{"a":1}"#.to_string());
    let from_early = early.process_message(&request);
    let from_late = late.process_message(&request);
    assert_eq!(from_early, from_late);
}

#[test]
fn stream_dispatch_emits_items_then_end() {
    let mut server: ProtocolServer<TestHandler, Numbers, ChatTag> = ProtocolServer::new();
    server.register_stream_handler("numbers".to_string(), Numbers(NumberStreamHandler { max: 3 }));
    let request = ProtocolMessage::new(
        21,
        "numbers".to_string(),
        MessageType::Stream,
        "{}".to_string(),
    );
    let replies = server.process_message(&request);
    assert_eq!(replies.len(), 4);
    assert_eq!(replies[0].msg_type, MessageType::StreamData);
    assert_eq!(replies[0].payload, r#"{"number":0}"#);
    assert_eq!(replies[1].payload, r#"{"number":1}"#);
    assert_eq!(replies[2].payload, r#"{"number":2}"#);
    assert_eq!(replies[3].msg_type, MessageType::StreamEnd);
}

#[test]
fn builtin_handlers_answer_as_documented() {
    let pong = PingHandler::respond(r#"{"message":"Anyone there?"}"#);
    let body: serde_json::Value = serde_json::from_str(&pong).unwrap();
    assert_eq!(body.get("message").unwrap().as_str().unwrap(), "Pong: Anyone there?");

    let pong = PingHandler::respond("{}");
    let body: serde_json::Value = serde_json::from_str(&pong).unwrap();
    assert_eq!(body.get("message").unwrap().as_str().unwrap(), "Pong: Hello");

    let echoed = EchoHandler::respond(r#"{"x":1}"#);
    assert_eq!(echoed, r#"{"x":1}"#);

    let info = ServiceInfoHandler {
        service_name: "chat \"service\"".to_string(),
        version: "1.0.0".to_string(),
    };
    let body: serde_json::Value = serde_json::from_str(&info.respond()).unwrap();
    assert_eq!(body.get("service").unwrap().as_str().unwrap(), "chat \"service\"");
    assert_eq!(body.get("status").unwrap().as_str().unwrap(), "healthy");
}

#[test]
fn registry_lookup_follows_latest_registration() {
    let mut registry: HandlerRegistry<TestHandler> = HandlerRegistry::new();
    assert!(!registry.contains("echo"));
    registry.register("echo".to_string(), TestHandler::Fails);
    registry.register("echo".to_string(), TestHandler::Echo(EchoHandler));
    assert!(registry.contains("echo"));
    let outcome = registry.dispatch("echo", r#"{"k":2}"#).unwrap();
    assert_eq!(outcome.unwrap(), r#"{"k":2}"#);
    let methods = registry.list_methods();
    assert_eq!(methods, vec!["echo".to_string()]);
    registry.register("ping".to_string(), TestHandler::Ping(PingHandler));
    let mut methods = registry.list_methods();
    methods.sort();
    assert_eq!(methods, vec!["echo".to_string(), "ping".to_string()]);
}

#[test]
fn message_record_round_trips_as_bytes() {
    let message = ProtocolMessage::new(
        77,
        "chat".to_string(),
        MessageType::StreamSend,
        r#"{"n":1}"#.to_string(),
    );
    let bytes = message.to_bytes().unwrap();
    let back = ProtocolMessage::from_bytes(&bytes).unwrap();
    assert_eq!(back, message);
}

#[test]
fn truncated_message_record_is_refused() {
    let message =
        ProtocolMessage::new(1, "m".to_string(), MessageType::Request, "{}".to_string());
    let bytes = message.to_bytes().unwrap();
    assert!(ProtocolMessage::from_bytes(&bytes[..bytes.len() - 1]).is_err());
    assert!(ProtocolMessage::from_bytes(&[]).is_err());
}

#[test]
fn parse_server_address_accepts_the_documented_syntaxes() {
    let sa = parse_server_address("[::1]:9000").unwrap();
    assert_eq!(sa.address.segments, [0, 0, 0, 0, 0, 0, 0, 1]);
    assert_eq!(sa.port, 9000);

    let sa = parse_server_address("[2001:db8::7]:4000").unwrap();
    assert_eq!(sa.address.segments, [0x2001, 0xdb8, 0, 0, 0, 0, 0, 7]);
    assert_eq!(sa.port, 4000);

    let sa = parse_server_address("fe80::2:1").unwrap();
    assert_eq!(sa.address.segments, [0xfe80, 0, 0, 0, 0, 0, 2, 1]);
    assert_eq!(sa.port, 8080);

    let sa = parse_server_address("9000").unwrap();
    assert_eq!(sa.address.segments, [0, 0, 0, 0, 0, 0, 0, 1]);
    assert_eq!(sa.port, 9000);

    let sa = parse_server_address("localhost:4433").unwrap();
    assert_eq!(sa.address.segments, [0, 0, 0, 0, 0, 0, 0, 1]);
    assert_eq!(sa.port, 4433);

    let sa = parse_server_address("1:2:3:4:5:6:7:8").unwrap();
    assert_eq!(sa.address.segments, [1, 2, 3, 4, 5, 6, 7, 8]);
}

#[test]
fn parse_server_address_rejects_ipv4_and_nonsense() {
    assert_eq!(
        parse_server_address("127.0.0.1:8080"),
        Err(AddressError::Ipv4NotSupported)
    );
    assert_eq!(parse_server_address("1.2.3.4:65535"), Err(AddressError::Ipv4NotSupported));
    assert_eq!(parse_server_address("not an address"), Err(AddressError::Invalid));
    assert_eq!(parse_server_address("[::1]"), Err(AddressError::Invalid));
    assert_eq!(parse_server_address("[::1]:"), Err(AddressError::Invalid));
    assert_eq!(parse_server_address("[::1]:99999"), Err(AddressError::Invalid));
    assert_eq!(parse_server_address("1:2:3"), Err(AddressError::Invalid));
    assert_eq!(parse_server_address("1::2::3"), Err(AddressError::Invalid));
    assert_eq!(parse_server_address(":8080"), Err(AddressError::Invalid));
}

#[test]
fn parse_socket_addr_has_no_localhost_form() {
    assert!(parse_socket_addr("[::]:7000").is_ok());
    assert!(parse_socket_addr("7000").is_ok());
    assert_eq!(parse_socket_addr("localhost:7000"), Err(AddressError::Invalid));
    assert_eq!(parse_socket_addr("10.0.0.1:80"), Err(AddressError::Ipv4NotSupported));
}

#[test]
fn server_lifecycle_flags() {
    let mut server: ProtocolServer<TestHandler, Numbers, ChatTag> = ProtocolServer::new();
    assert!(!server.is_running());
    server.start();
    assert!(server.is_running());
    server.stop();
    assert!(!server.is_running());
}

#[test]
fn round_trip_laws_on_concrete_values() {
    // The codec-level law function, on a plain and a compressible payload.
    let config = unison::config::PacketConfig::new();
    let header =
        unison::header::UnisonPacketHeader::new(unison::header::PacketType::Data);
    let small = b"plain payload".to_vec();
    assert_eq!(unison::laws::payload_round_trip(header, &small, &config).unwrap(), small);

    let big = vec![b'z'; 5000];
    let header =
        unison::header::UnisonPacketHeader::new(unison::header::PacketType::Data);
    assert_eq!(unison::laws::payload_round_trip(header, &big, &config).unwrap(), big);

    let empty: Vec<u8> = Vec::new();
    let header =
        unison::header::UnisonPacketHeader::new(unison::header::PacketType::Data);
    assert_eq!(unison::laws::payload_round_trip(header, &empty, &config).unwrap(), empty);

    // The typed law function, through a message record.
    let message = ProtocolMessage::new(
        3,
        "ping".to_string(),
        MessageType::Request,
        r#"{"message":"law"}"#.to_string(),
    );
    let back = unison::laws::packet_round_trip(message.clone()).unwrap();
    assert_eq!(back, message);
}

#[test]
fn crc32_matches_the_reference_vector() {
    // With checksums on and no compression, the header's checksum field is
    // the CRC32 of the payload; the standard check vector pins it down.
    let config = unison::config::PacketConfig::new()
        .with_checksum(unison::config::ChecksumConfig::enabled());
    let mut header =
        unison::header::UnisonPacketHeader::new(unison::header::PacketType::Data);
    unison::serialization::PacketSerializer::serialize_with_config(
        &mut header,
        b"123456789",
        &config,
    )
    .unwrap();
    assert_eq!(header.checksum, 0xCBF43926);
}

#[test]
fn service_answers_its_builtin_methods() {
    let stream = UnisonStream::new(5, "service".to_string());
    let mut service =
        unison::service::UnisonService::new(unison::service::ServiceConfig::default(), stream);
    assert_eq!(service.service_name(), "unison-service");

    let ping = service.handle_request("ping", "{}", 777).unwrap();
    let body: serde_json::Value = serde_json::from_str(&ping).unwrap();
    assert_eq!(body.get("status").unwrap().as_str().unwrap(), "healthy");
    assert_eq!(body.get("timestamp_ns").unwrap().as_u64().unwrap(), 777);

    let missing = service.handle_request("no_such", "{}", 778);
    assert!(matches!(missing, Err(NetworkError::HandlerNotFound { .. })));

    let stats = service.handle_request("get_stats", "{}", 779).unwrap();
    let body: serde_json::Value = serde_json::from_str(&stats).unwrap();
    assert_eq!(body.get("requests_processed").unwrap().as_u64().unwrap(), 3);
    assert_eq!(body.get("errors_count").unwrap().as_u64().unwrap(), 1);
    assert!(body.get("uptime_seconds").is_some());

    let caps = service.handle_request("get_capabilities", "{}", 780).unwrap();
    let body: serde_json::Value = serde_json::from_str(&caps).unwrap();
    assert_eq!(body.get("capabilities").unwrap().as_array().unwrap().len(), 4);

    let metadata = vec![
        ("message_type".to_string(), "realtime".to_string()),
        ("priority".to_string(), "2".to_string()),
    ];
    let envelope = service.wrap_with_metadata(r#"{"x":1}"#, &metadata, 12345);
    let body: serde_json::Value = serde_json::from_str(&envelope).unwrap();
    assert_eq!(body.get("service_type").unwrap().as_str().unwrap(), "unison-service");
    assert_eq!(body.get("timestamp_ns").unwrap().as_u64().unwrap(), 12345);
    let meta = body.get("metadata").unwrap();
    assert_eq!(meta.get("message_type").unwrap().as_str().unwrap(), "realtime");
    assert_eq!(meta.get("priority").unwrap().as_str().unwrap(), "2");

    let notice = service.shutdown(777);
    let body: serde_json::Value = serde_json::from_str(&notice).unwrap();
    let data = body.get("data").unwrap();
    assert_eq!(data.get("type").unwrap().as_str().unwrap(), "service_shutdown");
    assert!(!service.is_active());
}

#[test]
fn handshake_records_hold_their_fields() {
    let request =
        unison::handshake::HandshakeRequest::new("1".to_string(), "demo-client".to_string());
    assert_eq!(request.protocol_version, "1");
    assert_eq!(request.client_name, "demo-client");
    assert!(request.client_version.is_none());

    let response = unison::handshake::HandshakeResponse::new(
        "1".to_string(),
        "demo-server".to_string(),
        "s-1".to_string(),
    );
    assert_eq!(response.server_name, "demo-server");
    assert_eq!(response.session_id, "s-1");
}

#[test]
fn priority_levels_are_ordered() {
    assert_eq!(unison::service::ServicePriority::Low.level(), 0);
    assert_eq!(unison::service::ServicePriority::Normal.level(), 1);
    assert_eq!(unison::service::ServicePriority::High.level(), 2);
    assert_eq!(unison::service::ServicePriority::Critical.level(), 3);
}

#[test]
fn flag_description_lists_checksum() {
    let mut flags = unison::flags::PacketFlags::new();
    flags.set(unison::flags::PacketFlags::CHECKSUM);
    assert_eq!(flags.describe(), "PacketFlags(CHECKSUM)");
}

#[test]
fn stream_consumption_classifies_messages() {
    let item = ProtocolMessage::new(1, "m".to_string(), MessageType::StreamData, "{}".to_string());
    assert_eq!(classify_stream_message(&item), StreamEvent::Item("{}".to_string()));

    let end = ProtocolMessage::new(1, "m".to_string(), MessageType::StreamEnd, "{}".to_string());
    assert_eq!(classify_stream_message(&end), StreamEvent::End);

    let error = ProtocolMessage::new(
        1,
        "m".to_string(),
        MessageType::Error,
        r#"{"message":"broke"}"#.to_string(),
    );
    assert_eq!(classify_stream_message(&error), StreamEvent::Failed("broke".to_string()));

    let error = ProtocolMessage::new(1, "m".to_string(), MessageType::Error, "{}".to_string());
    assert_eq!(
        classify_stream_message(&error),
        StreamEvent::Failed("Unknown error".to_string())
    );

    let other = ProtocolMessage::new(1, "m".to_string(), MessageType::Response, "{}".to_string());
    assert_eq!(classify_stream_message(&other), StreamEvent::Ignored);
}

#[test]
fn frames_carry_correlation_in_their_headers() {
    let request = ProtocolMessage::new(
        41,
        "ping".to_string(),
        MessageType::Request,
        "{}".to_string(),
    );
    let frame = request.into_request_frame().unwrap();
    let header = frame.header().unwrap();
    assert_eq!(header.message_id, 41);
    assert_eq!(header.response_to, 0);
    assert!(header.is_request());

    let response = ProtocolMessage::new(
        41,
        "ping".to_string(),
        MessageType::Response,
        "{}".to_string(),
    );
    let frame = response.into_response_frame(41).unwrap();
    let header = frame.header().unwrap();
    assert_eq!(header.response_to, 41);
    assert!(header.is_response());
}

#[test]
fn service_notices_are_well_formed_json() {
    let stream = UnisonStream::new(6, "service".to_string());
    let service =
        unison::service::UnisonService::new(unison::service::ServiceConfig::default(), stream);

    let heartbeat = service.heartbeat_notice(30, 1);
    let body: serde_json::Value = serde_json::from_str(&heartbeat).unwrap();
    let data = body.get("data").unwrap();
    assert_eq!(data.get("type").unwrap().as_str().unwrap(), "service_heartbeat");
    assert_eq!(data.get("interval").unwrap().as_u64().unwrap(), 30);
    let meta = body.get("metadata").unwrap();
    assert_eq!(
        meta.get("message_type").unwrap().as_str().unwrap(),
        "service_heartbeat_start"
    );
    assert_eq!(meta.get("service_name").unwrap().as_str().unwrap(), "unison-service");

    let ping = service.service_ping(2);
    let body: serde_json::Value = serde_json::from_str(&ping).unwrap();
    let data = body.get("data").unwrap();
    assert_eq!(data.get("type").unwrap().as_str().unwrap(), "service_ping");
    assert_eq!(data.get("status").unwrap().as_str().unwrap(), "healthy");
}

#[test]
fn embedded_ipv4_tails_parse_as_two_segments() {
    let sa = parse_server_address("[::ffff:192.168.0.1]:443").unwrap();
    assert_eq!(sa.address.segments, [0, 0, 0, 0, 0, 0xffff, 0xc0a8, 0x0001]);
    assert_eq!(sa.port, 443);

    let sa = parse_server_address("::1.2.3.4").unwrap();
    assert_eq!(sa.address.segments, [0, 0, 0, 0, 0, 0, 0x0102, 0x0304]);

    let sa = parse_server_address("1:2:3:4:5:6:7.8.9.10").unwrap();
    assert_eq!(sa.address.segments, [1, 2, 3, 4, 5, 6, 0x0708, 0x090a]);

    // The quad may only stand at the end, and its octets are bounded.
    assert_eq!(parse_server_address("1.2.3.4::"), Err(AddressError::Invalid));
    assert_eq!(parse_server_address("::ffff:1.2.3.400"), Err(AddressError::Invalid));
    assert_eq!(parse_server_address("::ffff:1.2.3"), Err(AddressError::Invalid));
}

#[test]
fn oversized_message_record_fails_as_too_large() {
    // A payload of the full default maximum makes the record itself exceed
    // it once the fixed record framing is added.
    let message = ProtocolMessage::new(
        1,
        "blob".to_string(),
        MessageType::Request,
        "a".repeat(16 * 1024 * 1024),
    );
    let result = message.into_frame();
    assert!(matches!(
        result,
        Err(unison::serialization::SerializationError::PacketTooLarge { .. })
    ));
}

#[test]
fn overdeep_json_values_are_rejected_not_smuggled() {
    // The serializer tracks no depth while the parser enforces a recursion
    // limit, so a deeply nested value prints to a document that would not
    // parse back; the library rejects it instead of carrying it.
    let mut value = serde_json::Value::Null;
    for _ in 0..200 {
        value = serde_json::Value::Array(vec![value]);
    }
    assert!(unison::payload::JsonPayload::new(&value).is_err());
    assert!(ProtocolMessage::new_with_json(1, "m".to_string(), MessageType::Request, &value)
        .is_err());

    // A value within the limit still goes through.
    let shallow: serde_json::Value = serde_json::from_str(r#"{"a":[1,2]}"#).unwrap();
    assert!(unison::payload::JsonPayload::new(&shallow).is_ok());
    assert!(ProtocolMessage::new_with_json(2, "m".to_string(), MessageType::Request, &shallow)
        .is_ok());
}

#[test]
fn bidirectional_openings_are_dispatched_by_registration() {
    let mut server = server_with(vec![]);
    let opening = ProtocolMessage::new(
        31,
        "chat".to_string(),
        MessageType::BidirectionalStream,
        "{}".to_string(),
    );

    // Unregistered: one error reply naming the method.
    let replies = server.process_message(&opening);
    assert_eq!(replies.len(), 1);
    assert_eq!(replies[0].msg_type, MessageType::Error);
    let body: serde_json::Value = serde_json::from_str(&replies[0].payload).unwrap();
    assert_eq!(
        body.get("message").unwrap().as_str().unwrap(),
        "Stream method not found: chat"
    );
    assert!(server.system_stream_handler("chat").is_none());

    // Registered: no immediate reply — the conversation follows on the
    // stream, which the transport hands to the registered handler.
    server.register_system_stream_handler("chat".to_string(), ChatTag("chat room".to_string()));
    let replies = server.process_message(&opening);
    assert_eq!(replies.len(), 0);
    let handler = server.system_stream_handler("chat").unwrap();
    assert_eq!(handler.0, "chat room");
}
