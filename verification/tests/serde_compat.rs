//! Agreement with a general-purpose structured-text serializer on the wire
//! format: what this library encodes parses as standard structured text,
//! matches the reference serializer byte for byte on sample messages, and
//! reference-serialized messages decode back.
use sim2h_wire::ClientToLib3h;
use sim2h_wire::StatusData;
use sim2h_wire::WireError;
use sim2h_wire::WireMessage;
use sim2h_wire::WIRE_VERSION;

#[test]
fn encoded_messages_parse_as_structured_text() {
    let samples = vec![
        WireMessage::Ping,
        WireMessage::Status,
        WireMessage::Error(WireError::MessageWhileInLimbo),
        WireMessage::Error(WireError::Other(String::from("a \"b\" \\ c\nd\te\u{2}"))),
        WireMessage::StatusResponse(StatusData {
            spaces: 1,
            connections: 2,
            redundant_count: 3,
            version: WIRE_VERSION,
        }),
        WireMessage::ClientToLib3h(ClientToLib3h::QueryEntry(String::from("{\"k\":[1,2]}"))),
    ];
    for msg in samples {
        let text = String::from_utf8(msg.encode()).unwrap();
        let parsed: Result<serde_json::Value, _> = serde_json::from_str(&text);
        assert!(parsed.is_ok(), "not valid structured text: {}", text);
    }
}

#[test]
fn unit_kinds_encode_as_plain_tag_strings() {
    let text = String::from_utf8(WireMessage::Ping.encode()).unwrap();
    let v: serde_json::Value = serde_json::from_str(&text).unwrap();
    assert_eq!(v, serde_json::Value::String(String::from("Ping")));
}

#[test]
fn error_encoding_matches_reference_serializer() {
    let detail = "tricky \"quotes\" \\ and \n tab \t bell \u{7} and \u{1f}";
    let msg = WireMessage::Error(WireError::Other(String::from(detail)));
    let mine = String::from_utf8(msg.encode()).unwrap();

    let mut inner = serde_json::Map::new();
    inner.insert(
        String::from("Other"),
        serde_json::Value::String(String::from(detail)),
    );
    let mut outer = serde_json::Map::new();
    outer.insert(String::from("Err"), serde_json::Value::Object(inner));
    let reference = serde_json::to_string(&serde_json::Value::Object(outer)).unwrap();

    assert_eq!(mine, reference);
}

#[test]
fn status_encoding_fields_read_back() {
    let msg = WireMessage::StatusResponse(StatusData {
        spaces: 9,
        connections: 77,
        redundant_count: 1000,
        version: WIRE_VERSION,
    });
    let text = String::from_utf8(msg.encode()).unwrap();
    let v: serde_json::Value = serde_json::from_str(&text).unwrap();
    let payload = v.get("StatusResponse").expect("tag field");
    assert_eq!(payload.get("spaces").and_then(|x| x.as_u64()), Some(9));
    assert_eq!(payload.get("connections").and_then(|x| x.as_u64()), Some(77));
    assert_eq!(payload.get("redundant_count").and_then(|x| x.as_u64()), Some(1000));
    assert_eq!(
        payload.get("version").and_then(|x| x.as_u64()),
        Some(WIRE_VERSION as u64)
    );
}

#[test]
fn reference_serialized_request_decodes() {
    let mut payload = serde_json::Map::new();
    payload.insert(
        String::from("space_address"),
        serde_json::Value::String(String::from("QmSpace")),
    );
    payload.insert(
        String::from("agent_id"),
        serde_json::Value::String(String::from("HcAgent")),
    );
    let payload = serde_json::Value::Object(payload);
    let payload_text = serde_json::to_string(&payload).unwrap();

    let mut inner = serde_json::Map::new();
    inner.insert(String::from("JoinSpace"), payload);
    let mut outer = serde_json::Map::new();
    outer.insert(String::from("ClientToLib3h"), serde_json::Value::Object(inner));
    let wire = serde_json::to_string(&serde_json::Value::Object(outer)).unwrap();

    let msg = WireMessage::decode(wire.as_bytes()).expect("reference text should decode");
    assert_eq!(
        msg,
        WireMessage::ClientToLib3h(ClientToLib3h::JoinSpace(payload_text))
    );
}
