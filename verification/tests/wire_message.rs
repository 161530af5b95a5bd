//! End-to-end exercises of the wire envelope: the encode/decode round
//! trip, decode failures, classification labels, and the priority order.
use core::cmp::Ordering;
use sim2h_wire::ClientToLib3h;
use sim2h_wire::ClientToLib3hResponse;
use sim2h_wire::Lib3hToClient;
use sim2h_wire::Lib3hToClientResponse;
use sim2h_wire::StatusData;
use sim2h_wire::WireError;
use sim2h_wire::WireMessage;
use sim2h_wire::WIRE_VERSION;

#[test]
pub fn test_wire_message() {
    let msg = WireMessage::Error(WireError::from_text("fake_error"));

    let opaque_msg = msg.encode();
    assert_eq!(
        "\"{\\\"Err\\\":{\\\"Other\\\":\\\"\\\\\\\"fake_error\\\\\\\"\\\"}}\"",
        format!("{:?}", String::from_utf8(opaque_msg.clone()).unwrap())
    );
    let roundtrip_msg = WireMessage::decode(&opaque_msg).expect("deserialize should work");
    assert_eq!(roundtrip_msg, msg);
}

fn round_trips(msg: WireMessage) {
    let bytes = msg.encode();
    let back = WireMessage::decode(&bytes).expect("decoding an encoded message should work");
    assert_eq!(back, msg);
}

#[test]
fn round_trip_unit_messages() {
    round_trips(WireMessage::Ping);
    round_trips(WireMessage::Pong);
    round_trips(WireMessage::Status);
}

#[test]
fn round_trip_errors() {
    round_trips(WireMessage::Error(WireError::MessageWhileInLimbo));
    round_trips(WireMessage::Error(WireError::Other(String::new())));
    round_trips(WireMessage::Error(WireError::Other(String::from("plain text"))));
    round_trips(WireMessage::Error(WireError::Other(String::from(
        "tricky \"quotes\" and \\slashes\\ and\nnewlines\tand \u{1} control",
    ))));
}

#[test]
fn round_trip_requests_and_responses() {
    let body = String::from("{\"space_address\":\"abc\",\"agent_id\":\"xyz\"}");
    round_trips(WireMessage::ClientToLib3h(ClientToLib3h::Bootstrap(body.clone())));
    round_trips(WireMessage::ClientToLib3h(ClientToLib3h::JoinSpace(body.clone())));
    round_trips(WireMessage::ClientToLib3h(ClientToLib3h::SendDirectMessage(body.clone())));
    round_trips(WireMessage::Lib3hToClient(Lib3hToClient::Connected(body.clone())));
    round_trips(WireMessage::Lib3hToClient(Lib3hToClient::HandleGetAuthoringEntryList(
        body.clone(),
    )));
    round_trips(WireMessage::Lib3hToClient(Lib3hToClient::HandleGetGossipingEntryList(
        body.clone(),
    )));
    round_trips(WireMessage::Lib3hToClient(Lib3hToClient::Unbound(body.clone())));
    round_trips(WireMessage::ClientToLib3hResponse(ClientToLib3hResponse::BootstrapSuccess));
    round_trips(WireMessage::ClientToLib3hResponse(ClientToLib3hResponse::FetchEntryResult(
        body.clone(),
    )));
    round_trips(WireMessage::ClientToLib3hResponse(ClientToLib3hResponse::LeaveSpaceResult));
    round_trips(WireMessage::Lib3hToClientResponse(
        Lib3hToClientResponse::HandleDropEntryResult,
    ));
    round_trips(WireMessage::Lib3hToClientResponse(
        Lib3hToClientResponse::HandleSendDirectMessageResult(body),
    ));
}

#[test]
fn round_trip_status_response() {
    let msg = WireMessage::StatusResponse(StatusData {
        spaces: 0,
        connections: 0,
        redundant_count: 0,
        version: WIRE_VERSION,
    });
    round_trips(msg);
    let msg = WireMessage::StatusResponse(StatusData {
        spaces: 7,
        connections: 123,
        redundant_count: u64::MAX,
        version: 42,
    });
    round_trips(msg);
}

#[test]
fn status_response_wire_text() {
    let msg = WireMessage::StatusResponse(StatusData {
        spaces: 3,
        connections: 25,
        redundant_count: 100,
        version: WIRE_VERSION,
    });
    assert_eq!(
        String::from_utf8(msg.encode()).unwrap(),
        "{\"StatusResponse\":{\"spaces\":3,\"connections\":25,\"redundant_count\":100,\"version\":1}}"
    );
}

#[test]
fn decode_empty_buffer_fails() {
    let err = WireMessage::decode(&[]).unwrap_err();
    assert!(matches!(err, WireError::Other(ref s) if !s.is_empty()));
}

#[test]
fn decode_malformed_inputs_fail() {
    let cases: Vec<Vec<u8>> = vec![
        b"garbage".to_vec(),
        b"{\"Err\"".to_vec(),
        b"{\"Nope\":1}".to_vec(),
        b"\"PingX\"".to_vec(),
        b"{\"StatusResponse\":{\"spaces\":}}".to_vec(),
        b"{\"Err\":{\"Other\":\"unterminated}}".to_vec(),
        vec![0xff, 0xfe, 0x00],
    ];
    for bytes in cases {
        let err = WireMessage::decode(&bytes).unwrap_err();
        assert!(matches!(err, WireError::Other(ref s) if !s.is_empty()));
    }
}

#[test]
fn ping_and_pong_compare_equal() {
    assert_eq!(WireMessage::Ping.cmp(&WireMessage::Pong), Ordering::Equal);
    assert_eq!(WireMessage::Ping.response_rank(), 0);
    assert_eq!(WireMessage::Pong.response_rank(), 0);
}

#[test]
fn responses_compare_equal_and_above_status() {
    let c2lr = WireMessage::ClientToLib3hResponse(ClientToLib3hResponse::BootstrapSuccess);
    let l2cr = WireMessage::Lib3hToClientResponse(Lib3hToClientResponse::HandleDropEntryResult);
    assert_eq!(c2lr.cmp(&l2cr), Ordering::Equal);
    assert_eq!(l2cr.cmp(&c2lr), Ordering::Equal);
    assert_eq!(c2lr.cmp(&WireMessage::Status), Ordering::Greater);
    assert_eq!(l2cr.cmp(&WireMessage::Status), Ordering::Greater);
    assert_eq!(WireMessage::Status.cmp(&c2lr), Ordering::Less);
    assert!(WireMessage::Status < c2lr);
    assert_eq!(
        WireMessage::Error(WireError::MessageWhileInLimbo).cmp(&WireMessage::Ping),
        Ordering::Equal
    );
}

#[test]
fn message_type_labels() {
    assert_eq!(WireMessage::Ping.message_type(), "Ping");
    assert_eq!(WireMessage::Pong.message_type(), "Pong");
    assert_eq!(WireMessage::Status.message_type(), "Status");
    let body = String::from("{}");
    assert_eq!(
        WireMessage::ClientToLib3h(ClientToLib3h::Bootstrap(body.clone())).message_type(),
        "[C>L]Bootstrap"
    );
    assert_eq!(
        WireMessage::ClientToLib3hResponse(ClientToLib3hResponse::BootstrapSuccess).message_type(),
        "[C<L]BootsrapSuccess"
    );
    assert_eq!(
        WireMessage::Lib3hToClient(Lib3hToClient::HandleGetAuthoringEntryList(body.clone()))
            .message_type(),
        "[L>C]HandleGetAuthoringList"
    );
    assert_eq!(
        WireMessage::Lib3hToClientResponse(Lib3hToClientResponse::HandleStoreEntryAspectResult)
            .message_type(),
        "[L<C]HandleStoreEntryAspectResult"
    );
    assert_eq!(
        WireMessage::Error(WireError::Other(String::from("detail is not shown"))).message_type(),
        "[Error] {:?}"
    );
    assert_eq!(
        WireMessage::Error(WireError::MessageWhileInLimbo).message_type(),
        "[Error] {:?}"
    );
}

#[test]
fn wire_error_conversions() {
    let e = WireError::from(String::from("boom"));
    assert_eq!(e, WireError::Other(String::from("boom")));
    let e = WireError::from_text("fake_error");
    assert_eq!(e, WireError::Other(String::from("\"fake_error\"")));
    assert_eq!(
        WireError::MessageWhileInLimbo.describe(),
        "MessageWhileInLimbo"
    );
    assert_eq!(
        WireError::Other(String::from("why \"so\"")).describe(),
        "Other(\"why \\\"so\\\"\")"
    );
}
