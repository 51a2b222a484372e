use mediasoup_server::error::MediaSoupError;
use mediasoup_server::json::{find_member, str_field, JsonValue};
use mediasoup_server::signaling::{
    media_kind_str, parse_media_kind, ConsumedResponse, CreateWebRtcTransportData,
    IncomingMessage, MediaKind, OutgoingMessage, ProduceData, ProducedResponse,
    TransportCreatedResponse,
};

fn text(s: &str) -> JsonValue {
    JsonValue::Str(s.to_string())
}

fn object(members: Vec<(&str, JsonValue)>) -> JsonValue {
    JsonValue::Object(members.into_iter().map(|(k, v)| (k.to_string(), v)).collect())
}

fn members(v: &JsonValue) -> &Vec<(String, JsonValue)> {
    match v {
        JsonValue::Object(ms) => ms,
        other => panic!("expected an object, got {:?}", other),
    }
}

fn get<'a>(v: &'a JsonValue, key: &str) -> Option<&'a JsonValue> {
    find_member(members(v), key)
}

#[test]
fn test_outgoing_response_serialization() {
    // A successful response carries the correlating requestId and a data payload.
    let response = OutgoingMessage::response("req_3".to_string(), object(vec![("id", text("producer-123"))]));
    let value = response.to_json();

    assert_eq!(get(&value, "requestId"), Some(&text("req_3")));
    assert_eq!(get(get(&value, "data").unwrap(), "id"), Some(&text("producer-123")));
    // No notification or error fields leak into a response.
    assert!(get(&value, "type").is_none());
    assert!(get(&value, "error").is_none());

    // An error response carries the error string instead of data.
    let error = OutgoingMessage::error("req_4".to_string(), "boom".to_string());
    let error_value = error.to_json();
    assert_eq!(get(&error_value, "requestId"), Some(&text("req_4")));
    assert_eq!(get(&error_value, "error"), Some(&text("boom")));
    assert!(get(&error_value, "data").is_none());
}

#[test]
fn test_outgoing_notification_serialization() {
    // Notifications use a top-level `type` plus flat fields the client reads
    // directly (producerId, userId, kind).
    let notification = OutgoingMessage::notification(
        "newProducer",
        object(vec![
            ("producerId", text("producer-123")),
            ("userId", text("user-456")),
            ("kind", text("video")),
        ]),
    );

    let value = notification.to_json();

    assert_eq!(get(&value, "type"), Some(&text("newProducer")));
    assert_eq!(get(&value, "producerId"), Some(&text("producer-123")));
    assert_eq!(get(&value, "userId"), Some(&text("user-456")));
    assert_eq!(get(&value, "kind"), Some(&text("video")));
    // A notification has no requestId (it does not expect a response).
    assert!(get(&value, "requestId").is_none());
}

#[test]
fn notification_with_non_object_fields_has_no_extra_members() {
    let n = OutgoingMessage::notification("peerLeft", text("ignored"));
    assert_eq!(n.to_json(), object(vec![("type", text("peerLeft"))]));
}

#[test]
fn response_wire_shape_is_exact() {
    let r = OutgoingMessage::response("r1".to_string(), object(vec![]));
    assert_eq!(r.to_json(), object(vec![("requestId", text("r1")), ("data", object(vec![]))]));
    let e = OutgoingMessage::error("r2".to_string(), "bad".to_string());
    assert_eq!(e.to_json(), object(vec![("requestId", text("r2")), ("error", text("bad"))]));
}

#[test]
fn media_kinds() {
    assert_eq!(parse_media_kind(&"audio".to_string()), Ok(MediaKind::Audio));
    assert_eq!(parse_media_kind(&"video".to_string()), Ok(MediaKind::Video));
    assert_eq!(
        parse_media_kind(&"Audio".to_string()),
        Err(MediaSoupError::InvalidRequest("Invalid media kind: Audio".to_string()))
    );
    assert_eq!(media_kind_str(MediaKind::Audio), "audio");
    assert_eq!(media_kind_str(MediaKind::Video), "video");
}

#[test]
fn responses_on_the_wire() {
    let produced = ProducedResponse { id: "producer-123".to_string() };
    assert_eq!(produced.to_json(), object(vec![("id", text("producer-123"))]));

    let consumed = ConsumedResponse {
        id: "c-1".to_string(),
        producer_id: "p-1".to_string(),
        kind: "video".to_string(),
        rtp_parameters: object(vec![]),
        producer_paused: true,
    };
    assert_eq!(
        consumed.to_json(),
        object(vec![
            ("id", text("c-1")),
            ("producerId", text("p-1")),
            ("kind", text("video")),
            ("rtpParameters", object(vec![])),
            ("producerPaused", JsonValue::Bool(true)),
        ])
    );

    let created = TransportCreatedResponse {
        id: "t-1".to_string(),
        ice_parameters: object(vec![]),
        ice_candidates: JsonValue::Array(vec![]),
        dtls_parameters: object(vec![]),
        sctp_parameters: None,
    };
    let v = created.to_json();
    assert_eq!(get(&v, "id"), Some(&text("t-1")));
    assert_eq!(get(&v, "iceCandidates"), Some(&JsonValue::Array(vec![])));
    assert!(get(&v, "sctpParameters").is_none());
}

#[test]
fn first_member_wins_and_string_fields() {
    let ms: Vec<(String, JsonValue)> = vec![
        ("a".to_string(), text("1")),
        ("a".to_string(), text("2")),
        ("n".to_string(), JsonValue::Null),
    ];
    assert_eq!(find_member(&ms, "a"), Some(&text("1")));
    assert_eq!(str_field(&ms, "a"), Some("1".to_string()));
    assert_eq!(str_field(&ms, "n"), None);
    assert_eq!(str_field(&ms, "missing"), None);
}

#[test]
fn duplicate_copies_nested_values() {
    let v = object(vec![
        ("list", JsonValue::Array(vec![JsonValue::Number("1.5".to_string()), JsonValue::Null])),
        ("inner", object(vec![("flag", JsonValue::Bool(false))])),
    ]);
    assert_eq!(v.duplicate(), v);
}

#[test]
fn payload_value_is_the_payload_as_an_object() {
    let message = IncomingMessage {
        msg_type: "produce".to_string(),
        request_id: Some("req_3".to_string()),
        user_id: Some("user-1".to_string()),
        payload: vec![
            ("transportId".to_string(), text("transport-7")),
            ("kind".to_string(), text("audio")),
        ],
    };
    let payload = message.payload_value();
    assert_eq!(get(&payload, "transportId"), Some(&text("transport-7")));
    assert_eq!(get(&payload, "kind"), Some(&text("audio")));
    assert!(get(&payload, "type").is_none());
    assert!(get(&payload, "requestId").is_none());
}

#[test]
fn produce_data_media_kind() {
    let data = ProduceData {
        transport_id: "t-1".to_string(),
        kind: "video".to_string(),
        rtp_parameters: object(vec![]),
        app_data: None,
    };
    assert_eq!(data.media_kind(), Ok(MediaKind::Video));
    let data = ProduceData { kind: "screen".to_string(), ..data };
    assert_eq!(
        data.media_kind(),
        Err(MediaSoupError::InvalidRequest("Invalid media kind: screen".to_string()))
    );
}

#[test]
fn create_transport_wants_sctp_only_with_capabilities() {
    let plain = CreateWebRtcTransportData { producing: Some(true), consuming: None, sctp_capabilities: None };
    assert!(!plain.wants_sctp());
    let sctp = CreateWebRtcTransportData { producing: None, consuming: Some(true), sctp_capabilities: Some(object(vec![])) };
    assert!(sctp.wants_sctp());
}
