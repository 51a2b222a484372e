use mediasoup_server::error::MediaSoupError;
use mediasoup_server::json::JsonValue;
use mediasoup_server::request::{decode_request, parse_method, reply_for, Method, Request};
use mediasoup_server::session::{ConnectionEvent, Session, SessionAction};
use mediasoup_server::signaling::IncomingMessage;

fn text(s: &str) -> JsonValue {
    JsonValue::Str(s.to_string())
}

fn object(members: Vec<(&str, JsonValue)>) -> JsonValue {
    JsonValue::Object(members.into_iter().map(|(k, v)| (k.to_string(), v)).collect())
}

/// A message with the envelope fields taken out of `members`, as the
/// frame parser gives it.
fn message(members: Vec<(&str, JsonValue)>) -> IncomingMessage {
    let mut msg_type = String::new();
    let mut request_id = None;
    let mut user_id = None;
    let mut payload = Vec::new();
    for (k, v) in members {
        match (k, v) {
            ("type", JsonValue::Str(s)) => msg_type = s,
            ("requestId", JsonValue::Str(s)) => request_id = Some(s),
            ("userId", JsonValue::Str(s)) => user_id = Some(s),
            (k, v) => payload.push((k.to_string(), v)),
        }
    }
    IncomingMessage { msg_type, request_id, user_id, payload }
}

fn frame(members: Vec<(&str, JsonValue)>) -> ConnectionEvent {
    ConnectionEvent::Message(message(members))
}

fn authenticated(token: Option<&str>) -> Session {
    let mut s = Session::new(token.map(|t| t.to_string()));
    let mut fields = vec![("type", text("authenticate")), ("userId", text("user-1"))];
    if let Some(t) = token {
        fields.push(("token", text(t)));
    }
    match s.on_event(frame(fields)) {
        SessionAction::Admit { .. } => {}
        _ => panic!("expected admission"),
    }
    s
}

#[test]
fn methods_by_name() {
    assert_eq!(parse_method(&"produce".to_string()), Ok(Method::Produce));
    assert_eq!(parse_method(&"consumerResume".to_string()), Ok(Method::ResumeConsumer));
    assert_eq!(parse_method(&"getRouterRtpCapabilities".to_string()), Ok(Method::GetRouterRtpCapabilities));
    assert_eq!(
        parse_method(&"explode".to_string()),
        Err(MediaSoupError::InvalidRequest("Unknown method: explode".to_string()))
    );
}

#[test]
fn decode_produce_carries_the_payload() {
    let msg = message(vec![
        ("type", text("produce")),
        ("transportId", text("t-1")),
        ("kind", text("video")),
        ("rtpParameters", object(vec![])),
    ]);
    match decode_request(&msg) {
        Ok(Request::Produce(payload)) => {
            assert_eq!(payload.len(), 3);
            assert_eq!(payload[0], ("transportId".to_string(), text("t-1")));
        }
        _ => panic!("expected a produce request"),
    }
}

#[test]
fn decode_id_requests() {
    let msg = message(vec![("type", text("pauseProducer")), ("producerId", text("p-1"))]);
    assert!(matches!(decode_request(&msg), Ok(Request::PauseProducer(id)) if id == "p-1"));
    let msg = message(vec![("type", text("resumeProducer"))]);
    assert!(matches!(
        decode_request(&msg),
        Err(MediaSoupError::InvalidRequest(m)) if m == "Missing producerId"
    ));
    let msg = message(vec![("type", text("consumerResume")), ("consumerId", JsonValue::Number("4".to_string()))]);
    assert!(matches!(
        decode_request(&msg),
        Err(MediaSoupError::InvalidRequest(m)) if m == "Missing consumerId"
    ));
}

#[test]
fn replies_only_with_a_request_id() {
    assert!(reply_for(None, Ok(object(vec![]))).is_none());
    assert!(reply_for(None, Err(MediaSoupError::Transport("x".to_string()))).is_none());
    let ok = reply_for(Some("r".to_string()), Ok(text("d"))).unwrap();
    assert_eq!(ok.request_id.as_deref(), Some("r"));
    assert_eq!(ok.data, Some(text("d")));
    let err = reply_for(Some("r".to_string()), Err(MediaSoupError::ProducerNotFound("p".to_string()))).unwrap();
    assert_eq!(err.error.as_deref(), Some("Producer not found: p"));
    assert_eq!(err.data, None);
}

#[test]
fn authentication_admits_with_the_right_token() {
    let mut s = Session::new(Some("s3cret".to_string()));
    let action = s.on_event(frame(vec![
        ("type", text("authenticate")),
        ("requestId", text("req_1")),
        ("userId", text("user-7")),
        ("token", text("s3cret")),
    ]));
    match action {
        SessionAction::Admit { user_id, room_id, reply } => {
            assert_eq!(user_id, "user-7");
            assert_eq!(room_id, "default");
            let reply = reply.unwrap();
            assert_eq!(reply.request_id.as_deref(), Some("req_1"));
            assert_eq!(reply.data, Some(object(vec![])));
        }
        _ => panic!("expected admission"),
    }
    assert!(s.is_active());
}

#[test]
fn authentication_rejects_a_wrong_token() {
    let mut s = Session::new(Some("s3cret".to_string()));
    let action = s.on_event(frame(vec![
        ("type", text("authenticate")),
        ("requestId", text("req_1")),
        ("token", text("guess")),
    ]));
    match action {
        SessionAction::Reject { reply, error } => {
            assert_eq!(error, MediaSoupError::InvalidRequest("Invalid authentication token".to_string()));
            let reply = reply.unwrap();
            assert_eq!(reply.error.as_deref(), Some("Invalid request: Invalid authentication token"));
        }
        _ => panic!("expected rejection"),
    }
    assert!(s.is_closed());
}

#[test]
fn authentication_requires_authenticate_first() {
    let mut s = Session::new(None);
    let action = s.on_event(frame(vec![("type", text("produce")), ("transportId", text("t"))]));
    match action {
        SessionAction::Reject { reply, error } => {
            assert!(reply.is_none());
            assert_eq!(
                error,
                MediaSoupError::InvalidRequest(
                    "Authentication required: first message must be 'authenticate'".to_string()
                )
            );
        }
        _ => panic!("expected rejection"),
    }
    assert!(s.is_closed());
    // A closed session does nothing more.
    assert!(matches!(s.on_event(frame(vec![("type", text("authenticate"))])), SessionAction::Idle));
    assert!(s.is_closed());
}

#[test]
fn authentication_required_reply_carries_the_bare_text() {
    let mut s = Session::new(Some("s3cret-token".to_string()));
    match s.on_event(frame(vec![("type", text("produce")), ("requestId", text("r1"))])) {
        SessionAction::Reject { reply, error } => {
            let reply = reply.unwrap();
            assert_eq!(reply.request_id.as_deref(), Some("r1"));
            assert_eq!(
                reply.error.as_deref(),
                Some("Authentication required: first message must be 'authenticate'")
            );
            assert!(reply.data.is_none());
            assert_eq!(
                error,
                MediaSoupError::InvalidRequest(
                    "Authentication required: first message must be 'authenticate'".to_string()
                )
            );
        }
        _ => panic!("expected rejection"),
    }
    assert!(s.is_closed());
}

#[test]
fn unauthenticated_mode_admits_without_a_token_and_generates_an_id() {
    let mut s = Session::new(None);
    match s.on_event(frame(vec![("type", text("authenticate"))])) {
        SessionAction::Admit { user_id, reply, .. } => {
            assert_eq!(user_id.len(), 36);
            assert!(reply.is_none());
        }
        _ => panic!("expected admission"),
    }
}

#[test]
fn events_before_authentication() {
    let mut s = Session::new(None);
    assert!(matches!(s.on_event(ConnectionEvent::Control), SessionAction::Idle));
    assert!(!s.is_active() && !s.is_closed());
    match s.on_event(ConnectionEvent::Close) {
        SessionAction::Finish(Err(e)) => assert_eq!(e, MediaSoupError::InvalidRequest("Closed before auth".to_string())),
        _ => panic!("expected failure"),
    }

    let mut s = Session::new(None);
    match s.on_event(ConnectionEvent::Ended) {
        SessionAction::Finish(Err(e)) => assert_eq!(
            e,
            MediaSoupError::InvalidRequest("Connection closed before authentication".to_string())
        ),
        _ => panic!("expected failure"),
    }

    let mut s = Session::new(None);
    match s.on_event(ConnectionEvent::Malformed("expected value at line 1".to_string())) {
        SessionAction::Finish(Err(e)) => assert_eq!(e, MediaSoupError::Json("expected value at line 1".to_string())),
        _ => panic!("expected failure"),
    }
}

#[test]
fn active_session_dispatches_requests() {
    let mut s = authenticated(Some("tok"));
    match s.on_event(frame(vec![
        ("type", text("connectTransport")),
        ("requestId", text("req_2")),
        ("transportId", text("t-1")),
        ("dtlsParameters", object(vec![])),
    ])) {
        SessionAction::Perform { request: Request::ConnectTransport(payload), request_id } => {
            assert_eq!(payload[0], ("transportId".to_string(), text("t-1")));
            assert_eq!(request_id.as_deref(), Some("req_2"));
        }
        _ => panic!("expected a request to perform"),
    }
    assert!(s.is_active());
}

#[test]
fn active_session_answers_reauthentication_and_unknown_methods() {
    let mut s = authenticated(None);
    match s.on_event(frame(vec![("type", text("authenticate")), ("requestId", text("r"))])) {
        SessionAction::Answer { reply, failure } => {
            assert!(failure.is_none());
            assert_eq!(reply.unwrap().data, Some(object(vec![])));
        }
        _ => panic!("expected an answer"),
    }
    match s.on_event(frame(vec![("type", text("dance")), ("requestId", text("r2"))])) {
        SessionAction::Answer { reply, failure } => {
            assert_eq!(failure, Some(MediaSoupError::InvalidRequest("Unknown method: dance".to_string())));
            assert_eq!(reply.unwrap().error.as_deref(), Some("Invalid request: Unknown method: dance"));
        }
        _ => panic!("expected an answer"),
    }
    match s.on_event(frame(vec![("type", text("dance"))])) {
        SessionAction::Answer { reply, failure } => {
            assert!(reply.is_none());
            assert!(failure.is_some());
        }
        _ => panic!("expected an answer"),
    }
    assert!(matches!(s.on_event(ConnectionEvent::Malformed("bad".to_string())), SessionAction::Answer { reply: None, .. }));
    assert!(s.is_active());
}

#[test]
fn active_session_ends_cleanly_or_with_transport_errors() {
    let mut s = authenticated(None);
    assert!(matches!(s.on_event(ConnectionEvent::Close), SessionAction::Finish(Ok(()))));
    assert!(s.is_closed());

    let mut s = authenticated(None);
    match s.on_event(ConnectionEvent::Failed("reset".to_string())) {
        SessionAction::Finish(Err(e)) => assert_eq!(e, MediaSoupError::WebSocket("reset".to_string())),
        _ => panic!("expected failure"),
    }
}
