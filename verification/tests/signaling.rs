use nicolive_chat::signaling::{
    ControlMessage, InboundFrame, SignalError, SignalStep, SignalingSession, CONNECTED, PONG,
    START_WATCHING,
};

fn message(kind: Option<&str>, view_uri: Option<&str>, stream_uri: Option<&str>) -> ControlMessage {
    ControlMessage {
        kind: kind.map(|s| s.to_string()),
        view_uri: view_uri.map(|s| s.to_string()),
        stream_uri: stream_uri.map(|s| s.to_string()),
    }
}

#[test]
fn start_watching_has_the_agreed_shape() {
    let v: serde_json::Value = serde_json::from_str(START_WATCHING).unwrap();
    let mut stream = serde_json::Map::new();
    stream.insert("quality".to_string(), serde_json::Value::from("super_high"));
    stream.insert("latency".to_string(), serde_json::Value::from("low"));
    stream.insert("chasePlay".to_string(), serde_json::Value::from(false));
    let mut data = serde_json::Map::new();
    data.insert("stream".to_string(), serde_json::Value::Object(stream));
    data.insert("reconnect".to_string(), serde_json::Value::from(false));
    let mut expected = serde_json::Map::new();
    expected.insert("type".to_string(), serde_json::Value::from("startWatching"));
    expected.insert("data".to_string(), serde_json::Value::Object(data));
    assert_eq!(v, serde_json::Value::Object(expected));
}

#[test]
fn pong_has_the_agreed_shape() {
    let v: serde_json::Value = serde_json::from_str(PONG).unwrap();
    let mut expected = serde_json::Map::new();
    expected.insert("type".to_string(), serde_json::Value::from("pong"));
    assert_eq!(v, serde_json::Value::Object(expected));
}

#[test]
fn control_message_is_read_from_text() {
    assert_eq!(
        ControlMessage::from_text("{\"type\":\"ping\"}"),
        Ok(message(Some("ping"), None, None))
    );
    assert_eq!(
        ControlMessage::from_text(
            "{\"type\":\"messageServer\",\"data\":{\"viewUri\":\"https://v\",\"vposBaseTime\":\"t\"}}"
        ),
        Ok(message(Some("messageServer"), Some("https://v"), None))
    );
    assert_eq!(
        ControlMessage::from_text("{\"type\":\"stream\",\"data\":{\"uri\":\"https://s\"}}"),
        Ok(message(Some("stream"), None, Some("https://s")))
    );
    assert_eq!(ControlMessage::from_text("{\"type\":5,\"data\":[]}"), Ok(message(None, None, None)));
    assert_eq!(ControlMessage::from_text("[]"), Ok(message(None, None, None)));
    assert_eq!(
        ControlMessage::from_text("{\"data\":{\"viewUri\":7,\"uri\":null}}"),
        Ok(message(None, None, None))
    );
}

#[test]
fn text_that_is_no_json_is_an_error() {
    match ControlMessage::from_text("ping") {
        Err(e @ SignalError::BadMessage { .. }) => {
            let expected = serde_json::from_str::<serde_json::Value>("ping").unwrap_err();
            assert_eq!(e.message(), expected.to_string());
        }
        other => panic!("unexpected {:?}", other),
    }
    let mut s = SignalingSession::new();
    assert!(matches!(s.on_text(true, "{"), Err(SignalError::BadMessage { .. })));
    assert_eq!(s.finish(), Err(SignalError::NoViewUri));
}

#[test]
fn ping_is_answered_with_pong() {
    let mut s = SignalingSession::new();
    assert_eq!(s.on_text(true, "{\"type\":\"ping\"}"), Ok(SignalStep::Reply(PONG.to_string())));
    assert_eq!(
        s.on_message(true, &message(Some("ping"), Some("https://ignored"), Some("https://ignored"))),
        SignalStep::Reply("{\"type\":\"pong\"}".to_string())
    );
    assert_eq!(s.finish(), Err(SignalError::NoViewUri));
}

#[test]
fn message_server_resolves_the_handshake() {
    let mut s = SignalingSession::new();
    assert_eq!(
        s.on_text(true, "{\"type\":\"messageServer\",\"data\":{\"viewUri\":\"https://v/1\"}}"),
        Ok(SignalStep::Resolved)
    );
    assert_eq!(s.finish(), Ok("https://v/1".to_string()));
}

#[test]
fn stream_uri_is_a_fallback_only() {
    let mut s = SignalingSession::new();
    assert_eq!(
        s.on_text(true, "{\"type\":\"stream\",\"data\":{\"uri\":\"https://s/1\"}}"),
        Ok(SignalStep::Continue)
    );
    assert_eq!(
        s.on_text(true, "{\"type\":\"stream\",\"data\":{\"uri\":\"https://s/2\"}}"),
        Ok(SignalStep::Continue)
    );
    assert_eq!(s.finish(), Ok("https://s/1".to_string()));

    let mut s = SignalingSession::new();
    s.on_message(true, &message(Some("stream"), None, Some("https://s/1")));
    assert_eq!(
        s.on_message(true, &message(Some("messageServer"), Some("https://v/1"), None)),
        SignalStep::Resolved
    );
    assert_eq!(s.finish(), Ok("https://v/1".to_string()));
}

#[test]
fn message_server_without_uri_leaves_none() {
    let mut s = SignalingSession::new();
    s.on_message(true, &message(Some("stream"), None, Some("https://s/1")));
    assert_eq!(s.on_text(true, "{\"type\":\"messageServer\",\"data\":{}}"), Ok(SignalStep::Resolved));
    assert_eq!(s.finish(), Err(SignalError::NoViewUri));
    assert_eq!(SignalError::NoViewUri.message(), "No View URI received");
}

#[test]
fn stream_without_uri_changes_nothing() {
    let mut s = SignalingSession::new();
    assert_eq!(s.on_message(true, &message(Some("stream"), None, None)), SignalStep::Continue);
    assert_eq!(s.on_message(true, &message(Some("stream"), Some("https://v"), None)), SignalStep::Continue);
    assert_eq!(s.finish(), Err(SignalError::NoViewUri));
}

#[test]
fn other_messages_are_passed_over() {
    let mut s = SignalingSession::new();
    assert_eq!(s.on_text(true, "{\"type\":\"seat\",\"data\":{\"keepIntervalSec\":30}}"), Ok(SignalStep::Continue));
    assert_eq!(s.on_text(true, "{}"), Ok(SignalStep::Continue));
    assert_eq!(s.on_text(true, "42"), Ok(SignalStep::Continue));
    assert_eq!(
        s.on_message(true, &message(Some("statistics"), Some("https://v"), Some("https://s"))),
        SignalStep::Continue
    );
    assert_eq!(s.on_message(true, &message(None, Some("https://v"), Some("https://s"))), SignalStep::Continue);
    assert_eq!(s.on_frame(true, &InboundFrame::Other), Ok(SignalStep::Continue));
    assert_eq!(s.finish(), Err(SignalError::NoViewUri));
}

#[test]
fn cancelled_session_reads_nothing() {
    let mut s = SignalingSession::new();
    assert_eq!(
        s.on_text(false, "{\"type\":\"messageServer\",\"data\":{\"viewUri\":\"https://v/1\"}}"),
        Ok(SignalStep::Cancelled)
    );
    assert_eq!(s.on_text(false, "not json"), Ok(SignalStep::Cancelled));
    assert_eq!(
        s.on_message(false, &message(Some("stream"), None, Some("https://s"))),
        SignalStep::Cancelled
    );
    assert_eq!(s.on_frame(false, &InboundFrame::Other), Ok(SignalStep::Cancelled));
    assert_eq!(
        s.on_frame(false, &InboundFrame::Failed("reset".to_string())),
        Ok(SignalStep::Cancelled)
    );
    assert_eq!(
        s.on_frame(false, &InboundFrame::Text("not json".to_string())),
        Ok(SignalStep::Cancelled)
    );
    assert_eq!(s.finish(), Err(SignalError::NoViewUri));
}

#[test]
fn connection_closed_before_any_uri_is_an_error() {
    let s = SignalingSession::new();
    assert_eq!(s.finish(), Err(SignalError::NoViewUri));
}

#[test]
fn frames_are_handled_by_kind() {
    let mut s = SignalingSession::new();
    assert_eq!(
        s.on_frame(true, &InboundFrame::Text("{\"type\":\"ping\"}".to_string())),
        Ok(SignalStep::Reply(PONG.to_string()))
    );
    assert_eq!(s.on_frame(true, &InboundFrame::Other), Ok(SignalStep::Continue));
    assert!(matches!(
        s.on_frame(true, &InboundFrame::Text("{".to_string())),
        Err(SignalError::BadMessage { .. })
    ));
    assert_eq!(
        s.on_frame(
            true,
            &InboundFrame::Text(
                "{\"type\":\"messageServer\",\"data\":{\"viewUri\":\"https://v\"}}".to_string()
            )
        ),
        Ok(SignalStep::Resolved)
    );
    assert_eq!(s.finish(), Ok("https://v".to_string()));
}

#[test]
fn failed_connection_is_an_error_while_running() {
    let mut s = SignalingSession::new();
    let r = s.on_frame(true, &InboundFrame::Failed("connection reset".to_string()));
    assert_eq!(r, Err(SignalError::Transport { message: "connection reset".to_string() }));
    assert_eq!(r.unwrap_err().message(), "connection reset");
}

#[test]
fn connected_milestone_text() {
    assert_eq!(CONNECTED, "Connected to Message Server");
}
