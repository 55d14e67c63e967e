use gateway_client::{
    assemble_request, connect, connect_target, disconnect, encode_request, endpoint_address,
    get_connection_status, optional_json, send_message, ChatParams, CommandError, GatewayError,
    GatewayEvent, GatewayResponse, GatewayState, InboundDispatcher, InboundFrame, OutboundPump,
    PumpStep, StreamChunk, TextFrame,
};

fn params(message: &str) -> ChatParams {
    ChatParams { message: message.to_string(), session_key: None, model: None, thinking: None }
}

fn chunk(content: Option<&str>, done: Option<bool>) -> StreamChunk {
    StreamChunk {
        request_id: Some("r-1".to_string()),
        content: content.map(|c| c.to_string()),
        done,
        msg_type: None,
    }
}

fn response() -> GatewayResponse {
    GatewayResponse {
        id: Some("r-1".to_string()),
        result: Some(serde_json::Value::from(42)),
        error: None,
    }
}

fn text(raw: &str, chunk: Option<StreamChunk>, response: Option<GatewayResponse>) -> InboundFrame {
    InboundFrame::Text(TextFrame { raw: raw.to_string(), chunk, response })
}

fn is_request_id(id: &str) -> bool {
    id.len() == 36
        && id.chars().enumerate().all(|(i, c)| {
            if i == 8 || i == 13 || i == 18 || i == 23 {
                c == '-'
            } else {
                c.is_ascii_digit() || ('a'..='f').contains(&c)
            }
        })
}

#[test]
fn new_state_is_disconnected() {
    let state: GatewayState<u32> = GatewayState::new();
    assert!(!get_connection_status(&state));
    assert!(state.current_sender().is_none());
    let state: GatewayState<u32> = GatewayState::default();
    assert!(!state.is_connected());
}

#[test]
fn status_follows_connect_and_disconnect() {
    let mut state: GatewayState<u32> = GatewayState::new();
    let event = connect(&mut state, 7);
    assert_eq!(event, GatewayEvent::Connected);
    assert!(get_connection_status(&state));
    assert_eq!(state.current_sender(), Some(&7));
    disconnect(&mut state);
    assert!(!get_connection_status(&state));
    assert!(state.current_sender().is_none());
}

#[test]
fn second_connect_replaces_sender() {
    let mut state: GatewayState<u32> = GatewayState::new();
    connect(&mut state, 1);
    connect(&mut state, 2);
    assert_eq!(state.current_sender(), Some(&2));
    assert!(state.is_connected());
}

#[test]
fn setters_are_independent() {
    let mut state: GatewayState<u32> = GatewayState::new();
    state.set_sender(Some(3));
    assert!(!state.is_connected());
    assert_eq!(state.current_sender(), Some(&3));
    state.set_connected(true);
    state.set_sender(None);
    assert!(state.is_connected());
    assert!(state.current_sender().is_none());
}

#[test]
fn send_without_connection_fails() {
    let state: GatewayState<u32> = GatewayState::new();
    let r = send_message(&state, &params("hi"));
    assert!(matches!(r, Err(CommandError::NotConnected)));
}

#[test]
fn send_after_disconnect_fails() {
    let mut state: GatewayState<u32> = GatewayState::new();
    connect(&mut state, 1);
    disconnect(&mut state);
    assert!(matches!(send_message(&state, &params("hi")), Err(CommandError::NotConnected)));
}

#[test]
fn send_builds_chat_request() {
    let mut state: GatewayState<u32> = GatewayState::new();
    connect(&mut state, 1);
    let q = send_message(&state, &params("hi")).unwrap();
    assert!(is_request_id(&q.id));
    assert_eq!(q.id.chars().nth(14), Some('4'));
    let expected = format!(
        "{{\"id\":\"{}\",\"method\":\"chat.send\",\"params\":{{\"message\":\"hi\",\"sessionKey\":null,\"model\":null,\"thinking\":null}}}}",
        q.id
    );
    assert_eq!(q.frame, expected);
    let v: serde_json::Value = serde_json::from_str(&q.frame).unwrap();
    assert_eq!(v["method"], "chat.send");
    assert_eq!(v["params"]["message"], "hi");
    assert!(v["params"]["sessionKey"].is_null());
}

#[test]
fn send_ids_differ() {
    let mut state: GatewayState<u32> = GatewayState::new();
    connect(&mut state, 1);
    let a = send_message(&state, &params("one")).unwrap();
    let b = send_message(&state, &params("two")).unwrap();
    assert_ne!(a.id, b.id);
}

#[test]
fn encode_request_with_all_fields() {
    let p = ChatParams {
        message: "say \"hi\"".to_string(),
        session_key: Some("s1".to_string()),
        model: Some("m".to_string()),
        thinking: Some("deep".to_string()),
    };
    let frame = encode_request("abc", &p).unwrap();
    assert_eq!(
        frame,
        "{\"id\":\"abc\",\"method\":\"chat.send\",\"params\":{\"message\":\"say \\\"hi\\\"\",\"sessionKey\":\"s1\",\"model\":\"m\",\"thinking\":\"deep\"}}"
    );
}

#[test]
fn encode_request_escapes_control_characters() {
    let frame = encode_request("a\nb", &params("x\\y")).unwrap();
    assert!(frame.starts_with("{\"id\":\"a\\nb\","));
    assert!(frame.contains("\"message\":\"x\\\\y\""));
}

#[test]
fn optional_json_texts() {
    assert_eq!(optional_json(&None).unwrap(), "null");
    assert_eq!(optional_json(&Some("x".to_string())).unwrap(), "\"x\"");
    assert_eq!(optional_json(&Some(String::new())).unwrap(), "\"\"");
}

#[test]
fn assemble_request_lays_out_parts() {
    let r = assemble_request("\"i\"", "\"m\"", "null", "\"g\"", "null");
    assert_eq!(
        r,
        "{\"id\":\"i\",\"method\":\"chat.send\",\"params\":{\"message\":\"m\",\"sessionKey\":null,\"model\":\"g\",\"thinking\":null}}"
    );
}

#[test]
fn endpoint_address_appends_token() {
    assert_eq!(endpoint_address("ws://localhost:18789", "abc"), "ws://localhost:18789?token=abc");
    assert_eq!(endpoint_address("", ""), "?token=");
}

#[test]
fn connect_target_parses_address() {
    let u = connect_target("ws://localhost:18789", "abc").unwrap();
    assert_eq!(u.as_str(), "ws://localhost:18789/?token=abc");
    assert_eq!(u.query(), Some("token=abc"));
}

#[test]
fn connect_target_rejects_malformed_url() {
    assert!(matches!(connect_target("not a url", "abc"), Err(CommandError::InvalidUrl(_))));
    assert!(matches!(connect_target("", "t"), Err(CommandError::InvalidUrl(_))));
}

#[test]
fn chunk_with_content_streams() {
    let mut d = InboundDispatcher::new();
    let events = d.on_frame(text("{}", Some(chunk(Some("hello"), Some(false))), None));
    assert_eq!(events, vec![GatewayEvent::Stream("hello".to_string())]);
    assert!(!d.is_stopped());
}

#[test]
fn chunk_done_completes() {
    let mut d = InboundDispatcher::new();
    let events = d.on_frame(text("{}", Some(chunk(Some(""), Some(true))), None));
    assert_eq!(events, vec![GatewayEvent::Complete]);
}

#[test]
fn chunk_with_content_and_done_emits_both() {
    let mut d = InboundDispatcher::new();
    let events = d.on_frame(text("{}", Some(chunk(Some("end"), Some(true))), None));
    assert_eq!(events, vec![GatewayEvent::Stream("end".to_string()), GatewayEvent::Complete]);
}

#[test]
fn empty_chunk_emits_nothing() {
    let mut d = InboundDispatcher::new();
    assert!(d.on_frame(text("{}", Some(chunk(None, None)), None)).is_empty());
    assert!(d.on_frame(text("{}", Some(chunk(None, Some(false))), None)).is_empty());
    assert!(!d.is_stopped());
}

#[test]
fn chunk_reading_wins_over_response() {
    let mut d = InboundDispatcher::new();
    let events = d.on_frame(text("{}", Some(chunk(Some("x"), None)), Some(response())));
    assert_eq!(events, vec![GatewayEvent::Stream("x".to_string())]);
}

#[test]
fn response_frame_is_passed_on() {
    let mut d = InboundDispatcher::new();
    let events = d.on_frame(text("{}", None, Some(response())));
    assert_eq!(events, vec![GatewayEvent::Response(response())]);
}

#[test]
fn response_with_error_is_passed_on() {
    let r = GatewayResponse {
        id: None,
        result: None,
        error: Some(GatewayError { code: -32601, message: "no such method".to_string() }),
    };
    let mut d = InboundDispatcher::new();
    assert_eq!(d.on_frame(text("[]", None, Some(r.clone()))), vec![GatewayEvent::Response(r)]);
}

#[test]
fn unreadable_text_is_raw_message() {
    let mut d = InboundDispatcher::new();
    let events = d.on_frame(text("plain words", None, None));
    assert_eq!(events, vec![GatewayEvent::Message("plain words".to_string())]);
}

#[test]
fn close_frame_disconnects_once_and_stops() {
    let mut d = InboundDispatcher::new();
    let events = d.on_frame(InboundFrame::Close);
    assert_eq!(events, vec![GatewayEvent::Disconnected]);
    assert!(d.is_stopped());
}

#[test]
fn read_error_reports_and_stops() {
    let mut d = InboundDispatcher::new();
    let events = d.on_frame(InboundFrame::ReadError("reset".to_string()));
    assert_eq!(events, vec![GatewayEvent::Error("reset".to_string())]);
    assert!(d.is_stopped());
}

#[test]
fn other_frames_are_ignored() {
    let mut d = InboundDispatcher::new();
    assert!(d.on_frame(InboundFrame::Other).is_empty());
    assert!(!d.is_stopped());
}

#[test]
fn stream_scenario_hello_then_complete() {
    let mut state: GatewayState<u32> = GatewayState::new();
    connect(&mut state, 1);
    let q = send_message(&state, &params("hi")).unwrap();
    let mut d = InboundDispatcher::new();
    let first = StreamChunk {
        request_id: Some(q.id.clone()),
        content: Some("hello".to_string()),
        done: Some(false),
        msg_type: None,
    };
    let last = StreamChunk {
        request_id: Some(q.id.clone()),
        content: Some(String::new()),
        done: Some(true),
        msg_type: None,
    };
    let mut seen = d.on_frame(text("a", Some(first), None));
    seen.extend(d.on_frame(text("b", Some(last), None)));
    assert_eq!(seen, vec![GatewayEvent::Stream("hello".to_string()), GatewayEvent::Complete]);
}

#[test]
fn event_topics() {
    assert_eq!(GatewayEvent::Connected.topic(), "gateway:connected");
    assert_eq!(GatewayEvent::Disconnected.topic(), "gateway:disconnected");
    assert_eq!(GatewayEvent::Error(String::new()).topic(), "gateway:error");
    assert_eq!(GatewayEvent::Stream(String::new()).topic(), "gateway:stream");
    assert_eq!(GatewayEvent::Complete.topic(), "gateway:complete");
    assert_eq!(GatewayEvent::Response(response()).topic(), "gateway:response");
    assert_eq!(GatewayEvent::Message(String::new()).topic(), "gateway:message");
}

#[test]
fn pump_writes_items_in_order() {
    let mut p = OutboundPump::new();
    let mut written = Vec::new();
    for m in ["a", "b", "c"] {
        match p.on_item(Some(m.to_string())) {
            PumpStep::Write(f) => written.push(f),
            PumpStep::Stop => panic!("pump stopped early"),
        }
    }
    assert_eq!(written, vec!["a".to_string(), "b".to_string(), "c".to_string()]);
    assert!(!p.is_stopped());
}

#[test]
fn pump_stops_when_queue_closes() {
    let mut p = OutboundPump::new();
    assert_eq!(p.on_item(None), PumpStep::Stop);
    assert!(p.is_stopped());
}

#[test]
fn pump_stops_on_write_failure() {
    let mut p = OutboundPump::new();
    assert_eq!(p.on_item(Some("x".to_string())), PumpStep::Write("x".to_string()));
    assert_eq!(p.on_write_failed("broken pipe".to_string()), GatewayEvent::Error("broken pipe".to_string()));
    assert!(p.is_stopped());
}

#[test]
fn encode_request_escapes_other_control_characters() {
    let frame = encode_request("i", &params("a\u{1}b\u{1f}\u{8}\u{c}\t\r")).unwrap();
    assert!(frame.contains("\"message\":\"a\\u0001b\\u001f\\b\\f\\t\\r\""));
}

#[test]
fn encode_request_keeps_plain_text() {
    let frame = encode_request("i", &params("héllo / ~")).unwrap();
    assert!(frame.contains("\"message\":\"héllo / ~\""));
}

#[test]
fn connect_target_url_depends_on_address() {
    let a = connect_target("ws://localhost:1", "x").unwrap();
    let b = connect_target("wss://example.com/gw", "y").unwrap();
    assert_eq!(a.as_str(), "ws://localhost:1/?token=x");
    assert_eq!(b.as_str(), "wss://example.com/gw?token=y");
}
