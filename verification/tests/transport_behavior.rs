//! Behavior of the transport core: call correlation, event routing, pipe
//! framing, and the wire text of outbound calls.

use headless_chrome::framing::encode_frame;
use headless_chrome::framing::FrameDecoder;
use headless_chrome::transport::CallReply;
use headless_chrome::transport::Transport;
use headless_chrome::wire::build_call_json;
use headless_chrome::wire::classify;
use headless_chrome::wire::u64_to_dec;
use headless_chrome::wire::Envelope;
use headless_chrome::wire::ProtocolMessage;
use headless_chrome::errors::RemoteError;

fn value_reply(text: &str) -> CallReply {
    CallReply::Value { json: String::from(text) }
}

#[test]
fn call_ids_are_fresh_and_monotonic() {
    let mut t = Transport::new();
    let a = t.issue_call_id();
    let b = t.issue_call_id();
    let c = t.issue_call_id();
    assert_eq!(a, 0);
    assert_eq!(b, 1);
    assert_eq!(c, 2);
    assert_eq!(t.pending, vec![0, 1, 2]);
}

#[test]
fn response_resolves_call_exactly_once() {
    let mut t = Transport::new();
    let id = t.issue_call_id();
    assert!(t.dispatch_response(id, value_reply("{}")));
    // A second response for the same id is a no-op, never a second
    // fulfilment.
    assert!(!t.dispatch_response(id, value_reply("{\"again\":true}")));
    assert_eq!(t.resolved.len(), 1);
    assert_eq!(t.resolved[0].0, id);
    assert!(t.pending.is_empty());
}

#[test]
fn unknown_response_id_is_ignored() {
    let mut t = Transport::new();
    let _ = t.issue_call_id();
    assert!(!t.dispatch_response(999, value_reply("{}")));
    assert_eq!(t.pending.len(), 1);
    assert!(t.resolved.is_empty());
}

#[test]
fn reversed_responses_reach_their_own_callers() {
    let mut t = Transport::new();
    let mut ids = Vec::new();
    for _ in 0..5 {
        ids.push(t.issue_call_id());
    }
    // Deliver the five responses in reversed order.
    for id in ids.iter().rev() {
        let body = format!("{{\"for\":{}}}", id);
        assert!(t.dispatch_response(*id, value_reply(&body)));
    }
    // Each call is resolved with its own result: no id cross-talk.
    for id in ids {
        let expected = format!("{{\"for\":{}}}", id);
        let got = t
            .resolved
            .iter()
            .find(|(rid, _)| *rid == id)
            .map(|(_, reply)| reply);
        match got {
            Some(CallReply::Value { json }) => assert_eq!(json, &expected),
            _ => panic!("call {} not resolved with its own value", id),
        }
    }
}

#[test]
fn shutdown_resolves_every_outstanding_call() {
    let mut t = Transport::new();
    let a = t.issue_call_id();
    let b = t.issue_call_id();
    let c = t.issue_call_id();
    assert!(t.dispatch_response(b, value_reply("{}")));
    let closed = t.shutdown();
    assert_eq!(closed, vec![a, c]);
    assert!(t.pending.is_empty());
    // Every call resolved exactly once: b with its value, a and c closed.
    assert_eq!(t.resolved.len(), 3);
    assert!(matches!(t.resolved[1], (x, CallReply::Closed) if x == a));
    assert!(matches!(t.resolved[2], (x, CallReply::Closed) if x == c));
    // Shutdown again closes nothing further.
    let closed_again = t.shutdown();
    assert!(closed_again.is_empty());
    assert_eq!(t.resolved.len(), 3);
}

fn event(session: Option<&str>, method: &str) -> headless_chrome::wire::ProtocolEvent {
    headless_chrome::wire::ProtocolEvent {
        session_id: session.map(String::from),
        method: String::from(method),
        params: String::from("{}"),
    }
}

#[test]
fn events_reach_only_their_own_session() {
    let mut t = Transport::new();
    let ha = t.listen_to_target_events(Some(String::from("session-a")));
    let hb = t.listen_to_target_events(Some(String::from("session-b")));
    assert!(t.route_event(event(Some("session-a"), "Page.lifecycleEvent")));
    assert!(t.route_event(event(Some("session-b"), "Fetch.requestPaused")));
    assert!(t.route_event(event(Some("session-a"), "Network.responseReceived")));
    let a_events = t.take_session_events(ha);
    let b_events = t.take_session_events(hb);
    // Session A's consumer observes only events tagged session A, in
    // arrival order; nothing of session B's leaks over.
    assert_eq!(a_events.len(), 2);
    assert_eq!(a_events[0].method, "Page.lifecycleEvent");
    assert_eq!(a_events[1].method, "Network.responseReceived");
    assert_eq!(b_events.len(), 1);
    assert_eq!(b_events[0].method, "Fetch.requestPaused");
    for ev in &a_events {
        assert_eq!(ev.session_id.as_deref(), Some("session-a"));
    }
}

#[test]
fn unroutable_events_are_dropped() {
    let mut t = Transport::new();
    let ha = t.listen_to_target_events(Some(String::from("session-a")));
    assert!(!t.route_event(event(Some("nobody"), "Page.lifecycleEvent")));
    assert!(!t.route_event(event(None, "Target.targetCreated")));
    assert!(t.take_session_events(ha).is_empty());
}

#[test]
fn browser_level_consumer_gets_untagged_events() {
    let mut t = Transport::new();
    let hb = t.listen_to_target_events(None);
    assert!(t.route_event(event(None, "Target.targetCreated")));
    assert!(!t.route_event(event(Some("tab"), "Page.lifecycleEvent")));
    let evs = t.take_session_events(hb);
    assert_eq!(evs.len(), 1);
    assert_eq!(evs[0].method, "Target.targetCreated");
}

#[test]
fn pipe_frame_round_trip_is_byte_identical() {
    // A body with embedded non-NUL control bytes and multibyte text.
    let mut body: Vec<u8> = Vec::new();
    body.extend_from_slice(b"{\"method\":\"Page.navigate\",\"tab\":\"");
    body.extend_from_slice("日本語№".as_bytes());
    body.push(0x01);
    body.push(0x1f);
    body.push(0x7f);
    body.extend_from_slice(b"\"}");
    let framed = encode_frame(&body);
    assert_eq!(framed.len(), body.len() + 1);
    assert_eq!(framed[framed.len() - 1], 0);

    let mut decoder = FrameDecoder::new();
    // Feed in two arbitrary chunks, as a pipe read would.
    decoder.feed(&framed[..7]);
    assert!(decoder.next_frame().is_none());
    decoder.feed(&framed[7..]);
    let out = decoder.next_frame().expect("one complete frame");
    assert_eq!(out, body);
    assert!(decoder.next_frame().is_none());
}

#[test]
fn empty_body_round_trips() {
    let framed = encode_frame(&Vec::new());
    assert_eq!(framed, vec![0u8]);
    let mut decoder = FrameDecoder::new();
    decoder.feed(&framed);
    assert_eq!(decoder.next_frame().unwrap(), Vec::<u8>::new());
}

#[test]
fn decoder_splits_consecutive_frames() {
    let first = encode_frame(&b"first".to_vec());
    let second = encode_frame(&b"second".to_vec());
    let mut decoder = FrameDecoder::new();
    let mut both = first.clone();
    both.extend_from_slice(&second);
    decoder.feed(&both);
    assert_eq!(decoder.next_frame().unwrap(), b"first".to_vec());
    assert_eq!(decoder.next_frame().unwrap(), b"second".to_vec());
    assert!(decoder.next_frame().is_none());
}

#[test]
fn decimal_rendering_is_exact() {
    assert_eq!(u64_to_dec(0), "0");
    assert_eq!(u64_to_dec(7), "7");
    assert_eq!(u64_to_dec(10), "10");
    assert_eq!(u64_to_dec(90210), "90210");
    assert_eq!(u64_to_dec(u64::MAX), "18446744073709551615");
}

#[test]
fn call_json_embeds_session_for_target_scoped_calls() {
    let text = build_call_json(7, Some("session-a"), "Page.navigate", "{\"url\":\"x\"}");
    assert_eq!(
        text,
        "{\"id\":7,\"method\":\"Page.navigate\",\"sessionId\":\"session-a\",\"params\":{\"url\":\"x\"}}"
    );
}

#[test]
fn call_json_omits_session_for_browser_calls() {
    let text = build_call_json(42, None, "Target.getTargets", "{}");
    assert_eq!(text, "{\"id\":42,\"method\":\"Target.getTargets\",\"params\":{}}");
}

fn empty_envelope() -> Envelope {
    Envelope { id: None, method: None, session_id: None, result: None, error: None, params: None }
}

#[test]
fn envelope_with_method_is_an_event() {
    let mut env = empty_envelope();
    env.method = Some(String::from("Page.lifecycleEvent"));
    env.session_id = Some(String::from("s1"));
    env.params = Some(String::from("{\"name\":\"init\"}"));
    match classify(env) {
        Some(ProtocolMessage::Event(ev)) => {
            assert_eq!(ev.method, "Page.lifecycleEvent");
            assert_eq!(ev.session_id.as_deref(), Some("s1"));
            assert_eq!(ev.params, "{\"name\":\"init\"}");
        }
        _ => panic!("expected an event"),
    }
}

#[test]
fn envelope_with_id_is_a_response() {
    let mut env = empty_envelope();
    env.id = Some(3);
    env.result = Some(String::from("{\"ok\":true}"));
    match classify(env) {
        Some(ProtocolMessage::Response(resp)) => {
            assert_eq!(resp.call_id, 3);
            assert_eq!(resp.result.unwrap(), "{\"ok\":true}");
        }
        _ => panic!("expected a response"),
    }
}

#[test]
fn envelope_with_error_is_a_failed_response() {
    let mut env = empty_envelope();
    env.id = Some(4);
    env.error = Some(RemoteError { code: -32000, message: String::from("no such frame") });
    match classify(env) {
        Some(ProtocolMessage::Response(resp)) => {
            assert_eq!(resp.call_id, 4);
            match resp.result {
                Err(e) => {
                    assert_eq!(e.code, -32000);
                    assert_eq!(e.message, "no such frame");
                }
                Ok(_) => panic!("expected the error object"),
            }
        }
        _ => panic!("expected a response"),
    }
}

#[test]
fn unrecognized_envelope_is_dropped() {
    assert!(classify(empty_envelope()).is_none());
}
