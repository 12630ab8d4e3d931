use ama::classify;
use ama::route;
use ama::step;
use ama::HandlerKind;
use ama::pending_action;
use ama::PendingAction;
use ama::SessionAction;
use ama::SessionEvent;
use ama::SessionState;

fn frame_event(text: &str) -> SessionEvent {
    SessionEvent::TextFrame { text: text.to_string() }
}

const EVENTS_FRAME: &str = "{\"type\":\"events_api\",\"envelope_id\":\"E-1\",\"payload\":{\"event_id\":\"Ev1\",\"type\":\"event_callback\",\"event\":{\"user\":\"U1\",\"type\":\"message\",\"ts\":\"1\",\"client_msg_id\":\"M1\",\"text\":\"hi\"}}}";

#[test]
fn ack_is_sent_once_and_before_dispatch() {
    let r = step(SessionState::Streaming, frame_event(EVENTS_FRAME));
    assert!(matches!(r.next, SessionState::Streaming));
    assert_eq!(r.actions.len(), 2);
    match &r.actions[0] {
        SessionAction::SendAck { id } => assert_eq!(id, "E-1"),
        other => panic!("first action must be the ack, got {:?}", other),
    }
    match &r.actions[1] {
        SessionAction::Dispatch { envelope } => {
            assert_eq!(envelope.get_id().as_deref(), Some("E-1"))
        }
        other => panic!("second action must be the dispatch, got {:?}", other),
    }
    let acks = r
        .actions
        .iter()
        .filter(|a| matches!(a, SessionAction::SendAck { .. }))
        .count();
    assert_eq!(acks, 1);
}

#[test]
fn redelivered_frame_gives_identical_outcome() {
    let first = step(SessionState::Streaming, frame_event(EVENTS_FRAME));
    assert!(matches!(first.next, SessionState::Streaming));
    let second = step(first.next, frame_event(EVENTS_FRAME));
    assert!(matches!(second.next, SessionState::Streaming));
    assert_eq!(first.actions.len(), second.actions.len());
    match (&first.actions[0], &second.actions[0]) {
        (SessionAction::SendAck { id: a }, SessionAction::SendAck { id: b }) => assert_eq!(a, b),
        other => panic!("both deliveries must ack, got {:?}", other),
    }
}

#[test]
fn malformed_frame_is_dropped_and_stream_goes_on() {
    let bad = step(SessionState::Streaming, frame_event("this is not json"));
    assert!(matches!(bad.next, SessionState::Streaming));
    assert!(bad.actions.is_empty());
    let good = step(bad.next, frame_event(EVENTS_FRAME));
    assert!(matches!(good.next, SessionState::Streaming));
    assert_eq!(good.actions.len(), 2);
}

#[test]
fn hello_frame_needs_no_ack_and_no_dispatch() {
    let r = step(
        SessionState::Streaming,
        frame_event("{\"type\":\"hello\",\"num_connections\":1}"),
    );
    assert!(matches!(r.next, SessionState::Streaming));
    assert!(r.actions.is_empty());
}

#[test]
fn disconnect_drives_drain_then_reconnect_then_bootstrap() {
    let r1 = step(
        SessionState::Streaming,
        frame_event("{\"type\":\"disconnect\",\"reason\":\"test\"}"),
    );
    assert!(matches!(r1.next, SessionState::Draining));
    assert!(r1.actions.is_empty());
    let r2 = step(r1.next, SessionEvent::Drained);
    assert!(matches!(r2.next, SessionState::Reconnecting));
    let r3 = step(r2.next, SessionEvent::Discarded);
    assert!(matches!(r3.next, SessionState::Bootstrapping));
    assert!(matches!(pending_action(&r3.next), PendingAction::FetchUrl));
}

#[test]
fn transport_failure_reconnects() {
    let r = step(SessionState::Streaming, SessionEvent::TransportFailed);
    assert!(matches!(r.next, SessionState::Reconnecting));
    let r2 = step(SessionState::Streaming, SessionEvent::TransportClosed);
    assert!(matches!(r2.next, SessionState::Reconnecting));
}

#[test]
fn shutdown_terminates_and_closes_the_connection() {
    let r = step(SessionState::Streaming, SessionEvent::Shutdown);
    assert!(matches!(r.next, SessionState::Terminated));
    assert_eq!(r.actions.len(), 1);
    assert!(matches!(r.actions[0], SessionAction::CloseConnection));
    assert!(matches!(pending_action(&r.next), PendingAction::Idle));
}

#[test]
fn terminated_absorbs_everything_without_reconnecting() {
    let r = step(SessionState::Terminated, frame_event(EVENTS_FRAME));
    assert!(matches!(r.next, SessionState::Terminated));
    assert!(r.actions.is_empty());
    let r2 = step(SessionState::Terminated, SessionEvent::Discarded);
    assert!(matches!(r2.next, SessionState::Terminated));
    assert!(r2.actions.is_empty());
}

#[test]
fn shutdown_works_from_every_state() {
    let states = [
        SessionState::Bootstrapping,
        SessionState::Connecting { url: "wss://example.com/a".to_string() },
        SessionState::Draining,
        SessionState::Reconnecting,
    ];
    for s in states {
        let r = step(s, SessionEvent::Shutdown);
        assert!(matches!(r.next, SessionState::Terminated));
    }
}

#[test]
fn url_is_used_for_exactly_one_attempt() {
    let r1 = step(
        SessionState::Bootstrapping,
        SessionEvent::UrlFetched { url: "wss://example.com/one".to_string() },
    );
    match &r1.next {
        SessionState::Connecting { url } => assert_eq!(url, "wss://example.com/one"),
        other => panic!("expected connecting, got {:?}", other),
    }
    match pending_action(&r1.next) {
        PendingAction::OpenConnection { url } => assert_eq!(url, "wss://example.com/one"),
        other => panic!("expected open-connection work, got {:?}", other),
    }
    // A failed handshake goes back to bootstrapping: the next pending
    // work is a fresh fetch, never a retry of the spent URL.
    let r2 = step(r1.next, SessionEvent::ConnectFailed);
    assert!(matches!(r2.next, SessionState::Bootstrapping));
    assert!(matches!(pending_action(&r2.next), PendingAction::FetchUrl));
    // A successful handshake starts streaming; the URL is gone too.
    let r3 = step(
        SessionState::Connecting { url: "wss://example.com/two".to_string() },
        SessionEvent::Connected,
    );
    assert!(matches!(r3.next, SessionState::Streaming));
}

#[test]
fn full_session_walkthrough() {
    let r = step(
        SessionState::Bootstrapping,
        SessionEvent::UrlFetched { url: "wss://example.com/s1".to_string() },
    );
    let r = step(r.next, SessionEvent::Connected);
    assert!(matches!(r.next, SessionState::Streaming));
    let r = step(r.next, frame_event("{\"type\":\"hello\",\"num_connections\":2}"));
    assert!(r.actions.is_empty());
    let r = step(r.next, frame_event(EVENTS_FRAME));
    assert_eq!(r.actions.len(), 2);
    let r = step(r.next, frame_event("{\"type\":\"disconnect\",\"reason\":\"refresh_requested\"}"));
    assert!(matches!(r.next, SessionState::Draining));
    let r = step(r.next, SessionEvent::Drained);
    let r = step(r.next, SessionEvent::Discarded);
    assert!(matches!(r.next, SessionState::Bootstrapping));
    // A fresh session begins with a fresh URL; shutdown ends it all.
    let r = step(
        r.next,
        SessionEvent::UrlFetched { url: "wss://example.com/s2".to_string() },
    );
    let r = step(r.next, SessionEvent::Shutdown);
    assert!(matches!(r.next, SessionState::Terminated));
}

#[test]
fn routing_matches_the_envelope_kind() {
    assert_eq!(route(&classify(EVENTS_FRAME).unwrap()), HandlerKind::Event);
    let cmd = "{\"type\":\"slash_commands\",\"envelope_id\":\"C1\",\"payload\":{\"trigger_id\":\"T\",\"command\":\"/x\",\"text\":\"\",\"user_name\":\"u\",\"channel_id\":\"ch\"}}";
    assert_eq!(route(&classify(cmd).unwrap()), HandlerKind::Command);
    let inter = "{\"type\":\"interactive\",\"envelope_id\":\"I\",\"payload\":{\"type\":\"t\",\"view\":{\"state\":null}}}";
    assert_eq!(route(&classify(inter).unwrap()), HandlerKind::InteractivePayload);
    let hello = "{\"type\":\"hello\",\"num_connections\":1}";
    assert_eq!(route(&classify(hello).unwrap()), HandlerKind::NoOp);
    let unknown = "{\"type\":\"mystery\"}";
    assert_eq!(route(&classify(unknown).unwrap()), HandlerKind::NoOp);
}

#[test]
fn bootstrap_failure_retries_bootstrap() {
    let r = step(SessionState::Bootstrapping, SessionEvent::FetchFailed);
    assert!(matches!(r.next, SessionState::Bootstrapping));
    assert!(r.actions.is_empty());
}
