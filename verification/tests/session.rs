use timer_api::config::HandlerConfig;
use timer_api::session::{
    should_reset_heartbeat, CloseCode, CloseReason, IncomingMessage, Session, SessionAction,
    SessionEvent,
};
use timer_api::timer::TimerMessage;

const MS: u64 = 1_000_000;

fn closed_with(action: SessionAction) -> (CloseCode, Option<String>) {
    match action {
        SessionAction::Close(Some(reason)) => (reason.code, reason.description),
        other => panic!("expected a close, got {:?}", other),
    }
}

#[test]
fn heartbeat_resets_on_activity_only() {
    assert!(should_reset_heartbeat(&IncomingMessage::Text("x".to_string())));
    assert!(should_reset_heartbeat(&IncomingMessage::Binary(vec![1])));
    assert!(should_reset_heartbeat(&IncomingMessage::Ping(vec![])));
    assert!(should_reset_heartbeat(&IncomingMessage::Pong(vec![])));
    assert!(!should_reset_heartbeat(&IncomingMessage::Close(None)));
}

#[test]
fn silent_client_times_out() {
    let mut session = Session::new(HandlerConfig::for_testing(), 0);
    assert!(matches!(session.handle(SessionEvent::HeartbeatTick, 20 * MS), SessionAction::SendPing));
    let (code, text) = closed_with(session.handle(SessionEvent::HeartbeatTick, 20 * MS + 1));
    assert_eq!(code, CloseCode::Error);
    assert_eq!(text.as_deref(), Some("Client timeout"));
}

#[test]
fn activity_keeps_client_alive() {
    let mut session = Session::new(HandlerConfig::for_testing(), 0);
    let action = session.handle(SessionEvent::Incoming(IncomingMessage::Pong(vec![])), 15 * MS);
    assert!(matches!(action, SessionAction::Continue));
    assert!(matches!(session.handle(SessionEvent::HeartbeatTick, 30 * MS), SessionAction::SendPing));
    // A close frame is not activity.
    let mut session = Session::new(HandlerConfig::for_testing(), 0);
    let reason = CloseReason { code: CloseCode::Away, description: Some("bye".to_string()) };
    match session.handle(SessionEvent::Incoming(IncomingMessage::Close(Some(reason))), 15 * MS) {
        SessionAction::Close(Some(r)) => {
            assert_eq!(r.code, CloseCode::Away);
            assert_eq!(r.description.as_deref(), Some("bye"));
        }
        other => panic!("unexpected {:?}", other),
    }
    let (code, _) = closed_with(session.handle(SessionEvent::HeartbeatTick, 30 * MS));
    assert_eq!(code, CloseCode::Error);
}

#[test]
fn messages_map_to_actions() {
    let mut session = Session::new(HandlerConfig::default(), 0);
    match session.handle(SessionEvent::Incoming(IncomingMessage::Text("{\"type\":\"StartTimer\"}".to_string())), 0) {
        SessionAction::HandleText(t) => assert_eq!(t, "{\"type\":\"StartTimer\"}"),
        other => panic!("unexpected {:?}", other),
    }
    assert!(matches!(session.handle(SessionEvent::Incoming(IncomingMessage::Binary(vec![1, 2])), 0), SessionAction::IgnoreBinary));
    match session.handle(SessionEvent::Incoming(IncomingMessage::Ping(vec![1, 2, 3])), 0) {
        SessionAction::SendPong(b) => assert_eq!(b, vec![1, 2, 3]),
        other => panic!("unexpected {:?}", other),
    }
    let msg = TimerMessage { is_running: true, current_time: 5, target_time: 10, client_count: 1 };
    match session.handle(SessionEvent::TimerUpdate(msg), 0) {
        SessionAction::SendTimerMessage(m) => assert_eq!(m, msg),
        other => panic!("unexpected {:?}", other),
    }
}

#[test]
fn failures_close_with_their_reasons() {
    let cases = vec![
        (SessionEvent::StreamEnded, CloseCode::Normal, "Connection closed"),
        (SessionEvent::TimerClosed, CloseCode::Normal, "Timer closed"),
        (SessionEvent::SerializeFailed, CloseCode::Error, "Serialization failed"),
        (SessionEvent::SendFailed, CloseCode::Error, "Send failed"),
        (SessionEvent::PongFailed, CloseCode::Abnormal, "Pong failed"),
        (SessionEvent::PingFailed, CloseCode::Error, "Ping failed"),
        (SessionEvent::StreamError("broken pipe".to_string()), CloseCode::Error, "broken pipe"),
        (
            SessionEvent::ConnectFailed("channel closed".to_string()),
            CloseCode::Error,
            "Failed to connect to timer: channel closed",
        ),
    ];
    for (event, code, text) in cases {
        let mut session = Session::new(HandlerConfig::default(), 0);
        let (c, t) = closed_with(session.handle(event, 0));
        assert_eq!(c, code);
        assert_eq!(t.as_deref(), Some(text));
    }
}
