use vstd::prelude::*;

use crate::config::HandlerConfig;
use crate::timer::TimerMessage;

verus! {

/// Why a WebSocket connection closes, by the codes of RFC 6455.
#[derive(Clone, Copy, Debug, PartialEq, Eq, Structural)]
pub enum CloseCode {
    Normal,
    Away,
    Protocol,
    Unsupported,
    Abnormal,
    Invalid,
    Policy,
    Size,
    Extension,
    Error,
    Restart,
    Again,
    Tls,
    Other(u16),
}

/// A close code with an optional description.
#[derive(Clone, Debug)]
pub struct CloseReason {
    pub code: CloseCode,
    pub description: Option<String>,
}

/// A complete message from the client, continuation frames joined.
#[derive(Clone, Debug)]
pub enum IncomingMessage {
    Text(String),
    Binary(Vec<u8>),
    Ping(Vec<u8>),
    Pong(Vec<u8>),
    Close(Option<CloseReason>),
}

/// Determines if a message from the client resets the heartbeat timer. Any
/// client activity (text, binary, ping, pong) shows that the client is
/// alive; a close message does not, since the client is leaving.
pub fn should_reset_heartbeat(msg: &IncomingMessage) -> (b: bool)
    ensures
        b == !(msg is Close),
{
    match msg {
        IncomingMessage::Text(_) => true,
        IncomingMessage::Binary(_) => true,
        IncomingMessage::Ping(_) => true,
        IncomingMessage::Pong(_) => true,
        IncomingMessage::Close(_) => false,
    }
}

/// What a connection handler reacts to.
#[derive(Clone, Debug)]
pub enum SessionEvent {
    /// Connecting to the timer failed, with the error's text.
    ConnectFailed(String),
    /// A message arrived from the client.
    Incoming(IncomingMessage),
    /// The client's stream failed, with the error's text.
    StreamError(String),
    /// The client's stream ended.
    StreamEnded,
    /// The timer reported its state.
    TimerUpdate(TimerMessage),
    /// The timer's channel closed.
    TimerClosed,
    /// A timer update could not be serialized.
    SerializeFailed,
    /// A timer update could not be sent to the client.
    SendFailed,
    /// The heartbeat interval ticked.
    HeartbeatTick,
    /// Answering a ping failed.
    PongFailed,
    /// Sending a ping failed.
    PingFailed,
}

/// What the handler does next.
#[derive(Clone, Debug)]
pub enum SessionAction {
    /// Parse the text as a client command and pass it to the server.
    HandleText(String),
    /// Binary messages are not expected; note it and go on.
    IgnoreBinary,
    /// Answer a ping with a pong carrying the same bytes.
    SendPong(Vec<u8>),
    /// Nothing to do.
    Continue,
    /// Serialize the timer's state and send it to the client.
    SendTimerMessage(TimerMessage),
    /// Send an empty ping.
    SendPing,
    /// Close the connection with this reason and stop.
    Close(Option<CloseReason>),
}

/// The abstract state of a session: the instant (nanoseconds) of the last
/// client activity and the client timeout in nanoseconds.
pub struct SessionModel {
    pub last_heartbeat: nat,
    pub client_timeout_ns: nat,
}

/// Whether the client has been silent longer than its timeout at `now`.
pub open spec fn timed_out(m: SessionModel, now: nat) -> bool {
    now > m.last_heartbeat && now - m.last_heartbeat > m.client_timeout_ns
}

/// Whether `action` closes the connection with `code` and description `text`.
pub open spec fn closes_with(action: SessionAction, code: CloseCode, text: Seq<char>) -> bool {
    &&& action matches SessionAction::Close(Some(r))
    &&& r.code == code
    &&& r.description matches Some(d)
    &&& d@ == text
}

/// The state after an event: client activity other than a close message
/// resets the heartbeat.
pub open spec fn next_session(m: SessionModel, event: SessionEvent, now: nat) -> SessionModel {
    match event {
        SessionEvent::Incoming(msg) => if !(msg is Close) {
            SessionModel { last_heartbeat: now, ..m }
        } else {
            m
        },
        _ => m,
    }
}

/// The action the handler takes for an event.
pub open spec fn session_action(m: SessionModel, event: SessionEvent, now: nat, action: SessionAction) -> bool {
    match event {
        SessionEvent::ConnectFailed(e) => closes_with(action, CloseCode::Error, "Failed to connect to timer: "@ + e@),
        SessionEvent::Incoming(msg) => match msg {
            IncomingMessage::Text(t) => action == SessionAction::HandleText(t),
            IncomingMessage::Binary(_) => action is IgnoreBinary,
            IncomingMessage::Ping(b) => action == SessionAction::SendPong(b),
            IncomingMessage::Pong(_) => action is Continue,
            IncomingMessage::Close(r) => action == SessionAction::Close(r),
        },
        SessionEvent::StreamError(e) => closes_with(action, CloseCode::Error, e@),
        SessionEvent::StreamEnded => closes_with(action, CloseCode::Normal, "Connection closed"@),
        SessionEvent::TimerUpdate(msg) => action == SessionAction::SendTimerMessage(msg),
        SessionEvent::TimerClosed => closes_with(action, CloseCode::Normal, "Timer closed"@),
        SessionEvent::SerializeFailed => closes_with(action, CloseCode::Error, "Serialization failed"@),
        SessionEvent::SendFailed => closes_with(action, CloseCode::Error, "Send failed"@),
        SessionEvent::HeartbeatTick => if timed_out(m, now) {
            closes_with(action, CloseCode::Error, "Client timeout"@)
        } else {
            action is SendPing
        },
        SessionEvent::PongFailed => closes_with(action, CloseCode::Abnormal, "Pong failed"@),
        SessionEvent::PingFailed => closes_with(action, CloseCode::Error, "Ping failed"@),
    }
}

/// The decision state of one WebSocket connection: when the client was
/// last heard from, and how long it may stay silent.
pub struct Session {
    last_heartbeat: u64,
    client_timeout_ns: u128,
}

impl View for Session {
    type V = SessionModel;

    closed spec fn view(&self) -> SessionModel {
        SessionModel {
            last_heartbeat: self.last_heartbeat as nat,
            client_timeout_ns: self.client_timeout_ns as nat,
        }
    }
}

fn close_reason(code: CloseCode, text: &str) -> (action: SessionAction)
    ensures
        closes_with(action, code, text@),
{
    SessionAction::Close(Some(CloseReason { code, description: Some(String::from_str(text)) }))
}

impl Session {
    /// A session opened at instant `now`, counting the client as just heard.
    pub fn new(config: HandlerConfig, now: u64) -> (s: Self)
        ensures
            s@.last_heartbeat == now as nat,
            s@.client_timeout_ns == config.client_timeout_ns as nat,
    {
        Session { last_heartbeat: now, client_timeout_ns: config.client_timeout_ns }
    }

    /// Reacts to one event at instant `now` and says what to do next.
    pub fn handle(&mut self, event: SessionEvent, now: u64) -> (action: SessionAction)
        ensures
            final(self)@ == next_session(old(self)@, event, now as nat),
            session_action(old(self)@, event, now as nat, action),
    {
        match event {
            SessionEvent::ConnectFailed(e) => {
                let text = String::from_str("Failed to connect to timer: ").concat(e.as_str());
                SessionAction::Close(Some(CloseReason { code: CloseCode::Error, description: Some(text) }))
            },
            SessionEvent::Incoming(msg) => {
                if should_reset_heartbeat(&msg) {
                    self.last_heartbeat = now;
                }
                match msg {
                    IncomingMessage::Text(t) => SessionAction::HandleText(t),
                    IncomingMessage::Binary(_) => SessionAction::IgnoreBinary,
                    IncomingMessage::Ping(b) => SessionAction::SendPong(b),
                    IncomingMessage::Pong(_) => SessionAction::Continue,
                    IncomingMessage::Close(r) => SessionAction::Close(r),
                }
            },
            SessionEvent::StreamError(e) => {
                SessionAction::Close(Some(CloseReason { code: CloseCode::Error, description: Some(e) }))
            },
            SessionEvent::StreamEnded => close_reason(CloseCode::Normal, "Connection closed"),
            SessionEvent::TimerUpdate(msg) => SessionAction::SendTimerMessage(msg),
            SessionEvent::TimerClosed => close_reason(CloseCode::Normal, "Timer closed"),
            SessionEvent::SerializeFailed => close_reason(CloseCode::Error, "Serialization failed"),
            SessionEvent::SendFailed => close_reason(CloseCode::Error, "Send failed"),
            SessionEvent::HeartbeatTick => {
                let timeout_ns: u128 = self.client_timeout_ns;
                if now > self.last_heartbeat && ((now - self.last_heartbeat) as u128) > timeout_ns {
                    close_reason(CloseCode::Error, "Client timeout")
                } else {
                    SessionAction::SendPing
                }
            },
            SessionEvent::PongFailed => close_reason(CloseCode::Abnormal, "Pong failed"),
            SessionEvent::PingFailed => close_reason(CloseCode::Error, "Ping failed"),
        }
    }
}

/// A client heard from at `t0` is not timed out at a heartbeat tick `t1`
/// within its timeout: the handler pings it instead of closing.
pub proof fn law_active_client_kept(m: SessionModel, msg: IncomingMessage, t0: nat, t1: nat, action: SessionAction)
    requires
        !(msg is Close),
        t0 <= t1,
        t1 - t0 <= m.client_timeout_ns,
        session_action(next_session(m, SessionEvent::Incoming(msg), t0), SessionEvent::HeartbeatTick, t1, action),
    ensures
        action is SendPing,
{
}

/// A client silent for longer than its timeout is closed with an error at
/// the next heartbeat tick.
pub proof fn law_silent_client_closed(m: SessionModel, now: nat, action: SessionAction)
    requires
        now > m.last_heartbeat + m.client_timeout_ns,
        session_action(m, SessionEvent::HeartbeatTick, now, action),
    ensures
        closes_with(action, CloseCode::Error, "Client timeout"@),
{
}

/// A close message from the client is answered with the same reason, and
/// does not count as activity.
pub proof fn law_client_close_echoed(m: SessionModel, reason: Option<CloseReason>, now: nat, action: SessionAction)
    requires
        session_action(m, SessionEvent::Incoming(IncomingMessage::Close(reason)), now, action),
    ensures
        action == SessionAction::Close(reason),
        next_session(m, SessionEvent::Incoming(IncomingMessage::Close(reason)), now) == m,
{
}

} // verus!
