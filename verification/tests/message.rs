use timer_api::message::{handle_client_command, ClientCommand};
use timer_api::server::Command;
use timer_api::session::{CloseCode, CloseReason, IncomingMessage};
use timer_api::transport::TransportMessage;

#[test]
fn client_commands_become_server_requests() {
    assert_eq!(handle_client_command(ClientCommand::StartTimer, 9), Command::StartCounter(9));
    assert_eq!(handle_client_command(ClientCommand::StopTimer, 9), Command::StopCounter(9));
    assert_eq!(
        handle_client_command(ClientCommand::SetTime { time: 5000 }, 9),
        Command::SetTime(9, 5000)
    );
}

#[test]
fn incoming_messages_convert_to_transport_messages() {
    assert!(matches!(
        TransportMessage::from_incoming(IncomingMessage::Text("test".to_string())),
        TransportMessage::Text(s) if s == "test"
    ));
    assert!(matches!(
        TransportMessage::from_incoming(IncomingMessage::Ping(vec![1, 2, 3])),
        TransportMessage::Ping(data) if data == vec![1, 2, 3]
    ));
    let reason = CloseReason { code: CloseCode::Normal, description: Some("done".to_string()) };
    assert!(matches!(
        TransportMessage::from_incoming(IncomingMessage::Close(Some(reason))),
        TransportMessage::Close(Some(s)) if s == "done"
    ));
    assert!(matches!(
        TransportMessage::from_incoming(IncomingMessage::Close(None)),
        TransportMessage::Close(None)
    ));
}
