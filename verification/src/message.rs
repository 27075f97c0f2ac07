use vstd::prelude::*;

use crate::server;

verus! {

/// Commands that can be sent from clients to control the timer.
#[derive(Clone, Copy, Debug, PartialEq, Eq, Structural)]
pub enum ClientCommand {
    StartTimer,
    StopTimer,
    SetTime { time: i32 },
}

/// The server request that carries a client's command for connection
/// `conn_id`.
pub open spec fn request_for(cmd: ClientCommand, conn_id: u128) -> server::Command {
    match cmd {
        ClientCommand::StartTimer => server::Command::StartCounter(conn_id),
        ClientCommand::StopTimer => server::Command::StopCounter(conn_id),
        ClientCommand::SetTime { time } => server::Command::SetTime(conn_id, time),
    }
}

/// The connection a server request speaks for, if any.
pub open spec fn request_client(req: server::Command) -> Option<u128> {
    match req {
        server::Command::Connect(_) => None,
        server::Command::Disconnect(c) => Some(c),
        server::Command::StartCounter(c) => Some(c),
        server::Command::StopCounter(c) => Some(c),
        server::Command::SetTime(c, _) => Some(c),
        server::Command::Shutdown => None,
    }
}

/// Maps a client command to the request the connection sends the server:
/// start, stop, or set the time of the connection's timer.
pub fn handle_client_command(cmd: ClientCommand, conn_id: u128) -> (req: server::Command)
    ensures
        req == request_for(cmd, conn_id),
        request_client(req) == Some(conn_id),
        cmd == ClientCommand::StartTimer ==> req == server::Command::StartCounter(conn_id),
        cmd == ClientCommand::StopTimer ==> req == server::Command::StopCounter(conn_id),
        cmd matches ClientCommand::SetTime { time } ==> req == server::Command::SetTime(conn_id, time),
{
    match cmd {
        ClientCommand::StartTimer => server::Command::StartCounter(conn_id),
        ClientCommand::StopTimer => server::Command::StopCounter(conn_id),
        ClientCommand::SetTime { time } => server::Command::SetTime(conn_id, time),
    }
}

/// A client's command always reaches the server on behalf of that client's
/// own connection, with its full id; different commands of one connection
/// give different requests, and a new time is passed on unchanged.
pub proof fn law_request_keeps_connection(cmd: ClientCommand, other: ClientCommand, conn_id: u128, time: i32)
    ensures
        request_client(request_for(cmd, conn_id)) == Some(conn_id),
        request_for(cmd, conn_id) == request_for(other, conn_id) ==> cmd == other,
        request_for(ClientCommand::SetTime { time }, conn_id) matches server::Command::SetTime(c, t) && c
            == conn_id && t == time,
{
}

} // verus!
