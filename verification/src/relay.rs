//! What the echoing socket does with each thing that arrives.

use vstd::prelude::*;
use vstd::string::StringExecFns;

verus! {

/// What can arrive on a socket.
#[derive(Debug, Clone)]
pub enum SocketEvent {
    /// A text message.
    Text(String),
    /// A binary message.
    Binary(Vec<u8>),
    /// A ping with its payload.
    Ping(Vec<u8>),
    /// A pong with its payload.
    Pong(Vec<u8>),
    /// The peer closes the connection.
    Close,
    /// Receiving failed.
    Failed,
}

/// What can be sent back.
#[derive(Debug, Clone)]
pub enum Reply {
    /// A text message.
    Text(String),
    /// A binary message.
    Binary(Vec<u8>),
    /// A pong with its payload.
    Pong(Vec<u8>),
}

/// What the relay does next.
#[derive(Debug, Clone)]
pub enum SocketAction {
    /// Send the reply and go on, or stop if sending fails.
    Send(Reply),
    /// Go on without sending.
    Ignore,
    /// Stop serving the connection.
    Stop,
}

/// The text that echoes `text`.
pub open spec fn echo_of(text: Seq<char>) -> Seq<char> {
    "Echo: "@ + text
}

/// Whether `action` is what the relay does when `event` arrives: a text
/// comes back behind the word `Echo`, binary data comes back as it is, a
/// ping is answered by a pong with the same payload, a pong is ignored,
/// and a close or a failure ends the connection.
pub open spec fn answers(event: SocketEvent, action: SocketAction) -> bool {
    match event {
        SocketEvent::Text(text) => action matches SocketAction::Send(Reply::Text(echo))
            && echo@ == echo_of(text@),
        SocketEvent::Binary(data) => action matches SocketAction::Send(Reply::Binary(back))
            && back@ == data@,
        SocketEvent::Ping(data) => action matches SocketAction::Send(Reply::Pong(back)) && back@
            == data@,
        SocketEvent::Pong(_) => action is Ignore,
        SocketEvent::Close => action is Stop,
        SocketEvent::Failed => action is Stop,
    }
}

/// Decides what to do when `event` arrives.
pub fn echo_step(event: SocketEvent) -> (action: SocketAction)
    ensures
        answers(event, action),
{
    match event {
        SocketEvent::Text(text) => SocketAction::Send(
            Reply::Text(String::from_str("Echo: ").concat(text.as_str())),
        ),
        SocketEvent::Binary(data) => SocketAction::Send(Reply::Binary(data)),
        SocketEvent::Ping(data) => SocketAction::Send(Reply::Pong(data)),
        SocketEvent::Pong(_) => SocketAction::Ignore,
        SocketEvent::Close => SocketAction::Stop,
        SocketEvent::Failed => SocketAction::Stop,
    }
}

/// The name under which a connecting client is logged: its user agent, or
/// `Unknown browser` where it sent none.
pub fn client_label(user_agent: Option<String>) -> (label: String)
    ensures
        user_agent is Some ==> label == user_agent->Some_0,
        user_agent is None ==> label@ == "Unknown browser"@,
{
    match user_agent {
        Some(agent) => agent,
        None => String::from_str("Unknown browser"),
    }
}

/// The relay never sends anything of its own accord: it sends only in
/// answer to a text, to binary data or to a ping.
pub proof fn lemma_relay_only_answers(event: SocketEvent, action: SocketAction)
    requires
        answers(event, action),
    ensures
        action is Send <==> (event is Text || event is Binary || event is Ping),
        action is Stop <==> (event is Close || event is Failed),
{
}

} // verus!
