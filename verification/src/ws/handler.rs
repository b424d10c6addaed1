use vstd::prelude::*;

use crate::ws::registry::ConnectionRegistry;

verus! {

/// The query of a WebSocket upgrade request: the session token.
pub struct WsQuery {
    token: String,
}

impl WsQuery {
    /// A query carrying a session token.
    pub fn new(token: String) -> (q: WsQuery)
        ensures
            q.spec_token() == token@,
    {
        WsQuery { token }
    }

    /// The session token.
    pub closed spec fn spec_token(&self) -> Seq<char> {
        self.token@
    }

    /// The session token.
    pub fn token(&self) -> (t: &str)
        ensures
            t@ == self.spec_token(),
    {
        self.token.as_str()
    }
}

/// How an upgrade request is answered.
pub enum Upgrade {
    /// Upgrade the connection for this device.
    Accept { device_id: u128 },
    /// Refuse with this HTTP status and text.
    Reject { status: u16, message: String },
}

/// Decides a WebSocket upgrade from what validating its session token gave:
/// an invalid session is refused with 401 "invalid session"; a valid session
/// that names no device with 400 "device_id required"; otherwise the
/// connection is upgraded for the session's device.
pub fn ws_upgrade(session: Result<Option<u128>, ()>) -> (r: Upgrade)
    ensures
        match session {
            Ok(Some(d)) => r == (Upgrade::Accept { device_id: d }),
            Ok(None) => r matches Upgrade::Reject { status, message } && status == 400
                && message@ == "device_id required"@,
            Err(()) => r matches Upgrade::Reject { status, message } && status == 401
                && message@ == "invalid session"@,
        },
{
    match session {
        Ok(Some(d)) => Upgrade::Accept { device_id: d },
        Ok(None) => Upgrade::Reject { status: 400, message: String::from_str("device_id required") },
        Err(()) => Upgrade::Reject { status: 401, message: String::from_str("invalid session") },
    }
}

/// What a client may send over its WebSocket.
#[derive(PartialEq, Eq, Structural, Clone, Copy, Debug)]
pub enum ClientMessage {
    /// Keeps the connection alive.
    Ping,
    /// The user started typing in a conversation.
    TypingStart { conversation_id: u128 },
    /// The user stopped typing in a conversation.
    TypingStop { conversation_id: u128 },
}

/// What reading the next frame of a client's WebSocket gave.
#[derive(PartialEq, Eq, Structural, Clone, Copy, Debug)]
pub enum Incoming {
    /// A text frame: the client message its JSON holds, or `None` when it
    /// holds none.
    Text(Option<ClientMessage>),
    /// A close frame.
    Close,
    /// A binary, ping or pong frame.
    Other,
    /// The stream ended or failed.
    Ended,
}

/// What the connection does with a frame.
#[derive(PartialEq, Eq, Structural, Clone, Copy, Debug)]
pub enum SocketAction {
    /// Nothing; read the next frame.
    Continue,
    /// Note that typing started in a conversation, then read on.
    TypingStarted { conversation_id: u128 },
    /// Note that typing stopped in a conversation, then read on.
    TypingStopped { conversation_id: u128 },
    /// Stop reading: unregister the device and end the connection.
    Disconnect,
}

/// What a client connection does with the next frame it reads: a close
/// frame or the end of the stream ends the connection; typing messages are
/// noted; pings, unreadable text and other frames are passed over.
pub open spec fn frame_action(frame: Incoming) -> SocketAction {
    match frame {
        Incoming::Text(Some(ClientMessage::Ping)) => SocketAction::Continue,
        Incoming::Text(Some(ClientMessage::TypingStart { conversation_id })) =>
            SocketAction::TypingStarted { conversation_id },
        Incoming::Text(Some(ClientMessage::TypingStop { conversation_id })) =>
            SocketAction::TypingStopped { conversation_id },
        Incoming::Text(None) => SocketAction::Continue,
        Incoming::Close => SocketAction::Disconnect,
        Incoming::Other => SocketAction::Continue,
        Incoming::Ended => SocketAction::Disconnect,
    }
}

/// Handles the next frame read from a device's connection: decides what to
/// do with it and, when the connection ends, unregisters the device.
pub fn handle_frame(registry: &mut ConnectionRegistry, device_id: u128, frame: Incoming) -> (action:
    SocketAction)
    ensures
        action == frame_action(frame),
        final(registry)@ == if action == SocketAction::Disconnect {
            old(registry)@.remove(device_id)
        } else {
            old(registry)@
        },
{
    let action = match frame {
        Incoming::Text(Some(msg)) => match msg {
            ClientMessage::Ping => SocketAction::Continue,
            ClientMessage::TypingStart { conversation_id } => SocketAction::TypingStarted {
                conversation_id,
            },
            ClientMessage::TypingStop { conversation_id } => SocketAction::TypingStopped {
                conversation_id,
            },
        },
        Incoming::Text(None) => SocketAction::Continue,
        Incoming::Close => SocketAction::Disconnect,
        Incoming::Other => SocketAction::Continue,
        Incoming::Ended => SocketAction::Disconnect,
    };
    if let SocketAction::Disconnect = action {
        registry.unregister(device_id);
    }
    action
}

/// A connection's device is no longer registered once its connection ends,
/// and the connection ends exactly on a close frame or at the end of the
/// stream.
pub proof fn law_closed_connections_are_unregistered(
    before: Set<u128>,
    after: Set<u128>,
    device_id: u128,
    frame: Incoming,
)
    requires
        after == if frame_action(frame) == SocketAction::Disconnect {
            before.remove(device_id)
        } else {
            before
        },
    ensures
        frame_action(frame) == SocketAction::Disconnect <==> (frame == Incoming::Close || frame
            == Incoming::Ended),
        frame_action(frame) == SocketAction::Disconnect ==> !after.contains(device_id),
{
}

} // verus!
