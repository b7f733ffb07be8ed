//! What a connection goes through, from its login to its end.
use crate::connection::{Connection, PeerMap};
use crate::db::DbError;
use crate::handlers::SendError;
use crate::protocol::{ServerMessage, User, UserId};
use crate::text::same;
use vstd::prelude::*;

verus! {

/// What a message of a logged-in client leads to.
#[derive(Debug, PartialEq, Eq)]
pub enum ClientAction {
    /// Run `create_channel` with what the message holds.
    CreateChannel,
    /// Run `send_message` with what the message holds.
    SendChatMessage,
    /// Send the client this message.
    Reply(ServerMessage),
    /// Do nothing.
    Ignore,
}

/// What a message of this type leads to.
pub open spec fn client_action(type_: Seq<char>) -> ClientAction {
    if type_ == "CreateChannel"@ {
        ClientAction::CreateChannel
    } else if type_ == "Ping"@ {
        ClientAction::Reply(ServerMessage::Ping)
    } else if type_ == "SendChatMessage"@ {
        ClientAction::SendChatMessage
    } else {
        ClientAction::Ignore
    }
}

/// Tells from its type what a client's message leads to.
pub fn handle_client_message(type_: &String) -> (action: ClientAction)
    ensures
        action == client_action(type_@),
{
    if same(type_, "CreateChannel") {
        ClientAction::CreateChannel
    } else if same(type_, "Ping") {
        ClientAction::Reply(ServerMessage::Ping)
    } else if same(type_, "SendChatMessage") {
        ClientAction::SendChatMessage
    } else {
        ClientAction::Ignore
    }
}

/// Why what a client asked for was not done.
#[derive(Debug, PartialEq, Eq)]
pub enum ServeError {
    /// `create_channel` failed.
    Create(DbError),
    /// `send_message` failed.
    Send(SendError),
    /// The client could not be sent the reply.
    Reply(String),
}

/// What moves `serve` on. `V` is what a message holds, which is only passed on.
#[derive(Debug, PartialEq, Eq)]
pub enum ServeEvent<V> {
    Begin,
    /// A message of this type, which holds this, came in.
    Received { type_: String, value: V },
    /// Something came in that is no text, or no message.
    Broken,
    /// What the last message asked for was tried, with this outcome.
    Handled(Result<(), ServeError>),
    /// Nothing will come in again.
    End,
}

/// What `serve` does next.
#[derive(Debug, PartialEq, Eq)]
pub enum ServeAction<V> {
    /// Wait for what the client sends.
    Receive,
    /// Run `create_channel` with what the message holds.
    CreateChannel(V),
    /// Run `send_message` with what the message holds.
    SendChatMessage(V),
    /// Send the client this message.
    Reply(ServerMessage),
    Return,
}

/// What is asked for is done, one message after the other. Whatever comes in that asks
/// for nothing is passed over. It makes no difference whether what is asked for fails.
/// Only the end of what comes in ends it.
pub open spec fn serve_step<V>(event: ServeEvent<V>, action: ServeAction<V>) -> bool {
    action == match event {
        ServeEvent::Begin => ServeAction::Receive,
        ServeEvent::Received { type_, value } => match client_action(type_@) {
            ClientAction::CreateChannel => ServeAction::CreateChannel(value),
            ClientAction::SendChatMessage => ServeAction::SendChatMessage(value),
            ClientAction::Reply(message) => ServeAction::Reply(message),
            ClientAction::Ignore => ServeAction::Receive,
        },
        ServeEvent::Broken => ServeAction::Receive,
        ServeEvent::Handled(_) => ServeAction::Receive,
        ServeEvent::End => ServeAction::Return,
    }
}

/// Does what a logged-in client asks for, for as long as the connection holds.
pub fn serve<V>(event: ServeEvent<V>) -> (action: ServeAction<V>)
    ensures
        serve_step(event, action),
{
    match event {
        ServeEvent::Begin => ServeAction::Receive,
        ServeEvent::Received { type_, value } => match handle_client_message(&type_) {
            ClientAction::CreateChannel => ServeAction::CreateChannel(value),
            ClientAction::SendChatMessage => ServeAction::SendChatMessage(value),
            ClientAction::Reply(message) => ServeAction::Reply(message),
            ClientAction::Ignore => ServeAction::Receive,
        },
        ServeEvent::Broken => ServeAction::Receive,
        ServeEvent::Handled(_) => ServeAction::Receive,
        ServeEvent::End => ServeAction::Return,
    }
}

/// What moves `handle_connection` on.
#[derive(Debug)]
pub enum SessionEvent<A, T> {
    /// `login` returned.
    LoggedIn(Option<User>),
    /// The core server has been told; this is the connection of the new user.
    Announced(Connection<A, T>),
    /// The connection of this user is over.
    Ended(UserId),
    /// The user is marked as offline.
    Marked(UserId),
    /// The message was written out, as this text.
    Encoded { user_id: UserId, text: Result<String, String> },
    Broadcasted(UserId),
    /// The core server has been told that the user left.
    Left,
}

/// What `handle_connection` does next.
#[derive(Debug, PartialEq, Eq)]
pub enum SessionAction {
    /// Send the core server this message. This user is being connected.
    Announce { message: ServerMessage, user: User },
    /// Run `serve` for this user, and meanwhile pass on to the client what it is sent.
    /// The connection is over as soon as either ends.
    Serve(UserId),
    /// Run `DBApplication::set_online_status` for this user, with `false`.
    MarkOffline(UserId),
    /// Write this message out.
    Encode { message: ServerMessage, user_id: UserId },
    /// Send these users this text. It makes no difference whether that fails.
    Broadcast { to: Vec<UserId>, text: String, user_id: UserId },
    /// Send the core server this message.
    Leave(ServerMessage),
    Return,
}

/// A user who has logged in is reported to the core server and filed. When the
/// connection ends they are marked as offline, removed, and reported as gone: to
/// everybody who is still connected, and to the core server.
///
/// Where the report to the others cannot be written out, the user stays on file.
pub open spec fn session_step<A, T>(
    event: SessionEvent<A, T>,
    before: PeerMap<A, T>,
    after: PeerMap<A, T>,
    action: SessionAction,
) -> bool {
    match event {
        SessionEvent::LoggedIn(None) => after@ == before@ && action == SessionAction::Return,
        SessionEvent::LoggedIn(Some(user)) => after@ == before@ && action
            == (SessionAction::Announce {
            message: ServerMessage::ServerUserJoined { user_id: user.id },
            user,
        }),
        SessionEvent::Announced(conn) => after@ == before@.insert(conn.user.id.0, conn) && action
            == SessionAction::Serve(conn.user.id),
        SessionEvent::Ended(user_id) => after@ == before@ && action == SessionAction::MarkOffline(
            user_id,
        ),
        SessionEvent::Marked(user_id) => after@ == before@ && action == (SessionAction::Encode {
            message: ServerMessage::UserLeft { id: user_id },
            user_id,
        }),
        SessionEvent::Encoded { user_id, text: Ok(text) } => after@ == before@.remove(user_id.0) && (
        action matches SessionAction::Broadcast { to, text: sent, user_id: gone }
            && crate::connection::lists(
            to@,
            |user: UserId| before.connected(user) && user != user_id,
        ) && sent == text && gone == user_id),
        SessionEvent::Encoded { user_id, text: Err(_) } => after@ == before@ && action
            == SessionAction::Leave(ServerMessage::ServerUserLeft { user_id }),
        SessionEvent::Broadcasted(user_id) => after@ == before@ && action == SessionAction::Leave(
            ServerMessage::ServerUserLeft { user_id },
        ),
        SessionEvent::Left => after@ == before@ && action == SessionAction::Return,
    }
}

/// Takes a connection from its login to its end.
pub fn handle_connection<A, T>(event: SessionEvent<A, T>, peers: &mut PeerMap<A, T>) -> (action:
    SessionAction)
    ensures
        session_step(event, *old(peers), *final(peers), action),
        old(peers).well_formed() ==> final(peers).well_formed(),
{
    match event {
        SessionEvent::LoggedIn(login) => match login {
            Some(user) => SessionAction::Announce {
                message: ServerMessage::ServerUserJoined { user_id: user.id },
                user,
            },
            None => SessionAction::Return,
        },
        SessionEvent::Announced(conn) => {
            let user_id = conn.user.id;
            peers.insert(conn);
            SessionAction::Serve(user_id)
        },
        SessionEvent::Ended(user_id) => SessionAction::MarkOffline(user_id),
        SessionEvent::Marked(user_id) => SessionAction::Encode {
            message: ServerMessage::UserLeft { id: user_id },
            user_id,
        },
        SessionEvent::Encoded { user_id, text } => match text {
            Ok(text) => {
                peers.remove(user_id);
                SessionAction::Broadcast { to: peers.user_ids(), text, user_id }
            },
            Err(_) => SessionAction::Leave(ServerMessage::ServerUserLeft { user_id }),
        },
        SessionEvent::Broadcasted(user_id) => SessionAction::Leave(
            ServerMessage::ServerUserLeft { user_id },
        ),
        SessionEvent::Left => SessionAction::Return,
    }
}

} // verus!
