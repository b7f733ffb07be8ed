//! The values that clients, servers and the store exchange.
use vstd::prelude::*;

verus! {

/// Identifies a user.
#[derive(Clone, Copy, Debug, PartialEq, Eq, Structural, Hash)]
pub struct UserId(pub i64);

/// Identifies a channel.
#[derive(Clone, Copy, Debug, PartialEq, Eq, Structural, Hash)]
pub struct ChannelId(pub i64);

/// Identifies a chat message.
#[derive(Clone, Copy, Debug, PartialEq, Eq, Structural, Hash)]
pub struct MessageId(pub i64);

/// Where a chat message goes: to everyone in a channel, or to one user.
#[derive(Clone, Copy, Debug, PartialEq, Eq, Structural, Hash)]
pub enum SendableId {
    C(ChannelId),
    U(UserId),
}

/// What a user may do.
#[derive(Clone, Debug, PartialEq, Eq)]
pub enum Role {
    Op,
    Member,
    /// Any further role, by the text that it is stored under.
    Other(String),
}

/// A user as everyone sees them.
#[derive(Clone, Debug, PartialEq, Eq)]
pub struct User {
    pub id: UserId,
    pub username: String,
    pub online: bool,
    pub flair: Option<String>,
    pub role: Role,
}

/// A channel as everyone sees it.
#[derive(Debug, PartialEq, Eq)]
pub struct Channel {
    pub id: ChannelId,
    pub name: String,
    pub has_unread: Option<bool>,
}

/// The credentials that open a session.
#[derive(Clone, Debug, PartialEq, Eq)]
pub struct LoginMessage {
    pub username: String,
    pub password: String,
}

/// A client's wish for a new channel.
#[derive(Debug, PartialEq, Eq)]
pub struct CreateChannel {
    pub name: String,
}

/// A client's wish to say something.
#[derive(Debug, PartialEq, Eq)]
pub struct SendChatMessage {
    pub to: SendableId,
    pub content: String,
}

/// A chat message that has been stored. `T` is how its time is written down:
/// whole milliseconds since 1970 where the server stamps a message, and whatever
/// the store keeps where a message is read back.
#[derive(Debug, PartialEq, Eq)]
pub struct ChatMessage<T> {
    pub id: MessageId,
    pub to: SendableId,
    pub from: UserId,
    pub ts: T,
    pub content: String,
}

/// A channel that has just come to be, who made it and when (in whole
/// milliseconds since 1970).
#[derive(Debug, PartialEq, Eq)]
pub struct ChannelAdded {
    pub channel: Channel,
    pub created_by: UserId,
    pub ts: i64,
}

/// A chat message on its way to users of other servers.
#[derive(Debug, PartialEq, Eq)]
pub struct ForwardMessage {
    pub message: ChatMessage<i64>,
    pub user_ids: Vec<UserId>,
}

/// What the server sends besides chat messages: to clients, and (the last three) to the
/// core server that links the chat servers. A ping goes to either.
#[derive(Debug, PartialEq, Eq)]
pub enum ServerMessage {
    LoginFail { reason: String },
    LoginSuccess { id: UserId },
    UserJoined { user: User },
    UserLeft { id: UserId },
    UsersInfo { users: Vec<User> },
    ChannelsInfo { channels: Vec<Channel> },
    ChannelAdded(ChannelAdded),
    Ping,
    ServerUserJoined { user_id: UserId },
    ServerUserLeft { user_id: UserId },
    ServerUsers { user_ids: Vec<UserId> },
}

} // verus!
