//! What the store keeps, and how it is read.
use crate::protocol::{Channel, ChannelId, ChatMessage, MessageId, Role, SendableId, User, UserId};
use vstd::prelude::*;

verus! {

/// A stored user.
#[derive(Debug, PartialEq, Eq)]
pub struct DbUser {
    pub id: i64,
    pub username: String,
    pub flair: Option<String>,
    pub online: bool,
    pub role: Role,
    pub password_hash: String,
}

/// A stored channel.
#[derive(Debug, PartialEq, Eq)]
pub struct DbChannel {
    pub id: i64,
    pub name: String,
}

/// A stored chat message. Recipient and sender are kept as text, which may turn out
/// not to name anyone: each holds what reading that text gave.
#[derive(Debug, PartialEq, Eq)]
pub struct DbChatMessage<T> {
    pub id: i64,
    pub to_: Result<SendableId, String>,
    pub from_: Result<UserId, String>,
    pub ts: T,
    pub content: String,
}

/// A user about to be stored.
#[derive(Debug, PartialEq, Eq)]
pub struct NewUser {
    pub username: String,
    pub password_hash: String,
    pub online: bool,
    pub flair: Option<String>,
    pub role: Role,
}

/// What everyone sees of a stored user: all but the password hash.
pub open spec fn user_of(row: DbUser) -> User {
    User {
        id: UserId(row.id),
        username: row.username,
        online: row.online,
        flair: row.flair,
        role: row.role,
    }
}

/// What everyone sees of a stored channel. Nothing is known of what was read.
pub open spec fn channel_of(row: DbChannel) -> Channel {
    Channel { id: ChannelId(row.id), name: row.name, has_unread: None }
}

/// Both ends of a stored message are known.
pub open spec fn readable<T>(row: DbChatMessage<T>) -> bool {
    row.to_ is Ok && row.from_ is Ok
}

/// The message that a readable row stands for.
pub open spec fn message_of<T>(row: DbChatMessage<T>) -> ChatMessage<T> {
    ChatMessage {
        id: MessageId(row.id),
        to: row.to_->Ok_0,
        from: row.from_->Ok_0,
        ts: row.ts,
        content: row.content,
    }
}

impl vstd::std_specs::convert::FromSpecImpl<DbUser> for User {
    open spec fn obeys_from_spec() -> bool {
        true
    }

    open spec fn from_spec(value: DbUser) -> User {
        user_of(value)
    }
}

impl From<DbUser> for User {
    fn from(value: DbUser) -> (user: User) {
        User {
            id: UserId(value.id),
            username: value.username,
            online: value.online,
            flair: value.flair,
            role: value.role,
        }
    }
}

impl vstd::std_specs::convert::FromSpecImpl<DbChannel> for Channel {
    open spec fn obeys_from_spec() -> bool {
        true
    }

    open spec fn from_spec(value: DbChannel) -> Channel {
        channel_of(value)
    }
}

impl From<DbChannel> for Channel {
    fn from(value: DbChannel) -> (channel: Channel) {
        Channel { id: ChannelId(value.id), name: value.name, has_unread: None }
    }
}

impl<T> vstd::std_specs::convert::TryFromSpecImpl<DbChatMessage<T>> for ChatMessage<T> {
    open spec fn obeys_try_from_spec() -> bool {
        true
    }

    open spec fn try_from_spec(value: DbChatMessage<T>) -> Result<ChatMessage<T>, String> {
        match (value.to_, value.from_) {
            (Err(e), _) => Err(e),
            (Ok(_), Err(e)) => Err(e),
            (Ok(_), Ok(_)) => Ok(message_of(value)),
        }
    }
}

impl<T> TryFrom<DbChatMessage<T>> for ChatMessage<T> {
    type Error = String;

    /// The message, if both ends of it are known, and else what was wrong with the
    /// first end that is not.
    fn try_from(value: DbChatMessage<T>) -> (message: Result<ChatMessage<T>, String>) {
        let id = MessageId(value.id);
        let to = match value.to_ {
            Ok(to) => to,
            Err(e) => return Err(e),
        };
        let from = match value.from_ {
            Ok(from) => from,
            Err(e) => return Err(e),
        };
        Ok(ChatMessage { id, to, from, ts: value.ts, content: value.content })
    }
}

/// The users of a list of rows, in its order.
pub fn users_of(rows: Vec<DbUser>) -> (users: Vec<User>)
    ensures
        users@ == rows@.map_values(|row: DbUser| user_of(row)),
{
    let ghost all = rows@;
    let mut users: Vec<User> = Vec::new();
    for row in it: rows.into_iter()
        invariant
            it.seq() == all,
            users@.len() == it.index(),
            forall|i: int| 0 <= i < users@.len() ==> #[trigger] users@[i] == user_of(all[i]),
    {
        users.push(User::from(row));
    }
    users
}

/// The channels of a list of rows, in its order.
pub fn channels_of(rows: Vec<DbChannel>) -> (channels: Vec<Channel>)
    ensures
        channels@ == rows@.map_values(|row: DbChannel| channel_of(row)),
{
    let ghost all = rows@;
    let mut channels: Vec<Channel> = Vec::new();
    for row in it: rows.into_iter()
        invariant
            it.seq() == all,
            channels@.len() == it.index(),
            forall|i: int|
                0 <= i < channels@.len() ==> #[trigger] channels@[i] == channel_of(all[i]),
    {
        channels.push(Channel::from(row));
    }
    channels
}

/// The messages of the readable rows of a list, in its order.
pub fn messages_of<T>(rows: Vec<DbChatMessage<T>>) -> (messages: Vec<ChatMessage<T>>)
    ensures
        messages@ == rows@.filter(|row: DbChatMessage<T>| readable(row)).map_values(
            |row: DbChatMessage<T>| message_of(row),
        ),
{
    let ghost all = rows@;
    let ghost good = |row: DbChatMessage<T>| readable(row);
    let ghost read = |row: DbChatMessage<T>| message_of(row);
    let mut messages: Vec<ChatMessage<T>> = Vec::new();
    assert(all.take(0).filter(good) =~= Seq::<DbChatMessage<T>>::empty()) by {
        reveal(Seq::filter);
    }
    for row in it: rows.into_iter()
        invariant
            it.seq() == all,
            good == (|row: DbChatMessage<T>| readable(row)),
            read == (|row: DbChatMessage<T>| message_of(row)),
            messages@ == all.take(it.index() as int).filter(good).map_values(read),
    {
        proof {
            let i = it.index() as int;
            assert(all.take(i + 1).drop_last() =~= all.take(i));
            reveal(Seq::filter);
        }
        if let Ok(message) = ChatMessage::try_from(row) {
            messages.push(message);
        }
    }
    assert(all.take(all.len() as int) =~= all);
    messages
}

} // verus!
