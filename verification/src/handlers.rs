//! What a client's messages lead to.
//!
//! Each handler is a function from an event (its start, or the outcome of the last
//! action) to the next action. An action carries whatever the event that answers it
//! has to hand back.
use crate::connection::PeerMap;
use crate::db::{DbError, INTERNAL_SERVER_ERROR, NOT_FOUND, UNAUTHORIZED};
use crate::protocol::{
    Channel, ChannelAdded, ChannelId, ChatMessage, CreateChannel, ForwardMessage, LoginMessage,
    SendChatMessage, SendableId, ServerMessage, User, UserId,
};
use vstd::prelude::*;
use vstd::string::*;

verus! {

/// What a client that has not logged in yet sends.
#[derive(Debug, PartialEq, Eq)]
pub enum Incoming {
    /// Credentials.
    Login(LoginMessage),
    /// Something that the connection could not make out.
    Broken,
    /// Nothing, ever again.
    End,
}

/// What moves `login` on.
#[derive(Debug, PartialEq, Eq)]
pub enum LoginEvent {
    Begin,
    Received(Incoming),
    /// `DBApplication::login_user` returned.
    LoggedIn { login: LoginMessage, result: Result<User, DbError> },
    /// `DBApplication::new_user` returned.
    Created(Result<User, DbError>),
    /// The client has been told that it may not come in.
    Refused,
    /// `handle_login_success` is through.
    Welcomed(User),
    Closed,
}

/// What `login` does next.
#[derive(Debug, PartialEq, Eq)]
pub enum LoginAction {
    /// Wait for what the client sends.
    Receive,
    /// Run `DBApplication::login_user` with these.
    LogIn(LoginMessage),
    /// Run `DBApplication::new_user` with these.
    Create(LoginMessage),
    /// Send the client this message.
    Refuse(ServerMessage),
    /// Run `handle_login_success` for this user.
    Welcome(User),
    /// Close the connection.
    Close,
    Return(Option<User>),
}

/// The client is told this, and stays outside.
pub open spec fn refuses(action: LoginAction, reason: Seq<char>) -> bool {
    action matches LoginAction::Refuse(ServerMessage::LoginFail { reason: text }) && text@ == reason
}

/// A client is asked for credentials until they let it in or it leaves. Credentials
/// of a user who does not exist yet create that user.
pub open spec fn login_step(event: LoginEvent, action: LoginAction) -> bool {
    match event {
        LoginEvent::Begin => action == LoginAction::Receive,
        LoginEvent::Received(Incoming::Login(login)) => action == LoginAction::LogIn(login),
        LoginEvent::Received(Incoming::Broken) => action == LoginAction::Receive,
        LoginEvent::Received(Incoming::End) => action == LoginAction::Close,
        LoginEvent::LoggedIn { login, result: Ok(user) } => action == LoginAction::Welcome(user),
        LoginEvent::LoggedIn { login, result: Err(e) } => if e.status == INTERNAL_SERVER_ERROR {
            refuses(action, "Internal Server Error: failed to fetch user"@)
        } else if e.status == UNAUTHORIZED {
            refuses(action, "wrong password"@)
        } else if e.status == NOT_FOUND {
            action == LoginAction::Create(login)
        } else {
            action == LoginAction::Receive
        },
        LoginEvent::Created(Ok(user)) => action == LoginAction::Welcome(user),
        LoginEvent::Created(Err(e)) => refuses(
            action,
            "Internal Server Error: failed to create new user"@,
        ),
        LoginEvent::Refused => action == LoginAction::Receive,
        LoginEvent::Welcomed(user) => action == LoginAction::Return(Some(user)),
        LoginEvent::Closed => action == LoginAction::Return(None),
    }
}

/// Finds out who a client is.
pub fn login(event: LoginEvent) -> (action: LoginAction)
    ensures
        login_step(event, action),
{
    match event {
        LoginEvent::Begin => LoginAction::Receive,
        LoginEvent::Received(incoming) => match incoming {
            Incoming::Login(login) => LoginAction::LogIn(login),
            Incoming::Broken => LoginAction::Receive,
            Incoming::End => LoginAction::Close,
        },
        LoginEvent::LoggedIn { login, result } => match result {
            Ok(user) => LoginAction::Welcome(user),
            Err(e) => if e.status == INTERNAL_SERVER_ERROR {
                LoginAction::Refuse(send_login_fail("Internal Server Error: failed to fetch user"))
            } else if e.status == UNAUTHORIZED {
                LoginAction::Refuse(send_login_fail("wrong password"))
            } else if e.status == NOT_FOUND {
                LoginAction::Create(login)
            } else {
                LoginAction::Receive
            },
        },
        LoginEvent::Created(result) => match result {
            Ok(user) => LoginAction::Welcome(user),
            Err(_) => LoginAction::Refuse(
                send_login_fail("Internal Server Error: failed to create new user"),
            ),
        },
        LoginEvent::Refused => LoginAction::Receive,
        LoginEvent::Welcomed(user) => LoginAction::Return(Some(user)),
        LoginEvent::Closed => LoginAction::Return(None),
    }
}

/// What a client is sent that may not come in.
pub fn send_login_fail(message: &str) -> (fail: ServerMessage)
    ensures
        fail matches ServerMessage::LoginFail { reason } && reason@ == message@,
{
    ServerMessage::LoginFail { reason: message.to_owned() }
}

/// What moves `handle_login_success` on.
#[derive(Debug, PartialEq, Eq)]
pub enum WelcomeEvent {
    Begin(User),
    /// All users and all channels have been read from the store.
    Listed { id: UserId, users: Vec<User>, channels: Vec<Channel> },
}

/// What `handle_login_success` does next.
#[derive(Debug, PartialEq, Eq)]
pub enum WelcomeAction {
    /// Send these users this message, then read all users and all channels from the
    /// store.
    Announce { to: Vec<UserId>, message: ServerMessage, id: UserId },
    /// Send the new client these messages, in this order.
    Greet(Vec<ServerMessage>),
}

/// Everybody else who is connected hears of the new user, who then gets their own
/// id, the users and the channels, in this order.
pub open spec fn welcome_step<A, T>(
    event: WelcomeEvent,
    peers: PeerMap<A, T>,
    action: WelcomeAction,
) -> bool {
    match event {
        WelcomeEvent::Begin(user) => action matches WelcomeAction::Announce { to, message, id }
            && crate::connection::lists(
            to@,
            |other: UserId| peers.connected(other) && other != user.id,
        ) && message == (ServerMessage::UserJoined { user }) && id == user.id,
        WelcomeEvent::Listed { id, users, channels } => action matches WelcomeAction::Greet(
            messages,
        ) && messages@ == seq![
            ServerMessage::LoginSuccess { id },
            ServerMessage::UsersInfo { users },
            ServerMessage::ChannelsInfo { channels },
        ],
    }
}

/// Welcomes a user who has just logged in.
pub fn handle_login_success<A, T>(event: WelcomeEvent, peers: &PeerMap<A, T>) -> (action:
    WelcomeAction)
    ensures
        welcome_step(event, *peers, action),
{
    match event {
        WelcomeEvent::Begin(user) => {
            let id = user.id;
            WelcomeAction::Announce {
                to: peers.user_ids_except(id),
                message: ServerMessage::UserJoined { user },
                id,
            }
        },
        WelcomeEvent::Listed { id, users, channels } => {
            let mut messages: Vec<ServerMessage> = Vec::new();
            messages.push(ServerMessage::LoginSuccess { id });
            messages.push(ServerMessage::UsersInfo { users });
            messages.push(ServerMessage::ChannelsInfo { channels });
            assert(messages@ =~= seq![
                ServerMessage::LoginSuccess { id },
                ServerMessage::UsersInfo { users },
                ServerMessage::ChannelsInfo { channels },
            ]);
            WelcomeAction::Greet(messages)
        },
    }
}

/// What moves `create_channel` on.
#[derive(Debug, PartialEq, Eq)]
pub enum CreateChannelEvent {
    Begin { create: CreateChannel, user_id: UserId },
    /// `DBApplication::insert_channel` returned.
    Inserted(Result<ChannelAdded, DbError>),
    /// The message was written out, as this text.
    Encoded { chan_id: ChannelId, text: Result<String, String> },
    Broadcasted,
}

/// What `create_channel` does next.
#[derive(Debug, PartialEq, Eq)]
pub enum CreateChannelAction {
    /// Run `DBApplication::insert_channel` with these.
    Insert { create: CreateChannel, user_id: UserId },
    /// Write this message out.
    Encode { chan_id: ChannelId, message: ServerMessage },
    /// Send these users this text, and run `DBApplication::add_user_channel` for each
    /// of them and this channel. It makes no difference whether any of that fails.
    Broadcast { to: Vec<UserId>, text: String, chan_id: ChannelId },
    Return(Result<(), DbError>),
}

/// A channel is stored; then everybody who is connected hears of it and joins it.
pub open spec fn create_channel_step<A, T>(
    event: CreateChannelEvent,
    peers: PeerMap<A, T>,
    action: CreateChannelAction,
) -> bool {
    match event {
        CreateChannelEvent::Begin { create, user_id } => action == CreateChannelAction::Insert {
            create,
            user_id,
        },
        CreateChannelEvent::Inserted(Err(e)) => action == CreateChannelAction::Return(
            Err::<(), DbError>(e),
        ),
        CreateChannelEvent::Inserted(Ok(added)) => action == CreateChannelAction::Encode {
            chan_id: added.channel.id,
            message: ServerMessage::ChannelAdded(added),
        },
        CreateChannelEvent::Encoded { chan_id, text: Ok(text) } => action
            matches CreateChannelAction::Broadcast { to, text: sent, chan_id: joined }
            && crate::connection::lists(to@, |user: UserId| peers.connected(user)) && sent == text
            && joined == chan_id,
        CreateChannelEvent::Encoded { chan_id, text: Err(_) } => action
            == CreateChannelAction::Return(Ok::<(), DbError>(())),
        CreateChannelEvent::Broadcasted => action == CreateChannelAction::Return(
            Ok::<(), DbError>(()),
        ),
    }
}

/// Creates a channel.
pub fn create_channel<A, T>(event: CreateChannelEvent, peers: &PeerMap<A, T>) -> (action:
    CreateChannelAction)
    ensures
        create_channel_step(event, *peers, action),
{
    match event {
        CreateChannelEvent::Begin { create, user_id } => CreateChannelAction::Insert {
            create,
            user_id,
        },
        CreateChannelEvent::Inserted(inserted) => match inserted {
            Ok(added) => CreateChannelAction::Encode {
                chan_id: added.channel.id,
                message: ServerMessage::ChannelAdded(added),
            },
            Err(e) => CreateChannelAction::Return(Err(e)),
        },
        CreateChannelEvent::Encoded { chan_id, text } => match text {
            Ok(text) => CreateChannelAction::Broadcast { to: peers.user_ids(), text, chan_id },
            Err(_) => CreateChannelAction::Return(Ok(())),
        },
        CreateChannelEvent::Broadcasted => CreateChannelAction::Return(Ok(())),
    }
}

/// Why a message could not be sent.
#[derive(Debug, PartialEq, Eq)]
pub enum SendError {
    /// It could not be stored.
    Store(DbError),
    /// It could not be written out.
    Encoding(String),
    /// It could not be handed to a client.
    Delivery(String),
}

/// What moves `send_message` on.
#[derive(Debug, PartialEq, Eq)]
pub enum SendEvent {
    Begin { msg: SendChatMessage, sender_id: UserId },
    /// `DBApplication::persist_message` returned.
    Persisted(Result<ChatMessage<i64>, DbError>),
    /// The message was written out, as this text.
    Encoded { message: ChatMessage<i64>, text: Result<String, String> },
    /// `DBApplication::get_channel_users` returned.
    Members { message: ChatMessage<i64>, text: String, members: Result<Vec<UserId>, DbError> },
    Broadcasted(ForwardMessage),
    /// The message to the core server was written out, as this text.
    ForwardEncoded { forward: Result<String, String>, echo: Option<String> },
    Forwarded { echo: Option<String> },
    /// The recipient was sent this text.
    Delivered { text: String, sent: Result<(), String> },
    /// The sender was sent the text.
    Echoed(Result<(), String>),
}

/// What `send_message` does next.
#[derive(Debug, PartialEq, Eq)]
pub enum SendAction {
    /// Run `DBApplication::persist_message` with these.
    Persist { msg: SendChatMessage, sender_id: UserId },
    /// Write this message out.
    Encode(ChatMessage<i64>),
    /// Run `DBApplication::get_channel_users` for this channel.
    ListMembers { chan_id: ChannelId, message: ChatMessage<i64>, text: String },
    /// Send these users this text. It makes no difference whether that fails.
    Broadcast { to: Vec<UserId>, text: String, forward: ForwardMessage },
    /// Write this message to the core server out.
    EncodeForward { forward: ForwardMessage, echo: Option<String> },
    /// Send the core server this text. It makes no difference whether that fails.
    Forward { text: String, echo: Option<String> },
    /// Send this user this text.
    Deliver { to: UserId, text: String },
    /// Send the sender this text.
    Echo(String),
    Return(Result<(), SendError>),
}

/// A message is stored and written out. A message to a channel goes to those of its
/// members who are connected here, and to the core server for the others. A message
/// to a user goes to that user, directly or by way of the core server, and back to
/// its sender.
pub open spec fn send_step<A, T>(
    event: SendEvent,
    peers: PeerMap<A, T>,
    action: SendAction,
) -> bool {
    match event {
        SendEvent::Begin { msg, sender_id } => action == SendAction::Persist { msg, sender_id },
        SendEvent::Persisted(Err(e)) => action == SendAction::Return(Err(SendError::Store(e))),
        SendEvent::Persisted(Ok(message)) => action == SendAction::Encode(message),
        SendEvent::Encoded { message, text: Err(e) } => action == SendAction::Return(
            Err(SendError::Encoding(e)),
        ),
        SendEvent::Encoded { message, text: Ok(text) } => match message.to {
            SendableId::C(chan_id) => action == SendAction::ListMembers { chan_id, message, text },
            SendableId::U(user_id) => if peers.connected(user_id) {
                action == SendAction::Deliver { to: user_id, text }
            } else {
                action matches SendAction::EncodeForward { forward, echo } && forward.message
                    == message && forward.user_ids@ == seq![user_id] && echo == Some(text)
            },
        },
        SendEvent::Members { message, text, members: Err(_) } => action == SendAction::Return(
            Ok::<(), SendError>(()),
        ),
        SendEvent::Members { message, text, members: Ok(members) } => action
            matches SendAction::Broadcast { to, text: sent, forward } && crate::connection::lists(
            to@,
            |user: UserId| peers.connected(user) && members@.contains(user),
        ) && sent == text && forward.message == message && forward.user_ids@ == members@.filter(
            |user: UserId| !peers.connected(user),
        ),
        SendEvent::Broadcasted(forward) => action == SendAction::EncodeForward {
            forward,
            echo: None,
        },
        SendEvent::ForwardEncoded { forward: Ok(text), echo } => action == SendAction::Forward {
            text,
            echo,
        },
        SendEvent::ForwardEncoded { forward: Err(_), echo } => action == SendAction::Return(
            Ok::<(), SendError>(()),
        ),
        SendEvent::Forwarded { echo: Some(text) } => action == SendAction::Echo(text),
        SendEvent::Forwarded { echo: None } => action == SendAction::Return(
            Ok::<(), SendError>(()),
        ),
        SendEvent::Delivered { text, sent: Ok(_) } => action == SendAction::Echo(text),
        SendEvent::Delivered { text, sent: Err(e) } => action == SendAction::Return(
            Err(SendError::Delivery(e)),
        ),
        SendEvent::Echoed(Ok(_)) => action == SendAction::Return(Ok::<(), SendError>(())),
        SendEvent::Echoed(Err(e)) => action == SendAction::Return(Err(SendError::Delivery(e))),
    }
}

/// Sends a chat message.
pub fn send_message<A, T>(event: SendEvent, peers: &PeerMap<A, T>) -> (action: SendAction)
    ensures
        send_step(event, *peers, action),
{
    match event {
        SendEvent::Begin { msg, sender_id } => SendAction::Persist { msg, sender_id },
        SendEvent::Persisted(persisted) => match persisted {
            Ok(message) => SendAction::Encode(message),
            Err(e) => SendAction::Return(Err(SendError::Store(e))),
        },
        SendEvent::Encoded { message, text } => match text {
            Ok(text) => match message.to {
                SendableId::C(chan_id) => SendAction::ListMembers { chan_id, message, text },
                SendableId::U(user_id) => if peers.contains(user_id) {
                    SendAction::Deliver { to: user_id, text }
                } else {
                    let mut user_ids: Vec<UserId> = Vec::new();
                    user_ids.push(user_id);
                    SendAction::EncodeForward {
                        forward: ForwardMessage { message, user_ids },
                        echo: Some(text),
                    }
                },
            },
            Err(e) => SendAction::Return(Err(SendError::Encoding(e))),
        },
        SendEvent::Members { message, text, members } => match members {
            Ok(members) => SendAction::Broadcast {
                to: peers.user_ids_among(&members),
                text,
                forward: ForwardMessage { message, user_ids: peers.absent_among(&members) },
            },
            Err(_) => SendAction::Return(Ok(())),
        },
        SendEvent::Broadcasted(forward) => SendAction::EncodeForward { forward, echo: None },
        SendEvent::ForwardEncoded { forward, echo } => match forward {
            Ok(text) => SendAction::Forward { text, echo },
            Err(_) => SendAction::Return(Ok(())),
        },
        SendEvent::Forwarded { echo } => match echo {
            Some(text) => SendAction::Echo(text),
            None => SendAction::Return(Ok(())),
        },
        SendEvent::Delivered { text, sent } => match sent {
            Ok(_) => SendAction::Echo(text),
            Err(e) => SendAction::Return(Err(SendError::Delivery(e))),
        },
        SendEvent::Echoed(sent) => match sent {
            Ok(_) => SendAction::Return(Ok(())),
            Err(e) => SendAction::Return(Err(SendError::Delivery(e))),
        },
    }
}

} // verus!
