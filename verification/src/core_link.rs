//! The link to the core server, through which the chat servers reach each other's
//! users.
use crate::connection::PeerMap;
use crate::outside;
use crate::protocol::{ServerMessage, UserId};
use crate::text::same;
use vstd::prelude::*;

verus! {

/// How long to wait between two signs of life, in seconds.
pub const PING_PERIOD_SECS: u64 = 60;

/// How long to wait before the next attempt to reach the core server, in seconds.
pub const RETRY_PERIOD_SECS: u64 = 1;

/// Where the core server is: on this machine in development, else in production.
pub open spec fn core_address(local_dev: bool) -> Seq<char> {
    if local_dev {
        "ws://localhost:8000/"@
    } else {
        "wss://tc-core.level9turtles.com"@
    }
}

/// The URL of the core server. It names the root where the address does not. The address
/// is one that can be read, so there is no error.
pub fn core_url(local_dev: bool) -> (url: Result<String, String>)
    ensures
        url matches Ok(url) && url@ == (if local_dev {
            "ws://localhost:8000/"@
        } else {
            "wss://tc-core.level9turtles.com/"@
        }),
        url matches Ok(url) ==> outside::parsed_url(core_address(local_dev)) == Ok::<
            Seq<char>,
            Seq<char>,
        >(url@),
{
    if local_dev {
        outside::parse_url("ws://localhost:8000/")
    } else {
        outside::parse_url("wss://tc-core.level9turtles.com")
    }
}

/// What moves `loop_ping_core` on.
#[derive(Debug, PartialEq, Eq)]
pub enum PingEvent {
    Begin,
    Sent,
    Slept,
}

/// What `loop_ping_core` does next.
#[derive(Debug, PartialEq, Eq)]
pub enum PingAction {
    /// Send the core server this message. It makes no difference whether that fails.
    Send(ServerMessage),
    /// Wait for so many seconds.
    Sleep(u64),
}

/// A sign of life, a pause, and so on.
pub open spec fn ping_action(event: PingEvent) -> PingAction {
    match event {
        PingEvent::Begin => PingAction::Send(ServerMessage::Ping),
        PingEvent::Sent => PingAction::Sleep(PING_PERIOD_SECS),
        PingEvent::Slept => PingAction::Send(ServerMessage::Ping),
    }
}

/// Gives the core server a sign of life once every period, for ever.
pub fn loop_ping_core(event: PingEvent) -> (action: PingAction)
    ensures
        action == ping_action(event),
{
    match event {
        PingEvent::Begin => PingAction::Send(ServerMessage::Ping),
        PingEvent::Sent => PingAction::Sleep(PING_PERIOD_SECS),
        PingEvent::Slept => PingAction::Send(ServerMessage::Ping),
    }
}

/// What moves `listen_to_core` on.
#[derive(Debug, PartialEq, Eq)]
pub enum ListenEvent {
    Begin,
    /// A message of this type came in.
    Received { type_: String },
    /// Something came in that is no message.
    Broken,
    /// Nothing will ever come in again.
    End,
    /// The message was read as one to pass on to these users.
    Read(Result<Vec<UserId>, String>),
    /// What is to be passed on was written out, as this text.
    Encoded { user_ids: Vec<UserId>, text: Result<String, String> },
    Delivered,
}

/// What `listen_to_core` does next.
#[derive(Debug, PartialEq, Eq)]
pub enum ListenAction {
    /// Wait for the next message.
    Receive,
    /// Read the message that came in as one to pass on.
    ReadForward,
    /// Write out what is to be passed on to these users.
    Encode { user_ids: Vec<UserId> },
    /// Send these users this text. It makes no difference whether that fails.
    Deliver { to: Vec<UserId>, text: String },
    Return,
}

/// Messages to pass on go to those of their recipients who are connected here. All
/// others are passed over.
pub open spec fn listen_step<A, T>(
    event: ListenEvent,
    peers: PeerMap<A, T>,
    action: ListenAction,
) -> bool {
    match event {
        ListenEvent::Begin => action == ListenAction::Receive,
        ListenEvent::Received { type_ } => if type_@ == "ForwardMessage"@ {
            action == ListenAction::ReadForward
        } else {
            action == ListenAction::Receive
        },
        ListenEvent::Broken => action == ListenAction::Receive,
        ListenEvent::End => action == ListenAction::Return,
        ListenEvent::Read(Ok(user_ids)) => action == ListenAction::Encode { user_ids },
        ListenEvent::Read(Err(_)) => action == ListenAction::Receive,
        ListenEvent::Encoded { user_ids, text: Ok(text) } => action matches ListenAction::Deliver {
            to,
            text: sent,
        } && crate::connection::lists(
            to@,
            |user: UserId| peers.connected(user) && user_ids@.contains(user),
        ) && sent == text,
        ListenEvent::Encoded { user_ids, text: Err(_) } => action == ListenAction::Receive,
        ListenEvent::Delivered => action == ListenAction::Receive,
    }
}

/// Passes on what the core server sends, for as long as the link holds.
pub fn listen_to_core<A, T>(event: ListenEvent, peers: &PeerMap<A, T>) -> (action: ListenAction)
    ensures
        listen_step(event, *peers, action),
{
    match event {
        ListenEvent::Begin => ListenAction::Receive,
        ListenEvent::Received { type_ } => if same(&type_, "ForwardMessage") {
            ListenAction::ReadForward
        } else {
            ListenAction::Receive
        },
        ListenEvent::Broken => ListenAction::Receive,
        ListenEvent::End => ListenAction::Return,
        ListenEvent::Read(read) => match read {
            Ok(user_ids) => ListenAction::Encode { user_ids },
            Err(_) => ListenAction::Receive,
        },
        ListenEvent::Encoded { user_ids, text } => match text {
            Ok(text) => ListenAction::Deliver { to: peers.user_ids_among(&user_ids), text },
            Err(_) => ListenAction::Receive,
        },
        ListenEvent::Delivered => ListenAction::Receive,
    }
}

/// What moves `listen_with_reconnect` on.
#[derive(Debug, PartialEq, Eq)]
pub enum ReconnectEvent {
    Begin,
    /// The first link, which was there before, is lost.
    FirstLost,
    /// There is a new link, and messages to the core server go through it from now on.
    Connected,
    /// There is no new link.
    Failed,
    /// The message was written out, as this text.
    Encoded(Result<String, String>),
    /// A link that was made here is lost.
    Lost,
    Slept,
}

/// What `listen_with_reconnect` does next.
#[derive(Debug, PartialEq, Eq)]
pub enum ReconnectAction {
    /// Run `listen_to_core` on the first link.
    ListenFirst,
    /// Try to reach the core server.
    Connect,
    /// Write this message out.
    Encode(ServerMessage),
    /// Send the core server this text, which makes no difference if it fails, and run
    /// `listen_to_core` on the new link.
    SendAndListen(String),
    /// Wait for so many seconds.
    Sleep(u64),
}

/// Whenever the link is lost another one is made, with a pause after each attempt
/// and after each link that was made here. A new link starts with the users who are
/// connected.
pub open spec fn reconnect_step<A, T>(
    event: ReconnectEvent,
    peers: PeerMap<A, T>,
    action: ReconnectAction,
) -> bool {
    match event {
        ReconnectEvent::Begin => action == ReconnectAction::ListenFirst,
        ReconnectEvent::FirstLost => action == ReconnectAction::Connect,
        ReconnectEvent::Connected => action matches ReconnectAction::Encode(
            ServerMessage::ServerUsers { user_ids },
        ) && crate::connection::lists(user_ids@, |user: UserId| peers.connected(user)),
        ReconnectEvent::Failed => action == ReconnectAction::Sleep(RETRY_PERIOD_SECS),
        ReconnectEvent::Encoded(Ok(text)) => action == ReconnectAction::SendAndListen(text),
        ReconnectEvent::Encoded(Err(_)) => action == ReconnectAction::Sleep(RETRY_PERIOD_SECS),
        ReconnectEvent::Lost => action == ReconnectAction::Sleep(RETRY_PERIOD_SECS),
        ReconnectEvent::Slept => action == ReconnectAction::Connect,
    }
}

/// Keeps the link to the core server up, for ever.
pub fn listen_with_reconnect<A, T>(event: ReconnectEvent, peers: &PeerMap<A, T>) -> (action:
    ReconnectAction)
    ensures
        reconnect_step(event, *peers, action),
{
    match event {
        ReconnectEvent::Begin => ReconnectAction::ListenFirst,
        ReconnectEvent::FirstLost => ReconnectAction::Connect,
        ReconnectEvent::Connected => ReconnectAction::Encode(
            ServerMessage::ServerUsers { user_ids: peers.user_ids() },
        ),
        ReconnectEvent::Failed => ReconnectAction::Sleep(RETRY_PERIOD_SECS),
        ReconnectEvent::Encoded(text) => match text {
            Ok(text) => ReconnectAction::SendAndListen(text),
            Err(_) => ReconnectAction::Sleep(RETRY_PERIOD_SECS),
        },
        ReconnectEvent::Lost => ReconnectAction::Sleep(RETRY_PERIOD_SECS),
        ReconnectEvent::Slept => ReconnectAction::Connect,
    }
}

} // verus!
