use std::collections::BTreeSet;
use turtle_chat::connection::{holds, Connection, PeerMap};
use turtle_chat::core_link::{
    core_url, listen_to_core, listen_with_reconnect, loop_ping_core, ListenAction, ListenEvent,
    PingAction, PingEvent, ReconnectAction, ReconnectEvent, PING_PERIOD_SECS, RETRY_PERIOD_SECS,
};
use turtle_chat::db::DbError;
use turtle_chat::handlers::{
    create_channel, handle_login_success, login, send_login_fail, send_message,
    CreateChannelAction, CreateChannelEvent, Incoming, LoginAction, LoginEvent, SendAction,
    SendError, SendEvent, WelcomeAction, WelcomeEvent,
};
use turtle_chat::protocol::{
    Channel, ChannelAdded, ChannelId, ChatMessage, CreateChannel, ForwardMessage, LoginMessage,
    MessageId, Role, SendChatMessage, SendableId, ServerMessage, User, UserId,
};
use turtle_chat::session::{
    handle_client_message, handle_connection, serve, ClientAction, ServeAction, ServeError,
    ServeEvent, SessionAction, SessionEvent,
};

type Peers = PeerMap<&'static str, i64>;

fn user(id: i64) -> User {
    User {
        id: UserId(id),
        username: format!("user{}", id),
        online: true,
        flair: None,
        role: Role::Member,
    }
}

fn conn(id: i64, tx: i64) -> Connection<&'static str, i64> {
    Connection {
        addr: "here",
        tx,
        user: user(id),
    }
}

fn peers(ids: &[i64]) -> Peers {
    let mut peers = PeerMap::new();
    for id in ids {
        peers.insert(conn(*id, 10 * id));
    }
    peers
}

fn ids(of: &[i64]) -> Vec<UserId> {
    of.iter().map(|id| UserId(*id)).collect()
}

/// The ids as a set. Each of them may stand there only once.
fn set(of: &[UserId]) -> BTreeSet<i64> {
    let all: BTreeSet<i64> = of.iter().map(|id| id.0).collect();
    assert_eq!(all.len(), of.len());
    all
}

fn text(s: &str) -> String {
    s.to_string()
}

fn no<T>() -> Result<T, String> {
    Err(text("no"))
}

fn credentials() -> LoginMessage {
    LoginMessage {
        username: text("ann"),
        password: text("pw"),
    }
}

fn db_error(status: u16) -> DbError {
    DbError {
        status,
        message: text("m"),
    }
}

#[test]
fn peers_are_filed_under_their_user() {
    let mut all = peers(&[1, 2]);
    assert!(all.contains(UserId(1)));
    assert!(!all.contains(UserId(3)));
    assert_eq!(all.get(UserId(2)).unwrap().tx, 20);
    assert!(all.get(UserId(3)).is_none());
    all.insert(conn(2, 99));
    assert_eq!(all.get(UserId(2)).unwrap().tx, 99);
    assert_eq!(set(&all.user_ids()), BTreeSet::from([1, 2]));
    all.remove(UserId(2));
    all.remove(UserId(7));
    assert_eq!(set(&all.user_ids()), BTreeSet::from([1]));
    assert!(Peers::new().user_ids().is_empty());
}

#[test]
fn peers_are_picked() {
    let all = peers(&[1, 2, 3]);
    assert_eq!(set(&all.user_ids_except(UserId(2))), BTreeSet::from([1, 3]));
    assert_eq!(set(&all.user_ids_except(UserId(9))), BTreeSet::from([1, 2, 3]));
    let some = ids(&[3, 8, 3, 1, 9, 8]);
    assert_eq!(set(&all.user_ids_among(&some)), BTreeSet::from([1, 3]));
    assert_eq!(all.absent_among(&some), ids(&[8, 9, 8]));
    assert!(holds(&some, UserId(9)));
    assert!(!holds(&some, UserId(2)));
}

#[test]
fn clients_are_asked_for_credentials() {
    assert_eq!(login(LoginEvent::Begin), LoginAction::Receive);
    assert_eq!(
        login(LoginEvent::Received(Incoming::Login(credentials()))),
        LoginAction::LogIn(credentials())
    );
    assert_eq!(
        login(LoginEvent::Received(Incoming::Broken)),
        LoginAction::Receive
    );
    assert_eq!(
        login(LoginEvent::Received(Incoming::End)),
        LoginAction::Close
    );
    assert_eq!(login(LoginEvent::Closed), LoginAction::Return(None));
}

#[test]
fn good_credentials_let_clients_in() {
    assert_eq!(
        login(LoginEvent::LoggedIn {
            login: credentials(),
            result: Ok(user(1))
        }),
        LoginAction::Welcome(user(1))
    );
    assert_eq!(
        login(LoginEvent::Welcomed(user(1))),
        LoginAction::Return(Some(user(1)))
    );
}

fn refusal(status: u16) -> LoginAction {
    login(LoginEvent::LoggedIn {
        login: credentials(),
        result: Err(db_error(status)),
    })
}

#[test]
fn bad_credentials_are_refused() {
    assert_eq!(
        refusal(500),
        LoginAction::Refuse(send_login_fail("Internal Server Error: failed to fetch user"))
    );
    assert_eq!(
        refusal(401),
        LoginAction::Refuse(ServerMessage::LoginFail {
            reason: text("wrong password")
        })
    );
    assert_eq!(refusal(418), LoginAction::Receive);
    assert_eq!(login(LoginEvent::Refused), LoginAction::Receive);
}

#[test]
fn unknown_users_are_created() {
    assert_eq!(refusal(404), LoginAction::Create(credentials()));
    assert_eq!(
        login(LoginEvent::Created(Ok(user(4)))),
        LoginAction::Welcome(user(4))
    );
    assert_eq!(
        login(LoginEvent::Created(Err(db_error(500)))),
        LoginAction::Refuse(ServerMessage::LoginFail {
            reason: text("Internal Server Error: failed to create new user")
        })
    );
}

#[test]
fn arrivals_are_told_to_the_others() {
    let all = peers(&[1, 2, 3]);
    match handle_login_success(WelcomeEvent::Begin(user(2)), &all) {
        WelcomeAction::Announce { to, message, id } => {
            assert_eq!(set(&to), BTreeSet::from([1, 3]));
            assert_eq!(message, ServerMessage::UserJoined { user: user(2) });
            assert_eq!(id, UserId(2));
        }
        other => panic!("{:?}", other),
    }
    let channel = || Channel {
        id: ChannelId(5),
        name: text("c"),
        has_unread: None,
    };
    assert_eq!(
        handle_login_success(
            WelcomeEvent::Listed {
                id: UserId(2),
                users: vec![user(1)],
                channels: vec![channel()],
            },
            &all
        ),
        WelcomeAction::Greet(vec![
            ServerMessage::LoginSuccess { id: UserId(2) },
            ServerMessage::UsersInfo { users: vec![user(1)] },
            ServerMessage::ChannelsInfo { channels: vec![channel()] },
        ])
    );
}

#[test]
fn everyone_joins_a_new_channel() {
    let all = peers(&[1, 2]);
    let create = || CreateChannel { name: text("c") };
    let added = || ChannelAdded {
        channel: Channel {
            id: ChannelId(5),
            name: text("c"),
            has_unread: None,
        },
        created_by: UserId(1),
        ts: 3,
    };
    assert_eq!(
        create_channel(
            CreateChannelEvent::Begin { create: create(), user_id: UserId(1) },
            &all
        ),
        CreateChannelAction::Insert { create: create(), user_id: UserId(1) }
    );
    assert_eq!(
        create_channel(CreateChannelEvent::Inserted(Ok(added())), &all),
        CreateChannelAction::Encode {
            chan_id: ChannelId(5),
            message: ServerMessage::ChannelAdded(added())
        }
    );
    match create_channel(
        CreateChannelEvent::Encoded { chan_id: ChannelId(5), text: Ok(text("t")) },
        &all,
    ) {
        CreateChannelAction::Broadcast { to, text, chan_id } => {
            assert_eq!(set(&to), BTreeSet::from([1, 2]));
            assert_eq!(text, "t");
            assert_eq!(chan_id, ChannelId(5));
        }
        other => panic!("{:?}", other),
    }
    assert_eq!(
        create_channel(CreateChannelEvent::Broadcasted, &all),
        CreateChannelAction::Return(Ok(()))
    );
}

#[test]
fn channels_that_fail_are_not_told_of() {
    let all = peers(&[1, 2]);
    assert_eq!(
        create_channel(CreateChannelEvent::Inserted(Err(db_error(500))), &all),
        CreateChannelAction::Return(Err(db_error(500)))
    );
    assert_eq!(
        create_channel(
            CreateChannelEvent::Encoded { chan_id: ChannelId(5), text: no() },
            &all
        ),
        CreateChannelAction::Return(Ok(()))
    );
}

fn message(to: SendableId) -> ChatMessage<i64> {
    ChatMessage {
        id: MessageId(1),
        to,
        from: UserId(1),
        ts: 7,
        content: text("hi"),
    }
}

fn to_channel() -> ChatMessage<i64> {
    message(SendableId::C(ChannelId(5)))
}

fn to_user(id: i64) -> ChatMessage<i64> {
    message(SendableId::U(UserId(id)))
}

#[test]
fn messages_are_stored_before_they_are_sent() {
    let all = peers(&[1]);
    let msg = || SendChatMessage {
        to: SendableId::U(UserId(2)),
        content: text("hi"),
    };
    assert_eq!(
        send_message(SendEvent::Begin { msg: msg(), sender_id: UserId(1) }, &all),
        SendAction::Persist { msg: msg(), sender_id: UserId(1) }
    );
    assert_eq!(
        send_message(SendEvent::Persisted(Ok(to_user(2))), &all),
        SendAction::Encode(to_user(2))
    );
    assert_eq!(
        send_message(SendEvent::Persisted(Err(db_error(500))), &all),
        SendAction::Return(Err(SendError::Store(db_error(500))))
    );
    assert_eq!(
        send_message(SendEvent::Encoded { message: to_user(2), text: no() }, &all),
        SendAction::Return(Err(SendError::Encoding(text("no"))))
    );
}

#[test]
fn members_are_reached_once() {
    let all = peers(&[1, 2, 3]);
    assert_eq!(
        send_message(
            SendEvent::Encoded { message: to_channel(), text: Ok(text("t")) },
            &all
        ),
        SendAction::ListMembers {
            chan_id: ChannelId(5),
            message: to_channel(),
            text: text("t")
        }
    );
    // The sender is a member, too. One member stands there twice.
    let forward = match send_message(
        SendEvent::Members {
            message: to_channel(),
            text: text("t"),
            members: Ok(ids(&[8, 1, 3, 1, 9])),
        },
        &all,
    ) {
        SendAction::Broadcast { to, text, forward } => {
            assert_eq!(set(&to), BTreeSet::from([1, 3]));
            assert_eq!(text, "t");
            forward
        }
        other => panic!("{:?}", other),
    };
    assert_eq!(
        forward,
        ForwardMessage { message: to_channel(), user_ids: ids(&[8, 9]) }
    );
    // Another server passes it on to those of its users whom it is for.
    match listen_to_core(
        ListenEvent::Encoded { user_ids: ids(&[8, 9]), text: Ok(text("t")) },
        &peers(&[1, 9, 10]),
    ) {
        ListenAction::Deliver { to, text } => {
            assert_eq!(set(&to), BTreeSet::from([9]));
            assert_eq!(text, "t");
        }
        other => panic!("{:?}", other),
    }
    assert_eq!(
        send_message(SendEvent::Broadcasted(forward), &all),
        SendAction::EncodeForward {
            forward: ForwardMessage { message: to_channel(), user_ids: ids(&[8, 9]) },
            echo: None
        }
    );
    assert_eq!(
        send_message(
            SendEvent::ForwardEncoded { forward: Ok(text("f")), echo: None },
            &all
        ),
        SendAction::Forward { text: text("f"), echo: None }
    );
    assert_eq!(
        send_message(SendEvent::Forwarded { echo: None }, &all),
        SendAction::Return(Ok(()))
    );
}

#[test]
fn messages_to_unlisted_channels_go_nowhere() {
    let event = SendEvent::Members {
        message: to_channel(),
        text: text("t"),
        members: Err(db_error(500)),
    };
    assert_eq!(
        send_message(event, &peers(&[1])),
        SendAction::Return(Ok(()))
    );
}

#[test]
fn direct_messages_reach_both_ends() {
    let all = peers(&[1, 2]);
    assert_eq!(
        send_message(
            SendEvent::Encoded { message: to_user(2), text: Ok(text("t")) },
            &all
        ),
        SendAction::Deliver { to: UserId(2), text: text("t") }
    );
    assert_eq!(
        send_message(SendEvent::Delivered { text: text("t"), sent: Ok(()) }, &all),
        SendAction::Echo(text("t"))
    );
    assert_eq!(
        send_message(SendEvent::Echoed(Ok(())), &all),
        SendAction::Return(Ok(()))
    );
}

#[test]
fn undelivered_messages_are_errors() {
    let all = peers(&[1, 2]);
    assert_eq!(
        send_message(SendEvent::Delivered { text: text("t"), sent: no() }, &all),
        SendAction::Return(Err(SendError::Delivery(text("no"))))
    );
    assert_eq!(
        send_message(SendEvent::Echoed(no()), &all),
        SendAction::Return(Err(SendError::Delivery(text("no"))))
    );
}

#[test]
fn distant_users_are_reached_through_the_core() {
    let all = peers(&[1]);
    assert_eq!(
        send_message(
            SendEvent::Encoded { message: to_user(2), text: Ok(text("t")) },
            &all
        ),
        SendAction::EncodeForward {
            forward: ForwardMessage { message: to_user(2), user_ids: ids(&[2]) },
            echo: Some(text("t"))
        }
    );
    assert_eq!(
        send_message(
            SendEvent::ForwardEncoded { forward: Ok(text("f")), echo: Some(text("t")) },
            &all
        ),
        SendAction::Forward { text: text("f"), echo: Some(text("t")) }
    );
    assert_eq!(
        send_message(SendEvent::Forwarded { echo: Some(text("t")) }, &all),
        SendAction::Echo(text("t"))
    );
    // What cannot be forwarded does not come back, either.
    assert_eq!(
        send_message(
            SendEvent::ForwardEncoded { forward: no(), echo: Some(text("t")) },
            &all
        ),
        SendAction::Return(Ok(()))
    );
}

#[test]
fn client_messages_are_told_apart() {
    let action = |type_: &str| handle_client_message(&text(type_));
    assert_eq!(action("CreateChannel"), ClientAction::CreateChannel);
    assert_eq!(action("SendChatMessage"), ClientAction::SendChatMessage);
    assert_eq!(action("Ping"), ClientAction::Reply(ServerMessage::Ping));
    assert_eq!(action("ping"), ClientAction::Ignore);
    assert_eq!(action("ForwardMessage"), ClientAction::Ignore);
    assert_eq!(action(""), ClientAction::Ignore);
}

fn received(type_: &str, value: i64) -> ServeEvent<i64> {
    ServeEvent::Received { type_: text(type_), value }
}

/// Serves a client that sends this, and then nothing more. Everything that it asks for
/// fails where `fails` holds. Returns what was done for the client.
fn served(frames: Vec<ServeEvent<i64>>, fails: bool) -> Vec<ServeAction<i64>> {
    let mut done = vec![];
    let mut frames = frames.into_iter();
    let mut event = ServeEvent::Begin;
    loop {
        event = match serve(event) {
            ServeAction::Receive => frames.next().unwrap_or(ServeEvent::End),
            ServeAction::Return => break,
            action => {
                let error = match &action {
                    ServeAction::CreateChannel(_) => ServeError::Create(DbError {
                        status: 500,
                        message: text("no"),
                    }),
                    ServeAction::SendChatMessage(_) => {
                        ServeError::Send(SendError::Encoding(text("no")))
                    }
                    _ => ServeError::Reply(text("no")),
                };
                done.push(action);
                ServeEvent::Handled(if fails { Err(error) } else { Ok(()) })
            }
        };
    }
    assert!(frames.next().is_none());
    done
}

#[test]
fn every_request_is_served() {
    let frames = || {
        vec![
            received("Ping", 1),
            received("SendChatMessage", 2),
            received("CreateChannel", 3),
            received("SendChatMessage", 4),
        ]
    };
    let done = vec![
        ServeAction::Reply(ServerMessage::Ping),
        ServeAction::SendChatMessage(2),
        ServeAction::CreateChannel(3),
        ServeAction::SendChatMessage(4),
    ];
    assert_eq!(served(frames(), false), done);
    assert_eq!(served(frames(), true), done);
    assert_eq!(served(vec![], false), vec![]);
}

#[test]
fn other_frames_change_nothing() {
    let frames = vec![
        ServeEvent::Broken,
        received("CreateChannel", 1),
        received("Login", 2),
        ServeEvent::Broken,
        received("createchannel", 3),
        received("Ping", 4),
        received("", 5),
    ];
    let requests = vec![received("CreateChannel", 1), received("Ping", 4)];
    let done = vec![
        ServeAction::CreateChannel(1),
        ServeAction::Reply(ServerMessage::Ping),
    ];
    assert_eq!(served(frames, false), done);
    assert_eq!(served(requests, false), done);
    assert_eq!(served(vec![ServeEvent::Broken, received("Login", 2)], false), vec![]);
}

#[test]
fn serving_ends_with_what_comes_in() {
    assert_eq!(serve::<i64>(ServeEvent::Begin), ServeAction::Receive);
    assert_eq!(serve::<i64>(ServeEvent::Broken), ServeAction::Receive);
    assert_eq!(serve(received("Pong", 1)), ServeAction::Receive);
    assert_eq!(serve::<i64>(ServeEvent::Handled(Ok(()))), ServeAction::Receive);
    assert_eq!(
        serve::<i64>(ServeEvent::Handled(Err(ServeError::Reply(text("gone"))))),
        ServeAction::Receive
    );
    assert_eq!(serve::<i64>(ServeEvent::End), ServeAction::Return);
}

#[test]
fn sessions_clean_up() {
    let mut all = peers(&[1, 2]);
    assert_eq!(
        handle_connection(SessionEvent::LoggedIn(Some(user(3))), &mut all),
        SessionAction::Announce {
            message: ServerMessage::ServerUserJoined { user_id: UserId(3) },
            user: user(3)
        }
    );
    assert!(!all.contains(UserId(3)));
    assert_eq!(
        handle_connection(SessionEvent::Announced(conn(3, 33)), &mut all),
        SessionAction::Serve(UserId(3))
    );
    assert_eq!(all.get(UserId(3)).unwrap().tx, 33);
    assert_eq!(
        handle_connection(SessionEvent::Ended(UserId(3)), &mut all),
        SessionAction::MarkOffline(UserId(3))
    );
    assert_eq!(
        handle_connection(SessionEvent::Marked(UserId(3)), &mut all),
        SessionAction::Encode {
            message: ServerMessage::UserLeft { id: UserId(3) },
            user_id: UserId(3)
        }
    );
    assert!(all.contains(UserId(3)));
    match handle_connection(
        SessionEvent::Encoded { user_id: UserId(3), text: Ok(text("t")) },
        &mut all,
    ) {
        SessionAction::Broadcast { to, text, user_id } => {
            assert_eq!(set(&to), BTreeSet::from([1, 2]));
            assert_eq!(text, "t");
            assert_eq!(user_id, UserId(3));
        }
        other => panic!("{:?}", other),
    }
    assert_eq!(set(&all.user_ids()), BTreeSet::from([1, 2]));
    assert_eq!(
        handle_connection(SessionEvent::Broadcasted(UserId(3)), &mut all),
        SessionAction::Leave(ServerMessage::ServerUserLeft { user_id: UserId(3) })
    );
    assert_eq!(
        handle_connection(SessionEvent::Left, &mut all),
        SessionAction::Return
    );
}

#[test]
fn sessions_without_a_login_do_nothing() {
    let mut all = peers(&[1]);
    assert_eq!(
        handle_connection(SessionEvent::LoggedIn(None), &mut all),
        SessionAction::Return
    );
    assert_eq!(set(&all.user_ids()), BTreeSet::from([1]));
}

#[test]
fn departures_that_cannot_be_told_leave_the_user_on_file() {
    let mut all = peers(&[1, 2]);
    assert_eq!(
        handle_connection(
            SessionEvent::Encoded { user_id: UserId(2), text: no() },
            &mut all
        ),
        SessionAction::Leave(ServerMessage::ServerUserLeft { user_id: UserId(2) })
    );
    assert!(all.contains(UserId(2)));
}

#[test]
fn only_forwards_are_passed_on() {
    let all = peers(&[1, 2]);
    let received = |type_: &str| listen_to_core(ListenEvent::Received { type_: text(type_) }, &all);
    assert_eq!(listen_to_core(ListenEvent::Begin, &all), ListenAction::Receive);
    assert_eq!(received("ForwardMessage"), ListenAction::ReadForward);
    assert_eq!(received("Ping"), ListenAction::Receive);
    assert_eq!(received("CreateChannel"), ListenAction::Receive);
    assert_eq!(listen_to_core(ListenEvent::Broken, &all), ListenAction::Receive);
    assert_eq!(listen_to_core(ListenEvent::End, &all), ListenAction::Return);
    assert_eq!(
        listen_to_core(ListenEvent::Read(Ok(ids(&[1, 5]))), &all),
        ListenAction::Encode { user_ids: ids(&[1, 5]) }
    );
    assert_eq!(listen_to_core(ListenEvent::Read(no()), &all), ListenAction::Receive);
    assert_eq!(
        listen_to_core(
            ListenEvent::Encoded { user_ids: ids(&[1, 5]), text: Ok(text("t")) },
            &all
        ),
        ListenAction::Deliver { to: ids(&[1]), text: text("t") }
    );
    assert_eq!(
        listen_to_core(
            ListenEvent::Encoded { user_ids: ids(&[1, 5]), text: no() },
            &all
        ),
        ListenAction::Receive
    );
    assert_eq!(listen_to_core(ListenEvent::Delivered, &all), ListenAction::Receive);
}

#[test]
fn lost_links_are_made_again() {
    let all = peers(&[1, 2]);
    let next = |event: ReconnectEvent| listen_with_reconnect(event, &all);
    assert_eq!(next(ReconnectEvent::Begin), ReconnectAction::ListenFirst);
    assert_eq!(next(ReconnectEvent::FirstLost), ReconnectAction::Connect);
    assert_eq!(next(ReconnectEvent::Failed), ReconnectAction::Sleep(1));
    match next(ReconnectEvent::Connected) {
        ReconnectAction::Encode(ServerMessage::ServerUsers { user_ids }) => {
            assert_eq!(set(&user_ids), BTreeSet::from([1, 2]));
        }
        other => panic!("{:?}", other),
    }
    assert_eq!(
        next(ReconnectEvent::Encoded(Ok(text("t")))),
        ReconnectAction::SendAndListen(text("t"))
    );
    assert_eq!(
        next(ReconnectEvent::Encoded(no())),
        ReconnectAction::Sleep(RETRY_PERIOD_SECS)
    );
    assert_eq!(next(ReconnectEvent::Lost), ReconnectAction::Sleep(1));
    assert_eq!(next(ReconnectEvent::Slept), ReconnectAction::Connect);
}

#[test]
fn pings_are_periodic() {
    assert_eq!(PING_PERIOD_SECS, 60);
    assert_eq!(
        loop_ping_core(PingEvent::Begin),
        PingAction::Send(ServerMessage::Ping)
    );
    assert_eq!(loop_ping_core(PingEvent::Sent), PingAction::Sleep(60));
    assert_eq!(
        loop_ping_core(PingEvent::Slept),
        PingAction::Send(ServerMessage::Ping)
    );
}

#[test]
fn the_core_server_has_a_url() {
    assert_eq!(core_url(true), Ok(text("ws://localhost:8000/")));
    // The URL names the root, the address does not.
    assert_eq!(core_url(false), Ok(text("wss://tc-core.level9turtles.com/")));
}

#[test]
fn a_login_goes_on_until_it_succeeds() {
    let mut sent = vec![Incoming::Login(credentials()), Incoming::Broken, Incoming::Login(credentials())];
    let mut attempts = 0;
    let mut refusals = vec![];
    let mut event = LoginEvent::Begin;
    let result = loop {
        event = match login(event) {
            LoginAction::Receive => LoginEvent::Received(sent.pop().unwrap()),
            LoginAction::LogIn(login) => {
                attempts += 1;
                let status = if attempts == 1 { 401 } else { 404 };
                LoginEvent::LoggedIn { login, result: Err(db_error(status)) }
            }
            LoginAction::Create(login) => {
                assert_eq!(login, credentials());
                LoginEvent::Created(Ok(user(6)))
            }
            LoginAction::Refuse(message) => {
                refusals.push(message);
                LoginEvent::Refused
            }
            LoginAction::Welcome(user) => LoginEvent::Welcomed(user),
            LoginAction::Close => panic!("nobody left"),
            LoginAction::Return(result) => break result,
        };
    };
    assert_eq!(result, Some(user(6)));
    assert_eq!(attempts, 2);
    assert_eq!(refusals, vec![send_login_fail("wrong password")]);
}

#[test]
fn a_message_to_a_channel_takes_seven_steps() {
    let all = peers(&[1, 2]);
    let mut steps = 0;
    let mut event = SendEvent::Begin {
        msg: SendChatMessage { to: SendableId::C(ChannelId(5)), content: text("hi") },
        sender_id: UserId(1),
    };
    loop {
        steps += 1;
        event = match send_message(event, &all) {
            SendAction::Persist { .. } => SendEvent::Persisted(Ok(to_channel())),
            SendAction::Encode(message) => SendEvent::Encoded { message, text: Ok(text("t")) },
            SendAction::ListMembers { message, text, .. } => {
                SendEvent::Members { message, text, members: Ok(ids(&[2, 3])) }
            }
            SendAction::Broadcast { to, text, forward } => {
                assert_eq!(to, ids(&[2]));
                assert_eq!(text, "t");
                SendEvent::Broadcasted(forward)
            }
            SendAction::EncodeForward { forward, echo } => {
                assert_eq!(forward.message, to_channel());
                assert_eq!(forward.user_ids, ids(&[3]));
                SendEvent::ForwardEncoded { forward: Ok(text("f")), echo }
            }
            SendAction::Forward { text, echo } => {
                assert_eq!(text, "f");
                SendEvent::Forwarded { echo }
            }
            SendAction::Return(result) => {
                assert_eq!(result, Ok(()));
                break;
            }
            other => panic!("{:?}", other),
        };
    }
    assert_eq!(steps, 7);
}
