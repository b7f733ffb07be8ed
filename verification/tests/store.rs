use turtle_chat::db::{
    flair_for, role_for, DBApplication, DbError, GeneralAction, GeneralEvent, InitAction,
    InitEvent, JoinAction, JoinByNameAction, JoinByNameEvent, JoinEvent, LoginUserAction,
    LoginUserEvent, NewUserAction, NewUserEvent, PersistAction, PersistEvent, Table,
    INTERNAL_SERVER_ERROR, NOT_FOUND, UNAUTHORIZED,
};
use turtle_chat::protocol::{
    Channel, ChannelAdded, ChannelId, ChatMessage, LoginMessage, MessageId, Role, SendChatMessage,
    SendableId, User, UserId,
};
use turtle_chat::rows::{DbChannel, DbChatMessage, DbUser, NewUser};

const HASH: &str = "$2b$04$EGdrhbKUv8Oc9vGiXX0HQOxSg445d458Muh7DAHskb6QbtCvdxcie";
const PASSWORD: &str = "correctbatteryhorsestapler";

fn login(username: &str, password: &str) -> LoginMessage {
    LoginMessage {
        username: username.to_string(),
        password: password.to_string(),
    }
}

fn row(id: i64, hash: &str) -> DbUser {
    DbUser {
        id,
        username: "ann".to_string(),
        flair: Some("x".to_string()),
        online: false,
        role: Role::Op,
        password_hash: hash.to_string(),
    }
}

fn ann(id: i64, online: bool) -> User {
    User {
        id: UserId(id),
        username: "ann".to_string(),
        online,
        flair: Some("x".to_string()),
        role: Role::Op,
    }
}

fn error(status: u16, message: &str) -> DbError {
    DbError {
        status,
        message: message.to_string(),
    }
}

fn boom<T>() -> Result<T, String> {
    Err("Boom".to_string())
}

#[test]
fn errors_are_written_with_their_status() {
    assert_eq!(error(NOT_FOUND, "gone").to_text(), "404 Not Found: gone");
    assert_eq!(error(UNAUTHORIZED, "").to_text(), "401 Unauthorized: ");
    assert_eq!(
        error(INTERNAL_SERVER_ERROR, "x\ny").to_text(),
        "500 Internal Server Error: x\ny"
    );
    assert_eq!(error(418, "tea").to_text(), "418 I'm a teapot: tea");
    assert_eq!(error(999, "?").to_text(), "999 <unknown status code>: ?");
    assert_eq!(error(100, "").to_text(), "100 Continue: ");
}

#[test]
fn init_makes_everything_in_order() {
    let mut event: InitEvent<String> = InitEvent::Begin;
    let mut seen = vec![];
    loop {
        match DBApplication::init(event) {
            InitAction::Make(table) => {
                seen.push(Some(table));
                event = InitEvent::Made(table, Ok(()));
            }
            InitAction::MakeGeneral => {
                seen.push(None);
                event = InitEvent::General(Ok(()));
            }
            InitAction::Return(result) => {
                assert_eq!(result, Ok(()));
                break;
            }
        }
    }
    assert_eq!(
        seen,
        vec![
            Some(Table::Users),
            Some(Table::Channels),
            Some(Table::UserChannels),
            Some(Table::Messages),
            None
        ]
    );
}

#[test]
fn init_returns_the_first_error() {
    for table in [Table::Users, Table::Channels, Table::UserChannels, Table::Messages] {
        assert_eq!(
            DBApplication::init(InitEvent::Made(table, Err("no"))),
            InitAction::Return(Err("no"))
        );
    }
    assert_eq!(
        DBApplication::init(InitEvent::General(Err(7))),
        InitAction::Return(Err(7))
    );
}

#[test]
fn the_general_channel_is_made_where_there_is_none() {
    let general = "general".to_string();
    assert_eq!(
        DBApplication::init_general_channel::<()>(GeneralEvent::Begin),
        GeneralAction::Find { name: general.clone() }
    );
    assert_eq!(
        DBApplication::init_general_channel::<()>(GeneralEvent::Found(Ok(vec![]))),
        GeneralAction::Insert { name: general }
    );
    assert_eq!(
        DBApplication::init_general_channel::<()>(GeneralEvent::Found(Ok(vec![3]))),
        GeneralAction::Return(Ok(()))
    );
    assert_eq!(
        DBApplication::init_general_channel(GeneralEvent::Found(Err(1))),
        GeneralAction::Return(Err(1))
    );
    assert_eq!(
        DBApplication::init_general_channel(GeneralEvent::Inserted(Err(2))),
        GeneralAction::Return(Err(2))
    );
    assert_eq!(
        DBApplication::init_general_channel::<()>(GeneralEvent::Inserted(Ok(()))),
        GeneralAction::Return(Ok(()))
    );
}

#[test]
fn users_are_found_by_name() {
    assert_eq!(
        DBApplication::find_user_by_username(Ok(row(5, "h"))),
        Ok(ann(5, false))
    );
    assert_eq!(
        DBApplication::find_user_by_username(boom()),
        Err(error(500, "failed to query db\nBoom"))
    );
}

#[test]
fn the_right_password_logs_in() {
    let found = match DBApplication::login_user(LoginUserEvent::Begin(login("ann", PASSWORD))) {
        LoginUserAction::Find(login) => login,
        other => panic!("{:?}", other),
    };
    assert_eq!(found, login("ann", PASSWORD));
    let user = match DBApplication::login_user(LoginUserEvent::Found {
        login: found,
        row: Ok(row(5, HASH)),
    }) {
        LoginUserAction::MarkOnline(user) => user,
        other => panic!("{:?}", other),
    };
    assert_eq!(user, ann(5, true));
    assert_eq!(
        DBApplication::login_user(LoginUserEvent::Marked {
            user,
            marked: Ok(())
        }),
        LoginUserAction::Return(Ok(ann(5, true)))
    );
}

#[test]
fn the_wrong_password_does_not_log_in() {
    assert_eq!(
        DBApplication::login_user(LoginUserEvent::Found {
            login: login("ann", "guess"),
            row: Ok(row(5, HASH)),
        }),
        LoginUserAction::Return(Err(error(401, "Failed to authenticate user")))
    );
    // The hash itself is no password.
    assert_eq!(
        DBApplication::login_user(LoginUserEvent::Found {
            login: login("ann", HASH),
            row: Ok(row(5, HASH)),
        }),
        LoginUserAction::Return(Err(error(401, "Failed to authenticate user")))
    );
}

#[test]
fn a_hash_that_is_none_is_an_error() {
    assert_eq!(
        DBApplication::login_user(LoginUserEvent::Found {
            login: login("ann", PASSWORD),
            row: Ok(row(5, "plain")),
        }),
        LoginUserAction::Return(Err(error(
            500,
            "bcrypt failed to compare the password to its hash\nInvalidHash(\"plain\")"
        )))
    );
}

#[test]
fn unknown_users_are_not_found() {
    assert_eq!(
        DBApplication::login_user(LoginUserEvent::Found {
            login: login("bob", "pw"),
            row: Err("RowNotFound".to_string()),
        }),
        LoginUserAction::Return(Err(error(
            404,
            "no user found for username: bob\nRowNotFound"
        )))
    );
}

#[test]
fn users_who_cannot_be_marked_do_not_log_in() {
    assert_eq!(
        DBApplication::login_user(LoginUserEvent::Marked {
            user: ann(5, true),
            marked: Err(error(500, "no")),
        }),
        LoginUserAction::Return(Err(error(500, "no")))
    );
}

#[test]
fn authentication_follows_the_check() {
    assert_eq!(
        DBApplication::authenticate(row(1, "h"), Ok(true)),
        LoginUserAction::MarkOnline(ann(1, true))
    );
    assert_eq!(
        DBApplication::authenticate(row(1, "h"), Ok(false)),
        LoginUserAction::Return(Err(error(401, "Failed to authenticate user")))
    );
    assert_eq!(
        DBApplication::authenticate(row(1, "h"), boom()),
        LoginUserAction::Return(Err(error(
            500,
            "bcrypt failed to compare the password to its hash\nBoom"
        )))
    );
}

#[test]
fn new_users_are_stored_with_flair_and_role() {
    let stored = |name: &str| match DBApplication::register(login(name, "pw"), Ok("h".to_string())) {
        NewUserAction::Insert(row) => row,
        other => panic!("{:?}", other),
    };
    assert_eq!(
        stored("csk"),
        NewUser {
            username: "csk".to_string(),
            password_hash: "h".to_string(),
            online: true,
            flair: Some("🐢".to_string()),
            role: Role::Op,
        }
    );
    assert_eq!(stored("cd-stephen").flair, Some("🦀".to_string()));
    assert_eq!(stored("Pixel_Outlaw").flair, None);
    assert_eq!(stored("Pixel_Outlaw").role, Role::Op);
    assert_eq!(stored("ann").flair, None);
    assert_eq!(stored("ann").role, Role::Member);
    assert_eq!(
        DBApplication::register(login("ann", "pw"), boom()),
        NewUserAction::Abort("Boom".to_string())
    );
}

#[test]
fn whoever_has_a_flair_is_an_operator() {
    for name in ["ol_rusty_bastard", "csk", "realcsk", "gfunchess", "cd-stephen"] {
        let name = name.to_string();
        assert!(flair_for(&name).is_some());
        assert_eq!(role_for(&name), Role::Op);
    }
    for name in ["", "CSK", "csk ", "pixel_outlaw"] {
        let name = name.to_string();
        assert_eq!(flair_for(&name), None);
        assert_eq!(role_for(&name), Role::Member);
    }
}

#[test]
fn new_users_can_log_in_afterwards() {
    for password in ["", "pw", "p\u{1F422}w", "a long one, longer than seventy-two bytes, to see that it is cut at both ends alike"] {
        let row = match DBApplication::new_user(NewUserEvent::Begin(login("csk", password))) {
            NewUserAction::Insert(row) => row,
            other => panic!("{:?}", other),
        };
        assert_ne!(row.password_hash, password);
        let stored = DbUser {
            id: 9,
            username: row.username.clone(),
            flair: row.flair.clone(),
            online: false,
            role: Role::Op,
            password_hash: row.password_hash.clone(),
        };
        let user = match DBApplication::login_user(LoginUserEvent::Found {
            login: login("csk", password),
            row: Ok(stored),
        }) {
            LoginUserAction::MarkOnline(user) => user,
            other => panic!("{:?}", other),
        };
        assert_eq!(user.id, UserId(9));
        assert_eq!(user.role, Role::Op);
        assert!(user.online);
    }
}

#[test]
fn two_hashes_of_one_password_differ() {
    let hash = || match DBApplication::new_user(NewUserEvent::Begin(login("ann", "pw"))) {
        NewUserAction::Insert(row) => row.password_hash,
        other => panic!("{:?}", other),
    };
    let first = hash();
    assert!(first.starts_with("$2b$04$"));
    assert_eq!(first.len(), 60);
    assert_ne!(first, hash());
}

#[test]
fn created_users_join_the_general_channel() {
    let row = NewUser {
        username: "csk".to_string(),
        password_hash: "h".to_string(),
        online: true,
        flair: Some("🐢".to_string()),
        role: Role::Op,
    };
    // Stored as an operator, shown as a member.
    let user = User {
        id: UserId(12),
        username: "csk".to_string(),
        online: true,
        flair: Some("🐢".to_string()),
        role: Role::Member,
    };
    assert_eq!(
        DBApplication::new_user(NewUserEvent::Inserted { row, id: Ok(12) }),
        NewUserAction::Join {
            user: user.clone(),
            chan_name: "general".to_string()
        }
    );
    assert_eq!(
        DBApplication::new_user(NewUserEvent::Joined {
            user: user.clone(),
            joined: Ok(())
        }),
        NewUserAction::Return(Ok(user.clone()))
    );
    assert_eq!(
        DBApplication::new_user(NewUserEvent::Joined {
            user,
            joined: Err(error(500, "no"))
        }),
        NewUserAction::Return(Err(error(500, "no")))
    );
}

#[test]
fn users_who_cannot_be_stored_are_not_created() {
    let row = NewUser {
        username: "ann".to_string(),
        password_hash: "h".to_string(),
        online: true,
        flair: None,
        role: Role::Member,
    };
    assert_eq!(
        DBApplication::new_user(NewUserEvent::Inserted { row, id: boom() }),
        NewUserAction::Return(Err(error(
            500,
            "failed to insert new user into the database\nBoom"
        )))
    );
}

#[test]
fn statuses_are_stored() {
    assert_eq!(DBApplication::set_online_status(Ok(())), Ok(()));
    assert_eq!(
        DBApplication::set_online_status(boom()),
        Err(error(500, "failed to update online status\nBoom"))
    );
}

#[test]
fn users_are_listed_in_order() {
    assert_eq!(
        DBApplication::get_other_users(Ok(vec![row(2, "a"), row(1, "b")])),
        Ok(vec![ann(2, false), ann(1, false)])
    );
    assert_eq!(
        DBApplication::get_other_users(boom()),
        Err(error(500, "failed to get users from db\nBoom"))
    );
    assert_eq!(
        DBApplication::get_all_users(Ok(vec![row(3, "a")])),
        Ok(vec![ann(3, false)])
    );
    assert_eq!(DBApplication::get_all_users(Ok(vec![])), Ok(vec![]));
    assert_eq!(
        DBApplication::get_all_users(boom()),
        Err(error(500, "failed to retrieve users\nBoom"))
    );
}

#[test]
fn channels_are_listed_in_order() {
    let stored = vec![
        DbChannel { id: 2, name: "b".to_string() },
        DbChannel { id: 1, name: "a".to_string() },
    ];
    let channel = |id: i64, name: &str| Channel {
        id: ChannelId(id),
        name: name.to_string(),
        has_unread: None,
    };
    assert_eq!(
        DBApplication::get_channels(Ok(stored)),
        Ok(vec![channel(2, "b"), channel(1, "a")])
    );
    assert_eq!(
        DBApplication::get_channels(boom()),
        Err(error(500, "failed to lookup channels\nBoom"))
    );
}

#[test]
fn users_join_channels_by_name() {
    let user_id = UserId(4);
    assert_eq!(
        DBApplication::add_user_channel_by_name(JoinByNameEvent::Begin {
            user_id,
            chan_name: "c".to_string()
        }),
        JoinByNameAction::Find { user_id, chan_name: "c".to_string() }
    );
    assert_eq!(
        DBApplication::add_user_channel_by_name(JoinByNameEvent::Found { user_id, chan: Ok(8) }),
        JoinByNameAction::Join { user_id, chan_id: ChannelId(8) }
    );
    assert_eq!(
        DBApplication::add_user_channel_by_name(JoinByNameEvent::Found { user_id, chan: boom() }),
        JoinByNameAction::Return(Err(error(500, "Failed to fetch channel\nBoom")))
    );
    assert_eq!(
        DBApplication::add_user_channel_by_name(JoinByNameEvent::Joined(Err(error(500, "x")))),
        JoinByNameAction::Return(Err(error(500, "x")))
    );
    assert_eq!(
        DBApplication::add_user_channel_by_name(JoinByNameEvent::Joined(Ok(()))),
        JoinByNameAction::Return(Ok(()))
    );
}

#[test]
fn users_join_channels() {
    let (user_id, chan_id) = (UserId(4), ChannelId(8));
    assert_eq!(
        DBApplication::add_user_channel(JoinEvent::Begin { user_id, chan_id }),
        JoinAction::Insert { user_id, chan_id }
    );
    assert_eq!(
        DBApplication::add_user_channel(JoinEvent::Inserted { chan_id, inserted: Ok(()) }),
        JoinAction::List { chan_id }
    );
    assert_eq!(
        DBApplication::add_user_channel(JoinEvent::Inserted { chan_id, inserted: boom() }),
        JoinAction::Return(Err(error(500, "Failed to insert user channel\nBoom")))
    );
    assert_eq!(
        DBApplication::add_user_channel(JoinEvent::Listed(Ok(vec![user_id]))),
        JoinAction::Return(Ok(()))
    );
    assert_eq!(
        DBApplication::add_user_channel(JoinEvent::Listed(Err(error(500, "x")))),
        JoinAction::Return(Err(error(500, "x")))
    );
}

#[test]
fn messages_are_stamped_and_stored() {
    let said = || SendChatMessage {
        to: SendableId::C(ChannelId(2)),
        content: "hi".to_string(),
    };
    let before = chrono::Utc::now().timestamp_millis();
    let ts = match DBApplication::persist_message(PersistEvent::Begin {
        msg: said(),
        sender_id: UserId(1),
    }) {
        PersistAction::Insert { msg, sender_id, ts } => {
            assert_eq!(msg, said());
            assert_eq!(sender_id, UserId(1));
            ts
        }
        other => panic!("{:?}", other),
    };
    let after = chrono::Utc::now().timestamp_millis();
    assert!(before <= ts && ts <= after);
    assert_eq!(
        DBApplication::persist_message(PersistEvent::Inserted {
            msg: said(),
            sender_id: UserId(1),
            ts: 17,
            id: Ok(3),
        }),
        PersistAction::Return(Ok(ChatMessage {
            id: MessageId(3),
            to: SendableId::C(ChannelId(2)),
            from: UserId(1),
            ts: 17,
            content: "hi".to_string(),
        }))
    );
    assert_eq!(
        DBApplication::persist_message(PersistEvent::Inserted {
            msg: said(),
            sender_id: UserId(1),
            ts: 17,
            id: boom(),
        }),
        PersistAction::Return(Err(error(500, "failed to insert message to db\nBoom")))
    );
    assert_eq!(
        DBApplication::stamp(said(), UserId(1), 17),
        PersistAction::Insert { msg: said(), sender_id: UserId(1), ts: 17 }
    );
}

#[test]
fn members_are_listed_in_order() {
    assert_eq!(
        DBApplication::get_channel_users(Ok(vec![3, 1, 3])),
        Ok(vec![UserId(3), UserId(1), UserId(3)])
    );
    assert_eq!(
        DBApplication::get_channel_users(boom()),
        Err(error(500, "failed to find channel users\nBoom"))
    );
}

fn stored_message(
    id: i64,
    to_: Result<SendableId, String>,
    from_: Result<UserId, String>,
) -> DbChatMessage<f64> {
    DbChatMessage {
        id,
        to_,
        from_,
        ts: 1.5,
        content: "hi".to_string(),
    }
}

#[test]
fn stored_messages_are_read_back() {
    let to = SendableId::U(UserId(2));
    let rows = vec![
        stored_message(1, Ok(to), Ok(UserId(3))),
        stored_message(2, boom(), Ok(UserId(3))),
        stored_message(3, Ok(to), boom()),
        stored_message(4, Ok(to), Ok(UserId(5))),
    ];
    let message = |id: i64, from: i64| ChatMessage {
        id: MessageId(id),
        to,
        from: UserId(from),
        ts: 1.5,
        content: "hi".to_string(),
    };
    assert_eq!(
        DBApplication::get_chan_msgs(Ok(rows)),
        Ok(vec![message(1, 3), message(4, 5)])
    );
    assert_eq!(
        DBApplication::get_chan_msgs::<f64>(boom()),
        Err(error(500, "failed to retrieve messages\nBoom"))
    );
}

#[test]
fn messages_are_read_back_once() {
    let said = SendChatMessage {
        to: SendableId::C(ChannelId(2)),
        content: "hello".to_string(),
    };
    let kept = match DBApplication::persist_message(PersistEvent::Inserted {
        msg: said,
        sender_id: UserId(7),
        ts: 17,
        id: Ok(2),
    }) {
        PersistAction::Return(Ok(message)) => ChatMessage {
            id: message.id,
            to: message.to,
            from: message.from,
            ts: message.ts as f64,
            content: message.content,
        },
        other => panic!("{:?}", other),
    };
    let rows = |stored: bool| {
        let to = SendableId::C(ChannelId(2));
        let mut rows = vec![
            stored_message(1, Ok(to), Ok(UserId(7))),
            stored_message(3, Ok(to), boom()),
        ];
        if stored {
            let mut row = stored_message(2, Ok(to), Ok(UserId(7)));
            row.ts = 17.0;
            row.content = "hello".to_string();
            rows.push(row);
        }
        rows
    };
    let found = |stored: bool| {
        let messages = DBApplication::get_chan_msgs(Ok(rows(stored))).unwrap();
        messages.iter().filter(|message| **message == kept).count()
    };
    assert_eq!(found(true), 1);
    assert_eq!(found(false), 0);
}

#[test]
fn unreadable_messages_name_the_first_fault() {
    let first: Result<SendableId, String> = Err("to".to_string());
    let second: Result<UserId, String> = Err("from".to_string());
    assert_eq!(
        ChatMessage::try_from(stored_message(1, first, second.clone())),
        Err("to".to_string())
    );
    assert_eq!(
        ChatMessage::try_from(stored_message(1, Ok(SendableId::C(ChannelId(1))), second)),
        Err("from".to_string())
    );
}

#[test]
fn new_channels_are_stamped() {
    let stored = || DbChannel { id: 7, name: "c".to_string() };
    let news = |ts: i64| ChannelAdded {
        channel: Channel {
            id: ChannelId(7),
            name: "c".to_string(),
            has_unread: None,
        },
        created_by: UserId(1),
        ts,
    };
    let before = chrono::Utc::now().timestamp_millis();
    let added = DBApplication::insert_channel(Ok(stored()), UserId(1)).unwrap();
    let after = chrono::Utc::now().timestamp_millis();
    assert!(before <= added.ts && added.ts <= after);
    let ts = added.ts;
    assert_eq!(added, news(ts));
    assert_eq!(DBApplication::channel_added(stored(), UserId(1), 5), news(5));
    assert_eq!(
        DBApplication::insert_channel(boom(), UserId(1)),
        Err(error(500, "failed to insert channel\nBoom"))
    );
}

#[test]
fn hashes_are_not_shown() {
    assert_eq!(User::from(row(1, "a")), User::from(row(1, "b")));
    assert_eq!(User::from(row(1, "a")), ann(1, false));
}
