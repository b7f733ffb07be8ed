//! Whole runs, on a store that is kept in memory.
use std::collections::BTreeSet;
use turtle_chat::connection::{Connection, PeerMap};
use turtle_chat::core_link::{listen_to_core, ListenAction, ListenEvent};
use turtle_chat::db::{
    DBApplication, DbError, GeneralAction, GeneralEvent, InitAction, InitEvent, JoinAction,
    JoinEvent, Table,
};
use turtle_chat::handlers::{
    create_channel, login, CreateChannelAction, CreateChannelEvent, Incoming, LoginAction,
    LoginEvent,
};
use turtle_chat::protocol::{
    Channel, ChannelAdded, ChannelId, CreateChannel, LoginMessage, Role, User, UserId,
};
use turtle_chat::rows::DbUser;

#[derive(Default)]
struct Store {
    tables: Vec<Table>,
    channels: Vec<String>,
    members: Vec<(UserId, ChannelId)>,
}

impl Store {
    fn init_general_channel(&mut self) -> Result<(), String> {
        let mut event = GeneralEvent::Begin;
        loop {
            event = match DBApplication::init_general_channel(event) {
                GeneralAction::Find { name } => {
                    let found = self.channels.iter().filter(|channel| **channel == name);
                    GeneralEvent::Found(Ok(found.map(|_| 1).collect()))
                }
                GeneralAction::Insert { name } => {
                    self.channels.push(name);
                    GeneralEvent::Inserted(Ok(()))
                }
                GeneralAction::Return(result) => return result,
            };
        }
    }

    fn init(&mut self) -> Result<(), String> {
        let mut event = InitEvent::Begin;
        loop {
            event = match DBApplication::init(event) {
                InitAction::Make(table) => {
                    if !self.tables.contains(&table) {
                        self.tables.push(table);
                    }
                    InitEvent::Made(table, Ok(()))
                }
                InitAction::MakeGeneral => InitEvent::General(self.init_general_channel()),
                InitAction::Return(result) => return result,
            };
        }
    }

    fn get_channel_users(&self, chan_id: ChannelId) -> Result<Vec<UserId>, DbError> {
        let members = self.members.iter().rev().filter(|member| member.1 == chan_id);
        DBApplication::get_channel_users(Ok(members.map(|member| member.0 .0).collect()))
    }

    fn add_user_channel(&mut self, user_id: UserId, chan_id: ChannelId) -> Result<(), DbError> {
        let mut event = JoinEvent::Begin { user_id, chan_id };
        loop {
            event = match DBApplication::add_user_channel(event) {
                JoinAction::Insert { user_id, chan_id } => {
                    self.members.push((user_id, chan_id));
                    JoinEvent::Inserted { chan_id, inserted: Ok(()) }
                }
                JoinAction::List { chan_id } => JoinEvent::Listed(self.get_channel_users(chan_id)),
                JoinAction::Return(result) => return result,
            };
        }
    }
}

fn text(s: &str) -> String {
    s.to_string()
}

fn user(id: i64) -> User {
    User {
        id: UserId(id),
        username: format!("user{}", id),
        online: true,
        flair: None,
        role: Role::Member,
    }
}

fn peers(ids: &[i64]) -> PeerMap<(), ()> {
    let mut peers = PeerMap::new();
    for id in ids {
        peers.insert(Connection { addr: (), tx: (), user: user(*id) });
    }
    peers
}

#[test]
fn a_second_start_changes_nothing() {
    let mut store = Store::default();
    assert_eq!(store.init(), Ok(()));
    assert_eq!(
        store.tables,
        vec![Table::Users, Table::Channels, Table::UserChannels, Table::Messages]
    );
    assert_eq!(store.channels, vec![text("general")]);
    store.channels.push(text("other"));
    assert_eq!(store.init(), Ok(()));
    assert_eq!(store.tables.len(), 4);
    assert_eq!(store.channels, vec![text("general"), text("other")]);
}

#[test]
fn members_are_listed_as_often_as_they_joined() {
    let mut store = Store::default();
    for (user_id, chan_id) in [(1, 7), (2, 7), (1, 8), (1, 7)] {
        assert_eq!(store.add_user_channel(UserId(user_id), ChannelId(chan_id)), Ok(()));
    }
    let times = |user_id: i64, chan_id: i64| {
        let users = store.get_channel_users(ChannelId(chan_id)).unwrap();
        users.iter().filter(|user| user.0 == user_id).count()
    };
    assert_eq!(times(1, 7), 2);
    assert_eq!(times(2, 7), 1);
    assert_eq!(times(1, 8), 1);
    assert_eq!(times(2, 8), 0);
    assert_eq!(store.get_channel_users(ChannelId(9)), Ok(vec![]));
}

#[test]
fn new_channels_hold_those_who_were_connected() {
    let mut store = Store::default();
    store.members.push((UserId(1), ChannelId(4)));
    let connected = peers(&[1, 2, 3]);
    let added = ChannelAdded {
        channel: Channel { id: ChannelId(5), name: text("c"), has_unread: None },
        created_by: UserId(9),
        ts: 3,
    };
    let mut added = Some(added);
    let mut event = CreateChannelEvent::Begin {
        create: CreateChannel { name: text("c") },
        user_id: UserId(9),
    };
    let result = loop {
        event = match create_channel(event, &connected) {
            CreateChannelAction::Insert { .. } => {
                CreateChannelEvent::Inserted(Ok(added.take().unwrap()))
            }
            CreateChannelAction::Encode { chan_id, .. } => {
                CreateChannelEvent::Encoded { chan_id, text: Ok(text("t")) }
            }
            CreateChannelAction::Broadcast { to, chan_id, .. } => {
                for user_id in to {
                    store.add_user_channel(user_id, chan_id).unwrap();
                }
                CreateChannelEvent::Broadcasted
            }
            CreateChannelAction::Return(result) => break result,
        };
    };
    assert_eq!(result, Ok(()));
    let users = store.get_channel_users(ChannelId(5)).unwrap();
    assert_eq!(users.len(), 3);
    let users: BTreeSet<i64> = users.iter().map(|user| user.0).collect();
    assert_eq!(users, BTreeSet::from([1, 2, 3]));
    assert_eq!(store.get_channel_users(ChannelId(4)), Ok(vec![UserId(1)]));
}

#[test]
fn other_users_are_all_but_one() {
    let row = |id: i64| DbUser {
        id,
        username: format!("user{}", id),
        flair: None,
        online: id != 3,
        role: Role::Member,
        password_hash: text("h"),
    };
    let all = DBApplication::get_all_users(Ok(vec![row(1), row(2), row(3)])).unwrap();
    let others = DBApplication::get_other_users(Ok(vec![row(3), row(1)])).unwrap();
    assert_eq!(others.len(), 2);
    for user in &all {
        assert_eq!(others.contains(user), user.id != UserId(2));
    }
    assert!(!others[0].online);
}

/// What is passed on of what comes in: who gets it, and what.
fn passed_on(frames: Vec<(ListenEvent, Vec<i64>, &str)>) -> Vec<(Vec<i64>, String)> {
    let connected = peers(&[1, 2]);
    let mut frames = frames.into_iter();
    let mut holds: (Vec<i64>, &str) = (vec![], "");
    let mut passed = vec![];
    let mut event = ListenEvent::Begin;
    loop {
        event = match listen_to_core(event, &connected) {
            ListenAction::Receive => match frames.next() {
                Some((frame, ids, content)) => {
                    holds = (ids, content);
                    frame
                }
                None => ListenEvent::End,
            },
            ListenAction::ReadForward => {
                ListenEvent::Read(Ok(holds.0.iter().map(|id| UserId(*id)).collect()))
            }
            ListenAction::Encode { user_ids } => {
                ListenEvent::Encoded { user_ids, text: Ok(text(holds.1)) }
            }
            ListenAction::Deliver { to, text } => {
                let mut to: Vec<i64> = to.iter().map(|user| user.0).collect();
                to.sort();
                passed.push((to, text));
                ListenEvent::Delivered
            }
            ListenAction::Return => return passed,
        };
    }
}

#[test]
fn forwards_keep_their_order_among_other_frames() {
    let frame = |type_: &str| ListenEvent::Received { type_: text(type_) };
    let all = vec![
        (ListenEvent::Broken, vec![], ""),
        (frame("ForwardMessage"), vec![2, 9, 1], "first"),
        (frame("Ping"), vec![1], "no"),
        (frame("ForwardMessage"), vec![9], "second"),
        (ListenEvent::Broken, vec![], ""),
        (frame("ForwardMessage"), vec![2], "third"),
    ];
    let forwards = vec![
        (frame("ForwardMessage"), vec![2, 9, 1], "first"),
        (frame("ForwardMessage"), vec![9], "second"),
        (frame("ForwardMessage"), vec![2], "third"),
    ];
    let expected = vec![
        (vec![1, 2], text("first")),
        (vec![], text("second")),
        (vec![2], text("third")),
    ];
    assert_eq!(passed_on(all), expected);
    assert_eq!(passed_on(forwards), expected);
}

/// Who gets in with this, and what happens besides waiting.
fn let_in(sent: Vec<Incoming>) -> (Option<User>, Vec<LoginAction>) {
    let mut sent = sent.into_iter();
    let mut done = vec![];
    let mut event = LoginEvent::Begin;
    loop {
        event = match login(event) {
            LoginAction::Receive => {
                LoginEvent::Received(sent.next().unwrap_or(Incoming::End))
            }
            LoginAction::LogIn(login) => {
                let result = if login.username == "ann" {
                    Ok(user(1))
                } else {
                    Err(DbError { status: 401, message: text("") })
                };
                LoginEvent::LoggedIn { login, result }
            }
            LoginAction::Refuse(message) => {
                done.push(LoginAction::Refuse(message));
                LoginEvent::Refused
            }
            LoginAction::Welcome(user) => LoginEvent::Welcomed(user),
            LoginAction::Close => LoginEvent::Closed,
            LoginAction::Return(user) => return (user, done),
            other => panic!("{:?}", other),
        };
    }
}

#[test]
fn broken_frames_do_not_matter_at_login() {
    let by = |username: &str| {
        Incoming::Login(LoginMessage { username: text(username), password: text("pw") })
    };
    let clean = let_in(vec![by("bob"), by("ann")]);
    assert_eq!(clean.0, Some(user(1)));
    assert_eq!(clean.1.len(), 1);
    let broken = || Incoming::Broken;
    assert_eq!(let_in(vec![broken(), by("bob"), broken(), broken(), by("ann")]), clean);
    assert_eq!(let_in(vec![broken()]), (None, vec![]));
}
