//! The operations on the store.
//!
//! An operation that makes one request is a function of the reply: rows, or the
//! text of the error. An operation that makes several is a function from an event
//! (its start, or the reply to the last request) to an action (the next request, or
//! the result). An action carries whatever the event that answers it has to hand
//! back.
use crate::outside;
use crate::protocol::{
    Channel, ChannelAdded, ChannelId, ChatMessage, LoginMessage, MessageId, Role, SendChatMessage,
    User, UserId,
};
use crate::rows::{channels_of, messages_of, users_of, DbChannel, DbChatMessage, DbUser, NewUser};
use crate::text::same;
use vstd::prelude::*;
use vstd::string::*;

verus! {

/// The status of a request that needs valid credentials and had none.
pub const UNAUTHORIZED: u16 = 401;

/// The status of a request for something that does not exist.
pub const NOT_FOUND: u16 = 404;

/// The status of a request that failed for no fault of its own.
pub const INTERNAL_SERVER_ERROR: u16 = 500;

/// The cost that passwords are hashed with.
pub const HASH_COST: u32 = 4;

/// Why an operation on the store failed.
#[derive(Debug, PartialEq, Eq)]
pub struct DbError {
    pub status: u16,
    pub message: String,
}

/// The result is an error with this status and this message.
pub open spec fn failed<T>(result: Result<T, DbError>, status: u16, message: Seq<char>) -> bool {
    result matches Err(e) && e.status == status && e.message@ == message
}

impl DbError {
    /// The status and the message in one line.
    pub fn to_text(&self) -> (text: String)
        requires
            100 <= self.status <= 999,
        ensures
            text@ == outside::status_text(self.status) + ": "@ + self.message@,
            self.status == UNAUTHORIZED ==> text@ == "401 Unauthorized"@ + ": "@ + self.message@,
            self.status == NOT_FOUND ==> text@ == "404 Not Found"@ + ": "@ + self.message@,
            self.status == INTERNAL_SERVER_ERROR ==> text@ == "500 Internal Server Error"@ + ": "@
                + self.message@,
    {
        outside::describe_status(self.status).concat(": ").concat(self.message.as_str())
    }

    /// An error that is nobody's fault: what could not be done, and why.
    fn internal(what: &str, cause: &String) -> (error: DbError)
        ensures
            error.status == INTERNAL_SERVER_ERROR,
            error.message@ == what@ + cause@,
    {
        DbError {
            status: INTERNAL_SERVER_ERROR,
            message: what.to_owned().concat(cause.as_str()),
        }
    }
}

/// The flair that a new user of this name is given.
pub open spec fn flair_of(username: Seq<char>) -> Option<Seq<char>> {
    if username == "ol_rusty_bastard"@ || username == "csk"@ || username == "realcsk"@ || username
        == "gfunchess"@ {
        Some("🐢"@)
    } else if username == "cd-stephen"@ {
        Some("🦀"@)
    } else {
        None
    }
}

/// A new user of this name is stored as an operator.
pub open spec fn is_op(username: Seq<char>) -> bool {
    ||| username == "ol_rusty_bastard"@
    ||| username == "csk"@
    ||| username == "realcsk"@
    ||| username == "gfunchess"@
    ||| username == "cd-stephen"@
    ||| username == "Pixel_Outlaw"@
}

/// The flair that a new user of this name is given.
pub fn flair_for(username: &String) -> (flair: Option<String>)
    ensures
        match flair {
            Some(text) => flair_of(username@) == Some(text@),
            None => flair_of(username@) is None,
        },
{
    if same(username, "ol_rusty_bastard") || same(username, "csk") || same(username, "realcsk")
        || same(username, "gfunchess") {
        Some("🐢".to_owned())
    } else if same(username, "cd-stephen") {
        Some("🦀".to_owned())
    } else {
        None
    }
}

/// The role that a new user of this name is stored with.
pub fn role_for(username: &String) -> (role: Role)
    ensures
        role == if is_op(username@) {
            Role::Op
        } else {
            Role::Member
        },
{
    if same(username, "ol_rusty_bastard") || same(username, "csk") || same(username, "realcsk")
        || same(username, "gfunchess") || same(username, "cd-stephen") || same(
        username,
        "Pixel_Outlaw",
    ) {
        Role::Op
    } else {
        Role::Member
    }
}

/// The operations on the store. They say what to ask of it and what to make of the
/// replies; whoever runs them holds the store itself.
pub struct DBApplication;

/// The tables of the store.
#[derive(Clone, Copy, Debug, PartialEq, Eq, Structural)]
pub enum Table {
    Users,
    Channels,
    UserChannels,
    Messages,
}

/// What moves `init` on. `E` is the error of the store, which is only passed on.
#[derive(Debug, PartialEq, Eq)]
pub enum InitEvent<E> {
    Begin,
    /// A table was made, unless it was there already.
    Made(Table, Result<(), E>),
    /// `init_general_channel` returned.
    General(Result<(), E>),
}

/// What `init` does next.
#[derive(Debug, PartialEq, Eq)]
pub enum InitAction<E> {
    /// Make this table, unless it is there already.
    Make(Table),
    /// Run `init_general_channel`.
    MakeGeneral,
    Return(Result<(), E>),
}

/// The tables are made one after the other, those that others refer to first, then
/// the general channel. The first error ends it.
pub open spec fn init_step<E>(event: InitEvent<E>, action: InitAction<E>) -> bool {
    action == match event {
        InitEvent::Begin => InitAction::Make(Table::Users),
        InitEvent::Made(_, Err(e)) => InitAction::Return(Err(e)),
        InitEvent::Made(Table::Users, Ok(_)) => InitAction::Make(Table::Channels),
        InitEvent::Made(Table::Channels, Ok(_)) => InitAction::Make(Table::UserChannels),
        InitEvent::Made(Table::UserChannels, Ok(_)) => InitAction::Make(Table::Messages),
        InitEvent::Made(Table::Messages, Ok(_)) => InitAction::MakeGeneral,
        InitEvent::General(made) => InitAction::Return(made),
    }
}

/// What moves `init_general_channel` on.
#[derive(Debug, PartialEq, Eq)]
pub enum GeneralEvent<E> {
    Begin,
    /// The ids of the channels of that name.
    Found(Result<Vec<i64>, E>),
    Inserted(Result<(), E>),
}

/// What `init_general_channel` does next.
#[derive(Debug, PartialEq, Eq)]
pub enum GeneralAction<E> {
    /// Look for the channels of this name.
    Find { name: String },
    /// Store a channel of this name.
    Insert { name: String },
    Return(Result<(), E>),
}

/// A channel named "general" is stored where there is none.
pub open spec fn general_step<E>(event: GeneralEvent<E>, action: GeneralAction<E>) -> bool {
    match event {
        GeneralEvent::Begin => action matches GeneralAction::Find { name } && name@ == "general"@,
        GeneralEvent::Found(Err(e)) => action == GeneralAction::Return(Err::<(), E>(e)),
        GeneralEvent::Found(Ok(ids)) => if ids@.len() == 0 {
            action matches GeneralAction::Insert { name } && name@ == "general"@
        } else {
            action == GeneralAction::Return(Ok::<(), E>(()))
        },
        GeneralEvent::Inserted(inserted) => action == GeneralAction::Return(inserted),
    }
}

/// What moves `login_user` on.
#[derive(Debug, PartialEq, Eq)]
pub enum LoginUserEvent {
    Begin(LoginMessage),
    /// The user of that name.
    Found { login: LoginMessage, row: Result<DbUser, String> },
    /// `set_online_status` returned.
    Marked { user: User, marked: Result<(), DbError> },
}

/// What `login_user` does next.
#[derive(Debug, PartialEq, Eq)]
pub enum LoginUserAction {
    /// Look for the user whom the credentials name.
    Find(LoginMessage),
    /// Run `set_online_status` for this user, with `true`.
    MarkOnline(User),
    Return(Result<User, DbError>),
}

/// What becomes of a user who was found, once their password has been checked.
pub open spec fn authentication(
    row: DbUser,
    checked: Result<bool, Seq<char>>,
    action: LoginUserAction,
) -> bool {
    match checked {
        Ok(true) => action == LoginUserAction::MarkOnline(
            User { online: true, ..crate::rows::user_of(row) },
        ),
        Ok(false) => action matches LoginUserAction::Return(result) && failed(
            result,
            UNAUTHORIZED,
            "Failed to authenticate user"@,
        ),
        Err(text) => action matches LoginUserAction::Return(result) && failed(
            result,
            INTERNAL_SERVER_ERROR,
            "bcrypt failed to compare the password to its hash\n"@ + text,
        ),
    }
}

/// A user logs in if they are known, the password belongs to their hash, and they
/// can be marked as online.
pub open spec fn login_user_step(event: LoginUserEvent, action: LoginUserAction) -> bool {
    match event {
        LoginUserEvent::Begin(login) => action == LoginUserAction::Find(login),
        LoginUserEvent::Found { login, row: Err(text) } => action matches LoginUserAction::Return(
            result,
        ) && failed(
            result,
            NOT_FOUND,
            "no user found for username: "@ + login.username@ + "\n"@ + text@,
        ),
        LoginUserEvent::Found { login, row: Ok(row) } => authentication(
            row,
            outside::bcrypt_verification(login.password@, row.password_hash@),
            action,
        ),
        LoginUserEvent::Marked { user, marked } => action == LoginUserAction::Return(
            match marked {
                Ok(_) => Ok(user),
                Err(e) => Err(e),
            },
        ),
    }
}

/// What moves `new_user` on.
#[derive(Debug, PartialEq, Eq)]
pub enum NewUserEvent {
    Begin(LoginMessage),
    /// The user was stored, under this id.
    Inserted { row: NewUser, id: Result<i64, String> },
    /// `add_user_channel_by_name` returned.
    Joined { user: User, joined: Result<(), DbError> },
}

/// What `new_user` does next.
#[derive(Debug, PartialEq, Eq)]
pub enum NewUserAction {
    /// Store this user.
    Insert(NewUser),
    /// Run `add_user_channel_by_name` for this user and this channel.
    Join { user: User, chan_name: String },
    Return(Result<User, DbError>),
    /// The password could not be hashed, for this reason. There is no going on.
    Abort(String),
}

/// `row` stores a user with these credentials: online, with the flair and the role
/// of the name, and with this hash for the password.
pub open spec fn stores(row: NewUser, login: LoginMessage, hash: Seq<char>) -> bool {
    &&& row.username == login.username
    &&& row.password_hash@ == hash
    &&& row.online
    &&& match row.flair {
        Some(text) => flair_of(login.username@) == Some(text@),
        None => flair_of(login.username@) is None,
    }
    &&& row.role == if is_op(login.username@) {
        Role::Op
    } else {
        Role::Member
    }
}

/// `hash` is a hash of this password, made with the cost of this server.
pub open spec fn hash_of(hash: Seq<char>, password: Seq<char>) -> bool {
    &&& hash.len() == 60
    &&& hash.take(7) == "$2b$04$"@
    &&& outside::bcrypt_verification(password, hash) == Ok::<bool, Seq<char>>(true)
}

/// The user that a row becomes when it is stored under an id. They are shown as a
/// member, whatever role they are stored with.
pub open spec fn created_user(row: NewUser, id: i64) -> User {
    User {
        id: UserId(id),
        username: row.username,
        online: true,
        flair: row.flair,
        role: Role::Member,
    }
}

/// A new user is stored, with a hash of their password, and joins the general
/// channel. It is given up only where the system has no random bytes for the hash.
pub open spec fn new_user_step(event: NewUserEvent, action: NewUserAction) -> bool {
    match event {
        NewUserEvent::Begin(login) => {
            ||| action matches NewUserAction::Abort(text) && outside::no_random_bytes(text@)
            ||| action matches NewUserAction::Insert(row) && stores(row, login, row.password_hash@)
                && hash_of(row.password_hash@, login.password@)
        },
        NewUserEvent::Inserted { row, id: Err(text) } => action matches NewUserAction::Return(
            result,
        ) && failed(
            result,
            INTERNAL_SERVER_ERROR,
            "failed to insert new user into the database\n"@ + text@,
        ),
        NewUserEvent::Inserted { row, id: Ok(id) } => action matches NewUserAction::Join {
            user,
            chan_name,
        } && user == created_user(row, id) && chan_name@ == "general"@,
        NewUserEvent::Joined { user, joined } => action == NewUserAction::Return(
            match joined {
                Ok(_) => Ok(user),
                Err(e) => Err(e),
            },
        ),
    }
}

/// What moves `add_user_channel_by_name` on.
#[derive(Debug, PartialEq, Eq)]
pub enum JoinByNameEvent {
    Begin { user_id: UserId, chan_name: String },
    /// The id of the channel of that name.
    Found { user_id: UserId, chan: Result<i64, String> },
    /// `add_user_channel` returned.
    Joined(Result<(), DbError>),
}

/// What `add_user_channel_by_name` does next.
#[derive(Debug, PartialEq, Eq)]
pub enum JoinByNameAction {
    /// Look for the channel of this name.
    Find { user_id: UserId, chan_name: String },
    /// Run `add_user_channel` with these.
    Join { user_id: UserId, chan_id: ChannelId },
    Return(Result<(), DbError>),
}

/// A user joins the channel of a name, if there is one.
pub open spec fn join_by_name_step(event: JoinByNameEvent, action: JoinByNameAction) -> bool {
    match event {
        JoinByNameEvent::Begin { user_id, chan_name } => action == JoinByNameAction::Find {
            user_id,
            chan_name,
        },
        JoinByNameEvent::Found { user_id, chan: Ok(id) } => action == JoinByNameAction::Join {
            user_id,
            chan_id: ChannelId(id),
        },
        JoinByNameEvent::Found { user_id, chan: Err(text) } => action
            matches JoinByNameAction::Return(result) && failed(
            result,
            INTERNAL_SERVER_ERROR,
            "Failed to fetch channel\n"@ + text@,
        ),
        JoinByNameEvent::Joined(joined) => action == JoinByNameAction::Return(joined),
    }
}

/// What moves `add_user_channel` on.
#[derive(Debug, PartialEq, Eq)]
pub enum JoinEvent {
    Begin { user_id: UserId, chan_id: ChannelId },
    Inserted { chan_id: ChannelId, inserted: Result<(), String> },
    /// `get_channel_users` returned.
    Listed(Result<Vec<UserId>, DbError>),
}

/// What `add_user_channel` does next.
#[derive(Debug, PartialEq, Eq)]
pub enum JoinAction {
    /// Store that this user is in this channel.
    Insert { user_id: UserId, chan_id: ChannelId },
    /// Run `get_channel_users` for this channel.
    List { chan_id: ChannelId },
    Return(Result<(), DbError>),
}

/// A user is stored as a member of a channel, whose members can then be listed.
pub open spec fn join_step(event: JoinEvent, action: JoinAction) -> bool {
    match event {
        JoinEvent::Begin { user_id, chan_id } => action == JoinAction::Insert { user_id, chan_id },
        JoinEvent::Inserted { chan_id, inserted: Ok(_) } => action == JoinAction::List { chan_id },
        JoinEvent::Inserted { chan_id, inserted: Err(text) } => action matches JoinAction::Return(
            result,
        ) && failed(
            result,
            INTERNAL_SERVER_ERROR,
            "Failed to insert user channel\n"@ + text@,
        ),
        JoinEvent::Listed(listed) => action == JoinAction::Return(
            match listed {
                Ok(_) => Ok(()),
                Err(e) => Err(e),
            },
        ),
    }
}

/// What moves `persist_message` on.
#[derive(Debug, PartialEq, Eq)]
pub enum PersistEvent {
    Begin { msg: SendChatMessage, sender_id: UserId },
    /// The message was stored, under this id.
    Inserted { msg: SendChatMessage, sender_id: UserId, ts: i64, id: Result<i64, String> },
}

/// What `persist_message` does next.
#[derive(Debug, PartialEq, Eq)]
pub enum PersistAction {
    /// Store this message of this user, sent at this time.
    Insert { msg: SendChatMessage, sender_id: UserId, ts: i64 },
    Return(Result<ChatMessage<i64>, DbError>),
}

/// A message is stamped with the current time and stored.
pub open spec fn persist_step(event: PersistEvent, action: PersistAction) -> bool {
    match event {
        PersistEvent::Begin { msg, sender_id } => action matches PersistAction::Insert {
            msg: stored,
            sender_id: by,
            ts,
        } && stored == msg && by == sender_id && ts >= 0 && outside::clock_reading(ts),
        PersistEvent::Inserted { msg, sender_id, ts, id: Ok(id) } => action
            == PersistAction::Return(
            Ok(
                ChatMessage {
                    id: MessageId(id),
                    to: msg.to,
                    from: sender_id,
                    ts,
                    content: msg.content,
                },
            ),
        ),
        PersistEvent::Inserted { msg, sender_id, ts, id: Err(text) } => action
            matches PersistAction::Return(result) && failed(
            result,
            INTERNAL_SERVER_ERROR,
            "failed to insert message to db\n"@ + text@,
        ),
    }
}

impl DBApplication {
    /// Makes the store ready for use.
    pub fn init<E>(event: InitEvent<E>) -> (action: InitAction<E>)
        ensures
            init_step(event, action),
    {
        match event {
            InitEvent::Begin => InitAction::Make(Table::Users),
            InitEvent::Made(table, Ok(_)) => match table {
                Table::Users => InitAction::Make(Table::Channels),
                Table::Channels => InitAction::Make(Table::UserChannels),
                Table::UserChannels => InitAction::Make(Table::Messages),
                Table::Messages => InitAction::MakeGeneral,
            },
            InitEvent::Made(_, Err(e)) => InitAction::Return(Err(e)),
            InitEvent::General(made) => InitAction::Return(made),
        }
    }

    /// Sees to it that there is a general channel.
    pub fn init_general_channel<E>(event: GeneralEvent<E>) -> (action: GeneralAction<E>)
        ensures
            general_step(event, action),
    {
        match event {
            GeneralEvent::Begin => GeneralAction::Find { name: "general".to_owned() },
            GeneralEvent::Found(Ok(ids)) => if ids.len() == 0 {
                GeneralAction::Insert { name: "general".to_owned() }
            } else {
                GeneralAction::Return(Ok(()))
            },
            GeneralEvent::Found(Err(e)) => GeneralAction::Return(Err(e)),
            GeneralEvent::Inserted(inserted) => GeneralAction::Return(inserted),
        }
    }

    /// The user of a name, out of the reply to the request for them.
    pub fn find_user_by_username(row: Result<DbUser, String>) -> (result: Result<User, DbError>)
        ensures
            match row {
                Ok(row) => result == Ok::<User, DbError>(crate::rows::user_of(row)),
                Err(text) => failed(
                    result,
                    INTERNAL_SERVER_ERROR,
                    "failed to query db\n"@ + text@,
                ),
            },
    {
        match row {
            Ok(row) => Ok(User::from(row)),
            Err(text) => Err(DbError::internal("failed to query db\n", &text)),
        }
    }

    /// Logs a user in.
    pub fn login_user(event: LoginUserEvent) -> (action: LoginUserAction)
        ensures
            login_user_step(event, action),
    {
        match event {
            LoginUserEvent::Begin(login) => LoginUserAction::Find(login),
            LoginUserEvent::Found { login, row } => match row {
                Ok(row) => {
                    let checked = outside::verify_password(
                        login.password.as_str(),
                        row.password_hash.as_str(),
                    );
                    Self::authenticate(row, checked)
                },
                Err(text) => {
                    let message = "no user found for username: ".to_owned().concat(
                        login.username.as_str(),
                    ).concat("\n").concat(text.as_str());
                    LoginUserAction::Return(Err(DbError { status: NOT_FOUND, message }))
                },
            },
            LoginUserEvent::Marked { user, marked } => LoginUserAction::Return(
                match marked {
                    Ok(_) => Ok(user),
                    Err(e) => Err(e),
                },
            ),
        }
    }

    /// Goes on with a user who was found, once their password has been checked:
    /// `checked` says whether it is right, or why that could not be found out.
    pub fn authenticate(row: DbUser, checked: Result<bool, String>) -> (action: LoginUserAction)
        ensures
            authentication(
                row,
                match checked {
                    Ok(right) => Ok(right),
                    Err(text) => Err(text@),
                },
                action,
            ),
    {
        match checked {
            Ok(right) => if right {
                let mut user = User::from(row);
                user.online = true;
                LoginUserAction::MarkOnline(user)
            } else {
                LoginUserAction::Return(
                    Err(
                        DbError {
                            status: UNAUTHORIZED,
                            message: "Failed to authenticate user".to_owned(),
                        },
                    ),
                )
            },
            Err(text) => LoginUserAction::Return(
                Err(
                    DbError::internal(
                        "bcrypt failed to compare the password to its hash\n",
                        &text,
                    ),
                ),
            ),
        }
    }

    /// Creates a user.
    pub fn new_user(event: NewUserEvent) -> (action: NewUserAction)
        ensures
            new_user_step(event, action),
    {
        match event {
            NewUserEvent::Begin(login) => {
                let hashed = outside::hash_password(login.password.as_str(), HASH_COST);
                proof {
                    reveal_strlit("$2b$04$");
                    assert(outside::hash_prefix(HASH_COST) =~= "$2b$04$"@);
                }
                Self::register(login, hashed)
            },
            NewUserEvent::Inserted { row, id } => match id {
                Ok(id) => NewUserAction::Join {
                    user: User {
                        id: UserId(id),
                        username: row.username,
                        online: true,
                        flair: row.flair,
                        role: Role::Member,
                    },
                    chan_name: "general".to_owned(),
                },
                Err(text) => NewUserAction::Return(
                    Err(
                        DbError::internal(
                            "failed to insert new user into the database\n",
                            &text,
                        ),
                    ),
                ),
            },
            NewUserEvent::Joined { user, joined } => NewUserAction::Return(
                match joined {
                    Ok(_) => Ok(user),
                    Err(e) => Err(e),
                },
            ),
        }
    }

    /// Goes on with a new user, once their password has been hashed: `hashed` is the
    /// hash, or why there is none.
    pub fn register(login: LoginMessage, hashed: Result<String, String>) -> (action: NewUserAction)
        ensures
            match hashed {
                Ok(hash) => action matches NewUserAction::Insert(row) && stores(row, login, hash@),
                Err(text) => action == NewUserAction::Abort(text),
            },
    {
        match hashed {
            Ok(password_hash) => {
                let flair = flair_for(&login.username);
                let role = role_for(&login.username);
                NewUserAction::Insert(
                    NewUser { username: login.username, password_hash, online: true, flair, role },
                )
            },
            Err(text) => NewUserAction::Abort(text),
        }
    }

    /// Whether the status of a user could be stored.
    pub fn set_online_status(stored: Result<(), String>) -> (result: Result<(), DbError>)
        ensures
            match stored {
                Ok(_) => result == Ok::<(), DbError>(()),
                Err(text) => failed(
                    result,
                    INTERNAL_SERVER_ERROR,
                    "failed to update online status\n"@ + text@,
                ),
            },
    {
        match stored {
            Ok(_) => Ok(()),
            Err(text) => Err(DbError::internal("failed to update online status\n", &text)),
        }
    }

    /// All users but one, out of the reply to the request for them.
    pub fn get_other_users(rows: Result<Vec<DbUser>, String>) -> (result: Result<
        Vec<User>,
        DbError,
    >)
        ensures
            match rows {
                Ok(rows) => result matches Ok(users) && users@ == rows@.map_values(
                    |row: DbUser| crate::rows::user_of(row),
                ),
                Err(text) => failed(
                    result,
                    INTERNAL_SERVER_ERROR,
                    "failed to get users from db\n"@ + text@,
                ),
            },
    {
        match rows {
            Ok(rows) => Ok(users_of(rows)),
            Err(text) => Err(DbError::internal("failed to get users from db\n", &text)),
        }
    }

    /// All channels, out of the reply to the request for them.
    pub fn get_channels(rows: Result<Vec<DbChannel>, String>) -> (result: Result<
        Vec<Channel>,
        DbError,
    >)
        ensures
            match rows {
                Ok(rows) => result matches Ok(channels) && channels@ == rows@.map_values(
                    |row: DbChannel| crate::rows::channel_of(row),
                ),
                Err(text) => failed(
                    result,
                    INTERNAL_SERVER_ERROR,
                    "failed to lookup channels\n"@ + text@,
                ),
            },
    {
        match rows {
            Ok(rows) => Ok(channels_of(rows)),
            Err(text) => Err(DbError::internal("failed to lookup channels\n", &text)),
        }
    }

    /// Adds a user to the channel of a name.
    pub fn add_user_channel_by_name(event: JoinByNameEvent) -> (action: JoinByNameAction)
        ensures
            join_by_name_step(event, action),
    {
        match event {
            JoinByNameEvent::Begin { user_id, chan_name } => JoinByNameAction::Find {
                user_id,
                chan_name,
            },
            JoinByNameEvent::Found { user_id, chan } => match chan {
                Ok(id) => JoinByNameAction::Join { user_id, chan_id: ChannelId(id) },
                Err(text) => JoinByNameAction::Return(
                    Err(DbError::internal("Failed to fetch channel\n", &text)),
                ),
            },
            JoinByNameEvent::Joined(joined) => JoinByNameAction::Return(joined),
        }
    }

    /// Adds a user to a channel.
    pub fn add_user_channel(event: JoinEvent) -> (action: JoinAction)
        ensures
            join_step(event, action),
    {
        match event {
            JoinEvent::Begin { user_id, chan_id } => JoinAction::Insert { user_id, chan_id },
            JoinEvent::Inserted { chan_id, inserted } => match inserted {
                Ok(_) => JoinAction::List { chan_id },
                Err(text) => JoinAction::Return(
                    Err(DbError::internal("Failed to insert user channel\n", &text)),
                ),
            },
            JoinEvent::Listed(listed) => JoinAction::Return(
                match listed {
                    Ok(_) => Ok(()),
                    Err(e) => Err(e),
                },
            ),
        }
    }

    /// Stores a message.
    pub fn persist_message(event: PersistEvent) -> (action: PersistAction)
        ensures
            persist_step(event, action),
    {
        match event {
            PersistEvent::Begin { msg, sender_id } => Self::stamp(
                msg,
                sender_id,
                outside::now_millis(),
            ),
            PersistEvent::Inserted { msg, sender_id, ts, id } => PersistAction::Return(
                match id {
                    Ok(id) => Ok(
                        ChatMessage {
                            id: MessageId(id),
                            to: msg.to,
                            from: sender_id,
                            ts,
                            content: msg.content,
                        },
                    ),
                    Err(text) => Err(DbError::internal("failed to insert message to db\n", &text)),
                },
            ),
        }
    }

    /// Goes on with a message, once the time is known: it is stored with this time.
    pub fn stamp(msg: SendChatMessage, sender_id: UserId, ts: i64) -> (action: PersistAction)
        ensures
            action == (PersistAction::Insert { msg, sender_id, ts }),
    {
        PersistAction::Insert { msg, sender_id, ts }
    }

    /// The members of a channel, out of the reply to the request for their ids.
    pub fn get_channel_users(rows: Result<Vec<i64>, String>) -> (result: Result<
        Vec<UserId>,
        DbError,
    >)
        ensures
            match rows {
                Ok(ids) => result matches Ok(users) && users@ == ids@.map_values(
                    |id: i64| UserId(id),
                ),
                Err(text) => failed(
                    result,
                    INTERNAL_SERVER_ERROR,
                    "failed to find channel users\n"@ + text@,
                ),
            },
    {
        match rows {
            Ok(ids) => {
                let mut users: Vec<UserId> = Vec::new();
                for i in 0..ids.len()
                    invariant
                        users@.len() == i,
                        forall|j: int| 0 <= j < i ==> #[trigger] users@[j] == UserId(ids@[j]),
                {
                    users.push(UserId(ids[i]));
                }
                Ok(users)
            },
            Err(text) => Err(DbError::internal("failed to find channel users\n", &text)),
        }
    }

    /// All users, out of the reply to the request for them.
    pub fn get_all_users(rows: Result<Vec<DbUser>, String>) -> (result: Result<Vec<User>, DbError>)
        ensures
            match rows {
                Ok(rows) => result matches Ok(users) && users@ == rows@.map_values(
                    |row: DbUser| crate::rows::user_of(row),
                ),
                Err(text) => failed(
                    result,
                    INTERNAL_SERVER_ERROR,
                    "failed to retrieve users\n"@ + text@,
                ),
            },
    {
        match rows {
            Ok(rows) => Ok(users_of(rows)),
            Err(text) => Err(DbError::internal("failed to retrieve users\n", &text)),
        }
    }

    /// The messages of a channel, out of the reply to the request for them. Rows
    /// that cannot be read are left out.
    pub fn get_chan_msgs<T>(rows: Result<Vec<DbChatMessage<T>>, String>) -> (result: Result<
        Vec<ChatMessage<T>>,
        DbError,
    >)
        ensures
            match rows {
                Ok(rows) => result matches Ok(messages) && messages@ == rows@.filter(
                    |row: DbChatMessage<T>| crate::rows::readable(row),
                ).map_values(|row: DbChatMessage<T>| crate::rows::message_of(row)),
                Err(text) => failed(
                    result,
                    INTERNAL_SERVER_ERROR,
                    "failed to retrieve messages\n"@ + text@,
                ),
            },
    {
        match rows {
            Ok(rows) => Ok(messages_of(rows)),
            Err(text) => Err(DbError::internal("failed to retrieve messages\n", &text)),
        }
    }

    /// The news of a channel that a user has just had stored, out of the reply to
    /// the request. It is stamped with the current time.
    pub fn insert_channel(row: Result<DbChannel, String>, user_id: UserId) -> (result: Result<
        ChannelAdded,
        DbError,
    >)
        ensures
            match row {
                Ok(row) => result matches Ok(added) && added.channel == crate::rows::channel_of(row)
                    && added.created_by == user_id && added.ts >= 0 && outside::clock_reading(
                    added.ts,
                ),
                Err(text) => failed(
                    result,
                    INTERNAL_SERVER_ERROR,
                    "failed to insert channel\n"@ + text@,
                ),
            },
    {
        match row {
            Ok(row) => Ok(Self::channel_added(row, user_id, outside::now_millis())),
            Err(text) => Err(DbError::internal("failed to insert channel\n", &text)),
        }
    }

    /// The news of a channel that a user had stored at this time.
    pub fn channel_added(row: DbChannel, user_id: UserId, ts: i64) -> (added: ChannelAdded)
        ensures
            added == (ChannelAdded {
                channel: crate::rows::channel_of(row),
                created_by: user_id,
                ts,
            }),
    {
        ChannelAdded { channel: Channel::from(row), created_by: user_id, ts }
    }
}

} // verus!
