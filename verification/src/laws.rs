//! What holds of whole runs, and of several operations together.
//!
//! A run of an operation is told by its events and its actions: the operation maps
//! each event to the action at the same place, and each event but the first answers
//! the action before it.
use crate::connection::{Connection, PeerMap};
use crate::core_link::{
    ListenAction, ListenEvent, PingAction, PingEvent, ReconnectAction, ReconnectEvent,
};
use crate::db::{
    DbError, GeneralAction, GeneralEvent, InitAction, InitEvent, JoinAction, JoinByNameAction,
    JoinByNameEvent, JoinEvent, LoginUserAction, LoginUserEvent, NewUserAction, NewUserEvent,
    PersistAction, PersistEvent, Table,
};
use crate::handlers::{
    CreateChannelAction, CreateChannelEvent, Incoming, LoginAction, LoginEvent, SendAction,
    SendError, SendEvent, WelcomeAction, WelcomeEvent,
};
use crate::protocol::{
    ChannelId, ChatMessage, ForwardMessage, LoginMessage, MessageId, SendChatMessage, SendableId,
    ServerMessage, User, UserId,
};
use crate::rows::{DbChatMessage, DbUser, NewUser};
use crate::session::{ServeAction, ServeEvent, SessionAction, SessionEvent};
use vstd::prelude::*;

verus! {

// Logging in.

/// The event answers the action of `login`.
pub open spec fn login_answers(action: LoginAction, event: LoginEvent) -> bool {
    match action {
        LoginAction::Receive => event is Received,
        LoginAction::LogIn(login) => event matches LoginEvent::LoggedIn { login: l, result }
            && l == login,
        LoginAction::Create(_) => event is Created,
        LoginAction::Refuse(_) => event is Refused,
        LoginAction::Welcome(user) => event == LoginEvent::Welcomed(user),
        LoginAction::Close => event is Closed,
        LoginAction::Return(_) => false,
    }
}

/// A run of `login`.
pub open spec fn login_run(events: Seq<LoginEvent>, actions: Seq<LoginAction>) -> bool {
    &&& events.len() == actions.len() > 0
    &&& events[0] is Begin
    &&& forall|i: int|
        0 <= i < events.len() ==> crate::handlers::login_step(#[trigger] events[i], actions[i])
    &&& forall|i: int|
        0 < i < events.len() ==> login_answers(actions[i - 1], #[trigger] events[i])
}

/// A client that gets in does so as a user whom the store has just logged in or
/// created for it.
pub proof fn law_only_users_of_the_store_get_in(
    events: Seq<LoginEvent>,
    actions: Seq<LoginAction>,
    user: User,
)
    requires
        login_run(events, actions),
        actions.last() == LoginAction::Return(Some(user)),
    ensures
        events.len() >= 3,
        actions[actions.len() - 2] == LoginAction::Welcome(user),
        ({
            let decided = events[events.len() - 2];
            ||| decided matches LoginEvent::LoggedIn { login, result } && result == Ok::<
                User,
                DbError,
            >(user)
            ||| decided == LoginEvent::Created(Ok(user))
        }),
{
    let n = events.len() as int;
    assert(crate::handlers::login_step(events[n - 1], actions[n - 1]));
    assert(events[n - 1] == LoginEvent::Welcomed(user));
    assert(login_answers(actions[n - 2], events[n - 1]));
    assert(crate::handlers::login_step(events[n - 2], actions[n - 2]));
    assert(events[n - 2] !is Begin);
}

/// A run of `login` that ends without a user ends because the client has left.
pub proof fn law_nobody_is_sent_away_for_good(events: Seq<LoginEvent>, actions: Seq<LoginAction>)
    requires
        login_run(events, actions),
        actions.last() == LoginAction::Return(None),
    ensures
        events.len() >= 3,
        events[events.len() - 2] == LoginEvent::Received(Incoming::End),
{
    let n = events.len() as int;
    assert(crate::handlers::login_step(events[n - 1], actions[n - 1]));
    assert(events[n - 1] is Closed);
    assert(login_answers(actions[n - 2], events[n - 1]));
    assert(crate::handlers::login_step(events[n - 2], actions[n - 2]));
}

/// A user is created only for credentials that the store knows nobody for, and with
/// these credentials.
pub proof fn law_only_unknown_users_are_created(
    events: Seq<LoginEvent>,
    actions: Seq<LoginAction>,
    i: int,
    login: LoginMessage,
)
    requires
        login_run(events, actions),
        0 <= i < actions.len(),
        actions[i] == LoginAction::Create(login),
    ensures
        events[i] matches LoginEvent::LoggedIn { login: l, result: Err(e) } && l == login
            && e.status == crate::db::NOT_FOUND,
        i >= 2,
        actions[i - 1] == LoginAction::LogIn(login),
        events[i - 1] == LoginEvent::Received(Incoming::Login(login)),
{
    assert(crate::handlers::login_step(events[i], actions[i]));
    assert(login_answers(actions[i - 1], events[i]));
    assert(crate::handlers::login_step(events[i - 1], actions[i - 1]));
}

/// What cannot be made out changes nothing: taken out of a run of `login`, it leaves a run
/// with the same outcome, in which everything else happens as before.
pub proof fn law_broken_frames_do_not_matter_at_login(
    events: Seq<LoginEvent>,
    actions: Seq<LoginAction>,
    i: int,
)
    requires
        login_run(events, actions),
        0 <= i < events.len(),
        events[i] == LoginEvent::Received(Incoming::Broken),
    ensures
        login_run(events.remove(i), actions.remove(i)),
        actions[i] is Receive,
        actions.remove(i).last() == actions.last(),
{
    let fewer = events.remove(i);
    let done = actions.remove(i);
    assert(crate::handlers::login_step(events[i], actions[i]));
    assert(login_answers(actions[i - 1], events[i]));
    assert forall|j: int| 0 <= j < fewer.len() implies crate::handlers::login_step(
        #[trigger] fewer[j],
        done[j],
    ) by {
        assert(crate::handlers::login_step(events[j], actions[j]));
        assert(crate::handlers::login_step(events[j + 1], actions[j + 1]));
    }
    assert(actions[i - 1] is Receive);
    assert forall|j: int| 0 < j < fewer.len() implies login_answers(
        done[j - 1],
        #[trigger] fewer[j],
    ) by {
        if j < i {
            assert(login_answers(actions[j - 1], events[j]));
        } else {
            assert(login_answers(actions[j], events[j + 1]));
        }
    }
}

/// The event answers the action of `login_user`.
pub open spec fn login_user_answers(action: LoginUserAction, event: LoginUserEvent) -> bool {
    match action {
        LoginUserAction::Find(login) => event matches LoginUserEvent::Found { login: l, row } && l
            == login,
        LoginUserAction::MarkOnline(user) => event matches LoginUserEvent::Marked {
            user: u,
            marked,
        } && u == user,
        LoginUserAction::Return(_) => false,
    }
}

/// A run of `login_user`.
pub open spec fn login_user_run(
    events: Seq<LoginUserEvent>,
    actions: Seq<LoginUserAction>,
) -> bool {
    &&& events.len() == actions.len() > 0
    &&& events[0] is Begin
    &&& forall|i: int|
        0 <= i < events.len() ==> crate::db::login_user_step(#[trigger] events[i], actions[i])
    &&& forall|i: int|
        0 < i < events.len() ==> login_user_answers(actions[i - 1], #[trigger] events[i])
}

/// A run of `login_user` returns a user only if the store has that user under the
/// name given, the password given belongs to the hash stored, and the user was marked
/// as online; and it returns that user, online.
pub proof fn law_login_needs_the_password(
    events: Seq<LoginUserEvent>,
    actions: Seq<LoginUserAction>,
    login: LoginMessage,
    user: User,
)
    requires
        login_user_run(events, actions),
        events[0] == LoginUserEvent::Begin(login),
        actions.last() == LoginUserAction::Return(Ok(user)),
    ensures
        events.len() == 3,
        actions[0] == LoginUserAction::Find(login),
        events[1] matches LoginUserEvent::Found { login: l, row: Ok(row) } && l == login
            && crate::outside::bcrypt_verification(login.password@, row.password_hash@) == Ok::<
            bool,
            Seq<char>,
        >(true) && user == (User { online: true, ..crate::rows::user_of(row) }),
        events[2] matches LoginUserEvent::Marked { user: u, marked: Ok(_) } && u == user,
{
    let n = events.len() as int;
    assert(crate::db::login_user_step(events[0], actions[0]));
    assert(n > 1);
    assert(login_user_answers(actions[0], events[1]));
    assert(crate::db::login_user_step(events[1], actions[1]));
    if n > 2 {
        assert(login_user_answers(actions[1], events[2]));
        assert(crate::db::login_user_step(events[2], actions[2]));
        if n > 3 {
            assert(login_user_answers(actions[2], events[3]));
        }
    }
}

/// The status of the error that a run of `login_user` returns tells its cause: nobody of
/// that name, a wrong password, or a fault of the server. There are no others, as long as
/// the error of `set_online_status` is the one it gives.
pub proof fn law_login_errors_tell_the_cause(
    events: Seq<LoginUserEvent>,
    actions: Seq<LoginUserAction>,
    login: LoginMessage,
    error: DbError,
)
    requires
        login_user_run(events, actions),
        events[0] == LoginUserEvent::Begin(login),
        actions.last() == LoginUserAction::Return(Err(error)),
        forall|i: int|
            0 <= i < events.len() ==> (#[trigger] events[i] matches LoginUserEvent::Marked {
                user,
                marked: Err(e),
            } ==> e.status == crate::db::INTERNAL_SERVER_ERROR),
    ensures
        events.len() > 1,
        events[1] matches LoginUserEvent::Found { login: l, row } && match row {
            Err(_) => error.status == crate::db::NOT_FOUND,
            Ok(row) => error.status == if crate::outside::bcrypt_verification(
                login.password@,
                row.password_hash@,
            ) == Ok::<bool, Seq<char>>(false) {
                crate::db::UNAUTHORIZED
            } else {
                crate::db::INTERNAL_SERVER_ERROR
            },
        },
{
    let n = events.len() as int;
    assert(crate::db::login_user_step(events[0], actions[0]));
    assert(n > 1);
    assert(login_user_answers(actions[0], events[1]));
    assert(crate::db::login_user_step(events[1], actions[1]));
    if n > 2 {
        assert(login_user_answers(actions[1], events[2]));
        assert(crate::db::login_user_step(events[2], actions[2]));
        if n > 3 {
            assert(login_user_answers(actions[2], events[3]));
        }
    }
}

/// Whoever was stored as a new user can log in with the same password for as long as the
/// hash stays as it was stored. If name and flair have stayed, too, they become the user
/// that was created, but for the role, which is the stored one.
pub proof fn law_new_users_can_log_in(
    first: LoginMessage,
    row: NewUser,
    id: i64,
    stored: DbUser,
    later: LoginMessage,
    action: LoginUserAction,
)
    requires
        crate::db::new_user_step(NewUserEvent::Begin(first), NewUserAction::Insert(row)),
        stored.password_hash@ == row.password_hash@,
        later.password@ == first.password@,
        crate::db::login_user_step(
            LoginUserEvent::Found { login: later, row: Ok(stored) },
            action,
        ),
    ensures
        action == LoginUserAction::MarkOnline(
            User { online: true, ..crate::rows::user_of(stored) },
        ),
        stored.id == id && stored.username == row.username && stored.flair == row.flair ==> action
            == LoginUserAction::MarkOnline(
            User { role: stored.role, ..crate::db::created_user(row, id) },
        ),
{
}

/// The event answers the action of `new_user`.
pub open spec fn new_user_answers(action: NewUserAction, event: NewUserEvent) -> bool {
    match action {
        NewUserAction::Insert(row) => event matches NewUserEvent::Inserted { row: r, id } && r
            == row,
        NewUserAction::Join { user, chan_name } => event matches NewUserEvent::Joined {
            user: u,
            joined,
        } && u == user,
        NewUserAction::Return(_) => false,
        NewUserAction::Abort(_) => false,
    }
}

/// A run of `new_user`.
pub open spec fn new_user_run(events: Seq<NewUserEvent>, actions: Seq<NewUserAction>) -> bool {
    &&& events.len() == actions.len() > 0
    &&& events[0] is Begin
    &&& forall|i: int|
        0 <= i < events.len() ==> crate::db::new_user_step(#[trigger] events[i], actions[i])
    &&& forall|i: int|
        0 < i < events.len() ==> new_user_answers(actions[i - 1], #[trigger] events[i])
}

/// A run of `new_user` returns a user only if it had one stored with the credentials
/// given, and had them join the general channel; and it returns that user.
pub proof fn law_created_users_are_stored_members(
    events: Seq<NewUserEvent>,
    actions: Seq<NewUserAction>,
    login: LoginMessage,
    user: User,
)
    requires
        new_user_run(events, actions),
        events[0] == NewUserEvent::Begin(login),
        actions.last() == NewUserAction::Return(Ok(user)),
    ensures
        events.len() == 3,
        actions[0] matches NewUserAction::Insert(row) && crate::db::stores(
            row,
            login,
            row.password_hash@,
        ) && crate::db::hash_of(row.password_hash@, login.password@) && (events[1] matches NewUserEvent::Inserted { row: r, id: Ok(id) } && user
            == crate::db::created_user(row, id)),
        actions[1] matches NewUserAction::Join { user: u, chan_name } && u == user && chan_name@
            == "general"@,
        events[2] matches NewUserEvent::Joined { user: u, joined: Ok(_) } && u == user,
{
    let n = events.len() as int;
    assert(crate::db::new_user_step(events[0], actions[0]));
    assert(n > 1);
    assert(new_user_answers(actions[0], events[1]));
    assert(crate::db::new_user_step(events[1], actions[1]));
    if n > 2 {
        assert(new_user_answers(actions[1], events[2]));
        assert(crate::db::new_user_step(events[2], actions[2]));
        if n > 3 {
            assert(new_user_answers(actions[2], events[3]));
        }
    }
}

/// A password that does not belong to the hash stored is answered with "wrong
/// password", and the client is asked again.
pub proof fn law_wrong_passwords_are_refused(
    login: LoginMessage,
    row: DbUser,
    checked: LoginUserAction,
    result: Result<User, DbError>,
    refusal: LoginAction,
    next: LoginAction,
)
    requires
        crate::outside::bcrypt_verification(login.password@, row.password_hash@) == Ok::<
            bool,
            Seq<char>,
        >(false),
        crate::db::login_user_step(LoginUserEvent::Found { login, row: Ok(row) }, checked),
        checked == LoginUserAction::Return(result),
        crate::handlers::login_step(LoginEvent::LoggedIn { login, result }, refusal),
        crate::handlers::login_step(LoginEvent::Refused, next),
    ensures
        crate::handlers::refuses(refusal, "wrong password"@),
        next == LoginAction::Receive,
{
}

/// Credentials that the store knows nobody for lead to a new user.
pub proof fn law_unknown_names_are_registered(
    login: LoginMessage,
    text: String,
    lookup: LoginUserAction,
    result: Result<User, DbError>,
    action: LoginAction,
)
    requires
        crate::db::login_user_step(LoginUserEvent::Found { login, row: Err(text) }, lookup),
        lookup == LoginUserAction::Return(result),
        crate::handlers::login_step(LoginEvent::LoggedIn { login, result }, action),
    ensures
        action == LoginAction::Create(login),
{
}

/// Nothing that is shown of a user depends on their password hash.
pub proof fn law_hashes_are_not_shown(row: DbUser, hash: String)
    ensures
        crate::rows::user_of(DbUser { password_hash: hash, ..row }) == crate::rows::user_of(row),
{
}

/// The users that `get_all_users` and `get_other_users` return for these rows.
pub open spec fn users_listed(rows: Seq<DbUser>) -> Seq<User> {
    rows.map_values(|row: DbUser| crate::rows::user_of(row))
}

/// Where the store gives the rows of all users, and the rows of all users but one, in any
/// order, `get_other_users` returns whom `get_all_users` returns but that one: nobody has
/// that id, everybody else is there as before, and where all ids are distinct they stay so.
pub proof fn law_other_users_are_all_but_one(
    all: Seq<DbUser>,
    others: Seq<DbUser>,
    user_id: UserId,
)
    requires
        others.to_multiset() == all.filter(|row: DbUser| row.id != user_id.0).to_multiset(),
    ensures
        users_listed(others).to_multiset() == users_listed(all).filter(
            |user: User| user.id != user_id,
        ).to_multiset(),
        forall|user: User| #[trigger]
            users_listed(others).contains(user) <==> users_listed(all).contains(user) && user.id
                != user_id,
        (forall|row: DbUser| #[trigger] all.contains(row) ==> row.id != user_id.0) ==> users_listed(
            others,
        ).to_multiset() == users_listed(all).to_multiset(),
        users_listed(all).map_values(|user: User| user.id).no_duplicates() ==> users_listed(
            others,
        ).map_values(|user: User| user.id).no_duplicates(),
{
    let shown = |row: DbUser| crate::rows::user_of(row);
    let other_row = |row: DbUser| row.id != user_id.0;
    let other = |user: User| user.id != user_id;
    let id = |user: User| user.id;
    let everybody = users_listed(all);
    let rest = users_listed(others);
    let picked = everybody.filter(other);
    assert forall|row: DbUser| #[trigger] other_row(row) == other(shown(row)) by {
        assert((row.id != user_id.0) == (UserId(row.id) != user_id));
    }
    crate::sequences::lemma_map_reordered(others, all.filter(other_row), shown);
    crate::sequences::lemma_filter_map(all, shown, other_row, other);
    assert(rest.to_multiset() == picked.to_multiset());
    rest.to_multiset_ensures();
    picked.to_multiset_ensures();
    assert forall|user: User| #[trigger] rest.contains(user) <==> everybody.contains(user)
        && user.id != user_id by {
        assert(rest.contains(user) <==> rest.to_multiset().count(user) > 0);
        assert(picked.contains(user) <==> picked.to_multiset().count(user) > 0);
        crate::sequences::lemma_filter_contains(everybody, other, user);
    }
    if forall|row: DbUser| #[trigger] all.contains(row) ==> row.id != user_id.0 {
        assert forall|i: int| 0 <= i < everybody.len() implies other(#[trigger] everybody[i]) by {
            assert(all.contains(all[i]));
            assert(other_row(all[i]));
        }
        crate::sequences::lemma_filter_all(everybody, other);
    }
    if everybody.map_values(id).no_duplicates() {
        let different = |user: UserId| user != user_id;
        assert forall|user: User| #[trigger] other(user) == different(id(user)) by {
        }
        crate::sequences::lemma_map_reordered(rest, picked, id);
        crate::sequences::lemma_filter_map(everybody, id, other, different);
        crate::sequences::lemma_filter_no_duplicates(everybody.map_values(id), different);
        picked.map_values(id).lemma_multiset_has_no_duplicates();
        rest.map_values(id).lemma_multiset_has_no_duplicates_conv();
    }
}

/// Whoever is given a flair is stored as an operator.
pub proof fn law_flairs_are_for_operators(username: Seq<char>)
    requires
        crate::db::flair_of(username) is Some,
    ensures
        crate::db::is_op(username),
{
}

/// New users join the channel that `init` makes.
pub proof fn law_new_users_join_the_first_channel<E>(
    none: Vec<i64>,
    made: GeneralAction<E>,
    row: NewUser,
    id: i64,
    joined: NewUserAction,
)
    requires
        none@.len() == 0,
        crate::db::general_step(GeneralEvent::<E>::Found(Ok(none)), made),
        crate::db::new_user_step(NewUserEvent::Inserted { row, id: Ok(id) }, joined),
    ensures
        made matches GeneralAction::Insert { name } && (joined matches NewUserAction::Join {
            user,
            chan_name,
        } && chan_name@ == name@ && user.id == UserId(id)),
{
}

// Joining channels.

/// The event answers the action of `add_user_channel_by_name`.
pub open spec fn join_by_name_answers(action: JoinByNameAction, event: JoinByNameEvent) -> bool {
    match action {
        JoinByNameAction::Find { user_id, chan_name } => event matches JoinByNameEvent::Found {
            user_id: u,
            chan,
        } && u == user_id,
        JoinByNameAction::Join { user_id, chan_id } => event is Joined,
        JoinByNameAction::Return(_) => false,
    }
}

/// A run of `add_user_channel_by_name`.
pub open spec fn join_by_name_run(
    events: Seq<JoinByNameEvent>,
    actions: Seq<JoinByNameAction>,
) -> bool {
    &&& events.len() == actions.len() > 0
    &&& events[0] is Begin
    &&& forall|i: int|
        0 <= i < events.len() ==> crate::db::join_by_name_step(#[trigger] events[i], actions[i])
    &&& forall|i: int|
        0 < i < events.len() ==> join_by_name_answers(actions[i - 1], #[trigger] events[i])
}

/// The event answers the action of `add_user_channel`.
pub open spec fn join_answers(action: JoinAction, event: JoinEvent) -> bool {
    match action {
        JoinAction::Insert { user_id, chan_id } => event matches JoinEvent::Inserted {
            chan_id: c,
            inserted,
        } && c == chan_id,
        JoinAction::List { chan_id } => event is Listed,
        JoinAction::Return(_) => false,
    }
}

/// A run of `add_user_channel`.
pub open spec fn join_run(events: Seq<JoinEvent>, actions: Seq<JoinAction>) -> bool {
    &&& events.len() == actions.len() > 0
    &&& events[0] is Begin
    &&& forall|i: int|
        0 <= i < events.len() ==> crate::db::join_step(#[trigger] events[i], actions[i])
    &&& forall|i: int|
        0 < i < events.len() ==> join_answers(actions[i - 1], #[trigger] events[i])
}

/// A user who was added to a channel by its name has been stored as a member of the
/// channel that the store has under that name.
pub proof fn law_joining_by_name_joins_that_channel(
    by_name: Seq<JoinByNameEvent>,
    by_name_actions: Seq<JoinByNameAction>,
    by_id: Seq<JoinEvent>,
    by_id_actions: Seq<JoinAction>,
    user: UserId,
    chan_name: String,
)
    requires
        join_by_name_run(by_name, by_name_actions),
        by_name[0] == (JoinByNameEvent::Begin { user_id: user, chan_name }),
        by_name_actions.last() == JoinByNameAction::Return(Ok::<(), DbError>(())),
        join_run(by_id, by_id_actions),
        by_name.len() > 2 ==> (by_name_actions[1] matches JoinByNameAction::Join {
            user_id,
            chan_id,
        } && by_id[0] == (JoinEvent::Begin { user_id, chan_id })) && (by_id_actions.last()
            matches JoinAction::Return(joined) && by_name[2] == JoinByNameEvent::Joined(joined)),
    ensures
        by_name_actions[0] == (JoinByNameAction::Find { user_id: user, chan_name }),
        by_name[1] matches JoinByNameEvent::Found { user_id, chan: Ok(id) } && by_id_actions[0]
            == (JoinAction::Insert { user_id: user, chan_id: ChannelId(id) }),
        by_id[1] matches JoinEvent::Inserted { chan_id, inserted: Ok(_) },
{
    let n = by_name.len() as int;
    assert(crate::db::join_by_name_step(by_name[0], by_name_actions[0]));
    assert(n > 1);
    assert(join_by_name_answers(by_name_actions[0], by_name[1]));
    assert(crate::db::join_by_name_step(by_name[1], by_name_actions[1]));
    assert(n > 2);
    assert(crate::db::join_by_name_step(by_name[2], by_name_actions[2]));
    if n > 3 {
        assert(join_by_name_answers(by_name_actions[2], by_name[3]));
    }
    let m = by_id.len() as int;
    assert(crate::db::join_step(by_id[0], by_id_actions[0]));
    assert(m > 1);
    assert(join_answers(by_id_actions[0], by_id[1]));
    assert(crate::db::join_step(by_id[1], by_id_actions[1]));
    if m > 2 {
        assert(join_answers(by_id_actions[1], by_id[2]));
    }
}

/// The memberships that are stored in the first `n` steps of a run of `add_user_channel`.
pub open spec fn stored_until(
    events: Seq<JoinEvent>,
    actions: Seq<JoinAction>,
    n: nat,
) -> Seq<(UserId, ChannelId)>
    decreases n,
{
    if n < 2 {
        Seq::empty()
    } else {
        let before = stored_until(events, actions, (n - 1) as nat);
        match (actions[n - 2], events[n - 1]) {
            (
                JoinAction::Insert { user_id, chan_id },
                JoinEvent::Inserted { chan_id: _, inserted: Ok(_) },
            ) => before.push((user_id, chan_id)),
            _ => before,
        }
    }
}

/// The memberships that these runs of `add_user_channel` store.
pub open spec fn stored_by(runs: Seq<(Seq<JoinEvent>, Seq<JoinAction>)>) -> Seq<
    (UserId, ChannelId),
>
    decreases runs.len(),
{
    if runs.len() == 0 {
        Seq::empty()
    } else {
        stored_by(runs.drop_last()) + stored_until(
            runs.last().0,
            runs.last().1,
            runs.last().0.len(),
        )
    }
}

/// The run of `add_user_channel` was to add this user to this channel, and the store did
/// not refuse.
pub open spec fn adds(
    run: (Seq<JoinEvent>, Seq<JoinAction>),
    user_id: UserId,
    chan_id: ChannelId,
) -> bool {
    &&& run.0[0] == (JoinEvent::Begin { user_id, chan_id })
    &&& run.0.len() > 1
    &&& run.0[1] matches JoinEvent::Inserted { chan_id: _, inserted: Ok(_) }
}

/// The store lists the members of a channel by these ids, where these memberships are all
/// that are stored: each user as often as they are a member, in any order.
pub open spec fn lists_members(
    ids: Seq<i64>,
    stored: Seq<(UserId, ChannelId)>,
    chan_id: ChannelId,
) -> bool {
    forall|id: i64| #[trigger]
        ids.to_multiset().count(id) == stored.to_multiset().count((UserId(id), chan_id))
}

/// The users that `get_channel_users` returns for these ids.
pub open spec fn members_listed(ids: Seq<i64>) -> Seq<UserId> {
    ids.map_values(|id: i64| UserId(id))
}

/// A run of `add_user_channel` that returns without an error has stored the membership
/// that it was asked for, once, and no other.
pub proof fn law_joining_stores_one_membership(
    events: Seq<JoinEvent>,
    actions: Seq<JoinAction>,
    user_id: UserId,
    chan_id: ChannelId,
)
    requires
        join_run(events, actions),
        events[0] == (JoinEvent::Begin { user_id, chan_id }),
        actions.last() matches JoinAction::Return(Ok(_)),
    ensures
        adds((events, actions), user_id, chan_id),
        stored_until(events, actions, events.len()) == seq![(user_id, chan_id)],
{
    lemma_stored_by_run(events, actions, user_id, chan_id);
    assert(crate::db::join_step(events[0], actions[0]));
    assert(events.len() > 1);
    assert(join_answers(actions[0], events[1]));
    assert(crate::db::join_step(events[1], actions[1]));
    if events.len() > 2 {
        assert(join_answers(actions[1], events[2]));
    }
}

/// `get_channel_users` gives a user as often as they were added to the channel, and
/// whoever was not added not at all. Adding other users, or the same user to other
/// channels, makes no difference.
pub proof fn law_members_are_listed_as_often_as_they_joined(
    runs: Seq<(Seq<JoinEvent>, Seq<JoinAction>)>,
    ids: Seq<i64>,
    user_id: UserId,
    chan_id: ChannelId,
)
    requires
        forall|i: int| 0 <= i < runs.len() ==> join_run((#[trigger] runs[i]).0, runs[i].1),
        lists_members(ids, stored_by(runs), chan_id),
    ensures
        members_listed(ids).to_multiset().count(user_id) == runs.filter(
            |run: (Seq<JoinEvent>, Seq<JoinAction>)| adds(run, user_id, chan_id),
        ).len(),
{
    lemma_stored_count(runs, user_id, chan_id);
    crate::sequences::lemma_count_map(ids, |id: i64| UserId(id), user_id.0);
    assert(ids.to_multiset().count(user_id.0) == stored_by(runs).to_multiset().count(
        (UserId(user_id.0), chan_id),
    ));
}

proof fn lemma_stored_by_run(
    events: Seq<JoinEvent>,
    actions: Seq<JoinAction>,
    user_id: UserId,
    chan_id: ChannelId,
)
    requires
        join_run(events, actions),
        events[0] == (JoinEvent::Begin { user_id, chan_id }),
    ensures
        stored_until(events, actions, events.len()) == if adds(
            (events, actions),
            user_id,
            chan_id,
        ) {
            seq![(user_id, chan_id)]
        } else {
            Seq::empty()
        },
{
    let n = events.len();
    reveal_with_fuel(stored_until, 4);
    assert(crate::db::join_step(events[0], actions[0]));
    if n > 1 {
        assert(join_answers(actions[0], events[1]));
        assert(crate::db::join_step(events[1], actions[1]));
    }
    if n > 2 {
        assert(join_answers(actions[1], events[2]));
        assert(crate::db::join_step(events[2], actions[2]));
    }
    if n > 3 {
        assert(join_answers(actions[2], events[3]));
    }
    assert(stored_until(events, actions, 1) == Seq::<(UserId, ChannelId)>::empty());
    if n > 1 && adds((events, actions), user_id, chan_id) {
        assert(stored_until(events, actions, 2) =~= seq![(user_id, chan_id)]);
    }
}

proof fn lemma_stored_count(
    runs: Seq<(Seq<JoinEvent>, Seq<JoinAction>)>,
    user_id: UserId,
    chan_id: ChannelId,
)
    requires
        forall|i: int| 0 <= i < runs.len() ==> join_run((#[trigger] runs[i]).0, runs[i].1),
    ensures
        stored_by(runs).to_multiset().count((user_id, chan_id)) == runs.filter(
            |run: (Seq<JoinEvent>, Seq<JoinAction>)| adds(run, user_id, chan_id),
        ).len(),
    decreases runs.len(),
{
    reveal(Seq::filter);
    if runs.len() == 0 {
        stored_by(runs).to_multiset_ensures();
        assert(!stored_by(runs).contains((user_id, chan_id)));
    } else {
        let rest = runs.drop_last();
        let run = runs.last();
        assert forall|i: int| 0 <= i < rest.len() implies join_run(
            (#[trigger] rest[i]).0,
            rest[i].1,
        ) by {
            assert(rest[i] == runs[i]);
        }
        lemma_stored_count(rest, user_id, chan_id);
        assert(run == runs[runs.len() - 1]);
        assert(join_run(run.0, run.1));
        let (user, chan) = (run.0[0]->Begin_user_id, run.0[0]->Begin_chan_id);
        assert(run.0[0] == (JoinEvent::Begin { user_id: user, chan_id: chan }));
        lemma_stored_by_run(run.0, run.1, user, chan);
        stored_by(rest).to_multiset_ensures();
        if adds((run.0, run.1), user, chan) {
            assert(stored_by(runs) =~= stored_by(rest).push((user, chan)));
        } else {
            assert(stored_by(runs) =~= stored_by(rest));
        }
    }
}

// Making the store ready.

/// The event answers the action of `init`.
pub open spec fn init_answers<E>(action: InitAction<E>, event: InitEvent<E>) -> bool {
    match action {
        InitAction::Make(table) => event matches InitEvent::Made(t, made) && t == table,
        InitAction::MakeGeneral => event is General,
        InitAction::Return(_) => false,
    }
}

/// A run of `init`.
pub open spec fn init_run<E>(events: Seq<InitEvent<E>>, actions: Seq<InitAction<E>>) -> bool {
    &&& events.len() == actions.len() > 0
    &&& events[0] is Begin
    &&& forall|i: int|
        0 <= i < events.len() ==> crate::db::init_step(#[trigger] events[i], actions[i])
    &&& forall|i: int|
        0 < i < events.len() ==> init_answers(actions[i - 1], #[trigger] events[i])
}

/// The event reports an error.
pub open spec fn init_error<E>(event: InitEvent<E>) -> Option<E> {
    match event {
        InitEvent::Made(_, Err(e)) => Some(e),
        InitEvent::General(Err(e)) => Some(e),
        _ => None,
    }
}

/// A run of `init` makes all tables, each after those that it refers to, and then the
/// general channel; or it returns the first error.
pub proof fn law_init_makes_everything_or_fails<E>(
    events: Seq<InitEvent<E>>,
    actions: Seq<InitAction<E>>,
    result: Result<(), E>,
)
    requires
        init_run(events, actions),
        actions.last() == InitAction::Return(result),
    ensures
        forall|i: int|
            0 <= i < events.len() - 1 ==> init_error(#[trigger] events[i]) is None,
        match result {
            Ok(_) => init_error(events.last()) is None && actions == seq![
                InitAction::Make(Table::Users),
                InitAction::Make(Table::Channels),
                InitAction::Make(Table::UserChannels),
                InitAction::Make(Table::Messages),
                InitAction::MakeGeneral,
                InitAction::Return(result),
            ],
            Err(e) => init_error(events.last()) == Some(e),
        },
{
    let n = events.len() as int;
    assert(crate::db::init_step(events[0], actions[0]));
    lemma_init_order(events, actions, n - 1);
    assert forall|i: int| 0 <= i < n - 1 implies init_error(#[trigger] events[i]) is None by {
        assert(crate::db::init_step(events[i], actions[i]));
        assert(init_answers(actions[i + 1 - 1], events[i + 1]));
    }
    assert(crate::db::init_step(events[n - 1], actions[n - 1]));
    if result is Ok {
        lemma_init_order(events, actions, n - 2);
        assert(crate::db::init_step(events[n - 2], actions[n - 2]));
        assert(init_answers(actions[n - 2], events[n - 1]));
        assert(n == 6);
        lemma_init_order(events, actions, 1);
        lemma_init_order(events, actions, 2);
        lemma_init_order(events, actions, 3);
        assert(init_answers(actions[1], events[2]));
        assert(init_answers(actions[2], events[3]));
        assert(init_answers(actions[3], events[4]));
        assert(actions =~= seq![
            InitAction::Make(Table::Users),
            InitAction::Make(Table::Channels),
            InitAction::Make(Table::UserChannels),
            InitAction::Make(Table::Messages),
            InitAction::MakeGeneral,
            InitAction::Return(result),
        ]);
    }
}

/// Where a run of `init` stands after so many steps, unless it has returned.
proof fn lemma_init_order<E>(events: Seq<InitEvent<E>>, actions: Seq<InitAction<E>>, i: int)
    requires
        init_run(events, actions),
        0 <= i < events.len(),
    ensures
        actions[i] is Return || {
            ||| i == 0 && actions[i] == InitAction::<E>::Make(Table::Users)
            ||| i == 1 && actions[i] == InitAction::<E>::Make(Table::Channels)
            ||| i == 2 && actions[i] == InitAction::<E>::Make(Table::UserChannels)
            ||| i == 3 && actions[i] == InitAction::<E>::Make(Table::Messages)
            ||| i == 4 && actions[i] is MakeGeneral
        },
    decreases i,
{
    assert(crate::db::init_step(events[i], actions[i]));
    if i > 0 {
        lemma_init_order(events, actions, i - 1);
        assert(init_answers(actions[i - 1], events[i]));
    }
}

/// The event answers the action of `init_general_channel`.
pub open spec fn general_answers<E>(action: GeneralAction<E>, event: GeneralEvent<E>) -> bool {
    match action {
        GeneralAction::Find { name } => event is Found,
        GeneralAction::Insert { name } => event is Inserted,
        GeneralAction::Return(_) => false,
    }
}

/// A run of `init_general_channel`.
pub open spec fn general_run<E>(
    events: Seq<GeneralEvent<E>>,
    actions: Seq<GeneralAction<E>>,
) -> bool {
    &&& events.len() == actions.len() > 0
    &&& events[0] is Begin
    &&& forall|i: int|
        0 <= i < events.len() ==> crate::db::general_step(#[trigger] events[i], actions[i])
    &&& forall|i: int|
        0 < i < events.len() ==> general_answers(actions[i - 1], #[trigger] events[i])
}

/// The store holds channels of these names, and told a run of `init_general_channel` how
/// many of them are named "general".
pub open spec fn told_of<E>(channels: Seq<Seq<char>>, events: Seq<GeneralEvent<E>>) -> bool {
    forall|i: int|
        0 <= i < events.len() ==> (#[trigger] events[i] matches GeneralEvent::Found(Ok(ids))
            ==> ids@.len() == channels.to_multiset().count("general"@))
}

/// The names of the channels after the first `n` steps of a run of `init_general_channel`.
pub open spec fn channels_until<E>(
    channels: Seq<Seq<char>>,
    events: Seq<GeneralEvent<E>>,
    actions: Seq<GeneralAction<E>>,
    n: nat,
) -> Seq<Seq<char>>
    decreases n,
{
    if n < 2 {
        channels
    } else {
        let before = channels_until(channels, events, actions, (n - 1) as nat);
        match (actions[n - 2], events[n - 1]) {
            (GeneralAction::Insert { name }, GeneralEvent::Inserted(Ok(_))) => before.push(name@),
            _ => before,
        }
    }
}

/// The names of the channels after a run of `init_general_channel`.
pub open spec fn channels_after<E>(
    channels: Seq<Seq<char>>,
    events: Seq<GeneralEvent<E>>,
    actions: Seq<GeneralAction<E>>,
) -> Seq<Seq<char>> {
    channels_until(channels, events, actions, events.len())
}

/// The tables after a run of `init`.
pub open spec fn tables_after<E>(tables: Set<Table>, events: Seq<InitEvent<E>>) -> Set<Table> {
    tables.union(
        Set::new(
            |table: Table|
                exists|i: int|
                    0 <= i < events.len() && (#[trigger] events[i] matches InitEvent::Made(
                        made,
                        Ok(_),
                    ) && made == table),
        ),
    )
}

/// A run of `init_general_channel` stores one channel, named "general", where the store
/// found none, and else nothing. Where it returns without an error there is such a channel
/// afterwards, and only one unless there were more before.
pub proof fn law_there_is_one_general_channel<E>(
    channels: Seq<Seq<char>>,
    events: Seq<GeneralEvent<E>>,
    actions: Seq<GeneralAction<E>>,
)
    requires
        general_run(events, actions),
        told_of(channels, events),
    ensures
        channels_after(channels, events, actions) == channels || channels_after(
            channels,
            events,
            actions,
        ) == channels.push("general"@),
        channels.contains("general"@) ==> channels_after(channels, events, actions) == channels,
        (actions.last() matches GeneralAction::Return(Ok(_))) ==> {
            let before = channels.to_multiset().count("general"@);
            channels_after(channels, events, actions).to_multiset().count("general"@) == if before
                == 0 {
                1
            } else {
                before
            }
        },
{
    let n = events.len();
    reveal_with_fuel(channels_until, 4);
    channels.to_multiset_ensures();
    assert(channels.contains("general"@) <==> channels.to_multiset().count("general"@) > 0);
    assert(crate::db::general_step(events[0], actions[0]));
    if n > 1 {
        assert(general_answers(actions[0], events[1]));
        assert(crate::db::general_step(events[1], actions[1]));
    }
    if n > 2 {
        assert(general_answers(actions[1], events[2]));
        assert(crate::db::general_step(events[2], actions[2]));
    }
    if n > 3 {
        assert(general_answers(actions[2], events[3]));
    }
    assert(channels_until(channels, events, actions, 1) == channels);
    if n > 1 {
        assert(channels_until(channels, events, actions, 2) == channels);
    }
}

/// The store was made ready without an error: a run of `init`, and the run of
/// `init_general_channel` that belongs to it, on a store with channels of these names.
pub open spec fn made_ready<E>(
    channels: Seq<Seq<char>>,
    events: Seq<InitEvent<E>>,
    actions: Seq<InitAction<E>>,
    general: Seq<GeneralEvent<E>>,
    general_actions: Seq<GeneralAction<E>>,
) -> bool {
    &&& init_run(events, actions)
    &&& actions.last() matches InitAction::Return(Ok(_))
    &&& general_run(general, general_actions)
    &&& told_of(channels, general)
    &&& events.last() matches InitEvent::General(made) && general_actions.last()
        == GeneralAction::Return(made)
}

/// Making the store ready a second time changes nothing, whatever tables and channels have
/// been added since, as long as none have gone and no two channels share a name: it makes
/// no table that was not there and stores no channel. There is one channel named "general"
/// after either time.
pub proof fn law_a_second_start_changes_nothing<E>(
    tables: Set<Table>,
    channels: Seq<Seq<char>>,
    events: Seq<InitEvent<E>>,
    actions: Seq<InitAction<E>>,
    general: Seq<GeneralEvent<E>>,
    general_actions: Seq<GeneralAction<E>>,
    later_tables: Set<Table>,
    later_channels: Seq<Seq<char>>,
    later_events: Seq<InitEvent<E>>,
    later_actions: Seq<InitAction<E>>,
    later_general: Seq<GeneralEvent<E>>,
    later_general_actions: Seq<GeneralAction<E>>,
)
    requires
        made_ready(channels, events, actions, general, general_actions),
        channels.no_duplicates(),
        tables_after(tables, events).subset_of(later_tables),
        forall|name: Seq<char>| #[trigger]
            channels_after(channels, general, general_actions).contains(name)
                ==> later_channels.contains(name),
        later_channels.no_duplicates(),
        made_ready(
            later_channels,
            later_events,
            later_actions,
            later_general,
            later_general_actions,
        ),
    ensures
        channels_after(channels, general, general_actions).to_multiset().count("general"@) == 1,
        tables_after(later_tables, later_events) == later_tables,
        channels_after(later_channels, later_general, later_general_actions) == later_channels,
        later_channels.to_multiset().count("general"@) == 1,
{
    let name = "general"@;
    let result = actions.last()->Return_0;
    law_init_makes_everything_or_fails(events, actions, result);
    law_there_is_one_general_channel(channels, general, general_actions);
    law_there_is_one_general_channel(later_channels, later_general, later_general_actions);
    let first = channels_after(channels, general, general_actions);
    first.to_multiset_ensures();
    channels.to_multiset_ensures();
    channels.lemma_multiset_has_no_duplicates();
    later_channels.to_multiset_ensures();
    later_channels.lemma_multiset_has_no_duplicates();
    assert(channels.to_multiset().count(name) <= 1) by {
        if channels.to_multiset().count(name) > 0 {
            assert(channels.to_multiset().contains(name));
        }
    }
    assert(first.contains(name) <==> first.to_multiset().count(name) > 0);
    assert(later_channels.contains(name));
    assert(later_channels.to_multiset().contains(name));
    assert forall|table: Table| tables_after(tables, events).contains(table) by {
        assert(init_answers(actions[0], events[1]));
        assert(init_answers(actions[1], events[2]));
        assert(init_answers(actions[2], events[3]));
        assert(init_answers(actions[3], events[4]));
        assert(init_error(events[1]) is None);
        assert(init_error(events[2]) is None);
        assert(init_error(events[3]) is None);
        assert(init_error(events[4]) is None);
    }
    assert(tables_after(later_tables, later_events) =~= later_tables);
}

// Messages.

/// The event answers the action of `persist_message`.
pub open spec fn persist_answers(action: PersistAction, event: PersistEvent) -> bool {
    match action {
        PersistAction::Insert { msg, sender_id, ts } => event matches PersistEvent::Inserted {
            msg: m,
            sender_id: s,
            ts: t,
            id,
        } && m == msg && s == sender_id && t == ts,
        PersistAction::Return(_) => false,
    }
}

/// The message that `persist_message` returns is the one it had stored: from its sender,
/// to its recipient, with its content, stamped once.
pub proof fn law_messages_are_kept_as_sent(
    msg: SendChatMessage,
    sender: UserId,
    stored: PersistAction,
    event: PersistEvent,
    message: ChatMessage<i64>,
)
    requires
        crate::db::persist_step(PersistEvent::Begin { msg, sender_id: sender }, stored),
        persist_answers(stored, event),
        crate::db::persist_step(event, PersistAction::Return(Ok(message))),
    ensures
        message.to == msg.to,
        message.from == sender,
        message.content == msg.content,
        message.ts >= 0,
        stored == (PersistAction::Insert { msg, sender_id: sender, ts: message.ts }),
{
}

/// A message as it is read back, where `written` tells how the store keeps a time.
pub open spec fn as_kept<T>(
    message: ChatMessage<i64>,
    written: spec_fn(i64) -> T,
) -> ChatMessage<T> {
    ChatMessage {
        id: message.id,
        to: message.to,
        from: message.from,
        ts: written(message.ts),
        content: message.content,
    }
}

/// The row holds what was stored of a message, under this id.
pub open spec fn keeps<T>(
    row: DbChatMessage<T>,
    msg: SendChatMessage,
    sender_id: UserId,
    ts: T,
    id: i64,
) -> bool {
    &&& row.id == id
    &&& row.to_ == Ok::<SendableId, String>(msg.to)
    &&& row.from_ == Ok::<UserId, String>(sender_id)
    &&& row.ts == ts
    &&& row.content == msg.content
}

/// No two rows have the same id.
pub open spec fn distinct_ids<T>(rows: Seq<DbChatMessage<T>>) -> bool {
    forall|i: int, j: int|
        0 <= i < j < rows.len() ==> (#[trigger] rows[i]).id != (#[trigger] rows[j]).id
}

/// The messages that `get_chan_msgs` returns for these rows.
pub open spec fn read_back<T>(rows: Seq<DbChatMessage<T>>) -> Seq<ChatMessage<T>> {
    rows.filter(|row: DbChatMessage<T>| crate::rows::readable(row)).map_values(
        |row: DbChatMessage<T>| crate::rows::message_of(row),
    )
}

/// What was stored of a message is read back as the message that its sender's server
/// went on with, however the store keeps times. Where no two rows share an id it is read
/// back once, and nothing else is read back under its id. Where no row has its id it is
/// not read back at all.
pub proof fn law_stored_messages_are_read_back<T>(
    msg: SendChatMessage,
    sender_id: UserId,
    ts: i64,
    id: i64,
    message: ChatMessage<i64>,
    written: spec_fn(i64) -> T,
    rows: Seq<DbChatMessage<T>>,
)
    requires
        crate::db::persist_step(
            PersistEvent::Inserted { msg, sender_id, ts, id: Ok(id) },
            PersistAction::Return(Ok(message)),
        ),
    ensures
        forall|i: int|
            0 <= i < rows.len() && keeps(#[trigger] rows[i], msg, sender_id, written(ts), id)
                ==> read_back(rows).contains(as_kept(message, written)),
        forall|i: int|
            distinct_ids(rows) && 0 <= i < rows.len() && keeps(
                #[trigger] rows[i],
                msg,
                sender_id,
                written(ts),
                id,
            ) ==> exists|j: int|
                0 <= j < read_back(rows).len() && #[trigger] read_back(rows)[j] == as_kept(
                    message,
                    written,
                ) && forall|k: int|
                    0 <= k < read_back(rows).len() && k != j ==> (#[trigger] read_back(rows)[k]).id
                        != message.id,
        (forall|i: int| 0 <= i < rows.len() ==> (#[trigger] rows[i]).id != id) ==> !read_back(
            rows,
        ).contains(as_kept(message, written)),
{
    let good = |row: DbChatMessage<T>| crate::rows::readable(row);
    let read = |row: DbChatMessage<T>| crate::rows::message_of(row);
    let kept = rows.filter(good);
    let all = kept.map_values(read);
    let wanted = as_kept(message, written);
    assert(all == read_back(rows));
    assert forall|i: int|
        0 <= i < rows.len() && keeps(#[trigger] rows[i], msg, sender_id, written(ts), id) implies {
        &&& all.contains(wanted)
        &&& distinct_ids(rows) ==> exists|j: int|
            0 <= j < all.len() && #[trigger] all[j] == wanted && forall|k: int|
                0 <= k < all.len() && k != j ==> (#[trigger] all[k]).id != message.id
    } by {
        crate::sequences::lemma_filter_contains(rows, good, rows[i]);
        let j = kept.index_of(rows[i]);
        assert(all[j] == wanted);
        if distinct_ids(rows) {
            lemma_filter_distinct(rows, good);
            assert forall|k: int| 0 <= k < all.len() && k != j implies (#[trigger] all[k]).id
                != message.id by {
                assert(all[k].id.0 == kept[k].id);
                assert(kept[j].id == id);
            }
        }
    }
    if forall|i: int| 0 <= i < rows.len() ==> (#[trigger] rows[i]).id != id {
        if all.contains(wanted) {
            let k = all.index_of(wanted);
            assert(all[k].id == MessageId(kept[k].id));
            assert(kept.contains(kept[k]));
            crate::sequences::lemma_filter_contains(rows, good, kept[k]);
            let i = rows.index_of(kept[k]);
            assert(rows[i].id == id);
        }
    }
}

/// Rows that are picked have distinct ids where all rows do.
proof fn lemma_filter_distinct<T>(
    rows: Seq<DbChatMessage<T>>,
    keep: spec_fn(DbChatMessage<T>) -> bool,
)
    requires
        distinct_ids(rows),
    ensures
        distinct_ids(rows.filter(keep)),
    decreases rows.len(),
{
    reveal(Seq::filter);
    if rows.len() > 0 {
        let rest = rows.drop_last();
        lemma_filter_distinct(rest, keep);
        let kept = rest.filter(keep);
        assert forall|i: int| 0 <= i < kept.len() implies (#[trigger] kept[i]).id
            != rows.last().id by {
            assert(kept.contains(kept[i]));
            crate::sequences::lemma_filter_contains(rest, keep, kept[i]);
            let j = rest.index_of(kept[i]);
            assert(rows[j] == kept[i]);
            assert(rows[rows.len() - 1].id != rows[j].id);
        }
    }
}

/// A message to a channel reaches each member once: here if they are connected here,
/// and else by way of the core server. It reaches nobody else.
pub proof fn law_members_are_reached_once<A, T>(
    message: ChatMessage<i64>,
    text: String,
    members: Vec<UserId>,
    peers: PeerMap<A, T>,
    to: Vec<UserId>,
    sent: String,
    forward: ForwardMessage,
)
    requires
        crate::handlers::send_step(
            SendEvent::Members { message, text, members: Ok(members) },
            peers,
            SendAction::Broadcast { to, text: sent, forward },
        ),
    ensures
        sent == text,
        forward.message == message,
        to@.no_duplicates(),
        forall|user: UserId| #[trigger]
            members@.contains(user) ==> (to@.contains(user) <==> !forward.user_ids@.contains(user)),
        forall|user: UserId| #[trigger] to@.contains(user) ==> members@.contains(user),
        forall|user: UserId| #[trigger]
            forward.user_ids@.contains(user) ==> members@.contains(user),
{
    let away = |user: UserId| !peers.connected(user);
    assert forall|user: UserId| #[trigger] forward.user_ids@.contains(user) <==> members@.contains(
        user,
    ) && !peers.connected(user) by {
        crate::sequences::lemma_filter_contains(members@, away, user);
    }
}

/// Where the core server hands what one server forwards to another server, a member
/// who is connected to either of them, but not to both, is sent the message by that
/// server and not by the other; and whoever is connected to the first is not sent it
/// by the second.
pub proof fn law_servers_share_the_work<A, T>(
    message: ChatMessage<i64>,
    text: String,
    members: Vec<UserId>,
    here: PeerMap<A, T>,
    to: Vec<UserId>,
    sent: String,
    forward: ForwardMessage,
    there: PeerMap<A, T>,
    relayed: String,
    to_there: Vec<UserId>,
    sent_there: String,
    user: UserId,
)
    requires
        crate::handlers::send_step(
            SendEvent::Members { message, text, members: Ok(members) },
            here,
            SendAction::Broadcast { to, text: sent, forward },
        ),
        crate::core_link::listen_step(
            ListenEvent::Encoded { user_ids: forward.user_ids, text: Ok(relayed) },
            there,
            ListenAction::Deliver { to: to_there, text: sent_there },
        ),
    ensures
        sent_there == relayed,
        to@.contains(user) <==> members@.contains(user) && here.connected(user),
        to_there@.contains(user) <==> members@.contains(user) && !here.connected(user)
            && there.connected(user),
        to_there@.no_duplicates(),
{
    crate::sequences::lemma_filter_contains(members@, |user: UserId| !here.connected(user), user);
}

/// The event answers the action of `send_message`.
pub open spec fn send_answers(action: SendAction, event: SendEvent) -> bool {
    match action {
        SendAction::Persist { msg, sender_id } => event is Persisted,
        SendAction::Encode(message) => event matches SendEvent::Encoded { message: m, text } && m
            == message,
        SendAction::ListMembers { chan_id, message, text } => event matches SendEvent::Members {
            message: m,
            text: t,
            members,
        } && m == message && t == text,
        SendAction::Broadcast { to, text, forward } => event == SendEvent::Broadcasted(forward),
        SendAction::EncodeForward { forward, echo } => event matches SendEvent::ForwardEncoded {
            forward: f,
            echo: e,
        } && e == echo,
        SendAction::Forward { text, echo } => event == SendEvent::Forwarded { echo },
        SendAction::Deliver { to, text } => event matches SendEvent::Delivered { text: t, sent }
            && t == text,
        SendAction::Echo(_) => event is Echoed,
        SendAction::Return(_) => false,
    }
}

/// A run of `send_message`. Users may come and go while it lasts: `peers` tells who is
/// connected at each step.
pub open spec fn send_run<A, T>(
    events: Seq<SendEvent>,
    peers: Seq<PeerMap<A, T>>,
    actions: Seq<SendAction>,
) -> bool {
    &&& events.len() == actions.len() > 0
    &&& events.len() == peers.len()
    &&& events[0] is Begin
    &&& forall|i: int|
        0 <= i < events.len() ==> crate::handlers::send_step(
            #[trigger] events[i],
            peers[i],
            actions[i],
        )
    &&& forall|i: int|
        0 < i < events.len() ==> send_answers(actions[i - 1], #[trigger] events[i])
}

/// The action sends `text`, or has `message` forwarded, or goes on with either.
pub open spec fn send_concerns(
    action: SendAction,
    message: ChatMessage<i64>,
    text: String,
) -> bool {
    match action {
        SendAction::Persist { .. } => false,
        SendAction::Encode(m) => m == message,
        SendAction::ListMembers { chan_id, message: m, text: t } => m == message && t == text
            && message.to == SendableId::C(chan_id),
        SendAction::Broadcast { to, text: t, forward } => t == text && forward.message == message
            && message.to is C,
        SendAction::EncodeForward { forward, echo } => forward.message == message && (echo matches
        Some(t) ==> t == text && message.to is U) && (echo is None ==> message.to is C),
        SendAction::Forward { text: f, echo } => (echo matches Some(t) ==> t == text && message.to
            is U) && (echo is None ==> message.to is C),
        SendAction::Deliver { to, text: t } => t == text && message.to == SendableId::U(to),
        SendAction::Echo(t) => t == text && message.to is U,
        SendAction::Return(_) => true,
    }
}

/// How many steps of `send_message` there can be before this action.
spec fn send_rank(action: SendAction) -> int {
    match action {
        SendAction::Persist { .. } => 0,
        SendAction::Encode(_) => 1,
        SendAction::ListMembers { .. } => 2,
        SendAction::Deliver { .. } => 2,
        SendAction::Broadcast { .. } => 3,
        SendAction::EncodeForward { forward, echo } => if echo is Some {
            2
        } else {
            4
        },
        SendAction::Forward { text, echo } => if echo is Some {
            3
        } else {
            5
        },
        SendAction::Echo(_) => 4,
        SendAction::Return(_) => 6,
    }
}

/// A run of `send_message` takes seven steps at most. It first has the message stored,
/// and ends where that fails. Then it has the message that was stored written out, and
/// ends where that fails. Whatever it sends from then on is that text, and whatever it
/// has forwarded is that message.
pub proof fn law_only_stored_messages_are_sent<A, T>(
    events: Seq<SendEvent>,
    peers: Seq<PeerMap<A, T>>,
    actions: Seq<SendAction>,
)
    requires
        send_run(events, peers, actions),
    ensures
        events.len() <= 7,
        events[0] matches SendEvent::Begin { msg, sender_id } && actions[0]
            == (SendAction::Persist { msg, sender_id }),
        events.len() > 2 ==> (events[1] matches SendEvent::Persisted(Ok(message)) && actions[1]
            == SendAction::Encode(message)),
        events.len() > 3 ==> (events[1] matches SendEvent::Persisted(Ok(message)) && (events[2]
            matches SendEvent::Encoded { message: m, text: Ok(text) } && m == message && forall|
            i: int,
        |
            2 <= i < actions.len() ==> #[trigger] send_concerns(actions[i], message, text))),
{
    let n = events.len() as int;
    assert(crate::handlers::send_step(events[0], peers[0], actions[0]));
    if n > 1 {
        assert(crate::handlers::send_step(events[1], peers[1], actions[1]));
        assert(send_answers(actions[0], events[1]));
    }
    if n > 2 {
        assert(crate::handlers::send_step(events[2], peers[2], actions[2]));
        assert(send_answers(actions[1], events[2]));
    }
    if n > 3 {
        assert(send_answers(actions[2], events[3]));
        let message = events[1]->Persisted_0->Ok_0;
        let text = events[2]->Encoded_text->Ok_0;
        assert forall|i: int| 2 <= i < n implies #[trigger] send_concerns(
            actions[i],
            message,
            text,
        ) by {
            lemma_send_concerns(events, peers, actions, i, message, text);
        }
    }
    lemma_send_rank(events, peers, actions, n - 1);
}

/// A message to a user who is connected, and which `send_message` says was sent, was
/// sent to that user and then to its sender.
pub proof fn law_direct_messages_reach_both_ends<A, T>(
    events: Seq<SendEvent>,
    peers: Seq<PeerMap<A, T>>,
    actions: Seq<SendAction>,
    message: ChatMessage<i64>,
    text: String,
    user: UserId,
)
    requires
        send_run(events, peers, actions),
        events.len() > 2,
        events[2] == (SendEvent::Encoded { message, text: Ok(text) }),
        message.to == SendableId::U(user),
        peers[2].connected(user),
        actions.last() == SendAction::Return(Ok::<(), SendError>(())),
    ensures
        actions.len() == 5,
        actions[2] == (SendAction::Deliver { to: user, text }),
        actions[3] == SendAction::Echo(text),
        events[3] matches SendEvent::Delivered { text: _, sent: Ok(_) },
        events[4] matches SendEvent::Echoed(Ok(_)),
{
    let n = events.len() as int;
    assert(crate::handlers::send_step(events[2], peers[2], actions[2]));
    assert(send_answers(actions[2], events[3]));
    assert(crate::handlers::send_step(events[3], peers[3], actions[3]));
    if n > 4 {
        assert(send_answers(actions[3], events[4]));
        assert(crate::handlers::send_step(events[4], peers[4], actions[4]));
        if n > 5 {
            assert(send_answers(actions[4], events[5]));
        }
    }
}

/// A message to a user who is not connected is forwarded for that user alone, and, once
/// it is on its way, comes back to its sender.
pub proof fn law_distant_users_are_reached_through_the_core<A, T>(
    events: Seq<SendEvent>,
    peers: Seq<PeerMap<A, T>>,
    actions: Seq<SendAction>,
    message: ChatMessage<i64>,
    text: String,
    user: UserId,
)
    requires
        send_run(events, peers, actions),
        events.len() > 2,
        events[2] == (SendEvent::Encoded { message, text: Ok(text) }),
        message.to == SendableId::U(user),
        !peers[2].connected(user),
        actions.last() == SendAction::Return(Ok::<(), SendError>(())),
    ensures
        actions[2] matches SendAction::EncodeForward { forward, echo } && forward.message == message
            && forward.user_ids@ == seq![user],
        events[3] matches SendEvent::ForwardEncoded { forward, echo } && match forward {
            Ok(wrapped) => actions.len() == 6 && actions[3] == (SendAction::Forward {
                text: wrapped,
                echo: Some(text),
            }) && actions[4] == SendAction::Echo(text),
            Err(_) => actions.len() == 4,
        },
{
    let n = events.len() as int;
    assert(crate::handlers::send_step(events[2], peers[2], actions[2]));
    assert(send_answers(actions[2], events[3]));
    assert(crate::handlers::send_step(events[3], peers[3], actions[3]));
    if n > 4 {
        assert(send_answers(actions[3], events[4]));
        assert(crate::handlers::send_step(events[4], peers[4], actions[4]));
        if n > 5 {
            assert(send_answers(actions[4], events[5]));
            assert(crate::handlers::send_step(events[5], peers[5], actions[5]));
            if n > 6 {
                assert(send_answers(actions[5], events[6]));
            }
        }
    }
}

proof fn lemma_send_concerns<A, T>(
    events: Seq<SendEvent>,
    peers: Seq<PeerMap<A, T>>,
    actions: Seq<SendAction>,
    i: int,
    message: ChatMessage<i64>,
    text: String,
)
    requires
        send_run(events, peers, actions),
        2 <= i < events.len(),
        events[1] == SendEvent::Persisted(Ok(message)),
        events[2] == (SendEvent::Encoded { message, text: Ok(text) }),
    ensures
        send_concerns(actions[i], message, text),
    decreases i,
{
    assert(crate::handlers::send_step(events[i], peers[i], actions[i]));
    if i > 2 {
        lemma_send_concerns(events, peers, actions, i - 1, message, text);
        assert(send_answers(actions[i - 1], events[i]));
        assert(crate::handlers::send_step(events[i - 1], peers[i - 1], actions[i - 1]));
        lemma_send_rank(events, peers, actions, i - 1);
    }
}

proof fn lemma_send_rank<A, T>(
    events: Seq<SendEvent>,
    peers: Seq<PeerMap<A, T>>,
    actions: Seq<SendAction>,
    i: int,
)
    requires
        send_run(events, peers, actions),
        0 <= i < events.len(),
    ensures
        i <= send_rank(actions[i]),
        i > 0 ==> actions[i] !is Persist,
        i > 1 ==> actions[i] !is Encode,
    decreases i,
{
    assert(crate::handlers::send_step(events[i], peers[i], actions[i]));
    if i > 0 {
        lemma_send_rank(events, peers, actions, i - 1);
        assert(send_answers(actions[i - 1], events[i]));
    }
}

// Channels.

/// The event answers the action of `create_channel`.
pub open spec fn create_channel_answers(
    action: CreateChannelAction,
    event: CreateChannelEvent,
) -> bool {
    match action {
        CreateChannelAction::Insert { create, user_id } => event is Inserted,
        CreateChannelAction::Encode { chan_id, message } => event
            matches CreateChannelEvent::Encoded { chan_id: c, text } && c == chan_id,
        CreateChannelAction::Broadcast { to, text, chan_id } => event is Broadcasted,
        CreateChannelAction::Return(_) => false,
    }
}

/// A run of `create_channel`, with those who are connected at each step.
pub open spec fn create_channel_run<A, T>(
    events: Seq<CreateChannelEvent>,
    peers: Seq<PeerMap<A, T>>,
    actions: Seq<CreateChannelAction>,
) -> bool {
    &&& events.len() == actions.len() > 0
    &&& events.len() == peers.len()
    &&& events[0] is Begin
    &&& forall|i: int|
        0 <= i < events.len() ==> crate::handlers::create_channel_step(
            #[trigger] events[i],
            peers[i],
            actions[i],
        )
    &&& forall|i: int|
        0 < i < events.len() ==> create_channel_answers(actions[i - 1], #[trigger] events[i])
}

/// Whoever hears of a channel joins that channel, which has been stored, and hears what
/// was written out of the news of it; and everybody who is connected at that moment
/// does.
pub proof fn law_everyone_joins_a_new_channel<A, T>(
    events: Seq<CreateChannelEvent>,
    peers: Seq<PeerMap<A, T>>,
    actions: Seq<CreateChannelAction>,
    i: int,
)
    requires
        create_channel_run(events, peers, actions),
        0 <= i < actions.len(),
        actions[i] is Broadcast,
    ensures
        i == 2,
        events[1] matches CreateChannelEvent::Inserted(Ok(added)) && actions[1]
            == (CreateChannelAction::Encode {
            chan_id: added.channel.id,
            message: ServerMessage::ChannelAdded(added),
        }) && (actions[2] matches CreateChannelAction::Broadcast { to, text, chan_id } && chan_id
            == added.channel.id && events[2] == (CreateChannelEvent::Encoded {
            chan_id,
            text: Ok(text),
        }) && crate::connection::lists(to@, |user: UserId| peers[2].connected(user))),
{
    assert(crate::handlers::create_channel_step(events[i], peers[i], actions[i]));
    assert(create_channel_answers(actions[i - 1], events[i]));
    assert(crate::handlers::create_channel_step(events[i - 1], peers[i - 1], actions[i - 1]));
    assert(create_channel_answers(actions[i - 2], events[i - 1]));
    assert(crate::handlers::create_channel_step(events[i - 2], peers[i - 2], actions[i - 2]));
    if i > 2 {
        assert(create_channel_answers(actions[i - 3], events[i - 2]));
    }
}

/// Once everybody whom `create_channel` wants to join has been added, the members listed of
/// the new channel are those who were connected, each of them once; and no other channel
/// has got a member.
pub proof fn law_new_channels_hold_those_who_were_connected<A, T>(
    events: Seq<CreateChannelEvent>,
    peers: Seq<PeerMap<A, T>>,
    actions: Seq<CreateChannelAction>,
    i: int,
    to: Vec<UserId>,
    text: String,
    chan_id: ChannelId,
    runs: Seq<(Seq<JoinEvent>, Seq<JoinAction>)>,
    ids: Seq<i64>,
)
    requires
        create_channel_run(events, peers, actions),
        0 <= i < actions.len(),
        actions[i] == (CreateChannelAction::Broadcast { to, text, chan_id }),
        runs.len() == to@.len(),
        forall|j: int|
            0 <= j < runs.len() ==> join_run((#[trigger] runs[j]).0, runs[j].1) && adds(
                runs[j],
                to@[j],
                chan_id,
            ),
        lists_members(ids, stored_by(runs), chan_id),
    ensures
        events[1] matches CreateChannelEvent::Inserted(Ok(added)) && added.channel.id == chan_id,
        crate::connection::lists(members_listed(ids), |user: UserId| peers[i].connected(user)),
        forall|stored: (UserId, ChannelId)| #[trigger]
            stored_by(runs).contains(stored) ==> stored.1 == chan_id,
{
    law_everyone_joins_a_new_channel(events, peers, actions, i);
    lemma_stored_by_all(runs, to@, chan_id);
    let member = |user: UserId| (user, chan_id);
    let users = members_listed(ids);
    users.to_multiset_ensures();
    to@.to_multiset_ensures();
    to@.lemma_multiset_has_no_duplicates();
    assert forall|user: UserId| #[trigger]
        users.to_multiset().count(user) == to@.to_multiset().count(user) by {
        crate::sequences::lemma_count_map(ids, |id: i64| UserId(id), user.0);
        crate::sequences::lemma_count_map(to@, member, user);
        assert(UserId(user.0) == user);
        assert(ids.to_multiset().count(user.0) == stored_by(runs).to_multiset().count(
            (UserId(user.0), chan_id),
        ));
    }
    assert forall|user: UserId| #[trigger] users.contains(user) <==> peers[i].connected(user) by {
        assert(users.contains(user) <==> users.to_multiset().count(user) > 0);
        assert(to@.contains(user) <==> to@.to_multiset().count(user) > 0);
    }
    assert forall|user: UserId| users.to_multiset().contains(user) implies users.to_multiset().count(
        user,
    ) == 1 by {
        assert(users.to_multiset().count(user) == to@.to_multiset().count(user));
        assert(to@.to_multiset().contains(user));
    }
    users.lemma_multiset_has_no_duplicates_conv();
    assert forall|stored: (UserId, ChannelId)| #[trigger]
        stored_by(runs).contains(stored) implies stored.1 == chan_id by {
        let j = stored_by(runs).index_of(stored);
        assert(to@.map_values(member)[j] == stored);
    }
}

proof fn lemma_stored_by_all(
    runs: Seq<(Seq<JoinEvent>, Seq<JoinAction>)>,
    users: Seq<UserId>,
    chan_id: ChannelId,
)
    requires
        runs.len() == users.len(),
        forall|j: int|
            0 <= j < runs.len() ==> join_run((#[trigger] runs[j]).0, runs[j].1) && adds(
                runs[j],
                users[j],
                chan_id,
            ),
    ensures
        stored_by(runs) == users.map_values(|user: UserId| (user, chan_id)),
    decreases runs.len(),
{
    let member = |user: UserId| (user, chan_id);
    if runs.len() > 0 {
        let n = runs.len() - 1;
        assert forall|j: int| 0 <= j < n implies join_run(
            (#[trigger] runs.drop_last()[j]).0,
            runs.drop_last()[j].1,
        ) && adds(runs.drop_last()[j], users.drop_last()[j], chan_id) by {
            assert(runs.drop_last()[j] == runs[j]);
        }
        lemma_stored_by_all(runs.drop_last(), users.drop_last(), chan_id);
        assert(join_run(runs[n].0, runs[n].1));
        lemma_stored_by_run(runs[n].0, runs[n].1, users[n], chan_id);
    }
    assert(stored_by(runs) =~= users.map_values(member));
}

// Connections.

/// The event answers the action of `handle_connection`.
pub open spec fn session_answers<A, T>(action: SessionAction, event: SessionEvent<A, T>) -> bool {
    match action {
        SessionAction::Announce { message, user } => event matches SessionEvent::Announced(conn)
            && conn.user == user,
        SessionAction::Serve(user_id) => event matches SessionEvent::Ended(u) && u == user_id,
        SessionAction::MarkOffline(user_id) => event matches SessionEvent::Marked(u) && u
            == user_id,
        SessionAction::Encode { message, user_id } => event matches SessionEvent::Encoded {
            user_id: u,
            text,
        } && u == user_id,
        SessionAction::Broadcast { to, text, user_id } => event matches SessionEvent::Broadcasted(
            u,
        ) && u == user_id,
        SessionAction::Leave(_) => event is Left,
        SessionAction::Return => false,
    }
}

/// A run of `handle_connection`, with those who are connected before and after each
/// step. Others may come and go in between.
pub open spec fn session_run<A, T>(
    events: Seq<SessionEvent<A, T>>,
    before: Seq<PeerMap<A, T>>,
    after: Seq<PeerMap<A, T>>,
    actions: Seq<SessionAction>,
) -> bool {
    &&& events.len() == actions.len() > 0
    &&& events.len() == before.len()
    &&& events.len() == after.len()
    &&& events[0] is LoggedIn
    &&& forall|i: int|
        0 <= i < events.len() ==> crate::session::session_step(
            #[trigger] events[i],
            before[i],
            after[i],
            actions[i],
        )
    &&& forall|i: int|
        0 < i < events.len() ==> session_answers(actions[i - 1], #[trigger] events[i])
}

/// A user who has logged in is reported to the core server, put on file, served, marked
/// as offline, taken off file, reported as gone to everybody who is still connected, and
/// reported as gone to the core server, in this order.
pub proof fn law_sessions_clean_up<A, T>(
    events: Seq<SessionEvent<A, T>>,
    before: Seq<PeerMap<A, T>>,
    after: Seq<PeerMap<A, T>>,
    actions: Seq<SessionAction>,
    user: User,
)
    requires
        session_run(events, before, after, actions),
        events[0] == SessionEvent::<A, T>::LoggedIn(Some(user)),
        actions.last() is Return,
        events.len() > 4 ==> !(events[4] matches SessionEvent::Encoded {
            user_id,
            text: Err(_),
        }),
    ensures
        events.len() == 7,
        actions[0] == (SessionAction::Announce {
            message: ServerMessage::ServerUserJoined { user_id: user.id },
            user,
        }),
        after[1].connected(user.id),
        actions[1] == SessionAction::Serve(user.id),
        actions[2] == SessionAction::MarkOffline(user.id),
        actions[3] == (SessionAction::Encode {
            message: ServerMessage::UserLeft { id: user.id },
            user_id: user.id,
        }),
        !after[4].connected(user.id),
        events[4] matches SessionEvent::Encoded { user_id, text: Ok(text) } && (actions[4]
            matches SessionAction::Broadcast { to, text: sent, user_id: gone } && sent == text
            && crate::connection::lists(to@, |other: UserId| after[4].connected(other))),
        actions[5] == SessionAction::Leave(ServerMessage::ServerUserLeft { user_id: user.id }),
{
    let n = events.len() as int;
    assert(crate::session::session_step(events[0], before[0], after[0], actions[0]));
    assert(n > 1);
    assert(session_answers(actions[0], events[1]));
    assert(crate::session::session_step(events[1], before[1], after[1], actions[1]));
    assert(n > 2);
    assert(session_answers(actions[1], events[2]));
    assert(crate::session::session_step(events[2], before[2], after[2], actions[2]));
    assert(n > 3);
    assert(session_answers(actions[2], events[3]));
    assert(crate::session::session_step(events[3], before[3], after[3], actions[3]));
    assert(n > 4);
    assert(session_answers(actions[3], events[4]));
    assert(crate::session::session_step(events[4], before[4], after[4], actions[4]));
    assert(n > 5);
    assert(session_answers(actions[4], events[5]));
    assert(crate::session::session_step(events[5], before[5], after[5], actions[5]));
    assert(n > 6);
    assert(session_answers(actions[5], events[6]));
    assert(crate::session::session_step(events[6], before[6], after[6], actions[6]));
    if n > 7 {
        assert(session_answers(actions[6], events[7]));
    }
}

/// The event answers the action of `serve`.
pub open spec fn serve_answers<V>(action: ServeAction<V>, event: ServeEvent<V>) -> bool {
    match action {
        ServeAction::Receive => is_frame(event) || event is End,
        ServeAction::CreateChannel(_) => event is Handled,
        ServeAction::SendChatMessage(_) => event is Handled,
        ServeAction::Reply(_) => event is Handled,
        ServeAction::Return => false,
    }
}

/// A run of `serve`, which may have been cut short.
pub open spec fn serve_run<V>(events: Seq<ServeEvent<V>>, actions: Seq<ServeAction<V>>) -> bool {
    &&& events.len() == actions.len() > 0
    &&& events[0] is Begin
    &&& forall|i: int|
        0 <= i < events.len() ==> crate::session::serve_step(#[trigger] events[i], actions[i])
    &&& forall|i: int|
        0 < i < events.len() ==> serve_answers(actions[i - 1], #[trigger] events[i])
}

/// Something came in from the client.
pub open spec fn is_frame<V>(event: ServeEvent<V>) -> bool {
    event is Received || event is Broken
}

/// What came in from the client asks for something.
pub open spec fn is_request<V>(event: ServeEvent<V>) -> bool {
    event matches ServeEvent::Received { type_, value } && (type_@ == "CreateChannel"@ || type_@
        == "Ping"@ || type_@ == "SendChatMessage"@)
}

/// What came in from the client, in order.
pub open spec fn frames<V>(events: Seq<ServeEvent<V>>) -> Seq<ServeEvent<V>> {
    events.filter(|event: ServeEvent<V>| is_frame(event))
}

/// The action does something that the client or others notice.
pub open spec fn is_effect<V>(action: ServeAction<V>) -> bool {
    action is CreateChannel || action is SendChatMessage || action is Reply
}

/// What a run does for the client, in order: the channels it has created, the messages it
/// has sent and the replies it gives, with what each of them is given.
pub open spec fn effects<V>(actions: Seq<ServeAction<V>>) -> Seq<ServeAction<V>> {
    actions.filter(|action: ServeAction<V>| is_effect(action))
}

/// What is done for a request.
pub open spec fn effect_of<V>(request: ServeEvent<V>) -> ServeAction<V> {
    match request {
        ServeEvent::Received { type_, value } => if type_@ == "CreateChannel"@ {
            ServeAction::CreateChannel(value)
        } else if type_@ == "Ping"@ {
            ServeAction::Reply(ServerMessage::Ping)
        } else {
            ServeAction::SendChatMessage(value)
        },
        _ => ServeAction::Receive,
    }
}

/// A run of `serve` does what the requests of the client ask for, each of them once and
/// in the order in which they came in, and does nothing else; whether any of it fails
/// makes no difference.
pub proof fn law_every_request_is_served<V>(
    events: Seq<ServeEvent<V>>,
    actions: Seq<ServeAction<V>>,
)
    requires
        serve_run(events, actions),
    ensures
        effects(actions) == frames(events).filter(
            |event: ServeEvent<V>| is_request(event),
        ).map_values(|event: ServeEvent<V>| effect_of(event)),
{
    lemma_effects(events, actions);
    crate::sequences::lemma_filter_twice(
        events,
        |event: ServeEvent<V>| is_frame(event),
        |event: ServeEvent<V>| is_request(event),
    );
}

/// What asks for nothing changes nothing: a run in which a client sends only the requests
/// among what it sends in another run does the same, in the same order.
pub proof fn law_other_frames_change_nothing<V>(
    events: Seq<ServeEvent<V>>,
    actions: Seq<ServeAction<V>>,
    fewer_events: Seq<ServeEvent<V>>,
    fewer_actions: Seq<ServeAction<V>>,
)
    requires
        serve_run(events, actions),
        serve_run(fewer_events, fewer_actions),
        frames(fewer_events) == frames(events).filter(|event: ServeEvent<V>| is_request(event)),
    ensures
        effects(fewer_actions) == effects(actions),
{
    let request = |event: ServeEvent<V>| is_request(event);
    law_every_request_is_served(events, actions);
    law_every_request_is_served(fewer_events, fewer_actions);
    crate::sequences::lemma_filter_twice(frames(events), request, request);
}

/// What asks for nothing, or has been tried with any outcome, is followed by the next
/// wait; a run of `serve` ends with what comes in, and with nothing else.
pub proof fn law_serving_ends_with_the_connection<V>(
    events: Seq<ServeEvent<V>>,
    actions: Seq<ServeAction<V>>,
    i: int,
)
    requires
        serve_run(events, actions),
        0 <= i < events.len(),
    ensures
        is_frame(events[i]) && !is_request(events[i]) ==> actions[i] is Receive,
        events[i] is Handled ==> actions[i] is Receive,
        actions[i] is Return <==> events[i] is End,
{
    assert(crate::session::serve_step(events[i], actions[i]));
}

proof fn lemma_effects<V>(events: Seq<ServeEvent<V>>, actions: Seq<ServeAction<V>>)
    requires
        events.len() == actions.len(),
        forall|i: int|
            0 <= i < events.len() ==> crate::session::serve_step(#[trigger] events[i], actions[i]),
    ensures
        effects(actions) == events.filter(|event: ServeEvent<V>| is_request(event)).map_values(
            |event: ServeEvent<V>| effect_of(event),
        ),
    decreases events.len(),
{
    let request = |event: ServeEvent<V>| is_request(event);
    let effect = |event: ServeEvent<V>| effect_of(event);
    reveal(Seq::filter);
    if events.len() > 0 {
        let n = events.len() - 1;
        assert forall|i: int| 0 <= i < n implies crate::session::serve_step(
            #[trigger] events.drop_last()[i],
            actions.drop_last()[i],
        ) by {
            assert(crate::session::serve_step(events[i], actions[i]));
        }
        lemma_effects(events.drop_last(), actions.drop_last());
        assert(crate::session::serve_step(events[n], actions[n]));
        assert(is_effect(actions[n]) <==> is_request(events[n]));
        assert(is_request(events[n]) ==> actions[n] == effect_of(events[n]));
        assert(effects(actions) =~= events.filter(request).map_values(effect));
    } else {
        assert(effects(actions) =~= events.filter(request).map_values(effect));
    }
}

/// A connection that comes and goes leaves the connections of all other users as they
/// are; and if its user had none before, and nobody else has come or gone, everything is
/// as it was.
pub proof fn law_sessions_leave_others_alone<A, T>(
    conn: Connection<A, T>,
    before: PeerMap<A, T>,
    during: PeerMap<A, T>,
    joined: SessionAction,
    later: PeerMap<A, T>,
    text: String,
    after: PeerMap<A, T>,
    left: SessionAction,
)
    requires
        crate::session::session_step(SessionEvent::Announced(conn), before, during, joined),
        crate::session::session_step(
            SessionEvent::Encoded { user_id: conn.user.id, text: Ok(text) },
            later,
            after,
            left,
        ),
    ensures
        during@[conn.user.id.0] == conn,
        forall|other: UserId|
            other != conn.user.id ==> (#[trigger] during.connected(other) <==> before.connected(
                other,
            )) && (before.connected(other) ==> during@[other.0] == before@[other.0]),
        forall|other: UserId|
            other != conn.user.id ==> (#[trigger] after.connected(other) <==> later.connected(
                other,
            )) && (later.connected(other) ==> after@[other.0] == later@[other.0]),
        later@ == during@ && !before.connected(conn.user.id) ==> after@ == before@,
{
    assert forall|other: UserId| other != conn.user.id implies (#[trigger] during.connected(other)
        <==> before.connected(other)) && (before.connected(other) ==> during@[other.0]
        == before@[other.0]) by {
        assert(other.0 != conn.user.id.0);
    }
    assert forall|other: UserId| other != conn.user.id implies (#[trigger] after.connected(other)
        <==> later.connected(other)) && (later.connected(other) ==> after@[other.0]
        == later@[other.0]) by {
        assert(other.0 != conn.user.id.0);
    }
    if later@ == during@ && !before.connected(conn.user.id) {
        assert(after@ =~= before@);
    }
}

/// Nobody is told of their own arrival, and everybody else who is connected is.
pub proof fn law_arrivals_are_told_to_others<A, T>(
    user: User,
    peers: PeerMap<A, T>,
    to: Vec<UserId>,
    message: ServerMessage,
    id: UserId,
    other: UserId,
)
    requires
        crate::handlers::welcome_step(
            WelcomeEvent::Begin(user),
            peers,
            WelcomeAction::Announce { to, message, id },
        ),
    ensures
        !to@.contains(user.id),
        other != user.id ==> (to@.contains(other) <==> peers.connected(other)),
        to@.no_duplicates(),
{
}

// The core server.

/// Signs of life alternate with pauses of one period.
pub proof fn law_pings_are_periodic(event: PingEvent, action: PingAction, next: PingAction)
    requires
        action == crate::core_link::ping_action(event),
        next == crate::core_link::ping_action(
            match action {
                PingAction::Send(_) => PingEvent::Sent,
                PingAction::Sleep(_) => PingEvent::Slept,
            },
        ),
    ensures
        match action {
            PingAction::Send(message) => message == ServerMessage::Ping && next
                == PingAction::Sleep(crate::core_link::PING_PERIOD_SECS),
            PingAction::Sleep(secs) => secs == crate::core_link::PING_PERIOD_SECS && next
                == PingAction::Send(ServerMessage::Ping),
        },
{
}

/// The event answers the action of `listen_to_core`.
pub open spec fn listen_answers(action: ListenAction, event: ListenEvent) -> bool {
    match action {
        ListenAction::Receive => event is Received || event is Broken || event is End,
        ListenAction::ReadForward => event is Read,
        ListenAction::Encode { user_ids } => event matches ListenEvent::Encoded {
            user_ids: ids,
            text,
        } && ids == user_ids,
        ListenAction::Deliver { to, text } => event is Delivered,
        ListenAction::Return => false,
    }
}

/// A run of `listen_to_core`, with those who are connected at each step.
pub open spec fn listen_run<A, T>(
    events: Seq<ListenEvent>,
    peers: Seq<PeerMap<A, T>>,
    actions: Seq<ListenAction>,
) -> bool {
    &&& events.len() == actions.len() > 0
    &&& events.len() == peers.len()
    &&& events[0] is Begin
    &&& forall|i: int|
        0 <= i < events.len() ==> crate::core_link::listen_step(
            #[trigger] events[i],
            peers[i],
            actions[i],
        )
    &&& forall|i: int|
        0 < i < events.len() ==> listen_answers(actions[i - 1], #[trigger] events[i])
}

/// Whatever is passed on came in as a message to pass on, and goes to nobody but its
/// recipients.
pub proof fn law_only_forwards_are_passed_on<A, T>(
    events: Seq<ListenEvent>,
    peers: Seq<PeerMap<A, T>>,
    actions: Seq<ListenAction>,
    i: int,
    to: Vec<UserId>,
    text: String,
)
    requires
        listen_run(events, peers, actions),
        0 <= i < actions.len(),
        actions[i] == (ListenAction::Deliver { to, text }),
    ensures
        i >= 3,
        events[i - 2] matches ListenEvent::Received { type_ } && type_@ == "ForwardMessage"@,
        events[i - 1] matches ListenEvent::Read(Ok(user_ids)) && forall|user: UserId| #[trigger]
            to@.contains(user) <==> user_ids@.contains(user) && peers[i].connected(user),
{
    assert(crate::core_link::listen_step(events[i], peers[i], actions[i]));
    assert(listen_answers(actions[i - 1], events[i]));
    assert(crate::core_link::listen_step(events[i - 1], peers[i - 1], actions[i - 1]));
    assert(listen_answers(actions[i - 2], events[i - 1]));
    assert(crate::core_link::listen_step(events[i - 2], peers[i - 2], actions[i - 2]));
}

/// Every message to pass on that can be read and written out is passed on: what was
/// written out goes to those of its recipients who are connected, each of them once.
pub proof fn law_every_forward_is_passed_on<A, T>(
    events: Seq<ListenEvent>,
    peers: Seq<PeerMap<A, T>>,
    actions: Seq<ListenAction>,
    i: int,
    user_ids: Vec<UserId>,
)
    requires
        listen_run(events, peers, actions),
        0 <= i < events.len() - 2,
        events[i] matches ListenEvent::Received { type_ } && type_@ == "ForwardMessage"@,
        events[i + 1] == ListenEvent::Read(Ok(user_ids)),
    ensures
        events[i + 2] matches ListenEvent::Encoded { user_ids: ids, text } && ids == user_ids
            && match text {
            Ok(text) => actions[i + 2] matches ListenAction::Deliver { to, text: sent } && sent
                == text && crate::connection::lists(
                to@,
                |user: UserId| peers[i + 2].connected(user) && user_ids@.contains(user),
            ),
            Err(_) => actions[i + 2] is Receive,
        },
{
    assert(crate::core_link::listen_step(events[i + 1], peers[i + 1], actions[i + 1]));
    assert(listen_answers(actions[i + 2 - 1], events[i + 2]));
    assert(crate::core_link::listen_step(events[i + 2], peers[i + 2], actions[i + 2]));
}

/// What was written out to be passed on.
pub open spec fn written_out(event: ListenEvent) -> bool {
    event matches ListenEvent::Encoded { user_ids, text: Ok(_) }
}

/// The texts that were written out to be passed on, in order.
pub open spec fn texts_written(events: Seq<ListenEvent>) -> Seq<String> {
    events.filter(|event: ListenEvent| written_out(event)).map_values(
        |event: ListenEvent| event->Encoded_text->Ok_0,
    )
}

/// The texts that are passed on, in order.
pub open spec fn texts_passed_on(actions: Seq<ListenAction>) -> Seq<String> {
    actions.filter(|action: ListenAction| action is Deliver).map_values(
        |action: ListenAction| action->Deliver_text,
    )
}

/// What is passed on is what was written out to be passed on, each text once and in the
/// order in which they were written out.
pub proof fn law_forwards_keep_their_order<A, T>(
    events: Seq<ListenEvent>,
    peers: Seq<PeerMap<A, T>>,
    actions: Seq<ListenAction>,
)
    requires
        listen_run(events, peers, actions),
    ensures
        texts_passed_on(actions) == texts_written(events),
{
    lemma_forwards_keep_their_order(events, peers, actions);
}

proof fn lemma_forwards_keep_their_order<A, T>(
    events: Seq<ListenEvent>,
    peers: Seq<PeerMap<A, T>>,
    actions: Seq<ListenAction>,
)
    requires
        events.len() == actions.len(),
        events.len() == peers.len(),
        forall|i: int|
            0 <= i < events.len() ==> crate::core_link::listen_step(
                #[trigger] events[i],
                peers[i],
                actions[i],
            ),
    ensures
        texts_passed_on(actions) == texts_written(events),
    decreases events.len(),
{
    reveal(Seq::filter);
    if events.len() > 0 {
        let n = events.len() - 1;
        assert forall|i: int| 0 <= i < n implies crate::core_link::listen_step(
            #[trigger] events.drop_last()[i],
            peers.drop_last()[i],
            actions.drop_last()[i],
        ) by {
            assert(crate::core_link::listen_step(events[i], peers[i], actions[i]));
        }
        lemma_forwards_keep_their_order(
            events.drop_last(),
            peers.drop_last(),
            actions.drop_last(),
        );
        assert(crate::core_link::listen_step(events[n], peers[n], actions[n]));
        assert(actions[n] is Deliver <==> written_out(events[n]));
        let passed = texts_passed_on(actions.drop_last());
        let written = texts_written(events.drop_last());
        if written_out(events[n]) {
            assert(texts_passed_on(actions) =~= passed.push(actions[n]->Deliver_text));
            assert(texts_written(events) =~= written.push(events[n]->Encoded_text->Ok_0));
        } else {
            assert(texts_passed_on(actions) =~= passed);
            assert(texts_written(events) =~= written);
        }
    } else {
        assert(texts_passed_on(actions) =~= texts_written(events));
    }
}

/// The event tells of something that came in and is not to be passed on.
pub open spec fn not_to_pass_on(event: ListenEvent) -> bool {
    match event {
        ListenEvent::Received { type_ } => type_@ != "ForwardMessage"@,
        ListenEvent::Broken => true,
        _ => false,
    }
}

/// What is not to be passed on changes nothing: taken out of a run of `listen_to_core`, it
/// leaves a run that passes the same texts on and ends in the same way.
pub proof fn law_other_core_frames_change_nothing<A, T>(
    events: Seq<ListenEvent>,
    peers: Seq<PeerMap<A, T>>,
    actions: Seq<ListenAction>,
    i: int,
)
    requires
        listen_run(events, peers, actions),
        0 <= i < events.len(),
        not_to_pass_on(events[i]),
    ensures
        listen_run(events.remove(i), peers.remove(i), actions.remove(i)),
        actions.remove(i).filter(|action: ListenAction| action is Deliver) == actions.filter(
            |action: ListenAction| action is Deliver,
        ),
        actions.remove(i).last() == actions.last(),
{
    let fewer = events.remove(i);
    let around = peers.remove(i);
    let done = actions.remove(i);
    assert(crate::core_link::listen_step(events[i], peers[i], actions[i]));
    assert(listen_answers(actions[i - 1], events[i]));
    assert forall|j: int| 0 <= j < fewer.len() implies crate::core_link::listen_step(
        #[trigger] fewer[j],
        around[j],
        done[j],
    ) by {
        assert(crate::core_link::listen_step(events[j], peers[j], actions[j]));
        assert(crate::core_link::listen_step(events[j + 1], peers[j + 1], actions[j + 1]));
    }
    assert(actions[i - 1] is Receive);
    assert forall|j: int| 0 < j < fewer.len() implies listen_answers(
        done[j - 1],
        #[trigger] fewer[j],
    ) by {
        if j < i {
            assert(listen_answers(actions[j - 1], events[j]));
        } else {
            assert(listen_answers(actions[j], events[j + 1]));
        }
    }
    crate::sequences::lemma_filter_remove(
        actions,
        |action: ListenAction| action is Deliver,
        i,
    );
}

/// `listen_to_core` ends only when nothing will come in again.
pub proof fn law_listening_ends_with_the_link<A, T>(
    events: Seq<ListenEvent>,
    peers: Seq<PeerMap<A, T>>,
    actions: Seq<ListenAction>,
)
    requires
        listen_run(events, peers, actions),
        actions.last() is Return,
    ensures
        events.last() is End,
{
    assert(crate::core_link::listen_step(events.last(), peers.last(), actions.last()));
}

/// The event answers the action of `listen_with_reconnect`.
pub open spec fn reconnect_answers(action: ReconnectAction, event: ReconnectEvent) -> bool {
    match action {
        ReconnectAction::ListenFirst => event is FirstLost,
        ReconnectAction::Connect => event is Connected || event is Failed,
        ReconnectAction::Encode(_) => event is Encoded,
        ReconnectAction::SendAndListen(_) => event is Lost,
        ReconnectAction::Sleep(_) => event is Slept,
    }
}

/// A run of `listen_with_reconnect`, with those who are connected at each step.
pub open spec fn reconnect_run<A, T>(
    events: Seq<ReconnectEvent>,
    peers: Seq<PeerMap<A, T>>,
    actions: Seq<ReconnectAction>,
) -> bool {
    &&& events.len() == actions.len() > 0
    &&& events.len() == peers.len()
    &&& events[0] is Begin
    &&& forall|i: int|
        0 <= i < events.len() ==> crate::core_link::reconnect_step(
            #[trigger] events[i],
            peers[i],
            actions[i],
        )
    &&& forall|i: int|
        0 < i < events.len() ==> reconnect_answers(actions[i - 1], #[trigger] events[i])
}

/// Every attempt to reach the core server but the first follows a pause.
pub proof fn law_attempts_are_spaced<A, T>(
    events: Seq<ReconnectEvent>,
    peers: Seq<PeerMap<A, T>>,
    actions: Seq<ReconnectAction>,
    i: int,
)
    requires
        reconnect_run(events, peers, actions),
        0 <= i < actions.len(),
        actions[i] is Connect,
    ensures
        i >= 1,
        i == 1 || actions[i - 1] == ReconnectAction::Sleep(crate::core_link::RETRY_PERIOD_SECS),
{
    assert(crate::core_link::reconnect_step(events[i], peers[i], actions[i]));
    assert(reconnect_answers(actions[i - 1], events[i]));
    assert(crate::core_link::reconnect_step(events[i - 1], peers[i - 1], actions[i - 1]));
    if i > 1 {
        assert(reconnect_answers(actions[i - 2], events[i - 1]));
    }
}

/// A new link is used only once the core server is being told who is connected.
pub proof fn law_new_links_start_with_the_users<A, T>(
    events: Seq<ReconnectEvent>,
    peers: Seq<PeerMap<A, T>>,
    actions: Seq<ReconnectAction>,
    i: int,
    text: String,
)
    requires
        reconnect_run(events, peers, actions),
        0 <= i < actions.len(),
        actions[i] == ReconnectAction::SendAndListen(text),
    ensures
        i >= 3,
        events[i] == ReconnectEvent::Encoded(Ok(text)),
        actions[i - 1] matches ReconnectAction::Encode(ServerMessage::ServerUsers { user_ids })
            && crate::connection::lists(user_ids@, |user: UserId| peers[i - 1].connected(user)),
        actions[i - 2] is Connect,
        events[i - 1] is Connected,
{
    assert(crate::core_link::reconnect_step(events[i], peers[i], actions[i]));
    assert(reconnect_answers(actions[i - 1], events[i]));
    assert(crate::core_link::reconnect_step(events[i - 1], peers[i - 1], actions[i - 1]));
    assert(reconnect_answers(actions[i - 2], events[i - 1]));
    assert(crate::core_link::reconnect_step(events[i - 2], peers[i - 2], actions[i - 2]));
}

} // verus!
