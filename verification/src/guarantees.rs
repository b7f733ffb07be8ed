//! What the operations are for.
//!
//! Every law here speaks of calls: of what was handed to an operation and of what it
//! returned. Those that take several steps speak of the calls one after the other, where
//! each call is handed what came of the action before it. They say of every field that
//! matters what becomes of it, down to the words that a client reads.
use crate::connection::{Connection, PeerMap};
use crate::core_link::{
    ListenAction, ListenEvent, PingAction, PingEvent, ReconnectAction, ReconnectEvent,
};
use crate::db::{
    DBApplication, DbError, GeneralAction, GeneralEvent, InitAction, InitEvent, JoinAction,
    JoinByNameAction, JoinByNameEvent, JoinEvent, LoginUserAction, LoginUserEvent, NewUserAction,
    NewUserEvent, PersistAction, PersistEvent, Table,
};
use crate::handlers::{
    CreateChannelAction, CreateChannelEvent, Incoming, LoginAction, LoginEvent, SendAction,
    SendError, SendEvent, WelcomeAction, WelcomeEvent,
};
use crate::protocol::{
    Channel, ChannelAdded, ChannelId, ChatMessage, CreateChannel, ForwardMessage, LoginMessage,
    Role, SendChatMessage, SendableId, ServerMessage, User, UserId,
};
use crate::rows::{DbChannel, DbChatMessage, DbUser, NewUser};
use crate::session::{
    ClientAction, ServeAction, ServeError, ServeEvent, SessionAction, SessionEvent,
};
use vstd::prelude::*;

verus! {

// Sending messages.

/// The calls of one run of `send_message`, with those who are connected at each of them.
pub open spec fn send_calls<A, T>(
    events: Seq<SendEvent>,
    peers: Seq<PeerMap<A, T>>,
    actions: Seq<SendAction>,
) -> bool {
    &&& events.len() == actions.len() > 0
    &&& events.len() == peers.len()
    &&& events[0] is Begin
    &&& forall|i: int|
        0 <= i < events.len() ==> call_ensures(
            crate::handlers::send_message::<A, T>,
            (#[trigger] events[i], &peers[i]),
            actions[i],
        )
    &&& forall|i: int|
        0 < i < events.len() ==> crate::laws::send_answers(actions[i - 1], #[trigger] events[i])
}

/// The action sends the text to the user.
pub open spec fn sent_to(action: SendAction, user: UserId, text: String) -> bool {
    match action {
        SendAction::Broadcast { to, text: sent, forward } => to@.contains(user) && sent == text,
        SendAction::Deliver { to, text: sent } => to == user && sent == text,
        _ => false,
    }
}

/// In a run of `send_message` that has come as far as the members of the channel, a listed
/// member who is connected is sent the text at that very step, whoever else is or is not
/// connected; whoever is not connected, or is no member, is never sent it. A run that is
/// over has written a message for the core server, for exactly the members who are away.
pub proof fn law_listed_members_here_are_sent_the_message<A, T>(
    events: Seq<SendEvent>,
    peers: Seq<PeerMap<A, T>>,
    actions: Seq<SendAction>,
    message: ChatMessage<i64>,
    text: String,
    members: Vec<UserId>,
    i: int,
    user: UserId,
)
    requires
        send_calls(events, peers, actions),
        0 <= i < events.len(),
        events[i] == (SendEvent::Members { message, text, members: Ok(members) }),
    ensures
        members@.contains(user) && peers[i]@.contains_key(user.0) <==> sent_to(
            actions[i],
            user,
            text,
        ),
        members@.contains(user) && !peers[i]@.contains_key(user.0) <==> (actions[i]
            matches SendAction::Broadcast { to, text: sent, forward }
            && forward.user_ids@.contains(user)),
        forall|j: int, other: UserId|
            0 <= j < actions.len() && j != i ==> !#[trigger] sent_to(actions[j], other, text),
        actions.last() is Return ==> events.len() > i + 2 && (actions[i + 1]
            matches SendAction::EncodeForward { forward, echo } && forward.message == message
            && (forward.user_ids@.contains(user) <==> members@.contains(user)
            && !peers[i]@.contains_key(user.0))),
{
    let n = events.len() as int;
    let away = |user: UserId| !peers[i].connected(user);
    assert(call_ensures(
        crate::handlers::send_message::<A, T>,
        (events[i], &peers[i]),
        actions[i],
    ));
    crate::sequences::lemma_filter_contains(members@, away, user);
    lemma_calls_are_steps(events, peers, actions);
    assert forall|j: int, other: UserId| 0 <= j < n && j != i implies !#[trigger] sent_to(
        actions[j],
        other,
        text,
    ) by {
        assert(crate::handlers::send_step(events[j], peers[j], actions[j]));
        crate::laws::law_only_stored_messages_are_sent(events, peers, actions);
        lemma_one_listing(events, peers, actions, i);
        if actions[j] is Broadcast {
            lemma_one_listing(events, peers, actions, j);
        }
        if actions[j] is Deliver {
            let stored = events[1]->Persisted_0->Ok_0;
            let written = events[2]->Encoded_text->Ok_0;
            assert(j >= 2);
            assert(crate::laws::send_concerns(actions[2], stored, written));
            assert(crate::laws::send_concerns(actions[j], stored, written));
        }
    }
    if actions.last() is Return {
        assert(actions[i] is Broadcast);
        assert(crate::laws::send_answers(actions[i + 1 - 1], events[i + 1]));
        assert(call_ensures(
            crate::handlers::send_message::<A, T>,
            (events[i + 1], &peers[i + 1]),
            actions[i + 1],
        ));
    }
}

proof fn lemma_calls_are_steps<A, T>(
    events: Seq<SendEvent>,
    peers: Seq<PeerMap<A, T>>,
    actions: Seq<SendAction>,
)
    requires
        send_calls(events, peers, actions),
    ensures
        crate::laws::send_run(events, peers, actions),
{
    assert forall|i: int| 0 <= i < events.len() implies crate::handlers::send_step(
        #[trigger] events[i],
        peers[i],
        actions[i],
    ) by {
        assert(call_ensures(
            crate::handlers::send_message::<A, T>,
            (events[i], &peers[i]),
            actions[i],
        ));
    }
}

/// The members of a channel are listed at the fourth step and at no other.
proof fn lemma_one_listing<A, T>(
    events: Seq<SendEvent>,
    peers: Seq<PeerMap<A, T>>,
    actions: Seq<SendAction>,
    i: int,
)
    requires
        crate::laws::send_run(events, peers, actions),
        0 <= i < events.len(),
        events[i] is Members || actions[i] is Broadcast,
    ensures
        i == 3,
        events[3] is Members,
        actions[2] is ListMembers,
{
    assert(crate::handlers::send_step(events[i], peers[i], actions[i]));
    assert(crate::laws::send_answers(actions[i - 1], events[i]));
    assert(crate::handlers::send_step(events[i - 1], peers[i - 1], actions[i - 1]));
    assert(crate::laws::send_answers(actions[i - 2], events[i - 1]));
    assert(crate::handlers::send_step(events[i - 2], peers[i - 2], actions[i - 2]));
    assert(crate::laws::send_answers(actions[i - 3], events[i - 2]));
    assert(crate::handlers::send_step(events[i - 3], peers[i - 3], actions[i - 3]));
    if i > 3 {
        assert(crate::laws::send_answers(actions[i - 4], events[i - 3]));
    }
}

/// A message that is to be sent is stored as it was handed in, and then written out as it
/// was stored. Where either fails nobody is sent anything, and the failure is returned.
pub proof fn law_messages_are_stored_and_written_first<A, T>(
    msg: SendChatMessage,
    sender_id: UserId,
    persisted: Result<ChatMessage<i64>, DbError>,
    text: Result<String, String>,
    peers: PeerMap<A, T>,
    first: SendAction,
    second: SendAction,
    third: SendAction,
)
    requires
        call_ensures(
            crate::handlers::send_message::<A, T>,
            (SendEvent::Begin { msg, sender_id }, &peers),
            first,
        ),
        call_ensures(
            crate::handlers::send_message::<A, T>,
            (SendEvent::Persisted(persisted), &peers),
            second,
        ),
        persisted matches Ok(message) ==> call_ensures(
            crate::handlers::send_message::<A, T>,
            (SendEvent::Encoded { message, text }, &peers),
            third,
        ),
    ensures
        first matches SendAction::Persist { msg: m, sender_id: s } && m.to == msg.to && m.content
            == msg.content && s == sender_id,
        match persisted {
            Ok(message) => second == SendAction::Encode(message) && (text matches Err(e) ==> third
                == SendAction::Return(Err(SendError::Encoding(e)))) && (text is Ok ==> third !is Return),
            Err(e) => second == SendAction::Return(Err(SendError::Store(e))),
        },
{
}

/// A stored message to a channel goes, as it was written out, to the members who are
/// connected, each of them once, and the message itself to the core server for the members
/// who are not, each as often as they are listed and in that order; and then the run is
/// over. Neither the number of members nor who of them is connected makes a difference to
/// these steps. Only where the members cannot be listed does nobody get it.
pub proof fn law_channel_messages_go_to_all_members<A, T>(
    message: ChatMessage<i64>,
    text: String,
    chan_id: ChannelId,
    peers: PeerMap<A, T>,
    listing: SendAction,
    members: Vec<UserId>,
    at_listing: PeerMap<A, T>,
    sending: SendAction,
    error: DbError,
    unlisted: SendAction,
    to_forward: ForwardMessage,
    forwarding: SendAction,
    wrapped: String,
    forwarded: SendAction,
    done: SendAction,
    fault: String,
    unwritten: SendAction,
)
    requires
        call_ensures(
            crate::handlers::send_message::<A, T>,
            (SendEvent::Encoded { message, text: Ok(text) }, &peers),
            listing,
        ),
        call_ensures(
            crate::handlers::send_message::<A, T>,
            (SendEvent::Members { message, text, members: Ok(members) }, &at_listing),
            sending,
        ),
        call_ensures(
            crate::handlers::send_message::<A, T>,
            (SendEvent::Members { message, text, members: Err(error) }, &at_listing),
            unlisted,
        ),
        call_ensures(
            crate::handlers::send_message::<A, T>,
            (SendEvent::Broadcasted(to_forward), &peers),
            forwarding,
        ),
        call_ensures(
            crate::handlers::send_message::<A, T>,
            (SendEvent::ForwardEncoded { forward: Ok(wrapped), echo: None }, &peers),
            forwarded,
        ),
        call_ensures(
            crate::handlers::send_message::<A, T>,
            (SendEvent::Forwarded { echo: None }, &peers),
            done,
        ),
        call_ensures(
            crate::handlers::send_message::<A, T>,
            (SendEvent::ForwardEncoded { forward: Err(fault), echo: None }, &peers),
            unwritten,
        ),
    ensures
        message.to == SendableId::C(chan_id) ==> listing == (SendAction::ListMembers {
            chan_id,
            message,
            text,
        }),
        sending matches SendAction::Broadcast { to, text: sent, forward } && sent == text
            && forward.message == message && to@.no_duplicates() && (forall|user: UserId| #[trigger]
            to@.contains(user) <==> members@.contains(user) && at_listing@.contains_key(user.0))
            && forward.user_ids@ == members@.filter(
            |user: UserId| !at_listing@.contains_key(user.0),
        ),
        forwarding == (SendAction::EncodeForward { forward: to_forward, echo: None }),
        unlisted matches SendAction::Return(Ok(_)),
        forwarded == (SendAction::Forward { text: wrapped, echo: None }),
        done matches SendAction::Return(Ok(_)),
        unwritten matches SendAction::Return(Ok(_)),
{
    assert((|user: UserId| !at_listing@.contains_key(user.0)) =~= (|user: UserId|
        !at_listing.connected(user)));
}

/// A stored message to a user who is connected goes, as it was written out, to that user
/// and then back to its sender. It fails where either cannot be handed it.
pub proof fn law_direct_messages_are_delivered_and_echoed<A, T>(
    message: ChatMessage<i64>,
    text: String,
    user: UserId,
    peers: PeerMap<A, T>,
    later: PeerMap<A, T>,
    delivery: SendAction,
    delivered: Result<(), String>,
    echo: SendAction,
    echoed: Result<(), String>,
    done: SendAction,
)
    requires
        message.to == SendableId::U(user),
        peers@.contains_key(user.0),
        call_ensures(
            crate::handlers::send_message::<A, T>,
            (SendEvent::Encoded { message, text: Ok(text) }, &peers),
            delivery,
        ),
        call_ensures(
            crate::handlers::send_message::<A, T>,
            (SendEvent::Delivered { text, sent: delivered }, &later),
            echo,
        ),
        call_ensures(
            crate::handlers::send_message::<A, T>,
            (SendEvent::Echoed(echoed), &later),
            done,
        ),
    ensures
        delivery == (SendAction::Deliver { to: user, text }),
        match delivered {
            Ok(_) => echo == SendAction::Echo(text),
            Err(e) => echo == SendAction::Return(Err(SendError::Delivery(e))),
        },
        match echoed {
            Ok(_) => done matches SendAction::Return(Ok(_)),
            Err(e) => done == SendAction::Return(Err(SendError::Delivery(e))),
        },
{
}

/// A stored message to a user who is not connected goes to the core server, for that user
/// alone, and then, as it was written out, back to its sender. Where it cannot be written
/// for the core server that is the end of it.
pub proof fn law_direct_messages_to_others_go_through_the_core<A, T>(
    message: ChatMessage<i64>,
    text: String,
    user: UserId,
    peers: PeerMap<A, T>,
    later: PeerMap<A, T>,
    forwarding: SendAction,
    wrapped: String,
    forwarded: SendAction,
    echo: SendAction,
    fault: String,
    unwritten: SendAction,
)
    requires
        message.to == SendableId::U(user),
        !peers@.contains_key(user.0),
        call_ensures(
            crate::handlers::send_message::<A, T>,
            (SendEvent::Encoded { message, text: Ok(text) }, &peers),
            forwarding,
        ),
        call_ensures(
            crate::handlers::send_message::<A, T>,
            (SendEvent::ForwardEncoded { forward: Ok(wrapped), echo: Some(text) }, &later),
            forwarded,
        ),
        call_ensures(
            crate::handlers::send_message::<A, T>,
            (SendEvent::Forwarded { echo: Some(text) }, &later),
            echo,
        ),
        call_ensures(
            crate::handlers::send_message::<A, T>,
            (SendEvent::ForwardEncoded { forward: Err(fault), echo: Some(text) }, &later),
            unwritten,
        ),
    ensures
        forwarding matches SendAction::EncodeForward { forward, echo } && forward.message == message
            && forward.user_ids@.len() == 1 && forward.user_ids@[0] == user && echo == Some(text),
        forwarded == (SendAction::Forward { text: wrapped, echo: Some(text) }),
        echo == SendAction::Echo(text),
        unwritten matches SendAction::Return(Ok(_)),
{
}

// Storing messages.

/// A message is stored with what the clock shows at that moment, whatever it says and
/// whoever it is to; and what is returned of it is what was stored, under the id that the
/// store gave it.
pub proof fn law_messages_are_stamped_by_the_clock(
    msg: SendChatMessage,
    sender_id: UserId,
    storing: PersistAction,
    ts: i64,
    id: Result<i64, String>,
    returned: PersistAction,
)
    requires
        call_ensures(
            DBApplication::persist_message,
            (PersistEvent::Begin { msg, sender_id },),
            storing,
        ),
        call_ensures(
            DBApplication::persist_message,
            (PersistEvent::Inserted { msg, sender_id, ts, id },),
            returned,
        ),
    ensures
        storing matches PersistAction::Insert { msg: m, sender_id: s, ts: stamped } && m == msg && s
            == sender_id && crate::outside::clock_reading(stamped) && stamped >= 0,
        match id {
            Ok(id) => returned matches PersistAction::Return(Ok(message)) && message.id.0 == id
                && message.to == msg.to && message.from == sender_id && message.ts == ts
                && message.content == msg.content,
            Err(text) => returned matches PersistAction::Return(Err(e)) && e.status == 500
                && e.message@ == "failed to insert message to db\n"@ + text@,
        },
{
}

/// A message whose time is known is stored with that time, and nothing else of it changes.
pub proof fn law_stamping_only_adds_the_time(
    msg: SendChatMessage,
    sender_id: UserId,
    ts: i64,
    storing: PersistAction,
)
    requires
        call_ensures(DBApplication::stamp, (msg, sender_id, ts), storing),
    ensures
        storing matches PersistAction::Insert { msg: m, sender_id: s, ts: t } && m.to == msg.to
            && m.content == msg.content && s == sender_id && t == ts,
{
}

/// The row tells where the message went and whom it came from.
pub open spec fn both_ends_known<T>(row: DbChatMessage<T>) -> bool {
    row.to_ is Ok && row.from_ is Ok
}

/// `at` names the rows whose ends are known, from the first to the last.
pub open spec fn places_of_known<T>(rows: Seq<DbChatMessage<T>>, at: Seq<int>) -> bool {
    &&& forall|j: int|
        0 <= j < at.len() ==> 0 <= #[trigger] at[j] < rows.len() && both_ends_known(rows[at[j]])
    &&& forall|j: int, k: int| 0 <= j < k < at.len() ==> #[trigger] at[j] < #[trigger] at[k]
    &&& forall|i: int|
        0 <= i < rows.len() && both_ends_known(#[trigger] rows[i]) ==> at.contains(i)
}

/// The messages of a channel are the rows whose two ends are known, all of them, in the
/// order of the rows; and each has the id, the ends, the time and the content of its row.
pub proof fn law_messages_are_their_rows<T>(
    rows: Vec<DbChatMessage<T>>,
    result: Result<Vec<ChatMessage<T>>, DbError>,
)
    requires
        call_ensures(
            DBApplication::get_chan_msgs::<T>,
            (Ok::<Vec<DbChatMessage<T>>, String>(rows),),
            result,
        ),
    ensures
        result is Ok,
        exists|at: Seq<int>| #[trigger]
            places_of_known(rows@, at) && at.len() == result->Ok_0@.len() && forall|j: int|
                0 <= j < at.len() ==> (#[trigger] result->Ok_0@[j]).id.0 == rows@[at[j]].id
                    && rows@[at[j]].to_ == Ok::<SendableId, String>(result->Ok_0@[j].to)
                    && rows@[at[j]].from_ == Ok::<UserId, String>(result->Ok_0@[j].from)
                    && result->Ok_0@[j].ts == rows@[at[j]].ts && result->Ok_0@[j].content
                    == rows@[at[j]].content,
{
    let good = |row: DbChatMessage<T>| crate::rows::readable(row);
    lemma_places(rows@);
    let at = choose|at: Seq<int>| #[trigger]
        places_of_known(rows@, at) && at.len() == rows@.filter(good).len() && forall|j: int|
            0 <= j < at.len() ==> rows@[#[trigger] at[j]] == rows@.filter(good)[j];
    let messages = result->Ok_0@;
    assert(messages.len() == at.len());
    assert forall|j: int| 0 <= j < at.len() implies (#[trigger] messages[j]).id.0
        == rows@[at[j]].id && rows@[at[j]].to_ == Ok::<SendableId, String>(messages[j].to)
        && rows@[at[j]].from_ == Ok::<UserId, String>(messages[j].from) && messages[j].ts
        == rows@[at[j]].ts && messages[j].content == rows@[at[j]].content by {
        assert(rows@[at[j]] == rows@.filter(good)[j]);
        assert(both_ends_known(rows@[at[j]]));
    }
}

proof fn lemma_places<T>(rows: Seq<DbChatMessage<T>>)
    ensures
        exists|at: Seq<int>| #[trigger]
            places_of_known(rows, at) && at.len() == rows.filter(
                |row: DbChatMessage<T>| crate::rows::readable(row),
            ).len() && forall|j: int|
                0 <= j < at.len() ==> rows[#[trigger] at[j]] == rows.filter(
                    |row: DbChatMessage<T>| crate::rows::readable(row),
                )[j],
    decreases rows.len(),
{
    let good = |row: DbChatMessage<T>| crate::rows::readable(row);
    reveal(Seq::filter);
    if rows.len() == 0 {
        assert(places_of_known(rows, Seq::<int>::empty()));
    } else {
        let rest = rows.drop_last();
        let n = rest.len() as int;
        lemma_places(rest);
        let before = choose|at: Seq<int>| #[trigger]
            places_of_known(rest, at) && at.len() == rest.filter(good).len() && forall|j: int|
                0 <= j < at.len() ==> rest[#[trigger] at[j]] == rest.filter(good)[j];
        let at = if good(rows.last()) {
            before.push(n)
        } else {
            before
        };
        assert forall|j: int| 0 <= j < at.len() implies 0 <= #[trigger] at[j] < rows.len()
            && both_ends_known(rows[at[j]]) && rows[at[j]] == rows.filter(good)[j] by {
            if j < before.len() {
                assert(at[j] == before[j]);
                assert(rest[before[j]] == rows[before[j]]);
                assert(both_ends_known(rest[before[j]]));
            }
        }
        assert forall|j: int, k: int| 0 <= j < k < at.len() implies #[trigger] at[j]
            < #[trigger] at[k] by {
            assert(at[j] == before[j]);
            if k < before.len() {
                assert(at[k] == before[k]);
            }
        }
        assert forall|i: int| 0 <= i < rows.len() && both_ends_known(
            #[trigger] rows[i],
        ) implies at.contains(i) by {
            if i < n {
                assert(rest[i] == rows[i]);
                assert(before.contains(i));
                let j = before.index_of(i);
                assert(at[j] == i);
            } else {
                assert(at[before.len() as int] == i);
            }
        }
        assert(places_of_known(rows, at));
    }
}

/// Where the rows of a channel cannot be had, the error says so.
pub proof fn law_messages_that_cannot_be_read_are_an_error<T>(
    text: String,
    result: Result<Vec<ChatMessage<T>>, DbError>,
)
    requires
        call_ensures(
            DBApplication::get_chan_msgs::<T>,
            (Err::<Vec<DbChatMessage<T>>, String>(text),),
            result,
        ),
    ensures
        result matches Err(e) && e.status == 500 && e.message@ == "failed to retrieve messages\n"@
            + text@,
{
}

// Channels.

/// The calls of one run of `create_channel`, with those who are connected at each of them.
pub open spec fn create_channel_calls<A, T>(
    events: Seq<CreateChannelEvent>,
    peers: Seq<PeerMap<A, T>>,
    actions: Seq<CreateChannelAction>,
) -> bool {
    &&& events.len() == actions.len() > 0
    &&& events.len() == peers.len()
    &&& events[0] is Begin
    &&& forall|i: int|
        0 <= i < events.len() ==> call_ensures(
            crate::handlers::create_channel::<A, T>,
            (#[trigger] events[i], &peers[i]),
            actions[i],
        )
    &&& forall|i: int|
        0 < i < events.len() ==> crate::laws::create_channel_answers(
            actions[i - 1],
            #[trigger] events[i],
        )
}

/// A run of `create_channel` that is over has asked for the channel to be stored, in the
/// name of whoever wanted it. Where that failed the error is returned, and nobody hears of
/// it. Where the channel was stored, the news of it is written out, whoever is connected;
/// and where it could be written out, everybody who is connected then is sent that text and
/// made a member, each of them once: the creator, too, even if there is nobody else.
pub proof fn law_stored_channels_are_told_of_and_joined<A, T>(
    events: Seq<CreateChannelEvent>,
    peers: Seq<PeerMap<A, T>>,
    actions: Seq<CreateChannelAction>,
    create: CreateChannel,
    user_id: UserId,
)
    requires
        create_channel_calls(events, peers, actions),
        events[0] == (CreateChannelEvent::Begin { create, user_id }),
        actions.last() is Return,
    ensures
        events.len() > 1,
        actions[0] matches CreateChannelAction::Insert { create: c, user_id: u } && c.name
            == create.name && u == user_id,
        events[1] matches CreateChannelEvent::Inserted(inserted) && match inserted {
            Err(e) => events.len() == 2 && actions[1] == CreateChannelAction::Return(
                Err::<(), DbError>(e),
            ),
            Ok(added) => events.len() > 2 && (actions[1] matches CreateChannelAction::Encode {
                chan_id,
                message,
            } && chan_id == added.channel.id && message == ServerMessage::ChannelAdded(added)) && (
            events[2] matches CreateChannelEvent::Encoded { chan_id, text } && chan_id
                == added.channel.id && match text {
                Ok(text) => events.len() == 4 && (actions[2]
                    matches CreateChannelAction::Broadcast { to, text: sent, chan_id: joined }
                    && sent == text && joined == added.channel.id && to@.no_duplicates() && forall|
                    user: UserId,
                | #[trigger]
                    to@.contains(user) <==> peers[2]@.contains_key(user.0)) && (actions[3]
                    matches CreateChannelAction::Return(Ok(_))),
                Err(_) => events.len() == 3 && (actions[2] matches CreateChannelAction::Return(
                    Ok(_),
                )),
            }),
        },
{
    let n = events.len() as int;
    assert(call_ensures(
        crate::handlers::create_channel::<A, T>,
        (events[0], &peers[0]),
        actions[0],
    ));
    assert(n > 1);
    assert(crate::laws::create_channel_answers(actions[0], events[1]));
    assert(call_ensures(
        crate::handlers::create_channel::<A, T>,
        (events[1], &peers[1]),
        actions[1],
    ));
    if n > 2 {
        assert(crate::laws::create_channel_answers(actions[1], events[2]));
        assert(call_ensures(
            crate::handlers::create_channel::<A, T>,
            (events[2], &peers[2]),
            actions[2],
        ));
    }
    if n > 3 {
        assert(crate::laws::create_channel_answers(actions[2], events[3]));
        assert(call_ensures(
            crate::handlers::create_channel::<A, T>,
            (events[3], &peers[3]),
            actions[3],
        ));
    }
    if n > 4 {
        assert(crate::laws::create_channel_answers(actions[3], events[4]));
    }
}

/// A channel that was stored has the id and the name that the store gave, was made by
/// whoever wanted it, and at the time that the clock shows.
pub proof fn law_stored_channels_are_dated_by_the_clock(
    row: Result<DbChannel, String>,
    user_id: UserId,
    result: Result<ChannelAdded, DbError>,
)
    requires
        call_ensures(DBApplication::insert_channel, (row, user_id), result),
    ensures
        match row {
            Ok(row) => result matches Ok(added) && added.channel.id.0 == row.id
                && added.channel.name == row.name && added.channel.has_unread is None
                && added.created_by == user_id && crate::outside::clock_reading(added.ts)
                && added.ts >= 0,
            Err(text) => result matches Err(e) && e.status == 500 && e.message@
                == "failed to insert channel\n"@ + text@,
        },
{
}

/// The news of a channel that was made at a known time has that time.
pub proof fn law_news_of_channels_keep_their_time(
    row: DbChannel,
    user_id: UserId,
    ts: i64,
    added: ChannelAdded,
)
    requires
        call_ensures(DBApplication::channel_added, (row, user_id, ts), added),
    ensures
        added.channel.id.0 == row.id,
        added.channel.name == row.name,
        added.channel.has_unread is None,
        added.created_by == user_id,
        added.ts == ts,
{
}

/// Channels are listed as they are stored: as many, in that order, each with its id and
/// its name, and with nothing known of what was read.
pub proof fn law_channels_are_their_rows(
    rows: Result<Vec<DbChannel>, String>,
    result: Result<Vec<Channel>, DbError>,
)
    requires
        call_ensures(DBApplication::get_channels, (rows,), result),
    ensures
        match rows {
            Ok(rows) => result matches Ok(channels) && channels@.len() == rows@.len() && forall|
                i: int,
            |
                0 <= i < rows@.len() ==> (#[trigger] channels@[i]).id.0 == rows@[i].id
                    && channels@[i].name == rows@[i].name && channels@[i].has_unread is None,
            Err(text) => result matches Err(e) && e.status == 500 && e.message@
                == "failed to lookup channels\n"@ + text@,
        },
{
}

/// The members of a channel are listed as they are stored: as many and in that order.
pub proof fn law_members_are_their_rows(
    rows: Result<Vec<i64>, String>,
    result: Result<Vec<UserId>, DbError>,
)
    requires
        call_ensures(DBApplication::get_channel_users, (rows,), result),
    ensures
        match rows {
            Ok(ids) => result matches Ok(users) && users@.len() == ids@.len() && forall|i: int|
                0 <= i < ids@.len() ==> (#[trigger] users@[i]).0 == ids@[i],
            Err(text) => result matches Err(e) && e.status == 500 && e.message@
                == "failed to find channel users\n"@ + text@,
        },
{
}

/// Whoever is to join a channel by its name is stored as a member of the channel that the
/// store has under that name; then its members are listed, and where that works, too, all
/// is well. Where the channel is not found, or the membership cannot be stored, or the
/// members cannot be listed, the error is returned.
pub proof fn law_joining_by_name_stores_a_member(
    user_id: UserId,
    chan_name: String,
    finding: JoinByNameAction,
    chan: Result<i64, String>,
    found: JoinByNameAction,
    joined: Result<(), DbError>,
    returned: JoinByNameAction,
)
    requires
        call_ensures(
            DBApplication::add_user_channel_by_name,
            (JoinByNameEvent::Begin { user_id, chan_name },),
            finding,
        ),
        call_ensures(
            DBApplication::add_user_channel_by_name,
            (JoinByNameEvent::Found { user_id, chan },),
            found,
        ),
        call_ensures(
            DBApplication::add_user_channel_by_name,
            (JoinByNameEvent::Joined(joined),),
            returned,
        ),
    ensures
        finding matches JoinByNameAction::Find { user_id: u, chan_name: name } && u == user_id
            && name == chan_name,
        match chan {
            Ok(id) => found matches JoinByNameAction::Join { user_id: u, chan_id } && u == user_id
                && chan_id.0 == id,
            Err(text) => found matches JoinByNameAction::Return(Err(e)) && e.status == 500
                && e.message@ == "Failed to fetch channel\n"@ + text@,
        },
        match joined {
            Ok(_) => returned matches JoinByNameAction::Return(Ok(_)),
            Err(e) => returned == JoinByNameAction::Return(Err::<(), DbError>(e)),
        },
{
}

/// Whoever is to join a channel is stored as a member of it; then its members are listed,
/// and where that works, too, all is well.
pub proof fn law_joining_stores_a_member(
    user_id: UserId,
    chan_id: ChannelId,
    storing: JoinAction,
    inserted: Result<(), String>,
    listing: JoinAction,
    listed: Result<Vec<UserId>, DbError>,
    returned: JoinAction,
)
    requires
        call_ensures(
            DBApplication::add_user_channel,
            (JoinEvent::Begin { user_id, chan_id },),
            storing,
        ),
        call_ensures(
            DBApplication::add_user_channel,
            (JoinEvent::Inserted { chan_id, inserted },),
            listing,
        ),
        call_ensures(DBApplication::add_user_channel, (JoinEvent::Listed(listed),), returned),
    ensures
        storing matches JoinAction::Insert { user_id: u, chan_id: c } && u == user_id && c
            == chan_id,
        match inserted {
            Ok(_) => listing matches JoinAction::List { chan_id: c } && c == chan_id,
            Err(text) => listing matches JoinAction::Return(Err(e)) && e.status == 500 && e.message@
                == "Failed to insert user channel\n"@ + text@,
        },
        match listed {
            Ok(_) => returned matches JoinAction::Return(Ok(_)),
            Err(e) => returned == JoinAction::Return(Err::<(), DbError>(e)),
        },
{
}

// Users.

/// All users are listed as they are stored: as many, in that order, each with the id, the
/// name, the online status, the flair and the role of its row.
pub proof fn law_all_users_are_their_rows(
    rows: Result<Vec<DbUser>, String>,
    result: Result<Vec<User>, DbError>,
)
    requires
        call_ensures(DBApplication::get_all_users, (rows,), result),
    ensures
        match rows {
            Ok(rows) => result matches Ok(users) && users@.len() == rows@.len() && forall|i: int|
                0 <= i < rows@.len() ==> (#[trigger] users@[i]).online == rows@[i].online
                    && users@[i].id.0 == rows@[i].id && users@[i].username == rows@[i].username
                    && users@[i].flair == rows@[i].flair && users@[i].role == rows@[i].role,
            Err(text) => result matches Err(e) && e.status == 500 && e.message@
                == "failed to retrieve users\n"@ + text@,
        },
{
}

/// All users but one are listed as they are stored: as many, in that order, each with the
/// id, the name, the online status, the flair and the role of its row.
pub proof fn law_other_users_are_their_rows(
    rows: Result<Vec<DbUser>, String>,
    result: Result<Vec<User>, DbError>,
)
    requires
        call_ensures(DBApplication::get_other_users, (rows,), result),
    ensures
        match rows {
            Ok(rows) => result matches Ok(users) && users@.len() == rows@.len() && forall|i: int|
                0 <= i < rows@.len() ==> (#[trigger] users@[i]).online == rows@[i].online
                    && users@[i].id.0 == rows@[i].id && users@[i].username == rows@[i].username
                    && users@[i].flair == rows@[i].flair && users@[i].role == rows@[i].role,
            Err(text) => result matches Err(e) && e.status == 500 && e.message@
                == "failed to get users from db\n"@ + text@,
        },
{
}

/// A user who is looked for by name is shown as they are stored.
pub proof fn law_users_found_are_their_rows(
    row: Result<DbUser, String>,
    result: Result<User, DbError>,
)
    requires
        call_ensures(DBApplication::find_user_by_username, (row,), result),
    ensures
        match row {
            Ok(row) => result matches Ok(user) && user.id.0 == row.id && user.username
                == row.username && user.online == row.online && user.flair == row.flair && user.role
                == row.role,
            Err(text) => result matches Err(e) && e.status == 500 && e.message@
                == "failed to query db\n"@ + text@,
        },
{
}

/// Rows turn into what everyone sees field by field.
pub proof fn law_rows_are_shown_field_by_field<T>(
    user_row: DbUser,
    user: User,
    channel_row: DbChannel,
    channel: Channel,
    message_row: DbChatMessage<T>,
    message: Result<ChatMessage<T>, String>,
)
    requires
        call_ensures(<User as From<DbUser>>::from, (user_row,), user),
        call_ensures(<Channel as From<DbChannel>>::from, (channel_row,), channel),
        call_ensures(
            <ChatMessage<T> as TryFrom<DbChatMessage<T>>>::try_from,
            (message_row,),
            message,
        ),
    ensures
        user.id.0 == user_row.id,
        user.username == user_row.username,
        user.online == user_row.online,
        user.flair == user_row.flair,
        user.role == user_row.role,
        channel.id.0 == channel_row.id,
        channel.name == channel_row.name,
        channel.has_unread is None,
        match (message_row.to_, message_row.from_) {
            (Ok(to), Ok(from)) => message matches Ok(m) && m.id.0 == message_row.id && m.to == to
                && m.from == from && m.ts == message_row.ts && m.content == message_row.content,
            (Err(e), _) => message == Err::<ChatMessage<T>, String>(e),
            (Ok(_), Err(e)) => message == Err::<ChatMessage<T>, String>(e),
        },
{
}

/// Whether a status could be stored is told as it is.
pub proof fn law_statuses_stored_or_not(stored: Result<(), String>, result: Result<(), DbError>)
    requires
        call_ensures(DBApplication::set_online_status, (stored,), result),
    ensures
        match stored {
            Ok(_) => result is Ok,
            Err(text) => result matches Err(e) && e.status == 500 && e.message@
                == "failed to update online status\n"@ + text@,
        },
{
}

/// An error is written as its status, a colon and its message.
pub proof fn law_errors_are_told_in_one_line(error: DbError, text: String)
    requires
        100 <= error.status <= 999,
        call_ensures(DbError::to_text, (&error,), text),
    ensures
        text@ == crate::outside::status_text(error.status) + ": "@ + error.message@,
        error.status == 401 ==> text@ == "401 Unauthorized"@ + ": "@ + error.message@,
        error.status == 404 ==> text@ == "404 Not Found"@ + ": "@ + error.message@,
        error.status == 500 ==> text@ == "500 Internal Server Error"@ + ": "@ + error.message@,
{
}

// Logging in and registering.

/// A user who is found by name logs in if the password belongs to the hash stored for them.
/// They are then shown as they are stored, but online, and are marked as online before they
/// get in; where they cannot be marked the error is returned. A wrong password, a hash that
/// cannot be compared and a name that the store has nobody for are told apart by the status.
pub proof fn law_the_password_decides_who_logs_in(
    login: LoginMessage,
    row: DbUser,
    finding: LoginUserAction,
    checked: LoginUserAction,
    text: String,
    unknown: LoginUserAction,
    user: User,
    marked: Result<(), DbError>,
    returned: LoginUserAction,
)
    requires
        call_ensures(DBApplication::login_user, (LoginUserEvent::Begin(login),), finding),
        call_ensures(
            DBApplication::login_user,
            (LoginUserEvent::Found { login, row: Ok(row) },),
            checked,
        ),
        call_ensures(
            DBApplication::login_user,
            (LoginUserEvent::Found { login, row: Err(text) },),
            unknown,
        ),
        call_ensures(
            DBApplication::login_user,
            (LoginUserEvent::Marked { user, marked },),
            returned,
        ),
    ensures
        finding matches LoginUserAction::Find(asked) && asked.username == login.username
            && asked.password == login.password,
        match crate::outside::bcrypt_verification(login.password@, row.password_hash@) {
            Ok(right) => if right {
                checked matches LoginUserAction::MarkOnline(found) && found.id.0 == row.id
                    && found.username == row.username && found.online && found.flair == row.flair
                    && found.role == row.role
            } else {
                checked matches LoginUserAction::Return(Err(e)) && e.status == 401 && e.message@
                    == "Failed to authenticate user"@
            },
            Err(fault) => checked matches LoginUserAction::Return(Err(e)) && e.status == 500
                && e.message@ == "bcrypt failed to compare the password to its hash\n"@ + fault,
        },
        unknown matches LoginUserAction::Return(Err(e)) && e.status == 404 && e.message@
            == "no user found for username: "@ + login.username@ + "\n"@ + text@,
        match marked {
            Ok(_) => returned == LoginUserAction::Return(Ok::<User, DbError>(user)),
            Err(e) => returned == LoginUserAction::Return(Err::<User, DbError>(e)),
        },
{
}

/// What becomes of a user who was found is decided by the check of the password alone.
pub proof fn law_the_check_decides(
    row: DbUser,
    checked: Result<bool, String>,
    action: LoginUserAction,
)
    requires
        call_ensures(DBApplication::authenticate, (row, checked), action),
    ensures
        match checked {
            Ok(right) => if right {
                action matches LoginUserAction::MarkOnline(found) && found.id.0 == row.id
                    && found.username == row.username && found.online && found.flair == row.flair
                    && found.role == row.role
            } else {
                action matches LoginUserAction::Return(Err(e)) && e.status == 401 && e.message@
                    == "Failed to authenticate user"@
            },
            Err(text) => action matches LoginUserAction::Return(Err(e)) && e.status == 500
                && e.message@ == "bcrypt failed to compare the password to its hash\n"@ + text@,
        },
{
}

/// Those who are given the turtle.
pub open spec fn has_turtle(name: Seq<char>) -> bool {
    name == "ol_rusty_bastard"@ || name == "csk"@ || name == "realcsk"@ || name == "gfunchess"@
}

/// Those who are given the crab.
pub open spec fn has_crab(name: Seq<char>) -> bool {
    name == "cd-stephen"@
}

/// The flair is the one that the name calls for.
pub open spec fn right_flair(flair: Option<String>, name: Seq<char>) -> bool {
    match flair {
        Some(text) => (text@ == "🐢"@ && has_turtle(name)) || (text@ == "🦀"@ && has_crab(name)),
        None => !has_turtle(name) && !has_crab(name),
    }
}

/// The role is the one that the name calls for.
pub open spec fn right_role(role: Role, name: Seq<char>) -> bool {
    if has_turtle(name) || has_crab(name) || name == "Pixel_Outlaw"@ {
        role is Op
    } else {
        role is Member
    }
}

/// The row registers somebody under this name and with this hash: online, with the flair
/// and the role that the name calls for.
pub open spec fn registers(row: NewUser, name: String, hash: Seq<char>) -> bool {
    &&& row.username == name
    &&& row.password_hash@ == hash
    &&& row.online
    &&& right_flair(row.flair, name@)
    &&& right_role(row.role, name@)
}

/// Names call for their flairs and roles.
pub proof fn law_names_call_for_flairs_and_roles(
    name: String,
    flair: Option<String>,
    role: Role,
)
    requires
        call_ensures(crate::db::flair_for, (&name,), flair),
        call_ensures(crate::db::role_for, (&name,), role),
    ensures
        right_flair(flair, name@),
        right_role(role, name@),
        flair is Some ==> role is Op,
{
}

/// Once the hash is there the row to be stored is settled; without it there is none.
pub proof fn law_hashes_are_stored_as_they_are(
    login: LoginMessage,
    hashed: Result<String, String>,
    action: NewUserAction,
)
    requires
        call_ensures(DBApplication::register, (login, hashed), action),
    ensures
        match hashed {
            Ok(hash) => action matches NewUserAction::Insert(row) && registers(
                row,
                login.username,
                hash@,
            ),
            Err(text) => action matches NewUserAction::Abort(reason) && reason == text,
        },
{
}

/// The calls of one run of `new_user`.
pub open spec fn new_user_calls(events: Seq<NewUserEvent>, actions: Seq<NewUserAction>) -> bool {
    &&& events.len() == actions.len() > 0
    &&& events[0] is Begin
    &&& forall|i: int|
        0 <= i < events.len() ==> call_ensures(
            DBApplication::new_user,
            (#[trigger] events[i],),
            actions[i],
        )
    &&& forall|i: int|
        0 < i < events.len() ==> crate::laws::new_user_answers(actions[i - 1], #[trigger] events[i])
}

/// A run of `new_user` first asks for a row to be stored: the name that was given, a hash
/// that the password given belongs to, online, and with the flair and the role of the name.
/// It gives up instead only where the system has no random bytes for the hash.
///
/// Once the row is stored, the user is shown with the id that the store gave, with the name
/// and the flair of the row, online, and as a member, whatever role they are stored with.
/// They join the channel "general", and once they have joined it is they who are returned.
/// Where the row cannot be stored or the channel not joined, the error is returned.
pub proof fn law_new_users_are_shown_as_members(
    events: Seq<NewUserEvent>,
    actions: Seq<NewUserAction>,
    login: LoginMessage,
)
    requires
        new_user_calls(events, actions),
        events[0] == NewUserEvent::Begin(login),
    ensures
        match actions[0] {
            NewUserAction::Insert(row) => registers(row, login.username, row.password_hash@)
                && row.password_hash@.len() == 60 && row.password_hash@.take(7) == "$2b$04$"@
                && crate::outside::bcrypt_verification(login.password@, row.password_hash@) == Ok::<
                bool,
                Seq<char>,
            >(true),
            NewUserAction::Abort(text) => text@.len() >= 5 && text@.take(5) == "Rand("@
                && events.len() == 1,
            _ => false,
        },
        events.len() > 1 ==> (actions[0] matches NewUserAction::Insert(row) && (events[1]
            matches NewUserEvent::Inserted { row: stored, id } && stored == row && match id {
            Ok(id) => actions[1] matches NewUserAction::Join { user, chan_name } && user.id.0 == id
                && user.username == login.username && user.online && user.flair == row.flair
                && user.role is Member && chan_name@ == "general"@ && (events.len() > 2 ==> (
            events[2] matches NewUserEvent::Joined { user: u, joined } && u == user && match joined {
                Ok(_) => actions[2] == NewUserAction::Return(Ok::<User, DbError>(user)),
                Err(e) => actions[2] == NewUserAction::Return(Err::<User, DbError>(e)),
            } && events.len() == 3)),
            Err(text) => events.len() == 2 && (actions[1] matches NewUserAction::Return(Err(e))
                && e.status == 500 && e.message@ == "failed to insert new user into the database\n"@
                + text@),
        })),
        actions.last() matches NewUserAction::Return(Ok(user)) ==> user.role is Member
            && user.online && user.username == login.username && right_flair(
            user.flair,
            login.username@,
        ),
{
    let n = events.len() as int;
    assert(call_ensures(DBApplication::new_user, (events[0],), actions[0]));
    if n > 1 {
        assert(crate::laws::new_user_answers(actions[0], events[1]));
        assert(call_ensures(DBApplication::new_user, (events[1],), actions[1]));
    }
    if n > 2 {
        assert(crate::laws::new_user_answers(actions[1], events[2]));
        assert(call_ensures(DBApplication::new_user, (events[2],), actions[2]));
    }
    if n > 3 {
        assert(crate::laws::new_user_answers(actions[2], events[3]));
    }
}

/// Whatever row was stored, its user is shown with the id that the store gave, with the name
/// and the flair of the row, online, and as a member; and they are to join the channel
/// "general". Whoever has joined is returned as they are.
pub proof fn law_every_stored_user_is_shown_as_a_member(
    row: NewUser,
    id: Result<i64, String>,
    shown: NewUserAction,
    user: User,
    joined: Result<(), DbError>,
    returned: NewUserAction,
)
    requires
        call_ensures(DBApplication::new_user, (NewUserEvent::Inserted { row, id },), shown),
        call_ensures(DBApplication::new_user, (NewUserEvent::Joined { user, joined },), returned),
    ensures
        match id {
            Ok(id) => shown matches NewUserAction::Join { user: u, chan_name } && u.role is Member
                && u.id.0 == id && u.username == row.username && u.online && u.flair == row.flair
                && chan_name@ == "general"@,
            Err(text) => shown matches NewUserAction::Return(Err(e)) && e.status == 500
                && e.message@ == "failed to insert new user into the database\n"@ + text@,
        },
        match joined {
            Ok(_) => returned == NewUserAction::Return(Ok::<User, DbError>(user)),
            Err(e) => returned == NewUserAction::Return(Err::<User, DbError>(e)),
        },
{
}

/// Two registrations under one name differ in nothing but the hash, and both hashes belong
/// to their own passwords; and whatever role a user was stored with, they are shown alike.
pub proof fn law_registrations_under_one_name_are_alike(
    one: LoginMessage,
    other: LoginMessage,
    one_row: NewUser,
    other_row: NewUser,
    role: Role,
    id: i64,
    one_shown: NewUserAction,
    other_shown: NewUserAction,
)
    requires
        one.username == other.username,
        call_ensures(
            DBApplication::new_user,
            (NewUserEvent::Begin(one),),
            NewUserAction::Insert(one_row),
        ),
        call_ensures(
            DBApplication::new_user,
            (NewUserEvent::Begin(other),),
            NewUserAction::Insert(other_row),
        ),
        call_ensures(
            DBApplication::new_user,
            (NewUserEvent::Inserted { row: one_row, id: Ok(id) },),
            one_shown,
        ),
        call_ensures(
            DBApplication::new_user,
            (
                NewUserEvent::Inserted { row: NewUser { role, ..one_row }, id: Ok(id) },
            ),
            other_shown,
        ),
    ensures
        one_row.username == other_row.username,
        one_row.online == other_row.online,
        one_row.role == other_row.role,
        one_row.flair is Some <==> other_row.flair is Some,
        one_row.flair is Some ==> one_row.flair->Some_0@ == other_row.flair->Some_0@,
        one_shown matches NewUserAction::Join { user: u, chan_name: c } && (other_shown
            matches NewUserAction::Join { user: v, chan_name: d } && u == v && c@ == d@),
{
}

/// A client that has sent credentials is let in as the user that the store gives for them,
/// whether that user was there or is new. Credentials that the store has nobody for create
/// a user; a wrong password and every fault are told to the client in so many words, and it
/// is asked again. What cannot be made out is passed over. A client that leaves is let go.
pub proof fn law_every_login_attempt_is_answered(
    login: LoginMessage,
    result: Result<User, DbError>,
    created: Result<User, DbError>,
    user: User,
    at_first: LoginAction,
    on_credentials: LoginAction,
    on_garbage: LoginAction,
    on_leaving: LoginAction,
    on_result: LoginAction,
    on_creation: LoginAction,
    on_refusal: LoginAction,
    on_welcome: LoginAction,
    on_close: LoginAction,
)
    requires
        call_ensures(crate::handlers::login, (LoginEvent::Begin,), at_first),
        call_ensures(
            crate::handlers::login,
            (LoginEvent::Received(Incoming::Login(login)),),
            on_credentials,
        ),
        call_ensures(
            crate::handlers::login,
            (LoginEvent::Received(Incoming::Broken),),
            on_garbage,
        ),
        call_ensures(crate::handlers::login, (LoginEvent::Received(Incoming::End),), on_leaving),
        call_ensures(crate::handlers::login, (LoginEvent::LoggedIn { login, result },), on_result),
        call_ensures(crate::handlers::login, (LoginEvent::Created(created),), on_creation),
        call_ensures(crate::handlers::login, (LoginEvent::Refused,), on_refusal),
        call_ensures(crate::handlers::login, (LoginEvent::Welcomed(user),), on_welcome),
        call_ensures(crate::handlers::login, (LoginEvent::Closed,), on_close),
    ensures
        at_first is Receive,
        on_credentials matches LoginAction::LogIn(asked) && asked == login,
        on_garbage is Receive,
        on_leaving is Close,
        match result {
            Ok(known) => on_result == LoginAction::Welcome(known),
            Err(e) => if e.status == 404 {
                on_result == LoginAction::Create(login)
            } else if e.status == 401 {
                tells(on_result, "wrong password"@)
            } else if e.status == 500 {
                tells(on_result, "Internal Server Error: failed to fetch user"@)
            } else {
                on_result is Receive
            },
        },
        match created {
            Ok(fresh) => on_creation == LoginAction::Welcome(fresh),
            Err(_) => tells(on_creation, "Internal Server Error: failed to create new user"@),
        },
        on_refusal is Receive,
        on_welcome == LoginAction::Return(Some(user)),
        on_close == LoginAction::Return(None::<User>),
{
}

/// The client is sent a refusal with these words.
pub open spec fn tells(action: LoginAction, words: Seq<char>) -> bool {
    action matches LoginAction::Refuse(ServerMessage::LoginFail { reason }) && reason@ == words
}

/// A refusal holds the words that it is to hold.
pub proof fn law_refusals_say_what_they_are_to_say(words: &str, fail: ServerMessage)
    requires
        call_ensures(crate::handlers::send_login_fail, (words,), fail),
    ensures
        fail matches ServerMessage::LoginFail { reason } && reason@ == words@,
{
}

/// The right password lets a stored user in: they are found, marked as online, welcomed,
/// and become the user of the connection, as they are stored but online.
pub proof fn law_the_right_password_lets_in(
    login: LoginMessage,
    row: DbUser,
    checked: LoginUserAction,
    user: User,
    returned: LoginUserAction,
    result: Result<User, DbError>,
    welcomed: LoginAction,
    done: LoginAction,
)
    requires
        crate::outside::bcrypt_verification(login.password@, row.password_hash@) == Ok::<
            bool,
            Seq<char>,
        >(true),
        call_ensures(
            DBApplication::login_user,
            (LoginUserEvent::Found { login, row: Ok(row) },),
            checked,
        ),
        checked matches LoginUserAction::MarkOnline(found) ==> found == user,
        call_ensures(
            DBApplication::login_user,
            (LoginUserEvent::Marked { user, marked: Ok(()) },),
            returned,
        ),
        returned matches LoginUserAction::Return(r) ==> r == result,
        call_ensures(crate::handlers::login, (LoginEvent::LoggedIn { login, result },), welcomed),
        call_ensures(crate::handlers::login, (LoginEvent::Welcomed(user),), done),
    ensures
        checked is MarkOnline,
        returned is Return,
        result == Ok::<User, DbError>(user),
        welcomed == LoginAction::Welcome(user),
        done == LoginAction::Return(Some(user)),
        user.id.0 == row.id,
        user.username == row.username,
        user.online,
        user.flair == row.flair,
        user.role == row.role,
{
}

/// A new user is told to everybody else who is connected, each of them once, and is then
/// greeted with their own id, all users and all channels, as they were read and in this
/// order.
pub proof fn law_arrivals_are_announced_and_greeted<A, T>(
    user: User,
    peers: PeerMap<A, T>,
    announced: WelcomeAction,
    id: UserId,
    users: Vec<User>,
    channels: Vec<Channel>,
    greeted: WelcomeAction,
)
    requires
        call_ensures(
            crate::handlers::handle_login_success::<A, T>,
            (WelcomeEvent::Begin(user), &peers),
            announced,
        ),
        call_ensures(
            crate::handlers::handle_login_success::<A, T>,
            (WelcomeEvent::Listed { id, users, channels }, &peers),
            greeted,
        ),
    ensures
        announced matches WelcomeAction::Announce { to, message, id } && message
            == (ServerMessage::UserJoined { user }) && id == user.id && to@.no_duplicates()
            && forall|other: UserId| #[trigger]
            to@.contains(other) <==> peers@.contains_key(other.0) && other.0 != user.id.0,
        greeted matches WelcomeAction::Greet(messages) && messages@.len() == 3 && messages@[0] == (
        ServerMessage::LoginSuccess { id }) && messages@[1] == (ServerMessage::UsersInfo { users })
            && messages@[2] == (ServerMessage::ChannelsInfo { channels }),
{
    if announced is Announce {
        let to = announced->to;
        assert forall|other: UserId| #[trigger] to@.contains(other) <==> peers@.contains_key(
            other.0,
        ) && other.0 != user.id.0 by {
            assert(other != user.id <==> other.0 != user.id.0);
        }
    }
}

// Making the store ready.

/// The store is made ready in this order, one step after the other: users, channels,
/// memberships, messages, and then the general channel. Whatever fails first is returned.
pub proof fn law_the_store_is_made_ready_in_order<E>(
    first: InitAction<E>,
    after_users: InitAction<E>,
    after_channels: InitAction<E>,
    after_memberships: InitAction<E>,
    after_messages: InitAction<E>,
    general: Result<(), E>,
    after_general: InitAction<E>,
    table: Table,
    error: E,
    failed: InitAction<E>,
)
    requires
        call_ensures(DBApplication::init::<E>, (InitEvent::<E>::Begin,), first),
        call_ensures(
            DBApplication::init::<E>,
            (InitEvent::Made(Table::Users, Ok::<(), E>(())),),
            after_users,
        ),
        call_ensures(
            DBApplication::init::<E>,
            (InitEvent::Made(Table::Channels, Ok::<(), E>(())),),
            after_channels,
        ),
        call_ensures(
            DBApplication::init::<E>,
            (InitEvent::Made(Table::UserChannels, Ok::<(), E>(())),),
            after_memberships,
        ),
        call_ensures(
            DBApplication::init::<E>,
            (InitEvent::Made(Table::Messages, Ok::<(), E>(())),),
            after_messages,
        ),
        call_ensures(DBApplication::init::<E>, (InitEvent::General(general),), after_general),
        call_ensures(
            DBApplication::init::<E>,
            (InitEvent::Made(table, Err::<(), E>(error)),),
            failed,
        ),
    ensures
        first == InitAction::<E>::Make(Table::Users),
        after_users == InitAction::<E>::Make(Table::Channels),
        after_channels == InitAction::<E>::Make(Table::UserChannels),
        after_memberships == InitAction::<E>::Make(Table::Messages),
        after_messages is MakeGeneral,
        after_general == InitAction::Return(general),
        failed == InitAction::Return(Err::<(), E>(error)),
{
}

/// Where the store has no channel named "general" one of that name is stored, and where it
/// has any none is.
pub proof fn law_the_general_channel_is_seen_to<E>(
    first: GeneralAction<E>,
    ids: Vec<i64>,
    found: GeneralAction<E>,
    error: E,
    failed: GeneralAction<E>,
    inserted: Result<(), E>,
    done: GeneralAction<E>,
)
    requires
        call_ensures(
            DBApplication::init_general_channel::<E>,
            (GeneralEvent::<E>::Begin,),
            first,
        ),
        call_ensures(
            DBApplication::init_general_channel::<E>,
            (GeneralEvent::Found(Ok::<Vec<i64>, E>(ids)),),
            found,
        ),
        call_ensures(
            DBApplication::init_general_channel::<E>,
            (GeneralEvent::Found(Err::<Vec<i64>, E>(error)),),
            failed,
        ),
        call_ensures(
            DBApplication::init_general_channel::<E>,
            (GeneralEvent::Inserted(inserted),),
            done,
        ),
    ensures
        first matches GeneralAction::Find { name } && name@ == "general"@,
        ids@.len() == 0 ==> (found matches GeneralAction::Insert { name } && name@ == "general"@),
        ids@.len() > 0 ==> (found matches GeneralAction::Return(Ok(_))),
        failed == GeneralAction::Return(Err::<(), E>(error)),
        done == GeneralAction::Return(inserted),
{
}

// Connections.

/// A logged-in client that asks for a channel gets one, a message that it wants sent is
/// sent, and a ping is answered with a ping; each with what the client sent along. Nothing
/// else that comes in, and no failure to do what was asked for, is answered or ends the
/// service: the next thing is waited for. It ends when nothing will come in again.
pub proof fn law_clients_are_served<V>(
    type_: String,
    value: V,
    received: ServeAction<V>,
    told: ClientAction,
    begun: ServeAction<V>,
    broken: ServeAction<V>,
    outcome: Result<(), ServeError>,
    handled: ServeAction<V>,
    ended: ServeAction<V>,
)
    requires
        call_ensures(
            crate::session::serve::<V>,
            (ServeEvent::Received { type_, value },),
            received,
        ),
        call_ensures(crate::session::handle_client_message, (&type_,), told),
        call_ensures(crate::session::serve::<V>, (ServeEvent::<V>::Begin,), begun),
        call_ensures(crate::session::serve::<V>, (ServeEvent::<V>::Broken,), broken),
        call_ensures(crate::session::serve::<V>, (ServeEvent::<V>::Handled(outcome),), handled),
        call_ensures(crate::session::serve::<V>, (ServeEvent::<V>::End,), ended),
    ensures
        type_@ == "CreateChannel"@ <==> received == ServeAction::CreateChannel(value),
        type_@ == "SendChatMessage"@ <==> received == ServeAction::SendChatMessage(value),
        type_@ == "Ping"@ <==> received == ServeAction::<V>::Reply(ServerMessage::Ping),
        type_@ != "CreateChannel"@ && type_@ != "SendChatMessage"@ && type_@ != "Ping"@
            <==> received is Receive,
        received is CreateChannel <==> told is CreateChannel,
        received is SendChatMessage <==> told is SendChatMessage,
        received is Reply <==> told == ClientAction::Reply(ServerMessage::Ping),
        received is Receive <==> told is Ignore,
        begun is Receive,
        broken is Receive,
        handled is Receive,
        ended is Return,
{
    reveal_strlit("CreateChannel");
    reveal_strlit("SendChatMessage");
    reveal_strlit("Ping");
    assert("CreateChannel"@.len() == 13 && "SendChatMessage"@.len() == 15 && "Ping"@.len() == 4);
}

/// A user who has logged in is reported to the core server and then put on file under
/// their own id, with their connection and in place of an earlier one; everybody else stays
/// as they are. Then they are served. Whoever did not get in leaves no trace.
pub proof fn law_users_are_filed_and_served<A, T>(
    user: User,
    at_login: &mut PeerMap<A, T>,
    on_login: SessionAction,
    at_failure: &mut PeerMap<A, T>,
    on_failure: SessionAction,
    conn: Connection<A, T>,
    at_filing: &mut PeerMap<A, T>,
    on_filing: SessionAction,
)
    requires
        call_ensures(
            crate::session::handle_connection::<A, T>,
            (SessionEvent::LoggedIn(Some(user)), at_login),
            on_login,
        ),
        call_ensures(
            crate::session::handle_connection::<A, T>,
            (SessionEvent::LoggedIn(None), at_failure),
            on_failure,
        ),
        call_ensures(
            crate::session::handle_connection::<A, T>,
            (SessionEvent::Announced(conn), at_filing),
            on_filing,
        ),
    ensures
        on_login == (SessionAction::Announce {
            message: ServerMessage::ServerUserJoined { user_id: user.id },
            user,
        }),
        final(at_login)@ == old(at_login)@,
        on_failure is Return,
        final(at_failure)@ == old(at_failure)@,
        on_filing == SessionAction::Serve(conn.user.id),
        final(at_filing)@.contains_key(conn.user.id.0),
        final(at_filing)@[conn.user.id.0] == conn,
        forall|key: i64|
            key != conn.user.id.0 ==> (#[trigger] final(at_filing)@.contains_key(key) <==> old(at_filing)@.contains_key(key)) && (old(at_filing)@.contains_key(key) ==> final(at_filing)@[key]
                == old(at_filing)@[key]),
{
}

/// When a connection is over its user is marked as offline, the news is written out and
/// they are taken off file, and nobody else is. Everybody who is still on file, each of them
/// once, is sent the news, and the core server is told as well. Where the news cannot be
/// written out, the core server alone is told.
pub proof fn law_users_who_leave_are_cleaned_up<A, T>(
    user_id: UserId,
    at_end: &mut PeerMap<A, T>,
    on_end: SessionAction,
    at_mark: &mut PeerMap<A, T>,
    on_mark: SessionAction,
    text: String,
    at_news: &mut PeerMap<A, T>,
    on_news: SessionAction,
    fault: String,
    at_fault: &mut PeerMap<A, T>,
    on_fault: SessionAction,
    at_broadcast: &mut PeerMap<A, T>,
    on_broadcast: SessionAction,
    at_leave: &mut PeerMap<A, T>,
    on_leave: SessionAction,
)
    requires
        call_ensures(
            crate::session::handle_connection::<A, T>,
            (SessionEvent::Ended(user_id), at_end),
            on_end,
        ),
        call_ensures(
            crate::session::handle_connection::<A, T>,
            (SessionEvent::Marked(user_id), at_mark),
            on_mark,
        ),
        call_ensures(
            crate::session::handle_connection::<A, T>,
            (SessionEvent::Encoded { user_id, text: Ok(text) }, at_news),
            on_news,
        ),
        call_ensures(
            crate::session::handle_connection::<A, T>,
            (SessionEvent::Encoded { user_id, text: Err(fault) }, at_fault),
            on_fault,
        ),
        call_ensures(
            crate::session::handle_connection::<A, T>,
            (SessionEvent::Broadcasted(user_id), at_broadcast),
            on_broadcast,
        ),
        call_ensures(
            crate::session::handle_connection::<A, T>,
            (SessionEvent::Left, at_leave),
            on_leave,
        ),
    ensures
        on_end == SessionAction::MarkOffline(user_id),
        final(at_end)@ == old(at_end)@,
        on_mark == (SessionAction::Encode {
            message: ServerMessage::UserLeft { id: user_id },
            user_id,
        }),
        final(at_mark)@ == old(at_mark)@,
        !final(at_news)@.contains_key(user_id.0),
        forall|key: i64|
            key != user_id.0 ==> (#[trigger] final(at_news)@.contains_key(key) <==> old(at_news)@.contains_key(key)) && (old(at_news)@.contains_key(key) ==> final(at_news)@[key]
                == old(at_news)@[key]),
        on_news matches SessionAction::Broadcast { to, text: sent, user_id: gone } && sent == text
            && gone == user_id && to@.no_duplicates() && forall|other: UserId| #[trigger]
            to@.contains(other) <==> final(at_news)@.contains_key(other.0),
        on_fault == SessionAction::Leave(ServerMessage::ServerUserLeft { user_id }),
        final(at_fault)@ == old(at_fault)@,
        on_broadcast == SessionAction::Leave(ServerMessage::ServerUserLeft { user_id }),
        final(at_broadcast)@ == old(at_broadcast)@,
        on_leave is Return,
        final(at_leave)@ == old(at_leave)@,
{
    if on_news is Broadcast {
        let to = on_news->to;
        assert forall|other: UserId| #[trigger] to@.contains(other) <==> final(at_news)@.contains_key(other.0) by {
            assert(other != user_id <==> other.0 != user_id.0);
        }
    }
}

/// The file of connections keeps for every user the connection that was put in last, until
/// it is taken out, whatever happens to other users.
pub proof fn law_connections_are_kept<A, T>(
    fresh: PeerMap<A, T>,
    conn: Connection<A, T>,
    put: &mut PeerMap<A, T>,
    gone: UserId,
    taken: &mut PeerMap<A, T>,
    peers: PeerMap<A, T>,
    user: UserId,
    got: Option<&Connection<A, T>>,
    has: bool,
)
    requires
        call_ensures(PeerMap::<A, T>::new, (), fresh),
        call_ensures(PeerMap::<A, T>::insert, (put, conn), ()),
        call_ensures(PeerMap::<A, T>::remove, (taken, gone), ()),
        call_ensures(PeerMap::<A, T>::get, (&peers, user), got),
        call_ensures(PeerMap::<A, T>::contains, (&peers, user), has),
    ensures
        forall|key: i64| !#[trigger] fresh@.contains_key(key),
        final(put)@.contains_key(conn.user.id.0) && final(put)@[conn.user.id.0] == conn,
        forall|key: i64|
            key != conn.user.id.0 ==> (#[trigger] final(put)@.contains_key(key) <==> old(put)@.contains_key(key)) && (old(put)@.contains_key(key) ==> final(put)@[key] == old(put)@[key]),
        !final(taken)@.contains_key(gone.0),
        forall|key: i64|
            key != gone.0 ==> (#[trigger] final(taken)@.contains_key(key) <==> old(taken)@.contains_key(key)) && (old(taken)@.contains_key(key) ==> final(taken)@[key] == old(taken)@[key]),
        got is Some <==> peers@.contains_key(user.0),
        got matches Some(found) ==> *found == peers@[user.0],
        has <==> got is Some,
{
}

/// Of the users on file, all, all but one, or those of a list are told, each of them once;
/// and of a list those who are not on file, as they stand there.
pub proof fn law_users_on_file_are_told_apart<A, T>(
    peers: PeerMap<A, T>,
    users: Vec<UserId>,
    user: UserId,
    all: Vec<UserId>,
    others: Vec<UserId>,
    among: Vec<UserId>,
    absent: Vec<UserId>,
    found: bool,
)
    requires
        call_ensures(PeerMap::<A, T>::user_ids, (&peers,), all),
        call_ensures(PeerMap::<A, T>::user_ids_except, (&peers, user), others),
        call_ensures(PeerMap::<A, T>::user_ids_among, (&peers, &users), among),
        call_ensures(PeerMap::<A, T>::absent_among, (&peers, &users), absent),
        call_ensures(crate::connection::holds, (&users, user), found),
    ensures
        all@.no_duplicates(),
        others@.no_duplicates(),
        among@.no_duplicates(),
        forall|other: UserId| #[trigger]
            all@.contains(other) <==> peers@.contains_key(other.0),
        forall|other: UserId| #[trigger]
            others@.contains(other) <==> peers@.contains_key(other.0) && other.0 != user.0,
        forall|other: UserId| #[trigger]
            among@.contains(other) <==> peers@.contains_key(other.0) && users@.contains(other),
        absent@ == users@.filter(|other: UserId| !peers@.contains_key(other.0)),
        found <==> users@.contains(user),
{
    assert((|other: UserId| !peers@.contains_key(other.0)) =~= (|other: UserId|
        !peers.connected(other)));
}

// The core server.

/// Signs of life go to the core server once in a minute.
pub proof fn law_signs_of_life_come_every_minute(
    first: PingAction,
    sent: PingAction,
    slept: PingAction,
)
    requires
        call_ensures(crate::core_link::loop_ping_core, (PingEvent::Begin,), first),
        call_ensures(crate::core_link::loop_ping_core, (PingEvent::Sent,), sent),
        call_ensures(crate::core_link::loop_ping_core, (PingEvent::Slept,), slept),
    ensures
        first == PingAction::Send(ServerMessage::Ping),
        sent == PingAction::Sleep(60),
        slept == PingAction::Send(ServerMessage::Ping),
{
}

/// The core server is on this machine in development, and else where it is in production.
pub proof fn law_the_core_server_is_where_it_is(
    local_dev: bool,
    url: Result<String, String>,
)
    requires
        call_ensures(crate::core_link::core_url, (local_dev,), url),
    ensures
        url is Ok,
        local_dev ==> url->Ok_0@ == "ws://localhost:8000/"@,
        !local_dev ==> url->Ok_0@ == "wss://tc-core.level9turtles.com/"@,
{
}

/// A message to be forwarded that comes from the core server is read and written out, and
/// goes to those of its recipients who are connected, each of them once, even if there is
/// but one. Nothing else that comes in does anything, and no fault ends it: the next thing is
/// waited for. It ends when nothing will come in again.
pub proof fn law_forwards_reach_their_recipients<A, T>(
    peers: PeerMap<A, T>,
    begun: ListenAction,
    type_: String,
    received: ListenAction,
    broken: ListenAction,
    ended: ListenAction,
    read: Result<Vec<UserId>, String>,
    on_read: ListenAction,
    user_ids: Vec<UserId>,
    text: Result<String, String>,
    on_text: ListenAction,
    delivered: ListenAction,
)
    requires
        call_ensures(
            crate::core_link::listen_to_core::<A, T>,
            (ListenEvent::Begin, &peers),
            begun,
        ),
        call_ensures(
            crate::core_link::listen_to_core::<A, T>,
            (ListenEvent::Received { type_ }, &peers),
            received,
        ),
        call_ensures(
            crate::core_link::listen_to_core::<A, T>,
            (ListenEvent::Broken, &peers),
            broken,
        ),
        call_ensures(crate::core_link::listen_to_core::<A, T>, (ListenEvent::End, &peers), ended),
        call_ensures(
            crate::core_link::listen_to_core::<A, T>,
            (ListenEvent::Read(read), &peers),
            on_read,
        ),
        call_ensures(
            crate::core_link::listen_to_core::<A, T>,
            (ListenEvent::Encoded { user_ids, text }, &peers),
            on_text,
        ),
        call_ensures(
            crate::core_link::listen_to_core::<A, T>,
            (ListenEvent::Delivered, &peers),
            delivered,
        ),
    ensures
        begun is Receive,
        type_@ == "ForwardMessage"@ ==> received is ReadForward,
        type_@ != "ForwardMessage"@ ==> received is Receive,
        broken is Receive,
        ended is Return,
        match read {
            Ok(ids) => on_read == (ListenAction::Encode { user_ids: ids }),
            Err(_) => on_read is Receive,
        },
        match text {
            Ok(text) => on_text matches ListenAction::Deliver { to, text: sent } && sent == text
                && to@.no_duplicates() && forall|user: UserId| #[trigger]
                to@.contains(user) <==> user_ids@.contains(user) && peers@.contains_key(user.0),
            Err(_) => on_text is Receive,
        },
        delivered is Receive,
{
}

/// The link to the core server is made anew whenever it is lost, with a pause of one second
/// after every failure and every link that was lost, but for the first. Every new link
/// starts with the users who are connected, each of them once, as that was written out.
pub proof fn law_lost_links_are_made_anew<A, T>(
    peers: PeerMap<A, T>,
    begun: ReconnectAction,
    first_lost: ReconnectAction,
    connected: ReconnectAction,
    failed: ReconnectAction,
    text: Result<String, String>,
    written: ReconnectAction,
    lost: ReconnectAction,
    slept: ReconnectAction,
)
    requires
        call_ensures(
            crate::core_link::listen_with_reconnect::<A, T>,
            (ReconnectEvent::Begin, &peers),
            begun,
        ),
        call_ensures(
            crate::core_link::listen_with_reconnect::<A, T>,
            (ReconnectEvent::FirstLost, &peers),
            first_lost,
        ),
        call_ensures(
            crate::core_link::listen_with_reconnect::<A, T>,
            (ReconnectEvent::Connected, &peers),
            connected,
        ),
        call_ensures(
            crate::core_link::listen_with_reconnect::<A, T>,
            (ReconnectEvent::Failed, &peers),
            failed,
        ),
        call_ensures(
            crate::core_link::listen_with_reconnect::<A, T>,
            (ReconnectEvent::Encoded(text), &peers),
            written,
        ),
        call_ensures(
            crate::core_link::listen_with_reconnect::<A, T>,
            (ReconnectEvent::Lost, &peers),
            lost,
        ),
        call_ensures(
            crate::core_link::listen_with_reconnect::<A, T>,
            (ReconnectEvent::Slept, &peers),
            slept,
        ),
    ensures
        begun is ListenFirst,
        first_lost is Connect,
        connected matches ReconnectAction::Encode(ServerMessage::ServerUsers { user_ids })
            && user_ids@.no_duplicates() && forall|user: UserId| #[trigger]
            user_ids@.contains(user) <==> peers@.contains_key(user.0),
        failed == ReconnectAction::Sleep(1),
        match text {
            Ok(text) => written == ReconnectAction::SendAndListen(text),
            Err(_) => written == ReconnectAction::Sleep(1),
        },
        lost == ReconnectAction::Sleep(1),
        slept is Connect,
{
}

} // verus!
