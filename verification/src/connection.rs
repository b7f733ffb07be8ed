//! The users who are connected to this server.
use crate::protocol::{User, UserId};
use std::collections::HashMap;
use vstd::prelude::*;
use vstd::std_specs::iter::IteratorSpec;

verus! {

broadcast use vstd::std_specs::hash::group_hash_axioms;

/// One logged-in client: where it connects from, the handle through which it is
/// sent messages, and who it is.
#[derive(Clone, Debug)]
pub struct Connection<A, T> {
    pub addr: A,
    pub tx: T,
    pub user: User,
}

/// The connections of this server, at most one for each user.
pub struct PeerMap<A, T> {
    connections: HashMap<i64, Connection<A, T>>,
}

/// `ids` holds the users of `who`, each of them once, and nobody else.
pub open spec fn lists(ids: Seq<UserId>, who: spec_fn(UserId) -> bool) -> bool {
    &&& ids.no_duplicates()
    &&& forall|user: UserId| #[trigger] ids.contains(user) <==> who(user)
}

impl<A, T> View for PeerMap<A, T> {
    type V = Map<i64, Connection<A, T>>;

    closed spec fn view(&self) -> Map<i64, Connection<A, T>> {
        self.connections@
    }
}

impl<A, T> PeerMap<A, T> {
    /// The user has a connection here.
    pub open spec fn connected(&self, user: UserId) -> bool {
        self@.contains_key(user.0)
    }

    /// Every connection is filed under the user who holds it.
    pub open spec fn well_formed(&self) -> bool {
        forall|key: i64| #[trigger]
            self@.contains_key(key) ==> self@[key].user.id == UserId(key)
    }

    /// Nobody is connected yet.
    pub fn new() -> (peers: Self)
        ensures
            peers@ == Map::<i64, Connection<A, T>>::empty(),
            peers.well_formed(),
    {
        PeerMap { connections: HashMap::new() }
    }

    /// Files a connection under its user. An earlier connection of that user is
    /// replaced.
    pub fn insert(&mut self, conn: Connection<A, T>)
        ensures
            final(self)@ == old(self)@.insert(conn.user.id.0, conn),
            old(self).well_formed() ==> final(self).well_formed(),
    {
        self.connections.insert(conn.user.id.0, conn);
    }

    /// Forgets the connection of a user, if there is one.
    pub fn remove(&mut self, user: UserId)
        ensures
            final(self)@ == old(self)@.remove(user.0),
            old(self).well_formed() ==> final(self).well_formed(),
    {
        self.connections.remove(&user.0);
    }

    /// The connection of a user.
    pub fn get(&self, user: UserId) -> (conn: Option<&Connection<A, T>>)
        ensures
            match conn {
                Some(found) => self.connected(user) && *found == self@[user.0],
                None => !self.connected(user),
            },
    {
        self.connections.get(&user.0)
    }

    /// Whether a user has a connection here.
    pub fn contains(&self, user: UserId) -> (found: bool)
        ensures
            found == self.connected(user),
    {
        self.connections.contains_key(&user.0)
    }

    /// Everyone who is connected, in no particular order.
    pub fn user_ids(&self) -> (ids: Vec<UserId>)
        ensures
            lists(ids@, |user: UserId| self.connected(user)),
    {
        let mut ids: Vec<UserId> = Vec::new();
        let ghost keys: Seq<&i64> = vstd::std_specs::hash::spec_keys_iter(
            &self.connections,
        ).remaining();
        for key in it: self.connections.keys()
            invariant
                it.seq() == keys,
                ids@.len() == it.index(),
                forall|i: int| 0 <= i < ids@.len() ==> #[trigger] ids@[i] == UserId(*keys[i]),
        {
            ids.push(UserId(*key));
        }
        proof {
            assert forall|user: UserId| #[trigger] ids@.contains(user) <==> self.connected(user) by {
                if ids@.contains(user) {
                    let i = choose|i: int| 0 <= i < ids@.len() && ids@[i] == user;
                    assert(keys.unref()[i] == user.0);
                    assert(keys.unref().to_set().contains(user.0));
                }
                if self.connected(user) {
                    assert(keys.unref().to_set().contains(user.0));
                    let i = choose|i: int| 0 <= i < keys.len() && keys.unref()[i] == user.0;
                    assert(ids@[i] == user);
                }
            }
        }
        ids
    }

    /// Everyone who is connected but `user`, in no particular order.
    pub fn user_ids_except(&self, user: UserId) -> (ids: Vec<UserId>)
        ensures
            lists(ids@, |other: UserId| self.connected(other) && other != user),
    {
        let all = self.user_ids();
        let mut ids: Vec<UserId> = Vec::new();
        for i in 0..all.len()
            invariant
                lists(all@, |other: UserId| self.connected(other)),
                lists(ids@, |other: UserId| all@.take(i as int).contains(other) && other != user),
        {
            let ghost before = ids@;
            if all[i] != user {
                ids.push(all[i]);
            }
            proof {
                lemma_select_next(all@, i as int, before, |other: UserId| other != user);
            }
        }
        assert(all@.take(all@.len() as int) =~= all@);
        ids
    }

    /// Those of `users` who are connected, each of them once and in no particular
    /// order.
    pub fn user_ids_among(&self, users: &Vec<UserId>) -> (ids: Vec<UserId>)
        ensures
            lists(ids@, |user: UserId| self.connected(user) && users@.contains(user)),
    {
        let all = self.user_ids();
        let mut ids: Vec<UserId> = Vec::new();
        for i in 0..all.len()
            invariant
                lists(all@, |user: UserId| self.connected(user)),
                lists(
                    ids@,
                    |user: UserId| all@.take(i as int).contains(user) && users@.contains(user),
                ),
        {
            let ghost before = ids@;
            if holds(users, all[i]) {
                ids.push(all[i]);
            }
            proof {
                lemma_select_next(all@, i as int, before, |user: UserId| users@.contains(user));
            }
        }
        assert(all@.take(all@.len() as int) =~= all@);
        ids
    }

    /// Those of `users` who are not connected, as they stand there.
    pub fn absent_among(&self, users: &Vec<UserId>) -> (ids: Vec<UserId>)
        ensures
            ids@ == users@.filter(|user: UserId| !self.connected(user)),
    {
        let ghost away = |user: UserId| !self.connected(user);
        let mut ids: Vec<UserId> = Vec::new();
        assert(users@.take(0).filter(away) =~= Seq::<UserId>::empty()) by {
            reveal(Seq::filter);
        }
        for i in 0..users.len()
            invariant
                away == (|user: UserId| !self.connected(user)),
                ids@ == users@.take(i as int).filter(away),
        {
            if !self.contains(users[i]) {
                ids.push(users[i]);
            }
            proof {
                assert(users@.take(i + 1).drop_last() =~= users@.take(i as int));
                reveal(Seq::filter);
            }
        }
        assert(users@.take(users@.len() as int) =~= users@);
        ids
    }
}

/// Whether a user stands in a list.
pub fn holds(users: &Vec<UserId>, user: UserId) -> (found: bool)
    ensures
        found == users@.contains(user),
{
    for i in 0..users.len()
        invariant
            forall|j: int| 0 <= j < i ==> users@[j] != user,
    {
        if users[i] == user {
            return true;
        }
    }
    false
}

/// One step of picking the users of a list that `keep` holds of: what was picked
/// from the first `i` entries becomes what is picked from the first `i + 1`.
proof fn lemma_select_next(
    all: Seq<UserId>,
    i: int,
    picked: Seq<UserId>,
    keep: spec_fn(UserId) -> bool,
)
    requires
        0 <= i < all.len(),
        all.no_duplicates(),
        lists(picked, |user: UserId| all.take(i).contains(user) && keep(user)),
    ensures
        lists(
            if keep(all[i]) {
                picked.push(all[i])
            } else {
                picked
            },
            |user: UserId| all.take(i + 1).contains(user) && keep(user),
        ),
{
    let next = if keep(all[i]) {
        picked.push(all[i])
    } else {
        picked
    };
    assert(!all.take(i).contains(all[i]));
    assert(!picked.contains(all[i]));
    assert forall|user: UserId| #[trigger]
        next.contains(user) <==> all.take(i + 1).contains(user) && keep(user) by {
        assert(all.take(i + 1)[i] == all[i]);
        assert(all.take(i + 1).contains(user) <==> all.take(i).contains(user) || user == all[i])
            by {
            if all.take(i).contains(user) {
                let j = all.take(i).index_of(user);
                assert(all.take(i + 1)[j] == user);
            }
            if all.take(i + 1).contains(user) && user != all[i] {
                let j = all.take(i + 1).index_of(user);
                assert(all.take(i)[j] == user);
            }
        }
        assert(picked.push(all[i]).contains(user) <==> picked.contains(user) || user == all[i]) by {
            if picked.contains(user) {
                let j = picked.index_of(user);
                assert(picked.push(all[i])[j] == user);
            }
            assert(picked.push(all[i])[picked.len() as int] == all[i]);
        }
    }
}

} // verus!
