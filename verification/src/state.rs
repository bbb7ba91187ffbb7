//! The accumulated match state: the key-sorted per-player map and the
//! aggregate of every record the analyser derives from the stream.
//!
//! The user map is a sequence of per-player records kept strictly sorted by
//! user id. That gives key-unique, key-sorted iteration (the map semantics
//! the output schema promises) while staying a plain vector.

use vstd::prelude::*;

use crate::data::{class_ord, Class, Team, UserId};
use crate::events::RawUserInfo;
use crate::records::{
    spec_user_from_raw, ChatMassage, ChatMassageV, Death, DeathV, Round, UserInfo, UserInfoV,
};

verus! {

/// The first index of the sequence whose record satisfies the predicate, or
/// the sequence's length where none does.
pub open spec fn first_match(users: Seq<UserInfoV>, pred: spec_fn(UserInfoV) -> bool) -> int
    decreases users.len(),
{
    if users.len() == 0 {
        0
    } else if pred(users[0]) {
        0
    } else {
        1 + first_match(users.drop_first(), pred)
    }
}

/// The first index holding the given user id, or the length if absent.
pub open spec fn first_uid_index(users: Seq<UserInfoV>, uid: UserId) -> int {
    first_match(users, |u: UserInfoV| u.user_id == uid)
}

/// Whether some record holds the given user id.
pub open spec fn has_uid(users: Seq<UserInfoV>, uid: UserId) -> bool {
    first_uid_index(users, uid) < users.len()
}

/// The first index whose record's current name matches, or the length if
/// none does.
pub open spec fn first_name_index(users: Seq<UserInfoV>, name: Seq<char>) -> int {
    first_match(users, |u: UserInfoV| u.name == name)
}

/// The slot a new user id goes into to keep the sequence key-sorted: the
/// first index holding an id at least as large, or the length.
pub open spec fn uid_insert_pos(users: Seq<UserInfoV>, uid: UserId) -> int {
    first_match(users, |u: UserInfoV| u.user_id.0 >= uid.0)
}

/// `first_match` returns exactly the index before which nothing satisfies
/// the predicate and at which (if in range) it holds.
pub proof fn lemma_first_match_is(
    users: Seq<UserInfoV>,
    pred: spec_fn(UserInfoV) -> bool,
    k: int,
)
    requires
        0 <= k <= users.len(),
        forall|j: int| 0 <= j < k ==> !pred(users[j]),
        k < users.len() ==> pred(users[k]),
    ensures
        first_match(users, pred) == k,
    decreases users.len(),
{
    if users.len() == 0 {
    } else if pred(users[0]) {
        assert(k == 0);
    } else {
        assert(k > 0);
        let rest = users.drop_first();
        assert(forall|j: int| 0 <= j < k - 1 ==> rest[j] == users[j + 1] && !pred(rest[j]));
        assert(k - 1 < rest.len() ==> rest[k - 1] == users[k]);
        lemma_first_match_is(rest, pred, k - 1);
    }
}

/// `first_match` is in bounds, points at a satisfying record when one
/// exists, and nothing before it satisfies the predicate.
pub proof fn lemma_first_match_bounds(users: Seq<UserInfoV>, pred: spec_fn(UserInfoV) -> bool)
    ensures
        0 <= first_match(users, pred) <= users.len(),
        first_match(users, pred) < users.len() ==> pred(users[first_match(users, pred)]),
        forall|j: int| 0 <= j < first_match(users, pred) ==> !pred(users[j]),
    decreases users.len(),
{
    if users.len() == 0 {
    } else if pred(users[0]) {
    } else {
        let rest = users.drop_first();
        lemma_first_match_bounds(rest, pred);
        assert(forall|j: int| 0 <= j < rest.len() ==> rest[j] == users[j + 1]);
        let fm = first_match(users, pred);
        assert(fm == 1 + first_match(rest, pred));
        if fm < users.len() {
            assert(pred(rest[fm - 1]));
        }
        assert forall|j: int| 0 <= j < fm implies !pred(users[j]) by {
            if j > 0 {
                assert(!pred(rest[j - 1]));
            }
        }
    }
}

/// Key-sorted and therefore key-unique: every record's user id is strictly
/// below the next one's.
pub open spec fn users_sorted(users: Seq<UserInfoV>) -> bool {
    forall|i: int, j: int|
        0 <= i < j < users.len() ==> users[i].user_id.0 < users[j].user_id.0
}

/// The user sequence after a spawn: where the id is known, that record's
/// counter for the spawned class goes up by one (wrapping at the 8-bit
/// limit) and its team becomes the spawn's team; an unknown id leaves the
/// sequence unchanged.
pub open spec fn spec_apply_spawn(
    users: Seq<UserInfoV>,
    user: UserId,
    class: Class,
    team: Team,
) -> Seq<UserInfoV> {
    let i = first_uid_index(users, user);
    if i < users.len() {
        users.update(
            i,
            UserInfoV {
                classes: users[i].classes.update(
                    class_ord(class),
                    ((users[i].classes[class_ord(class)] + 1) % 256) as u8,
                ),
                name: users[i].name,
                user_id: users[i].user_id,
                steam_id: users[i].steam_id,
                entity_id: users[i].entity_id,
                team,
            },
        )
    } else {
        users
    }
}

/// The user sequence after a rename: the first record whose current name
/// matches gets the new name; no match leaves the sequence unchanged.
pub open spec fn spec_rename(
    users: Seq<UserInfoV>,
    from: Seq<char>,
    to: Seq<char>,
) -> Seq<UserInfoV> {
    let i = first_name_index(users, from);
    if i < users.len() {
        users.update(
            i,
            UserInfoV {
                classes: users[i].classes,
                name: to,
                user_id: users[i].user_id,
                steam_id: users[i].steam_id,
                entity_id: users[i].entity_id,
                team: users[i].team,
            },
        )
    } else {
        users
    }
}

/// The user sequence after a userinfo update: a known id only has its
/// entity-id cross-reference refreshed (name, team and histogram are
/// analyser-owned and preserved); an unknown id gets a fresh record inserted
/// at its key-sorted slot.
pub open spec fn spec_apply_user_info(users: Seq<UserInfoV>, raw: RawUserInfo) -> Seq<
    UserInfoV,
> {
    let i = first_uid_index(users, raw.user_id);
    if i < users.len() {
        users.update(
            i,
            UserInfoV {
                classes: users[i].classes,
                name: users[i].name,
                user_id: users[i].user_id,
                steam_id: users[i].steam_id,
                entity_id: raw.entity_id,
                team: users[i].team,
            },
        )
    } else {
        users.insert(uid_insert_pos(users, raw.user_id), spec_user_from_raw(raw))
    }
}

/// The per-player records of the match, keyed by user id: key-unique, kept
/// sorted by key for deterministic iteration.
#[derive(Debug, Clone)]
pub struct UserMap {
    users: Vec<UserInfo>,
}

impl View for UserMap {
    type V = Seq<UserInfoV>;

    closed spec fn view(&self) -> Seq<UserInfoV> {
        self.users@.map_values(|u: UserInfo| u@)
    }
}

impl UserMap {
    /// The map's well-formedness: records strictly sorted by user id.
    pub open spec fn wf(&self) -> bool {
        users_sorted(self@)
    }

    /// An empty map.
    pub fn new() -> (r: UserMap)
        ensures
            r@ == Seq::<UserInfoV>::empty(),
            r.wf(),
    {
        let r = UserMap { users: Vec::new() };
        proof {
            assert(r@ =~= Seq::<UserInfoV>::empty());
        }
        r
    }

    /// The number of players on record.
    pub fn len(&self) -> (r: usize)
        ensures
            r == self@.len(),
    {
        self.users.len()
    }

    /// The record at a slot of the key-sorted order.
    pub fn record_at(&self, i: usize) -> (r: &UserInfo)
        requires
            i < self@.len(),
        ensures
            r@ == self@[i as int],
    {
        &self.users[i]
    }

    /// The record for a user id, where one exists.
    pub fn get(&self, uid: UserId) -> (r: Option<&UserInfo>)
        ensures
            match r {
                Some(u) => has_uid(self@, uid) && u@ == self@[first_uid_index(self@, uid)],
                None => !has_uid(self@, uid),
            },
    {
        let ghost pred = |u: UserInfoV| u.user_id == uid;
        let n = self.users.len();
        let mut i: usize = 0;
        while i < n && self.users[i].user_id.0 != uid.0
            invariant
                n == self@.len(),
                i <= n,
                forall|j: int| 0 <= j < i ==> self@[j].user_id != uid,
            decreases n - i,
        {
            proof {
                assert(self@[i as int] == self.users@[i as int]@);
            }
            i = i + 1;
        }
        if i < n {
            proof {
                assert(self@[i as int] == self.users@[i as int]@);
                assert(self@[i as int].user_id == uid);
                lemma_first_match_is(self@, pred, i as int);
            }
            Some(&self.users[i])
        } else {
            proof {
                lemma_first_match_is(self@, pred, n as int);
            }
            None
        }
    }

    /// Records a spawn: where the user id is known, bumps that record's
    /// counter for the spawned class and sets its team; an unknown id
    /// changes nothing (players are only created via userinfo entries).
    pub fn apply_spawn(&mut self, user: UserId, class: Class, team: Team)
        requires
            old(self).wf(),
        ensures
            final(self).wf(),
            final(self)@ == spec_apply_spawn(old(self)@, user, class, team),
    {
        let ghost pred = |u: UserInfoV| u.user_id == user;
        let n = self.users.len();
        let mut i: usize = 0;
        while i < n && self.users[i].user_id.0 != user.0
            invariant
                n == self@.len(),
                i <= n,
                forall|j: int| 0 <= j < i ==> self@[j].user_id != user,
            decreases n - i,
        {
            proof {
                assert(self@[i as int] == self.users@[i as int]@);
            }
            i = i + 1;
        }
        if i < n {
            proof {
                assert(self@[i as int] == self.users@[i as int]@);
                lemma_first_match_is(self@, pred, i as int);
            }
            let ghost prev = self.users@;
            let ghost prev_view = self@;
            let mut u = self.users.remove(i);
            u.classes.increment(class);
            u.team = team;
            let ghost gu = u;
            self.users.insert(i, u);
            proof {
                assert(self.users@ =~= prev.update(i as int, gu));
                assert forall|j: int| 0 <= j < self@.len() implies self@[j] == prev_view.update(
                    i as int,
                    gu@,
                )[j] by {
                    assert(self@[j] == self.users@[j]@);
                    assert(prev_view[j] == prev[j]@);
                }
                assert(self@ =~= prev_view.update(i as int, gu@));
                assert(gu@.classes =~= prev_view[i as int].classes.update(
                    class_ord(class),
                    ((prev_view[i as int].classes[class_ord(class)] + 1) % 256) as u8,
                ));
                assert(self@ =~= spec_apply_spawn(prev_view, user, class, team));
            }
        } else {
            proof {
                lemma_first_match_is(self@, pred, n as int);
            }
        }
    }

    /// Renames the first record (in key-sorted order) whose current name
    /// matches `from`; where none matches the rename is dropped.
    pub fn rename_first(&mut self, from: &String, to: String)
        requires
            old(self).wf(),
        ensures
            final(self).wf(),
            final(self)@ == spec_rename(old(self)@, from@, to@),
    {
        let ghost pred = |u: UserInfoV| u.name == from@;
        let n = self.users.len();
        let mut i: usize = 0;
        while i < n && !(self.users[i].name == *from)
            invariant
                n == self@.len(),
                i <= n,
                forall|j: int| 0 <= j < i ==> self@[j].name != from@,
            decreases n - i,
        {
            proof {
                assert(self@[i as int] == self.users@[i as int]@);
            }
            i = i + 1;
        }
        if i < n {
            proof {
                assert(self@[i as int] == self.users@[i as int]@);
                lemma_first_match_is(self@, pred, i as int);
            }
            let ghost prev = self.users@;
            let ghost prev_view = self@;
            let mut u = self.users.remove(i);
            u.name = to;
            let ghost gu = u;
            self.users.insert(i, u);
            proof {
                assert(self.users@ =~= prev.update(i as int, gu));
                assert forall|j: int| 0 <= j < self@.len() implies self@[j] == prev_view.update(
                    i as int,
                    gu@,
                )[j] by {
                    assert(self@[j] == self.users@[j]@);
                    assert(prev_view[j] == prev[j]@);
                }
                assert(self@ =~= prev_view.update(i as int, gu@));
                assert(self@ =~= spec_rename(prev_view, from@, to@));
            }
        } else {
            proof {
                lemma_first_match_is(self@, pred, n as int);
            }
        }
    }

    /// Absorbs a successfully parsed userinfo entry: a known user id only
    /// has its entity-id cross-reference refreshed; an unknown one gets a
    /// fresh record inserted at its key-sorted slot.
    pub fn apply_user_info(&mut self, raw: RawUserInfo)
        requires
            old(self).wf(),
        ensures
            final(self).wf(),
            final(self)@ == spec_apply_user_info(old(self)@, raw),
    {
        let ghost pred = |u: UserInfoV| u.user_id == raw.user_id;
        let ghost pred_ge = |u: UserInfoV| u.user_id.0 >= raw.user_id.0;
        let uid = raw.user_id;
        let n = self.users.len();
        let mut i: usize = 0;
        while i < n && self.users[i].user_id.0 < uid.0
            invariant
                n == self@.len(),
                i <= n,
                forall|j: int| 0 <= j < i ==> self@[j].user_id.0 < uid.0,
            decreases n - i,
        {
            proof {
                assert(self@[i as int] == self.users@[i as int]@);
            }
            i = i + 1;
        }
        if i < n && self.users[i].user_id.0 == uid.0 {
            proof {
                assert(self@[i as int] == self.users@[i as int]@);
                lemma_first_match_is(self@, pred, i as int);
            }
            let ghost prev = self.users@;
            let ghost prev_view = self@;
            let mut u = self.users.remove(i);
            u.entity_id = raw.entity_id;
            let ghost gu = u;
            self.users.insert(i, u);
            proof {
                assert(self.users@ =~= prev.update(i as int, gu));
                assert forall|j: int| 0 <= j < self@.len() implies self@[j] == prev_view.update(
                    i as int,
                    gu@,
                )[j] by {
                    assert(self@[j] == self.users@[j]@);
                    assert(prev_view[j] == prev[j]@);
                }
                assert(self@ =~= prev_view.update(i as int, gu@));
                assert(self@ =~= spec_apply_user_info(prev_view, raw));
            }
        } else {
            proof {
                if i < n {
                    assert(self@[i as int] == self.users@[i as int]@);
                    assert(self@[i as int].user_id.0 > uid.0);
                }
                assert forall|j: int| 0 <= j < n implies !pred(self@[j]) by {
                    if j >= i {
                        assert(self@[i as int].user_id.0 <= self@[j].user_id.0);
                    }
                }
                lemma_first_match_is(self@, pred, n as int);
                lemma_first_match_is(self@, pred_ge, i as int);
            }
            let ghost prev = self.users@;
            let ghost prev_view = self@;
            let nu = UserInfo::from_raw(raw);
            let ghost gnu = nu;
            self.users.insert(i, nu);
            proof {
                assert(self.users@ =~= prev.insert(i as int, gnu));
                assert forall|j: int| 0 <= j < self@.len() implies self@[j] == prev_view.insert(
                    i as int,
                    gnu@,
                )[j] by {
                    assert(self@[j] == self.users@[j]@);
                    if j < i {
                        assert(prev_view[j] == prev[j]@);
                    } else if j > i {
                        assert(prev_view[j - 1] == prev[j - 1]@);
                    }
                }
                assert(self@ =~= prev_view.insert(i as int, gnu@));
                assert(self@ =~= spec_apply_user_info(prev_view, raw));
                assert forall|k: int, l: int|
                    0 <= k < l < self@.len() implies self@[k].user_id.0
                    < self@[l].user_id.0 by {
                    if k < i && l == i {
                        assert(self@[k] == prev_view[k]);
                    } else if k == i && l > i {
                        assert(self@[l] == prev_view[l - 1]);
                        assert(prev_view[l - 1].user_id.0 >= prev_view[i as int].user_id.0);
                    } else if k < i && l > i {
                        assert(self@[k] == prev_view[k] && self@[l] == prev_view[l - 1]);
                    } else if k > i {
                        assert(self@[k] == prev_view[k - 1] && self@[l] == prev_view[l - 1]);
                    }
                }
            }
        }
    }
}

/// The aggregate root handed over at end of stream: every chat entry, the
/// per-player map, every death and contested round, the tick of the first
/// processed message (`None` until one arrives, set exactly once —
/// first-write-wins), and the session's seconds-per-tick interval (raw
/// 32-bit encoding, last write wins).
#[derive(Debug)]
pub struct MatchState {
    pub chat: Vec<ChatMassage>,
    pub users: UserMap,
    pub deaths: Vec<Death>,
    pub rounds: Vec<Round>,
    pub start_tick: Option<u32>,
    pub interval_per_tick: u32,
}

/// The mathematical view of the accumulated match state.
#[verifier::ext_equal]
pub struct MatchStateV {
    pub chat: Seq<ChatMassageV>,
    pub users: Seq<UserInfoV>,
    pub deaths: Seq<DeathV>,
    pub rounds: Seq<Round>,
    pub start_tick: Option<u32>,
    pub interval_per_tick: u32,
}

impl View for MatchState {
    type V = MatchStateV;

    open spec fn view(&self) -> MatchStateV {
        MatchStateV {
            chat: self.chat@.map_values(|c: ChatMassage| c@),
            users: self.users@,
            deaths: self.deaths@.map_values(|d: Death| d@),
            rounds: self.rounds@,
            start_tick: self.start_tick,
            interval_per_tick: self.interval_per_tick,
        }
    }
}

/// The state the analyser starts from: everything empty, the start tick
/// unset, the interval at zero.
pub open spec fn spec_empty_state() -> MatchStateV {
    MatchStateV {
        chat: Seq::empty(),
        users: Seq::empty(),
        deaths: Seq::empty(),
        rounds: Seq::empty(),
        start_tick: None,
        interval_per_tick: 0,
    }
}

impl MatchState {
    /// The aggregate's well-formedness: its user map is key-sorted.
    pub open spec fn wf(&self) -> bool {
        self.users.wf()
    }

    /// The empty aggregate the analyser is constructed with.
    pub fn new() -> (r: MatchState)
        ensures
            r@ =~= spec_empty_state(),
            r.wf(),
    {
        let r = MatchState {
            chat: Vec::new(),
            users: UserMap::new(),
            deaths: Vec::new(),
            rounds: Vec::new(),
            start_tick: None,
            interval_per_tick: 0,
        };
        proof {
            assert(r@.chat =~= Seq::<ChatMassageV>::empty());
            assert(r@.deaths =~= Seq::<DeathV>::empty());
        }
        r
    }
}

impl Default for MatchState {
    fn default() -> (r: Self)
        ensures
            r@ =~= spec_empty_state(),
            r.wf(),
    {
        MatchState::new()
    }
}

} // verus!
