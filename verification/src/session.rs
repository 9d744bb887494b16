//! The session registry: a map from user identity to presence state.
//! A session is created on successful authentication, mutated only
//! through the registry, and destroyed on disconnect. The registry keeps
//! at most one session per user id, and a live session's `last_active`
//! never decreases.

use vstd::prelude::*;
use vstd::map::*;

verus! {

/// The presence record of one connected user. Instants count
/// milliseconds since the epoch.
#[derive(Debug, Clone, PartialEq)]
pub struct Session {
    pub user_id: i64,
    pub nickname: String,
    pub connected_at: i64,
    pub last_active: i64,
    pub is_typing: bool,
    pub current_conversation: Option<String>,
    pub current_group: Option<String>,
}

impl Session {
    /// An exact copy of this session.
    pub fn duplicate(&self) -> (r: Session)
        ensures
            r == *self,
    {
        Session {
            user_id: self.user_id,
            nickname: self.nickname.clone(),
            connected_at: self.connected_at,
            last_active: self.last_active,
            is_typing: self.is_typing,
            current_conversation: match &self.current_conversation {
                Some(c) => Some(c.clone()),
                None => None,
            },
            current_group: match &self.current_group {
                Some(g) => Some(g.clone()),
                None => None,
            },
        }
    }
}

/// Whether a session counts as active: its `last_active` lies within
/// `timeout_seconds` of `now`.
pub open spec fn spec_session_active(s: Session, timeout_seconds: int, now: int) -> bool {
    now - s.last_active < timeout_seconds * 1000
}

/// What refreshing `user_id` at `now` does to the registry's value: a
/// live session's `last_active` is raised to `now` if that is later,
/// and an absent user id changes nothing.
pub open spec fn spec_touch(m: Map<i64, Session>, user_id: i64, now: int) -> Map<i64, Session> {
    if m.contains_key(user_id) {
        let prev = m[user_id];
        let bumped = if now > prev.last_active {
            now
        } else {
            prev.last_active as int
        };
        m.insert(user_id, Session { last_active: bumped as i64, ..prev })
    } else {
        m
    }
}

/// No user id appears in two slots of the table.
spec fn wf_seq(s: Seq<Session>) -> bool {
    forall|p: int, q: int| 0 <= p < q < s.len() ==> s[p].user_id != s[q].user_id
}

/// The slot of the table that holds `user_id`.
spec fn slot_of(s: Seq<Session>, user_id: i64) -> int {
    choose|i: int| 0 <= i < s.len() && s[i].user_id == user_id
}

/// The map a table denotes: each user id that some slot holds, bound to
/// that slot's session.
spec fn map_of(s: Seq<Session>) -> Map<i64, Session> {
    Map::new(
        |user_id: i64| exists|i: int| 0 <= i < s.len() && s[i].user_id == user_id,
        |user_id: i64| s[slot_of(s, user_id)],
    )
}

/// If slot `i` holds `user_id`, it is the slot the map reads.
proof fn lemma_slot_unique(s: Seq<Session>, user_id: i64, i: int)
    requires
        wf_seq(s),
        0 <= i < s.len(),
        s[i].user_id == user_id,
    ensures
        slot_of(s, user_id) == i,
{
    let j = slot_of(s, user_id);
    assert(0 <= j < s.len() && s[j].user_id == user_id);
    if i < j {
        assert(s[i].user_id != s[j].user_id);
    } else if j < i {
        assert(s[j].user_id != s[i].user_id);
    }
}

/// Writing `x` into the slot that already holds `x.user_id` binds
/// `x.user_id` to `x` and keeps every other binding.
proof fn lemma_map_of_update(s: Seq<Session>, i: int, x: Session)
    requires
        wf_seq(s),
        0 <= i < s.len(),
        s[i].user_id == x.user_id,
    ensures
        wf_seq(s.update(i, x)),
        map_of(s.update(i, x)) == map_of(s).insert(x.user_id, x),
{
    let t = s.update(i, x);
    assert(wf_seq(t)) by {
        assert forall|p: int, q: int| 0 <= p < q < t.len() implies t[p].user_id
            != t[q].user_id by {
            assert(s[p].user_id != s[q].user_id);
        }
    }
    assert forall|k: i64| #[trigger] map_of(t).contains_key(k) implies map_of(s).insert(
        x.user_id,
        x,
    ).contains_key(k) by {
        if k != x.user_id {
            let j = choose|j: int| 0 <= j < t.len() && t[j].user_id == k;
            assert(s[j].user_id == k);
        }
    }
    assert forall|k: i64| #[trigger] map_of(s).insert(x.user_id, x).contains_key(k) implies map_of(
        t,
    ).contains_key(k) by {
        if k == x.user_id {
            assert(t[i].user_id == k);
        } else {
            let j = choose|j: int| 0 <= j < s.len() && s[j].user_id == k;
            assert(t[j].user_id == k);
        }
    }
    assert forall|k: i64| map_of(t).contains_key(k) implies #[trigger] map_of(t)[k] == map_of(
        s,
    ).insert(x.user_id, x)[k] by {
        if k == x.user_id {
            lemma_slot_unique(t, k, i);
        } else {
            let j = choose|j: int| 0 <= j < s.len() && s[j].user_id == k;
            lemma_slot_unique(s, k, j);
            lemma_slot_unique(t, k, j);
        }
    }
    assert(map_of(t) =~= map_of(s).insert(x.user_id, x));
}

/// Appending a slot for a user id the table does not hold binds that
/// user id and keeps every other binding.
proof fn lemma_map_of_push(s: Seq<Session>, x: Session)
    requires
        wf_seq(s),
        forall|i: int| 0 <= i < s.len() ==> s[i].user_id != x.user_id,
    ensures
        wf_seq(s.push(x)),
        map_of(s.push(x)) == map_of(s).insert(x.user_id, x),
{
    let t = s.push(x);
    let n = s.len() as int;
    assert(wf_seq(t)) by {
        assert forall|p: int, q: int| 0 <= p < q < t.len() implies t[p].user_id
            != t[q].user_id by {
            if q < n {
                assert(s[p].user_id != s[q].user_id);
            }
        }
    }
    assert forall|k: i64| #[trigger] map_of(t).contains_key(k) implies map_of(s).insert(
        x.user_id,
        x,
    ).contains_key(k) by {
        if k != x.user_id {
            let j = choose|j: int| 0 <= j < t.len() && t[j].user_id == k;
            assert(j < n);
            assert(s[j].user_id == k);
        }
    }
    assert forall|k: i64| #[trigger] map_of(s).insert(x.user_id, x).contains_key(k) implies map_of(
        t,
    ).contains_key(k) by {
        if k == x.user_id {
            assert(t[n].user_id == k);
        } else {
            let j = choose|j: int| 0 <= j < s.len() && s[j].user_id == k;
            assert(t[j].user_id == k);
        }
    }
    assert forall|k: i64| map_of(t).contains_key(k) implies #[trigger] map_of(t)[k] == map_of(
        s,
    ).insert(x.user_id, x)[k] by {
        if k == x.user_id {
            lemma_slot_unique(t, k, n);
        } else {
            let j = choose|j: int| 0 <= j < s.len() && s[j].user_id == k;
            lemma_slot_unique(s, k, j);
            lemma_slot_unique(t, k, j);
        }
    }
    assert(map_of(t) =~= map_of(s).insert(x.user_id, x));
}

/// Dropping slot `i` unbinds the user id it held and keeps every other
/// binding.
proof fn lemma_map_of_remove(s: Seq<Session>, i: int)
    requires
        wf_seq(s),
        0 <= i < s.len(),
    ensures
        wf_seq(s.remove(i)),
        map_of(s.remove(i)) == map_of(s).remove(s[i].user_id),
{
    let t = s.remove(i);
    let u = s[i].user_id;
    assert(wf_seq(t)) by {
        assert forall|p: int, q: int| 0 <= p < q < t.len() implies t[p].user_id
            != t[q].user_id by {
            let p0 = if p < i { p } else { p + 1 };
            let q0 = if q < i { q } else { q + 1 };
            assert(t[p] == s[p0]);
            assert(t[q] == s[q0]);
            assert(s[p0].user_id != s[q0].user_id);
        }
    }
    assert forall|k: i64| #[trigger] map_of(t).contains_key(k) implies map_of(s).remove(
        u,
    ).contains_key(k) by {
        let j = choose|j: int| 0 <= j < t.len() && t[j].user_id == k;
        let j0 = if j < i { j } else { j + 1 };
        assert(t[j] == s[j0]);
        assert(s[j0].user_id == k);
        if k == u {
            if j0 < i {
                assert(s[j0].user_id != s[i].user_id);
            } else {
                assert(s[i].user_id != s[j0].user_id);
            }
        }
    }
    assert forall|k: i64| #[trigger] map_of(s).remove(u).contains_key(k) implies map_of(
        t,
    ).contains_key(k) by {
        let j = choose|j: int| 0 <= j < s.len() && s[j].user_id == k;
        if j < i {
            assert(t[j] == s[j]);
        } else if j == i {
            assert(false);
        } else {
            assert(t[j - 1] == s[j]);
        }
    }
    assert forall|k: i64| map_of(t).contains_key(k) implies #[trigger] map_of(t)[k] == map_of(
        s,
    ).remove(u)[k] by {
        let j = choose|j: int| 0 <= j < t.len() && t[j].user_id == k;
        let j0 = if j < i { j } else { j + 1 };
        assert(t[j] == s[j0]);
        lemma_slot_unique(t, k, j);
        lemma_slot_unique(s, k, j0);
    }
    assert(map_of(t) =~= map_of(s).remove(u));
}

/// The session registry. The table itself is never exposed; its value
/// is the map from user id to session given by the view.
#[derive(Debug)]
pub struct SessionManager {
    sessions: Vec<Session>,
}

impl View for SessionManager {
    type V = Map<i64, Session>;

    closed spec fn view(&self) -> Map<i64, Session> {
        map_of(self.sessions@)
    }
}

impl SessionManager {
    /// The registry's internal well-formedness: one slot per user id.
    pub closed spec fn inv(self) -> bool {
        wf_seq(self.sessions@)
    }

    /// An empty registry.
    pub fn new() -> (r: SessionManager)
        ensures
            r.inv(),
            r@ == Map::<i64, Session>::empty(),
    {
        let r = SessionManager { sessions: Vec::new() };
        proof {
            assert(r@ =~= Map::<i64, Session>::empty());
        }
        r
    }

    /// The slot that holds `user_id`, if any.
    fn find_index(&self, user_id: i64) -> (r: Option<usize>)
        ensures
            r matches Some(i) ==> 0 <= i < self.sessions@.len() && self.sessions@[i as int].user_id
                == user_id,
            r is None ==> forall|i: int|
                0 <= i < self.sessions@.len() ==> self.sessions@[i].user_id != user_id,
    {
        let mut i: usize = 0;
        while i < self.sessions.len()
            invariant
                i <= self.sessions@.len(),
                forall|k: int| 0 <= k < i ==> self.sessions@[k].user_id != user_id,
            decreases self.sessions@.len() - i,
        {
            if self.sessions[i].user_id == user_id {
                return Some(i);
            }
            i += 1;
        }
        None
    }

    /// Create or overwrite the session of `user_id`: freshly connected
    /// at `now`, not typing, in no conversation and no group.
    pub fn add_session(&mut self, user_id: i64, nickname: String, now: i64)
        requires
            old(self).inv(),
        ensures
            final(self).inv(),
            final(self)@ == old(self)@.insert(
                user_id,
                (Session {
                    user_id,
                    nickname,
                    connected_at: now,
                    last_active: now,
                    is_typing: false,
                    current_conversation: None,
                    current_group: None,
                }),
            ),
    {
        let s = Session {
            user_id,
            nickname,
            connected_at: now,
            last_active: now,
            is_typing: false,
            current_conversation: None,
            current_group: None,
        };
        let ghost s0 = self.sessions@;
        match self.find_index(user_id) {
            Some(i) => {
                let ghost x = s;
                self.sessions.remove(i);
                self.sessions.insert(i, s);
                proof {
                    assert(self.sessions@ =~= s0.update(i as int, x));
                    lemma_map_of_update(s0, i as int, x);
                }
            },
            None => {
                let ghost x = s;
                self.sessions.push(s);
                proof {
                    lemma_map_of_push(s0, x);
                }
            },
        }
    }

    /// Destroy the session of `user_id`; absent ids are a silent no-op.
    pub fn remove_session(&mut self, user_id: i64)
        requires
            old(self).inv(),
        ensures
            final(self).inv(),
            final(self)@ == old(self)@.remove(user_id),
    {
        let ghost s0 = self.sessions@;
        match self.find_index(user_id) {
            Some(i) => {
                self.sessions.remove(i);
                proof {
                    lemma_map_of_remove(s0, i as int);
                }
            },
            None => {
                proof {
                    assert(self@ =~= self@.remove(user_id));
                }
            },
        }
    }

    /// Refresh the `last_active` instant of `user_id` to `now`, never
    /// moving it backwards; absent ids are a silent no-op.
    pub fn update_session_activity(&mut self, user_id: i64, now: i64)
        requires
            old(self).inv(),
        ensures
            final(self).inv(),
            final(self)@ == spec_touch(old(self)@, user_id, now as int),
            old(self)@.contains_key(user_id) ==> final(self)@[user_id].last_active >= old(
                self,
            )@[user_id].last_active,
    {
        match self.find_index(user_id) {
            Some(i) => {
                proof {
                    lemma_slot_unique(self.sessions@, user_id, i as int);
                }
                let prev = self.sessions.remove(i);
                let bumped = if now > prev.last_active {
                    now
                } else {
                    prev.last_active
                };
                let next = Session { last_active: bumped, ..prev };
                self.sessions.insert(i, next);
                proof {
                    let s0 = old(self).sessions@;
                    assert(self.sessions@ =~= s0.update(i as int, next));
                    lemma_map_of_update(s0, i as int, next);
                }
            },
            None => {
            },
        }
    }

    /// Set the typing flag of `user_id`; absent ids are a silent no-op.
    pub fn set_typing_status(&mut self, user_id: i64, is_typing: bool)
        requires
            old(self).inv(),
        ensures
            final(self).inv(),
            !old(self)@.contains_key(user_id) ==> final(self)@ == old(self)@,
            old(self)@.contains_key(user_id) ==> final(self)@ == old(self)@.insert(
                user_id,
                (Session { is_typing, ..old(self)@[user_id] }),
            ),
    {
        match self.find_index(user_id) {
            Some(i) => {
                proof {
                    lemma_slot_unique(self.sessions@, user_id, i as int);
                }
                let prev = self.sessions.remove(i);
                let next = Session { is_typing, ..prev };
                self.sessions.insert(i, next);
                proof {
                    let s0 = old(self).sessions@;
                    assert(self.sessions@ =~= s0.update(i as int, next));
                    lemma_map_of_update(s0, i as int, next);
                }
            },
            None => {
            },
        }
    }

    /// Set the conversation `user_id` is looking at; absent ids are a
    /// silent no-op.
    pub fn set_current_conversation(&mut self, user_id: i64, conversation_id: Option<String>)
        requires
            old(self).inv(),
        ensures
            final(self).inv(),
            !old(self)@.contains_key(user_id) ==> final(self)@ == old(self)@,
            old(self)@.contains_key(user_id) ==> final(self)@ == old(self)@.insert(
                user_id,
                (Session { current_conversation: conversation_id, ..old(self)@[user_id] }),
            ),
    {
        match self.find_index(user_id) {
            Some(i) => {
                proof {
                    lemma_slot_unique(self.sessions@, user_id, i as int);
                }
                let prev = self.sessions.remove(i);
                let next = Session { current_conversation: conversation_id, ..prev };
                self.sessions.insert(i, next);
                proof {
                    let s0 = old(self).sessions@;
                    assert(self.sessions@ =~= s0.update(i as int, next));
                    lemma_map_of_update(s0, i as int, next);
                }
            },
            None => {
            },
        }
    }

    /// Set the group `user_id` is looking at; absent ids are a silent
    /// no-op.
    pub fn set_current_group(&mut self, user_id: i64, group_id: Option<String>)
        requires
            old(self).inv(),
        ensures
            final(self).inv(),
            !old(self)@.contains_key(user_id) ==> final(self)@ == old(self)@,
            old(self)@.contains_key(user_id) ==> final(self)@ == old(self)@.insert(
                user_id,
                (Session { current_group: group_id, ..old(self)@[user_id] }),
            ),
    {
        match self.find_index(user_id) {
            Some(i) => {
                proof {
                    lemma_slot_unique(self.sessions@, user_id, i as int);
                }
                let prev = self.sessions.remove(i);
                let next = Session { current_group: group_id, ..prev };
                self.sessions.insert(i, next);
                proof {
                    let s0 = old(self).sessions@;
                    assert(self.sessions@ =~= s0.update(i as int, next));
                    lemma_map_of_update(s0, i as int, next);
                }
            },
            None => {
            },
        }
    }

    /// The session of `user_id`, if one is live.
    pub fn get_session(&self, user_id: i64) -> (r: Option<Session>)
        requires
            self.inv(),
        ensures
            r is Some <==> self@.contains_key(user_id),
            r matches Some(s) ==> s == self@[user_id],
    {
        match self.find_index(user_id) {
            Some(i) => {
                proof {
                    lemma_slot_unique(self.sessions@, user_id, i as int);
                }
                Some(self.sessions[i].duplicate())
            },
            None => None,
        }
    }

    /// Every live session, one per user id.
    pub fn get_all_sessions(&self) -> (r: Vec<Session>)
        requires
            self.inv(),
        ensures
            forall|i: int| #![auto]
                0 <= i < r@.len() ==> self@.contains_key(r@[i].user_id) && self@[r@[i].user_id]
                    == r@[i],
            forall|user_id: i64| #[trigger]
                self@.contains_key(user_id) ==> exists|i: int|
                    0 <= i < r@.len() && r@[i].user_id == user_id,
            forall|i: int, j: int| #![auto]
                0 <= i < j < r@.len() ==> r@[i].user_id != r@[j].user_id,
    {
        let mut r: Vec<Session> = Vec::new();
        let mut i: usize = 0;
        while i < self.sessions.len()
            invariant
                i <= self.sessions@.len(),
                r@.len() == i,
                forall|k: int| 0 <= k < i ==> r@[k] == self.sessions@[k],
            decreases self.sessions@.len() - i,
        {
            r.push(self.sessions[i].duplicate());
            i += 1;
        }
        proof {
            assert forall|j: int| 0 <= j < r@.len() implies #[trigger] self@.contains_key(
                r@[j].user_id,
            ) && self@[r@[j].user_id] == r@[j] by {
                lemma_slot_unique(self.sessions@, r@[j].user_id, j);
            }
            assert forall|user_id: i64| #[trigger] self@.contains_key(user_id) implies exists|
                i0: int,
            | 0 <= i0 < r@.len() && r@[i0].user_id == user_id by {
                let j = choose|j: int|
                    0 <= j < self.sessions@.len() && self.sessions@[j].user_id == user_id;
                assert(r@[j].user_id == user_id);
            }
        }
        r
    }

    /// The live sessions whose `last_active` lies within
    /// `timeout_seconds` of `now`.
    pub fn get_active_sessions(&self, timeout_seconds: i64, now: i64) -> (r: Vec<Session>)
        requires
            self.inv(),
        ensures
            forall|i: int| #![auto]
                0 <= i < r@.len() ==> self@.contains_key(r@[i].user_id) && self@[r@[i].user_id]
                    == r@[i] && spec_session_active(r@[i], timeout_seconds as int, now as int),
            forall|user_id: i64| #[trigger]
                self@.contains_key(user_id) && spec_session_active(
                    self@[user_id],
                    timeout_seconds as int,
                    now as int,
                ) ==> exists|i: int| 0 <= i < r@.len() && r@[i].user_id == user_id,
    {
        let ghost tms = timeout_seconds as int;
        let ghost nowi = now as int;
        let mut r: Vec<Session> = Vec::new();
        let mut i: usize = 0;
        while i < self.sessions.len()
            invariant
                self.inv(),
                tms == timeout_seconds as int,
                nowi == now as int,
                i <= self.sessions@.len(),
                forall|k: int| #![trigger r@[k]]
                    0 <= k < r@.len() ==> self@.contains_key(r@[k].user_id)
                        && self@[r@[k].user_id] == r@[k]
                        && spec_session_active(r@[k], tms, nowi),
                forall|j: int| #![trigger self.sessions@[j]]
                    0 <= j < i && spec_session_active(self.sessions@[j], tms, nowi)
                        ==> exists|k: int|
                        0 <= k < r@.len() && #[trigger] r@[k].user_id
                            == self.sessions@[j].user_id,
            decreases self.sessions@.len() - i,
        {
            let s = &self.sessions[i];
            let age_ok = (s.last_active as i128) + (timeout_seconds as i128) * 1000
                > (now as i128);
            proof {
                assert(age_ok == spec_session_active(self.sessions@[i as int], tms, nowi));
            }
            let ghost r0 = r@;
            if age_ok {
                r.push(s.duplicate());
                proof {
                    lemma_slot_unique(
                        self.sessions@,
                        self.sessions@[i as int].user_id,
                        i as int,
                    );
                    assert(r@[r@.len() - 1] == self.sessions@[i as int]);
                    assert forall|j: int|
                        0 <= j < i + 1 && spec_session_active(
                            self.sessions@[j],
                            tms,
                            nowi,
                        ) implies exists|k: int|
                        0 <= k < r@.len() && #[trigger] r@[k].user_id
                            == self.sessions@[j].user_id by {
                        if j < i {
                            let k0 = choose|k: int|
                                0 <= k < r0.len() && r0[k].user_id == self.sessions@[j].user_id;
                            assert(r@[k0].user_id == self.sessions@[j].user_id);
                        } else {
                            assert(r@[r@.len() - 1].user_id == self.sessions@[j].user_id);
                        }
                    }
                }
            }
            i += 1;
        }
        proof {
            assert forall|user_id: i64| #[trigger]
                self@.contains_key(user_id) && spec_session_active(
                    self@[user_id],
                    tms,
                    nowi,
                ) implies exists|i0: int| 0 <= i0 < r@.len() && r@[i0].user_id == user_id by {
                let j = choose|j: int|
                    0 <= j < self.sessions@.len() && self.sessions@[j].user_id == user_id;
                lemma_slot_unique(self.sessions@, user_id, j);
                assert(spec_session_active(self.sessions@[j], tms, nowi));
                let k = choose|k: int|
                    0 <= k < r@.len() && r@[k].user_id == self.sessions@[j].user_id;
                assert(r@[k].user_id == user_id);
            }
        }
        r
    }
}

/// After an `add_session` of a session `s`, reading `s.user_id` yields a
/// session with exactly the given fields; after a `remove_session` of
/// the same id, reading it yields nothing. Stated over the registry's
/// map value, which those operations pin down.
pub proof fn lemma_add_then_get(registry: Map<i64, Session>, s: Session)
    ensures
        registry.insert(s.user_id, s).contains_key(s.user_id),
        registry.insert(s.user_id, s)[s.user_id] == s,
        !registry.insert(s.user_id, s).remove(s.user_id).contains_key(s.user_id),
{
}

} // verus!
