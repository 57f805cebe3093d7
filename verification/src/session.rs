//! Sessions and the store that owns them.
//!
//! A session is one logical client conversation. The store hands out copies
//! and takes them back, so a session's state is only ever changed by the one
//! call that holds the store.

use vstd::prelude::*;
use crate::error::{fails_with, ErrorKind, ToolError};
use crate::example_mcp::ExampleTools;

verus! {

/// One client conversation: its id, when it began, when it was last used, and
/// the state its tools work on. Times are ticks of the caller's clock.
#[derive(Clone, Copy, Debug, PartialEq, Eq, Structural)]
pub struct Session {
    pub id: u64,
    pub created_at: u64,
    pub last_active: u64,
    pub tools: ExampleTools,
}

/// The sessions that are open, no two with the same id, and the idle time
/// after which one counts as expired (`None`: never).
#[derive(Clone, Debug)]
pub struct SessionStore {
    pub sessions: Vec<Session>,
    pub idle_timeout: Option<u64>,
}

/// A session as `create_session` makes it: unused tools, both times `now`.
pub open spec fn fresh_session(id: u64, now: u64) -> Session {
    Session {
        id,
        created_at: now,
        last_active: now,
        tools: ExampleTools { counter: 0, poisoned: false },
    }
}

/// Whether `session` stands among the first `upto` of `list`.
pub open spec fn among(list: Seq<Session>, upto: int, session: Session) -> bool {
    exists|j: int| 0 <= j < upto && #[trigger] list[j] == session
}

impl SessionStore {
    /// No two sessions share an id.
    pub open spec fn wf(&self) -> bool {
        forall|i: int, j: int|
            0 <= i < j < self.sessions@.len() ==> (#[trigger] self.sessions@[i]).id != (
            #[trigger] self.sessions@[j]).id
    }

    /// Whether a session with this id is in the store.
    pub open spec fn has(&self, id: u64) -> bool {
        exists|i: int| 0 <= i < self.sessions@.len() && (#[trigger] self.sessions@[i]).id == id
    }

    /// Where the session with this id stands.
    pub open spec fn position(&self, id: u64) -> int {
        choose|i: int| 0 <= i < self.sessions@.len() && (#[trigger] self.sessions@[i]).id == id
    }

    /// The store as a map from session id to session.
    pub open spec fn view(&self) -> Map<u64, Session> {
        Map::new(|id: u64| self.has(id), |id: u64| self.sessions@[self.position(id)])
    }

    /// Whether a session has been idle for longer than the store allows.
    pub open spec fn expired(&self, session: Session, now: u64) -> bool {
        self.idle_timeout matches Some(limit) && now - session.last_active > limit
    }

    /// Whether the id names a session that is present and not expired.
    pub open spec fn live(&self, id: u64, now: u64) -> bool {
        self.has(id) && !self.expired(self@[id], now)
    }

    /// In a well-formed store each stored session is found under its own id.
    pub proof fn lemma_entries(&self)
        requires
            self.wf(),
        ensures
            forall|i: int|
                0 <= i < self.sessions@.len() ==> self.has((#[trigger] self.sessions@[i]).id)
                    && self@[self.sessions@[i].id] == self.sessions@[i],
            forall|id: u64| #[trigger]
                self.has(id) ==> 0 <= self.position(id) < self.sessions@.len()
                    && self.sessions@[self.position(id)].id == id,
    {
    }

    /// An empty store with the given idle limit.
    pub fn new(idle_timeout: Option<u64>) -> (store: SessionStore)
        ensures
            store.wf(),
            store.sessions@.len() == 0,
            store@ == Map::<u64, Session>::empty(),
            store.idle_timeout == idle_timeout,
    {
        let store = SessionStore { sessions: Vec::new(), idle_timeout };
        assert(store@ =~= Map::<u64, Session>::empty());
        store
    }

    /// The number of open sessions.
    pub fn len(&self) -> (n: usize)
        ensures
            n == self.sessions@.len(),
    {
        self.sessions.len()
    }

    /// Where the session with this id stands, if it is in the store.
    pub fn find(&self, id: u64) -> (at: Option<usize>)
        requires
            self.wf(),
        ensures
            match at {
                Some(i) => self.has(id) && i == self.position(id),
                None => !self.has(id),
            },
    {
        let mut i: usize = 0;
        while i < self.sessions.len()
            invariant
                self.wf(),
                i <= self.sessions@.len(),
                forall|j: int| 0 <= j < i ==> (#[trigger] self.sessions@[j]).id != id,
            decreases self.sessions@.len() - i,
        {
            if self.sessions[i].id == id {
                assert(self.sessions@[i as int].id == id);
                proof {
                    self.lemma_entries();
                }
                return Some(i);
            }
            i += 1;
        }
        None
    }

    /// Whether a session has been idle for longer than the store allows.
    pub fn is_expired(&self, session: &Session, now: u64) -> (gone: bool)
        ensures
            gone == self.expired(*session, now),
    {
        match self.idle_timeout {
            Some(limit) => now > session.last_active && now - session.last_active > limit,
            None => false,
        }
    }

    /// Opens a session under `first`, or under `second` if `first` is taken.
    /// Both ids come from the caller's random source. If both are taken the
    /// store is left as it is and the call fails with `InternalStateError`.
    pub fn create_session(&mut self, first: u64, second: u64, now: u64) -> (res: Result<
        Session,
        ToolError,
    >)
        requires
            old(self).wf(),
        ensures
            final(self).wf(),
            final(self).idle_timeout == old(self).idle_timeout,
            !old(self).has(first) ==> res == Ok::<Session, ToolError>(fresh_session(first, now))
                && final(self)@ == old(self)@.insert(first, fresh_session(first, now)),
            old(self).has(first) && !old(self).has(second) ==> res == Ok::<Session, ToolError>(
                fresh_session(second, now),
            ) && final(self)@ == old(self)@.insert(second, fresh_session(second, now)),
            old(self).has(first) && old(self).has(second) ==> *final(self) == *old(self)
                && fails_with(res, ErrorKind::InternalStateError, "session id collision"@),
    {
        let id: u64 = if self.find(first).is_none() {
            first
        } else if self.find(second).is_none() {
            second
        } else {
            return Err(ToolError::new(ErrorKind::InternalStateError, "session id collision"));
        };
        let session = Session { id, created_at: now, last_active: now, tools: ExampleTools::new() };
        self.sessions.push(session);
        proof {
            let pre = *old(self);
            let post = *self;
            assert(post.sessions@ == pre.sessions@.push(session));
            assert(post.wf());
            pre.lemma_entries();
            post.lemma_entries();
            assert(post.sessions@[pre.sessions@.len() as int] == session);
            assert forall|k: u64| post.has(k) <==> (k == id || pre.has(k)) by {
                if pre.has(k) {
                    assert(post.sessions@[pre.position(k)].id == k);
                }
            }
            assert(post@ =~= pre@.insert(id, session));
        }
        Ok(session)
    }

    /// A copy of the session with this id. Fails with `SessionNotFound` if
    /// there is none or it has expired.
    pub fn get(&self, id: u64, now: u64) -> (res: Result<Session, ToolError>)
        requires
            self.wf(),
        ensures
            self.live(id, now) ==> res == Ok::<Session, ToolError>(self@[id]),
            !self.live(id, now) ==> fails_with(res, ErrorKind::SessionNotFound, "no such session"@),
    {
        match self.find(id) {
            Some(i) => {
                let session = self.sessions[i];
                if self.is_expired(&session, now) {
                    Err(ToolError::new(ErrorKind::SessionNotFound, "no such session"))
                } else {
                    Ok(session)
                }
            },
            None => Err(ToolError::new(ErrorKind::SessionNotFound, "no such session")),
        }
    }

    /// Stores a changed copy of a session in place of the one with its id.
    /// Without such a session the store is left as it is.
    pub fn put(&mut self, session: Session) -> (stored: bool)
        requires
            old(self).wf(),
        ensures
            final(self).wf(),
            final(self).idle_timeout == old(self).idle_timeout,
            stored == old(self).has(session.id),
            stored ==> final(self)@ == old(self)@.insert(session.id, session),
            !stored ==> *final(self) == *old(self),
    {
        match self.find(session.id) {
            Some(i) => {
                self.sessions.set(i, session);
                proof {
                    let pre = *old(self);
                    let post = *self;
                    assert(post.sessions@ == pre.sessions@.update(i as int, session));
                    pre.lemma_entries();
                    assert(post.wf());
                    post.lemma_entries();
                    assert forall|k: u64| post.has(k) <==> pre.has(k) by {
                        if pre.has(k) {
                            assert(post.sessions@[pre.position(k)].id == k);
                        }
                        if post.has(k) {
                            assert(pre.sessions@[post.position(k)].id == k);
                        }
                    }
                    assert(post@ =~= pre@.insert(session.id, session));
                }
                true
            },
            None => false,
        }
    }

    /// Releases every session, as a server does when its process stops.
    pub fn clear(&mut self)
        ensures
            final(self).wf(),
            final(self).idle_timeout == old(self).idle_timeout,
            final(self).sessions@.len() == 0,
            final(self)@ == Map::<u64, Session>::empty(),
    {
        self.sessions.clear();
        assert(self@ =~= Map::<u64, Session>::empty());
    }

    /// Releases every session that has been idle for longer than the store
    /// allows, and keeps the others as they are.
    pub fn sweep(&mut self, now: u64)
        requires
            old(self).wf(),
        ensures
            final(self).wf(),
            final(self).idle_timeout == old(self).idle_timeout,
            forall|id: u64|
                final(self)@.contains_key(id) == (old(self)@.contains_key(id) && !old(self).expired(
                    old(self)@[id],
                    now,
                )),
            forall|id: u64| final(self)@.contains_key(id) ==> final(self)@[id] == old(self)@[id],
    {
        let mut kept: Vec<Session> = Vec::new();
        let mut i: usize = 0;
        while i < self.sessions.len()
            invariant
                *self == *old(self),
                self.wf(),
                i <= self.sessions@.len(),
                forall|a: int, b: int|
                    0 <= a < b < kept@.len() ==> (#[trigger] kept@[a]).id != (#[trigger] kept@[b]).id,
                forall|a: int|
                    0 <= a < kept@.len() ==> among(self.sessions@, i as int, #[trigger] kept@[a])
                        && !self.expired(kept@[a], now),
                forall|j: int|
                    0 <= j < i && !self.expired(#[trigger] self.sessions@[j], now) ==> among(
                        kept@,
                        kept@.len() as int,
                        self.sessions@[j],
                    ),
            decreases self.sessions@.len() - i,
        {
            let session = self.sessions[i];
            let ghost before = kept@;
            if !self.is_expired(&session, now) {
                kept.push(session);
                assert(kept@[before.len() as int] == session);
            }
            proof {
                assert forall|a: int, b: int| 0 <= a < b < kept@.len() implies (
                #[trigger] kept@[a]).id != (#[trigger] kept@[b]).id by {
                    if b == before.len() {
                        let j = choose|j: int| 0 <= j < i && self.sessions@[j] == before[a];
                        assert(self.sessions@[j].id != self.sessions@[i as int].id);
                    } else {
                        assert(kept@[a] == before[a] && kept@[b] == before[b]);
                    }
                }
                assert forall|a: int| 0 <= a < kept@.len() implies among(
                    self.sessions@,
                    i + 1,
                    #[trigger] kept@[a],
                ) by {
                    if a < before.len() {
                        let j = choose|j: int| 0 <= j < i && self.sessions@[j] == before[a];
                        assert(self.sessions@[j] == kept@[a]);
                    } else {
                        assert(self.sessions@[i as int] == kept@[a]);
                    }
                }
                assert forall|j: int|
                    0 <= j < i + 1 && !self.expired(#[trigger] self.sessions@[j], now) implies among(
                    kept@,
                    kept@.len() as int,
                    self.sessions@[j],
                ) by {
                    if j < i {
                        let a = choose|a: int|
                            0 <= a < before.len() && before[a] == self.sessions@[j];
                        assert(kept@[a] == self.sessions@[j]);
                    } else {
                        assert(kept@[before.len() as int] == self.sessions@[j]);
                    }
                }
            }
            i += 1;
        }
        self.sessions = kept;
        proof {
            let pre = *old(self);
            let post = *self;
            pre.lemma_entries();
            post.lemma_entries();
            assert forall|id: u64| post@.contains_key(id) == (pre@.contains_key(id) && !pre.expired(
                pre@[id],
                now,
            )) by {
                if post.has(id) {
                    let a = post.position(id);
                    let j = choose|j: int|
                        0 <= j < pre.sessions@.len() && pre.sessions@[j] == kept@[a];
                    assert(pre.sessions@[j].id == id);
                }
                if pre.has(id) && !pre.expired(pre@[id], now) {
                    let j = pre.position(id);
                    assert(!pre.expired(pre.sessions@[j], now));
                    let a = choose|a: int| 0 <= a < kept@.len() && kept@[a] == pre.sessions@[j];
                    assert(post.sessions@[a].id == id);
                }
            }
            assert forall|id: u64| post@.contains_key(id) implies post@[id] == pre@[id] by {
                let a = post.position(id);
                let j = choose|j: int| 0 <= j < pre.sessions@.len() && pre.sessions@[j] == kept@[a];
                assert(pre.sessions@[j].id == id);
            }
        }
    }

    /// Releases the session with this id. Where there is none, nothing
    /// happens: destroying twice is the same as destroying once.
    pub fn destroy(&mut self, id: u64)
        requires
            old(self).wf(),
        ensures
            final(self).wf(),
            final(self).idle_timeout == old(self).idle_timeout,
            final(self)@ == old(self)@.remove(id),
            !old(self).has(id) ==> *final(self) == *old(self),
    {
        match self.find(id) {
            Some(i) => {
                self.sessions.remove(i);
                proof {
                    let pre = *old(self);
                    let post = *self;
                    assert(post.sessions@ == pre.sessions@.remove(i as int));
                    pre.lemma_entries();
                    assert(post.wf());
                    post.lemma_entries();
                    assert forall|k: u64| post.has(k) <==> (k != id && pre.has(k)) by {
                        if pre.has(k) && k != id {
                            let p = pre.position(k);
                            if p < i {
                                assert(post.sessions@[p].id == k);
                            } else {
                                assert(post.sessions@[p - 1].id == k);
                            }
                        }
                        if post.has(k) {
                            let p = post.position(k);
                            if p < i {
                                assert(pre.sessions@[p].id == k);
                            } else {
                                assert(pre.sessions@[p + 1].id == k);
                            }
                        }
                    }
                    assert forall|k: u64| post.has(k) implies post@[k] == pre@[k] by {
                        let p = post.position(k);
                        if p < i {
                            assert(pre.sessions@[p].id == k);
                        } else {
                            assert(pre.sessions@[p + 1].id == k);
                        }
                    }
                    assert(post@ =~= pre@.remove(id));
                }
            },
            None => {
                assert(self@ =~= old(self)@.remove(id));
            },
        }
    }
}

} // verus!
