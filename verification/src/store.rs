//! Session and refresh-token store: the persistent record of active
//! sessions and the single-use refresh tokens tied to them.
//!
//! The store owns the central invariant of the subsystem: per session,
//! exactly one currently-valid (unconsumed) refresh token exists at any
//! instant.  Rotation is exactly-once: marking the presented record
//! consumed and inserting its successor happen in one operation, so a
//! replayed token is always detected.  Each operation takes `&mut
//! self`, so concurrent rotations are serialized exactly as a
//! per-record atomic check-and-set would serialize them: two rotations
//! presenting the same token can never both observe it valid.
//!
//! Policy choice on replay: a rotation that presents an
//! already-consumed token is rejected with `RefreshConsumed` and the
//! owning session is left alone; revocation is an explicit, separate
//! act (`invalidate_session`).

use vstd::prelude::*;

use crate::errors::AuthError;
use crate::ip::IpAddress;

verus! {

/// One session: born at login or registration, revoked at most once,
/// never deleted.
#[derive(Clone, Copy, Debug, PartialEq, Eq, Structural)]
pub struct SessionRecord {
    pub session: i64,
    pub user_id: i32,
    pub created_at: u64,
    pub revoked: bool,
}

/// One refresh token: born at session creation or at a rotation, and
/// marked consumed the instant it is successfully exchanged.
#[derive(Clone, Copy, Debug, PartialEq, Eq, Structural)]
pub struct RefreshTokenRecord {
    pub token: u128,
    pub session: i64,
    pub created_at: u64,
    pub consumed: bool,
    pub bound_ip: IpAddress,
}

/// What a successful session creation hands back.
#[derive(Clone, Copy, Debug, PartialEq, Eq, Structural)]
pub struct CreateRefreshTokenResult {
    pub token: u128,
    pub session: i64,
}

/// What a successful rotation hands back.
#[derive(Clone, Copy, Debug, PartialEq, Eq, Structural)]
pub struct RefreshRefreshTokenResult {
    pub token: u128,
    pub session: i64,
    pub user_id: i32,
}

/// Abstract state of the store.
#[verifier::ext_equal]
pub struct StoreModel {
    pub sessions: Seq<SessionRecord>,
    pub tokens: Seq<RefreshTokenRecord>,
    pub next_session: i64,
}

/// No two session records share an identifier.
pub open spec fn session_ids_unique(s: Seq<SessionRecord>) -> bool {
    forall|i: int, j: int| 0 <= i < j < s.len() ==> s[i].session != s[j].session
}

/// No two token records share an identifier.
pub open spec fn token_ids_unique(t: Seq<RefreshTokenRecord>) -> bool {
    forall|i: int, j: int| 0 <= i < j < t.len() ==> t[i].token != t[j].token
}

/// Some session record carries identifier `sid`.
pub open spec fn has_session(s: Seq<SessionRecord>, sid: i64) -> bool {
    exists|i: int| 0 <= i < s.len() && s[i].session == sid
}

/// Index of the session record carrying `sid`.
pub open spec fn session_idx(s: Seq<SessionRecord>, sid: i64) -> int {
    choose|i: int| 0 <= i < s.len() && s[i].session == sid
}

/// Some token record carries identifier `id`.
pub open spec fn has_token(t: Seq<RefreshTokenRecord>, id: u128) -> bool {
    exists|i: int| 0 <= i < t.len() && t[i].token == id
}

/// Index of the token record carrying `id`.
pub open spec fn token_idx(t: Seq<RefreshTokenRecord>, id: u128) -> int {
    choose|i: int| 0 <= i < t.len() && t[i].token == id
}

/// At most one unconsumed token record per session.
pub open spec fn at_most_one_active(t: Seq<RefreshTokenRecord>) -> bool {
    forall|i: int, j: int|
        0 <= i < t.len() && 0 <= j < t.len() && i != j && !t[i].consumed && !t[j].consumed
            ==> t[i].session != t[j].session
}

/// Session `sid` owns an unconsumed token record.
pub open spec fn session_has_active_token(t: Seq<RefreshTokenRecord>, sid: i64) -> bool {
    exists|i: int| 0 <= i < t.len() && t[i].session == sid && !t[i].consumed
}

impl StoreModel {
    /// Well-formedness: identifiers are unique, every token belongs to
    /// a recorded session, session identifiers stay below the counter,
    /// and each session owns exactly one unconsumed token.
    pub open spec fn wf(self) -> bool {
        &&& session_ids_unique(self.sessions)
        &&& token_ids_unique(self.tokens)
        &&& 1 <= self.next_session
        &&& forall|i: int|
            0 <= i < self.sessions.len() ==> 0 < (#[trigger] self.sessions[i]).session
                < self.next_session
        &&& forall|i: int|
            0 <= i < self.tokens.len() ==> has_session(
                self.sessions,
                (#[trigger] self.tokens[i]).session,
            )
        &&& at_most_one_active(self.tokens)
        &&& forall|i: int|
            0 <= i < self.sessions.len() ==> session_has_active_token(
                self.tokens,
                (#[trigger] self.sessions[i]).session,
            )
    }

    /// The token record carrying `id`.
    pub open spec fn token(self, id: u128) -> RefreshTokenRecord {
        self.tokens[token_idx(self.tokens, id)]
    }

    /// The session record carrying `sid`.
    pub open spec fn session(self, sid: i64) -> SessionRecord {
        self.sessions[session_idx(self.sessions, sid)]
    }

    /// The session owning token `id` is revoked.
    pub open spec fn token_session_revoked(self, id: u128) -> bool {
        self.session(self.token(id).session).revoked
    }
}

/// A token record found at an index is the one the spec lookup names.
pub proof fn lemma_token_idx_of(t: Seq<RefreshTokenRecord>, id: u128, i: int)
    requires
        token_ids_unique(t),
        0 <= i < t.len(),
        t[i].token == id,
    ensures
        has_token(t, id),
        token_idx(t, id) == i,
{
    assert(has_token(t, id));
    let j = token_idx(t, id);
    assert(0 <= j < t.len() && t[j].token == id);
    if i != j {
        assert(t[i].token != t[j].token);
    }
}

/// A session record found at an index is the one the spec lookup names.
pub proof fn lemma_session_idx_of(s: Seq<SessionRecord>, sid: i64, i: int)
    requires
        session_ids_unique(s),
        0 <= i < s.len(),
        s[i].session == sid,
    ensures
        has_session(s, sid),
        session_idx(s, sid) == i,
{
    assert(has_session(s, sid));
    let j = session_idx(s, sid);
    assert(0 <= j < s.len() && s[j].session == sid);
    if i != j {
        assert(s[i].session != s[j].session);
    }
}

/// Outcome of creating a session together with its first refresh
/// token, in one atomic unit: a fresh session record and one
/// unconsumed token record, both appended.  A collision of the drawn
/// token identifier, or an exhausted session counter, is a transient
/// `Unavailable`.
pub open spec fn spec_create(
    m: StoreModel,
    user_id: i32,
    ip: IpAddress,
    now: u64,
    token_id: u128,
) -> (StoreModel, Result<CreateRefreshTokenResult, AuthError>) {
    if has_token(m.tokens, token_id) || m.next_session == i64::MAX {
        (m, Err(AuthError::Unavailable))
    } else {
        let sid = m.next_session;
        (
            StoreModel {
                sessions: m.sessions.push(
                    SessionRecord { session: sid, user_id, created_at: now, revoked: false },
                ),
                tokens: m.tokens.push(
                    RefreshTokenRecord {
                        token: token_id,
                        session: sid,
                        created_at: now,
                        consumed: false,
                        bound_ip: ip,
                    },
                ),
                next_session: (m.next_session + 1) as i64,
            },
            Ok(CreateRefreshTokenResult { token: token_id, session: sid }),
        )
    }
}

/// Outcome of a rotation: an unknown token is `RefreshNotFound`; a
/// token of a revoked session is `SessionRevoked`; a token already
/// exchanged is `RefreshConsumed` (replay detection); otherwise the
/// presented record is marked consumed and a fresh unconsumed record
/// bound to the presenting address is appended, atomically.
pub open spec fn spec_rotate(
    m: StoreModel,
    presented: u128,
    ip: IpAddress,
    now: u64,
    new_token: u128,
) -> (StoreModel, Result<RefreshRefreshTokenResult, AuthError>) {
    if !has_token(m.tokens, presented) {
        (m, Err(AuthError::RefreshNotFound))
    } else {
        let i = token_idx(m.tokens, presented);
        let tk = m.tokens[i];
        if m.session(tk.session).revoked {
            (m, Err(AuthError::SessionRevoked))
        } else if tk.consumed {
            (m, Err(AuthError::RefreshConsumed))
        } else if has_token(m.tokens, new_token) {
            (m, Err(AuthError::Unavailable))
        } else {
            (
                StoreModel {
                    sessions: m.sessions,
                    tokens: m.tokens.update(
                        i,
                        RefreshTokenRecord {
                            token: tk.token,
                            session: tk.session,
                            created_at: tk.created_at,
                            consumed: true,
                            bound_ip: tk.bound_ip,
                        },
                    ).push(
                        RefreshTokenRecord {
                            token: new_token,
                            session: tk.session,
                            created_at: now,
                            consumed: false,
                            bound_ip: ip,
                        },
                    ),
                    next_session: m.next_session,
                },
                Ok(
                    RefreshRefreshTokenResult {
                        token: new_token,
                        session: tk.session,
                        user_id: m.session(tk.session).user_id,
                    },
                ),
            )
        }
    }
}

/// Outcome of revoking a session: its record's `revoked` flag is set;
/// revoking an unknown or already-revoked session changes nothing.
pub open spec fn spec_invalidate(m: StoreModel, session: i64) -> StoreModel {
    if has_session(m.sessions, session) {
        let i = session_idx(m.sessions, session);
        let sr = m.sessions[i];
        StoreModel {
            sessions: m.sessions.update(
                i,
                SessionRecord {
                    session: sr.session,
                    user_id: sr.user_id,
                    created_at: sr.created_at,
                    revoked: true,
                },
            ),
            tokens: m.tokens,
            next_session: m.next_session,
        }
    } else {
        m
    }
}

/// The session and refresh-token store.
pub struct SessionStore {
    sessions: Vec<SessionRecord>,
    tokens: Vec<RefreshTokenRecord>,
    next_session: i64,
}

impl View for SessionStore {
    type V = StoreModel;

    closed spec fn view(&self) -> StoreModel {
        StoreModel { sessions: self.sessions@, tokens: self.tokens@, next_session: self.next_session }
    }
}

impl SessionStore {
    /// An empty store: no sessions, no tokens.
    pub fn new() -> (r: SessionStore)
        ensures
            r@.wf(),
            r@.sessions == Seq::<SessionRecord>::empty(),
            r@.tokens == Seq::<RefreshTokenRecord>::empty(),
            r@.next_session == 1,
    {
        let r = SessionStore { sessions: Vec::new(), tokens: Vec::new(), next_session: 1 };
        proof {
            assert(r@.sessions =~= Seq::<SessionRecord>::empty());
            assert(r@.tokens =~= Seq::<RefreshTokenRecord>::empty());
        }
        r
    }

    /// Position of the token record carrying `id`, if any.
    fn find_token(&self, id: u128) -> (r: Option<usize>)
        ensures
            match r {
                Some(i) => i < self.tokens@.len() && self.tokens@[i as int].token == id,
                None => !has_token(self.tokens@, id),
            },
    {
        let mut i: usize = 0;
        while i < self.tokens.len()
            invariant
                i <= self.tokens@.len(),
                forall|k: int| 0 <= k < i ==> (#[trigger] self.tokens@[k]).token != id,
            decreases self.tokens@.len() - i,
        {
            if self.tokens[i].token == id {
                return Some(i);
            }
            i = i + 1;
        }
        None
    }

    /// Position of the session record carrying `sid`, if any.
    fn find_session(&self, sid: i64) -> (r: Option<usize>)
        ensures
            match r {
                Some(i) => i < self.sessions@.len() && self.sessions@[i as int].session == sid,
                None => !has_session(self.sessions@, sid),
            },
    {
        let mut i: usize = 0;
        while i < self.sessions.len()
            invariant
                i <= self.sessions@.len(),
                forall|k: int| 0 <= k < i ==> (#[trigger] self.sessions@[k]).session != sid,
            decreases self.sessions@.len() - i,
        {
            if self.sessions[i].session == sid {
                return Some(i);
            }
            i = i + 1;
        }
        None
    }

    /// Insert a new session row and its first refresh-token row in one
    /// atomic unit, and return both identifiers.
    pub fn create_refresh_token(
        &mut self,
        user_id: i32,
        ip: IpAddress,
        now: u64,
        token_id: u128,
    ) -> (r: Result<CreateRefreshTokenResult, AuthError>)
        requires
            old(self)@.wf(),
        ensures
            final(self)@.wf(),
            (final(self)@, r) == spec_create(old(self)@, user_id, ip, now, token_id),
    {
        if self.find_token(token_id).is_some() || self.next_session == i64::MAX {
            proof {
                if self.next_session != i64::MAX {
                    assert(has_token(self.tokens@, token_id));
                }
            }
            return Err(AuthError::Unavailable);
        }
        let sid = self.next_session;
        self.sessions.push(SessionRecord { session: sid, user_id, created_at: now, revoked: false });
        self.tokens.push(
            RefreshTokenRecord {
                token: token_id,
                session: sid,
                created_at: now,
                consumed: false,
                bound_ip: ip,
            },
        );
        self.next_session = self.next_session + 1;
        proof {
            let m = old(self)@;
            let m2 = spec_create(m, user_id, ip, now, token_id).0;
            assert(self@ =~= m2);
            lemma_create_preserves_wf(m, user_id, ip, now, token_id);
        }
        Ok(CreateRefreshTokenResult { token: token_id, session: sid })
    }

    /// Atomically exchange a presented refresh token for its successor.
    ///
    /// Exactly one of several rotations presenting the same token can
    /// take the unconsumed record; every other one finds it consumed.
    pub fn refresh_refresh_token(
        &mut self,
        presented: u128,
        ip: IpAddress,
        now: u64,
        new_token: u128,
    ) -> (r: Result<RefreshRefreshTokenResult, AuthError>)
        requires
            old(self)@.wf(),
        ensures
            final(self)@.wf(),
            (final(self)@, r) == spec_rotate(old(self)@, presented, ip, now, new_token),
    {
        let idx = match self.find_token(presented) {
            None => {
                return Err(AuthError::RefreshNotFound);
            },
            Some(i) => i,
        };
        proof {
            lemma_token_idx_of(self.tokens@, presented, idx as int);
        }
        let tk = self.tokens[idx];
        let sidx = match self.find_session(tk.session) {
            None => {
                proof {
                    assert(has_session(self.sessions@, self.tokens@[idx as int].session));
                }
                // unreachable under wf: every token's session is recorded
                return Err(AuthError::Unavailable);
            },
            Some(i) => i,
        };
        proof {
            lemma_session_idx_of(self.sessions@, tk.session, sidx as int);
        }
        let sr = self.sessions[sidx];
        if sr.revoked {
            return Err(AuthError::SessionRevoked);
        }
        if tk.consumed {
            return Err(AuthError::RefreshConsumed);
        }
        if self.find_token(new_token).is_some() {
            return Err(AuthError::Unavailable);
        }
        self.tokens[idx] = RefreshTokenRecord {
            token: tk.token,
            session: tk.session,
            created_at: tk.created_at,
            consumed: true,
            bound_ip: tk.bound_ip,
        };
        self.tokens.push(
            RefreshTokenRecord {
                token: new_token,
                session: tk.session,
                created_at: now,
                consumed: false,
                bound_ip: ip,
            },
        );
        proof {
            let m = old(self)@;
            let m2 = spec_rotate(m, presented, ip, now, new_token).0;
            assert(self@ =~= m2);
            lemma_rotate_preserves_wf(m, presented, ip, now, new_token);
        }
        Ok(RefreshRefreshTokenResult { token: new_token, session: tk.session, user_id: sr.user_id })
    }

    /// Set the session's `revoked` flag.  Idempotent: revoking an
    /// already-revoked or unknown session succeeds silently.  All the
    /// session's refresh tokens become permanently unusable; they are
    /// checked at rotation time, not eagerly deleted.
    pub fn invalidate_session(&mut self, session: i64)
        requires
            old(self)@.wf(),
        ensures
            final(self)@.wf(),
            final(self)@ == spec_invalidate(old(self)@, session),
    {
        let idx = match self.find_session(session) {
            None => {
                proof {
                    assert(self@ =~= spec_invalidate(old(self)@, session));
                }
                return ;
            },
            Some(i) => i,
        };
        proof {
            lemma_session_idx_of(self.sessions@, session, idx as int);
        }
        let sr = self.sessions[idx];
        self.sessions[idx] = SessionRecord {
            session: sr.session,
            user_id: sr.user_id,
            created_at: sr.created_at,
            revoked: true,
        };
        proof {
            let m = old(self)@;
            assert(self@ =~= spec_invalidate(m, session));
            lemma_invalidate_preserves_wf(m, session);
        }
    }
}

/// Creation preserves the store invariant.
pub proof fn lemma_create_preserves_wf(
    m: StoreModel,
    user_id: i32,
    ip: IpAddress,
    now: u64,
    token_id: u128,
)
    requires
        m.wf(),
    ensures
        spec_create(m, user_id, ip, now, token_id).0.wf(),
{
    let (m2, r) = spec_create(m, user_id, ip, now, token_id);
    if !(has_token(m.tokens, token_id) || m.next_session == i64::MAX) {
        let sid = m.next_session;
        assert forall|i: int, j: int| 0 <= i < j < m2.sessions.len() implies m2.sessions[i].session
            != m2.sessions[j].session by {
            if j < m.sessions.len() {
            } else {
                assert(m2.sessions[j].session == sid);
                assert(m.sessions[i].session < sid);
            }
        }
        assert forall|i: int, j: int| 0 <= i < j < m2.tokens.len() implies m2.tokens[i].token
            != m2.tokens[j].token by {
            if j < m.tokens.len() {
            } else {
                assert(m2.tokens[j].token == token_id);
                assert(!has_token(m.tokens, token_id));
                assert(m.tokens[i].token != token_id);
            }
        }
        assert forall|i: int| 0 <= i < m2.tokens.len() implies has_session(
            m2.sessions,
            (#[trigger] m2.tokens[i]).session,
        ) by {
            if i < m.tokens.len() {
                let k = session_idx(m.sessions, m.tokens[i].session);
                assert(has_session(m.sessions, m.tokens[i].session));
                assert(0 <= k < m.sessions.len() && m.sessions[k].session == m.tokens[i].session);
                assert(m2.sessions[k].session == m.tokens[i].session);
            } else {
                assert(m2.sessions[m.sessions.len() as int].session == sid);
            }
        }
        assert forall|i: int, j: int|
            0 <= i < m2.tokens.len() && 0 <= j < m2.tokens.len() && i != j && !m2.tokens[i].consumed
                && !m2.tokens[j].consumed implies m2.tokens[i].session != m2.tokens[j].session by {
            if i < m.tokens.len() && j < m.tokens.len() {
            } else if i < m.tokens.len() {
                // j is the new token; the session of an old token is recorded, hence below sid
                assert(has_session(m.sessions, m.tokens[i].session));
                let k = session_idx(m.sessions, m.tokens[i].session);
                assert(0 <= k < m.sessions.len() && m.sessions[k].session == m.tokens[i].session);
                assert(m.tokens[i].session < sid);
            } else {
                assert(has_session(m.sessions, m.tokens[j].session));
                let k = session_idx(m.sessions, m.tokens[j].session);
                assert(0 <= k < m.sessions.len() && m.sessions[k].session == m.tokens[j].session);
                assert(m.tokens[j].session < sid);
            }
        }
        assert forall|i: int| 0 <= i < m2.sessions.len() implies session_has_active_token(
            m2.tokens,
            (#[trigger] m2.sessions[i]).session,
        ) by {
            if i < m.sessions.len() {
                let w = choose|w: int|
                    0 <= w < m.tokens.len() && m.tokens[w].session == m.sessions[i].session
                        && !m.tokens[w].consumed;
                assert(session_has_active_token(m.tokens, m.sessions[i].session));
                assert(m2.tokens[w].session == m2.sessions[i].session && !m2.tokens[w].consumed);
            } else {
                let w = m.tokens.len() as int;
                assert(m2.tokens[w].session == sid && !m2.tokens[w].consumed);
            }
        }
    }
}

/// Rotation preserves the store invariant.
pub proof fn lemma_rotate_preserves_wf(
    m: StoreModel,
    presented: u128,
    ip: IpAddress,
    now: u64,
    new_token: u128,
)
    requires
        m.wf(),
    ensures
        spec_rotate(m, presented, ip, now, new_token).0.wf(),
{
    let (m2, r) = spec_rotate(m, presented, ip, now, new_token);
    if r is Ok {
        let i = token_idx(m.tokens, presented);
        assert(0 <= i < m.tokens.len() && m.tokens[i].token == presented);
        let sid = m.tokens[i].session;
        assert forall|a: int, b: int| 0 <= a < b < m2.tokens.len() implies m2.tokens[a].token
            != m2.tokens[b].token by {
            if b < m.tokens.len() {
                assert(m2.tokens[a].token == m.tokens[a].token);
                assert(m2.tokens[b].token == m.tokens[b].token);
            } else {
                assert(m2.tokens[b].token == new_token);
                assert(!has_token(m.tokens, new_token));
                assert(m2.tokens[a].token == m.tokens[a].token);
                assert(m.tokens[a].token != new_token);
            }
        }
        assert forall|a: int| 0 <= a < m2.tokens.len() implies has_session(
            m2.sessions,
            (#[trigger] m2.tokens[a]).session,
        ) by {
            if a < m.tokens.len() {
                assert(m2.tokens[a].session == m.tokens[a].session);
            } else {
                assert(m2.tokens[a].session == sid);
                assert(has_session(m.sessions, sid));
            }
        }
        assert forall|a: int, b: int|
            0 <= a < m2.tokens.len() && 0 <= b < m2.tokens.len() && a != b && !m2.tokens[a].consumed
                && !m2.tokens[b].consumed implies m2.tokens[a].session != m2.tokens[b].session by {
            let n = m.tokens.len() as int;
            if a < n && b < n {
                assert(a != i && b != i);
                assert(m2.tokens[a] == m.tokens[a] && m2.tokens[b] == m.tokens[b]);
            } else if a < n {
                assert(b == n && a != i);
                assert(m2.tokens[a] == m.tokens[a]);
                // a is an old unconsumed record other than the presented one,
                // so its session differs from sid by at-most-one-active
                assert(!m.tokens[i].consumed && !m.tokens[a].consumed);
            } else {
                assert(a == n && b != i && b < n);
                assert(m2.tokens[b] == m.tokens[b]);
                assert(!m.tokens[i].consumed && !m.tokens[b].consumed);
            }
        }
        assert forall|a: int| 0 <= a < m2.sessions.len() implies session_has_active_token(
            m2.tokens,
            (#[trigger] m2.sessions[a]).session,
        ) by {
            let n = m.tokens.len() as int;
            if m2.sessions[a].session == sid {
                assert(m2.tokens[n].session == sid && !m2.tokens[n].consumed);
            } else {
                assert(session_has_active_token(m.tokens, m.sessions[a].session));
                let w = choose|w: int|
                    0 <= w < m.tokens.len() && m.tokens[w].session == m.sessions[a].session
                        && !m.tokens[w].consumed;
                assert(w != i);
                assert(m2.tokens[w] == m.tokens[w]);
            }
        }
    }
}

/// Exactly-once rotation: of any number of rotations presenting the
/// identical refresh token, serialized by the store's atomic
/// check-and-set, only the first can succeed; every later one finds
/// the record consumed and is rejected as a replay.
pub proof fn lemma_rotation_exactly_once(
    m: StoreModel,
    presented: u128,
    ip1: IpAddress,
    now1: u64,
    nt1: u128,
    ip2: IpAddress,
    now2: u64,
    nt2: u128,
)
    requires
        m.wf(),
        spec_rotate(m, presented, ip1, now1, nt1).1 is Ok,
    ensures
        spec_rotate(spec_rotate(m, presented, ip1, now1, nt1).0, presented, ip2, now2, nt2).1
            == Err::<RefreshRefreshTokenResult, AuthError>(AuthError::RefreshConsumed),
{
    let m2 = spec_rotate(m, presented, ip1, now1, nt1).0;
    let i = token_idx(m.tokens, presented);
    assert(0 <= i < m.tokens.len() && m.tokens[i].token == presented);
    lemma_rotate_preserves_wf(m, presented, ip1, now1, nt1);
    assert(m2.tokens[i].token == presented);
    lemma_token_idx_of(m2.tokens, presented, i);
    assert(m2.tokens[i].consumed);
    let sid = m.tokens[i].session;
    assert(m2.sessions == m.sessions);
    assert(!m.session(sid).revoked);
}

/// A failed rotation changes nothing: every rejection leaves the store
/// exactly as it was, so repeated replays of one token all see the
/// same state and the same answer.
pub proof fn lemma_failed_rotation_changes_nothing(
    m: StoreModel,
    presented: u128,
    ip: IpAddress,
    now: u64,
    new_token: u128,
)
    requires
        spec_rotate(m, presented, ip, now, new_token).1 is Err,
    ensures
        spec_rotate(m, presented, ip, now, new_token).0 == m,
{
}

/// A consumed token never rotates again: the attempt is rejected, as a
/// replay where the owning session is still active.
pub proof fn lemma_rotate_of_consumed(m: StoreModel, id: u128, ip: IpAddress, now: u64, nt: u128)
    requires
        m.wf(),
        has_token(m.tokens, id),
        m.token(id).consumed,
    ensures
        spec_rotate(m, id, ip, now, nt).1 is Err,
        !m.token_session_revoked(id) ==> spec_rotate(m, id, ip, now, nt).1
            == Err::<RefreshRefreshTokenResult, AuthError>(AuthError::RefreshConsumed),
{
}

/// Rotation never revives a consumed token.
pub proof fn lemma_rotate_preserves_consumed(
    m: StoreModel,
    id: u128,
    presented: u128,
    ip: IpAddress,
    now: u64,
    nt: u128,
)
    requires
        m.wf(),
        has_token(m.tokens, id),
        m.token(id).consumed,
    ensures
        ({
            let m2 = spec_rotate(m, presented, ip, now, nt).0;
            has_token(m2.tokens, id) && m2.token(id).consumed
        }),
{
    let m2 = spec_rotate(m, presented, ip, now, nt).0;
    let k = token_idx(m.tokens, id);
    assert(0 <= k < m.tokens.len() && m.tokens[k].token == id);
    if spec_rotate(m, presented, ip, now, nt).1 is Ok {
        let i = token_idx(m.tokens, presented);
        assert(!m.tokens[i].consumed);
        assert(k != i);
        lemma_rotate_preserves_wf(m, presented, ip, now, nt);
        assert(m2.tokens[k] == m.tokens[k]);
        lemma_token_idx_of(m2.tokens, id, k);
    } else {
        lemma_token_idx_of(m2.tokens, id, k);
    }
}

/// Session creation never revives a consumed token.
pub proof fn lemma_create_preserves_consumed(
    m: StoreModel,
    id: u128,
    user_id: i32,
    ip: IpAddress,
    now: u64,
    token_id: u128,
)
    requires
        m.wf(),
        has_token(m.tokens, id),
        m.token(id).consumed,
    ensures
        ({
            let m2 = spec_create(m, user_id, ip, now, token_id).0;
            has_token(m2.tokens, id) && m2.token(id).consumed
        }),
{
    let m2 = spec_create(m, user_id, ip, now, token_id).0;
    let k = token_idx(m.tokens, id);
    assert(0 <= k < m.tokens.len() && m.tokens[k].token == id);
    if spec_create(m, user_id, ip, now, token_id).1 is Ok {
        lemma_create_preserves_wf(m, user_id, ip, now, token_id);
        assert(m2.tokens[k] == m.tokens[k]);
        lemma_token_idx_of(m2.tokens, id, k);
    } else {
        lemma_token_idx_of(m2.tokens, id, k);
    }
}

/// Revocation never touches token records, consumed ones included.
pub proof fn lemma_invalidate_preserves_consumed(m: StoreModel, id: u128, session: i64)
    requires
        m.wf(),
        has_token(m.tokens, id),
        m.token(id).consumed,
    ensures
        ({
            let m2 = spec_invalidate(m, session);
            has_token(m2.tokens, id) && m2.token(id).consumed
        }),
{
    assert(spec_invalidate(m, session).tokens == m.tokens);
}

/// Revoking a session twice is the same as revoking it once, and the
/// second call succeeds just as silently.
pub proof fn lemma_invalidate_idempotent(m: StoreModel, session: i64)
    requires
        m.wf(),
    ensures
        spec_invalidate(spec_invalidate(m, session), session) == spec_invalidate(m, session),
{
    let m2 = spec_invalidate(m, session);
    if has_session(m.sessions, session) {
        let i = session_idx(m.sessions, session);
        assert(0 <= i < m.sessions.len() && m.sessions[i].session == session);
        lemma_invalidate_preserves_wf(m, session);
        assert(m2.sessions[i].session == session);
        lemma_session_idx_of(m2.sessions, session, i);
        let m3 = spec_invalidate(m2, session);
        assert(m3.sessions =~= m2.sessions);
        assert(m3 =~= m2);
    }
}

/// After a session is revoked, rotating any of its tokens — consumed
/// or not — is rejected with `SessionRevoked`.
pub proof fn lemma_rotate_after_invalidate(
    m: StoreModel,
    session: i64,
    id: u128,
    ip: IpAddress,
    now: u64,
    nt: u128,
)
    requires
        m.wf(),
        has_token(m.tokens, id),
        m.token(id).session == session,
    ensures
        spec_rotate(spec_invalidate(m, session), id, ip, now, nt).1
            == Err::<RefreshRefreshTokenResult, AuthError>(AuthError::SessionRevoked),
{
    let m2 = spec_invalidate(m, session);
    let k = token_idx(m.tokens, id);
    assert(0 <= k < m.tokens.len() && m.tokens[k].token == id);
    assert(has_session(m.sessions, session));
    let i = session_idx(m.sessions, session);
    assert(0 <= i < m.sessions.len() && m.sessions[i].session == session);
    assert(m2.tokens == m.tokens);
    lemma_invalidate_preserves_wf(m, session);
    assert(m2.sessions[i].session == session && m2.sessions[i].revoked);
    lemma_session_idx_of(m2.sessions, session, i);
    assert(m2.session(session).revoked);
}

/// Rotation never un-revokes a session.
pub proof fn lemma_rotate_preserves_revoked(
    m: StoreModel,
    sid: i64,
    presented: u128,
    ip: IpAddress,
    now: u64,
    nt: u128,
)
    requires
        m.wf(),
        has_session(m.sessions, sid),
        m.session(sid).revoked,
    ensures
        ({
            let m2 = spec_rotate(m, presented, ip, now, nt).0;
            has_session(m2.sessions, sid) && m2.session(sid).revoked
        }),
{
    assert(spec_rotate(m, presented, ip, now, nt).0.sessions == m.sessions);
}

/// Session creation never un-revokes a session.
pub proof fn lemma_create_preserves_revoked(
    m: StoreModel,
    sid: i64,
    user_id: i32,
    ip: IpAddress,
    now: u64,
    token_id: u128,
)
    requires
        m.wf(),
        has_session(m.sessions, sid),
        m.session(sid).revoked,
    ensures
        ({
            let m2 = spec_create(m, user_id, ip, now, token_id).0;
            has_session(m2.sessions, sid) && m2.session(sid).revoked
        }),
{
    let m2 = spec_create(m, user_id, ip, now, token_id).0;
    let i = session_idx(m.sessions, sid);
    assert(0 <= i < m.sessions.len() && m.sessions[i].session == sid);
    if spec_create(m, user_id, ip, now, token_id).1 is Ok {
        lemma_create_preserves_wf(m, user_id, ip, now, token_id);
        assert(m2.sessions[i] == m.sessions[i]);
        lemma_session_idx_of(m2.sessions, sid, i);
    } else {
        lemma_session_idx_of(m2.sessions, sid, i);
    }
}

/// Revoking one session never un-revokes another.
pub proof fn lemma_invalidate_preserves_revoked(m: StoreModel, sid: i64, session: i64)
    requires
        m.wf(),
        has_session(m.sessions, sid),
        m.session(sid).revoked,
    ensures
        ({
            let m2 = spec_invalidate(m, session);
            has_session(m2.sessions, sid) && m2.session(sid).revoked
        }),
{
    let m2 = spec_invalidate(m, session);
    let i = session_idx(m.sessions, sid);
    assert(0 <= i < m.sessions.len() && m.sessions[i].session == sid);
    lemma_invalidate_preserves_wf(m, session);
    if has_session(m.sessions, session) {
        let j = session_idx(m.sessions, session);
        assert(m2.sessions[i].session == sid && m2.sessions[i].revoked);
        lemma_session_idx_of(m2.sessions, sid, i);
    } else {
        lemma_session_idx_of(m2.sessions, sid, i);
    }
}

/// Revocation preserves the store invariant.
pub proof fn lemma_invalidate_preserves_wf(m: StoreModel, session: i64)
    requires
        m.wf(),
    ensures
        spec_invalidate(m, session).wf(),
{
    let m2 = spec_invalidate(m, session);
    if has_session(m.sessions, session) {
        let i = session_idx(m.sessions, session);
        assert(0 <= i < m.sessions.len() && m.sessions[i].session == session);
        assert forall|a: int, b: int| 0 <= a < b < m2.sessions.len() implies m2.sessions[a].session
            != m2.sessions[b].session by {
            assert(m2.sessions[a].session == m.sessions[a].session);
            assert(m2.sessions[b].session == m.sessions[b].session);
        }
        assert forall|a: int| 0 <= a < m2.tokens.len() implies has_session(
            m2.sessions,
            (#[trigger] m2.tokens[a]).session,
        ) by {
            assert(has_session(m.sessions, m.tokens[a].session));
            let k = session_idx(m.sessions, m.tokens[a].session);
            assert(0 <= k < m.sessions.len() && m.sessions[k].session == m.tokens[a].session);
            assert(m2.sessions[k].session == m.tokens[a].session);
        }
        assert forall|a: int| 0 <= a < m2.sessions.len() implies session_has_active_token(
            m2.tokens,
            (#[trigger] m2.sessions[a]).session,
        ) by {
            assert(m2.sessions[a].session == m.sessions[a].session);
            assert(session_has_active_token(m.tokens, m.sessions[a].session));
        }
    }
}

} // verus!
