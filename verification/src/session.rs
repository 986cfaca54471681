//! Sessions for multi-user authentication: a bounded, in-memory store
//! mapping 256-bit random tokens to the user chosen in that session, with an
//! absolute lifetime measured from creation and least-recently-active
//! eviction when the store is full; plus the session cookie.
//!
//! Clock readings are passed in by the caller: `now_ms` is a monotonic clock
//! in milliseconds (lifetime), `now_secs` the wall clock in seconds since
//! the UNIX epoch (last activity, used only to pick the session to evict).
use vstd::prelude::*;
use vstd::string::StringExecFns;
use dashmap::DashMap;
use crate::metadata::{split_char, split_pieces, lemma_split_without_separator};
use crate::text::{chars_of, copy_range, string_from_chars, trim, trim_spec, is_unicode_whitespace,
    lemma_leading_count, lemma_trailing_count, strip_start, strip_end, ws_pred};
use crate::token::{hex_decode, hex_decoded, hex_encode, hex_string};
use vstd::string::StringSliceAdditionalSpecFns;

verus! {

#[verifier::external_type_specification]
#[verifier::external_body]
#[verifier::reject_recursive_types(K)]
#[verifier::reject_recursive_types(V)]
#[verifier::reject_recursive_types(S)]
pub struct ExDashMap<K, V, S>(DashMap<K, V, S>);

/// The network address of the client that created a session.
#[derive(Clone, Copy, Debug)]
pub enum ClientIp {
    V4([u8; 4]),
    V6([u8; 16]),
}

/// Stored per session: the user id (`NO_USER` when none is chosen), the
/// creation time in monotonic milliseconds, the last activity in seconds
/// since the UNIX epoch, and the address of the client that created it.
pub type SessionRecord = (i64, u64, u64, ClientIp);

/// The concurrent table of sessions keyed by token bytes.
pub type SessionTable = DashMap<[u8; 32], SessionRecord>;

/// The contents of a session table: token bytes to record.
pub uninterp spec fn session_table(m: SessionTable) -> Map<Seq<u8>, SessionRecord>;

/// The table with no sessions.
pub open spec fn empty_table() -> Map<Seq<u8>, SessionRecord> {
    Map::empty()
}

/// `DashMap::new`: an empty table.
#[verifier::external_body]
fn table_new() -> (fresh: SessionTable)
    ensures
        session_table(fresh) == empty_table(),
{
    DashMap::new()
}

/// `DashMap::len`: the number of entries.
#[verifier::external_body]
fn table_len(m: &SessionTable) -> (n: usize)
    ensures
        session_table(*m).len() == n,
{
    m.len()
}

/// `DashMap::insert`: the key now maps to the value; other keys keep theirs.
#[verifier::external_body]
fn table_insert(m: &mut SessionTable, k: [u8; 32], v: SessionRecord)
    ensures
        session_table(*final(m)) == session_table(*old(m)).insert(k@, v),
{
    m.insert(k, v);
}

/// `DashMap::get`: the value stored under the key, copied out.
#[verifier::external_body]
fn table_get(m: &SessionTable, k: &[u8; 32]) -> (r: Option<SessionRecord>)
    ensures
        r == (if session_table(*m).contains_key(k@) {
            Some(session_table(*m)[k@])
        } else {
            None
        }),
{
    m.get(k).map(|e| *e.value())
}

/// `DashMap::remove`: the key no longer maps to anything.
#[verifier::external_body]
fn table_remove(m: &mut SessionTable, k: &[u8; 32])
    ensures
        session_table(*final(m)) == session_table(*old(m)).remove(k@),
{
    m.remove(k);
}

/// `DashMap::iter`: every entry once, in an unspecified order. The table is
/// reached only through the store, which iterates it while holding it
/// exclusively, so no entry changes during the walk.
#[verifier::external_body]
fn table_entries(m: &SessionTable) -> (v: Vec<([u8; 32], SessionRecord)>)
    ensures
        v@.len() == session_table(*m).len(),
        forall|i: int|
            0 <= i < v@.len() ==> session_table(*m).contains_key((#[trigger] v@[i]).0@)
                && session_table(*m)[v@[i].0@] == v@[i].1,
        forall|i: int, j: int| 0 <= i < j < v@.len() ==> (#[trigger] v@[i]).0@ != (#[trigger] v@[j]).0@,
        forall|k: Seq<u8>|
            #[trigger] session_table(*m).contains_key(k) ==> exists|j: int|
                0 <= j < v@.len() && v@[j].0@ == k,
{
    m.iter().map(|e| (*e.key(), *e.value())).collect()
}

/// Which sessions a sweep keeps.
pub enum RetainRule {
    /// Keep the sessions not bound to this user.
    NotUser(i64),
    /// Keep the sessions alive at this monotonic time with this lifetime.
    AliveAt(u64, u64),
}

/// Whether a sweep with the rule keeps a record.
pub open spec fn keeps_spec(rule: RetainRule, rec: SessionRecord) -> bool {
    match rule {
        RetainRule::NotUser(u) => session_user(rec) != Some(u),
        RetainRule::AliveAt(now, ttl) => !expired(rec, now, ttl),
    }
}

/// Whether a sweep with the rule keeps a record.
pub fn keeps(rule: &RetainRule, rec: &SessionRecord) -> (b: bool)
    ensures
        b == keeps_spec(*rule, *rec),
{
    match rule {
        RetainRule::NotUser(u) => !(rec.0 != NO_USER && rec.0 == *u),
        RetainRule::AliveAt(now, ttl) => !is_expired(rec, *now, *ttl),
    }
}

/// `DashMap::retain` with a verified rule: exactly the kept entries remain.
#[verifier::external_body]
fn table_retain(m: &mut SessionTable, rule: &RetainRule)
    ensures
        session_table(*final(m)) == Map::new(
            |k: Seq<u8>| session_table(*old(m)).contains_key(k) && keeps_spec(
                *rule,
                session_table(*old(m))[k],
            ),
            |k: Seq<u8>| session_table(*old(m))[k],
        ),
{
    m.retain(|_, v| keeps(rule, v));
}

/// `rand::Rng::fill_bytes` on the thread-local generator: 32 random bytes.
/// Nothing is promised of the value.
#[verifier::external_body]
fn random_token() -> (t: [u8; 32]) {
    let mut token_bytes = [0u8; 32];
    rand::RngCore::fill_bytes(&mut rand::rng(), &mut token_bytes);
    token_bytes
}

/// Sentinel value indicating no user is selected within a session.
pub const NO_USER: i64 = i64::MIN;

/// The user a record holds, if any.
pub open spec fn session_user(rec: SessionRecord) -> Option<i64> {
    if rec.0 == NO_USER {
        None
    } else {
        Some(rec.0)
    }
}

/// A session is expired once more than `ttl_ms` have passed since it was
/// created (an absolute lifetime, not extended by activity).
pub open spec fn expired(rec: SessionRecord, now_ms: u64, ttl_ms: u64) -> bool {
    now_ms >= rec.1 && now_ms - rec.1 > ttl_ms
}

fn is_expired(rec: &SessionRecord, now_ms: u64, ttl_ms: u64) -> (b: bool)
    ensures
        b == expired(*rec, now_ms, ttl_ms),
{
    now_ms >= rec.1 && now_ms - rec.1 > ttl_ms
}

/// What a valid session lookup reports.
pub struct SessionInfo {
    /// The user selected in the session, if any.
    pub user_id: Option<i64>,
    /// Creation time in monotonic milliseconds.
    pub created_at_ms: u64,
    /// The address of the client that created the session.
    pub ip: ClientIp,
}

/// In-memory session store with bounded capacity and TTL-based expiry.
pub struct SessionStore {
    sessions: SessionTable,
    max_sessions: usize,
    session_ttl_ms: u64,
    /// Whether the server is running in localhost mode (enables auto-session).
    is_localhost: bool,
}

/// What a lookup of the token bytes `b` finds at time `now_ms`: the user,
/// creation time and creating client of a live session, or nothing.
pub open spec fn lookup_spec(
    view: Map<Seq<u8>, SessionRecord>,
    b: Seq<u8>,
    now_ms: u64,
    ttl_ms: u64,
) -> Option<(Option<i64>, u64, ClientIp)> {
    match hex_decoded(b) {
        None => None,
        Some(k) => if view.contains_key(k) && !expired(view[k], now_ms, ttl_ms) {
            Some((session_user(view[k]), view[k].1, view[k].3))
        } else {
            None
        },
    }
}

/// The store after a lookup: an expired session is removed, a live one has
/// its activity time set to `now_secs`.
pub open spec fn after_lookup_spec(
    view: Map<Seq<u8>, SessionRecord>,
    b: Seq<u8>,
    now_ms: u64,
    now_secs: u64,
    ttl_ms: u64,
) -> Map<Seq<u8>, SessionRecord> {
    match hex_decoded(b) {
        None => view,
        Some(k) => if !view.contains_key(k) {
            view
        } else if expired(view[k], now_ms, ttl_ms) {
            view.remove(k)
        } else {
            view.insert(k, (view[k].0, view[k].1, now_secs, view[k].3))
        },
    }
}

/// Whether a lookup of the token bytes `b` finds an expired session (which
/// it then removes).
pub open spec fn expired_lookup(view: Map<Seq<u8>, SessionRecord>, b: Seq<u8>, now_ms: u64, ttl_ms: u64) -> bool {
    match hex_decoded(b) {
        Some(k) => view.contains_key(k) && expired(view[k], now_ms, ttl_ms),
        None => false,
    }
}

/// The record a new session starts with.
pub open spec fn new_record(user_id: Option<i64>, now_ms: u64, now_secs: u64, ip: ClientIp) -> SessionRecord {
    (
        match user_id {
            Some(u) => u,
            None => NO_USER,
        },
        now_ms,
        now_secs,
        ip,
    )
}

/// Whether `k` is a session whose last activity is no later than any
/// other's.
pub open spec fn is_least_recent(view: Map<Seq<u8>, SessionRecord>, k: Seq<u8>) -> bool {
    view.contains_key(k) && forall|k2: Seq<u8>| #[trigger] view.contains_key(k2) ==> view[k].2 <= view[k2].2
}

/// Whether some session can be evicted: one whose activity time is below
/// `u64::MAX`.
pub open spec fn evictable(view: Map<Seq<u8>, SessionRecord>) -> bool {
    exists|k: Seq<u8>| view.contains_key(k) && view[k].2 < u64::MAX
}

/// The store after creating a session under `key` with `rec`: below the
/// capacity (or when nothing can be evicted) the session is simply added;
/// at capacity exactly one least-recently-active session is removed first.
pub open spec fn created_view(
    old: Map<Seq<u8>, SessionRecord>,
    capacity: nat,
    key: Seq<u8>,
    rec: SessionRecord,
    new: Map<Seq<u8>, SessionRecord>,
) -> bool {
    if old.len() < capacity || !evictable(old) {
        new == old.insert(key, rec)
    } else {
        exists|k: Seq<u8>| is_least_recent(old, k) && new == old.remove(k).insert(key, rec)
    }
}

impl SessionStore {
    /// Well-formedness: the table holds finitely many sessions.
    pub open spec fn wf(&self) -> bool {
        self.view().dom().finite()
    }

    /// The contents of the store.
    pub closed spec fn view(&self) -> Map<Seq<u8>, SessionRecord> {
        session_table(self.sessions)
    }

    /// The configured capacity.
    pub closed spec fn capacity(&self) -> nat {
        self.max_sessions as nat
    }

    /// The configured lifetime in milliseconds.
    pub closed spec fn ttl(&self) -> u64 {
        self.session_ttl_ms
    }

    /// Whether the store serves a localhost-only server.
    pub closed spec fn localhost(&self) -> bool {
        self.is_localhost
    }

    /// Whether the store serves a localhost-only server (no `Secure`
    /// cookie attribute then).
    pub fn is_localhost(&self) -> (b: bool)
        ensures
            b == self.localhost(),
    {
        self.is_localhost
    }

    /// Creates an empty store with the given capacity, lifetime and
    /// localhost flag.
    pub fn new(max_sessions: usize, session_ttl_ms: u64, is_localhost: bool) -> (s: SessionStore)
        ensures
            s.view() == Map::<Seq<u8>, SessionRecord>::empty(),
            s.capacity() == max_sessions,
            s.ttl() == session_ttl_ms,
            s.localhost() == is_localhost,
            s.wf(),
    {
        let t = table_new();
        assert(session_table(t).dom() =~= Set::empty());
        SessionStore { sessions: t, max_sessions, session_ttl_ms, is_localhost }
    }

    /// Returns the number of active sessions.
    pub fn len(&self) -> (n: usize)
        ensures
            n == self.view().len(),
    {
        table_len(&self.sessions)
    }

    /// Returns true if there are no active sessions.
    pub fn is_empty(&self) -> (b: bool)
        ensures
            b == (self.view().len() == 0),
    {
        table_len(&self.sessions) == 0
    }

    /// Returns the configured session lifetime in milliseconds.
    pub fn session_ttl(&self) -> (t: u64)
        ensures
            t == self.ttl(),
    {
        self.session_ttl_ms
    }

    /// Evicts a session with the smallest last-activity time; nothing is
    /// evicted when the store is empty or every activity time is `u64::MAX`.
    fn evict_lru(&mut self)
        requires
            old(self).wf(),
        ensures
            final(self).wf(),
            final(self).capacity() == old(self).capacity(),
            final(self).ttl() == old(self).ttl(),
            final(self).localhost() == old(self).localhost(),
            evictable(old(self).view()) ==> exists|k: Seq<u8>|
                is_least_recent(old(self).view(), k) && final(self).view() == old(self).view().remove(k),
            !evictable(old(self).view()) ==> final(self).view() == old(self).view(),
    {
        let entries = table_entries(&self.sessions);
        let ghost m = session_table(self.sessions);
        let mut oldest: Option<[u8; 32]> = None;
        let mut oldest_time: u64 = u64::MAX;
        let mut i: usize = 0;
        while i < entries.len()
            invariant
                i <= entries@.len(),
                forall|j: int|
                    0 <= j < entries@.len() ==> m.contains_key((#[trigger] entries@[j]).0@)
                        && m[entries@[j].0@] == entries@[j].1,
                forall|j: int| 0 <= j < i ==> oldest_time <= (#[trigger] entries@[j]).1.2,
                oldest matches Some(k) ==> m.contains_key(k@) && m[k@].2 == oldest_time
                    && oldest_time < u64::MAX,
                oldest is None ==> oldest_time == u64::MAX,
            decreases entries@.len() - i,
        {
            let last = entries[i].1.2;
            if last < oldest_time {
                oldest_time = last;
                oldest = Some(entries[i].0);
            }
            i = i + 1;
        }
        match oldest {
            Some(k) => {
                table_remove(&mut self.sessions, &k);
                assert forall|k2: Seq<u8>| #[trigger] m.contains_key(k2) implies m[k@].2 <= m[k2].2 by {
                    let j = choose|j: int| 0 <= j < entries@.len() && entries@[j].0@ == k2;
                    assert(oldest_time <= entries@[j].1.2);
                }
                assert(session_table(self.sessions).dom() =~= m.dom().remove(k@));
            },
            None => {
                assert forall|k: Seq<u8>| m.contains_key(k) implies m[k].2 == u64::MAX by {
                    let j = choose|j: int| 0 <= j < entries@.len() && entries@[j].0@ == k;
                    assert(oldest_time <= entries@[j].1.2);
                }
            },
        }
    }

    /// Creates a session bound to the given token bytes and returns the
    /// token's hex encoding. If the store is at capacity, a
    /// least-recently-active session is evicted first.
    pub fn create_session_with_token(
        &mut self,
        token: [u8; 32],
        user_id: Option<i64>,
        ip: ClientIp,
        now_ms: u64,
        now_secs: u64,
    ) -> (t: String)
        requires
            old(self).wf(),
        ensures
            final(self).wf(),
            t@ == hex_string(token@),
            final(self).capacity() == old(self).capacity(),
            final(self).ttl() == old(self).ttl(),
            final(self).localhost() == old(self).localhost(),
            created_view(
                old(self).view(),
                old(self).capacity(),
                token@,
                new_record(user_id, now_ms, now_secs, ip),
                final(self).view(),
            ),
            !old(self).view().contains_key(token@) ==> final(self).view().len() == (if old(
                self,
            ).view().len() < old(self).capacity() || !evictable(old(self).view()) {
                old(self).view().len() + 1int
            } else {
                old(self).view().len() as int
            }),
            old(self).view().len() <= old(self).capacity() && old(self).capacity() > 0 && evictable(
                old(self).view(),
            ) ==> final(self).view().len() <= final(self).capacity(),
            old(self).view().len() < old(self).capacity() ==> final(self).view().len()
                <= final(self).capacity(),
    {
        let ghost start = session_table(self.sessions);
        let n = table_len(&self.sessions);
        if n >= self.max_sessions {
            self.evict_lru();
        }
        let ghost before = session_table(self.sessions);
        let rec: SessionRecord = (
            match user_id {
                Some(u) => u,
                None => NO_USER,
            },
            now_ms,
            now_secs,
            ip,
        );
        table_insert(&mut self.sessions, token, rec);
        proof {
            let after = session_table(self.sessions);
            if before.contains_key(token@) {
                assert(after.dom() =~= before.dom());
            } else {
                assert(after.dom() =~= before.dom().insert(token@));
            }
            assert(after.dom().finite());
            if !(start.len() < self.max_sessions || !evictable(start)) {
                let k = choose|k: Seq<u8>| is_least_recent(start, k) && before == start.remove(k);
                if !start.contains_key(token@) {
                    assert(start.remove(k).dom() =~= start.dom().remove(k));
                }
            }
        }
        hex_encode(&token)
    }

    /// Creates a session for the client at `ip` with a fresh random token
    /// and returns the token's hex encoding.
    pub fn create_session(&mut self, ip: ClientIp, user_id: Option<i64>, now_ms: u64, now_secs: u64) -> (t:
        String)
        requires
            old(self).wf(),
        ensures
            final(self).wf(),
            exists|b: Seq<u8>|
                b.len() == 32 && t@ == hex_string(b) && created_view(
                    old(self).view(),
                    old(self).capacity(),
                    b,
                    new_record(user_id, now_ms, now_secs, ip),
                    final(self).view(),
                ) && (!old(self).view().contains_key(b) ==> final(self).view().len() == (if old(
                    self,
                ).view().len() < old(self).capacity() || !evictable(old(self).view()) {
                    old(self).view().len() + 1int
                } else {
                    old(self).view().len() as int
                })),
            final(self).capacity() == old(self).capacity(),
            final(self).ttl() == old(self).ttl(),
            final(self).localhost() == old(self).localhost(),
    {
        let token = random_token();
        self.create_session_with_token(token, user_id, ip, now_ms, now_secs)
    }

    /// Looks up a session by hex-encoded token at time `now_ms`. An expired
    /// session is removed and not returned; a live one has its activity time
    /// set to `now_secs` (which only orders eviction).
    pub fn get_session(&mut self, token_hex: &str, now_ms: u64, now_secs: u64) -> (r: Option<
        SessionInfo,
    >)
        requires
            old(self).wf(),
        ensures
            final(self).wf(),
            match (r, lookup_spec(old(self).view(), token_hex.spec_bytes(), now_ms, old(self).ttl())) {
                (Some(info), Some((u, c, ip))) => info.user_id == u && info.created_at_ms == c
                    && info.ip == ip,
                (None, None) => true,
                _ => false,
            },
            final(self).view() == after_lookup_spec(
                old(self).view(),
                token_hex.spec_bytes(),
                now_ms,
                now_secs,
                old(self).ttl(),
            ),
            final(self).view().len() == old(self).view().len() - (if expired_lookup(
                old(self).view(),
                token_hex.spec_bytes(),
                now_ms,
                old(self).ttl(),
            ) {
                1int
            } else {
                0int
            }),
            final(self).capacity() == old(self).capacity(),
            final(self).ttl() == old(self).ttl(),
            final(self).localhost() == old(self).localhost(),
    {
        let token = match hex_decode(token_hex) {
            Some(t) => t,
            None => {
                return None;
            },
        };
        let rec = match table_get(&self.sessions, &token) {
            Some(r) => r,
            None => {
                return None;
            },
        };
        let ghost m = session_table(self.sessions);
        if is_expired(&rec, now_ms, self.session_ttl_ms) {
            table_remove(&mut self.sessions, &token);
            assert(session_table(self.sessions).dom() =~= m.dom().remove(token@));
            return None;
        }
        table_insert(&mut self.sessions, token, (rec.0, rec.1, now_secs, rec.3));
        assert(session_table(self.sessions).dom() =~= m.dom());
        let user_id = if rec.0 == NO_USER {
            None
        } else {
            Some(rec.0)
        };
        Some(SessionInfo { user_id, created_at_ms: rec.1, ip: rec.3 })
    }

    /// Sets the user of an existing session (expired or not) and marks it
    /// active. Returns `false` if the token is malformed or unknown.
    pub fn set_session_user(&mut self, token_hex: &str, user_id: i64, now_secs: u64) -> (b: bool)
        requires
            old(self).wf(),
        ensures
            final(self).wf(),
            b == (hex_decoded(token_hex.spec_bytes()) matches Some(k) && old(
                self,
            ).view().contains_key(k)),
            b ==> final(self).view() == old(self).view().insert(
                hex_decoded(token_hex.spec_bytes())->0,
                (
                    user_id,
                    old(self).view()[hex_decoded(token_hex.spec_bytes())->0].1,
                    now_secs,
                    old(self).view()[hex_decoded(token_hex.spec_bytes())->0].3,
                ),
            ),
            !b ==> final(self).view() == old(self).view(),
            final(self).capacity() == old(self).capacity(),
            final(self).ttl() == old(self).ttl(),
            final(self).localhost() == old(self).localhost(),
    {
        if let Some(token) = hex_decode(token_hex) {
            if let Some(rec) = table_get(&self.sessions, &token) {
                let ghost m = session_table(self.sessions);
                table_insert(&mut self.sessions, token, (user_id, rec.1, now_secs, rec.3));
                assert(session_table(self.sessions).dom() =~= m.dom());
                return true;
            }
        }
        false
    }

    /// Removes a session by hex-encoded token.
    pub fn remove_session(&mut self, token_hex: &str)
        requires
            old(self).wf(),
        ensures
            final(self).wf(),
            final(self).view() == (match hex_decoded(token_hex.spec_bytes()) {
                Some(k) => old(self).view().remove(k),
                None => old(self).view(),
            }),
            final(self).capacity() == old(self).capacity(),
            final(self).ttl() == old(self).ttl(),
            final(self).localhost() == old(self).localhost(),
    {
        if let Some(token) = hex_decode(token_hex) {
            let ghost m = session_table(self.sessions);
            table_remove(&mut self.sessions, &token);
            assert(session_table(self.sessions).dom() =~= m.dom().remove(token@));
        }
    }

    fn sweep(&mut self, rule: &RetainRule)
        requires
            old(self).wf(),
        ensures
            final(self).wf(),
            final(self).view() == Map::new(
                |k: Seq<u8>| old(self).view().contains_key(k) && keeps_spec(*rule, old(self).view()[k]),
                |k: Seq<u8>| old(self).view()[k],
            ),
            final(self).capacity() == old(self).capacity(),
            final(self).ttl() == old(self).ttl(),
            final(self).localhost() == old(self).localhost(),
    {
        let ghost m = session_table(self.sessions);
        table_retain(&mut self.sessions, rule);
        assert(session_table(self.sessions).dom().subset_of(m.dom()));
        proof {
            vstd::set_lib::lemma_set_subset_finite(m.dom(), session_table(self.sessions).dom());
        }
    }

    /// Removes all sessions bound to the given user (when the user is
    /// deleted); all other sessions stay unchanged.
    pub fn remove_sessions_for_user(&mut self, user_id: i64)
        requires
            old(self).wf(),
        ensures
            final(self).wf(),
            forall|k: Seq<u8>|
                #[trigger] final(self).view().contains_key(k) <==> old(self).view().contains_key(k)
                    && session_user(old(self).view()[k]) != Some(user_id),
            forall|k: Seq<u8>|
                #[trigger] final(self).view().contains_key(k) ==> final(self).view()[k] == old(
                    self,
                ).view()[k],
            final(self).capacity() == old(self).capacity(),
            final(self).ttl() == old(self).ttl(),
    {
        self.sweep(&RetainRule::NotUser(user_id));
    }

    /// Removes all sessions expired at `now_ms`; the live ones stay
    /// unchanged.
    pub fn cleanup_expired(&mut self, now_ms: u64)
        requires
            old(self).wf(),
        ensures
            final(self).wf(),
            forall|k: Seq<u8>|
                #[trigger] final(self).view().contains_key(k) <==> old(self).view().contains_key(k)
                    && !expired(old(self).view()[k], now_ms, old(self).ttl()),
            forall|k: Seq<u8>|
                #[trigger] final(self).view().contains_key(k) ==> final(self).view()[k] == old(
                    self,
                ).view()[k],
            final(self).capacity() == old(self).capacity(),
            final(self).ttl() == old(self).ttl(),
    {
        let rule = RetainRule::AliveAt(now_ms, self.session_ttl_ms);
        self.sweep(&rule);
    }
}

/// Law (read after write): a session stored under token bytes `t` is found
/// again through the hex text that `create_session_with_token` returned for
/// `t`, as long as it has not expired, with the user, creation time and
/// client address that were stored.
pub proof fn lemma_session_read_after_write(
    view: Map<Seq<u8>, SessionRecord>,
    t: Seq<u8>,
    now_ms: u64,
    ttl_ms: u64,
)
    requires
        t.len() == 32,
        view.contains_key(t),
        !expired(view[t], now_ms, ttl_ms),
    ensures
        lookup_spec(view, crate::token::ascii_bytes(hex_string(t)), now_ms, ttl_ms) == Some(
            (session_user(view[t]), view[t].1, view[t].3),
        ),
{
    crate::token::lemma_hex_round_trip(t);
}

/// Law (absolute lifetime): a lookup never changes any session's user or
/// creation time, so activity does not extend a session's lifetime; it
/// only refreshes the activity time of a live session, removes the session
/// it finds expired, and adds nothing.
pub proof fn lemma_lookup_keeps_lifetime(
    view: Map<Seq<u8>, SessionRecord>,
    b: Seq<u8>,
    now_ms: u64,
    now_secs: u64,
    ttl_ms: u64,
)
    ensures
        forall|k: Seq<u8>|
            #[trigger] after_lookup_spec(view, b, now_ms, now_secs, ttl_ms).contains_key(k) ==> view.contains_key(k)
                && after_lookup_spec(view, b, now_ms, now_secs, ttl_ms)[k].0 == view[k].0
                && after_lookup_spec(view, b, now_ms, now_secs, ttl_ms)[k].1 == view[k].1,
        forall|k: Seq<u8>|
            #[trigger] view.contains_key(k) && hex_decoded(b) == Some(k) && expired(
                view[k],
                now_ms,
                ttl_ms,
            ) ==> !after_lookup_spec(view, b, now_ms, now_secs, ttl_ms).contains_key(k),
{
}

/// Law: the bytes of an ASCII string are its characters as bytes, so a
/// token string handed back by the store decodes through `spec_bytes`.
pub proof fn lemma_ascii_spec_bytes(s: &str)
    requires
        vstd::utf8::is_ascii_chars(s@),
    ensures
        s.spec_bytes() == crate::token::ascii_bytes(s@),
{
    broadcast use vstd::string::is_ascii_spec_bytes;
    assert(vstd::string::is_ascii(s));
    assert(s.spec_bytes() =~= crate::token::ascii_bytes(s@));
}

// ---------------------------------------------------------------------------
// Session cookie
// ---------------------------------------------------------------------------

/// The value of a cookie-header piece when it is the session cookie with a
/// non-empty value.
pub open spec fn cookie_value(piece: Seq<char>) -> Option<Seq<char>> {
    let t = trim_spec(piece);
    if t.len() >= 11 && t.take(11) == "np_session="@ {
        let v = trim_spec(t.skip(11));
        if v.len() > 0 {
            Some(v)
        } else {
            None
        }
    } else {
        None
    }
}

/// The first session cookie value among the pieces from index `i` on.
pub open spec fn first_cookie(pieces: Seq<Seq<char>>, i: int) -> Option<Seq<char>>
    decreases pieces.len() - i,
{
    if i < 0 || i >= pieces.len() {
        None
    } else {
        match cookie_value(pieces[i]) {
            Some(v) => Some(v),
            None => first_cookie(pieces, i + 1),
        }
    }
}

fn piece_cookie_value(piece: &[char]) -> (r: Option<Vec<char>>)
    ensures
        match (r, cookie_value(piece@)) {
            (Some(v), Some(w)) => v@ == w,
            (None, None) => true,
            _ => false,
        },
{
    proof {
        reveal_strlit("np_session=");
    }
    let t = trim(piece);
    if t.len() < 11 {
        return None;
    }
    let prefix = ['n', 'p', '_', 's', 'e', 's', 's', 'i', 'o', 'n', '='];
    assert(prefix@ =~= "np_session="@);
    let mut i: usize = 0;
    while i < 11
        invariant
            i <= 11,
            t@.len() >= 11,
            t@ == trim_spec(piece@),
            prefix@ == "np_session="@,
            forall|j: int| 0 <= j < i ==> t@[j] == prefix@[j],
        decreases 11 - i,
    {
        proof {
            reveal_strlit("np_session=");
        }
        if t[i] != prefix[i] {
            assert(t@.take(11)[i as int] != "np_session="@[i as int]);
            return None;
        }
        i = i + 1;
    }
    assert(t@.take(11) =~= "np_session="@);
    let rest = copy_range(t.as_slice(), 11, t.len());
    assert(rest@ =~= t@.skip(11));
    let v = trim(rest.as_slice());
    if v.len() > 0 {
        Some(v)
    } else {
        None
    }
}

proof fn lemma_trim_unchanged(s: Seq<char>)
    requires
        s.len() > 0,
        !is_unicode_whitespace(s[0]),
        !is_unicode_whitespace(s.last()),
    ensures
        trim_spec(s) == s,
{
    lemma_leading_count(s, ws_pred(), 0);
    assert(strip_start(s, ws_pred()) =~= s);
    assert(!(ws_pred())(s[s.len() - 1]));
    lemma_trailing_count(s, ws_pred(), 0);
    assert(strip_end(s, ws_pred()) =~= s);
}

/// Law (cookie round trip): a client sends the session cookie back as
/// `np_session=<token>`, and reading that header gives the token again, for
/// any non-empty token without ';' and without whitespace at its ends (a
/// hexadecimal session token qualifies).
pub proof fn lemma_cookie_round_trip(token: Seq<char>)
    requires
        token.len() > 0,
        !token.contains(';'),
        !is_unicode_whitespace(token[0]),
        !is_unicode_whitespace(token.last()),
    ensures
        first_cookie(split_char("np_session="@ + token, ';'), 0) == Some(token),
{
    reveal_strlit("np_session=");
    let piece = "np_session="@ + token;
    assert(!piece.contains(';')) by {
        if piece.contains(';') {
            let i = choose|i: int| 0 <= i < piece.len() && piece[i] == ';';
            if i >= 11 {
                assert(token[i - 11] == ';');
                assert(token.contains(';'));
            }
        }
    }
    lemma_split_without_separator(piece, ';');
    assert(piece.last() == token.last());
    lemma_trim_unchanged(piece);
    assert(piece.take(11) =~= "np_session="@);
    assert(piece.skip(11) =~= token);
    lemma_trim_unchanged(token);
}

/// Extracts the `np_session` token from the value of a Cookie header:
/// the header is split at ';', each piece trimmed, and the first piece of
/// the form `np_session=<value>` with a non-empty trimmed value wins.
pub fn extract_cookie_token(cookie_header: Option<&str>) -> (r: Option<String>)
    ensures
        match cookie_header {
            None => r is None,
            Some(h) => match (r, first_cookie(split_char(h@, ';'), 0)) {
                (Some(v), Some(w)) => v@ == w,
                (None, None) => true,
                _ => false,
            },
        },
{
    if cookie_header.is_none() {
        return None;
    }
    let h = cookie_header.unwrap();
    let cs = chars_of(h);
    let pieces = split_pieces(cs.as_slice(), ';');
    let ghost ps = split_char(h@, ';');
    let mut i: usize = 0;
    while i < pieces.len()
        invariant
            i <= pieces@.len(),
            pieces@.len() == ps.len(),
            forall|k: int| 0 <= k < pieces@.len() ==> (#[trigger] pieces@[k])@ == ps[k],
            first_cookie(ps, 0) == first_cookie(ps, i as int),
            cookie_header == Some(h),
            ps == split_char(h@, ';'),
        decreases pieces@.len() - i,
    {
        match piece_cookie_value(pieces[i].as_slice()) {
            Some(v) => {
                return Some(string_from_chars(v.as_slice()));
            },
            None => {},
        }
        i = i + 1;
    }
    None
}

/// The `Set-Cookie` value that stores the session token; `Secure` is added
/// unless the server only listens on localhost.
pub fn session_cookie_value(token: &str, is_localhost: bool) -> (s: String)
    ensures
        s@ == "np_session="@ + token@ + "; HttpOnly; SameSite=Strict; Path=/; Max-Age=86400"@
            + (if is_localhost {
            ""@
        } else {
            "; Secure"@
        }),
{
    let mut s = String::from_str("np_session=");
    s.append(token);
    s.append("; HttpOnly; SameSite=Strict; Path=/; Max-Age=86400");
    if !is_localhost {
        s.append("; Secure");
    } else {
        proof {
            reveal_strlit("");
        }
        assert(s@ =~= s@ + ""@);
    }
    s
}

/// The `Set-Cookie` value that clears the session cookie.
pub fn clear_session_cookie_value() -> (s: String)
    ensures
        s@ == "np_session=; HttpOnly; SameSite=Strict; Path=/; Max-Age=0"@,
{
    String::from_str("np_session=; HttpOnly; SameSite=Strict; Path=/; Max-Age=0")
}

/// Whole seconds of lifetime a session created at `created_at_ms` has left
/// at `now_ms` (zero once the lifetime is used up).
pub fn remaining_ttl_secs(created_at_ms: u64, now_ms: u64, ttl_ms: u64) -> (r: u64)
    ensures
        r == (if now_ms <= created_at_ms {
            ttl_ms
        } else if now_ms - created_at_ms >= ttl_ms {
            0
        } else {
            (ttl_ms - (now_ms - created_at_ms)) as u64
        }) / 1000,
{
    let elapsed = if now_ms <= created_at_ms {
        0
    } else {
        now_ms - created_at_ms
    };
    let left = if elapsed >= ttl_ms {
        0
    } else {
        ttl_ms - elapsed
    };
    left / 1000
}

} // verus!
