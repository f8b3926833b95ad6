//! The session cache: a concurrent map from an opaque session id to the
//! handle of one authenticated backend connection.
//!
//! The map itself is `flurry`'s lock-free hash map, held behind trusted
//! wrappers; a connection is identified here by an opaque `u64` handle that
//! the surrounding server resolves to the live, exclusively-lockable backend
//! session. Entries are created at most once per session id: creation races
//! are settled by the map's atomic insert-if-absent, and the loser's freshly
//! opened connection is reported back so the caller can close it.

use vstd::prelude::*;

verus! {

#[verifier::external_type_specification]
#[verifier::external_body]
#[verifier::reject_recursive_types(K)]
#[verifier::reject_recursive_types(V)]
#[verifier::reject_recursive_types(S)]
pub struct ExFlurryHashMap<K, V, S>(flurry::HashMap<K, V, S>);

#[verifier::external_type_specification]
#[verifier::external_body]
pub struct ExFlurryDefaultHashBuilder(flurry::DefaultHashBuilder);

/// What a session map holds: the session ids currently cached, each with the
/// handle of its backend connection.
pub uninterp spec fn session_entries(
    m: flurry::HashMap<String, u64>,
) -> Map<Seq<char>, u64>;

/// Holds when a session map has no entries.
pub open spec fn no_sessions(entries: Map<Seq<char>, u64>) -> bool {
    entries == Map::<Seq<char>, u64>::empty()
}

/// Relies on `flurry::HashMap::new`: creates an empty map.
#[verifier::external_body]
fn sessions_new() -> (r: flurry::HashMap<String, u64>)
    ensures
        no_sessions(session_entries(r)),
{
    flurry::HashMap::new()
}

/// Relies on `flurry::HashMap::get` (through a pinned reference): returns the
/// value under the key, or `None` if the key is absent.
#[verifier::external_body]
fn sessions_get(m: &flurry::HashMap<String, u64>, key: &String) -> (r: Option<u64>)
    ensures
        r == (if session_entries(*m).contains_key(key@) {
            Some(session_entries(*m)[key@])
        } else {
            None::<u64>
        }),
{
    m.pin().get(key).copied()
}

/// Relies on `flurry::HashMap::try_insert` (through a pinned reference): an
/// atomic insert-if-absent that leaves the map unchanged and reports the
/// current value when the key is already present.
#[verifier::external_body]
fn sessions_try_insert(
    m: &mut flurry::HashMap<String, u64>,
    key: String,
    value: u64,
) -> (r: Option<u64>)
    ensures
        match r {
            Some(existing) => session_entries(*old(m)).contains_key(key@)
                && existing == session_entries(*old(m))[key@]
                && session_entries(*final(m)) == session_entries(*old(m)),
            None => !session_entries(*old(m)).contains_key(key@)
                && session_entries(*final(m)) == session_entries(*old(m)).insert(key@, value),
        },
{
    match m.pin().try_insert(key, value) {
        Ok(_) => None,
        Err(e) => Some(*e.current),
    }
}

/// The shared server state: the cache of authenticated backend connections,
/// keyed by session id.
pub struct State {
    sessions: flurry::HashMap<String, u64>,
}

impl View for State {
    type V = Map<Seq<char>, u64>;

    closed spec fn view(&self) -> Map<Seq<char>, u64> {
        session_entries(self.sessions)
    }
}

impl State {
    /// A fresh state with no cached sessions.
    pub fn new() -> (r: State)
        ensures
            r@ == Map::<Seq<char>, u64>::empty(),
    {
        let r = State { sessions: sessions_new() };
        proof {
            assert(no_sessions(r@));
        }
        r
    }

    /// The idempotent fast path of `ensure_connection`: a cached session is
    /// trusted without re-checking credentials, so when this returns `true`
    /// the connector must not be invoked.
    pub fn session_present(&self, session_id: &String) -> (r: bool)
        ensures
            r == self@.contains_key(session_id@),
    {
        match sessions_get(&self.sessions, session_id) {
            Some(_) => true,
            None => false,
        }
    }

    /// Caches a freshly connected backend connection for `session_id`, unless
    /// a concurrent first authentication won the race: then the cache keeps
    /// the existing entry untouched and returns its handle, and the caller
    /// must close the connection it just opened.
    ///
    /// Entry creation is atomic, so the connector's result is inserted at
    /// most once per session id; on a failed connect nothing is inserted
    /// because this is never called.
    pub fn register_session(&mut self, session_id: String, conn: u64) -> (r: Option<u64>)
        ensures
            match r {
                Some(existing) => old(self)@.contains_key(session_id@)
                    && existing == old(self)@[session_id@]
                    && final(self)@ == old(self)@,
                None => !old(self)@.contains_key(session_id@)
                    && final(self)@ == old(self)@.insert(session_id@, conn),
            },
    {
        sessions_try_insert(&mut self.sessions, session_id, conn)
    }

    /// Finds the connection handle to borrow for one backend operation, or
    /// `None` where no session entry exists (the internal-consistency failure
    /// surfaced as `NoSessionFound`).
    pub fn lookup_session(&self, session_id: &String) -> (r: Option<u64>)
        ensures
            r == (if self@.contains_key(session_id@) {
                Some(self@[session_id@])
            } else {
                None::<u64>
            }),
    {
        sessions_get(&self.sessions, session_id)
    }
}

} // verus!
