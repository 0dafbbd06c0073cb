//! Server-side sessions: creation with a time to live, and the liveness check
//! made on every authenticated request.

use vstd::prelude::*;

use crate::clock::{sat_add, saturating_add, unix_now};
use crate::tokens::{random_token, token_shape};

verus! {

/// Random bytes in a session id: 256 bits.
pub const SESSION_ID_BYTES: usize = 32;

/// A session as the store gives it back.
pub struct SessionRecord {
    pub user_id: String,
    pub expires_at: i64,
    pub last_stepup: i64,
}

/// A session about to be stored.
pub struct NewSession {
    pub id: String,
    pub user_id: String,
    pub created_at: i64,
    pub expires_at: i64,
}

/// When a session created at `created_at` with time to live `ttl` expires.
pub open spec fn expiry(created_at: int, ttl: int) -> int {
    sat_add(created_at, ttl)
}

/// A session that expires at `expires_at` is still good at `now`.
pub open spec fn live_at(expires_at: int, now: int) -> bool {
    now < expires_at
}

/// The session `id` of `user_id`, created at `now`, living `ttl_secs` seconds.
pub fn session_at(id: String, user_id: &str, now: i64, ttl_secs: i64) -> (s: NewSession)
    ensures
        s.id@ == id@,
        s.user_id@ == user_id@,
        s.created_at == now,
        s.expires_at == expiry(now as int, ttl_secs as int),
{
    NewSession {
        id,
        user_id: user_id.to_owned(),
        created_at: now,
        expires_at: saturating_add(now, ttl_secs),
    }
}

/// A new session of `user_id`, with a fresh random id, created now.
pub fn create_session(user_id: &str, ttl_secs: i64) -> (s: NewSession)
    ensures
        token_shape(s.id@, SESSION_ID_BYTES as nat),
        s.user_id@ == user_id@,
        s.expires_at == expiry(s.created_at as int, ttl_secs as int),
{
    let id = random_token(SESSION_ID_BYTES);
    session_at(id, user_id, unix_now(), ttl_secs)
}

/// Whether the session `rec` is still good at `now`.
pub fn session_live(rec: &SessionRecord, now: i64) -> (r: bool)
    ensures
        r == live_at(rec.expires_at as int, now as int),
{
    now < rec.expires_at
}

/// A step-up re-authentication of a session, to record.
pub struct StepUp {
    pub sid: String,
    pub at: i64,
}

/// The step-up of session `sid`, happening now.
pub fn step_up(sid: &str) -> (s: StepUp)
    ensures
        s.sid@ == sid@,
{
    StepUp { sid: sid.to_owned(), at: unix_now() }
}

} // verus!
