//! Properties that hold across the functions of the crate.

use vstd::prelude::*;

use crate::auth::{ResolveStep, StoreError, after_load, rejects};
use crate::csrf::{Method, csrf_passes};
use crate::session::{SessionRecord, expiry};
use crate::status::UNAUTHORIZED;

verus! {

/// A session created at `created_at` with time to live `ttl` and stored as it
/// was created resolves at every `now` before `created_at + ttl`, and is
/// refused as unauthenticated at every `now` from then on.
pub proof fn session_lifetime(created_at: i64, ttl: i64, rec: SessionRecord, now: i64, r: ResolveStep)
    requires
        created_at + ttl <= i64::MAX,
        rec.expires_at == expiry(created_at as int, ttl as int),
        after_load(Ok::<Option<SessionRecord>, StoreError>(Some(rec)), now as int, r),
    ensures
        now < created_at + ttl ==> (r matches ResolveStep::FindUsername { user_id } && user_id
            == rec.user_id),
        now >= created_at + ttl ==> rejects(r, UNAUTHORIZED),
{
}

/// A state-changing request with no CSRF header, or with a header that is not
/// the cookie's token, is refused; a read-only request passes whatever it
/// carries.
pub proof fn csrf_double_submit(
    m: Method,
    header: Option<&str>,
    cookie_header: Option<&str>,
    token: Option<Seq<char>>,
)
    requires
        token == crate::cookies::request_cookie(cookie_header, crate::csrf::CSRF_COOKIE@),
    ensures
        (m is Post || m is Put || m is Patch || m is Delete) && header is None ==> !csrf_passes(
            m,
            header,
            cookie_header,
        ),
        (m is Post || m is Put || m is Patch || m is Delete) && (header matches Some(h) && token
            != Some(h@)) ==> !csrf_passes(m, header, cookie_header),
        (m is Get || m is Head || m is Options) ==> csrf_passes(m, header, cookie_header),
{
}

} // verus!
