//! The decisions of login, logout and identity resolution. Each step takes
//! what the storage answered to the step before and says what to do next;
//! the caller performs storage calls and audit writes and feeds the answers
//! back.

use vstd::prelude::*;

use crate::audit::{AuditDraft, draft, draft_says};
use crate::cookies::{SetCookie, get_cookie, render_set_cookie, request_cookie};
use crate::clock::{new_ulid, unix_now};
use crate::guards::AuthSession;
use crate::password::{password_accepted, verify_password};
use crate::session::{NewSession, SessionRecord, create_session, expiry, live_at, session_live};
use crate::status::{INTERNAL_ERROR, NO_CONTENT, TOO_MANY_REQUESTS, UNAUTHORIZED};
use crate::text::{header_safe, int_text, is_header_safe, lemma_header_safe_concat, lemma_int_text_safe};
use crate::tokens::lemma_token_header_safe;
use crate::throttle::{current_window_start, over_limit, throttled, window_floor};

verus! {

pub const LOGIN_THROTTLE: &'static str = "LOGIN_THROTTLE";

pub const LOGIN_FAIL_NOUSER: &'static str = "LOGIN_FAIL_NOUSER";

pub const LOGIN_FAIL_DISABLED: &'static str = "LOGIN_FAIL_DISABLED";

pub const LOGIN_FAIL_BADPW: &'static str = "LOGIN_FAIL_BADPW";

pub const LOGIN_SUCCESS: &'static str = "LOGIN_SUCCESS";

pub const LOGOUT: &'static str = "LOGOUT";

/// Target recorded for login and logout entries.
pub const NO_TARGET: &'static str = "-";

/// A storage operation failed.
#[derive(Debug, Clone, Copy, PartialEq, Eq, Structural)]
pub struct StoreError;

/// The body of a login request.
pub struct LoginForm {
    pub username: String,
    pub password: String,
}

/// What `/me` answers.
pub struct Me {
    pub username: String,
    pub roles: Vec<String>,
}

/// A user as the store gives it back.
#[derive(Clone)]
pub struct User {
    pub id: String,
    pub username: String,
    pub pw_hash: String,
    pub disabled: bool,
}

/// A user about to be stored.
pub struct NewUser {
    pub id: String,
    pub username: String,
    pub pw_hash: String,
    pub created_at: i64,
}

/// A new, enabled user with a fresh id, created now.
pub fn new_user(username: &str, pw_hash: &str) -> (u: NewUser)
    ensures
        u.id@.len() == 26,
        u.username@ == username@,
        u.pw_hash@ == pw_hash@,
{
    NewUser {
        id: new_ulid(),
        username: username.to_owned(),
        pw_hash: pw_hash.to_owned(),
        created_at: unix_now(),
    }
}

/// The answer to a request, and the audit entry to write (best effort) before
/// sending it.
pub struct Reply {
    pub status: u16,
    pub set_cookie: Option<String>,
    pub audit: Option<AuditDraft>,
}

/// What the login request does next.
pub enum LoginStep {
    /// Count the attempts of this user name and of this address made after
    /// `since`.
    CountAttempts { since: i64 },
    /// Look the user name up.
    FindUser,
    /// Store this session for the user.
    CreateSession(NewSession),
    /// Answer.
    Finish(Reply),
}

/// `r` answers `status` with no cookie and no audit entry.
pub open spec fn bare(r: Reply, status: u16) -> bool {
    r.status == status && r.set_cookie is None && r.audit is None
}

/// `r` answers `status` with no cookie and the login entry `action` about
/// `actor`.
pub open spec fn audited(
    r: Reply,
    status: u16,
    actor: Seq<char>,
    action: Seq<char>,
    ip: Seq<char>,
    ua: Seq<char>,
) -> bool {
    &&& r.status == status
    &&& r.set_cookie is None
    &&& r.audit matches Some(d) && draft_says(d, actor, action, NO_TARGET@, ip, ua)
}

/// The login ends with `status`, no cookie and no audit entry.
pub open spec fn ends_bare(r: LoginStep, status: u16) -> bool {
    r matches LoginStep::Finish(rep) && bare(rep, status)
}

/// The login ends with `status`, no cookie, and the entry `action` about `actor`.
pub open spec fn ends_audited(
    r: LoginStep,
    status: u16,
    actor: Seq<char>,
    action: Seq<char>,
    ip: Seq<char>,
    ua: Seq<char>,
) -> bool {
    r matches LoginStep::Finish(rep) && audited(rep, status, actor, action, ip, ua)
}

/// The session cookie set at login: script-proof, `Secure`, `SameSite=Strict`,
/// for the whole site, living as long as the session.
pub open spec fn session_cookie_text(name: Seq<char>, sid: Seq<char>, max_age: int) -> Seq<char> {
    name + seq!['='] + sid + "; HttpOnly"@ + "; SameSite=Strict"@ + "; Secure"@ + "; Path="@
        + "/"@ + "; Max-Age="@ + int_text(max_age)
}

/// The session cookie can be sent as a header whenever its name and value can.
pub proof fn lemma_session_cookie_safe(name: Seq<char>, sid: Seq<char>, max_age: int)
    requires
        header_safe(name),
        header_safe(sid),
    ensures
        header_safe(session_cookie_text(name, sid, max_age)),
{
    reveal_strlit("; HttpOnly");
    reveal_strlit("; SameSite=Strict");
    reveal_strlit("; Secure");
    reveal_strlit("; Path=");
    reveal_strlit("/");
    reveal_strlit("; Max-Age=");
    assert(header_safe(seq!['=']));
    assert(header_safe("; HttpOnly"@));
    assert(header_safe("; SameSite=Strict"@));
    assert(header_safe("; Secure"@));
    assert(header_safe("; Path="@));
    assert(header_safe("/"@));
    assert(header_safe("; Max-Age="@));
    lemma_int_text_safe(max_age);
    let p1 = name + seq!['='];
    lemma_header_safe_concat(name, seq!['=']);
    let p2 = p1 + sid;
    lemma_header_safe_concat(p1, sid);
    let p3 = p2 + "; HttpOnly"@;
    lemma_header_safe_concat(p2, "; HttpOnly"@);
    let p4 = p3 + "; SameSite=Strict"@;
    lemma_header_safe_concat(p3, "; SameSite=Strict"@);
    let p5 = p4 + "; Secure"@;
    lemma_header_safe_concat(p4, "; Secure"@);
    let p6 = p5 + "; Path="@;
    lemma_header_safe_concat(p5, "; Path="@);
    let p7 = p6 + "/"@;
    lemma_header_safe_concat(p6, "/"@);
    let p8 = p7 + "; Max-Age="@;
    lemma_header_safe_concat(p7, "; Max-Age="@);
    lemma_header_safe_concat(p8, int_text(max_age));
}

fn session_cookie(name: &str, value: String, max_age: i64) -> (r: String)
    ensures
        r@ == session_cookie_text(name@, value@, max_age as int),
{
    let ghost v = value@;
    let c = SetCookie {
        name: name.to_owned(),
        value,
        path: String::from_str("/"),
        http_only: true,
        secure: true,
        same_site_strict: true,
        max_age: Some(max_age),
    };
    let r = render_set_cookie(&c);
    assert(r@ =~= session_cookie_text(name@, v, max_age as int));
    r
}

/// After the attempt was recorded: on to counting, or 500 when the store failed.
pub fn login_recorded(stored: Result<(), StoreError>) -> (r: LoginStep)
    ensures
        stored is Err ==> ends_bare(r, INTERNAL_ERROR),
        stored is Ok ==> (r matches LoginStep::CountAttempts { since } && exists|now: i64|
            since == window_floor(now as int)),
{
    match stored {
        Err(_) => LoginStep::Finish(Reply { status: INTERNAL_ERROR, set_cookie: None, audit: None }),
        Ok(()) => LoginStep::CountAttempts { since: current_window_start() },
    }
}

/// After the attempts were counted: 429 with a throttle entry when either
/// count is over its limit, before any password is looked at; else on to the
/// user lookup.
pub fn login_counted(counts: Result<(i64, i64), StoreError>, form: &LoginForm, ip: &str, ua: &str) -> (r:
    LoginStep)
    ensures
        match counts {
            Err(_) => ends_bare(r, INTERNAL_ERROR),
            Ok((by_user_ip, by_ip)) => if over_limit(by_user_ip as int, by_ip as int) {
                ends_audited(
                    r,
                    TOO_MANY_REQUESTS,
                    form.username@,
                    LOGIN_THROTTLE@,
                    ip@,
                    ua@,
                )
            } else {
                r is FindUser
            },
        },
{
    match counts {
        Err(_) => LoginStep::Finish(Reply { status: INTERNAL_ERROR, set_cookie: None, audit: None }),
        Ok((by_user_ip, by_ip)) => {
            if throttled(by_user_ip, by_ip) {
                LoginStep::Finish(
                    Reply {
                        status: TOO_MANY_REQUESTS,
                        set_cookie: None,
                        audit: Some(draft(form.username.as_str(), LOGIN_THROTTLE, NO_TARGET, ip, ua)),
                    },
                )
            } else {
                LoginStep::FindUser
            }
        },
    }
}

/// The stored hash of `user` accepts `password` under `pepper`.
pub open spec fn password_ok(user: User, password: Seq<char>, pepper: Seq<u8>) -> bool {
    password_accepted(password, user.pw_hash@, pepper)
}

/// After the user lookup: 401 with an entry that tells the unknown, the
/// disabled and the wrong-password cases apart (the answer does not); else a
/// new session of the user, living `ttl_secs`.
pub fn login_found(
    found: Result<Option<User>, StoreError>,
    form: &LoginForm,
    ip: &str,
    ua: &str,
    pepper: &[u8],
    ttl_secs: i64,
) -> (r: LoginStep)
    ensures
        match found {
            Err(_) => ends_bare(r, INTERNAL_ERROR),
            Ok(None) => ends_audited(
                r,
                UNAUTHORIZED,
                form.username@,
                LOGIN_FAIL_NOUSER@,
                ip@,
                ua@,
            ),
            Ok(Some(u)) => if u.disabled {
                ends_audited(
                    r,
                    UNAUTHORIZED,
                    form.username@,
                    LOGIN_FAIL_DISABLED@,
                    ip@,
                    ua@,
                )
            } else if !password_ok(u, form.password@, pepper@) {
                ends_audited(
                    r,
                    UNAUTHORIZED,
                    form.username@,
                    LOGIN_FAIL_BADPW@,
                    ip@,
                    ua@,
                )
            } else {
                (r matches LoginStep::CreateSession(s) && s.user_id@ == u.id@ && s.expires_at
                    == expiry(s.created_at as int, ttl_secs as int) && header_safe(s.id@))
            },
        },
{
    match found {
        Err(_) => LoginStep::Finish(Reply { status: INTERNAL_ERROR, set_cookie: None, audit: None }),
        Ok(None) => LoginStep::Finish(
            Reply {
                status: UNAUTHORIZED,
                set_cookie: None,
                audit: Some(draft(form.username.as_str(), LOGIN_FAIL_NOUSER, NO_TARGET, ip, ua)),
            },
        ),
        Ok(Some(u)) => {
            if u.disabled {
                LoginStep::Finish(
                    Reply {
                        status: UNAUTHORIZED,
                        set_cookie: None,
                        audit: Some(
                            draft(form.username.as_str(), LOGIN_FAIL_DISABLED, NO_TARGET, ip, ua),
                        ),
                    },
                )
            } else if !verify_password(form.password.as_str(), u.pw_hash.as_str(), pepper) {
                LoginStep::Finish(
                    Reply {
                        status: UNAUTHORIZED,
                        set_cookie: None,
                        audit: Some(draft(form.username.as_str(), LOGIN_FAIL_BADPW, NO_TARGET, ip, ua)),
                    },
                )
            } else {
                let s = create_session(u.id.as_str(), ttl_secs);
                proof {
                    lemma_token_header_safe(s.id@, crate::session::SESSION_ID_BYTES as nat);
                }
                LoginStep::CreateSession(s)
            }
        },
    }
}

/// After the session was stored: 204 setting the session cookie, with a
/// success entry about the user; 500 when the store failed or the cookie
/// cannot be sent as a header.
pub fn login_created(
    created: Result<(), StoreError>,
    session: &NewSession,
    user: &User,
    cookie_name: &str,
    ttl_secs: i64,
    ip: &str,
    ua: &str,
) -> (r: Reply)
    ensures
        created is Err ==> bare(r, INTERNAL_ERROR),
        created is Ok && !header_safe(session_cookie_text(cookie_name@, session.id@, ttl_secs as int))
            ==> bare(r, INTERNAL_ERROR),
        header_safe(cookie_name@) && header_safe(session.id@) ==> header_safe(
            session_cookie_text(cookie_name@, session.id@, ttl_secs as int),
        ),
        created is Ok && header_safe(session_cookie_text(cookie_name@, session.id@, ttl_secs as int))
            ==> {
            &&& r.status == NO_CONTENT
            &&& r.set_cookie matches Some(c) && c@ == session_cookie_text(
                cookie_name@,
                session.id@,
                ttl_secs as int,
            )
            &&& r.audit matches Some(d) && draft_says(
                d,
                user.username@,
                LOGIN_SUCCESS@,
                NO_TARGET@,
                ip@,
                ua@,
            )
        },
{
    proof {
        if header_safe(cookie_name@) && header_safe(session.id@) {
            lemma_session_cookie_safe(cookie_name@, session.id@, ttl_secs as int);
        }
    }
    if created.is_err() {
        return Reply { status: INTERNAL_ERROR, set_cookie: None, audit: None };
    }
    let c = session_cookie(cookie_name, session.id.clone(), ttl_secs);
    if !is_header_safe(c.as_str()) {
        return Reply { status: INTERNAL_ERROR, set_cookie: None, audit: None };
    }
    Reply {
        status: NO_CONTENT,
        set_cookie: Some(c),
        audit: Some(draft(user.username.as_str(), LOGIN_SUCCESS, NO_TARGET, ip, ua)),
    }
}


/// What the logout request does next.
pub enum LogoutStep {
    /// Load the session stored under `sid`.
    LoadSession { sid: String },
    /// Find the user name of `user_id`, for the audit entry.
    FindUsername { sid: String, user_id: String },
    /// Write `audit` (best effort), then delete the session `sid`; then answer
    /// with `logout_reply`.
    DeleteSession { sid: String, audit: Option<AuditDraft> },
    /// Answer.
    Finish(Reply),
}

/// The logout answer: 204 clearing the session cookie (empty, `Max-Age=0`),
/// or 500 when that cookie cannot be sent as a header; never an audit entry.
pub open spec fn is_logout_reply(r: Reply, cookie_name: Seq<char>) -> bool {
    let c = session_cookie_text(cookie_name, Seq::empty(), 0);
    &&& r.audit is None
    &&& if header_safe(c) {
        r.status == NO_CONTENT && (r.set_cookie matches Some(v) && v@ == c)
    } else {
        bare(r, INTERNAL_ERROR)
    }
}

/// The answer to a logout request.
pub fn logout_reply(cookie_name: &str) -> (r: Reply)
    ensures
        r.audit is None,
        r.set_cookie matches Some(c) ==> c@ == session_cookie_text(cookie_name@, Seq::empty(), 0),
        is_logout_reply(r, cookie_name@),
        header_safe(cookie_name@) ==> r.status == NO_CONTENT && r.set_cookie is Some,
{
    proof {
        if header_safe(cookie_name@) {
            assert(header_safe(Seq::<char>::empty()));
            lemma_session_cookie_safe(cookie_name@, Seq::empty(), 0);
        }
    }
    let c = session_cookie(cookie_name, String::new(), 0);
    if is_header_safe(c.as_str()) {
        Reply { status: NO_CONTENT, set_cookie: Some(c), audit: None }
    } else {
        Reply { status: INTERNAL_ERROR, set_cookie: None, audit: None }
    }
}

/// Start of a logout: with no session cookie the answer comes at once, with
/// no storage call and no audit entry; else the session is loaded.
pub fn logout_start(cookie_header: Option<&str>, cookie_name: &str) -> (r: LogoutStep)
    ensures
        match request_cookie(cookie_header, cookie_name@) {
            None => r matches LogoutStep::Finish(rep) && is_logout_reply(rep, cookie_name@),
            Some(v) => r matches LogoutStep::LoadSession { sid } && sid@ == v,
        },
{
    match get_cookie(cookie_header, cookie_name) {
        None => LogoutStep::Finish(logout_reply(cookie_name)),
        Some(sid) => LogoutStep::LoadSession { sid },
    }
}

/// After loading the session `sid`: find its user for the audit entry, or,
/// when there is none or the store failed, delete it without an entry.
pub fn logout_loaded(sid: String, loaded: Result<Option<SessionRecord>, StoreError>) -> (r:
    LogoutStep)
    ensures
        match loaded {
            Ok(Some(rec)) => r matches LogoutStep::FindUsername { sid: s, user_id } && s == sid
                && user_id == rec.user_id,
            _ => r matches LogoutStep::DeleteSession { sid: s, audit } && s == sid && audit is None,
        },
{
    match loaded {
        Ok(Some(rec)) => LogoutStep::FindUsername { sid, user_id: rec.user_id },
        _ => LogoutStep::DeleteSession { sid, audit: None },
    }
}

/// After finding the user name: delete the session `sid`, with a logout
/// entry about the user when the name was found.
pub fn logout_named(sid: String, username: Result<String, StoreError>, ip: &str, ua: &str) -> (r:
    LogoutStep)
    ensures
        match username {
            Ok(u) => r matches LogoutStep::DeleteSession { sid: s, audit } && s == sid && (
            audit matches Some(d) && draft_says(d, u@, LOGOUT@, NO_TARGET@, ip@, ua@)),
            Err(_) => r matches LogoutStep::DeleteSession { sid: s, audit } && s == sid && audit is None,
        },
{
    match username {
        Ok(u) => LogoutStep::DeleteSession {
            sid,
            audit: Some(draft(u.as_str(), LOGOUT, NO_TARGET, ip, ua)),
        },
        Err(_) => LogoutStep::DeleteSession { sid, audit: None },
    }
}

/// What resolving the identity of a request does next.
pub enum ResolveStep {
    /// Load the session stored under `sid`.
    LoadSession { sid: String },
    /// Find the user name of `user_id`.
    FindUsername { user_id: String },
    /// Load the roles of `user_id`.
    LoadRoles { user_id: String, username: String },
    /// Stop the request with this status.
    Reject(u16),
}

/// `r` stops the request with `status`.
pub open spec fn rejects(r: ResolveStep, status: u16) -> bool {
    r matches ResolveStep::Reject(s) && s == status
}

/// What a loaded session gives at `now`: 500 when the store failed, 401 when
/// there is no session or it has expired, else the lookup of its user.
pub open spec fn after_load(loaded: Result<Option<SessionRecord>, StoreError>, now: int, r: ResolveStep) -> bool {
    match loaded {
        Err(_) => rejects(r, INTERNAL_ERROR),
        Ok(None) => rejects(r, UNAUTHORIZED),
        Ok(Some(rec)) => if live_at(rec.expires_at as int, now) {
            r matches ResolveStep::FindUsername { user_id } && user_id == rec.user_id
        } else {
            rejects(r, UNAUTHORIZED)
        },
    }
}

/// Start of resolution: 401 without a session cookie, else load the session.
pub fn resolve_start(cookie_header: Option<&str>, cookie_name: &str) -> (r: ResolveStep)
    ensures
        match request_cookie(cookie_header, cookie_name@) {
            None => rejects(r, UNAUTHORIZED),
            Some(v) => r matches ResolveStep::LoadSession { sid } && sid@ == v,
        },
{
    match get_cookie(cookie_header, cookie_name) {
        None => ResolveStep::Reject(UNAUTHORIZED),
        Some(sid) => ResolveStep::LoadSession { sid },
    }
}

/// After loading the session, judged at `now`.
pub fn resolve_loaded(loaded: Result<Option<SessionRecord>, StoreError>, now: i64) -> (r: ResolveStep)
    ensures
        after_load(loaded, now as int, r),
{
    match loaded {
        Err(_) => ResolveStep::Reject(INTERNAL_ERROR),
        Ok(None) => ResolveStep::Reject(UNAUTHORIZED),
        Ok(Some(rec)) => {
            if session_live(&rec, now) {
                ResolveStep::FindUsername { user_id: rec.user_id }
            } else {
                ResolveStep::Reject(UNAUTHORIZED)
            }
        },
    }
}

/// After loading the session, judged now.
pub fn resolve_loaded_now(loaded: Result<Option<SessionRecord>, StoreError>) -> (r: ResolveStep)
    ensures
        exists|now: i64| after_load(loaded, now as int, r),
{
    let now = unix_now();
    resolve_loaded(loaded, now)
}

/// After finding the user name: 500 when the store failed, else load the roles.
pub fn resolve_named(user_id: String, username: Result<String, StoreError>) -> (r: ResolveStep)
    ensures
        match username {
            Ok(u) => r matches ResolveStep::LoadRoles { user_id: i, username: n } && i == user_id
                && n == u,
            Err(_) => rejects(r, INTERNAL_ERROR),
        },
{
    match username {
        Ok(u) => ResolveStep::LoadRoles { user_id, username: u },
        Err(_) => ResolveStep::Reject(INTERNAL_ERROR),
    }
}

/// After loading the roles: the identity of the request, or 500 when the
/// store failed. Roles are the ones loaded for this request, never cached.
pub fn resolve_done(user_id: String, username: String, roles: Result<Vec<String>, StoreError>) -> (r:
    Result<AuthSession, u16>)
    ensures
        match roles {
            Ok(rs) => r matches Ok(s) && s.user_id == user_id && s.username == username && s.roles
                == rs,
            Err(_) => r == Err::<AuthSession, u16>(INTERNAL_ERROR),
        },
{
    match roles {
        Ok(rs) => Ok(AuthSession { user_id, username, roles: rs }),
        Err(_) => Err(INTERNAL_ERROR),
    }
}

/// What `/me` shows of an identity.
pub fn me_of(sess: AuthSession) -> (m: Me)
    ensures
        m.username == sess.username,
        m.roles == sess.roles,
{
    Me { username: sess.username, roles: sess.roles }
}

} // verus!
