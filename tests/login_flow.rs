use ovpn_admin::auth::{
    login_counted, login_created, login_found, login_recorded, logout_loaded, logout_named, logout_reply,
    logout_start, LoginForm, LoginStep, LogoutStep, Reply, StoreError, User,
};
use ovpn_admin::password::hash_password;
use ovpn_admin::session::{session_at, SessionRecord};
use ovpn_admin::throttle::{current_window_start, record_attempt, throttled, window_start};

const PEPPER: &[u8] = b"0123456789abcdef-pepper";

fn form(username: &str, password: &str) -> LoginForm {
    LoginForm { username: username.to_string(), password: password.to_string() }
}

fn finish(step: LoginStep) -> Reply {
    match step {
        LoginStep::Finish(r) => r,
        _ => panic!("expected the login to end"),
    }
}

#[test]
fn recording_failure_is_a_server_error() {
    let r = finish(login_recorded(Err(StoreError)));
    assert_eq!(r.status, 500);
    assert!(r.audit.is_none());
    match login_recorded(Ok(())) {
        LoginStep::CountAttempts { since } => assert!(since > 1_600_000_000),
        _ => panic!("expected counting"),
    }
}

#[test]
fn eleventh_attempt_is_throttled_before_lookup() {
    let f = form("alice", "right-password");
    let r = finish(login_counted(Ok((11, 11)), &f, "10.0.0.1", "curl"));
    assert_eq!(r.status, 429);
    assert!(r.set_cookie.is_none());
    let a = r.audit.expect("throttle entry");
    assert_eq!(a.action, "LOGIN_THROTTLE");
    assert_eq!(a.actor_user, "alice");
    assert_eq!(a.target, "-");
    assert_eq!(a.ip, "10.0.0.1");
    assert_eq!(a.ua, "curl");
    assert_eq!(a.details, "{}");
}

#[test]
fn throttle_limits() {
    let f = form("alice", "pw");
    assert!(matches!(login_counted(Ok((10, 30)), &f, "ip", "ua"), LoginStep::FindUser));
    assert_eq!(finish(login_counted(Ok((1, 31)), &f, "ip", "ua")).status, 429);
    assert_eq!(finish(login_counted(Err(StoreError), &f, "ip", "ua")).status, 500);
    assert!(throttled(11, 0));
    assert!(throttled(0, 31));
    assert!(!throttled(10, 30));
    assert_eq!(window_start(1_000), 400);
    assert_eq!(window_start(i64::MIN + 5), i64::MIN);
    assert!(current_window_start() > 1_600_000_000);
    let a = record_attempt("alice", "10.0.0.1");
    assert_eq!(a.username, "alice");
    assert_eq!(a.ip, "10.0.0.1");
    assert!(a.ts > 1_600_000_000);
}

#[test]
fn unknown_user_gets_401_and_nouser_entry() {
    let f = form("nouser", "whatever");
    let r = finish(login_found(Ok(None), &f, "10.0.0.2", "ua", PEPPER, 3600));
    assert_eq!(r.status, 401);
    assert!(r.set_cookie.is_none());
    let a = r.audit.expect("audit entry");
    assert_eq!(a.action, "LOGIN_FAIL_NOUSER");
    assert_eq!(a.target, "-");
    assert_eq!(a.actor_user, "nouser");
}

fn user(hash: &str, disabled: bool) -> User {
    User { id: "u1".to_string(), username: "alice".to_string(), pw_hash: hash.to_string(), disabled }
}

#[test]
fn disabled_and_bad_password_get_401() {
    let h = hash_password("right", PEPPER).unwrap();
    let f = form("alice", "right");
    let r = finish(login_found(Ok(Some(user(&h, true))), &f, "ip", "ua", PEPPER, 3600));
    assert_eq!(r.status, 401);
    assert_eq!(r.audit.unwrap().action, "LOGIN_FAIL_DISABLED");
    let wrong = form("alice", "wrong");
    let r = finish(login_found(Ok(Some(user(&h, false))), &wrong, "ip", "ua", PEPPER, 3600));
    assert_eq!(r.status, 401);
    assert_eq!(r.audit.unwrap().action, "LOGIN_FAIL_BADPW");
    let r = finish(login_found(Ok(Some(user("garbage", false))), &f, "ip", "ua", PEPPER, 3600));
    assert_eq!(r.audit.unwrap().action, "LOGIN_FAIL_BADPW");
    assert_eq!(finish(login_found(Err(StoreError), &f, "ip", "ua", PEPPER, 3600)).status, 500);
}

#[test]
fn right_password_creates_a_session() {
    let h = hash_password("right", PEPPER).unwrap();
    let f = form("alice", "right");
    match login_found(Ok(Some(user(&h, false))), &f, "ip", "ua", PEPPER, 3600) {
        LoginStep::CreateSession(s) => {
            assert_eq!(s.user_id, "u1");
            assert_eq!(s.expires_at, s.created_at + 3600);
            assert_eq!(s.id.len(), 43);
        }
        _ => panic!("expected a session"),
    }
}

#[test]
fn successful_login_sets_cookie_with_ttl() {
    let s = session_at("SESSIONID".to_string(), "u1", 1_000, 3600);
    let u = user("x", false);
    let r = login_created(Ok(()), &s, &u, "ovpn_sid", 3600, "10.0.0.3", "ua");
    assert_eq!(r.status, 204);
    assert_eq!(
        r.set_cookie.as_deref(),
        Some("ovpn_sid=SESSIONID; HttpOnly; SameSite=Strict; Secure; Path=/; Max-Age=3600")
    );
    let a = r.audit.unwrap();
    assert_eq!(a.action, "LOGIN_SUCCESS");
    assert_eq!(a.actor_user, "alice");
}

#[test]
fn session_store_failure_or_bad_cookie_name_is_500() {
    let s = session_at("SID".to_string(), "u1", 1_000, 3600);
    let u = user("x", false);
    let r = login_created(Err(StoreError), &s, &u, "sid", 3600, "ip", "ua");
    assert_eq!(r.status, 500);
    assert!(r.audit.is_none());
    let r = login_created(Ok(()), &s, &u, "bad\nname", 3600, "ip", "ua");
    assert_eq!(r.status, 500);
    assert!(r.set_cookie.is_none());
}

#[test]
fn logout_without_cookie_touches_nothing() {
    match logout_start(None, "sid") {
        LogoutStep::Finish(r) => {
            assert_eq!(r.status, 204);
            assert!(r.audit.is_none());
            assert_eq!(
                r.set_cookie.as_deref(),
                Some("sid=; HttpOnly; SameSite=Strict; Secure; Path=/; Max-Age=0")
            );
        }
        _ => panic!("expected an immediate answer"),
    }
    assert!(matches!(logout_start(Some("a=b"), "sid"), LogoutStep::Finish(_)));
}

#[test]
fn logout_with_cookie_deletes_and_audits() {
    let sid = match logout_start(Some("sid=S1"), "sid") {
        LogoutStep::LoadSession { sid } => sid,
        _ => panic!("expected a load"),
    };
    assert_eq!(sid, "S1");
    let rec = SessionRecord { user_id: "u1".to_string(), expires_at: 0, last_stepup: 0 };
    match logout_loaded(sid.clone(), Ok(Some(rec))) {
        LogoutStep::FindUsername { sid, user_id } => {
            assert_eq!(sid, "S1");
            assert_eq!(user_id, "u1");
        }
        _ => panic!("expected a name lookup"),
    }
    assert!(matches!(logout_loaded(sid.clone(), Ok(None)), LogoutStep::DeleteSession { audit: None, .. }));
    match logout_named(sid.clone(), Ok("alice".to_string()), "ip", "ua") {
        LogoutStep::DeleteSession { sid, audit } => {
            assert_eq!(sid, "S1");
            let a = audit.unwrap();
            assert_eq!(a.action, "LOGOUT");
            assert_eq!(a.actor_user, "alice");
        }
        _ => panic!("expected a delete"),
    }
    assert!(matches!(logout_named(sid, Err(StoreError), "ip", "ua"), LogoutStep::DeleteSession { audit: None, .. }));
    assert_eq!(logout_reply("sid").status, 204);
}
