use ovpn_admin::auth::{resolve_done, resolve_loaded, resolve_named, resolve_start, ResolveStep, StoreError};
use ovpn_admin::config::{accept_pepper, AppCfg, DbCfg, Ovpn, ServerCfg, PepperTooShort};
use ovpn_admin::session::{create_session, session_at, session_live, step_up, SessionRecord};

fn record(expires_at: i64) -> SessionRecord {
    SessionRecord { user_id: "u1".to_string(), expires_at, last_stepup: 0 }
}

#[test]
fn session_lives_until_created_plus_ttl() {
    let s = session_at("id".to_string(), "u1", 1_000, 3_600);
    assert_eq!(s.created_at, 1_000);
    assert_eq!(s.expires_at, 4_600);
    let rec = record(s.expires_at);
    assert!(session_live(&rec, 1_000));
    assert!(session_live(&rec, 4_599));
    assert!(!session_live(&rec, 4_600));
    assert!(!session_live(&rec, 10_000));
}

#[test]
fn expiry_saturates() {
    let s = session_at("id".to_string(), "u1", i64::MAX - 5, 3_600);
    assert_eq!(s.expires_at, i64::MAX);
}

#[test]
fn created_session_has_random_id_and_current_time() {
    let a = create_session("u1", 60);
    let b = create_session("u1", 60);
    assert_eq!(a.id.len(), 43);
    assert_ne!(a.id, b.id);
    assert_eq!(a.user_id, "u1");
    assert!(a.created_at > 1_600_000_000);
    assert_eq!(a.expires_at, a.created_at + 60);
    let s = step_up("S1");
    assert_eq!(s.sid, "S1");
    assert!(s.at >= a.created_at);
}

#[test]
fn resolution_needs_a_cookie() {
    assert!(matches!(resolve_start(None, "sid"), ResolveStep::Reject(401)));
    assert!(matches!(resolve_start(Some("other=1"), "sid"), ResolveStep::Reject(401)));
    match resolve_start(Some("sid=abc"), "sid") {
        ResolveStep::LoadSession { sid } => assert_eq!(sid, "abc"),
        _ => panic!("expected a session load"),
    }
}

#[test]
fn resolution_checks_expiry() {
    assert!(matches!(resolve_loaded(Err(StoreError), 10), ResolveStep::Reject(500)));
    assert!(matches!(resolve_loaded(Ok(None), 10), ResolveStep::Reject(401)));
    assert!(matches!(resolve_loaded(Ok(Some(record(10))), 10), ResolveStep::Reject(401)));
    match resolve_loaded(Ok(Some(record(11))), 10) {
        ResolveStep::FindUsername { user_id } => assert_eq!(user_id, "u1"),
        _ => panic!("expected a user lookup"),
    }
}

#[test]
fn resolution_builds_the_identity() {
    assert!(matches!(resolve_named("u1".to_string(), Err(StoreError)), ResolveStep::Reject(500)));
    match resolve_named("u1".to_string(), Ok("alice".to_string())) {
        ResolveStep::LoadRoles { user_id, username } => {
            assert_eq!(user_id, "u1");
            assert_eq!(username, "alice");
        }
        _ => panic!("expected a roles load"),
    }
    assert_eq!(resolve_done("u1".to_string(), "alice".to_string(), Err(StoreError)).err(), Some(500));
    let s = resolve_done("u1".to_string(), "alice".to_string(), Ok(vec!["OPS".to_string()])).ok().unwrap();
    assert_eq!(s.username, "alice");
    assert_eq!(s.roles, vec!["OPS".to_string()]);
}

fn cfg(ttl: u64) -> AppCfg {
    AppCfg {
        server: ServerCfg {
            bind: "127.0.0.1:8080".to_string(),
            cookie_name: "sid".to_string(),
            session_ttl_secs: ttl,
            pepper_file: "pepper".to_string(),
        },
        db: DbCfg { url: "sqlite::memory:".to_string() },
        ovpn: Ovpn {
            vpncertctl_path: String::new(),
            socket_path: "/run/vpncertd.sock".to_string(),
            ccd_dir: "/etc/openvpn/ccd".to_string(),
            cn_pattern: "^[a-z0-9_-]+$".to_string(),
            bundle_remote: "vpn.example.org".to_string(),
            bundle_port: 1194,
            bundle_proto: "udp".to_string(),
            bundles_dir: "/var/lib/bundles".to_string(),
        },
    }
}

#[test]
fn session_ttl_comes_from_config() {
    assert_eq!(cfg(3600).session_ttl(), std::time::Duration::from_secs(3600));
    assert_eq!(cfg(3600).session_ttl_seconds(), 3600);
    assert_eq!(cfg(u64::MAX).session_ttl_seconds(), i64::MAX);
}

#[test]
fn pepper_needs_sixteen_bytes() {
    assert_eq!(accept_pepper(vec![7u8; 15]), Err(PepperTooShort));
    assert_eq!(accept_pepper(vec![7u8; 16]), Ok(vec![7u8; 16]));
    assert_eq!(accept_pepper(Vec::new()), Err(PepperTooShort));
}

#[test]
fn cookie_name_must_be_sendable() {
    assert!(cfg(60).cookie_name_sendable());
    let mut c = cfg(60);
    c.server.cookie_name = "bad\nname".to_string();
    assert!(!c.cookie_name_sendable());
}
