use ovpn_admin::password::{hash_password, lanes_checked, verify_password, PHC_HEAD};

const PEPPER: &[u8] = b"0123456789abcdef-pepper";

#[test]
fn hash_then_verify_round_trip() {
    let h = hash_password("s3cret!", PEPPER).expect("hashing works");
    assert!(h.starts_with("$argon2id$v=19$m=65536,t=2,p=1$"));
    assert!(verify_password("s3cret!", &h, PEPPER));
}

#[test]
fn other_pepper_or_password_is_refused() {
    let h = hash_password("s3cret!", PEPPER).expect("hashing works");
    assert!(!verify_password("s3cret!", &h, b"another-pepper-of-16"));
    assert!(!verify_password("s3cret?", &h, PEPPER));
}

#[test]
fn malformed_hash_gives_false() {
    assert!(!verify_password("pw", "", PEPPER));
    assert!(!verify_password("pw", "not a phc string", PEPPER));
    assert!(!verify_password("pw", "$argon2id$v=19$m=65536,t=2,p=1$$", PEPPER));
    assert!(!verify_password("pw", "$bogus$", PEPPER));
}

#[test]
fn salts_differ_between_hashes() {
    let a = hash_password("same", PEPPER).expect("hashing works");
    let b = hash_password("same", PEPPER).expect("hashing works");
    assert_ne!(a, b);
}

#[test]
fn hash_has_fixed_head_and_no_pepper() {
    let h = hash_password("pw", b"sixteen-byte-pep").expect("a 16-byte pepper is accepted");
    assert!(h.starts_with(PHC_HEAD));
    assert_eq!(PHC_HEAD, "$argon2id$v=19$m=65536,t=2,p=1$");
    assert!(!h.contains("sixteen"));
    assert_eq!(h.matches('$').count(), 5);
    assert_eq!(hash_password("", PEPPER).map(|s| s.starts_with(PHC_HEAD)), Ok(true));
}

#[test]
fn huge_lane_count_gives_false_without_panic() {
    let bad = "$argon2id$v=19$m=65536,t=2,p=600000000$c2FsdHNhbHRzYWx0$aGFzaGhhc2hoYXNoaGFzaA";
    assert!(!verify_password("pw", bad, PEPPER));
    let bad = "$argon2id$v=19$m=65536,t=2,p=4294967295$c2FsdHNhbHRzYWx0$aGFzaGhhc2hoYXNoaGFzaA";
    assert!(!verify_password("pw", bad, PEPPER));
    let big = "$argon2id$v=19$m=65536,t=2,p=99999999$c2FsdHNhbHRzYWx0$aGFzaGhhc2hoYXNoaGFzaA";
    assert!(!verify_password("pw", big, PEPPER));
}

#[test]
fn lane_guard_counts_digits() {
    assert!(lanes_checked("$argon2id$v=19$m=65536,t=2,p=1$abc$def"));
    assert!(lanes_checked("p=12345678"));
    assert!(!lanes_checked("p=123456789"));
    assert!(!lanes_checked("x,p=000000000"));
    assert!(lanes_checked(""));
    assert!(lanes_checked("p="));
}
