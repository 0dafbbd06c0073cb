use ovpn_admin::csrf::{issue_token, needs_csrf, protect, Method, CSRF_COOKIE, CSRF_HEADER};

#[test]
fn post_without_header_is_forbidden() {
    assert_eq!(protect(Method::Post, None, Some("XSRF-TOKEN=abc")), Err(403));
}

#[test]
fn post_with_mismatched_token_is_forbidden() {
    assert_eq!(protect(Method::Post, Some("abd"), Some("XSRF-TOKEN=abc")), Err(403));
    assert_eq!(protect(Method::Delete, Some("abc"), None), Err(403));
    assert_eq!(protect(Method::Put, Some("abc"), Some("other=abc")), Err(403));
}

#[test]
fn post_with_matching_token_passes() {
    assert_eq!(protect(Method::Post, Some("abc"), Some("sid=1; XSRF-TOKEN=abc")), Ok(()));
    assert_eq!(protect(Method::Patch, Some(""), Some("XSRF-TOKEN=")), Ok(()));
}

#[test]
fn get_bypasses_the_check() {
    assert_eq!(protect(Method::Get, None, None), Ok(()));
    assert_eq!(protect(Method::Get, Some("abd"), Some("XSRF-TOKEN=abc")), Ok(()));
    assert_eq!(protect(Method::Head, None, None), Ok(()));
}

#[test]
fn state_changing_methods() {
    assert!(needs_csrf(Method::Post));
    assert!(needs_csrf(Method::Put));
    assert!(needs_csrf(Method::Patch));
    assert!(needs_csrf(Method::Delete));
    assert!(!needs_csrf(Method::Get));
    assert!(!needs_csrf(Method::Options));
    assert!(!needs_csrf(Method::Other));
}

#[test]
fn issued_token_cookie_has_the_expected_shape() {
    let c = issue_token();
    assert!(c.starts_with("XSRF-TOKEN="));
    assert!(c.ends_with("; SameSite=Strict; Secure; Path=/"));
    assert!(!c.contains("HttpOnly"));
    let token = &c["XSRF-TOKEN=".len()..c.find(';').unwrap()];
    assert_eq!(token.len(), 43);
    assert!(token.chars().all(|ch| ch.is_ascii_alphanumeric() || ch == '-' || ch == '_'));
    assert_ne!(issue_token(), c);
    assert_eq!(CSRF_COOKIE, "XSRF-TOKEN");
    assert_eq!(CSRF_HEADER, "X-CSRF-Token");
}
